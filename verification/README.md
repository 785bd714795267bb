# native_bot

The decision layer of a built-in mahjong bot, verified with Verus.

- `src/action_codec.rs`: the bot's action type, action ids in the engine's
  canonical encoding (riichienv-core), the action space per mode and the
  legal-action mask.
- `src/ranking.rs`: ranking of legal moves by score keys, one entry per
  action id with the plain copy of a five preferred over the red one; the
  pick, the top-n and the top discards, and the laws that tie them together.
- `src/by_id.rs`: the map from action id to the action standing for it.
- `src/selection.rs`: sampling level handling and the xorshift64* generator.
- `src/config.rs`: the bot's configuration (API activation, proxy toggle,
  per-mode bot names, legacy migration).
- `src/tiles.rs`: tile-id conventions (red fives, tile-type dimension).
- `app/`: what stays outside the verified library: conversions from the
  engine's `Action`, float scores and softmax probabilities, the weighted
  sampler's float draws, and the serde forms of the configuration.
