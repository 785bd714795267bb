//! Configuration of the built-in bot: weighted-discard selection, optional
//! cloud inference, and which bot plays each game mode.

use vstd::prelude::*;

verus! {

/// Weighted-discard selection for the built-in bot's local model. By
/// default the autoplay always plays the model's top pick
/// (`randomize_level = 0`); raising the level makes it sometimes play a
/// runner-up tile drawn from the model's top discard probabilities.
#[derive(Debug, Clone, Copy, PartialEq, Eq, Structural)]
pub struct BotSelectionConfig {
    /// 0 = off (always play the model's top pick). 1..=5 = weighted sampling
    /// level. Values above 5 are clamped by the engine.
    pub randomize_level: u8,
}

impl Default for BotSelectionConfig {
    fn default() -> (c: Self)
        ensures
            c.randomize_level == 0,
    {
        BotSelectionConfig { randomize_level: 0 }
    }
}

/// Whether `c` has the Unicode `White_Space` property (the whitespace that
/// `str::trim` removes).
pub open spec fn is_unicode_whitespace(c: char) -> bool {
    let u = c as u32;
    ||| 0x09 <= u <= 0x0d
    ||| u == 0x20
    ||| u == 0x85
    ||| u == 0xa0
    ||| u == 0x1680
    ||| 0x2000 <= u <= 0x200a
    ||| u == 0x2028
    ||| u == 0x2029
    ||| u == 0x202f
    ||| u == 0x205f
    ||| u == 0x3000
}

/// `s` without its leading whitespace.
pub open spec fn trim_start_spec(s: Seq<char>) -> Seq<char>
    decreases s.len(),
{
    if s.len() > 0 && is_unicode_whitespace(s[0]) {
        trim_start_spec(s.drop_first())
    } else {
        s
    }
}

/// `s` without its trailing whitespace.
pub open spec fn trim_end_spec(s: Seq<char>) -> Seq<char>
    decreases s.len(),
{
    if s.len() > 0 && is_unicode_whitespace(s.last()) {
        trim_end_spec(s.drop_last())
    } else {
        s
    }
}

/// `s` without its leading and trailing whitespace.
pub open spec fn trim_spec(s: Seq<char>) -> Seq<char> {
    trim_end_spec(trim_start_spec(s))
}

/// Every character of `s` is whitespace (the empty text included).
pub open spec fn is_blank(s: Seq<char>) -> bool {
    forall|i: int| 0 <= i < s.len() ==> is_unicode_whitespace(#[trigger] s[i])
}

proof fn lemma_trim_start(s: Seq<char>)
    ensures
        trim_start_spec(s).len() == 0 <==> is_blank(s),
        trim_start_spec(s).len() == 0 || !is_unicode_whitespace(trim_start_spec(s)[0]),
    decreases s.len(),
{
    if s.len() > 0 && is_unicode_whitespace(s[0]) {
        lemma_trim_start(s.drop_first());
        if is_blank(s.drop_first()) {
            assert forall|i: int| 0 <= i < s.len() implies is_unicode_whitespace(#[trigger] s[i]) by {
                if i > 0 {
                    assert(s[i] == s.drop_first()[i - 1]);
                }
            }
        }
        if is_blank(s) {
            assert forall|i: int| 0 <= i < s.drop_first().len() implies is_unicode_whitespace(
                #[trigger] s.drop_first()[i],
            ) by {
                assert(s.drop_first()[i] == s[i + 1]);
            }
        }
    } else if s.len() > 0 {
        assert(!is_unicode_whitespace(s[0]));
    }
}

proof fn lemma_trim_end(s: Seq<char>)
    ensures
        trim_end_spec(s).len() == 0 <==> is_blank(s),
    decreases s.len(),
{
    if s.len() > 0 && is_unicode_whitespace(s.last()) {
        lemma_trim_end(s.drop_last());
        if is_blank(s.drop_last()) {
            assert forall|i: int| 0 <= i < s.len() implies is_unicode_whitespace(#[trigger] s[i]) by {
                if i < s.len() - 1 {
                    assert(s[i] == s.drop_last()[i]);
                }
            }
        }
        if is_blank(s) {
            assert forall|i: int| 0 <= i < s.drop_last().len() implies is_unicode_whitespace(
                #[trigger] s.drop_last()[i],
            ) by {
                assert(s.drop_last()[i] == s[i]);
            }
        }
    } else if s.len() > 0 {
        assert(!is_unicode_whitespace(s[s.len() - 1]));
    }
}

/// Trimming leaves nothing exactly when the text is all whitespace.
pub proof fn law_trim_empty_iff_blank(s: Seq<char>)
    ensures
        trim_spec(s).len() == 0 <==> is_blank(s),
{
    lemma_trim_start(s);
    let t = trim_start_spec(s);
    lemma_trim_end(t);
    if t.len() > 0 {
        assert(!is_blank(t));
    }
}

/// Calls `str::trim`, which std documents as removing leading and trailing
/// whitespace, whitespace being the Unicode `White_Space` property.
/// Claimed: the result is `s` without its leading and trailing whitespace.
#[verifier::external_body]
fn trim_text(s: &str) -> (t: &str)
    ensures
        t@ == trim_spec(s@),
{
    s.trim()
}

/// Default inference server. Pre-filled so users don't have to type it; the
/// API still stays inactive until they enable it and paste a key.
pub const DEFAULT_API_BASE_URL: &'static str = "https://mjapi.shinkuan.me";

/// Optional cloud-inference settings for the built-in (native) bot.
///
/// When `is_active`, the built-in bot proxies each decision to a remote
/// inference server instead of running the embedded local model; the local
/// model stays loaded as a fallback. Everything defaults empty / disabled so
/// a fresh install uses the offline local model until the user opts in.
#[derive(Debug, Clone, PartialEq, Eq)]
pub struct NativeApiConfig {
    /// Route built-in-bot decisions through the remote API. Ignored unless a
    /// `base_url` and `key` are also set.
    pub enabled: bool,
    /// Base URL of the inference server. A trailing slash is tolerated.
    pub base_url: String,
    /// Bearer API key.
    pub key: String,
    /// Model id for 4-player games. Empty: the server's default 4p model.
    pub model_4p: String,
    /// Model id for 3-player games. Empty: the server's default 3p model.
    pub model_3p: String,
    /// Whether `proxy` is applied. When false the server is reached directly
    /// even if `proxy` holds a value.
    pub proxy_enabled: bool,
    /// Proxy for all requests to the inference server; applied only when
    /// `proxy_enabled`; empty: direct.
    pub proxy: String,
}

/// The API path is fully configured: opted in, with a server URL and a key
/// that are not blank.
pub open spec fn spec_is_active(c: NativeApiConfig) -> bool {
    c.enabled && trim_spec(c.base_url@).len() > 0 && trim_spec(c.key@).len() > 0
}

/// The model id requested for a player count: 3 uses the 3p model, any
/// other count the 4p model.
pub open spec fn spec_model_for(c: NativeApiConfig, num_players: u8) -> Seq<char> {
    if num_players == 3 {
        c.model_3p@
    } else {
        c.model_4p@
    }
}

/// The proxy in effect: the trimmed `proxy` when enabled, else empty.
pub open spec fn spec_effective_proxy(c: NativeApiConfig) -> Seq<char> {
    if c.proxy_enabled {
        trim_spec(c.proxy@)
    } else {
        Seq::empty()
    }
}

impl Default for NativeApiConfig {
    fn default() -> (c: Self)
        ensures
            !c.enabled,
            c.base_url@ == DEFAULT_API_BASE_URL@,
            c.key@.len() == 0,
            c.model_4p@.len() == 0,
            c.model_3p@.len() == 0,
            !c.proxy_enabled,
            c.proxy@.len() == 0,
            !spec_is_active(c),
            spec_effective_proxy(c).len() == 0,
    {
        NativeApiConfig {
            enabled: false,
            base_url: DEFAULT_API_BASE_URL.to_owned(),
            key: String::new(),
            model_4p: String::new(),
            model_3p: String::new(),
            proxy_enabled: false,
            proxy: String::new(),
        }
    }
}

impl NativeApiConfig {
    /// True only when the API path is fully configured (opted in with both a
    /// server URL and a key).
    pub fn is_active(&self) -> (b: bool)
        ensures
            b == spec_is_active(*self),
            b == (self.enabled && !is_blank(self.base_url@) && !is_blank(self.key@)),
    {
        proof {
            law_trim_empty_iff_blank(self.base_url@);
            law_trim_empty_iff_blank(self.key@);
        }
        self.enabled && !trim_text(self.base_url.as_str()).is_empty() && !trim_text(
            self.key.as_str(),
        ).is_empty()
    }

    /// Model id to request for the given player count. Empty: omit the
    /// `model` field and let the server pick its game default.
    pub fn model_for(&self, num_players: u8) -> (m: &str)
        ensures
            m@ == spec_model_for(*self, num_players),
            num_players == 3 ==> m@ == self.model_3p@,
            num_players != 3 ==> m@ == self.model_4p@,
    {
        if num_players == 3 {
            self.model_3p.as_str()
        } else {
            self.model_4p.as_str()
        }
    }

    /// The proxy actually used for inference-server traffic: the trimmed
    /// `proxy` when `proxy_enabled`, else `""` (direct), so a disabled but
    /// non-empty proxy never leaks into a client build.
    pub fn effective_proxy(&self) -> (p: &str)
        ensures
            p@ == spec_effective_proxy(*self),
            !self.proxy_enabled ==> p@ == Seq::<char>::empty(),
            self.proxy_enabled ==> p@ == trim_spec(self.proxy@),
    {
        if self.proxy_enabled {
            trim_text(self.proxy.as_str())
        } else {
            proof {
                reveal_strlit("");
            }
            ""
        }
    }
}

/// Which bot plays each mode, and the built-in bot's settings.
#[derive(Debug, Clone)]
pub struct BotConfig {
    /// Master switch. When `false`, no bot manager is spawned.
    pub enabled: bool,
    /// Active bot for 4-player games (a subdirectory of `dir`).
    pub active_4p: String,
    /// Active bot for 3-player games. Empty: no bot configured for 3p.
    pub active_3p: String,
    /// Legacy field, read only to migrate it into `active_4p`.
    pub active: String,
    /// Run `uv sync` automatically before spawning the bot.
    pub auto_sync: bool,
    /// Root directory containing one subdirectory per bot.
    pub dir: String,
    /// Weighted-discard selection for the built-in bot's local model.
    pub selection: BotSelectionConfig,
    /// Optional cloud-inference settings for the built-in bot.
    pub api: NativeApiConfig,
}

/// The bot name for a player count: 3 uses `active_3p`, any other count
/// `active_4p`.
pub open spec fn spec_active_for(c: BotConfig, num_players: u8) -> Seq<char> {
    if num_players == 3 {
        c.active_3p@
    } else {
        c.active_4p@
    }
}

/// Legacy migration on `(active, active_4p)`: a non-empty legacy name moves
/// into an empty `active_4p`; in every case the legacy field ends empty.
/// Returns the new `(active, active_4p)`.
pub open spec fn spec_migrate(active: Seq<char>, active_4p: Seq<char>) -> (Seq<char>, Seq<char>) {
    if active.len() > 0 && active_4p.len() == 0 {
        (Seq::empty(), active)
    } else {
        (Seq::empty(), active_4p)
    }
}

impl BotConfig {
    /// The default configuration, with the built-in bots `active_4p` and
    /// `active_3p` active: enabled, no legacy value, `uv sync` on, bots under
    /// `mjai_bot`, default selection and API settings.
    pub fn defaults_with_bots(active_4p: String, active_3p: String) -> (c: Self)
        ensures
            c.enabled,
            c.active_4p@ == active_4p@,
            c.active_3p@ == active_3p@,
            c.active@.len() == 0,
            c.auto_sync,
            c.dir@ == "mjai_bot"@,
            c.selection.randomize_level == 0,
            !c.api.enabled,
            c.api.base_url@ == DEFAULT_API_BASE_URL@,
            c.api.key@.len() == 0,
            c.api.model_4p@.len() == 0,
            c.api.model_3p@.len() == 0,
            !c.api.proxy_enabled,
            c.api.proxy@.len() == 0,
            !spec_is_active(c.api),
    {
        BotConfig {
            enabled: true,
            active_4p,
            active_3p,
            active: String::new(),
            auto_sync: true,
            dir: "mjai_bot".to_owned(),
            selection: BotSelectionConfig::default(),
            api: NativeApiConfig::default(),
        }
    }

    /// Pick the active bot name for the given player count. 3: `active_3p`,
    /// anything else: `active_4p`.
    pub fn active_for(&self, num_players: u8) -> (n: &str)
        ensures
            n@ == spec_active_for(*self, num_players),
            num_players == 3 ==> n@ == self.active_3p@,
            num_players != 3 ==> n@ == self.active_4p@,
    {
        if num_players == 3 {
            self.active_3p.as_str()
        } else {
            self.active_4p.as_str()
        }
    }

    /// Migrate the legacy `active` field into `active_4p` if the config
    /// predates the per-mode split; drop any legacy value otherwise.
    pub fn migrate_legacy_active(&mut self)
        ensures
            (final(self).active@, final(self).active_4p@) == spec_migrate(old(self).active@, old(self).active_4p@),
            final(self).active@.len() == 0,
            old(self).active@.len() > 0 && old(self).active_4p@.len() == 0 ==> final(self).active_4p@
                == old(self).active@,
            !(old(self).active@.len() > 0 && old(self).active_4p@.len() == 0) ==> final(self).active_4p@
                == old(self).active_4p@,
            final(self).enabled == old(self).enabled,
            final(self).active_3p == old(self).active_3p,
            final(self).auto_sync == old(self).auto_sync,
            final(self).dir == old(self).dir,
            final(self).selection == old(self).selection,
            final(self).api == old(self).api,
    {
        if !self.active.as_str().is_empty() && self.active_4p.as_str().is_empty() {
            std::mem::swap(&mut self.active_4p, &mut self.active);
        } else {
            self.active = String::new();
        }
    }
}

/// Migration is idempotent: migrating a migrated configuration changes
/// nothing more.
pub proof fn law_migration_idempotent(active: Seq<char>, active_4p: Seq<char>)
    ensures
        ({
            let (a1, f1) = spec_migrate(active, active_4p);
            spec_migrate(a1, f1) == (a1, f1)
        }),
{
}

/// After migration a legacy name is what 4-player games play, where no
/// 4-player bot was set.
pub proof fn law_migration_fills_4p(active: Seq<char>, active_4p: Seq<char>)
    requires
        active.len() > 0,
        active_4p.len() == 0,
    ensures
        spec_migrate(active, active_4p).1 == active,
{
}

/// The proxy toggle is authoritative: with `proxy_enabled` off the proxy in
/// effect is empty whatever the other fields hold (the API switch and the
/// typed proxy included); with it on, it is the typed proxy, trimmed.
pub proof fn law_proxy_toggle_is_authoritative(c: NativeApiConfig)
    ensures
        !c.proxy_enabled ==> spec_effective_proxy(c) == Seq::<char>::empty(),
        c.proxy_enabled ==> spec_effective_proxy(c) == trim_spec(c.proxy@),
{
}

} // verus!
