//! Action indexing shared by extraction, training and inference.
//!
//! Ids are the engine's canonical action encoding, so labels line up with its
//! legal-action enumeration:
//! - 4-player: 82 ids: `0..=33` discard (tile type), 37 riichi, 38/39/40 chi
//!   low/mid/high, 41 pon, `42..=75` kan (42 + tile type), 79 agari,
//!   80 kyushu, 81 pass.
//! - 3-player: 60 ids: `0..=26` discard (compact tile type), 27 riichi,
//!   28 pon, `29..=55` kan, 56 agari, 57 kyushu, 58 pass, 59 kita.

use vstd::prelude::*;

use riichienv_core::action::Action as EngineAction;
use riichienv_core::action::ActionEncoder;
use riichienv_core::action::ActionType as EngineKind;
use riichienv_core::action::ACTION_SPACE_3P;
use riichienv_core::action::ACTION_SPACE_4P;

use crate::tiles::is_aka;
use crate::tiles::spec_is_aka;

verus! {

/// Kind of a move; the same variants as the engine's action type.
#[derive(Debug, Clone, Copy, PartialEq, Eq, Structural)]
pub enum ActionType {
    Discard,
    Chi,
    Pon,
    Daiminkan,
    Ron,
    Riichi,
    Tsumo,
    Pass,
    Ankan,
    Kakan,
    KyushuKyuhai,
    Kita,
}

/// One move as the engine enumerates it: one value per physical tile copy,
/// so several moves may share an action id.
#[derive(Debug, Clone)]
pub struct Action {
    pub action_type: ActionType,
    pub tile: Option<u8>,
    pub consume_tiles: Vec<u8>,
    pub actor: Option<u8>,
}

/// What an action is made of, as plain values.
pub type ActionView = (ActionType, Option<u8>, Seq<u8>, Option<u8>);

impl View for Action {
    type V = ActionView;

    open spec fn view(&self) -> ActionView {
        (self.action_type, self.tile, self.consume_tiles@, self.actor)
    }
}

impl Action {
    /// Builds an action from its parts.
    pub fn new(
        action_type: ActionType,
        tile: Option<u8>,
        consume_tiles: Vec<u8>,
        actor: Option<u8>,
    ) -> (a: Action)
        ensures
            a.action_type == action_type,
            a.tile == tile,
            a.consume_tiles@ == consume_tiles@,
            a.actor == actor,
    {
        Action { action_type, tile, consume_tiles, actor }
    }
}

/// The id that the engine's encoder for `num_players` players gives the
/// engine action built from `action`, or `None` where the engine refuses it.
pub uninterp spec fn engine_action_id(num_players: u8, action: ActionView) -> Option<usize>;

/// The 3-player compact index of a tile type: 1m, 9m, the pinzu, souzu and
/// honours keep their order; 2m..8m (and types past 33) have none.
pub open spec fn compact_3p(tile_type: int) -> Option<usize> {
    if tile_type == 0 {
        Some(0usize)
    } else if 8 <= tile_type < 34 {
        Some((tile_type - 7) as usize)
    } else {
        None
    }
}

/// `compact_3p` shifted by `offset`.
pub open spec fn compact_3p_plus(tile_type: int, offset: int) -> Option<usize> {
    match compact_3p(tile_type) {
        Some(c) => Some((c + offset) as usize),
        None => None,
    }
}

/// `s[k]` is a lowest element of `s`.
pub open spec fn is_lowest(s: Seq<u8>, k: int) -> bool {
    forall|j: int| 0 <= j < s.len() ==> s[k] <= #[trigger] s[j]
}

/// What the engine's encoder is seen to do with an action, for the kinds
/// whose id a few lines fix. Chi (4-player) is left at "one of 38, 39, 40
/// or refused"; a closed or added kan is encoded from its lowest consumed
/// tile (the engine sorts them and takes the first).
pub open spec fn engine_encoding_facts(num_players: u8, a: ActionView, id: Option<usize>) -> bool {
    let (kind, tile, consumed, _actor) = a;
    if num_players == 3 {
        &&& (id matches Some(i) ==> i < 60)
        &&& (kind == ActionType::Discard ==> id == match tile {
            Some(t) => compact_3p((t / 4) as int),
            None => None::<usize>,
        })
        &&& (kind == ActionType::Riichi ==> id == Some(27usize))
        &&& (kind == ActionType::Chi ==> id == None::<usize>)
        &&& (kind == ActionType::Pon ==> id == Some(28usize))
        &&& (kind == ActionType::Daiminkan ==> id == match tile {
            Some(t) => compact_3p_plus((t / 4) as int, 29),
            None => None::<usize>,
        })
        &&& ((kind == ActionType::Ankan || kind == ActionType::Kakan) ==> if consumed.len() == 0 {
            id == None::<usize>
        } else {
            exists|k: int|
                0 <= k < consumed.len() && is_lowest(consumed, k) && id == compact_3p_plus(
                    (#[trigger] consumed[k] / 4) as int,
                    29,
                )
        })
        &&& ((kind == ActionType::Ron || kind == ActionType::Tsumo) ==> id == Some(56usize))
        &&& (kind == ActionType::KyushuKyuhai ==> id == Some(57usize))
        &&& (kind == ActionType::Pass ==> id == Some(58usize))
        &&& (kind == ActionType::Kita ==> id == Some(59usize))
    } else {
        &&& (kind == ActionType::Discard ==> id == match tile {
            Some(t) => Some((t / 4) as usize),
            None => None::<usize>,
        })
        &&& (kind == ActionType::Riichi ==> id == Some(37usize))
        &&& (kind == ActionType::Chi ==> match tile {
            Some(_) => id == None::<usize> || (id matches Some(i) && 38 <= i <= 40),
            None => id == None::<usize>,
        })
        &&& (kind == ActionType::Pon ==> id == Some(41usize))
        &&& (kind == ActionType::Daiminkan ==> id == match tile {
            Some(t) => Some((42 + t / 4) as usize),
            None => None::<usize>,
        })
        &&& ((kind == ActionType::Ankan || kind == ActionType::Kakan) ==> if consumed.len() == 0 {
            id == None::<usize>
        } else {
            exists|k: int|
                0 <= k < consumed.len() && is_lowest(consumed, k) && id == Some(
                    (42 + #[trigger] consumed[k] / 4) as usize,
                )
        })
        &&& ((kind == ActionType::Ron || kind == ActionType::Tsumo) ==> id == Some(79usize))
        &&& (kind == ActionType::KyushuKyuhai ==> id == Some(80usize))
        &&& (kind == ActionType::Pass ==> id == Some(81usize))
        &&& (kind == ActionType::Kita ==> id == None::<usize>)
    }
}

/// Calls `ActionEncoder::encode` of riichienv-core on the engine action that
/// `Action::new` builds from `action`, with the encoder that
/// `ActionEncoder::from_num_players` picks; an error becomes `None`.
/// Claimed: the result is the named engine id, and the per-kind ids that the
/// engine's source fixes (`engine_encoding_facts`). How a 4-player chi picks
/// among 38, 39 and 40 is left to the name.
#[verifier::external_body]
fn engine_encode(action: &Action, num_players: u8) -> (id: Option<usize>)
    ensures
        id == engine_action_id(num_players, action@),
        engine_encoding_facts(num_players, action@, id),
{
    let kind = match action.action_type {
        ActionType::Discard => EngineKind::Discard, ActionType::Chi => EngineKind::Chi,
        ActionType::Pon => EngineKind::Pon, ActionType::Daiminkan => EngineKind::Daiminkan,
        ActionType::Ron => EngineKind::Ron, ActionType::Riichi => EngineKind::Riichi,
        ActionType::Tsumo => EngineKind::Tsumo, ActionType::Pass => EngineKind::Pass,
        ActionType::Ankan => EngineKind::Ankan, ActionType::Kakan => EngineKind::Kakan,
        ActionType::KyushuKyuhai => EngineKind::KyushuKyuhai, ActionType::Kita => EngineKind::Kita,
    };
    let engine = EngineAction::new(kind, action.tile, action.consume_tiles.clone(), action.actor);
    ActionEncoder::from_num_players(num_players).encode(&engine).ok().map(|i| i as usize)
}

/// The constant `ACTION_SPACE_4P` of riichienv-core, which its source sets to 82.
#[verifier::external_body]
fn engine_action_space_4p() -> (n: usize)
    ensures
        n == 82,
{
    ACTION_SPACE_4P
}

/// The constant `ACTION_SPACE_3P` of riichienv-core, which its source sets to 60.
#[verifier::external_body]
fn engine_action_space_3p() -> (n: usize)
    ensures
        n == 60,
{
    ACTION_SPACE_3P
}

/// Size of the action space: 60 for 3 players, 82 otherwise.
pub open spec fn spec_action_space(num_players: u8) -> usize {
    if num_players == 3 { 60 } else { 82 }
}

/// Size of the discrete action space for the given player count.
pub fn action_space(num_players: u8) -> (n: usize)
    ensures
        n == spec_action_space(num_players),
        num_players == 3 ==> n == 60,
        num_players != 3 ==> n == 82,
{
    if num_players == 3 {
        engine_action_space_3p()
    } else {
        engine_action_space_4p()
    }
}

/// Id of `Pass`: 58 for 3 players, 81 otherwise.
pub open spec fn spec_pass_index(num_players: u8) -> usize {
    if num_players == 3 { 58 } else { 81 }
}

/// Action id of `Pass` for the given player count.
pub fn pass_index(num_players: u8) -> (i: usize)
    ensures
        i == spec_pass_index(num_players),
        i < spec_action_space(num_players),
        num_players == 3 ==> i == 58,
        num_players != 3 ==> i == 81,
{
    if num_players == 3 {
        58
    } else {
        81
    }
}

/// The index of an action in the mode's action space: the engine's id where
/// it lies inside the space, else none.
pub open spec fn spec_action_index(num_players: u8, a: ActionView) -> Option<usize> {
    match engine_action_id(num_players, a) {
        Some(i) => if i < spec_action_space(num_players) {
            Some(i)
        } else {
            None
        },
        None => None,
    }
}

/// Index of an action in the mode's action space, or `None` if the action is
/// invalid for that mode (e.g. chi in sanma, or a tile id outside the tile
/// set that would encode past the end of the space).
pub fn action_index(action: &Action, num_players: u8) -> (r: Option<usize>)
    ensures
        r == spec_action_index(num_players, action@),
        r matches Some(i) ==> i < spec_action_space(num_players),
        engine_encoding_facts(num_players, action@, engine_action_id(num_players, action@)),
        action.action_type == ActionType::Pass ==> r == Some(spec_pass_index(num_players)),
{
    let space = action_space(num_players);
    match engine_encode(action, num_players) {
        Some(i) => if i < space {
            Some(i)
        } else {
            None
        },
        None => None,
    }
}

/// Some action of `legal` has index `id`.
pub open spec fn some_action_encodes_to(legal: Seq<Action>, num_players: u8, id: int) -> bool {
    exists|j: int|
        0 <= j < legal.len() && #[trigger] spec_action_index(num_players, legal[j]@) == Some(
            id as usize,
        )
}

/// The mask that `legal_mask` builds: 1 at each index some legal action has,
/// 0 elsewhere.
pub open spec fn is_legal_mask(mask: Seq<u8>, legal: Seq<Action>, num_players: u8) -> bool {
    &&& mask.len() == spec_action_space(num_players)
    &&& forall|i: int|
        0 <= i < mask.len() ==> #[trigger] mask[i] == if some_action_encodes_to(
            legal,
            num_players,
            i,
        ) {
            1u8
        } else {
            0u8
        }
}

/// Build a legal-action mask (`1` = legal) of length `action_space`.
pub fn legal_mask(legal: &[Action], num_players: u8) -> (mask: Vec<u8>)
    ensures
        is_legal_mask(mask@, legal@, num_players),
{
    let space = action_space(num_players);
    let mut mask: Vec<u8> = vec![0u8; space];
    let mut j: usize = 0;
    while j < legal.len()
        invariant
            j <= legal.len(),
            space == spec_action_space(num_players),
            mask.len() == space,
            forall|i: int|
                0 <= i < space ==> #[trigger] mask@[i] == if exists|k: int|
                    0 <= k < j && #[trigger] spec_action_index(num_players, legal@[k]@) == Some(
                        i as usize,
                    ) {
                    1u8
                } else {
                    0u8
                },
        decreases legal.len() - j,
    {
        let ghost old_mask = mask@;
        let r = action_index(&legal[j], num_players);
        assert(spec_action_index(num_players, legal@[j as int]@) == r);
        match r {
            Some(idx) => {
                mask.set(idx, 1u8);
            },
            None => {},
        }
        assert forall|i: int| 0 <= i < space implies #[trigger] mask@[i] == if exists|k: int|
            0 <= k < j + 1 && #[trigger] spec_action_index(num_players, legal@[k]@) == Some(
                i as usize,
            ) {
            1u8
        } else {
            0u8
        } by {
            if r == Some(i as usize) {
                assert(spec_action_index(num_players, legal@[j as int]@) == Some(i as usize));
            } else {
                assert(mask@[i] == old_mask[i]);
                if exists|k: int|
                    0 <= k < j + 1 && #[trigger] spec_action_index(num_players, legal@[k]@) == Some(
                        i as usize,
                    ) {
                    let k = choose|k: int|
                        0 <= k < j + 1 && #[trigger] spec_action_index(num_players, legal@[k]@)
                            == Some(i as usize);
                    assert(k < j);
                }
            }
        }
        j = j + 1;
    }
    assert forall|i: int| 0 <= i < mask.len() implies #[trigger] mask@[i] == if some_action_encodes_to(
        legal@,
        num_players,
        i,
    ) {
        1u8
    } else {
        0u8
    } by {}
    mask
}

/// Whether this action throws a red five away.
pub open spec fn spec_discards_aka(a: ActionView) -> bool {
    a.0 == ActionType::Discard && (a.1 matches Some(t) && spec_is_aka(t))
}

/// Whether this action throws a **red five** away. A discard is encoded from
/// its tile type, so discarding `5mr` (tid 16) and a plain `5m` (17..19)
/// share one action id; only discards matter, a red five consumed into our
/// own call stays ours.
pub fn discards_aka(a: &Action) -> (r: bool)
    ensures
        r == spec_discards_aka(a@),
        r == (a.action_type == ActionType::Discard && (a.tile == Some(16u8) || a.tile == Some(52u8) || a.tile
            == Some(88u8))),
{
    proof {
        law_red_five_discards_are_tiles_16_52_88(a@);
    }
    match a.action_type {
        ActionType::Discard => match a.tile {
            Some(t) => is_aka(t),
            None => false,
        },
        _ => false,
    }
}

/// An action throws a red five away exactly when it is a discard of tile
/// 16, 52 or 88; a discard of any other copy of a five (17..19, 53..55,
/// 89..91) is a plain copy.
pub proof fn law_red_five_discards_are_tiles_16_52_88(a: ActionView)
    ensures
        spec_discards_aka(a) <==> (a.0 == ActionType::Discard && (a.1 == Some(16u8) || a.1 == Some(52u8) || a.1
            == Some(88u8))),
{
}

} // verus!
