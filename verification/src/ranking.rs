//! Ranking of legal moves by the model's scores, one entry per action id.
//!
//! The engine enumerates one action per physical tile copy, so several legal
//! actions can share an id (and thus a score): the red five and its plain
//! twins, or the two ways to pon a tile held three times. The ranking keeps a
//! single representative per id, never the red-five discard when a plain
//! copy is available, and orders the ids by score, highest first, ties by
//! ascending id.
//!
//! Scores enter as order keys: one `i32` per action id whose order and
//! equality are those of the scores (`keys[id]`); an id past the end of
//! `keys` scores `NEG_INFINITY_KEY`, the key of negative infinity.

use vstd::prelude::*;


use crate::by_id::rank_representatives;
use crate::by_id::representatives;
use crate::action_codec::is_legal_mask;
use crate::action_codec::some_action_encodes_to;
use crate::action_codec::spec_action_index;
use crate::action_codec::law_red_five_discards_are_tiles_16_52_88;
use crate::action_codec::spec_discards_aka;
use crate::action_codec::Action;
use crate::action_codec::ActionType;

verus! {

/// Order key of a score of negative infinity (the score of an id that the
/// score table does not cover).
pub const NEG_INFINITY_KEY: i32 = -2139095040i32;

/// One ranked move: its action id and the position in `legal` of the action
/// that stands for it.
#[derive(Debug, Clone, Copy, PartialEq, Eq, Structural)]
pub struct Candidate {
    pub id: usize,
    pub pos: usize,
}

/// The score key of action id `id`.
pub open spec fn key_at(keys: Seq<i32>, id: usize) -> i32 {
    if id < keys.len() {
        keys[id as int]
    } else {
        NEG_INFINITY_KEY
    }
}

/// Id `a` comes before id `b`: higher score, or equal score and lower id.
pub open spec fn id_ranks_before(keys: Seq<i32>, a: usize, b: usize) -> bool {
    key_at(keys, a) > key_at(keys, b) || (key_at(keys, a) == key_at(keys, b) && a < b)
}

/// `p` is the position of the action standing for `id` among the first
/// `upto` actions: the first action encoding to `id` that is not a red-five
/// discard, or, where every such action is one, the first of them.
pub open spec fn represents_upto(legal: Seq<Action>, num_players: u8, id: usize, p: int, upto: int) -> bool {
    &&& 0 <= p < upto <= legal.len()
    &&& spec_action_index(num_players, legal[p]@) == Some(id)
    &&& if spec_discards_aka(legal[p]@) {
        forall|q: int|
            0 <= q < upto && #[trigger] spec_action_index(num_players, legal[q]@) == Some(id)
                ==> spec_discards_aka(legal[q]@) && p <= q
    } else {
        forall|q: int|
            0 <= q < p && #[trigger] spec_action_index(num_players, legal[q]@) == Some(id)
                ==> spec_discards_aka(legal[q]@)
    }
}

/// `p` is the position of the action standing for `id` in `legal`.
pub open spec fn represents(legal: Seq<Action>, num_players: u8, id: usize, p: int) -> bool {
    represents_upto(legal, num_players, id, p, legal.len() as int)
}

/// `r` is strictly ordered: each entry ranks before every later one.
pub open spec fn is_rank_ordered(r: Seq<Candidate>, keys: Seq<i32>) -> bool {
    forall|i: int, j: int| 0 <= i < j < r.len() ==> id_ranks_before(keys, #[trigger] r[i].id, #[trigger] r[j].id)
}

/// `r` ranks the first `upto` actions of `legal`: strictly ordered, each
/// entry the representative of its id, each id some action encodes to
/// present.
pub open spec fn is_ranking_upto(
    r: Seq<Candidate>,
    legal: Seq<Action>,
    num_players: u8,
    keys: Seq<i32>,
    upto: int,
) -> bool {
    &&& is_rank_ordered(r, keys)
    &&& forall|i: int|
        0 <= i < r.len() ==> represents_upto(legal, num_players, #[trigger] r[i].id, r[i].pos as int, upto)
    &&& forall|q: int|
        0 <= q < upto ==> match #[trigger] spec_action_index(num_players, legal[q]@) {
            Some(d) => exists|i: int| 0 <= i < r.len() && (#[trigger] r[i]).id == d,
            None => true,
        }
}

/// `r` ranks all of `legal`.
pub open spec fn is_ranking(r: Seq<Candidate>, legal: Seq<Action>, num_players: u8, keys: Seq<i32>) -> bool {
    is_ranking_upto(r, legal, num_players, keys, legal.len() as int)
}

/// The ranking of `legal` under `keys` (unique: see `lemma_ranking_unique`).
pub open spec fn spec_ranking(legal: Seq<Action>, num_players: u8, keys: Seq<i32>) -> Seq<Candidate> {
    choose|r: Seq<Candidate>| is_ranking(r, legal, num_players, keys)
}

/// Two positions that both stand for `id` are the same.
pub proof fn lemma_represents_unique(legal: Seq<Action>, num_players: u8, id: usize, p1: int, p2: int, upto: int)
    requires
        represents_upto(legal, num_players, id, p1, upto),
        represents_upto(legal, num_players, id, p2, upto),
    ensures
        p1 == p2,
{
    assert(spec_action_index(num_players, legal[p1]@) == Some(id));
    assert(spec_action_index(num_players, legal[p2]@) == Some(id));
}

/// Two strictly ordered sequences with the same entries are equal.
proof fn lemma_ordered_same_entries(s1: Seq<Candidate>, s2: Seq<Candidate>, keys: Seq<i32>)
    requires
        is_rank_ordered(s1, keys),
        is_rank_ordered(s2, keys),
        forall|i: int| 0 <= i < s1.len() ==> s2.contains(#[trigger] s1[i]),
        forall|j: int| 0 <= j < s2.len() ==> s1.contains(#[trigger] s2[j]),
    ensures
        s1 == s2,
    decreases s1.len(),
{
    if s1.len() == 0 {
        if s2.len() > 0 {
            assert(s1.contains(s2[0]));
        }
        assert(s1 =~= s2);
    } else {
        assert(s2.contains(s1[0]));
        let j = choose|j: int| 0 <= j < s2.len() && s2[j] == s1[0];
        assert(s1.contains(s2[0]));
        let i = choose|i: int| 0 <= i < s1.len() && s1[i] == s2[0];
        if j > 0 {
            assert(id_ranks_before(keys, s2[0].id, s2[j].id));
            if i > 0 {
                assert(id_ranks_before(keys, s1[0].id, s1[i].id));
            }
        }
        assert(s1[0] == s2[0]);
        let t1 = s1.drop_first();
        let t2 = s2.drop_first();
        assert forall|a: int| 0 <= a < t1.len() implies t2.contains(#[trigger] t1[a]) by {
            assert(s1[a + 1] == t1[a]);
            assert(s2.contains(s1[a + 1]));
            let b = choose|b: int| 0 <= b < s2.len() && s2[b] == s1[a + 1];
            assert(id_ranks_before(keys, s1[0].id, s1[a + 1].id));
            assert(b != 0);
            assert(t2[b - 1] == s2[b]);
        }
        assert forall|b: int| 0 <= b < t2.len() implies t1.contains(#[trigger] t2[b]) by {
            assert(s2[b + 1] == t2[b]);
            assert(s1.contains(s2[b + 1]));
            let a = choose|a: int| 0 <= a < s1.len() && s1[a] == s2[b + 1];
            assert(id_ranks_before(keys, s2[0].id, s2[b + 1].id));
            assert(a != 0);
            assert(t1[a - 1] == s1[a]);
        }
        assert forall|x: int, y: int| 0 <= x < y < t1.len() implies id_ranks_before(keys, #[trigger] t1[x].id, #[trigger] t1[y].id) by {
            assert(t1[x] == s1[x + 1] && t1[y] == s1[y + 1]);
        }
        assert forall|x: int, y: int| 0 <= x < y < t2.len() implies id_ranks_before(keys, #[trigger] t2[x].id, #[trigger] t2[y].id) by {
            assert(t2[x] == s2[x + 1] && t2[y] == s2[y + 1]);
        }
        lemma_ordered_same_entries(t1, t2, keys);
        assert(s1 =~= s2) by {
            assert forall|k: int| 0 <= k < s1.len() implies s1[k] == s2[k] by {
                if k > 0 {
                    assert(s1[k] == t1[k - 1]);
                    assert(s2[k] == t2[k - 1]);
                }
            }
        }
    }
}

/// There is at most one ranking of a list of actions.
pub proof fn lemma_ranking_unique(
    r1: Seq<Candidate>,
    r2: Seq<Candidate>,
    legal: Seq<Action>,
    num_players: u8,
    keys: Seq<i32>,
)
    requires
        is_ranking(r1, legal, num_players, keys),
        is_ranking(r2, legal, num_players, keys),
    ensures
        r1 == r2,
{
    let n = legal.len() as int;
    assert forall|i: int| 0 <= i < r1.len() implies r2.contains(#[trigger] r1[i]) by {
        let c = r1[i];
        assert(represents_upto(legal, num_players, c.id, c.pos as int, n));
        assert(spec_action_index(num_players, legal[c.pos as int]@) == Some(c.id));
        let j = choose|j: int| 0 <= j < r2.len() && (#[trigger] r2[j]).id == c.id;
        assert(represents_upto(legal, num_players, r2[j].id, r2[j].pos as int, n));
        lemma_represents_unique(legal, num_players, c.id, c.pos as int, r2[j].pos as int, n);
        assert(r2[j] == c);
    }
    assert forall|i: int| 0 <= i < r2.len() implies r1.contains(#[trigger] r2[i]) by {
        let c = r2[i];
        assert(represents_upto(legal, num_players, c.id, c.pos as int, n));
        assert(spec_action_index(num_players, legal[c.pos as int]@) == Some(c.id));
        let j = choose|j: int| 0 <= j < r1.len() && (#[trigger] r1[j]).id == c.id;
        assert(represents_upto(legal, num_players, r1[j].id, r1[j].pos as int, n));
        lemma_represents_unique(legal, num_players, c.id, c.pos as int, r1[j].pos as int, n);
        assert(r1[j] == c);
    }
    lemma_ordered_same_entries(r1, r2, keys);
}

/// Score key of an id.
fn key_for(keys: &[i32], id: usize) -> (k: i32)
    ensures
        k == key_at(keys@, id),
{
    if id < keys.len() {
        keys[id]
    } else {
        NEG_INFINITY_KEY
    }
}

/// Whether id `a` ranks before id `b`.
fn ranks_before(keys: &[i32], a: usize, b: usize) -> (r: bool)
    ensures
        r == id_ranks_before(keys@, a, b),
{
    let ka = key_for(keys, a);
    let kb = key_for(keys, b);
    ka > kb || (ka == kb && a < b)
}

/// First position of `out` whose entry `c` ranks before.
fn insertion_point(out: &Vec<Candidate>, keys: &[i32], c: Candidate) -> (k: usize)
    ensures
        k <= out.len(),
        forall|i: int| 0 <= i < k ==> !id_ranks_before(keys@, c.id, #[trigger] out@[i].id),
        k < out.len() ==> id_ranks_before(keys@, c.id, out@[k as int].id),
{
    let mut k: usize = 0;
    while k < out.len()
        invariant
            k <= out.len(),
            forall|i: int| 0 <= i < k ==> !id_ranks_before(keys@, c.id, #[trigger] out@[i].id),
        decreases out.len() - k,
    {
        if ranks_before(keys, c.id, out[k].id) {
            return k;
        }
        k = k + 1;
    }
    k
}

/// Inserts `c`, whose id `out` does not hold, at its place in ranking
/// order; returns that place.
pub(crate) fn insert_ranked(out: &mut Vec<Candidate>, keys: &[i32], c: Candidate) -> (k: usize)
    requires
        is_rank_ordered(old(out)@, keys@),
        forall|i: int| 0 <= i < old(out)@.len() ==> (#[trigger] old(out)@[i]).id != c.id,
    ensures
        k <= old(out)@.len(),
        final(out)@ == old(out)@.insert(k as int, c),
        is_rank_ordered(final(out)@, keys@),
{
    let ghost prev = out@;
    let k = insertion_point(out, keys, c);
    out.insert(k, c);
    assert forall|x: int, y: int| 0 <= x < y < out@.len() implies id_ranks_before(
        keys@,
        #[trigger] out@[x].id,
        #[trigger] out@[y].id,
    ) by {
        if y < k {
            assert(out@[x] == prev[x] && out@[y] == prev[y]);
        } else if x > k {
            assert(out@[x] == prev[x - 1] && out@[y] == prev[y - 1]);
        } else if x == k {
            assert(out@[y] == prev[y - 1]);
            if y - 1 > k {
                assert(id_ranks_before(keys@, prev[k as int].id, prev[y - 1].id));
            }
        } else if y == k {
            assert(out@[x] == prev[x]);
            assert(!id_ranks_before(keys@, c.id, prev[x].id));
            assert(prev[x].id != c.id);
        } else {
            assert(out@[x] == prev[x]);
            assert(out@[y] == prev[y - 1]);
            assert(!id_ranks_before(keys@, c.id, prev[x].id));
            assert(prev[x].id != c.id);
            assert(id_ranks_before(keys@, c.id, prev[k as int].id));
            if y - 1 > k {
                assert(id_ranks_before(keys@, prev[k as int].id, prev[y - 1].id));
            }
        }
    }
    k
}

/// Legal actions ranked by score, highest first, one entry per action id:
/// for each id the first action that is not a red-five discard (the first
/// red-five discard where no other copy exists), ties broken by ascending id.
pub fn rank_candidates(legal: &[Action], keys: &[i32], num_players: u8) -> (r: Vec<Candidate>)
    ensures
        is_ranking(r@, legal@, num_players, keys@),
        r@ == spec_ranking(legal@, num_players, keys@),
        forall|i: int, j: int|
            #![trigger r@[i], r@[j]]
            0 <= i < j < r@.len() && r@[i].id < keys@.len() && r@[j].id < keys@.len() ==> keys@[r@[i].id as int]
                >= keys@[r@[j].id as int] && (keys@[r@[i].id as int] == keys@[r@[j].id as int] ==> r@[i].id
                < r@[j].id),
{
    let by_id = representatives(legal, num_players);
    let out = rank_representatives(&by_id, legal, keys, num_players);
    assert forall|q: int| 0 <= q < legal.len() implies match #[trigger] spec_action_index(
        num_players,
        legal@[q]@,
    ) {
        Some(d) => exists|i: int| 0 <= i < out@.len() && (#[trigger] out@[i]).id == d,
        None => true,
    } by {
        if let Some(d) = spec_action_index(num_players, legal@[q]@) {
            assert(by_id@.contains_key(d));
        }
    }
    proof {
        assert(is_ranking(out@, legal@, num_players, keys@));
        let s = spec_ranking(legal@, num_players, keys@);
        assert(is_ranking(s, legal@, num_players, keys@));
        lemma_ranking_unique(out@, s, legal@, num_players, keys@);
        law_ranking_follows_keys(out@, legal@, num_players, keys@);
    }
    out
}

/// The best-ranked candidate, if any.
pub open spec fn spec_best(legal: Seq<Action>, num_players: u8, keys: Seq<i32>) -> Option<Candidate> {
    let r = spec_ranking(legal, num_players, keys);
    if r.len() == 0 {
        None
    } else {
        Some(r[0])
    }
}

/// The first `top_n` entries of the ranking (all of it where it is shorter).
pub open spec fn spec_top(legal: Seq<Action>, num_players: u8, keys: Seq<i32>, top_n: usize) -> Seq<Candidate> {
    let r = spec_ranking(legal, num_players, keys);
    if top_n <= r.len() {
        r.take(top_n as int)
    } else {
        r
    }
}

/// The action standing for `c` is a discard.
pub open spec fn is_discard_at(legal: Seq<Action>, c: Candidate) -> bool {
    c.pos < legal.len() && legal[c.pos as int].action_type == ActionType::Discard
}

/// `is_discard_at` as a predicate on candidates.
pub open spec fn discard_filter(legal: Seq<Action>) -> spec_fn(Candidate) -> bool {
    |c: Candidate| is_discard_at(legal, c)
}

/// The first `top_n` discards of the ranking, in ranking order.
pub open spec fn spec_top_discards(
    legal: Seq<Action>,
    num_players: u8,
    keys: Seq<i32>,
    top_n: usize,
) -> Seq<Candidate> {
    let f = spec_ranking(legal, num_players, keys).filter(discard_filter(legal));
    if top_n <= f.len() {
        f.take(top_n as int)
    } else {
        f
    }
}

/// Every action of `legal` has an index in this mode, as legal actions of
/// the mode do.
pub open spec fn every_action_has_index(legal: Seq<Action>, num_players: u8) -> bool {
    forall|q: int| 0 <= q < legal.len() ==> #[trigger] spec_action_index(num_players, legal[q]@) is Some
}

/// The legal action whose score is highest (ties: lowest id; per id the
/// representative of `rank_candidates`), so the returned action is always
/// legal. For a list of legal actions of the mode (each with an index) the
/// result is `None` only if `legal` is empty; in general it is `None`
/// exactly where no action of `legal` has an index.
pub fn best_candidate(legal: &[Action], keys: &[i32], num_players: u8) -> (r: Option<Candidate>)
    ensures
        r == spec_best(legal@, num_players, keys@),
        every_action_has_index(legal@, num_players) ==> (r is None <==> legal.len() == 0),
        r is None <==> forall|q: int|
            0 <= q < legal.len() ==> #[trigger] spec_action_index(num_players, legal@[q]@) is None,
        r matches Some(c) ==> c.pos < legal.len() && represents(legal@, num_players, c.id, c.pos as int),
        r matches Some(c) ==> spec_ranking(legal@, num_players, keys@).len() > 0 && c == spec_ranking(
            legal@,
            num_players,
            keys@,
        )[0],
        spec_ranking(legal@, num_players, keys@).len() > 0 ==> r is Some,
{
    let ranked = rank_candidates(legal, keys, num_players);
    proof {
        law_ranking_empty_iff_nothing_encodes(ranked@, legal@, num_players, keys@);
    }
    proof {
        if legal.len() > 0 && every_action_has_index(legal@, num_players) {
            assert(spec_action_index(num_players, legal@[0]@) is Some);
        }
    }
    if ranked.len() == 0 {
        None
    } else {
        assert(represents_upto(legal@, num_players, ranked@[0].id, ranked@[0].pos as int, legal.len() as int));
        Some(ranked[0])
    }
}

/// The top `top_n` entries of the ranking, best first.
pub fn top_candidates(legal: &[Action], keys: &[i32], num_players: u8, top_n: usize) -> (r: Vec<Candidate>)
    ensures
        r@ == spec_top(legal@, num_players, keys@, top_n),
        r@.len() <= top_n,
        r@.len() == top_n || r@.len() == spec_ranking(legal@, num_players, keys@).len(),
        r@.len() <= spec_ranking(legal@, num_players, keys@).len(),
        forall|i: int| 0 <= i < r@.len() ==> #[trigger] r@[i] == spec_ranking(legal@, num_players, keys@)[i],
        forall|i: int, j: int|
            #![trigger r@[i], r@[j]]
            0 <= i < j < r@.len() && r@[i].id < keys@.len() && r@[j].id < keys@.len() ==> keys@[r@[i].id as int]
                >= keys@[r@[j].id as int] && (keys@[r@[i].id as int] == keys@[r@[j].id as int] ==> r@[i].id
                < r@[j].id),
{
    let mut ranked = rank_candidates(legal, keys, num_players);
    let ghost full = ranked@;
    ranked.truncate(top_n);
    assert forall|i: int, j: int|
        #![trigger ranked@[i], ranked@[j]]
        0 <= i < j < ranked@.len() && ranked@[i].id < keys@.len() && ranked@[j].id < keys@.len() implies keys@[ranked@[i].id as int]
            >= keys@[ranked@[j].id as int] && (keys@[ranked@[i].id as int] == keys@[ranked@[j].id as int] ==> ranked@[i].id
            < ranked@[j].id) by {
        assert(ranked@[i] == full[i] && ranked@[j] == full[j]);
    }
    ranked
}

/// The top `top_n` discard candidates of the ranking, best first: the
/// candidates whose representative is a discard, in ranking order.
pub fn top_discard_candidates(legal: &[Action], keys: &[i32], num_players: u8, top_n: usize) -> (r: Vec<Candidate>)
    ensures
        r@ == spec_top_discards(legal@, num_players, keys@, top_n),
        forall|i: int|
            0 <= i < r@.len() ==> (#[trigger] r@[i]).pos < legal@.len() && legal@[r@[i].pos as int].action_type
                == ActionType::Discard,
{
    let ranked = rank_candidates(legal, keys, num_players);
    let ghost pred = discard_filter(legal@);
    let mut out: Vec<Candidate> = Vec::new();
    let mut i: usize = 0;
    while i < ranked.len()
        invariant
            i <= ranked.len(),
            is_ranking(ranked@, legal@, num_players, keys@),
            pred == discard_filter(legal@),
            out@ == ranked@.take(i as int).filter(pred),
        decreases ranked.len() - i,
    {
        let c = ranked[i];
        proof {
            reveal(Seq::filter);
            assert(ranked@.take(i + 1).drop_last() =~= ranked@.take(i as int));
            assert(ranked@.take(i + 1).last() == c);
            assert(represents_upto(legal@, num_players, ranked@[i as int].id, ranked@[i as int].pos as int, legal.len() as int));
        }
        let is_discard = match legal[c.pos].action_type {
            ActionType::Discard => true,
            _ => false,
        };
        if is_discard {
            out.push(c);
        }
        i = i + 1;
    }
    assert(ranked@.take(ranked.len() as int) =~= ranked@);
    out.truncate(top_n);
    proof {
        law_top_discards_are_discards(legal@, num_players, keys@, top_n);
    }
    out
}

/// The ranking is empty exactly when no legal action has an id in this
/// mode; in particular an empty `legal` ranks to nothing.
pub proof fn law_ranking_empty_iff_nothing_encodes(
    r: Seq<Candidate>,
    legal: Seq<Action>,
    num_players: u8,
    keys: Seq<i32>,
)
    requires
        is_ranking(r, legal, num_players, keys),
    ensures
        r.len() == 0 <==> forall|q: int|
            0 <= q < legal.len() ==> #[trigger] spec_action_index(num_players, legal[q]@) is None,
{
    if r.len() > 0 {
        assert(represents_upto(legal, num_players, r[0].id, r[0].pos as int, legal.len() as int));
        assert(spec_action_index(num_players, legal[r[0].pos as int]@) == Some(r[0].id));
    } else {
        assert forall|q: int| 0 <= q < legal.len() implies #[trigger] spec_action_index(num_players, legal[q]@) is None by {
            if let Some(d) = spec_action_index(num_players, legal[q]@) {
                let i = choose|i: int| 0 <= i < r.len() && (#[trigger] r[i]).id == d;
            }
        }
    }
}

/// The pick is the head of the ranking: `best_candidate` agrees with the
/// first entry of `top_candidates` for every `top_n` of at least one.
pub proof fn law_pick_is_rank_head(legal: Seq<Action>, num_players: u8, keys: Seq<i32>, top_n: usize)
    requires
        top_n >= 1,
    ensures
        spec_best(legal, num_players, keys) == if spec_top(legal, num_players, keys, top_n).len() == 0 {
            None
        } else {
            Some(spec_top(legal, num_players, keys, top_n)[0])
        },
{
}

/// Truncation keeps a prefix: the top `top_n` are the first `min(top_n, n)`
/// entries of the full ranking.
pub proof fn law_top_is_prefix(legal: Seq<Action>, num_players: u8, keys: Seq<i32>, top_n: usize)
    ensures
        spec_top(legal, num_players, keys, top_n).len() == if top_n <= spec_ranking(legal, num_players, keys).len() {
            top_n as int
        } else {
            spec_ranking(legal, num_players, keys).len() as int
        },
        forall|i: int|
            0 <= i < spec_top(legal, num_players, keys, top_n).len() ==> #[trigger] spec_top(legal, num_players, keys, top_n)[i]
                == spec_ranking(legal, num_players, keys)[i],
{
}

/// One entry per move: the ids of the ranking are distinct, every id that a
/// legal action encodes to is present, and each entry names a legal action
/// that encodes to its id.
pub proof fn law_one_entry_per_id(r: Seq<Candidate>, legal: Seq<Action>, num_players: u8, keys: Seq<i32>)
    requires
        is_ranking(r, legal, num_players, keys),
    ensures
        forall|i: int, j: int| 0 <= i < j < r.len() ==> #[trigger] r[i].id != #[trigger] r[j].id,
        forall|i: int|
            0 <= i < r.len() ==> (#[trigger] r[i]).pos < legal.len() && spec_action_index(
                num_players,
                legal[r[i].pos as int]@,
            ) == Some(r[i].id),
        forall|q: int|
            0 <= q < legal.len() ==> match #[trigger] spec_action_index(num_players, legal[q]@) {
                Some(d) => exists|i: int| 0 <= i < r.len() && (#[trigger] r[i]).id == d,
                None => true,
            },
{
    assert forall|i: int, j: int| 0 <= i < j < r.len() implies #[trigger] r[i].id != #[trigger] r[j].id by {
        assert(id_ranks_before(keys, r[i].id, r[j].id));
    }
    assert forall|i: int| 0 <= i < r.len() implies (#[trigger] r[i]).pos < legal.len() && spec_action_index(
        num_players,
        legal[r[i].pos as int]@,
    ) == Some(r[i].id) by {
        assert(represents_upto(legal, num_players, r[i].id, r[i].pos as int, legal.len() as int));
    }
}

/// Ranking order: scores never increase along the ranking, and equal scores
/// come in ascending id order.
pub proof fn law_ranking_order(r: Seq<Candidate>, legal: Seq<Action>, num_players: u8, keys: Seq<i32>)
    requires
        is_ranking(r, legal, num_players, keys),
    ensures
        forall|i: int, j: int|
            0 <= i < j < r.len() ==> key_at(keys, #[trigger] r[i].id) >= key_at(keys, #[trigger] r[j].id),
        forall|i: int, j: int|
            0 <= i < j < r.len() && key_at(keys, #[trigger] r[i].id) == key_at(keys, #[trigger] r[j].id)
                ==> r[i].id < r[j].id,
{
    assert forall|i: int, j: int|
        0 <= i < j < r.len() implies key_at(keys, #[trigger] r[i].id) >= key_at(keys, #[trigger] r[j].id) by {
        assert(id_ranks_before(keys, r[i].id, r[j].id));
    }
    assert forall|i: int, j: int|
        0 <= i < j < r.len() && key_at(keys, #[trigger] r[i].id) == key_at(keys, #[trigger] r[j].id)
        implies r[i].id < r[j].id by {
        assert(id_ranks_before(keys, r[i].id, r[j].id));
    }
}

/// Red fives: the ranking names a red-five discard for an id only where
/// every legal action with that id is one; where a plain copy exists, the
/// entry is a plain copy, in whatever order the copies are listed.
pub proof fn law_red_five_only_without_plain_copy(
    r: Seq<Candidate>,
    legal: Seq<Action>,
    num_players: u8,
    keys: Seq<i32>,
)
    requires
        is_ranking(r, legal, num_players, keys),
    ensures
        forall|i: int, q: int|
            0 <= i < r.len() && 0 <= q < legal.len() && spec_action_index(num_players, #[trigger] legal[q]@)
                == Some((#[trigger] r[i]).id) && !spec_discards_aka(legal[q]@)
                ==> !spec_discards_aka(legal[r[i].pos as int]@),
{
    assert forall|i: int, q: int|
        0 <= i < r.len() && 0 <= q < legal.len() && spec_action_index(num_players, #[trigger] legal[q]@)
            == Some((#[trigger] r[i]).id) && !spec_discards_aka(legal[q]@)
        implies !spec_discards_aka(legal[r[i].pos as int]@) by {
        assert(represents_upto(legal, num_players, r[i].id, r[i].pos as int, legal.len() as int));
    }
}

/// The legal mask and the ranking agree: an id is marked legal exactly
/// when the ranking holds an entry for it.
pub proof fn law_mask_marks_ranked_ids(
    r: Seq<Candidate>,
    mask: Seq<u8>,
    legal: Seq<Action>,
    num_players: u8,
    keys: Seq<i32>,
)
    requires
        is_ranking(r, legal, num_players, keys),
        is_legal_mask(mask, legal, num_players),
    ensures
        forall|d: int|
            0 <= d < mask.len() ==> (#[trigger] mask[d] == 1 <==> exists|i: int|
                0 <= i < r.len() && (#[trigger] r[i]).id == d),
{
    assert forall|d: int| 0 <= d < mask.len() implies (#[trigger] mask[d] == 1 <==> exists|i: int|
        0 <= i < r.len() && (#[trigger] r[i]).id == d) by {
        if mask[d] == 1 {
            assert(some_action_encodes_to(legal, num_players, d));
            let q = choose|q: int|
                0 <= q < legal.len() && #[trigger] spec_action_index(num_players, legal[q]@) == Some(d as usize);
            assert(spec_action_index(num_players, legal[q]@) == Some(d as usize));
        }
        if exists|i: int| 0 <= i < r.len() && (#[trigger] r[i]).id == d {
            let i = choose|i: int| 0 <= i < r.len() && (#[trigger] r[i]).id == d;
            assert(represents_upto(legal, num_players, r[i].id, r[i].pos as int, legal.len() as int));
            assert(spec_action_index(num_players, legal[r[i].pos as int]@) == Some(d as usize));
            assert(some_action_encodes_to(legal, num_players, d));
        }
    }
}

/// The ranking follows the score keys themselves: along the ranking, the
/// key of a scored id never increases, equal keys come in ascending id
/// order, and an unscored id (past the end of `keys`) comes before a scored
/// one only where that one's key lies below the key of negative infinity.
pub proof fn law_ranking_follows_keys(r: Seq<Candidate>, legal: Seq<Action>, num_players: u8, keys: Seq<i32>)
    requires
        is_ranking(r, legal, num_players, keys),
    ensures
        forall|i: int, j: int|
            #![trigger r[i], r[j]]
            0 <= i < j < r.len() && r[i].id < keys.len() && r[j].id < keys.len() ==> keys[r[i].id as int]
                >= keys[r[j].id as int] && (keys[r[i].id as int] == keys[r[j].id as int] ==> r[i].id < r[j].id),
        forall|i: int, j: int|
            #![trigger r[i], r[j]]
            0 <= i < j < r.len() && r[i].id >= keys.len() && r[j].id < keys.len() ==> keys[r[j].id as int]
                < -2139095040i32,
{
    assert forall|i: int, j: int|
        #![trigger r[i], r[j]]
        0 <= i < j < r.len() && r[i].id < keys.len() && r[j].id < keys.len() implies keys[r[i].id as int]
            >= keys[r[j].id as int] && (keys[r[i].id as int] == keys[r[j].id as int] ==> r[i].id < r[j].id) by {
        assert(id_ranks_before(keys, r[i].id, r[j].id));
    }
    assert forall|i: int, j: int|
        #![trigger r[i], r[j]]
        0 <= i < j < r.len() && r[i].id >= keys.len() && r[j].id < keys.len() implies keys[r[j].id as int]
            < -2139095040i32 by {
        assert(id_ranks_before(keys, r[i].id, r[j].id));
    }
}

/// A plain copy is always preferred: where some legal action with an
/// entry's id is not a discard of tile 16, 52 or 88 (the red fives), the
/// entry's action is not such a discard either.
pub proof fn law_plain_copy_preferred(r: Seq<Candidate>, legal: Seq<Action>, num_players: u8, keys: Seq<i32>)
    requires
        is_ranking(r, legal, num_players, keys),
    ensures
        forall|i: int, q: int|
            0 <= i < r.len() && 0 <= q < legal.len() && spec_action_index(num_players, #[trigger] legal[q]@)
                == Some((#[trigger] r[i]).id) && !(legal[q].action_type == ActionType::Discard && (legal[q].tile
                == Some(16u8) || legal[q].tile == Some(52u8) || legal[q].tile == Some(88u8))) ==> !(
            legal[r[i].pos as int].action_type == ActionType::Discard && (legal[r[i].pos as int].tile == Some(
                16u8,
            ) || legal[r[i].pos as int].tile == Some(52u8) || legal[r[i].pos as int].tile == Some(88u8))),
{
    law_red_five_only_without_plain_copy(r, legal, num_players, keys);
    assert forall|i: int, q: int|
        0 <= i < r.len() && 0 <= q < legal.len() && spec_action_index(num_players, #[trigger] legal[q]@)
            == Some((#[trigger] r[i]).id) && !(legal[q].action_type == ActionType::Discard && (legal[q].tile
            == Some(16u8) || legal[q].tile == Some(52u8) || legal[q].tile == Some(88u8))) implies !(
        legal[r[i].pos as int].action_type == ActionType::Discard && (legal[r[i].pos as int].tile == Some(16u8)
            || legal[r[i].pos as int].tile == Some(52u8) || legal[r[i].pos as int].tile == Some(88u8))) by {
        law_red_five_discards_are_tiles_16_52_88(legal[q]@);
        law_red_five_discards_are_tiles_16_52_88(legal[r[i].pos as int]@);
        assert(represents_upto(legal, num_players, r[i].id, r[i].pos as int, legal.len() as int));
    }
}

/// The top discards are discards: every candidate they hold stands for an
/// action of type `Discard`; every other action type is left out.
pub proof fn law_top_discards_are_discards(legal: Seq<Action>, num_players: u8, keys: Seq<i32>, top_n: usize)
    ensures
        forall|i: int|
            0 <= i < spec_top_discards(legal, num_players, keys, top_n).len() ==> (#[trigger] spec_top_discards(
                legal,
                num_players,
                keys,
                top_n,
            )[i]).pos < legal.len() && legal[spec_top_discards(legal, num_players, keys, top_n)[i].pos as int].action_type
                == ActionType::Discard,
{
    let f = spec_ranking(legal, num_players, keys).filter(discard_filter(legal));
    assert forall|i: int|
        0 <= i < spec_top_discards(legal, num_players, keys, top_n).len() implies (#[trigger] spec_top_discards(
            legal,
            num_players,
            keys,
            top_n,
        )[i]).pos < legal.len() && legal[spec_top_discards(legal, num_players, keys, top_n)[i].pos as int].action_type
            == ActionType::Discard by {
        assert(spec_top_discards(legal, num_players, keys, top_n)[i] == f[i]);
        spec_ranking(legal, num_players, keys).lemma_filter_pred(discard_filter(legal), i);
    }
}

/// The entry for an id is the first legal action with that id that is not
/// a discard of tile 16, 52 or 88: every earlier action with the id is such
/// a discard while the entry is not; where every action with the id is one,
/// the entry is the first of them.
pub proof fn law_entry_is_first_plain_copy(r: Seq<Candidate>, legal: Seq<Action>, num_players: u8, keys: Seq<i32>)
    requires
        is_ranking(r, legal, num_players, keys),
    ensures
        forall|i: int, q: int|
            0 <= i < r.len() && 0 <= q < r[i].pos && spec_action_index(num_players, #[trigger] legal[q]@) == Some(
                (#[trigger] r[i]).id,
            ) ==> legal[q].action_type == ActionType::Discard && (legal[q].tile == Some(16u8) || legal[q].tile
                == Some(52u8) || legal[q].tile == Some(88u8)) && !(legal[r[i].pos as int].action_type
                == ActionType::Discard && (legal[r[i].pos as int].tile == Some(16u8) || legal[r[i].pos as int].tile
                == Some(52u8) || legal[r[i].pos as int].tile == Some(88u8))),
{
    assert forall|i: int, q: int|
        0 <= i < r.len() && 0 <= q < r[i].pos && spec_action_index(num_players, #[trigger] legal[q]@) == Some(
            (#[trigger] r[i]).id,
        ) implies legal[q].action_type == ActionType::Discard && (legal[q].tile == Some(16u8) || legal[q].tile
            == Some(52u8) || legal[q].tile == Some(88u8)) && !(legal[r[i].pos as int].action_type
            == ActionType::Discard && (legal[r[i].pos as int].tile == Some(16u8) || legal[r[i].pos as int].tile
            == Some(52u8) || legal[r[i].pos as int].tile == Some(88u8))) by {
        law_red_five_discards_are_tiles_16_52_88(legal[q]@);
        law_red_five_discards_are_tiles_16_52_88(legal[r[i].pos as int]@);
        assert(represents_upto(legal, num_players, r[i].id, r[i].pos as int, legal.len() as int));
    }
}

} // verus!
