//! One representative per action id, kept in a map keyed by id, and the
//! representatives in ranking order.

use vstd::prelude::*;

use std::collections::BTreeMap;

use crate::action_codec::action_index;
use crate::action_codec::action_space;
use crate::action_codec::discards_aka;
use crate::action_codec::spec_action_index;
use crate::action_codec::spec_action_space;
use crate::action_codec::Action;
use crate::ranking::insert_ranked;
use crate::ranking::is_rank_ordered;
use crate::ranking::represents;
use crate::ranking::represents_upto;
use crate::ranking::Candidate;

verus! {

broadcast use vstd::laws_cmp::group_laws_cmp;

/// For each action id of `legal`, the position of the action standing for
/// it: the first plain copy, or the first red-five discard where every copy
/// is one.
pub fn representatives(legal: &[Action], num_players: u8) -> (by_id: BTreeMap<usize, usize>)
    ensures
        forall|d: usize|
            #[trigger] by_id@.contains_key(d) ==> represents(legal@, num_players, d, by_id@[d] as int),
        forall|q: int|
            0 <= q < legal.len() ==> match #[trigger] spec_action_index(num_players, legal@[q]@) {
                Some(d) => by_id@.contains_key(d),
                None => true,
            },
{
    let mut by_id: BTreeMap<usize, usize> = BTreeMap::new();
    let mut p: usize = 0;
    while p < legal.len()
        invariant
            p <= legal.len(),
            forall|d: usize|
                #[trigger] by_id@.contains_key(d) ==> represents_upto(legal@, num_players, d, by_id@[d] as int, p as int),
            forall|q: int|
                0 <= q < p ==> match #[trigger] spec_action_index(num_players, legal@[q]@) {
                    Some(d) => by_id@.contains_key(d),
                    None => true,
                },
        decreases legal.len() - p,
    {
        let ghost prev = by_id@;
        let ghost pi = p as int;
        let code = action_index(&legal[p], num_players);
        assert(spec_action_index(num_players, legal@[pi]@) == code);
        match code {
            None => {
                assert forall|d: usize| #[trigger] by_id@.contains_key(d) implies represents_upto(
                    legal@,
                    num_players,
                    d,
                    by_id@[d] as int,
                    pi + 1,
                ) by {
                    assert(represents_upto(legal@, num_players, d, prev[d] as int, pi));
                }
            },
            Some(idx) => {
                let new_aka = discards_aka(&legal[p]);
                let current = by_id.get(&idx);
                match current {
                    None => {
                        assert(!prev.contains_key(idx));
                        by_id.insert(idx, p);
                        assert forall|q: int|
                            0 <= q < pi + 1 && #[trigger] spec_action_index(num_players, legal@[q]@) == Some(idx)
                            implies q == pi by {}
                    },
                    Some(cur_ref) => {
                        let cur = *cur_ref;
                        assert(prev.contains_key(idx) && prev[idx] == cur);
                        assert(represents_upto(legal@, num_players, idx, cur as int, pi));
                        let cur_aka = discards_aka(&legal[cur]);
                        if cur_aka && !new_aka {
                            by_id.insert(idx, p);
                        }
                    },
                }
                assert forall|d: usize| #[trigger] by_id@.contains_key(d) implies represents_upto(
                    legal@,
                    num_players,
                    d,
                    by_id@[d] as int,
                    pi + 1,
                ) by {
                    if d != idx {
                        assert(prev.contains_key(d) && by_id@[d] == prev[d]);
                        assert(represents_upto(legal@, num_players, d, prev[d] as int, pi));
                    }
                }
            },
        }
        assert forall|q: int| 0 <= q < pi + 1 implies match #[trigger] spec_action_index(
            num_players,
            legal@[q]@,
        ) {
            Some(d) => by_id@.contains_key(d),
            None => true,
        } by {
            if q < pi {
                if let Some(d) = spec_action_index(num_players, legal@[q]@) {
                    assert(prev.contains_key(d));
                }
            }
        }
        p = p + 1;
    }
    by_id
}

/// The entries of `by_id` as candidates in ranking order. The map is read
/// id by id in ascending order over the action space, where every index
/// lies; each entry is inserted at its place in ranking order.
pub fn rank_representatives(
    by_id: &BTreeMap<usize, usize>,
    legal: &[Action],
    keys: &[i32],
    num_players: u8,
) -> (out: Vec<Candidate>)
    requires
        forall|d: usize|
            #[trigger] by_id@.contains_key(d) ==> represents(legal@, num_players, d, by_id@[d] as int),
    ensures
        is_rank_ordered(out@, keys@),
        forall|i: int|
            0 <= i < out@.len() ==> represents(legal@, num_players, (#[trigger] out@[i]).id, out@[i].pos as int),
        forall|d: usize|
            #[trigger] by_id@.contains_key(d) ==> exists|i: int| 0 <= i < out@.len() && (#[trigger] out@[i]).id == d,
{
    proof {
        assert forall|d: usize| #[trigger] by_id@.contains_key(d) implies d < spec_action_space(num_players) by {
            assert(represents(legal@, num_players, d, by_id@[d] as int));
        }
    }
    let space = action_space(num_players);
    let mut out: Vec<Candidate> = Vec::new();
    let mut id: usize = 0;
    while id < space
        invariant
            id <= space,
            space == spec_action_space(num_players),
            is_rank_ordered(out@, keys@),
            forall|d: usize|
                #[trigger] by_id@.contains_key(d) ==> represents(legal@, num_players, d, by_id@[d] as int),
            forall|d: usize| #[trigger] by_id@.contains_key(d) ==> d < space,
            forall|i: int|
                0 <= i < out@.len() ==> (#[trigger] out@[i]).id < id && represents(
                    legal@,
                    num_players,
                    out@[i].id,
                    out@[i].pos as int,
                ),
            forall|d: usize|
                d < id && #[trigger] by_id@.contains_key(d) ==> exists|i: int|
                    0 <= i < out@.len() && (#[trigger] out@[i]).id == d,
        decreases space - id,
    {
        let ghost prev = out@;
        match by_id.get(&id) {
            None => {
                assert(!by_id@.contains_key(id));
            },
            Some(pos_ref) => {
                let c = Candidate { id, pos: *pos_ref };
                assert(by_id@.contains_key(id) && by_id@[id] == c.pos);
                let k = insert_ranked(&mut out, keys, c);
                assert forall|i: int| 0 <= i < out@.len() implies (#[trigger] out@[i]).id < id + 1
                    && represents(legal@, num_players, out@[i].id, out@[i].pos as int) by {
                    if i < k {
                        assert(out@[i] == prev[i]);
                    } else if i > k {
                        assert(out@[i] == prev[i - 1]);
                    } else {
                        assert(out@[i] == c);
                    }
                }
                assert forall|d: usize| d < id + 1 && #[trigger] by_id@.contains_key(d) implies exists|i: int|
                    0 <= i < out@.len() && (#[trigger] out@[i]).id == d by {
                    if d < id {
                        let t = choose|t: int| 0 <= t < prev.len() && (#[trigger] prev[t]).id == d;
                        if t < k {
                            assert(out@[t] == prev[t]);
                        } else {
                            assert(out@[t + 1] == prev[t]);
                        }
                    } else {
                        assert(out@[k as int] == c);
                    }
                }
            },
        }
        id = id + 1;
    }
    proof {
        assert forall|d: usize| #[trigger] by_id@.contains_key(d) implies exists|i: int|
            0 <= i < out@.len() && (#[trigger] out@[i]).id == d by {
            assert(d < space);
        }
    }
    out
}

} // verus!
