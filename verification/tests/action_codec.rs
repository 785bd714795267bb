use native_bot::action_codec::{
    action_index, action_space, discards_aka, legal_mask, pass_index, Action,
    ActionType,
};
use native_bot::ranking::{
    best_candidate, rank_candidates, top_candidates, top_discard_candidates, Candidate,
    NEG_INFINITY_KEY,
};

/// Order keys of scores: equal and ordered as the scores are.
fn score_keys(logits: &[f32]) -> Vec<i32> {
    logits
        .iter()
        .map(|&x| {
            let b = x.to_bits();
            if b & 0x8000_0000 != 0 {
                -((b & 0x7fff_ffff) as i32)
            } else {
                b as i32
            }
        })
        .collect()
}

fn act(t: ActionType, tile: Option<u8>, consumed: Vec<u8>) -> Action {
    Action::new(t, tile, consumed, Some(0))
}

#[test]
fn discard_index_is_tile34_4p() {
    // discard 5s (tile id 88 -> tile34 22)
    let a = Action::new(ActionType::Discard, Some(88), vec![], Some(0));
    assert_eq!(action_index(&a, 4), Some(22));
}

#[test]
fn riichi_pon_pass_indices_4p() {
    assert_eq!(
        action_index(&Action::new(ActionType::Riichi, None, vec![], Some(0)), 4),
        Some(37)
    );
    assert_eq!(
        action_index(&Action::new(ActionType::Pon, Some(0), vec![1, 2], Some(0)), 4),
        Some(41)
    );
    assert_eq!(
        action_index(&Action::new(ActionType::Pass, None, vec![], Some(0)), 4),
        Some(81)
    );
}

#[test]
fn discard_index_compact_3p() {
    // discard 1p (tile id 36 -> tile34 9 -> compact 2)
    let a = Action::new(ActionType::Discard, Some(36), vec![], Some(0));
    assert_eq!(action_index(&a, 3), Some(2));
    // chi is invalid in sanma
    let chi = Action::new(ActionType::Chi, Some(0), vec![4, 8], Some(0));
    assert_eq!(action_index(&chi, 3), None);
}

#[test]
fn mask_and_pick() {
    let legal = vec![
        Action::new(ActionType::Discard, Some(0), vec![], Some(0)), // idx 0
        Action::new(ActionType::Pon, Some(4), vec![5, 6], Some(0)), // idx 41
        Action::new(ActionType::Pass, None, vec![], Some(0)),       // idx 81
    ];
    let mask = legal_mask(&legal, 4);
    assert_eq!(mask.len(), 82);
    assert_eq!(mask[0], 1);
    assert_eq!(mask[41], 1);
    assert_eq!(mask[81], 1);
    assert_eq!(mask[1], 0);

    let mut logits = vec![0.0f32; 82];
    logits[41] = 5.0; // prefer pon
    let picked = best_candidate(&legal, &score_keys(&logits), 4).unwrap();
    assert_eq!(legal[picked.pos].action_type, ActionType::Pon);
}

#[test]
fn rank_orders_by_logit_and_normalizes_over_legal() {
    let legal = vec![
        Action::new(ActionType::Discard, Some(0), vec![], Some(0)), // idx 0
        Action::new(ActionType::Pon, Some(4), vec![5, 6], Some(0)), // idx 41
        Action::new(ActionType::Pass, None, vec![], Some(0)),       // idx 81
    ];
    let mut logits = vec![0.0f32; 82];
    logits[0] = 1.0;
    logits[41] = 3.0; // highest -> ranked first
    logits[81] = 2.0;
    let keys = score_keys(&logits);

    let ranked = top_candidates(&legal, &keys, 4, 3);
    assert_eq!(ranked.len(), 3);
    assert_eq!(legal[ranked[0].pos].action_type, ActionType::Pon);
    assert_eq!(legal[ranked[1].pos].action_type, ActionType::Pass);
    assert_eq!(legal[ranked[2].pos].action_type, ActionType::Discard);
    // The scores along the ranking strictly descend.
    assert!(logits[ranked[0].id] > logits[ranked[1].id] && logits[ranked[1].id] > logits[ranked[2].id]);
    // The top of the ranking matches the pick.
    let picked = best_candidate(&legal, &keys, 4).unwrap();
    assert_eq!(legal[picked.pos].action_type, legal[ranked[0].pos].action_type);
}

#[test]
fn rank_top_n_truncates() {
    let legal = vec![
        Action::new(ActionType::Discard, Some(0), vec![], Some(0)),
        Action::new(ActionType::Discard, Some(4), vec![], Some(0)),
        Action::new(ActionType::Discard, Some(8), vec![], Some(0)),
    ];
    let logits = vec![0.0f32; 82];
    let keys = score_keys(&logits);
    assert_eq!(top_candidates(&legal, &keys, 4, 2).len(), 2);
    assert!(top_candidates(&[], &keys, 4, 3).is_empty());
}

#[test]
fn discard_five_prefers_the_plain_copy_over_the_red_one() {
    let aka = Action::new(ActionType::Discard, Some(16), vec![], Some(0)); // 5mr
    let plain = Action::new(ActionType::Discard, Some(17), vec![], Some(0)); // 5m
    let other = Action::new(ActionType::Discard, Some(0), vec![], Some(0)); // 1m
    let mut logits = vec![0.0f32; 82];
    logits[4] = 3.0; // "discard a 5m" is the model's top move
    logits[0] = 1.0;
    let keys = score_keys(&logits);

    // Red copy listed first, exactly as the sorted hand yields it.
    let legal = vec![aka.clone(), plain.clone(), other.clone()];
    let picked = best_candidate(&legal, &keys, 4).unwrap();
    assert_eq!(legal[picked.pos].tile, Some(17), "must discard the plain 5m, not 5mr");

    // Order-independent: the plain copy wins whichever way they're listed.
    let legal = vec![plain, aka, other];
    let picked = best_candidate(&legal, &keys, 4).unwrap();
    assert_eq!(legal[picked.pos].tile, Some(17));
}

#[test]
fn lone_red_five_is_still_discardable() {
    let legal = vec![
        Action::new(ActionType::Discard, Some(16), vec![], Some(0)), // only 5mr
        Action::new(ActionType::Discard, Some(0), vec![], Some(0)),
    ];
    let mut logits = vec![0.0f32; 82];
    logits[4] = 5.0;
    let picked = best_candidate(&legal, &score_keys(&logits), 4).unwrap();
    assert_eq!(legal[picked.pos].tile, Some(16));
}

#[test]
fn candidates_are_deduplicated_per_action_id() {
    let east = |tid| Action::new(ActionType::Discard, Some(tid), vec![], Some(0));
    let legal = vec![
        east(108), // E x3, all action id 27
        east(109),
        east(110),
        Action::new(ActionType::Discard, Some(0), vec![], Some(0)), // 1m, id 0
    ];
    let mut logits = vec![0.0f32; 82];
    logits[27] = 2.0;
    logits[0] = 1.0;

    let ranked = top_candidates(&legal, &score_keys(&logits), 4, 3);
    assert_eq!(ranked.len(), 2, "three E copies collapse to one candidate");
    assert_eq!(legal[ranked[0].pos].tile, Some(108));
    assert_eq!(ranked[1], Candidate { id: 0, pos: 3 });
}

#[test]
fn pick_agrees_with_rank_head_on_ties() {
    let legal = vec![
        Action::new(ActionType::Pass, None, vec![], Some(0)), // id 81
        Action::new(ActionType::Pon, Some(4), vec![5, 6], Some(0)), // id 41
    ];
    let logits = vec![0.0f32; 82]; // everything tied
    let keys = score_keys(&logits);
    let picked = best_candidate(&legal, &keys, 4).unwrap();
    let ranked = top_candidates(&legal, &keys, 4, 2);
    assert_eq!(legal[picked.pos].action_type, legal[ranked[0].pos].action_type);
    // Lowest action id wins a tie: pon (41) before pass (81).
    assert_eq!(legal[picked.pos].action_type, ActionType::Pon);
}

#[test]
fn action_space_and_pass_index_per_mode() {
    assert_eq!(action_space(4), 82);
    assert_eq!(action_space(3), 60);
    assert_eq!(pass_index(4), 81);
    assert_eq!(pass_index(3), 58);
    let pass = act(ActionType::Pass, None, vec![]);
    assert_eq!(action_index(&pass, 3), Some(pass_index(3)));
    assert_eq!(action_index(&pass, 4), Some(pass_index(4)));
}

#[test]
fn ids_of_each_kind_4p() {
    assert_eq!(action_index(&act(ActionType::Chi, Some(12), vec![4, 8]), 4), Some(40));
    assert_eq!(action_index(&act(ActionType::Chi, Some(4), vec![0, 8]), 4), Some(39));
    assert_eq!(action_index(&act(ActionType::Chi, Some(0), vec![4, 8]), 4), Some(38));
    assert_eq!(action_index(&act(ActionType::Chi, None, vec![4, 8]), 4), None);
    assert_eq!(action_index(&act(ActionType::Daiminkan, Some(53), vec![52, 54, 55]), 4), Some(55));
    assert_eq!(action_index(&act(ActionType::Ankan, None, vec![9, 8, 10, 11]), 4), Some(44));
    assert_eq!(action_index(&act(ActionType::Kakan, Some(9), vec![]), 4), None);
    assert_eq!(action_index(&act(ActionType::Ron, Some(9), vec![]), 4), Some(79));
    assert_eq!(action_index(&act(ActionType::Tsumo, Some(9), vec![]), 4), Some(79));
    assert_eq!(action_index(&act(ActionType::KyushuKyuhai, None, vec![]), 4), Some(80));
    assert_eq!(action_index(&act(ActionType::Kita, Some(120), vec![]), 4), None);
    assert_eq!(action_index(&act(ActionType::Discard, None, vec![]), 4), None);
}

#[test]
fn ids_of_each_kind_3p() {
    // 2m..8m are not in play in sanma.
    assert_eq!(action_index(&act(ActionType::Discard, Some(4), vec![]), 3), None);
    assert_eq!(action_index(&act(ActionType::Discard, Some(32), vec![]), 3), Some(1));
    assert_eq!(action_index(&act(ActionType::Discard, Some(135), vec![]), 3), Some(26));
    assert_eq!(action_index(&act(ActionType::Riichi, None, vec![]), 3), Some(27));
    assert_eq!(action_index(&act(ActionType::Pon, Some(36), vec![37, 38]), 3), Some(28));
    assert_eq!(action_index(&act(ActionType::Daiminkan, Some(36), vec![37, 38, 39]), 3), Some(31));
    assert_eq!(action_index(&act(ActionType::Ankan, None, vec![0, 1, 2, 3]), 3), Some(29));
    assert_eq!(action_index(&act(ActionType::Ron, Some(0), vec![]), 3), Some(56));
    assert_eq!(action_index(&act(ActionType::KyushuKyuhai, None, vec![]), 3), Some(57));
    assert_eq!(action_index(&act(ActionType::Kita, Some(120), vec![]), 3), Some(59));
}

#[test]
fn legal_mask_3p_marks_compact_ids() {
    let legal = vec![
        act(ActionType::Discard, Some(36), vec![]),
        act(ActionType::Chi, Some(36), vec![40, 44]),
        act(ActionType::Kita, Some(120), vec![]),
    ];
    let mask = legal_mask(&legal, 3);
    assert_eq!(mask.len(), 60);
    let ones: Vec<usize> = (0..60).filter(|&i| mask[i] == 1).collect();
    assert_eq!(ones, vec![2, 59]);
}

#[test]
fn ids_past_the_space_have_no_index() {
    // A kan on a tile id past the 136-tile set would encode past id 81.
    let legal = vec![act(ActionType::Daiminkan, Some(200), vec![]), act(ActionType::Pass, None, vec![])];
    assert_eq!(action_index(&legal[0], 4), None);
    assert_eq!(action_index(&act(ActionType::Ankan, None, vec![180, 181, 182, 183]), 4), None);
    assert_eq!(action_index(&act(ActionType::Daiminkan, Some(135), vec![]), 4), Some(75));
    let mask = legal_mask(&legal, 4);
    assert_eq!(mask.len(), 82);
    assert_eq!(mask.iter().filter(|&&m| m == 1).count(), 1);
    assert_eq!(mask[81], 1);
    let keys = score_keys(&[0.0f32; 82]);
    assert_eq!(rank_candidates(&legal, &keys, 4), vec![Candidate { id: 81, pos: 1 }]);
}

#[test]
fn pick_is_none_only_for_an_empty_list_of_legal_actions() {
    let keys = score_keys(&[0.0f32; 82]);
    assert_eq!(best_candidate(&[], &keys, 4), None);
    for kind in [ActionType::Pass, ActionType::Riichi, ActionType::KyushuKyuhai] {
        let legal = vec![act(kind, None, vec![])];
        assert!(best_candidate(&legal, &keys, 4).is_some());
        assert!(best_candidate(&legal, &keys, 3).is_some());
    }
}

#[test]
fn discards_aka_only_for_red_five_discards() {
    assert!(discards_aka(&act(ActionType::Discard, Some(16), vec![])));
    assert!(discards_aka(&act(ActionType::Discard, Some(52), vec![])));
    assert!(discards_aka(&act(ActionType::Discard, Some(88), vec![])));
    assert!(!discards_aka(&act(ActionType::Discard, Some(17), vec![])));
    assert!(!discards_aka(&act(ActionType::Pon, Some(16), vec![17, 18])));
    assert!(!discards_aka(&act(ActionType::Discard, None, vec![])));
}

#[test]
fn missing_scores_rank_last_as_negative_infinity() {
    assert_eq!(score_keys(&[f32::NEG_INFINITY])[0], NEG_INFINITY_KEY);
    // Only ids 0..4 are scored; pass (81) has no score and ranks last.
    let legal = vec![act(ActionType::Pass, None, vec![]), act(ActionType::Discard, Some(0), vec![])];
    let keys = score_keys(&[-5.0, 0.0, 0.0, 0.0]);
    let ranked = rank_candidates(&legal, &keys, 4);
    assert_eq!(ranked, vec![Candidate { id: 0, pos: 1 }, Candidate { id: 81, pos: 0 }]);
}

#[test]
fn unencodable_actions_are_not_ranked() {
    let legal = vec![act(ActionType::Chi, Some(0), vec![4, 8]), act(ActionType::Kita, Some(120), vec![])];
    let keys = score_keys(&[0.0f32; 60]);
    assert_eq!(best_candidate(&legal, &keys, 3), Some(Candidate { id: 59, pos: 1 }));
    // In 4-player the chi is encodable (1m-2m-3m, low) but kita is not.
    assert_eq!(rank_candidates(&legal, &keys, 4), vec![Candidate { id: 38, pos: 0 }]);
    let kita_only = vec![act(ActionType::Kita, Some(120), vec![])];
    assert!(rank_candidates(&kita_only, &keys, 4).is_empty());
    assert_eq!(best_candidate(&kita_only, &keys, 4), None);
    assert_eq!(best_candidate(&[], &keys, 4), None);
}

#[test]
fn discard_candidates_skip_calls_and_keep_order() {
    let legal = vec![
        act(ActionType::Pon, Some(4), vec![5, 6]),   // 41
        act(ActionType::Discard, Some(88), vec![]),  // 22 (red)
        act(ActionType::Discard, Some(89), vec![]),  // 22 (plain)
        act(ActionType::Discard, Some(0), vec![]),   // 0
        act(ActionType::Riichi, None, vec![]),       // 37
        act(ActionType::Discard, Some(120), vec![]), // 30
    ];
    let mut logits = vec![0.0f32; 82];
    logits[41] = 9.0;
    logits[37] = 8.0;
    logits[22] = 3.0;
    logits[30] = 2.0;
    logits[0] = 1.0;
    let keys = score_keys(&logits);
    let top = top_discard_candidates(&legal, &keys, 4, 2);
    assert_eq!(top, vec![Candidate { id: 22, pos: 2 }, Candidate { id: 30, pos: 5 }]);
    let all = top_discard_candidates(&legal, &keys, 4, 10);
    assert_eq!(all.len(), 3);
    assert_eq!(all[2], Candidate { id: 0, pos: 3 });
}
