use spark_model::snap_agree::{agree, decide, local_proposal, skip_point, LocalGates};

const MATCHED: usize = 16352;
const TOTAL: usize = 16356;
const T: usize = 16336;

/// A rank that holds a restorable intermediate checkpoint at `snap_tok`.
fn holder(snap_tok: usize) -> LocalGates {
    LocalGates {
        snap_tok,
        matched: MATCHED,
        total: TOTAL,
        min_tokens: 256,
        has_hidden: false,
        exact_enabled: false,
        is_tail: false,
        session_ok: true,
        needs_aux: true,
        has_aux: true,
    }
}

/// A rank whose pool evicted the checkpoint.
fn none() -> LocalGates {
    holder(0)
}

#[test]
fn both_ranks_same_snapshot_restore_it() {
    let (agreed, pts) = decide(&holder(T), &holder(T));
    assert_eq!(agreed, Some(T as u32));
    assert_eq!(pts, [T, T]);
}

#[test]
fn one_rank_without_snapshot_forces_recompute_everywhere() {
    let (agreed, pts) = decide(&holder(T), &none());
    assert_eq!(agreed, None);
    assert_eq!(pts, [0, 0]);
    // Symmetric.
    let (agreed, pts) = decide(&none(), &holder(T));
    assert_eq!(agreed, None);
    assert_eq!(pts, [0, 0]);
}

#[test]
fn different_tokens_never_pick_a_token_one_rank_lacks() {
    let (agreed, pts) = decide(&holder(T), &holder(T - 256));
    assert_eq!(agreed, None, "a naive min would have chosen {}", T - 256);
    assert_eq!(pts, [0, 0]);
}

#[test]
fn aux_gate_failure_on_one_rank_declines_everywhere() {
    let mut r1 = holder(T);
    r1.has_aux = false;
    let (agreed, pts) = decide(&holder(T), &r1);
    assert_eq!(agreed, None);
    assert_eq!(pts, [0, 0]);
}

#[test]
fn any_local_decline_on_one_rank_declines_everywhere() {
    let declines: Vec<(&str, LocalGates)> = vec![
        ("tail snapshot from another session", {
            let mut g = holder(T);
            g.is_tail = true;
            g.session_ok = false;
            g
        }),
        ("below marconi_min_tokens", {
            let mut g = holder(T);
            g.min_tokens = T + 1;
            g
        }),
        ("exact full-prompt hit without hidden", {
            let mut g = holder(TOTAL);
            g.matched = TOTAL;
            g.exact_enabled = true;
            g.has_hidden = false;
            g
        }),
        ("exact full-prompt shortcut bypassed by default", {
            let mut g = holder(TOTAL);
            g.matched = TOTAL;
            g.has_hidden = true;
            g
        }),
    ];
    for (why, r1) in declines {
        assert_eq!(
            local_proposal(&r1),
            0,
            "{why}: rank 1 must propose RECOMPUTE"
        );
        let (agreed, pts) = decide(&holder(r1.snap_tok), &r1);
        assert_eq!(agreed, None, "{why}");
        assert_eq!(pts, [0, 0], "{why}");
    }
}

#[test]
fn no_snapshot_anywhere_recomputes() {
    let (agreed, pts) = decide(&none(), &none());
    assert_eq!(agreed, None);
    assert_eq!(pts, [0, 0]);
    assert_eq!(agree(&[]), None);
}

#[test]
fn replay_length_identical_across_ranks() {
    for (r0, r1) in [
        (holder(T), holder(T)),
        (holder(T), none()),
        (holder(T), holder(T - 256)),
        (none(), none()),
    ] {
        let (_, [p0, p1]) = decide(&r0, &r1);
        assert_eq!(TOTAL - p0, TOTAL - p1, "replay differs: {r0:?} vs {r1:?}");
    }
    // Non-SSM skip and the exact-leaf shape are pure functions of the
    // agreed inputs too.
    assert_eq!(skip_point(true, 0, MATCHED, TOTAL, false), MATCHED);
    assert_eq!(skip_point(true, TOTAL, TOTAL, TOTAL, true), TOTAL);
    assert_eq!(skip_point(true, T, MATCHED, TOTAL, true), T);
    assert_eq!(skip_point(false, T, MATCHED, TOTAL, true), 0);
}

#[test]
fn restorable_holder_proposes_its_checkpoint() {
    assert_eq!(local_proposal(&holder(T)), T as u32);
    assert_eq!(local_proposal(&none()), 0);
    // The exact full-prompt shortcut with hidden state at hand restores.
    let mut exact = holder(TOTAL);
    exact.matched = TOTAL;
    exact.exact_enabled = true;
    exact.has_hidden = true;
    assert_eq!(local_proposal(&exact), TOTAL as u32);
    // A tail snapshot from this session restores.
    let mut tail = holder(T);
    tail.is_tail = true;
    assert_eq!(local_proposal(&tail), T as u32);
    // Auxiliary state is only needed when the model asks for it.
    let mut no_aux = holder(T);
    no_aux.needs_aux = false;
    no_aux.has_aux = false;
    assert_eq!(local_proposal(&no_aux), T as u32);
    // Exactly at the minimum is enough.
    let mut at_min = holder(T);
    at_min.min_tokens = T;
    assert_eq!(local_proposal(&at_min), T as u32);
}

#[test]
fn checkpoint_outside_the_matched_prefix_is_not_proposed() {
    assert_eq!(local_proposal(&holder(MATCHED + 1)), 0);
    assert_eq!(local_proposal(&holder(MATCHED)), MATCHED as u32);
    let mut short = holder(T);
    short.total = T - 1;
    assert_eq!(local_proposal(&short), 0);
    assert_eq!(local_proposal(&holder(u32::MAX as usize + 1)), 0);
}

#[test]
fn agree_requires_every_vote_equal_and_nonzero() {
    assert_eq!(agree(&[7]), Some(7));
    assert_eq!(agree(&[0]), None);
    assert_eq!(agree(&[7, 7, 7, 7]), Some(7));
    assert_eq!(agree(&[7, 7, 0, 7]), None);
    assert_eq!(agree(&[7, 7, 8, 7]), None);
    assert_eq!(agree(&[0, 0, 0]), None);
}

#[test]
fn agree_ignores_vote_order() {
    let a = [5u32, 5, 9];
    let b = [9u32, 5, 5];
    assert_eq!(agree(&a), agree(&b));
    assert_eq!(agree(&[3u32, 3, 3]), agree(&[3u32, 3, 3]));
    assert_eq!(agree(&[0u32, 4]), agree(&[4u32, 0]));
}

#[test]
fn skip_point_never_passes_the_prompt() {
    assert_eq!(skip_point(true, TOTAL + 5, MATCHED, TOTAL, true), TOTAL);
    assert_eq!(skip_point(true, 0, TOTAL + 5, TOTAL, false), TOTAL);
    assert_eq!(skip_point(false, TOTAL + 5, TOTAL + 5, TOTAL, false), 0);
}

#[test]
fn ranks_with_different_prefixes_still_skip_alike() {
    let mut r1 = holder(T);
    r1.matched = T;
    r1.total = T + 10;
    let (agreed, pts) = decide(&holder(T), &r1);
    assert_eq!(agreed, Some(T as u32));
    assert_eq!(pts, [T, T]);
}
