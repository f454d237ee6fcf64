//! The Marconi restore decision, agreed across tensor-parallel ranks.
//!
//! Every rank holds its own checkpoint pool, so each rank may be able to
//! restore a different intermediate checkpoint, or none. Restoring on some
//! ranks and recomputing on others desynchronises the collective schedule,
//! so the decision is all-or-nothing: each rank proposes the checkpoint token
//! it can restore (or `0` for RECOMPUTE), the proposals are gathered in rank
//! order, and a restore happens only when every rank proposed the same
//! non-zero token. The skip point (and therefore the replay length) is then a
//! pure function of the agreed value, identical on every rank.

use vstd::prelude::*;

verus! {

/// A rank's local view of the restore gates after its own checkpoint lookup.
#[derive(Clone, Copy, Debug, PartialEq, Eq)]
pub struct LocalGates {
    /// Token position of the restorable checkpoint, `0` when there is none.
    pub snap_tok: usize,
    /// Length of the prompt prefix matched in the cache.
    pub matched: usize,
    /// Length of the whole prompt.
    pub total: usize,
    /// Smallest checkpoint position worth restoring.
    pub min_tokens: usize,
    /// Whether the checkpoint carries the last hidden state.
    pub has_hidden: bool,
    /// Whether the exact full-prompt shortcut is enabled.
    pub exact_enabled: bool,
    /// Whether the checkpoint is a tail snapshot.
    pub is_tail: bool,
    /// Whether a tail snapshot belongs to the current session.
    pub session_ok: bool,
    /// Whether the model needs auxiliary state restored with the checkpoint.
    pub needs_aux: bool,
    /// Whether the auxiliary state is present for the checkpoint.
    pub has_aux: bool,
}

/// Whether this rank can restore its checkpoint: there is one, it lies
/// inside the matched prefix and the prompt, it is not below the minimum,
/// a tail snapshot comes from this session, auxiliary state is present when
/// needed, and a checkpoint covering the whole prompt is taken only through
/// the enabled exact shortcut with the hidden state at hand. The position
/// must also fit the `u32` vote.
pub open spec fn restorable(g: LocalGates) -> bool {
    &&& 0 < g.snap_tok
    &&& g.snap_tok <= u32::MAX
    &&& g.snap_tok <= g.matched
    &&& g.snap_tok <= g.total
    &&& g.min_tokens <= g.snap_tok
    &&& g.is_tail ==> g.session_ok
    &&& g.needs_aux ==> g.has_aux
    &&& g.snap_tok == g.total ==> (g.exact_enabled && g.has_hidden)
}

/// The vote of a rank: its checkpoint position when restorable, else `0`.
pub open spec fn proposal(g: LocalGates) -> u32 {
    if restorable(g) {
        g.snap_tok as u32
    } else {
        0
    }
}

/// The agreed checkpoint: `Some(t)` exactly when there is at least one vote,
/// `t` is not RECOMPUTE, and every vote is `t`.
pub open spec fn agreed(votes: Seq<u32>) -> Option<u32> {
    if votes.len() > 0 && votes[0] != 0 && (forall|i: int| 0 <= i < votes.len() ==> #[trigger] votes[i] == votes[0]) {
        Some(votes[0])
    } else {
        None
    }
}

/// The first prompt position that is not replayed.
pub open spec fn skip_position(skip: bool, agreed_tok: usize, matched: usize, total: usize, ssm: bool) -> usize {
    if !skip {
        0
    } else if ssm {
        if agreed_tok <= total { agreed_tok } else { total }
    } else {
        if matched <= total { matched } else { total }
    }
}

/// The skip point of a rank with gates `g` once the vote came out as `a`.
pub open spec fn rank_skip(a: Option<u32>, g: LocalGates) -> usize {
    skip_position(
        a is Some,
        match a {
            Some(t) => t as usize,
            None => 0,
        },
        g.matched,
        g.total,
        true,
    )
}

/// The votes of a group of ranks, in rank order.
pub open spec fn votes_of(gates: Seq<LocalGates>) -> Seq<u32> {
    gates.map_values(|g: LocalGates| proposal(g))
}

/// This rank's proposal: the checkpoint position it can restore, or `0`
/// (RECOMPUTE) when any local gate declines.
pub fn local_proposal(g: &LocalGates) -> (v: u32)
    ensures
        v == proposal(*g),
        v != 0 <==> restorable(*g),
        v == 0 || v as int == g.snap_tok,
        g.snap_tok == 0 ==> v == 0,
        g.snap_tok > u32::MAX ==> v == 0,
        g.snap_tok > g.matched ==> v == 0,
        g.snap_tok > g.total ==> v == 0,
        g.snap_tok < g.min_tokens ==> v == 0,
        g.is_tail && !g.session_ok ==> v == 0,
        g.needs_aux && !g.has_aux ==> v == 0,
        g.snap_tok == g.total && !(g.exact_enabled && g.has_hidden) ==> v == 0,
        0 < g.snap_tok <= u32::MAX && g.snap_tok <= g.matched && g.snap_tok <= g.total
            && g.min_tokens <= g.snap_tok && (g.is_tail ==> g.session_ok) && (g.needs_aux
            ==> g.has_aux) && (g.snap_tok == g.total ==> g.exact_enabled && g.has_hidden)
            ==> v as int == g.snap_tok,
{
    if g.snap_tok == 0 || g.snap_tok > u32::MAX as usize {
        return 0;
    }
    if g.snap_tok > g.matched || g.snap_tok > g.total {
        return 0;
    }
    if g.snap_tok < g.min_tokens {
        return 0;
    }
    if g.is_tail && !g.session_ok {
        return 0;
    }
    if g.needs_aux && !g.has_aux {
        return 0;
    }
    if g.snap_tok == g.total && !(g.exact_enabled && g.has_hidden) {
        return 0;
    }
    g.snap_tok as u32
}

/// Agree on the gathered votes: restore `t` only when every rank proposed
/// the same non-zero `t`; any RECOMPUTE vote, any disagreement, or no vote
/// at all yields `None`.
pub fn agree(votes: &[u32]) -> (res: Option<u32>)
    ensures
        res == agreed(votes@),
        res matches Some(t) ==> t != 0 && forall|i: int| 0 <= i < votes@.len() ==> votes@[i] == t,
        (exists|i: int| 0 <= i < votes@.len() && votes@[i] == 0) ==> res is None,
        votes@.len() == 0 ==> res is None,
        votes@.len() > 0 && votes@[0] != 0 && (forall|i: int|
            0 <= i < votes@.len() ==> #[trigger] votes@[i] == votes@[0]) ==> res == Some(votes@[0]),
        (exists|i: int, j: int| 0 <= i < votes@.len() && 0 <= j < votes@.len() && #[trigger] votes@[i] != #[trigger] votes@[j]) ==> res is None,
{
    if votes.len() == 0 {
        return None;
    }
    let first = votes[0];
    if first == 0 {
        return None;
    }
    let mut i: usize = 1;
    while i < votes.len()
        invariant
            1 <= i <= votes@.len(),
            first == votes@[0],
            forall|j: int| 0 <= j < i ==> votes@[j] == first,
        decreases votes@.len() - i,
    {
        if votes[i] != first {
            return None;
        }
        i = i + 1;
    }
    Some(first)
}

/// The first prompt position this rank does not replay. Without a skip
/// nothing is skipped; a state-space model resumes at the agreed checkpoint;
/// any other model resumes after the matched prefix. The skip point never
/// goes past the prompt.
pub fn skip_point(skip: bool, agreed_tok: usize, matched: usize, total: usize, ssm: bool) -> (p: usize)
    ensures
        p == skip_position(skip, agreed_tok, matched, total, ssm),
        p <= total,
        !skip ==> p == 0,
        skip && ssm ==> p == if agreed_tok <= total { agreed_tok } else { total },
        skip && !ssm ==> p == if matched <= total { matched } else { total },
{
    if !skip {
        0
    } else if ssm {
        if agreed_tok <= total { agreed_tok } else { total }
    } else {
        if matched <= total { matched } else { total }
    }
}

/// The whole decision for two ranks: proposals, agreement, skip points.
/// Returns the agreed checkpoint and the skip point of each rank.
pub fn decide(r0: &LocalGates, r1: &LocalGates) -> (res: (Option<u32>, [usize; 2]))
    ensures
        res.0 == agreed(seq![proposal(*r0), proposal(*r1)]),
        res.1@[0] == rank_skip(res.0, *r0),
        res.1@[1] == rank_skip(res.0, *r1),
        res.1@[0] == res.1@[1],
        res.0 matches Some(t) ==> restorable(*r0) && restorable(*r1) && r0.snap_tok == t
            && r1.snap_tok == t,
        res.0 is None ==> res.1@[0] == 0 && res.1@[1] == 0,
        res.0 matches Some(t) ==> res.1@[0] == t as usize && res.1@[1] == t as usize,
        proposal(*r0) != 0 && proposal(*r0) == proposal(*r1) ==> res.0 == Some(proposal(*r0)),
        proposal(*r0) != proposal(*r1) ==> res.0 is None,
{
    let votes = [local_proposal(r0), local_proposal(r1)];
    let agreed_vote = agree(&votes);
    let skip = agreed_vote.is_some();
    let tok: usize = match agreed_vote {
        Some(t) => t as usize,
        None => 0,
    };
    let p0 = skip_point(skip, tok, r0.matched, r0.total, true);
    let p1 = skip_point(skip, tok, r1.matched, r1.total, true);
    (agreed_vote, [p0, p1])
}

/// The agreement does not depend on the order in which the votes were
/// gathered: two gatherings of the same votes agree on the same outcome.
pub proof fn lemma_agreement_ignores_vote_order(a: Seq<u32>, b: Seq<u32>)
    requires
        a.to_multiset() == b.to_multiset(),
    ensures
        agreed(a) == agreed(b),
{
    if agreed(a) is Some {
        lemma_agreed_carries_over(a, b);
    } else if agreed(b) is Some {
        lemma_agreed_carries_over(b, a);
    }
}

proof fn lemma_agreed_carries_over(a: Seq<u32>, b: Seq<u32>)
    requires
        a.to_multiset() == b.to_multiset(),
        agreed(a) is Some,
    ensures
        agreed(b) == agreed(a),
{
    broadcast use vstd::seq_lib::group_to_multiset_ensures;

    let t = a[0];
    assert(a.to_multiset().len() == a.len());
    assert(b.to_multiset().len() == b.len());
    assert forall|j: int| 0 <= j < b.len() implies #[trigger] b[j] == t by {
        assert(b.contains(b[j]));
        assert(b.to_multiset().count(b[j]) > 0);
        assert(a.contains(b[j]));
        let i = choose|i: int| 0 <= i < a.len() && a[i] == b[j];
        assert(a[i] == a[0]);
    }
}

/// All or nothing: when the ranks agree on `t`, every rank can restore its
/// checkpoint and that checkpoint is at `t`; when any rank declines, no rank
/// restores.
pub proof fn lemma_restore_is_all_or_nothing(gates: Seq<LocalGates>)
    ensures
        agreed(votes_of(gates)) matches Some(t) ==> forall|i: int|
            0 <= i < gates.len() ==> restorable(#[trigger] gates[i]) && gates[i].snap_tok == t,
        (exists|i: int| 0 <= i < gates.len() && !restorable(#[trigger] gates[i])) ==> agreed(
            votes_of(gates),
        ) is None,
{
    let v = votes_of(gates);
    if let Some(t) = agreed(v) {
        assert forall|i: int| 0 <= i < gates.len() implies restorable(#[trigger] gates[i])
            && gates[i].snap_tok == t by {
            assert(v[i] == t);
        }
    }
    if exists|i: int| 0 <= i < gates.len() && !restorable(#[trigger] gates[i]) {
        let i = choose|i: int| 0 <= i < gates.len() && !restorable(#[trigger] gates[i]);
        assert(v[i] == 0);
    }
}

/// Every rank that took part in the vote lands on the same skip point, so
/// the replay length is identical across ranks of the same prompt.
pub proof fn lemma_every_rank_skips_to_the_same_point(gates: Seq<LocalGates>, i: int, j: int)
    requires
        0 <= i < gates.len(),
        0 <= j < gates.len(),
    ensures
        rank_skip(agreed(votes_of(gates)), gates[i]) == rank_skip(agreed(votes_of(gates)), gates[j]),
{
    lemma_restore_is_all_or_nothing(gates);
    if let Some(t) = agreed(votes_of(gates)) {
        assert(restorable(gates[i]) && gates[i].snap_tok == t);
        assert(restorable(gates[j]) && gates[j].snap_tok == t);
    }
}

/// A vote is either RECOMPUTE or the rank's own checkpoint position.
pub proof fn lemma_vote_is_recompute_or_own_checkpoint(g: LocalGates)
    ensures
        proposal(g) == 0 || proposal(g) as int == g.snap_tok,
        proposal(g) != 0 ==> 0 < g.snap_tok <= g.matched && g.snap_tok <= g.total
            && g.min_tokens <= g.snap_tok,
{
}

/// An intermediate checkpoint (strictly inside the prompt) that lies in the
/// matched prefix, reaches the minimum, comes from this session when it is a
/// tail snapshot, and has its auxiliary state when that is needed, is
/// proposed: the vote is its position.
pub proof fn lemma_intermediate_checkpoint_is_proposed(g: LocalGates)
    requires
        0 < g.snap_tok < g.total,
        g.snap_tok <= g.matched,
        g.min_tokens <= g.snap_tok,
        g.snap_tok <= u32::MAX,
        g.is_tail ==> g.session_ok,
        g.needs_aux ==> g.has_aux,
    ensures
        proposal(g) as int == g.snap_tok,
{
}

/// The exact full-prompt shortcut and the hidden state matter only for a
/// checkpoint that covers the whole prompt.
pub proof fn lemma_exact_gate_only_at_full_prompt(g: LocalGates, exact_enabled: bool, has_hidden: bool)
    requires
        g.snap_tok != g.total,
    ensures
        proposal(g) == proposal(LocalGates { exact_enabled, has_hidden, ..g }),
{
}

/// A checkpoint covering the whole prompt is proposed only through the
/// enabled exact shortcut with the hidden state at hand.
pub proof fn lemma_full_prompt_needs_exact_shortcut(g: LocalGates)
    requires
        g.snap_tok == g.total,
        !(g.exact_enabled && g.has_hidden),
    ensures
        proposal(g) == 0,
{
}

/// The session of a checkpoint matters only for a tail snapshot.
pub proof fn lemma_session_gate_only_for_tail(g: LocalGates, session_ok: bool)
    requires
        !g.is_tail,
    ensures
        proposal(g) == proposal(LocalGates { session_ok, ..g }),
{
}

/// Auxiliary state matters only for a model that needs it.
pub proof fn lemma_aux_gate_only_when_needed(g: LocalGates, has_aux: bool)
    requires
        !g.needs_aux,
    ensures
        proposal(g) == proposal(LocalGates { has_aux, ..g }),
{
}

/// Lowering the minimum checkpoint position never turns a restore into a
/// recompute, and raising it above the checkpoint always does.
pub proof fn lemma_min_tokens_threshold(g: LocalGates, lower: usize, higher: usize)
    requires
        lower <= g.min_tokens,
        g.snap_tok < higher,
    ensures
        proposal(g) != 0 ==> proposal(LocalGates { min_tokens: lower, ..g }) == proposal(g),
        proposal(LocalGates { min_tokens: higher, ..g }) == 0,
{
}

/// Unanimous non-zero votes are agreed on.
pub proof fn lemma_unanimous_votes_agree(votes: Seq<u32>, t: u32)
    requires
        votes.len() > 0,
        t != 0,
        forall|i: int| 0 <= i < votes.len() ==> votes[i] == t,
    ensures
        agreed(votes) == Some(t),
{
}

/// The agreed value is one of the votes, and it is never RECOMPUTE.
pub proof fn lemma_agreed_value_was_voted(votes: Seq<u32>)
    ensures
        agreed(votes) matches Some(t) ==> t != 0 && votes.contains(t),
{
    if let Some(t) = agreed(votes) {
        assert(votes[0] == t);
    }
}

/// One more rank joins the vote: the group still agrees on `x` exactly when
/// it agreed on `x` before and the new rank voted `x`.
pub proof fn lemma_agreement_with_one_more_vote(votes: Seq<u32>, x: u32)
    requires
        votes.len() > 0,
    ensures
        agreed(votes.push(x)) == (if agreed(votes) == Some(x) { Some(x) } else { None::<u32> }),
{
    let w = votes.push(x);
    if agreed(w) is Some {
        assert forall|i: int| 0 <= i < votes.len() implies #[trigger] votes[i] == votes[0] by {
            assert(w[i] == votes[i]);
        }
        assert(w[votes.len() as int] == x);
    }
    if agreed(votes) == Some(x) {
        assert forall|i: int| 0 <= i < w.len() implies #[trigger] w[i] == w[0] by {
            if i < votes.len() {
                assert(w[i] == votes[i]);
            }
        }
    }
}

/// Without a skip the whole prompt is replayed.
pub proof fn lemma_no_skip_replays_everything(agreed_tok: usize, matched: usize, total: usize, ssm: bool)
    ensures
        skip_position(false, agreed_tok, matched, total, ssm) == 0,
{
}

/// A model without recurrent state resumes after the matched prefix (within
/// the prompt), whatever checkpoint was agreed.
pub proof fn lemma_non_ssm_skip_ignores_the_checkpoint(a: usize, b: usize, matched: usize, total: usize)
    ensures
        skip_position(true, a, matched, total, false) == skip_position(true, b, matched, total, false),
        matched <= total ==> skip_position(true, a, matched, total, false) == matched,
        skip_position(true, a, matched, total, false) <= total,
{
}

/// A state-space model resumes exactly at an agreed checkpoint inside the
/// prompt, whatever the matched prefix.
pub proof fn lemma_ssm_resumes_at_the_checkpoint(t: usize, m1: usize, m2: usize, total: usize)
    requires
        t <= total,
    ensures
        skip_position(true, t, m1, total, true) == t,
        skip_position(true, t, m1, total, true) == skip_position(true, t, m2, total, true),
{
}

/// When the ranks agree on `t`, every rank resumes at `t`; when they do not,
/// every rank replays the whole prompt.
pub proof fn lemma_agreed_ranks_resume_at_the_checkpoint(gates: Seq<LocalGates>, i: int)
    requires
        0 <= i < gates.len(),
    ensures
        agreed(votes_of(gates)) matches Some(t) ==> rank_skip(agreed(votes_of(gates)), gates[i])
            == t as usize,
        agreed(votes_of(gates)) is None ==> rank_skip(agreed(votes_of(gates)), gates[i]) == 0,
{
    lemma_restore_is_all_or_nothing(gates);
    if let Some(t) = agreed(votes_of(gates)) {
        assert(restorable(gates[i]) && gates[i].snap_tok == t);
    }
}

} // verus!
