use vstd::prelude::*;

use crate::status::{Action, Outcome, PollStatus, StatusModel};

verus! {

/// The vote state machine: one total transition per `(status, action,
/// authorization)` combination. Authorization is carried by `actor` versus
/// `submitter` (revoking needs the submitter, upvoting forbids them) and by
/// the facilitator capability (vetoing needs it).
pub open spec fn spec_transition(
    m: StatusModel,
    action: Action,
    actor: u64,
    submitter: u64,
    facilitator: bool,
    threshold: nat,
) -> (StatusModel, Outcome) {
    match action {
        Action::Upvote => {
            if actor == submitter {
                (m, Outcome::SelfVoteForbidden)
            } else {
                match m {
                    StatusModel::Pending { votes } => {
                        if votes.contains(actor) {
                            (m, Outcome::AlreadyVoted)
                        } else if votes.insert(actor).len() >= threshold {
                            (StatusModel::Completed, Outcome::PollCompleted)
                        } else {
                            (StatusModel::Pending { votes: votes.insert(actor) }, Outcome::VoteAdded)
                        }
                    },
                    StatusModel::Completed => (m, Outcome::AlreadyCompleted),
                    StatusModel::Revoked => (m, Outcome::WasRevoked),
                    StatusModel::Vetoed => (m, Outcome::WasVetoed),
                }
            }
        },
        Action::Revoke => {
            if actor != submitter {
                (m, Outcome::NotSubmitter)
            } else {
                match m {
                    StatusModel::Pending { .. } => (StatusModel::Revoked, Outcome::PollRevoked),
                    StatusModel::Completed => (StatusModel::Revoked, Outcome::PollRevoked),
                    StatusModel::Revoked => (m, Outcome::AlreadyRevoked),
                    StatusModel::Vetoed => (m, Outcome::WasVetoed),
                }
            }
        },
        Action::Veto => {
            if !facilitator {
                (m, Outcome::NotFacilitator)
            } else {
                match m {
                    StatusModel::Pending { .. } => (StatusModel::Vetoed, Outcome::PollVetoed),
                    StatusModel::Completed => (StatusModel::Vetoed, Outcome::PollVetoed),
                    StatusModel::Revoked => (m, Outcome::WasRevoked),
                    StatusModel::Vetoed => (m, Outcome::AlreadyVetoed),
                }
            }
        },
    }
}

/// Runs one transition of the vote state machine. Total: every input maps
/// to a defined `(status, outcome)` pair, and the status only ever moves
/// forward (pending to completed, active to revoked or vetoed).
pub fn transition(
    status: PollStatus,
    action: Action,
    actor: u64,
    submitter: u64,
    facilitator: bool,
    threshold: usize,
) -> (r: (PollStatus, Outcome))
    requires
        status.wf(),
    ensures
        (r.0@, r.1) == spec_transition(status@, action, actor, submitter, facilitator, threshold as nat),
        r.0.wf(),
        status@.excludes(submitter) ==> r.0@.excludes(submitter),
{
    match action {
        Action::Upvote => {
            if actor == submitter {
                (status, Outcome::SelfVoteForbidden)
            } else {
                match status {
                    PollStatus::Pending { mut votes } => {
                        if contains_u64(&votes, actor) {
                            (PollStatus::Pending { votes }, Outcome::AlreadyVoted)
                        } else {
                            let ghost old_votes = votes@;
                            votes.push(actor);
                            proof {
                                old_votes.lemma_push_to_set_commute(actor);
                                assert(votes@.drop_last() =~= old_votes);
                                votes@.unique_seq_to_set();
                            }
                            if votes.len() >= threshold {
                                (PollStatus::Completed, Outcome::PollCompleted)
                            } else {
                                (PollStatus::Pending { votes }, Outcome::VoteAdded)
                            }
                        }
                    },
                    PollStatus::Completed => (PollStatus::Completed, Outcome::AlreadyCompleted),
                    PollStatus::Revoked => (PollStatus::Revoked, Outcome::WasRevoked),
                    PollStatus::Vetoed => (PollStatus::Vetoed, Outcome::WasVetoed),
                }
            }
        },
        Action::Revoke => {
            if actor != submitter {
                (status, Outcome::NotSubmitter)
            } else {
                match status {
                    PollStatus::Pending { .. } => (PollStatus::Revoked, Outcome::PollRevoked),
                    PollStatus::Completed => (PollStatus::Revoked, Outcome::PollRevoked),
                    PollStatus::Revoked => (PollStatus::Revoked, Outcome::AlreadyRevoked),
                    PollStatus::Vetoed => (PollStatus::Vetoed, Outcome::WasVetoed),
                }
            }
        },
        Action::Veto => {
            if !facilitator {
                (status, Outcome::NotFacilitator)
            } else {
                match status {
                    PollStatus::Pending { .. } => (PollStatus::Vetoed, Outcome::PollVetoed),
                    PollStatus::Completed => (PollStatus::Vetoed, Outcome::PollVetoed),
                    PollStatus::Revoked => (PollStatus::Revoked, Outcome::WasRevoked),
                    PollStatus::Vetoed => (PollStatus::Vetoed, Outcome::AlreadyVetoed),
                }
            }
        },
    }
}

/// The follow-up the surrounding code owes after a transition. The order
/// within each follow-up is fixed: persist to the store first, then edit
/// the visible poll message, so the visible state never outpaces the
/// durable state.
#[derive(Clone, Copy, PartialEq, Eq, Structural, Debug)]
pub enum Effect {
    /// Nothing changed: only send the outcome message to the actor.
    RespondOnly,
    /// Persist the new status, then edit the poll message.
    UpdateStatus,
    /// Mark the suggestion approved and persist the new status, then edit
    /// the poll message with upvoting closed.
    ApproveAndUpdate,
    /// Delete the poll and its suggestion from the store, drop the poll
    /// from the cache, then edit the poll message with voting closed.
    RemovePoll,
}

/// The follow-up owed for each outcome.
pub open spec fn spec_effect_of(out: Outcome) -> Effect {
    match out {
        Outcome::VoteAdded => Effect::UpdateStatus,
        Outcome::PollCompleted => Effect::ApproveAndUpdate,
        Outcome::PollRevoked => Effect::RemovePoll,
        Outcome::PollVetoed => Effect::RemovePoll,
        _ => Effect::RespondOnly,
    }
}

/// Maps a transition outcome to the follow-up the caller owes.
pub fn effect_of(out: Outcome) -> (r: Effect)
    ensures
        r == spec_effect_of(out),
{
    match out {
        Outcome::VoteAdded => Effect::UpdateStatus,
        Outcome::PollCompleted => Effect::ApproveAndUpdate,
        Outcome::PollRevoked => Effect::RemovePoll,
        Outcome::PollVetoed => Effect::RemovePoll,
        _ => Effect::RespondOnly,
    }
}

/// The status reached by a sequence of upvotes, applied first to last.
pub open spec fn apply_upvotes(
    m: StatusModel,
    voters: Seq<u64>,
    submitter: u64,
    facilitator: bool,
    threshold: nat,
) -> StatusModel
    decreases voters.len(),
{
    if voters.len() == 0 {
        m
    } else {
        apply_upvotes(
            spec_transition(m, Action::Upvote, voters.first(), submitter, facilitator, threshold).0,
            voters.drop_first(),
            submitter,
            facilitator,
            threshold,
        )
    }
}

proof fn lemma_apply_upvotes_snoc(
    m: StatusModel,
    voters: Seq<u64>,
    x: u64,
    submitter: u64,
    facilitator: bool,
    threshold: nat,
)
    ensures
        apply_upvotes(m, voters.push(x), submitter, facilitator, threshold)
            == spec_transition(
                apply_upvotes(m, voters, submitter, facilitator, threshold),
                Action::Upvote, x, submitter, facilitator, threshold,
            ).0,
    decreases voters.len(),
{
    if voters.len() == 0 {
        let t = spec_transition(m, Action::Upvote, x, submitter, facilitator, threshold).0;
        assert(voters.push(x).first() == x);
        assert(voters.push(x).drop_first() =~= Seq::<u64>::empty());
        assert(apply_upvotes(m, voters.push(x), submitter, facilitator, threshold)
            == apply_upvotes(t, voters.push(x).drop_first(), submitter, facilitator, threshold));
        assert(apply_upvotes(m, voters, submitter, facilitator, threshold) == m);
    } else {
        let t0 = spec_transition(m, Action::Upvote, voters.first(), submitter, facilitator, threshold).0;
        assert(voters.push(x)[0] == voters[0]);
        assert(voters.push(x).first() == voters.first());
        assert(voters.push(x).drop_first() =~= voters.drop_first().push(x));
        assert(apply_upvotes(m, voters.push(x), submitter, facilitator, threshold)
            == apply_upvotes(t0, voters.drop_first().push(x), submitter, facilitator, threshold));
        lemma_apply_upvotes_snoc(t0, voters.drop_first(), x, submitter, facilitator, threshold);
        assert(apply_upvotes(m, voters, submitter, facilitator, threshold)
            == apply_upvotes(t0, voters.drop_first(), submitter, facilitator, threshold));
    }
}

/// For any sequence of distinct voters, none the submitter and none having
/// voted yet, upvoting a pending poll raises the vote count by exactly one
/// per vote until it reaches the threshold; at that point the status becomes
/// `Completed` (with the `PollCompleted` outcome, emitted exactly once) and
/// every later upvote leaves it `Completed`.
pub proof fn lemma_vote_tally(
    votes: Set<u64>,
    voters: Seq<u64>,
    submitter: u64,
    facilitator: bool,
    threshold: nat,
    k: int,
)
    requires
        votes.finite(),
        votes.len() < threshold,
        voters.no_duplicates(),
        forall|i: int| 0 <= i < voters.len() ==> #[trigger] voters[i] != submitter,
        forall|i: int| 0 <= i < voters.len() ==> !votes.contains(#[trigger] voters[i]),
        0 <= k <= voters.len(),
    ensures
        ({
            let mk = apply_upvotes(
                (StatusModel::Pending { votes }), voters.take(k), submitter, facilitator, threshold,
            );
            &&& votes.len() + k < threshold ==> {
                &&& mk == (StatusModel::Pending { votes: votes + voters.take(k).to_set() })
                &&& mk.vote_count() == votes.len() + k
                &&& k < voters.len() ==> spec_transition(
                        mk, Action::Upvote, voters[k], submitter, facilitator, threshold,
                    ).1 == (if votes.len() + k + 1 >= threshold {
                        Outcome::PollCompleted
                    } else {
                        Outcome::VoteAdded
                    })
            }
            &&& votes.len() + k >= threshold ==> {
                &&& mk == StatusModel::Completed
                &&& k < voters.len() ==> spec_transition(
                        mk, Action::Upvote, voters[k], submitter, facilitator, threshold,
                    ).1 == Outcome::AlreadyCompleted
            }
        }),
    decreases k,
{
    if k == 0 {
        assert(voters.take(0) =~= Seq::<u64>::empty());
        assert(voters.take(0).to_set() =~= Set::<u64>::empty());
        assert(votes + Set::<u64>::empty() =~= votes);
    } else {
        lemma_vote_tally(votes, voters, submitter, facilitator, threshold, k - 1);
        let prev = voters.take(k - 1);
        let x = voters[k - 1];
        assert(voters.take(k) =~= prev.push(x));
        lemma_apply_upvotes_snoc(
            (StatusModel::Pending { votes }), prev, x, submitter, facilitator, threshold,
        );
        if votes.len() + (k - 1) < threshold {
            let vk1 = votes + prev.to_set();
            // the next voter is fresh: not the submitter, not in `votes`,
            // and (by distinctness) not among the first k - 1 voters
            assert(!prev.contains(x)) by {
                if prev.contains(x) {
                    let i = choose|i: int| 0 <= i < prev.len() && prev[i] == x;
                    assert(voters[i] == voters[k - 1]);
                }
            }
            assert(!vk1.contains(x));
            prev.lemma_cardinality_of_set();
            assert(vk1.insert(x) =~= votes + voters.take(k).to_set()) by {
                prev.lemma_push_to_set_commute(x);
            }
            vstd::set_lib::lemma_set_union_finite_iff(votes, prev.to_set());
            assert(vk1.insert(x).len() == vk1.len() + 1);
        }
    }
}

/// A submitter's own upvote on their poll never changes the status, in any
/// state, and is rejected as a self-vote.
pub proof fn lemma_self_vote_never_changes(
    m: StatusModel,
    submitter: u64,
    facilitator: bool,
    threshold: nat,
)
    ensures
        spec_transition(m, Action::Upvote, submitter, submitter, facilitator, threshold)
            == (m, Outcome::SelfVoteForbidden),
{
}

/// Repeating a voter's upvote on a pending poll is a no-op: the vote set,
/// and hence its size, is unchanged, and the outcome says "already voted".
pub proof fn lemma_repeat_upvote_noop(
    votes: Set<u64>,
    actor: u64,
    submitter: u64,
    facilitator: bool,
    threshold: nat,
)
    requires
        actor != submitter,
        votes.contains(actor),
    ensures
        spec_transition(
            (StatusModel::Pending { votes }), Action::Upvote, actor, submitter, facilitator, threshold,
        ) == ((StatusModel::Pending { votes }), Outcome::AlreadyVoted),
{
}

/// A revoke succeeds exactly when the actor is the submitter and the poll
/// is still active (pending or completed); every other combination leaves
/// the status unchanged and returns a rejection outcome.
pub proof fn lemma_revoke_authorization(
    m: StatusModel,
    actor: u64,
    submitter: u64,
    facilitator: bool,
    threshold: nat,
)
    ensures
        (actor == submitter && m.is_active()) ==> spec_transition(
            m, Action::Revoke, actor, submitter, facilitator, threshold,
        ) == (StatusModel::Revoked, Outcome::PollRevoked),
        !(actor == submitter && m.is_active()) ==> {
            let r = spec_transition(m, Action::Revoke, actor, submitter, facilitator, threshold);
            &&& r.0 == m
            &&& !r.1.spec_is_change()
        },
{
}

/// A veto succeeds exactly when the actor holds the facilitator capability
/// and the poll is still active; from `Revoked` or `Vetoed` it is rejected
/// with a status-specific outcome, leaving the status unchanged.
pub proof fn lemma_veto_authorization(
    m: StatusModel,
    actor: u64,
    submitter: u64,
    facilitator: bool,
    threshold: nat,
)
    ensures
        (facilitator && m.is_active()) ==> spec_transition(
            m, Action::Veto, actor, submitter, facilitator, threshold,
        ) == (StatusModel::Vetoed, Outcome::PollVetoed),
        !(facilitator && m.is_active()) ==> {
            let r = spec_transition(m, Action::Veto, actor, submitter, facilitator, threshold);
            &&& r.0 == m
            &&& !r.1.spec_is_change()
        },
        !facilitator ==> spec_transition(
            m, Action::Veto, actor, submitter, facilitator, threshold,
        ).1 == Outcome::NotFacilitator,
        facilitator && m is Revoked ==> spec_transition(
            m, Action::Veto, actor, submitter, facilitator, threshold,
        ).1 == Outcome::WasRevoked,
        facilitator && m is Vetoed ==> spec_transition(
            m, Action::Veto, actor, submitter, facilitator, threshold,
        ).1 == Outcome::AlreadyVetoed,
{
}

/// Whether `x` occurs in `v`.
pub fn contains_u64(v: &Vec<u64>, x: u64) -> (b: bool)
    ensures
        b == v@.contains(x),
{
    let mut i: usize = 0;
    while i < v.len()
        invariant
            i <= v.len(),
            forall|j: int| 0 <= j < i ==> v@[j] != x,
        decreases v.len() - i,
    {
        if v[i] == x {
            return true;
        }
        i += 1;
    }
    false
}

} // verus!
