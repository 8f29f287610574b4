use vstd::prelude::*;
use vstd::string::StringExecFns;

verus! {

/// The embed status line for each status: pending polls show their running
/// vote tally against the threshold.
pub open spec fn status_label(m: StatusModel, threshold: nat) -> Seq<char> {
    match m {
        StatusModel::Pending { votes } => "Pending ("@ + crate::codec::dec_digits(
            votes.len() as int,
        ) + "/"@ + crate::codec::dec_digits(threshold as int) + ") 🗳️"@,
        StatusModel::Completed => "Completed ✅"@,
        StatusModel::Revoked => "Revoked 🗑️"@,
        StatusModel::Vetoed => "Vetoed 🛑"@,
    }
}

/// The embed color for each status, as an RGB triple: blue while pending,
/// green when completed, red for the two terminal removals.
pub open spec fn status_color(m: StatusModel) -> (u8, u8, u8) {
    match m {
        StatusModel::Pending { .. } => (52, 152, 219),
        StatusModel::Completed => (87, 242, 135),
        StatusModel::Revoked => (231, 76, 60),
        StatusModel::Vetoed => (231, 76, 60),
    }
}

/// The lifecycle status of a poll.
///
/// `Pending` carries the identities of the voters who have upvoted so far.
/// The list is kept free of duplicates, so it represents a set of voters.
/// `Completed` is reached when enough votes are in; `Revoked` and `Vetoed`
/// are the two terminal removals.
#[derive(Debug)]
pub enum PollStatus {
    Pending { votes: Vec<u64> },
    Completed,
    Revoked,
    Vetoed,
}

/// The mathematical model of a `PollStatus`: a pending poll is modelled by
/// its set of voters, so contracts are insensitive to the order in which
/// votes were recorded.
pub enum StatusModel {
    Pending { votes: Set<u64> },
    Completed,
    Revoked,
    Vetoed,
}

impl View for PollStatus {
    type V = StatusModel;

    open spec fn view(&self) -> StatusModel {
        match self {
            PollStatus::Pending { votes } => StatusModel::Pending { votes: votes@.to_set() },
            PollStatus::Completed => StatusModel::Completed,
            PollStatus::Revoked => StatusModel::Revoked,
            PollStatus::Vetoed => StatusModel::Vetoed,
        }
    }
}

impl StatusModel {
    /// A poll in one of these states still accepts a revoke or a veto.
    pub open spec fn is_active(&self) -> bool {
        self is Pending || self is Completed
    }

    /// `user` has no vote recorded on this poll.
    pub open spec fn excludes(&self, user: u64) -> bool {
        match self {
            StatusModel::Pending { votes } => !votes.contains(user),
            _ => true,
        }
    }

    /// The number of recorded votes (zero outside `Pending`).
    pub open spec fn vote_count(&self) -> nat {
        match self {
            StatusModel::Pending { votes } => votes.len(),
            _ => 0,
        }
    }
}

impl PollStatus {
    /// Well-formed: the vote list of a pending poll has no duplicate voter,
    /// so its length is the number of distinct voters.
    pub open spec fn wf(&self) -> bool {
        match self {
            PollStatus::Pending { votes } => votes@.no_duplicates(),
            _ => true,
        }
    }

    /// Renders the status line and color for the poll embed.
    pub fn format(&self, threshold: usize) -> (r: (String, (u8, u8, u8)))
        requires
            self.wf(),
        ensures
            r.0@ == status_label(self@, threshold as nat),
            r.1 == status_color(self@),
    {
        match self {
            PollStatus::Pending { votes } => {
                proof {
                    votes@.unique_seq_to_set();
                }
                let mut s = "Pending (".to_owned();
                let count = crate::codec::u64_to_string(votes.len() as u64);
                s.append(count.as_str());
                s.append("/");
                let th = crate::codec::u64_to_string(threshold as u64);
                s.append(th.as_str());
                s.append(") 🗳️");
                (s, (52, 152, 219))
            },
            PollStatus::Completed => ("Completed ✅".to_owned(), (87, 242, 135)),
            PollStatus::Revoked => ("Revoked 🗑️".to_owned(), (231, 76, 60)),
            PollStatus::Vetoed => ("Vetoed 🛑".to_owned(), (231, 76, 60)),
        }
    }
}

impl Default for PollStatus {
    /// The initial status of a freshly created poll: pending, with no votes.
    fn default() -> (r: PollStatus)
        ensures
            r.wf(),
            r@ == (StatusModel::Pending { votes: Set::<u64>::empty() }),
    {
        let votes: Vec<u64> = Vec::new();
        proof {
            assert(votes@.to_set() =~= Set::<u64>::empty());
        }
        PollStatus::Pending { votes }
    }
}

/// An inbound action on a poll.
#[derive(Clone, Copy, PartialEq, Eq, Structural, Debug)]
pub enum Action {
    Upvote,
    Revoke,
    Veto,
}

/// The outcome of applying an action to a poll: either the state changed
/// (`VoteAdded`, `PollCompleted`, `PollRevoked`, `PollVetoed`) or the action
/// was rejected or a no-op, with a reason specific enough for a short
/// user-facing message.
#[derive(Clone, Copy, PartialEq, Eq, Structural, Debug)]
pub enum Outcome {
    VoteAdded,
    PollCompleted,
    AlreadyVoted,
    SelfVoteForbidden,
    AlreadyCompleted,
    AlreadyRevoked,
    AlreadyVetoed,
    WasRevoked,
    WasVetoed,
    PollRevoked,
    PollVetoed,
    NotSubmitter,
    NotFacilitator,
}

impl Outcome {
    /// The short status line shown to the actor for each outcome.
    pub open spec fn spec_message(&self) -> Seq<char> {
        match self {
            Outcome::VoteAdded => "Vote added!"@,
            Outcome::PollCompleted => "Vote added!"@,
            Outcome::AlreadyVoted => "You already voted!"@,
            Outcome::SelfVoteForbidden => "You can't vote on your own poll!"@,
            Outcome::AlreadyCompleted => "This poll has already been completed!"@,
            Outcome::AlreadyRevoked => "This poll has already been revoked!"@,
            Outcome::AlreadyVetoed => "This poll has already been vetoed!"@,
            Outcome::WasRevoked => "This poll has been revoked!"@,
            Outcome::WasVetoed => "This poll has been vetoed!"@,
            Outcome::PollRevoked => "Poll revoked!"@,
            Outcome::PollVetoed => "Poll vetoed!"@,
            Outcome::NotSubmitter => "Only the author of the poll can revoke it!"@,
            Outcome::NotFacilitator => "Only designated facilitators can veto polls!"@,
        }
    }

    /// Renders the user-facing status message for this outcome.
    pub fn message(&self) -> (r: String)
        ensures
            r@ == self.spec_message(),
    {
        match self {
            Outcome::VoteAdded => "Vote added!".to_owned(),
            Outcome::PollCompleted => "Vote added!".to_owned(),
            Outcome::AlreadyVoted => "You already voted!".to_owned(),
            Outcome::SelfVoteForbidden => "You can't vote on your own poll!".to_owned(),
            Outcome::AlreadyCompleted => "This poll has already been completed!".to_owned(),
            Outcome::AlreadyRevoked => "This poll has already been revoked!".to_owned(),
            Outcome::AlreadyVetoed => "This poll has already been vetoed!".to_owned(),
            Outcome::WasRevoked => "This poll has been revoked!".to_owned(),
            Outcome::WasVetoed => "This poll has been vetoed!".to_owned(),
            Outcome::PollRevoked => "Poll revoked!".to_owned(),
            Outcome::PollVetoed => "Poll vetoed!".to_owned(),
            Outcome::NotSubmitter => "Only the author of the poll can revoke it!".to_owned(),
            Outcome::NotFacilitator => "Only designated facilitators can veto polls!".to_owned(),
        }
    }

    /// True exactly for the outcomes that changed the poll's state or its
    /// vote set.
    pub open spec fn spec_is_change(&self) -> bool {
        match self {
            Outcome::VoteAdded => true,
            Outcome::PollCompleted => true,
            Outcome::PollRevoked => true,
            Outcome::PollVetoed => true,
            _ => false,
        }
    }
}

} // verus!
