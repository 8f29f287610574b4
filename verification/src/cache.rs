use vstd::prelude::*;

use crate::error::Error;
use crate::machine::{contains_u64, spec_transition, transition};
use crate::status::{Action, Outcome, PollStatus, StatusModel};

verus! {

/// One active poll: its store identifier, the message that displays it (for
/// later editing), the submitter's identity, its category, and its status.
#[derive(Debug)]
pub struct Poll {
    pub id: u64,
    pub message_id: u64,
    pub author_id: u64,
    pub internal: bool,
    pub status: PollStatus,
}

impl Poll {
    /// Well-formed: the vote list is duplicate-free and never contains the
    /// poll's own submitter.
    pub open spec fn wf(&self) -> bool {
        self.status.wf() && self.status@.excludes(self.author_id)
    }

    /// A poll for a fresh submission: pending, with no votes.
    pub fn new(id: u64, message_id: u64, author_id: u64, internal: bool) -> (r: Poll)
        ensures
            r.id == id,
            r.message_id == message_id,
            r.author_id == author_id,
            r.internal == internal,
            r.status@ == (StatusModel::Pending { votes: Set::<u64>::empty() }),
            r.wf(),
    {
        Poll { id, message_id, author_id, internal, status: PollStatus::default() }
    }
}

/// Every poll in `s` is well-formed.
pub open spec fn all_wf(s: Seq<Poll>) -> bool {
    forall|i: int| 0 <= i < s.len() ==> (#[trigger] s[i]).wf()
}

/// The poll identifiers in `s` are pairwise distinct.
pub open spec fn ids_distinct(s: Seq<Poll>) -> bool {
    forall|i: int, j: int| 0 <= i < j < s.len() ==> s[i].id != s[j].id
}

/// The single authoritative in-memory view of all active polls. The
/// surrounding code keeps it behind one exclusive lock, so each mutating
/// call here is one atomic read-modify-write with respect to every other
/// poll action.
#[derive(Debug)]
pub struct PollCache {
    polls: Vec<Poll>,
}

impl View for PollCache {
    type V = Seq<Poll>;

    closed spec fn view(&self) -> Seq<Poll> {
        self.polls@
    }
}

impl PollCache {
    /// Well-formed: distinct poll ids, every poll well-formed.
    pub open spec fn wf(&self) -> bool {
        ids_distinct(self@) && all_wf(self@)
    }

    /// Builds the cache from the polls fetched from the store at startup,
    /// rejecting a duplicated poll id or a malformed status row instead of
    /// trusting the store blindly.
    pub fn load(polls: Vec<Poll>) -> (r: Result<PollCache, Error>)
        ensures
            match r {
                Ok(c) => c@ == polls@ && c.wf(),
                Err(e) => {
                    &&& !(ids_distinct(polls@) && all_wf(polls@))
                    &&& e == Error::DuplicatePollId ==> !ids_distinct(polls@)
                    &&& e == Error::InvalidStatus ==> !all_wf(polls@)
                    &&& (e == Error::DuplicatePollId || e == Error::InvalidStatus)
                },
            },
    {
        let n = polls.len();
        let mut i: usize = 0;
        while i < n
            invariant
                i <= n,
                n == polls@.len(),
                forall|a: int, b: int| 0 <= a < b < i ==> polls@[a].id != polls@[b].id,
                forall|a: int| 0 <= a < i ==> (#[trigger] polls@[a]).wf(),
            decreases n - i,
        {
            if !poll_is_wf(&polls[i]) {
                return Err(Error::InvalidStatus);
            }
            let mut j: usize = 0;
            while j < i
                invariant
                    j <= i < n,
                    n == polls@.len(),
                    forall|b: int| 0 <= b < j ==> polls@[b].id != polls@[i as int].id,
                decreases i - j,
            {
                if polls[j].id == polls[i].id {
                    return Err(Error::DuplicatePollId);
                }
                j += 1;
            }
            i += 1;
        }
        Ok(PollCache { polls })
    }

    /// The number of cached polls.
    pub fn len(&self) -> (n: usize)
        ensures
            n == self@.len(),
    {
        self.polls.len()
    }

    /// Borrows the poll at `i`.
    pub fn get(&self, i: usize) -> (r: &Poll)
        requires
            i < self@.len(),
        ensures
            *r == self@[i as int],
    {
        &self.polls[i]
    }

    /// Routes an incoming action to its poll: the position of the (unique
    /// well-formed caches have at most one) poll displayed by the given
    /// message, or `None` if no cached poll matches.
    pub fn find_by_message(&self, message_id: u64) -> (r: Option<usize>)
        ensures
            match r {
                Some(i) => {
                    &&& i < self@.len()
                    &&& self@[i as int].message_id == message_id
                    &&& forall|j: int| 0 <= j < i ==> self@[j].message_id != message_id
                },
                None => forall|j: int|
                    0 <= j < self@.len() ==> self@[j].message_id != message_id,
            },
    {
        let mut i: usize = 0;
        while i < self.polls.len()
            invariant
                i <= self@.len(),
                forall|j: int| 0 <= j < i ==> self@[j].message_id != message_id,
            decreases self@.len() - i,
        {
            if self.polls[i].message_id == message_id {
                return Some(i);
            }
            i += 1;
        }
        None
    }

    /// The position of the poll with the given store identifier.
    pub fn find_by_id(&self, poll_id: u64) -> (r: Option<usize>)
        ensures
            match r {
                Some(i) => {
                    &&& i < self@.len()
                    &&& self@[i as int].id == poll_id
                    &&& forall|j: int| 0 <= j < i ==> self@[j].id != poll_id
                },
                None => forall|j: int| 0 <= j < self@.len() ==> self@[j].id != poll_id,
            },
    {
        let mut i: usize = 0;
        while i < self.polls.len()
            invariant
                i <= self@.len(),
                forall|j: int| 0 <= j < i ==> self@[j].id != poll_id,
            decreases self@.len() - i,
        {
            if self.polls[i].id == poll_id {
                return Some(i);
            }
            i += 1;
        }
        None
    }

    /// Adds a freshly created poll, rejecting an id that is already cached
    /// so that ids stay unique.
    pub fn push(&mut self, poll: Poll) -> (r: Result<(), Error>)
        requires
            old(self).wf(),
            poll.wf(),
        ensures
            match r {
                Ok(()) => {
                    &&& final(self)@ == old(self)@.push(poll)
                    &&& final(self).wf()
                    &&& forall|j: int| 0 <= j < old(self)@.len() ==> old(self)@[j].id != poll.id
                },
                Err(e) => {
                    &&& e == Error::DuplicatePollId
                    &&& final(self)@ == old(self)@
                    &&& exists|j: int| 0 <= j < old(self)@.len() && old(self)@[j].id == poll.id
                },
            },
    {
        let mut i: usize = 0;
        while i < self.polls.len()
            invariant
                i <= self@.len(),
                *self == *old(self),
                forall|j: int| 0 <= j < i ==> self@[j].id != poll.id,
            decreases self@.len() - i,
        {
            if self.polls[i].id == poll.id {
                return Err(Error::DuplicatePollId);
            }
            i += 1;
        }
        self.polls.push(poll);
        proof {
            assert forall|a: int, b: int| 0 <= a < b < self@.len() implies self@[a].id
                != self@[b].id by {
                if b < self@.len() - 1 {
                    assert(old(self)@[a].id != old(self)@[b].id);
                }
            }
        }
        Ok(())
    }

    /// Runs one vote-state-machine transition on the poll at `i`: the
    /// read-modify-write happens while the caller holds the cache
    /// exclusively, so no other mutation interleaves. Every other poll is
    /// untouched; the poll's identity fields are untouched; its new status
    /// and the returned outcome are exactly those of the state machine.
    pub fn apply(
        &mut self,
        i: usize,
        action: Action,
        actor: u64,
        facilitator: bool,
        threshold: usize,
    ) -> (out: Outcome)
        requires
            old(self).wf(),
            i < old(self)@.len(),
        ensures
            final(self).wf(),
            final(self)@.len() == old(self)@.len(),
            forall|j: int|
                0 <= j < old(self)@.len() && j != i ==> final(self)@[j] == old(self)@[j],
            final(self)@[i as int].id == old(self)@[i as int].id,
            final(self)@[i as int].message_id == old(self)@[i as int].message_id,
            final(self)@[i as int].author_id == old(self)@[i as int].author_id,
            final(self)@[i as int].internal == old(self)@[i as int].internal,
            ({
                let p = old(self)@[i as int];
                let step = spec_transition(
                    p.status@, action, actor, p.author_id, facilitator, threshold as nat,
                );
                final(self)@[i as int].status@ == step.0 && out == step.1
            }),
    {
        let p = self.polls.remove(i);
        let Poll { id, message_id, author_id, internal, status } = p;
        let (status2, out) = transition(status, action, actor, author_id, facilitator, threshold);
        let p2 = Poll { id, message_id, author_id, internal, status: status2 };
        self.polls.insert(i, p2);
        proof {
            assert(self.polls@ =~= old(self)@.update(i as int, p2));
        }
        out
    }

    /// Drops the poll at `i` (after a terminal transition) and returns the
    /// removed entry for the caller's cleanup.
    pub fn remove(&mut self, i: usize) -> (r: Poll)
        requires
            old(self).wf(),
            i < old(self)@.len(),
        ensures
            r == old(self)@[i as int],
            final(self)@ == old(self)@.remove(i as int),
            final(self).wf(),
    {
        let p = self.polls.remove(i);
        p
    }
}

/// Checks a poll's invariant: a duplicate-free vote list that does not
/// contain the submitter.
#[verifier::loop_isolation(false)]
fn poll_is_wf(p: &Poll) -> (b: bool)
    ensures
        b == p.wf(),
{
    match &p.status {
        PollStatus::Pending { votes } => {
            if contains_u64(votes, p.author_id) {
                return false;
            }
            let mut i: usize = 0;
            while i < votes.len()
                invariant
                    i <= votes@.len(),
                    forall|a: int, b: int| 0 <= a < b < i ==> votes@[a] != votes@[b],
                decreases votes@.len() - i,
            {
                let mut j: usize = 0;
                while j < i
                    invariant
                        j <= i < votes@.len(),
                        forall|b: int| 0 <= b < j ==> votes@[b] != votes@[i as int],
                    decreases i - j,
                {
                    if votes[j] == votes[i] {
                        proof {
                            assert(votes@[j as int] == votes@[i as int]);
                            assert(!votes@.no_duplicates());
                        }
                        return false;
                    }
                    j += 1;
                }
                i += 1;
            }
            true
        },
        _ => true,
    }
}

} // verus!
