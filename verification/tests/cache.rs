use artist_polls::cache::{Poll, PollCache};
use artist_polls::error::Error;
use artist_polls::machine::{effect_of, Effect};
use artist_polls::status::{Action, Outcome, PollStatus};

fn poll(id: u64, message_id: u64, author_id: u64) -> Poll {
    Poll::new(id, message_id, author_id, false)
}

#[test]
fn loads_polls_from_store_rows() {
    let cache = PollCache::load(vec![poll(1, 11, 101), poll(2, 12, 102)]).unwrap();
    assert_eq!(cache.len(), 2);
    assert_eq!(cache.get(0).id, 1);
    assert_eq!(cache.get(1).message_id, 12);
}

#[test]
fn load_rejects_duplicate_ids() {
    match PollCache::load(vec![poll(1, 11, 101), poll(1, 12, 102)]) {
        Err(e) => assert_eq!(e, Error::DuplicatePollId),
        Ok(_) => panic!("duplicate ids must be rejected"),
    }
}

#[test]
fn load_rejects_corrupt_vote_lists() {
    // a stored pending list naming the submitter, or repeating a voter,
    // breaks the poll invariant
    let bad = Poll {
        id: 1,
        message_id: 11,
        author_id: 101,
        internal: false,
        status: PollStatus::Pending { votes: vec![101] },
    };
    match PollCache::load(vec![bad]) {
        Err(e) => assert_eq!(e, Error::InvalidStatus),
        Ok(_) => panic!("a submitter vote must be rejected"),
    }

    let dup = Poll {
        id: 2,
        message_id: 12,
        author_id: 102,
        internal: false,
        status: PollStatus::Pending { votes: vec![7, 7] },
    };
    match PollCache::load(vec![dup]) {
        Err(e) => assert_eq!(e, Error::InvalidStatus),
        Ok(_) => panic!("a repeated voter must be rejected"),
    }
}

#[test]
fn finds_polls_by_message() {
    let cache = PollCache::load(vec![poll(1, 11, 101), poll(2, 12, 102)]).unwrap();
    assert_eq!(cache.find_by_message(12), Some(1));
    assert_eq!(cache.find_by_message(99), None);
    assert_eq!(cache.find_by_id(1), Some(0));
    assert_eq!(cache.find_by_id(3), None);
}

#[test]
fn push_rejects_duplicate_id() {
    let mut cache = PollCache::load(vec![poll(1, 11, 101)]).unwrap();
    assert!(cache.push(poll(2, 12, 102)).is_ok());
    assert_eq!(cache.len(), 2);
    assert_eq!(cache.push(poll(1, 13, 103)).unwrap_err(), Error::DuplicatePollId);
    assert_eq!(cache.len(), 2);
}

#[test]
fn scenario_vote_to_removal_through_cache() {
    // threshold 2: two voters complete the poll, the submitter revokes it,
    // and the poll leaves the cache (its suggestion is then deleted from
    // the store by the caller)
    let mut cache = PollCache::load(vec![poll(1, 11, 101), poll(2, 12, 102)]).unwrap();

    let i = cache.find_by_message(11).unwrap();
    let o = cache.apply(i, Action::Upvote, 501, false, 2);
    assert_eq!(o, Outcome::VoteAdded);
    // store the new status before editing the message
    let (code, wire) = cache.get(i).status.encode();
    assert_eq!(code, 0);
    assert_eq!(wire.unwrap(), "501");

    let o = cache.apply(i, Action::Upvote, 502, false, 2);
    assert_eq!(o, Outcome::PollCompleted);
    assert_eq!(effect_of(o), Effect::ApproveAndUpdate);
    assert_eq!(cache.get(i).status.encode(), (1, None));

    let o = cache.apply(i, Action::Revoke, 101, false, 2);
    assert_eq!(o, Outcome::PollRevoked);
    assert_eq!(effect_of(o), Effect::RemovePoll);
    let removed = cache.remove(i);
    assert_eq!(removed.id, 1);
    assert_eq!(cache.len(), 1);
    assert_eq!(cache.find_by_message(11), None);

    // the other poll is untouched
    assert_eq!(cache.find_by_id(2), Some(0));
    assert!(matches!(cache.get(0).status, PollStatus::Pending { .. }));
}

#[test]
fn apply_leaves_other_polls_alone() {
    let mut cache = PollCache::load(vec![poll(1, 11, 101), poll(2, 12, 102)]).unwrap();
    let i = cache.find_by_message(12).unwrap();
    let o = cache.apply(i, Action::Veto, 900, true, 2);
    assert_eq!(o, Outcome::PollVetoed);
    assert!(matches!(cache.get(1).status, PollStatus::Vetoed));
    assert!(matches!(cache.get(0).status, PollStatus::Pending { .. }));
}
