use artist_polls::codec::{encode_votes, parse_votes, u64_to_string};
use artist_polls::error::Error;
use artist_polls::status::PollStatus;

fn votes_of(status: &PollStatus) -> Vec<u64> {
    match status {
        PollStatus::Pending { votes } => votes.clone(),
        _ => panic!("expected a pending poll"),
    }
}

#[test]
fn renders_decimals() {
    assert_eq!(u64_to_string(0), "0");
    assert_eq!(u64_to_string(7), "7");
    assert_eq!(u64_to_string(12345), "12345");
    assert_eq!(u64_to_string(u64::MAX), "18446744073709551615");
}

#[test]
fn encodes_vote_lists() {
    assert_eq!(encode_votes(&vec![]), "");
    assert_eq!(encode_votes(&vec![7]), "7");
    assert_eq!(encode_votes(&vec![1, 2, 30]), "1,2,30");
}

#[test]
fn parses_vote_lists() {
    assert_eq!(parse_votes("").unwrap(), Vec::<u64>::new());
    assert_eq!(parse_votes("42").unwrap(), vec![42]);
    assert_eq!(parse_votes("1,2,30").unwrap(), vec![1, 2, 30]);
    assert_eq!(parse_votes("18446744073709551615").unwrap(), vec![u64::MAX]);
}

#[test]
fn rejects_malformed_vote_lists() {
    assert_eq!(parse_votes(",").unwrap_err(), Error::InvalidStatus);
    assert_eq!(parse_votes("1,").unwrap_err(), Error::InvalidStatus);
    assert_eq!(parse_votes(",1").unwrap_err(), Error::InvalidStatus);
    assert_eq!(parse_votes("1,,2").unwrap_err(), Error::InvalidStatus);
    assert_eq!(parse_votes("abc").unwrap_err(), Error::InvalidStatus);
    assert_eq!(parse_votes("1;2").unwrap_err(), Error::InvalidStatus);
    // one past u64::MAX
    assert_eq!(
        parse_votes("18446744073709551616").unwrap_err(),
        Error::InvalidStatus
    );
}

#[test]
fn parses_status_rows() {
    let st = PollStatus::parse(0, Some("1,2".to_string())).unwrap();
    assert_eq!(votes_of(&st), vec![1, 2]);

    let st = PollStatus::parse(0, None).unwrap();
    assert_eq!(votes_of(&st), Vec::<u64>::new());

    assert!(matches!(PollStatus::parse(1, None).unwrap(), PollStatus::Completed));
    assert!(matches!(PollStatus::parse(2, None).unwrap(), PollStatus::Revoked));
    assert!(matches!(PollStatus::parse(3, None).unwrap(), PollStatus::Vetoed));
}

#[test]
fn repeated_voters_collapse_on_parse() {
    let st = PollStatus::parse(0, Some("5,5,9,5".to_string())).unwrap();
    assert_eq!(votes_of(&st), vec![5, 9]);
}

#[test]
fn rejects_invalid_status_rows() {
    // a vote list paired with a non-pending code
    assert_eq!(
        PollStatus::parse(1, Some("1".to_string())).unwrap_err(),
        Error::InvalidStatus
    );
    assert_eq!(
        PollStatus::parse(2, Some(String::new())).unwrap_err(),
        Error::InvalidStatus
    );
    // an unknown code
    assert_eq!(PollStatus::parse(4, None).unwrap_err(), Error::InvalidStatus);
    // a malformed vote list
    assert_eq!(
        PollStatus::parse(0, Some("1,x".to_string())).unwrap_err(),
        Error::InvalidStatus
    );
}

#[test]
fn encodes_statuses() {
    let (code, votes) = PollStatus::Pending { votes: vec![1, 2] }.encode();
    assert_eq!(code, 0);
    assert_eq!(votes.unwrap(), "1,2");

    assert_eq!(PollStatus::Completed.encode(), (1, None));
    assert_eq!(PollStatus::Revoked.encode(), (2, None));
    assert_eq!(PollStatus::Vetoed.encode(), (3, None));
}

#[test]
fn status_round_trips_as_a_set() {
    // serialize a pending status with two votes, read it back
    let (code, wire) = PollStatus::Pending { votes: vec![5, 9] }.encode();
    let back = PollStatus::parse(code, wire).unwrap();
    assert_eq!(votes_of(&back), vec![5, 9]);

    // the two insertion orders decode to the same set
    let a = votes_of(&PollStatus::parse(0, Some("5,9".to_string())).unwrap());
    let b = votes_of(&PollStatus::parse(0, Some("9,5".to_string())).unwrap());
    let mut a_sorted = a.clone();
    a_sorted.sort();
    let mut b_sorted = b.clone();
    b_sorted.sort();
    assert_eq!(a_sorted, b_sorted);
}

#[test]
fn tolerates_leading_zeros() {
    assert_eq!(parse_votes("0").unwrap(), vec![0]);
    assert_eq!(parse_votes("007").unwrap(), vec![7]);
    assert_eq!(parse_votes("00,1").unwrap(), vec![0, 1]);
}

#[test]
fn largest_identity_round_trips_through_a_status_row() {
    let (code, wire) = PollStatus::Pending { votes: vec![u64::MAX] }.encode();
    assert_eq!(wire.as_deref(), Some("18446744073709551615"));
    let back = PollStatus::parse(code, wire).unwrap();
    assert_eq!(votes_of(&back), vec![u64::MAX]);
}
