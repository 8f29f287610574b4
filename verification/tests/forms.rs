use artist_polls::error::Error;
use artist_polls::status::PollStatus;
use artist_polls::suggestion::Suggestion;
use artist_polls::util::{artist, artist_capital, default_avatar_index, get_channel};

fn inputs(fields: &[&str]) -> Vec<String> {
    fields.iter().map(|s| s.to_string()).collect()
}

#[test]
fn parses_three_field_form() {
    let s = Suggestion::parse_response(
        7,
        "maker".to_string(),
        inputs(&["Artist", "Album", "https://example.test/a"]),
        false,
    )
    .unwrap();
    assert_eq!(s.user_id, 7);
    assert_eq!(s.username, "maker");
    assert_eq!(s.artist_name, "Artist");
    assert_eq!(s.album_name, "Album");
    assert_eq!(s.links, "https://example.test/a");
    assert_eq!(s.notes, None);
    assert!(!s.internal);
}

#[test]
fn parses_four_field_form_with_notes() {
    let s = Suggestion::parse_response(
        7,
        "maker".to_string(),
        inputs(&["Artist", "Album", "link", "some notes"]),
        true,
    )
    .unwrap();
    assert_eq!(s.notes.as_deref(), Some("some notes"));
    assert!(s.internal);
}

#[test]
fn empty_notes_field_means_no_notes() {
    let s = Suggestion::parse_response(
        7,
        "maker".to_string(),
        inputs(&["Artist", "Album", "link", ""]),
        false,
    )
    .unwrap();
    assert_eq!(s.notes, None);
}

#[test]
fn rejects_wrong_field_counts() {
    let e = Suggestion::parse_response(7, "maker".to_string(), inputs(&["a", "b"]), false)
        .unwrap_err();
    assert_eq!(e, Error::Validation);

    let e = Suggestion::parse_response(
        7,
        "maker".to_string(),
        inputs(&["a", "b", "c", "d", "e"]),
        false,
    )
    .unwrap_err();
    assert_eq!(e, Error::Validation);
}

#[test]
fn category_labels() {
    assert_eq!(artist(true), "internal");
    assert_eq!(artist(false), "external");
    assert_eq!(artist_capital(true), "Biweekly Internal");
    assert_eq!(artist_capital(false), "Weekly External");
}

#[test]
fn channel_selection() {
    assert_eq!(get_channel(true, 10, 20), 10);
    assert_eq!(get_channel(false, 10, 20), 20);
}

#[test]
fn default_avatar_is_stable_and_bounded() {
    let idx = default_avatar_index(123456789012345678);
    assert_eq!(idx as u64, (123456789012345678u64 >> 22) % 6);
    assert!(idx < 6);
    assert_eq!(default_avatar_index(0), 0);
}

#[test]
fn formats_status_lines() {
    let (text, color) = PollStatus::Pending { votes: vec![5, 9] }.format(3);
    assert_eq!(text, "Pending (2/3) 🗳️");
    assert_eq!(color, (52, 152, 219));

    let (text, color) = PollStatus::Completed.format(3);
    assert_eq!(text, "Completed ✅");
    assert_eq!(color, (87, 242, 135));

    let (text, color) = PollStatus::Revoked.format(3);
    assert_eq!(text, "Revoked 🗑️");
    assert_eq!(color, (231, 76, 60));

    let (text, color) = PollStatus::Vetoed.format(3);
    assert_eq!(text, "Vetoed 🛑");
    assert_eq!(color, (231, 76, 60));
}

#[test]
fn error_messages() {
    assert_eq!(Error::Validation.message(), "invalid form structure");
    assert_eq!(Error::InvalidStatus.message(), "invalid poll status");
    assert_eq!(Error::DuplicatePollId.message(), "duplicate poll id");
}
