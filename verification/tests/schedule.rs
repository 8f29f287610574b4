use artist_polls::schedule::{
    decode_cadence_flag, encode_cadence_flag, from_unix, next_weekday_at, scheduler_step,
    seconds_until, weekday_of, TimePoint,
};

// Weekdays are numbered 0 = Monday .. 6 = Sunday; epoch day 0 was a Thursday.
const WED: u8 = 2;

#[test]
fn weekday_of_known_days() {
    assert_eq!(weekday_of(0), 3); // 1970-01-01, a Thursday
    assert_eq!(weekday_of(4), 0); // the following Monday
    assert_eq!(weekday_of(6), 2); // the following Wednesday
    assert_eq!(weekday_of(7), 3);
}

#[test]
fn same_day_when_time_not_passed() {
    // Wednesday 13:00, aiming for Wednesday 14:00: same day
    let now = TimePoint { days: 6, secs: 13 * 3600 };
    let r = next_weekday_at(now, WED, 14 * 3600);
    assert_eq!(r, TimePoint { days: 6, secs: 14 * 3600 });
}

#[test]
fn full_week_when_time_passed() {
    // Wednesday 15:00, aiming for Wednesday 14:00: seven days ahead
    let now = TimePoint { days: 6, secs: 15 * 3600 };
    let r = next_weekday_at(now, WED, 14 * 3600);
    assert_eq!(r, TimePoint { days: 13, secs: 14 * 3600 });
}

#[test]
fn next_matching_weekday_otherwise() {
    // Thursday 09:00, aiming for Wednesday 14:00: six days ahead
    let now = TimePoint { days: 7, secs: 9 * 3600 };
    let r = next_weekday_at(now, WED, 14 * 3600);
    assert_eq!(r, TimePoint { days: 13, secs: 14 * 3600 });
    assert!(r.days - now.days <= 6);
}

#[test]
fn exact_fire_time_skips_a_week() {
    // exactly at the configured moment: "not yet passed" is strict, so the
    // next occurrence is a week away
    let now = TimePoint { days: 6, secs: 14 * 3600 };
    let r = next_weekday_at(now, WED, 14 * 3600);
    assert_eq!(r, TimePoint { days: 13, secs: 14 * 3600 });
}

#[test]
fn splits_unix_seconds() {
    let t = from_unix(86400 * 10 + 3661);
    assert_eq!(t, TimePoint { days: 10, secs: 3661 });
    assert_eq!(from_unix(0), TimePoint { days: 0, secs: 0 });
}

#[test]
fn sleep_seconds_until_fire_time() {
    let now = TimePoint { days: 6, secs: 13 * 3600 };
    let fire = TimePoint { days: 6, secs: 14 * 3600 };
    assert_eq!(seconds_until(now, fire), 3600);

    let fire_next_week = TimePoint { days: 13, secs: 14 * 3600 };
    assert_eq!(
        seconds_until(now, fire_next_week),
        7 * 86400 + 3600
    );
}

#[test]
fn cadence_flag_codec() {
    // absence is the initial even phase: internal not included
    assert!(!decode_cadence_flag(None));
    assert!(!decode_cadence_flag(Some(0)));
    assert!(decode_cadence_flag(Some(1)));
    assert!(!decode_cadence_flag(Some(2)));
    assert!(decode_cadence_flag(Some(255)));

    assert_eq!(encode_cadence_flag(false), 0);
    assert_eq!(encode_cadence_flag(true), 1);
    assert!(decode_cadence_flag(Some(encode_cadence_flag(true))));
    assert!(!decode_cadence_flag(Some(encode_cadence_flag(false))));
}

#[test]
fn scheduler_alternates_internal() {
    let c1 = scheduler_step(false);
    assert!(c1.announce_external);
    assert!(!c1.announce_internal);
    assert!(c1.next_flag);

    let c2 = scheduler_step(c1.next_flag);
    assert!(c2.announce_external);
    assert!(c2.announce_internal);
    assert!(!c2.next_flag);
}

#[test]
fn wraps_past_the_weekend() {
    // Sunday 12:00 (day 3 of the epoch week), aiming for Monday 08:00
    let now = TimePoint { days: 10, secs: 12 * 3600 };
    assert_eq!(weekday_of(10), 6);
    let r = next_weekday_at(now, 0, 8 * 3600);
    assert_eq!(r, TimePoint { days: 11, secs: 8 * 3600 });
}
