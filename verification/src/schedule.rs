use vstd::prelude::*;
use vstd::arithmetic::div_mod::{
    lemma_add_mod_noop, lemma_mod_multiples_vanish, lemma_small_mod,
};

verus! {

/// A point in civil time (UTC): whole days since 1970-01-01, plus the
/// second of that day.
#[derive(Clone, Copy, PartialEq, Eq, Structural, Debug)]
pub struct TimePoint {
    pub days: u64,
    pub secs: u32,
}

impl TimePoint {
    /// Well-formed: the second of day is within one day.
    pub open spec fn wf(&self) -> bool {
        self.secs < 86400
    }

    /// Strictly earlier than `other`.
    pub open spec fn before(&self, other: TimePoint) -> bool {
        self.days < other.days || (self.days == other.days && self.secs < other.secs)
    }
}

/// The weekday of an epoch day number, 0 for Monday through 6 for Sunday.
/// Day 0, 1970-01-01, was a Thursday (3).
pub open spec fn spec_weekday(day: int) -> int {
    (day + 3) % 7
}

/// Splits a count of seconds since the epoch into a `TimePoint`.
pub fn from_unix(ts: u64) -> (r: TimePoint)
    ensures
        r.wf(),
        r.days == ts / 86400,
        r.secs == ts % 86400,
{
    TimePoint { days: ts / 86400, secs: (ts % 86400) as u32 }
}

/// Computes the weekday of an epoch day number.
pub fn weekday_of(day: u64) -> (w: u8)
    ensures
        w as int == spec_weekday(day as int),
        w < 7,
{
    proof {
        lemma_add_mod_noop(day as int, 3, 7);
        lemma_small_mod(3, 7);
    }
    ((day % 7 + 3) % 7) as u8
}

/// The remainder modulo 7 of a value below 14, spelled out.
proof fn lemma_small_mod7(v: int)
    requires
        0 <= v < 14,
    ensures
        v % 7 == if v < 7 { v } else { v - 7 },
{
    if v < 7 {
        lemma_small_mod(v as nat, 7);
    } else {
        lemma_mod_multiples_vanish(1, v - 7, 7);
        lemma_small_mod((v - 7) as nat, 7);
    }
}

/// Stepping `k` days ahead advances the weekday by `k` modulo 7.
proof fn lemma_weekday_add(a: int, k: int)
    requires
        a >= 0,
        0 <= k < 7,
    ensures
        spec_weekday(a + k) == (spec_weekday(a) + k) % 7,
{
    lemma_add_mod_noop(a + 3, k, 7);
    lemma_small_mod(k as nat, 7);
    vstd::arithmetic::div_mod::lemma_mod_twice(a + 3, 7);
    lemma_add_mod_noop((a + 3) % 7, k, 7);
}

/// The first moment strictly after `now` that falls on `weekday` at second
/// `secs` of the day: today, if today is that weekday and the time has not
/// passed yet, otherwise one to seven days ahead — in particular, a full
/// week ahead when today is the right weekday but the time has passed.
pub fn next_weekday_at(now: TimePoint, weekday: u8, secs: u32) -> (r: TimePoint)
    requires
        now.wf(),
        weekday < 7,
        secs < 86400,
        now.days + 7 <= u64::MAX,
    ensures
        r.wf(),
        r.secs == secs,
        spec_weekday(r.days as int) == weekday,
        now.before(r),
        r.days - now.days <= 7,
        forall|d: u64|
            spec_weekday(d as int) == weekday && now.before(TimePoint { days: d, secs })
                ==> r.days <= d,
{
    let wb = weekday_of(now.days);
    if wb == weekday && now.secs < secs {
        TimePoint { days: now.days, secs }
    } else {
        let off8 = (weekday + 7 - wb) % 7;
        proof {
            lemma_small_mod7(weekday + 7 - wb);
        }
        let off: u64 = if off8 == 0 {
            7
        } else {
            off8 as u64
        };
        let r = TimePoint { days: now.days + off, secs };
        proof {
            let a = now.days as int;
            let k = off as int;
            if k < 7 {
                lemma_weekday_add(a, k);
                lemma_small_mod7(wb as int + k);
            } else {
                lemma_mod_multiples_vanish(1, a + 3, 7);
            }
            assert(spec_weekday(r.days as int) == weekday);
            assert forall|d: u64|
                spec_weekday(d as int) == weekday && now.before(TimePoint { days: d, secs })
                    implies r.days <= d by {
                if d < r.days {
                    if d == now.days {
                        // today matches the weekday, so the branch taken
                        // means the time of day has already passed
                        assert(now.secs >= secs);
                        assert(!now.before(TimePoint { days: d, secs }));
                    } else {
                        let kd = d as int - a;
                        assert(1 <= kd < k);
                        lemma_weekday_add(a, kd);
                        lemma_small_mod7(wb as int + kd);
                        assert(false);
                    }
                }
            }
        }
        r
    }
}

/// The seconds to wait from `now` until `then`.
pub fn seconds_until(now: TimePoint, then: TimePoint) -> (r: u64)
    requires
        now.wf(),
        then.wf(),
        now.before(then),
        then.days - now.days <= 7,
    ensures
        r as int == (then.days - now.days) * 86400 + then.secs - now.secs,
        r >= 1,
{
    let dd = then.days - now.days;
    dd * 86400 + then.secs as u64 - now.secs as u64
}

/// The persisted cadence byte decoded: absence is the initial even phase
/// (the internal category is not included this cycle); otherwise the
/// byte's parity decides, odd meaning "include internal".
pub open spec fn spec_flag_decode(byte: Option<u8>) -> bool {
    match byte {
        Some(b) => b % 2 == 1,
        None => false,
    }
}

/// Decodes the cadence flag from the stored byte, if any.
pub fn decode_cadence_flag(byte: Option<u8>) -> (r: bool)
    ensures
        r == spec_flag_decode(byte),
{
    match byte {
        Some(b) => b % 2 == 1,
        None => false,
    }
}

/// Encodes the cadence flag as the byte to persist; decoding it recovers
/// the flag.
pub fn encode_cadence_flag(flag: bool) -> (r: u8)
    ensures
        spec_flag_decode(Some(r)) == flag,
        r == (if flag { 1u8 } else { 0u8 }),
{
    if flag {
        1
    } else {
        0
    }
}

/// What one scheduler cycle does, decided from the cadence flag alone.
#[derive(Clone, Copy, PartialEq, Eq, Structural, Debug)]
pub struct CycleDecision {
    pub announce_external: bool,
    pub announce_internal: bool,
    pub next_flag: bool,
}

/// One scheduler cycle's decisions: the external category is announced
/// every cycle, the internal category every other cycle, and the flag
/// flips for the next cycle (to be persisted before looping). Each
/// announcement is attempted independently; a failure of one never
/// suppresses the other.
pub fn scheduler_step(flag: bool) -> (r: CycleDecision)
    ensures
        r.announce_external,
        r.announce_internal == flag,
        r.next_flag == !flag,
{
    CycleDecision { announce_external: true, announce_internal: flag, next_flag: !flag }
}

} // verus!
