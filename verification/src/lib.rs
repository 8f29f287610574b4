//! Poll and suggestion lifecycle engine for a community content-curation
//! workflow: members nominate artists, each nomination gets a voting poll,
//! polls move through a small lifecycle (pending, completed, revoked, vetoed)
//! under concurrent voting, and approved nominations are announced on a
//! fixed weekly/biweekly schedule.
//!
//! The library holds the pure, verified core: the vote-tally state machine
//! and its authorization rules, the in-memory poll cache, the storage codec
//! for poll statuses, the suggestion picker, and the scheduler's time
//! arithmetic. Chat transport, persistence, and process plumbing live
//! outside, handing the library plain values.

pub mod cache;
pub mod codec;
pub mod error;
pub mod machine;
pub mod picker;
pub mod schedule;
pub mod status;
pub mod suggestion;
pub mod util;
