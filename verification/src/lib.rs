//! Bell scheduling and notification engine for a school day.
//!
//! The crate turns a loosely typed timetable payload (or a built-in weekly
//! table) into a [`schedule::DaySchedule`], decides which notices to raise,
//! steps a bell scheduler over samples of the wall clock, and decides when the
//! schedule's day is over.  All waiting and all input and output are left to
//! the caller: every function here maps plain values to plain values.

pub mod clock;
pub mod schedule;
pub mod offline;
pub mod notice;
pub mod scheduler;
pub mod advance;
pub mod plan;
