//! The rules of a bot that makes two announcements a day.
//!
//! A task that must act at a given time of day first waits, stage by stage
//! (seconds, minute, hour, day, year), until the clock's fields equal those
//! of its target, and then fires at a fixed period anchored to that moment.
//! The library holds the decisions: what a poll of the clock means, when to
//! poll next, when each announcement is due, and what the bot writes in its
//! journal and to its members. Sleeping and sending are the caller's.

pub mod align;
pub mod aligner;
pub mod announcement;
pub mod bot;
pub mod cascade;
pub mod clock;
pub mod guarantees;
pub mod guild;
pub mod ideal;
pub mod log;
pub mod member;
pub mod runner;
pub mod target;
pub mod ticks;
