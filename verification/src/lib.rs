//! The decision core of the Diem check-in service: request validation,
//! password handling, the check-in time window, the calendar day a check-in
//! belongs to, how a repeated check-in is merged, and how the current streak
//! is counted. Each HTTP handler is a small state machine here: the caller
//! performs the I/O an action asks for and feeds the outcome back as an event.

pub mod time;
pub mod error;
pub mod zone;
pub mod streak;
pub mod checkins;
pub mod password;
pub mod ids;
pub mod auth;
pub mod users;
pub mod health;
