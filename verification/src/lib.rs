//! Verified core logic of the Merzah community platform: event recurrence,
//! prayer-time countdowns, learning streaks, achievements, session and OAuth
//! helpers, and the plain data models the server hands to its clients.

pub mod calendar;
pub mod datetime;
pub mod events;
pub mod recurrence;
pub mod text;
pub mod prayer;
pub mod streak;
pub mod achievement;
pub mod session;
pub mod oauth;
pub mod user;
pub mod education;
pub mod models;
pub mod password;
pub mod overpass;
pub mod filters;
