//! Plain data exchanged with clients and import files.

pub mod api_responses;
pub mod auth;
pub mod import;
pub mod mosque;
pub mod quiz;
pub mod roadmap;
