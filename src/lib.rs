//! Coordination layer between the patcher's front end and its background
//! update worker: routes front-end requests to worker commands and turns
//! worker status reports into front-end effects.

pub mod config;
pub mod json;
pub mod messages;
pub mod request;
pub mod user_data;
