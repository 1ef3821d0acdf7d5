//! Weather lookups for birdwatchers: the decisions and texts of an interactive
//! weather tool, from the decoded provider response to the styled report.
//!
//! Everything here is computed from plain values. Reading lines, fetching the
//! provider's answer and writing to the terminal are left to the caller.
pub mod decimal;
pub mod reading;
pub mod text;
pub mod json;
pub mod payload;
pub mod present;
pub mod request;
pub mod session;
pub mod temperature;
pub mod condition;
pub mod advisory;
