//! Line settings for a serial port and the decisions of a loop that polls it.
//!
//! `config` turns raw command-line values into validated port settings;
//! `session` decides, event by event, what a polling loop does next.

pub mod external;
pub mod text;
pub mod config;
pub mod session;
