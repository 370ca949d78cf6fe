//! The interactive core of a terminal client for a remote-management daemon:
//! the session state, its key-driven transitions, the requests that the
//! transitions send to the daemon's control endpoint, and the meaning of its
//! replies. The library performs no I/O: the caller makes each round trip.

pub mod client;
pub mod config;
pub mod display;
pub mod error;
pub mod handler;
pub mod json;
pub mod modal;
pub mod state;
pub mod text;
pub mod types;
