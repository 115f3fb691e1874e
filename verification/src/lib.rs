//! Mirrors what a media-server user is watching into a presence channel.
//!
//! The crate holds the decisions of such a mirror and leaves the transport to
//! its caller: reading a session list into a [`snapshot::MediaSnapshot`],
//! turning a snapshot into display text, and the presence state machine that
//! says, for every observation and every connect outcome, which channel
//! operations come next.

pub mod activity;
pub mod config;
pub mod controller;
pub mod decimal;
pub mod json;
pub mod probe;
pub mod session;
pub mod snapshot;
pub mod trace;
