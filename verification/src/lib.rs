//! Terminal key-capture core: normalizes key events into `(modifier, keycode)`
//! string pairs and accumulates them across a polling loop until a capture
//! is complete.
//!
//! The terminal itself (raw mode, polling, reading) is driven by an
//! unverified shell around this crate; everything here works on plain
//! event values, so the classification tables and the capture loop's
//! decisions are fully verified.

pub mod attr;
pub mod capture;
pub mod laws;
