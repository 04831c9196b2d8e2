//! Verified core of a UDP egress sink: endpoint configuration, an exponential
//! backoff generator, and the resolve-then-send state machine that turns a
//! hostname into a destination address and feeds payloads to a socket through
//! a cooperative, non-blocking offer/flush protocol.
//!
//! All socket, DNS and timer work is performed by the surrounding runtime;
//! this crate holds the decisions: which lookup to start, when to back off,
//! which address to send to, and what each offer of a payload returns.

pub mod address;
pub mod backoff;
pub mod config;
pub mod sink;
