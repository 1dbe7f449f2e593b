//! Verified core of a network-health probe: the rules that turn the output of
//! `ping` and of a speed-test utility into latency readings, failure kinds and
//! metric samples, and the state machines that schedule the probes.
//!
//! Everything here is free of I/O. A caller runs the commands, sleeps, serves
//! HTTP and owns the metrics registry; this crate decides what the bytes mean
//! and what has to happen next.

pub mod ascii;
pub mod config;
pub mod cycle;
pub mod decimal;
pub mod json;
pub mod metrics;
pub mod ping;
pub mod probe;
pub mod server;
pub mod speedtest;
pub mod time;
