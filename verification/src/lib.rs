//! Decision logic of a Discord presence daemon: the browser fingerprint, the
//! heartbeat bookkeeping, the gateway session state machine, the outgoing
//! payloads, the daily active-window schedule and the build-number scraper.

pub mod clock;
pub mod config;
pub mod fingerprint;
pub mod gateway;
pub mod heartbeat;
pub mod payload;
pub mod schedule;
pub mod scraper;
pub mod text;
