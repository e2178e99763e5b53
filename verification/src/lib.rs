//! Chat-driven voting aggregator: tallies timed votes from a crowd of
//! viewers, resolves each poll to a winning option (or to "no decision" on a
//! tie), mirrors an external telemetry endpoint to detect level changes, and
//! decides when a keystroke action should fire.
//!
//! This crate holds the verified core: the tally, the poll window state
//! machine, the telemetry watcher, the rush-burst counter, and the
//! orchestrator that drives them from chat messages and timer ticks.
//! Transport, rendering and keystroke injection live outside the core and
//! hand it plain values.

pub mod chat;
pub mod display;
pub mod league;
pub mod orchestrator;
pub mod poll;
pub mod rush;
pub mod tally;
pub mod text;
pub mod util;
pub mod watcher;
