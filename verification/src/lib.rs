//! Discovery-and-backup engine for WLED lighting controllers.
//!
//! The library holds the verified core of a one-shot backup tool: it
//! deduplicates discovery announcements into a set of device records,
//! derives a stable per-device identity for file naming, drives the
//! per-device fetch-and-save sequence as a state machine, and aggregates
//! per-device outcomes into a batch result. Network and file transfer are
//! performed by the caller, which feeds their results back as events.

pub mod args;
pub mod backup;
pub mod discovery;
pub mod identity;
pub mod text;
