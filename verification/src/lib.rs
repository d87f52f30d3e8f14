//! Core logic of a minimal directory browser: turning a directory snapshot
//! into display-ready rows, detecting double-activation from a stream of
//! selection-changed events, and navigating between directories.

pub mod detector;
pub mod listing;
pub mod nav;
pub mod pathstr;
pub mod sizefmt;
pub mod timefmt;
