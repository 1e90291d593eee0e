//! Core engine of a terminal typing trainer.
//!
//! A session streams target words to the user and records what was typed,
//! one keystroke at a time.  This crate holds the session state machine,
//! the per-character word diff used for display, the wrap-aware cursor
//! layout, the viewport eviction policy and the score calculation, each
//! with a verified contract.  Terminal drawing, key input and file I/O
//! live outside the crate and talk to it through plain values.

pub mod clock;
pub mod dictionary;
pub mod input;
pub mod opt;
pub mod render;
pub mod state;
pub mod stats;
