//! Clipboard selection monitoring and clipboard history storage.
//!
//! The library holds the decision logic: which selection changes become
//! events, whether monitoring is switched on, and how the history sequence
//! changes under each store operation. Talking to the windowing system, the
//! event channel and the history file are left to the program around it.

pub mod error;
pub mod event;
pub mod history;
pub mod run_flag;
pub mod watcher;
