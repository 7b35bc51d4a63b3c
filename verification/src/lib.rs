//! Utilities for managing event loop threads.
//!
//! A `Wombo` instance starts an event loop thread, cancels it, and tells when it exits, with
//! the value its future resolved with or the value of the cancel hook.
pub mod error;
pub mod interrupt;
pub mod options;
pub mod outside;
pub mod utils;
pub mod wombo;

pub use error::{ErrorView, WomboError, WomboErrorKind};
pub use interrupt::{Race, RaceAction, RaceEvent};
pub use options::ThreadOptions;
pub use wombo::{LoopHandle, Wombo};
