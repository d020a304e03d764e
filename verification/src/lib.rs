//! Error handling helpers for libraries that are called through a C-style
//! boundary.
//!
//! A function that fails stores its error in an [`ErrorSlot`] and returns an
//! obviously invalid value (`-1`, a null pointer). The caller then asks for
//! the message of the most recent error with [`error_message`], which writes
//! it into a buffer that the caller owns. [`catch_panic`] settles the outcome
//! of a computation that was run under fault interception, so that a fault
//! becomes an ordinary error value.

pub mod error;
pub mod fault;
pub mod message;
pub mod slot;

pub use crate::error::ErrorValue;
pub use crate::fault::{catch_panic, FaultPayload};
pub use crate::message::error_message;
pub use crate::slot::{get_last_error, update_last_error, ErrorSlot};
