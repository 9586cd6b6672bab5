//! Host-side binding for an externally registered chat-room control.
//!
//! The control lives behind a binary interface: a reference-counted object
//! whose operations are reached through numbered table entries and answer
//! with a 32-bit status. This crate holds everything about that boundary
//! that can be decided without touching it: which call to make, what to
//! hand over, and what an answer means. The call itself is made by a
//! *transport*, a function from [`boundary::Call`] to [`boundary::Reply`] that
//! the host supplies.
#![allow(non_upper_case_globals)]

pub mod accessor;
pub mod boundary;
pub mod chat_frame;
pub mod chat_settings;
pub mod error;
pub mod events;
pub mod guids;
pub mod handle;
pub mod layout;
pub mod marshal;
pub mod resolver;
pub mod utf16;

pub use boundary::{Call, Output, Payload, Reply, Shape};
pub use error::Error;
pub use guids::Guid;
pub use handle::BinaryHandle;
