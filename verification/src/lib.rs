//! Search engine for CREATE2-style vanity contract addresses.
//!
//! The library validates the search configuration, builds the dispatch
//! message and the 85-byte derivation message, derives candidate addresses
//! via keccak-256, scores them by their nibble pattern, drives the
//! dispatch/poll/advance state machine of the search, and assembles the
//! report payload for a found solution. The device that runs the hash kernel
//! and the transport that carries the payload are external collaborators of
//! the thin driver around this library.

use vstd::prelude::*;

pub mod codec;
pub mod config;
pub mod hexstr;
pub mod kernel;
pub mod report;
pub mod score_address;
pub mod search;

pub use config::Config;
pub use kernel::mk_kernel_src;

verus! {

} // verus!
