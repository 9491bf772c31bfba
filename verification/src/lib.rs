//! Enkryptit!: a file and folder encryption manager.
//!
//! This crate holds the verified core: the sealing of chunks and payloads,
//! the archive framing, the key material codecs and resolution rules, the
//! parameter parsing, the choices of the command line and the terminal
//! interface, and the inspection report model.
use vstd::prelude::*;

pub mod encryption;
pub mod errors;
pub mod frontend;
pub mod inspect;
pub mod key;
pub mod layout;
pub mod metadatas;
pub mod mock_input;
pub mod parallelism;
pub mod parameters;
pub mod payload;
pub mod round_trip;
pub mod samples;
pub mod text;
pub mod treatment;
pub mod types;

verus! {

/// The nightly version of Enkryptit! written in every archive header.
pub const VERSION: u8 = 3;

} // verus!
