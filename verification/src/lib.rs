//! Byte-string types for path manipulation without the standard library's
//! platform layer: `OsStr` and `OsString` hold raw bytes with Unix
//! semantics, so every byte sequence is a valid OS string.
//!
//! The contracts speak of the bytes a value holds (its view, a `Seq<u8>`);
//! text conversions go through the UTF-8 model of `vstd::utf8`.

pub mod ascii;
mod capacity;
pub mod display;
pub mod ffi;
pub mod laws;
pub mod lex;
pub mod order;
pub mod os_str;
pub mod utf8;

pub use crate::display::Display;
pub use crate::os_str::{AsOsStr, OsStr, OsString};

use vstd::prelude::*;

verus! {

/// `true`: this crate provides its own `OsStr` and `OsString` rather than
/// re-exporting the standard library's.
pub const NO_STD_IMPL: bool = true;

} // verus!
