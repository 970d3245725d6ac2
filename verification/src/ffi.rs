//! The OS string types, under the module path that `std::ffi` uses.

pub use crate::os_str::{OsStr, OsString};
