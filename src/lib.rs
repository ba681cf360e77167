//! A generic error type that pairs a small, closed error kind with an optional
//! payload: nothing, a raw OS error code, a static message, or a boxed error
//! object. It generalises the shape of `std::io::Error` so that any subsystem can
//! define its own kinds and reuse one representation and one conversion protocol
//! to and from `std::io::Error`.
use vstd::prelude::*;

pub mod decimal;
pub mod error;
pub mod io;
/// The `ErrorKind` trait and its optional extensions.
pub mod kind;
pub mod laws;

pub use error::{BoxedError, Error, ErrorPayload};

verus! {

/// The raw type of an OS error code: `i32`, what `std::io::Error::raw_os_error`
/// returns on most targets.
pub type RawOsError = i32;

} // verus!
