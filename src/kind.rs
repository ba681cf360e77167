use vstd::prelude::*;

use crate::io::{io_error_from_raw, io_kind_of_code};
use crate::RawOsError;

verus! {

/// Base trait for the kind of an [`Error`][crate::Error].
///
/// A kind is a cheap, copyable tag (usually a flat enum) naming the category of an
/// error; the payload is kept by the error itself.
pub trait ErrorKind: Copy + core::fmt::Debug + core::fmt::Display + Sized {
    /// The kind that stands for "other".
    const OTHER: Self;

    /// The kind that `uncategorized` returns.
    /// Every implementation states its own; code built without Verus implements it
    /// as an ordinary function that returns the same value.
    spec fn spec_uncategorized() -> Self;

    /// A kind for errors with no public category of their own. It is not meant to
    /// be matched outside the crate that defines the kind.
    fn uncategorized() -> (r: Self)
        ensures
            r == Self::spec_uncategorized(),
    ;
}

/// Kinds that can be derived from a raw OS error code.
pub trait FromRawOsError: ErrorKind {
    /// The kind that `from_raw_os_error(raw)` returns.
    /// Every implementation states its own; code built without Verus implements it
    /// as an ordinary function that returns the same value.
    spec fn spec_from_raw_os_error(raw: RawOsError) -> Self;

    /// The kind that corresponds to the OS error code `raw`.
    ///
    /// OS error codes differ between operating systems; an implementation is
    /// specific to its target.
    fn from_raw_os_error(raw: RawOsError) -> (r: Self)
        ensures
            r == Self::spec_from_raw_os_error(raw),
    ;
}

/// Kinds that can be derived from a `std::io::ErrorKind`. This allows converting a
/// `std::io::Error` into an [`Error<Self>`][crate::Error].
pub trait FromIoKind: ErrorKind {
    /// The kind that `from_io_error_kind(kind)` returns.
    /// Every implementation states its own; code built without Verus implements it
    /// as an ordinary function that returns the same value.
    spec fn spec_from_io_error_kind(kind: std::io::ErrorKind) -> Self;

    /// The kind that corresponds to `kind`.
    ///
    /// Except for the uncategorized kind, this is expected to agree with
    /// [`IntoIoKind::into_io_error_kind`] and [`FromRawOsError::from_raw_os_error`].
    fn from_io_error_kind(kind: std::io::ErrorKind) -> (r: Self)
        ensures
            r == Self::spec_from_io_error_kind(kind),
    ;
}

/// Kinds that can be turned into a `std::io::ErrorKind`. This allows converting an
/// [`Error<Self>`][crate::Error] into a `std::io::Error`.
pub trait IntoIoKind: ErrorKind {
    /// The classification that `into_io_error_kind(self)` returns.
    /// Every implementation states its own; code built without Verus implements it
    /// as an ordinary function that returns the same value.
    spec fn spec_into_io_error_kind(self) -> std::io::ErrorKind;

    /// The `std::io::ErrorKind` that corresponds to `self`.
    ///
    /// Except for the uncategorized kind, this is expected to agree with
    /// [`FromIoKind::from_io_error_kind`] and [`FromRawOsError::from_raw_os_error`].
    fn into_io_error_kind(self) -> (r: std::io::ErrorKind)
        ensures
            r == self.spec_into_io_error_kind(),
    ;
}

/// `std::io::ErrorKind` is itself a kind. It has no uncategorized value of its own,
/// so `Other` stands in for it.
impl ErrorKind for std::io::ErrorKind {
    const OTHER: Self = std::io::ErrorKind::Other;

    open spec fn spec_uncategorized() -> Self {
        Self::OTHER
    }

    fn uncategorized() -> (r: Self) {
        Self::OTHER
    }
}

impl FromIoKind for std::io::ErrorKind {
    open spec fn spec_from_io_error_kind(kind: std::io::ErrorKind) -> Self {
        kind
    }

    fn from_io_error_kind(kind: std::io::ErrorKind) -> (r: Self) {
        kind
    }
}

impl IntoIoKind for std::io::ErrorKind {
    open spec fn spec_into_io_error_kind(self) -> std::io::ErrorKind {
        self
    }

    fn into_io_error_kind(self) -> (r: std::io::ErrorKind) {
        self
    }
}

impl FromRawOsError for std::io::ErrorKind {
    open spec fn spec_from_raw_os_error(raw: RawOsError) -> Self {
        io_kind_of_code(raw)
    }

    fn from_raw_os_error(raw: RawOsError) -> (r: Self) {
        io_error_from_raw(raw).kind()
    }
}

} // verus!
