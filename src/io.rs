//! The parts of `std::io` that conversions to and from `std::io::Error` rely on.
use vstd::prelude::*;

use crate::error::BoxedError;

verus! {

/// `std::io::ErrorKind`, the coarse classification of a `std::io::Error`.
#[verifier::external_type_specification]
pub struct ExIoErrorKind(std::io::ErrorKind);

/// `std::io::Error`.
#[verifier::external_type_specification]
#[verifier::external_body]
pub struct ExIoError(std::io::Error);

/// The classification that `std::io::Error::kind` returns for `e`.
pub uninterp spec fn io_kind_of(e: std::io::Error) -> std::io::ErrorKind;

/// The raw OS error code that `std::io::Error::raw_os_error` returns for `e`.
pub uninterp spec fn io_raw_code_of(e: std::io::Error) -> Option<i32>;

/// The error object that `e` carries, as `std::io::Error::into_inner` hands it out:
/// present for an error built by `std::io::Error::new`.
pub uninterp spec fn io_inner_of(e: std::io::Error) -> Option<BoxedError>;

/// Relies on `std::io::Error::kind`: it reads the classification of the error.
pub assume_specification[ std::io::Error::kind ](e: &std::io::Error) -> (r: std::io::ErrorKind)
    ensures
        r == io_kind_of(*e),
;

/// Relies on `std::io::Error::raw_os_error`: it reads the raw OS error code of the
/// error, if it has one.
pub assume_specification[ std::io::Error::raw_os_error ](e: &std::io::Error) -> (r: Option<i32>)
    ensures
        r == io_raw_code_of(*e),
;

/// The classification that the target's standard library gives to the raw OS
/// error code `code`.
pub uninterp spec fn io_kind_of_code(code: i32) -> std::io::ErrorKind;

/// Relies on `std::io::Error::from_raw_os_error`: the error it builds returns the
/// code from `raw_os_error`, its classification is decoded from the code alone,
/// and it carries no error object.
#[verifier::external_body]
pub(crate) fn io_error_from_raw(code: i32) -> (r: std::io::Error)
    ensures
        io_raw_code_of(r) == Some(code),
        io_kind_of(r) == io_kind_of_code(code),
        io_inner_of(r) is None,
{
    std::io::Error::from_raw_os_error(code)
}

/// Relies on `std::io::Error::new`: the error it builds has the given kind and
/// carries the error object; it has no raw OS error code.
#[verifier::external_body]
pub(crate) fn io_error_new(kind: std::io::ErrorKind, payload: BoxedError) -> (r: std::io::Error)
    ensures
        io_kind_of(r) == kind,
        io_raw_code_of(r) is None,
        io_inner_of(r) == Some(payload),
{
    std::io::Error::new(kind, payload.inner)
}

/// Relies on `std::io::Error::into_inner`: it hands out the error object that the
/// error was built with, and nothing for an error built from a raw OS error code.
#[verifier::external_body]
pub(crate) fn io_error_into_inner(e: std::io::Error) -> (r: Option<BoxedError>)
    ensures
        r == io_inner_of(e),
        io_raw_code_of(e) is Some ==> r is None,
{
    e.into_inner().map(|inner| BoxedError { inner })
}

} // verus!
