//! The error type, its payload, and its conversions to and from `std::io::Error`.
use vstd::prelude::*;
use vstd::string::*;

use std::fmt::Write;

use crate::decimal::{int_text, push_int};
use crate::io::{
    io_error_from_raw, io_error_into_inner, io_error_new, io_inner_of, io_kind_of, io_kind_of_code,
    io_raw_code_of,
};
use crate::kind::{ErrorKind, FromIoKind, FromRawOsError, IntoIoKind};
use crate::RawOsError;

verus! {

/// An owned error object carried as the payload of an [`Error`].
///
/// Verus sees nothing inside it: it is carried through, never inspected.
#[verifier::external_body]
#[derive(Debug)]
pub struct BoxedError {
    pub inner: Box<dyn core::error::Error + Send + Sync + 'static>,
}

/// The text of an error object that was lifted from a message, if it was.
pub uninterp spec fn message_of(error: BoxedError) -> Option<Seq<char>>;

/// Relies on `From<&str> for Box<dyn Error + Send + Sync>`: lifts a static message
/// into an error object, which cannot be downcast and displays the message.
#[verifier::external_body]
pub(crate) fn lift_message(msg: &'static str) -> (r: BoxedError)
    ensures
        message_of(r) == Some(msg@),
{
    BoxedError { inner: msg.into() }
}

/// Relies on the `Display` of the boxed error, written into a `String`: its text,
/// or `None` where the error's own implementation reports a failure. An object
/// lifted from a message writes that message.
#[verifier::external_body]
fn boxed_text(error: &BoxedError) -> (r: Option<String>)
    ensures
        message_of(*error) is Some ==> r is Some && r->0@ == message_of(*error)->0,
{
    let mut text = String::new();
    match write!(text, "{}", error.inner) {
        Ok(()) => Some(text),
        Err(_) => None,
    }
}

/// What an [`Error`] carries beside its kind. Exactly one shape is present, fixed
/// when the error is built.
#[derive(Debug)]
pub enum ErrorPayload {
    /// No further information.
    Simple,
    /// A raw OS error code.
    RawOsError(RawOsError),
    /// A static message.
    Message(&'static str),
    /// An owned error object.
    Error(BoxedError),
}

/// An error: a kind and an optional payload, which may be a raw OS error code, a
/// static message, or an owned error object.
///
/// An error is never changed after it is built. Its payload is taken out only by
/// consuming it.
#[derive(Debug)]
pub struct Error<K> {
    kind: K,
    payload: ErrorPayload,
}

/// The text that follows the kind's own text when an error with payload `p` is
/// displayed. For an error object the text is that object's own, `boxed`.
pub open spec fn payload_suffix(p: ErrorPayload, boxed: Seq<char>) -> Seq<char> {
    match p {
        ErrorPayload::Simple => Seq::empty(),
        ErrorPayload::RawOsError(code) => " (raw os error "@ + int_text(code as int) + ")"@,
        ErrorPayload::Message(m) => ": "@ + m@,
        ErrorPayload::Error(_) => ": "@ + boxed,
    }
}

impl<K> Error<K> {
    /// The kind of the error.
    pub closed spec fn spec_kind(self) -> K {
        self.kind
    }

    /// The payload of the error.
    pub closed spec fn spec_payload(self) -> ErrorPayload {
        self.payload
    }

    /// Whether the error has kind `kind` and payload `payload`.
    pub open spec fn made_of(self, kind: K, payload: ErrorPayload) -> bool {
        self.spec_kind() == kind && self.spec_payload() == payload
    }

    /// The raw OS error code, present only when the payload is one.
    pub open spec fn spec_raw_os_error(self) -> Option<RawOsError> {
        match self.spec_payload() {
            ErrorPayload::RawOsError(code) => Some(code),
            _ => None,
        }
    }

    /// The error object that `into_inner` hands out: only one the error was built with.
    pub open spec fn spec_into_inner(self) -> Option<BoxedError> {
        match self.spec_payload() {
            ErrorPayload::Error(e) => Some(e),
            _ => None,
        }
    }

    /// Whether `into_error` hands out an error object: for an error object or a message.
    pub open spec fn spec_has_error(self) -> bool {
        self.spec_payload() is Error || self.spec_payload() is Message
    }

    /// The displayed text of the error, given the kind's text and, for an error
    /// object, that object's text.
    pub open spec fn spec_text(self, kind_text: Seq<char>, boxed: Seq<char>) -> Seq<char> {
        kind_text + payload_suffix(self.spec_payload(), boxed)
    }

    fn internal_new(kind: K, payload: ErrorPayload) -> (r: Self)
        ensures
            r.made_of(kind, payload),
    {
        Error { kind, payload }
    }

    /// Builds an error with a kind and no payload.
    pub fn new_simple(kind: K) -> (r: Self)
        ensures
            r.made_of(kind, ErrorPayload::Simple),
    {
        Self::internal_new(kind, ErrorPayload::Simple)
    }

    /// Builds an error with a kind and a static message.
    pub fn new_with_message(kind: K, msg: &'static str) -> (r: Self)
        ensures
            r.made_of(kind, ErrorPayload::Message(msg)),
    {
        Self::internal_new(kind, ErrorPayload::Message(msg))
    }

    /// Builds an error with a kind and an owned error object.
    pub fn new(kind: K, error: BoxedError) -> (r: Self)
        ensures
            r.made_of(kind, ErrorPayload::Error(error)),
    {
        Self::internal_new(kind, ErrorPayload::Error(error))
    }

    /// The kind of the error.
    pub fn kind(&self) -> (r: K)
        where
            K: Copy,
        ensures
            r == self.spec_kind(),
    {
        self.kind
    }

    /// The raw OS error code, if the error was built with one (by
    /// [`Error::from_raw_os_error`] or from a `std::io::Error` that had one).
    pub fn raw_os_error(&self) -> (r: Option<RawOsError>)
        ensures
            r == self.spec_raw_os_error(),
    {
        match self.payload {
            ErrorPayload::RawOsError(code) => Some(code),
            _ => None,
        }
    }

    /// Consumes the error and returns its error object, if it was built with one
    /// ([`Error::new`], [`Error::other`], [`Error::uncategorized`]) or with a message
    /// ([`Error::new_with_message`] and the like); `None` otherwise.
    ///
    /// A message comes out as an error object that cannot be downcast.
    pub fn into_error(self) -> (r: Option<BoxedError>)
        ensures
            r is Some <==> self.spec_has_error(),
            self.spec_payload() is Error ==> r == self.spec_into_inner(),
            self.spec_payload() is Message ==> message_of(r->0) == Some(
                self.spec_payload()->Message_0@,
            ),
    {
        match self.payload {
            ErrorPayload::Error(payload) => Some(payload),
            ErrorPayload::Message(m) => Some(lift_message(m)),
            _ => None,
        }
    }

    /// Consumes the error and returns its error object, only if it was built with
    /// one ([`Error::new`], [`Error::other`], [`Error::uncategorized`]); `None`
    /// otherwise, a message included.
    pub fn into_inner(self) -> (r: Option<BoxedError>)
        ensures
            r == self.spec_into_inner(),
    {
        match self.payload {
            ErrorPayload::Error(payload) => Some(payload),
            _ => None,
        }
    }

    /// The displayed text of the error, given the kind's own text and the text of
    /// its error object: the kind's text, then `" (raw os error <code>)"` for a raw
    /// code, `": <message>"` for a message, `": <boxed>"` for an error object, nothing
    /// for no payload.
    pub fn display_parts(&self, kind_text: &str, boxed: &str) -> (r: String)
        ensures
            r@ == self.spec_text(kind_text@, boxed@),
    {
        proof {
            reveal_strlit(" (raw os error ");
            reveal_strlit(")");
            reveal_strlit(": ");
        }
        let mut s = String::from_str(kind_text);
        match &self.payload {
            ErrorPayload::Simple => {},
            ErrorPayload::RawOsError(code) => {
                s.append(" (raw os error ");
                push_int(&mut s, *code);
                s.append(")");
            },
            ErrorPayload::Message(m) => {
                s.append(": ");
                s.append(*m);
            },
            ErrorPayload::Error(_) => {
                s.append(": ");
                s.append(boxed);
            },
        }
        assert(s@ =~= self.spec_text(kind_text@, boxed@));
        s
    }

    /// The displayed text of the error, given the kind's own text, as
    /// [`Error::display_parts`] writes it with the error object's own text. `None`
    /// only where the error object's `Display` reports a failure.
    pub fn display_with(&self, kind_text: &str) -> (r: Option<String>)
        ensures
            !(self.spec_payload() is Error) ==> r is Some && r->0@ == self.spec_text(
                kind_text@,
                Seq::empty(),
            ),
            self.spec_payload() is Error && message_of(self.spec_payload()->Error_0) is Some ==> r
                is Some && r->0@ == self.spec_text(
                kind_text@,
                message_of(self.spec_payload()->Error_0)->0,
            ),
            r is Some ==> exists|boxed: Seq<char>| r->0@ == self.spec_text(kind_text@, boxed),
    {
        match &self.payload {
            ErrorPayload::Error(e) => match boxed_text(e) {
                Some(t) => Some(self.display_parts(kind_text, t.as_str())),
                None => None,
            },
            _ => {
                proof {
                    reveal_strlit("");
                }
                let r = self.display_parts(kind_text, "");
                assert(self.spec_text(kind_text@, ""@) == self.spec_text(kind_text@, Seq::empty()));
                Some(r)
            },
        }
    }
}

impl<K: ErrorKind> Error<K> {
    /// Builds an error of the "other" kind with no payload.
    pub fn other_simple() -> (r: Self)
        ensures
            r.made_of(K::OTHER, ErrorPayload::Simple),
    {
        Self::internal_new(K::OTHER, ErrorPayload::Simple)
    }

    /// Builds an error of the "other" kind with a static message.
    pub fn other_with_message(msg: &'static str) -> (r: Self)
        ensures
            r.made_of(K::OTHER, ErrorPayload::Message(msg)),
    {
        Self::internal_new(K::OTHER, ErrorPayload::Message(msg))
    }

    /// Builds an error of the "other" kind with an owned error object.
    pub fn other(error: BoxedError) -> (r: Self)
        ensures
            r.made_of(K::OTHER, ErrorPayload::Error(error)),
    {
        Self::internal_new(K::OTHER, ErrorPayload::Error(error))
    }

    /// Builds an uncategorized error with no payload.
    pub fn uncategorized_simple() -> (r: Self)
        ensures
            r.made_of(K::spec_uncategorized(), ErrorPayload::Simple),
    {
        Self::internal_new(K::uncategorized(), ErrorPayload::Simple)
    }

    /// Builds an uncategorized error with a static message.
    pub fn uncategorized_with_message(msg: &'static str) -> (r: Self)
        ensures
            r.made_of(K::spec_uncategorized(), ErrorPayload::Message(msg)),
    {
        Self::internal_new(K::uncategorized(), ErrorPayload::Message(msg))
    }

    /// Builds an uncategorized error with an owned error object.
    pub fn uncategorized(error: BoxedError) -> (r: Self)
        ensures
            r.made_of(K::spec_uncategorized(), ErrorPayload::Error(error)),
    {
        Self::internal_new(K::uncategorized(), ErrorPayload::Error(error))
    }
}

impl<K: FromRawOsError> Error<K> {
    /// Builds an error from a raw OS error code: its kind is the one the code maps
    /// to, its payload the code.
    pub fn from_raw_os_error(code: RawOsError) -> (r: Self)
        ensures
            r.made_of(K::spec_from_raw_os_error(code), ErrorPayload::RawOsError(code)),
    {
        Self::internal_new(K::from_raw_os_error(code), ErrorPayload::RawOsError(code))
    }
}

/// The payload that an error converted from a `std::io::Error` carries, given the
/// raw OS error code and the error object read from it: the code wins over the
/// object, and with neither there is no payload.
pub open spec fn io_payload(code: Option<RawOsError>, inner: Option<BoxedError>) -> ErrorPayload {
    match code {
        Some(c) => ErrorPayload::RawOsError(c),
        None => match inner {
            Some(e) => ErrorPayload::Error(e),
            None => ErrorPayload::Simple,
        },
    }
}

impl<K> Error<K> {
    /// Builds the error that a `std::io::Error` converts to, from its kind, its raw
    /// OS error code and its error object.
    pub fn from_io_parts(kind: K, code: Option<RawOsError>, inner: Option<BoxedError>) -> (r: Self)
        ensures
            r.made_of(kind, io_payload(code, inner)),
    {
        let payload = match code {
            Some(c) => ErrorPayload::RawOsError(c),
            None => match inner {
                Some(e) => ErrorPayload::Error(e),
                None => ErrorPayload::Simple,
            },
        };
        Self::internal_new(kind, payload)
    }
}

impl<K: FromIoKind> Error<K> {
    /// Whether `self` is what `io` converts to: the kind is mapped from the
    /// classification of `io`, and the payload is the raw OS error code of `io` if
    /// it has one, else its error object or nothing.
    pub open spec fn converted_from_io(self, io: std::io::Error) -> bool {
        &&& self.spec_kind() == K::spec_from_io_error_kind(io_kind_of(io))
        &&& self.spec_payload() == io_payload(io_raw_code_of(io), io_inner_of(io))
    }

    /// Converts a `std::io::ErrorKind` into an error of the mapped kind with no payload.
    pub fn from_io_kind(kind: std::io::ErrorKind) -> (r: Self)
        ensures
            r.made_of(K::spec_from_io_error_kind(kind), ErrorPayload::Simple),
    {
        Self::new_simple(K::from_io_error_kind(kind))
    }

    /// Converts a `std::io::Error`: the kind is mapped from its classification; the
    /// payload is its raw OS error code if it has one, else its error object if it
    /// has one, else nothing.
    pub fn from_io_error(value: std::io::Error) -> (r: Self)
        ensures
            r.converted_from_io(value),
    {
        let kind = K::from_io_error_kind(value.kind());
        let code = value.raw_os_error();
        if code.is_some() {
            Self::from_io_parts(kind, code, None)
        } else {
            let inner = io_error_into_inner(value);
            Self::from_io_parts(kind, code, inner)
        }
    }
}

impl<K: IntoIoKind> Error<K> {
    /// Whether `io` is what `self` converts to. With a raw OS error code: an error
    /// built from that code alone, classified by it, with no error object. Without
    /// one: an error of the mapped classification, with no code, carrying the error
    /// object of `self`, or its message lifted into one, or the lifted text
    /// `"(no context)"`.
    pub open spec fn converts_to_io(self, io: std::io::Error) -> bool {
        match self.spec_raw_os_error() {
            Some(c) => {
                &&& io_raw_code_of(io) == Some(c)
                &&& io_kind_of(io) == io_kind_of_code(c)
                &&& io_inner_of(io) is None
            },
            None => {
                &&& io_kind_of(io) == self.spec_kind().spec_into_io_error_kind()
                &&& io_raw_code_of(io) is None
                &&& io_inner_of(io) is Some
                &&& match self.spec_payload() {
                    ErrorPayload::Error(b) => io_inner_of(io) == Some(b),
                    ErrorPayload::Message(m) => message_of(io_inner_of(io)->0) == Some(m@),
                    _ => message_of(io_inner_of(io)->0) == Some("(no context)"@),
                }
            },
        }
    }

    /// Converts into a `std::io::Error`. A raw OS error code is authoritative: the
    /// result is built from it alone. Otherwise the kind is mapped, and the result
    /// carries the error object or message of `self`, or the text `"(no context)"`.
    pub fn into_io_error(self) -> (r: std::io::Error)
        ensures
            self.converts_to_io(r),
    {
        match self.raw_os_error() {
            Some(code) => io_error_from_raw(code),
            None => {
                let kind = self.kind.into_io_error_kind();
                let payload = match self.into_error() {
                    Some(p) => p,
                    None => lift_message("(no context)"),
                };
                io_error_new(kind, payload)
            },
        }
    }
}

impl<K: FromIoKind> From<std::io::ErrorKind> for Error<K> {
    fn from(kind: std::io::ErrorKind) -> (r: Self)
        ensures
            r.made_of(K::spec_from_io_error_kind(kind), ErrorPayload::Simple),
    {
        Self::from_io_kind(kind)
    }
}

impl<K: FromIoKind> vstd::std_specs::convert::FromSpecImpl<std::io::ErrorKind> for Error<K> {
    open spec fn obeys_from_spec() -> bool {
        false
    }

    open spec fn from_spec(kind: std::io::ErrorKind) -> Self {
        arbitrary()
    }
}

impl<K: FromIoKind> From<std::io::Error> for Error<K> {
    fn from(value: std::io::Error) -> (r: Self)
        ensures
            r.converted_from_io(value),
    {
        Self::from_io_error(value)
    }
}

impl<K: FromIoKind> vstd::std_specs::convert::FromSpecImpl<std::io::Error> for Error<K> {
    open spec fn obeys_from_spec() -> bool {
        false
    }

    open spec fn from_spec(value: std::io::Error) -> Self {
        arbitrary()
    }
}

impl<K: IntoIoKind> From<Error<K>> for std::io::Error {
    fn from(value: Error<K>) -> (r: Self)
        ensures
            value.converts_to_io(r),
    {
        value.into_io_error()
    }
}

impl<K: IntoIoKind> vstd::std_specs::convert::FromSpecImpl<Error<K>> for std::io::Error {
    open spec fn obeys_from_spec() -> bool {
        false
    }

    open spec fn from_spec(value: Error<K>) -> Self {
        arbitrary()
    }
}

} // verus!
