//! What holds of errors across their constructors, accessors and conversions.
use vstd::prelude::*;

use crate::decimal::int_text;
use crate::error::{message_of, Error, ErrorPayload};
use crate::io::{io_inner_of, io_kind_of, io_kind_of_code, io_raw_code_of};
use crate::kind::{FromIoKind, FromRawOsError, IntoIoKind};
use crate::RawOsError;

verus! {

/// An error built with a kind and no payload has that kind.
pub proof fn lemma_simple_kind<K>(kind: K, e: Error<K>)
    requires
        e.made_of(kind, ErrorPayload::Simple),
    ensures
        e.spec_kind() == kind,
{
}

/// An error built with a message has no raw OS error code, and its text ends with
/// `": "` and the message, whatever the kind's text.
pub proof fn lemma_message_text<K>(kind: K, msg: &'static str, e: Error<K>, kind_text: Seq<char>)
    requires
        e.made_of(kind, ErrorPayload::Message(msg)),
    ensures
        e.spec_raw_os_error() is None,
        ({
            let text = e.spec_text(kind_text, Seq::empty());
            let n = msg@.len() + 2;
            n <= text.len() && text.subrange(text.len() - n, text.len() as int) == ": "@ + msg@
        }),
{
    reveal_strlit(": ");
    let text = e.spec_text(kind_text, Seq::empty());
    assert(text == kind_text + (": "@ + msg@));
    assert(text.subrange(kind_text.len() as int, text.len() as int) =~= ": "@ + msg@);
}

/// An error built from a raw OS error code returns that code, and its text holds
/// `"(raw os error <code>)"`, whatever the kind's text.
pub proof fn lemma_raw_code_text<K: FromRawOsError>(
    code: RawOsError,
    e: Error<K>,
    kind_text: Seq<char>,
)
    requires
        e.made_of(K::spec_from_raw_os_error(code), ErrorPayload::RawOsError(code)),
    ensures
        e.spec_raw_os_error() == Some(code),
        ({
            let text = e.spec_text(kind_text, Seq::empty());
            let needle = "(raw os error "@ + int_text(code as int) + ")"@;
            exists|i: int|
                0 <= i && i + needle.len() <= text.len() && #[trigger] text.subrange(
                    i,
                    i + needle.len(),
                ) == needle
        }),
{
    reveal_strlit(" (raw os error ");
    reveal_strlit("(raw os error ");
    let text = e.spec_text(kind_text, Seq::empty());
    let needle = "(raw os error "@ + int_text(code as int) + ")"@;
    assert(" (raw os error "@ =~= seq![' '] + "(raw os error "@);
    assert(text =~= kind_text + seq![' '] + needle);
    let i: int = kind_text.len() as int + 1;
    assert(text.subrange(i, i + needle.len() as int) =~= needle);
}

/// Converting an error that has a raw OS error code into a `std::io::Error` and
/// back keeps the code, and keeps the kind wherever the kind mapped from the
/// classification of that code is the original kind.
pub proof fn lemma_raw_code_round_trip<K: FromIoKind + IntoIoKind>(
    e: Error<K>,
    io: std::io::Error,
    back: Error<K>,
)
    requires
        e.spec_raw_os_error() is Some,
        K::spec_from_io_error_kind(io_kind_of_code(e.spec_raw_os_error()->0)) == e.spec_kind(),
        e.converts_to_io(io),
        back.converted_from_io(io),
    ensures
        back.spec_kind() == e.spec_kind(),
        back.spec_raw_os_error() == e.spec_raw_os_error(),
{
}

/// An error built with a message hands out no error object from `into_inner`, and
/// one from `into_error`.
pub proof fn lemma_message_payload<K>(kind: K, msg: &'static str, e: Error<K>)
    requires
        e.made_of(kind, ErrorPayload::Message(msg)),
    ensures
        e.spec_into_inner() is None,
        e.spec_has_error(),
{
}

/// A message survives a round trip through `std::io::Error` only as an error
/// object that displays it: the error that comes back has no raw OS error code, the
/// kind mapped there and back, and that object as its payload.
pub proof fn lemma_message_round_trip<K: FromIoKind + IntoIoKind>(
    kind: K,
    msg: &'static str,
    e: Error<K>,
    io: std::io::Error,
    back: Error<K>,
)
    requires
        e.made_of(kind, ErrorPayload::Message(msg)),
        e.converts_to_io(io),
        back.converted_from_io(io),
    ensures
        back.spec_kind() == K::spec_from_io_error_kind(kind.spec_into_io_error_kind()),
        back.spec_raw_os_error() is None,
        back.spec_into_inner() is Some,
        message_of(back.spec_into_inner()->0) == Some(msg@),
{
}

/// A `std::io::Error` built from a raw OS error code converts to an error with that
/// code, whose kind is the one the code maps to wherever the kind's mappings agree
/// on that code.
pub proof fn lemma_io_raw_code_converts<K: FromIoKind + FromRawOsError>(
    code: RawOsError,
    io: std::io::Error,
    e: Error<K>,
)
    requires
        io_raw_code_of(io) == Some(code),
        io_kind_of(io) == io_kind_of_code(code),
        K::spec_from_io_error_kind(io_kind_of_code(code)) == K::spec_from_raw_os_error(code),
        e.converted_from_io(io),
    ensures
        e.spec_raw_os_error() == Some(code),
        e.spec_kind() == K::spec_from_raw_os_error(code),
{
}

/// An error with no payload converts to a `std::io::Error` with no raw OS error
/// code, of the mapped classification, whose error object displays
/// `"(no context)"`.
pub proof fn lemma_simple_into_io_has_no_context<K: IntoIoKind>(
    kind: K,
    e: Error<K>,
    io: std::io::Error,
)
    requires
        e.made_of(kind, ErrorPayload::Simple),
        e.converts_to_io(io),
    ensures
        io_raw_code_of(io) is None,
        io_kind_of(io) == kind.spec_into_io_error_kind(),
        io_inner_of(io) is Some,
        message_of(io_inner_of(io)->0) == Some("(no context)"@),
{
}

} // verus!
