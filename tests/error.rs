use std::fmt;

use generic_error::kind::{ErrorKind, FromIoKind, FromRawOsError, IntoIoKind};
use generic_error::{BoxedError, Error};

#[derive(Debug, Clone, Copy, PartialEq, Eq)]
enum Kind {
    Other,
    Uncategorized,
    NotFound,
    StorageFull,
}

impl fmt::Display for Kind {
    fn fmt(&self, f: &mut fmt::Formatter<'_>) -> fmt::Result {
        let text = match self {
            Kind::Other => "other error",
            Kind::Uncategorized => "uncategorized error",
            Kind::NotFound => "not found",
            Kind::StorageFull => "storage full",
        };
        f.write_str(text)
    }
}

impl ErrorKind for Kind {
    const OTHER: Self = Kind::Other;

    fn spec_uncategorized() -> Self {
        Kind::Uncategorized
    }

    fn uncategorized() -> Self {
        Kind::Uncategorized
    }
}

impl FromRawOsError for Kind {
    fn spec_from_raw_os_error(raw: i32) -> Self {
        Self::from_raw_os_error(raw)
    }

    fn from_raw_os_error(raw: i32) -> Self {
        match raw {
            2 => Kind::NotFound,
            28 => Kind::StorageFull,
            _ => Kind::Other,
        }
    }
}

impl FromIoKind for Kind {
    fn spec_from_io_error_kind(kind: std::io::ErrorKind) -> Self {
        Self::from_io_error_kind(kind)
    }

    fn from_io_error_kind(kind: std::io::ErrorKind) -> Self {
        match kind {
            std::io::ErrorKind::NotFound => Kind::NotFound,
            std::io::ErrorKind::StorageFull => Kind::StorageFull,
            _ => Kind::Other,
        }
    }
}

impl IntoIoKind for Kind {
    fn spec_into_io_error_kind(self) -> std::io::ErrorKind {
        self.into_io_error_kind()
    }

    fn into_io_error_kind(self) -> std::io::ErrorKind {
        match self {
            Kind::NotFound => std::io::ErrorKind::NotFound,
            Kind::StorageFull => std::io::ErrorKind::StorageFull,
            Kind::Other | Kind::Uncategorized => std::io::ErrorKind::Other,
        }
    }
}

#[derive(Debug, PartialEq)]
struct Custom(u32);

impl fmt::Display for Custom {
    fn fmt(&self, f: &mut fmt::Formatter<'_>) -> fmt::Result {
        f.write_str(&format!("custom {}", self.0))
    }
}

impl std::error::Error for Custom {}

fn text(e: &Error<Kind>) -> String {
    e.display_with(&e.kind().to_string()).expect("a text")
}

fn boxed(value: u32) -> BoxedError {
    BoxedError { inner: Box::new(Custom(value)) }
}

#[test]
fn simple_error_keeps_its_kind() {
    for kind in [Kind::Other, Kind::Uncategorized, Kind::NotFound, Kind::StorageFull] {
        let e = Error::new_simple(kind);
        assert_eq!(e.kind(), kind);
        assert_eq!(e.raw_os_error(), None);
        assert!(e.into_error().is_none());
    }
}

#[test]
fn message_error_has_no_code_and_ends_with_message() {
    let e = Error::new_with_message(Kind::NotFound, "missing file");
    assert_eq!(e.raw_os_error(), None);
    assert_eq!(e.kind(), Kind::NotFound);
    let text = text(&e);
    assert!(text.ends_with(": missing file"));
    assert_eq!(text, "not found: missing file");
}

#[test]
fn raw_code_error_reports_its_code() {
    for code in [0, 2, 28, -5, i32::MAX, i32::MIN] {
        let e = Error::<Kind>::from_raw_os_error(code);
        assert_eq!(e.raw_os_error(), Some(code));
        assert_eq!(e.kind(), Kind::from_raw_os_error(code));
        let text = text(&e);
        assert!(text.contains(&format!("(raw os error {})", code)));
    }
}

#[test]
fn raw_code_text_is_exact() {
    let e = Error::<Kind>::from_raw_os_error(28);
    assert_eq!(text(&e), "storage full (raw os error 28)");
    let e = Error::<Kind>::from_raw_os_error(-2147483648);
    assert_eq!(text(&e), "other error (raw os error -2147483648)");
    let e = Error::<Kind>::from_raw_os_error(1234567);
    assert_eq!(e.display_with("k").as_deref(), Some("k (raw os error 1234567)"));
    assert_eq!(e.display_parts("k", "ignored"), "k (raw os error 1234567)");
}

#[test]
fn raw_code_round_trip_through_io_error_keeps_code_and_kind() {
    let e = Error::<std::io::ErrorKind>::from_raw_os_error(2);
    let kind = e.kind();
    let io: std::io::Error = e.into();
    assert_eq!(io.raw_os_error(), Some(2));
    let back: Error<std::io::ErrorKind> = io.into();
    assert_eq!(back.raw_os_error(), Some(2));
    assert_eq!(back.kind(), kind);
}

#[test]
fn raw_code_round_trip_with_own_kind() {
    let e = Error::<Kind>::from_raw_os_error(2);
    let io = e.into_io_error();
    assert_eq!(io.raw_os_error(), Some(2));
    assert_eq!(io.kind(), std::io::ErrorKind::NotFound);
    let back = Error::<Kind>::from_io_error(io);
    assert_eq!(back.kind(), Kind::NotFound);
    assert_eq!(back.raw_os_error(), Some(2));
}

#[test]
fn message_error_gives_no_inner_but_an_error() {
    let e = Error::new_with_message(Kind::Other, "boom");
    assert!(e.into_inner().is_none());
    let e = Error::new_with_message(Kind::Other, "boom");
    let payload = e.into_error().expect("a message is handed out as an error");
    assert_eq!(payload.inner.to_string(), "boom");
    assert!(payload.inner.downcast_ref::<Custom>().is_none());
}

#[test]
fn other_with_message_text() {
    let e = Error::<Kind>::other_with_message("disk full");
    assert_eq!(e.kind(), Kind::Other);
    assert_eq!(text(&e), format!("{}: disk full", Kind::OTHER));
    assert_eq!(text(&e), "other error: disk full");
}

#[test]
fn io_error_from_raw_code_28() {
    let io = std::io::Error::from_raw_os_error(28);
    let e: Error<std::io::ErrorKind> = Error::from_io_error(io);
    assert_eq!(e.raw_os_error(), Some(28));
    assert_eq!(e.kind(), <std::io::ErrorKind as FromRawOsError>::from_raw_os_error(28));

    let io = std::io::Error::from_raw_os_error(28);
    let e: Error<Kind> = io.into();
    assert_eq!(e.raw_os_error(), Some(28));
    assert_eq!(e.kind(), Kind::from_raw_os_error(28));
}

#[test]
fn uncategorized_simple_into_io_error_has_no_context() {
    let e = Error::<Kind>::uncategorized_simple();
    assert_eq!(e.kind(), Kind::Uncategorized);
    let io: std::io::Error = e.into();
    assert_eq!(io.raw_os_error(), None);
    assert_eq!(io.kind(), std::io::ErrorKind::Other);
    assert_eq!(io.to_string(), "(no context)");
}

#[test]
fn simple_error_text_is_kind_text() {
    let e = Error::<Kind>::other_simple();
    assert_eq!(e.kind(), Kind::Other);
    assert_eq!(text(&e), "other error");
    assert_eq!(e.display_with("").as_deref(), Some(""));
}

#[test]
fn boxed_payload_is_handed_back_and_displayed() {
    let e = Error::new(Kind::NotFound, boxed(7));
    assert_eq!(text(&e), "not found: custom 7");
    assert_eq!(e.raw_os_error(), None);
    let inner = e.into_inner().expect("the object it was built with");
    assert_eq!(inner.inner.downcast_ref::<Custom>(), Some(&Custom(7)));

    let e = Error::<Kind>::other(boxed(8));
    assert_eq!(e.kind(), Kind::Other);
    let payload = e.into_error().expect("the object it was built with");
    assert_eq!(payload.inner.downcast_ref::<Custom>(), Some(&Custom(8)));
}

#[test]
fn uncategorized_constructors_use_uncategorized_kind() {
    let e = Error::<Kind>::uncategorized_with_message("odd");
    assert_eq!(e.kind(), Kind::Uncategorized);
    assert_eq!(text(&e), "uncategorized error: odd");
    let e = Error::<Kind>::uncategorized(boxed(3));
    assert_eq!(e.kind(), Kind::Uncategorized);
    assert!(e.into_inner().is_some());
    let e = Error::<std::io::ErrorKind>::uncategorized_simple();
    assert_eq!(e.kind(), std::io::ErrorKind::Other);
}

#[test]
fn raw_code_error_hands_out_no_payload() {
    let e = Error::<Kind>::from_raw_os_error(2);
    assert!(e.into_error().is_none());
    let e = Error::<Kind>::from_raw_os_error(2);
    assert!(e.into_inner().is_none());
}

#[test]
fn io_error_with_payload_converts_to_boxed() {
    let io = std::io::Error::new(std::io::ErrorKind::NotFound, Custom(5));
    let e = Error::<Kind>::from_io_error(io);
    assert_eq!(e.kind(), Kind::NotFound);
    assert_eq!(e.raw_os_error(), None);
    assert_eq!(text(&e), "not found: custom 5");
    let inner = e.into_inner().expect("the object of the io error");
    assert_eq!(inner.inner.downcast_ref::<Custom>(), Some(&Custom(5)));
}

#[test]
fn io_error_without_payload_converts_to_simple() {
    let io = std::io::Error::from(std::io::ErrorKind::StorageFull);
    let e = Error::<Kind>::from_io_error(io);
    assert_eq!(e.kind(), Kind::StorageFull);
    assert_eq!(e.raw_os_error(), None);
    assert!(e.into_error().is_none());
}

#[test]
fn io_kind_converts_to_simple_error() {
    let e: Error<Kind> = std::io::ErrorKind::NotFound.into();
    assert_eq!(e.kind(), Kind::NotFound);
    assert!(e.into_error().is_none());
    let e = Error::<Kind>::from_io_kind(std::io::ErrorKind::TimedOut);
    assert_eq!(e.kind(), Kind::Other);
}

#[test]
fn message_error_into_io_error_carries_message() {
    let e = Error::new_with_message(Kind::StorageFull, "no room");
    let io = e.into_io_error();
    assert_eq!(io.kind(), std::io::ErrorKind::StorageFull);
    assert_eq!(io.raw_os_error(), None);
    assert_eq!(io.to_string(), "no room");
}

#[test]
fn boxed_error_into_io_error_keeps_object() {
    let e = Error::new(Kind::NotFound, boxed(9));
    let io = e.into_io_error();
    assert_eq!(io.kind(), std::io::ErrorKind::NotFound);
    let inner = io.into_inner().expect("the object");
    assert_eq!(inner.downcast_ref::<Custom>(), Some(&Custom(9)));
}

#[test]
fn from_io_parts_prefers_code_over_object() {
    let e = Error::from_io_parts(Kind::Other, Some(4), Some(boxed(1)));
    assert_eq!(e.raw_os_error(), Some(4));
    assert!(e.into_error().is_none());
    let e = Error::from_io_parts(Kind::Other, None, Some(boxed(1)));
    assert_eq!(e.raw_os_error(), None);
    assert!(e.into_inner().is_some());
    let e = Error::from_io_parts(Kind::Other, None, None);
    assert!(e.into_error().is_none());
}

#[test]
fn io_error_kind_is_a_kind() {
    assert_eq!(<std::io::ErrorKind as ErrorKind>::OTHER, std::io::ErrorKind::Other);
    assert_eq!(
        <std::io::ErrorKind as FromIoKind>::from_io_error_kind(std::io::ErrorKind::NotFound),
        std::io::ErrorKind::NotFound
    );
    assert_eq!(
        std::io::ErrorKind::TimedOut.into_io_error_kind(),
        std::io::ErrorKind::TimedOut
    );
    assert_eq!(
        <std::io::ErrorKind as FromRawOsError>::from_raw_os_error(2),
        std::io::Error::from_raw_os_error(2).kind()
    );
}

#[test]
fn message_round_trip_through_io_error_becomes_object() {
    let e = Error::new_with_message(Kind::NotFound, "gone");
    let io: std::io::Error = std::io::Error::from(e);
    assert_eq!(io.raw_os_error(), None);
    let back = Error::<Kind>::from(io);
    assert_eq!(back.kind(), Kind::NotFound);
    assert_eq!(back.raw_os_error(), None);
    let inner = back.into_inner().expect("the lifted message");
    assert_eq!(inner.inner.to_string(), "gone");
    assert!(inner.inner.downcast_ref::<Custom>().is_none());
}

#[test]
fn raw_code_error_into_io_error_has_no_object() {
    let e = Error::<Kind>::from_raw_os_error(28);
    let io = std::io::Error::from(e);
    assert_eq!(io.raw_os_error(), Some(28));
    assert_eq!(io.kind(), std::io::Error::from_raw_os_error(28).kind());
    assert!(io.get_ref().is_none());
}

#[test]
fn io_error_with_code_and_kind_via_from() {
    let io = std::io::Error::from_raw_os_error(2);
    let e = Error::<Kind>::from(io);
    assert_eq!(e.raw_os_error(), Some(2));
    assert_eq!(e.kind(), Kind::NotFound);
    assert!(e.into_error().is_none());
}

#[derive(Debug)]
struct Broken;

impl fmt::Display for Broken {
    fn fmt(&self, _f: &mut fmt::Formatter<'_>) -> fmt::Result {
        Err(fmt::Error)
    }
}

impl std::error::Error for Broken {}

#[test]
fn failing_object_text_gives_no_text() {
    let e = Error::new(Kind::Other, BoxedError { inner: Box::new(Broken) });
    assert_eq!(e.display_with("other error"), None);
    assert_eq!(e.display_parts("other error", "x"), "other error: x");
}

#[test]
fn object_text_follows_kind_text() {
    let e = Error::new(Kind::NotFound, boxed(3));
    assert_eq!(e.display_parts("nf", "payload"), "nf: payload");
    assert_eq!(e.display_with("nf").as_deref(), Some("nf: custom 3"));
    let e = Error::new_with_message(Kind::NotFound, "m");
    assert_eq!(e.display_parts("nf", "payload"), "nf: m");
}
