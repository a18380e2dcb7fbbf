//! I/O errors as the reader sees them, and which of them are worth a retry.

use std::io;
use vstd::prelude::*;
use vstd::string::to_string_from_display_ensures;

verus! {

/// `std::io::ErrorKind`, with the variants that std declares.
#[verifier::external_type_specification]
pub struct ExErrorKind(io::ErrorKind);

/// `std::io::Error`, carried without a look inside.
#[verifier::external_type_specification]
#[verifier::external_body]
pub struct ExError(io::Error);

/// The kind of an I/O error: what `std::io::Error::kind` returns for it.
pub uninterp spec fn error_kind(e: io::Error) -> io::ErrorKind;

/// `std::io::Error::kind` returns the kind of the error. Nothing is claimed of which kind that
/// is: for an error of the operating system, the platform settles it.
pub assume_specification[ io::Error::kind ](e: &io::Error) -> (kind: io::ErrorKind)
    ensures
        kind == error_kind(*e),
;

/// What the reader keeps of an I/O error: its kind and its text.
#[derive(Debug, PartialEq, Eq)]
pub struct IoError {
    pub kind: io::ErrorKind,
    pub message: String,
}

/// An [`IoError`] with its text as a sequence of characters.
pub struct IoErrorView {
    pub kind: io::ErrorKind,
    pub message: Seq<char>,
}

impl View for IoError {
    type V = IoErrorView;

    open spec fn view(&self) -> IoErrorView {
        IoErrorView { kind: self.kind, message: self.message@ }
    }
}

impl IoError {
    /// Takes the kind and the text of `e`. The text is what `e` displays; it may depend on the
    /// platform, so it is tied to `e` as one of the texts that `e` can display.
    pub fn observe(e: &io::Error) -> (seen: IoError)
        ensures
            seen.kind == error_kind(*e),
            to_string_from_display_ensures::<io::Error>(e, seen.message),
    {
        IoError { kind: e.kind(), message: e.to_string() }
    }
}

/// The kinds of error after which a download is resumed.
///
/// `Other` is among them because the SDK reports every failure of a body stream under that kind,
/// with no finer distinction to go by.
pub open spec fn retryable(kind: io::ErrorKind) -> bool {
    ||| kind is ConnectionReset
    ||| kind is ConnectionAborted
    ||| kind is BrokenPipe
    ||| kind is TimedOut
    ||| kind is UnexpectedEof
    ||| kind is Interrupted
    ||| kind is Other
}

/// Tells whether a download that failed with `e` is worth resuming.
pub fn is_retryable(e: &IoError) -> (retry: bool)
    ensures
        retry == retryable(e.kind),
        retry <==> e.kind is ConnectionReset || e.kind is ConnectionAborted || e.kind is BrokenPipe
            || e.kind is TimedOut || e.kind is UnexpectedEof || e.kind is Interrupted
            || e.kind is Other,
{
    match e.kind {
        io::ErrorKind::ConnectionReset
        | io::ErrorKind::ConnectionAborted
        | io::ErrorKind::BrokenPipe
        | io::ErrorKind::TimedOut
        | io::ErrorKind::UnexpectedEof
        | io::ErrorKind::Interrupted => true,
        // This retries every error of kind `Other`, a malformed body among them. Telling those
        // apart would take the sources of the error and the wording of the HTTP stack.
        io::ErrorKind::Other => true,
        _ => false,
    }
}

} // verus!
