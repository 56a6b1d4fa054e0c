//! Errors of link parsing and of running the player.

use vstd::prelude::*;

verus! {

#[verifier::external_type_specification]
#[verifier::external_body]
pub struct ExDecodeError(base64::DecodeError);

#[verifier::external_type_specification]
#[verifier::external_body]
pub struct ExFromUtf8Error(std::string::FromUtf8Error);

/// Why a link was rejected, or how the player failed.
///
/// Malformed input and the security rejection (`DisallowedScheme`) are kept
/// apart so that the latter can be audited on its own.
#[derive(Debug)]
pub enum Error {
    /// More than one argument was given.
    TooManyArgs,
    /// The link does not start with one of the handler's schemes; holds the link.
    UnrecognizedScheme(String),
    /// The segment after the scheme names no plugin; holds the link.
    UnrecognizedRoute(String),
    /// The payload segment is empty.
    MissingPayload,
    /// A query pair is not of the form `key=value`; holds the pair.
    MalformedParameter(String),
    /// A payload is not URL-safe base64 without padding.
    InvalidEncoding(base64::DecodeError),
    /// A decoded payload is not UTF-8.
    InvalidText(std::string::FromUtf8Error),
    /// A decoded URL has no `://`; holds the decoded text.
    MissingTransportScheme(String),
    /// A decoded URL has a transport scheme outside the allow-list; holds the scheme.
    DisallowedScheme(String),
    /// The player ran and reported failure: its exit code, or nothing where a
    /// signal ended it.
    PlayerExited(Option<u8>),
    /// The player could not be started; holds the reason.
    PlayerRunFailed(String),
}

/// The mathematical value of an [`Error`].
pub ghost enum ErrorView {
    TooManyArgs,
    UnrecognizedScheme(Seq<char>),
    UnrecognizedRoute(Seq<char>),
    MissingPayload,
    MalformedParameter(Seq<char>),
    InvalidEncoding,
    InvalidText,
    MissingTransportScheme(Seq<char>),
    DisallowedScheme(Seq<char>),
    PlayerExited(Option<u8>),
    PlayerRunFailed(Seq<char>),
}

impl View for Error {
    type V = ErrorView;

    open spec fn view(&self) -> ErrorView {
        match self {
            Error::TooManyArgs => ErrorView::TooManyArgs,
            Error::UnrecognizedScheme(s) => ErrorView::UnrecognizedScheme(s@),
            Error::UnrecognizedRoute(s) => ErrorView::UnrecognizedRoute(s@),
            Error::MissingPayload => ErrorView::MissingPayload,
            Error::MalformedParameter(s) => ErrorView::MalformedParameter(s@),
            Error::InvalidEncoding(_) => ErrorView::InvalidEncoding,
            Error::InvalidText(_) => ErrorView::InvalidText,
            Error::MissingTransportScheme(s) => ErrorView::MissingTransportScheme(s@),
            Error::DisallowedScheme(s) => ErrorView::DisallowedScheme(s@),
            Error::PlayerExited(c) => ErrorView::PlayerExited(*c),
            Error::PlayerRunFailed(s) => ErrorView::PlayerRunFailed(s@),
        }
    }
}

/// The exit code that an error hands on to the caller of the program:
/// that of a player that ran and failed, where it had one.
pub open spec fn spec_exit_code(e: ErrorView) -> Option<u8> {
    match e {
        ErrorView::PlayerExited(code) => code,
        _ => None,
    }
}

impl Error {
    /// The exit code of the player, where the error is its failure and it
    /// ended with a code. The program ends with the same code.
    pub fn exit_code(&self) -> (r: Option<u8>)
        ensures
            r == spec_exit_code(self@),
    {
        match self {
            Error::PlayerExited(code) => *code,
            _ => None,
        }
    }
}

} // verus!
