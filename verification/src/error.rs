//! The errors the client reports.

use vstd::prelude::*;

verus! {

/// The HTTP status that marks a session as no longer valid.
pub const STATUS_FORBIDDEN: u16 = 403;

/// Why the sign-on handshake failed.
#[derive(Debug, Clone, Copy, PartialEq, Eq, Structural)]
pub enum AuthError {
    /// The sign-in page held no ticket URL.
    TicketNotFound,
    /// The server refused the ticket.
    TicketRejected,
    /// The redirect chain from the application did not end within the hop limit.
    TooManyRedirects,
}

/// Why a call to the service failed.
#[derive(Debug, Clone, Copy, PartialEq, Eq, Structural)]
pub enum ApiError {
    /// The server refused the session, and signing in again did not help.
    Forbidden,
    /// The server answered with an unexpected status.
    Http(u16),
    /// The body of the answer could not be decoded.
    DecodeFailed,
}

/// Why a payload could not be unwrapped.
#[derive(Debug, Clone, Copy, PartialEq, Eq, Structural)]
pub enum ArchiveError {
    /// The payload is not a readable archive.
    Corrupt,
    /// The archive does not hold exactly one member.
    UnexpectedMemberCount,
}

/// Any failure of the client.
#[derive(Debug, Clone, PartialEq, Eq)]
pub enum Error {
    /// Credentials or arguments are missing or unusable.
    InvalidInput(String),
    /// The handshake failed.
    Auth(AuthError),
    /// A call to the service failed.
    Api(ApiError),
    /// A downloaded payload could not be unwrapped.
    Archive(ArchiveError),
    /// Reading or writing failed, on the network or on disk.
    IOError(String),
}

/// An [`Error`] with its messages as sequences of characters.
pub enum ErrorView {
    InvalidInput(Seq<char>),
    Auth(AuthError),
    Api(ApiError),
    Archive(ArchiveError),
    IOError(Seq<char>),
}

impl View for Error {
    type V = ErrorView;

    open spec fn view(&self) -> ErrorView {
        match *self {
            Error::InvalidInput(message) => ErrorView::InvalidInput(message@),
            Error::Auth(e) => ErrorView::Auth(e),
            Error::Api(e) => ErrorView::Api(e),
            Error::Archive(e) => ErrorView::Archive(e),
            Error::IOError(message) => ErrorView::IOError(message@),
        }
    }
}

/// The error that a status outside the success range stands for.
pub open spec fn status_error(status: u16) -> ApiError {
    if status == STATUS_FORBIDDEN {
        ApiError::Forbidden
    } else {
        ApiError::Http(status)
    }
}

impl ApiError {
    /// Classifies a status outside the success range: 403 says that the
    /// session is no longer valid, anything else is reported as it came.
    pub fn from_status(status: u16) -> (e: ApiError)
        ensures
            e == status_error(status),
    {
        if status == STATUS_FORBIDDEN {
            ApiError::Forbidden
        } else {
            ApiError::Http(status)
        }
    }
}

impl Error {
    /// Whether this is the failure that signing in again can cure.
    pub open spec fn is_forbidden(&self) -> bool {
        self@ == ErrorView::Api(ApiError::Forbidden)
    }
}

} // verus!
