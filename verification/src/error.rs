//! The error taxonomy of the client.

use vstd::prelude::*;
use crate::text::{decimal, render_u64};
use crate::transport::describe;
use http_client::http_types::Error as TransportError;

verus! {

/// Failures that the daemon reports through a status code.
#[derive(Clone, Copy, Debug, PartialEq, Eq, Structural)]
pub enum ApiError {
    /// The caller's address is banned after too many failed logins.
    IpBanned,
    /// The route needs a session and the daemon saw none that it accepts.
    NotLoggedIn,
    /// The content hash names no torrent.
    TorrentNotFound,
}

impl ApiError {
    /// The text shown for each failure.
    pub open spec fn text(self) -> Seq<char> {
        match self {
            ApiError::IpBanned => "User's IP is banned for too many failed login attempts"@,
            ApiError::NotLoggedIn => "API routes requires login, try again"@,
            ApiError::TorrentNotFound => "Torrent not found"@,
        }
    }

    pub fn message(&self) -> (r: &'static str)
        ensures
            r@ == self.text(),
    {
        match self {
            ApiError::IpBanned => "User's IP is banned for too many failed login attempts",
            ApiError::NotLoggedIn => "API routes requires login, try again",
            ApiError::TorrentNotFound => "Torrent not found",
        }
    }
}

/// Everything a call can fail with.
#[derive(Debug)]
pub enum Error {
    /// The transport failed; its error is handed on untouched.
    HttpError(TransportError),
    /// The body did not have the shape that the call expects.
    BadResponse { explain: &'static str },
    /// A status outside 2xx that no table maps; holds the raw code.
    UnknownHttpCode(u16),
    /// A failure that the daemon names.
    ApiError(ApiError),
}

impl Error {
    /// Whether `text` is what the error is shown as. For a transport failure
    /// only the prefix is fixed; the rest is the transport's own wording.
    pub open spec fn shown_as(self, text: Seq<char>) -> bool {
        match self {
            Error::HttpError(_) => exists|detail: Seq<char>| text == "Http error: "@ + detail,
            Error::BadResponse { explain } => text == "API Returned bad response: "@ + explain@,
            Error::UnknownHttpCode(code) => text == "API returned unknown status code: "@
                + decimal(code as nat),
            Error::ApiError(e) => text == e.text(),
        }
    }

    /// The error as text.
    pub fn message(&self) -> (r: String)
        ensures
            self.shown_as(r@),
    {
        match self {
            Error::HttpError(failure) => {
                let detail = describe(failure);
                String::from_str("Http error: ").concat(detail.as_str())
            },
            Error::BadResponse { explain } => String::from_str(
                "API Returned bad response: ",
            ).concat(explain),
            Error::UnknownHttpCode(code) => {
                let number = render_u64(*code as u64);
                String::from_str("API returned unknown status code: ").concat(number.as_str())
            },
            Error::ApiError(e) => String::from_str(e.message()),
        }
    }
}

impl From<ApiError> for Error {
    fn from(err: ApiError) -> (r: Error) {
        Error::ApiError(err)
    }
}

impl vstd::std_specs::convert::FromSpecImpl<ApiError> for Error {
    open spec fn obeys_from_spec() -> bool {
        true
    }

    open spec fn from_spec(err: ApiError) -> Error {
        Error::ApiError(err)
    }
}

impl From<TransportError> for Error {
    fn from(err: TransportError) -> (r: Error) {
        Error::HttpError(err)
    }
}

impl vstd::std_specs::convert::FromSpecImpl<TransportError> for Error {
    open spec fn obeys_from_spec() -> bool {
        true
    }

    open spec fn from_spec(err: TransportError) -> Error {
        Error::HttpError(err)
    }
}

} // verus!
