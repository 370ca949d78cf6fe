//! The error type of the library.

use vstd::prelude::*;
use crate::text::join;

verus! {

/// What can go wrong between the client and the daemon, each kind with the
/// text that describes the failure.
#[derive(Debug, Clone)]
pub enum LazyFileError {
    /// IO error.
    Io(String),
    /// The daemon answered, and reported a failure or an unexpected reply.
    RcloneApi(String),
    /// The daemon could not be reached, or the exchange broke off.
    Http(String),
    /// The reply was not JSON.
    Json(String),
    /// Terminal error.
    Terminal(String),
    /// Configuration error.
    Config(String),
    /// Tracing filter parse error.
    TracingFilter(String),
    /// Any other error.
    Other(String),
}

impl LazyFileError {
    /// The words that stand before the detail when an error of this kind is shown.
    pub open spec fn prefix(self) -> Seq<char> {
        match self {
            LazyFileError::Io(_) => "IO error: "@,
            LazyFileError::RcloneApi(_) => "Rclone API error: "@,
            LazyFileError::Http(_) => "HTTP error: "@,
            LazyFileError::Json(_) => "JSON error: "@,
            LazyFileError::Terminal(_) => "Terminal error: "@,
            LazyFileError::Config(_) => "Configuration error: "@,
            LazyFileError::TracingFilter(_) => "Tracing filter error: "@,
            LazyFileError::Other(_) => ""@,
        }
    }

    /// The detail that the error carries.
    pub open spec fn detail(self) -> Seq<char> {
        match self {
            LazyFileError::Io(m) => m@,
            LazyFileError::RcloneApi(m) => m@,
            LazyFileError::Http(m) => m@,
            LazyFileError::Json(m) => m@,
            LazyFileError::Terminal(m) => m@,
            LazyFileError::Config(m) => m@,
            LazyFileError::TracingFilter(m) => m@,
            LazyFileError::Other(m) => m@,
        }
    }

    /// The error as it is shown to the user.
    pub open spec fn shown(self) -> Seq<char> {
        self.prefix() + self.detail()
    }

    /// The error as it is shown to the user: the kind, then the detail.
    pub fn describe(&self) -> (r: String)
        ensures
            r@ == self.shown(),
    {
        match self {
            LazyFileError::Io(m) => join("IO error: ", m.as_str()),
            LazyFileError::RcloneApi(m) => join("Rclone API error: ", m.as_str()),
            LazyFileError::Http(m) => join("HTTP error: ", m.as_str()),
            LazyFileError::Json(m) => join("JSON error: ", m.as_str()),
            LazyFileError::Terminal(m) => join("Terminal error: ", m.as_str()),
            LazyFileError::Config(m) => join("Configuration error: ", m.as_str()),
            LazyFileError::TracingFilter(m) => join("Tracing filter error: ", m.as_str()),
            LazyFileError::Other(m) => join("", m.as_str()),
        }
    }
}

} // verus!
