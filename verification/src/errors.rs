//! The failure taxonomy of the archiving pipeline.

use vstd::prelude::*;

verus! {

/// Everything that can go wrong while archiving one URL.
///
/// `InvalidUrl` and `ExcludedUrl` reject the input itself; the other
/// variants report a failure of one pipeline stage. Each variant
/// carries the offending input or a diagnostic detail.
#[derive(Debug, Eq)]
pub enum Error {
    /// The input does not parse as an absolute URL, or it targets a
    /// host that must never be archived (local, private, and the like).
    InvalidUrl(String),
    /// The transport gave up on a request after exhausting its retries.
    RequestFailed(String),
    /// Submission failed and the compensating existence check found no
    /// snapshot either: the status line and the original URL.
    CannotArchive(String, String),
    /// The existence query could not be completed or its answer not read.
    CannotCheckArchive(String),
    /// No snapshot newer than the freshness cutoff exists for the URL.
    NoRecentArchive(String),
    /// The URL is valid but its host is on the exclusion list.
    ExcludedUrl(String),
}

/// An error at the specification level: the same variants, over
/// character sequences.
pub enum ErrorModel {
    InvalidUrl(Seq<char>),
    RequestFailed(Seq<char>),
    CannotArchive(Seq<char>, Seq<char>),
    CannotCheckArchive(Seq<char>),
    NoRecentArchive(Seq<char>),
    ExcludedUrl(Seq<char>),
}

impl View for Error {
    type V = ErrorModel;

    open spec fn view(&self) -> ErrorModel {
        match self {
            Error::InvalidUrl(s) => ErrorModel::InvalidUrl(s@),
            Error::RequestFailed(s) => ErrorModel::RequestFailed(s@),
            Error::CannotArchive(code, url) => ErrorModel::CannotArchive(code@, url@),
            Error::CannotCheckArchive(s) => ErrorModel::CannotCheckArchive(s@),
            Error::NoRecentArchive(s) => ErrorModel::NoRecentArchive(s@),
            Error::ExcludedUrl(s) => ErrorModel::ExcludedUrl(s@),
        }
    }
}

impl Error {
    /// Structural equality over the carried strings, the meaning of `==`.
    pub open spec fn eq_spec_def(&self, other: &Error) -> bool {
        match (self, other) {
            (Error::InvalidUrl(a), Error::InvalidUrl(b)) => a@ == b@,
            (Error::RequestFailed(a), Error::RequestFailed(b)) => a@ == b@,
            (Error::CannotArchive(a, c), Error::CannotArchive(b, d)) => a@ == b@ && c@ == d@,
            (Error::CannotCheckArchive(a), Error::CannotCheckArchive(b)) => a@ == b@,
            (Error::NoRecentArchive(a), Error::NoRecentArchive(b)) => a@ == b@,
            (Error::ExcludedUrl(a), Error::ExcludedUrl(b)) => a@ == b@,
            _ => false,
        }
    }

    /// A human-readable description of the failure.
    pub fn message(&self) -> (r: String)
        ensures
            r@ == self.message_spec(),
    {
        match self {
            Error::InvalidUrl(input) => String::from_str("Invalid URL: ").concat(input.as_str()),
            Error::RequestFailed(err) => String::from_str("Request failed: ").concat(err.as_str()),
            Error::CannotArchive(code, url) => String::from_str("Failed (").concat(
                code.as_str(),
            ).concat("): ").concat(url.as_str()),
            Error::CannotCheckArchive(err) => String::from_str("Failed to get archive: ").concat(
                err.as_str(),
            ),
            Error::NoRecentArchive(url) => String::from_str("No recent archive exists: ").concat(
                url.as_str(),
            ),
            Error::ExcludedUrl(url) => String::from_str("Excluded URL: ").concat(url.as_str()),
        }
    }

    /// What `message` returns, variant by variant.
    pub open spec fn message_spec(&self) -> Seq<char> {
        match self {
            Error::InvalidUrl(input) => "Invalid URL: "@ + input@,
            Error::RequestFailed(err) => "Request failed: "@ + err@,
            Error::CannotArchive(code, url) => "Failed ("@ + code@ + "): "@ + url@,
            Error::CannotCheckArchive(err) => "Failed to get archive: "@ + err@,
            Error::NoRecentArchive(url) => "No recent archive exists: "@ + url@,
            Error::ExcludedUrl(url) => "Excluded URL: "@ + url@,
        }
    }
}

impl PartialEq for Error {
    fn eq(&self, other: &Error) -> (r: bool) {
        match (self, other) {
            (Error::InvalidUrl(a), Error::InvalidUrl(b)) => *a == *b,
            (Error::RequestFailed(a), Error::RequestFailed(b)) => *a == *b,
            (Error::CannotArchive(a, c), Error::CannotArchive(b, d)) => *a == *b && *c == *d,
            (Error::CannotCheckArchive(a), Error::CannotCheckArchive(b)) => *a == *b,
            (Error::NoRecentArchive(a), Error::NoRecentArchive(b)) => *a == *b,
            (Error::ExcludedUrl(a), Error::ExcludedUrl(b)) => *a == *b,
            _ => false,
        }
    }
}

impl vstd::std_specs::cmp::PartialEqSpecImpl for Error {
    open spec fn obeys_eq_spec() -> bool {
        true
    }

    open spec fn eq_spec(&self, other: &Error) -> bool {
        self.eq_spec_def(other)
    }
}

} // verus!
