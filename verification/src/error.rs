use vstd::prelude::*;
use vstd::string::*;

verus! {

/// Why a slug could not be resolved to a response.
#[derive(Debug, PartialEq, Eq)]
pub enum Error {
    /// The slug is absent, expired or exhausted.
    NotFound(String),
    /// The backend could not be reached; the caller may try again.
    BackendUnavailable,
    /// The record exists but the bytes of its file could not be opened.
    PayloadMissing,
    /// The file's download name cannot be placed in a header value.
    MalformedName,
    /// The redirect target is empty or holds a blank or a control character.
    MalformedTarget,
}

/// The mathematical value of an [`Error`].
pub enum Failure {
    NotFound(Seq<char>),
    BackendUnavailable,
    PayloadMissing,
    MalformedName,
    MalformedTarget,
}

impl View for Error {
    type V = Failure;

    open spec fn view(&self) -> Failure {
        match self {
            Error::NotFound(slug) => Failure::NotFound(slug@),
            Error::BackendUnavailable => Failure::BackendUnavailable,
            Error::PayloadMissing => Failure::PayloadMissing,
            Error::MalformedName => Failure::MalformedName,
            Error::MalformedTarget => Failure::MalformedTarget,
        }
    }
}

/// The text that describes a failure, for a log or a response body.
pub open spec fn description(f: Failure) -> Seq<char> {
    match f {
        Failure::NotFound(slug) => "record not found: "@ + slug,
        Failure::BackendUnavailable => "backend unavailable"@,
        Failure::PayloadMissing => "payload missing"@,
        Failure::MalformedName => "malformed file name"@,
        Failure::MalformedTarget => "malformed redirect target"@,
    }
}

impl Error {
    /// Describes the failure in words.
    pub fn message(&self) -> (r: String)
        ensures
            r@ == description(self@),
    {
        match self {
            Error::NotFound(slug) => String::from_str("record not found: ").concat(slug.as_str()),
            Error::BackendUnavailable => String::from_str("backend unavailable"),
            Error::PayloadMissing => String::from_str("payload missing"),
            Error::MalformedName => String::from_str("malformed file name"),
            Error::MalformedTarget => String::from_str("malformed redirect target"),
        }
    }


    /// True of the one failure that a later attempt may cure.
    pub fn is_retryable(&self) -> (r: bool)
        ensures
            r == (self@ == Failure::BackendUnavailable),
    {
        match self {
            Error::BackendUnavailable => true,
            _ => false,
        }
    }
}

} // verus!
