//! The three tiers of failure that every resolver reports.

use vstd::prelude::*;
use vstd::string::*;

verus! {

/// Why a link did not become a file.
///
/// `Ignore`: the input was valid but there is nothing to act on, and nobody
/// is told. `Rejected`: a condition that the requester can understand and is
/// told of (too large, unsupported link, playlist). `Error`: a fault of the
/// infrastructure, whose text is for the operators' log only.
#[derive(Debug, Clone, PartialEq, Eq)]
pub enum LoadError {
    Ignore(String),
    Rejected(String),
    Error(String),
}

pub type LoadResult<T> = Result<T, LoadError>;

/// A `LoadError` with its text as a sequence of characters.
pub enum Failure {
    Ignore(Seq<char>),
    Rejected(Seq<char>),
    Error(Seq<char>),
}

impl View for LoadError {
    type V = Failure;

    open spec fn view(&self) -> Failure {
        match *self {
            LoadError::Ignore(reason) => Failure::Ignore(reason@),
            LoadError::Rejected(reason) => Failure::Rejected(reason@),
            LoadError::Error(cause) => Failure::Error(cause@),
        }
    }
}

impl Failure {
    /// The text that the failure carries, whatever its tier.
    pub open spec fn text(self) -> Seq<char> {
        match self {
            Failure::Ignore(reason) => reason,
            Failure::Rejected(reason) => reason,
            Failure::Error(cause) => cause,
        }
    }
}

impl LoadError {
    /// The text of the failure, as it would be printed.
    pub fn message(&self) -> (text: String)
        ensures
            text@ == self@.text(),
    {
        match self {
            LoadError::Ignore(reason) => reason.clone(),
            LoadError::Rejected(reason) => reason.clone(),
            LoadError::Error(cause) => cause.clone(),
        }
    }

    /// A rejection with the given reason.
    pub fn rejected(reason: &str) -> (e: LoadError)
        ensures
            e@ == Failure::Rejected(reason@),
    {
        LoadError::Rejected(String::from_str(reason))
    }

    /// A silent refusal with the given reason.
    pub fn ignore(reason: &str) -> (e: LoadError)
        ensures
            e@ == Failure::Ignore(reason@),
    {
        LoadError::Ignore(String::from_str(reason))
    }

    /// An infrastructure fault with the given cause.
    pub fn error(cause: &str) -> (e: LoadError)
        ensures
            e@ == Failure::Error(cause@),
    {
        LoadError::Error(String::from_str(cause))
    }
}

impl From<String> for LoadError {
    fn from(value: String) -> (e: LoadError) {
        LoadError::Rejected(value)
    }
}

impl vstd::std_specs::convert::FromSpecImpl<String> for LoadError {
    open spec fn obeys_from_spec() -> bool {
        true
    }

    open spec fn from_spec(value: String) -> LoadError {
        LoadError::Rejected(value)
    }
}

impl From<&str> for LoadError {
    fn from(value: &str) -> (e: LoadError)
        ensures
            e@ == Failure::Rejected(value@),
    {
        LoadError::Rejected(String::from_str(value))
    }
}

impl vstd::std_specs::convert::FromSpecImpl<&str> for LoadError {
    open spec fn obeys_from_spec() -> bool {
        false
    }

    open spec fn from_spec(value: &str) -> LoadError {
        arbitrary()
    }
}

} // verus!
