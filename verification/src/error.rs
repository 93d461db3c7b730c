//! The one error type of the library.

use vstd::prelude::*;

verus! {

/// What went wrong with an operation.
///
/// The first five variants carry the text of a failure that arose below the
/// library: in the HTTP exchange, in the address, while reading a response,
/// while encoding or decoding JSON, or in TLS. `Phant` is a failure that the
/// library or the server states in words.
#[derive(Debug)]
pub enum Error {
    Hyper(String),
    Uri(String),
    Io(String),
    Serde(String),
    NativeTls(String),
    Phant(String),
}

/// The variant of an [`Error`], without its text.
#[derive(Clone, Copy, Debug, PartialEq, Eq, Structural)]
pub enum ErrorKind {
    Hyper,
    Uri,
    Io,
    Serde,
    NativeTls,
    Phant,
}

impl Error {
    /// The variant.
    pub open spec fn spec_kind(&self) -> ErrorKind {
        match self {
            Error::Hyper(_) => ErrorKind::Hyper,
            Error::Uri(_) => ErrorKind::Uri,
            Error::Io(_) => ErrorKind::Io,
            Error::Serde(_) => ErrorKind::Serde,
            Error::NativeTls(_) => ErrorKind::NativeTls,
            Error::Phant(_) => ErrorKind::Phant,
        }
    }

    /// The text that the error carries.
    pub open spec fn message(&self) -> Seq<char> {
        match self {
            Error::Hyper(m) => m@,
            Error::Uri(m) => m@,
            Error::Io(m) => m@,
            Error::Serde(m) => m@,
            Error::NativeTls(m) => m@,
            Error::Phant(m) => m@,
        }
    }

    /// A failure of kind `Phant` with the given text.
    pub open spec fn is_phant(&self, text: Seq<char>) -> bool {
        self.spec_kind() == ErrorKind::Phant && self.message() == text
    }

    /// The variant.
    #[verifier::when_used_as_spec(spec_kind)]
    pub fn kind(&self) -> (kind: ErrorKind)
        ensures
            kind == self.spec_kind(),
    {
        match self {
            Error::Hyper(_) => ErrorKind::Hyper,
            Error::Uri(_) => ErrorKind::Uri,
            Error::Io(_) => ErrorKind::Io,
            Error::Serde(_) => ErrorKind::Serde,
            Error::NativeTls(_) => ErrorKind::NativeTls,
            Error::Phant(_) => ErrorKind::Phant,
        }
    }

    /// The text that the error carries.
    pub fn description(&self) -> (text: &str)
        ensures
            text@ == self.message(),
    {
        match self {
            Error::Hyper(m) => m.as_str(),
            Error::Uri(m) => m.as_str(),
            Error::Io(m) => m.as_str(),
            Error::Serde(m) => m.as_str(),
            Error::NativeTls(m) => m.as_str(),
            Error::Phant(m) => m.as_str(),
        }
    }
}

} // verus!
