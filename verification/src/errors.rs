//! Error taxonomy of the storage layer.
//!
//! Backend failures reach this layer as an [`IoFailure`]: a classified report,
//! built by the application from whatever its I/O layer returned, carrying the
//! backend's message. The storage operations map such reports onto the typed
//! errors a caller sees: [`ReadError`] for listing and loading, [`WriteError`]
//! for renaming and saving, and [`Error`] for constructing a storage handle.

use vstd::prelude::*;

verus! {

/// A failed backend I/O action, as reported by the application.
///
/// The classification is decided at the I/O edge: `NotFound` when the resource
/// does not exist, `Conflict` when a guarded write was rejected because the
/// resource changed since the version token was issued, `Other` for everything
/// else. Every variant carries the backend's own message.
#[derive(Debug)]
pub enum IoFailure {
    NotFound(String),
    Conflict(String),
    Other(String),
}

impl IoFailure {
    /// The message the backend reported.
    pub open spec fn spec_message(&self) -> Seq<char> {
        match self {
            IoFailure::NotFound(m) => m@,
            IoFailure::Conflict(m) => m@,
            IoFailure::Other(m) => m@,
        }
    }
}

/// Why a listing or content load failed.
///
/// `NotAFile` and `MismatchedStorageBackend` report items handed back to a
/// storage they did not come from; they are caller defects surfaced as typed
/// errors rather than aborts.
#[derive(Debug)]
pub enum ReadError {
    IoError(String),
    DecodeError,
    NotAFile,
    MismatchedStorageBackend,
}

impl ReadError {
    /// Holds when `self` is the I/O-class error carrying `f`'s message.
    pub open spec fn reports(&self, f: IoFailure) -> bool {
        self matches ReadError::IoError(m) && m@ == f.spec_message()
    }

    /// Wraps a backend failure as an I/O-class read error.
    pub fn from_failure(f: IoFailure) -> (e: ReadError)
        ensures
            e.reports(f),
    {
        match f {
            IoFailure::NotFound(m) => ReadError::IoError(m),
            IoFailure::Conflict(m) => ReadError::IoError(m),
            IoFailure::Other(m) => ReadError::IoError(m),
        }
    }

    /// The error rendered for display.
    pub open spec fn spec_message(&self) -> Seq<char> {
        match self {
            ReadError::IoError(m) => m@,
            ReadError::DecodeError => "invalid text encoding"@,
            ReadError::NotAFile => "item is not a note"@,
            ReadError::MismatchedStorageBackend => "item belongs to another storage backend"@,
        }
    }

    pub fn message(&self) -> (r: String)
        ensures
            r@ == self.spec_message(),
    {
        match self {
            ReadError::IoError(m) => m.clone(),
            ReadError::DecodeError => "invalid text encoding".to_owned(),
            ReadError::NotAFile => "item is not a note".to_owned(),
            ReadError::MismatchedStorageBackend => {
                "item belongs to another storage backend".to_owned()
            },
        }
    }
}

/// Why a rename or content save failed.
///
/// A write conflict detected through the optimistic-concurrency token is an
/// I/O-class error like any other backend rejection.
#[derive(Debug)]
pub enum WriteError {
    IoError(String),
    NotAFile,
    MismatchedStorageBackend,
}

impl WriteError {
    /// Holds when `self` is the I/O-class error carrying `f`'s message.
    pub open spec fn reports(&self, f: IoFailure) -> bool {
        self matches WriteError::IoError(m) && m@ == f.spec_message()
    }

    /// Wraps a backend failure as an I/O-class write error.
    pub fn from_failure(f: IoFailure) -> (e: WriteError)
        ensures
            e.reports(f),
    {
        match f {
            IoFailure::NotFound(m) => WriteError::IoError(m),
            IoFailure::Conflict(m) => WriteError::IoError(m),
            IoFailure::Other(m) => WriteError::IoError(m),
        }
    }

    /// The error rendered for display.
    pub open spec fn spec_message(&self) -> Seq<char> {
        match self {
            WriteError::IoError(m) => m@,
            WriteError::NotAFile => "item is not a note"@,
            WriteError::MismatchedStorageBackend => "item belongs to another storage backend"@,
        }
    }

    pub fn message(&self) -> (r: String)
        ensures
            r@ == self.spec_message(),
    {
        match self {
            WriteError::IoError(m) => m.clone(),
            WriteError::NotAFile => "item is not a note".to_owned(),
            WriteError::MismatchedStorageBackend => {
                "item belongs to another storage backend".to_owned()
            },
        }
    }
}

/// Why a storage handle could not be built from a configured location.
#[derive(Debug)]
pub enum Error {
    DoesNotExist { uri: String },
    UnknownStorageBackend(String),
    IoError(String),
}

impl Error {
    /// The error rendered for display.
    pub open spec fn spec_message(&self) -> Seq<char> {
        match self {
            Error::DoesNotExist { uri } => "could not find "@ + uri@,
            Error::UnknownStorageBackend(uri) => "unknown storage backend "@ + uri@,
            Error::IoError(m) => m@,
        }
    }

    pub fn message(&self) -> (r: String)
        ensures
            r@ == self.spec_message(),
    {
        match self {
            Error::DoesNotExist { uri } => "could not find ".to_owned().concat(uri.as_str()),
            Error::UnknownStorageBackend(uri) => {
                "unknown storage backend ".to_owned().concat(uri.as_str())
            },
            Error::IoError(m) => m.clone(),
        }
    }
}

} // verus!
