//! What can go wrong, as the callers of the catalog see it.

use vstd::prelude::*;

verus! {

/// The failures of the catalog's operations.
#[derive(Debug, PartialEq, Eq)]
pub enum MusicError {
    /// A file could not be opened, read, written, copied or deleted.
    Io(String),
    /// A tag reader could not make sense of the file.
    Extraction(String),
    /// No source gave the playing time.
    DurationUnavailable,
    /// The catalog holds no track with this id.
    NotFound(String),
    /// The catalog could not be written as JSON.
    Serialization(String),
}

impl MusicError {
    /// The message of this error as text.
    pub open spec fn message_text(self) -> Seq<char> {
        match self {
            MusicError::Io(m) => m@,
            MusicError::Extraction(m) => m@,
            MusicError::DurationUnavailable => "Could not determine duration"@,
            MusicError::NotFound(id) => "Track with id "@ + id@ + " not found"@,
            MusicError::Serialization(m) => m@,
        }
    }

    /// The message of this error, for a caller that shows it to a person.
    pub fn message(&self) -> (r: String)
        ensures
            r@ == self.message_text(),
    {
        match self {
            MusicError::Io(m) => m.clone(),
            MusicError::Extraction(m) => m.clone(),
            MusicError::DurationUnavailable => String::from_str("Could not determine duration"),
            MusicError::NotFound(id) => String::from_str("Track with id ").concat(
                id.as_str(),
            ).concat(" not found"),
            MusicError::Serialization(m) => m.clone(),
        }
    }
}

} // verus!
