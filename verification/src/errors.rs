//! The error kinds that the stores and the resolution protocol report.

use vstd::prelude::*;
use vstd::string::StringExecFns;

verus! {

/// Everything that can go wrong in the launcher's core.
///
/// - `IOError`: a backing file could not be created, read or written.
/// - `CorruptDataError`: a backing file was read but its content did not
///   decode as the expected shape.
/// - `SerializationError`: the in-memory state could not be encoded.
/// - `ResolutionError`: the external resolver failed or returned unusable
///   output.
/// - `SpawnError`: the external player could not be launched.
/// - `EmptyPlaylistError`: playback was requested of a playlist with no
///   items; fatal for playback only.
#[derive(Clone, Copy, Debug, PartialEq, Eq, Structural)]
pub enum PlayError {
    IOError,
    CorruptDataError,
    SerializationError,
    ResolutionError,
    SpawnError,
    EmptyPlaylistError,
}

impl PlayError {
    /// A human-readable description of the error kind.
    pub fn message(&self) -> (r: String)
        ensures
            *self == PlayError::IOError ==> r@ == "unable to read or write the backing file"@,
            *self == PlayError::CorruptDataError ==> r@
                == "the stored data is malformed; it might be corrupted"@,
            *self == PlayError::SerializationError ==> r@
                == "failed to encode the in-memory state for writing"@,
            *self == PlayError::ResolutionError ==> r@
                == "the external resolver did not return a usable address"@,
            *self == PlayError::SpawnError ==> r@ == "unable to launch the external player"@,
            *self == PlayError::EmptyPlaylistError ==> r@
                == "the playlist is empty; nothing to play"@,
    {
        match self {
            PlayError::IOError => String::from_str("unable to read or write the backing file"),
            PlayError::CorruptDataError => String::from_str(
                "the stored data is malformed; it might be corrupted",
            ),
            PlayError::SerializationError => String::from_str(
                "failed to encode the in-memory state for writing",
            ),
            PlayError::ResolutionError => String::from_str(
                "the external resolver did not return a usable address",
            ),
            PlayError::SpawnError => String::from_str("unable to launch the external player"),
            PlayError::EmptyPlaylistError => String::from_str("the playlist is empty; nothing to play"),
        }
    }
}

} // verus!
