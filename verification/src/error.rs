//! The ways in which an operation on the store can fail.

use vstd::prelude::*;
use vstd::std_specs::convert::FromSpecImpl;

verus! {

/// `std::io::Error`, carried through the store as it came from the platform.
#[verifier::external_type_specification]
#[verifier::external_body]
pub struct ExIoError(std::io::Error);

/// Text of [`Error::NotEnoughSpace`].
pub const NOT_ENOUGH_SPACE_ERROR: &'static str = "Not enough storage space";

/// Text of [`Error::ChunkNotFound`].
pub const CHUNK_NOT_FOUND_ERROR: &'static str = "Chunk not found";

/// Why an operation on the store failed.
#[derive(Debug)]
pub enum Error {
    /// The file system refused an action; the platform's error is kept as it is.
    Io(std::io::Error),
    /// Storing the chunk would push the used space past the quota.
    NotEnoughSpace,
    /// No chunk is stored under the name that was asked for.
    ChunkNotFound,
}

impl From<std::io::Error> for Error {
    fn from(error: std::io::Error) -> (converted: Error) {
        Error::Io(error)
    }
}

impl FromSpecImpl<std::io::Error> for Error {
    open spec fn obeys_from_spec() -> bool {
        true
    }

    open spec fn from_spec(error: std::io::Error) -> Error {
        Error::Io(error)
    }
}

/// `Display` of `std::io::Error`: the platform's message for the error. What it
/// says depends on the platform, so nothing is claimed of the text.
#[verifier::external_body]
fn io_error_message(error: &std::io::Error) -> (text: String) {
    format!("{}", error)
}

/// `std::error::Error::description` of `std::io::Error`: the short text that
/// std keeps for the error's kind or that its maker gave it. Nothing is claimed
/// of the text.
#[verifier::external_body]
#[allow(deprecated)]
fn io_error_description(error: &std::io::Error) -> (text: String) {
    std::error::Error::description(error).to_owned()
}

impl Error {
    /// The message of this error, as it is shown to a reader: the platform's
    /// message for an I/O failure, a fixed text for the two other failures.
    pub fn to_string(&self) -> (text: String)
        ensures
            self is NotEnoughSpace ==> text@ == NOT_ENOUGH_SPACE_ERROR@,
            self is ChunkNotFound ==> text@ == CHUNK_NOT_FOUND_ERROR@,
    {
        match self {
            Error::Io(error) => io_error_message(error),
            Error::NotEnoughSpace => NOT_ENOUGH_SPACE_ERROR.to_owned(),
            Error::ChunkNotFound => CHUNK_NOT_FOUND_ERROR.to_owned(),
        }
    }

    /// A short description of this error: the platform's for an I/O failure, a
    /// fixed text for the two other failures.
    pub fn description(&self) -> (text: String)
        ensures
            self is NotEnoughSpace ==> text@ == NOT_ENOUGH_SPACE_ERROR@,
            self is ChunkNotFound ==> text@ == CHUNK_NOT_FOUND_ERROR@,
    {
        match self {
            Error::Io(error) => io_error_description(error),
            Error::NotEnoughSpace => NOT_ENOUGH_SPACE_ERROR.to_owned(),
            Error::ChunkNotFound => CHUNK_NOT_FOUND_ERROR.to_owned(),
        }
    }

    /// The platform error behind this error, if it has one.
    pub fn cause(&self) -> (cause: Option<&std::io::Error>)
        ensures
            cause == match *self {
                Error::Io(error) => Some(&error),
                _ => None,
            },
    {
        match self {
            Error::Io(error) => Some(error),
            _ => None,
        }
    }
}

} // verus!
