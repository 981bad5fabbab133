//! The failures of the function storage.
use vstd::prelude::*;
use vstd::std_specs::convert::FromSpecImpl;

verus! {

/// `std::io::Error`, which this library carries and never looks into.
#[verifier::external_type_specification]
#[verifier::external_body]
pub struct ExIoError(std::io::Error);

/// A failure of the function storage.
#[derive(Debug)]
pub enum Error {
    /// The file system failed.
    IO(std::io::Error),
    /// The storage holds no function of this name.
    FileNotFound(String),
    /// The storage holds a function of this name already.
    FileConflict(String),
}

impl From<std::io::Error> for Error {
    fn from(error: std::io::Error) -> (res: Error) {
        Error::IO(error)
    }
}

impl FromSpecImpl<std::io::Error> for Error {
    open spec fn obeys_from_spec() -> bool {
        true
    }

    open spec fn from_spec(error: std::io::Error) -> Error {
        Error::IO(error)
    }
}

impl Error {
    /// The HTTP status that answers a request which met the failure: 404
    /// where the function is not there, 409 where it is there already, 500
    /// where the file system failed.
    pub fn status_code(&self) -> (res: u16)
        ensures
            res == match self {
                Error::IO(_) => 500u16,
                Error::FileNotFound(_) => 404u16,
                Error::FileConflict(_) => 409u16,
            },
    {
        match self {
            Error::IO(_) => 500,
            Error::FileNotFound(_) => 404,
            Error::FileConflict(_) => 409,
        }
    }
}

} // verus!
