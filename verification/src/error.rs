//! The error taxonomy of the library: transport failures and parse failures.

use vstd::prelude::*;

verus! {

/// The errors that this library can return.
///
/// Reading a document can fail at the transport level (the bytes could not be
/// obtained at all) or at the parse level (the bytes are not valid JSON, or
/// the JSON does not have the shape the manifest schema asks for). The two
/// kinds are never mixed: a decode entry point reports exactly which stage
/// failed.
#[derive(Clone, Copy, Debug, PartialEq, Eq, Structural)]
pub enum Error {
    /// An error that happened during IO operations.
    Io,
    /// An error that happened during the parsing stage.
    Parse,
}

impl Error {
    /// A short human-readable description of the error kind.
    pub fn message(&self) -> (m: &'static str)
        ensures
            *self == Error::Io ==> m@ == "io error"@,
            *self == Error::Parse ==> m@ == "failed to parse package.json file"@,
    {
        match self {
            Error::Io => "io error",
            Error::Parse => "failed to parse package.json file",
        }
    }
}

} // verus!
