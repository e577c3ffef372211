//! The ways in which discovering or addressing a controller can fail.

use vstd::prelude::*;

verus! {

/// `std::io::Error`, carried through unread: nothing is known of a value of
/// this type beyond its identity.
#[verifier::external_type_specification]
#[verifier::external_body]
pub struct ExIoError(std::io::Error);

#[derive(Debug)]
pub enum Error {
    /// The UDP endpoint could not be opened, configured or written to.
    Io(std::io::Error),
    /// The listening window closed without a single accepted reply.
    NotFound,
    /// A datagram had the size of a reply but not its structure.
    ParseError { info: String },
}

impl Error {
    /// Whether this is a structural-parse failure whose detail reads `text`.
    pub open spec fn is_parse_error(self, text: Seq<char>) -> bool {
        self matches Error::ParseError { info } && info@ == text
    }

    /// The one-line description of each failure.
    pub open spec fn message(self) -> Seq<char> {
        match self {
            Error::Io(_) => "Socket error"@,
            Error::NotFound => "No controller found"@,
            Error::ParseError { .. } => "Failed parsing message"@,
        }
    }

    /// The one-line description of this failure, as it is shown to a user.
    pub fn to_string(&self) -> (s: String)
        ensures
            s@ == self.message(),
    {
        match self {
            Error::Io(_) => "Socket error".to_owned(),
            Error::NotFound => "No controller found".to_owned(),
            Error::ParseError { .. } => "Failed parsing message".to_owned(),
        }
    }
}

} // verus!
