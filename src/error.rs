//! The failures that the library tells apart.
use vstd::prelude::*;
use vstd::string::StringExecFns;

verus! {

/// Why a request could not be served. Each variant keeps its cause; only
/// [`AuthError::message`] flattens it to text for the front end.
#[derive(Debug, Clone, PartialEq, Eq)]
pub enum AuthError {
    /// Deriving a hash failed; holds the hashing library's description.
    Hashing(String),
    /// A stored hash is not a well-formed encoded hash; holds the parser's description.
    HashParse(String),
    /// The shared session slot could not be locked because an earlier holder panicked.
    LockAcquisition,
}

pub open spec fn message_of(e: AuthError) -> Seq<char> {
    match e {
        AuthError::Hashing(d) => "Failed to hash password: "@ + d@,
        AuthError::HashParse(d) => "Failed to parse hash: "@ + d@,
        AuthError::LockAcquisition => "Failed to lock the session state"@,
    }
}

impl AuthError {
    /// The error as one line of text.
    pub fn message(&self) -> (r: String)
        ensures
            r@ == message_of(*self),
    {
        match self {
            AuthError::Hashing(d) => String::from_str("Failed to hash password: ").concat(d.as_str()),
            AuthError::HashParse(d) => String::from_str("Failed to parse hash: ").concat(d.as_str()),
            AuthError::LockAcquisition => String::from_str("Failed to lock the session state"),
        }
    }
}

} // verus!
