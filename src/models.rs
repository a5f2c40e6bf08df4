//! Exchange types of the service API.

use vstd::prelude::*;
use vstd::utf8::encode_utf8;

verus! {

/// Errors of the service API.
#[derive(Clone, Copy, Debug, PartialEq, Eq, Structural)]
pub enum QaulError {
    /// Not authorised to perform this action
    NotAuthorised,
    /// The desired user was not known
    UnknownUser,
    /// Invalid search query
    InvalidQuery,
    /// Invalid payload (probably too big)
    InvalidPayload,
    /// A function callback timed out
    CallbackTimeout,
}

/// Which phase of a file's lifecycle a query looks for.
#[derive(Clone, Copy, Debug, PartialEq, Eq, Structural)]
pub enum FileFilter {
    Local,
    Available,
    InProgress,
}

/// Length of a session token, in bytes.
pub const TOKEN_LEN: usize = 64;

/// A security token that authenticates a session.
#[derive(Clone, PartialEq, Eq)]
pub struct Token {
    secret: String,
}

impl Token {
    /// The token's text.
    pub closed spec fn view(&self) -> Seq<char> {
        self.secret@
    }

    /// A token made of `s`; only a string of `TOKEN_LEN` bytes is one.
    pub fn new(s: String) -> (r: Option<Token>)
        ensures
            r is Some <==> encode_utf8(s@).len() as usize == TOKEN_LEN,
            r matches Some(t) ==> t@ == s@,
    {
        if s.as_str().len() == TOKEN_LEN {
            Some(Token { secret: s })
        } else {
            None
        }
    }

    /// The token's text.
    pub fn as_str(&self) -> (r: &str)
        ensures
            r@ == self@,
    {
        self.secret.as_str()
    }
}

} // verus!
