//! The single, message-carrying error kind used throughout the library.

use vstd::prelude::*;

verus! {

/// The detail text reported when the control plane answers with a status
/// of the server-error band.
pub const CONTAINER_ERR: &'static str = "Container error. Non-recoverable state.";

/// An error that carries nothing but a human-readable message.
#[derive(Clone, Debug, PartialEq, Eq)]
pub struct Error {
    msg: String,
}

impl View for Error {
    type V = Seq<char>;

    closed spec fn view(&self) -> Seq<char> {
        self.msg@
    }
}

impl Error {
    /// Wraps `msg`.
    pub fn new(msg: String) -> (e: Self)
        ensures
            e@ == msg@,
    {
        Error { msg }
    }

    /// The wrapped message, borrowed.
    pub fn message(&self) -> (m: &str)
        ensures
            m@ == self@,
    {
        self.msg.as_str()
    }

    /// The wrapped message as an owned string.
    pub fn to_text(&self) -> (m: String)
        ensures
            m@ == self@,
    {
        self.msg.clone()
    }
}

} // verus!
