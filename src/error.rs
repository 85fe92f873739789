use vstd::prelude::*;

verus! {

/// Failures a session can report to its caller.
#[derive(Debug, Clone, Copy, PartialEq, Eq, Structural)]
pub enum SessionError {
    /// The transport or channel could not be set up.
    ConnectionError,
    /// The credential material could not be turned into a token.
    AuthenticationError,
    /// Reading or writing failed while the session was active; `code` is the
    /// transport's status code.
    StreamError { code: i32 },
    /// An endpoint was used after it had been taken or closed.
    ChannelClosedError,
}

} // verus!
