//! I/O errors, reduced to what the state machines read of them.

use vstd::prelude::*;

verus! {

/// `std::io::Error`, carried through unread.
#[verifier::external_type_specification]
#[verifier::external_body]
pub struct ExIoError(std::io::Error);

/// Winsock's "resource temporarily unavailable".
pub const WSAEWOULDBLOCK: i32 = 10035;

/// Winsock's "connection reset by peer".
pub const WSAECONNRESET: i32 = 10054;

/// The raw code of the error that [`would_block`] returns.
pub const WOULDBLOCK: i32 = WSAEWOULDBLOCK;

/// The kinds of I/O error that are told apart.
#[derive(Clone, Copy, Debug, PartialEq, Eq, Structural)]
pub enum ErrorKind {
    /// The operation needs to wait, and the port does not wait.
    WouldBlock,
    /// Anything else.
    Other,
}

/// An I/O error.
#[derive(Debug)]
pub struct IoError {
    /// Whether the operation would have blocked.
    pub kind: ErrorKind,
    /// The operating system's code, where the error came from there.
    pub raw_os_error: Option<i32>,
    /// What the port has to say about an error of its own making.
    pub message: Option<&'static str>,
    /// The error as it was first seen, for whoever it is returned to.
    pub source: Option<std::io::Error>,
}

impl IoError {
    /// Tells whether the operation would have blocked.
    pub fn is_would_block(&self) -> (res: bool)
        ensures
            res == (self.kind == ErrorKind::WouldBlock),
    {
        self.kind == ErrorKind::WouldBlock
    }

    /// Tells whether the other end is gone.
    pub fn is_connection_reset(&self) -> (res: bool)
        ensures
            res == (self.raw_os_error == Some(WSAECONNRESET)),
    {
        match self.raw_os_error {
            Some(code) => code == WSAECONNRESET,
            None => false,
        }
    }
}

/// The "would block" error with the operating system's own code.
pub fn would_block() -> (e: IoError)
    ensures
        e.kind == ErrorKind::WouldBlock,
        e.raw_os_error == Some(WOULDBLOCK),
        e.message is None,
        e.source is None,
{
    IoError {
        kind: ErrorKind::WouldBlock,
        raw_os_error: Some(WOULDBLOCK),
        message: None,
        source: None,
    }
}

/// The "would block" error that the port reports of itself, without a code.
pub open spec fn blocked() -> IoError {
    IoError {
        kind: ErrorKind::WouldBlock,
        raw_os_error: None,
        message: Some("operation would block"),
        source: None,
    }
}

/// The "operation would block" error that the port reports of itself.
pub fn wouldblock() -> (e: IoError)
    ensures
        e == blocked(),
{
    IoError {
        kind: ErrorKind::WouldBlock,
        raw_os_error: None,
        message: Some("operation would block"),
        source: None,
    }
}

/// The error that a port reports of itself says that the operation would block, in words and
/// not by a code of the operating system; and the codes that are told apart are Winsock's.
pub proof fn law_errors()
    ensures
        blocked().kind == ErrorKind::WouldBlock,
        blocked().raw_os_error is None,
        blocked().message == Some("operation would block"),
        blocked().source is None,
        WOULDBLOCK == 10035,
        WSAECONNRESET == 10054,
{
}

} // verus!
