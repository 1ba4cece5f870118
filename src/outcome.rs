//! How a serving loop ends, and the kinds of I/O failure that its decisions look at.
use vstd::prelude::*;

verus! {

/// How a loop or a connection handler finished.
#[derive(Clone, Copy, Debug, PartialEq, Eq, Structural)]
pub enum LoopExit {
    /// Finished normally: the peer closed, or shutdown was requested.
    Clean,
    /// Finished on an error that is reported to the caller.
    Failed,
}

/// The kinds of I/O failure that the serving and client loops tell apart.
#[derive(Clone, Copy, Debug, PartialEq, Eq, Structural)]
pub enum IoErrorKind {
    /// The operation would have blocked (a non-blocking socket, or a read timeout on some platforms).
    WouldBlock,
    /// The operation ran out of time.
    TimedOut,
    /// The address to bind is already taken.
    AddrInUse,
    /// The remote side refused the connection.
    ConnectionRefused,
    /// Any other failure.
    Other,
}

/// True for the failures that only mean "nothing arrived in time".
pub open spec fn is_timeout(kind: IoErrorKind) -> bool {
    kind == IoErrorKind::WouldBlock || kind == IoErrorKind::TimedOut
}

/// Tells whether `kind` only means that a bounded wait ran out.
pub fn is_timeout_kind(kind: IoErrorKind) -> (r: bool)
    ensures
        r == is_timeout(kind),
{
    match kind {
        IoErrorKind::WouldBlock | IoErrorKind::TimedOut => true,
        _ => false,
    }
}

} // verus!
