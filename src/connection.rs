//! Decisions of the handler that serves one TCP connection: read what the peer sends, hand
//! the same bytes back, and stop when the peer closes, on an error, or on shutdown.
use vstd::prelude::*;
use crate::outcome::{is_timeout, is_timeout_kind, IoErrorKind, LoopExit};

verus! {

/// How long one read waits for data before the handler checks for shutdown again, in
/// milliseconds. This bounds how long an idle connection delays shutdown.
pub const READ_TIMEOUT_MS: u64 = 1000;

/// The most bytes taken in by one read.
pub const READ_BUFFER_SZ: usize = 4096;

/// Where a connection handler stands.
#[derive(Clone, Copy, Debug, PartialEq, Eq, Structural)]
pub enum ConnPhase {
    /// Serving the peer.
    Open,
    /// The handler is over.
    Closed(LoopExit),
}

/// What the handler must do next.
#[derive(Debug)]
pub enum ConnAction {
    /// Read from the peer, waiting at most the read timeout.
    Read,
    /// Check for shutdown again, then read.
    Continue,
    /// Write these bytes back to the peer and flush.
    Write(Vec<u8>),
    /// Close the connection and leave with this result.
    Close(LoopExit),
}

/// The state of the handler of one connection, with the history of the bytes it took in
/// and of those it handed back.
pub struct EchoSession {
    phase: ConnPhase,
    received: Ghost<Seq<u8>>,
    echoed: Ghost<Seq<u8>>,
}

impl EchoSession {
    /// The phase the handler is in.
    pub closed spec fn spec_phase(&self) -> ConnPhase {
        self.phase
    }

    /// Every byte read from the peer so far, in order.
    pub closed spec fn received(&self) -> Seq<u8> {
        self.received@
    }

    /// Every byte handed back for writing so far, in order.
    pub closed spec fn echoed(&self) -> Seq<u8> {
        self.echoed@
    }

    #[verifier::type_invariant]
    spec fn echoes_what_it_receives(&self) -> bool {
        self.echoed@ == self.received@
    }

    /// The handler of a connection that has just been accepted.
    pub fn new() -> (r: EchoSession)
        ensures
            r.spec_phase() == ConnPhase::Open,
            r.received() == Seq::<u8>::empty(),
            r.echoed() == Seq::<u8>::empty(),
    {
        EchoSession { phase: ConnPhase::Open, received: Ghost(Seq::empty()), echoed: Ghost(Seq::empty()) }
    }

    /// The phase the handler is in.
    pub fn phase(&self) -> (r: ConnPhase)
        ensures
            r == self.spec_phase(),
    {
        self.phase
    }

    /// Called before each read with whether cancellation has been signalled: a cancelled
    /// handler closes cleanly, an open one reads.
    pub fn before_read(&mut self, cancelled: bool) -> (a: ConnAction)
        ensures
            final(self).received() == old(self).received(),
            final(self).echoed() == final(self).received(),
            old(self).spec_phase() matches ConnPhase::Closed(x) ==> final(self).spec_phase()
                == old(self).spec_phase() && a == ConnAction::Close(x),
            old(self).spec_phase() == ConnPhase::Open && cancelled ==> final(self).spec_phase()
                == ConnPhase::Closed(LoopExit::Clean) && a == ConnAction::Close(LoopExit::Clean),
            old(self).spec_phase() == ConnPhase::Open && !cancelled ==> final(self).spec_phase()
                == ConnPhase::Open && a == ConnAction::Read,
    {
        proof {
            use_type_invariant(&*self);
        }
        match self.phase {
            ConnPhase::Closed(x) => ConnAction::Close(x),
            ConnPhase::Open => if cancelled {
                self.phase = ConnPhase::Closed(LoopExit::Clean);
                ConnAction::Close(LoopExit::Clean)
            } else {
                ConnAction::Read
            },
        }
    }

    /// Takes in the outcome of a read. Bytes read are handed back unchanged; zero bytes
    /// mean that the peer closed, and the handler closes cleanly; a read that only timed
    /// out leads back to the check for shutdown; any other failure closes the handler with
    /// a failure.
    pub fn after_read(&mut self, outcome: Result<Vec<u8>, IoErrorKind>) -> (a: ConnAction)
        ensures
            final(self).echoed() == final(self).received(),
            old(self).spec_phase() matches ConnPhase::Closed(x) ==> final(self).spec_phase()
                == old(self).spec_phase() && final(self).received() == old(self).received()
                && a == ConnAction::Close(x),
            old(self).spec_phase() == ConnPhase::Open ==> match outcome {
                Ok(data) => if data@.len() == 0 {
                    &&& final(self).spec_phase() == ConnPhase::Closed(LoopExit::Clean)
                    &&& final(self).received() == old(self).received()
                    &&& a == ConnAction::Close(LoopExit::Clean)
                } else {
                    &&& final(self).spec_phase() == ConnPhase::Open
                    &&& final(self).received() == old(self).received() + data@
                    &&& a matches ConnAction::Write(out)
                    &&& out@ == data@
                },
                Err(kind) => {
                    &&& final(self).received() == old(self).received()
                    &&& is_timeout(kind) ==> final(self).spec_phase() == ConnPhase::Open && a
                        == ConnAction::Continue
                    &&& !is_timeout(kind) ==> final(self).spec_phase() == ConnPhase::Closed(
                        LoopExit::Failed,
                    ) && a == ConnAction::Close(LoopExit::Failed)
                },
            },
    {
        proof {
            use_type_invariant(&*self);
        }
        match self.phase {
            ConnPhase::Closed(x) => ConnAction::Close(x),
            ConnPhase::Open => match outcome {
                Ok(data) => if data.len() == 0 {
                    self.phase = ConnPhase::Closed(LoopExit::Clean);
                    ConnAction::Close(LoopExit::Clean)
                } else {
                    let ghost stream = self.received@ + data@;
                    *self = EchoSession {
                        phase: ConnPhase::Open,
                        received: Ghost(stream),
                        echoed: Ghost(stream),
                    };
                    ConnAction::Write(data)
                },
                Err(kind) => if is_timeout_kind(kind) {
                    ConnAction::Continue
                } else {
                    self.phase = ConnPhase::Closed(LoopExit::Failed);
                    ConnAction::Close(LoopExit::Failed)
                },
            },
        }
    }

    /// Takes in whether writing back and flushing succeeded: the handler goes on after a
    /// success and closes with a failure otherwise.
    pub fn after_write(&mut self, written: bool) -> (a: ConnAction)
        ensures
            final(self).received() == old(self).received(),
            final(self).echoed() == final(self).received(),
            old(self).spec_phase() matches ConnPhase::Closed(x) ==> final(self).spec_phase()
                == old(self).spec_phase() && a == ConnAction::Close(x),
            old(self).spec_phase() == ConnPhase::Open && written ==> final(self).spec_phase()
                == ConnPhase::Open && a == ConnAction::Continue,
            old(self).spec_phase() == ConnPhase::Open && !written ==> final(self).spec_phase()
                == ConnPhase::Closed(LoopExit::Failed) && a == ConnAction::Close(LoopExit::Failed),
    {
        proof {
            use_type_invariant(&*self);
        }
        match self.phase {
            ConnPhase::Closed(x) => ConnAction::Close(x),
            ConnPhase::Open => if written {
                ConnAction::Continue
            } else {
                self.phase = ConnPhase::Closed(LoopExit::Failed);
                ConnAction::Close(LoopExit::Failed)
            },
        }
    }
}

} // verus!
