//! How the server answers the process signals it listens for.
use vstd::prelude::*;

verus! {

/// The process signals the server listens for.
#[derive(Clone, Copy, Debug, PartialEq, Eq, Structural)]
pub enum ProcessSignal {
    /// A request to terminate (SIGTERM).
    Terminate,
    /// An interrupt from the terminal (SIGINT).
    Interrupt,
    /// The controlling terminal hung up (SIGHUP).
    Hangup,
}

/// What the server does on a signal.
#[derive(Clone, Copy, Debug, PartialEq, Eq, Structural)]
pub enum SignalResponse {
    /// Signal cancellation to every loop and stop listening for signals.
    Shutdown,
    /// Carry on listening.
    Ignore,
}

/// Terminate and interrupt shut the server down; a hangup is ignored.
pub open spec fn signal_response(s: ProcessSignal) -> SignalResponse {
    if s == ProcessSignal::Hangup {
        SignalResponse::Ignore
    } else {
        SignalResponse::Shutdown
    }
}

/// Says what the server does when it receives `s`.
pub fn respond_to_signal(s: ProcessSignal) -> (r: SignalResponse)
    ensures
        r == signal_response(s),
{
    match s {
        ProcessSignal::Terminate | ProcessSignal::Interrupt => SignalResponse::Shutdown,
        ProcessSignal::Hangup => SignalResponse::Ignore,
    }
}

} // verus!
