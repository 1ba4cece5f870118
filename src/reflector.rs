//! Decisions of the UDP reflector: each datagram is sent back to where it came from, read
//! as UTF-8 text and ending in a newline, until shutdown is requested.
use vstd::prelude::*;
use vstd::utf8::{encode_utf8, valid_utf8};
use crate::outcome::LoopExit;
use crate::text::{
    decode_lossy, ends_with_newline, lossy_bytes, terminate_line, terminated, text_bytes, NEWLINE,
};

verus! {

/// The most bytes read from one datagram. Source addresses of UDP are easily forged, so
/// the size of what is reflected is bounded.
pub const MAX_PACKET_SZ: usize = 2048;

/// The reply to a datagram holding `datagram`: its lossy UTF-8 reading, ending in a newline.
pub open spec fn reflection(datagram: Seq<u8>) -> Seq<u8> {
    terminated(lossy_bytes(datagram))
}

/// The reply for a datagram whose UTF-8 reading is `text`: the text, ending in a newline.
pub fn reply_for_text(text: &str) -> (r: Vec<u8>)
    ensures
        r@ == terminated(encode_utf8(text@)),
{
    let mut out = text_bytes(text);
    terminate_line(&mut out);
    out
}

/// The reply to a datagram holding `datagram`. A payload that is valid UTF-8 comes back
/// unchanged when it ends in a newline, and with a newline appended otherwise.
pub fn reflect(datagram: &[u8]) -> (r: Vec<u8>)
    ensures
        r@ == reflection(datagram@),
        valid_utf8(datagram@) ==> r@ == terminated(datagram@),
        valid_utf8(datagram@) && ends_with_newline(datagram@) ==> r@ == datagram@,
        valid_utf8(datagram@) && !ends_with_newline(datagram@) ==> r@ == datagram@.push(
            NEWLINE,
        ),
{
    let text = decode_lossy(datagram);
    proof {
        if valid_utf8(datagram@) {
            vstd::utf8::decode_utf8_encode_utf8(datagram@);
        }
    }
    reply_for_text(text.as_str())
}

/// Where the reflector stands.
#[derive(Clone, Copy, Debug, PartialEq, Eq, Structural)]
pub enum UdpPhase {
    /// Waiting for datagrams.
    Receiving,
    /// The loop is over.
    Closed(LoopExit),
}

/// What the reflector observed: the outcome of its race between cancellation and a
/// receive, or of sending a reply. `A` is the type of a peer address.
#[derive(Debug)]
pub enum UdpEvent<A> {
    /// The cancellation signal won the race.
    Cancelled,
    /// A datagram holding `data` arrived from `from`.
    Datagram { data: Vec<u8>, from: A },
    /// Receiving failed; `shutting_down` tells whether cancellation had been signalled by then.
    ReceiveFailed { shutting_down: bool },
    /// Sending a reply failed; `shutting_down` tells whether cancellation had been signalled
    /// by then.
    SendFailed { shutting_down: bool },
}

/// What the reflector must do next.
#[derive(Debug)]
pub enum UdpAction<A> {
    /// Send `payload` to `to`, then receive again.
    Reply { payload: Vec<u8>, to: A },
    /// Leave the loop with this result.
    Finish(LoopExit),
}

/// How a loop ends on an I/O failure: cleanly where it comes from shutdown, as a failure
/// otherwise.
pub open spec fn exit_on_failure(shutting_down: bool) -> LoopExit {
    if shutting_down {
        LoopExit::Clean
    } else {
        LoopExit::Failed
    }
}

/// The state of one UDP reflector loop.
pub struct Reflector {
    phase: UdpPhase,
}

impl Reflector {
    /// The phase the loop is in.
    pub closed spec fn spec_phase(&self) -> UdpPhase {
        self.phase
    }

    /// A reflector whose socket is bound and which waits for datagrams.
    pub fn new() -> (r: Reflector)
        ensures
            r.spec_phase() == UdpPhase::Receiving,
    {
        Reflector { phase: UdpPhase::Receiving }
    }

    /// The phase the loop is in.
    pub fn phase(&self) -> (r: UdpPhase)
        ensures
            r == self.spec_phase(),
    {
        self.phase
    }

    /// Takes in what the loop observed and says what it must do next. A closed reflector
    /// stays closed and repeats its result. Otherwise cancellation ends the loop cleanly, a
    /// datagram is answered with its reflection sent to the address it came from, and an
    /// I/O failure ends the loop, cleanly only when shutdown caused it.
    pub fn on_event<A>(&mut self, e: UdpEvent<A>) -> (a: UdpAction<A>)
        ensures
            old(self).spec_phase() matches UdpPhase::Closed(x) ==> final(self).spec_phase()
                == old(self).spec_phase() && a == UdpAction::<A>::Finish(x),
            old(self).spec_phase() == UdpPhase::Receiving ==> match e {
                UdpEvent::Cancelled => final(self).spec_phase() == UdpPhase::Closed(LoopExit::Clean)
                    && a == UdpAction::<A>::Finish(LoopExit::Clean),
                UdpEvent::Datagram { data, from } => {
                    &&& final(self).spec_phase() == UdpPhase::Receiving
                    &&& a matches UdpAction::Reply { payload, to }
                    &&& to == from
                    &&& payload@ == reflection(data@)
                    &&& valid_utf8(data@) ==> payload@ == terminated(data@)
                },
                UdpEvent::ReceiveFailed { shutting_down } => final(self).spec_phase()
                    == UdpPhase::Closed(exit_on_failure(shutting_down)) && a == UdpAction::<
                    A,
                >::Finish(exit_on_failure(shutting_down)),
                UdpEvent::SendFailed { shutting_down } => final(self).spec_phase()
                    == UdpPhase::Closed(exit_on_failure(shutting_down)) && a == UdpAction::<
                    A,
                >::Finish(exit_on_failure(shutting_down)),
            },
    {
        match self.phase {
            UdpPhase::Closed(x) => UdpAction::Finish(x),
            UdpPhase::Receiving => match e {
                UdpEvent::Cancelled => {
                    self.phase = UdpPhase::Closed(LoopExit::Clean);
                    UdpAction::Finish(LoopExit::Clean)
                },
                UdpEvent::Datagram { data, from } => {
                    let payload = reflect(data.as_slice());
                    UdpAction::Reply { payload, to: from }
                },
                UdpEvent::ReceiveFailed { shutting_down }
                | UdpEvent::SendFailed { shutting_down } => {
                    let exit = if shutting_down {
                        LoopExit::Clean
                    } else {
                        LoopExit::Failed
                    };
                    self.phase = UdpPhase::Closed(exit);
                    UdpAction::Finish(exit)
                },
            },
        }
    }
}

} // verus!
