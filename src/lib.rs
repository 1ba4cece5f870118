//! The decisions of a small echo service, kept apart from its sockets: how TCP connections
//! are accepted, served and drained, how UDP datagrams are reflected, how shutdown signals
//! are answered, and what the echo clients send and show.
use vstd::prelude::*;

pub mod outcome;
pub mod text;
pub mod dispatcher;
pub mod connection;
pub mod reflector;
pub mod shutdown;
pub mod client;

verus! {

} // verus!
