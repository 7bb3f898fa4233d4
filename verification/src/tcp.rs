//! How often the engine's loopback endpoint is tried before a session is
//! given up.
use crate::failure::{Failure, Problem};
use vstd::prelude::*;

verus! {

/// The number of times a connection is attempted.
pub const CONNECT_ATTEMPTS: u32 = 5;

/// What to do about a connection that is not there yet.
#[derive(Debug)]
pub enum ConnectStep {
    /// Try to connect, at once.
    Attempt,
    /// Give the connection up with this failure.
    GiveUp(Failure),
}

/// What follows after `failed` attempts: another one right away while
/// there were fewer than five, and after five a fatal failure. The engine's
/// endpoint may not be ready the moment the channel is.
pub fn connect(failed: u32) -> (step: ConnectStep)
    ensures
        failed < CONNECT_ATTEMPTS ==> step is Attempt,
        failed >= CONNECT_ATTEMPTS ==> (step matches ConnectStep::GiveUp(failure) && failure@
            == Problem::Fatal("Connection error"@)),
{
    if failed < CONNECT_ATTEMPTS {
        ConnectStep::Attempt
    } else {
        ConnectStep::GiveUp(Failure::fatal("Connection error"))
    }
}

} // verus!
