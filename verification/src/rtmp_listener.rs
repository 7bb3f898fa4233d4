//! The state of the ingest listener: unbound, or bound to a port.
use vstd::prelude::*;

verus! {

/// The ingest listener as far as decisions depend on it: the port that it
/// is bound to, if any. The socket and the task that accepts publishers
/// belong to the caller, who reports here what became of them.
#[derive(Clone, Copy, Debug)]
pub struct RtmpListener {
    port: Option<u16>,
}

impl View for RtmpListener {
    type V = Option<u16>;

    closed spec fn view(&self) -> Option<u16> {
        self.port
    }
}

impl RtmpListener {
    /// An unbound listener.
    pub fn new() -> (listener: Self)
        ensures
            listener@.is_none(),
    {
        Self { port: None }
    }

    /// The port that the listener is bound to, if any.
    pub fn port(&self) -> (port: Option<u16>)
        ensures
            port == self@,
    {
        self.port
    }

    /// Unbinds the listener. Returns whether it was bound, that is, whether
    /// there is a task to abort.
    pub fn stop_listener(&mut self) -> (was_bound: bool)
        ensures
            was_bound == old(self)@.is_some(),
            final(self)@.is_none(),
    {
        let was_bound = self.port.is_some();
        self.port = None;
        was_bound
    }

    /// Records the attempt to bind an unbound listener to
    /// `rtmp_listen_port`: it is bound from now on where the socket was
    /// bound, and stays unbound where it was not. Returns whether it is
    /// bound.
    pub fn spawn_listener(&mut self, rtmp_listen_port: u16, bound: bool) -> (listening: bool)
        requires
            old(self)@.is_none(),
        ensures
            listening == bound,
            final(self)@ == (if bound {
                Some(rtmp_listen_port)
            } else {
                None
            }),
    {
        if bound {
            self.port = Some(rtmp_listen_port);
        }
        bound
    }
}

} // verus!
