use vstd::prelude::*;
use crate::envelope::{request_for, request_text};
use crate::error::BridgeError;

verus! {

/// The peer endpoint that the session connects to.
pub const PEER_ENDPOINT: &'static str = "tcp://localhost:5555";

/// What a connect has to do next, given the state of the session.
#[derive(Debug, Clone, Copy, PartialEq, Eq)]
pub enum ConnectStep {
    /// A connection exists: connect succeeds without opening another.
    AlreadyConnected,
    /// No connection exists: a transport environment and a socket must be
    /// opened against the peer endpoint.
    Open,
}

/// What came of opening a connection: the connection itself, or the phase
/// that failed with the transport's description.
#[derive(Debug, PartialEq, Eq)]
pub enum OpenOutcome<H> {
    /// The connection was opened.
    Opened(H),
    /// The transport environment could not be set up.
    ContextFailed,
    /// The socket could not be allocated.
    SocketFailed(String),
    /// The socket could not connect to the peer endpoint.
    ConnectFailed(String),
}

/// The connect step for a session whose connection is `link`.
pub open spec fn connect_step_of<H>(link: Option<H>) -> ConnectStep {
    match link {
        Some(_) => ConnectStep::AlreadyConnected,
        None => ConnectStep::Open,
    }
}

/// The connection after a connect and its result, from the connection
/// before and what came of opening one. An existing connection is kept, and
/// a failed open leaves the session disconnected.
pub open spec fn connect_transition<H>(link: Option<H>, opened: OpenOutcome<H>) -> (
    Option<H>,
    Result<(), BridgeError>,
) {
    match link {
        Some(h) => (Some(h), Ok(())),
        None => match opened {
            OpenOutcome::Opened(h) => (Some(h), Ok(())),
            OpenOutcome::ContextFailed => (None, Err(BridgeError::ContextCreation)),
            OpenOutcome::SocketFailed(d) => (None, Err(BridgeError::SocketCreation(d))),
            OpenOutcome::ConnectFailed(d) => (None, Err(BridgeError::Connection(d))),
        },
    }
}

/// The connection after a disconnect: there is none, whatever there was.
pub open spec fn disconnect_transition<H>(_link: Option<H>) -> Option<H> {
    None
}

/// The session: either disconnected, or connected through one handle `H`
/// that holds both the transport environment and the socket, so that a
/// socket never exists without its environment.
pub struct Session<H> {
    link: Option<H>,
}

impl<H> View for Session<H> {
    type V = Option<H>;

    closed spec fn view(&self) -> Option<H> {
        self.link
    }
}

impl<H> Session<H> {
    /// A session that is not connected.
    pub fn new() -> (s: Self)
        ensures
            s@ is None,
    {
        Session { link: None }
    }

    /// Whether a connection exists.
    pub fn is_connected(&self) -> (r: bool)
        ensures
            r == self@ is Some,
    {
        self.link.is_some()
    }

    /// The connection, where one exists.
    pub fn handle(&self) -> (r: Option<&H>)
        ensures
            match self@ {
                Some(h) => r matches Some(x) && *x == h,
                None => r is None,
            },
    {
        match &self.link {
            Some(h) => Some(h),
            None => None,
        }
    }

    /// Tells a connect whether it must open a connection. Where one exists,
    /// connect is a no-op that succeeds.
    pub fn connect_step(&self) -> (r: ConnectStep)
        ensures
            r == connect_step_of(self@),
    {
        match &self.link {
            Some(_) => ConnectStep::AlreadyConnected,
            None => ConnectStep::Open,
        }
    }

    /// Completes a connect with what came of opening a connection. A new
    /// connection is stored only where none exists; on a failure nothing
    /// changes and the error of the failed phase is returned.
    pub fn complete_connect(&mut self, opened: OpenOutcome<H>) -> (r: Result<(), BridgeError>)
        ensures
            (final(self)@, r) == connect_transition(old(self)@, opened),
    {
        if self.link.is_some() {
            return Ok(());
        }
        match opened {
            OpenOutcome::Opened(h) => {
                self.link = Some(h);
                Ok(())
            },
            OpenOutcome::ContextFailed => Err(BridgeError::ContextCreation),
            OpenOutcome::SocketFailed(d) => Err(BridgeError::SocketCreation(d)),
            OpenOutcome::ConnectFailed(d) => Err(BridgeError::Connection(d)),
        }
    }

    /// Starts a call of `method` with the parameter text `params`: hands back
    /// the connection to send on and the request frame to send, or fails with
    /// `NotConnected`, before any transport work, where no connection exists.
    pub fn prepare_call(&self, method: &str, params: &str) -> (r: Result<(&H, String), BridgeError>)
        ensures
            match self@ {
                Some(h) => r matches Ok((x, frame)) && *x == h && frame@ == request_for(
                    method@,
                    params@,
                ),
                None => r == Err::<(&H, String), BridgeError>(BridgeError::NotConnected),
            },
    {
        match &self.link {
            Some(h) => Ok((h, request_text(method, params))),
            None => Err(BridgeError::NotConnected),
        }
    }

    /// Drops the connection, if any. This always succeeds, also where the
    /// session was never connected.
    pub fn disconnect(&mut self)
        ensures
            final(self)@ == disconnect_transition(old(self)@),
    {
        self.link = None;
    }
}

/// Connecting twice with no disconnect in between: a disconnected session
/// opens a connection on the first connect; once that has succeeded, the
/// second connect finds it, opens none, succeeds and keeps it, whatever an
/// open would have given.
pub proof fn connect_is_idempotent<H>(link: Option<H>, first: OpenOutcome<H>, second: OpenOutcome<H>)
    requires
        connect_transition(link, first).1 is Ok,
    ensures
        link is None ==> connect_step_of(link) == ConnectStep::Open,
        connect_transition(link, first).0 is Some,
        connect_step_of(connect_transition(link, first).0) == ConnectStep::AlreadyConnected,
        connect_transition(connect_transition(link, first).0, second) == (
            connect_transition(link, first).0,
            Ok::<(), BridgeError>(()),
        ),
{
}

/// Disconnecting leaves the session disconnected, also where it never was
/// connected, and disconnecting again changes nothing.
pub proof fn disconnect_is_idempotent<H>(link: Option<H>)
    ensures
        disconnect_transition(link) is None,
        disconnect_transition(disconnect_transition(link)) == disconnect_transition(link),
{
}

} // verus!
