use vstd::prelude::*;

verus! {

/// Every way in which an operation of the bridge can fail. The variants that
/// carry text hold the transport's own description of the failure.
#[derive(Debug, PartialEq, Eq)]
pub enum BridgeError {
    /// The transport environment could not be set up.
    ContextCreation,
    /// A request-reply socket could not be allocated.
    SocketCreation(String),
    /// The peer endpoint could not be reached.
    Connection(String),
    /// A call was made while no connection exists.
    NotConnected,
    /// The request frame could not be sent.
    Send(String),
    /// No reply frame could be received.
    Receive(String),
    /// The reply frame is not valid UTF-8 text.
    Decode,
}

impl BridgeError {
    /// The human-readable text shown to the caller for this error.
    pub open spec fn message_spec(&self) -> Seq<char> {
        match self {
            BridgeError::ContextCreation => "Failed to create ZMQ context"@,
            BridgeError::SocketCreation(d) => "Failed to create socket: "@ + d@,
            BridgeError::Connection(d) => "Failed to connect: "@ + d@,
            BridgeError::NotConnected => "Not connected to server"@,
            BridgeError::Send(d) => "Failed to send request: "@ + d@,
            BridgeError::Receive(d) => "Failed to receive response: "@ + d@,
            BridgeError::Decode => "Invalid response data"@,
        }
    }

    /// Renders the error as the text that the caller receives.
    pub fn message(&self) -> (r: String)
        ensures
            r@ == self.message_spec(),
    {
        match self {
            BridgeError::ContextCreation => "Failed to create ZMQ context".to_owned(),
            BridgeError::SocketCreation(d) => {
                let mut s = "Failed to create socket: ".to_owned();
                s.append(d.as_str());
                s
            },
            BridgeError::Connection(d) => {
                let mut s = "Failed to connect: ".to_owned();
                s.append(d.as_str());
                s
            },
            BridgeError::NotConnected => "Not connected to server".to_owned(),
            BridgeError::Send(d) => {
                let mut s = "Failed to send request: ".to_owned();
                s.append(d.as_str());
                s
            },
            BridgeError::Receive(d) => {
                let mut s = "Failed to receive response: ".to_owned();
                s.append(d.as_str());
                s
            },
            BridgeError::Decode => "Invalid response data".to_owned(),
        }
    }
}

} // verus!
