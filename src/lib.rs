//! A single request-reply session between an application front end and a
//! backend process: the connection lifecycle, the request frame that each
//! call sends, the reading of the reply, and the errors that callers see.

mod envelope;
mod error;
mod reply;
mod session;

pub use envelope::{
    frame_request, json_quoted, reparsed_json, request_for, request_frame, request_text,
};
pub use error::BridgeError;
pub use reply::{echoed_frame_reads_back, finish_call, reply_text, Exchange};
pub use session::{
    connect_is_idempotent, connect_step_of, connect_transition, disconnect_is_idempotent,
    disconnect_transition, ConnectStep, OpenOutcome, Session, PEER_ENDPOINT,
};
