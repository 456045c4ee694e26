use zmq_bridge::{
    finish_call, frame_request, request_text, BridgeError, ConnectStep, Exchange, OpenOutcome,
    Session, PEER_ENDPOINT,
};

fn reply(bytes: &[u8]) -> Exchange {
    Exchange::Replied(bytes.to_vec())
}

#[test]
fn connect_twice_opens_one_connection() {
    let mut s: Session<u32> = Session::new();
    assert_eq!(s.connect_step(), ConnectStep::Open);
    assert_eq!(s.complete_connect(OpenOutcome::Opened(1)), Ok(()));
    assert_eq!(s.connect_step(), ConnectStep::AlreadyConnected);
    assert_eq!(s.complete_connect(OpenOutcome::Opened(2)), Ok(()));
    assert_eq!(s.handle(), Some(&1));
    let (h, _) = s.prepare_call("ping", "{}").unwrap();
    assert_eq!(*h, 1);
}

#[test]
fn disconnect_when_never_connected() {
    let mut s: Session<u32> = Session::new();
    s.disconnect();
    assert!(!s.is_connected());
    s.disconnect();
    assert!(!s.is_connected());
    assert_eq!(s.connect_step(), ConnectStep::Open);
}

#[test]
fn echoed_request_comes_back_verbatim() {
    let mut s: Session<u32> = Session::new();
    s.complete_connect(OpenOutcome::Opened(9)).unwrap();
    let (_, frame) = s.prepare_call("sum", "[1, 2, 3]").unwrap();
    assert_eq!(frame, "{\"method\":\"sum\",\"params\":[1,2,3]}");
    let back = finish_call(reply(frame.as_bytes())).unwrap();
    assert_eq!(back, frame);
}

#[test]
fn malformed_params_are_sent_as_null() {
    let mut s: Session<u32> = Session::new();
    s.complete_connect(OpenOutcome::Opened(1)).unwrap();
    let (_, frame) = s.prepare_call("ping", "not valid json").unwrap();
    assert_eq!(frame, "{\"method\":\"ping\",\"params\":null}");
}

#[test]
fn empty_params_are_sent_as_null() {
    assert_eq!(request_text("ping", ""), "{\"method\":\"ping\",\"params\":null}");
}

#[test]
fn call_before_connect_is_not_connected() {
    let s: Session<u32> = Session::new();
    assert_eq!(s.prepare_call("ping", "{}").unwrap_err(), BridgeError::NotConnected);
    assert_eq!(s.handle(), None);
}

#[test]
fn connect_call_disconnect_scenario() {
    let mut s: Session<u32> = Session::new();
    assert_eq!(s.complete_connect(OpenOutcome::Opened(5)), Ok(()));
    let (h, frame) = s.prepare_call("echo", "{\"x\":1}").unwrap();
    assert_eq!(*h, 5);
    assert_eq!(frame, "{\"method\":\"echo\",\"params\":{\"x\":1}}");
    let answer = finish_call(reply(b"{\"ok\":true,\"x\":1}"));
    assert_eq!(answer, Ok("{\"ok\":true,\"x\":1}".to_string()));
    s.disconnect();
    let err = s.prepare_call("echo", "{\"x\":1}").unwrap_err();
    assert_eq!(err, BridgeError::NotConnected);
    assert_eq!(err.message(), "Not connected to server");
}

#[test]
fn method_name_is_escaped() {
    assert_eq!(
        request_text("say \"hi\"\n", "{ \"b\" : 2, \"a\" : 1 }"),
        "{\"method\":\"say \\\"hi\\\"\\n\",\"params\":{\"a\":1,\"b\":2}}"
    );
}

#[test]
fn params_are_rewritten_compactly() {
    assert_eq!(
        request_text("m", "  [ true , null ,\n \"s\" ] "),
        "{\"method\":\"m\",\"params\":[true,null,\"s\"]}"
    );
}

#[test]
fn frame_from_parts() {
    assert_eq!(
        frame_request("\"a\"", &Some("7".to_string())),
        "{\"method\":\"a\",\"params\":7}"
    );
    assert_eq!(frame_request("\"a\"", &None), "{\"method\":\"a\",\"params\":null}");
}

#[test]
fn failed_open_leaves_session_disconnected() {
    let mut s: Session<u32> = Session::new();
    assert_eq!(
        s.complete_connect(OpenOutcome::ContextFailed),
        Err(BridgeError::ContextCreation)
    );
    assert!(!s.is_connected());
    assert_eq!(
        s.complete_connect(OpenOutcome::SocketFailed("no memory".to_string())),
        Err(BridgeError::SocketCreation("no memory".to_string()))
    );
    assert!(!s.is_connected());
    assert_eq!(
        s.complete_connect(OpenOutcome::ConnectFailed("bad address".to_string())),
        Err(BridgeError::Connection("bad address".to_string()))
    );
    assert!(!s.is_connected());
    assert_eq!(s.complete_connect(OpenOutcome::Opened(3)), Ok(()));
    assert!(s.is_connected());
}

#[test]
fn exchange_failures_map_to_errors() {
    assert_eq!(
        finish_call(Exchange::SendFailed("busy".to_string())),
        Err(BridgeError::Send("busy".to_string()))
    );
    assert_eq!(
        finish_call(Exchange::ReceiveFailed("gone".to_string())),
        Err(BridgeError::Receive("gone".to_string()))
    );
}

#[test]
fn reply_that_is_not_utf8_is_a_decode_error() {
    assert_eq!(finish_call(reply(&[0x7b, 0xff, 0x7d])), Err(BridgeError::Decode));
    assert_eq!(finish_call(reply(&[0xc3])), Err(BridgeError::Decode));
}

#[test]
fn reply_text_is_decoded() {
    assert_eq!(finish_call(reply("h\u{e9}".as_bytes())), Ok("h\u{e9}".to_string()));
    assert_eq!(finish_call(reply(b"")), Ok(String::new()));
}

#[test]
fn error_messages() {
    assert_eq!(BridgeError::ContextCreation.message(), "Failed to create ZMQ context");
    assert_eq!(
        BridgeError::SocketCreation("e1".to_string()).message(),
        "Failed to create socket: e1"
    );
    assert_eq!(BridgeError::Connection("e2".to_string()).message(), "Failed to connect: e2");
    assert_eq!(BridgeError::Send("e3".to_string()).message(), "Failed to send request: e3");
    assert_eq!(
        BridgeError::Receive("e4".to_string()).message(),
        "Failed to receive response: e4"
    );
    assert_eq!(BridgeError::Decode.message(), "Invalid response data");
}

#[test]
fn peer_endpoint_is_local() {
    assert_eq!(PEER_ENDPOINT, "tcp://localhost:5555");
}
