//! Behaviour of the realtime connection manager: lifecycle, the send recovery
//! policy, receive classification, and the drain after a close.

use burn_central_client::errors::WebSocketError;
use burn_central_client::websocket::{
    drain_step, CloseOutcome, DrainVerdict, EncodeOutcome, FrameKind, HandshakeOutcome,
    ModeChangeOutcome, ReadFailureKind, ReadOutcome, SendDirective, SendEvent, TransmitOutcome,
    WebSocketClient, RECONNECT_DELAY_MS,
};

fn connected_manager(url: &str, cookie: &str) -> WebSocketClient {
    let mut c = WebSocketClient::new();
    let r = c.connect(
        url.to_string(),
        cookie.to_string(),
        HandshakeOutcome::Established,
    );
    assert!(r.is_ok());
    c
}

#[test]
fn new_manager_is_disconnected() {
    let c = WebSocketClient::new();
    assert!(!c.is_connected());
}

#[test]
fn connect_establishes_connection() {
    let c = connected_manager("ws://host/v1/ws", "tok");
    assert!(c.is_connected());
}

#[test]
fn connect_failure_keeps_prior_state() {
    let mut c = WebSocketClient::new();
    let r = c.connect(
        "ws://host/v1/ws".to_string(),
        "tok".to_string(),
        HandshakeOutcome::HandshakeFailed("refused".to_string()),
    );
    assert!(matches!(r, Err(WebSocketError::ConnectionError(m)) if m == "refused"));
    assert!(!c.is_connected());

    let mut c = connected_manager("ws://a/", "t1");
    let r = c.connect(
        "ws://b/".to_string(),
        "t2".to_string(),
        HandshakeOutcome::ModeChangeFailed("no non-blocking mode".to_string()),
    );
    assert!(matches!(r, Err(WebSocketError::ConnectionError(_))));
    // the earlier connection is still the one on record
    let target = c.reconnect().unwrap();
    assert_eq!(target.url, "ws://a/");
    assert_eq!(target.cookie, "t1");
}

#[test]
fn reconnect_without_prior_connection_is_rejected() {
    // never call connect; reconnect must fail with CannotReconnect
    let mut c = WebSocketClient::new();
    let r = c.reconnect();
    assert!(matches!(
        r,
        Err(WebSocketError::CannotReconnect(m))
            if m == "The websocket was never opened so it cannot be reconnected"
    ));
}

#[test]
fn reconnect_targets_the_connected_endpoint() {
    let mut c = connected_manager("wss://central/v1/ws", "tok-9");
    let target = c.reconnect().unwrap();
    assert_eq!(target.url, "wss://central/v1/ws");
    assert_eq!(target.cookie, "tok-9");
    // the record was taken: a second reconnect has nothing to target
    assert!(!c.is_connected());
    assert!(matches!(
        c.reconnect(),
        Err(WebSocketError::CannotReconnect(_))
    ));
    // and connect with the handed-back target restores the connection
    let r = c.connect(target.url, target.cookie, HandshakeOutcome::Established);
    assert!(r.is_ok());
    assert!(c.is_connected());
}

#[test]
fn send_on_disconnected_manager_is_rejected() {
    let c = WebSocketClient::new();
    let r = c.send(EncodeOutcome::Encoded("{}".to_string()));
    assert!(matches!(r, Err(WebSocketError::NotConnected)));
}

#[test]
fn send_rejects_unencodable_message() {
    let c = connected_manager("ws://h/", "t");
    let r = c.send(EncodeOutcome::EncodeFailed("not a json value".to_string()));
    assert!(matches!(
        r,
        Err(WebSocketError::SerializationError(m)) if m == "not a json value"
    ));
}

#[test]
fn send_succeeds_on_first_attempt() {
    let mut c = connected_manager("ws://h/", "t");
    let mut flow = c.send(EncodeOutcome::Encoded("payload".to_string())).unwrap();
    assert_eq!(flow.payload_text(), "payload");
    let d = c.send_step(&mut flow, SendEvent::Transmitted(TransmitOutcome::Sent));
    assert!(matches!(d, SendDirective::Return(Ok(()))));
    assert!(c.is_connected());
}

#[test]
fn send_retries_once_after_reconnect() {
    // the scenario: connect with token "tok-1"; send {"seq":1}; the peer
    // acknowledges. Kill the socket; send {"seq":2}: the manager directs the
    // fixed wait and a reconnect with "tok-1", then resends {"seq":2} and
    // succeeds once the new socket accepts it.
    let mut c = connected_manager("ws://mock/", "tok-1");

    let mut flow = c
        .send(EncodeOutcome::Encoded("{\"seq\":1}".to_string()))
        .unwrap();
    let d = c.send_step(&mut flow, SendEvent::Transmitted(TransmitOutcome::Sent));
    assert!(matches!(d, SendDirective::Return(Ok(()))));

    let mut flow = c
        .send(EncodeOutcome::Encoded("{\"seq\":2}".to_string()))
        .unwrap();
    let d = c.send_step(
        &mut flow,
        SendEvent::Transmitted(TransmitOutcome::TransmitFailed("socket died".to_string())),
    );
    match d {
        SendDirective::SleepThenReconnect { delay_ms, target } => {
            assert_eq!(delay_ms, RECONNECT_DELAY_MS);
            assert_eq!(delay_ms, 1000);
            assert_eq!(target.url, "ws://mock/");
            assert_eq!(target.cookie, "tok-1");
        }
        other => panic!("expected a reconnect directive, got {:?}", other),
    }
    assert!(!c.is_connected());

    let d = c.send_step(&mut flow, SendEvent::Reconnected(HandshakeOutcome::Established));
    assert!(matches!(d, SendDirective::Transmit));
    assert!(c.is_connected());
    assert_eq!(flow.payload_text(), "{\"seq\":2}");

    let d = c.send_step(&mut flow, SendEvent::Transmitted(TransmitOutcome::Sent));
    assert!(matches!(d, SendDirective::Return(Ok(()))));
}

#[test]
fn retry_failure_is_the_send_result() {
    let mut c = connected_manager("ws://h/", "t");
    let mut flow = c.send(EncodeOutcome::Encoded("m".to_string())).unwrap();
    let d = c.send_step(
        &mut flow,
        SendEvent::Transmitted(TransmitOutcome::TransmitFailed("first".to_string())),
    );
    assert!(matches!(d, SendDirective::SleepThenReconnect { .. }));
    let d = c.send_step(&mut flow, SendEvent::Reconnected(HandshakeOutcome::Established));
    assert!(matches!(d, SendDirective::Transmit));
    let d = c.send_step(
        &mut flow,
        SendEvent::Transmitted(TransmitOutcome::TransmitFailed("second".to_string())),
    );
    // the second attempt's outcome is final, and it is a send error carrying
    // the second failure, not the first
    assert!(matches!(
        d,
        SendDirective::Return(Err(WebSocketError::SendError(m))) if m == "second"
    ));
}

#[test]
fn reconnect_failure_ends_send_with_its_error() {
    let mut c = connected_manager("ws://h/", "t");
    let mut flow = c.send(EncodeOutcome::Encoded("m".to_string())).unwrap();
    let d = c.send_step(
        &mut flow,
        SendEvent::Transmitted(TransmitOutcome::TransmitFailed("broken pipe".to_string())),
    );
    assert!(matches!(d, SendDirective::SleepThenReconnect { .. }));
    let d = c.send_step(
        &mut flow,
        SendEvent::Reconnected(HandshakeOutcome::HandshakeFailed("refused".to_string())),
    );
    // the call returns the reconnect's error — a connection error, never a
    // send error — and the manager stays disconnected
    assert!(matches!(
        d,
        SendDirective::Return(Err(WebSocketError::ConnectionError(m))) if m == "refused"
    ));
    assert!(!c.is_connected());
}

#[test]
fn receive_on_disconnected_manager_is_rejected() {
    let c = WebSocketClient::new();
    let r = c.receive(ReadOutcome::Frame(FrameKind::Text("{}".to_string())));
    assert!(matches!(r, Err(WebSocketError::NotConnected)));
}

#[test]
fn receive_with_no_traffic_is_none() {
    // connect, then poll with no peer traffic: a would-block read is Ok(None)
    let c = connected_manager("ws://h/", "t");
    let r = c.receive(ReadOutcome::ReadFailed(
        ReadFailureKind::WouldBlock,
        "would block".to_string(),
    ));
    assert!(matches!(r, Ok(None)));
}

#[test]
fn receive_hands_out_text_payloads() {
    let c = connected_manager("ws://h/", "t");
    let r = c.receive(ReadOutcome::Frame(FrameKind::Text("{\"ok\":true}".to_string())));
    assert_eq!(r.unwrap(), Some("{\"ok\":true}".to_string()));
}

#[test]
fn receive_ignores_non_text_frames() {
    let c = connected_manager("ws://h/", "t");
    for frame in [
        FrameKind::Binary,
        FrameKind::Ping,
        FrameKind::Pong,
        FrameKind::Close,
        FrameKind::Other,
    ] {
        let r = c.receive(ReadOutcome::Frame(frame));
        assert!(matches!(r, Ok(None)));
    }
}

#[test]
fn receive_surfaces_other_failures() {
    let c = connected_manager("ws://h/", "t");
    let r = c.receive(ReadOutcome::ReadFailed(
        ReadFailureKind::Other,
        "reset by peer".to_string(),
    ));
    assert!(matches!(
        r,
        Err(WebSocketError::ReceiveError(m)) if m == "reset by peer"
    ));
    let r = c.receive(ReadOutcome::ReadFailed(
        ReadFailureKind::Closed,
        "connection closed".to_string(),
    ));
    assert!(matches!(r, Err(WebSocketError::ReceiveError(_))));
}

#[test]
fn close_requires_a_connection() {
    let c = WebSocketClient::new();
    assert!(matches!(
        c.close(CloseOutcome::Initiated),
        Err(WebSocketError::NotConnected)
    ));
    let c = connected_manager("ws://h/", "t");
    assert!(c.close(CloseOutcome::Initiated).is_ok());
    // the handle remains held: repeated closes are safe
    assert!(c.close(CloseOutcome::Initiated).is_ok());
    assert!(c.is_connected());
    assert!(matches!(
        c.close(CloseOutcome::CloseFailed("broken".to_string())),
        Err(WebSocketError::SendError(m)) if m == "broken"
    ));
}

#[test]
fn drain_completes_when_the_peer_finishes_closing() {
    let c = connected_manager("ws://h/", "t");
    assert!(c.begin_drain(ModeChangeOutcome::Changed).is_ok());
    // frames during the drain are discarded
    assert!(matches!(
        drain_step(ReadOutcome::Frame(FrameKind::Text("late".to_string()))),
        DrainVerdict::Continue
    ));
    assert!(matches!(
        drain_step(ReadOutcome::Frame(FrameKind::Ping)),
        DrainVerdict::Continue
    ));
    // a closed report completes the drain, now or already closed
    assert!(matches!(
        drain_step(ReadOutcome::ReadFailed(
            ReadFailureKind::Closed,
            "connection closed".to_string()
        )),
        DrainVerdict::Complete
    ));
}

#[test]
fn drain_surfaces_non_close_failures() {
    let c = connected_manager("ws://h/", "t");
    assert!(matches!(
        c.begin_drain(ModeChangeOutcome::ChangeFailed("cannot block".to_string())),
        Err(WebSocketError::ConnectionError(m)) if m == "cannot block"
    ));
    assert!(matches!(
        drain_step(ReadOutcome::ReadFailed(
            ReadFailureKind::Other,
            "reset".to_string()
        )),
        DrainVerdict::Failed(WebSocketError::SendError(m)) if m == "reset"
    ));
    let c = WebSocketClient::new();
    assert!(matches!(
        c.begin_drain(ModeChangeOutcome::Changed),
        Err(WebSocketError::NotConnected)
    ));
}
