use binance::async_websocket_client::{
    connect_target, on_frame, on_handled, on_read, on_reply_sent, on_top, AsyncWebsocketClient,
    Frame, Phase, Step,
};
use binance::errors::{ClientError, CloseReason};
use binance::websockets::{Spot, WebsocketEvent};

#[test]
fn ping_is_answered_with_the_same_payload() {
    let step = on_frame::<Spot>(Frame::Ping(vec![1, 2, 3]));
    assert_eq!(step.phase(), Phase::Reading);
    match step {
        Step::Reply(payload) => assert_eq!(payload, vec![1, 2, 3]),
        other => panic!("expected a pong, got {:?}", other),
    }
}

#[test]
fn close_frame_fails_the_loop_and_keeps_the_connection() {
    let mut client: AsyncWebsocketClient<u32> = AsyncWebsocketClient::new();
    client.connect(7);
    let reason = CloseReason {
        code: 1000,
        reason: "bye".to_string(),
    };
    let step = on_frame::<Spot>(Frame::Close(Some(reason)));
    assert_eq!(step.phase(), Phase::Failed);
    match step {
        Step::Finish(Err(ClientError::RemoteClosed(Some(r)))) => {
            assert_eq!(r.code, 1000);
            assert_eq!(r.reason, "bye");
        }
        other => panic!("expected a remote close, got {:?}", other),
    }
    assert!(client.is_connected());
    assert!(matches!(client.disconnect(), Ok(7)));
}

#[test]
fn clear_run_signal_stops_before_reading() {
    for connected in [false, true] {
        let step = on_top::<WebsocketEvent>(false, connected);
        assert_eq!(step.phase(), Phase::Stopped);
        assert!(matches!(step, Step::Finish(Ok(()))));
    }
}

#[test]
fn without_connection_the_loop_waits() {
    let step = on_top::<WebsocketEvent>(true, false);
    assert_eq!(step.phase(), Phase::Idle);
    assert!(matches!(step, Step::Wait));
    assert!(matches!(on_top::<WebsocketEvent>(true, true), Step::Read));
}

#[test]
fn disconnect_without_connect_is_not_connected() {
    let mut client: AsyncWebsocketClient<u32> = AsyncWebsocketClient::new();
    assert!(!client.is_connected());
    assert!(matches!(client.disconnect(), Err(ClientError::NotConnected)));
    assert!(!client.is_connected());
}

#[test]
fn connect_replaces_and_hands_back_the_prior_connection() {
    let mut client: AsyncWebsocketClient<u32> = AsyncWebsocketClient::new();
    assert_eq!(client.connect(1), None);
    assert_eq!(client.connect(2), Some(1));
    if let Some(c) = client.connection_mut() {
        *c = 3;
    }
    assert!(matches!(client.disconnect(), Ok(3)));
    assert!(matches!(client.disconnect(), Err(ClientError::NotConnected)));
}

#[test]
fn ignored_frames_continue() {
    assert!(matches!(on_frame::<Spot>(Frame::Pong(vec![9])), Step::Continue));
    assert!(matches!(on_frame::<Spot>(Frame::Binary(vec![0, 1])), Step::Continue));
    assert!(matches!(on_frame::<Spot>(Frame::Raw), Step::Continue));
}

#[test]
fn end_of_stream_and_handler_failure_are_terminal() {
    assert!(matches!(
        on_read::<Spot>(None),
        Step::Finish(Err(ClientError::StreamEnded))
    ));
    match on_handled::<WebsocketEvent>(Err(ClientError::Custom("stop".to_string()))) {
        Step::Finish(Err(ClientError::Custom(m))) => assert_eq!(m, "stop"),
        other => panic!("expected the handler's error, got {:?}", other),
    }
    assert!(matches!(on_handled::<WebsocketEvent>(Ok(())), Step::Continue));
    assert!(matches!(on_reply_sent::<WebsocketEvent>(Ok(())), Step::Continue));
}

#[test]
fn read_frame_is_stepped() {
    assert!(matches!(
        on_read::<Spot>(Some(Ok(Frame::Ping(vec![4])))),
        Step::Reply(_)
    ));
}

#[test]
fn connect_target_checks_the_url() {
    match connect_target("wss://stream.binance.com/ws/bnbbtc@trade") {
        Ok(u) => assert_eq!(u, "wss://stream.binance.com/ws/bnbbtc@trade"),
        other => panic!("expected a URL, got {:?}", other),
    }
    match connect_target("WSS://Stream.Binance.com/ws/x") {
        Ok(u) => assert_eq!(u, "wss://stream.binance.com/ws/x"),
        other => panic!("expected a URL, got {:?}", other),
    }
    assert!(matches!(
        connect_target("not a url"),
        Err(ClientError::UrlParser(_))
    ));
}
