use binance::async_websocket_client::{
    decode_envelope, decode_text, on_frame, on_parsed, Attempt, Frame, Step,
};
use binance::dialect::Dialect;
use binance::errors::{ClientError, DecodeError};
use binance::event::{EventKind, RawEvent};
use binance::futures::websockets::{Futures, FuturesWebsocketEvent};
use binance::json::JsonValue;
use binance::websockets::{Spot, WebsocketEvent};

const TRADE: &str = r#"{"e":"trade","E":123456789,"s":"BNBBTC","t":12345,"p":"0.001","q":"100","b":88,"a":50,"T":123456785,"m":true,"M":true}"#;

const DAY_TICKER: &str = r#"{"e":"24hrTicker","E":123456789,"s":"BNBBTC","p":"0.0015","P":"250.00","w":"0.0018","x":"0.0009","c":"0.0025","Q":"10","b":"0.0024","B":"10","a":"0.0026","A":"100","o":"0.0010","h":"0.0025","l":"0.0010","v":"10000","q":"18","O":0,"C":86400000,"F":0,"L":18150,"n":18151}"#;

fn text_of<'a>(j: &'a JsonValue, key: &str) -> Option<&'a str> {
    j.get(key).and_then(|v| v.as_str())
}

fn expect_trade(raw: RawEvent) -> JsonValue {
    match Spot::adapt(raw) {
        WebsocketEvent::Trade(j) => j,
        other => panic!("expected a trade, got {:?}", other),
    }
}

#[test]
fn bare_trade_decodes_at_first_attempt() {
    let (raw, attempt) = decode_text::<Spot>(TRADE).unwrap();
    assert_eq!(attempt, Attempt::Bare);
    let j = expect_trade(raw);
    assert_eq!(text_of(&j, "s"), Some("BNBBTC"));
    assert_eq!(text_of(&j, "p"), Some("0.001"));
    assert_eq!(text_of(&j, "q"), Some("100"));
    assert_eq!(j.get("t").and_then(|v| v.as_u64()), Some(12345));
    assert_eq!(j.get("m").and_then(|v| v.as_bool()), Some(true));
}

#[test]
fn trade_frame_dispatches_one_trade_event() {
    match on_frame::<Spot>(Frame::Text(TRADE.to_string())) {
        Step::Dispatch(WebsocketEvent::Trade(j)) => {
            assert_eq!(text_of(&j, "s"), Some("BNBBTC"));
            assert_eq!(text_of(&j, "p"), Some("0.001"));
            assert_eq!(text_of(&j, "q"), Some("100"));
        }
        other => panic!("expected a trade dispatch, got {:?}", other),
    }
}

#[test]
fn ticker_array_becomes_one_batch_event() {
    let payload = format!("[{},{},{}]", DAY_TICKER, DAY_TICKER, DAY_TICKER);
    match on_frame::<Spot>(Frame::Text(payload)) {
        Step::Dispatch(WebsocketEvent::DayTickerAll(items)) => {
            assert_eq!(items.len(), 3);
            assert_eq!(text_of(&items[0], "s"), Some("BNBBTC"));
        }
        other => panic!("expected a ticker batch, got {:?}", other),
    }
}

#[test]
fn empty_array_is_the_first_batch_alternative() {
    match on_frame::<Spot>(Frame::Text("[]".to_string())) {
        Step::Dispatch(WebsocketEvent::DayTickerAll(items)) => assert!(items.is_empty()),
        other => panic!("expected an empty ticker batch, got {:?}", other),
    }
}

#[test]
fn single_day_ticker_is_not_a_batch() {
    match on_frame::<Spot>(Frame::Text(DAY_TICKER.to_string())) {
        Step::Dispatch(WebsocketEvent::DayTicker(j)) => {
            assert_eq!(text_of(&j, "c"), Some("0.0025"))
        }
        other => panic!("expected a day ticker, got {:?}", other),
    }
}

#[test]
fn data_envelope_decodes_at_second_attempt() {
    let payload = format!("{{\"data\":{}}}", TRADE);
    let (raw, attempt) = decode_text::<Spot>(&payload).unwrap();
    assert_eq!(attempt, Attempt::Data);
    let j = expect_trade(raw);
    assert_eq!(text_of(&j, "s"), Some("BNBBTC"));
    assert_eq!(text_of(&j, "p"), Some("0.001"));
}

#[test]
fn combined_stream_envelope_ignores_the_stream_name() {
    for name in ["bnbbtc@trade", "anything else", ""] {
        let payload = format!("{{\"stream\":\"{}\",\"data\":{}}}", name, TRADE);
        let (raw, attempt) = decode_text::<Spot>(&payload).unwrap();
        assert_eq!(attempt, Attempt::StreamData);
        let j = expect_trade(raw);
        assert_eq!(text_of(&j, "s"), Some("BNBBTC"));
        assert_eq!(text_of(&j, "q"), Some("100"));
    }
}

#[test]
fn invalid_json_reports_the_parse_error() {
    let text = "{\"e\":";
    let expected = serde_json::from_str::<serde_json::Value>(text).unwrap_err();
    match decode_text::<Spot>(text) {
        Err(DecodeError::Syntax(e)) => assert_eq!(e.to_string(), expected.to_string()),
        other => panic!("expected a syntax error, got {:?}", other),
    }
}

#[test]
fn parse_error_is_passed_through_unchanged() {
    let e = serde_json::from_str::<serde_json::Value>("nope").unwrap_err();
    let message = e.to_string();
    match decode_envelope::<Spot>(Err(e)) {
        Err(DecodeError::Syntax(got)) => assert_eq!(got.to_string(), message),
        other => panic!("expected a syntax error, got {:?}", other),
    }
}

#[test]
fn unknown_object_is_unmatched() {
    assert!(matches!(
        decode_text::<Spot>(r#"{"hello":"world"}"#),
        Err(DecodeError::Unmatched)
    ));
}

#[test]
fn envelope_with_unknown_data_reports_first_attempt_error() {
    assert!(matches!(
        decode_text::<Spot>(r#"{"data":{"hello":"world"}}"#),
        Err(DecodeError::Unmatched)
    ));
    assert!(matches!(
        decode_text::<Spot>(r#"{"stream":"x","data":{"hello":1}}"#),
        Err(DecodeError::Unmatched)
    ));
}

#[test]
fn price_given_as_number_does_not_fit_a_trade() {
    let text = TRADE.replace("\"p\":\"0.001\"", "\"p\":0.001");
    assert!(matches!(
        decode_text::<Spot>(&text),
        Err(DecodeError::Unmatched)
    ));
}

#[test]
fn decode_failure_ends_the_loop() {
    match on_frame::<Spot>(Frame::Text("not json".to_string())) {
        Step::Finish(Err(ClientError::Decode(DecodeError::Syntax(_)))) => {}
        other => panic!("expected a decode failure, got {:?}", other),
    }
}

#[test]
fn parsed_payload_steps_as_decoded() {
    let e = serde_json::from_str::<serde_json::Value>("[").unwrap_err();
    assert!(matches!(
        on_parsed::<Spot>(Err(e)),
        Step::Finish(Err(ClientError::Decode(DecodeError::Syntax(_))))
    ));
}

#[test]
fn spot_kinds_are_told_apart() {
    let cases: [(&str, EventKind); 6] = [
        (
            r#"{"e":"aggTrade","E":1,"s":"BNBBTC","a":12345,"p":"0.001","q":"100","f":100,"l":105,"T":1,"m":true,"M":true}"#,
            EventKind::AggTrade,
        ),
        (
            r#"{"u":400900217,"s":"BNBUSDT","b":"25.35190000","B":"31.21000000","a":"25.36520000","A":"40.66000000"}"#,
            EventKind::BookTicker,
        ),
        (
            r#"{"e":"balanceUpdate","E":1573200697110,"a":"BTC","d":"100.00000000","T":1573200697068}"#,
            EventKind::BalanceUpdate,
        ),
        (
            r#"{"e":"kline","E":1,"s":"BNBBTC","k":{"t":1,"T":2,"s":"BNBBTC","i":"1m"}}"#,
            EventKind::Kline,
        ),
        (
            r#"{"lastUpdateId":160,"bids":[["0.0024","10"]],"asks":[["0.0026","100"]]}"#,
            EventKind::OrderBook,
        ),
        (
            r#"{"e":"depthUpdate","E":1,"s":"BNBBTC","U":157,"u":160,"b":[["0.0024","10"]],"a":[["0.0026","100"]]}"#,
            EventKind::DepthOrderBook,
        ),
    ];
    for (text, kind) in cases {
        match decode_text::<Spot>(text) {
            Ok((RawEvent::Single(k, _), Attempt::Bare)) => assert_eq!(k, kind),
            other => panic!("unexpected decode of {}: {:?}", text, other),
        }
    }
}

#[test]
fn futures_events_use_the_derivatives_vocabulary() {
    let liquidation = r#"{"e":"forceOrder","E":1568014460893,"o":{"s":"BTCUSDT","S":"SELL"}}"#;
    match on_frame::<Futures>(Frame::Text(liquidation.to_string())) {
        Step::Dispatch(FuturesWebsocketEvent::Liquidation(j)) => {
            assert_eq!(text_of(&j, "e"), Some("forceOrder"))
        }
        other => panic!("expected a liquidation, got {:?}", other),
    }
    let expired = r#"{"e":"listenKeyExpired","E":1576653824250}"#;
    assert!(matches!(
        on_frame::<Futures>(Frame::Text(expired.to_string())),
        Step::Dispatch(FuturesWebsocketEvent::UserDataStreamExpiredEvent(_))
    ));
    let mini = r#"{"e":"24hrMiniTicker","E":1,"s":"BTCUSDT","c":"1","o":"1","h":"1","l":"1","v":"1","q":"1"}"#;
    let batch = format!("[{},{}]", mini, mini);
    match on_frame::<Futures>(Frame::Text(batch)) {
        Step::Dispatch(FuturesWebsocketEvent::MiniTickerAll(items)) => assert_eq!(items.len(), 2),
        other => panic!("expected a mini ticker batch, got {:?}", other),
    }
    match on_frame::<Futures>(Frame::Text(TRADE.to_string())) {
        Step::Dispatch(FuturesWebsocketEvent::Trade(j)) => {
            assert_eq!(text_of(&j, "s"), Some("BNBBTC"))
        }
        other => panic!("expected a trade, got {:?}", other),
    }
}

#[test]
fn liquidation_is_no_spot_event() {
    let liquidation = r#"{"e":"forceOrder","E":1568014460893,"o":{"s":"BTCUSDT"}}"#;
    assert!(matches!(
        decode_text::<Spot>(liquidation),
        Err(DecodeError::Unmatched)
    ));
}

#[test]
fn mark_and_index_prices_are_told_apart() {
    let mark = r#"{"e":"markPriceUpdate","E":1562305380000,"s":"BTCUSDT","p":"11794.15000000","i":"11784.62659091","P":"11784.25641265","r":"0.00038167","T":1562306400000}"#;
    assert!(matches!(
        on_frame::<Futures>(Frame::Text(mark.to_string())),
        Step::Dispatch(FuturesWebsocketEvent::MarkPrice(_))
    ));
    let batch = format!("[{},{}]", mark, mark);
    match on_frame::<Futures>(Frame::Text(batch)) {
        Step::Dispatch(FuturesWebsocketEvent::MarkPriceAll(items)) => assert_eq!(items.len(), 2),
        other => panic!("expected a mark price batch, got {:?}", other),
    }
    let index = r#"{"e":"indexPriceUpdate","E":1591261236000,"i":"BTCUSD","p":"9636.57860000"}"#;
    assert!(matches!(
        on_frame::<Futures>(Frame::Text(index.to_string())),
        Step::Dispatch(FuturesWebsocketEvent::IndexPrice(_))
    ));
}

#[test]
fn futures_account_update_is_recognised() {
    let update = r#"{"e":"ACCOUNT_UPDATE","E":1564745798939,"T":1564745798938,"a":{"m":"ORDER","B":[],"P":[]}}"#;
    match on_frame::<Futures>(Frame::Text(update.to_string())) {
        Step::Dispatch(FuturesWebsocketEvent::AccountUpdate(j)) => {
            assert_eq!(text_of(&j, "e"), Some("ACCOUNT_UPDATE"))
        }
        other => panic!("expected an account update, got {:?}", other),
    }
    let order = r#"{"e":"ORDER_TRADE_UPDATE","E":1568879465651,"T":1568879465650,"o":{"s":"BTCUSDT","c":"TEST"}}"#;
    assert!(matches!(
        on_frame::<Futures>(Frame::Text(order.to_string())),
        Step::Dispatch(FuturesWebsocketEvent::OrderTrade(_))
    ));
}

#[test]
fn spot_account_update_is_recognised() {
    let update = r#"{"e":"outboundAccountPosition","E":1564034571105,"u":1564034571073,"B":[{"a":"ETH","f":"10000.000000","l":"0.000000"}]}"#;
    assert!(matches!(
        on_frame::<Spot>(Frame::Text(update.to_string())),
        Step::Dispatch(WebsocketEvent::AccountUpdate(_))
    ));
}
