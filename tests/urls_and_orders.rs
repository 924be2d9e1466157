use binance::account::{OrderSide, OrderType, TimeInForce};
use binance::futures::account::{
    ContractType, IncomeType, OrderType as FuturesOrderType, PositionSide, TimeInForce as FuturesTif,
    WorkingType,
};
use binance::futures::websockets::{FuturesMarket, FuturesWebsocketAPI};
use binance::websockets::{join_streams, WebsocketAPI};

#[test]
fn spot_urls() {
    assert_eq!(
        WebsocketAPI::Default.params("bnbbtc@trade"),
        "wss://stream.binance.com/ws/bnbbtc@trade"
    );
    assert_eq!(
        WebsocketAPI::MultiStream.params("a@trade/b@trade"),
        "wss://stream.binance.com/stream?streams=a@trade/b@trade"
    );
    assert_eq!(
        WebsocketAPI::Custom("wss://testnet.binance.vision/ws".to_string()).params("x@depth"),
        "wss://testnet.binance.vision/ws/x@depth"
    );
}

#[test]
fn futures_urls() {
    assert_eq!(
        FuturesWebsocketAPI::Default.params(&FuturesMarket::USDM, "btcusdt@markPrice"),
        "wss://fstream.binance.com/ws/btcusdt@markPrice"
    );
    assert_eq!(
        FuturesWebsocketAPI::MultiStream.params(&FuturesMarket::COINM, "a/b"),
        "wss://dstream.binance.com/stream?streams=a/b"
    );
    assert_eq!(
        FuturesWebsocketAPI::Default.params(&FuturesMarket::Vanilla, "x"),
        "wss://vstream.binance.com/ws/x"
    );
    assert_eq!(
        FuturesWebsocketAPI::Custom("wss://example.org/ws/x".to_string())
            .params(&FuturesMarket::USDM, "ignored"),
        "wss://example.org/ws/x"
    );
}

#[test]
fn stream_names_are_joined_by_slash() {
    assert_eq!(join_streams(&[]), "");
    assert_eq!(join_streams(&["a@trade".to_string()]), "a@trade");
    let names = vec![
        "a@trade".to_string(),
        "b@depth".to_string(),
        "c@kline_1m".to_string(),
    ];
    assert_eq!(join_streams(&names), "a@trade/b@depth/c@kline_1m");
}

#[test]
fn spot_order_enums_from_int() {
    assert_eq!(OrderType::from_int(1), Some(OrderType::Limit));
    assert_eq!(OrderType::from_int(2), Some(OrderType::Market));
    assert_eq!(OrderType::from_int(3), Some(OrderType::StopLossLimit));
    assert_eq!(OrderType::from_int(0), None);
    assert_eq!(OrderSide::from_int(1), Some(OrderSide::Buy));
    assert_eq!(OrderSide::from_int(2), Some(OrderSide::Sell));
    assert_eq!(OrderSide::from_int(3), None);
    assert_eq!(TimeInForce::from_int(1), Some(TimeInForce::GTC));
    assert_eq!(TimeInForce::from_int(2), Some(TimeInForce::IOC));
    assert_eq!(TimeInForce::from_int(3), Some(TimeInForce::FOK));
    assert_eq!(TimeInForce::from_int(-1), None);
}

#[test]
fn wire_names() {
    assert_eq!(OrderType::StopLossLimit.to_string(), "STOP_LOSS_LIMIT");
    assert_eq!(OrderSide::Sell.to_string(), "SELL");
    assert_eq!(TimeInForce::IOC.to_string(), "IOC");
    assert_eq!(ContractType::CurrentQuarter.to_string(), "CURRENT_QUARTER");
    assert_eq!(PositionSide::Long.to_string(), "LONG");
    assert_eq!(FuturesOrderType::TrailingStopMarket.to_string(), "TRAILING_STOP_MARKET");
    assert_eq!(WorkingType::MarkPrice.to_string(), "MARK_PRICE");
    assert_eq!(FuturesTif::GTX.to_string(), "GTX");
    assert_eq!(IncomeType::FUNDING_FEE.to_string(), "FUNDING_FEE");
}

#[test]
fn contract_type_converts_to_its_wire_name() {
    assert_eq!(String::from(ContractType::Perpetual), "PERPETUAL");
    assert_eq!(String::from(ContractType::NextMonth), "NEXT_MONTH");
}
