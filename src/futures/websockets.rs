use vstd::prelude::*;
use vstd::string::StringExecFns;

use crate::dialect::Dialect;
use crate::event::{EventKind, RawEvent, Variant};
use crate::json::JsonValue;

verus! {

/// An event of the derivatives market's streams, as handlers receive it.
#[derive(Debug)]
pub enum FuturesWebsocketEvent {
    /// The balances of an account.
    AccountUpdate(JsonValue),
    /// A report on one of the account's orders.
    OrderTrade(JsonValue),
    /// Trades aggregated at one price.
    AggrTrades(JsonValue),
    /// A single trade.
    Trade(JsonValue),
    /// A partial order book snapshot.
    OrderBook(JsonValue),
    /// A rolling 24-hour ticker.
    DayTicker(JsonValue),
    /// A reduced 24-hour ticker.
    MiniTicker(JsonValue),
    /// The reduced tickers of all symbols, in one batch.
    MiniTickerAll(Vec<JsonValue>),
    /// An index price.
    IndexPrice(JsonValue),
    /// A mark price with its funding rate.
    MarkPrice(JsonValue),
    /// The mark prices of all symbols, in one batch.
    MarkPriceAll(Vec<JsonValue>),
    /// The 24-hour tickers of all symbols, in one batch.
    DayTickerAll(Vec<JsonValue>),
    /// A candlestick of one symbol.
    Kline(JsonValue),
    /// A candlestick of a contract series.
    ContinuousKline(JsonValue),
    /// A candlestick of an index.
    IndexKline(JsonValue),
    /// A forced liquidation order.
    Liquidation(JsonValue),
    /// A change of the order book.
    DepthOrderBook(JsonValue),
    /// The best bid and ask.
    BookTicker(JsonValue),
    /// The end of a user data stream's authorization.
    UserDataStreamExpiredEvent(JsonValue),
}

/// The derivatives market's vocabulary of stream events.
pub struct Futures;

impl Dialect for Futures {
    type Event = FuturesWebsocketEvent;

    open spec fn count() -> nat {
        19
    }

    open spec fn variant_at(i: int) -> Variant {
        if i == 0 {
            Variant::Batch(EventKind::DayTicker)
        } else if i == 1 {
            Variant::Single(EventKind::DayTicker)
        } else if i == 2 {
            Variant::Single(EventKind::BookTicker)
        } else if i == 3 {
            Variant::Single(EventKind::MiniTicker)
        } else if i == 4 {
            Variant::Batch(EventKind::MiniTicker)
        } else if i == 5 {
            Variant::Single(EventKind::FuturesAccountUpdate)
        } else if i == 6 {
            Variant::Single(EventKind::FuturesOrderTrade)
        } else if i == 7 {
            Variant::Single(EventKind::AggTrade)
        } else if i == 8 {
            Variant::Single(EventKind::MarkPrice)
        } else if i == 9 {
            Variant::Single(EventKind::IndexPrice)
        } else if i == 10 {
            Variant::Batch(EventKind::MarkPrice)
        } else if i == 11 {
            Variant::Single(EventKind::Trade)
        } else if i == 12 {
            Variant::Single(EventKind::Kline)
        } else if i == 13 {
            Variant::Single(EventKind::ContinuousKline)
        } else if i == 14 {
            Variant::Single(EventKind::IndexKline)
        } else if i == 15 {
            Variant::Single(EventKind::Liquidation)
        } else if i == 16 {
            Variant::Single(EventKind::OrderBook)
        } else if i == 17 {
            Variant::Single(EventKind::DepthOrderBook)
        } else {
            Variant::Single(EventKind::StreamExpired)
        }
    }

    open spec fn adapted(raw: RawEvent) -> FuturesWebsocketEvent {
        match raw {
            RawEvent::Batch(EventKind::DayTicker, items) => FuturesWebsocketEvent::DayTickerAll(items),
            RawEvent::Single(EventKind::DayTicker, j) => FuturesWebsocketEvent::DayTicker(j),
            RawEvent::Single(EventKind::BookTicker, j) => FuturesWebsocketEvent::BookTicker(j),
            RawEvent::Single(EventKind::MiniTicker, j) => FuturesWebsocketEvent::MiniTicker(j),
            RawEvent::Batch(EventKind::MiniTicker, items) => FuturesWebsocketEvent::MiniTickerAll(items),
            RawEvent::Single(EventKind::FuturesAccountUpdate, j) => FuturesWebsocketEvent::AccountUpdate(j),
            RawEvent::Single(EventKind::FuturesOrderTrade, j) => FuturesWebsocketEvent::OrderTrade(j),
            RawEvent::Single(EventKind::AggTrade, j) => FuturesWebsocketEvent::AggrTrades(j),
            RawEvent::Single(EventKind::IndexPrice, j) => FuturesWebsocketEvent::IndexPrice(j),
            RawEvent::Single(EventKind::MarkPrice, j) => FuturesWebsocketEvent::MarkPrice(j),
            RawEvent::Batch(EventKind::MarkPrice, items) => FuturesWebsocketEvent::MarkPriceAll(items),
            RawEvent::Single(EventKind::Trade, j) => FuturesWebsocketEvent::Trade(j),
            RawEvent::Single(EventKind::Kline, j) => FuturesWebsocketEvent::Kline(j),
            RawEvent::Single(EventKind::ContinuousKline, j) => FuturesWebsocketEvent::ContinuousKline(j),
            RawEvent::Single(EventKind::IndexKline, j) => FuturesWebsocketEvent::IndexKline(j),
            RawEvent::Single(EventKind::Liquidation, j) => FuturesWebsocketEvent::Liquidation(j),
            RawEvent::Single(EventKind::OrderBook, j) => FuturesWebsocketEvent::OrderBook(j),
            RawEvent::Single(EventKind::DepthOrderBook, j) => FuturesWebsocketEvent::DepthOrderBook(j),
            RawEvent::Single(EventKind::StreamExpired, j) => FuturesWebsocketEvent::UserDataStreamExpiredEvent(j),
            _ => arbitrary(),
        }
    }

    fn variant_count() -> (n: usize) {
        19
    }

    fn nth_variant(i: usize) -> (v: Variant) {
        match i {
            0 => Variant::Batch(EventKind::DayTicker),
            1 => Variant::Single(EventKind::DayTicker),
            2 => Variant::Single(EventKind::BookTicker),
            3 => Variant::Single(EventKind::MiniTicker),
            4 => Variant::Batch(EventKind::MiniTicker),
            5 => Variant::Single(EventKind::FuturesAccountUpdate),
            6 => Variant::Single(EventKind::FuturesOrderTrade),
            7 => Variant::Single(EventKind::AggTrade),
            8 => Variant::Single(EventKind::MarkPrice),
            9 => Variant::Single(EventKind::IndexPrice),
            10 => Variant::Batch(EventKind::MarkPrice),
            11 => Variant::Single(EventKind::Trade),
            12 => Variant::Single(EventKind::Kline),
            13 => Variant::Single(EventKind::ContinuousKline),
            14 => Variant::Single(EventKind::IndexKline),
            15 => Variant::Single(EventKind::Liquidation),
            16 => Variant::Single(EventKind::OrderBook),
            17 => Variant::Single(EventKind::DepthOrderBook),
            _ => Variant::Single(EventKind::StreamExpired),
        }
    }

    fn adapt(raw: RawEvent) -> (e: FuturesWebsocketEvent) {
        match raw {
            RawEvent::Batch(EventKind::DayTicker, items) => FuturesWebsocketEvent::DayTickerAll(items),
            RawEvent::Single(EventKind::DayTicker, j) => FuturesWebsocketEvent::DayTicker(j),
            RawEvent::Single(EventKind::BookTicker, j) => FuturesWebsocketEvent::BookTicker(j),
            RawEvent::Single(EventKind::MiniTicker, j) => FuturesWebsocketEvent::MiniTicker(j),
            RawEvent::Batch(EventKind::MiniTicker, items) => FuturesWebsocketEvent::MiniTickerAll(items),
            RawEvent::Single(EventKind::FuturesAccountUpdate, j) => FuturesWebsocketEvent::AccountUpdate(j),
            RawEvent::Single(EventKind::FuturesOrderTrade, j) => FuturesWebsocketEvent::OrderTrade(j),
            RawEvent::Single(EventKind::AggTrade, j) => FuturesWebsocketEvent::AggrTrades(j),
            RawEvent::Single(EventKind::IndexPrice, j) => FuturesWebsocketEvent::IndexPrice(j),
            RawEvent::Single(EventKind::MarkPrice, j) => FuturesWebsocketEvent::MarkPrice(j),
            RawEvent::Batch(EventKind::MarkPrice, items) => FuturesWebsocketEvent::MarkPriceAll(items),
            RawEvent::Single(EventKind::Trade, j) => FuturesWebsocketEvent::Trade(j),
            RawEvent::Single(EventKind::Kline, j) => FuturesWebsocketEvent::Kline(j),
            RawEvent::Single(EventKind::ContinuousKline, j) => FuturesWebsocketEvent::ContinuousKline(j),
            RawEvent::Single(EventKind::IndexKline, j) => FuturesWebsocketEvent::IndexKline(j),
            RawEvent::Single(EventKind::Liquidation, j) => FuturesWebsocketEvent::Liquidation(j),
            RawEvent::Single(EventKind::OrderBook, j) => FuturesWebsocketEvent::OrderBook(j),
            RawEvent::Single(EventKind::DepthOrderBook, j) => FuturesWebsocketEvent::DepthOrderBook(j),
            RawEvent::Single(EventKind::StreamExpired, j) => FuturesWebsocketEvent::UserDataStreamExpiredEvent(j),
            _ => vstd::pervasive::unreached(),
        }
    }
}

/// The derivatives markets, each with its own stream host.
#[derive(Clone, Copy, Debug, PartialEq, Eq, Structural)]
pub enum FuturesMarket {
    /// Contracts margined in a stable coin.
    USDM,
    /// Contracts margined in the coin itself.
    COINM,
    /// Options.
    Vanilla,
}

impl FuturesMarket {
    pub open spec fn host(self) -> Seq<char> {
        match self {
            FuturesMarket::USDM => "wss://fstream.binance.com"@,
            FuturesMarket::COINM => "wss://dstream.binance.com"@,
            FuturesMarket::Vanilla => "wss://vstream.binance.com"@,
        }
    }

    /// The base URL of this market's streams.
    pub fn base_url(&self) -> (r: String)
        ensures
            r@ == self.host(),
    {
        match self {
            FuturesMarket::USDM => "wss://fstream.binance.com".to_owned(),
            FuturesMarket::COINM => "wss://dstream.binance.com".to_owned(),
            FuturesMarket::Vanilla => "wss://vstream.binance.com".to_owned(),
        }
    }
}

/// Where a derivatives market stream connects.
#[derive(Debug)]
pub enum FuturesWebsocketAPI {
    /// The market's single-stream endpoint.
    Default,
    /// The market's combined-stream endpoint.
    MultiStream,
    /// Another deployment, given by its full URL.
    Custom(String),
}

impl FuturesWebsocketAPI {
    /// The URL of `subscription` on this endpoint of `market`.
    pub open spec fn url(self, market: FuturesMarket, subscription: Seq<char>) -> Seq<char> {
        match self {
            FuturesWebsocketAPI::Default => market.host() + "/ws/"@ + subscription,
            FuturesWebsocketAPI::MultiStream => market.host() + "/stream?streams="@ + subscription,
            FuturesWebsocketAPI::Custom(full) => full@,
        }
    }

    /// The URL to connect to for `subscription` on `market` (for the combined endpoint,
    /// stream names joined by `/`; a custom endpoint is used as it is).
    pub fn params(self, market: &FuturesMarket, subscription: &str) -> (r: String)
        ensures
            r@ == self.url(*market, subscription@),
    {
        match self {
            FuturesWebsocketAPI::Default => {
                let mut url = market.base_url();
                url.append("/ws/");
                url.append(subscription);
                url
            },
            FuturesWebsocketAPI::MultiStream => {
                let mut url = market.base_url();
                url.append("/stream?streams=");
                url.append(subscription);
                url
            },
            FuturesWebsocketAPI::Custom(full) => full,
        }
    }
}

} // verus!
