use vstd::prelude::*;
use vstd::string::StringExecFns;

use crate::dialect::Dialect;
use crate::event::{EventKind, RawEvent, Variant};
use crate::json::JsonValue;

verus! {

/// An event of the spot market's streams, as handlers receive it.
#[derive(Debug)]
pub enum WebsocketEvent {
    /// The balances of an account.
    AccountUpdate(JsonValue),
    /// A change of one asset's balance.
    BalanceUpdate(JsonValue),
    /// A report on one of the account's orders.
    OrderTrade(JsonValue),
    /// Trades aggregated at one price.
    AggrTrades(JsonValue),
    /// A single trade.
    Trade(JsonValue),
    /// A partial order book snapshot.
    OrderBook(JsonValue),
    /// A rolling 24-hour ticker.
    DayTicker(JsonValue),
    /// The 24-hour tickers of all symbols, in one batch.
    DayTickerAll(Vec<JsonValue>),
    /// A ticker over a rolling window.
    WindowTicker(JsonValue),
    /// The window tickers of all symbols, in one batch.
    WindowTickerAll(Vec<JsonValue>),
    /// A candlestick.
    Kline(JsonValue),
    /// A change of the order book.
    DepthOrderBook(JsonValue),
    /// The best bid and ask.
    BookTicker(JsonValue),
}

/// The spot market's vocabulary of stream events.
pub struct Spot;

impl Dialect for Spot {
    type Event = WebsocketEvent;

    open spec fn count() -> nat {
        13
    }

    open spec fn variant_at(i: int) -> Variant {
        if i == 0 {
            Variant::Batch(EventKind::DayTicker)
        } else if i == 1 {
            Variant::Batch(EventKind::WindowTicker)
        } else if i == 2 {
            Variant::Single(EventKind::BalanceUpdate)
        } else if i == 3 {
            Variant::Single(EventKind::DayTicker)
        } else if i == 4 {
            Variant::Single(EventKind::WindowTicker)
        } else if i == 5 {
            Variant::Single(EventKind::BookTicker)
        } else if i == 6 {
            Variant::Single(EventKind::AccountUpdate)
        } else if i == 7 {
            Variant::Single(EventKind::OrderTrade)
        } else if i == 8 {
            Variant::Single(EventKind::AggTrade)
        } else if i == 9 {
            Variant::Single(EventKind::Trade)
        } else if i == 10 {
            Variant::Single(EventKind::Kline)
        } else if i == 11 {
            Variant::Single(EventKind::OrderBook)
        } else {
            Variant::Single(EventKind::DepthOrderBook)
        }
    }

    open spec fn adapted(raw: RawEvent) -> WebsocketEvent {
        match raw {
            RawEvent::Batch(EventKind::DayTicker, items) => WebsocketEvent::DayTickerAll(items),
            RawEvent::Batch(EventKind::WindowTicker, items) => WebsocketEvent::WindowTickerAll(items),
            RawEvent::Single(EventKind::BalanceUpdate, j) => WebsocketEvent::BalanceUpdate(j),
            RawEvent::Single(EventKind::DayTicker, j) => WebsocketEvent::DayTicker(j),
            RawEvent::Single(EventKind::WindowTicker, j) => WebsocketEvent::WindowTicker(j),
            RawEvent::Single(EventKind::BookTicker, j) => WebsocketEvent::BookTicker(j),
            RawEvent::Single(EventKind::AccountUpdate, j) => WebsocketEvent::AccountUpdate(j),
            RawEvent::Single(EventKind::OrderTrade, j) => WebsocketEvent::OrderTrade(j),
            RawEvent::Single(EventKind::AggTrade, j) => WebsocketEvent::AggrTrades(j),
            RawEvent::Single(EventKind::Trade, j) => WebsocketEvent::Trade(j),
            RawEvent::Single(EventKind::Kline, j) => WebsocketEvent::Kline(j),
            RawEvent::Single(EventKind::OrderBook, j) => WebsocketEvent::OrderBook(j),
            RawEvent::Single(EventKind::DepthOrderBook, j) => WebsocketEvent::DepthOrderBook(j),
            _ => arbitrary(),
        }
    }

    fn variant_count() -> (n: usize) {
        13
    }

    fn nth_variant(i: usize) -> (v: Variant) {
        match i {
            0 => Variant::Batch(EventKind::DayTicker),
            1 => Variant::Batch(EventKind::WindowTicker),
            2 => Variant::Single(EventKind::BalanceUpdate),
            3 => Variant::Single(EventKind::DayTicker),
            4 => Variant::Single(EventKind::WindowTicker),
            5 => Variant::Single(EventKind::BookTicker),
            6 => Variant::Single(EventKind::AccountUpdate),
            7 => Variant::Single(EventKind::OrderTrade),
            8 => Variant::Single(EventKind::AggTrade),
            9 => Variant::Single(EventKind::Trade),
            10 => Variant::Single(EventKind::Kline),
            11 => Variant::Single(EventKind::OrderBook),
            _ => Variant::Single(EventKind::DepthOrderBook),
        }
    }

    fn adapt(raw: RawEvent) -> (e: WebsocketEvent) {
        match raw {
            RawEvent::Batch(EventKind::DayTicker, items) => WebsocketEvent::DayTickerAll(items),
            RawEvent::Batch(EventKind::WindowTicker, items) => WebsocketEvent::WindowTickerAll(items),
            RawEvent::Single(EventKind::BalanceUpdate, j) => WebsocketEvent::BalanceUpdate(j),
            RawEvent::Single(EventKind::DayTicker, j) => WebsocketEvent::DayTicker(j),
            RawEvent::Single(EventKind::WindowTicker, j) => WebsocketEvent::WindowTicker(j),
            RawEvent::Single(EventKind::BookTicker, j) => WebsocketEvent::BookTicker(j),
            RawEvent::Single(EventKind::AccountUpdate, j) => WebsocketEvent::AccountUpdate(j),
            RawEvent::Single(EventKind::OrderTrade, j) => WebsocketEvent::OrderTrade(j),
            RawEvent::Single(EventKind::AggTrade, j) => WebsocketEvent::AggrTrades(j),
            RawEvent::Single(EventKind::Trade, j) => WebsocketEvent::Trade(j),
            RawEvent::Single(EventKind::Kline, j) => WebsocketEvent::Kline(j),
            RawEvent::Single(EventKind::OrderBook, j) => WebsocketEvent::OrderBook(j),
            RawEvent::Single(EventKind::DepthOrderBook, j) => WebsocketEvent::DepthOrderBook(j),
            _ => vstd::pervasive::unreached(),
        }
    }
}

/// Where a spot market stream connects.
#[derive(Debug)]
pub enum WebsocketAPI {
    /// The venue's single-stream endpoint.
    Default,
    /// The venue's combined-stream endpoint.
    MultiStream,
    /// Another deployment, given by its base URL.
    Custom(String),
}

impl WebsocketAPI {
    /// The URL of `subscription` on this endpoint.
    pub open spec fn url(self, subscription: Seq<char>) -> Seq<char> {
        match self {
            WebsocketAPI::Default => "wss://stream.binance.com/ws/"@ + subscription,
            WebsocketAPI::MultiStream => "wss://stream.binance.com/stream?streams="@ + subscription,
            WebsocketAPI::Custom(base) => base@ + "/"@ + subscription,
        }
    }

    /// The URL to connect to for `subscription` (for the combined endpoint, stream names
    /// joined by `/`).
    pub fn params(self, subscription: &str) -> (r: String)
        ensures
            r@ == self.url(subscription@),
    {
        match self {
            WebsocketAPI::Default => {
                let mut url = "wss://stream.binance.com/ws/".to_owned();
                url.append(subscription);
                url
            },
            WebsocketAPI::MultiStream => {
                let mut url = "wss://stream.binance.com/stream?streams=".to_owned();
                url.append(subscription);
                url
            },
            WebsocketAPI::Custom(base) => {
                let mut url = base;
                url.append("/");
                url.append(subscription);
                url
            },
        }
    }
}

/// Stream names joined by `/`, as the combined-stream endpoint takes them.
pub open spec fn joined(names: Seq<String>) -> Seq<char>
    decreases names.len(),
{
    if names.len() == 0 {
        Seq::empty()
    } else if names.len() == 1 {
        names[0]@
    } else {
        joined(names.drop_last()) + "/"@ + names.last()@
    }
}

/// Joins stream names by `/`, for the combined-stream endpoint.
pub fn join_streams(names: &[String]) -> (r: String)
    ensures
        r@ == joined(names@),
{
    let mut r = String::new();
    if names.len() == 0 {
        return r;
    }
    r.append(names[0].as_str());
    assert(names@.subrange(0, 1).drop_last() =~= Seq::<String>::empty());
    let mut i: usize = 1;
    while i < names.len()
        invariant
            1 <= i <= names@.len(),
            r@ == joined(names@.subrange(0, i as int)),
        decreases names@.len() - i,
    {
        r.append("/");
        r.append(names[i].as_str());
        assert(names@.subrange(0, i + 1).drop_last() =~= names@.subrange(0, i as int));
        i = i + 1;
    }
    assert(names@.subrange(0, names@.len() as int) =~= names@);
    r
}

} // verus!
