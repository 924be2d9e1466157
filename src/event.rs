use vstd::prelude::*;

use crate::json::{FieldKind, JsonValue};

verus! {

/// The kinds of event object that the venue pushes, each recognised by the members it holds.
#[derive(Clone, Copy, Debug, PartialEq, Eq, Structural)]
pub enum EventKind {
    /// A single trade.
    Trade,
    /// Trades aggregated at one price.
    AggTrade,
    /// A rolling 24-hour ticker.
    DayTicker,
    /// A ticker over a rolling window of chosen size.
    WindowTicker,
    /// A reduced 24-hour ticker.
    MiniTicker,
    /// The best bid and ask.
    BookTicker,
    /// A change of one asset's balance.
    BalanceUpdate,
    /// The balances of an account.
    AccountUpdate,
    /// A spot order report.
    OrderTrade,
    /// A derivatives order report, the order in a nested object.
    FuturesOrderTrade,
    /// The balances and positions of a derivatives account, in a nested object.
    FuturesAccountUpdate,
    /// A candlestick of one symbol.
    Kline,
    /// A candlestick of a contract series.
    ContinuousKline,
    /// A candlestick of an index.
    IndexKline,
    /// A partial order book snapshot.
    OrderBook,
    /// A change of the order book.
    DepthOrderBook,
    /// An index price.
    IndexPrice,
    /// A mark price with its funding rate.
    MarkPrice,
    /// A forced liquidation order.
    Liquidation,
    /// The end of a user data stream's authorization.
    StreamExpired,
}

/// One alternative of a raw event union: a single object of a kind, or an array of them.
#[derive(Clone, Copy, Debug, PartialEq, Eq, Structural)]
pub enum Variant {
    Single(EventKind),
    Batch(EventKind),
}

/// What one text frame decodes to, before a dialect gives it its public name.
#[derive(Debug)]
pub enum RawEvent {
    Single(EventKind, JsonValue),
    Batch(EventKind, Vec<JsonValue>),
}

impl RawEvent {
    pub open spec fn variant(self) -> Variant {
        match self {
            RawEvent::Single(k, _) => Variant::Single(k),
            RawEvent::Batch(k, _) => Variant::Batch(k),
        }
    }
}

impl EventKind {
    /// Whether `j` is an object with the members that events of this kind carry.
    pub open spec fn fits(self, j: JsonValue) -> bool {
        match self {
            EventKind::Trade => {
                j.holds("e"@, FieldKind::Text)
                    && j.holds("E"@, FieldKind::Unsigned)
                    && j.holds("s"@, FieldKind::Text)
                    && j.holds("t"@, FieldKind::Unsigned)
                    && j.holds("p"@, FieldKind::Text)
                    && j.holds("q"@, FieldKind::Text)
                    && j.holds("T"@, FieldKind::Unsigned)
                    && j.holds("m"@, FieldKind::Flag)
            },
            EventKind::AggTrade => {
                j.holds("e"@, FieldKind::Text)
                    && j.holds("E"@, FieldKind::Unsigned)
                    && j.holds("s"@, FieldKind::Text)
                    && j.holds("a"@, FieldKind::Unsigned)
                    && j.holds("p"@, FieldKind::Text)
                    && j.holds("q"@, FieldKind::Text)
                    && j.holds("f"@, FieldKind::Unsigned)
                    && j.holds("l"@, FieldKind::Unsigned)
                    && j.holds("T"@, FieldKind::Unsigned)
                    && j.holds("m"@, FieldKind::Flag)
            },
            EventKind::DayTicker => {
                j.holds("e"@, FieldKind::Text)
                    && j.holds("E"@, FieldKind::Unsigned)
                    && j.holds("s"@, FieldKind::Text)
                    && j.holds("p"@, FieldKind::Text)
                    && j.holds("P"@, FieldKind::Text)
                    && j.holds("w"@, FieldKind::Text)
                    && j.holds("c"@, FieldKind::Text)
                    && j.holds("Q"@, FieldKind::Text)
                    && j.holds("o"@, FieldKind::Text)
                    && j.holds("h"@, FieldKind::Text)
                    && j.holds("l"@, FieldKind::Text)
                    && j.holds("v"@, FieldKind::Text)
                    && j.holds("q"@, FieldKind::Text)
                    && j.holds("O"@, FieldKind::Unsigned)
                    && j.holds("C"@, FieldKind::Unsigned)
                    && j.holds("n"@, FieldKind::Unsigned)
            },
            EventKind::WindowTicker => {
                j.holds("e"@, FieldKind::Text)
                    && j.holds("E"@, FieldKind::Unsigned)
                    && j.holds("s"@, FieldKind::Text)
                    && j.holds("p"@, FieldKind::Text)
                    && j.holds("P"@, FieldKind::Text)
                    && j.holds("o"@, FieldKind::Text)
                    && j.holds("h"@, FieldKind::Text)
                    && j.holds("l"@, FieldKind::Text)
                    && j.holds("c"@, FieldKind::Text)
                    && j.holds("w"@, FieldKind::Text)
                    && j.holds("v"@, FieldKind::Text)
                    && j.holds("q"@, FieldKind::Text)
                    && j.holds("O"@, FieldKind::Unsigned)
                    && j.holds("C"@, FieldKind::Unsigned)
                    && j.holds("n"@, FieldKind::Unsigned)
            },
            EventKind::MiniTicker => {
                j.holds("e"@, FieldKind::Text)
                    && j.holds("E"@, FieldKind::Unsigned)
                    && j.holds("s"@, FieldKind::Text)
                    && j.holds("c"@, FieldKind::Text)
                    && j.holds("o"@, FieldKind::Text)
                    && j.holds("h"@, FieldKind::Text)
                    && j.holds("l"@, FieldKind::Text)
                    && j.holds("v"@, FieldKind::Text)
                    && j.holds("q"@, FieldKind::Text)
            },
            EventKind::BookTicker => {
                j.holds("u"@, FieldKind::Unsigned)
                    && j.holds("s"@, FieldKind::Text)
                    && j.holds("b"@, FieldKind::Text)
                    && j.holds("B"@, FieldKind::Text)
                    && j.holds("a"@, FieldKind::Text)
                    && j.holds("A"@, FieldKind::Text)
            },
            EventKind::BalanceUpdate => {
                j.holds("e"@, FieldKind::Text)
                    && j.holds("E"@, FieldKind::Unsigned)
                    && j.holds("a"@, FieldKind::Text)
                    && j.holds("d"@, FieldKind::Text)
                    && j.holds("T"@, FieldKind::Unsigned)
            },
            EventKind::AccountUpdate => {
                j.holds("e"@, FieldKind::Text)
                    && j.holds("E"@, FieldKind::Unsigned)
                    && j.holds("u"@, FieldKind::Unsigned)
                    && j.holds("B"@, FieldKind::List)
            },
            EventKind::OrderTrade => {
                j.holds("e"@, FieldKind::Text)
                    && j.holds("E"@, FieldKind::Unsigned)
                    && j.holds("s"@, FieldKind::Text)
                    && j.holds("c"@, FieldKind::Text)
                    && j.holds("S"@, FieldKind::Text)
                    && j.holds("o"@, FieldKind::Text)
                    && j.holds("q"@, FieldKind::Text)
                    && j.holds("p"@, FieldKind::Text)
                    && j.holds("x"@, FieldKind::Text)
                    && j.holds("X"@, FieldKind::Text)
                    && j.holds("i"@, FieldKind::Unsigned)
                    && j.holds("z"@, FieldKind::Text)
                    && j.holds("T"@, FieldKind::Unsigned)
            },
            EventKind::FuturesOrderTrade => {
                j.holds("e"@, FieldKind::Text)
                    && j.holds("E"@, FieldKind::Unsigned)
                    && j.holds("T"@, FieldKind::Unsigned)
                    && j.holds("o"@, FieldKind::Record)
            },
            EventKind::FuturesAccountUpdate => {
                j.holds("e"@, FieldKind::Text)
                    && j.holds("E"@, FieldKind::Unsigned)
                    && j.holds("T"@, FieldKind::Unsigned)
                    && j.holds("a"@, FieldKind::Record)
            },
            EventKind::Kline => {
                j.holds("e"@, FieldKind::Text)
                    && j.holds("E"@, FieldKind::Unsigned)
                    && j.holds("s"@, FieldKind::Text)
                    && j.holds("k"@, FieldKind::Record)
            },
            EventKind::ContinuousKline => {
                j.holds("e"@, FieldKind::Text)
                    && j.holds("E"@, FieldKind::Unsigned)
                    && j.holds("ps"@, FieldKind::Text)
                    && j.holds("ct"@, FieldKind::Text)
                    && j.holds("k"@, FieldKind::Record)
            },
            EventKind::IndexKline => {
                j.holds("e"@, FieldKind::Text)
                    && j.holds("E"@, FieldKind::Unsigned)
                    && j.holds("ps"@, FieldKind::Text)
                    && j.holds("k"@, FieldKind::Record)
            },
            EventKind::OrderBook => {
                j.holds("lastUpdateId"@, FieldKind::Unsigned)
                    && j.holds("bids"@, FieldKind::List)
                    && j.holds("asks"@, FieldKind::List)
            },
            EventKind::DepthOrderBook => {
                j.holds("e"@, FieldKind::Text)
                    && j.holds("E"@, FieldKind::Unsigned)
                    && j.holds("s"@, FieldKind::Text)
                    && j.holds("U"@, FieldKind::Unsigned)
                    && j.holds("u"@, FieldKind::Unsigned)
                    && j.holds("b"@, FieldKind::List)
                    && j.holds("a"@, FieldKind::List)
            },
            EventKind::IndexPrice => {
                j.holds("e"@, FieldKind::Text)
                    && j.holds("E"@, FieldKind::Unsigned)
                    && j.holds("i"@, FieldKind::Text)
                    && j.holds("p"@, FieldKind::Text)
            },
            EventKind::MarkPrice => {
                j.holds("e"@, FieldKind::Text)
                    && j.holds("E"@, FieldKind::Unsigned)
                    && j.holds("s"@, FieldKind::Text)
                    && j.holds("p"@, FieldKind::Text)
                    && j.holds("i"@, FieldKind::Text)
                    && j.holds("P"@, FieldKind::Text)
                    && j.holds("r"@, FieldKind::Text)
                    && j.holds("T"@, FieldKind::Unsigned)
            },
            EventKind::Liquidation => {
                j.holds("e"@, FieldKind::Text)
                    && j.holds("E"@, FieldKind::Unsigned)
                    && j.holds("o"@, FieldKind::Record)
            },
            EventKind::StreamExpired => {
                j.holds("e"@, FieldKind::Text)
                    && j.holds("E"@, FieldKind::Unsigned)
            },
        }
    }

    /// Whether `j` is an object with the members that events of this kind carry.
    pub fn matches_object(self, j: &JsonValue) -> (r: bool)
        ensures
            r == self.fits(*j),
    {
        match self {
            EventKind::Trade => is_trade(j),
            EventKind::AggTrade => is_agg_trade(j),
            EventKind::DayTicker => is_day_ticker(j),
            EventKind::WindowTicker => is_window_ticker(j),
            EventKind::MiniTicker => is_mini_ticker(j),
            EventKind::BookTicker => is_book_ticker(j),
            EventKind::BalanceUpdate => is_balance_update(j),
            EventKind::AccountUpdate => is_account_update(j),
            EventKind::OrderTrade => is_order_trade(j),
            EventKind::FuturesOrderTrade => is_futures_order_trade(j),
            EventKind::FuturesAccountUpdate => is_futures_account_update(j),
            EventKind::Kline => is_kline(j),
            EventKind::ContinuousKline => is_continuous_kline(j),
            EventKind::IndexKline => is_index_kline(j),
            EventKind::OrderBook => is_order_book(j),
            EventKind::DepthOrderBook => is_depth_order_book(j),
            EventKind::IndexPrice => is_index_price(j),
            EventKind::MarkPrice => is_mark_price(j),
            EventKind::Liquidation => is_liquidation(j),
            EventKind::StreamExpired => is_stream_expired(j),
        }
    }
}

fn is_trade(j: &JsonValue) -> (r: bool)
    ensures
        r == EventKind::Trade.fits(*j),
{
    j.has("e", FieldKind::Text)
        && j.has("E", FieldKind::Unsigned)
        && j.has("s", FieldKind::Text)
        && j.has("t", FieldKind::Unsigned)
        && j.has("p", FieldKind::Text)
        && j.has("q", FieldKind::Text)
        && j.has("T", FieldKind::Unsigned)
        && j.has("m", FieldKind::Flag)
}

fn is_agg_trade(j: &JsonValue) -> (r: bool)
    ensures
        r == EventKind::AggTrade.fits(*j),
{
    j.has("e", FieldKind::Text)
        && j.has("E", FieldKind::Unsigned)
        && j.has("s", FieldKind::Text)
        && j.has("a", FieldKind::Unsigned)
        && j.has("p", FieldKind::Text)
        && j.has("q", FieldKind::Text)
        && j.has("f", FieldKind::Unsigned)
        && j.has("l", FieldKind::Unsigned)
        && j.has("T", FieldKind::Unsigned)
        && j.has("m", FieldKind::Flag)
}

fn is_day_ticker(j: &JsonValue) -> (r: bool)
    ensures
        r == EventKind::DayTicker.fits(*j),
{
    j.has("e", FieldKind::Text)
        && j.has("E", FieldKind::Unsigned)
        && j.has("s", FieldKind::Text)
        && j.has("p", FieldKind::Text)
        && j.has("P", FieldKind::Text)
        && j.has("w", FieldKind::Text)
        && j.has("c", FieldKind::Text)
        && j.has("Q", FieldKind::Text)
        && j.has("o", FieldKind::Text)
        && j.has("h", FieldKind::Text)
        && j.has("l", FieldKind::Text)
        && j.has("v", FieldKind::Text)
        && j.has("q", FieldKind::Text)
        && j.has("O", FieldKind::Unsigned)
        && j.has("C", FieldKind::Unsigned)
        && j.has("n", FieldKind::Unsigned)
}

fn is_window_ticker(j: &JsonValue) -> (r: bool)
    ensures
        r == EventKind::WindowTicker.fits(*j),
{
    j.has("e", FieldKind::Text)
        && j.has("E", FieldKind::Unsigned)
        && j.has("s", FieldKind::Text)
        && j.has("p", FieldKind::Text)
        && j.has("P", FieldKind::Text)
        && j.has("o", FieldKind::Text)
        && j.has("h", FieldKind::Text)
        && j.has("l", FieldKind::Text)
        && j.has("c", FieldKind::Text)
        && j.has("w", FieldKind::Text)
        && j.has("v", FieldKind::Text)
        && j.has("q", FieldKind::Text)
        && j.has("O", FieldKind::Unsigned)
        && j.has("C", FieldKind::Unsigned)
        && j.has("n", FieldKind::Unsigned)
}

fn is_mini_ticker(j: &JsonValue) -> (r: bool)
    ensures
        r == EventKind::MiniTicker.fits(*j),
{
    j.has("e", FieldKind::Text)
        && j.has("E", FieldKind::Unsigned)
        && j.has("s", FieldKind::Text)
        && j.has("c", FieldKind::Text)
        && j.has("o", FieldKind::Text)
        && j.has("h", FieldKind::Text)
        && j.has("l", FieldKind::Text)
        && j.has("v", FieldKind::Text)
        && j.has("q", FieldKind::Text)
}

fn is_book_ticker(j: &JsonValue) -> (r: bool)
    ensures
        r == EventKind::BookTicker.fits(*j),
{
    j.has("u", FieldKind::Unsigned)
        && j.has("s", FieldKind::Text)
        && j.has("b", FieldKind::Text)
        && j.has("B", FieldKind::Text)
        && j.has("a", FieldKind::Text)
        && j.has("A", FieldKind::Text)
}

fn is_balance_update(j: &JsonValue) -> (r: bool)
    ensures
        r == EventKind::BalanceUpdate.fits(*j),
{
    j.has("e", FieldKind::Text)
        && j.has("E", FieldKind::Unsigned)
        && j.has("a", FieldKind::Text)
        && j.has("d", FieldKind::Text)
        && j.has("T", FieldKind::Unsigned)
}

fn is_account_update(j: &JsonValue) -> (r: bool)
    ensures
        r == EventKind::AccountUpdate.fits(*j),
{
    j.has("e", FieldKind::Text)
        && j.has("E", FieldKind::Unsigned)
        && j.has("u", FieldKind::Unsigned)
        && j.has("B", FieldKind::List)
}

fn is_order_trade(j: &JsonValue) -> (r: bool)
    ensures
        r == EventKind::OrderTrade.fits(*j),
{
    j.has("e", FieldKind::Text)
        && j.has("E", FieldKind::Unsigned)
        && j.has("s", FieldKind::Text)
        && j.has("c", FieldKind::Text)
        && j.has("S", FieldKind::Text)
        && j.has("o", FieldKind::Text)
        && j.has("q", FieldKind::Text)
        && j.has("p", FieldKind::Text)
        && j.has("x", FieldKind::Text)
        && j.has("X", FieldKind::Text)
        && j.has("i", FieldKind::Unsigned)
        && j.has("z", FieldKind::Text)
        && j.has("T", FieldKind::Unsigned)
}

fn is_futures_order_trade(j: &JsonValue) -> (r: bool)
    ensures
        r == EventKind::FuturesOrderTrade.fits(*j),
{
    j.has("e", FieldKind::Text)
        && j.has("E", FieldKind::Unsigned)
        && j.has("T", FieldKind::Unsigned)
        && j.has("o", FieldKind::Record)
}

fn is_futures_account_update(j: &JsonValue) -> (r: bool)
    ensures
        r == EventKind::FuturesAccountUpdate.fits(*j),
{
    j.has("e", FieldKind::Text)
        && j.has("E", FieldKind::Unsigned)
        && j.has("T", FieldKind::Unsigned)
        && j.has("a", FieldKind::Record)
}

fn is_kline(j: &JsonValue) -> (r: bool)
    ensures
        r == EventKind::Kline.fits(*j),
{
    j.has("e", FieldKind::Text)
        && j.has("E", FieldKind::Unsigned)
        && j.has("s", FieldKind::Text)
        && j.has("k", FieldKind::Record)
}

fn is_continuous_kline(j: &JsonValue) -> (r: bool)
    ensures
        r == EventKind::ContinuousKline.fits(*j),
{
    j.has("e", FieldKind::Text)
        && j.has("E", FieldKind::Unsigned)
        && j.has("ps", FieldKind::Text)
        && j.has("ct", FieldKind::Text)
        && j.has("k", FieldKind::Record)
}

fn is_index_kline(j: &JsonValue) -> (r: bool)
    ensures
        r == EventKind::IndexKline.fits(*j),
{
    j.has("e", FieldKind::Text)
        && j.has("E", FieldKind::Unsigned)
        && j.has("ps", FieldKind::Text)
        && j.has("k", FieldKind::Record)
}

fn is_order_book(j: &JsonValue) -> (r: bool)
    ensures
        r == EventKind::OrderBook.fits(*j),
{
    j.has("lastUpdateId", FieldKind::Unsigned)
        && j.has("bids", FieldKind::List)
        && j.has("asks", FieldKind::List)
}

fn is_depth_order_book(j: &JsonValue) -> (r: bool)
    ensures
        r == EventKind::DepthOrderBook.fits(*j),
{
    j.has("e", FieldKind::Text)
        && j.has("E", FieldKind::Unsigned)
        && j.has("s", FieldKind::Text)
        && j.has("U", FieldKind::Unsigned)
        && j.has("u", FieldKind::Unsigned)
        && j.has("b", FieldKind::List)
        && j.has("a", FieldKind::List)
}

fn is_index_price(j: &JsonValue) -> (r: bool)
    ensures
        r == EventKind::IndexPrice.fits(*j),
{
    j.has("e", FieldKind::Text)
        && j.has("E", FieldKind::Unsigned)
        && j.has("i", FieldKind::Text)
        && j.has("p", FieldKind::Text)
}

fn is_mark_price(j: &JsonValue) -> (r: bool)
    ensures
        r == EventKind::MarkPrice.fits(*j),
{
    j.has("e", FieldKind::Text)
        && j.has("E", FieldKind::Unsigned)
        && j.has("s", FieldKind::Text)
        && j.has("p", FieldKind::Text)
        && j.has("i", FieldKind::Text)
        && j.has("P", FieldKind::Text)
        && j.has("r", FieldKind::Text)
        && j.has("T", FieldKind::Unsigned)
}

fn is_liquidation(j: &JsonValue) -> (r: bool)
    ensures
        r == EventKind::Liquidation.fits(*j),
{
    j.has("e", FieldKind::Text)
        && j.has("E", FieldKind::Unsigned)
        && j.has("o", FieldKind::Record)
}

fn is_stream_expired(j: &JsonValue) -> (r: bool)
    ensures
        r == EventKind::StreamExpired.fits(*j),
{
    j.has("e", FieldKind::Text)
        && j.has("E", FieldKind::Unsigned)
}

impl EventKind {
    /// Whether every item of `items` fits this kind.
    pub open spec fn fits_all(self, items: Seq<JsonValue>) -> bool {
        forall|i: int| 0 <= i < items.len() ==> #[trigger] self.fits(items[i])
    }
}

impl Variant {
    /// Whether `j` has the shape of this alternative.
    pub open spec fn fits(self, j: JsonValue) -> bool {
        match self {
            Variant::Single(k) => k.fits(j),
            Variant::Batch(k) => j is Array && k.fits_all(j->Array_0@),
        }
    }

    /// The raw event that `j` becomes under this alternative.
    pub open spec fn build(self, j: JsonValue) -> Option<RawEvent> {
        match self {
            Variant::Single(k) => Some(RawEvent::Single(k, j)),
            Variant::Batch(k) => match j {
                JsonValue::Array(items) => Some(RawEvent::Batch(k, items)),
                _ => None,
            },
        }
    }

    /// Whether `j` has the shape of this alternative.
    pub fn accepts(self, j: &JsonValue) -> (r: bool)
        ensures
            r == self.fits(*j),
    {
        match self {
            Variant::Single(k) => k.matches_object(j),
            Variant::Batch(k) => match j {
                JsonValue::Array(items) => {
                    let mut i: usize = 0;
                    while i < items.len()
                        invariant
                            *j == JsonValue::Array(*items),
                            self == Variant::Batch(k),
                            i <= items@.len(),
                            forall|m: int| 0 <= m < i ==> #[trigger] k.fits(items@[m]),
                        decreases items@.len() - i,
                    {
                        if !k.matches_object(&items[i]) {
                            assert(!k.fits(items@[i as int]));
                            return false;
                        }
                        i = i + 1;
                    }
                    true
                },
                _ => false,
            },
        }
    }

    /// Turns `j` into the raw event of this alternative.
    pub fn make(self, j: JsonValue) -> (r: RawEvent)
        requires
            self.fits(j),
        ensures
            self.build(j) == Some(r),
            r.variant() == self,
    {
        match self {
            Variant::Single(k) => RawEvent::Single(k, j),
            Variant::Batch(k) => match j {
                JsonValue::Array(items) => RawEvent::Batch(k, items),
                _ => vstd::pervasive::unreached(),
            },
        }
    }
}

} // verus!
