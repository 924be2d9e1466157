use vstd::prelude::*;

verus! {

/// The kinds of spot order.
#[derive(Clone, Copy, Debug, PartialEq, Eq, Structural)]
pub enum OrderType {
    Limit,
    Market,
    StopLossLimit,
}

impl OrderType {
    /// The variant numbered `value`, counting from 1 in declaration order.
    pub open spec fn numbered(value: i32) -> Option<OrderType> {
        if value == 1 {
            Some(OrderType::Limit)
        } else if value == 2 {
            Some(OrderType::Market)
        } else if value == 3 {
            Some(OrderType::StopLossLimit)
        } else {
            None
        }
    }

    pub fn from_int(value: i32) -> (r: Option<Self>)
        ensures
            r == Self::numbered(value),
    {
        match value {
            1 => Some(OrderType::Limit),
            2 => Some(OrderType::Market),
            3 => Some(OrderType::StopLossLimit),
            _ => None,
        }
    }

    /// The name of this value on the wire.
    pub open spec fn wire_name(self) -> Seq<char> {
        match self {
            OrderType::Limit => "LIMIT"@,
            OrderType::Market => "MARKET"@,
            OrderType::StopLossLimit => "STOP_LOSS_LIMIT"@,
        }
    }

    /// The name of this value on the wire.
    pub fn to_string(&self) -> (r: String)
        ensures
            r@ == self.wire_name(),
    {
        match self {
            OrderType::Limit => "LIMIT".to_owned(),
            OrderType::Market => "MARKET".to_owned(),
            OrderType::StopLossLimit => "STOP_LOSS_LIMIT".to_owned(),
        }
    }
}

/// The sides of an order.
#[derive(Clone, Copy, Debug, PartialEq, Eq, Structural)]
pub enum OrderSide {
    Buy,
    Sell,
}

impl OrderSide {
    /// The variant numbered `value`, counting from 1 in declaration order.
    pub open spec fn numbered(value: i32) -> Option<OrderSide> {
        if value == 1 {
            Some(OrderSide::Buy)
        } else if value == 2 {
            Some(OrderSide::Sell)
        } else {
            None
        }
    }

    pub fn from_int(value: i32) -> (r: Option<Self>)
        ensures
            r == Self::numbered(value),
    {
        match value {
            1 => Some(OrderSide::Buy),
            2 => Some(OrderSide::Sell),
            _ => None,
        }
    }

    /// The name of this value on the wire.
    pub open spec fn wire_name(self) -> Seq<char> {
        match self {
            OrderSide::Buy => "BUY"@,
            OrderSide::Sell => "SELL"@,
        }
    }

    /// The name of this value on the wire.
    pub fn to_string(&self) -> (r: String)
        ensures
            r@ == self.wire_name(),
    {
        match self {
            OrderSide::Buy => "BUY".to_owned(),
            OrderSide::Sell => "SELL".to_owned(),
        }
    }
}

/// How long a spot order stays active.
#[derive(Clone, Copy, Debug, PartialEq, Eq, Structural)]
pub enum TimeInForce {
    /// Good till cancelled.
    GTC,
    /// Immediate or cancel.
    IOC,
    /// Fill or kill.
    FOK,
}

impl TimeInForce {
    /// The variant numbered `value`, counting from 1 in declaration order.
    pub open spec fn numbered(value: i32) -> Option<TimeInForce> {
        if value == 1 {
            Some(TimeInForce::GTC)
        } else if value == 2 {
            Some(TimeInForce::IOC)
        } else if value == 3 {
            Some(TimeInForce::FOK)
        } else {
            None
        }
    }

    pub fn from_int(value: i32) -> (r: Option<Self>)
        ensures
            r == Self::numbered(value),
    {
        match value {
            1 => Some(TimeInForce::GTC),
            2 => Some(TimeInForce::IOC),
            3 => Some(TimeInForce::FOK),
            _ => None,
        }
    }

    /// The name of this value on the wire.
    pub open spec fn wire_name(self) -> Seq<char> {
        match self {
            TimeInForce::GTC => "GTC"@,
            TimeInForce::IOC => "IOC"@,
            TimeInForce::FOK => "FOK"@,
        }
    }

    /// The name of this value on the wire.
    pub fn to_string(&self) -> (r: String)
        ensures
            r@ == self.wire_name(),
    {
        match self {
            TimeInForce::GTC => "GTC".to_owned(),
            TimeInForce::IOC => "IOC".to_owned(),
            TimeInForce::FOK => "FOK".to_owned(),
        }
    }
}

} // verus!
