use vstd::prelude::*;

verus! {

/// The delivery schedules of a derivatives contract.
#[derive(Clone, Copy, Debug, PartialEq, Eq, Structural)]
pub enum ContractType {
    Perpetual,
    CurrentMonth,
    NextMonth,
    CurrentQuarter,
    NextQuarter,
}

impl ContractType {
    /// The name of this value on the wire.
    pub open spec fn wire_name(self) -> Seq<char> {
        match self {
            ContractType::Perpetual => "PERPETUAL"@,
            ContractType::CurrentMonth => "CURRENT_MONTH"@,
            ContractType::NextMonth => "NEXT_MONTH"@,
            ContractType::CurrentQuarter => "CURRENT_QUARTER"@,
            ContractType::NextQuarter => "NEXT_QUARTER"@,
        }
    }

    /// The name of this value on the wire.
    pub fn to_string(&self) -> (r: String)
        ensures
            r@ == self.wire_name(),
    {
        match self {
            ContractType::Perpetual => "PERPETUAL".to_owned(),
            ContractType::CurrentMonth => "CURRENT_MONTH".to_owned(),
            ContractType::NextMonth => "NEXT_MONTH".to_owned(),
            ContractType::CurrentQuarter => "CURRENT_QUARTER".to_owned(),
            ContractType::NextQuarter => "NEXT_QUARTER".to_owned(),
        }
    }
}

impl From<ContractType> for String {
    fn from(item: ContractType) -> (r: String)
        ensures
            r@ == item.wire_name(),
    {
        item.to_string()
    }
}

impl vstd::std_specs::convert::FromSpecImpl<ContractType> for String {
    open spec fn obeys_from_spec() -> bool {
        false
    }

    open spec fn from_spec(item: ContractType) -> String {
        arbitrary()
    }
}

/// The side of a position in hedge mode.
#[derive(Clone, Copy, Debug, PartialEq, Eq, Structural)]
pub enum PositionSide {
    Both,
    Long,
    Short,
}

impl PositionSide {
    /// The name of this value on the wire.
    pub open spec fn wire_name(self) -> Seq<char> {
        match self {
            PositionSide::Both => "BOTH"@,
            PositionSide::Long => "LONG"@,
            PositionSide::Short => "SHORT"@,
        }
    }

    /// The name of this value on the wire.
    pub fn to_string(&self) -> (r: String)
        ensures
            r@ == self.wire_name(),
    {
        match self {
            PositionSide::Both => "BOTH".to_owned(),
            PositionSide::Long => "LONG".to_owned(),
            PositionSide::Short => "SHORT".to_owned(),
        }
    }
}

/// The kinds of derivatives order.
#[derive(Clone, Copy, Debug, PartialEq, Eq, Structural)]
pub enum OrderType {
    Limit,
    Market,
    Stop,
    StopMarket,
    TakeProfit,
    TakeProfitMarket,
    TrailingStopMarket,
}

impl OrderType {
    /// The name of this value on the wire.
    pub open spec fn wire_name(self) -> Seq<char> {
        match self {
            OrderType::Limit => "LIMIT"@,
            OrderType::Market => "MARKET"@,
            OrderType::Stop => "STOP"@,
            OrderType::StopMarket => "STOP_MARKET"@,
            OrderType::TakeProfit => "TAKE_PROFIT"@,
            OrderType::TakeProfitMarket => "TAKE_PROFIT_MARKET"@,
            OrderType::TrailingStopMarket => "TRAILING_STOP_MARKET"@,
        }
    }

    /// The name of this value on the wire.
    pub fn to_string(&self) -> (r: String)
        ensures
            r@ == self.wire_name(),
    {
        match self {
            OrderType::Limit => "LIMIT".to_owned(),
            OrderType::Market => "MARKET".to_owned(),
            OrderType::Stop => "STOP".to_owned(),
            OrderType::StopMarket => "STOP_MARKET".to_owned(),
            OrderType::TakeProfit => "TAKE_PROFIT".to_owned(),
            OrderType::TakeProfitMarket => "TAKE_PROFIT_MARKET".to_owned(),
            OrderType::TrailingStopMarket => "TRAILING_STOP_MARKET".to_owned(),
        }
    }
}

/// The price that triggers a conditional order.
#[derive(Clone, Copy, Debug, PartialEq, Eq, Structural)]
pub enum WorkingType {
    MarkPrice,
    ContractPrice,
}

impl WorkingType {
    /// The name of this value on the wire.
    pub open spec fn wire_name(self) -> Seq<char> {
        match self {
            WorkingType::MarkPrice => "MARK_PRICE"@,
            WorkingType::ContractPrice => "CONTRACT_PRICE"@,
        }
    }

    /// The name of this value on the wire.
    pub fn to_string(&self) -> (r: String)
        ensures
            r@ == self.wire_name(),
    {
        match self {
            WorkingType::MarkPrice => "MARK_PRICE".to_owned(),
            WorkingType::ContractPrice => "CONTRACT_PRICE".to_owned(),
        }
    }
}

/// How long a derivatives order stays active.
#[derive(Clone, Copy, Debug, PartialEq, Eq, Structural)]
pub enum TimeInForce {
    /// Good till cancelled.
    GTC,
    /// Immediate or cancel.
    IOC,
    /// Fill or kill.
    FOK,
    /// Good till crossing: post only.
    GTX,
}

impl TimeInForce {
    /// The name of this value on the wire.
    pub open spec fn wire_name(self) -> Seq<char> {
        match self {
            TimeInForce::GTC => "GTC"@,
            TimeInForce::IOC => "IOC"@,
            TimeInForce::FOK => "FOK"@,
            TimeInForce::GTX => "GTX"@,
        }
    }

    /// The name of this value on the wire.
    pub fn to_string(&self) -> (r: String)
        ensures
            r@ == self.wire_name(),
    {
        match self {
            TimeInForce::GTC => "GTC".to_owned(),
            TimeInForce::IOC => "IOC".to_owned(),
            TimeInForce::FOK => "FOK".to_owned(),
            TimeInForce::GTX => "GTX".to_owned(),
        }
    }
}

/// The kinds of entry in an account's income history.
#[allow(non_camel_case_types)]
#[derive(Clone, Copy, Debug, PartialEq, Eq, Structural)]
pub enum IncomeType {
    TRANSFER,
    WELCOME_BONUS,
    REALIZED_PNL,
    FUNDING_FEE,
    COMMISSION,
    INSURANCE_CLEAR,
    REFERRAL_KICKBACK,
    COMMISSION_REBATE,
    API_REBATE,
    CONTEST_REWARD,
    CROSS_COLLATERAL_TRANSFER,
    OPTIONS_PREMIUM_FEE,
    OPTIONS_SETTLE_PROFIT,
    INTERNAL_TRANSFER,
    AUTO_EXCHANGE,
    DELIVERED_SETTELMENT,
    COIN_SWAP_DEPOSIT,
    COIN_SWAP_WITHDRAW,
    POSITION_LIMIT_INCREASE_FEE,
}

impl IncomeType {
    /// The name of this value on the wire.
    pub open spec fn wire_name(self) -> Seq<char> {
        match self {
            IncomeType::TRANSFER => "TRANSFER"@,
            IncomeType::WELCOME_BONUS => "WELCOME_BONUS"@,
            IncomeType::REALIZED_PNL => "REALIZED_PNL"@,
            IncomeType::FUNDING_FEE => "FUNDING_FEE"@,
            IncomeType::COMMISSION => "COMMISSION"@,
            IncomeType::INSURANCE_CLEAR => "INSURANCE_CLEAR"@,
            IncomeType::REFERRAL_KICKBACK => "REFERRAL_KICKBACK"@,
            IncomeType::COMMISSION_REBATE => "COMMISSION_REBATE"@,
            IncomeType::API_REBATE => "API_REBATE"@,
            IncomeType::CONTEST_REWARD => "CONTEST_REWARD"@,
            IncomeType::CROSS_COLLATERAL_TRANSFER => "CROSS_COLLATERAL_TRANSFER"@,
            IncomeType::OPTIONS_PREMIUM_FEE => "OPTIONS_PREMIUM_FEE"@,
            IncomeType::OPTIONS_SETTLE_PROFIT => "OPTIONS_SETTLE_PROFIT"@,
            IncomeType::INTERNAL_TRANSFER => "INTERNAL_TRANSFER"@,
            IncomeType::AUTO_EXCHANGE => "AUTO_EXCHANGE"@,
            IncomeType::DELIVERED_SETTELMENT => "DELIVERED_SETTELMENT"@,
            IncomeType::COIN_SWAP_DEPOSIT => "COIN_SWAP_DEPOSIT"@,
            IncomeType::COIN_SWAP_WITHDRAW => "COIN_SWAP_WITHDRAW"@,
            IncomeType::POSITION_LIMIT_INCREASE_FEE => "POSITION_LIMIT_INCREASE_FEE"@,
        }
    }

    /// The name of this value on the wire.
    pub fn to_string(&self) -> (r: String)
        ensures
            r@ == self.wire_name(),
    {
        match self {
            IncomeType::TRANSFER => "TRANSFER".to_owned(),
            IncomeType::WELCOME_BONUS => "WELCOME_BONUS".to_owned(),
            IncomeType::REALIZED_PNL => "REALIZED_PNL".to_owned(),
            IncomeType::FUNDING_FEE => "FUNDING_FEE".to_owned(),
            IncomeType::COMMISSION => "COMMISSION".to_owned(),
            IncomeType::INSURANCE_CLEAR => "INSURANCE_CLEAR".to_owned(),
            IncomeType::REFERRAL_KICKBACK => "REFERRAL_KICKBACK".to_owned(),
            IncomeType::COMMISSION_REBATE => "COMMISSION_REBATE".to_owned(),
            IncomeType::API_REBATE => "API_REBATE".to_owned(),
            IncomeType::CONTEST_REWARD => "CONTEST_REWARD".to_owned(),
            IncomeType::CROSS_COLLATERAL_TRANSFER => "CROSS_COLLATERAL_TRANSFER".to_owned(),
            IncomeType::OPTIONS_PREMIUM_FEE => "OPTIONS_PREMIUM_FEE".to_owned(),
            IncomeType::OPTIONS_SETTLE_PROFIT => "OPTIONS_SETTLE_PROFIT".to_owned(),
            IncomeType::INTERNAL_TRANSFER => "INTERNAL_TRANSFER".to_owned(),
            IncomeType::AUTO_EXCHANGE => "AUTO_EXCHANGE".to_owned(),
            IncomeType::DELIVERED_SETTELMENT => "DELIVERED_SETTELMENT".to_owned(),
            IncomeType::COIN_SWAP_DEPOSIT => "COIN_SWAP_DEPOSIT".to_owned(),
            IncomeType::COIN_SWAP_WITHDRAW => "COIN_SWAP_WITHDRAW".to_owned(),
            IncomeType::POSITION_LIMIT_INCREASE_FEE => "POSITION_LIMIT_INCREASE_FEE".to_owned(),
        }
    }
}

/// A filter on an account's income history.
#[derive(Clone, Debug)]
pub struct IncomeRequest {
    pub symbol: Option<String>,
    pub income_type: Option<IncomeType>,
    pub start_time: Option<u64>,
    pub end_time: Option<u64>,
    /// At most 1000.
    pub limit: Option<u32>,
}

} // verus!
