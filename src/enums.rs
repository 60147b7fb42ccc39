//! Enumerations shared by orders and their events.
use vstd::prelude::*;

verus! {

/// The lifecycle status of an order.
#[derive(Clone, Copy, Debug, PartialEq, Eq, Structural, Hash)]
pub enum OrderStatus {
    Initialized,
    Denied,
    Submitted,
    Rejected,
    Accepted,
    PendingUpdate,
    PendingCancel,
    Canceled,
    Expired,
    Triggered,
    PartiallyFilled,
    Filled,
}

/// The side of an order.
#[derive(Clone, Copy, Debug, PartialEq, Eq, Structural, Hash)]
pub enum OrderSide {
    NoOrderSide,
    Buy,
    Sell,
}

/// The type of an order.
#[derive(Clone, Copy, Debug, PartialEq, Eq, Structural, Hash)]
pub enum OrderType {
    Market,
    Limit,
    StopMarket,
    StopLimit,
    MarketToLimit,
    MarketIfTouched,
    LimitIfTouched,
    TrailingStopMarket,
    TrailingStopLimit,
}

/// The side of a position.
#[derive(Clone, Copy, Debug, PartialEq, Eq, Structural, Hash)]
pub enum PositionSide {
    NoPositionSide,
    Flat,
    Long,
    Short,
}

/// How long an order stays working.
#[derive(Clone, Copy, Debug, PartialEq, Eq, Structural, Hash)]
pub enum TimeInForce {
    Gtc,
    Ioc,
    Fok,
    Gtd,
    Day,
    AtTheOpen,
    AtTheClose,
}

/// The market data that triggers a conditional or emulated order.
#[derive(Clone, Copy, Debug, PartialEq, Eq, Structural, Hash)]
pub enum TriggerType {
    NoTrigger,
    Default,
    BidAsk,
    LastTrade,
    DoubleLast,
    DoubleBidAsk,
    LastOrBidAsk,
    MidPoint,
    MarkPrice,
    IndexPrice,
}

/// How an order is linked to other orders.
#[derive(Clone, Copy, Debug, PartialEq, Eq, Structural, Hash)]
pub enum ContingencyType {
    NoContingency,
    Oco,
    Oto,
    Ouo,
}

/// Whether a fill added or removed liquidity.
#[derive(Clone, Copy, Debug, PartialEq, Eq, Structural, Hash)]
pub enum LiquiditySide {
    NoLiquiditySide,
    Maker,
    Taker,
}

} // verus!
