//! Order events: the records that drive an order through its lifecycle.
use vstd::prelude::*;

use crate::enums::{
    ContingencyType, LiquiditySide, OrderSide, OrderType, TimeInForce, TriggerType,
};
use crate::identifiers::{
    AccountId, ClientOrderId, InstrumentId, OrderListId, PositionId, StrategyId, TradeId,
    TraderId, VenueOrderId,
};
use crate::types::{Price, Quantity};

verus! {

/// An order was created; carries all of its parameters.
#[derive(Clone, Debug, PartialEq, Eq)]
pub struct OrderInitialized {
    pub trader_id: TraderId,
    pub strategy_id: StrategyId,
    pub instrument_id: InstrumentId,
    pub client_order_id: ClientOrderId,
    pub order_side: OrderSide,
    pub order_type: OrderType,
    pub quantity: Quantity,
    pub price: Option<Price>,
    pub trigger_price: Option<Price>,
    pub trigger_type: Option<TriggerType>,
    pub time_in_force: TimeInForce,
    pub expire_time: Option<u64>,
    pub post_only: bool,
    pub reduce_only: bool,
    pub quote_quantity: bool,
    pub display_qty: Option<Quantity>,
    pub limit_offset: Option<Price>,
    pub trailing_offset: Option<Price>,
    pub trailing_offset_type: Option<TriggerType>,
    pub emulation_trigger: Option<TriggerType>,
    pub contingency_type: Option<ContingencyType>,
    pub order_list_id: Option<OrderListId>,
    pub linked_order_ids: Option<Vec<ClientOrderId>>,
    pub parent_order_id: Option<ClientOrderId>,
    pub tags: Option<String>,
    pub event_id: u128,
    pub ts_event: u64,
    pub ts_init: u64,
    pub reconciliation: bool,
}

/// The order was refused before it left the system.
#[derive(Clone, Debug, PartialEq, Eq)]
pub struct OrderDenied {
    pub trader_id: TraderId,
    pub strategy_id: StrategyId,
    pub instrument_id: InstrumentId,
    pub client_order_id: ClientOrderId,
    pub reason: String,
    pub event_id: u128,
    pub ts_event: u64,
    pub ts_init: u64,
}

/// The order was sent to a venue through an account.
#[derive(Clone, Debug, PartialEq, Eq)]
pub struct OrderSubmitted {
    pub trader_id: TraderId,
    pub strategy_id: StrategyId,
    pub instrument_id: InstrumentId,
    pub client_order_id: ClientOrderId,
    pub account_id: AccountId,
    pub event_id: u128,
    pub ts_event: u64,
    pub ts_init: u64,
}

/// The venue refused the order.
#[derive(Clone, Debug, PartialEq, Eq)]
pub struct OrderRejected {
    pub trader_id: TraderId,
    pub strategy_id: StrategyId,
    pub instrument_id: InstrumentId,
    pub client_order_id: ClientOrderId,
    pub account_id: AccountId,
    pub reason: String,
    pub event_id: u128,
    pub ts_event: u64,
    pub ts_init: u64,
}

/// The venue accepted the order under its own identifier.
#[derive(Clone, Debug, PartialEq, Eq)]
pub struct OrderAccepted {
    pub trader_id: TraderId,
    pub strategy_id: StrategyId,
    pub instrument_id: InstrumentId,
    pub client_order_id: ClientOrderId,
    pub venue_order_id: VenueOrderId,
    pub account_id: AccountId,
    pub event_id: u128,
    pub ts_event: u64,
    pub ts_init: u64,
}

/// Payload shared by the events that only report a step: a pending request, a
/// trigger, a cancel or an expiry.
#[derive(Clone, Debug, PartialEq, Eq)]
pub struct OrderStep {
    pub trader_id: TraderId,
    pub strategy_id: StrategyId,
    pub instrument_id: InstrumentId,
    pub client_order_id: ClientOrderId,
    pub venue_order_id: Option<VenueOrderId>,
    pub account_id: Option<AccountId>,
    pub event_id: u128,
    pub ts_event: u64,
    pub ts_init: u64,
}

/// The venue refused a pending modify or cancel request.
#[derive(Clone, Debug, PartialEq, Eq)]
pub struct OrderRequestRejected {
    pub trader_id: TraderId,
    pub strategy_id: StrategyId,
    pub instrument_id: InstrumentId,
    pub client_order_id: ClientOrderId,
    pub venue_order_id: Option<VenueOrderId>,
    pub account_id: Option<AccountId>,
    pub reason: String,
    pub event_id: u128,
    pub ts_event: u64,
    pub ts_init: u64,
}

/// The venue confirmed a modification of the order.
#[derive(Clone, Debug, PartialEq, Eq)]
pub struct OrderUpdated {
    pub trader_id: TraderId,
    pub strategy_id: StrategyId,
    pub instrument_id: InstrumentId,
    pub client_order_id: ClientOrderId,
    pub venue_order_id: Option<VenueOrderId>,
    pub account_id: Option<AccountId>,
    pub quantity: Quantity,
    pub price: Option<Price>,
    pub trigger_price: Option<Price>,
    pub event_id: u128,
    pub ts_event: u64,
    pub ts_init: u64,
}

/// A trade against the order.
#[derive(Clone, Debug, PartialEq, Eq)]
pub struct OrderFilled {
    pub trader_id: TraderId,
    pub strategy_id: StrategyId,
    pub instrument_id: InstrumentId,
    pub client_order_id: ClientOrderId,
    pub venue_order_id: VenueOrderId,
    pub account_id: AccountId,
    pub trade_id: TradeId,
    pub position_id: Option<PositionId>,
    pub order_side: OrderSide,
    pub order_type: OrderType,
    pub last_qty: Quantity,
    pub last_px: Price,
    pub liquidity_side: LiquiditySide,
    pub event_id: u128,
    pub ts_event: u64,
    pub ts_init: u64,
}

/// One event in an order's lifecycle.
#[derive(Clone, Debug, PartialEq, Eq)]
pub enum OrderEvent {
    OrderInitialized(OrderInitialized),
    OrderDenied(OrderDenied),
    OrderSubmitted(OrderSubmitted),
    OrderRejected(OrderRejected),
    OrderAccepted(OrderAccepted),
    OrderPendingUpdate(OrderStep),
    OrderPendingCancel(OrderStep),
    OrderModifyRejected(OrderRequestRejected),
    OrderCancelRejected(OrderRequestRejected),
    OrderUpdated(OrderUpdated),
    OrderTriggered(OrderStep),
    OrderCanceled(OrderStep),
    OrderExpired(OrderStep),
    OrderPartiallyFilled(OrderFilled),
    OrderFilled(OrderFilled),
}

} // verus!
