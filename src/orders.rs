//! The order aggregate: one order's state, advanced one event at a time.
use vstd::prelude::*;

use crate::enums::{
    ContingencyType, LiquiditySide, OrderSide, OrderStatus, OrderType, PositionSide, TimeInForce,
    TriggerType,
};
use crate::events::{OrderAccepted, OrderEvent, OrderFilled, OrderInitialized, OrderSubmitted, OrderUpdated};
use crate::identifiers::{
    AccountId, ClientOrderId, InstrumentId, OrderListId, PositionId, StrategyId, TradeId,
    TraderId, VenueOrderId,
};
use crate::status::{transition_table, OrderError};
use crate::types::{AvgPx, Price, Quantity, Slippage};

verus! {

/// One more than the largest raw price: raw prices lie in `[-px_bound(), px_bound())`.
pub open spec fn px_bound() -> int {
    0x8000_0000_0000_0000
}

/// The sums of raw quantity times raw price that `q` raw units of fills can reach.
pub open spec fn notional_in_range(n: int, q: int) -> bool {
    -px_bound() * q <= n <= (px_bound() - 1) * q
}

/// An average price as (notional, quantity).
pub open spec fn avg_view(avg: Option<AvgPx>) -> Option<(int, int)> {
    match avg {
        Some(a) => Some((a.notional as int, a.qty as int)),
        None => None,
    }
}

/// A slippage as (numerator, denominator).
pub open spec fn slippage_view(s: Option<Slippage>) -> Option<(int, int)> {
    match s {
        Some(x) => Some((x.numer as int, x.denom as int)),
        None => None,
    }
}

/// The average price after a fill of `qty` at `px`: the first fill seeds it, later
/// fills add their notional and quantity.
pub open spec fn avg_after_fill(avg: Option<(int, int)>, qty: int, px: int) -> (int, int) {
    match avg {
        None => (qty * px, qty),
        Some((n, q)) => (n + qty * px, q + qty),
    }
}

/// Slippage of an average price against a reference price: how much worse than the
/// reference the average is, as a fraction; `None` where it is not worse.
pub open spec fn slippage_of(side: OrderSide, price: Option<Price>, avg: Option<(int, int)>) -> Option<(int, int)> {
    match (avg, price) {
        (Some((n, q)), Some(p)) => {
            let reference = p.raw * q;
            if side == OrderSide::Buy && n > reference {
                Some((n - reference, q))
            } else if side == OrderSide::Sell && reference > n {
                Some((reference - n, q))
            } else {
                None
            }
        },
        _ => None,
    }
}

pub open spec fn is_open_status(s: OrderStatus) -> bool {
    s == OrderStatus::Accepted || s == OrderStatus::Triggered || s == OrderStatus::PendingCancel
        || s == OrderStatus::PendingUpdate || s == OrderStatus::PartiallyFilled
}

pub open spec fn is_closed_status(s: OrderStatus) -> bool {
    s == OrderStatus::Denied || s == OrderStatus::Rejected || s == OrderStatus::Canceled
        || s == OrderStatus::Expired || s == OrderStatus::Filled
}

pub open spec fn is_inflight_status(s: OrderStatus) -> bool {
    s == OrderStatus::Submitted || s == OrderStatus::PendingCancel || s == OrderStatus::PendingUpdate
}

pub open spec fn opposite_side_of(side: OrderSide) -> OrderSide {
    match side {
        OrderSide::Buy => OrderSide::Sell,
        OrderSide::Sell => OrderSide::Buy,
        OrderSide::NoOrderSide => OrderSide::NoOrderSide,
    }
}

pub open spec fn closing_side_of(side: PositionSide) -> OrderSide {
    match side {
        PositionSide::Long => OrderSide::Sell,
        PositionSide::Short => OrderSide::Buy,
        PositionSide::Flat => OrderSide::NoOrderSide,
        PositionSide::NoPositionSide => OrderSide::NoOrderSide,
    }
}

/// Whether `event` resolves the pending request of an order in `status`: a modify
/// rejected or confirmed in `PendingUpdate`, a cancel rejected in `PendingCancel`.
/// Such an event has no row in the transition table.
pub open spec fn resolves_pending(status: OrderStatus, event: OrderEvent) -> bool {
    ||| status == OrderStatus::PendingUpdate && (event is OrderModifyRejected || event is OrderUpdated)
    ||| status == OrderStatus::PendingCancel && event is OrderCancelRejected
}

/// Whether `event` repeats the pending request of an order in `status`.
pub open spec fn repeats_request(status: OrderStatus, event: OrderEvent) -> bool {
    ||| status == OrderStatus::PendingUpdate && event is OrderPendingUpdate
    ||| status == OrderStatus::PendingCancel && event is OrderPendingCancel
}

pub open spec fn is_fill(event: OrderEvent) -> bool {
    event is OrderPartiallyFilled || event is OrderFilled
}

/// The status and rollback slot after `event` from status `status` with rollback
/// slot `previous`, or `None` where the event is refused; `completes` tells whether
/// a fill leaves nothing unfilled.
///
/// An event that resolves a pending request returns to the status in the rollback
/// slot. Any other event takes the status that the transition table gives, except
/// that a fill leads to `Filled` when it completes the order and to
/// `PartiallyFilled` otherwise. Every accepted event records the status it leaves
/// in the slot, but for a repeated pending request, which keeps the slot so that a
/// rejection returns to the status held before the first request.
pub open spec fn status_step(
    status: OrderStatus,
    previous: Option<OrderStatus>,
    event: OrderEvent,
    completes: bool,
) -> Option<(OrderStatus, Option<OrderStatus>)> {
    if resolves_pending(status, event) {
        Some((
            match previous {
                Some(p) => p,
                None => status,
            },
            Some(status),
        ))
    } else {
        match transition_table(status, event) {
            None => None,
            Some(next) => {
                let target = if is_fill(event) {
                    if completes {
                        OrderStatus::Filled
                    } else {
                        OrderStatus::PartiallyFilled
                    }
                } else {
                    next
                };
                Some((target, if repeats_request(status, event) { previous } else { Some(status) }))
            },
        }
    }
}

/// The status and rollback slot after `events` in order, or `None` where one is
/// refused; for runs in which no fill completes the order.
pub open spec fn status_run(status: OrderStatus, previous: Option<OrderStatus>, events: Seq<OrderEvent>) -> Option<(OrderStatus, Option<OrderStatus>)>
    decreases events.len(),
{
    if events.len() == 0 {
        Some((status, previous))
    } else {
        match status_run(status, previous, events.drop_last()) {
            None => None,
            Some((s, p)) => status_step(s, p, events.last(), false),
        }
    }
}

/// The total of raw quantity times raw price over `fills`, each a
/// (raw quantity, raw price) pair.
pub open spec fn traded_notional(fills: Seq<(int, int)>) -> int
    decreases fills.len(),
{
    if fills.len() == 0 {
        0
    } else {
        traded_notional(fills.drop_last()) + fills.last().0 * fills.last().1
    }
}

/// The total raw quantity over `fills`.
pub open spec fn traded_qty(fills: Seq<(int, int)>) -> int
    decreases fills.len(),
{
    if fills.len() == 0 {
        0
    } else {
        traded_qty(fills.drop_last()) + fills.last().0
    }
}

/// The average price after `fills` in order, starting from `avg`.
pub open spec fn avg_run(avg: Option<(int, int)>, fills: Seq<(int, int)>) -> Option<(int, int)>
    decreases fills.len(),
{
    if fills.len() == 0 {
        avg
    } else {
        Some(avg_after_fill(avg_run(avg, fills.drop_last()), fills.last().0, fills.last().1))
    }
}

/// One order: its parameters, its derived state and the log of the events applied to it.
pub struct Order {
    /// The events applied so far, oldest first.
    pub events: Vec<OrderEvent>,
    /// The venue order identifiers that an update replaced, oldest first.
    pub venue_order_ids: Vec<VenueOrderId>,
    /// The trade identifiers of the fills, oldest first.
    pub trade_ids: Vec<TradeId>,
    /// The status held before the last event (before the first of repeated pending
    /// requests). This is a single-level rollback slot: resolving a pending request
    /// restores it, and no older status is remembered.
    pub previous_status: Option<OrderStatus>,
    pub triggered_price: Option<Price>,
    pub status: OrderStatus,
    pub trader_id: TraderId,
    pub strategy_id: StrategyId,
    pub instrument_id: InstrumentId,
    pub client_order_id: ClientOrderId,
    pub venue_order_id: Option<VenueOrderId>,
    pub position_id: Option<PositionId>,
    pub account_id: Option<AccountId>,
    pub last_trade_id: Option<TradeId>,
    pub side: OrderSide,
    pub order_type: OrderType,
    pub quantity: Quantity,
    pub price: Option<Price>,
    pub trigger_price: Option<Price>,
    pub trigger_type: Option<TriggerType>,
    pub time_in_force: TimeInForce,
    pub expire_time: Option<u64>,
    pub liquidity_side: Option<LiquiditySide>,
    pub is_post_only: bool,
    pub is_reduce_only: bool,
    pub is_quote_quantity: bool,
    pub display_qty: Option<Quantity>,
    pub limit_offset: Option<Price>,
    pub trailing_offset: Option<Price>,
    pub trailing_offset_type: Option<TriggerType>,
    pub emulation_trigger: Option<TriggerType>,
    pub contingency_type: Option<ContingencyType>,
    pub order_list_id: Option<OrderListId>,
    pub linked_order_ids: Option<Vec<ClientOrderId>>,
    pub parent_order_id: Option<ClientOrderId>,
    pub tags: Option<String>,
    pub filled_qty: Quantity,
    pub leaves_qty: Quantity,
    /// The volume-weighted average fill price, held exactly; `None` before the first fill.
    pub avg_px: Option<AvgPx>,
    pub slippage: Option<Slippage>,
    pub init_id: u128,
    pub ts_triggered: Option<u64>,
    pub ts_init: u64,
    pub ts_last: u64,
}

impl PartialEq for Order {
    fn eq(&self, other: &Order) -> (r: bool) {
        self.client_order_id.value == other.client_order_id.value
    }
}

impl vstd::std_specs::cmp::PartialEqSpecImpl for Order {
    open spec fn obeys_eq_spec() -> bool {
        true
    }

    open spec fn eq_spec(&self, other: &Order) -> bool {
        self.client_order_id.value@ == other.client_order_id.value@
    }
}

impl Eq for Order {}

/// The fields that no event changes.
pub open spec fn same_params(a: Order, b: Order) -> bool {
    &&& a.trader_id == b.trader_id
    &&& a.strategy_id == b.strategy_id
    &&& a.instrument_id == b.instrument_id
    &&& a.client_order_id == b.client_order_id
    &&& a.side == b.side
    &&& a.order_type == b.order_type
    &&& a.trigger_type == b.trigger_type
    &&& a.time_in_force == b.time_in_force
    &&& a.expire_time == b.expire_time
    &&& a.is_post_only == b.is_post_only
    &&& a.is_reduce_only == b.is_reduce_only
    &&& a.is_quote_quantity == b.is_quote_quantity
    &&& a.display_qty == b.display_qty
    &&& a.limit_offset == b.limit_offset
    &&& a.trailing_offset == b.trailing_offset
    &&& a.trailing_offset_type == b.trailing_offset_type
    &&& a.emulation_trigger == b.emulation_trigger
    &&& a.contingency_type == b.contingency_type
    &&& a.order_list_id == b.order_list_id
    &&& a.linked_order_ids == b.linked_order_ids
    &&& a.parent_order_id == b.parent_order_id
    &&& a.tags == b.tags
    &&& a.init_id == b.init_id
    &&& a.ts_init == b.ts_init
    &&& a.triggered_price == b.triggered_price
    &&& a.ts_triggered == b.ts_triggered
}

pub open spec fn same_venue_ids(a: Order, b: Order) -> bool {
    a.venue_order_id == b.venue_order_id && a.venue_order_ids@ == b.venue_order_ids@
}

pub open spec fn same_fill_ids(a: Order, b: Order) -> bool {
    &&& a.position_id == b.position_id
    &&& a.last_trade_id == b.last_trade_id
    &&& a.trade_ids@ == b.trade_ids@
    &&& a.liquidity_side == b.liquidity_side
}

pub open spec fn same_terms(a: Order, b: Order) -> bool {
    &&& a.quantity == b.quantity
    &&& a.price == b.price
    &&& a.trigger_price == b.trigger_price
}

pub open spec fn same_fill_state(a: Order, b: Order) -> bool {
    &&& a.filled_qty == b.filled_qty
    &&& a.leaves_qty == b.leaves_qty
    &&& a.avg_px == b.avg_px
    &&& a.slippage == b.slippage
    &&& a.ts_last == b.ts_last
}

/// What an update does to the venue order identifier and its history: a new
/// identifier replaces the current one, which joins the history.
pub open spec fn venue_ids_after_update(a: Order, b: Order, u: OrderUpdated) -> bool {
    match u.venue_order_id {
        Some(v) => if a.venue_order_id matches Some(cur) && cur.value@ == v.value@ {
            same_venue_ids(a, b)
        } else {
            &&& b.venue_order_id == Some(v)
            &&& b.venue_order_ids@ == match a.venue_order_id {
                Some(cur) => a.venue_order_ids@.push(cur),
                None => a.venue_order_ids@,
            }
        },
        None => same_venue_ids(a, b),
    }
}

/// What an update does to the order's terms: a price or trigger price it carries
/// replaces the current one, and its quantity becomes the order's quantity.
pub open spec fn terms_after_update(a: Order, b: Order, u: OrderUpdated) -> bool {
    &&& b.price == (if u.price is Some { u.price } else { a.price })
    &&& b.trigger_price == (if u.trigger_price is Some { u.trigger_price } else { a.trigger_price })
    &&& b.quantity.raw == u.quantity.raw
    &&& b.quantity.precision == a.quantity.precision
    &&& b.leaves_qty.raw == u.quantity.raw - a.filled_qty.raw
    &&& b.leaves_qty.precision == a.quantity.precision
}

/// What a fill does to the order, besides its status and its log.
pub open spec fn fill_effect(a: Order, b: Order, f: OrderFilled) -> bool {
    &&& b.venue_order_id == Some(f.venue_order_id)
    &&& b.venue_order_ids@ == a.venue_order_ids@
    &&& b.position_id == f.position_id
    &&& b.trade_ids@ == a.trade_ids@.push(f.trade_id)
    &&& b.last_trade_id == Some(f.trade_id)
    &&& b.liquidity_side == Some(f.liquidity_side)
    &&& b.account_id == a.account_id
    &&& same_terms(a, b)
    &&& b.filled_qty.raw == a.filled_qty.raw + f.last_qty.raw
    &&& b.filled_qty.precision == a.filled_qty.precision
    &&& b.leaves_qty.raw == a.leaves_qty.raw - f.last_qty.raw
    &&& b.leaves_qty.precision == a.leaves_qty.precision
    &&& b.ts_last == f.ts_event
    &&& avg_view(b.avg_px) == Some(avg_after_fill(avg_view(a.avg_px), f.last_qty.raw as int, f.last_px.raw as int))
    &&& slippage_view(b.slippage) == slippage_of(b.side, b.price, avg_view(b.avg_px))
}

/// What the handler of `event` does to the order, besides its status and its log.
pub open spec fn handled(a: Order, b: Order, event: OrderEvent) -> bool {
    match event {
        OrderEvent::OrderSubmitted(e) => {
            &&& b.account_id == Some(e.account_id)
            &&& same_venue_ids(a, b) && same_fill_ids(a, b) && same_terms(a, b) && same_fill_state(a, b)
        },
        OrderEvent::OrderAccepted(e) => {
            &&& b.venue_order_id == Some(e.venue_order_id)
            &&& b.venue_order_ids@ == a.venue_order_ids@
            &&& b.account_id == a.account_id
            &&& same_fill_ids(a, b) && same_terms(a, b) && same_fill_state(a, b)
        },
        OrderEvent::OrderUpdated(u) => {
            &&& venue_ids_after_update(a, b, u)
            &&& terms_after_update(a, b, u)
            &&& b.account_id == a.account_id
            &&& same_fill_ids(a, b)
            &&& b.filled_qty == a.filled_qty && b.avg_px == a.avg_px
            &&& b.slippage == a.slippage && b.ts_last == a.ts_last
        },
        OrderEvent::OrderPartiallyFilled(f) => fill_effect(a, b, f),
        OrderEvent::OrderFilled(f) => fill_effect(a, b, f),
        _ => {
            &&& b.account_id == a.account_id
            &&& same_venue_ids(a, b) && same_fill_ids(a, b) && same_terms(a, b) && same_fill_state(a, b)
        },
    }
}

impl Order {
    /// The order's invariant: quantities add up, the average price matches the
    /// fills, and a pending status has a status to return to.
    pub open spec fn wf(&self) -> bool {
        &&& self.filled_qty.raw + self.leaves_qty.raw == self.quantity.raw
        &&& match self.avg_px {
            None => self.filled_qty.raw == 0,
            Some(a) => {
                &&& a.qty == self.filled_qty.raw
                &&& a.qty > 0
                &&& notional_in_range(a.notional as int, a.qty as int)
            },
        }
        &&& (self.status == OrderStatus::PendingUpdate || self.status == OrderStatus::PendingCancel)
            ==> (self.previous_status matches Some(p) && p != self.status)
    }

    /// The status and rollback slot after `event`, or `None` where the status
    /// machine refuses it.
    pub open spec fn status_after(&self, event: OrderEvent) -> Option<(OrderStatus, Option<OrderStatus>)> {
        status_step(self.status, self.previous_status, event, self.fill_completes(event))
    }

    /// Whether `event` is a fill of all that is left of this order.
    pub open spec fn fill_completes(&self, event: OrderEvent) -> bool {
        match event {
            OrderEvent::OrderPartiallyFilled(f) => f.last_qty.raw == self.leaves_qty.raw,
            OrderEvent::OrderFilled(f) => f.last_qty.raw == self.leaves_qty.raw,
            _ => false,
        }
    }

    /// What an event must satisfy to be handled: a fill trades no more than what is
    /// left, and a positive quantity where it would be the first fill (the average
    /// price of no volume is undefined); an update keeps the quantity at least the
    /// filled quantity and sets only prices that the order already has.
    pub open spec fn admits(&self, event: OrderEvent) -> bool {
        match event {
            OrderEvent::OrderPartiallyFilled(f) => self.fill_fits(f),
            OrderEvent::OrderFilled(f) => self.fill_fits(f),
            OrderEvent::OrderUpdated(u) => {
                &&& u.quantity.raw >= self.filled_qty.raw
                &&& u.price is Some ==> self.price is Some
                &&& u.trigger_price is Some ==> self.trigger_price is Some
            },
            _ => true,
        }
    }

    pub open spec fn fill_fits(&self, f: OrderFilled) -> bool {
        &&& f.last_qty.raw <= self.leaves_qty.raw
        &&& (0 < f.last_qty.raw || self.avg_px is Some)
    }

    pub open spec fn spec_is_open(&self) -> bool {
        self.emulation_trigger is None && is_open_status(self.status)
    }

    pub open spec fn spec_is_inflight(&self) -> bool {
        self.emulation_trigger is None && is_inflight_status(self.status)
    }

    /// Builds a new order from the event that creates it.
    pub fn from_initialized(init: OrderInitialized) -> (r: Order)
        ensures
            r.wf(),
            r.status == OrderStatus::Initialized,
            r.previous_status is None,
            r.events@.len() == 0,
            r.venue_order_ids@.len() == 0,
            r.trade_ids@.len() == 0,
            r.triggered_price is None,
            r.trader_id == init.trader_id,
            r.strategy_id == init.strategy_id,
            r.instrument_id == init.instrument_id,
            r.client_order_id == init.client_order_id,
            r.venue_order_id is None,
            r.position_id is None,
            r.account_id is None,
            r.last_trade_id is None,
            r.side == init.order_side,
            r.order_type == init.order_type,
            r.quantity == init.quantity,
            r.price == init.price,
            r.trigger_price == init.trigger_price,
            r.trigger_type == init.trigger_type,
            r.time_in_force == init.time_in_force,
            r.expire_time == init.expire_time,
            r.liquidity_side is None,
            r.is_post_only == init.post_only,
            r.is_reduce_only == init.reduce_only,
            r.is_quote_quantity == init.quote_quantity,
            r.display_qty == init.display_qty,
            r.limit_offset == init.limit_offset,
            r.trailing_offset == init.trailing_offset,
            r.trailing_offset_type == init.trailing_offset_type,
            r.emulation_trigger == init.emulation_trigger,
            r.contingency_type == init.contingency_type,
            r.order_list_id == init.order_list_id,
            r.linked_order_ids == init.linked_order_ids,
            r.parent_order_id == init.parent_order_id,
            r.tags == init.tags,
            r.filled_qty.raw == 0,
            r.filled_qty.precision == init.quantity.precision,
            r.leaves_qty == init.quantity,
            r.avg_px is None,
            r.slippage is None,
            r.init_id == init.event_id,
            r.ts_triggered is None,
            r.ts_init == init.ts_event,
            r.ts_last == init.ts_event,
    {
        let quantity = init.quantity;
        Order {
            events: Vec::new(),
            venue_order_ids: Vec::new(),
            trade_ids: Vec::new(),
            previous_status: None,
            triggered_price: None,
            status: OrderStatus::Initialized,
            trader_id: init.trader_id,
            strategy_id: init.strategy_id,
            instrument_id: init.instrument_id,
            client_order_id: init.client_order_id,
            venue_order_id: None,
            position_id: None,
            account_id: None,
            last_trade_id: None,
            side: init.order_side,
            order_type: init.order_type,
            quantity,
            price: init.price,
            trigger_price: init.trigger_price,
            trigger_type: init.trigger_type,
            time_in_force: init.time_in_force,
            expire_time: init.expire_time,
            liquidity_side: None,
            is_post_only: init.post_only,
            is_reduce_only: init.reduce_only,
            is_quote_quantity: init.quote_quantity,
            display_qty: init.display_qty,
            limit_offset: init.limit_offset,
            trailing_offset: init.trailing_offset,
            trailing_offset_type: init.trailing_offset_type,
            emulation_trigger: init.emulation_trigger,
            contingency_type: init.contingency_type,
            order_list_id: init.order_list_id,
            linked_order_ids: init.linked_order_ids,
            parent_order_id: init.parent_order_id,
            tags: init.tags,
            filled_qty: Quantity { raw: 0, precision: quantity.precision },
            leaves_qty: quantity,
            avg_px: None,
            slippage: None,
            init_id: init.event_id,
            ts_triggered: None,
            ts_init: init.ts_event,
            ts_last: init.ts_event,
        }
    }
}

/// `a - b` for `b < a`, which may exceed `i128::MAX`.
fn gap(a: i128, b: i128) -> (r: u128)
    requires
        b < a,
        i128::MIN < b,
    ensures
        r == a - b,
{
    if b >= 0 || a < 0 {
        (a - b) as u128
    } else {
        (a as u128) + ((-b) as u128)
    }
}

proof fn lemma_trade_in_range(qty: int, px: int)
    requires
        0 <= qty,
        -px_bound() <= px < px_bound(),
    ensures
        notional_in_range(qty * px, qty),
{
    assert(-px_bound() * qty <= qty * px <= (px_bound() - 1) * qty) by (nonlinear_arith)
        requires
            0 <= qty,
            -px_bound() <= px < px_bound(),
    ;
}

proof fn lemma_notional_fits(n: int, qty: int)
    requires
        0 <= qty <= u64::MAX,
        notional_in_range(n, qty),
    ensures
        i128::MIN < n <= i128::MAX,
{
    assert(-px_bound() * qty >= -px_bound() * 0xffff_ffff_ffff_ffff) by (nonlinear_arith)
        requires
            0 <= qty <= 0xffff_ffff_ffff_ffff,
    ;
    assert((px_bound() - 1) * qty <= (px_bound() - 1) * 0xffff_ffff_ffff_ffff) by (nonlinear_arith)
        requires
            0 <= qty <= 0xffff_ffff_ffff_ffff,
    ;
}

impl Order {
    /// Adds a fill of `last_qty` at `last_px` to the average price.
    fn set_avg_px(&mut self, last_qty: &Quantity, last_px: &Price)
        requires
            old(self).filled_qty.raw + last_qty.raw <= u64::MAX,
            match old(self).avg_px {
                None => old(self).filled_qty.raw == 0,
                Some(a) => a.qty == old(self).filled_qty.raw && notional_in_range(a.notional as int, a.qty as int),
            },
        ensures
            avg_view(final(self).avg_px) == Some(avg_after_fill(avg_view(old(self).avg_px), last_qty.raw as int, last_px.raw as int)),
            final(self).avg_px matches Some(a) && notional_in_range(a.notional as int, a.qty as int),
            final(self).avg_px matches Some(a) && a.qty == old(self).filled_qty.raw + last_qty.raw,
            *final(self) == (Order { avg_px: final(self).avg_px, ..*old(self) }),
    {
        let q = last_qty.raw;
        let p = last_px.raw;
        proof {
            lemma_trade_in_range(q as int, p as int);
            lemma_notional_fits(q * p, q as int);
        }
        let traded: i128 = (q as i128) * (p as i128);
        let next = match self.avg_px {
            None => AvgPx { notional: traded, qty: q },
            Some(a) => {
                proof {
                    let total = a.qty + q;
                    assert(notional_in_range(a.notional + traded, total)) by (nonlinear_arith)
                        requires
                            notional_in_range(a.notional as int, a.qty as int),
                            notional_in_range(traded as int, q as int),
                            total == a.qty + q,
                    ;
                    lemma_notional_fits(a.notional + traded, total);
                }
                AvgPx { notional: a.notional + traded, qty: a.qty + q }
            },
        };
        self.avg_px = Some(next);
    }

    /// Recomputes the slippage of the average price against the order's price.
    fn set_slippage(&mut self)
        requires
            old(self).avg_px matches Some(a) ==> a.qty > 0 && notional_in_range(a.notional as int, a.qty as int),
        ensures
            slippage_view(final(self).slippage) == slippage_of(old(self).side, old(self).price, avg_view(old(self).avg_px)),
            *final(self) == (Order { slippage: final(self).slippage, ..*old(self) }),
    {
        let slippage = match (self.avg_px, self.price) {
            (Some(a), Some(p)) => {
                proof {
                    lemma_trade_in_range(a.qty as int, p.raw as int);
                    lemma_notional_fits(a.qty * p.raw, a.qty as int);
                    lemma_notional_fits(a.notional as int, a.qty as int);
                }
                let reference: i128 = (a.qty as i128) * (p.raw as i128);
                assert(reference == p.raw * a.qty) by (nonlinear_arith)
                    requires
                        reference == a.qty * p.raw,
                ;
                match self.side {
                    OrderSide::Buy => if a.notional > reference {
                        Some(Slippage { numer: gap(a.notional, reference), denom: a.qty })
                    } else {
                        None
                    },
                    OrderSide::Sell => if reference > a.notional {
                        Some(Slippage { numer: gap(reference, a.notional), denom: a.qty })
                    } else {
                        None
                    },
                    OrderSide::NoOrderSide => None,
                }
            },
            _ => None,
        };
        self.slippage = slippage;
    }
}

impl Order {
    fn submitted(&mut self, event: &OrderSubmitted)
        ensures
            *final(self) == (Order { account_id: Some(event.account_id), ..*old(self) }),
    {
        self.account_id = Some(event.account_id.clone());
    }

    fn accepted(&mut self, event: &OrderAccepted)
        ensures
            *final(self) == (Order { venue_order_id: Some(event.venue_order_id), ..*old(self) }),
    {
        self.venue_order_id = Some(event.venue_order_id.clone());
    }

    fn updated(&mut self, event: &OrderUpdated)
        requires
            old(self).wf(),
            old(self).admits(OrderEvent::OrderUpdated(*event)),
        ensures
            venue_ids_after_update(*old(self), *final(self), *event),
            terms_after_update(*old(self), *final(self), *event),
            final(self).wf(),
            *final(self) == (Order {
                venue_order_id: final(self).venue_order_id,
                venue_order_ids: final(self).venue_order_ids,
                price: final(self).price,
                trigger_price: final(self).trigger_price,
                quantity: final(self).quantity,
                leaves_qty: final(self).leaves_qty,
                ..*old(self)
            }),
    {
        match &event.venue_order_id {
            Some(venue_order_id) => {
                let unchanged = match &self.venue_order_id {
                    Some(current) => current.value == venue_order_id.value,
                    None => false,
                };
                if !unchanged {
                    let replaced = match &self.venue_order_id {
                        Some(current) => Some(current.clone()),
                        None => None,
                    };
                    match replaced {
                        Some(current) => self.venue_order_ids.push(current),
                        None => {},
                    }
                    self.venue_order_id = Some(venue_order_id.clone());
                }
            },
            None => {},
        }
        match event.price {
            Some(price) => self.price = Some(price),
            None => {},
        }
        match event.trigger_price {
            Some(trigger_price) => self.trigger_price = Some(trigger_price),
            None => {},
        }
        self.quantity = Quantity { raw: event.quantity.raw, precision: self.quantity.precision };
        self.leaves_qty = Quantity {
            raw: self.quantity.raw - self.filled_qty.raw,
            precision: self.quantity.precision,
        };
    }

    fn filled(&mut self, event: &OrderFilled)
        requires
            old(self).wf(),
            old(self).fill_fits(*event),
        ensures
            fill_effect(*old(self), *final(self), *event),
            final(self).wf(),
            *final(self) == (Order {
                venue_order_id: final(self).venue_order_id,
                position_id: final(self).position_id,
                trade_ids: final(self).trade_ids,
                last_trade_id: final(self).last_trade_id,
                liquidity_side: final(self).liquidity_side,
                filled_qty: final(self).filled_qty,
                leaves_qty: final(self).leaves_qty,
                ts_last: final(self).ts_last,
                avg_px: final(self).avg_px,
                slippage: final(self).slippage,
                ..*old(self)
            }),
    {
        self.venue_order_id = Some(event.venue_order_id.clone());
        self.position_id = match &event.position_id {
            Some(position_id) => Some(position_id.clone()),
            None => None,
        };
        self.trade_ids.push(event.trade_id.clone());
        self.last_trade_id = Some(event.trade_id.clone());
        self.liquidity_side = Some(event.liquidity_side);
        self.set_avg_px(&event.last_qty, &event.last_px);
        self.filled_qty = Quantity {
            raw: self.filled_qty.raw + event.last_qty.raw,
            precision: self.filled_qty.precision,
        };
        self.leaves_qty = Quantity {
            raw: self.leaves_qty.raw - event.last_qty.raw,
            precision: self.leaves_qty.precision,
        };
        self.ts_last = event.ts_event;
        self.set_slippage();
    }

    /// Whether this order can handle `event` should the status machine accept it:
    /// what a caller that is not verified tests before `apply`.
    pub fn can_handle(&self, event: &OrderEvent) -> (r: bool)
        ensures
            r == self.admits(*event),
    {
        match event {
            OrderEvent::OrderPartiallyFilled(f) => f.last_qty.raw <= self.leaves_qty.raw
                && (0 < f.last_qty.raw || self.avg_px.is_some()),
            OrderEvent::OrderFilled(f) => f.last_qty.raw <= self.leaves_qty.raw
                && (0 < f.last_qty.raw || self.avg_px.is_some()),
            OrderEvent::OrderUpdated(u) => {
                u.quantity.raw >= self.filled_qty.raw
                    && (u.price.is_none() || self.price.is_some())
                    && (u.trigger_price.is_none() || self.trigger_price.is_some())
            },
            _ => true,
        }
    }

    /// The status a fill leads to: `Filled` where it fills all that is left.
    fn fill_status(&self, f: &OrderFilled) -> (r: OrderStatus)
        ensures
            r == if f.last_qty.raw == self.leaves_qty.raw {
                OrderStatus::Filled
            } else {
                OrderStatus::PartiallyFilled
            },
    {
        if f.last_qty.raw == self.leaves_qty.raw {
            OrderStatus::Filled
        } else {
            OrderStatus::PartiallyFilled
        }
    }

    /// Applies `event`: looks up the new status, runs the event's handler and
    /// appends the event to the log, all or nothing.
    pub fn apply(&mut self, event: OrderEvent) -> (r: Result<(), OrderError>)
        requires
            old(self).wf(),
            old(self).status_after(event) is Some ==> old(self).admits(event),
        ensures
            match old(self).status_after(event) {
                None => {
                    &&& r == Err::<(), OrderError>(OrderError::InvalidStateTransition)
                    &&& *final(self) == *old(self)
                },
                Some((status, previous)) => {
                    &&& r == Ok::<(), OrderError>(())
                    &&& final(self).status == status
                    &&& final(self).previous_status == previous
                    &&& final(self).events@ == old(self).events@.push(event)
                    &&& same_params(*old(self), *final(self))
                    &&& handled(*old(self), *final(self), event)
                    &&& final(self).wf()
                },
            },
            r is Ok ==> final(self).leaves_qty.raw + final(self).filled_qty.raw == final(self).quantity.raw,
            r is Ok && is_fill(event) ==> (final(self).status == OrderStatus::Filled <==> final(self).leaves_qty.raw == 0),
    {
        let resolves = match (self.status, &event) {
            (OrderStatus::PendingUpdate, OrderEvent::OrderModifyRejected(_)) => true,
            (OrderStatus::PendingUpdate, OrderEvent::OrderUpdated(_)) => true,
            (OrderStatus::PendingCancel, OrderEvent::OrderCancelRejected(_)) => true,
            _ => false,
        };
        if resolves {
            let restored = match self.previous_status {
                Some(previous) => previous,
                None => self.status,
            };
            self.previous_status = Some(self.status);
            self.status = restored;
        } else {
            let next = match self.status.transition(&event) {
                Ok(status) => status,
                Err(e) => return Err(e),
            };
            let repeated = match (self.status, &event) {
                (OrderStatus::PendingUpdate, OrderEvent::OrderPendingUpdate(_)) => true,
                (OrderStatus::PendingCancel, OrderEvent::OrderPendingCancel(_)) => true,
                _ => false,
            };
            let target = match &event {
                OrderEvent::OrderPartiallyFilled(f) => self.fill_status(f),
                OrderEvent::OrderFilled(f) => self.fill_status(f),
                _ => next,
            };
            if !repeated {
                self.previous_status = Some(self.status);
            }
            self.status = target;
        }
        match &event {
            OrderEvent::OrderInitialized(_) => {},
            OrderEvent::OrderDenied(_) => {},
            OrderEvent::OrderSubmitted(e) => self.submitted(e),
            OrderEvent::OrderRejected(_) => {},
            OrderEvent::OrderAccepted(e) => self.accepted(e),
            OrderEvent::OrderPendingUpdate(_) => {},
            OrderEvent::OrderPendingCancel(_) => {},
            OrderEvent::OrderModifyRejected(_) => {},
            OrderEvent::OrderCancelRejected(_) => {},
            OrderEvent::OrderUpdated(e) => self.updated(e),
            OrderEvent::OrderTriggered(_) => {},
            OrderEvent::OrderCanceled(_) => {},
            OrderEvent::OrderExpired(_) => {},
            OrderEvent::OrderPartiallyFilled(e) => self.filled(e),
            OrderEvent::OrderFilled(e) => self.filled(e),
        }
        self.events.push(event);
        Ok(())
    }
}

/// Copies a list of client order identifiers.
fn copy_client_order_ids(ids: &Vec<ClientOrderId>) -> (r: Vec<ClientOrderId>)
    ensures
        r@ == ids@,
{
    let mut out: Vec<ClientOrderId> = Vec::new();
    let mut i: usize = 0;
    while i < ids.len()
        invariant
            i <= ids@.len(),
            out@ == ids@.subrange(0, i as int),
        decreases ids@.len() - i,
    {
        out.push(ids[i].clone());
        i = i + 1;
    }
    assert(out@ =~= ids@);
    out
}

impl Order {
    /// The last event applied, if any.
    pub fn last_event(&self) -> (r: Option<&OrderEvent>)
        ensures
            match r {
                None => self.events@.len() == 0,
                Some(e) => self.events@.len() > 0 && *e == self.events@.last(),
            },
    {
        let n = self.events.len();
        if n == 0 {
            None
        } else {
            Some(&self.events[n - 1])
        }
    }

    /// The events applied so far, oldest first.
    pub fn events(&self) -> (r: &[OrderEvent])
        ensures
            r@ == self.events@,
    {
        self.events.as_slice()
    }

    pub fn event_count(&self) -> (r: usize)
        ensures
            r == self.events@.len(),
    {
        self.events.len()
    }

    /// The venue order identifiers that updates replaced, oldest first.
    pub fn venue_order_ids(&self) -> (r: &[VenueOrderId])
        ensures
            r@ == self.venue_order_ids@,
    {
        self.venue_order_ids.as_slice()
    }

    /// The trade identifiers of the fills, oldest first.
    pub fn trade_ids(&self) -> (r: &[TradeId])
        ensures
            r@ == self.trade_ids@,
    {
        self.trade_ids.as_slice()
    }

    pub fn is_buy(&self) -> (r: bool)
        ensures
            r == (self.side == OrderSide::Buy),
    {
        self.side == OrderSide::Buy
    }

    pub fn is_sell(&self) -> (r: bool)
        ensures
            r == (self.side == OrderSide::Sell),
    {
        self.side == OrderSide::Sell
    }

    /// A passive order rests on the book: anything but a market order.
    pub fn is_passive(&self) -> (r: bool)
        ensures
            r == (self.order_type != OrderType::Market),
    {
        self.order_type != OrderType::Market
    }

    /// An aggressive order takes liquidity: a market order.
    pub fn is_aggressive(&self) -> (r: bool)
        ensures
            r == (self.order_type == OrderType::Market),
    {
        self.order_type == OrderType::Market
    }

    pub fn is_emulated(&self) -> (r: bool)
        ensures
            r == self.emulation_trigger is Some,
    {
        self.emulation_trigger.is_some()
    }

    pub fn is_contingency(&self) -> (r: bool)
        ensures
            r == self.contingency_type is Some,
    {
        self.contingency_type.is_some()
    }

    /// A parent order triggers others: its contingency is one-triggers-other.
    pub fn is_parent_order(&self) -> (r: bool)
        ensures
            r == (self.contingency_type == Some(ContingencyType::Oto)),
    {
        match self.contingency_type {
            Some(c) => c == ContingencyType::Oto,
            None => false,
        }
    }

    pub fn is_child_order(&self) -> (r: bool)
        ensures
            r == self.parent_order_id is Some,
    {
        self.parent_order_id.is_some()
    }

    /// Working at a venue: not emulated, and accepted, triggered, pending or partly filled.
    pub fn is_open(&self) -> (r: bool)
        ensures
            r == self.spec_is_open(),
    {
        if self.emulation_trigger.is_some() {
            return false;
        }
        self.status == OrderStatus::Accepted || self.status == OrderStatus::Triggered
            || self.status == OrderStatus::PendingCancel || self.status == OrderStatus::PendingUpdate
            || self.status == OrderStatus::PartiallyFilled
    }

    /// Done: denied, rejected, canceled, expired or filled.
    pub fn is_closed(&self) -> (r: bool)
        ensures
            r == is_closed_status(self.status),
    {
        self.status == OrderStatus::Denied || self.status == OrderStatus::Rejected
            || self.status == OrderStatus::Canceled || self.status == OrderStatus::Expired
            || self.status == OrderStatus::Filled
    }

    /// Awaiting a venue's answer: not emulated, and submitted or pending.
    pub fn is_inflight(&self) -> (r: bool)
        ensures
            r == self.spec_is_inflight(),
    {
        if self.emulation_trigger.is_some() {
            return false;
        }
        self.status == OrderStatus::Submitted || self.status == OrderStatus::PendingCancel
            || self.status == OrderStatus::PendingUpdate
    }

    pub fn is_pending_update(&self) -> (r: bool)
        ensures
            r == (self.status == OrderStatus::PendingUpdate),
    {
        self.status == OrderStatus::PendingUpdate
    }

    pub fn is_pending_cancel(&self) -> (r: bool)
        ensures
            r == (self.status == OrderStatus::PendingCancel),
    {
        self.status == OrderStatus::PendingCancel
    }

    pub fn opposite_side(side: OrderSide) -> (r: OrderSide)
        ensures
            r == opposite_side_of(side),
    {
        match side {
            OrderSide::Buy => OrderSide::Sell,
            OrderSide::Sell => OrderSide::Buy,
            OrderSide::NoOrderSide => OrderSide::NoOrderSide,
        }
    }

    /// The order side that closes a position of side `side`.
    pub fn closing_side(side: PositionSide) -> (r: OrderSide)
        ensures
            r == closing_side_of(side),
    {
        match side {
            PositionSide::Long => OrderSide::Sell,
            PositionSide::Short => OrderSide::Buy,
            PositionSide::Flat => OrderSide::NoOrderSide,
            PositionSide::NoPositionSide => OrderSide::NoOrderSide,
        }
    }

    /// Whether filling what is left of this order would only reduce a position of
    /// side `side` and size `position_qty`, never grow or flip it.
    pub fn would_reduce_only(&self, side: PositionSide, position_qty: Quantity) -> (r: bool)
        ensures
            r == (match (self.side, side) {
                (_, PositionSide::Flat) => false,
                (OrderSide::Buy, PositionSide::Long) => false,
                (OrderSide::Sell, PositionSide::Short) => false,
                (OrderSide::Buy, PositionSide::Short) => self.leaves_qty.raw <= position_qty.raw,
                (OrderSide::Sell, PositionSide::Long) => self.leaves_qty.raw <= position_qty.raw,
                _ => true,
            }),
    {
        if side == PositionSide::Flat {
            return false;
        }
        match (self.side, side) {
            (OrderSide::Buy, PositionSide::Long) => false,
            (OrderSide::Buy, PositionSide::Short) => self.leaves_qty.raw <= position_qty.raw,
            (OrderSide::Sell, PositionSide::Short) => false,
            (OrderSide::Sell, PositionSide::Long) => self.leaves_qty.raw <= position_qty.raw,
            _ => true,
        }
    }

    /// The event that would create an order with this order's parameters.
    pub fn to_initialized(&self) -> (r: OrderInitialized)
        ensures
            r.trader_id == self.trader_id,
            r.strategy_id == self.strategy_id,
            r.instrument_id == self.instrument_id,
            r.client_order_id == self.client_order_id,
            r.order_side == self.side,
            r.order_type == self.order_type,
            r.quantity == self.quantity,
            r.price == self.price,
            r.trigger_price == self.trigger_price,
            r.trigger_type == self.trigger_type,
            r.time_in_force == self.time_in_force,
            r.expire_time == self.expire_time,
            r.post_only == self.is_post_only,
            r.reduce_only == self.is_reduce_only,
            r.quote_quantity == self.is_quote_quantity,
            r.display_qty == self.display_qty,
            r.limit_offset == self.limit_offset,
            r.trailing_offset == self.trailing_offset,
            r.trailing_offset_type == self.trailing_offset_type,
            r.emulation_trigger == self.emulation_trigger,
            r.contingency_type == self.contingency_type,
            r.order_list_id == self.order_list_id,
            r.linked_order_ids matches Some(ids) ==> self.linked_order_ids matches Some(own) && ids@ == own@,
            r.linked_order_ids is None <==> self.linked_order_ids is None,
            r.parent_order_id == self.parent_order_id,
            r.tags matches Some(t) ==> self.tags matches Some(own) && t@ == own@,
            r.tags is None <==> self.tags is None,
            r.event_id == self.init_id,
            r.ts_event == self.ts_init,
            r.ts_init == self.ts_init,
            !r.reconciliation,
    {
        OrderInitialized {
            trader_id: self.trader_id.clone(),
            strategy_id: self.strategy_id.clone(),
            instrument_id: self.instrument_id.clone(),
            client_order_id: self.client_order_id.clone(),
            order_side: self.side,
            order_type: self.order_type,
            quantity: self.quantity,
            price: self.price,
            trigger_price: self.trigger_price,
            trigger_type: self.trigger_type,
            time_in_force: self.time_in_force,
            expire_time: self.expire_time,
            post_only: self.is_post_only,
            reduce_only: self.is_reduce_only,
            quote_quantity: self.is_quote_quantity,
            display_qty: self.display_qty,
            limit_offset: self.limit_offset,
            trailing_offset: self.trailing_offset,
            trailing_offset_type: self.trailing_offset_type,
            emulation_trigger: self.emulation_trigger,
            contingency_type: self.contingency_type,
            order_list_id: match &self.order_list_id {
                Some(id) => Some(id.clone()),
                None => None,
            },
            linked_order_ids: match &self.linked_order_ids {
                Some(ids) => Some(copy_client_order_ids(ids)),
                None => None,
            },
            parent_order_id: match &self.parent_order_id {
                Some(id) => Some(id.clone()),
                None => None,
            },
            tags: match &self.tags {
                Some(t) => Some(t.clone()),
                None => None,
            },
            event_id: self.init_id,
            ts_event: self.ts_init,
            ts_init: self.ts_init,
            reconciliation: false,
        }
    }
}

/// Re-requesting a pending update while one is pending, or a cancel while one is
/// pending, is accepted and leaves the status and rollback slot as they were.
pub proof fn lemma_pending_request_is_idempotent(order: Order, event: OrderEvent)
    requires
        (order.status == OrderStatus::PendingUpdate && event is OrderPendingUpdate)
            || (order.status == OrderStatus::PendingCancel && event is OrderPendingCancel),
    ensures
        order.status_after(event) == Some((order.status, order.previous_status)),
{
}

/// A cancel request leads to `PendingCancel`, recording a status that it leaves.
proof fn lemma_cancel_request_step(status: OrderStatus, previous: Option<OrderStatus>, request: OrderEvent)
    requires
        request is OrderPendingCancel,
        status_step(status, previous, request, false) is Some,
    ensures
        status_step(status, previous, request, false) == Some((
            OrderStatus::PendingCancel,
            if status != OrderStatus::PendingCancel { Some(status) } else { previous },
        )),
{
}

/// A rejected cancel returns from `PendingCancel` to the status in the rollback slot.
proof fn lemma_cancel_rejection_step(restored: OrderStatus, rejection: OrderEvent)
    requires
        restored != OrderStatus::PendingCancel,
        rejection is OrderCancelRejected,
    ensures
        status_step(OrderStatus::PendingCancel, Some(restored), rejection, false) == Some((restored, Some(OrderStatus::PendingCancel))),
{
}

/// A cancel request, repeated any number of times and then rejected by the venue,
/// returns the order to exactly the status it held before the first request.
pub proof fn lemma_cancel_rejected_restores_status(
    status: OrderStatus,
    previous: Option<OrderStatus>,
    requests: Seq<OrderEvent>,
    rejection: OrderEvent,
)
    requires
        status != OrderStatus::PendingCancel,
        requests.len() > 0,
        forall|i: int| 0 <= i < requests.len() ==> #[trigger] requests[i] is OrderPendingCancel,
        status_step(status, previous, requests[0], false) is Some,
        rejection is OrderCancelRejected,
    ensures
        status_run(status, previous, requests) == Some((OrderStatus::PendingCancel, Some(status))),
        status_run(status, previous, requests.push(rejection)) == Some((status, Some(OrderStatus::PendingCancel))),
    decreases requests.len(),
{
    let init = requests.drop_last();
    if requests.len() == 1 {
        assert(init.len() == 0);
        lemma_cancel_request_step(status, previous, requests.last());
    } else {
        assert(init[0] == requests[0]);
        lemma_cancel_rejected_restores_status(status, previous, init, rejection);
        lemma_cancel_request_step(OrderStatus::PendingCancel, Some(status), requests.last());
    }
    lemma_cancel_rejection_step(status, rejection);
    assert(requests.push(rejection).drop_last() =~= requests);
}

/// After fills one at a time, the average price is the total traded notional over
/// the total traded quantity.
pub proof fn lemma_avg_px_is_volume_weighted(fills: Seq<(int, int)>)
    requires
        fills.len() > 0,
    ensures
        avg_run(None, fills) == Some((traded_notional(fills), traded_qty(fills))),
    decreases fills.len(),
{
    let init = fills.drop_last();
    if fills.len() == 1 {
        assert(init.len() == 0);
        assert(avg_run(None, init) == None::<(int, int)>);
        assert(traded_notional(init) == 0);
        assert(traded_qty(init) == 0);
    } else {
        lemma_avg_px_is_volume_weighted(init);
    }
}

/// The average price does not depend on how the fills are grouped: running the
/// second group from the average after the first gives the average after both.
pub proof fn lemma_avg_px_chunking(first: Seq<(int, int)>, second: Seq<(int, int)>)
    ensures
        avg_run(avg_run(None, first), second) == avg_run(None, first + second),
    decreases second.len(),
{
    if second.len() == 0 {
        assert(first + second =~= first);
    } else {
        lemma_avg_px_chunking(first, second.drop_last());
        assert((first + second).drop_last() =~= first + second.drop_last());
    }
}

/// The (raw quantity, raw price) pairs of `fills`.
pub open spec fn fill_pairs(fills: Seq<OrderFilled>) -> Seq<(int, int)> {
    fills.map_values(|f: OrderFilled| (f.last_qty.raw as int, f.last_px.raw as int))
}

proof fn lemma_order_avg_run(orders: Seq<Order>, fills: Seq<OrderFilled>, k: int)
    requires
        orders.len() == fills.len() + 1,
        orders[0].avg_px is None,
        forall|i: int| 0 <= i < fills.len() ==> fill_effect(#[trigger] orders[i], orders[i + 1], fills[i]),
        0 <= k <= fills.len(),
    ensures
        avg_view(orders[k].avg_px) == avg_run(None, fill_pairs(fills).take(k)),
    decreases k,
{
    if k > 0 {
        lemma_order_avg_run(orders, fills, k - 1);
        assert(fill_effect(orders[k - 1], orders[k], fills[k - 1]));
        assert(fill_pairs(fills).take(k).drop_last() =~= fill_pairs(fills).take(k - 1));
    } else {
        assert(fill_pairs(fills).take(0).len() == 0);
    }
}

/// Along orders that each follow from the one before by a fill, as `apply` ensures
/// of every fill it accepts, the average price after the fills is the total
/// traded notional over the total traded quantity, exactly; so it is the same
/// however the fills are grouped.
pub proof fn lemma_order_avg_px_is_volume_weighted(orders: Seq<Order>, fills: Seq<OrderFilled>)
    requires
        fills.len() > 0,
        orders.len() == fills.len() + 1,
        orders[0].avg_px is None,
        forall|i: int| 0 <= i < fills.len() ==> fill_effect(#[trigger] orders[i], orders[i + 1], fills[i]),
    ensures
        avg_view(orders.last().avg_px) == Some((traded_notional(fill_pairs(fills)), traded_qty(fill_pairs(fills)))),
{
    lemma_order_avg_run(orders, fills, fills.len() as int);
    assert(fill_pairs(fills).take(fills.len() as int) =~= fill_pairs(fills));
    lemma_avg_px_is_volume_weighted(fill_pairs(fills));
}

/// An emulated order is never open nor in flight, whatever its status.
pub proof fn lemma_emulated_order_is_neither_open_nor_inflight(order: Order)
    requires
        order.emulation_trigger is Some,
    ensures
        !order.spec_is_open(),
        !order.spec_is_inflight(),
{
}

} // verus!
