use nautilus_model::enums::{
    ContingencyType, LiquiditySide, OrderSide, OrderStatus, OrderType, PositionSide, TimeInForce,
    TriggerType,
};
use nautilus_model::events::{
    OrderAccepted, OrderDenied, OrderEvent, OrderFilled, OrderInitialized, OrderRequestRejected,
    OrderStep, OrderSubmitted, OrderUpdated,
};
use nautilus_model::identifiers::{
    AccountId, ClientOrderId, InstrumentId, StrategyId, TradeId, TraderId, VenueOrderId,
};
use nautilus_model::orders::Order;
use nautilus_model::status::OrderError;
use nautilus_model::types::{Price, Quantity, FIXED_SCALAR};

fn qty(units: u64) -> Quantity {
    Quantity::from_units(units, 0)
}

fn px(raw: i64) -> Price {
    Price::from_raw(raw, 2)
}

fn init_event(side: OrderSide, quantity: Quantity) -> OrderInitialized {
    OrderInitialized {
        trader_id: TraderId::new("TRADER-001").unwrap(),
        strategy_id: StrategyId::new("S-001").unwrap(),
        instrument_id: InstrumentId::new("AUD/USD.SIM").unwrap(),
        client_order_id: ClientOrderId::new("O-20200814-102234-001-001-1").unwrap(),
        order_side: side,
        order_type: OrderType::Market,
        quantity,
        price: None,
        trigger_price: None,
        trigger_type: None,
        time_in_force: TimeInForce::Day,
        expire_time: None,
        post_only: false,
        reduce_only: false,
        quote_quantity: false,
        display_qty: None,
        limit_offset: None,
        trailing_offset: None,
        trailing_offset_type: None,
        emulation_trigger: None,
        contingency_type: None,
        order_list_id: None,
        linked_order_ids: None,
        parent_order_id: None,
        tags: None,
        event_id: 0,
        ts_event: 0,
        ts_init: 0,
        reconciliation: false,
    }
}

fn default_init() -> OrderInitialized {
    init_event(OrderSide::Buy, qty(100_000))
}

fn limit_init(side: OrderSide, units: u64, price_raw: i64) -> OrderInitialized {
    let mut init = init_event(side, qty(units));
    init.order_type = OrderType::Limit;
    init.price = Some(px(price_raw));
    init
}

fn trader() -> TraderId {
    TraderId::new("TRADER-001").unwrap()
}

fn strategy() -> StrategyId {
    StrategyId::new("S-001").unwrap()
}

fn instrument() -> InstrumentId {
    InstrumentId::new("AUD/USD.SIM").unwrap()
}

fn client_id() -> ClientOrderId {
    ClientOrderId::new("O-20200814-102234-001-001-1").unwrap()
}

fn account() -> AccountId {
    AccountId::new("SIM-001").unwrap()
}

fn denied() -> OrderEvent {
    OrderEvent::OrderDenied(OrderDenied {
        trader_id: trader(),
        strategy_id: strategy(),
        instrument_id: instrument(),
        client_order_id: client_id(),
        reason: "Exceeded MAX_ORDER_SUBMIT_RATE".to_string(),
        event_id: 1,
        ts_event: 0,
        ts_init: 0,
    })
}

fn submitted() -> OrderEvent {
    OrderEvent::OrderSubmitted(OrderSubmitted {
        trader_id: trader(),
        strategy_id: strategy(),
        instrument_id: instrument(),
        client_order_id: client_id(),
        account_id: account(),
        event_id: 2,
        ts_event: 0,
        ts_init: 0,
    })
}

fn accepted(venue_id: &str) -> OrderEvent {
    OrderEvent::OrderAccepted(OrderAccepted {
        trader_id: trader(),
        strategy_id: strategy(),
        instrument_id: instrument(),
        client_order_id: client_id(),
        venue_order_id: VenueOrderId::new(venue_id).unwrap(),
        account_id: account(),
        event_id: 3,
        ts_event: 0,
        ts_init: 0,
    })
}

fn step() -> OrderStep {
    OrderStep {
        trader_id: trader(),
        strategy_id: strategy(),
        instrument_id: instrument(),
        client_order_id: client_id(),
        venue_order_id: None,
        account_id: None,
        event_id: 4,
        ts_event: 0,
        ts_init: 0,
    }
}

fn request_rejected() -> OrderRequestRejected {
    OrderRequestRejected {
        trader_id: trader(),
        strategy_id: strategy(),
        instrument_id: instrument(),
        client_order_id: client_id(),
        venue_order_id: None,
        account_id: None,
        reason: "REJECTED".to_string(),
        event_id: 5,
        ts_event: 0,
        ts_init: 0,
    }
}

fn updated(venue_id: Option<&str>, units: u64, price: Option<Price>) -> OrderEvent {
    OrderEvent::OrderUpdated(OrderUpdated {
        trader_id: trader(),
        strategy_id: strategy(),
        instrument_id: instrument(),
        client_order_id: client_id(),
        venue_order_id: venue_id.map(|v| VenueOrderId::new(v).unwrap()),
        account_id: None,
        quantity: qty(units),
        price,
        trigger_price: None,
        event_id: 6,
        ts_event: 0,
        ts_init: 0,
    })
}

fn fill(trade: &str, units: u64, price_raw: i64, ts: u64) -> OrderFilled {
    OrderFilled {
        trader_id: trader(),
        strategy_id: strategy(),
        instrument_id: instrument(),
        client_order_id: client_id(),
        venue_order_id: VenueOrderId::new("V-001").unwrap(),
        account_id: account(),
        trade_id: TradeId::new(trade).unwrap(),
        position_id: None,
        order_side: OrderSide::Buy,
        order_type: OrderType::Limit,
        last_qty: qty(units),
        last_px: px(price_raw),
        liquidity_side: LiquiditySide::Maker,
        event_id: 7,
        ts_event: ts,
        ts_init: ts,
    }
}

fn avg_px_f64(order: &Order) -> f64 {
    let a = order.avg_px.unwrap();
    a.notional as f64 / a.qty as f64 / FIXED_SCALAR as f64
}

fn slippage_f64(order: &Order) -> Option<f64> {
    order
        .slippage
        .map(|s| s.numer as f64 / s.denom as f64 / FIXED_SCALAR as f64)
}

fn order_at(status_path: &[OrderEvent]) -> Order {
    let mut order = Order::from_initialized(default_init());
    for e in status_path {
        order.apply(e.clone()).unwrap();
    }
    order
}

#[test]
fn test_order_initialized() {
    let order = Order::from_initialized(default_init());

    assert_eq!(order.status, OrderStatus::Initialized);
    assert_eq!(order.last_event(), None);
    assert_eq!(order.event_count(), 0);
    assert!(order.venue_order_ids.is_empty());
    assert!(order.trade_ids.is_empty());
    assert!(order.is_buy());
    assert!(!order.is_sell());
    assert!(!order.is_passive());
    assert!(order.is_aggressive());
    assert!(!order.is_emulated());
    assert!(!order.is_contingency());
    assert!(!order.is_parent_order());
    assert!(!order.is_child_order());
    assert!(!order.is_open());
    assert!(!order.is_closed());
    assert!(!order.is_inflight());
    assert!(!order.is_pending_update());
    assert!(!order.is_pending_cancel());
}

#[test]
fn test_order_opposite_side() {
    assert_eq!(Order::opposite_side(OrderSide::Buy), OrderSide::Sell);
    assert_eq!(Order::opposite_side(OrderSide::Sell), OrderSide::Buy);
    assert_eq!(Order::opposite_side(OrderSide::NoOrderSide), OrderSide::NoOrderSide);
}

#[test]
fn test_closing_side() {
    assert_eq!(Order::closing_side(PositionSide::Long), OrderSide::Sell);
    assert_eq!(Order::closing_side(PositionSide::Short), OrderSide::Buy);
    assert_eq!(Order::closing_side(PositionSide::NoPositionSide), OrderSide::NoOrderSide);
    assert_eq!(Order::closing_side(PositionSide::Flat), OrderSide::NoOrderSide);
}

#[test]
fn test_would_reduce_only() {
    let cases = [
        (OrderSide::Buy, 100, PositionSide::Long, 50, false),
        (OrderSide::Buy, 50, PositionSide::Short, 50, true),
        (OrderSide::Buy, 50, PositionSide::Short, 100, true),
        (OrderSide::Buy, 50, PositionSide::Flat, 0, false),
        (OrderSide::Sell, 50, PositionSide::Flat, 0, false),
        (OrderSide::Sell, 50, PositionSide::Long, 50, true),
        (OrderSide::Sell, 50, PositionSide::Long, 100, true),
        (OrderSide::Sell, 100, PositionSide::Short, 50, false),
    ];
    for (order_side, order_qty, position_side, position_qty, expected) in cases {
        let order = Order::from_initialized(init_event(order_side, qty(order_qty)));
        assert_eq!(
            order.would_reduce_only(position_side, qty(position_qty)),
            expected
        );
    }
}

#[test]
fn would_reduce_only_when_order_exceeds_position() {
    let order = Order::from_initialized(init_event(OrderSide::Buy, qty(100)));
    assert!(!order.would_reduce_only(PositionSide::Short, qty(50)));
}

#[test]
fn test_order_state_transition_denied() {
    let mut order = Order::from_initialized(default_init());
    let event = denied();

    let _ = order.apply(event.clone());

    assert_eq!(order.status, OrderStatus::Denied);
    assert!(order.is_closed());
    assert!(!order.is_open());
    assert_eq!(order.event_count(), 1);
    assert_eq!(order.last_event(), Some(&event));
}

#[test]
fn test_buy_order_life_cyle_to_filled() {
    let init = default_init();
    let client_order_id = init.client_order_id.clone();
    let mut order = Order::from_initialized(init);
    let _ = order.apply(submitted());
    let _ = order.apply(accepted("V-001"));

    assert_eq!(order.client_order_id, client_order_id);
}

#[test]
fn submitted_records_account() {
    let order = order_at(&[submitted()]);
    assert_eq!(order.status, OrderStatus::Submitted);
    assert_eq!(order.account_id, Some(account()));
    assert!(order.is_inflight());
    assert_eq!(order.previous_status, Some(OrderStatus::Initialized));
}

#[test]
fn accepted_records_venue_order_id() {
    let order = order_at(&[submitted(), accepted("V-001")]);
    assert_eq!(order.status, OrderStatus::Accepted);
    assert_eq!(order.venue_order_id, Some(VenueOrderId::new("V-001").unwrap()));
    assert!(order.is_open());
    assert!(!order.is_inflight());
}

#[test]
fn life_cycle_partial_fills_to_filled() {
    let mut order = Order::from_initialized(limit_init(OrderSide::Buy, 100, 10_000_000_000));
    order.apply(submitted()).unwrap();
    order.apply(accepted("V-001")).unwrap();
    order
        .apply(OrderEvent::OrderPartiallyFilled(fill("T-1", 40, 10_000_000_000, 10)))
        .unwrap();
    assert_eq!(order.status, OrderStatus::PartiallyFilled);
    assert_eq!(order.filled_qty.raw, 40 * FIXED_SCALAR);
    assert_eq!(order.leaves_qty.raw, 60 * FIXED_SCALAR);
    assert_eq!(slippage_f64(&order), None);
    order
        .apply(OrderEvent::OrderPartiallyFilled(fill("T-2", 60, 10_050_000_000, 20)))
        .unwrap();

    assert_eq!(order.status, OrderStatus::Filled);
    assert_eq!(order.previous_status, Some(OrderStatus::PartiallyFilled));
    assert_eq!(order.filled_qty.raw, 100 * FIXED_SCALAR);
    assert_eq!(order.leaves_qty.raw, 0);
    assert!((avg_px_f64(&order) - 10.03).abs() < 1e-9);
    assert!((slippage_f64(&order).unwrap() - 0.03).abs() < 1e-9);
    assert_eq!(order.trade_ids.len(), 2);
    assert_eq!(order.last_trade_id, Some(TradeId::new("T-2").unwrap()));
    assert_eq!(order.liquidity_side, Some(LiquiditySide::Maker));
    assert_eq!(order.ts_last, 20);
    assert_eq!(order.event_count(), 4);
    assert!(order.is_closed());
}

#[test]
fn denied_scenario() {
    let order = order_at(&[denied()]);
    assert_eq!(order.status, OrderStatus::Denied);
    assert!(order.is_closed());
    assert!(!order.is_open());
    assert_eq!(order.event_count(), 1);
}

#[test]
fn cancel_rejected_returns_to_submitted() {
    let order = order_at(&[
        submitted(),
        OrderEvent::OrderPendingCancel(step()),
        OrderEvent::OrderCancelRejected(request_rejected()),
    ]);
    assert_eq!(order.status, OrderStatus::Submitted);
    assert_eq!(order.event_count(), 3);
}

#[test]
fn cancel_rejected_after_repeated_requests_returns_to_accepted() {
    let order = order_at(&[
        submitted(),
        accepted("V-001"),
        OrderEvent::OrderPendingCancel(step()),
        OrderEvent::OrderPendingCancel(step()),
        OrderEvent::OrderCancelRejected(request_rejected()),
    ]);
    assert_eq!(order.status, OrderStatus::Accepted);
}

#[test]
fn modify_rejected_returns_to_accepted() {
    let order = order_at(&[
        submitted(),
        accepted("V-001"),
        OrderEvent::OrderPendingUpdate(step()),
        OrderEvent::OrderModifyRejected(request_rejected()),
    ]);
    assert_eq!(order.status, OrderStatus::Accepted);
}

#[test]
fn accepted_straight_from_initialized() {
    let order = order_at(&[accepted("V-EXT")]);
    assert_eq!(order.status, OrderStatus::Accepted);
    assert_eq!(order.event_count(), 1);
}

#[test]
fn pending_requests_are_idempotent() {
    let mut order = order_at(&[submitted(), accepted("V-001"), OrderEvent::OrderPendingUpdate(step())]);
    order.apply(OrderEvent::OrderPendingUpdate(step())).unwrap();
    assert_eq!(order.status, OrderStatus::PendingUpdate);
    assert!(order.is_pending_update());
    let mut order = order_at(&[submitted(), OrderEvent::OrderPendingCancel(step())]);
    order.apply(OrderEvent::OrderPendingCancel(step())).unwrap();
    assert_eq!(order.status, OrderStatus::PendingCancel);
    assert!(order.is_pending_cancel());
}

#[test]
fn invalid_transition_changes_nothing() {
    let mut order = order_at(&[denied()]);
    let err = order.apply(submitted());
    assert_eq!(err, Err(OrderError::InvalidStateTransition));
    assert_eq!(order.status, OrderStatus::Denied);
    assert_eq!(order.event_count(), 1);
    assert_eq!(order.previous_status, Some(OrderStatus::Initialized));

    let mut fresh = Order::from_initialized(default_init());
    let err = fresh.apply(OrderEvent::OrderFilled(fill("T-1", 1, 1, 1)));
    assert_eq!(err, Err(OrderError::InvalidStateTransition));
    assert_eq!(fresh.filled_qty.raw, 0);
    assert_eq!(fresh.event_count(), 0);
    assert!(fresh.trade_ids.is_empty());
}

#[test]
fn filled_order_accepts_nothing() {
    let mut order = order_at(&[submitted(), OrderEvent::OrderFilled(fill("T-1", 100_000, 1, 1))]);
    assert_eq!(order.status, OrderStatus::Filled);
    assert_eq!(order.apply(OrderEvent::OrderCanceled(step())), Err(OrderError::InvalidStateTransition));
    assert_eq!(
        order.apply(OrderEvent::OrderPartiallyFilled(fill("T-2", 0, 1, 1))),
        Err(OrderError::InvalidStateTransition)
    );
    assert_eq!(order.event_count(), 2);
}

#[test]
fn late_fill_after_cancel_is_tolerated() {
    let mut order = order_at(&[submitted(), accepted("V-001"), OrderEvent::OrderCanceled(step())]);
    order
        .apply(OrderEvent::OrderPartiallyFilled(fill("T-1", 10, 5, 1)))
        .unwrap();
    assert_eq!(order.status, OrderStatus::PartiallyFilled);
    assert_eq!(order.filled_qty.raw + order.leaves_qty.raw, order.quantity.raw);
}

#[test]
fn average_price_is_volume_weighted() {
    let mut order = Order::from_initialized(limit_init(OrderSide::Buy, 100, 10_000_000_000));
    order.apply(submitted()).unwrap();
    let fills = [(10u64, 9_000_000_000i64), (30, 11_000_000_000), (20, 10_500_000_000)];
    for (i, (units, price)) in fills.iter().enumerate() {
        order
            .apply(OrderEvent::OrderPartiallyFilled(fill(&format!("T-{i}"), *units, *price, 1)))
            .unwrap();
        assert_eq!(order.filled_qty.raw + order.leaves_qty.raw, order.quantity.raw);
    }
    let expected = (10.0 * 9.0 + 30.0 * 11.0 + 20.0 * 10.5) / 60.0;
    assert!((avg_px_f64(&order) - expected).abs() < 1e-9);
    let a = order.avg_px.unwrap();
    assert_eq!(a.qty, 60 * FIXED_SCALAR);
    assert_eq!(
        a.notional,
        (10 * FIXED_SCALAR) as i128 * 9_000_000_000
            + (30 * FIXED_SCALAR) as i128 * 11_000_000_000
            + (20 * FIXED_SCALAR) as i128 * 10_500_000_000
    );
}

#[test]
fn sell_slippage_when_average_below_price() {
    let mut order = Order::from_initialized(limit_init(OrderSide::Sell, 10, 10_000_000_000));
    order.apply(submitted()).unwrap();
    order
        .apply(OrderEvent::OrderPartiallyFilled(fill("T-1", 5, 9_900_000_000, 1)))
        .unwrap();
    assert!((slippage_f64(&order).unwrap() - 0.1).abs() < 1e-9);
    order
        .apply(OrderEvent::OrderPartiallyFilled(fill("T-2", 5, 10_300_000_000, 1)))
        .unwrap();
    assert_eq!(slippage_f64(&order), None);
}

#[test]
fn buy_fill_better_than_price_has_no_slippage() {
    let mut order = Order::from_initialized(limit_init(OrderSide::Buy, 10, 10_000_000_000));
    order.apply(submitted()).unwrap();
    order
        .apply(OrderEvent::OrderPartiallyFilled(fill("T-1", 5, 9_000_000_000, 1)))
        .unwrap();
    assert!((avg_px_f64(&order) - 9.0).abs() < 1e-9);
    assert_eq!(order.slippage, None);
}

#[test]
fn update_replaces_venue_id_price_and_quantity() {
    let mut order = Order::from_initialized(limit_init(OrderSide::Buy, 100, 10_000_000_000));
    order.apply(submitted()).unwrap();
    order.apply(accepted("V-001")).unwrap();
    order
        .apply(OrderEvent::OrderPartiallyFilled(fill("T-1", 30, 10_000_000_000, 1)))
        .unwrap();
    order.apply(OrderEvent::OrderPendingUpdate(step())).unwrap();
    order
        .apply(updated(Some("V-002"), 80, Some(px(10_100_000_000))))
        .unwrap();
    assert_eq!(order.status, OrderStatus::PartiallyFilled);
    assert_eq!(order.venue_order_id, Some(VenueOrderId::new("V-002").unwrap()));
    assert_eq!(order.venue_order_ids(), &[VenueOrderId::new("V-001").unwrap()][..]);
    assert_eq!(order.price, Some(px(10_100_000_000)));
    assert_eq!(order.quantity.raw, 80 * FIXED_SCALAR);
    assert_eq!(order.leaves_qty.raw, 50 * FIXED_SCALAR);
}

#[test]
fn update_with_same_venue_id_keeps_history() {
    let mut order = order_at(&[submitted(), accepted("V-001"), OrderEvent::OrderPendingUpdate(step())]);
    order.apply(updated(Some("V-001"), 100_000, None)).unwrap();
    assert!(order.venue_order_ids().is_empty());
    assert_eq!(order.status, OrderStatus::Accepted);
}

#[test]
fn update_outside_pending_update_is_refused() {
    let mut order = order_at(&[submitted(), accepted("V-001")]);
    assert_eq!(
        order.apply(updated(None, 10, None)),
        Err(OrderError::InvalidStateTransition)
    );
    assert_eq!(order.quantity.raw, 100_000 * FIXED_SCALAR);
}

#[test]
fn emulated_order_is_never_open_or_inflight() {
    let mut init = default_init();
    init.emulation_trigger = Some(TriggerType::BidAsk);
    let mut order = Order::from_initialized(init);
    assert!(order.is_emulated());
    order.apply(submitted()).unwrap();
    assert!(!order.is_inflight());
    order.apply(accepted("V-001")).unwrap();
    assert!(!order.is_open());
    order.apply(OrderEvent::OrderPendingCancel(step())).unwrap();
    assert!(!order.is_open());
    assert!(!order.is_inflight());
}

#[test]
fn contingency_queries() {
    let mut init = default_init();
    init.contingency_type = Some(ContingencyType::Oto);
    init.parent_order_id = Some(ClientOrderId::new("O-PARENT").unwrap());
    let order = Order::from_initialized(init);
    assert!(order.is_contingency());
    assert!(order.is_parent_order());
    assert!(order.is_child_order());
}

#[test]
fn initialized_round_trip_keeps_parameters() {
    let mut init = limit_init(OrderSide::Sell, 7, 123);
    init.tags = Some("tag".to_string());
    init.linked_order_ids = Some(vec![ClientOrderId::new("O-2").unwrap()]);
    init.expire_time = Some(99);
    init.ts_event = 5;
    let order = Order::from_initialized(init.clone());
    let back = order.to_initialized();
    assert_eq!(back.order_side, OrderSide::Sell);
    assert_eq!(back.price, init.price);
    assert_eq!(back.tags, init.tags);
    assert_eq!(back.linked_order_ids, init.linked_order_ids);
    assert_eq!(back.expire_time, Some(99));
    assert_eq!(back.ts_event, 5);
    assert_eq!(back.client_order_id, init.client_order_id);
}

#[test]
fn orders_equal_by_client_order_id() {
    let a = Order::from_initialized(default_init());
    let mut other = init_event(OrderSide::Sell, qty(1));
    other.strategy_id = StrategyId::new("S-999").unwrap();
    let b = Order::from_initialized(other);
    assert!(a == b);
    let mut third = default_init();
    third.client_order_id = ClientOrderId::new("O-OTHER").unwrap();
    assert!(a != Order::from_initialized(third));
}

#[test]
fn events_keep_order_of_application() {
    let order = order_at(&[submitted(), accepted("V-001")]);
    assert_eq!(order.events(), &[submitted(), accepted("V-001")][..]);
    assert_eq!(order.last_event(), Some(&accepted("V-001")));
}

#[test]
fn can_handle_rejects_overfill_and_new_price() {
    let order = Order::from_initialized(init_event(OrderSide::Buy, qty(10)));
    assert!(order.can_handle(&OrderEvent::OrderPartiallyFilled(fill("T-1", 10, 1, 1))));
    assert!(!order.can_handle(&OrderEvent::OrderPartiallyFilled(fill("T-1", 11, 1, 1))));
    assert!(!order.can_handle(&OrderEvent::OrderFilled(fill("T-1", 0, 1, 1))));
    assert!(!order.can_handle(&updated(None, 10, Some(px(1)))));
    assert!(order.can_handle(&updated(None, 10, None)));
}

#[test]
fn filled_event_for_part_of_the_order_is_a_partial_fill() {
    let mut order = order_at(&[submitted(), accepted("V-001")]);
    order
        .apply(OrderEvent::OrderFilled(fill("T-1", 40_000, 1, 1)))
        .unwrap();
    assert_eq!(order.status, OrderStatus::PartiallyFilled);
    assert!(!order.is_closed());
    assert_eq!(order.leaves_qty.raw, 60_000 * FIXED_SCALAR);
}

#[test]
fn every_fill_records_the_status_it_leaves() {
    let mut order = order_at(&[submitted(), accepted("V-001")]);
    order
        .apply(OrderEvent::OrderPartiallyFilled(fill("T-1", 10, 1, 1)))
        .unwrap();
    assert_eq!(order.previous_status, Some(OrderStatus::Accepted));
    order
        .apply(OrderEvent::OrderPartiallyFilled(fill("T-2", 10, 1, 1)))
        .unwrap();
    assert_eq!(order.status, OrderStatus::PartiallyFilled);
    assert_eq!(order.previous_status, Some(OrderStatus::PartiallyFilled));
}

#[test]
fn zero_fill_after_a_fill_is_accepted() {
    let mut order = order_at(&[submitted()]);
    assert!(!order.can_handle(&OrderEvent::OrderPartiallyFilled(fill("T-0", 0, 1, 1))));
    order
        .apply(OrderEvent::OrderPartiallyFilled(fill("T-1", 10, 2_000_000_000, 1)))
        .unwrap();
    let zero = OrderEvent::OrderPartiallyFilled(fill("T-2", 0, 9_000_000_000, 2));
    assert!(order.can_handle(&zero));
    order.apply(zero).unwrap();
    assert_eq!(order.filled_qty.raw, 10 * FIXED_SCALAR);
    assert_eq!(order.filled_qty.raw + order.leaves_qty.raw, order.quantity.raw);
    assert_eq!(order.trade_ids.len(), 2);
    assert!((avg_px_f64(&order) - 2.0).abs() < 1e-9);
}

#[test]
fn resolution_outside_a_pending_request_is_refused() {
    let mut order = order_at(&[submitted(), accepted("V-001")]);
    assert_eq!(
        order.apply(OrderEvent::OrderCancelRejected(request_rejected())),
        Err(OrderError::InvalidStateTransition)
    );
    assert_eq!(
        order.apply(OrderEvent::OrderModifyRejected(request_rejected())),
        Err(OrderError::InvalidStateTransition)
    );
    assert_eq!(order.status, OrderStatus::Accepted);
    assert_eq!(order.event_count(), 2);
}
