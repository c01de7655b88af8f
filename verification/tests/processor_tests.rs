use lightpool_clob_index::ids::{market_uuid, order_uuid};
use lightpool_clob_index::indexer::events::{
    event_action_name, Block, BookUpdate, Effect, EventPayload, EventType, MarketCreated,
    MarketResolved, OrderCancelled, OrderCreated, OrderFilled, OrderKind, OrderNoticeKind,
    OrderSide, TxEvent, TxResult,
};
use lightpool_clob_index::indexer::processor::{
    apply_order_created_to_book, block_market_refs_cuttable, index_market_created,
    index_order_created, process_block,
};
use lightpool_clob_index::indexer::store::IndexStore;

fn fmt_price(raw: u64) -> String {
    format!("p{raw}")
}

fn fmt_amount(raw: u64) -> String {
    format!("a{raw}")
}

fn slug_of(question: &str) -> String {
    question.to_lowercase().replace(' ', "-")
}

fn hash_of(text: &str) -> [u8; 32] {
    let mut h = [0u8; 32];
    h[..text.len()].copy_from_slice(text.as_bytes());
    h
}

fn created_market(address: &str, question: &str) -> MarketCreated {
    MarketCreated {
        market_address: address.to_string(),
        question_hash: hash_of(question),
        collateral_token: "0xusdc".to_string(),
        yes_token: "0xyestoken".to_string(),
        no_token: "0xnotoken".to_string(),
        yes_spot_market: "0xaaaaaaaaaaaaaaaa1111".to_string(),
        no_spot_market: "0xbbbbbbbbbbbbbbbb2222".to_string(),
        state: "Active".to_string(),
        resolution_deadline: 99,
    }
}

fn placement(order_id: &str, market: &str, kind: OrderKind) -> OrderCreated {
    OrderCreated {
        order_id: order_id.to_string(),
        market: market.to_string(),
        market_key: market.to_string(),
        side: OrderSide::Sell,
        order_type: kind,
        amount: 500,
        creator: "0xAlice".to_string(),
    }
}

fn call(name: &str, payload: EventPayload) -> TxEvent {
    TxEvent { event_type: EventType::Call(name.to_string()), payload: Some(payload) }
}

fn block(num: u64, txs: Vec<TxResult>) -> Block {
    Block { block_num: num, transaction_outputs: txs }
}

#[test]
fn market_creation_uses_packed_question_and_derived_slug() {
    let mut store = IndexStore::new();
    index_market_created(&mut store, &created_market("0xm1", "Will it rain"), &slug_of);
    let m = store.get_market(market_uuid("0xm1")).unwrap();
    assert_eq!(m.question, "Will it rain");
    assert_eq!(m.slug, "will-it-rain");
    assert_eq!(m.icon_url, None);
    assert_eq!(m.resolution_deadline, 99);
}

#[test]
fn market_creation_prefers_registered_question_slug_and_icon() {
    let mut store = IndexStore::new();
    let hash = hash_of("Will it rain");
    store.register_question(&hash, "Will it rain tomorrow?", "rain-tomorrow", Some("https://i".to_string()));
    index_market_created(&mut store, &created_market("0xm1", "Will it rain"), &slug_of);
    let m = store.get_market(market_uuid("0xm1")).unwrap();
    assert_eq!(m.question, "Will it rain tomorrow?");
    assert_eq!(m.slug, "rain-tomorrow");
    assert_eq!(m.icon_url.as_deref(), Some("https://i"));
}

#[test]
fn order_placement_files_order_with_formatted_price_and_size() {
    let mut store = IndexStore::new();
    index_market_created(&mut store, &created_market("0xm1", "Q one"), &slug_of);
    let market_id = market_uuid("0xm1");
    let created = placement("42", "0xbbbbbbbbbbbbbbbb2222", OrderKind::Limit { price: 250 });
    let order = index_order_created(&mut store, &created, &fmt_price, &fmt_amount).unwrap();
    assert_eq!(order.id, order_uuid(market_id, "42"));
    assert_eq!(order.market_id, market_id);
    assert_eq!(order.outcome, "no");
    assert_eq!(order.side, "sell");
    assert_eq!(order.price, "p250");
    assert_eq!(order.size, "a500");
    assert_eq!(order.status, "open");
    assert_eq!(order.question, "Q one");
    assert_eq!(order.event_slug, "q-one");
    assert!(store.has_chain_order("42"));
}

#[test]
fn order_prices_by_kind() {
    let mut store = IndexStore::new();
    index_market_created(&mut store, &created_market("0xm1", "Q"), &slug_of);
    let market = placement("1", "0xaaaaaaaaaaaaaaaa1111", OrderKind::Market);
    assert_eq!(index_order_created(&mut store, &market, &fmt_price, &fmt_amount).unwrap().price, "p0");
    let trigger = placement("2", "0xaaaaaaaaaaaaaaaa1111", OrderKind::Trigger { limit_price: 77 });
    assert_eq!(index_order_created(&mut store, &trigger, &fmt_price, &fmt_amount).unwrap().price, "p77");
}

#[test]
fn order_on_unknown_spot_market_is_not_filed() {
    let mut store = IndexStore::new();
    let created = placement("42", "0xcccccccccccccccc", OrderKind::Limit { price: 1 });
    assert!(index_order_created(&mut store, &created, &fmt_price, &fmt_amount).is_none());
    assert!(!store.has_chain_order("42"));
}

#[test]
fn order_found_through_contract_key_of_spot_market() {
    let mut store = IndexStore::new();
    let mut m = created_market("0xm1", "Q");
    m.yes_spot_market = "0xaaaaaaaaaaaaaaaa".to_string();
    index_market_created(&mut store, &m, &slug_of);
    let created = placement("5", "0xaaaaaaaaaaaaaaaa99999999", OrderKind::Limit { price: 1 });
    let order = index_order_created(&mut store, &created, &fmt_price, &fmt_amount).unwrap();
    assert_eq!(order.outcome, "yes");
}

#[test]
fn only_limit_orders_reach_the_book() {
    let limit = placement("1", "0xs", OrderKind::Limit { price: 3 });
    match apply_order_created_to_book(8, &limit) {
        Some(BookUpdate::Created { spot_market, side, price, amount, block_num }) => {
            assert_eq!(spot_market, "0xs");
            assert_eq!(side, OrderSide::Sell);
            assert_eq!((price, amount, block_num), (3, 500, 8));
        }
        other => panic!("unexpected {other:?}"),
    }
    assert!(apply_order_created_to_book(8, &placement("1", "0xs", OrderKind::Market)).is_none());
    assert!(apply_order_created_to_book(8, &placement("1", "0xs", OrderKind::Trigger { limit_price: 2 })).is_none());
}

#[test]
fn event_action_names() {
    assert_eq!(event_action_name(&EventType::Call("order_filled".to_string())), "order_filled");
    assert_eq!(event_action_name(&EventType::Transfer), "transfer");
    assert_eq!(event_action_name(&EventType::System), "system");
    assert_eq!(event_action_name(&EventType::Custom("x".to_string())), "x");
}

#[test]
fn block_processing_runs_the_order_lifecycle() {
    let mut store = IndexStore::new();
    let spot = "0xbbbbbbbbbbbbbbbb2222";
    let b1 = block(1, vec![TxResult {
        success: true,
        events: vec![
            call("event_contract_created", EventPayload::MarketCreated(created_market("0xm1", "Q"))),
            call("order_created", EventPayload::OrderCreated(placement("42", spot, OrderKind::Limit { price: 250 }))),
        ],
    }]);
    let effects = process_block(&mut store, &b1, &fmt_price, &fmt_amount, &slug_of);
    assert_eq!(effects.len(), 2);
    assert!(matches!(&effects[0], Effect::Book(BookUpdate::Created { price: 250, amount: 500, block_num: 1, .. })));
    match &effects[1] {
        Effect::Order(n) => {
            assert_eq!(n.kind, OrderNoticeKind::Placement);
            assert_eq!(n.user_address, "0xAlice");
            assert_eq!(n.chain_order_id, "42");
            assert_eq!(n.block_num, 1);
        }
        other => panic!("unexpected {other:?}"),
    }

    let fill = OrderFilled {
        order_id: "42".to_string(),
        market_key: spot.to_string(),
        side: OrderSide::Sell,
        price: 250,
        fill_amount: 200,
        remaining_amount: 300,
        is_fully_filled: false,
    };
    let b2 = block(2, vec![TxResult { success: true, events: vec![call("order_filled", EventPayload::OrderFilled(fill))] }]);
    let effects = process_block(&mut store, &b2, &fmt_price, &fmt_amount, &slug_of);
    assert_eq!(store.last_trade_price(spot), Some(250));
    assert_eq!(effects.len(), 3);
    assert!(matches!(&effects[0], Effect::Book(BookUpdate::Filled { price: 250, amount: 200, last_trade_price: 250, .. })));
    match &effects[1] {
        Effect::Trade(t) => {
            assert_eq!(t.price, "p250");
            assert_eq!(t.fill_amount, "a200");
            assert_eq!(t.remaining_amount, "a300");
            assert_eq!(t.side, "sell");
            assert_eq!(t.outcome, "no");
            assert_eq!(t.market_slug, "q");
            assert_eq!(t.spot_market, spot);
            assert!(!t.is_fully_filled);
        }
        other => panic!("unexpected {other:?}"),
    }
    assert!(matches!(&effects[2], Effect::Order(n) if n.kind == OrderNoticeKind::Update && n.order.status == "open"));

    let cancel = OrderCancelled { order_id: "42".to_string(), side: OrderSide::Sell, price: 250, cancelled_amount: 300 };
    let b3 = block(3, vec![TxResult { success: true, events: vec![call("order_cancelled", EventPayload::OrderCancelled(cancel))] }]);
    let effects = process_block(&mut store, &b3, &fmt_price, &fmt_amount, &slug_of);
    assert_eq!(effects.len(), 2);
    match &effects[0] {
        Effect::Book(BookUpdate::Cancelled { spot_market, amount, .. }) => {
            assert_eq!(spot_market, spot);
            assert_eq!(*amount, 300);
        }
        other => panic!("unexpected {other:?}"),
    }
    assert!(matches!(&effects[1], Effect::Order(n) if n.kind == OrderNoticeKind::Cancellation && n.order.status == "cancelled"));
}

#[test]
fn repeated_placement_is_ignored() {
    let mut store = IndexStore::new();
    let spot = "0xbbbbbbbbbbbbbbbb2222";
    let make = || block(1, vec![TxResult {
        success: true,
        events: vec![call("order_created", EventPayload::OrderCreated(placement("42", spot, OrderKind::Limit { price: 1 })))],
    }]);
    index_market_created(&mut store, &created_market("0xm1", "Q"), &slug_of);
    assert_eq!(process_block(&mut store, &make(), &fmt_price, &fmt_amount, &slug_of).len(), 2);
    assert_eq!(process_block(&mut store, &make(), &fmt_price, &fmt_amount, &slug_of).len(), 0);
}

#[test]
fn failed_transactions_and_mismatched_events_change_nothing() {
    let mut store = IndexStore::new();
    let b = block(1, vec![
        TxResult {
            success: false,
            events: vec![call("event_contract_created", EventPayload::MarketCreated(created_market("0xm1", "Q")))],
        },
        TxResult {
            success: true,
            events: vec![
                call("order_filled", EventPayload::MarketCreated(created_market("0xm2", "Q"))),
                TxEvent { event_type: EventType::Transfer, payload: None },
                TxEvent { event_type: EventType::Call("order_filled".to_string()), payload: None },
            ],
        },
    ]);
    let effects = process_block(&mut store, &b, &fmt_price, &fmt_amount, &slug_of);
    assert!(effects.is_empty());
    assert!(store.list_markets().is_empty());
}

#[test]
fn resolution_marks_market_resolved() {
    let mut store = IndexStore::new();
    let b = block(1, vec![TxResult {
        success: true,
        events: vec![
            call("event_contract_created", EventPayload::MarketCreated(created_market("0xm1", "Q"))),
            call("event_contract_resolved", EventPayload::MarketResolved(MarketResolved { market_address: "0xm1".to_string() })),
        ],
    }]);
    process_block(&mut store, &b, &fmt_price, &fmt_amount, &slug_of);
    assert_eq!(store.get_market(market_uuid("0xm1")).unwrap().state, "Resolved");
}

#[test]
fn indexing_the_same_placement_twice_lists_the_order_once() {
    let mut store = IndexStore::new();
    index_market_created(&mut store, &created_market("0xm1", "Will it rain"), &slug_of);
    let event = placement("7", "0xaaaaaaaaaaaaaaaa1111", OrderKind::Limit { price: 3 });
    let first = index_order_created(&mut store, &event, &fmt_price, &fmt_amount).unwrap();
    let second = index_order_created(&mut store, &event, &fmt_price, &fmt_amount).unwrap();
    assert_eq!(first.id, second.id);
    let listed = store.list_orders_for_user("0xalice");
    assert_eq!(listed.len(), 1);
    assert_eq!(listed[0].id, first.id);
}

#[test]
fn market_reference_check_looks_only_at_events_that_cut() {
    let mut store = IndexStore::new();
    index_market_created(&mut store, &created_market("0xm1", "Q"), &slug_of);
    let split = "0x123456789012345é";
    let placed = |market: &str, ok: bool| block(1, vec![TxResult {
        success: ok,
        events: vec![call("order_created", EventPayload::OrderCreated(placement("9", market, OrderKind::Market)))],
    }]);
    assert!(!block_market_refs_cuttable(&store, &placed(split, true)));
    assert!(block_market_refs_cuttable(&store, &placed(split, false)));
    assert!(block_market_refs_cuttable(&store, &placed("0xbbbbbbbbbbbbbbbb2222", true)));
    let filled = block(1, vec![TxResult {
        success: true,
        events: vec![call("order_filled", EventPayload::OrderFilled(OrderFilled {
            order_id: "9".to_string(),
            market_key: split.to_string(),
            side: OrderSide::Buy,
            price: 1,
            fill_amount: 1,
            remaining_amount: 0,
            is_fully_filled: true,
        }))],
    }]);
    assert!(!block_market_refs_cuttable(&store, &filled));
}
