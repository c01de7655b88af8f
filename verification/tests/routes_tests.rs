use lightpool_clob_index::error::AppError;
use lightpool_clob_index::indexer::events::{Effect, OrderCreated, OrderKind, OrderSide};
use lightpool_clob_index::indexer::store::IndexStore;
use lightpool_clob_index::models::{AllocateSlugRequest, Market, Order, RegisterQuestionRequest};
use lightpool_clob_index::routes::{
    allocate_slug, book_depth, book_response, cancel_context, decide_client_request,
    get_market_by_slug, index_from_event, list_orders, mark_cancelled, market_info_response,
    position_token_specs, register_question, RawBookLevel, RawMarketInfo, WsAction, WsRequest,
};
use lightpool_clob_index::spot_market::normalize_spot_market_key;

fn market(id: u128, slug: &str) -> Market {
    Market {
        id,
        slug: slug.to_string(),
        question: "Will it rain?".to_string(),
        icon_url: None,
        market_address: "0xaddr".to_string(),
        collateral_token: "0xusdc".to_string(),
        yes_token: "0xyes".to_string(),
        no_token: "0xno".to_string(),
        yes_spot_market: "0xaaaaaaaaaaaaaaaa".to_string(),
        no_spot_market: "0xbbbbbbbbbbbbbbbb".to_string(),
        state: "Active".to_string(),
        resolution_deadline: 1,
    }
}

fn order(id: u128, market_id: u128) -> Order {
    Order {
        id,
        market_id,
        event_slug: String::new(),
        question: String::new(),
        outcome: "yes".to_string(),
        side: "buy".to_string(),
        price: "1".to_string(),
        size: "1".to_string(),
        status: "open".to_string(),
    }
}

fn fmt_price(raw: u64) -> String {
    format!("p{raw}")
}

fn fmt_amount(raw: u64) -> String {
    format!("a{raw}")
}

fn fixed_hash(question: &str) -> [u8; 32] {
    let mut h = [0u8; 32];
    h[0] = question.len() as u8;
    h
}

#[test]
fn list_orders_fills_question_and_slug_from_market() {
    let mut store = IndexStore::new();
    store.upsert_market(market(1, "rain"));
    store.insert_order(order(10, 1), "0xA".to_string(), "c10".to_string(), 1);
    let mut kept = order(11, 1);
    kept.question = "own question".to_string();
    store.insert_order(kept, "0xa".to_string(), "c11".to_string(), 1);
    store.insert_order(order(12, 2), "0xa".to_string(), "c12".to_string(), 1);
    let orders = list_orders(&store, "0xa");
    assert_eq!(orders.len(), 3);
    assert_eq!(orders[0].question, "Will it rain?");
    assert_eq!(orders[0].event_slug, "rain");
    assert_eq!(orders[1].question, "own question");
    assert_eq!(orders[1].event_slug, "rain");
    assert_eq!(orders[2].question, "");
    assert_eq!(orders[2].event_slug, "");
}

#[test]
fn cancel_context_and_mark_cancelled() {
    let mut store = IndexStore::new();
    store.upsert_market(market(1, "rain"));
    store.insert_order(order(10, 1), "0xa".to_string(), "c10".to_string(), 1);
    let ctx = cancel_context(&store, 10, "0xA").unwrap();
    assert_eq!(ctx.chain_order_id, "c10");
    assert_eq!(ctx.spot_market, "0xaaaaaaaaaaaaaaaa");
    assert!(mark_cancelled(&mut store, 10, "0xa").is_ok());
    match cancel_context(&store, 10, "0xa") {
        Err(AppError::NotFound(m)) => assert_eq!(m, "open order 00000000-0000-0000-0000-00000000000a not found"),
        other => panic!("unexpected {other:?}"),
    }
    match mark_cancelled(&mut store, 10, "0xa") {
        Err(AppError::NotFound(m)) => assert_eq!(m, "open order 00000000-0000-0000-0000-00000000000a not found"),
        other => panic!("unexpected {other:?}"),
    }
}

#[test]
fn market_by_slug_or_not_found() {
    let mut store = IndexStore::new();
    store.upsert_market(market(1, "rain"));
    assert_eq!(get_market_by_slug(&store, "rain").unwrap().id, 1);
    match get_market_by_slug(&store, "snow") {
        Err(AppError::NotFound(m)) => assert_eq!(m, "market snow not found"),
        other => panic!("unexpected {other:?}"),
    }
}

#[test]
fn register_question_validates_and_trims() {
    let mut store = IndexStore::new();
    let blank = RegisterQuestionRequest { question: "  ".to_string(), slug: "s".to_string(), icon_url: None };
    match register_question(&mut store, &blank, &fixed_hash) {
        Err(AppError::BadRequest(m)) => assert_eq!(m, "question is required"),
        other => panic!("unexpected {other:?}"),
    }
    let no_slug = RegisterQuestionRequest { question: "Q?".to_string(), slug: " ".to_string(), icon_url: None };
    match register_question(&mut store, &no_slug, &fixed_hash) {
        Err(AppError::BadRequest(m)) => assert_eq!(m, "slug is required"),
        other => panic!("unexpected {other:?}"),
    }
    let ok = RegisterQuestionRequest {
        question: " Will it rain? ".to_string(),
        slug: " rain ".to_string(),
        icon_url: Some("  ".to_string()),
    };
    assert!(register_question(&mut store, &ok, &fixed_hash).is_ok());
    let hash = fixed_hash("Will it rain?");
    assert_eq!(store.question_for_hash(&hash).as_deref(), Some("Will it rain?"));
    assert_eq!(store.slug_for_hash(&hash).as_deref(), Some("rain"));
    assert_eq!(store.icon_url_for_hash(&hash), None);
    let with_icon = RegisterQuestionRequest {
        question: "Will it rain?".to_string(),
        slug: "rain".to_string(),
        icon_url: Some(" https://i ".to_string()),
    };
    assert!(register_question(&mut store, &with_icon, &fixed_hash).is_ok());
    assert_eq!(store.icon_url_for_hash(&hash).as_deref(), Some("https://i"));
}

#[test]
fn allocate_slug_validates_question() {
    let mut store = IndexStore::new();
    store.upsert_market(market(1, "rain"));
    let alloc = |existing: &Vec<String>, q: &str| format!("{q}|{}", existing.len());
    match allocate_slug(&store, &AllocateSlugRequest { question: " ".to_string() }, alloc) {
        Err(AppError::BadRequest(m)) => assert_eq!(m, "question is required"),
        other => panic!("unexpected {other:?}"),
    }
    let resp = allocate_slug(&store, &AllocateSlugRequest { question: " Q ".to_string() }, alloc).unwrap();
    assert_eq!(resp.slug, "Q|1");
}

#[test]
fn position_token_specs_as_balance_specs() {
    let mut store = IndexStore::new();
    store.upsert_market(market(1, "rain"));
    let specs = position_token_specs(&store);
    assert_eq!(specs.len(), 2);
    assert_eq!((specs[0].symbol.as_str(), specs[0].address.as_str()), ("YES", "0xyes"));
    assert_eq!((specs[1].symbol.as_str(), specs[1].address.as_str()), ("NO", "0xno"));
}

fn placement(order_id: &str, market: &str) -> OrderCreated {
    OrderCreated {
        order_id: order_id.to_string(),
        market: market.to_string(),
        market_key: market.to_string(),
        side: OrderSide::Buy,
        order_type: OrderKind::Limit { price: 9 },
        amount: 3,
        creator: "0xa".to_string(),
    }
}

#[test]
fn index_from_event_books_and_announces_new_orders_only() {
    let mut store = IndexStore::new();
    store.upsert_market(market(1, "rain"));
    let (effects, order) = index_from_event(&mut store, &placement("7", "0xaaaaaaaaaaaaaaaa"), &fmt_price, &fmt_amount);
    let order = order.unwrap();
    assert_eq!(order.price, "p9");
    assert_eq!(effects.len(), 2);
    assert!(matches!(effects[0], Effect::Book(_)));
    assert!(matches!(effects[1], Effect::Order(_)));
    let (effects, again) = index_from_event(&mut store, &placement("7", "0xaaaaaaaaaaaaaaaa"), &fmt_price, &fmt_amount);
    assert!(effects.is_empty());
    assert_eq!(again.unwrap().id, order.id);
    let (effects, missing) = index_from_event(&mut store, &placement("8", "0xcccccccccccccccc"), &fmt_price, &fmt_amount);
    assert_eq!(effects.len(), 1);
    match missing {
        Err(AppError::Internal(m)) => assert_eq!(m, "failed to index order from event"),
        other => panic!("unexpected {other:?}"),
    }
}

fn ws(op: &str, channel: Option<&str>, spot: Option<&str>, depth: Option<u32>) -> WsRequest {
    WsRequest {
        op: op.to_string(),
        channel: channel.map(str::to_string),
        spot_market: spot.map(str::to_string),
        depth,
    }
}

#[test]
fn websocket_requests_are_decided() {
    match decide_client_request(ws("subscribe", Some("orderbook"), Some("0xs"), None)) {
        WsAction::Subscribe { spot_market, depth } => {
            assert_eq!(spot_market, "0xs");
            assert_eq!(depth, 10);
        }
        other => panic!("unexpected {other:?}"),
    }
    assert!(matches!(decide_client_request(ws("subscribe", Some("orderbook"), Some("0xs"), Some(0))), WsAction::Subscribe { depth: 1, .. }));
    assert!(matches!(decide_client_request(ws("subscribe", Some("orderbook"), Some("0xs"), Some(99))), WsAction::Subscribe { depth: 50, .. }));
    assert!(matches!(decide_client_request(ws("subscribe", Some("orderbook"), Some("0xs"), Some(20))), WsAction::Subscribe { depth: 20, .. }));
    assert!(matches!(decide_client_request(ws("subscribe", Some("trades"), Some("0xs"), None)), WsAction::Ignore));
    assert!(matches!(decide_client_request(ws("subscribe", None, Some("0xs"), None)), WsAction::Ignore));
    assert!(matches!(decide_client_request(ws("subscribe", Some("orderbook"), Some("  "), None)), WsAction::Ignore));
    assert!(matches!(decide_client_request(ws("subscribe", Some("orderbook"), None, None)), WsAction::Ignore));
    assert!(matches!(decide_client_request(ws("unsubscribe", None, None, None)), WsAction::Unsubscribe));
    assert!(matches!(decide_client_request(ws("ping", None, None, None)), WsAction::Ignore));
}

#[test]
fn book_and_market_info_answers_are_formatted() {
    assert_eq!(book_depth(None), 10);
    assert_eq!(book_depth(Some(3)), 3);
    let bids = vec![RawBookLevel { price: 5, total_quantity: 6 }];
    let asks = vec![RawBookLevel { price: 7, total_quantity: 8 }, RawBookLevel { price: 9, total_quantity: 10 }];
    let resp = book_response(&bids, &asks, Some(4), &fmt_price, &fmt_amount);
    assert_eq!(resp.sequence, 0);
    assert_eq!((resp.bids[0].price.as_str(), resp.bids[0].size.as_str()), ("p5", "a6"));
    assert_eq!(resp.asks.len(), 2);
    assert_eq!((resp.asks[1].price.as_str(), resp.asks[1].size.as_str()), ("p9", "a10"));
    assert_eq!(resp.last_trade_price.as_deref(), Some("p4"));
    assert!(book_response(&vec![], &vec![], None, &fmt_price, &fmt_amount).last_trade_price.is_none());
    let info = RawMarketInfo {
        last_price: None,
        state: "Open".to_string(),
        min_order_size: 11,
        tick_size: 12,
        maker_fee_bps: 5,
        taker_fee_bps: 10,
        allow_market_orders: true,
    };
    let resp = market_info_response(info, &fmt_price, &fmt_amount);
    assert_eq!(resp.last_price, None);
    assert_eq!(resp.min_order_size, "a11");
    assert_eq!(resp.tick_size, "a12");
    assert_eq!((resp.maker_fee_bps, resp.taker_fee_bps, resp.allow_market_orders), (5, 10, true));
}

#[test]
fn spot_market_key_prefers_contract_then_address_then_trimmed_text() {
    assert_eq!(normalize_spot_market_key(" x ", Some("0xc".to_string()), Some("0xa".to_string())), "0xc");
    assert_eq!(normalize_spot_market_key(" x ", None, Some("0xa".to_string())), "0xa");
    assert_eq!(normalize_spot_market_key(" x ", None, None), "x");
}

#[test]
fn normalising_a_key_again_gives_the_key() {
    let key = normalize_spot_market_key("  0xabc \t", None, None);
    assert_eq!(key, "0xabc");
    assert_eq!(normalize_spot_market_key(&key, None, None), key);
    let key = normalize_spot_market_key(" x ", None, Some("0xa".to_string()));
    assert_eq!(normalize_spot_market_key(&key, Some("0xa".to_string()), None), key);
}
