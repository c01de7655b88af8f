use lightpool_clob_index::indexer::store::{
    contract_key_from_market_ref, market_ref_cut_is_ok, question_from_hash, IndexStore,
    IndexedBlockHead,
};
use lightpool_clob_index::models::{Market, Order};

fn market(id: u128, slug: &str, deadline: u64, yes_spot: &str, no_spot: &str) -> Market {
    Market {
        id,
        slug: slug.to_string(),
        question: format!("question {id}"),
        icon_url: None,
        market_address: format!("0xaddr{id}"),
        collateral_token: "0xusdc".to_string(),
        yes_token: format!("0xyes{id}"),
        no_token: format!("0xno{id}"),
        yes_spot_market: yes_spot.to_string(),
        no_spot_market: no_spot.to_string(),
        state: "Active".to_string(),
        resolution_deadline: deadline,
    }
}

fn order(id: u128, market_id: u128, outcome: &str, status: &str) -> Order {
    Order {
        id,
        market_id,
        event_slug: String::new(),
        question: String::new(),
        outcome: outcome.to_string(),
        side: "buy".to_string(),
        price: "0.5".to_string(),
        size: "10".to_string(),
        status: status.to_string(),
    }
}

fn hash_of(text: &str) -> [u8; 32] {
    let mut h = [0u8; 32];
    h[..text.len()].copy_from_slice(text.as_bytes());
    h
}

#[test]
fn question_from_hash_stops_at_first_zero_and_trims() {
    assert_eq!(question_from_hash(&hash_of("  Will it rain?  ")), "Will it rain?");
    let mut h = hash_of("abc");
    h[10] = b'z';
    assert_eq!(question_from_hash(&h), "abc");
    assert_eq!(question_from_hash(&[0u8; 32]), "");
    assert_eq!(question_from_hash(&[b'q'; 32]), "q".repeat(32));
}

#[test]
fn contract_key_takes_sixteen_bytes_after_prefix() {
    assert_eq!(
        contract_key_from_market_ref("0x0123456789abcdef0123456789"),
        Some("0x0123456789abcdef".to_string())
    );
    assert_eq!(
        contract_key_from_market_ref("0XFEDCBA98765432100000"),
        Some("0xFEDCBA9876543210".to_string())
    );
    assert_eq!(
        contract_key_from_market_ref("0123456789abcdefXYZ"),
        Some("0x0123456789abcdef".to_string())
    );
    assert_eq!(contract_key_from_market_ref("0x0123456789abcde"), None);
    assert_eq!(contract_key_from_market_ref(""), None);
}

#[test]
fn contract_key_of_a_key_is_the_key() {
    let key = contract_key_from_market_ref("0xaaaabbbbccccdddd11112222").unwrap();
    assert_eq!(contract_key_from_market_ref(&key), Some(key.clone()));
}

#[test]
fn market_ref_cut_check_finds_split_characters() {
    assert!(market_ref_cut_is_ok("0x0123456789abcdef0123"));
    assert!(market_ref_cut_is_ok("short"));
    assert!(!market_ref_cut_is_ok("0x0123456789abcdeé"));
    assert!(market_ref_cut_is_ok("0x0123456789abcdefé"));
}

#[test]
fn upserted_market_reads_back_by_id_slug_and_spot_markets() {
    let mut store = IndexStore::new();
    store.upsert_market(market(1, "rain", 100, "0xyesspot1", "0xnospot1"));
    let m = store.get_market(1).unwrap();
    assert_eq!(m.slug, "rain");
    assert_eq!(store.get_event_by_slug("rain").unwrap().id, 1);
    assert_eq!(store.lookup_spot_market("0xyesspot1"), Some((1, "yes".to_string())));
    assert_eq!(store.lookup_spot_market("0xnospot1"), Some((1, "no".to_string())));
    assert_eq!(store.lookup_spot_market("0xother"), None);
    assert!(store.get_market(2).is_none());
    assert!(store.get_event_by_slug("snow").is_none());
}

#[test]
fn upsert_keeps_stored_icon_and_slug_when_missing() {
    let mut store = IndexStore::new();
    let mut first = market(1, "rain", 100, "0xa", "0xb");
    first.icon_url = Some("https://icon".to_string());
    store.upsert_market(first);
    let mut second = market(1, "", 200, "0xa", "0xb");
    second.state = "Resolved".to_string();
    store.upsert_market(second);
    let m = store.get_market(1).unwrap();
    assert_eq!(m.slug, "rain");
    assert_eq!(m.icon_url.as_deref(), Some("https://icon"));
    assert_eq!(m.state, "Resolved");
    assert_eq!(m.resolution_deadline, 200);
}

#[test]
fn new_slug_replaces_old_slug_of_market() {
    let mut store = IndexStore::new();
    store.upsert_market(market(1, "rain", 100, "0xa", "0xb"));
    store.upsert_market(market(1, "rain-2025", 100, "0xa", "0xb"));
    assert!(store.get_event_by_slug("rain").is_none());
    assert_eq!(store.get_event_by_slug("rain-2025").unwrap().id, 1);
    assert_eq!(store.existing_slugs(), vec!["rain-2025".to_string()]);
}

#[test]
fn list_markets_is_sorted_by_deadline() {
    let mut store = IndexStore::new();
    store.upsert_market(market(1, "a", 300, "0x1a", "0x1b"));
    store.upsert_market(market(2, "b", 100, "0x2a", "0x2b"));
    store.upsert_market(market(3, "c", 200, "0x3a", "0x3b"));
    let ids: Vec<u128> = store.list_markets().iter().map(|m| m.id).collect();
    assert_eq!(ids, vec![2, 3, 1]);
    assert!(IndexStore::new().list_markets().is_empty());
}

#[test]
fn update_market_state_touches_only_that_address() {
    let mut store = IndexStore::new();
    store.upsert_market(market(1, "a", 1, "0x1a", "0x1b"));
    store.upsert_market(market(2, "b", 2, "0x2a", "0x2b"));
    store.update_market_state("0xaddr2", "Resolved");
    assert_eq!(store.get_market(1).unwrap().state, "Active");
    assert_eq!(store.get_market(2).unwrap().state, "Resolved");
}

#[test]
fn position_token_specs_lists_yes_then_no() {
    let mut store = IndexStore::new();
    store.upsert_market(market(7, "a", 1, "0x7a", "0x7b"));
    assert_eq!(
        store.position_token_specs(),
        vec![
            ("YES".to_string(), "0xyes7".to_string()),
            ("NO".to_string(), "0xno7".to_string())
        ]
    );
}

#[test]
fn last_trade_price_reads_back_under_name_and_contract_key() {
    let mut store = IndexStore::new();
    assert_eq!(store.last_trade_price("0x0123456789abcdef0000"), None);
    store.record_last_trade_price("0x0123456789abcdef0000", 42);
    assert_eq!(store.last_trade_price("0x0123456789abcdef0000"), Some(42));
    assert_eq!(store.last_trade_price("0x0123456789abcdef"), Some(42));
    assert_eq!(store.last_trade_price("0x0123456789abcdef9999"), Some(42));
    store.record_last_trade_price("short", 7);
    assert_eq!(store.last_trade_price("short"), Some(7));
}

#[test]
fn inserted_open_order_has_cancel_context_for_owner_only() {
    let mut store = IndexStore::new();
    store.upsert_market(market(1, "a", 1, "0xyes", "0xno"));
    store.insert_order(order(10, 1, "no", "open"), "0xAlice".to_string(), "c10".to_string(), 5);
    let (o, chain_id, spot) = store.order_cancel_context(10, "0xALICE").unwrap();
    assert_eq!(o.id, 10);
    assert_eq!(chain_id, "c10");
    assert_eq!(spot, "0xno");
    assert!(store.order_cancel_context(10, "0xbob").is_none());
    assert!(store.order_cancel_context(11, "0xalice").is_none());
    assert!(store.has_chain_order("c10"));
    assert!(!store.has_chain_order("c11"));
}

#[test]
fn cancelled_order_has_no_cancel_context() {
    let mut store = IndexStore::new();
    store.upsert_market(market(1, "a", 1, "0xyes", "0xno"));
    store.insert_order(order(10, 1, "yes", "open"), "0xalice".to_string(), "c10".to_string(), 5);
    store.update_order_cancelled("c10");
    assert!(store.order_cancel_context(10, "0xalice").is_none());
    let (o, user) = store.stored_order_by_chain_id("c10").unwrap();
    assert_eq!(o.status, "cancelled");
    assert_eq!(user, "0xalice");
    store.update_order_cancelled("unknown");
}

#[test]
fn fills_close_an_order_only_when_complete() {
    let mut store = IndexStore::new();
    store.upsert_market(market(1, "a", 1, "0xyes", "0xno"));
    store.insert_order(order(10, 1, "yes", "open"), "0xalice".to_string(), "c10".to_string(), 5);
    store.update_order_fill("c10", 2, 3, false);
    assert_eq!(store.stored_order_by_chain_id("c10").unwrap().0.status, "open");
    store.update_order_fill("c10", 3, 0, false);
    assert_eq!(store.stored_order_by_chain_id("c10").unwrap().0.status, "filled");
    store.update_order_fill("c10", 0, 4, true);
    assert_eq!(store.stored_order_by_chain_id("c10").unwrap().0.status, "filled");
}

#[test]
fn list_orders_for_user_ignores_ascii_case() {
    let mut store = IndexStore::new();
    store.insert_order(order(1, 9, "yes", "open"), "0xAB".to_string(), "c1".to_string(), 1);
    store.insert_order(order(2, 9, "no", "open"), "0xcd".to_string(), "c2".to_string(), 1);
    store.insert_order(order(3, 9, "no", "open"), "0xab".to_string(), "c3".to_string(), 1);
    let ids: Vec<u128> = store.list_orders_for_user("0xaB").iter().map(|o| o.id).collect();
    assert_eq!(ids, vec![1, 3]);
    assert!(store.list_orders_for_user("0xef").is_empty());
}

#[test]
fn spot_market_for_chain_order_follows_outcome() {
    let mut store = IndexStore::new();
    store.upsert_market(market(1, "a", 1, "0xyes", "0xno"));
    store.insert_order(order(10, 1, "yes", "open"), "u".to_string(), "c10".to_string(), 1);
    store.insert_order(order(11, 1, "no", "open"), "u".to_string(), "c11".to_string(), 1);
    store.insert_order(order(12, 2, "no", "open"), "u".to_string(), "c12".to_string(), 1);
    assert_eq!(store.spot_market_for_chain_order("c10").as_deref(), Some("0xyes"));
    assert_eq!(store.spot_market_for_chain_order("c11").as_deref(), Some("0xno"));
    assert_eq!(store.spot_market_for_chain_order("c12"), None);
    assert_eq!(store.spot_market_for_chain_order("c13"), None);
}

#[test]
fn registered_question_reads_back_by_hash() {
    let mut store = IndexStore::new();
    let hash = [7u8; 32];
    assert!(store.question_for_hash(&hash).is_none());
    store.register_question(&hash, "Will it rain?", "rain", Some("https://i".to_string()));
    assert_eq!(store.question_for_hash(&hash).as_deref(), Some("Will it rain?"));
    assert_eq!(store.slug_for_hash(&hash).as_deref(), Some("rain"));
    assert_eq!(store.icon_url_for_hash(&hash).as_deref(), Some("https://i"));
    let other = [8u8; 32];
    store.register_question(&other, "Q", "", None);
    assert_eq!(store.slug_for_hash(&other), None);
    assert_eq!(store.icon_url_for_hash(&other), None);
}

#[test]
fn allocate_slug_hands_existing_slugs_to_allocator() {
    let mut store = IndexStore::new();
    store.upsert_market(market(1, "rain", 1, "0xa", "0xb"));
    let slug = store.allocate_slug("Will it rain?", |existing: &Vec<String>, q: &str| {
        format!("{}-{}", q.len(), existing.join(","))
    });
    assert_eq!(slug, "13-rain");
}

#[test]
fn block_head_records_blocks_and_connection() {
    let mut head = IndexedBlockHead::initial();
    assert!(!head.connected);
    head.set_connected(true);
    head.record_block(5, "abcd".to_string(), 3);
    assert_eq!(head.block_num, 5);
    assert_eq!(head.digest, "abcd");
    assert_eq!(head.tx_count, 3);
    assert!(head.connected);
    head.set_connected(false);
    assert_eq!(head.block_num, 5);
    assert!(!head.connected);
}

#[test]
fn question_from_hash_ignores_bytes_after_first_zero() {
    let mut h = [0u8; 32];
    h[..9].copy_from_slice(b"  hi \0xyz");
    assert_eq!(question_from_hash(&h), "hi");
}

#[test]
fn upserting_a_listed_market_again_lists_it_once() {
    let mut store = IndexStore::new();
    store.upsert_market(market(1, "a", 10, "0x1a", "0x1b"));
    store.upsert_market(market(2, "b", 20, "0x2a", "0x2b"));
    store.upsert_market(market(1, "", 30, "0x1a", "0x1b"));
    let listed = store.list_markets();
    let ids: Vec<u128> = listed.iter().map(|m| m.id).collect();
    assert_eq!(ids, vec![2, 1]);
    assert_eq!(listed[1].slug, "a");
    assert_eq!(listed[1].resolution_deadline, 30);
    assert_eq!(store.get_event_by_slug("a").map(|m| m.id), Some(1));
}
