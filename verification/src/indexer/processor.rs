//! Folding chain events into the index. The amount and price formatting and
//! the slug derivation come from the caller as functions; the processing
//! rules are proved against the store's model.

use vstd::prelude::*;
use vstd::utf8::encode_utf8;
use crate::ids::{market_uuid, order_uuid, order_uuid_name, uuid_v5_oid};
use crate::models::{Market, MarketView, Order, OrderView};
use crate::text::str_eq;
use super::events::{
    BookUpdate, BookUpdateView, EffectView, Effect, EventPayload, EventType, MarketCreated,
    OrderCancelled, OrderCreated, OrderFilled, OrderKind, OrderNotice, OrderNoticeKind,
    OrderNoticeView, OrderSide, TradeNotice, TradeNoticeView, TxEvent, Block, TxResult,
};
use super::model::{open_text, IndexStoreView, SpotRefView};
use super::store::{
    hash_key, market_ref_cut_is_ok, market_ref_cut_ok, open_string, question_from_hash, question_from_hash_spec,
    IndexStore,
};

verus! {

/// `f` gives texts with equal views for equal inputs.
pub open spec fn det_u64<F: Fn(u64) -> String>(f: F) -> bool {
    &&& forall|x: u64| #[trigger] f.requires((x,))
    &&& forall|x: u64, r1: String, r2: String|
        #[trigger] f.ensures((x,), r1) && #[trigger] f.ensures((x,), r2) ==> r1@ == r2@
}

/// The text that `f` gives for `x`.
pub open spec fn text_u64<F: Fn(u64) -> String>(f: F, x: u64) -> Seq<char> {
    (choose|r: String| f.ensures((x,), r))@
}

pub proof fn lemma_text_u64<F: Fn(u64) -> String>(f: F, x: u64, r: String)
    requires
        det_u64(f),
        f.ensures((x,), r),
    ensures
        r@ == text_u64(f, x),
{
    let c = choose|r: String| f.ensures((x,), r);
    assert(f.ensures((x,), c));
}

/// `f` gives texts with equal views for texts with equal views.
pub open spec fn det_str<F: Fn(&str) -> String>(f: F) -> bool {
    &&& forall|q: &str| #[trigger] f.requires((q,))
    &&& forall|q1: &str, q2: &str, r1: String, r2: String|
        #[trigger] f.ensures((q1,), r1) && #[trigger] f.ensures((q2,), r2) && q1@ == q2@ ==> r1@
            == r2@
}

/// The text that `f` gives for a text with view `q`.
pub open spec fn text_str<F: Fn(&str) -> String>(f: F, q: Seq<char>) -> Seq<char> {
    (choose|a: &str, r: String| a@ == q && f.ensures((a,), r)).1@
}

pub proof fn lemma_text_str<F: Fn(&str) -> String>(f: F, q: &str, r: String)
    requires
        det_str(f),
        f.ensures((q,), r),
    ensures
        r@ == text_str(f, q@),
{
    let c = choose|a: &str, r: String| a@ == q@ && f.ensures((a,), r);
    assert(c.0@ == q@ && f.ensures((c.0,), c.1));
}

/// The "buy"/"sell" text of a side.
pub open spec fn side_text(side: OrderSide) -> Seq<char> {
    match side {
        OrderSide::Buy => "buy"@,
        OrderSide::Sell => "sell"@,
    }
}

pub fn side_string(side: OrderSide) -> (r: String)
    ensures
        r@ == side_text(side),
{
    match side {
        OrderSide::Buy => "buy".to_owned(),
        OrderSide::Sell => "sell".to_owned(),
    }
}

/// The price an order is listed at: its limit price, zero for a market order,
/// the limit price of a trigger order.
pub open spec fn order_price_raw(kind: OrderKind) -> u64 {
    match kind {
        OrderKind::Limit { price } => price,
        OrderKind::Market => 0,
        OrderKind::Trigger { limit_price } => limit_price,
    }
}

/// The question of a created market: the registered one, or the text packed
/// into its hash.
pub open spec fn created_question(st: IndexStoreView, c: MarketCreated) -> Seq<char> {
    match st.question_for_key(hash_key(c.question_hash@)) {
        Some(q) => q,
        None => question_from_hash_spec(c.question_hash@),
    }
}

/// The market that a creation event makes: its id is the UUID of its
/// address; its slug is the registered one, or the one derived from the
/// question; its icon is the registered one.
pub open spec fn created_market<S: Fn(&str) -> String>(
    st: IndexStoreView,
    c: MarketCreated,
    slug_from_question: S,
) -> MarketView {
    let key = hash_key(c.question_hash@);
    let question = created_question(st, c);
    MarketView {
        id: uuid_v5_oid(encode_utf8(c.market_address@)),
        slug: match st.slug_for_key(key) {
            Some(s) => s,
            None => text_str(slug_from_question, question),
        },
        question: question,
        icon_url: st.icon_url_for_key(key),
        market_address: c.market_address@,
        collateral_token: c.collateral_token@,
        yes_token: c.yes_token@,
        no_token: c.no_token@,
        yes_spot_market: c.yes_spot_market@,
        no_spot_market: c.no_spot_market@,
        state: c.state@,
        resolution_deadline: c.resolution_deadline,
    }
}

/// Files the market of a creation event.
pub fn index_market_created<S: Fn(&str) -> String>(
    store: &mut IndexStore,
    created: &MarketCreated,
    slug_from_question: &S,
)
    requires
        old(store).wf(),
        det_str(*slug_from_question),
    ensures
        final(store).wf(),
        final(store)@ == old(store)@.upsert_market(
            created_market(old(store)@, *created, *slug_from_question),
        ),
{
    let ghost st = store@;
    let market_address = created.market_address.clone();
    let question = match store.question_for_hash(&created.question_hash) {
        Some(q) => q,
        None => question_from_hash(&created.question_hash),
    };
    let slug = match store.slug_for_hash(&created.question_hash) {
        Some(s) => s,
        None => {
            let q = question.as_str();
            let s = slug_from_question(q);
            proof {
                lemma_text_str(*slug_from_question, q, s);
            }
            s
        },
    };
    let icon_url = store.icon_url_for_hash(&created.question_hash);
    let market = Market {
        id: market_uuid(market_address.as_str()),
        slug: slug,
        question: question,
        icon_url: icon_url,
        market_address: market_address,
        collateral_token: created.collateral_token.clone(),
        yes_token: created.yes_token.clone(),
        no_token: created.no_token.clone(),
        yes_spot_market: created.yes_spot_market.clone(),
        no_spot_market: created.no_spot_market.clone(),
        state: created.state.clone(),
        resolution_deadline: created.resolution_deadline,
    };
    assert(market@ == created_market(st, *created, *slug_from_question));
    store.upsert_market(market);
}

/// The order that a placement event files on spot market `spot`.
pub open spec fn created_order<P: Fn(u64) -> String, A: Fn(u64) -> String>(
    st: IndexStoreView,
    c: OrderCreated,
    spot: SpotRefView,
    format_price: P,
    format_amount: A,
) -> OrderView {
    let market = st.get_market(spot.market_id);
    OrderView {
        id: uuid_v5_oid(encode_utf8(order_uuid_name(spot.market_id, c.order_id@))),
        market_id: spot.market_id,
        event_slug: match market {
            Some(m) => m.slug,
            None => Seq::empty(),
        },
        question: match market {
            Some(m) => m.question,
            None => Seq::empty(),
        },
        outcome: spot.outcome,
        side: side_text(c.side),
        price: text_u64(format_price, order_price_raw(c.order_type)),
        size: text_u64(format_amount, c.amount),
        status: open_text(),
    }
}

/// Files the order of a placement event when its spot market belongs to a
/// known market, and returns it; an order on an unknown spot market is not
/// filed.
pub fn index_order_created<P: Fn(u64) -> String, A: Fn(u64) -> String>(
    store: &mut IndexStore,
    created: &OrderCreated,
    format_price: &P,
    format_amount: &A,
) -> (r: Option<Order>)
    requires
        old(store).wf(),
        det_u64(*format_price),
        det_u64(*format_amount),
        old(store)@.spot_to_market.contains_key(created.market@) || market_ref_cut_ok(
            created.market@,
        ),
    ensures
        final(store).wf(),
        match old(store)@.lookup_spot_market(created.market@) {
            Some(spot) => {
                let o = created_order(old(store)@, *created, spot, *format_price, *format_amount);
                &&& r matches Some(order) && order@ == o
                &&& final(store)@ == old(store)@.insert_order(
                    o,
                    created.creator@,
                    created.order_id@,
                    created.amount,
                )
            },
            None => r is None && final(store)@ == old(store)@,
        },
{
    let ghost st = store@;
    let (market_id, outcome) = match store.lookup_spot_market(created.market.as_str()) {
        Some(found) => found,
        None => return None,
    };
    let price_raw = match created.order_type {
        OrderKind::Limit { price } => price,
        OrderKind::Market => 0,
        OrderKind::Trigger { limit_price } => limit_price,
    };
    let side = side_string(created.side);
    let (question, event_slug) = match store.get_market(market_id) {
        Some(m) => (m.question, m.slug),
        None => (String::new(), String::new()),
    };
    let price = format_price(price_raw);
    let size = format_amount(created.amount);
    proof {
        lemma_text_u64(*format_price, price_raw, price);
        lemma_text_u64(*format_amount, created.amount, size);
    }
    let order = Order {
        id: order_uuid(market_id, created.order_id.as_str()),
        market_id: market_id,
        event_slug: event_slug,
        question: question,
        outcome: outcome,
        side: side,
        price: price,
        size: size,
        status: open_string(),
    };
    assert(order@ == created_order(
        st,
        *created,
        SpotRefView { market_id: market_id, outcome: order@.outcome },
        *format_price,
        *format_amount,
    ));
    store.insert_order(order.clone(), created.creator.clone(), created.order_id.clone(), created.amount);
    Some(order)
}

/// What a placement asks of the order book: limit orders rest on the book
/// of their spot market; other orders do not.
pub open spec fn created_book_update(block_num: u64, c: OrderCreated) -> Option<BookUpdateView> {
    match c.order_type {
        OrderKind::Limit { price } => Some(
            BookUpdateView::Created {
                spot_market: c.market_key@,
                side: c.side,
                price: price,
                amount: c.amount,
                block_num: block_num,
            },
        ),
        _ => None,
    }
}

pub fn apply_order_created_to_book(block_num: u64, created: &OrderCreated) -> (r: Option<
    BookUpdate,
>)
    ensures
        match r {
            Some(u) => created_book_update(block_num, *created) == Some(u@),
            None => created_book_update(block_num, *created) is None,
        },
{
    match created.order_type {
        OrderKind::Limit { price } => Some(
            BookUpdate::Created {
                spot_market: created.market_key.clone(),
                side: created.side,
                price: price,
                amount: created.amount,
                block_num: block_num,
            },
        ),
        _ => None,
    }
}

/// The announcement of an order to its owner, when the order named by
/// `chain_order_id` is stored.
pub open spec fn order_notice(
    st: IndexStoreView,
    kind: OrderNoticeKind,
    chain_order_id: Seq<char>,
    block_num: u64,
) -> Seq<EffectView> {
    match st.stored_order_by_chain_id(chain_order_id) {
        Some((order, user)) => seq![
            EffectView::Order(
                OrderNoticeView {
                    kind: kind,
                    user_address: user,
                    chain_order_id: chain_order_id,
                    order: order,
                    block_num: block_num,
                },
            ),
        ],
        None => Seq::empty(),
    }
}

/// Appends the placement notice of the order named by `chain_order_id` to
/// its owner's stream, when that order is stored.
pub fn publish_user_order_created(
    store: &IndexStore,
    chain_order_id: &str,
    block_num: u64,
    effects: &mut Vec<Effect>,
)
    requires
        store.wf(),
    ensures
        effect_views(final(effects)@) == effect_views(old(effects)@) + order_notice(
            store@,
            OrderNoticeKind::Placement,
            chain_order_id@,
            block_num,
        ),
{
    push_order_notice(store, OrderNoticeKind::Placement, chain_order_id, block_num, effects);
}

/// Appends the cancellation notice of the order named by `chain_order_id`
/// to its owner's stream, when that order is stored.
pub fn publish_user_order_cancelled(
    store: &IndexStore,
    chain_order_id: &str,
    block_num: u64,
    effects: &mut Vec<Effect>,
)
    requires
        store.wf(),
    ensures
        effect_views(final(effects)@) == effect_views(old(effects)@) + order_notice(
            store@,
            OrderNoticeKind::Cancellation,
            chain_order_id@,
            block_num,
        ),
{
    push_order_notice(store, OrderNoticeKind::Cancellation, chain_order_id, block_num, effects);
}

fn push_order_notice(
    store: &IndexStore,
    kind: OrderNoticeKind,
    chain_order_id: &str,
    block_num: u64,
    effects: &mut Vec<Effect>,
)
    requires
        store.wf(),
    ensures
        effect_views(final(effects)@) == effect_views(old(effects)@) + order_notice(
            store@,
            kind,
            chain_order_id@,
            block_num,
        ),
{
    let ghost before = effects@;
    if let Some((order, user_address)) = store.stored_order_by_chain_id(chain_order_id) {
        effects.push(
            Effect::Order(
                OrderNotice {
                    kind: kind,
                    user_address: user_address,
                    chain_order_id: chain_order_id.to_owned(),
                    order: order,
                    block_num: block_num,
                },
            ),
        );
    }
    assert(effect_views(effects@) =~= effect_views(before) + order_notice(
        store@,
        kind,
        chain_order_id@,
        block_num,
    ));
}

/// The index after a placement event, and what it asks of the book and of
/// the owner's stream. A chain order id that is already filed is ignored.
pub open spec fn order_created_step<P: Fn(u64) -> String, A: Fn(u64) -> String>(
    st: IndexStoreView,
    block_num: u64,
    c: OrderCreated,
    format_price: P,
    format_amount: A,
) -> (IndexStoreView, Seq<EffectView>) {
    if st.has_chain_order(c.order_id@) {
        (st, Seq::empty())
    } else {
        let book = match created_book_update(block_num, c) {
            Some(u) => seq![EffectView::Book(u)],
            None => Seq::empty(),
        };
        let next = match st.lookup_spot_market(c.market@) {
            Some(spot) => st.insert_order(
                created_order(st, c, spot, format_price, format_amount),
                c.creator@,
                c.order_id@,
                c.amount,
            ),
            None => st,
        };
        (next, book + order_notice(next, OrderNoticeKind::Placement, c.order_id@, block_num))
    }
}

/// The index after a cancellation event, and what it asks of the book and of
/// the owner's stream.
pub open spec fn order_cancelled_step(st: IndexStoreView, block_num: u64, c: OrderCancelled) -> (
    IndexStoreView,
    Seq<EffectView>,
) {
    let book = match st.spot_market_for_chain_order(c.order_id@) {
        Some(spot) => seq![
            EffectView::Book(
                BookUpdateView::Cancelled {
                    spot_market: spot,
                    side: c.side,
                    price: c.price,
                    amount: c.cancelled_amount,
                    block_num: block_num,
                },
            ),
        ],
        None => Seq::empty(),
    };
    let next = st.update_order_cancelled(c.order_id@);
    (next, book + order_notice(next, OrderNoticeKind::Cancellation, c.order_id@, block_num))
}

/// The announcements of a fill to the owner of the filled order: the trade,
/// then the updated order.
pub open spec fn trade_notices<P: Fn(u64) -> String, A: Fn(u64) -> String>(
    st: IndexStoreView,
    c: OrderFilled,
    format_price: P,
    format_amount: A,
    block_num: u64,
) -> Seq<EffectView> {
    match st.stored_order_by_chain_id(c.order_id@) {
        Some((order, user)) => seq![
            EffectView::Trade(
                TradeNoticeView {
                    user_address: user,
                    chain_order_id: c.order_id@,
                    order_id: order.id,
                    market_slug: order.event_slug,
                    outcome: order.outcome,
                    side: side_text(c.side),
                    price: text_u64(format_price, c.price),
                    fill_amount: text_u64(format_amount, c.fill_amount),
                    remaining_amount: text_u64(format_amount, c.remaining_amount),
                    is_fully_filled: c.is_fully_filled,
                    spot_market: c.market_key@,
                    block_num: block_num,
                },
            ),
            EffectView::Order(
                OrderNoticeView {
                    kind: OrderNoticeKind::Update,
                    user_address: user,
                    chain_order_id: c.order_id@,
                    order: order,
                    block_num: block_num,
                },
            ),
        ],
        None => Seq::empty(),
    }
}

/// The index after a fill event, and what it asks of the book and of the
/// owner's stream.
pub open spec fn order_filled_step<P: Fn(u64) -> String, A: Fn(u64) -> String>(
    st: IndexStoreView,
    block_num: u64,
    c: OrderFilled,
    format_price: P,
    format_amount: A,
) -> (IndexStoreView, Seq<EffectView>) {
    let priced = st.record_last_trade_price(c.market_key@, c.price);
    let book = seq![
        EffectView::Book(
            BookUpdateView::Filled {
                spot_market: c.market_key@,
                side: c.side,
                price: c.price,
                amount: c.fill_amount,
                block_num: block_num,
                last_trade_price: c.price,
            },
        ),
    ];
    let next = priced.update_order_fill(
        c.order_id@,
        c.fill_amount,
        c.remaining_amount,
        c.is_fully_filled,
    );
    (next, book + trade_notices(next, c, format_price, format_amount, block_num))
}

/// The index after one event, and what the event asks of the rest of the
/// service. Only contract calls whose action name matches their decoded
/// payload count; everything else leaves the index as it is.
pub open spec fn event_step<
    P: Fn(u64) -> String,
    A: Fn(u64) -> String,
    S: Fn(&str) -> String,
>(
    st: IndexStoreView,
    block_num: u64,
    e: TxEvent,
    format_price: P,
    format_amount: A,
    slug_from_question: S,
) -> (IndexStoreView, Seq<EffectView>) {
    match e.event_type {
        EventType::Call(name) => match e.payload {
            Some(EventPayload::MarketCreated(c)) => if name@ == "event_contract_created"@ {
                (st.upsert_market(created_market(st, c, slug_from_question)), Seq::empty())
            } else {
                (st, Seq::empty())
            },
            Some(EventPayload::MarketResolved(r)) => if name@ == "event_contract_resolved"@ {
                (st.update_market_state(r.market_address@, "Resolved"@), Seq::empty())
            } else {
                (st, Seq::empty())
            },
            Some(EventPayload::OrderCreated(c)) => if name@ == "order_created"@ {
                order_created_step(st, block_num, c, format_price, format_amount)
            } else {
                (st, Seq::empty())
            },
            Some(EventPayload::OrderCancelled(c)) => if name@ == "order_cancelled"@ {
                order_cancelled_step(st, block_num, c)
            } else {
                (st, Seq::empty())
            },
            Some(EventPayload::OrderFilled(c)) => if name@ == "order_filled"@ {
                order_filled_step(st, block_num, c, format_price, format_amount)
            } else {
                (st, Seq::empty())
            },
            None => (st, Seq::empty()),
        },
        _ => (st, Seq::empty()),
    }
}

/// The spot market texts that processing `e` on `st` cuts into contract keys
/// can be cut there: that of a fill, and that of a new placement whose
/// market is not filed under its own text.
pub open spec fn event_markets_ok(st: IndexStoreView, e: TxEvent) -> bool {
    match e.event_type {
        EventType::Call(name) => match e.payload {
            Some(EventPayload::OrderCreated(c)) => (name@ == "order_created"@ && !st.has_chain_order(
                c.order_id@,
            ) && !st.spot_to_market.contains_key(c.market@)) ==> market_ref_cut_ok(c.market@),
            Some(EventPayload::OrderFilled(f)) => name@ == "order_filled"@ ==> market_ref_cut_ok(
                f.market_key@,
            ),
            _ => true,
        },
        _ => true,
    }
}

/// The views of a list of effects.
pub open spec fn effect_views(s: Seq<Effect>) -> Seq<EffectView> {
    s.map_values(|e: Effect| e@)
}

/// Applies one event to the index and appends what it asks of the rest of
/// the service to `effects`.
pub fn process_event<P: Fn(u64) -> String, A: Fn(u64) -> String, S: Fn(&str) -> String>(
    store: &mut IndexStore,
    block_num: u64,
    event: &TxEvent,
    format_price: &P,
    format_amount: &A,
    slug_from_question: &S,
    effects: &mut Vec<Effect>,
)
    requires
        old(store).wf(),
        det_u64(*format_price),
        det_u64(*format_amount),
        det_str(*slug_from_question),
        event_markets_ok(old(store)@, *event),
    ensures
        final(store).wf(),
        final(store)@ == event_step(
            old(store)@,
            block_num,
            *event,
            *format_price,
            *format_amount,
            *slug_from_question,
        ).0,
        effect_views(final(effects)@) == effect_views(old(effects)@) + event_step(
            old(store)@,
            block_num,
            *event,
            *format_price,
            *format_amount,
            *slug_from_question,
        ).1,
{
    let ghost st = store@;
    let ghost before = effect_views(effects@);
    let name = match &event.event_type {
        EventType::Call(name) => name,
        _ => {
            assert(effect_views(effects@) =~= before + Seq::<EffectView>::empty());
            return;
        },
    };
    match &event.payload {
        Some(EventPayload::MarketCreated(created)) => {
            if str_eq(name.as_str(), "event_contract_created") {
                index_market_created(store, created, slug_from_question);
            }
        },
        Some(EventPayload::MarketResolved(resolved)) => {
            if str_eq(name.as_str(), "event_contract_resolved") {
                store.update_market_state(resolved.market_address.as_str(), "Resolved");
            }
        },
        Some(EventPayload::OrderCreated(created)) => {
            if str_eq(name.as_str(), "order_created") {
                if !store.has_chain_order(created.order_id.as_str()) {
                    if let Some(update) = apply_order_created_to_book(block_num, created) {
                        effects.push(Effect::Book(update));
                    }
                    let ghost mid = effect_views(effects@);
                    assert(mid =~= before + match created_book_update(block_num, *created) {
                        Some(u) => seq![EffectView::Book(u)],
                        None => Seq::<EffectView>::empty(),
                    });
                    let _ = index_order_created(store, created, format_price, format_amount);
                    publish_user_order_created(store, created.order_id.as_str(), block_num, effects);
                }
            }
        },
        Some(EventPayload::OrderCancelled(cancelled)) => {
            if str_eq(name.as_str(), "order_cancelled") {
                if let Some(spot_market) = store.spot_market_for_chain_order(
                    cancelled.order_id.as_str(),
                ) {
                    effects.push(
                        Effect::Book(
                            BookUpdate::Cancelled {
                                spot_market: spot_market,
                                side: cancelled.side,
                                price: cancelled.price,
                                amount: cancelled.cancelled_amount,
                                block_num: block_num,
                            },
                        ),
                    );
                }
                let ghost mid = effect_views(effects@);
                assert(mid =~= before + match st.spot_market_for_chain_order(cancelled.order_id@) {
                    Some(spot) => seq![
                        EffectView::Book(
                            BookUpdateView::Cancelled {
                                spot_market: spot,
                                side: cancelled.side,
                                price: cancelled.price,
                                amount: cancelled.cancelled_amount,
                                block_num: block_num,
                            },
                        ),
                    ],
                    None => Seq::<EffectView>::empty(),
                });
                store.update_order_cancelled(cancelled.order_id.as_str());
                publish_user_order_cancelled(store, cancelled.order_id.as_str(), block_num, effects);
            }
        },
        Some(EventPayload::OrderFilled(filled)) => {
            if str_eq(name.as_str(), "order_filled") {
                store.record_last_trade_price(filled.market_key.as_str(), filled.price);
                effects.push(
                    Effect::Book(
                        BookUpdate::Filled {
                            spot_market: filled.market_key.clone(),
                            side: filled.side,
                            price: filled.price,
                            amount: filled.fill_amount,
                            block_num: block_num,
                            last_trade_price: filled.price,
                        },
                    ),
                );
                store.update_order_fill(
                    filled.order_id.as_str(),
                    filled.fill_amount,
                    filled.remaining_amount,
                    filled.is_fully_filled,
                );
                publish_user_order_filled(
                    store,
                    filled,
                    format_price,
                    format_amount,
                    block_num,
                    effects,
                );
            }
        },
        None => {},
    }
    assert(effect_views(effects@) =~= before + event_step(
        st,
        block_num,
        *event,
        *format_price,
        *format_amount,
        *slug_from_question,
    ).1);
}

/// Appends the announcements of a fill to the owner of the filled order.
pub fn publish_user_order_filled<P: Fn(u64) -> String, A: Fn(u64) -> String>(
    store: &IndexStore,
    filled: &OrderFilled,
    format_price: &P,
    format_amount: &A,
    block_num: u64,
    effects: &mut Vec<Effect>,
)
    requires
        store.wf(),
        det_u64(*format_price),
        det_u64(*format_amount),
    ensures
        effect_views(final(effects)@) == effect_views(old(effects)@) + trade_notices(
            store@,
            *filled,
            *format_price,
            *format_amount,
            block_num,
        ),
{
    let ghost before = effect_views(effects@);
    if let Some((order, user_address)) = store.stored_order_by_chain_id(filled.order_id.as_str()) {
        let price = format_price(filled.price);
        let fill_amount = format_amount(filled.fill_amount);
        let remaining_amount = format_amount(filled.remaining_amount);
        proof {
            lemma_text_u64(*format_price, filled.price, price);
            lemma_text_u64(*format_amount, filled.fill_amount, fill_amount);
            lemma_text_u64(*format_amount, filled.remaining_amount, remaining_amount);
        }
        effects.push(
            Effect::Trade(
                TradeNotice {
                    user_address: user_address.clone(),
                    chain_order_id: filled.order_id.clone(),
                    order_id: order.id,
                    market_slug: order.event_slug.clone(),
                    outcome: order.outcome.clone(),
                    side: side_string(filled.side),
                    price: price,
                    fill_amount: fill_amount,
                    remaining_amount: remaining_amount,
                    is_fully_filled: filled.is_fully_filled,
                    spot_market: filled.market_key.clone(),
                    block_num: block_num,
                },
            ),
        );
        effects.push(
            Effect::Order(
                OrderNotice {
                    kind: OrderNoticeKind::Update,
                    user_address: user_address,
                    chain_order_id: filled.order_id.clone(),
                    order: order,
                    block_num: block_num,
                },
            ),
        );
    }
    assert(effect_views(effects@) =~= before + trade_notices(
        store@,
        *filled,
        *format_price,
        *format_amount,
        block_num,
    ));
}

/// The index after the events `evs` in order, and what they ask of the rest
/// of the service, in order.
pub open spec fn events_step<
    P: Fn(u64) -> String,
    A: Fn(u64) -> String,
    S: Fn(&str) -> String,
>(
    st: IndexStoreView,
    block_num: u64,
    evs: Seq<TxEvent>,
    format_price: P,
    format_amount: A,
    slug_from_question: S,
) -> (IndexStoreView, Seq<EffectView>)
    decreases evs.len(),
{
    if evs.len() == 0 {
        (st, Seq::empty())
    } else {
        let prev = events_step(
            st,
            block_num,
            evs.drop_last(),
            format_price,
            format_amount,
            slug_from_question,
        );
        let last = event_step(
            prev.0,
            block_num,
            evs.last(),
            format_price,
            format_amount,
            slug_from_question,
        );
        (last.0, prev.1 + last.1)
    }
}

/// The index after the transactions `txs` of block `block_num`, and what
/// they ask of the rest of the service. Failed transactions are skipped.
pub open spec fn block_step<
    P: Fn(u64) -> String,
    A: Fn(u64) -> String,
    S: Fn(&str) -> String,
>(
    st: IndexStoreView,
    block_num: u64,
    txs: Seq<TxResult>,
    format_price: P,
    format_amount: A,
    slug_from_question: S,
) -> (IndexStoreView, Seq<EffectView>)
    decreases txs.len(),
{
    if txs.len() == 0 {
        (st, Seq::empty())
    } else {
        let prev = block_step(
            st,
            block_num,
            txs.drop_last(),
            format_price,
            format_amount,
            slug_from_question,
        );
        if txs.last().success {
            let last = events_step(
                prev.0,
                block_num,
                txs.last().events@,
                format_price,
                format_amount,
                slug_from_question,
            );
            (last.0, prev.1 + last.1)
        } else {
            prev
        }
    }
}

/// Every event of a successful transaction of the block meets
/// `event_markets_ok` in the index as it stands when that event is reached.
pub open spec fn block_markets_ok<
    P: Fn(u64) -> String,
    A: Fn(u64) -> String,
    S: Fn(&str) -> String,
>(
    st: IndexStoreView,
    block: Block,
    format_price: P,
    format_amount: A,
    slug_from_question: S,
) -> bool {
    forall|i: int, j: int|
        0 <= i < block.transaction_outputs@.len() && block.transaction_outputs@[i].success && 0 <= j
            < block.transaction_outputs@[i].events@.len() ==> event_markets_ok(
            events_step(
                block_step(
                    st,
                    block.block_num,
                    block.transaction_outputs@.take(i),
                    format_price,
                    format_amount,
                    slug_from_question,
                ).0,
                block.block_num,
                block.transaction_outputs@[i].events@.take(j),
                format_price,
                format_amount,
                slug_from_question,
            ).0,
            #[trigger] block.transaction_outputs@[i].events@[j],
        )
}

/// Applies every event of the successful transactions of a block to the
/// index, in order, and returns what they ask of the order books and of the
/// users' event streams, in order.
pub fn process_block<P: Fn(u64) -> String, A: Fn(u64) -> String, S: Fn(&str) -> String>(
    store: &mut IndexStore,
    block: &Block,
    format_price: &P,
    format_amount: &A,
    slug_from_question: &S,
) -> (r: Vec<Effect>)
    requires
        old(store).wf(),
        det_u64(*format_price),
        det_u64(*format_amount),
        det_str(*slug_from_question),
        block_markets_ok(old(store)@, *block, *format_price, *format_amount, *slug_from_question),
    ensures
        final(store).wf(),
        (final(store)@, effect_views(r@)) == block_step(
            old(store)@,
            block.block_num,
            block.transaction_outputs@,
            *format_price,
            *format_amount,
            *slug_from_question,
        ),
{
    let ghost st0 = store@;
    let ghost txs = block.transaction_outputs@;
    let block_num = block.block_num;
    let mut effects: Vec<Effect> = Vec::new();
    let n = block.transaction_outputs.len();
    let mut i: usize = 0;
    assert(txs.take(0) =~= Seq::<TxResult>::empty());
    while i < n
        invariant
            n == txs.len(),
            txs == block.transaction_outputs@,
            block_num == block.block_num,
            0 <= i <= n,
            store.wf(),
            det_u64(*format_price),
            det_u64(*format_amount),
            det_str(*slug_from_question),
            block_markets_ok(st0, *block, *format_price, *format_amount, *slug_from_question),
            (store@, effect_views(effects@)) == block_step(
                st0,
                block_num,
                txs.take(i as int),
                *format_price,
                *format_amount,
                *slug_from_question,
            ),
        decreases n - i,
    {
        let tx = &block.transaction_outputs[i];
        assert(txs.take(i as int + 1).drop_last() =~= txs.take(i as int));
        if tx.success {
            let ghost mid_store = store@;
            let ghost mid_effects = effect_views(effects@);
            let ghost evs = tx.events@;
            let m = tx.events.len();
            let mut j: usize = 0;
            assert(evs.take(0) =~= Seq::<TxEvent>::empty());
            assert(mid_effects + Seq::<EffectView>::empty() =~= mid_effects);
            while j < m
                invariant
                    m == evs.len(),
                    evs == tx.events@,
                    tx == block.transaction_outputs@[i as int],
                    i < n,
                    n == block.transaction_outputs@.len(),
                    0 <= j <= m,
                    store.wf(),
                    det_u64(*format_price),
                    det_u64(*format_amount),
                    det_str(*slug_from_question),
                    block_markets_ok(st0, *block, *format_price, *format_amount, *slug_from_question),
                    block.transaction_outputs@[i as int].success,
                    block_num == block.block_num,
                    txs == block.transaction_outputs@,
                    mid_store == block_step(
                        st0,
                        block_num,
                        txs.take(i as int),
                        *format_price,
                        *format_amount,
                        *slug_from_question,
                    ).0,
                    store@ == events_step(
                        mid_store,
                        block_num,
                        evs.take(j as int),
                        *format_price,
                        *format_amount,
                        *slug_from_question,
                    ).0,
                    effect_views(effects@) == mid_effects + events_step(
                        mid_store,
                        block_num,
                        evs.take(j as int),
                        *format_price,
                        *format_amount,
                        *slug_from_question,
                    ).1,
                decreases m - j,
            {
                let event = &tx.events[j];
                assert(event_markets_ok(store@, block.transaction_outputs@[i as int].events@[j as int]));
                assert(evs.take(j as int + 1).drop_last() =~= evs.take(j as int));
                process_event(
                    store,
                    block_num,
                    event,
                    format_price,
                    format_amount,
                    slug_from_question,
                    &mut effects,
                );
                j = j + 1;
            }
            assert(evs.take(m as int) =~= evs);
        }
        i = i + 1;
    }
    assert(txs.take(n as int) =~= txs);
    effects
}

/// `b` keeps every spot market text and every chain order id that `a` files.
pub open spec fn files_at_least(a: IndexStoreView, b: IndexStoreView) -> bool {
    &&& a.spot_to_market.dom().subset_of(b.spot_to_market.dom())
    &&& a.chain_order_index.dom().subset_of(b.chain_order_index.dom())
}

proof fn lemma_event_step_files_at_least<
    P: Fn(u64) -> String,
    A: Fn(u64) -> String,
    S: Fn(&str) -> String,
>(
    st: IndexStoreView,
    block_num: u64,
    e: TxEvent,
    format_price: P,
    format_amount: A,
    slug_from_question: S,
)
    ensures
        files_at_least(
            st,
            event_step(st, block_num, e, format_price, format_amount, slug_from_question).0,
        ),
{
}

proof fn lemma_events_step_files_at_least<
    P: Fn(u64) -> String,
    A: Fn(u64) -> String,
    S: Fn(&str) -> String,
>(
    st: IndexStoreView,
    block_num: u64,
    evs: Seq<TxEvent>,
    format_price: P,
    format_amount: A,
    slug_from_question: S,
)
    ensures
        files_at_least(
            st,
            events_step(st, block_num, evs, format_price, format_amount, slug_from_question).0,
        ),
    decreases evs.len(),
{
    if evs.len() > 0 {
        lemma_events_step_files_at_least(
            st,
            block_num,
            evs.drop_last(),
            format_price,
            format_amount,
            slug_from_question,
        );
        let prev = events_step(
            st,
            block_num,
            evs.drop_last(),
            format_price,
            format_amount,
            slug_from_question,
        ).0;
        lemma_event_step_files_at_least(
            prev,
            block_num,
            evs.last(),
            format_price,
            format_amount,
            slug_from_question,
        );
    }
}

proof fn lemma_block_step_files_at_least<
    P: Fn(u64) -> String,
    A: Fn(u64) -> String,
    S: Fn(&str) -> String,
>(
    st: IndexStoreView,
    block_num: u64,
    txs: Seq<TxResult>,
    format_price: P,
    format_amount: A,
    slug_from_question: S,
)
    ensures
        files_at_least(
            st,
            block_step(st, block_num, txs, format_price, format_amount, slug_from_question).0,
        ),
    decreases txs.len(),
{
    if txs.len() > 0 {
        lemma_block_step_files_at_least(
            st,
            block_num,
            txs.drop_last(),
            format_price,
            format_amount,
            slug_from_question,
        );
        let prev = block_step(
            st,
            block_num,
            txs.drop_last(),
            format_price,
            format_amount,
            slug_from_question,
        ).0;
        if txs.last().success {
            lemma_events_step_files_at_least(
                prev,
                block_num,
                txs.last().events@,
                format_price,
                format_amount,
                slug_from_question,
            );
        }
    }
}

/// A check of one event against the index as it stands before the block: a
/// fill's spot market text can be cut, and so can a placement's market text
/// unless the index already files that text or that chain order id.
pub open spec fn event_markets_plainly_ok(st: IndexStoreView, e: TxEvent) -> bool {
    match e.event_type {
        EventType::Call(name) => match e.payload {
            Some(EventPayload::OrderCreated(c)) => name@ == "order_created"@ ==> (market_ref_cut_ok(
                c.market@,
            ) || st.has_chain_order(c.order_id@) || st.spot_to_market.contains_key(c.market@)),
            Some(EventPayload::OrderFilled(f)) => name@ == "order_filled"@ ==> market_ref_cut_ok(
                f.market_key@,
            ),
            _ => true,
        },
        _ => true,
    }
}

/// Every event of a successful transaction of the block passes
/// `event_markets_plainly_ok` against the index before the block.
pub open spec fn block_markets_plainly_ok(st: IndexStoreView, block: Block) -> bool {
    forall|i: int, j: int|
        0 <= i < block.transaction_outputs@.len() && block.transaction_outputs@[i].success && 0 <= j
            < block.transaction_outputs@[i].events@.len() ==> event_markets_plainly_ok(
            st,
            #[trigger] block.transaction_outputs@[i].events@[j],
        )
}

/// A block that passes the check against the index before it meets what
/// `process_block` requires: the index only gains spot market texts and
/// chain order ids while the block is processed.
pub proof fn lemma_plain_market_check_suffices<
    P: Fn(u64) -> String,
    A: Fn(u64) -> String,
    S: Fn(&str) -> String,
>(
    st: IndexStoreView,
    block: Block,
    format_price: P,
    format_amount: A,
    slug_from_question: S,
)
    requires
        block_markets_plainly_ok(st, block),
    ensures
        block_markets_ok(st, block, format_price, format_amount, slug_from_question),
{
    let txs = block.transaction_outputs@;
    assert forall|i: int, j: int|
        0 <= i < txs.len() && txs[i].success && 0 <= j < txs[i].events@.len() implies event_markets_ok(
        events_step(
            block_step(
                st,
                block.block_num,
                txs.take(i),
                format_price,
                format_amount,
                slug_from_question,
            ).0,
            block.block_num,
            txs[i].events@.take(j),
            format_price,
            format_amount,
            slug_from_question,
        ).0,
        #[trigger] txs[i].events@[j],
    ) by {
        let mid = block_step(
            st,
            block.block_num,
            txs.take(i),
            format_price,
            format_amount,
            slug_from_question,
        ).0;
        lemma_block_step_files_at_least(
            st,
            block.block_num,
            txs.take(i),
            format_price,
            format_amount,
            slug_from_question,
        );
        lemma_events_step_files_at_least(
            mid,
            block.block_num,
            txs[i].events@.take(j),
            format_price,
            format_amount,
            slug_from_question,
        );
        assert(event_markets_plainly_ok(st, txs[i].events@[j]));
    }
}

fn event_market_refs_cuttable(store: &IndexStore, event: &TxEvent) -> (r: bool)
    requires
        store.wf(),
    ensures
        r == event_markets_plainly_ok(store@, *event),
{
    proof {
        reveal_strlit("order_created");
        reveal_strlit("order_filled");
    }
    let name = match &event.event_type {
        EventType::Call(name) => name,
        _ => return true,
    };
    match &event.payload {
        Some(EventPayload::OrderCreated(c)) => {
            if !str_eq(name.as_str(), "order_created") {
                return true;
            }
            market_ref_cut_is_ok(c.market.as_str()) || store.has_chain_order(c.order_id.as_str())
                || store.files_spot_market(c.market.as_str())
        },
        Some(EventPayload::OrderFilled(f)) => {
            if !str_eq(name.as_str(), "order_filled") {
                return true;
            }
            market_ref_cut_is_ok(f.market_key.as_str())
        },
        _ => true,
    }
}

/// Checks a block against the index before it, so that a caller can test
/// what `process_block` requires (see `lemma_plain_market_check_suffices`).
pub fn block_market_refs_cuttable(store: &IndexStore, block: &Block) -> (r: bool)
    requires
        store.wf(),
    ensures
        r == block_markets_plainly_ok(store@, *block),
{
    let txs = &block.transaction_outputs;
    let n = txs.len();
    let mut i: usize = 0;
    while i < n
        invariant
            n == txs@.len(),
            txs == &block.transaction_outputs,
            store.wf(),
            0 <= i <= n,
            forall|a: int, b: int|
                0 <= a < i && txs@[a].success && 0 <= b < txs@[a].events@.len()
                    ==> event_markets_plainly_ok(store@, #[trigger] txs@[a].events@[b]),
        decreases n - i,
    {
        let tx = &txs[i];
        if tx.success {
            let m = tx.events.len();
            let mut j: usize = 0;
            while j < m
                invariant
                    m == tx.events@.len(),
                    tx == txs@[i as int],
                    tx.success,
                    txs == &block.transaction_outputs,
                    i < n,
                    n == txs@.len(),
                    store.wf(),
                    0 <= j <= m,
                    forall|b: int|
                        0 <= b < j ==> event_markets_plainly_ok(store@, #[trigger] tx.events@[b]),
                decreases m - j,
            {
                if !event_market_refs_cuttable(store, &tx.events[j]) {
                    assert(!event_markets_plainly_ok(store@, txs@[i as int].events@[j as int]));
                    return false;
                }
                j = j + 1;
            }
        }
        i = i + 1;
    }
    true
}

} // verus!
