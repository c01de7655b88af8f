//! What the HTTP and websocket endpoints compute, apart from reading the
//! request and writing the answer.

use vstd::prelude::*;
use crate::error::{AppError, AppErrorView};
use crate::ids::{uuid_hyphenated, uuid_text};
use crate::indexer::events::{Effect, EffectView, OrderCreated, OrderNoticeKind};
use crate::indexer::model::{owned_by, yes_symbol, no_symbol, IndexStoreView, StoredOrderView};
use crate::indexer::processor::{
    apply_order_created_to_book, created_book_update, created_order, det_u64, effect_views,
    index_order_created, lemma_text_u64, order_notice, publish_user_order_created, text_u64,
};
use crate::indexer::store::{allocated_by, hash_key, market_ref_cut_ok, IndexStore};
use crate::models::{
    opt_view, AllocateSlugRequest, BalanceTokenSpec, BookLevel, BookResponse,
    CancelContextResponse, Market, MarketInfoResponse, Order, OrderView, RegisterQuestionRequest,
    SlugResponse,
};
use crate::text::{str_eq, str_trim, trim_spec};

verus! {

/// An order as the order list shows it: a missing question or slug is taken
/// from the order's market, when that market is known.
pub open spec fn enriched_order(st: IndexStoreView, o: OrderView) -> OrderView {
    if (o.question.len() == 0 || o.event_slug.len() == 0) && st.markets.contains_key(o.market_id) {
        let m = st.markets[o.market_id];
        OrderView {
            question: if o.question.len() == 0 {
                m.question
            } else {
                o.question
            },
            event_slug: if o.event_slug.len() == 0 {
                m.slug
            } else {
                o.event_slug
            },
            ..o
        }
    } else {
        o
    }
}

/// The orders of a user for the order list, each completed from its market.
pub fn list_orders(store: &IndexStore, user_address: &str) -> (r: Vec<Order>)
    requires
        store.wf(),
    ensures
        r@.map_values(|o: Order| o@) == store.order_values().filter(
            |st: StoredOrderView| owned_by(st, user_address@),
        ).map_values(|st: StoredOrderView| enriched_order(store@, st.order)),
{
    let orders = store.list_orders_for_user(user_address);
    let ghost listed = orders@.map_values(|o: Order| o@);
    let ghost f = |o: OrderView| enriched_order(store@, o);
    let mut out: Vec<Order> = Vec::new();
    let n = orders.len();
    let mut i: usize = 0;
    while i < n
        invariant
            n == orders@.len(),
            listed == orders@.map_values(|o: Order| o@),
            store.wf(),
            0 <= i <= n,
            f == (|o: OrderView| enriched_order(store@, o)),
            out@.map_values(|o: Order| o@) == listed.take(i as int).map_values(f),
        decreases n - i,
    {
        let mut order = orders[i].clone();
        assert(order@ == listed[i as int]);
        if order.question.as_str().is_empty() || order.event_slug.as_str().is_empty() {
            if let Some(market) = store.get_market(order.market_id) {
                if order.question.as_str().is_empty() {
                    order.question = market.question;
                }
                if order.event_slug.as_str().is_empty() {
                    order.event_slug = market.slug;
                }
            }
        }
        assert(order@ == f(listed[i as int]));
        let ghost before = out@;
        out.push(order);
        assert(listed.take(i as int + 1) =~= listed.take(i as int).push(listed[i as int]));
        assert(out@.map_values(|o: Order| o@) =~= before.map_values(|o: Order| o@).push(
            f(listed[i as int]),
        ));
        assert(out@.map_values(|o: Order| o@) =~= listed.take(i as int + 1).map_values(f));
        i = i + 1;
    }
    assert(listed.take(n as int) =~= listed);
    assert(store.order_values().filter(|st: StoredOrderView| owned_by(st, user_address@)).map_values(
        |st: StoredOrderView| enriched_order(store@, st.order),
    ) =~= listed.map_values(f));
    out
}

/// "open order <id> not found".
pub open spec fn order_not_found_text(id: u128) -> Seq<char> {
    "open order "@ + uuid_hyphenated(id) + " not found"@
}

fn order_not_found(id: u128) -> (e: AppError)
    ensures
        e@ == AppErrorView::NotFound(order_not_found_text(id)),
{
    let mut message = String::from_str("open order ");
    message.append(uuid_text(id).as_str());
    message.append(" not found");
    AppError::NotFound(message)
}

/// The context a user needs to cancel one of their open orders.
pub fn cancel_context(store: &IndexStore, id: u128, user_address: &str) -> (r: Result<
    CancelContextResponse,
    AppError,
>)
    requires
        store.wf(),
    ensures
        match store@.order_cancel_context(id, user_address@) {
            Some((order, chain_order_id, spot_market)) => r matches Ok(c) && c.order@ == order
                && c.chain_order_id@ == chain_order_id && c.spot_market@ == spot_market,
            None => r matches Err(e) && e@ == AppErrorView::NotFound(order_not_found_text(id)),
        },
{
    match store.order_cancel_context(id, user_address) {
        Some((order, chain_order_id, spot_market)) => Ok(
            CancelContextResponse {
                order: order,
                chain_order_id: chain_order_id,
                spot_market: spot_market,
            },
        ),
        None => Err(order_not_found(id)),
    }
}

/// Marks an open order of a user as cancelled.
pub fn mark_cancelled(store: &mut IndexStore, id: u128, user_address: &str) -> (r: Result<
    (),
    AppError,
>)
    requires
        old(store).wf(),
    ensures
        final(store).wf(),
        match old(store)@.order_cancel_context(id, user_address@) {
            Some((_, chain_order_id, _)) => r is Ok && final(store)@
                == old(store)@.update_order_cancelled(chain_order_id),
            None => r matches Err(e) && e@ == AppErrorView::NotFound(order_not_found_text(id))
                && final(store)@ == old(store)@,
        },
{
    match store.order_cancel_context(id, user_address) {
        Some((_, chain_order_id, _)) => {
            store.update_order_cancelled(chain_order_id.as_str());
            Ok(())
        },
        None => Err(order_not_found(id)),
    }
}

/// Files an order reported by a client from its placement event. The book
/// update and the owner's announcement are made only for an order id not
/// filed before; the order is filed again either way. The effects are
/// returned even when the order's spot market is unknown.
pub fn index_from_event<P: Fn(u64) -> String, A: Fn(u64) -> String>(
    store: &mut IndexStore,
    event: &OrderCreated,
    format_price: &P,
    format_amount: &A,
) -> (r: (Vec<Effect>, Result<Order, AppError>))
    requires
        old(store).wf(),
        det_u64(*format_price),
        det_u64(*format_amount),
        old(store)@.spot_to_market.contains_key(event.market@) || market_ref_cut_ok(event.market@),
    ensures
        final(store).wf(),
        ({
            let st = old(store)@;
            let is_new = !st.has_chain_order(event.order_id@);
            let book = if is_new {
                match created_book_update(0, *event) {
                    Some(u) => seq![EffectView::Book(u)],
                    None => Seq::<EffectView>::empty(),
                }
            } else {
                Seq::<EffectView>::empty()
            };
            match st.lookup_spot_market(event.market@) {
                Some(spot) => {
                    let o = created_order(st, *event, spot, *format_price, *format_amount);
                    let next = st.insert_order(o, event.creator@, event.order_id@, event.amount);
                    &&& r.1 matches Ok(order) && order@ == o
                    &&& final(store)@ == next
                    &&& effect_views(r.0@) == book + if is_new {
                        order_notice(next, OrderNoticeKind::Placement, event.order_id@, 0)
                    } else {
                        Seq::<EffectView>::empty()
                    }
                },
                None => {
                    &&& r.1 matches Err(e) && e@ == AppErrorView::Internal(
                        "failed to index order from event"@,
                    )
                    &&& final(store)@ == st
                    &&& effect_views(r.0@) == book
                },
            }
        }),
{
    let ghost st = store@;
    let is_new = !store.has_chain_order(event.order_id.as_str());
    let mut effects: Vec<Effect> = Vec::new();
    if is_new {
        if let Some(update) = apply_order_created_to_book(0, event) {
            effects.push(Effect::Book(update));
        }
    }
    let ghost book = effect_views(effects@);
    assert(book =~= if is_new {
        match created_book_update(0, *event) {
            Some(u) => seq![EffectView::Book(u)],
            None => Seq::<EffectView>::empty(),
        }
    } else {
        Seq::<EffectView>::empty()
    });
    let order = match index_order_created(store, event, format_price, format_amount) {
        Some(order) => order,
        None => {
            return (effects, Err(AppError::Internal("failed to index order from event".to_owned())));
        },
    };
    if is_new {
        publish_user_order_created(store, event.order_id.as_str(), 0, &mut effects);
    } else {
        assert(effect_views(effects@) =~= book + Seq::<EffectView>::empty());
    }
    (effects, Ok(order))
}

/// "market <slug> not found".
pub open spec fn market_not_found_text(slug: Seq<char>) -> Seq<char> {
    "market "@ + slug + " not found"@
}

/// The market that a slug names.
pub fn get_market_by_slug(store: &IndexStore, slug: &str) -> (r: Result<Market, AppError>)
    requires
        store.wf(),
    ensures
        match store@.get_event_by_slug(slug@) {
            Some(m) => r matches Ok(market) && market@ == m,
            None => r matches Err(e) && e@ == AppErrorView::NotFound(market_not_found_text(slug@)),
        },
{
    match store.get_event_by_slug(slug) {
        Some(market) => Ok(market),
        None => {
            let mut message = String::from_str("market ");
            message.append(slug);
            message.append(" not found");
            Err(AppError::NotFound(message))
        },
    }
}

/// `h` gives equal hashes for texts with equal views.
pub open spec fn det_hash<H: Fn(&str) -> [u8; 32]>(h: H) -> bool {
    &&& forall|q: &str| #[trigger] h.requires((q,))
    &&& forall|q1: &str, q2: &str, r1: [u8; 32], r2: [u8; 32]|
        #[trigger] h.ensures((q1,), r1) && #[trigger] h.ensures((q2,), r2) && q1@ == q2@ ==> r1@
            == r2@
}

/// The hash that `h` gives for a text with view `q`.
pub open spec fn hash_of<H: Fn(&str) -> [u8; 32]>(h: H, q: Seq<char>) -> Seq<u8> {
    (choose|a: &str, r: [u8; 32]| a@ == q && h.ensures((a,), r)).1@
}

proof fn lemma_hash_of<H: Fn(&str) -> [u8; 32]>(h: H, q: &str, r: [u8; 32])
    requires
        det_hash(h),
        h.ensures((q,), r),
    ensures
        r@ == hash_of(h, q@),
{
    let c = choose|a: &str, r: [u8; 32]| a@ == q@ && h.ensures((a,), r);
    assert(c.0@ == q@ && h.ensures((c.0,), c.1));
}

/// The icon of a registration: the trimmed URL, unless it is blank.
pub open spec fn registered_icon(icon_url: Option<Seq<char>>) -> Option<Seq<char>> {
    match icon_url {
        Some(u) => if trim_spec(u).len() > 0 {
            Some(trim_spec(u))
        } else {
            None
        },
        None => None,
    }
}

/// Registers the question, slug and icon of a market about to be created,
/// under the hash of the trimmed question. A blank question or slug is
/// refused.
pub fn register_question<H: Fn(&str) -> [u8; 32]>(
    store: &mut IndexStore,
    body: &RegisterQuestionRequest,
    compute_question_hash: &H,
) -> (r: Result<(), AppError>)
    requires
        old(store).wf(),
        det_hash(*compute_question_hash),
    ensures
        final(store).wf(),
        ({
            let q = trim_spec(body.question@);
            let s = trim_spec(body.slug@);
            if q.len() == 0 {
                r matches Err(e) && e@ == AppErrorView::BadRequest("question is required"@)
                    && final(store)@ == old(store)@
            } else if s.len() == 0 {
                r matches Err(e) && e@ == AppErrorView::BadRequest("slug is required"@)
                    && final(store)@ == old(store)@
            } else {
                r is Ok && final(store)@ == old(store)@.register_question(
                    hash_key(hash_of(*compute_question_hash, q)),
                    crate::indexer::model::QuestionEntryView {
                        question: q,
                        slug: s,
                        icon_url: registered_icon(opt_view(body.icon_url)),
                    },
                )
            }
        }),
{
    let question = str_trim(body.question.as_str());
    if question.is_empty() {
        return Err(AppError::BadRequest("question is required".to_owned()));
    }
    let slug = str_trim(body.slug.as_str());
    if slug.is_empty() {
        return Err(AppError::BadRequest("slug is required".to_owned()));
    }
    let icon_url = match &body.icon_url {
        Some(url) => {
            let trimmed = str_trim(url.as_str());
            if trimmed.is_empty() {
                None
            } else {
                Some(trimmed.to_owned())
            }
        },
        None => None,
    };
    let hash = compute_question_hash(question);
    proof {
        lemma_hash_of(*compute_question_hash, question, hash);
    }
    store.register_question(&hash, question, slug, icon_url);
    Ok(())
}

/// A slug for a question about to be registered; a blank question is
/// refused.
pub fn allocate_slug<F: Fn(&Vec<String>, &str) -> String>(
    store: &IndexStore,
    body: &AllocateSlugRequest,
    allocate_unique_slug: F,
) -> (r: Result<SlugResponse, AppError>)
    requires
        store.wf(),
        forall|v: &Vec<String>, q: &str| #[trigger] allocate_unique_slug.requires((v, q)),
    ensures
        trim_spec(body.question@).len() == 0 ==> (r matches Err(e) && e@ == AppErrorView::BadRequest(
            "question is required"@,
        )),
        trim_spec(body.question@).len() > 0 ==> (r matches Ok(resp) && allocated_by(
            allocate_unique_slug,
            store.slug_keys(),
            trim_spec(body.question@),
            resp.slug,
        )),
{
    let question = str_trim(body.question.as_str());
    if question.is_empty() {
        return Err(AppError::BadRequest("question is required".to_owned()));
    }
    let slug = store.allocate_slug(question, allocate_unique_slug);
    Ok(SlugResponse { slug: slug })
}

/// The position tokens of every market as balance specs: YES then NO token
/// of each market.
pub fn position_token_specs(store: &IndexStore) -> (r: Vec<BalanceTokenSpec>)
    requires
        store.wf(),
    ensures
        r.len() == 2 * store.market_values().len(),
        forall|i: int|
            0 <= i < store.market_values().len() ==> {
                &&& r[2 * i].symbol@ == yes_symbol()
                &&& r[2 * i].address@ == (#[trigger] store.market_values()[i]).yes_token
                &&& r[2 * i + 1].symbol@ == no_symbol()
                &&& r[2 * i + 1].address@ == store.market_values()[i].no_token
            },
{
    let specs = store.position_token_specs();
    let mut out: Vec<BalanceTokenSpec> = Vec::new();
    let n = specs.len();
    let mut k: usize = 0;
    while k < n
        invariant
            n == specs.len(),
            0 <= k <= n,
            out.len() == k,
            forall|j: int|
                0 <= j < k ==> (#[trigger] out[j]).symbol@ == specs[j].0@ && out[j].address@
                    == specs[j].1@,
        decreases n - k,
    {
        out.push(BalanceTokenSpec { symbol: specs[k].0.clone(), address: specs[k].1.clone() });
        k = k + 1;
    }
    assert forall|i: int| 0 <= i < store.market_values().len() implies {
        &&& out[2 * i].symbol@ == yes_symbol()
        &&& out[2 * i].address@ == (#[trigger] store.market_values()[i]).yes_token
        &&& out[2 * i + 1].symbol@ == no_symbol()
        &&& out[2 * i + 1].address@ == store.market_values()[i].no_token
    } by {
        assert(out[2 * i].symbol@ == specs[2 * i].0@);
        assert(out[2 * i + 1].symbol@ == specs[2 * i + 1].0@);
    }
    out
}

/// A message from a websocket client.
#[derive(Debug)]
pub struct WsRequest {
    pub op: String,
    pub channel: Option<String>,
    pub spot_market: Option<String>,
    pub depth: Option<u32>,
}

/// What to do with a websocket client's message.
#[derive(Debug)]
pub enum WsAction {
    Ignore,
    Subscribe { spot_market: String, depth: u32 },
    Unsubscribe,
}

/// The depth of an order book subscription: 10 unless given, kept within
/// 1 to 50.
pub open spec fn subscription_depth(depth: Option<u32>) -> u32 {
    let d = match depth {
        Some(d) => d,
        None => 10,
    };
    if d < 1 {
        1
    } else if d > 50 {
        50
    } else {
        d
    }
}

/// Decides what a client's message asks for: a subscription to the order
/// book of a named spot market, an unsubscription, or nothing.
pub fn decide_client_request(request: WsRequest) -> (r: WsAction)
    ensures
        request.op@ == "subscribe"@ ==> match r {
            WsAction::Subscribe { spot_market, depth } => opt_view(request.channel) == Some(
                "orderbook"@,
            ) && opt_view(request.spot_market) == Some(spot_market@) && trim_spec(spot_market@).len()
                > 0 && depth == subscription_depth(request.depth),
            WsAction::Ignore => !(opt_view(request.channel) == Some("orderbook"@) && (
            request.spot_market matches Some(m) && trim_spec(m@).len() > 0)),
            WsAction::Unsubscribe => false,
        },
        request.op@ == "unsubscribe"@ ==> r is Unsubscribe,
        request.op@ != "subscribe"@ && request.op@ != "unsubscribe"@ ==> r is Ignore,
{
    proof {
        reveal_strlit("subscribe");
        reveal_strlit("unsubscribe");
        assert("subscribe"@.len() != "unsubscribe"@.len());
    }
    if str_eq(request.op.as_str(), "subscribe") {
        let is_orderbook = match &request.channel {
            Some(channel) => str_eq(channel.as_str(), "orderbook"),
            None => false,
        };
        if !is_orderbook {
            return WsAction::Ignore;
        }
        let spot_market = match request.spot_market {
            Some(m) => m,
            None => return WsAction::Ignore,
        };
        if str_trim(spot_market.as_str()).is_empty() {
            return WsAction::Ignore;
        }
        let d = match request.depth {
            Some(d) => d,
            None => 10,
        };
        let depth = if d < 1 {
            1
        } else if d > 50 {
            50
        } else {
            d
        };
        WsAction::Subscribe { spot_market: spot_market, depth: depth }
    } else if str_eq(request.op.as_str(), "unsubscribe") {
        WsAction::Unsubscribe
    } else {
        WsAction::Ignore
    }
}

/// The depth of an order book query: 10 unless given.
pub fn book_depth(depth: Option<u32>) -> (r: u32)
    ensures
        r == match depth {
            Some(d) => d,
            None => 10u32,
        },
{
    match depth {
        Some(d) => d,
        None => 10,
    }
}

/// One price level of an order book as the chain reports it.
#[derive(Debug, Clone, Copy)]
pub struct RawBookLevel {
    pub price: u64,
    pub total_quantity: u64,
}

/// Formats price levels: each price with `format_price`, each quantity with
/// `format_amount`.
pub fn book_levels<P: Fn(u64) -> String, A: Fn(u64) -> String>(
    levels: &Vec<RawBookLevel>,
    format_price: &P,
    format_amount: &A,
) -> (r: Vec<BookLevel>)
    requires
        det_u64(*format_price),
        det_u64(*format_amount),
    ensures
        r.len() == levels.len(),
        forall|i: int|
            0 <= i < levels.len() ==> (#[trigger] r[i]).price@ == text_u64(
                *format_price,
                levels[i].price,
            ) && r[i].size@ == text_u64(*format_amount, levels[i].total_quantity),
{
    let mut out: Vec<BookLevel> = Vec::new();
    let n = levels.len();
    let mut i: usize = 0;
    while i < n
        invariant
            n == levels.len(),
            0 <= i <= n,
            det_u64(*format_price),
            det_u64(*format_amount),
            out.len() == i,
            forall|k: int|
                0 <= k < i ==> (#[trigger] out[k]).price@ == text_u64(
                    *format_price,
                    levels[k].price,
                ) && out[k].size@ == text_u64(*format_amount, levels[k].total_quantity),
        decreases n - i,
    {
        let level = levels[i];
        let price = format_price(level.price);
        let size = format_amount(level.total_quantity);
        proof {
            lemma_text_u64(*format_price, level.price, price);
            lemma_text_u64(*format_amount, level.total_quantity, size);
        }
        out.push(BookLevel { price: price, size: size });
        i = i + 1;
    }
    out
}

/// The answer to an order book query. The chain's book query carries no
/// sequence number, so the answer reports 0.
pub fn book_response<P: Fn(u64) -> String, A: Fn(u64) -> String>(
    bids: &Vec<RawBookLevel>,
    asks: &Vec<RawBookLevel>,
    last_trade_price: Option<u64>,
    format_price: &P,
    format_amount: &A,
) -> (r: BookResponse)
    requires
        det_u64(*format_price),
        det_u64(*format_amount),
    ensures
        r.sequence == 0,
        r.bids.len() == bids.len(),
        forall|i: int|
            0 <= i < bids.len() ==> (#[trigger] r.bids[i]).price@ == text_u64(
                *format_price,
                bids[i].price,
            ) && r.bids[i].size@ == text_u64(*format_amount, bids[i].total_quantity),
        r.asks.len() == asks.len(),
        forall|i: int|
            0 <= i < asks.len() ==> (#[trigger] r.asks[i]).price@ == text_u64(
                *format_price,
                asks[i].price,
            ) && r.asks[i].size@ == text_u64(*format_amount, asks[i].total_quantity),
        opt_view(r.last_trade_price) == match last_trade_price {
            Some(p) => Some(text_u64(*format_price, p)),
            None => None,
        },
{
    let last = match last_trade_price {
        Some(p) => {
            let text = format_price(p);
            proof {
                lemma_text_u64(*format_price, p, text);
            }
            Some(text)
        },
        None => None,
    };
    BookResponse {
        sequence: 0,
        bids: book_levels(bids, format_price, format_amount),
        asks: book_levels(asks, format_price, format_amount),
        last_trade_price: last,
    }
}

/// A spot market's parameters as the chain reports them.
#[derive(Debug)]
pub struct RawMarketInfo {
    pub last_price: Option<u64>,
    pub state: String,
    pub min_order_size: u64,
    pub tick_size: u64,
    pub maker_fee_bps: u16,
    pub taker_fee_bps: u16,
    pub allow_market_orders: bool,
}

/// The answer to a market info query: the last price formatted as a price,
/// the minimum order size and tick size as token amounts.
pub fn market_info_response<P: Fn(u64) -> String, A: Fn(u64) -> String>(
    info: RawMarketInfo,
    format_price: &P,
    format_amount: &A,
) -> (r: MarketInfoResponse)
    requires
        det_u64(*format_price),
        det_u64(*format_amount),
    ensures
        opt_view(r.last_price) == match info.last_price {
            Some(p) => Some(text_u64(*format_price, p)),
            None => None,
        },
        r.state@ == info.state@,
        r.min_order_size@ == text_u64(*format_amount, info.min_order_size),
        r.tick_size@ == text_u64(*format_amount, info.tick_size),
        r.maker_fee_bps == info.maker_fee_bps,
        r.taker_fee_bps == info.taker_fee_bps,
        r.allow_market_orders == info.allow_market_orders,
{
    let last_price = match info.last_price {
        Some(p) => {
            let text = format_price(p);
            proof {
                lemma_text_u64(*format_price, p, text);
            }
            Some(text)
        },
        None => None,
    };
    let min_order_size = format_amount(info.min_order_size);
    let tick_size = format_amount(info.tick_size);
    proof {
        lemma_text_u64(*format_amount, info.min_order_size, min_order_size);
        lemma_text_u64(*format_amount, info.tick_size, tick_size);
    }
    MarketInfoResponse {
        last_price: last_price,
        state: info.state,
        min_order_size: min_order_size,
        tick_size: tick_size,
        maker_fee_bps: info.maker_fee_bps,
        taker_fee_bps: info.taker_fee_bps,
        allow_market_orders: info.allow_market_orders,
    }
}

} // verus!
