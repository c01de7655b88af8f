//! Properties of the index that hold across operations.

use vstd::prelude::*;
use vstd::utf8::*;
use crate::assoc::remove_value;
use crate::models::{MarketView, OrderView};
use crate::text::eq_ignore_ascii_case_spec;
use super::events::{
    BookUpdateView, EffectView, EventPayload, EventType, MarketCreated, MarketResolved,
    OrderCancelled, OrderCreated, OrderFilled, OrderKind, OrderNoticeKind, OrderSide, TxEvent,
    TxResult,
};
use super::model::{
    cancelled_text, filled_text, merge_market, open_text, spot_for_outcome, yes_text, no_text,
    owned_by, IndexStoreView, QuestionEntryView, SpotRefView, StoredOrderView, saturating_add_spec,
};
use super::processor::{block_step, created_market, event_step, order_created_step, text_str, text_u64};
use super::store::{
    contract_key_spec, first_zero, lemma_market_ref_body, market_ref_body, market_ref_cut_ok,
    hash_key, question_from_hash_spec, IndexStore,
};
use crate::ids::{order_uuid_name, uuid_v5_oid};

verus! {

/// A price recorded for a spot market is the price read back for it.
pub proof fn lemma_last_trade_price_reads_back(st: IndexStoreView, spot: Seq<char>, price: u64)
    ensures
        st.record_last_trade_price(spot, price).last_trade_price(spot) == Some(price),
{
}

/// A recorded price is also read back under the spot market's contract key.
pub proof fn lemma_last_trade_price_under_contract_key(
    st: IndexStoreView,
    spot: Seq<char>,
    price: u64,
)
    requires
        contract_key_spec(spot) is Some,
    ensures
        st.record_last_trade_price(spot, price).last_trade_price(contract_key_spec(spot)->0)
            == Some(price),
{
}

/// A stored market is read back by its id, merged with what was stored
/// before under that id.
pub proof fn lemma_upsert_reads_back(st: IndexStoreView, m: MarketView)
    ensures
        st.upsert_market(m).get_market(m.id) == Some(merge_market(st.get_market(m.id), m)),
{
}

/// The ids of the markets a store lists, in the order it keeps them.
pub open spec fn listed_market_ids(s: &IndexStore) -> Seq<u128> {
    s.market_values().map_values(|m: MarketView| m.id)
}

/// After a market is stored, the market list names each id once: the ids it
/// named before and the stored market's id. The stored market is listed as
/// merged with what was stored under its id; every other market is listed as
/// before.
pub proof fn lemma_upsert_market_list(before: &IndexStore, after: &IndexStore, m: MarketView)
    requires
        before.wf(),
        after.wf(),
        after@ == before@.upsert_market(m),
    ensures
        listed_market_ids(after).to_set() == listed_market_ids(before).to_set().insert(m.id),
        listed_market_ids(after).no_duplicates(),
        forall|i: int|
            0 <= i < after.market_values().len() && after.market_values()[i].id == m.id
                ==> #[trigger] after.market_values()[i] == merge_market(before@.get_market(m.id), m),
        forall|i: int|
            0 <= i < after.market_values().len() && after.market_values()[i].id != m.id
                ==> before@.markets.contains_key(after.market_values()[i].id)
                && #[trigger] after.market_values()[i] == before@.markets[after.market_values()[i].id],
{
    before.lemma_market_values();
    after.lemma_market_values();
    let a = listed_market_ids(after);
    let b = listed_market_ids(before);
    assert forall|id: u128| a.contains(id) <==> b.contains(id) || id == m.id by {
        if a.contains(id) {
            let i = choose|i: int| 0 <= i < a.len() && a[i] == id;
            assert(after.market_values()[i].id == id);
            if id != m.id {
                assert(before@.markets.contains_key(id));
                let j = choose|j: int|
                    0 <= j < before.market_values().len() && #[trigger] before.market_values()[j].id
                        == id;
                assert(b[j] == id);
            }
        }
        if b.contains(id) || id == m.id {
            if b.contains(id) {
                let j = choose|j: int| 0 <= j < b.len() && b[j] == id;
                assert(before.market_values()[j].id == id);
            }
            assert(after@.markets.contains_key(id));
            let i = choose|i: int|
                0 <= i < after.market_values().len() && #[trigger] after.market_values()[i].id == id;
            assert(a[i] == id);
        }
    }
    assert(a.to_set() =~= b.to_set().insert(m.id));
    assert forall|i: int, j: int| 0 <= i < a.len() && 0 <= j < a.len() && i != j implies a[i]
        != a[j] by {
        assert(a[i] == after.market_values()[i].id);
        assert(a[j] == after.market_values()[j].id);
    }
}

/// A stored market with a slug is found by that slug.
pub proof fn lemma_upsert_found_by_slug(st: IndexStoreView, m: MarketView)
    requires
        merge_market(st.get_market(m.id), m).slug.len() > 0,
    ensures
        st.upsert_market(m).get_event_by_slug(merge_market(st.get_market(m.id), m).slug) == Some(
            merge_market(st.get_market(m.id), m),
        ),
        forall|other: Seq<char>|
            other != merge_market(st.get_market(m.id), m).slug && #[trigger] st.upsert_market(
                m,
            ).slug_to_market_id.contains_key(other) ==> st.upsert_market(m).slug_to_market_id[other]
                != m.id,
{
}

/// A market created for a question registered with a slug takes the
/// registered question, slug and icon, and is found by that slug.
pub proof fn lemma_registered_question_names_market<S: Fn(&str) -> String>(
    st: IndexStoreView,
    entry: QuestionEntryView,
    c: MarketCreated,
    slug_from_question: S,
)
    requires
        entry.slug.len() > 0,
        !st.markets.contains_key(uuid_v5_oid(encode_utf8(c.market_address@))),
    ensures
        ({
            let registered = st.register_question(hash_key(c.question_hash@), entry);
            let next = registered.upsert_market(created_market(registered, c, slug_from_question));
            let id = uuid_v5_oid(encode_utf8(c.market_address@));
            &&& next.get_market(id) matches Some(mk) && mk.question == entry.question && mk.slug
                == entry.slug && mk.icon_url == entry.icon_url && mk.market_address == c.market_address@
            &&& next.get_event_by_slug(entry.slug) == next.get_market(id)
        }),
{
}

/// After a market is stored, its "no" spot market leads to it with outcome
/// "no", and its "yes" spot market (when distinct) with outcome "yes".
pub proof fn lemma_upsert_spot_markets(st: IndexStoreView, m: MarketView)
    ensures
        st.upsert_market(m).spot_to_market[m.no_spot_market] == (SpotRefView {
            market_id: m.id,
            outcome: no_text(),
        }),
        st.upsert_market(m).spot_to_market.contains_key(m.no_spot_market),
        m.yes_spot_market != m.no_spot_market ==> st.upsert_market(m).spot_to_market[m.yes_spot_market]
            == (SpotRefView { market_id: m.id, outcome: yes_text() }),
        st.upsert_market(m).spot_to_market.contains_key(m.yes_spot_market),
{
}

/// No two slugs name the same market.
pub open spec fn slugs_name_distinct_markets(st: IndexStoreView) -> bool {
    forall|s1: Seq<char>, s2: Seq<char>|
        #![trigger st.slug_to_market_id[s1], st.slug_to_market_id[s2]]
        st.slug_to_market_id.contains_key(s1) && st.slug_to_market_id.contains_key(s2) && s1 != s2
            ==> st.slug_to_market_id[s1] != st.slug_to_market_id[s2]
}

/// Storing a market keeps every market named by at most one slug.
pub proof fn lemma_upsert_keeps_slugs_distinct(st: IndexStoreView, m: MarketView)
    requires
        slugs_name_distinct_markets(st),
    ensures
        slugs_name_distinct_markets(st.upsert_market(m)),
{
    let merged = merge_market(st.get_market(m.id), m);
    let next = st.upsert_market(m);
    if merged.slug.len() > 0 {
        let removed = remove_value(st.slug_to_market_id, merged.id);
        assert forall|s1: Seq<char>, s2: Seq<char>|
            next.slug_to_market_id.contains_key(s1) && next.slug_to_market_id.contains_key(s2) && s1
                != s2 implies #[trigger] next.slug_to_market_id[s1]
            != #[trigger] next.slug_to_market_id[s2] by {
            if s1 == merged.slug {
                assert(removed.contains_key(s2));
            } else if s2 == merged.slug {
                assert(removed.contains_key(s1));
            } else {
                assert(removed.contains_key(s1) && removed.contains_key(s2));
                assert(st.slug_to_market_id[s1] == next.slug_to_market_id[s1]);
                assert(st.slug_to_market_id[s2] == next.slug_to_market_id[s2]);
            }
        }
    }
}

/// The empty index names no market by a slug.
pub proof fn lemma_empty_slugs_distinct()
    ensures
        slugs_name_distinct_markets(IndexStoreView::empty()),
{
}

/// Resolving a market by its address changes the state of exactly the markets
/// at that address and nothing else.
pub proof fn lemma_update_market_state(st: IndexStoreView, addr: Seq<char>, state: Seq<char>, id: u128)
    requires
        st.markets.contains_key(id),
    ensures
        st.update_market_state(addr, state).markets.contains_key(id),
        st.markets[id].market_address == addr ==> st.update_market_state(addr, state).markets[id]
            == (MarketView { state: state, ..st.markets[id] }),
        st.markets[id].market_address != addr ==> st.update_market_state(addr, state).markets[id]
            == st.markets[id],
        st.update_market_state(addr, state).markets.dom() == st.markets.dom(),
        st.update_market_state(addr, state).orders == st.orders,
{
    assert(st.update_market_state(addr, state).markets.dom() =~= st.markets.dom());
}

/// ASCII case-insensitive equality holds of every text with itself.
pub proof fn lemma_eq_ignore_ascii_case_reflexive(a: Seq<char>)
    ensures
        eq_ignore_ascii_case_spec(a, a),
{
}

/// ASCII case-insensitive equality is symmetric.
pub proof fn lemma_eq_ignore_ascii_case_symmetric(a: Seq<char>, b: Seq<char>)
    ensures
        eq_ignore_ascii_case_spec(a, b) == eq_ignore_ascii_case_spec(b, a),
{
}

/// An open order just filed is ready to be cancelled by its owner, on the spot
/// market of its outcome.
pub proof fn lemma_inserted_order_cancel_context(
    st: IndexStoreView,
    o: OrderView,
    user: Seq<char>,
    chain_order_id: Seq<char>,
    size_raw: u64,
)
    requires
        o.status == open_text(),
        st.markets.contains_key(o.market_id),
    ensures
        st.insert_order(o, user, chain_order_id, size_raw).order_cancel_context(o.id, user) == Some(
            (o, chain_order_id, spot_for_outcome(st.markets[o.market_id], o.outcome)),
        ),
{
    lemma_eq_ignore_ascii_case_reflexive(user);
}

/// Keeping some of a list of orders with distinct ids keeps the ids distinct.
proof fn lemma_filter_keeps_ids_distinct(vals: Seq<StoredOrderView>, pred: spec_fn(StoredOrderView) -> bool)
    requires
        forall|i: int, j: int|
            0 <= i < vals.len() && 0 <= j < vals.len() && i != j ==> vals[i].order.id
                != vals[j].order.id,
    ensures
        forall|i: int, j: int|
            0 <= i < vals.filter(pred).len() && 0 <= j < vals.filter(pred).len() && i != j
                ==> vals.filter(pred)[i].order.id != vals.filter(pred)[j].order.id,
    decreases vals.len(),
{
    reveal(Seq::filter);
    if vals.len() > 0 {
        let init = vals.drop_last();
        lemma_filter_keeps_ids_distinct(init, pred);
        let sub = init.filter(pred);
        if pred(vals.last()) {
            assert forall|i: int| 0 <= i < sub.len() implies sub[i].order.id
                != vals.last().order.id by {
                assert(sub.contains(sub[i]));
                init.lemma_filter_contains_rev(pred, sub[i]);
                let k = choose|k: int| 0 <= k < init.len() && init[k] == sub[i];
                assert(vals[k] == init[k]);
            }
            assert(vals.filter(pred) == sub.push(vals.last()));
        }
    }
}

/// A user's order list holds exactly the stored orders whose owner matches
/// the user ignoring ASCII case, one entry per order id.
pub proof fn lemma_order_list_is_owned_orders(s: &IndexStore, user: Seq<char>)
    requires
        s.wf(),
    ensures
        ({
            let listed = s.order_values().filter(|st: StoredOrderView| owned_by(st, user));
            &&& forall|id: u128|
                s@.orders.contains_key(id) && owned_by(s@.orders[id], user) ==> #[trigger] listed.contains(
                    s@.orders[id],
                )
            &&& forall|i: int|
                0 <= i < listed.len() ==> owned_by(#[trigger] listed[i], user)
                    && s@.orders.contains_key(listed[i].order.id) && s@.orders[listed[i].order.id]
                    == listed[i]
            &&& forall|i: int, j: int|
                0 <= i < listed.len() && 0 <= j < listed.len() && i != j ==> #[trigger] listed[i].order.id
                    != #[trigger] listed[j].order.id
        }),
{
    let pred = |st: StoredOrderView| owned_by(st, user);
    let vals = s.order_values();
    let listed = vals.filter(pred);
    broadcast use vstd::seq_lib::group_filter_ensures;

    s.lemma_order_values();
    lemma_filter_keeps_ids_distinct(vals, pred);
    assert forall|id: u128|
        s@.orders.contains_key(id) && owned_by(s@.orders[id], user) implies #[trigger] listed.contains(
        s@.orders[id],
    ) by {
        let i = choose|i: int| 0 <= i < vals.len() && #[trigger] vals[i].order.id == id;
        assert(vals[i] == s@.orders[id]);
        assert(pred(vals[i]));
        vals.lemma_filter_contains(pred, i);
    }
    assert forall|i: int| 0 <= i < listed.len() implies owned_by(#[trigger] listed[i], user)
        && s@.orders.contains_key(listed[i].order.id) && s@.orders[listed[i].order.id]
        == listed[i] by {
        vals.lemma_filter_pred(pred, i);
        assert(listed.contains(listed[i]));
        vals.lemma_filter_contains_rev(pred, listed[i]);
        let j = choose|j: int| 0 <= j < vals.len() && vals[j] == listed[i];
        assert(vals[j].order.id == listed[i].order.id);
    }
}

/// An order filed for a user is listed for every address that matches the
/// user ignoring ASCII case.
pub proof fn lemma_inserted_order_is_listed(
    st: IndexStoreView,
    s: &IndexStore,
    o: OrderView,
    user: Seq<char>,
    chain_order_id: Seq<char>,
    size_raw: u64,
    reader: Seq<char>,
)
    requires
        s.wf(),
        s@ == st.insert_order(o, user, chain_order_id, size_raw),
        eq_ignore_ascii_case_spec(user, reader),
    ensures
        s.order_values().filter(|x: StoredOrderView| owned_by(x, reader)).map_values(
            |x: StoredOrderView| x.order,
        ).contains(o),
{
    lemma_order_list_is_owned_orders(s, reader);
    let listed = s.order_values().filter(|x: StoredOrderView| owned_by(x, reader));
    let stored = s@.orders[o.id];
    assert(s@.orders.contains_key(o.id));
    assert(owned_by(stored, reader));
    assert(listed.contains(stored));
    let i = choose|i: int| 0 <= i < listed.len() && listed[i] == stored;
    let g = |x: StoredOrderView| x.order;
    assert(listed.map_values(g)[i] == o);
}

/// Cancelling an order through its chain id closes it: no cancel context is
/// given for it afterwards.
pub proof fn lemma_cancelled_order_has_no_context(
    st: IndexStoreView,
    chain_order_id: Seq<char>,
    user: Seq<char>,
)
    requires
        st.order_for_chain_id(chain_order_id) is Some,
    ensures
        st.update_order_cancelled(chain_order_id).order_cancel_context(
            st.order_for_chain_id(chain_order_id)->0,
            user,
        ) is None,
        st.update_order_cancelled(chain_order_id).orders[st.order_for_chain_id(
            chain_order_id,
        )->0].order.status == cancelled_text(),
{
    reveal_strlit("open");
    assert(cancelled_text() != open_text()) by {
        assert(cancelled_text().len() != open_text().len());
    }
}

/// A fill that completes an order closes it; any other fill leaves it open.
/// The filled amount grows by the fill, capped at `u64::MAX`.
pub proof fn lemma_fill_status(
    st: IndexStoreView,
    chain_order_id: Seq<char>,
    fill_amount: u64,
    remaining_amount: u64,
    is_fully_filled: bool,
)
    requires
        st.order_for_chain_id(chain_order_id) is Some,
    ensures
        ({
            let id = st.order_for_chain_id(chain_order_id)->0;
            let next = st.update_order_fill(
                chain_order_id,
                fill_amount,
                remaining_amount,
                is_fully_filled,
            );
            &&& next.orders[id].order.status == if is_fully_filled || remaining_amount == 0 {
                filled_text()
            } else {
                open_text()
            }
            &&& next.orders[id].filled_raw == saturating_add_spec(st.orders[id].filled_raw, fill_amount)
            &&& next.orders[id].filled_raw >= st.orders[id].filled_raw
            &&& next.orders[id].size_raw == st.orders[id].size_raw
            &&& next.orders[id].user_address == st.orders[id].user_address
        }),
{
}

/// A registered question, slug and icon are read back under the same key;
/// an empty slug reads back as none.
pub proof fn lemma_register_question_reads_back(
    st: IndexStoreView,
    key: Seq<char>,
    entry: QuestionEntryView,
)
    ensures
        st.register_question(key, entry).question_for_key(key) == Some(entry.question),
        st.register_question(key, entry).slug_for_key(key) == if entry.slug.len() > 0 {
            Some(entry.slug)
        } else {
            None
        },
        st.register_question(key, entry).icon_url_for_key(key) == entry.icon_url,
{
}

/// Processing the placement of an order that was filed the first time is a
/// no-op the second time: the index is unchanged and nothing is announced.
pub proof fn lemma_placement_idempotent<P: Fn(u64) -> String, A: Fn(u64) -> String>(
    st: IndexStoreView,
    block_num: u64,
    again_block_num: u64,
    c: OrderCreated,
    format_price: P,
    format_amount: A,
)
    requires
        st.lookup_spot_market(c.market@) is Some,
    ensures
        ({
            let first = order_created_step(st, block_num, c, format_price, format_amount).0;
            order_created_step(first, again_block_num, c, format_price, format_amount) == (
                first,
                Seq::<crate::indexer::events::EffectView>::empty(),
            )
        }),
{
    let first = order_created_step(st, block_num, c, format_price, format_amount).0;
    if !st.has_chain_order(c.order_id@) {
        assert(first.has_chain_order(c.order_id@));
    }
}

/// A placement on a spot market that no known market trades files nothing.
pub proof fn lemma_placement_on_unknown_spot_market<P: Fn(u64) -> String, A: Fn(u64) -> String>(
    st: IndexStoreView,
    block_num: u64,
    c: OrderCreated,
    format_price: P,
    format_amount: A,
)
    requires
        st.lookup_spot_market(c.market@) is None,
    ensures
        order_created_step(st, block_num, c, format_price, format_amount).0 == st,
{
}

/// A failed transaction leaves the index as it was and asks nothing.
pub proof fn lemma_failed_transaction_ignored<
    P: Fn(u64) -> String,
    A: Fn(u64) -> String,
    S: Fn(&str) -> String,
>(
    st: IndexStoreView,
    block_num: u64,
    txs: Seq<TxResult>,
    failed: TxResult,
    format_price: P,
    format_amount: A,
    slug_from_question: S,
)
    requires
        !failed.success,
    ensures
        block_step(st, block_num, txs.push(failed), format_price, format_amount, slug_from_question)
            == block_step(st, block_num, txs, format_price, format_amount, slug_from_question),
{
    assert(txs.push(failed).drop_last() =~= txs);
}

/// The question packed into a hash depends only on the bytes before its first
/// zero byte.
pub proof fn lemma_question_ignores_bytes_after_zero(h1: Seq<u8>, h2: Seq<u8>)
    requires
        first_zero(h1) == first_zero(h2),
        h1.take(first_zero(h1)) == h2.take(first_zero(h2)),
    ensures
        question_from_hash_spec(h1) == question_from_hash_spec(h2),
{
}

proof fn lemma_encode_cons(c: char, s: Seq<char>)
    ensures
        encode_utf8(seq![c] + s) == encode_scalar(c as u32) + encode_utf8(s),
{
    let t = seq![c] + s;
    assert(t[0] == c);
    assert(t.drop_first() =~= s);
}

/// A contract key is its own contract key: the key of a spot market finds
/// the entries filed under that key directly.
pub proof fn lemma_contract_key_idempotent(v: Seq<char>)
    requires
        market_ref_cut_ok(v),
        contract_key_spec(v) is Some,
    ensures
        contract_key_spec(contract_key_spec(v)->0) == contract_key_spec(v),
{
    let body = market_ref_body(v);
    let head = body.subrange(0, 16);
    let d = decode_utf8(head);
    let k = contract_key_spec(v)->0;
    lemma_market_ref_body(v);
    valid_utf8_split(body, 16);
    decode_utf8_encode_utf8(head);
    assert(k == seq!['0', 'x'] + d);
    assert(k =~= seq!['0'] + (seq!['x'] + d));
    lemma_encode_cons('0', seq!['x'] + d);
    lemma_encode_cons('x', d);
    assert(48u32 & 0x7Fu32 == 48u32) by (bit_vector);
    assert(120u32 & 0x7Fu32 == 120u32) by (bit_vector);
    assert(encode_scalar('0' as u32) == seq![48u8]);
    assert(encode_scalar('x' as u32) == seq![120u8]);
    let b = encode_utf8(k);
    assert(b =~= seq![48u8, 120u8] + head);
    assert(market_ref_body(k) =~= head);
    assert(head.subrange(0, 16) =~= head);
}

/// A fill of a stored order records the trade price, sends the book fill,
/// then announces the trade and the order to its owner; the announced order
/// is the order as the index holds it after the fill, "filled" when the fill
/// completes it and "open" otherwise.
pub proof fn lemma_fill_event_announces_updated_order<
    P: Fn(u64) -> String,
    A: Fn(u64) -> String,
    S: Fn(&str) -> String,
>(
    st: IndexStoreView,
    block_num: u64,
    e: TxEvent,
    c: OrderFilled,
    format_price: P,
    format_amount: A,
    slug_from_question: S,
)
    requires
        e.event_type matches EventType::Call(name) && name@ == "order_filled"@,
        e.payload == Some(EventPayload::OrderFilled(c)),
        st.order_for_chain_id(c.order_id@) is Some,
    ensures
        ({
            let r = event_step(st, block_num, e, format_price, format_amount, slug_from_question);
            let next = r.0;
            let id = st.order_for_chain_id(c.order_id@)->0;
            &&& next.last_trade_price_by_spot.contains_key(c.market_key@)
            &&& next.last_trade_price_by_spot[c.market_key@] == c.price
            &&& next.orders.contains_key(id)
            &&& next.orders[id].order.status == if c.is_fully_filled || c.remaining_amount == 0 {
                seq!['f', 'i', 'l', 'l', 'e', 'd']
            } else {
                seq!['o', 'p', 'e', 'n']
            }
            &&& next.orders[id].order.id == st.orders[id].order.id
            &&& next.orders[id].user_address == st.orders[id].user_address
            &&& r.1.len() == 3
            &&& r.1[0] == EffectView::Book(
                BookUpdateView::Filled {
                    spot_market: c.market_key@,
                    side: c.side,
                    price: c.price,
                    amount: c.fill_amount,
                    block_num: block_num,
                    last_trade_price: c.price,
                },
            )
            &&& r.1[1] matches EffectView::Trade(t) && t.chain_order_id == c.order_id@
                && t.user_address == st.orders[id].user_address && t.is_fully_filled
                == c.is_fully_filled && t.spot_market == c.market_key@ && t.order_id
                == next.orders[id].order.id && t.market_slug == st.orders[id].order.event_slug
                && t.outcome == st.orders[id].order.outcome && t.side == match c.side {
                OrderSide::Buy => "buy"@,
                OrderSide::Sell => "sell"@,
            } && t.price == text_u64(format_price, c.price) && t.fill_amount == text_u64(
                format_amount,
                c.fill_amount,
            ) && t.remaining_amount == text_u64(format_amount, c.remaining_amount) && t.block_num
                == block_num
            &&& next.orders[id].filled_raw == if st.orders[id].filled_raw + c.fill_amount
                <= u64::MAX {
                (st.orders[id].filled_raw + c.fill_amount) as u64
            } else {
                u64::MAX
            }
            &&& next.orders[id].size_raw == st.orders[id].size_raw
            &&& next.orders[id].order.price == st.orders[id].order.price
            &&& next.orders[id].order.size == st.orders[id].order.size
            &&& next.orders[id].order.side == st.orders[id].order.side
            &&& r.1[2] matches EffectView::Order(n) && n.kind == OrderNoticeKind::Update
                && n.order == next.orders[id].order && n.chain_order_id == c.order_id@
                && n.user_address == st.orders[id].user_address && n.block_num == block_num
        }),
{
}

/// A cancel context is given only for an open order of the asking user
/// (ASCII case aside), and it names that stored order and its chain id.
pub proof fn lemma_cancel_context_only_for_open_orders(st: IndexStoreView, id: u128, user: Seq<char>)
    ensures
        st.order_cancel_context(id, user) matches Some((order, chain_order_id, spot)) ==> {
            &&& st.orders.contains_key(id)
            &&& st.markets.contains_key(order.market_id)
            &&& spot == if order.outcome == seq!['y', 'e', 's'] {
                st.markets[order.market_id].yes_spot_market
            } else {
                st.markets[order.market_id].no_spot_market
            }
            &&& st.orders[id].order.status == seq!['o', 'p', 'e', 'n']
            &&& eq_ignore_ascii_case_spec(st.orders[id].user_address, user)
            &&& order == st.orders[id].order
            &&& chain_order_id == st.orders[id].chain_order_id
        },
{
}

/// A fill that completes an order leaves no cancel context for it, for any
/// user.
pub proof fn lemma_completed_order_has_no_cancel_context(
    st: IndexStoreView,
    chain_order_id: Seq<char>,
    fill_amount: u64,
    remaining_amount: u64,
    is_fully_filled: bool,
    user: Seq<char>,
)
    requires
        st.order_for_chain_id(chain_order_id) is Some,
        is_fully_filled || remaining_amount == 0,
    ensures
        st.update_order_fill(
            chain_order_id,
            fill_amount,
            remaining_amount,
            is_fully_filled,
        ).order_cancel_context(st.order_for_chain_id(chain_order_id)->0, user) is None,
{
    assert(filled_text() != open_text()) by {
        assert(filled_text()[0] != open_text()[0]);
    }
}

/// The market filed for a creation event is filed under the id of its
/// address and copies the event's address, tokens, spot markets, state and
/// deadline as they are.
pub proof fn lemma_created_market_copies_event<
    P: Fn(u64) -> String,
    A: Fn(u64) -> String,
    S: Fn(&str) -> String,
>(
    st: IndexStoreView,
    block_num: u64,
    e: TxEvent,
    c: MarketCreated,
    format_price: P,
    format_amount: A,
    slug_from_question: S,
)
    requires
        e.event_type matches EventType::Call(name) && name@ == "event_contract_created"@,
        e.payload == Some(EventPayload::MarketCreated(c)),
    ensures
        ({
            let next = event_step(st, block_num, e, format_price, format_amount, slug_from_question).0;
            let id = uuid_v5_oid(encode_utf8(c.market_address@));
            &&& next.markets.contains_key(id)
            &&& next.markets[id].id == id
            &&& next.markets[id].market_address == c.market_address@
            &&& next.markets[id].collateral_token == c.collateral_token@
            &&& next.markets[id].yes_token == c.yes_token@
            &&& next.markets[id].no_token == c.no_token@
            &&& next.markets[id].yes_spot_market == c.yes_spot_market@
            &&& next.markets[id].no_spot_market == c.no_spot_market@
            &&& next.markets[id].state == c.state@
            &&& next.markets[id].resolution_deadline == c.resolution_deadline
            &&& !st.question_by_hash.contains_key(hash_key(c.question_hash@)) ==> {
                &&& next.markets[id].question == question_from_hash_spec(c.question_hash@)
                &&& next.markets[id].slug == if text_str(
                    slug_from_question,
                    question_from_hash_spec(c.question_hash@),
                ).len() == 0 && st.markets.contains_key(id) {
                    st.markets[id].slug
                } else {
                    text_str(slug_from_question, question_from_hash_spec(c.question_hash@))
                }
                &&& next.markets[id].icon_url == if st.markets.contains_key(id) {
                    st.markets[id].icon_url
                } else {
                    None
                }
            }
        }),
{
}

/// A new placement on a known spot market files an open order, under the id
/// named by its market and chain order id, for the market and outcome of that
/// spot market, owned by its creator, with side "buy" for a buy and "sell"
/// for a sell.
pub proof fn lemma_placement_files_order_as_placed<
    P: Fn(u64) -> String,
    A: Fn(u64) -> String,
    S: Fn(&str) -> String,
>(
    st: IndexStoreView,
    block_num: u64,
    e: TxEvent,
    c: OrderCreated,
    format_price: P,
    format_amount: A,
    slug_from_question: S,
)
    requires
        e.event_type matches EventType::Call(name) && name@ == "order_created"@,
        e.payload == Some(EventPayload::OrderCreated(c)),
        !st.has_chain_order(c.order_id@),
        st.lookup_spot_market(c.market@) is Some,
    ensures
        ({
            let next = event_step(st, block_num, e, format_price, format_amount, slug_from_question).0;
            let spot = st.lookup_spot_market(c.market@)->0;
            let id = uuid_v5_oid(encode_utf8(order_uuid_name(spot.market_id, c.order_id@)));
            &&& next.orders.contains_key(id)
            &&& next.orders[id].order.id == id
            &&& next.orders[id].order.market_id == spot.market_id
            &&& next.orders[id].order.outcome == spot.outcome
            &&& next.orders[id].order.side == match c.side {
                OrderSide::Buy => "buy"@,
                OrderSide::Sell => "sell"@,
            }
            &&& next.orders[id].order.status == seq!['o', 'p', 'e', 'n']
            &&& next.orders[id].user_address == c.creator@
            &&& next.orders[id].chain_order_id == c.order_id@
            &&& next.orders[id].size_raw == c.amount
            &&& next.orders[id].filled_raw == 0
            &&& next.orders[id].order.price == text_u64(
                format_price,
                match c.order_type {
                    OrderKind::Limit { price } => price,
                    OrderKind::Market => 0,
                    OrderKind::Trigger { limit_price } => limit_price,
                },
            )
            &&& next.orders[id].order.size == text_u64(format_amount, c.amount)
            &&& next.order_for_chain_id(c.order_id@) == Some(id)
        }),
{
}

/// A new placement of a limit order sends the book that order at its price,
/// side and amount on the placement's spot market key; other kinds send the
/// book nothing. The placement is then announced to its owner with the order
/// as filed.
pub proof fn lemma_placement_effects<
    P: Fn(u64) -> String,
    A: Fn(u64) -> String,
    S: Fn(&str) -> String,
>(
    st: IndexStoreView,
    block_num: u64,
    e: TxEvent,
    c: OrderCreated,
    format_price: P,
    format_amount: A,
    slug_from_question: S,
)
    requires
        e.event_type matches EventType::Call(name) && name@ == "order_created"@,
        e.payload == Some(EventPayload::OrderCreated(c)),
        !st.has_chain_order(c.order_id@),
        st.lookup_spot_market(c.market@) is Some,
    ensures
        ({
            let r = event_step(st, block_num, e, format_price, format_amount, slug_from_question);
            let spot = st.lookup_spot_market(c.market@)->0;
            let id = uuid_v5_oid(encode_utf8(order_uuid_name(spot.market_id, c.order_id@)));
            &&& c.order_type matches OrderKind::Limit { price } ==> {
                &&& r.1.len() == 2
                &&& r.1[0] == EffectView::Book(
                    BookUpdateView::Created {
                        spot_market: c.market_key@,
                        side: c.side,
                        price: price,
                        amount: c.amount,
                        block_num: block_num,
                    },
                )
            }
            &&& !(c.order_type is Limit) ==> r.1.len() == 1
            &&& r.1.last() matches EffectView::Order(n) && n.kind == OrderNoticeKind::Placement
                && n.order == r.0.orders[id].order && n.user_address == c.creator@
                && n.chain_order_id == c.order_id@ && n.block_num == block_num
        }),
{
}

/// A resolution event marks "Resolved" exactly the markets at its address.
pub proof fn lemma_resolution_event_resolves_markets_at_address<
    P: Fn(u64) -> String,
    A: Fn(u64) -> String,
    S: Fn(&str) -> String,
>(
    st: IndexStoreView,
    block_num: u64,
    e: TxEvent,
    c: MarketResolved,
    format_price: P,
    format_amount: A,
    slug_from_question: S,
    id: u128,
)
    requires
        e.event_type matches EventType::Call(name) && name@ == "event_contract_resolved"@,
        e.payload == Some(EventPayload::MarketResolved(c)),
        st.markets.contains_key(id),
    ensures
        ({
            let r = event_step(st, block_num, e, format_price, format_amount, slug_from_question);
            &&& r.1.len() == 0
            &&& r.0.markets.contains_key(id)
            &&& r.0.markets[id].state == if st.markets[id].market_address == c.market_address@ {
                "Resolved"@
            } else {
                st.markets[id].state
            }
            &&& r.0.markets[id].market_address == st.markets[id].market_address
            &&& r.0.orders == st.orders
        }),
{
}

/// A cancellation of an order whose market is known sends the book a
/// cancellation on the spot market of the order's outcome, at the event's
/// side and price for the cancelled amount; the order is then held as
/// "cancelled" and announced so to its owner.
pub proof fn lemma_cancel_event_updates_book_at_event_price<
    P: Fn(u64) -> String,
    A: Fn(u64) -> String,
    S: Fn(&str) -> String,
>(
    st: IndexStoreView,
    block_num: u64,
    e: TxEvent,
    c: OrderCancelled,
    format_price: P,
    format_amount: A,
    slug_from_question: S,
)
    requires
        e.event_type matches EventType::Call(name) && name@ == "order_cancelled"@,
        e.payload == Some(EventPayload::OrderCancelled(c)),
        st.order_for_chain_id(c.order_id@) is Some,
        st.markets.contains_key(st.orders[st.order_for_chain_id(c.order_id@)->0].order.market_id),
    ensures
        ({
            let r = event_step(st, block_num, e, format_price, format_amount, slug_from_question);
            let id = st.order_for_chain_id(c.order_id@)->0;
            let o = st.orders[id].order;
            &&& r.1.len() == 2
            &&& r.1[0] == EffectView::Book(
                BookUpdateView::Cancelled {
                    spot_market: spot_for_outcome(st.markets[o.market_id], o.outcome),
                    side: c.side,
                    price: c.price,
                    amount: c.cancelled_amount,
                    block_num: block_num,
                },
            )
            &&& r.0.orders[id].order.status == seq!['c', 'a', 'n', 'c', 'e', 'l', 'l', 'e', 'd']
            &&& r.1[1] matches EffectView::Order(n) && n.kind == OrderNoticeKind::Cancellation
                && n.order == r.0.orders[id].order && n.chain_order_id == c.order_id@
        }),
{
}

/// Storing a market keeps every field it is given, except that a missing
/// slug or icon is taken from the market stored before under the same id.
pub proof fn lemma_upsert_keeps_given_fields(st: IndexStoreView, m: MarketView)
    ensures
        ({
            let stored = st.upsert_market(m).markets[m.id];
            &&& st.upsert_market(m).markets.contains_key(m.id)
            &&& stored.slug == if m.slug.len() == 0 && st.markets.contains_key(m.id) {
                st.markets[m.id].slug
            } else {
                m.slug
            }
            &&& stored.icon_url == if m.icon_url is None && st.markets.contains_key(m.id) {
                st.markets[m.id].icon_url
            } else {
                m.icon_url
            }
            &&& stored.id == m.id
            &&& stored.question == m.question
            &&& stored.market_address == m.market_address
            &&& stored.collateral_token == m.collateral_token
            &&& stored.yes_token == m.yes_token
            &&& stored.no_token == m.no_token
            &&& stored.yes_spot_market == m.yes_spot_market
            &&& stored.no_spot_market == m.no_spot_market
            &&& stored.state == m.state
            &&& stored.resolution_deadline == m.resolution_deadline
            &&& forall|other: u128|
                other != m.id && st.markets.contains_key(other) ==> #[trigger] st.upsert_market(
                    m,
                ).markets[other] == st.markets[other]
        }),
{
}

} // verus!
