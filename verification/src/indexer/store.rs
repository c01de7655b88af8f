use vstd::prelude::*;
use vstd::utf8::*;
use vstd::string::StringSliceAdditionalSpecFns;
use crate::assoc::{
    key_index, lemma_entries_map_values, lemma_seq_to_map_at, lemma_seq_to_map_key, AssocMap,
};
use crate::models::{clone_opt, opt_view, Market, MarketView, Order};
use crate::text::{
    eq_ignore_ascii_case, hex_encode, hex_lower, str_eq, str_trim,
    trim_spec, utf8_lossy, utf8_lossy_to_string,
};
use super::model::{
    cancelled_text, filled_text, merge_market, no_symbol, no_text, open_text, owned_by,
    set_state_if_address, yes_symbol, yes_text, IndexStoreView, QuestionEntryView, SpotRefView,
    StoredOrderView,
};

verus! {

/// Index of the first zero byte of `hash`, or its length when it has none.
pub open spec fn first_zero(hash: Seq<u8>) -> int
    decreases hash.len(),
{
    if hash.len() == 0 || hash[0] == 0 {
        0
    } else {
        1 + first_zero(hash.drop_first())
    }
}

proof fn lemma_first_zero(hash: Seq<u8>, i: int)
    requires
        0 <= i <= hash.len(),
        forall|j: int| 0 <= j < i ==> hash[j] != 0,
        i == hash.len() || hash[i] == 0,
    ensures
        first_zero(hash) == i,
    decreases i,
{
    if i > 0 {
        lemma_first_zero(hash.drop_first(), i - 1);
    }
}

/// The question text packed into a question hash: the bytes before the first
/// zero byte, decoded leniently and trimmed.
pub open spec fn question_from_hash_spec(hash: Seq<u8>) -> Seq<char> {
    trim_spec(utf8_lossy(hash.take(first_zero(hash))))
}

pub fn question_from_hash(hash: &[u8; 32]) -> (r: String)
    ensures
        r@ == question_from_hash_spec(hash@),
        valid_utf8(hash@.take(first_zero(hash@))) ==> r@ == trim_spec(
            decode_utf8(hash@.take(first_zero(hash@))),
        ),
{
    let mut prefix: Vec<u8> = Vec::new();
    let mut i: usize = 0;
    while i < 32 && hash[i] != 0
        invariant
            0 <= i <= 32,
            hash@.len() == 32,
            prefix@ == hash@.take(i as int),
            forall|j: int| 0 <= j < i ==> hash@[j] != 0,
        decreases 32 - i,
    {
        prefix.push(hash[i]);
        i = i + 1;
    }
    proof {
        lemma_first_zero(hash@, i as int);
    }
    let decoded = utf8_lossy_to_string(prefix.as_slice());
    str_trim(decoded.as_str()).to_owned()
}

/// The bytes of a market reference after an optional `0x`/`0X` prefix.
pub open spec fn market_ref_body(v: Seq<char>) -> Seq<u8> {
    let b = encode_utf8(v);
    if b.len() >= 2 && b[0] == 48u8 && (b[1] == 120u8 || b[1] == 88u8) {
        b.subrange(2, b.len() as int)
    } else {
        b
    }
}

/// Cutting the body of a market reference after 16 bytes falls on a
/// character boundary (or the body is too short to be cut).
pub open spec fn market_ref_cut_ok(v: Seq<char>) -> bool {
    let b = market_ref_body(v);
    b.len() < 16 || is_char_boundary(b, 16)
}

/// The contract key of a market reference: `0x` followed by the first 16
/// bytes of its body, when the body has at least 16 bytes.
pub open spec fn contract_key_spec(v: Seq<char>) -> Option<Seq<char>> {
    let b = market_ref_body(v);
    if b.len() < 16 {
        None
    } else {
        Some(seq!['0', 'x'] + decode_utf8(b.subrange(0, 16)))
    }
}

proof fn lemma_ascii_pair_boundary(bytes: Seq<u8>)
    requires
        valid_utf8(bytes),
        bytes.len() >= 2,
        bytes[0] < 128,
        bytes[1] < 128,
    ensures
        is_char_boundary(bytes, 2),
        valid_utf8(bytes.subrange(2, bytes.len() as int)),
{
    reveal_with_fuel(is_char_boundary, 3);
    reveal_with_fuel(valid_utf8, 3);
    let r1 = pop_first_scalar(bytes);
    assert(r1 =~= bytes.subrange(1, bytes.len() as int));
    let r2 = pop_first_scalar(r1);
    assert(r2 =~= bytes.subrange(2, bytes.len() as int));
}

pub proof fn lemma_market_ref_body(v: Seq<char>)
    ensures
        valid_utf8(market_ref_body(v)),
{
    let b = encode_utf8(v);
    encode_utf8_valid_utf8(v);
    if b.len() >= 2 && b[0] == 48u8 && (b[1] == 120u8 || b[1] == 88u8) {
        lemma_ascii_pair_boundary(b);
    }
}

/// Whether `contract_key_from_market_ref` can cut `value` without leaving a
/// character boundary.
pub fn market_ref_cut_is_ok(value: &str) -> (r: bool)
    ensures
        r == market_ref_cut_ok(value@),
{
    let bytes = value.as_bytes();
    let n = bytes.len();
    let skip: usize = if n >= 2 && bytes[0] == 48 && (bytes[1] == 120 || bytes[1] == 88) {
        2
    } else {
        0
    };
    proof {
        encode_utf8_valid_utf8(value@);
        if skip == 2 {
            lemma_ascii_pair_boundary(bytes@);
        } else {
            is_char_boundary_start_end_of_seq(bytes@);
        }
        lemma_market_ref_body(value@);
    }
    let (_, body) = value.split_at(skip);
    assert(body.spec_bytes() =~= market_ref_body(value@));
    if body.len() < 16 {
        true
    } else {
        body.is_char_boundary(16)
    }
}

/// The short contract key under which a market reference is also filed:
/// `0x` and the first 16 bytes after an optional `0x`/`0X` prefix.
pub fn contract_key_from_market_ref(value: &str) -> (r: Option<String>)
    requires
        market_ref_cut_ok(value@),
    ensures
        opt_view(r) == contract_key_spec(value@),
{
    broadcast use encode_utf8_decode_utf8;

    let bytes = value.as_bytes();
    let n = bytes.len();
    let skip: usize = if n >= 2 && bytes[0] == 48 && (bytes[1] == 120 || bytes[1] == 88) {
        2
    } else {
        0
    };
    proof {
        encode_utf8_valid_utf8(value@);
        if skip == 2 {
            lemma_ascii_pair_boundary(bytes@);
        } else {
            is_char_boundary_start_end_of_seq(bytes@);
        }
        lemma_market_ref_body(value@);
    }
    let (_, body) = value.split_at(skip);
    assert(body.spec_bytes() =~= market_ref_body(value@));
    if body.len() < 16 {
        return None;
    }
    let (head, _) = body.split_at(16);
    assert(head.spec_bytes() =~= market_ref_body(value@).subrange(0, 16));
    assert(head@ == decode_utf8(encode_utf8(head@)));
    let prefix = "0x";
    proof {
        reveal_strlit("0x");
    }
    let mut key = String::from_str(prefix);
    key.append(head);
    assert(key@ =~= seq!['0', 'x'] + decode_utf8(market_ref_body(value@).subrange(0, 16)));
    Some(key)
}

/// Inserting into a sequence adds one occurrence to its multiset.
pub proof fn lemma_insert_to_multiset<A>(s: Seq<A>, p: int, x: A)
    requires
        0 <= p <= s.len(),
    ensures
        s.insert(p, x).to_multiset() == s.to_multiset().insert(x),
{
    broadcast use vstd::seq_lib::group_to_multiset_ensures;

    let t = s.insert(p, x);
    assert(t.remove(p) =~= s);
    t.to_multiset_ensures();
    assert(t[p] == x);
    assert(t.to_multiset().count(x) > 0);
    assert(t.to_multiset() =~= s.to_multiset().insert(x));
}

/// What the indexer last saw of the chain.
#[derive(Debug, Default)]
pub struct IndexedBlockHead {
    pub block_num: u64,
    pub digest: String,
    pub tx_count: usize,
    pub connected: bool,
}

impl IndexedBlockHead {
    /// The head of an indexer that has not connected yet.
    pub fn initial() -> (h: IndexedBlockHead)
        ensures
            h.block_num == 0,
            h.digest@ == Seq::<char>::empty(),
            h.tx_count == 0,
            !h.connected,
    {
        IndexedBlockHead { block_num: 0, digest: String::new(), tx_count: 0, connected: false }
    }

    /// Records whether the block subscription is live.
    pub fn set_connected(&mut self, connected: bool)
        ensures
            final(self).connected == connected,
            final(self).block_num == old(self).block_num,
            final(self).digest@ == old(self).digest@,
            final(self).tx_count == old(self).tx_count,
    {
        self.connected = connected;
    }

    /// Records a processed block.
    pub fn record_block(&mut self, block_num: u64, digest: String, tx_count: usize)
        ensures
            final(self).block_num == block_num,
            final(self).digest@ == digest@,
            final(self).tx_count == tx_count,
            final(self).connected == old(self).connected,
    {
        self.block_num = block_num;
        self.digest = digest;
        self.tx_count = tx_count;
    }
}

pub fn yes_string() -> (r: String)
    ensures
        r@ == yes_text(),
{
    proof {
        reveal_strlit("yes");
    }
    let r = String::from_str("yes");
    assert(r@ =~= yes_text());
    r
}

pub fn no_string() -> (r: String)
    ensures
        r@ == no_text(),
{
    proof {
        reveal_strlit("no");
    }
    let r = String::from_str("no");
    assert(r@ =~= no_text());
    r
}

pub fn open_string() -> (r: String)
    ensures
        r@ == open_text(),
{
    proof {
        reveal_strlit("open");
    }
    let r = String::from_str("open");
    assert(r@ =~= open_text());
    r
}

pub fn cancelled_string() -> (r: String)
    ensures
        r@ == cancelled_text(),
{
    proof {
        reveal_strlit("cancelled");
    }
    let r = String::from_str("cancelled");
    assert(r@ =~= cancelled_text());
    r
}

pub fn filled_string() -> (r: String)
    ensures
        r@ == filled_text(),
{
    proof {
        reveal_strlit("filled");
    }
    let r = String::from_str("filled");
    assert(r@ =~= filled_text());
    r
}

/// Which market and outcome a spot market trades.
#[derive(Debug)]
pub struct SpotMarketRef {
    pub market_id: u128,
    pub outcome: String,
}

impl View for SpotMarketRef {
    type V = SpotRefView;

    open spec fn view(&self) -> SpotRefView {
        SpotRefView { market_id: self.market_id, outcome: self.outcome@ }
    }
}

/// An order with its owner, its id on chain and its raw amounts.
#[derive(Debug)]
pub struct StoredOrder {
    pub order: Order,
    pub user_address: String,
    pub chain_order_id: String,
    pub filled_raw: u64,
    pub size_raw: u64,
}

impl View for StoredOrder {
    type V = StoredOrderView;

    open spec fn view(&self) -> StoredOrderView {
        StoredOrderView {
            order: self.order@,
            user_address: self.user_address@,
            chain_order_id: self.chain_order_id@,
            filled_raw: self.filled_raw,
            size_raw: self.size_raw,
        }
    }
}

impl StoredOrder {
    pub fn duplicate(&self) -> (r: StoredOrder)
        ensures
            r@ == self@,
    {
        StoredOrder {
            order: self.order.clone(),
            user_address: self.user_address.clone(),
            chain_order_id: self.chain_order_id.clone(),
            filled_raw: self.filled_raw,
            size_raw: self.size_raw,
        }
    }
}

/// What was registered for a question hash.
#[derive(Debug)]
pub struct QuestionEntry {
    pub question: String,
    pub slug: String,
    pub icon_url: Option<String>,
}

impl View for QuestionEntry {
    type V = QuestionEntryView;

    open spec fn view(&self) -> QuestionEntryView {
        QuestionEntryView {
            question: self.question@,
            slug: self.slug@,
            icon_url: opt_view(self.icon_url),
        }
    }
}

/// `r` is a slug that `allocate` can give for a question with view
/// `question` when handed slugs with views `slug_keys`.
pub open spec fn allocated_by<F: Fn(&Vec<String>, &str) -> String>(
    allocate: F,
    slug_keys: Seq<Seq<char>>,
    question: Seq<char>,
    r: String,
) -> bool {
    exists|slugs: Vec<String>, q: &str|
        string_views(slugs@) == slug_keys && q@ == question && #[trigger] allocate.ensures(
            (&slugs, q),
            r,
        )
}

/// The views of a list of strings.
pub open spec fn string_views(v: Seq<String>) -> Seq<Seq<char>> {
    v.map_values(|s: String| s@)
}

/// The key under which a question hash is filed: its lowercase hex text.
pub open spec fn hash_key(hash: Seq<u8>) -> Seq<char> {
    hex_lower(hash)
}

/// The in-memory index of markets, orders, spot markets, trade prices and
/// registered questions.
pub struct IndexStore {
    markets: AssocMap<u128, Market>,
    slug_to_market_id: AssocMap<String, u128>,
    spot_to_market: AssocMap<String, SpotMarketRef>,
    last_trade_price_by_spot: AssocMap<String, u64>,
    orders: AssocMap<u128, StoredOrder>,
    chain_order_index: AssocMap<String, u128>,
    question_by_hash: AssocMap<String, QuestionEntry>,
}

impl View for IndexStore {
    type V = IndexStoreView;

    closed spec fn view(&self) -> IndexStoreView {
        IndexStoreView {
            markets: self.markets@,
            slug_to_market_id: self.slug_to_market_id@,
            spot_to_market: self.spot_to_market@,
            last_trade_price_by_spot: self.last_trade_price_by_spot@,
            orders: self.orders@,
            chain_order_index: self.chain_order_index@,
            question_by_hash: self.question_by_hash@,
        }
    }
}

impl IndexStore {
    /// Every map keeps each key once, and markets and orders are filed under
    /// their own ids.
    pub closed spec fn wf(&self) -> bool {
        &&& self.markets.wf()
        &&& self.slug_to_market_id.wf()
        &&& self.spot_to_market.wf()
        &&& self.last_trade_price_by_spot.wf()
        &&& self.orders.wf()
        &&& self.chain_order_index.wf()
        &&& self.question_by_hash.wf()
        &&& forall|i: int|
            0 <= i < self.markets.entries().len() ==> #[trigger] self.markets.entries()[i].0
                == self.markets.entries()[i].1.id
        &&& forall|i: int|
            0 <= i < self.orders.entries().len() ==> #[trigger] self.orders.entries()[i].0
                == self.orders.entries()[i].1.order.id
    }

    /// The stored markets in the order the store keeps them.
    pub closed spec fn market_values(&self) -> Seq<MarketView> {
        self.markets.entries().map_values(|e: (u128, MarketView)| e.1)
    }

    /// The stored orders in the order the store keeps them.
    pub closed spec fn order_values(&self) -> Seq<StoredOrderView> {
        self.orders.entries().map_values(|e: (u128, StoredOrderView)| e.1)
    }

    /// The slugs that name a market, in the order the store keeps them.
    pub closed spec fn slug_keys(&self) -> Seq<Seq<char>> {
        self.slug_to_market_id.entries().map_values(|e: (Seq<char>, u128)| e.0)
    }

    /// `market_values` lists each stored market once, as stored under its id.
    pub proof fn lemma_market_values(&self)
        requires
            self.wf(),
        ensures
            forall|i: int|
                0 <= i < self.market_values().len() ==> self@.markets.contains_key(
                    #[trigger] self.market_values()[i].id,
                ) && self@.markets[self.market_values()[i].id] == self.market_values()[i],
            forall|id: u128|
                #[trigger] self@.markets.contains_key(id) ==> exists|i: int|
                    0 <= i < self.market_values().len() && #[trigger] self.market_values()[i].id
                        == id,
            forall|i: int, j: int|
                0 <= i < self.market_values().len() && 0 <= j < self.market_values().len() && i
                    != j ==> self.market_values()[i].id != self.market_values()[j].id,
    {
        let e = self.markets.entries();
        assert forall|i: int|
            0 <= i < self.market_values().len() implies self@.markets.contains_key(
            #[trigger] self.market_values()[i].id,
        ) && self@.markets[self.market_values()[i].id] == self.market_values()[i] by {
            assert(e[i].0 == e[i].1.id);
            lemma_seq_to_map_at(e, i);
        }
        assert forall|id: u128| #[trigger] self@.markets.contains_key(id) implies exists|i: int|
            0 <= i < self.market_values().len() && #[trigger] self.market_values()[i].id == id by {
            lemma_seq_to_map_key(e, id);
            let i = key_index(e, id);
            assert(e[i].0 == e[i].1.id);
            assert(self.market_values()[i].id == id);
        }
        assert forall|i: int, j: int|
            0 <= i < self.market_values().len() && 0 <= j < self.market_values().len() && i
                != j implies self.market_values()[i].id != self.market_values()[j].id by {
            assert(e[i].0 == e[i].1.id);
            assert(e[j].0 == e[j].1.id);
        }
    }

    /// `order_values` lists each stored order once, as stored under its id.
    pub proof fn lemma_order_values(&self)
        requires
            self.wf(),
        ensures
            forall|i: int|
                0 <= i < self.order_values().len() ==> self@.orders.contains_key(
                    #[trigger] self.order_values()[i].order.id,
                ) && self@.orders[self.order_values()[i].order.id] == self.order_values()[i],
            forall|id: u128|
                #[trigger] self@.orders.contains_key(id) ==> exists|i: int|
                    0 <= i < self.order_values().len() && #[trigger] self.order_values()[i].order.id
                        == id,
            forall|i: int, j: int|
                0 <= i < self.order_values().len() && 0 <= j < self.order_values().len() && i
                    != j ==> self.order_values()[i].order.id != self.order_values()[j].order.id,
    {
        let e = self.orders.entries();
        assert forall|i: int|
            0 <= i < self.order_values().len() implies self@.orders.contains_key(
            #[trigger] self.order_values()[i].order.id,
        ) && self@.orders[self.order_values()[i].order.id] == self.order_values()[i] by {
            assert(e[i].0 == e[i].1.order.id);
            lemma_seq_to_map_at(e, i);
        }
        assert forall|id: u128| #[trigger] self@.orders.contains_key(id) implies exists|i: int|
            0 <= i < self.order_values().len() && #[trigger] self.order_values()[i].order.id
                == id by {
            lemma_seq_to_map_key(e, id);
            let i = key_index(e, id);
            assert(e[i].0 == e[i].1.order.id);
            assert(self.order_values()[i].order.id == id);
        }
        assert forall|i: int, j: int|
            0 <= i < self.order_values().len() && 0 <= j < self.order_values().len() && i
                != j implies self.order_values()[i].order.id != self.order_values()[j].order.id by {
            assert(e[i].0 == e[i].1.order.id);
            assert(e[j].0 == e[j].1.order.id);
        }
    }

    pub fn new() -> (s: IndexStore)
        ensures
            s.wf(),
            s@ == IndexStoreView::empty(),
    {
        let s = IndexStore {
            markets: AssocMap::new(),
            slug_to_market_id: AssocMap::new(),
            spot_to_market: AssocMap::new(),
            last_trade_price_by_spot: AssocMap::new(),
            orders: AssocMap::new(),
            chain_order_index: AssocMap::new(),
            question_by_hash: AssocMap::new(),
        };
        s
    }

    pub fn get_market(&self, id: u128) -> (r: Option<Market>)
        requires
            self.wf(),
        ensures
            match r {
                Some(m) => self@.get_market(id) == Some(m@),
                None => self@.get_market(id) is None,
            },
    {
        match self.markets.get(&id) {
            Some(m) => Some(m.clone()),
            None => None,
        }
    }

    pub fn get_event_by_slug(&self, slug: &str) -> (r: Option<Market>)
        requires
            self.wf(),
        ensures
            match r {
                Some(m) => self@.get_event_by_slug(slug@) == Some(m@),
                None => self@.get_event_by_slug(slug@) is None,
            },
    {
        let key = slug.to_owned();
        match self.slug_to_market_id.get(&key) {
            Some(id) => self.get_market(*id),
            None => None,
        }
    }

    pub fn upsert_market(&mut self, market: Market)
        requires
            old(self).wf(),
        ensures
            final(self).wf(),
            final(self)@ == old(self)@.upsert_market(market@),
    {
        let ghost old_view = self@;
        let ghost given = market@;
        let mut market = market;
        match self.markets.get(&market.id) {
            Some(existing) => {
                if market.icon_url.is_none() {
                    market.icon_url = clone_opt(&existing.icon_url);
                }
                if market.slug.as_str().is_empty() {
                    market.slug = existing.slug.clone();
                }
            },
            None => {},
        }
        assert(market@ == merge_market(old_view.get_market(given.id), given));
        if !market.slug.as_str().is_empty() {
            self.slug_to_market_id.remove_value(&market.id);
            self.slug_to_market_id.insert(market.slug.clone(), market.id);
        }
        self.spot_to_market.insert(
            market.yes_spot_market.clone(),
            SpotMarketRef { market_id: market.id, outcome: yes_string() },
        );
        self.spot_to_market.insert(
            market.no_spot_market.clone(),
            SpotMarketRef { market_id: market.id, outcome: no_string() },
        );
        let id = market.id;
        let ghost old_entries = self.markets.entries();
        self.markets.insert(id, market);
        assert forall|i: int|
            0 <= i < self.markets.entries().len() implies #[trigger] self.markets.entries()[i].0
            == self.markets.entries()[i].1.id by {
            if i < old_entries.len() {
                assert(old_entries[i].0 == old_entries[i].1.id);
            }
        }
        assert(self@ =~= old_view.upsert_market(given));
    }

    pub fn update_market_state(&mut self, market_address: &str, state: &str)
        requires
            old(self).wf(),
        ensures
            final(self).wf(),
            final(self)@ == old(self)@.update_market_state(market_address@, state@),
    {
        let ghost old_view = self@;
        let ghost old_entries = self.markets.entries();
        let ghost f = |m: MarketView| set_state_if_address(m, market_address@, state@);
        let n = self.markets.len();
        let mut i: usize = 0;
        while i < n
            invariant
                n == old_entries.len(),
                0 <= i <= n,
                self.markets.wf(),
                self.markets.entries().len() == n,
                self.slug_to_market_id == old(self).slug_to_market_id,
                self.spot_to_market == old(self).spot_to_market,
                self.last_trade_price_by_spot == old(self).last_trade_price_by_spot,
                self.orders == old(self).orders,
                self.chain_order_index == old(self).chain_order_index,
                self.question_by_hash == old(self).question_by_hash,
                f == (|m: MarketView| set_state_if_address(m, market_address@, state@)),
                forall|j: int|
                    0 <= j < n ==> #[trigger] self.markets.entries()[j] == (if j < i {
                        (old_entries[j].0, f(old_entries[j].1))
                    } else {
                        old_entries[j]
                    }),
            decreases n - i,
        {
            let addr_matches = str_eq(self.markets.value_at(i).market_address.as_str(), market_address);
            if addr_matches {
                let mut updated = self.markets.value_at(i).clone();
                updated.state = state.to_owned();
                self.markets.set_value(i, updated);
            }
            i = i + 1;
        }
        let ghost new_entries = self.markets.entries();
        proof {
            lemma_entries_map_values(old_entries, new_entries, f);
        }
        assert forall|j: int|
            0 <= j < new_entries.len() implies #[trigger] new_entries[j].0 == new_entries[j].1.id by {
            assert(new_entries[j] == (old_entries[j].0, f(old_entries[j].1)));
        }
        assert(self@ =~= old_view.update_market_state(market_address@, state@));
    }

    pub fn lookup_spot_market(&self, spot_market: &str) -> (r: Option<(u128, String)>)
        requires
            self.wf(),
            self@.spot_to_market.contains_key(spot_market@) || market_ref_cut_ok(spot_market@),
        ensures
            match r {
                Some((id, outcome)) => self@.lookup_spot_market(spot_market@) == Some(
                    SpotRefView { market_id: id, outcome: outcome@ },
                ),
                None => self@.lookup_spot_market(spot_market@) is None,
            },
    {
        let key = spot_market.to_owned();
        if let Some(spot) = self.spot_to_market.get(&key) {
            return Some((spot.market_id, spot.outcome.clone()));
        }
        if let Some(short_key) = contract_key_from_market_ref(spot_market) {
            if let Some(spot) = self.spot_to_market.get(&short_key) {
                return Some((spot.market_id, spot.outcome.clone()));
            }
        }
        None
    }

    pub fn record_last_trade_price(&mut self, spot_market: &str, price: u64)
        requires
            old(self).wf(),
            market_ref_cut_ok(spot_market@),
        ensures
            final(self).wf(),
            final(self)@ == old(self)@.record_last_trade_price(spot_market@, price),
    {
        let ghost old_view = self@;
        self.last_trade_price_by_spot.insert(spot_market.to_owned(), price);
        if let Some(short_key) = contract_key_from_market_ref(spot_market) {
            self.last_trade_price_by_spot.insert(short_key, price);
        }
        assert(self@ =~= old_view.record_last_trade_price(spot_market@, price));
    }

    pub fn last_trade_price(&self, spot_market: &str) -> (r: Option<u64>)
        requires
            self.wf(),
            self@.last_trade_price_by_spot.contains_key(spot_market@) || market_ref_cut_ok(
                spot_market@,
            ),
        ensures
            r == self@.last_trade_price(spot_market@),
    {
        let key = spot_market.to_owned();
        if let Some(price) = self.last_trade_price_by_spot.get(&key) {
            return Some(*price);
        }
        if let Some(short_key) = contract_key_from_market_ref(spot_market) {
            return match self.last_trade_price_by_spot.get(&short_key) {
                Some(price) => Some(*price),
                None => None,
            };
        }
        None
    }

    pub fn order_cancel_context(&self, order_id: u128, user_address: &str) -> (r: Option<
        (Order, String, String),
    >)
        requires
            self.wf(),
        ensures
            match r {
                Some((order, chain_order_id, spot_market)) => self@.order_cancel_context(
                    order_id,
                    user_address@,
                ) == Some((order@, chain_order_id@, spot_market@)),
                None => self@.order_cancel_context(order_id, user_address@) is None,
            },
    {
        let stored = match self.orders.get(&order_id) {
            Some(st) => st,
            None => return None,
        };
        if !eq_ignore_ascii_case(stored.user_address.as_str(), user_address) {
            return None;
        }
        let open = open_string();
        if !str_eq(stored.order.status.as_str(), open.as_str()) {
            return None;
        }
        let market = match self.markets.get(&stored.order.market_id) {
            Some(m) => m,
            None => return None,
        };
        let yes = yes_string();
        let spot_market = if str_eq(stored.order.outcome.as_str(), yes.as_str()) {
            market.yes_spot_market.clone()
        } else {
            market.no_spot_market.clone()
        };
        Some((stored.order.clone(), stored.chain_order_id.clone(), spot_market))
    }

    pub fn insert_order(
        &mut self,
        order: Order,
        user_address: String,
        chain_order_id: String,
        size_raw: u64,
    )
        requires
            old(self).wf(),
        ensures
            final(self).wf(),
            final(self)@ == old(self)@.insert_order(
                order@,
                user_address@,
                chain_order_id@,
                size_raw,
            ),
    {
        let ghost old_view = self@;
        let ghost ov = order@;
        let ghost uv = user_address@;
        let ghost cv = chain_order_id@;
        let id = order.id;
        let stored = StoredOrder {
            order: order,
            user_address: user_address,
            chain_order_id: chain_order_id.clone(),
            filled_raw: 0,
            size_raw: size_raw,
        };
        self.chain_order_index.insert(chain_order_id, id);
        let ghost old_entries = self.orders.entries();
        self.orders.insert(id, stored);
        assert forall|i: int|
            0 <= i < self.orders.entries().len() implies #[trigger] self.orders.entries()[i].0
            == self.orders.entries()[i].1.order.id by {
            if i < old_entries.len() {
                assert(old_entries[i].0 == old_entries[i].1.order.id);
            }
        }
        assert(self@ =~= old_view.insert_order(ov, uv, cv, size_raw));
    }

    /// The position among the stored orders of the order that
    /// `chain_order_id` names, if that order is stored.
    fn position_for_chain_id(&self, chain_order_id: &str) -> (r: Option<usize>)
        requires
            self.wf(),
        ensures
            match r {
                Some(pos) => pos < self.orders.entries().len() && self@.order_for_chain_id(
                    chain_order_id@,
                ) == Some(self.orders.entries()[pos as int].0) && self@.orders[self.orders.entries()[pos as int].0]
                    == self.orders.entries()[pos as int].1,
                None => self@.order_for_chain_id(chain_order_id@) is None,
            },
    {
        let key = chain_order_id.to_owned();
        let id = match self.chain_order_index.get(&key) {
            Some(id) => *id,
            None => return None,
        };
        match self.orders.index_of(&id) {
            Some(pos) => {
                proof {
                    lemma_seq_to_map_at(self.orders.entries(), pos as int);
                }
                Some(pos)
            },
            None => None,
        }
    }

    pub fn update_order_cancelled(&mut self, chain_order_id: &str)
        requires
            old(self).wf(),
        ensures
            final(self).wf(),
            final(self)@ == old(self)@.update_order_cancelled(chain_order_id@),
    {
        let ghost old_view = self@;
        let pos = match self.position_for_chain_id(chain_order_id) {
            Some(pos) => pos,
            None => return,
        };
        let mut stored = self.orders.value_at(pos).duplicate();
        stored.order.status = cancelled_string();
        let ghost old_entries = self.orders.entries();
        self.orders.set_value(pos, stored);
        assert forall|i: int|
            0 <= i < self.orders.entries().len() implies #[trigger] self.orders.entries()[i].0
            == self.orders.entries()[i].1.order.id by {
            assert(old_entries[i].0 == old_entries[i].1.order.id);
        }
        assert(self@ =~= old_view.update_order_cancelled(chain_order_id@));
    }

    pub fn update_order_fill(
        &mut self,
        chain_order_id: &str,
        fill_amount: u64,
        remaining_amount: u64,
        is_fully_filled: bool,
    )
        requires
            old(self).wf(),
        ensures
            final(self).wf(),
            final(self)@ == old(self)@.update_order_fill(
                chain_order_id@,
                fill_amount,
                remaining_amount,
                is_fully_filled,
            ),
    {
        let ghost old_view = self@;
        let pos = match self.position_for_chain_id(chain_order_id) {
            Some(pos) => pos,
            None => return,
        };
        let mut stored = self.orders.value_at(pos).duplicate();
        stored.filled_raw = stored.filled_raw.saturating_add(fill_amount);
        stored.order.status = if is_fully_filled || remaining_amount == 0 {
            filled_string()
        } else {
            open_string()
        };
        let ghost old_entries = self.orders.entries();
        self.orders.set_value(pos, stored);
        assert forall|i: int|
            0 <= i < self.orders.entries().len() implies #[trigger] self.orders.entries()[i].0
            == self.orders.entries()[i].1.order.id by {
            assert(old_entries[i].0 == old_entries[i].1.order.id);
        }
        assert(self@ =~= old_view.update_order_fill(
            chain_order_id@,
            fill_amount,
            remaining_amount,
            is_fully_filled,
        ));
    }

    /// The stored order that `chain_order_id` names, and its owner.
    pub fn stored_order_by_chain_id(&self, chain_order_id: &str) -> (r: Option<(Order, String)>)
        requires
            self.wf(),
        ensures
            match r {
                Some((order, user)) => self@.stored_order_by_chain_id(chain_order_id@) == Some(
                    (order@, user@),
                ),
                None => self@.stored_order_by_chain_id(chain_order_id@) is None,
            },
    {
        match self.position_for_chain_id(chain_order_id) {
            Some(pos) => {
                let stored = self.orders.value_at(pos);
                Some((stored.order.clone(), stored.user_address.clone()))
            },
            None => None,
        }
    }

    /// The spot market that the order named by `chain_order_id` trades.
    pub fn spot_market_for_chain_order(&self, chain_order_id: &str) -> (r: Option<String>)
        requires
            self.wf(),
        ensures
            opt_view(r) == self@.spot_market_for_chain_order(chain_order_id@),
    {
        let pos = match self.position_for_chain_id(chain_order_id) {
            Some(pos) => pos,
            None => return None,
        };
        let order = &self.orders.value_at(pos).order;
        let market = match self.markets.get(&order.market_id) {
            Some(m) => m,
            None => return None,
        };
        let yes = yes_string();
        if str_eq(order.outcome.as_str(), yes.as_str()) {
            Some(market.yes_spot_market.clone())
        } else {
            Some(market.no_spot_market.clone())
        }
    }

    /// Files the question text, slug and icon registered for a question
    /// hash under the hash's lowercase hex text.
    pub fn register_question(
        &mut self,
        hash: &[u8; 32],
        question: &str,
        slug: &str,
        icon_url: Option<String>,
    )
        requires
            old(self).wf(),
        ensures
            final(self).wf(),
            final(self)@ == old(self)@.register_question(
                hash_key(hash@),
                QuestionEntryView { question: question@, slug: slug@, icon_url: opt_view(icon_url) },
            ),
    {
        let key = hex_encode(hash.as_slice());
        self.question_by_hash.insert(
            key,
            QuestionEntry { question: question.to_owned(), slug: slug.to_owned(), icon_url: icon_url },
        );
    }

    pub fn question_for_hash(&self, hash: &[u8; 32]) -> (r: Option<String>)
        requires
            self.wf(),
        ensures
            opt_view(r) == self@.question_for_key(hash_key(hash@)),
    {
        let key = hex_encode(hash.as_slice());
        match self.question_by_hash.get(&key) {
            Some(entry) => Some(entry.question.clone()),
            None => None,
        }
    }

    pub fn slug_for_hash(&self, hash: &[u8; 32]) -> (r: Option<String>)
        requires
            self.wf(),
        ensures
            opt_view(r) == self@.slug_for_key(hash_key(hash@)),
    {
        let key = hex_encode(hash.as_slice());
        match self.question_by_hash.get(&key) {
            Some(entry) => if entry.slug.as_str().is_empty() {
                None
            } else {
                Some(entry.slug.clone())
            },
            None => None,
        }
    }

    pub fn icon_url_for_hash(&self, hash: &[u8; 32]) -> (r: Option<String>)
        requires
            self.wf(),
        ensures
            opt_view(r) == self@.icon_url_for_key(hash_key(hash@)),
    {
        let key = hex_encode(hash.as_slice());
        match self.question_by_hash.get(&key) {
            Some(entry) => clone_opt(&entry.icon_url),
            None => None,
        }
    }

    /// Every market, ordered by resolution deadline.
    pub fn list_markets(&self) -> (r: Vec<Market>)
        requires
            self.wf(),
        ensures
            forall|i: int, j: int|
                0 <= i <= j < r.len() ==> (#[trigger] r[i])@.resolution_deadline <= (
                #[trigger] r[j])@.resolution_deadline,
            r@.map_values(|m: Market| m@).to_multiset() == self.market_values().to_multiset(),
    {
        let ghost vals = self.market_values();
        let mut sorted: Vec<Market> = Vec::new();
        let n = self.markets.len();
        let mut i: usize = 0;
        assert(sorted@.map_values(|m: Market| m@) =~= vals.take(0));
        while i < n
            invariant
                n == vals.len(),
                vals == self.market_values(),
                0 <= i <= n,
                forall|a: int, b: int|
                    0 <= a <= b < sorted.len() ==> (#[trigger] sorted[a])@.resolution_deadline <= (
                    #[trigger] sorted[b])@.resolution_deadline,
                sorted@.map_values(|m: Market| m@).to_multiset() == vals.take(i as int).to_multiset(),
            decreases n - i,
        {
            let m = self.markets.value_at(i).clone();
            assert(m@ == vals[i as int]);
            let deadline = m.resolution_deadline;
            let mut p: usize = 0;
            while p < sorted.len() && sorted[p].resolution_deadline <= deadline
                invariant
                    0 <= p <= sorted.len(),
                    forall|a: int| 0 <= a < p ==> (#[trigger] sorted[a])@.resolution_deadline <= deadline,
                decreases sorted.len() - p,
            {
                p = p + 1;
            }
            let ghost before = sorted@;
            let ghost mv = m@;
            sorted.insert(p, m);
            assert forall|a: int, b: int|
                0 <= a <= b < sorted.len() implies (#[trigger] sorted[a])@.resolution_deadline <= (
                #[trigger] sorted[b])@.resolution_deadline by {
                if a < p && b < p {
                    assert(sorted[a] == before[a] && sorted[b] == before[b]);
                } else if a < p && b == p {
                    assert(sorted[a] == before[a]);
                } else if a < p {
                    assert(sorted[a] == before[a] && sorted[b] == before[b - 1]);
                } else if a == p && b > p {
                    assert(sorted[b] == before[b - 1]);
                    assert(before[p as int]@.resolution_deadline > deadline);
                } else if a > p {
                    assert(sorted[a] == before[a - 1] && sorted[b] == before[b - 1]);
                }
            }
            proof {
                let f = |m: Market| m@;
                assert(sorted@.map_values(f) =~= before.map_values(f).insert(p as int, mv));
                lemma_insert_to_multiset(before.map_values(f), p as int, mv);
                assert(vals.take(i as int + 1) =~= vals.take(i as int).push(mv));
                vals.take(i as int).to_multiset_ensures();
            }
            i = i + 1;
        }
        assert(vals.take(n as int) =~= vals);
        sorted
    }

    /// The orders of `user_address`, compared without ASCII case, in the
    /// order the store keeps them.
    pub fn list_orders_for_user(&self, user_address: &str) -> (r: Vec<Order>)
        requires
            self.wf(),
        ensures
            r@.map_values(|o: Order| o@) == self.order_values().filter(
                |st: StoredOrderView| owned_by(st, user_address@),
            ).map_values(|st: StoredOrderView| st.order),
    {
        let ghost vals = self.order_values();
        let ghost pred = |st: StoredOrderView| owned_by(st, user_address@);
        let ghost g = |st: StoredOrderView| st.order;
        let mut out: Vec<Order> = Vec::new();
        let n = self.orders.len();
        let mut i: usize = 0;
        while i < n
            invariant
                n == vals.len(),
                vals == self.order_values(),
                0 <= i <= n,
                pred == (|st: StoredOrderView| owned_by(st, user_address@)),
                g == (|st: StoredOrderView| st.order),
                out@.map_values(|o: Order| o@) == vals.take(i as int).filter(pred).map_values(g),
            decreases n - i,
        {
            let stored = self.orders.value_at(i);
            assert(stored@ == vals[i as int]);
            let ghost before = out@;
            let ghost t1 = vals.take(i as int + 1);
            assert(t1.drop_last() =~= vals.take(i as int));
            assert(t1.last() == vals[i as int]);
            proof {
                reveal_with_fuel(Seq::filter, 1);
            }
            let owned = eq_ignore_ascii_case(stored.user_address.as_str(), user_address);
            assert(owned == pred(vals[i as int]));
            if owned {
                out.push(stored.order.clone());
                assert(out@.map_values(|o: Order| o@) =~= before.map_values(|o: Order| o@).push(
                    vals[i as int].order,
                ));
                assert(t1.filter(pred) == vals.take(i as int).filter(pred).push(vals[i as int]));
                assert(t1.filter(pred).map_values(g) =~= vals.take(i as int).filter(pred).map_values(
                    g,
                ).push(vals[i as int].order));
            } else {
                assert(t1.filter(pred) == vals.take(i as int).filter(pred));
            }
            i = i + 1;
        }
        assert(vals.take(n as int) =~= vals);
        out
    }

    /// The position tokens of every market: its YES token, then its NO token,
    /// market by market in the order the store keeps them.
    pub fn position_token_specs(&self) -> (r: Vec<(String, String)>)
        requires
            self.wf(),
        ensures
            r.len() == 2 * self.market_values().len(),
            forall|i: int|
                0 <= i < self.market_values().len() ==> {
                    &&& r[2 * i].0@ == yes_symbol()
                    &&& r[2 * i].1@ == (#[trigger] self.market_values()[i]).yes_token
                    &&& r[2 * i + 1].0@ == no_symbol()
                    &&& r[2 * i + 1].1@ == self.market_values()[i].no_token
                },
    {
        let ghost vals = self.market_values();
        let mut specs: Vec<(String, String)> = Vec::new();
        let n = self.markets.len();
        let mut i: usize = 0;
        while i < n
            invariant
                n == vals.len(),
                vals == self.market_values(),
                0 <= i <= n,
                specs.len() == 2 * i,
                forall|k: int|
                    0 <= k < i ==> {
                        &&& specs[2 * k].0@ == yes_symbol()
                        &&& specs[2 * k].1@ == (#[trigger] vals[k]).yes_token
                        &&& specs[2 * k + 1].0@ == no_symbol()
                        &&& specs[2 * k + 1].1@ == vals[k].no_token
                    },
            decreases n - i,
        {
            let market = self.markets.value_at(i);
            proof {
                reveal_strlit("YES");
                reveal_strlit("NO");
            }
            let yes = String::from_str("YES");
            let no = String::from_str("NO");
            assert(yes@ =~= yes_symbol());
            assert(no@ =~= no_symbol());
            let ghost before = specs@;
            specs.push((yes, market.yes_token.clone()));
            specs.push((no, market.no_token.clone()));
            assert forall|k: int| 0 <= k < i + 1 implies {
                &&& specs[2 * k].0@ == yes_symbol()
                &&& specs[2 * k].1@ == (#[trigger] vals[k]).yes_token
                &&& specs[2 * k + 1].0@ == no_symbol()
                &&& specs[2 * k + 1].1@ == vals[k].no_token
            } by {
                if k < i {
                    assert(specs[2 * k] == before[2 * k]);
                    assert(specs[2 * k + 1] == before[2 * k + 1]);
                }
            }
            i = i + 1;
        }
        specs
    }

    /// The slugs that name a market, in the order the store keeps them.
    pub fn existing_slugs(&self) -> (r: Vec<String>)
        requires
            self.wf(),
        ensures
            string_views(r@) == self.slug_keys(),
    {
        let mut out: Vec<String> = Vec::new();
        let n = self.slug_to_market_id.len();
        let mut i: usize = 0;
        while i < n
            invariant
                n == self.slug_keys().len(),
                0 <= i <= n,
                string_views(out@) == self.slug_keys().take(i as int),
            decreases n - i,
        {
            let ghost before = out@;
            let k = self.slug_to_market_id.key_at(i).clone();
            assert(k@ == self.slug_keys()[i as int]);
            out.push(k);
            assert(string_views(out@) =~= before.map_values(|s: String| s@).push(
                self.slug_keys()[i as int],
            ));
            assert(self.slug_keys().take(i as int + 1) =~= self.slug_keys().take(i as int).push(
                self.slug_keys()[i as int],
            ));
            i = i + 1;
        }
        assert(self.slug_keys().take(n as int) =~= self.slug_keys());
        out
    }

    /// A slug for `question` chosen by `allocate_unique_slug`, which is
    /// handed the slugs that name a market and the question.
    pub fn allocate_slug<F: Fn(&Vec<String>, &str) -> String>(
        &self,
        question: &str,
        allocate_unique_slug: F,
    ) -> (r: String)
        requires
            self.wf(),
            forall|v: &Vec<String>, q: &str| #[trigger] allocate_unique_slug.requires((v, q)),
        ensures
            allocated_by(allocate_unique_slug, self.slug_keys(), question@, r),
    {
        let existing = self.existing_slugs();
        let slug = allocate_unique_slug(&existing, question);
        assert(string_views(existing@) == self.slug_keys() && question@ == question@
            && allocate_unique_slug.ensures((&existing, question), slug));
        slug
    }

    pub fn has_chain_order(&self, chain_order_id: &str) -> (b: bool)
        requires
            self.wf(),
        ensures
            b == self@.has_chain_order(chain_order_id@),
    {
        let key = chain_order_id.to_owned();
        self.chain_order_index.contains_key(&key)
    }

    /// Whether a spot market is filed under exactly this text.
    pub fn files_spot_market(&self, spot_market: &str) -> (b: bool)
        requires
            self.wf(),
        ensures
            b == self@.spot_to_market.contains_key(spot_market@),
    {
        let key = spot_market.to_owned();
        self.spot_to_market.contains_key(&key)
    }

    /// Whether a last trade price is filed under exactly this text.
    pub fn files_trade_price(&self, spot_market: &str) -> (b: bool)
        requires
            self.wf(),
        ensures
            b == self@.last_trade_price_by_spot.contains_key(spot_market@),
    {
        let key = spot_market.to_owned();
        self.last_trade_price_by_spot.contains_key(&key)
    }
}

} // verus!
