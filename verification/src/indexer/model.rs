//! The abstract state of the index and what each operation does to it.
//! The executable store in `store.rs` is proved against these functions.

use vstd::prelude::*;
use crate::assoc::remove_value;
use crate::models::{MarketView, OrderView};
use crate::text::eq_ignore_ascii_case_spec;
use super::store::contract_key_spec;

verus! {

pub open spec fn yes_text() -> Seq<char> {
    seq!['y', 'e', 's']
}

pub open spec fn no_text() -> Seq<char> {
    seq!['n', 'o']
}

pub open spec fn open_text() -> Seq<char> {
    seq!['o', 'p', 'e', 'n']
}

pub open spec fn cancelled_text() -> Seq<char> {
    seq!['c', 'a', 'n', 'c', 'e', 'l', 'l', 'e', 'd']
}

pub open spec fn filled_text() -> Seq<char> {
    seq!['f', 'i', 'l', 'l', 'e', 'd']
}

pub open spec fn yes_symbol() -> Seq<char> {
    seq!['Y', 'E', 'S']
}

pub open spec fn no_symbol() -> Seq<char> {
    seq!['N', 'O']
}

/// Whether a stored order belongs to `user`, compared without ASCII case.
pub open spec fn owned_by(st: StoredOrderView, user: Seq<char>) -> bool {
    eq_ignore_ascii_case_spec(st.user_address, user)
}

/// Which market and which outcome ("yes" or "no") a spot market trades.
pub struct SpotRefView {
    pub market_id: u128,
    pub outcome: Seq<char>,
}

/// An order as the index keeps it: the public order plus its owner, its id
/// on chain and its raw amounts.
pub struct StoredOrderView {
    pub order: OrderView,
    pub user_address: Seq<char>,
    pub chain_order_id: Seq<char>,
    pub filled_raw: u64,
    pub size_raw: u64,
}

/// What was registered for a question hash.
pub struct QuestionEntryView {
    pub question: Seq<char>,
    pub slug: Seq<char>,
    pub icon_url: Option<Seq<char>>,
}

/// The abstract state of the index.
pub struct IndexStoreView {
    pub markets: Map<u128, MarketView>,
    pub slug_to_market_id: Map<Seq<char>, u128>,
    pub spot_to_market: Map<Seq<char>, SpotRefView>,
    pub last_trade_price_by_spot: Map<Seq<char>, u64>,
    pub orders: Map<u128, StoredOrderView>,
    pub chain_order_index: Map<Seq<char>, u128>,
    pub question_by_hash: Map<Seq<char>, QuestionEntryView>,
}

/// `a + b`, capped at `u64::MAX`.
pub open spec fn saturating_add_spec(a: u64, b: u64) -> u64 {
    if a + b > u64::MAX {
        u64::MAX
    } else {
        (a + b) as u64
    }
}

/// A market about to be stored keeps the icon and slug of the stored market
/// of the same id where it brings none of its own.
pub open spec fn merge_market(existing: Option<MarketView>, m: MarketView) -> MarketView {
    match existing {
        Some(e) => MarketView {
            icon_url: if m.icon_url is None {
                e.icon_url
            } else {
                m.icon_url
            },
            slug: if m.slug.len() == 0 {
                e.slug
            } else {
                m.slug
            },
            ..m
        },
        None => m,
    }
}

/// `m` with its state set to `state` when its contract address is `addr`.
pub open spec fn set_state_if_address(m: MarketView, addr: Seq<char>, state: Seq<char>) -> MarketView {
    if m.market_address == addr {
        MarketView { state: state, ..m }
    } else {
        m
    }
}

/// The spot market of `m` that trades `outcome`: the "yes" one for `yes`,
/// the "no" one otherwise.
pub open spec fn spot_for_outcome(m: MarketView, outcome: Seq<char>) -> Seq<char> {
    if outcome == yes_text() {
        m.yes_spot_market
    } else {
        m.no_spot_market
    }
}

impl IndexStoreView {
    pub open spec fn empty() -> IndexStoreView {
        IndexStoreView {
            markets: Map::empty(),
            slug_to_market_id: Map::empty(),
            spot_to_market: Map::empty(),
            last_trade_price_by_spot: Map::empty(),
            orders: Map::empty(),
            chain_order_index: Map::empty(),
            question_by_hash: Map::empty(),
        }
    }

    pub open spec fn get_market(self, id: u128) -> Option<MarketView> {
        if self.markets.contains_key(id) {
            Some(self.markets[id])
        } else {
            None
        }
    }

    pub open spec fn get_event_by_slug(self, slug: Seq<char>) -> Option<MarketView> {
        if self.slug_to_market_id.contains_key(slug) {
            self.get_market(self.slug_to_market_id[slug])
        } else {
            None
        }
    }

    /// Stores a market: the merged market replaces any of the same id, its
    /// slug (when it has one) becomes the only slug that names it, and both of
    /// its spot markets point at it.
    pub open spec fn upsert_market(self, m: MarketView) -> IndexStoreView {
        let merged = merge_market(self.get_market(m.id), m);
        let slugs = if merged.slug.len() > 0 {
            remove_value(self.slug_to_market_id, merged.id).insert(merged.slug, merged.id)
        } else {
            self.slug_to_market_id
        };
        let spots = self.spot_to_market.insert(
            merged.yes_spot_market,
            SpotRefView { market_id: merged.id, outcome: yes_text() },
        ).insert(merged.no_spot_market, SpotRefView { market_id: merged.id, outcome: no_text() });
        IndexStoreView {
            markets: self.markets.insert(merged.id, merged),
            slug_to_market_id: slugs,
            spot_to_market: spots,
            ..self
        }
    }

    pub open spec fn update_market_state(self, addr: Seq<char>, state: Seq<char>) -> IndexStoreView {
        IndexStoreView {
            markets: self.markets.map_values(|m: MarketView| set_state_if_address(m, addr, state)),
            ..self
        }
    }

    pub open spec fn lookup_spot_market(self, spot: Seq<char>) -> Option<SpotRefView> {
        if self.spot_to_market.contains_key(spot) {
            Some(self.spot_to_market[spot])
        } else {
            match contract_key_spec(spot) {
                Some(k) => if self.spot_to_market.contains_key(k) {
                    Some(self.spot_to_market[k])
                } else {
                    None
                },
                None => None,
            }
        }
    }

    pub open spec fn record_last_trade_price(self, spot: Seq<char>, price: u64) -> IndexStoreView {
        let prices = self.last_trade_price_by_spot.insert(spot, price);
        IndexStoreView {
            last_trade_price_by_spot: match contract_key_spec(spot) {
                Some(k) => prices.insert(k, price),
                None => prices,
            },
            ..self
        }
    }

    pub open spec fn last_trade_price(self, spot: Seq<char>) -> Option<u64> {
        if self.last_trade_price_by_spot.contains_key(spot) {
            Some(self.last_trade_price_by_spot[spot])
        } else {
            match contract_key_spec(spot) {
                Some(k) => if self.last_trade_price_by_spot.contains_key(k) {
                    Some(self.last_trade_price_by_spot[k])
                } else {
                    None
                },
                None => None,
            }
        }
    }

    /// An open order of `user` (compared without ASCII case) on a known
    /// market: the order, its id on chain and the spot market it trades.
    pub open spec fn order_cancel_context(self, id: u128, user: Seq<char>) -> Option<
        (OrderView, Seq<char>, Seq<char>),
    > {
        if !self.orders.contains_key(id) {
            None
        } else {
            let st = self.orders[id];
            if !eq_ignore_ascii_case_spec(st.user_address, user) {
                None
            } else if st.order.status != open_text() {
                None
            } else if !self.markets.contains_key(st.order.market_id) {
                None
            } else {
                Some(
                    (
                        st.order,
                        st.chain_order_id,
                        spot_for_outcome(self.markets[st.order.market_id], st.order.outcome),
                    ),
                )
            }
        }
    }

    pub open spec fn insert_order(
        self,
        order: OrderView,
        user: Seq<char>,
        chain_order_id: Seq<char>,
        size_raw: u64,
    ) -> IndexStoreView {
        IndexStoreView {
            chain_order_index: self.chain_order_index.insert(chain_order_id, order.id),
            orders: self.orders.insert(
                order.id,
                StoredOrderView {
                    order: order,
                    user_address: user,
                    chain_order_id: chain_order_id,
                    filled_raw: 0,
                    size_raw: size_raw,
                },
            ),
            ..self
        }
    }

    /// The id of the stored order that `chain_order_id` names, if that order
    /// is stored.
    pub open spec fn order_for_chain_id(self, chain_order_id: Seq<char>) -> Option<u128> {
        if self.chain_order_index.contains_key(chain_order_id) && self.orders.contains_key(
            self.chain_order_index[chain_order_id],
        ) {
            Some(self.chain_order_index[chain_order_id])
        } else {
            None
        }
    }

    pub open spec fn update_order_cancelled(self, chain_order_id: Seq<char>) -> IndexStoreView {
        match self.order_for_chain_id(chain_order_id) {
            Some(id) => {
                let st = self.orders[id];
                IndexStoreView {
                    orders: self.orders.insert(
                        id,
                        StoredOrderView {
                            order: OrderView { status: cancelled_text(), ..st.order },
                            ..st
                        },
                    ),
                    ..self
                }
            },
            None => self,
        }
    }

    pub open spec fn update_order_fill(
        self,
        chain_order_id: Seq<char>,
        fill_amount: u64,
        remaining_amount: u64,
        is_fully_filled: bool,
    ) -> IndexStoreView {
        match self.order_for_chain_id(chain_order_id) {
            Some(id) => {
                let st = self.orders[id];
                let status = if is_fully_filled || remaining_amount == 0 {
                    filled_text()
                } else {
                    open_text()
                };
                IndexStoreView {
                    orders: self.orders.insert(
                        id,
                        StoredOrderView {
                            order: OrderView { status: status, ..st.order },
                            filled_raw: saturating_add_spec(st.filled_raw, fill_amount),
                            ..st
                        },
                    ),
                    ..self
                }
            },
            None => self,
        }
    }

    pub open spec fn has_chain_order(self, chain_order_id: Seq<char>) -> bool {
        self.chain_order_index.contains_key(chain_order_id)
    }

    /// The stored order that `chain_order_id` names and its owner.
    pub open spec fn stored_order_by_chain_id(self, chain_order_id: Seq<char>) -> Option<
        (OrderView, Seq<char>),
    > {
        match self.order_for_chain_id(chain_order_id) {
            Some(id) => Some((self.orders[id].order, self.orders[id].user_address)),
            None => None,
        }
    }

    /// The spot market that the order named by `chain_order_id` trades, when
    /// its market is known.
    pub open spec fn spot_market_for_chain_order(self, chain_order_id: Seq<char>) -> Option<
        Seq<char>,
    > {
        match self.order_for_chain_id(chain_order_id) {
            Some(id) => {
                let o = self.orders[id].order;
                if self.markets.contains_key(o.market_id) {
                    Some(spot_for_outcome(self.markets[o.market_id], o.outcome))
                } else {
                    None
                }
            },
            None => None,
        }
    }

    pub open spec fn register_question(self, key: Seq<char>, entry: QuestionEntryView) -> IndexStoreView {
        IndexStoreView { question_by_hash: self.question_by_hash.insert(key, entry), ..self }
    }

    pub open spec fn question_for_key(self, key: Seq<char>) -> Option<Seq<char>> {
        if self.question_by_hash.contains_key(key) {
            Some(self.question_by_hash[key].question)
        } else {
            None
        }
    }

    pub open spec fn slug_for_key(self, key: Seq<char>) -> Option<Seq<char>> {
        if self.question_by_hash.contains_key(key) && self.question_by_hash[key].slug.len() > 0 {
            Some(self.question_by_hash[key].slug)
        } else {
            None
        }
    }

    pub open spec fn icon_url_for_key(self, key: Seq<char>) -> Option<Seq<char>> {
        if self.question_by_hash.contains_key(key) {
            self.question_by_hash[key].icon_url
        } else {
            None
        }
    }
}

} // verus!
