//! The records that the index keeps and the API hands out, each with a
//! mathematical view.

use vstd::prelude::*;

verus! {

/// The view of an optional string.
pub open spec fn opt_view(o: Option<String>) -> Option<Seq<char>> {
    match o {
        Some(s) => Some(s@),
        None => None,
    }
}

/// Copies an optional string.
pub fn clone_opt(o: &Option<String>) -> (r: Option<String>)
    ensures
        opt_view(r) == opt_view(*o),
{
    match o {
        Some(s) => Some(s.clone()),
        None => None,
    }
}

/// A prediction market, identified by the UUID of its contract address.
#[derive(Debug)]
pub struct Market {
    pub id: u128,
    pub slug: String,
    pub question: String,
    pub icon_url: Option<String>,
    pub market_address: String,
    pub collateral_token: String,
    pub yes_token: String,
    pub no_token: String,
    pub yes_spot_market: String,
    pub no_spot_market: String,
    pub state: String,
    pub resolution_deadline: u64,
}

pub struct MarketView {
    pub id: u128,
    pub slug: Seq<char>,
    pub question: Seq<char>,
    pub icon_url: Option<Seq<char>>,
    pub market_address: Seq<char>,
    pub collateral_token: Seq<char>,
    pub yes_token: Seq<char>,
    pub no_token: Seq<char>,
    pub yes_spot_market: Seq<char>,
    pub no_spot_market: Seq<char>,
    pub state: Seq<char>,
    pub resolution_deadline: u64,
}

impl View for Market {
    type V = MarketView;

    open spec fn view(&self) -> MarketView {
        MarketView {
            id: self.id,
            slug: self.slug@,
            question: self.question@,
            icon_url: opt_view(self.icon_url),
            market_address: self.market_address@,
            collateral_token: self.collateral_token@,
            yes_token: self.yes_token@,
            no_token: self.no_token@,
            yes_spot_market: self.yes_spot_market@,
            no_spot_market: self.no_spot_market@,
            state: self.state@,
            resolution_deadline: self.resolution_deadline,
        }
    }
}

impl Clone for Market {
    fn clone(&self) -> (r: Self)
        ensures
            r@ == self@,
    {
        Market {
            id: self.id,
            slug: self.slug.clone(),
            question: self.question.clone(),
            icon_url: clone_opt(&self.icon_url),
            market_address: self.market_address.clone(),
            collateral_token: self.collateral_token.clone(),
            yes_token: self.yes_token.clone(),
            no_token: self.no_token.clone(),
            yes_spot_market: self.yes_spot_market.clone(),
            no_spot_market: self.no_spot_market.clone(),
            state: self.state.clone(),
            resolution_deadline: self.resolution_deadline,
        }
    }
}

/// An order placed on one outcome of a market, as the API shows it.
#[derive(Debug)]
pub struct Order {
    pub id: u128,
    pub market_id: u128,
    pub event_slug: String,
    pub question: String,
    pub outcome: String,
    pub side: String,
    pub price: String,
    pub size: String,
    pub status: String,
}

pub struct OrderView {
    pub id: u128,
    pub market_id: u128,
    pub event_slug: Seq<char>,
    pub question: Seq<char>,
    pub outcome: Seq<char>,
    pub side: Seq<char>,
    pub price: Seq<char>,
    pub size: Seq<char>,
    pub status: Seq<char>,
}

impl View for Order {
    type V = OrderView;

    open spec fn view(&self) -> OrderView {
        OrderView {
            id: self.id,
            market_id: self.market_id,
            event_slug: self.event_slug@,
            question: self.question@,
            outcome: self.outcome@,
            side: self.side@,
            price: self.price@,
            size: self.size@,
            status: self.status@,
        }
    }
}

impl Clone for Order {
    fn clone(&self) -> (r: Self)
        ensures
            r@ == self@,
    {
        Order {
            id: self.id,
            market_id: self.market_id,
            event_slug: self.event_slug.clone(),
            question: self.question.clone(),
            outcome: self.outcome.clone(),
            side: self.side.clone(),
            price: self.price.clone(),
            size: self.size.clone(),
            status: self.status.clone(),
        }
    }
}

/// One price level of an order book, already formatted.
#[derive(Debug)]
pub struct BookLevel {
    pub price: String,
    pub size: String,
}

#[derive(Debug)]
pub struct BookResponse {
    pub sequence: u64,
    pub bids: Vec<BookLevel>,
    pub asks: Vec<BookLevel>,
    pub last_trade_price: Option<String>,
}

#[derive(Debug)]
pub struct BalanceEntry {
    pub token: String,
    pub symbol: String,
    pub total: String,
    pub locked: String,
    pub available: String,
}

#[derive(Debug)]
pub struct BalancesRequest {
    pub tokens: Vec<BalanceTokenSpec>,
}

#[derive(Debug)]
pub struct BalanceTokenSpec {
    pub symbol: String,
    pub address: String,
}

#[derive(Debug)]
pub struct RegisterQuestionRequest {
    pub question: String,
    pub slug: String,
    pub icon_url: Option<String>,
}

#[derive(Debug)]
pub struct AllocateSlugRequest {
    pub question: String,
}

#[derive(Debug)]
pub struct SlugResponse {
    pub slug: String,
}

#[derive(Debug)]
pub struct MarketInfoResponse {
    pub last_price: Option<String>,
    pub state: String,
    pub min_order_size: String,
    pub tick_size: String,
    pub maker_fee_bps: u16,
    pub taker_fee_bps: u16,
    pub allow_market_orders: bool,
}

#[derive(Debug)]
pub struct CancelContextResponse {
    pub order: Order,
    pub chain_order_id: String,
    pub spot_market: String,
}

#[derive(Debug)]
pub struct MarketsPageResponse {
    pub markets: Vec<Market>,
    pub total: usize,
    pub limit: u32,
    pub offset: u32,
}

#[derive(Debug)]
pub struct ListOrdersQuery {
    pub user_address: String,
}

#[derive(Debug)]
pub struct CancelContextQuery {
    pub user_address: String,
}

#[derive(Debug)]
pub struct SpotQuery {
    pub account: String,
    pub depth: Option<u32>,
}

} // verus!
