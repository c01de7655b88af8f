//! Chain events as the indexer reads them, and what processing them asks of
//! the order books and of the users' event streams.

use vstd::prelude::*;
use crate::models::{Order, OrderView};

verus! {

#[derive(Debug, Clone, Copy, PartialEq, Eq, Structural)]
pub enum OrderSide {
    Buy,
    Sell,
}

/// The kind of an order, with the price that matters for the index.
#[derive(Debug, Clone, Copy, PartialEq, Eq, Structural)]
pub enum OrderKind {
    Limit { price: u64 },
    Market,
    Trigger { limit_price: u64 },
}

/// A market contract was created. Addresses and tokens are in their text
/// form.
#[derive(Debug)]
pub struct MarketCreated {
    pub market_address: String,
    pub question_hash: [u8; 32],
    pub collateral_token: String,
    pub yes_token: String,
    pub no_token: String,
    pub yes_spot_market: String,
    pub no_spot_market: String,
    pub state: String,
    pub resolution_deadline: u64,
}

/// A market contract was resolved.
#[derive(Debug)]
pub struct MarketResolved {
    pub market_address: String,
}

/// An order was placed. `market` is the spot market's text; `market_key` is
/// that text as `normalize_spot_market_key` files it.
#[derive(Debug)]
pub struct OrderCreated {
    pub order_id: String,
    pub market: String,
    pub market_key: String,
    pub side: OrderSide,
    pub order_type: OrderKind,
    pub amount: u64,
    pub creator: String,
}

/// An order was cancelled.
#[derive(Debug)]
pub struct OrderCancelled {
    pub order_id: String,
    pub side: OrderSide,
    pub price: u64,
    pub cancelled_amount: u64,
}

/// An order was (partly) filled. `market_key` is the spot market as
/// `normalize_spot_market_key` files it.
#[derive(Debug)]
pub struct OrderFilled {
    pub order_id: String,
    pub market_key: String,
    pub side: OrderSide,
    pub price: u64,
    pub fill_amount: u64,
    pub remaining_amount: u64,
    pub is_fully_filled: bool,
}

/// The decoded payload of a transaction event.
#[derive(Debug)]
pub enum EventPayload {
    MarketCreated(MarketCreated),
    MarketResolved(MarketResolved),
    OrderCreated(OrderCreated),
    OrderCancelled(OrderCancelled),
    OrderFilled(OrderFilled),
}

/// The type of a transaction event; contract calls carry the action name.
#[derive(Debug)]
pub enum EventType {
    Call(String),
    Transfer,
    System,
    Custom(String),
}

/// One event of a transaction, with its payload where it could be decoded.
#[derive(Debug)]
pub struct TxEvent {
    pub event_type: EventType,
    pub payload: Option<EventPayload>,
}

/// The outcome of one transaction of a block.
#[derive(Debug)]
pub struct TxResult {
    pub success: bool,
    pub events: Vec<TxEvent>,
}

/// A block of transaction outcomes.
#[derive(Debug)]
pub struct Block {
    pub block_num: u64,
    pub transaction_outputs: Vec<TxResult>,
}

/// The name under which an event is reported.
pub fn event_action_name(event_type: &EventType) -> (r: &str)
    ensures
        r@ == match event_type {
            EventType::Call(name) => name@,
            EventType::Transfer => "transfer"@,
            EventType::System => "system"@,
            EventType::Custom(name) => name@,
        },
{
    match event_type {
        EventType::Call(name) => name.as_str(),
        EventType::Transfer => "transfer",
        EventType::System => "system",
        EventType::Custom(name) => name.as_str(),
    }
}

/// A change to announce to the order book of a spot market.
#[derive(Debug)]
pub enum BookUpdate {
    Created { spot_market: String, side: OrderSide, price: u64, amount: u64, block_num: u64 },
    Cancelled { spot_market: String, side: OrderSide, price: u64, amount: u64, block_num: u64 },
    Filled {
        spot_market: String,
        side: OrderSide,
        price: u64,
        amount: u64,
        block_num: u64,
        last_trade_price: u64,
    },
}

pub enum BookUpdateView {
    Created { spot_market: Seq<char>, side: OrderSide, price: u64, amount: u64, block_num: u64 },
    Cancelled { spot_market: Seq<char>, side: OrderSide, price: u64, amount: u64, block_num: u64 },
    Filled {
        spot_market: Seq<char>,
        side: OrderSide,
        price: u64,
        amount: u64,
        block_num: u64,
        last_trade_price: u64,
    },
}

impl View for BookUpdate {
    type V = BookUpdateView;

    open spec fn view(&self) -> BookUpdateView {
        match self {
            BookUpdate::Created { spot_market, side, price, amount, block_num } => {
                BookUpdateView::Created {
                    spot_market: spot_market@,
                    side: *side,
                    price: *price,
                    amount: *amount,
                    block_num: *block_num,
                }
            },
            BookUpdate::Cancelled { spot_market, side, price, amount, block_num } => {
                BookUpdateView::Cancelled {
                    spot_market: spot_market@,
                    side: *side,
                    price: *price,
                    amount: *amount,
                    block_num: *block_num,
                }
            },
            BookUpdate::Filled { spot_market, side, price, amount, block_num, last_trade_price } => {
                BookUpdateView::Filled {
                    spot_market: spot_market@,
                    side: *side,
                    price: *price,
                    amount: *amount,
                    block_num: *block_num,
                    last_trade_price: *last_trade_price,
                }
            },
        }
    }
}

/// Why a user's order is announced.
#[derive(Debug, Clone, Copy, PartialEq, Eq, Structural)]
pub enum OrderNoticeKind {
    Placement,
    Cancellation,
    Update,
}

/// An order to announce on its owner's event stream.
#[derive(Debug)]
pub struct OrderNotice {
    pub kind: OrderNoticeKind,
    pub user_address: String,
    pub chain_order_id: String,
    pub order: Order,
    pub block_num: u64,
}

pub struct OrderNoticeView {
    pub kind: OrderNoticeKind,
    pub user_address: Seq<char>,
    pub chain_order_id: Seq<char>,
    pub order: OrderView,
    pub block_num: u64,
}

impl View for OrderNotice {
    type V = OrderNoticeView;

    open spec fn view(&self) -> OrderNoticeView {
        OrderNoticeView {
            kind: self.kind,
            user_address: self.user_address@,
            chain_order_id: self.chain_order_id@,
            order: self.order@,
            block_num: self.block_num,
        }
    }
}

/// A fill to announce on the order owner's event stream, with the amounts
/// already formatted.
#[derive(Debug)]
pub struct TradeNotice {
    pub user_address: String,
    pub chain_order_id: String,
    pub order_id: u128,
    pub market_slug: String,
    pub outcome: String,
    pub side: String,
    pub price: String,
    pub fill_amount: String,
    pub remaining_amount: String,
    pub is_fully_filled: bool,
    pub spot_market: String,
    pub block_num: u64,
}

pub struct TradeNoticeView {
    pub user_address: Seq<char>,
    pub chain_order_id: Seq<char>,
    pub order_id: u128,
    pub market_slug: Seq<char>,
    pub outcome: Seq<char>,
    pub side: Seq<char>,
    pub price: Seq<char>,
    pub fill_amount: Seq<char>,
    pub remaining_amount: Seq<char>,
    pub is_fully_filled: bool,
    pub spot_market: Seq<char>,
    pub block_num: u64,
}

impl View for TradeNotice {
    type V = TradeNoticeView;

    open spec fn view(&self) -> TradeNoticeView {
        TradeNoticeView {
            user_address: self.user_address@,
            chain_order_id: self.chain_order_id@,
            order_id: self.order_id,
            market_slug: self.market_slug@,
            outcome: self.outcome@,
            side: self.side@,
            price: self.price@,
            fill_amount: self.fill_amount@,
            remaining_amount: self.remaining_amount@,
            is_fully_filled: self.is_fully_filled,
            spot_market: self.spot_market@,
            block_num: self.block_num,
        }
    }
}

/// Something that processing an event asks of the rest of the service.
#[derive(Debug)]
pub enum Effect {
    Book(BookUpdate),
    Order(OrderNotice),
    Trade(TradeNotice),
}

pub enum EffectView {
    Book(BookUpdateView),
    Order(OrderNoticeView),
    Trade(TradeNoticeView),
}

impl View for Effect {
    type V = EffectView;

    open spec fn view(&self) -> EffectView {
        match self {
            Effect::Book(b) => EffectView::Book(b@),
            Effect::Order(o) => EffectView::Order(o@),
            Effect::Trade(t) => EffectView::Trade(t@),
        }
    }
}

} // verus!
