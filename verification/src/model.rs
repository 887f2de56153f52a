//! The exchange-agnostic model: what a caller asks for and what it gets back,
//! whichever exchange answers.
use crate::decimal::{Decimal, DecimalParts, opt_view};
use crate::shared::{opt_text, views};
use vstd::prelude::*;

verus! {

/// The side of an order or a trade.
#[derive(Clone, Copy, Debug, PartialEq, Eq, Structural)]
pub enum Side {
    Buy,
    Sell,
}

/// How an order executes.
#[derive(Clone, Copy, Debug, PartialEq, Eq, Structural)]
pub enum OrderType {
    Limit,
    Market,
    StopLimit,
    StopMarket,
    Unknown,
}

/// Where an order stands.
#[derive(Clone, Copy, Debug, PartialEq, Eq, Structural)]
pub enum OrderStatus {
    New,
    PartiallyFilled,
    Filled,
    Canceled,
    PendingCancel,
    Rejected,
    Expired,
    Open,
    Pending,
    Active,
}

/// The role of an account in a trade.
#[derive(Clone, Copy, Debug, PartialEq, Eq, Structural)]
pub enum Liquidity {
    Maker,
    Taker,
}

/// The length of a candle.
#[derive(Clone, Copy, Debug, PartialEq, Eq, Structural)]
pub enum Interval {
    OneMinute,
    ThreeMinutes,
    FiveMinutes,
    FifteenMinutes,
    ThirtyMinutes,
    OneHour,
    TwoHours,
    FourHours,
    SixHours,
    EightHours,
    TwelveHours,
    OneDay,
    ThreeDays,
    OneWeek,
    OneMonth,
}

/// How long an order stays in the book. `GoodTillTime` holds the time to
/// live, in milliseconds.
#[derive(Clone, Copy, Debug, PartialEq, Eq, Structural)]
pub enum TimeInForce {
    GoodTillCancelled,
    ImmediateOrCancelled,
    FillOrKill,
    GoodTillTime(i64),
}

/// Which page of a listing is asked for: a cursor, a bound on the page's
/// size, and a window of time in milliseconds since the epoch.
#[derive(Clone, Debug, PartialEq, Eq)]
pub struct Paginator {
    pub start_time: Option<u64>,
    pub end_time: Option<u64>,
    pub limit: Option<u64>,
    pub before: Option<String>,
    pub after: Option<String>,
}

/// The mathematical content of a [`Paginator`].
pub ghost struct PaginatorView {
    pub start_time: Option<u64>,
    pub end_time: Option<u64>,
    pub limit: Option<u64>,
    pub before: Option<Seq<char>>,
    pub after: Option<Seq<char>>,
}

impl View for Paginator {
    type V = PaginatorView;

    open spec fn view(&self) -> PaginatorView {
        PaginatorView {
            start_time: self.start_time,
            end_time: self.end_time,
            limit: self.limit,
            before: opt_text(self.before),
            after: opt_text(self.after),
        }
    }
}

impl Default for Paginator {
    /// The paginator that asks for nothing in particular.
    fn default() -> (r: Paginator)
        ensures
            r@ == (PaginatorView {
                start_time: None,
                end_time: None,
                limit: None,
                before: None,
                after: None,
            }),
    {
        Paginator { start_time: None, end_time: None, limit: None, before: None, after: None }
    }
}

impl Default for TimeInForce {
    /// An order stays in the book until it is canceled.
    fn default() -> (r: TimeInForce)
        ensures
            r == TimeInForce::GoodTillCancelled,
    {
        TimeInForce::GoodTillCancelled
    }
}

/// One level of an order book.
#[derive(Clone, Copy, Debug, PartialEq, Eq)]
pub struct AskBid {
    pub price: Decimal,
    pub qty: Decimal,
}

/// The mathematical content of an [`AskBid`].
pub ghost struct AskBidView {
    pub price: DecimalParts,
    pub qty: DecimalParts,
}

impl View for AskBid {
    type V = AskBidView;

    open spec fn view(&self) -> AskBidView {
        AskBidView { price: self.price@, qty: self.qty@ }
    }
}

/// An order book, or an update of one.
#[derive(Clone, Debug, PartialEq, Eq)]
pub struct OrderBookResponse {
    pub update_id: Option<u64>,
    pub last_update_id: Option<u64>,
    pub bids: Vec<AskBid>,
    pub asks: Vec<AskBid>,
}

/// The mathematical content of an [`OrderBookResponse`].
pub ghost struct OrderBookView {
    pub update_id: Option<u64>,
    pub last_update_id: Option<u64>,
    pub bids: Seq<AskBidView>,
    pub asks: Seq<AskBidView>,
}

impl View for OrderBookResponse {
    type V = OrderBookView;

    open spec fn view(&self) -> OrderBookView {
        OrderBookView {
            update_id: self.update_id,
            last_update_id: self.last_update_id,
            bids: views(self.bids@),
            asks: views(self.asks@),
        }
    }
}

/// A trade.
#[derive(Clone, Debug, PartialEq, Eq)]
pub struct Trade {
    pub id: String,
    pub buyer_order_id: Option<String>,
    pub seller_order_id: Option<String>,
    pub market_pair: String,
    pub price: Decimal,
    pub qty: Decimal,
    pub fees: Option<Decimal>,
    pub side: Side,
    pub liquidity: Option<Liquidity>,
    pub created_at: u64,
}

/// The mathematical content of a [`Trade`].
pub ghost struct TradeView {
    pub id: Seq<char>,
    pub buyer_order_id: Option<Seq<char>>,
    pub seller_order_id: Option<Seq<char>>,
    pub market_pair: Seq<char>,
    pub price: DecimalParts,
    pub qty: DecimalParts,
    pub fees: Option<DecimalParts>,
    pub side: Side,
    pub liquidity: Option<Liquidity>,
    pub created_at: u64,
}

impl View for Trade {
    type V = TradeView;

    open spec fn view(&self) -> TradeView {
        TradeView {
            id: self.id@,
            buyer_order_id: opt_text(self.buyer_order_id),
            seller_order_id: opt_text(self.seller_order_id),
            market_pair: self.market_pair@,
            price: self.price@,
            qty: self.qty@,
            fees: opt_view(self.fees),
            side: self.side,
            liquidity: self.liquidity,
            created_at: self.created_at,
        }
    }
}

/// An order, as it stood when it was placed or queried.
#[derive(Clone, Debug, PartialEq, Eq)]
pub struct Order {
    pub id: String,
    pub market_pair: String,
    pub client_order_id: Option<String>,
    pub created_at: Option<u64>,
    pub order_type: OrderType,
    pub side: Side,
    pub status: OrderStatus,
    pub size: Decimal,
    pub price: Option<Decimal>,
    pub remaining: Option<Decimal>,
    pub trades: Vec<Trade>,
}

/// The mathematical content of an [`Order`].
pub ghost struct OrderView {
    pub id: Seq<char>,
    pub market_pair: Seq<char>,
    pub client_order_id: Option<Seq<char>>,
    pub created_at: Option<u64>,
    pub order_type: OrderType,
    pub side: Side,
    pub status: OrderStatus,
    pub size: DecimalParts,
    pub price: Option<DecimalParts>,
    pub remaining: Option<DecimalParts>,
    pub trades: Seq<TradeView>,
}

impl View for Order {
    type V = OrderView;

    open spec fn view(&self) -> OrderView {
        OrderView {
            id: self.id@,
            market_pair: self.market_pair@,
            client_order_id: opt_text(self.client_order_id),
            created_at: self.created_at,
            order_type: self.order_type,
            side: self.side,
            status: self.status,
            size: self.size@,
            price: opt_view(self.price),
            remaining: opt_view(self.remaining),
            trades: views(self.trades@),
        }
    }
}

/// The prices and the volume of one interval of trading.
#[derive(Clone, Copy, Debug, PartialEq, Eq)]
pub struct Candle {
    pub time: u64,
    pub low: Decimal,
    pub high: Decimal,
    pub open: Decimal,
    pub close: Decimal,
    pub volume: Decimal,
}

/// The mathematical content of a [`Candle`].
pub ghost struct CandleView {
    pub time: u64,
    pub low: DecimalParts,
    pub high: DecimalParts,
    pub open: DecimalParts,
    pub close: DecimalParts,
    pub volume: DecimalParts,
}

impl View for Candle {
    type V = CandleView;

    open spec fn view(&self) -> CandleView {
        CandleView {
            time: self.time,
            low: self.low@,
            high: self.high@,
            open: self.open@,
            close: self.close@,
            volume: self.volume@,
        }
    }
}

/// What an account holds of one asset.
#[derive(Clone, Debug, PartialEq, Eq)]
pub struct Balance {
    pub asset: String,
    pub total: Decimal,
    pub free: Decimal,
}

/// The mathematical content of a [`Balance`].
pub ghost struct BalanceView {
    pub asset: Seq<char>,
    pub total: DecimalParts,
    pub free: DecimalParts,
}

impl View for Balance {
    type V = BalanceView;

    open spec fn view(&self) -> BalanceView {
        BalanceView { asset: self.asset@, total: self.total@, free: self.free@ }
    }
}

/// The price of a market: now, and over the last day.
#[derive(Clone, Copy, Debug, PartialEq, Eq)]
pub struct Ticker {
    pub price: Option<Decimal>,
    pub price_24h: Option<Decimal>,
}

/// The mathematical content of a [`Ticker`].
pub ghost struct TickerView {
    pub price: Option<DecimalParts>,
    pub price_24h: Option<DecimalParts>,
}

impl View for Ticker {
    type V = TickerView;

    open spec fn view(&self) -> TickerView {
        TickerView { price: opt_view(self.price), price_24h: opt_view(self.price_24h) }
    }
}

/// An order that was canceled.
#[derive(Clone, Debug, PartialEq, Eq)]
pub struct OrderCanceled {
    pub id: String,
}

/// Asks for the order book of a market.
#[derive(Clone, Debug, PartialEq, Eq)]
pub struct OrderBookRequest {
    pub market_pair: String,
}

/// Asks for the price of a market.
#[derive(Clone, Debug, PartialEq, Eq)]
pub struct GetPriceTickerRequest {
    pub market_pair: String,
}

/// Asks to cancel one order.
#[derive(Clone, Debug, PartialEq, Eq)]
pub struct CancelOrderRequest {
    pub id: String,
    pub market_pair: Option<String>,
}

/// Asks to cancel every order of a market.
#[derive(Clone, Debug, PartialEq, Eq)]
pub struct CancelAllOrdersRequest {
    pub market_pair: Option<String>,
}

/// Asks for one order.
#[derive(Clone, Debug, PartialEq, Eq)]
pub struct GetOrderRequest {
    pub id: String,
    pub market_pair: Option<String>,
}

/// Asks for the candles of a market.
#[derive(Clone, Debug, PartialEq, Eq)]
pub struct GetHistoricRatesRequest {
    pub market_pair: String,
    pub paginator: Option<Paginator>,
    pub interval: Interval,
}

/// Asks for the trades of a market.
#[derive(Clone, Debug, PartialEq, Eq)]
pub struct GetHistoricTradesRequest {
    pub market_pair: String,
    pub paginator: Option<Paginator>,
}

/// Asks for the orders of the account.
#[derive(Clone, Debug, PartialEq, Eq)]
pub struct GetOrderHistoryRequest {
    pub market_pair: Option<String>,
    pub order_status: Option<Vec<OrderStatus>>,
    pub paginator: Option<Paginator>,
}

/// Asks for the trades of the account.
#[derive(Clone, Debug, PartialEq, Eq)]
pub struct TradeHistoryRequest {
    pub market_pair: Option<String>,
    pub order_id: Option<String>,
    pub paginator: Option<Paginator>,
}

/// Asks to place a limit order.
#[derive(Clone, Debug, PartialEq, Eq)]
pub struct OpenLimitOrderRequest {
    pub client_order_id: Option<String>,
    pub market_pair: String,
    pub size: Decimal,
    pub price: Decimal,
    pub time_in_force: TimeInForce,
    pub post_only: bool,
}

/// Asks to place a market order.
#[derive(Clone, Debug, PartialEq, Eq)]
pub struct OpenMarketOrderRequest {
    pub client_order_id: Option<String>,
    pub market_pair: String,
    pub size: Decimal,
}

} // verus!
