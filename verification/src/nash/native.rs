//! What the Nash exchange sends and receives, as plain values: amounts and
//! prices as the decimal texts that the exchange reports, moments as
//! milliseconds since the epoch, assets and markets by their names.
use vstd::prelude::*;

verus! {

/// The side of an order on Nash.
#[derive(Clone, Copy, Debug, PartialEq, Eq, Structural)]
pub enum BuyOrSell {
    Buy,
    Sell,
}

/// How an order executes on Nash.
#[derive(Clone, Copy, Debug, PartialEq, Eq, Structural)]
pub enum OrderType {
    Market,
    Limit,
    StopMarket,
    StopLimit,
}

/// Where an order stands on Nash.
#[derive(Clone, Copy, Debug, PartialEq, Eq, Structural)]
pub enum OrderStatus {
    Pending,
    Open,
    Filled,
    Canceled,
}

/// The lengths of candles that Nash offers.
#[derive(Clone, Copy, Debug, PartialEq, Eq, Structural)]
pub enum CandleInterval {
    FifteenMinute,
    FiveMinute,
    FourHour,
    OneDay,
    OneHour,
    OneMinute,
    OneMonth,
    OneWeek,
    SixHour,
    ThirtyMinute,
    ThreeHour,
    TwelveHour,
}

/// The role of the account in a trade; `Uninvolved` where it took no part.
#[derive(Clone, Copy, Debug, PartialEq, Eq, Structural)]
pub enum AccountTradeSide {
    Maker,
    Taker,
    Uninvolved,
}

/// When Nash cancels an order. `GoodTilTime` holds the moment of expiry, in
/// milliseconds since the epoch.
#[derive(Clone, Copy, Debug, PartialEq, Eq, Structural)]
pub enum OrderCancellationPolicy {
    FillOrKill,
    GoodTilCancelled,
    GoodTilTime(i64),
    ImmediateOrCancel,
}

/// A window of time, both ends in milliseconds since the epoch.
#[derive(Clone, Copy, Debug, PartialEq, Eq, Structural)]
pub struct DateTimeRange {
    pub start: u64,
    pub stop: u64,
}

/// What the transport hands back for a request that reached the exchange:
/// the response, or the error that the exchange reported in its place.
#[derive(Clone, Debug, PartialEq, Eq)]
pub enum ResponseOrError<T> {
    Response(T),
    Error(String),
}

/// One level of an order book.
#[derive(Clone, Debug, PartialEq, Eq)]
pub struct OrderbookOrder {
    pub price: String,
    pub amount: String,
}

/// An order book, or an update of one.
#[derive(Clone, Debug, PartialEq, Eq)]
pub struct OrderbookResponse {
    pub last_update_id: i64,
    pub update_id: i64,
    pub asks: Vec<OrderbookOrder>,
    pub bids: Vec<OrderbookOrder>,
}

/// A trade.
#[derive(Clone, Debug, PartialEq, Eq)]
pub struct Trade {
    pub id: String,
    pub taker_order_id: String,
    pub maker_order_id: String,
    pub amount: String,
    pub executed_at: i64,
    pub account_side: AccountTradeSide,
    pub taker_fee: String,
    pub market: String,
    pub direction: BuyOrSell,
    pub limit_price: String,
}

/// An order of the account.
#[derive(Clone, Debug, PartialEq, Eq)]
pub struct Order {
    pub id: String,
    pub amount_placed: String,
    pub amount_remaining: String,
    pub limit_price: Option<String>,
    pub placed_at: i64,
    pub buy_or_sell: BuyOrSell,
    pub market: String,
    pub order_type: OrderType,
    pub status: OrderStatus,
    pub trades: Vec<Trade>,
}

/// A candle.
#[derive(Clone, Debug, PartialEq, Eq)]
pub struct Candle {
    pub a_volume: String,
    pub close_price: String,
    pub high_price: String,
    pub low_price: String,
    pub open_price: String,
    pub interval_start: i64,
}

/// The ticker of a market.
#[derive(Clone, Debug, PartialEq, Eq)]
pub struct TickerResponse {
    pub best_ask_price: Option<String>,
    pub best_bid_price: Option<String>,
    pub high_price_24h: Option<String>,
    pub low_price_24h: Option<String>,
}

/// The answer to an order that was placed.
#[derive(Clone, Debug, PartialEq, Eq)]
pub struct PlaceOrderResponse {
    pub order_id: String,
    pub market_name: String,
    pub placed_at: i64,
    pub order_type: OrderType,
    pub buy_or_sell: BuyOrSell,
    pub status: OrderStatus,
}

/// The answer to an order that was canceled.
#[derive(Clone, Debug, PartialEq, Eq)]
pub struct CancelOrderResponse {
    pub order_id: String,
}

/// An amount of one asset.
#[derive(Clone, Debug, PartialEq, Eq)]
pub struct AssetAmount {
    pub asset: String,
    pub amount: String,
}

/// The balances of the account: what is free to trade in the state channel,
/// and what is held in open orders.
#[derive(Clone, Debug, PartialEq, Eq)]
pub struct ListAccountBalancesResponse {
    pub state_channel: Vec<AssetAmount>,
    pub in_orders: Vec<AssetAmount>,
}

/// A market of the exchange.
#[derive(Clone, Debug, PartialEq, Eq)]
pub struct Market {
    pub symbol: String,
    pub asset_a: String,
    pub asset_b: String,
    pub precision_a: u32,
    pub precision_b: u32,
    pub min_trade_size_a: String,
    pub min_trade_size_b: String,
}

/// A page of candles, and the cursor of the next page.
#[derive(Clone, Debug, PartialEq, Eq)]
pub struct ListCandlesResponse {
    pub candles: Vec<Candle>,
    pub next_page: Option<String>,
}

/// A page of a market's trades, and the cursor of the next page.
#[derive(Clone, Debug, PartialEq, Eq)]
pub struct ListTradesResponse {
    pub trades: Vec<Trade>,
    pub next_page: Option<String>,
}

/// A page of the account's trades, and the cursor of the next page.
#[derive(Clone, Debug, PartialEq, Eq)]
pub struct ListAccountTradesResponse {
    pub trades: Vec<Trade>,
    pub next_page: Option<String>,
}

/// A page of the account's orders, and the cursor of the next page.
#[derive(Clone, Debug, PartialEq, Eq)]
pub struct ListAccountOrdersResponse {
    pub orders: Vec<Order>,
    pub next_page: Option<String>,
}

/// One order of the account.
#[derive(Clone, Debug, PartialEq, Eq)]
pub struct GetAccountOrderResponse {
    pub order: Order,
}

/// The markets of the exchange.
#[derive(Clone, Debug, PartialEq, Eq)]
pub struct ListMarketsResponse {
    pub markets: Vec<Market>,
}

/// The answer to a cancellation of all orders.
#[derive(Clone, Copy, Debug, PartialEq, Eq)]
pub struct CancelAllOrdersResponse {
    pub accepted: bool,
}

/// Asks for the order book of a market.
#[derive(Clone, Debug, PartialEq, Eq)]
pub struct OrderbookRequest {
    pub market: String,
}

/// Asks for the ticker of a market.
#[derive(Clone, Debug, PartialEq, Eq)]
pub struct TickerRequest {
    pub market: String,
}

/// Asks to cancel one order.
#[derive(Clone, Debug, PartialEq, Eq)]
pub struct CancelOrderRequest {
    pub order_id: String,
    pub market: String,
}

/// Asks to cancel every order of a market.
#[derive(Clone, Debug, PartialEq, Eq)]
pub struct CancelAllOrders {
    pub market: String,
}

/// Asks for one order of the account.
#[derive(Clone, Debug, PartialEq, Eq)]
pub struct GetAccountOrderRequest {
    pub order_id: String,
}

/// Asks for the balances of the account.
#[derive(Clone, Debug, PartialEq, Eq)]
pub struct ListAccountBalancesRequest {
    pub filter: Option<String>,
}

/// Asks for the trades of the account.
#[derive(Clone, Debug, PartialEq, Eq)]
pub struct ListAccountTradesRequest {
    pub market: Option<String>,
    pub before: Option<String>,
    pub limit: Option<i64>,
    pub range: Option<DateTimeRange>,
}

/// Asks for the candles of a market.
#[derive(Clone, Debug, PartialEq, Eq)]
pub struct ListCandlesRequest {
    pub market: String,
    pub before: Option<String>,
    pub chronological: Option<bool>,
    pub interval: Option<CandleInterval>,
    pub limit: Option<i64>,
    pub range: Option<DateTimeRange>,
}

/// Asks for the trades of a market.
#[derive(Clone, Debug, PartialEq, Eq)]
pub struct ListTradesRequest {
    pub market: String,
    pub limit: Option<i64>,
    pub before: Option<String>,
}

/// Asks for the orders of the account.
#[derive(Clone, Debug, PartialEq, Eq)]
pub struct ListAccountOrdersRequest {
    pub market: Option<String>,
    pub before: Option<String>,
    pub buy_or_sell: Option<BuyOrSell>,
    pub limit: Option<i64>,
    pub status: Option<Vec<OrderStatus>>,
    pub order_type: Option<Vec<OrderType>>,
    pub range: Option<DateTimeRange>,
}

/// Asks to place a limit order.
#[derive(Clone, Debug, PartialEq, Eq)]
pub struct LimitOrderRequest {
    pub client_order_id: Option<String>,
    pub market: String,
    pub buy_or_sell: BuyOrSell,
    pub amount: String,
    pub price: String,
    pub cancellation_policy: OrderCancellationPolicy,
    pub allow_taker: bool,
}

/// Asks to place a market order.
#[derive(Clone, Debug, PartialEq, Eq)]
pub struct MarketOrderRequest {
    pub client_order_id: Option<String>,
    pub market: String,
    pub amount: String,
}

/// Asks for the stream of the account's orders.
#[derive(Clone, Debug, PartialEq, Eq)]
pub struct SubscribeAccountOrders {
    pub market: Option<String>,
    pub order_type: Option<Vec<OrderType>>,
    pub range: Option<DateTimeRange>,
    pub buy_or_sell: Option<BuyOrSell>,
    pub status: Option<Vec<OrderStatus>>,
}

/// Asks for one stream.
#[derive(Clone, Debug, PartialEq, Eq)]
pub enum SubscriptionRequest {
    Trades { market: String },
    Orderbook { market: String },
    AccountTrades { market_name: String },
    AccountOrders(SubscribeAccountOrders),
    AccountBalances { symbol: String },
}

/// A message of a stream. Order books and trades are held as plain values;
/// a message of another kind is held as it came, in `R`.
#[derive(Clone, Debug, PartialEq, Eq)]
pub enum SubscriptionResponse<R> {
    Orderbook(OrderbookResponse),
    Trades(Vec<Trade>),
    Ticker(R),
    AccountTrades(R),
    AccountOrders(R),
    AccountBalances(R),
}

} // verus!
