//! The capabilities of an exchange: what every adapter offers, whichever
//! exchange it speaks to.
//!
//! An adapter never sends anything itself. Each operation has two halves:
//! the first translates the caller's request into the call that the exchange
//! takes, and fails where the exchange cannot take it; the second translates
//! what came back for that call into what the caller gets. Whoever holds the
//! transport sends the call between the two.
use crate::errors::OpenLimitsError;
use crate::info::MarketPair;
use crate::model::{
    Balance, CancelAllOrdersRequest, CancelOrderRequest, Candle, GetHistoricRatesRequest,
    GetOrderHistoryRequest, GetOrderRequest, GetPriceTickerRequest, OpenLimitOrderRequest,
    OpenMarketOrderRequest, Order, OrderBookRequest, OrderBookResponse, OrderCanceled, Paginator,
    Ticker, Trade, TradeHistoryRequest,
};
use vstd::prelude::*;

verus! {

/// An exchange behind the capability interfaces.
pub struct ExchangeWrapper<Exc: Exchange> {
    inner: Exc,
}

impl<Exc: Exchange> ExchangeWrapper<Exc> {
    /// The exchange that is wrapped.
    pub closed spec fn wrapped(&self) -> Exc {
        self.inner
    }

    /// Wraps an exchange.
    pub fn new(inner: Exc) -> (r: Self)
        ensures
            r.wrapped() == inner,
    {
        Self { inner }
    }

    /// The exchange that is wrapped.
    pub fn inner(&self) -> (r: &Exc)
        ensures
            *r == self.wrapped(),
    {
        &self.inner
    }

    /// Unwraps the exchange.
    pub fn into_inner(self) -> (r: Exc)
        ensures
            r == self.wrapped(),
    {
        self.inner
    }
}

/// The entry to the library: it makes an exchange and wraps it.
pub struct OpenLimits {}

impl OpenLimits {
    /// Makes the exchange `Exc` from its parameters, and wraps it.
    pub fn instantiate<Exc: Exchange + ExchangeInstantiation>(parameters: Exc::Parameters) -> (r:
        ExchangeWrapper<Exc>)
        ensures
            Exc::instantiates(parameters, r.wrapped()),
    {
        ExchangeWrapper::new(Exc::new(parameters))
    }
}

/// How an exchange is made from its parameters.
pub trait ExchangeInstantiation: Sized {
    type Parameters;

    /// Whether `made` is an exchange as its parameters describe it.
    spec fn instantiates(parameters: Self::Parameters, made: Self) -> bool;

    /// Makes the exchange.
    fn new(parameters: Self::Parameters) -> (made: Self)
        ensures
            Self::instantiates(parameters, made),
    ;
}

/// The identifiers of an exchange.
pub trait ExchangeSpec {
    type OrderId;

    type TradeId;

    type Pagination;
}

/// The market data of an exchange. Every operation only reads, and every
/// one can fail.
pub trait ExchangeMarketData: ExchangeSpec + Sized {
    type OrderBookCall;

    type OrderBookAnswer;

    type TickerCall;

    type TickerAnswer;

    type TradeHistoryCall;

    type TradeHistoryAnswer;

    type HistoricRatesCall;

    type HistoricRatesAnswer;

    /// The call that asks for the order book of a market.
    fn order_book_call(&self, req: &OrderBookRequest) -> Result<
        Self::OrderBookCall,
        OpenLimitsError,
    >;

    /// The order book in what came back.
    fn order_book(&self, answer: Self::OrderBookAnswer) -> Result<
        OrderBookResponse,
        OpenLimitsError,
    >;

    /// The call that asks for the price of a market.
    fn get_price_ticker_call(&self, req: &GetPriceTickerRequest) -> Result<
        Self::TickerCall,
        OpenLimitsError,
    >;

    /// The ticker in what came back.
    fn get_price_ticker(&self, answer: Self::TickerAnswer) -> Result<Ticker, OpenLimitsError>;

    /// The call that asks for a page of the account's trades.
    fn get_trade_history_call(&self, req: &TradeHistoryRequest) -> Result<
        Self::TradeHistoryCall,
        OpenLimitsError,
    >;

    /// The trades in what came back.
    fn get_trade_history(&self, answer: Self::TradeHistoryAnswer) -> Result<
        Vec<Trade>,
        OpenLimitsError,
    >;

    /// The call that asks for a page of a market's candles.
    fn get_historic_rates_call(&self, req: &GetHistoricRatesRequest) -> Result<
        Self::HistoricRatesCall,
        OpenLimitsError,
    >;

    /// The candles in what came back.
    fn get_historic_rates(&self, answer: Self::HistoricRatesAnswer) -> Result<
        Vec<Candle>,
        OpenLimitsError,
    >;
}

/// The account of an exchange: placing, canceling and querying orders, and
/// the balances. An operation that the exchange does not offer fails in its
/// first half with the error of a missing implementation, whatever the state
/// of the network.
pub trait ExchangeAccount: ExchangeSpec + Sized {
    type LimitOrderCall;

    type MarketOrderCall;

    type PlacedAnswer;

    type CancelCall;

    type CancelAnswer;

    type CancelAllCall;

    type CancelAllAnswer;

    type OrdersCall;

    type OrdersAnswer;

    type BalancesCall;

    type BalancesAnswer;

    type OrderCall;

    type OrderAnswer;

    /// The call that places a limit order to buy.
    fn limit_buy_call(&self, req: &OpenLimitOrderRequest) -> Result<
        Self::LimitOrderCall,
        OpenLimitsError,
    >;

    /// The order that was placed, from what came back.
    fn limit_buy(&self, answer: Self::PlacedAnswer) -> Result<Order, OpenLimitsError>;

    /// The call that places a limit order to sell.
    fn limit_sell_call(&self, req: &OpenLimitOrderRequest) -> Result<
        Self::LimitOrderCall,
        OpenLimitsError,
    >;

    /// The order that was placed, from what came back.
    fn limit_sell(&self, answer: Self::PlacedAnswer) -> Result<Order, OpenLimitsError>;

    /// The call that places a market order to buy.
    fn market_buy_call(&self, req: &OpenMarketOrderRequest) -> Result<
        Self::MarketOrderCall,
        OpenLimitsError,
    >;

    /// The order that was placed, from what came back.
    fn market_buy(&self, answer: Self::PlacedAnswer) -> Result<Order, OpenLimitsError>;

    /// The call that places a market order to sell.
    fn market_sell_call(&self, req: &OpenMarketOrderRequest) -> Result<
        Self::MarketOrderCall,
        OpenLimitsError,
    >;

    /// The order that was placed, from what came back.
    fn market_sell(&self, answer: Self::PlacedAnswer) -> Result<Order, OpenLimitsError>;

    /// The call that cancels one order.
    fn cancel_order_call(&self, req: &CancelOrderRequest) -> Result<
        Self::CancelCall,
        OpenLimitsError,
    >;

    /// The order that was canceled, from what came back.
    fn cancel_order(&self, answer: Self::CancelAnswer) -> Result<OrderCanceled, OpenLimitsError>;

    /// The call that cancels every order of a market.
    fn cancel_all_orders_call(&self, req: &CancelAllOrdersRequest) -> Result<
        Self::CancelAllCall,
        OpenLimitsError,
    >;

    /// The orders that were canceled, as far as what came back names them.
    fn cancel_all_orders(&self, answer: Self::CancelAllAnswer) -> Result<
        Vec<OrderCanceled>,
        OpenLimitsError,
    >;

    /// The call that asks for the open orders of the account.
    fn get_all_open_orders_call(&self) -> Result<Self::OrdersCall, OpenLimitsError>;

    /// The open orders in what came back.
    fn get_all_open_orders(&self, answer: Self::OrdersAnswer) -> Result<
        Vec<Order>,
        OpenLimitsError,
    >;

    /// The call that asks for a page of the account's orders.
    fn get_order_history_call(&self, req: &GetOrderHistoryRequest) -> Result<
        Self::OrdersCall,
        OpenLimitsError,
    >;

    /// The orders in what came back.
    fn get_order_history(&self, answer: Self::OrdersAnswer) -> Result<Vec<Order>, OpenLimitsError>;

    /// The call that asks for the balances of the account.
    fn get_account_balances_call(&self, paginator: Option<&Paginator>) -> Result<
        Self::BalancesCall,
        OpenLimitsError,
    >;

    /// The balances in what came back.
    fn get_account_balances(&self, answer: Self::BalancesAnswer) -> Result<
        Vec<Balance>,
        OpenLimitsError,
    >;

    /// The call that asks for one order.
    fn get_order_call(&self, req: &GetOrderRequest) -> Result<Self::OrderCall, OpenLimitsError>;

    /// The order in what came back.
    fn get_order(&self, answer: Self::OrderAnswer) -> Result<Order, OpenLimitsError>;
}

/// An exchange: it keeps what it knows of its markets, and can be told to
/// replace it by the market pairs that were retrieved, or that the retrieval
/// failed.
pub trait Exchange {
    /// Ends a refresh with what was retrieved.
    fn refresh_market_info(
        &mut self,
        retrieved: Result<Vec<MarketPair>, OpenLimitsError>,
    ) -> Result<(), OpenLimitsError>;
}

} // verus!
