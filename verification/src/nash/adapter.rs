//! The adapter: the capabilities of an exchange, for Nash. The first half of
//! each operation builds the call that Nash takes, with the translations in
//! [`crate::nash::requests`]; the second half takes what the transport handed
//! back for that call and gives what the caller gets.
use crate::decimal::text_of;
use crate::errors::{ErrorView, OpenLimitsError, list_outcome, outcome};
use crate::exchange::{
    Exchange, ExchangeAccount, ExchangeInstantiation, ExchangeMarketData, ExchangeSpec,
};
use crate::info::{ExchangeInfo, MarketPair, MarketPairView, snapshot_of};
use crate::model::{
    Balance, CancelAllOrdersRequest, CancelOrderRequest, Candle, GetHistoricRatesRequest,
    GetHistoricTradesRequest, GetOrderHistoryRequest, GetOrderRequest, GetPriceTickerRequest,
    OpenLimitOrderRequest, OpenMarketOrderRequest, Order, OrderBookRequest, OrderBookResponse,
    OrderCanceled, OrderView, Paginator, Ticker, Trade, TradeHistoryRequest,
};
use crate::nash::balances::{balances_from_native, balances_of};
use crate::nash::enums::{expiry_error, interval_error, native_interval, policy_at};
use crate::nash::requests::{
    OPEN_ORDERS_LIMIT, cancel_all_market_error, cancel_market_error, opt_items, opt_statuses_of,
};
use crate::nash::utils::{SplitView, opt_paginator_view, split_of};
use crate::nash::market_data::{candles_from_native, candles_of, order_book_of, ticker_of};
use crate::nash::markets::{pairs_from_native, pairs_of};
use crate::nash::native;
use crate::nash::native::ResponseOrError;
use crate::nash::trades::{
    order_of, orders_from_native, orders_of, placed_order_of, trades_from_native, trades_of,
};
use crate::shared::{clock_millis, opt_text, views};
use vstd::prelude::*;

verus! {

/// The adapter for the Nash exchange: the cache of its markets. The
/// transport that carries the requests is held by whoever drives the adapter.
pub struct Nash {
    pub exchange_info: ExchangeInfo,
}

/// What the transport hands back for a request: the exchange's answer, or
/// the error of the transport itself.
pub type Answer<T> = Result<ResponseOrError<T>, String>;

/// The response in what the transport handed back; the error of the
/// transport or of the exchange, handed on as it came, where there is none.
pub open spec fn unwrapped<T>(resp: Answer<T>) -> Result<T, ErrorView> {
    match resp {
        Ok(ResponseOrError::Response(t)) => Ok(t),
        Ok(ResponseOrError::Error(m)) => Err(ErrorView::NashProtocolError(m@)),
        Err(m) => Err(ErrorView::NashProtocolError(m@)),
    }
}

/// What a translation gives of what the transport handed back.
pub open spec fn translated<T, V>(resp: Answer<T>, translation: spec_fn(T) -> Result<V, ErrorView>)
    -> Result<V, ErrorView> {
    match unwrapped(resp) {
        Ok(t) => translation(t),
        Err(e) => Err(e),
    }
}

/// The error of a market buy.
pub open spec fn market_buy_error() -> ErrorView {
    ErrorView::MissingImplementation(
        "Market buys are not supported by nash. A market buy can be simulated by placing a market sell in the inverse market. Market buy in btc_usdc should be translated to a market sell in usdc_btc."@,
    )
}

/// Whether `n` asks Nash to place the limit order that `req` describes, at
/// some moment: Nash is given no client order id; the order may take
/// liquidity unless the request is post-only; the amount and the price are
/// the texts of the request's decimals; and the cancellation policy is the
/// one of the request's time in force at that moment.
pub open spec fn placing(req: OpenLimitOrderRequest, n: native::LimitOrderRequest) -> bool {
    &&& n.client_order_id is None
    &&& n.allow_taker == !req.post_only
    &&& n.market == req.market_pair
    &&& n.amount@ == text_of(req.size@)
    &&& n.price@ == text_of(req.price@)
    &&& exists|now: int| policy_at(req.time_in_force, now) == Some(n.cancellation_policy)
    &&& !(req.time_in_force is GoodTillTime) ==> policy_at(req.time_in_force, 0) == Some(
        n.cancellation_policy,
    )
}

impl Nash {
    /// An adapter whose cache no refresh has filled yet.
    pub fn new() -> (r: Nash)
        ensures
            r.exchange_info@ == Map::<Seq<char>, MarketPairView>::empty(),
            !r.exchange_info.is_ready(),
    {
        Nash { exchange_info: ExchangeInfo::new() }
    }

    /// The response in what the transport handed back, or the error in it.
    pub fn unwrap_response<T>(resp: Answer<T>) -> (r: Result<T, OpenLimitsError>)
        ensures
            match r {
                Ok(t) => unwrapped(resp) == Ok::<T, ErrorView>(t),
                Err(e) => unwrapped(resp) == Err::<T, ErrorView>(e@),
            },
    {
        match resp {
            Ok(ResponseOrError::Response(t)) => Ok(t),
            Ok(ResponseOrError::Error(m)) => Err(OpenLimitsError::NashProtocolError(m)),
            Err(m) => Err(OpenLimitsError::NashProtocolError(m)),
        }
    }

    /// Asks Nash to place a limit order on the given side, now.
    ///
    /// The moment of the order is read from the clock, and it decides only
    /// when an order that is good for a time expires: every other field is
    /// fixed by the request, and the request fails only where such an order
    /// would expire at a moment that is out of range.
    pub fn convert_limit_order(req: &OpenLimitOrderRequest, buy_or_sell: native::BuyOrSell) -> (r:
        Result<native::LimitOrderRequest, OpenLimitsError>)
        ensures
            !(req.time_in_force is GoodTillTime) ==> r is Ok,
            r matches Ok(n) ==> n.buy_or_sell == buy_or_sell && placing(*req, n),
            r matches Err(e) ==> e@ == expiry_error(),
    {
        let now = clock_millis();
        native::LimitOrderRequest::at(req, buy_or_sell, now)
    }

    /// Asks Nash to place a market order that sells the request's size.
    pub fn convert_market_request(req: &OpenMarketOrderRequest) -> (r: native::MarketOrderRequest)
        ensures
            r.client_order_id is None,
            r.market == req.market_pair,
            r.amount@ == text_of(req.size@),
    {
        native::MarketOrderRequest::from_request(req)
    }

    /// Asks Nash for the page of a market's trades that the request names.
    pub fn get_historic_trades_call(req: &GetHistoricTradesRequest) -> (r: Result<
        native::ListTradesRequest,
        OpenLimitsError,
    >)
        ensures
            match r {
                Ok(n) => {
                    &&& split_of(opt_paginator_view(req.paginator)) matches Ok(s)
                    &&& s.before == opt_text(n.before)
                    &&& s.limit == n.limit
                    &&& n.market == req.market_pair
                },
                Err(e) => split_of(opt_paginator_view(req.paginator)) == Err::<
                    SplitView,
                    ErrorView,
                >(e@),
            },
    {
        native::ListTradesRequest::try_from_request(req)
    }

    /// The trades in the answer to a request for a market's trades.
    pub fn get_historic_trades(answer: Answer<native::ListTradesResponse>) -> (r: Result<
        Vec<Trade>,
        OpenLimitsError,
    >)
        ensures
            list_outcome(r) == translated(
                answer,
                |t: native::ListTradesResponse| trades_of(t.trades@),
            ),
    {
        match Nash::unwrap_response(answer) {
            Ok(t) => trades_from_native(&t.trades),
            Err(e) => Err(e),
        }
    }

    /// The market pairs in the answer to a request for the markets.
    pub fn retrieve_pairs(answer: Answer<native::ListMarketsResponse>) -> (r: Result<
        Vec<MarketPair>,
        OpenLimitsError,
    >)
        ensures
            list_outcome(r) == translated(
                answer,
                |t: native::ListMarketsResponse| pairs_of(t.markets@),
            ),
    {
        match Nash::unwrap_response(answer) {
            Ok(t) => pairs_from_native(&t.markets),
            Err(e) => Err(e),
        }
    }

    /// The market pair that the cache holds under a symbol; the error of an
    /// unknown market pair where it holds none.
    pub fn get_pair(&self, name: &str) -> (r: Result<MarketPair, OpenLimitsError>)
        ensures
            match r {
                Ok(p) => self.exchange_info@.contains_key(name@) && self.exchange_info@[name@]
                    == p@,
                Err(e) => !self.exchange_info@.contains_key(name@) && e@
                    == ErrorView::SymbolNotFound,
            },
    {
        self.exchange_info.get_pair(name)
    }

    /// The error of a market buy.
    fn no_market_buy<T>() -> (r: Result<T, OpenLimitsError>)
        ensures
            r matches Err(e) && e@ == market_buy_error(),
    {
        Err(
            OpenLimitsError::unsupported(
                "Market buys are not supported by nash. A market buy can be simulated by placing a market sell in the inverse market. Market buy in btc_usdc should be translated to a market sell in usdc_btc.",
            ),
        )
    }

    /// The order in the answer to an order that was placed.
    fn placed(answer: Answer<native::PlaceOrderResponse>) -> (r: Result<Order, OpenLimitsError>)
        ensures
            outcome(r) == translated(
                answer,
                |t: native::PlaceOrderResponse| Ok::<OrderView, ErrorView>(placed_order_of(t)),
            ),
    {
        match Nash::unwrap_response(answer) {
            Ok(t) => Ok(Order::from_placed(&t)),
            Err(e) => Err(e),
        }
    }
}

impl ExchangeInstantiation for Nash {
    type Parameters = ();

    /// The adapter starts with a cache that no refresh has filled.
    open spec fn instantiates(parameters: (), made: Nash) -> bool {
        &&& made.exchange_info@ == Map::<Seq<char>, MarketPairView>::empty()
        &&& !made.exchange_info.is_ready()
    }

    /// An adapter whose cache no refresh has filled yet.
    fn new(parameters: ()) -> (made: Nash) {
        Nash { exchange_info: ExchangeInfo::new() }
    }
}

impl ExchangeSpec for Nash {
    type OrderId = String;

    type TradeId = String;

    type Pagination = String;
}

impl Exchange for Nash {
    /// Ends a refresh of the cache of the markets. Where the pairs were
    /// retrieved, they replace what the cache held; otherwise the cache stays
    /// as it was, and the error is returned.
    fn refresh_market_info(&mut self, retrieved: Result<Vec<MarketPair>, OpenLimitsError>) -> (r:
        Result<(), OpenLimitsError>)
        ensures
            match retrieved {
                Ok(pairs) => {
                    &&& final(self).exchange_info@ == snapshot_of(views(pairs@))
                    &&& final(self).exchange_info.is_ready()
                    &&& r is Ok
                },
                Err(e) => {
                    &&& final(self).exchange_info@ == old(self).exchange_info@
                    &&& final(self).exchange_info.is_ready() == old(self).exchange_info.is_ready()
                    &&& r == Err::<(), OpenLimitsError>(e)
                },
            },
    {
        match self.exchange_info.refresh(retrieved) {
            Ok(_) => Ok(()),
            Err(e) => Err(e),
        }
    }
}

impl ExchangeMarketData for Nash {
    type OrderBookCall = native::OrderbookRequest;

    type OrderBookAnswer = Answer<native::OrderbookResponse>;

    type TickerCall = native::TickerRequest;

    type TickerAnswer = Answer<native::TickerResponse>;

    type TradeHistoryCall = native::ListAccountTradesRequest;

    type TradeHistoryAnswer = Answer<native::ListAccountTradesResponse>;

    type HistoricRatesCall = native::ListCandlesRequest;

    type HistoricRatesAnswer = Answer<native::ListCandlesResponse>;

    /// Asks Nash for the order book of the request's market.
    fn order_book_call(&self, req: &OrderBookRequest) -> (r: Result<
        native::OrderbookRequest,
        OpenLimitsError,
    >)
        ensures
            r matches Ok(n) && n.market == req.market_pair,
    {
        Ok(native::OrderbookRequest::from_request(req))
    }

    /// The order book in the answer to a request for an order book.
    fn order_book(&self, answer: Answer<native::OrderbookResponse>) -> (r: Result<
        OrderBookResponse,
        OpenLimitsError,
    >)
        ensures
            outcome(r) == translated(answer, |t: native::OrderbookResponse| order_book_of(t)),
    {
        match Nash::unwrap_response(answer) {
            Ok(t) => OrderBookResponse::from_native(&t),
            Err(e) => Err(e),
        }
    }

    /// Asks Nash for the ticker of the request's market.
    fn get_price_ticker_call(&self, req: &GetPriceTickerRequest) -> (r: Result<
        native::TickerRequest,
        OpenLimitsError,
    >)
        ensures
            r matches Ok(n) && n.market == req.market_pair,
    {
        Ok(native::TickerRequest::from_request(req))
    }

    /// The ticker in the answer to a request for a ticker.
    fn get_price_ticker(&self, answer: Answer<native::TickerResponse>) -> (r: Result<
        Ticker,
        OpenLimitsError,
    >)
        ensures
            outcome(r) == translated(answer, |t: native::TickerResponse| ticker_of(t)),
    {
        match Nash::unwrap_response(answer) {
            Ok(t) => Ticker::from_native(&t),
            Err(e) => Err(e),
        }
    }

    /// Asks Nash for the page of the account's trades that the request
    /// names.
    fn get_trade_history_call(&self, req: &TradeHistoryRequest) -> (r: Result<
        native::ListAccountTradesRequest,
        OpenLimitsError,
    >)
        ensures
            match r {
                Ok(n) => {
                    &&& split_of(opt_paginator_view(req.paginator)) == Ok::<SplitView, ErrorView>(
                        SplitView { before: opt_text(n.before), limit: n.limit, range: n.range },
                    )
                    &&& n.market == req.market_pair
                },
                Err(e) => split_of(opt_paginator_view(req.paginator)) == Err::<
                    SplitView,
                    ErrorView,
                >(e@),
            },
    {
        native::ListAccountTradesRequest::try_from_request(req)
    }

    /// The trades in the answer to a request for the account's trades.
    fn get_trade_history(&self, answer: Answer<native::ListAccountTradesResponse>) -> (r: Result<
        Vec<Trade>,
        OpenLimitsError,
    >)
        ensures
            list_outcome(r) == translated(
                answer,
                |t: native::ListAccountTradesResponse| trades_of(t.trades@),
            ),
    {
        match Nash::unwrap_response(answer) {
            Ok(t) => trades_from_native(&t.trades),
            Err(e) => Err(e),
        }
    }

    /// Asks Nash for the page of a market's candles that the request names.
    fn get_historic_rates_call(&self, req: &GetHistoricRatesRequest) -> (r: Result<
        native::ListCandlesRequest,
        OpenLimitsError,
    >)
        ensures
            match r {
                Ok(n) => {
                    &&& split_of(opt_paginator_view(req.paginator)) == Ok::<SplitView, ErrorView>(
                        SplitView { before: opt_text(n.before), limit: n.limit, range: n.range },
                    )
                    &&& n.market == req.market_pair
                    &&& n.chronological is None
                    &&& n.interval is Some
                    &&& n.interval == native_interval(req.interval)
                },
                Err(e) => match split_of(opt_paginator_view(req.paginator)) {
                    Err(s) => e@ == s,
                    Ok(_) => native_interval(req.interval) is None && e@ == interval_error(),
                },
            },
    {
        native::ListCandlesRequest::try_from_request(req)
    }

    /// The candles in the answer to a request for candles.
    fn get_historic_rates(&self, answer: Answer<native::ListCandlesResponse>) -> (r: Result<
        Vec<Candle>,
        OpenLimitsError,
    >)
        ensures
            list_outcome(r) == translated(
                answer,
                |t: native::ListCandlesResponse| candles_of(t.candles@),
            ),
    {
        match Nash::unwrap_response(answer) {
            Ok(t) => candles_from_native(&t.candles),
            Err(e) => Err(e),
        }
    }
}

impl ExchangeAccount for Nash {
    type LimitOrderCall = native::LimitOrderRequest;

    type MarketOrderCall = native::MarketOrderRequest;

    type PlacedAnswer = Answer<native::PlaceOrderResponse>;

    type CancelCall = native::CancelOrderRequest;

    type CancelAnswer = Answer<native::CancelOrderResponse>;

    type CancelAllCall = native::CancelAllOrders;

    type CancelAllAnswer = Answer<native::CancelAllOrdersResponse>;

    type OrdersCall = native::ListAccountOrdersRequest;

    type OrdersAnswer = Answer<native::ListAccountOrdersResponse>;

    type BalancesCall = native::ListAccountBalancesRequest;

    type BalancesAnswer = Answer<native::ListAccountBalancesResponse>;

    type OrderCall = native::GetAccountOrderRequest;

    type OrderAnswer = Answer<native::GetAccountOrderResponse>;

    /// Asks Nash to place a limit order that buys, now.
    fn limit_buy_call(&self, req: &OpenLimitOrderRequest) -> (r: Result<
        native::LimitOrderRequest,
        OpenLimitsError,
    >)
        ensures
            !(req.time_in_force is GoodTillTime) ==> r is Ok,
            r matches Ok(n) ==> n.buy_or_sell == native::BuyOrSell::Buy && placing(*req, n),
            r matches Err(e) ==> e@ == expiry_error(),
    {
        Nash::convert_limit_order(req, native::BuyOrSell::Buy)
    }

    /// The order in the answer to a limit buy.
    fn limit_buy(&self, answer: Answer<native::PlaceOrderResponse>) -> (r: Result<
        Order,
        OpenLimitsError,
    >)
        ensures
            outcome(r) == translated(
                answer,
                |t: native::PlaceOrderResponse| Ok::<OrderView, ErrorView>(placed_order_of(t)),
            ),
    {
        Nash::placed(answer)
    }

    /// Asks Nash to place a limit order that sells, now.
    fn limit_sell_call(&self, req: &OpenLimitOrderRequest) -> (r: Result<
        native::LimitOrderRequest,
        OpenLimitsError,
    >)
        ensures
            !(req.time_in_force is GoodTillTime) ==> r is Ok,
            r matches Ok(n) ==> n.buy_or_sell == native::BuyOrSell::Sell && placing(*req, n),
            r matches Err(e) ==> e@ == expiry_error(),
    {
        Nash::convert_limit_order(req, native::BuyOrSell::Sell)
    }

    /// The order in the answer to a limit sell.
    fn limit_sell(&self, answer: Answer<native::PlaceOrderResponse>) -> (r: Result<
        Order,
        OpenLimitsError,
    >)
        ensures
            outcome(r) == translated(
                answer,
                |t: native::PlaceOrderResponse| Ok::<OrderView, ErrorView>(placed_order_of(t)),
            ),
    {
        Nash::placed(answer)
    }

    /// Nash offers no market buy: the operation fails before anything is
    /// sent, whatever the request. It is not replaced by a market sell in
    /// the inverse market; a caller who wants that places the sell.
    fn market_buy_call(&self, req: &OpenMarketOrderRequest) -> (r: Result<
        native::MarketOrderRequest,
        OpenLimitsError,
    >)
        ensures
            r matches Err(e) && e@ == market_buy_error(),
    {
        Nash::no_market_buy()
    }

    /// Nash offers no market buy: whatever came back, the operation fails.
    fn market_buy(&self, answer: Answer<native::PlaceOrderResponse>) -> (r: Result<
        Order,
        OpenLimitsError,
    >)
        ensures
            r matches Err(e) && e@ == market_buy_error(),
    {
        Nash::no_market_buy()
    }

    /// Asks Nash to place a market order that sells the request's size.
    fn market_sell_call(&self, req: &OpenMarketOrderRequest) -> (r: Result<
        native::MarketOrderRequest,
        OpenLimitsError,
    >)
        ensures
            r matches Ok(n) && n.client_order_id is None && n.market == req.market_pair
                && n.amount@ == text_of(req.size@),
    {
        Ok(Nash::convert_market_request(req))
    }

    /// The order in the answer to a market sell.
    fn market_sell(&self, answer: Answer<native::PlaceOrderResponse>) -> (r: Result<
        Order,
        OpenLimitsError,
    >)
        ensures
            outcome(r) == translated(
                answer,
                |t: native::PlaceOrderResponse| Ok::<OrderView, ErrorView>(placed_order_of(t)),
            ),
    {
        Nash::placed(answer)
    }

    /// Asks Nash to cancel the order that the request names; it fails where
    /// the request names no market.
    fn cancel_order_call(&self, req: &CancelOrderRequest) -> (r: Result<
        native::CancelOrderRequest,
        OpenLimitsError,
    >)
        ensures
            match r {
                Ok(n) => req.market_pair == Some(n.market) && n.order_id == req.id,
                Err(e) => req.market_pair is None && e@ == cancel_market_error(),
            },
    {
        native::CancelOrderRequest::try_from_request(req)
    }

    /// The order that the answer to a cancellation names.
    fn cancel_order(&self, answer: Answer<native::CancelOrderResponse>) -> (r: Result<
        OrderCanceled,
        OpenLimitsError,
    >)
        ensures
            match r {
                Ok(canceled) => unwrapped(answer) matches Ok(t) && canceled.id == t.order_id,
                Err(e) => unwrapped(answer) == Err::<native::CancelOrderResponse, ErrorView>(e@),
            },
    {
        match Nash::unwrap_response(answer) {
            Ok(t) => Ok(OrderCanceled { id: t.order_id }),
            Err(e) => Err(e),
        }
    }

    /// Asks Nash to cancel every order of the request's market; it fails
    /// where the request names no market.
    fn cancel_all_orders_call(&self, req: &CancelAllOrdersRequest) -> (r: Result<
        native::CancelAllOrders,
        OpenLimitsError,
    >)
        ensures
            match r {
                Ok(n) => req.market_pair == Some(n.market),
                Err(e) => req.market_pair is None && e@ == cancel_all_market_error(),
            },
    {
        native::CancelAllOrders::try_from_request(req)
    }

    /// What the answer to a cancellation of all orders tells: which orders
    /// were canceled it does not say, so none is listed; an error of the
    /// transport or of the exchange is handed on.
    fn cancel_all_orders(&self, answer: Answer<native::CancelAllOrdersResponse>) -> (r: Result<
        Vec<OrderCanceled>,
        OpenLimitsError,
    >)
        ensures
            match r {
                Ok(canceled) => unwrapped(answer) is Ok && canceled@.len() == 0,
                Err(e) => unwrapped(answer) == Err::<native::CancelAllOrdersResponse, ErrorView>(
                    e@,
                ),
            },
    {
        match Nash::unwrap_response(answer) {
            Ok(_) => Ok(Vec::new()),
            Err(e) => Err(e),
        }
    }

    /// Asks Nash for the open orders of the account, in every market.
    fn get_all_open_orders_call(&self) -> (r: Result<
        native::ListAccountOrdersRequest,
        OpenLimitsError,
    >)
        ensures
            r matches Ok(n) && {
                &&& n.market is None
                &&& n.before is None
                &&& n.buy_or_sell is None
                &&& n.limit == Some(OPEN_ORDERS_LIMIT)
                &&& n.status is Some
                &&& n.status->Some_0@ == seq![native::OrderStatus::Open]
                &&& n.order_type is None
                &&& n.range is None
            },
    {
        Ok(native::ListAccountOrdersRequest::open_orders())
    }

    /// The orders in the answer to a request for the account's open orders.
    fn get_all_open_orders(&self, answer: Answer<native::ListAccountOrdersResponse>) -> (r: Result<
        Vec<Order>,
        OpenLimitsError,
    >)
        ensures
            list_outcome(r) == translated(
                answer,
                |t: native::ListAccountOrdersResponse| orders_of(t.orders@),
            ),
    {
        match Nash::unwrap_response(answer) {
            Ok(t) => orders_from_native(&t.orders),
            Err(e) => Err(e),
        }
    }

    /// Asks Nash for the page of the account's orders that the request
    /// names.
    fn get_order_history_call(&self, req: &GetOrderHistoryRequest) -> (r: Result<
        native::ListAccountOrdersRequest,
        OpenLimitsError,
    >)
        ensures
            match r {
                Ok(n) => {
                    &&& split_of(opt_paginator_view(req.paginator)) == Ok::<SplitView, ErrorView>(
                        SplitView { before: opt_text(n.before), limit: n.limit, range: n.range },
                    )
                    &&& n.market == req.market_pair
                    &&& n.buy_or_sell is None
                    &&& n.order_type is None
                    &&& opt_statuses_of(req.order_status) == Ok::<
                        Option<Seq<native::OrderStatus>>,
                        ErrorView,
                    >(opt_items(n.status))
                },
                Err(e) => match split_of(opt_paginator_view(req.paginator)) {
                    Err(s) => e@ == s,
                    Ok(_) => opt_statuses_of(req.order_status) == Err::<
                        Option<Seq<native::OrderStatus>>,
                        ErrorView,
                    >(e@),
                },
            },
    {
        native::ListAccountOrdersRequest::try_from_request(req)
    }

    /// The orders in the answer to a request for the account's orders.
    fn get_order_history(&self, answer: Answer<native::ListAccountOrdersResponse>) -> (r: Result<
        Vec<Order>,
        OpenLimitsError,
    >)
        ensures
            list_outcome(r) == translated(
                answer,
                |t: native::ListAccountOrdersResponse| orders_of(t.orders@),
            ),
    {
        match Nash::unwrap_response(answer) {
            Ok(t) => orders_from_native(&t.orders),
            Err(e) => Err(e),
        }
    }

    /// Asks Nash for the balances of every asset. Nash lists them all at
    /// once: a paginator changes nothing.
    fn get_account_balances_call(&self, paginator: Option<&Paginator>) -> (r: Result<
        native::ListAccountBalancesRequest,
        OpenLimitsError,
    >)
        ensures
            r matches Ok(n) && n.filter is None,
    {
        Ok(native::ListAccountBalancesRequest::all())
    }

    /// The balances in the answer to a request for the account's balances.
    fn get_account_balances(&self, answer: Answer<native::ListAccountBalancesResponse>) -> (r:
        Result<Vec<Balance>, OpenLimitsError>)
        ensures
            list_outcome(r) == translated(
                answer,
                |t: native::ListAccountBalancesResponse| balances_of(t),
            ),
    {
        match Nash::unwrap_response(answer) {
            Ok(t) => balances_from_native(&t),
            Err(e) => Err(e),
        }
    }

    /// Asks Nash for the order that the request names.
    fn get_order_call(&self, req: &GetOrderRequest) -> (r: Result<
        native::GetAccountOrderRequest,
        OpenLimitsError,
    >)
        ensures
            r matches Ok(n) && n.order_id == req.id,
    {
        Ok(native::GetAccountOrderRequest::from_request(req))
    }

    /// The order in the answer to a request for one order.
    fn get_order(&self, answer: Answer<native::GetAccountOrderResponse>) -> (r: Result<
        Order,
        OpenLimitsError,
    >)
        ensures
            outcome(r) == translated(
                answer,
                |t: native::GetAccountOrderResponse| order_of(t.order),
            ),
    {
        match Nash::unwrap_response(answer) {
            Ok(t) => Order::from_native(&t.order),
            Err(e) => Err(e),
        }
    }
}

} // verus!
