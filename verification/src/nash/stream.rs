//! Streams on Nash: the subscriptions of the model as the subscriptions that
//! Nash takes, and what Nash pushes as messages of the model.
//!
//! Order books and trades map one to one onto the shared vocabulary and are
//! always normalized. Tickers and the messages of the account carry shapes of
//! Nash's own: they are handed on as they came.
use crate::errors::{ErrorView, OpenLimitsError};
use crate::model::{OrderBookResponse, Side};
use crate::nash::enums::native_side;
use crate::nash::market_data::order_book_of;
use crate::nash::native;
use crate::nash::requests::{
    opt_items, opt_order_types_of, opt_statuses_of, order_types_to_native, statuses_to_native,
};
use crate::nash::trades::{trades_from_native, trades_of};
use crate::shared::clone_opt_text;
use crate::websocket::{
    AccountOrders, MessageView, OpenLimitsWebSocketMessage, Subscription, TimeRange,
    WebSocketResponse,
};
use vstd::prelude::*;

verus! {

/// A message that Nash pushed.
#[derive(Clone, Debug, PartialEq, Eq)]
pub struct SubscriptionResponseWrapper<R>(pub native::SubscriptionResponse<R>);

/// The error of a subscription that Nash does not offer.
pub open spec fn subscription_error() -> ErrorView {
    ErrorView::MissingImplementation("Not supported Subscription"@)
}

/// Whether Nash offers a stream for a subscription.
pub open spec fn nash_offers(sub: Subscription) -> bool {
    sub is OrderBookUpdates || sub is Trades || sub is AccountOrders || sub is AccountTrades
        || sub is AccountBalance
}

/// Nash's window for a window of time.
pub open spec fn native_range(range: Option<TimeRange>) -> Option<native::DateTimeRange> {
    match range {
        Some(r) => Some(native::DateTimeRange { start: r.start, stop: r.end }),
        None => None,
    }
}

/// Nash's side for an optional side.
pub open spec fn opt_native_side(side: Option<Side>) -> Option<native::BuyOrSell> {
    match side {
        Some(s) => Some(native_side(s)),
        None => None,
    }
}

/// Whether `r` is what asking Nash for the orders that `filter` names gives:
/// the same market, window and side, and Nash's order types and statuses for
/// the filter's; or the error of the first order type, and then of the first
/// status, that Nash does not have.
pub open spec fn account_orders_outcome(
    filter: AccountOrders,
    r: Result<native::SubscribeAccountOrders, OpenLimitsError>,
) -> bool {
    match r {
        Ok(n) => {
            &&& n.market == filter.market
            &&& opt_order_types_of(filter.order_type) == Ok::<
                Option<Seq<native::OrderType>>,
                ErrorView,
            >(opt_items(n.order_type))
            &&& n.range == native_range(filter.range)
            &&& n.buy_or_sell == opt_native_side(filter.buy_or_sell)
            &&& opt_statuses_of(filter.status) == Ok::<
                Option<Seq<native::OrderStatus>>,
                ErrorView,
            >(opt_items(n.status))
        },
        Err(e) => match opt_order_types_of(filter.order_type) {
            Err(t) => e@ == t,
            Ok(_) => opt_statuses_of(filter.status) == Err::<
                Option<Seq<native::OrderStatus>>,
                ErrorView,
            >(e@),
        },
    }
}

impl native::SubscribeAccountOrders {
    /// Asks Nash for the stream of the account's orders that the filter
    /// names. It fails where the filter names an order type or a status that
    /// Nash does not have.
    pub fn try_from_filter(filter: &AccountOrders) -> (r: Result<
        native::SubscribeAccountOrders,
        OpenLimitsError,
    >)
        ensures
            account_orders_outcome(*filter, r),
    {
        let order_type = match &filter.order_type {
            Some(v) => match order_types_to_native(v) {
                Ok(t) => Some(t),
                Err(e) => { return Err(e); },
            },
            None => None,
        };
        let status = match &filter.status {
            Some(v) => match statuses_to_native(v) {
                Ok(s) => Some(s),
                Err(e) => { return Err(e); },
            },
            None => None,
        };
        let range = match filter.range {
            Some(r) => Some(native::DateTimeRange { start: r.start, stop: r.end }),
            None => None,
        };
        let buy_or_sell = match filter.buy_or_sell {
            Some(s) => Some(s.to_native()),
            None => None,
        };
        Ok(
            native::SubscribeAccountOrders {
                market: clone_opt_text(&filter.market),
                order_type,
                range,
                buy_or_sell,
                status,
            },
        )
    }
}

impl native::SubscriptionRequest {
    /// The subscription that Nash takes for a subscription of the model.
    ///
    /// Order book updates, trades, and the account's orders, trades and
    /// balance each have a stream of that kind on Nash, for the same market
    /// or asset. Every other subscription fails here, when it is made: none
    /// is ever answered with another stream.
    pub fn try_from_subscription(sub: Subscription) -> (r: Result<
        native::SubscriptionRequest,
        OpenLimitsError,
    >)
        ensures
            !nash_offers(sub) ==> r is Err,
            match sub {
                Subscription::OrderBookUpdates(m) => r matches Ok(
                    native::SubscriptionRequest::Orderbook { market },
                ) && market == m,
                Subscription::Trades(m) => r matches Ok(
                    native::SubscriptionRequest::Trades { market },
                ) && market == m,
                Subscription::AccountTrades(m) => r matches Ok(
                    native::SubscriptionRequest::AccountTrades { market_name },
                ) && market_name == m,
                Subscription::AccountBalance(s) => r matches Ok(
                    native::SubscriptionRequest::AccountBalances { symbol },
                ) && symbol == s,
                Subscription::AccountOrders(filter) => match r {
                    Ok(native::SubscriptionRequest::AccountOrders(n)) => account_orders_outcome(
                        filter,
                        Ok(n),
                    ),
                    Ok(_) => false,
                    Err(e) => account_orders_outcome(filter, Err(e)),
                },
                _ => r matches Err(e) && e@ == subscription_error(),
            },
    {
        match sub {
            Subscription::OrderBookUpdates(market) => Ok(
                native::SubscriptionRequest::Orderbook { market },
            ),
            Subscription::Trades(market) => Ok(native::SubscriptionRequest::Trades { market }),
            Subscription::AccountOrders(filter) => {
                match native::SubscribeAccountOrders::try_from_filter(&filter) {
                    Ok(n) => Ok(native::SubscriptionRequest::AccountOrders(n)),
                    Err(e) => Err(e),
                }
            },
            Subscription::AccountTrades(market_name) => Ok(
                native::SubscriptionRequest::AccountTrades { market_name },
            ),
            Subscription::AccountBalance(symbol) => Ok(
                native::SubscriptionRequest::AccountBalances { symbol },
            ),
            _ => Err(OpenLimitsError::unsupported("Not supported Subscription")),
        }
    }
}

impl<R> WebSocketResponse<SubscriptionResponseWrapper<R>> {
    /// The message of the model for a message that Nash pushed.
    ///
    /// An order book and a list of trades are normalized; that fails where
    /// an amount in them cannot be read. A message of any other kind is
    /// handed on unchanged.
    pub fn try_from_native(value: SubscriptionResponseWrapper<R>) -> (r: Result<
        WebSocketResponse<SubscriptionResponseWrapper<R>>,
        OpenLimitsError,
    >)
        ensures
            match value.0 {
                native::SubscriptionResponse::Orderbook(book) => match order_book_of(book) {
                    Ok(v) => r matches Ok(WebSocketResponse::Generic(m)) && m@
                        == MessageView::OrderBook(v),
                    Err(e) => r matches Err(x) && x@ == e,
                },
                native::SubscriptionResponse::Trades(trades) => match trades_of(trades@) {
                    Ok(v) => r matches Ok(WebSocketResponse::Generic(m)) && m@
                        == MessageView::Trades(v),
                    Err(e) => r matches Err(x) && x@ == e,
                },
                _ => r == Ok::<WebSocketResponse<SubscriptionResponseWrapper<R>>, OpenLimitsError>(
                    WebSocketResponse::Raw(value),
                ),
            },
    {
        let normalized = match &value.0 {
            native::SubscriptionResponse::Orderbook(book) => match OrderBookResponse::from_native(
                book,
            ) {
                Ok(b) => Some(Ok(OpenLimitsWebSocketMessage::OrderBook(b))),
                Err(e) => Some(Err(e)),
            },
            native::SubscriptionResponse::Trades(trades) => match trades_from_native(trades) {
                Ok(t) => Some(Ok(OpenLimitsWebSocketMessage::Trades(t))),
                Err(e) => Some(Err(e)),
            },
            _ => None,
        };
        match normalized {
            Some(Ok(m)) => Ok(WebSocketResponse::Generic(m)),
            Some(Err(e)) => Err(e),
            None => Ok(WebSocketResponse::Raw(value)),
        }
    }
}

} // verus!
