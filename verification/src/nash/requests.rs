//! The requests of the model, translated to the requests that Nash takes.
//! Every translation happens before anything is sent: a request that Nash
//! cannot take fails here.
use crate::decimal::text_of;
use crate::errors::{ErrorView, OpenLimitsError};
use crate::model::{
    CancelAllOrdersRequest, CancelOrderRequest, GetHistoricRatesRequest,
    GetHistoricTradesRequest, GetOrderHistoryRequest, GetOrderRequest, GetPriceTickerRequest,
    OpenLimitOrderRequest, OpenMarketOrderRequest, OrderBookRequest, OrderStatus, OrderType,
    Paginator, TradeHistoryRequest,
};
use crate::nash::enums::{
    expiry_error, interval_error, native_interval, native_order_type, native_status,
    order_type_error, policy_at, status_error,
};
use crate::nash::native;
use crate::nash::utils::{SplitView, opt_paginator_view, split_of, try_split_paginator};
use crate::sequence::{lemma_try_map_fails, lemma_try_map_step, try_map};
use crate::shared::{clone_opt_text, opt_text};
use vstd::prelude::*;

verus! {

/// The error of a cancellation that names no market.
pub open spec fn cancel_market_error() -> ErrorView {
    ErrorView::MissingParameter("Couldn't get market_pair."@)
}

/// The error of a cancellation of all orders that names no market.
pub open spec fn cancel_all_market_error() -> ErrorView {
    ErrorView::MissingParameter("Market pair is a required param for Nash"@)
}

/// How many open orders are asked for at once.
pub const OPEN_ORDERS_LIMIT: i64 = 100i64;

/// The translation of a status to Nash, as a function.
pub open spec fn status_translation() -> spec_fn(OrderStatus) -> Result<
    native::OrderStatus,
    ErrorView,
> {
    |s: OrderStatus|
        match native_status(s) {
            Some(n) => Ok(n),
            None => Err(status_error()),
        }
}

/// The translation of an order type to Nash, as a function.
pub open spec fn order_type_translation() -> spec_fn(OrderType) -> Result<
    native::OrderType,
    ErrorView,
> {
    |t: OrderType|
        match native_order_type(t) {
            Some(n) => Ok(n),
            None => Err(order_type_error()),
        }
}

/// Nash's statuses for a list of statuses, in order; the error of the first
/// that Nash does not have.
pub open spec fn statuses_of(statuses: Seq<OrderStatus>) -> Result<
    Seq<native::OrderStatus>,
    ErrorView,
> {
    try_map(statuses, status_translation())
}

/// Nash's order types for a list of order types, in order; the error of the
/// first that Nash does not have.
pub open spec fn order_types_of(order_types: Seq<OrderType>) -> Result<
    Seq<native::OrderType>,
    ErrorView,
> {
    try_map(order_types, order_type_translation())
}

/// Nash's statuses for an optional list of statuses.
pub open spec fn opt_statuses_of(statuses: Option<Vec<OrderStatus>>) -> Result<
    Option<Seq<native::OrderStatus>>,
    ErrorView,
> {
    match statuses {
        None => Ok(None),
        Some(v) => match statuses_of(v@) {
            Ok(s) => Ok(Some(s)),
            Err(e) => Err(e),
        },
    }
}

/// Nash's order types for an optional list of order types.
pub open spec fn opt_order_types_of(order_types: Option<Vec<OrderType>>) -> Result<
    Option<Seq<native::OrderType>>,
    ErrorView,
> {
    match order_types {
        None => Ok(None),
        Some(v) => match order_types_of(v@) {
            Ok(s) => Ok(Some(s)),
            Err(e) => Err(e),
        },
    }
}

/// The items of an optional list.
pub open spec fn opt_items<T>(v: Option<Vec<T>>) -> Option<Seq<T>> {
    match v {
        Some(v) => Some(v@),
        None => None,
    }
}

impl Paginator {
    /// A copy of the paginator.
    pub fn duplicate(&self) -> (r: Paginator)
        ensures
            r == *self,
    {
        Paginator {
            start_time: self.start_time,
            end_time: self.end_time,
            limit: self.limit,
            before: clone_opt_text(&self.before),
            after: clone_opt_text(&self.after),
        }
    }
}

/// A copy of an optional paginator.
pub fn duplicate_paginator(p: &Option<Paginator>) -> (r: Option<Paginator>)
    ensures
        r == *p,
{
    match p {
        Some(p) => Some(p.duplicate()),
        None => None,
    }
}

/// Nash's statuses for a list of statuses, in order; the error of the first
/// that Nash does not have.
pub fn statuses_to_native(statuses: &Vec<OrderStatus>) -> (r: Result<
    Vec<native::OrderStatus>,
    OpenLimitsError,
>)
    ensures
        match r {
            Ok(v) => statuses_of(statuses@) == Ok::<Seq<native::OrderStatus>, ErrorView>(v@),
            Err(e) => statuses_of(statuses@) == Err::<Seq<native::OrderStatus>, ErrorView>(e@),
        },
{
    let ghost f = status_translation();
    let ghost s = statuses@;
    let mut out: Vec<native::OrderStatus> = Vec::new();
    let mut i: usize = 0;
    assert(s.take(0) =~= Seq::<OrderStatus>::empty());
    while i < statuses.len()
        invariant
            i <= s.len(),
            s == statuses@,
            f == status_translation(),
            try_map(s.take(i as int), f) == Ok::<Seq<native::OrderStatus>, ErrorView>(out@),
        decreases s.len() - i,
    {
        proof {
            lemma_try_map_step(s, f, i as int);
        }
        match statuses[i].try_to_native() {
            Ok(n) => {
                out.push(n);
            },
            Err(e) => {
                proof {
                    lemma_try_map_fails(s, f, i as int + 1);
                }
                return Err(e);
            },
        }
        i += 1;
    }
    assert(s.take(i as int) =~= s);
    Ok(out)
}

/// Nash's order types for a list of order types, in order; the error of the
/// first that Nash does not have.
pub fn order_types_to_native(order_types: &Vec<OrderType>) -> (r: Result<
    Vec<native::OrderType>,
    OpenLimitsError,
>)
    ensures
        match r {
            Ok(v) => order_types_of(order_types@) == Ok::<Seq<native::OrderType>, ErrorView>(v@),
            Err(e) => order_types_of(order_types@) == Err::<Seq<native::OrderType>, ErrorView>(
                e@,
            ),
        },
{
    let ghost f = order_type_translation();
    let ghost s = order_types@;
    let mut out: Vec<native::OrderType> = Vec::new();
    let mut i: usize = 0;
    assert(s.take(0) =~= Seq::<OrderType>::empty());
    while i < order_types.len()
        invariant
            i <= s.len(),
            s == order_types@,
            f == order_type_translation(),
            try_map(s.take(i as int), f) == Ok::<Seq<native::OrderType>, ErrorView>(out@),
        decreases s.len() - i,
    {
        proof {
            lemma_try_map_step(s, f, i as int);
        }
        match order_types[i].try_to_native() {
            Ok(n) => {
                out.push(n);
            },
            Err(e) => {
                proof {
                    lemma_try_map_fails(s, f, i as int + 1);
                }
                return Err(e);
            },
        }
        i += 1;
    }
    assert(s.take(i as int) =~= s);
    Ok(out)
}

impl native::OrderbookRequest {
    /// Asks Nash for the order book of the request's market.
    pub fn from_request(req: &OrderBookRequest) -> (r: native::OrderbookRequest)
        ensures
            r.market == req.market_pair,
    {
        native::OrderbookRequest { market: req.market_pair.clone() }
    }
}

impl native::TickerRequest {
    /// Asks Nash for the ticker of the request's market.
    pub fn from_request(req: &GetPriceTickerRequest) -> (r: native::TickerRequest)
        ensures
            r.market == req.market_pair,
    {
        native::TickerRequest { market: req.market_pair.clone() }
    }
}

impl native::GetAccountOrderRequest {
    /// Asks Nash for the order that the request names.
    pub fn from_request(req: &GetOrderRequest) -> (r: native::GetAccountOrderRequest)
        ensures
            r.order_id == req.id,
    {
        native::GetAccountOrderRequest { order_id: req.id.clone() }
    }
}

impl native::CancelOrderRequest {
    /// Asks Nash to cancel the order that the request names. Nash requires
    /// the market: a request without one fails.
    pub fn try_from_request(req: &CancelOrderRequest) -> (r: Result<
        native::CancelOrderRequest,
        OpenLimitsError,
    >)
        ensures
            match r {
                Ok(n) => req.market_pair == Some(n.market) && n.order_id == req.id,
                Err(e) => req.market_pair is None && e@ == cancel_market_error(),
            },
    {
        match &req.market_pair {
            Some(market) => Ok(
                native::CancelOrderRequest { order_id: req.id.clone(), market: market.clone() },
            ),
            None => Err(OpenLimitsError::missing_parameter("Couldn't get market_pair.")),
        }
    }
}

impl native::CancelAllOrders {
    /// Asks Nash to cancel every order of the request's market. Nash
    /// requires the market: a request without one fails.
    pub fn try_from_request(req: &CancelAllOrdersRequest) -> (r: Result<
        native::CancelAllOrders,
        OpenLimitsError,
    >)
        ensures
            match r {
                Ok(n) => req.market_pair == Some(n.market),
                Err(e) => req.market_pair is None && e@ == cancel_all_market_error(),
            },
    {
        match &req.market_pair {
            Some(market) => Ok(native::CancelAllOrders { market: market.clone() }),
            None => Err(
                OpenLimitsError::missing_parameter("Market pair is a required param for Nash"),
            ),
        }
    }
}

impl native::ListAccountBalancesRequest {
    /// Asks Nash for the balances of every asset.
    pub fn all() -> (r: native::ListAccountBalancesRequest)
        ensures
            r.filter is None,
    {
        native::ListAccountBalancesRequest { filter: None }
    }
}

impl native::ListAccountTradesRequest {
    /// Asks Nash for the page of the account's trades that the request
    /// names; it fails where the paginator cannot be handed to Nash.
    pub fn try_from_request(req: &TradeHistoryRequest) -> (r: Result<
        native::ListAccountTradesRequest,
        OpenLimitsError,
    >)
        ensures
            match r {
                Ok(n) => {
                    &&& split_of(opt_paginator_view(req.paginator)) == Ok::<SplitView, ErrorView>(
                        SplitView { before: opt_text(n.before), limit: n.limit, range: n.range },
                    )
                    &&& n.market == req.market_pair
                },
                Err(e) => split_of(opt_paginator_view(req.paginator)) == Err::<
                    SplitView,
                    ErrorView,
                >(e@),
            },
    {
        let (before, limit, range) = match try_split_paginator(
            duplicate_paginator(&req.paginator),
        ) {
            Ok(s) => s,
            Err(e) => { return Err(e); },
        };
        Ok(
            native::ListAccountTradesRequest {
                market: clone_opt_text(&req.market_pair),
                before,
                limit,
                range,
            },
        )
    }
}

impl native::ListCandlesRequest {
    /// Asks Nash for the page of a market's candles that the request names;
    /// it fails where the paginator cannot be handed to Nash, and then where
    /// Nash does not offer the interval.
    pub fn try_from_request(req: &GetHistoricRatesRequest) -> (r: Result<
        native::ListCandlesRequest,
        OpenLimitsError,
    >)
        ensures
            match r {
                Ok(n) => {
                    &&& split_of(opt_paginator_view(req.paginator)) == Ok::<SplitView, ErrorView>(
                        SplitView { before: opt_text(n.before), limit: n.limit, range: n.range },
                    )
                    &&& n.market == req.market_pair
                    &&& n.chronological is None
                    &&& n.interval is Some
                    &&& n.interval == native_interval(req.interval)
                },
                Err(e) => match split_of(opt_paginator_view(req.paginator)) {
                    Err(s) => e@ == s,
                    Ok(_) => native_interval(req.interval) is None && e@ == interval_error(),
                },
            },
    {
        let (before, limit, range) = match try_split_paginator(
            duplicate_paginator(&req.paginator),
        ) {
            Ok(s) => s,
            Err(e) => { return Err(e); },
        };
        let interval = match req.interval.try_to_native() {
            Ok(i) => i,
            Err(e) => { return Err(e); },
        };
        Ok(
            native::ListCandlesRequest {
                market: req.market_pair.clone(),
                before,
                chronological: None,
                interval: Some(interval),
                limit,
                range,
            },
        )
    }
}

impl native::ListTradesRequest {
    /// Asks Nash for the page of a market's trades that the request names;
    /// it fails where the paginator cannot be handed to Nash. Nash takes no
    /// window of time here: the paginator's window is checked and left out.
    pub fn try_from_request(req: &GetHistoricTradesRequest) -> (r: Result<
        native::ListTradesRequest,
        OpenLimitsError,
    >)
        ensures
            match r {
                Ok(n) => {
                    &&& split_of(opt_paginator_view(req.paginator)) matches Ok(s)
                    &&& s.before == opt_text(n.before)
                    &&& s.limit == n.limit
                    &&& n.market == req.market_pair
                },
                Err(e) => split_of(opt_paginator_view(req.paginator)) == Err::<
                    SplitView,
                    ErrorView,
                >(e@),
            },
    {
        let (before, limit, _range) = match try_split_paginator(
            duplicate_paginator(&req.paginator),
        ) {
            Ok(s) => s,
            Err(e) => { return Err(e); },
        };
        Ok(native::ListTradesRequest { market: req.market_pair.clone(), limit, before })
    }
}

impl native::ListAccountOrdersRequest {
    /// Asks Nash for the page of the account's orders that the request
    /// names; it fails where the paginator cannot be handed to Nash, and then
    /// where the request names a status that Nash does not have.
    pub fn try_from_request(req: &GetOrderHistoryRequest) -> (r: Result<
        native::ListAccountOrdersRequest,
        OpenLimitsError,
    >)
        ensures
            match r {
                Ok(n) => {
                    &&& split_of(opt_paginator_view(req.paginator)) == Ok::<SplitView, ErrorView>(
                        SplitView { before: opt_text(n.before), limit: n.limit, range: n.range },
                    )
                    &&& n.market == req.market_pair
                    &&& n.buy_or_sell is None
                    &&& n.order_type is None
                    &&& opt_statuses_of(req.order_status) == Ok::<
                        Option<Seq<native::OrderStatus>>,
                        ErrorView,
                    >(opt_items(n.status))
                },
                Err(e) => match split_of(opt_paginator_view(req.paginator)) {
                    Err(s) => e@ == s,
                    Ok(_) => opt_statuses_of(req.order_status) == Err::<
                        Option<Seq<native::OrderStatus>>,
                        ErrorView,
                    >(e@),
                },
            },
    {
        let (before, limit, range) = match try_split_paginator(
            duplicate_paginator(&req.paginator),
        ) {
            Ok(s) => s,
            Err(e) => { return Err(e); },
        };
        let status = match &req.order_status {
            Some(v) => match statuses_to_native(v) {
                Ok(s) => Some(s),
                Err(e) => { return Err(e); },
            },
            None => None,
        };
        Ok(
            native::ListAccountOrdersRequest {
                market: clone_opt_text(&req.market_pair),
                before,
                buy_or_sell: None,
                limit,
                status,
                order_type: None,
                range,
            },
        )
    }

    /// Asks Nash for the open orders of the account, in every market: at
    /// most [`OPEN_ORDERS_LIMIT`] of them.
    pub fn open_orders() -> (r: native::ListAccountOrdersRequest)
        ensures
            r.market is None,
            r.before is None,
            r.buy_or_sell is None,
            r.limit == Some(OPEN_ORDERS_LIMIT),
            r.status is Some,
            r.status->Some_0@ == seq![native::OrderStatus::Open],
            r.order_type is None,
            r.range is None,
    {
        let mut status: Vec<native::OrderStatus> = Vec::new();
        status.push(native::OrderStatus::Open);
        assert(status@ =~= seq![native::OrderStatus::Open]);
        native::ListAccountOrdersRequest {
            market: None,
            before: None,
            buy_or_sell: None,
            limit: Some(OPEN_ORDERS_LIMIT),
            status: Some(status),
            order_type: None,
            range: None,
        }
    }
}

impl native::LimitOrderRequest {
    /// Asks Nash to place a limit order on the given side, at the moment
    /// `now` in milliseconds since the epoch. The amount and the price are
    /// handed over as the texts of the request's decimals; the order may take
    /// liquidity unless the request is post-only; Nash is given no client
    /// order id. It fails where the order would expire at a moment that is
    /// out of range.
    pub fn at(req: &OpenLimitOrderRequest, buy_or_sell: native::BuyOrSell, now: i64) -> (r: Result<
        native::LimitOrderRequest,
        OpenLimitsError,
    >)
        ensures
            match r {
                Ok(n) => {
                    &&& n.client_order_id is None
                    &&& policy_at(req.time_in_force, now as int) == Some(n.cancellation_policy)
                    &&& n.allow_taker == !req.post_only
                    &&& n.market == req.market_pair
                    &&& n.buy_or_sell == buy_or_sell
                    &&& n.amount@ == text_of(req.size@)
                    &&& n.price@ == text_of(req.price@)
                },
                Err(e) => policy_at(req.time_in_force, now as int) is None && e@
                    == expiry_error(),
            },
    {
        let cancellation_policy = match req.time_in_force.to_native_at(now) {
            Ok(p) => p,
            Err(e) => { return Err(e); },
        };
        Ok(
            native::LimitOrderRequest {
                client_order_id: None,
                market: req.market_pair.clone(),
                buy_or_sell,
                amount: req.size.to_text(),
                price: req.price.to_text(),
                cancellation_policy,
                allow_taker: !req.post_only,
            },
        )
    }
}

impl native::MarketOrderRequest {
    /// Asks Nash to place a market order that sells the request's size. The
    /// amount is handed over as the text of the request's decimal; Nash is
    /// given no client order id.
    pub fn from_request(req: &OpenMarketOrderRequest) -> (r: native::MarketOrderRequest)
        ensures
            r.client_order_id is None,
            r.market == req.market_pair,
            r.amount@ == text_of(req.size@),
    {
        native::MarketOrderRequest {
            client_order_id: None,
            market: req.market_pair.clone(),
            amount: req.size.to_text(),
        }
    }
}

} // verus!
