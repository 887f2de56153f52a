//! The vocabularies of the model and of Nash, translated both ways. Every
//! value of the model has one value on Nash or none; every value of Nash has
//! one value in the model.
use crate::errors::{ErrorView, OpenLimitsError};
use crate::model::{Interval, Liquidity, OrderStatus, OrderType, Side, TimeInForce};
use crate::nash::native;
use vstd::prelude::*;

verus! {

/// The side that Nash's side stands for.
pub open spec fn side_of(side: native::BuyOrSell) -> Side {
    match side {
        native::BuyOrSell::Buy => Side::Buy,
        native::BuyOrSell::Sell => Side::Sell,
    }
}

/// Nash's side for a side.
pub open spec fn native_side(side: Side) -> native::BuyOrSell {
    match side {
        Side::Buy => native::BuyOrSell::Buy,
        Side::Sell => native::BuyOrSell::Sell,
    }
}

/// The order type that Nash's order type stands for.
pub open spec fn order_type_of(order_type: native::OrderType) -> OrderType {
    match order_type {
        native::OrderType::Limit => OrderType::Limit,
        native::OrderType::Market => OrderType::Market,
        native::OrderType::StopLimit => OrderType::StopLimit,
        native::OrderType::StopMarket => OrderType::StopMarket,
    }
}

/// Nash's order type for an order type, where Nash has one.
pub open spec fn native_order_type(order_type: OrderType) -> Option<native::OrderType> {
    match order_type {
        OrderType::Limit => Some(native::OrderType::Limit),
        OrderType::Market => Some(native::OrderType::Market),
        OrderType::StopLimit => Some(native::OrderType::StopLimit),
        OrderType::StopMarket => Some(native::OrderType::StopMarket),
        OrderType::Unknown => None,
    }
}

/// The status that Nash's status stands for.
pub open spec fn status_of(status: native::OrderStatus) -> OrderStatus {
    match status {
        native::OrderStatus::Filled => OrderStatus::Filled,
        native::OrderStatus::Open => OrderStatus::Open,
        native::OrderStatus::Canceled => OrderStatus::Canceled,
        native::OrderStatus::Pending => OrderStatus::Pending,
    }
}

/// Nash's status for a status, where Nash has one.
pub open spec fn native_status(status: OrderStatus) -> Option<native::OrderStatus> {
    match status {
        OrderStatus::Filled => Some(native::OrderStatus::Filled),
        OrderStatus::Open => Some(native::OrderStatus::Open),
        OrderStatus::Canceled => Some(native::OrderStatus::Canceled),
        OrderStatus::Pending => Some(native::OrderStatus::Pending),
        _ => None,
    }
}

/// The role of the account in a trade: taker where Nash says so, maker
/// otherwise.
pub open spec fn liquidity_of(side: native::AccountTradeSide) -> Liquidity {
    match side {
        native::AccountTradeSide::Taker => Liquidity::Taker,
        _ => Liquidity::Maker,
    }
}

/// Nash's candle length for an interval, where Nash offers it.
pub open spec fn native_interval(interval: Interval) -> Option<native::CandleInterval> {
    match interval {
        Interval::OneMinute => Some(native::CandleInterval::OneMinute),
        Interval::FiveMinutes => Some(native::CandleInterval::FiveMinute),
        Interval::FifteenMinutes => Some(native::CandleInterval::FifteenMinute),
        Interval::ThirtyMinutes => Some(native::CandleInterval::ThirtyMinute),
        Interval::OneHour => Some(native::CandleInterval::OneHour),
        Interval::SixHours => Some(native::CandleInterval::SixHour),
        Interval::TwelveHours => Some(native::CandleInterval::TwelveHour),
        Interval::OneDay => Some(native::CandleInterval::OneDay),
        _ => None,
    }
}

/// Nash's cancellation policy for a time in force, for an order placed at
/// the moment `now`. An order that is good for a time expires at `now` plus
/// that time; there is no policy where that moment is out of range.
pub open spec fn policy_at(tif: TimeInForce, now: int) -> Option<native::OrderCancellationPolicy> {
    match tif {
        TimeInForce::GoodTillCancelled => Some(native::OrderCancellationPolicy::GoodTilCancelled),
        TimeInForce::FillOrKill => Some(native::OrderCancellationPolicy::FillOrKill),
        TimeInForce::ImmediateOrCancelled => Some(
            native::OrderCancellationPolicy::ImmediateOrCancel,
        ),
        TimeInForce::GoodTillTime(duration) => if i64::MIN <= now + duration <= i64::MAX {
            Some(native::OrderCancellationPolicy::GoodTilTime((now + duration) as i64))
        } else {
            None
        },
    }
}

/// The error of a status that Nash does not have.
pub open spec fn status_error() -> ErrorView {
    ErrorView::InvalidParameter("Had invalid order status for Nash"@)
}

/// The error of an order type that Nash does not have.
pub open spec fn order_type_error() -> ErrorView {
    ErrorView::InvalidParameter("Had invalid order type for Nash"@)
}

/// The error of an interval that Nash does not offer.
pub open spec fn interval_error() -> ErrorView {
    ErrorView::MissingImplementation("Not supported interval"@)
}

/// The error of an expiry that is out of range.
pub open spec fn expiry_error() -> ErrorView {
    ErrorView::InvalidParameter("Order expiry is out of range"@)
}

impl Side {
    /// The side that Nash's side stands for.
    pub fn from_native(side: native::BuyOrSell) -> (r: Side)
        ensures
            r == side_of(side),
    {
        match side {
            native::BuyOrSell::Buy => Side::Buy,
            native::BuyOrSell::Sell => Side::Sell,
        }
    }

    /// Nash's side for this side.
    pub fn to_native(self) -> (r: native::BuyOrSell)
        ensures
            r == native_side(self),
    {
        match self {
            Side::Buy => native::BuyOrSell::Buy,
            Side::Sell => native::BuyOrSell::Sell,
        }
    }
}

impl OrderType {
    /// The order type that Nash's order type stands for.
    pub fn from_native(order_type: native::OrderType) -> (r: OrderType)
        ensures
            r == order_type_of(order_type),
    {
        match order_type {
            native::OrderType::Limit => OrderType::Limit,
            native::OrderType::Market => OrderType::Market,
            native::OrderType::StopLimit => OrderType::StopLimit,
            native::OrderType::StopMarket => OrderType::StopMarket,
        }
    }

    /// Nash's order type for this order type; an error for `Unknown`, which
    /// Nash does not have.
    pub fn try_to_native(self) -> (r: Result<native::OrderType, OpenLimitsError>)
        ensures
            match r {
                Ok(t) => native_order_type(self) == Some(t),
                Err(e) => native_order_type(self) is None && e@ == order_type_error(),
            },
    {
        match self {
            OrderType::Limit => Ok(native::OrderType::Limit),
            OrderType::Market => Ok(native::OrderType::Market),
            OrderType::StopLimit => Ok(native::OrderType::StopLimit),
            OrderType::StopMarket => Ok(native::OrderType::StopMarket),
            OrderType::Unknown => Err(
                OpenLimitsError::invalid_parameter("Had invalid order type for Nash"),
            ),
        }
    }
}

impl OrderStatus {
    /// The status that Nash's status stands for.
    pub fn from_native(status: native::OrderStatus) -> (r: OrderStatus)
        ensures
            r == status_of(status),
    {
        match status {
            native::OrderStatus::Filled => OrderStatus::Filled,
            native::OrderStatus::Open => OrderStatus::Open,
            native::OrderStatus::Canceled => OrderStatus::Canceled,
            native::OrderStatus::Pending => OrderStatus::Pending,
        }
    }

    /// Nash's status for this status; an error for a status that Nash does
    /// not have.
    pub fn try_to_native(self) -> (r: Result<native::OrderStatus, OpenLimitsError>)
        ensures
            match r {
                Ok(s) => native_status(self) == Some(s),
                Err(e) => native_status(self) is None && e@ == status_error(),
            },
    {
        match self {
            OrderStatus::Filled => Ok(native::OrderStatus::Filled),
            OrderStatus::Open => Ok(native::OrderStatus::Open),
            OrderStatus::Canceled => Ok(native::OrderStatus::Canceled),
            OrderStatus::Pending => Ok(native::OrderStatus::Pending),
            _ => Err(OpenLimitsError::invalid_parameter("Had invalid order status for Nash")),
        }
    }
}

impl Liquidity {
    /// The role of the account in a trade, as Nash reports it.
    pub fn from_native(side: native::AccountTradeSide) -> (r: Liquidity)
        ensures
            r == liquidity_of(side),
    {
        match side {
            native::AccountTradeSide::Taker => Liquidity::Taker,
            _ => Liquidity::Maker,
        }
    }
}

impl Interval {
    /// Nash's candle length for this interval; an error for an interval that
    /// Nash does not offer.
    pub fn try_to_native(self) -> (r: Result<native::CandleInterval, OpenLimitsError>)
        ensures
            match r {
                Ok(i) => native_interval(self) == Some(i),
                Err(e) => native_interval(self) is None && e@ == interval_error(),
            },
    {
        match self {
            Interval::OneMinute => Ok(native::CandleInterval::OneMinute),
            Interval::FiveMinutes => Ok(native::CandleInterval::FiveMinute),
            Interval::FifteenMinutes => Ok(native::CandleInterval::FifteenMinute),
            Interval::ThirtyMinutes => Ok(native::CandleInterval::ThirtyMinute),
            Interval::OneHour => Ok(native::CandleInterval::OneHour),
            Interval::SixHours => Ok(native::CandleInterval::SixHour),
            Interval::TwelveHours => Ok(native::CandleInterval::TwelveHour),
            Interval::OneDay => Ok(native::CandleInterval::OneDay),
            _ => Err(OpenLimitsError::unsupported("Not supported interval")),
        }
    }
}

impl TimeInForce {
    /// Nash's cancellation policy for an order with this time in force that
    /// is placed at the moment `now`, in milliseconds since the epoch; an
    /// error where the order would expire at a moment that is out of range.
    pub fn to_native_at(self, now: i64) -> (r: Result<
        native::OrderCancellationPolicy,
        OpenLimitsError,
    >)
        ensures
            match r {
                Ok(p) => policy_at(self, now as int) == Some(p),
                Err(e) => policy_at(self, now as int) is None && e@ == expiry_error(),
            },
    {
        match self {
            TimeInForce::GoodTillCancelled => Ok(native::OrderCancellationPolicy::GoodTilCancelled),
            TimeInForce::FillOrKill => Ok(native::OrderCancellationPolicy::FillOrKill),
            TimeInForce::ImmediateOrCancelled => Ok(
                native::OrderCancellationPolicy::ImmediateOrCancel,
            ),
            TimeInForce::GoodTillTime(duration) => match now.checked_add(duration) {
                Some(expiry) => Ok(native::OrderCancellationPolicy::GoodTilTime(expiry)),
                None => Err(OpenLimitsError::invalid_parameter("Order expiry is out of range")),
            },
        }
    }
}

/// Every side returns from Nash as it went.
pub proof fn lemma_side_round_trip(side: Side)
    ensures
        side_of(native_side(side)) == side,
{
}

/// Every side of Nash returns from the model as it went.
pub proof fn lemma_native_side_round_trip(side: native::BuyOrSell)
    ensures
        native_side(side_of(side)) == side,
{
}

/// Every order type that Nash has returns from Nash as it went.
pub proof fn lemma_order_type_round_trip(order_type: OrderType)
    requires
        native_order_type(order_type) is Some,
    ensures
        order_type_of(native_order_type(order_type)->Some_0) == order_type,
{
}

/// Every order type of Nash has one in the model, and returns as it went.
pub proof fn lemma_native_order_type_round_trip(order_type: native::OrderType)
    ensures
        native_order_type(order_type_of(order_type)) == Some(order_type),
{
}

/// Every status that Nash has returns from Nash as it went.
pub proof fn lemma_status_round_trip(status: OrderStatus)
    requires
        native_status(status) is Some,
    ensures
        status_of(native_status(status)->Some_0) == status,
{
}

/// Every status of Nash has one in the model, and returns as it went.
pub proof fn lemma_native_status_round_trip(status: native::OrderStatus)
    ensures
        native_status(status_of(status)) == Some(status),
{
}

/// Two intervals that Nash offers have different candle lengths on Nash.
pub proof fn lemma_interval_injective(a: Interval, b: Interval)
    requires
        native_interval(a) is Some,
        native_interval(a) == native_interval(b),
    ensures
        a == b,
{
}

} // verus!
