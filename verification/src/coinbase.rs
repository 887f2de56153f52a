//! Streams on Coinbase: the subscriptions of the model as the channels that
//! Coinbase offers.
use crate::errors::{ErrorView, OpenLimitsError};
use crate::websocket::Subscription;
use vstd::prelude::*;

verus! {

/// A channel of Coinbase.
#[derive(Clone, Debug, PartialEq, Eq)]
pub enum CoinbaseSubscription {
    Heartbeat(String),
    Status,
    Level2(String),
}

/// The error of a subscription that Coinbase does not offer.
pub open spec fn coinbase_subscription_error() -> ErrorView {
    ErrorView::MissingImplementation("Not supported Subscription"@)
}

impl CoinbaseSubscription {
    /// The channel of Coinbase for a subscription of the model: the level 2
    /// channel of the same market for order book updates. Every other
    /// subscription fails here, when it is made.
    pub fn try_from_subscription(subscription: Subscription) -> (r: Result<
        CoinbaseSubscription,
        OpenLimitsError,
    >)
        ensures
            r is Ok <==> subscription is OrderBookUpdates,
            match subscription {
                Subscription::OrderBookUpdates(symbol) => r matches Ok(
                    CoinbaseSubscription::Level2(s),
                ) && s == symbol,
                _ => r matches Err(e) && e@ == coinbase_subscription_error(),
            },
    {
        match subscription {
            Subscription::OrderBookUpdates(symbol) => Ok(CoinbaseSubscription::Level2(symbol)),
            _ => Err(OpenLimitsError::unsupported("Not supported Subscription")),
        }
    }
}

} // verus!
