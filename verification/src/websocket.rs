//! Streams: what a caller subscribes to, and what it receives. A message is
//! either normalized, where the shared vocabulary holds all of it, or handed
//! on as the exchange sent it.
use crate::model::{
    OrderBookResponse, OrderBookView, OrderStatus, OrderType, Side, Trade, TradeView,
};
use crate::shared::views;
use vstd::prelude::*;

verus! {

/// A window of time, both ends in milliseconds since the epoch.
#[derive(Clone, Copy, Debug, PartialEq, Eq, Structural)]
pub struct TimeRange {
    pub start: u64,
    pub end: u64,
}

/// Which orders of the account a stream reports.
#[derive(Clone, Debug, PartialEq, Eq)]
pub struct AccountOrders {
    pub market: Option<String>,
    pub order_type: Option<Vec<OrderType>>,
    pub buy_or_sell: Option<Side>,
    pub range: Option<TimeRange>,
    pub status: Option<Vec<OrderStatus>>,
}

/// One logical stream, whatever the exchange's wire format.
#[derive(Clone, Debug, PartialEq, Eq)]
pub enum Subscription {
    Ticker(String),
    OrderBookUpdates(String),
    Trades(String),
    AccountTrades(String),
    AccountBalance(String),
    AccountOrders(AccountOrders),
    Heartbeat,
    Status,
}

/// A message in the shared vocabulary.
#[derive(Clone, Debug, PartialEq, Eq)]
pub enum OpenLimitsWebSocketMessage {
    Ping,
    OrderBook(OrderBookResponse),
    OrderBookDiff(OrderBookResponse),
    Trades(Vec<Trade>),
}

/// The mathematical content of an [`OpenLimitsWebSocketMessage`].
pub ghost enum MessageView {
    Ping,
    OrderBook(OrderBookView),
    OrderBookDiff(OrderBookView),
    Trades(Seq<TradeView>),
}

impl View for OpenLimitsWebSocketMessage {
    type V = MessageView;

    open spec fn view(&self) -> MessageView {
        match *self {
            OpenLimitsWebSocketMessage::Ping => MessageView::Ping,
            OpenLimitsWebSocketMessage::OrderBook(b) => MessageView::OrderBook(b@),
            OpenLimitsWebSocketMessage::OrderBookDiff(b) => MessageView::OrderBookDiff(b@),
            OpenLimitsWebSocketMessage::Trades(t) => MessageView::Trades(views(t@)),
        }
    }
}

/// A message of a stream: normalized, or as the exchange sent it.
#[derive(Clone, Debug, PartialEq, Eq)]
pub enum WebSocketResponse<T> {
    Generic(OpenLimitsWebSocketMessage),
    Raw(T),
}

} // verus!
