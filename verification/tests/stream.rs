use openlimits::coinbase::CoinbaseSubscription;
use openlimits::decimal::Decimal;
use openlimits::errors::{MissingImplementationContent, OpenLimitsError};
use openlimits::model::{OrderStatus, OrderType, Side};
use openlimits::nash::native;
use openlimits::nash::stream::SubscriptionResponseWrapper;
use openlimits::websocket::{
    AccountOrders, OpenLimitsWebSocketMessage, Subscription, TimeRange, WebSocketResponse,
};

fn unsupported() -> OpenLimitsError {
    OpenLimitsError::MissingImplementation(MissingImplementationContent {
        message: "Not supported Subscription".to_string(),
    })
}

#[test]
fn nash_subscribes_to_market_streams() {
    assert_eq!(
        native::SubscriptionRequest::try_from_subscription(Subscription::OrderBookUpdates(
            "eth_btc".to_string()
        )),
        Ok(native::SubscriptionRequest::Orderbook { market: "eth_btc".to_string() })
    );
    assert_eq!(
        native::SubscriptionRequest::try_from_subscription(Subscription::Trades(
            "eth_btc".to_string()
        )),
        Ok(native::SubscriptionRequest::Trades { market: "eth_btc".to_string() })
    );
}

#[test]
fn nash_subscribes_to_account_streams() {
    assert_eq!(
        native::SubscriptionRequest::try_from_subscription(Subscription::AccountTrades(
            "eth_btc".to_string()
        )),
        Ok(native::SubscriptionRequest::AccountTrades { market_name: "eth_btc".to_string() })
    );
    assert_eq!(
        native::SubscriptionRequest::try_from_subscription(Subscription::AccountBalance(
            "eth".to_string()
        )),
        Ok(native::SubscriptionRequest::AccountBalances { symbol: "eth".to_string() })
    );
    let filter = AccountOrders {
        market: Some("eth_btc".to_string()),
        order_type: Some(vec![OrderType::Limit, OrderType::Market]),
        buy_or_sell: Some(Side::Sell),
        range: Some(TimeRange { start: 5, end: 9 }),
        status: Some(vec![OrderStatus::Open]),
    };
    assert_eq!(
        native::SubscriptionRequest::try_from_subscription(Subscription::AccountOrders(filter)),
        Ok(native::SubscriptionRequest::AccountOrders(native::SubscribeAccountOrders {
            market: Some("eth_btc".to_string()),
            order_type: Some(vec![native::OrderType::Limit, native::OrderType::Market]),
            range: Some(native::DateTimeRange { start: 5, stop: 9 }),
            buy_or_sell: Some(native::BuyOrSell::Sell),
            status: Some(vec![native::OrderStatus::Open]),
        }))
    );
}

#[test]
fn nash_account_orders_without_filter() {
    let filter = AccountOrders { market: None, order_type: None, buy_or_sell: None, range: None, status: None };
    assert_eq!(
        native::SubscribeAccountOrders::try_from_filter(&filter),
        Ok(native::SubscribeAccountOrders {
            market: None,
            order_type: None,
            range: None,
            buy_or_sell: None,
            status: None,
        })
    );
}

#[test]
fn nash_account_orders_with_foreign_values_fail() {
    let types = AccountOrders {
        market: None,
        order_type: Some(vec![OrderType::Unknown]),
        buy_or_sell: None,
        range: None,
        status: Some(vec![OrderStatus::New]),
    };
    assert_eq!(
        native::SubscribeAccountOrders::try_from_filter(&types),
        Err(OpenLimitsError::InvalidParameter("Had invalid order type for Nash".to_string()))
    );
    let statuses = AccountOrders { order_type: None, ..types };
    assert_eq!(
        native::SubscriptionRequest::try_from_subscription(Subscription::AccountOrders(statuses)),
        Err(OpenLimitsError::InvalidParameter("Had invalid order status for Nash".to_string()))
    );
}

#[test]
fn nash_rejects_unsupported_subscriptions() {
    for sub in [Subscription::Ticker("eth_btc".to_string()), Subscription::Heartbeat, Subscription::Status] {
        assert_eq!(native::SubscriptionRequest::try_from_subscription(sub), Err(unsupported()));
    }
}

#[test]
fn coinbase_subscribes_to_level2_only() {
    assert_eq!(
        CoinbaseSubscription::try_from_subscription(Subscription::OrderBookUpdates(
            "ETH-BTC".to_string()
        )),
        Ok(CoinbaseSubscription::Level2("ETH-BTC".to_string()))
    );
    for sub in [
        Subscription::Ticker("ETH-BTC".to_string()),
        Subscription::Trades("ETH-BTC".to_string()),
        Subscription::AccountTrades("ETH-BTC".to_string()),
        Subscription::AccountBalance("ETH".to_string()),
        Subscription::Heartbeat,
        Subscription::Status,
    ] {
        assert_eq!(CoinbaseSubscription::try_from_subscription(sub), Err(unsupported()));
    }
}

fn level(price: &str, amount: &str) -> native::OrderbookOrder {
    native::OrderbookOrder { price: price.to_string(), amount: amount.to_string() }
}

#[test]
fn pushed_order_book_is_normalized() {
    let pushed: SubscriptionResponseWrapper<String> =
        SubscriptionResponseWrapper(native::SubscriptionResponse::Orderbook(native::OrderbookResponse {
            last_update_id: 1,
            update_id: 2,
            asks: vec![level("2", "1")],
            bids: vec![level("1", "3")],
        }));
    match WebSocketResponse::try_from_native(pushed).unwrap() {
        WebSocketResponse::Generic(OpenLimitsWebSocketMessage::OrderBook(book)) => {
            assert_eq!(book.update_id, Some(2));
            assert_eq!(book.last_update_id, Some(1));
            assert_eq!(book.asks[0].price, Decimal::parse("2").unwrap());
            assert_eq!(book.bids[0].qty, Decimal::parse("3").unwrap());
        }
        other => panic!("unexpected message {:?}", other),
    }
}

#[test]
fn pushed_trades_are_normalized() {
    let trade = native::Trade {
        id: "t".to_string(),
        taker_order_id: "a".to_string(),
        maker_order_id: "b".to_string(),
        amount: "1".to_string(),
        executed_at: 3,
        account_side: native::AccountTradeSide::Uninvolved,
        taker_fee: "0".to_string(),
        market: "eth_btc".to_string(),
        direction: native::BuyOrSell::Buy,
        limit_price: "2".to_string(),
    };
    let pushed: SubscriptionResponseWrapper<String> =
        SubscriptionResponseWrapper(native::SubscriptionResponse::Trades(vec![trade.clone()]));
    match WebSocketResponse::try_from_native(pushed).unwrap() {
        WebSocketResponse::Generic(OpenLimitsWebSocketMessage::Trades(trades)) => {
            assert_eq!(trades.len(), 1);
            assert_eq!(trades[0].id, "t");
            assert_eq!(trades[0].side, Side::Buy);
        }
        other => panic!("unexpected message {:?}", other),
    }
    let mut bad = trade;
    bad.amount = "?".to_string();
    let broken: SubscriptionResponseWrapper<String> =
        SubscriptionResponseWrapper(native::SubscriptionResponse::Trades(vec![bad]));
    assert_eq!(
        WebSocketResponse::try_from_native(broken),
        Err(OpenLimitsError::NotParsableResponse("Couldn't parse Decimal from string.".to_string()))
    );
}

#[test]
fn pushed_account_messages_stay_raw() {
    for message in [
        native::SubscriptionResponse::Ticker("ticker payload".to_string()),
        native::SubscriptionResponse::AccountTrades("trades payload".to_string()),
        native::SubscriptionResponse::AccountOrders("orders payload".to_string()),
        native::SubscriptionResponse::AccountBalances("balances payload".to_string()),
    ] {
        let pushed = SubscriptionResponseWrapper(message.clone());
        assert_eq!(
            WebSocketResponse::try_from_native(pushed),
            Ok(WebSocketResponse::Raw(SubscriptionResponseWrapper(message)))
        );
    }
}
