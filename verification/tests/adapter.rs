use openlimits::decimal::Decimal;
use openlimits::errors::{ErrorKind, MissingImplementationContent, OpenLimitsError};
use openlimits::exchange::{ExchangeAccount, ExchangeMarketData};
use openlimits::model::{
    GetHistoricTradesRequest, GetOrderRequest, GetPriceTickerRequest, OpenLimitOrderRequest,
    OpenMarketOrderRequest, OrderBookRequest, OrderCanceled, OrderStatus, OrderType, Paginator,
    Side, TimeInForce,
};
use openlimits::nash::adapter::{Answer, Nash};
use openlimits::nash::native;
use openlimits::nash::native::ResponseOrError;

fn protocol(message: &str) -> OpenLimitsError {
    OpenLimitsError::NashProtocolError(message.to_string())
}

#[test]
fn unwrap_response_hands_the_response_on() {
    let resp: Answer<u32> = Ok(ResponseOrError::Response(7));
    assert_eq!(Nash::unwrap_response(resp), Ok(7));
}

#[test]
fn unwrap_response_hands_errors_on_verbatim() {
    let exchange: Answer<u32> = Ok(ResponseOrError::Error("insufficient funds".to_string()));
    assert_eq!(Nash::unwrap_response(exchange), Err(protocol("insufficient funds")));
    let transport: Answer<u32> = Err("connection reset".to_string());
    assert_eq!(Nash::unwrap_response(transport), Err(protocol("connection reset")));
}

#[test]
fn market_buy_is_unsupported() {
    let req = OpenMarketOrderRequest {
        client_order_id: None,
        market_pair: "btc_usdc".to_string(),
        size: Decimal::parse("1").unwrap(),
    };
    let nash = Nash::new();
    match nash.market_buy_call(&req) {
        Err(OpenLimitsError::MissingImplementation(MissingImplementationContent { message })) => {
            assert!(message.starts_with("Market buys are not supported by nash."));
        }
        other => panic!("unexpected result {:?}", other),
    }
    assert!(matches!(
        nash.market_buy(Err("down".to_string())),
        Err(OpenLimitsError::MissingImplementation(_))
    ));
    // A market sell is offered.
    assert_eq!(
        nash.market_sell_call(&req),
        Ok(native::MarketOrderRequest {
            client_order_id: None,
            market: "btc_usdc".to_string(),
            amount: "1".to_string(),
        })
    );
}

#[test]
fn placed_orders_are_translated() {
    let placed = native::PlaceOrderResponse {
        order_id: "o-1".to_string(),
        market_name: "eth_btc".to_string(),
        placed_at: 1_600_000_000_000,
        order_type: native::OrderType::Limit,
        buy_or_sell: native::BuyOrSell::Buy,
        status: native::OrderStatus::Pending,
    };
    let nash = Nash::new();
    let order = nash.limit_buy(Ok(ResponseOrError::Response(placed.clone()))).unwrap();
    assert_eq!(order.id, "o-1");
    assert_eq!(order.side, Side::Buy);
    assert_eq!(order.order_type, OrderType::Limit);
    assert_eq!(order.status, OrderStatus::Pending);
    assert_eq!(nash.limit_sell(Ok(ResponseOrError::Response(placed.clone()))), Ok(order.clone()));
    assert_eq!(nash.market_sell(Ok(ResponseOrError::Response(placed))), Ok(order));
    assert_eq!(nash.limit_buy(Err("down".to_string())), Err(protocol("down")));
    assert_eq!(
        nash.market_sell(Ok(ResponseOrError::Error("rejected".to_string()))),
        Err(protocol("rejected"))
    );
}

#[test]
fn cancellations_are_translated() {
    let nash = Nash::new();
    let resp = Ok(ResponseOrError::Response(native::CancelOrderResponse { order_id: "o-1".to_string() }));
    assert_eq!(nash.cancel_order(resp), Ok(OrderCanceled { id: "o-1".to_string() }));
    assert_eq!(nash.cancel_order(Err("down".to_string())), Err(protocol("down")));
    let all = Ok(ResponseOrError::Response(native::CancelAllOrdersResponse { accepted: true }));
    assert_eq!(nash.cancel_all_orders(all), Ok(vec![]));
    assert_eq!(
        nash.cancel_all_orders(Ok(ResponseOrError::Error("no".to_string()))),
        Err(protocol("no"))
    );
    assert_eq!(nash.cancel_all_orders(Err("down".to_string())), Err(protocol("down")));
}

#[test]
fn listings_are_translated() {
    let nash = Nash::new();
    let candle = native::Candle {
        a_volume: "1".to_string(),
        close_price: "2".to_string(),
        high_price: "3".to_string(),
        low_price: "1".to_string(),
        open_price: "2".to_string(),
        interval_start: 60_000,
    };
    let candles = nash.get_historic_rates(Ok(ResponseOrError::Response(
        native::ListCandlesResponse { candles: vec![candle], next_page: Some("next".to_string()) },
    )))
    .unwrap();
    assert_eq!(candles.len(), 1);
    assert_eq!(candles[0].time, 60_000);
    assert_eq!(candles[0].high, Decimal::parse("3").unwrap());
    assert_eq!(nash.get_historic_rates(Err("down".to_string())), Err(protocol("down")));

    let empty_trades = native::ListTradesResponse { trades: vec![], next_page: None };
    assert_eq!(Nash::get_historic_trades(Ok(ResponseOrError::Response(empty_trades))), Ok(vec![]));
    let account_trades = native::ListAccountTradesResponse { trades: vec![], next_page: None };
    assert_eq!(nash.get_trade_history(Ok(ResponseOrError::Response(account_trades))), Ok(vec![]));
    let orders = native::ListAccountOrdersResponse { orders: vec![], next_page: None };
    assert_eq!(nash.get_all_open_orders(Ok(ResponseOrError::Response(orders.clone()))), Ok(vec![]));
    assert_eq!(nash.get_order_history(Ok(ResponseOrError::Response(orders))), Ok(vec![]));
    assert_eq!(
        nash.get_order_history(Ok(ResponseOrError::Error("denied".to_string()))),
        Err(protocol("denied"))
    );
}

#[test]
fn single_answers_are_translated() {
    let nash = Nash::new();
    let ticker = native::TickerResponse {
        best_ask_price: Some("10.02".to_string()),
        best_bid_price: Some("10.00".to_string()),
        high_price_24h: None,
        low_price_24h: None,
    };
    let t = nash.get_price_ticker(Ok(ResponseOrError::Response(ticker))).unwrap();
    assert_eq!(t.price.unwrap().to_text(), "10.01");
    assert_eq!(t.price_24h, None);

    let book = native::OrderbookResponse { last_update_id: 1, update_id: 2, asks: vec![], bids: vec![] };
    let b = nash.order_book(Ok(ResponseOrError::Response(book))).unwrap();
    assert_eq!((b.update_id, b.last_update_id), (Some(2), Some(1)));
    assert!(b.asks.is_empty() && b.bids.is_empty());

    let balances = native::ListAccountBalancesResponse {
        state_channel: vec![native::AssetAmount { asset: "eth".to_string(), amount: "1".to_string() }],
        in_orders: vec![native::AssetAmount { asset: "eth".to_string(), amount: "0.5".to_string() }],
    };
    let listed = nash.get_account_balances(Ok(ResponseOrError::Response(balances))).unwrap();
    assert_eq!(listed[0].total.to_text(), "1.5");
    assert_eq!(listed[0].free.to_text(), "1");

    let order = native::Order {
        id: "o-1".to_string(),
        amount_placed: "2".to_string(),
        amount_remaining: "2".to_string(),
        limit_price: None,
        placed_at: 5,
        buy_or_sell: native::BuyOrSell::Buy,
        market: "eth_btc".to_string(),
        order_type: native::OrderType::Market,
        status: native::OrderStatus::Filled,
        trades: vec![],
    };
    let o = nash.get_order(Ok(ResponseOrError::Response(native::GetAccountOrderResponse { order }))).unwrap();
    assert_eq!(o.status, OrderStatus::Filled);
    assert_eq!(nash.get_order(Err("down".to_string())), Err(protocol("down")));

    let markets = native::ListMarketsResponse { markets: vec![] };
    assert_eq!(Nash::retrieve_pairs(Ok(ResponseOrError::Response(markets))), Ok(vec![]));
}

#[test]
fn error_messages_are_readable() {
    assert_eq!(protocol("boom").message(), "boom");
    assert_eq!(OpenLimitsError::SymbolNotFound.message(), "unknown market pair");
    assert_eq!(OpenLimitsError::AssetNotFound.message(), "unknown asset");
    assert_eq!(OpenLimitsError::unsupported("nope").message(), "nope");
    assert_eq!(OpenLimitsError::invalid_parameter("bad").message(), "bad");
    assert_eq!(
        OpenLimitsError::missing_parameter("gone"),
        OpenLimitsError::MissingParameter("gone".to_string())
    );
    assert_eq!(OpenLimitsError::not_a_decimal().message(), "Couldn't parse Decimal from string.");
    assert_eq!(OpenLimitsError::overflow().message(), "Decimal arithmetic overflowed.");
}

#[test]
fn calls_are_translated() {
    let nash = Nash::new();
    assert_eq!(
        nash.order_book_call(&OrderBookRequest { market_pair: "eth_btc".to_string() }),
        Ok(native::OrderbookRequest { market: "eth_btc".to_string() })
    );
    assert_eq!(
        nash.get_price_ticker_call(&GetPriceTickerRequest { market_pair: "eth_btc".to_string() }),
        Ok(native::TickerRequest { market: "eth_btc".to_string() })
    );
    assert_eq!(
        nash.get_order_call(&GetOrderRequest { id: "o-1".to_string(), market_pair: None }),
        Ok(native::GetAccountOrderRequest { order_id: "o-1".to_string() })
    );
    assert_eq!(
        nash.get_account_balances_call(None),
        Ok(native::ListAccountBalancesRequest { filter: None })
    );
    assert_eq!(nash.get_all_open_orders_call().unwrap().limit, Some(100));
    assert_eq!(
        Nash::get_historic_trades_call(&GetHistoricTradesRequest {
            market_pair: "eth_btc".to_string(),
            paginator: None
        }),
        Ok(native::ListTradesRequest { market: "eth_btc".to_string(), limit: None, before: None })
    );
    let req = OpenLimitOrderRequest {
        client_order_id: None,
        market_pair: "eth_btc".to_string(),
        size: Decimal::parse("2").unwrap(),
        price: Decimal::parse("0.03").unwrap(),
        time_in_force: TimeInForce::ImmediateOrCancelled,
        post_only: false,
    };
    let buy = nash.limit_buy_call(&req).unwrap();
    assert_eq!(buy.buy_or_sell, native::BuyOrSell::Buy);
    assert_eq!(buy.cancellation_policy, native::OrderCancellationPolicy::ImmediateOrCancel);
    let sell = nash.limit_sell_call(&req).unwrap();
    assert_eq!(sell.buy_or_sell, native::BuyOrSell::Sell);
    assert_eq!((sell.amount.as_str(), sell.price.as_str()), ("2", "0.03"));
}

#[test]
fn errors_have_kinds() {
    assert_eq!(protocol("boom").kind(), ErrorKind::Transport);
    assert_eq!(OpenLimitsError::not_a_decimal().kind(), ErrorKind::Translation);
    assert_eq!(OpenLimitsError::overflow().kind(), ErrorKind::Translation);
    assert_eq!(OpenLimitsError::AssetNotFound.kind(), ErrorKind::Translation);
    assert_eq!(OpenLimitsError::unsupported("nope").kind(), ErrorKind::UnsupportedOperation);
    assert_eq!(OpenLimitsError::invalid_parameter("bad").kind(), ErrorKind::InvalidParameter);
    assert_eq!(OpenLimitsError::missing_parameter("gone").kind(), ErrorKind::InvalidParameter);
    assert_eq!(OpenLimitsError::SymbolNotFound.kind(), ErrorKind::InvalidParameter);
    let nash = Nash::new();
    let req = OpenMarketOrderRequest {
        client_order_id: None,
        market_pair: "btc_usdc".to_string(),
        size: Decimal::parse("1").unwrap(),
    };
    assert_eq!(nash.market_buy_call(&req).unwrap_err().kind(), ErrorKind::UnsupportedOperation);
}

#[test]
fn defaults_ask_for_nothing_in_particular() {
    assert_eq!(
        Paginator::default(),
        Paginator { start_time: None, end_time: None, limit: None, before: None, after: None }
    );
    assert_eq!(TimeInForce::default(), TimeInForce::GoodTillCancelled);
}
