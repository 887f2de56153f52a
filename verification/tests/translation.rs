use openlimits::decimal::Decimal;
use openlimits::errors::{MissingImplementationContent, OpenLimitsError};
use openlimits::model::{
    AskBid, Candle, Interval, Liquidity, Order, OrderBookResponse, OrderStatus, OrderType, Side,
    Ticker, TimeInForce, Trade,
};
use openlimits::nash::balances::{balance_from_native, balances_from_native, find_amount, synthesize_balance};
use openlimits::nash::market_data::{
    candles_from_native, levels_from_native, mid_from_parsed, mid_price_from_native,
};
use openlimits::nash::native;
use openlimits::nash::trades::{orders_from_native, trades_from_native};

fn dec(text: &str) -> Decimal {
    Decimal::parse(text).unwrap()
}

fn not_a_decimal() -> OpenLimitsError {
    OpenLimitsError::NotParsableResponse("Couldn't parse Decimal from string.".to_string())
}

fn native_trade(side: native::AccountTradeSide, direction: native::BuyOrSell) -> native::Trade {
    native::Trade {
        id: "t-1".to_string(),
        taker_order_id: "taker".to_string(),
        maker_order_id: "maker".to_string(),
        amount: "1.5".to_string(),
        executed_at: 1_600_000_000_123,
        account_side: side,
        taker_fee: "0.0025".to_string(),
        market: "eth_btc".to_string(),
        direction,
        limit_price: "0.031".to_string(),
    }
}

fn native_order() -> native::Order {
    native::Order {
        id: "o-1".to_string(),
        amount_placed: "2.0".to_string(),
        amount_remaining: "0.5".to_string(),
        limit_price: Some("0.03".to_string()),
        placed_at: 1_600_000_000_000,
        buy_or_sell: native::BuyOrSell::Sell,
        market: "eth_btc".to_string(),
        order_type: native::OrderType::Limit,
        status: native::OrderStatus::Open,
        trades: vec![native_trade(native::AccountTradeSide::Maker, native::BuyOrSell::Sell)],
    }
}

#[test]
fn sides_round_trip() {
    for side in [Side::Buy, Side::Sell] {
        assert_eq!(Side::from_native(side.to_native()), side);
    }
    for side in [native::BuyOrSell::Buy, native::BuyOrSell::Sell] {
        assert_eq!(Side::from_native(side).to_native(), side);
    }
    assert_eq!(Side::Buy.to_native(), native::BuyOrSell::Buy);
    assert_eq!(Side::Sell.to_native(), native::BuyOrSell::Sell);
}

#[test]
fn order_types_round_trip() {
    for t in [OrderType::Limit, OrderType::Market, OrderType::StopLimit, OrderType::StopMarket] {
        assert_eq!(OrderType::from_native(t.try_to_native().unwrap()), t);
    }
    for t in [
        native::OrderType::Limit,
        native::OrderType::Market,
        native::OrderType::StopLimit,
        native::OrderType::StopMarket,
    ] {
        assert_eq!(OrderType::from_native(t).try_to_native(), Ok(t));
    }
    assert_eq!(OrderType::StopLimit.try_to_native(), Ok(native::OrderType::StopLimit));
}

#[test]
fn unknown_order_type_is_rejected() {
    assert_eq!(
        OrderType::Unknown.try_to_native(),
        Err(OpenLimitsError::InvalidParameter("Had invalid order type for Nash".to_string()))
    );
}

#[test]
fn statuses_round_trip() {
    for s in [OrderStatus::Filled, OrderStatus::Open, OrderStatus::Canceled, OrderStatus::Pending] {
        assert_eq!(OrderStatus::from_native(s.try_to_native().unwrap()), s);
    }
    for s in [
        native::OrderStatus::Filled,
        native::OrderStatus::Open,
        native::OrderStatus::Canceled,
        native::OrderStatus::Pending,
    ] {
        assert_eq!(OrderStatus::from_native(s).try_to_native(), Ok(s));
    }
    assert_eq!(OrderStatus::Canceled.try_to_native(), Ok(native::OrderStatus::Canceled));
}

#[test]
fn statuses_that_nash_lacks_are_rejected() {
    for s in [
        OrderStatus::New,
        OrderStatus::PartiallyFilled,
        OrderStatus::PendingCancel,
        OrderStatus::Rejected,
        OrderStatus::Expired,
        OrderStatus::Active,
    ] {
        assert_eq!(
            s.try_to_native(),
            Err(OpenLimitsError::InvalidParameter("Had invalid order status for Nash".to_string()))
        );
    }
}

#[test]
fn liquidity_is_taker_only_for_taker() {
    assert_eq!(Liquidity::from_native(native::AccountTradeSide::Taker), Liquidity::Taker);
    assert_eq!(Liquidity::from_native(native::AccountTradeSide::Maker), Liquidity::Maker);
    assert_eq!(Liquidity::from_native(native::AccountTradeSide::Uninvolved), Liquidity::Maker);
}

#[test]
fn intervals_that_nash_offers() {
    assert_eq!(Interval::OneMinute.try_to_native(), Ok(native::CandleInterval::OneMinute));
    assert_eq!(Interval::FiveMinutes.try_to_native(), Ok(native::CandleInterval::FiveMinute));
    assert_eq!(Interval::FifteenMinutes.try_to_native(), Ok(native::CandleInterval::FifteenMinute));
    assert_eq!(Interval::ThirtyMinutes.try_to_native(), Ok(native::CandleInterval::ThirtyMinute));
    assert_eq!(Interval::OneHour.try_to_native(), Ok(native::CandleInterval::OneHour));
    assert_eq!(Interval::SixHours.try_to_native(), Ok(native::CandleInterval::SixHour));
    assert_eq!(Interval::TwelveHours.try_to_native(), Ok(native::CandleInterval::TwelveHour));
    assert_eq!(Interval::OneDay.try_to_native(), Ok(native::CandleInterval::OneDay));
}

#[test]
fn intervals_that_nash_lacks_are_unsupported() {
    for i in [
        Interval::ThreeMinutes,
        Interval::TwoHours,
        Interval::FourHours,
        Interval::EightHours,
        Interval::ThreeDays,
        Interval::OneWeek,
        Interval::OneMonth,
    ] {
        assert_eq!(
            i.try_to_native(),
            Err(OpenLimitsError::MissingImplementation(MissingImplementationContent {
                message: "Not supported interval".to_string()
            }))
        );
    }
}

#[test]
fn time_in_force_maps_to_policy() {
    assert_eq!(
        TimeInForce::GoodTillCancelled.to_native_at(5),
        Ok(native::OrderCancellationPolicy::GoodTilCancelled)
    );
    assert_eq!(
        TimeInForce::FillOrKill.to_native_at(5),
        Ok(native::OrderCancellationPolicy::FillOrKill)
    );
    assert_eq!(
        TimeInForce::ImmediateOrCancelled.to_native_at(5),
        Ok(native::OrderCancellationPolicy::ImmediateOrCancel)
    );
    assert_eq!(
        TimeInForce::GoodTillTime(60_000).to_native_at(1_000),
        Ok(native::OrderCancellationPolicy::GoodTilTime(61_000))
    );
}

#[test]
fn time_in_force_expiry_out_of_range_is_rejected() {
    assert_eq!(
        TimeInForce::GoodTillTime(1).to_native_at(i64::MAX),
        Err(OpenLimitsError::InvalidParameter("Order expiry is out of range".to_string()))
    );
    assert_eq!(
        TimeInForce::GoodTillTime(0).to_native_at(i64::MAX),
        Ok(native::OrderCancellationPolicy::GoodTilTime(i64::MAX))
    );
}

#[test]
fn trade_of_taker_buy() {
    let n = native_trade(native::AccountTradeSide::Taker, native::BuyOrSell::Buy);
    let t = Trade::from_native(&n).unwrap();
    assert_eq!(
        t,
        Trade {
            id: "t-1".to_string(),
            buyer_order_id: Some("taker".to_string()),
            seller_order_id: Some("maker".to_string()),
            market_pair: "eth_btc".to_string(),
            price: dec("0.031"),
            qty: dec("1.5"),
            fees: Some(dec("0.0025")),
            side: Side::Buy,
            liquidity: Some(Liquidity::Taker),
            created_at: 1_600_000_000_123,
        }
    );
}

#[test]
fn trade_of_maker_sell_has_zero_fee() {
    let n = native_trade(native::AccountTradeSide::Maker, native::BuyOrSell::Sell);
    let t = Trade::from_native(&n).unwrap();
    assert_eq!(t.buyer_order_id, Some("maker".to_string()));
    assert_eq!(t.seller_order_id, Some("taker".to_string()));
    assert_eq!(t.fees, Some(Decimal::zero()));
    assert_eq!(t.side, Side::Sell);
    assert_eq!(t.liquidity, Some(Liquidity::Maker));
}

#[test]
fn trade_of_maker_ignores_unreadable_taker_fee() {
    let mut n = native_trade(native::AccountTradeSide::Uninvolved, native::BuyOrSell::Buy);
    n.taker_fee = "n/a".to_string();
    assert_eq!(Trade::from_native(&n).unwrap().fees, Some(Decimal::zero()));
    n.account_side = native::AccountTradeSide::Taker;
    assert_eq!(Trade::from_native(&n), Err(not_a_decimal()));
}

#[test]
fn trade_with_unreadable_amount_fails() {
    let mut n = native_trade(native::AccountTradeSide::Maker, native::BuyOrSell::Buy);
    n.amount = "one".to_string();
    assert_eq!(Trade::from_native(&n), Err(not_a_decimal()));
    let mut m = native_trade(native::AccountTradeSide::Maker, native::BuyOrSell::Buy);
    m.limit_price = "".to_string();
    assert_eq!(Trade::from_native(&m), Err(not_a_decimal()));
}

#[test]
fn trade_assemble_uses_what_was_read() {
    let n = native_trade(native::AccountTradeSide::Taker, native::BuyOrSell::Sell);
    let t = Trade::assemble(&n, Some(dec("9")), Some(dec("8")), Some(dec("7"))).unwrap();
    assert_eq!((t.qty, t.price, t.fees), (dec("9"), dec("8"), Some(dec("7"))));
    assert_eq!(Trade::assemble(&n, None, Some(dec("8")), Some(dec("7"))), Err(not_a_decimal()));
    assert_eq!(Trade::assemble(&n, Some(dec("9")), None, Some(dec("7"))), Err(not_a_decimal()));
    assert_eq!(Trade::assemble(&n, Some(dec("9")), Some(dec("8")), None), Err(not_a_decimal()));
}

#[test]
fn trade_time_before_the_epoch_wraps() {
    let mut n = native_trade(native::AccountTradeSide::Maker, native::BuyOrSell::Buy);
    n.executed_at = -1;
    assert_eq!(Trade::from_native(&n).unwrap().created_at, u64::MAX);
}

#[test]
fn trades_fail_on_the_first_that_cannot_be_read() {
    let good = native_trade(native::AccountTradeSide::Maker, native::BuyOrSell::Buy);
    let mut bad = good.clone();
    bad.amount = "x".to_string();
    assert_eq!(trades_from_native(&vec![good.clone(), good.clone()]).unwrap().len(), 2);
    assert_eq!(trades_from_native(&vec![good.clone(), bad, good]), Err(not_a_decimal()));
    assert_eq!(trades_from_native(&vec![]), Ok(vec![]));
}

#[test]
fn order_of_native_order() {
    let o = Order::from_native(&native_order()).unwrap();
    assert_eq!(o.id, "o-1");
    assert_eq!(o.market_pair, "eth_btc");
    assert_eq!(o.client_order_id, None);
    assert_eq!(o.created_at, Some(1_600_000_000_000));
    assert_eq!(o.order_type, OrderType::Limit);
    assert_eq!(o.side, Side::Sell);
    assert_eq!(o.status, OrderStatus::Open);
    assert_eq!(o.size, dec("2.0"));
    assert_eq!(o.price, Some(dec("0.03")));
    assert_eq!(o.remaining, Some(dec("0.5")));
    assert_eq!(o.trades.len(), 1);
    assert_eq!(o.trades[0].id, "t-1");
}

#[test]
fn order_without_limit_price_has_no_price() {
    let mut n = native_order();
    n.limit_price = None;
    n.order_type = native::OrderType::Market;
    let o = Order::from_native(&n).unwrap();
    assert_eq!(o.price, None);
    assert_eq!(o.order_type, OrderType::Market);
}

#[test]
fn order_with_unreadable_amounts_fails() {
    let mut n = native_order();
    n.limit_price = Some("cheap".to_string());
    assert_eq!(Order::from_native(&n), Err(not_a_decimal()));
    let mut m = native_order();
    m.amount_remaining = "".to_string();
    assert_eq!(Order::from_native(&m), Err(not_a_decimal()));
    let mut k = native_order();
    k.trades[0].limit_price = "?".to_string();
    assert_eq!(Order::from_native(&k), Err(not_a_decimal()));
    assert_eq!(orders_from_native(&vec![native_order(), k]), Err(not_a_decimal()));
    assert_eq!(orders_from_native(&vec![native_order()]).unwrap().len(), 1);
}

#[test]
fn placed_order_has_documented_defaults() {
    let n = native::PlaceOrderResponse {
        order_id: "o-9".to_string(),
        market_name: "eth_usdc".to_string(),
        placed_at: 42,
        order_type: native::OrderType::StopMarket,
        buy_or_sell: native::BuyOrSell::Buy,
        status: native::OrderStatus::Pending,
    };
    assert_eq!(
        Order::from_placed(&n),
        Order {
            id: "o-9".to_string(),
            market_pair: "eth_usdc".to_string(),
            client_order_id: None,
            created_at: Some(42),
            order_type: OrderType::StopMarket,
            side: Side::Buy,
            status: OrderStatus::Pending,
            size: Decimal::zero(),
            price: None,
            remaining: None,
            trades: vec![],
        }
    );
}

#[test]
fn candle_of_native_candle() {
    let n = native::Candle {
        a_volume: "100.5".to_string(),
        close_price: "4".to_string(),
        high_price: "5".to_string(),
        low_price: "1".to_string(),
        open_price: "2".to_string(),
        interval_start: 1_600_000_000_000,
    };
    assert_eq!(
        Candle::from_native(&n),
        Ok(Candle {
            time: 1_600_000_000_000,
            low: dec("1"),
            high: dec("5"),
            open: dec("2"),
            close: dec("4"),
            volume: dec("100.5"),
        })
    );
    let mut bad = n.clone();
    bad.a_volume = "lots".to_string();
    assert_eq!(Candle::from_native(&bad), Err(not_a_decimal()));
    assert_eq!(candles_from_native(&vec![n.clone(), bad]), Err(not_a_decimal()));
    assert_eq!(candles_from_native(&vec![n.clone(), n]).unwrap().len(), 2);
}

fn ticker(ask: Option<&str>, bid: Option<&str>, high: Option<&str>, low: Option<&str>) -> native::TickerResponse {
    native::TickerResponse {
        best_ask_price: ask.map(|s| s.to_string()),
        best_bid_price: bid.map(|s| s.to_string()),
        high_price_24h: high.map(|s| s.to_string()),
        low_price_24h: low.map(|s| s.to_string()),
    }
}

#[test]
fn ticker_price_is_mean_of_bid_and_ask() {
    let t = Ticker::from_native(&ticker(Some("10.02"), Some("10.00"), Some("12"), Some("9"))).unwrap();
    assert_eq!(t.price, Some(dec("10.01")));
    assert_eq!(t.price.unwrap().to_text(), "10.01");
    assert_eq!(t.price_24h.unwrap().to_text(), "10.50");
}

#[test]
fn ticker_price_is_absent_where_bid_or_ask_is() {
    let t = Ticker::from_native(&ticker(Some("10.02"), None, None, Some("9"))).unwrap();
    assert_eq!(t, Ticker { price: None, price_24h: None });
    let u = Ticker::from_native(&ticker(None, Some("10.00"), Some("3"), Some("1"))).unwrap();
    assert_eq!(u.price, None);
    assert_eq!(u.price_24h, Some(dec("2")));
    let v = Ticker::from_native(&ticker(None, None, None, None)).unwrap();
    assert_eq!(v, Ticker { price: None, price_24h: None });
}

#[test]
fn ticker_with_unreadable_price_fails() {
    assert_eq!(
        Ticker::from_native(&ticker(Some("ten"), Some("10.00"), None, None)),
        Err(not_a_decimal())
    );
    assert_eq!(
        Ticker::from_native(&ticker(None, None, Some("1"), Some("low"))),
        Err(not_a_decimal())
    );
    // An unreadable price does not matter where the other one is absent.
    assert_eq!(
        Ticker::from_native(&ticker(Some("ten"), None, None, None)),
        Ok(Ticker { price: None, price_24h: None })
    );
}

#[test]
fn ticker_mean_that_cannot_be_represented_fails() {
    let max = "79228162514264337593543950335";
    assert_eq!(
        Ticker::from_native(&ticker(Some(max), Some(max), None, None)),
        Err(OpenLimitsError::NotParsableResponse("Decimal arithmetic overflowed.".to_string()))
    );
    assert_eq!(
        mid_price_from_native(&Some(max.to_string()), &Some(max.to_string())),
        Err(OpenLimitsError::NotParsableResponse("Decimal arithmetic overflowed.".to_string()))
    );
}

#[test]
fn mid_from_parsed_decides_by_presence() {
    let a = Some(dec("1"));
    let b = Some(dec("3"));
    let m = Some(dec("2"));
    assert_eq!(mid_from_parsed(true, a, b, m), Ok(m));
    assert_eq!(mid_from_parsed(false, a, b, m), Ok(None));
    assert_eq!(mid_from_parsed(true, None, b, m), Err(not_a_decimal()));
    assert_eq!(mid_from_parsed(true, a, None, m), Err(not_a_decimal()));
    assert_eq!(
        mid_from_parsed(true, a, b, None),
        Err(OpenLimitsError::NotParsableResponse("Decimal arithmetic overflowed.".to_string()))
    );
}

#[test]
fn order_book_of_native_book() {
    let level = |p: &str, a: &str| native::OrderbookOrder { price: p.to_string(), amount: a.to_string() };
    let n = native::OrderbookResponse {
        last_update_id: 7,
        update_id: 8,
        asks: vec![level("10.02", "1"), level("10.03", "2")],
        bids: vec![level("10.00", "3")],
    };
    assert_eq!(
        OrderBookResponse::from_native(&n),
        Ok(OrderBookResponse {
            update_id: Some(8),
            last_update_id: Some(7),
            bids: vec![AskBid { price: dec("10.00"), qty: dec("3") }],
            asks: vec![
                AskBid { price: dec("10.02"), qty: dec("1") },
                AskBid { price: dec("10.03"), qty: dec("2") }
            ],
        })
    );
    let mut bad = n.clone();
    bad.asks[1].amount = "".to_string();
    assert_eq!(OrderBookResponse::from_native(&bad), Err(not_a_decimal()));
    assert_eq!(levels_from_native(&bad.asks), Err(not_a_decimal()));
    assert_eq!(AskBid::assemble(Some(dec("1")), None), Err(not_a_decimal()));
    assert_eq!(AskBid::from_native(&level("1", "2")), Ok(AskBid { price: dec("1"), qty: dec("2") }));
}

fn amount(asset: &str, amount: &str) -> native::AssetAmount {
    native::AssetAmount { asset: asset.to_string(), amount: amount.to_string() }
}

#[test]
fn balance_total_is_free_plus_in_orders() {
    let resp = native::ListAccountBalancesResponse {
        state_channel: vec![amount("eth", "1.5"), amount("btc", "0.25")],
        in_orders: vec![amount("btc", "0.75"), amount("eth", "2.25")],
    };
    let balances = balances_from_native(&resp).unwrap();
    assert_eq!(balances.len(), 2);
    assert_eq!(balances[0].asset, "eth");
    assert_eq!(balances[0].free, dec("1.5"));
    assert_eq!(balances[0].total, dec("3.75"));
    assert_eq!(balances[0].total, balances[0].free.checked_add(dec("2.25")).unwrap());
    assert_eq!(balances[1].asset, "btc");
    assert_eq!(balances[1].free, dec("0.25"));
    assert_eq!(balances[1].total, dec("1.00"));
}

#[test]
fn balance_of_asset_missing_in_orders_fails() {
    let resp = native::ListAccountBalancesResponse {
        state_channel: vec![amount("eth", "1.5"), amount("btc", "0.25")],
        in_orders: vec![amount("eth", "2.25")],
    };
    assert_eq!(balances_from_native(&resp), Err(OpenLimitsError::AssetNotFound));
}

#[test]
fn balance_with_unreadable_amount_fails() {
    let a = "eth".to_string();
    assert_eq!(balance_from_native(&a, &"x".to_string(), Some(&"1".to_string())), Err(not_a_decimal()));
    assert_eq!(balance_from_native(&a, &"1".to_string(), Some(&"x".to_string())), Err(not_a_decimal()));
    assert_eq!(balance_from_native(&a, &"1".to_string(), None), Err(OpenLimitsError::AssetNotFound));
    let max = "79228162514264337593543950335".to_string();
    assert_eq!(
        balance_from_native(&a, &max, Some(&max)),
        Err(OpenLimitsError::NotParsableResponse("Decimal arithmetic overflowed.".to_string()))
    );
}

#[test]
fn balance_synthesized_from_parts() {
    let b = synthesize_balance("eth".to_string(), dec("1"), Some(dec("3"))).unwrap();
    assert_eq!((b.asset.as_str(), b.free, b.total), ("eth", dec("1"), dec("3")));
    assert_eq!(
        synthesize_balance("eth".to_string(), dec("1"), None),
        Err(OpenLimitsError::NotParsableResponse("Decimal arithmetic overflowed.".to_string()))
    );
}

#[test]
fn balances_without_assets_are_empty() {
    let resp = native::ListAccountBalancesResponse { state_channel: vec![], in_orders: vec![amount("eth", "1")] };
    assert_eq!(balances_from_native(&resp), Ok(vec![]));
}

#[test]
fn find_amount_takes_the_first_entry_of_the_asset() {
    let entries = vec![amount("eth", "1"), amount("btc", "2"), amount("eth", "3")];
    assert_eq!(find_amount(&entries, &"eth".to_string()), Some(&"1".to_string()));
    assert_eq!(find_amount(&entries, &"btc".to_string()), Some(&"2".to_string()));
    assert_eq!(find_amount(&entries, &"neo".to_string()), None);
}
