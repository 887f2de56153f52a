//! Trades and orders as Nash reports them, translated into the model.
use crate::decimal::{Decimal, DecimalParts, opt_view, parse_of};
use crate::errors::{ErrorView, OpenLimitsError, decimal_error, list_outcome, outcome};
use crate::model::{Liquidity, Order, OrderStatus, OrderType, OrderView, Side, Trade, TradeView};
use crate::nash::enums::{liquidity_of, order_type_of, side_of, status_of};
use crate::nash::native;
use crate::sequence::{lemma_try_map_fails, lemma_try_map_step, try_map};
use crate::shared::{lemma_views_empty, lemma_views_push, reinterpreted, to_unsigned, views};
use vstd::prelude::*;

verus! {

/// Zero, with scale zero.
pub open spec fn zero_parts() -> DecimalParts {
    DecimalParts { mantissa: 0, scale: 0 }
}

/// The trade that Nash's trade stands for, given what its amount, its price
/// and its taker fee read as.
///
/// The fee is the taker fee where the account was the taker, and zero
/// otherwise. The taker's order is the buyer's where the trade was a buy, the
/// seller's where it was a sell.
pub open spec fn assembled_trade(
    n: native::Trade,
    qty: Option<DecimalParts>,
    price: Option<DecimalParts>,
    taker_fee: Option<DecimalParts>,
) -> Result<TradeView, ErrorView> {
    let taker = n.account_side == native::AccountTradeSide::Taker;
    if qty is None || price is None || (taker && taker_fee is None) {
        Err(decimal_error())
    } else {
        let buy = n.direction == native::BuyOrSell::Buy;
        Ok(
            TradeView {
                id: n.id@,
                buyer_order_id: Some(
                    if buy {
                        n.taker_order_id@
                    } else {
                        n.maker_order_id@
                    },
                ),
                seller_order_id: Some(
                    if buy {
                        n.maker_order_id@
                    } else {
                        n.taker_order_id@
                    },
                ),
                market_pair: n.market@,
                price: price->Some_0,
                qty: qty->Some_0,
                fees: Some(
                    if taker {
                        taker_fee->Some_0
                    } else {
                        zero_parts()
                    },
                ),
                side: side_of(n.direction),
                liquidity: Some(liquidity_of(n.account_side)),
                created_at: reinterpreted(n.executed_at as int) as u64,
            },
        )
    }
}

/// The trade that Nash's trade stands for.
pub open spec fn trade_of(n: native::Trade) -> Result<TradeView, ErrorView> {
    assembled_trade(n, parse_of(n.amount@), parse_of(n.limit_price@), parse_of(n.taker_fee@))
}

/// The translation of a trade, as a function.
pub open spec fn trade_translation() -> spec_fn(native::Trade) -> Result<TradeView, ErrorView> {
    |n: native::Trade| trade_of(n)
}

/// The trades that Nash's trades stand for, in order.
pub open spec fn trades_of(trades: Seq<native::Trade>) -> Result<Seq<TradeView>, ErrorView> {
    try_map(trades, trade_translation())
}

/// The order that Nash's order stands for, given what its amounts and its
/// limit price read as and what its trades stand for. The limit price counts
/// only where the order has one. The size is the amount that was placed; the
/// client's own id of the order is not carried over.
pub open spec fn assembled_order(
    n: native::Order,
    size: Option<DecimalParts>,
    price: Option<DecimalParts>,
    remaining: Option<DecimalParts>,
    trades: Result<Seq<TradeView>, ErrorView>,
) -> Result<OrderView, ErrorView> {
    if size is None || (n.limit_price is Some && price is None) || remaining is None {
        Err(decimal_error())
    } else {
        match trades {
            Err(e) => Err(e),
            Ok(trades) => Ok(
                OrderView {
                    id: n.id@,
                    market_pair: n.market@,
                    client_order_id: None,
                    created_at: Some(reinterpreted(n.placed_at as int) as u64),
                    order_type: order_type_of(n.order_type),
                    side: side_of(n.buy_or_sell),
                    status: status_of(n.status),
                    size: size->Some_0,
                    price: if n.limit_price is Some {
                        price
                    } else {
                        None
                    },
                    remaining,
                    trades,
                },
            ),
        }
    }
}

/// What an optional text reads as.
pub open spec fn parse_of_opt(text: Option<String>) -> Option<DecimalParts> {
    match text {
        Some(t) => parse_of(t@),
        None => None,
    }
}

/// The order that Nash's order stands for.
pub open spec fn order_of(n: native::Order) -> Result<OrderView, ErrorView> {
    assembled_order(
        n,
        parse_of(n.amount_placed@),
        parse_of_opt(n.limit_price),
        parse_of(n.amount_remaining@),
        trades_of(n.trades@),
    )
}

/// The translation of an order, as a function.
pub open spec fn order_translation() -> spec_fn(native::Order) -> Result<OrderView, ErrorView> {
    |n: native::Order| order_of(n)
}

/// The orders that Nash's orders stand for, in order.
pub open spec fn orders_of(orders: Seq<native::Order>) -> Result<Seq<OrderView>, ErrorView> {
    try_map(orders, order_translation())
}

/// The order that the answer to a placed order stands for. The answer tells
/// neither size nor price nor what remains nor any trade: the size is zero,
/// the price and the remaining amount are absent, the trades are none.
pub open spec fn placed_order_of(n: native::PlaceOrderResponse) -> OrderView {
    OrderView {
        id: n.order_id@,
        market_pair: n.market_name@,
        client_order_id: None,
        created_at: Some(reinterpreted(n.placed_at as int) as u64),
        order_type: order_type_of(n.order_type),
        side: side_of(n.buy_or_sell),
        status: status_of(n.status),
        size: zero_parts(),
        price: None,
        remaining: None,
        trades: Seq::empty(),
    }
}

impl Trade {
    /// The trade that Nash's trade stands for, given what its amount, its
    /// price and its taker fee were read as.
    pub fn assemble(
        n: &native::Trade,
        qty: Option<Decimal>,
        price: Option<Decimal>,
        taker_fee: Option<Decimal>,
    ) -> (r: Result<Trade, OpenLimitsError>)
        ensures
            outcome(r) == assembled_trade(*n, opt_view(qty), opt_view(price), opt_view(taker_fee)),
    {
        let qty = match qty {
            Some(d) => d,
            None => { return Err(OpenLimitsError::not_a_decimal()); },
        };
        let price = match price {
            Some(d) => d,
            None => { return Err(OpenLimitsError::not_a_decimal()); },
        };
        let fees = match n.account_side {
            native::AccountTradeSide::Taker => match taker_fee {
                Some(d) => d,
                None => { return Err(OpenLimitsError::not_a_decimal()); },
            },
            _ => Decimal::zero(),
        };
        let (buyer_order_id, seller_order_id) = match n.direction {
            native::BuyOrSell::Buy => (n.taker_order_id.clone(), n.maker_order_id.clone()),
            native::BuyOrSell::Sell => (n.maker_order_id.clone(), n.taker_order_id.clone()),
        };
        Ok(
            Trade {
                id: n.id.clone(),
                buyer_order_id: Some(buyer_order_id),
                seller_order_id: Some(seller_order_id),
                market_pair: n.market.clone(),
                price,
                qty,
                fees: Some(fees),
                side: Side::from_native(n.direction),
                liquidity: Some(Liquidity::from_native(n.account_side)),
                created_at: to_unsigned(n.executed_at),
            },
        )
    }

    /// The trade that Nash's trade stands for; an error where an amount that
    /// it needs cannot be read.
    pub fn from_native(n: &native::Trade) -> (r: Result<Trade, OpenLimitsError>)
        ensures
            outcome(r) == trade_of(*n),
    {
        let qty = Decimal::parse(n.amount.as_str());
        let price = Decimal::parse(n.limit_price.as_str());
        let taker_fee = Decimal::parse(n.taker_fee.as_str());
        Trade::assemble(n, qty, price, taker_fee)
    }
}

/// The trades that Nash's trades stand for, in order; the error of the first
/// that has none.
pub fn trades_from_native(trades: &Vec<native::Trade>) -> (r: Result<Vec<Trade>, OpenLimitsError>)
    ensures
        list_outcome(r) == trades_of(trades@),
{
    let ghost f = trade_translation();
    let ghost s = trades@;
    let mut out: Vec<Trade> = Vec::new();
    let mut i: usize = 0;
    proof {
        assert(s.take(0) =~= Seq::<native::Trade>::empty());
        lemma_views_empty(out@);
    }
    while i < trades.len()
        invariant
            i <= s.len(),
            s == trades@,
            f == trade_translation(),
            try_map(s.take(i as int), f) == Ok::<Seq<TradeView>, ErrorView>(views(out@)),
        decreases s.len() - i,
    {
        proof {
            lemma_try_map_step(s, f, i as int);
        }
        match Trade::from_native(&trades[i]) {
            Ok(t) => {
                proof {
                    lemma_views_push(out@, t);
                }
                out.push(t);
            },
            Err(e) => {
                proof {
                    lemma_try_map_fails(s, f, i as int + 1);
                }
                return Err(e);
            },
        }
        i += 1;
    }
    assert(s.take(i as int) =~= s);
    Ok(out)
}

impl Order {
    /// The order that Nash's order stands for, given what its amounts and
    /// its limit price were read as and what its trades were translated to.
    pub fn assemble(
        n: &native::Order,
        size: Option<Decimal>,
        price: Option<Decimal>,
        remaining: Option<Decimal>,
        trades: Result<Vec<Trade>, OpenLimitsError>,
    ) -> (r: Result<Order, OpenLimitsError>)
        ensures
            outcome(r) == assembled_order(
                *n,
                opt_view(size),
                opt_view(price),
                opt_view(remaining),
                list_outcome(trades),
            ),
    {
        let size = match size {
            Some(d) => d,
            None => { return Err(OpenLimitsError::not_a_decimal()); },
        };
        let price = match &n.limit_price {
            Some(_) => match price {
                Some(d) => Some(d),
                None => { return Err(OpenLimitsError::not_a_decimal()); },
            },
            None => None,
        };
        let remaining = match remaining {
            Some(d) => d,
            None => { return Err(OpenLimitsError::not_a_decimal()); },
        };
        let trades = match trades {
            Ok(t) => t,
            Err(e) => { return Err(e); },
        };
        Ok(
            Order {
                id: n.id.clone(),
                market_pair: n.market.clone(),
                client_order_id: None,
                created_at: Some(to_unsigned(n.placed_at)),
                order_type: OrderType::from_native(n.order_type),
                side: Side::from_native(n.buy_or_sell),
                status: OrderStatus::from_native(n.status),
                size,
                price,
                remaining: Some(remaining),
                trades,
            },
        )
    }

    /// The order that Nash's order stands for; an error where an amount
    /// cannot be read or a trade cannot be translated.
    pub fn from_native(n: &native::Order) -> (r: Result<Order, OpenLimitsError>)
        ensures
            outcome(r) == order_of(*n),
    {
        let size = Decimal::parse(n.amount_placed.as_str());
        let price = match &n.limit_price {
            Some(p) => Decimal::parse(p.as_str()),
            None => None,
        };
        let remaining = Decimal::parse(n.amount_remaining.as_str());
        let trades = trades_from_native(&n.trades);
        Order::assemble(n, size, price, remaining, trades)
    }

    /// The order that the answer to a placed order stands for.
    pub fn from_placed(n: &native::PlaceOrderResponse) -> (r: Order)
        ensures
            r@ == placed_order_of(*n),
    {
        let trades: Vec<Trade> = Vec::new();
        proof {
            lemma_views_empty(trades@);
        }
        Order {
            id: n.order_id.clone(),
            market_pair: n.market_name.clone(),
            client_order_id: None,
            created_at: Some(to_unsigned(n.placed_at)),
            order_type: OrderType::from_native(n.order_type),
            side: Side::from_native(n.buy_or_sell),
            status: OrderStatus::from_native(n.status),
            size: Decimal::zero(),
            price: None,
            remaining: None,
            trades,
        }
    }
}

/// The orders that Nash's orders stand for, in order; the error of the first
/// that has none.
pub fn orders_from_native(orders: &Vec<native::Order>) -> (r: Result<Vec<Order>, OpenLimitsError>)
    ensures
        list_outcome(r) == orders_of(orders@),
{
    let ghost f = order_translation();
    let ghost s = orders@;
    let mut out: Vec<Order> = Vec::new();
    let mut i: usize = 0;
    proof {
        assert(s.take(0) =~= Seq::<native::Order>::empty());
        lemma_views_empty(out@);
    }
    while i < orders.len()
        invariant
            i <= s.len(),
            s == orders@,
            f == order_translation(),
            try_map(s.take(i as int), f) == Ok::<Seq<OrderView>, ErrorView>(views(out@)),
        decreases s.len() - i,
    {
        proof {
            lemma_try_map_step(s, f, i as int);
        }
        match Order::from_native(&orders[i]) {
            Ok(o) => {
                proof {
                    lemma_views_push(out@, o);
                }
                out.push(o);
            },
            Err(e) => {
                proof {
                    lemma_try_map_fails(s, f, i as int + 1);
                }
                return Err(e);
            },
        }
        i += 1;
    }
    assert(s.take(i as int) =~= s);
    Ok(out)
}

} // verus!
