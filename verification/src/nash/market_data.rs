//! Candles, tickers and order books as Nash reports them, translated into
//! the model.
use crate::decimal::{Decimal, DecimalParts, mean_of, opt_view, parse_of};
use crate::errors::{
    ErrorView, OpenLimitsError, decimal_error, list_outcome, outcome, overflow_error,
};
use crate::model::{
    AskBid, AskBidView, Candle, CandleView, OrderBookResponse, OrderBookView, Ticker, TickerView,
};
use crate::nash::native;
use crate::nash::trades::parse_of_opt;
use crate::sequence::{lemma_try_map_fails, lemma_try_map_step, try_map};
use crate::shared::{lemma_views_empty, lemma_views_push, reinterpreted, to_unsigned, views};
use vstd::prelude::*;

verus! {

/// The candle that Nash's candle stands for, given what its prices and its
/// volume read as.
pub open spec fn assembled_candle(
    n: native::Candle,
    close: Option<DecimalParts>,
    high: Option<DecimalParts>,
    low: Option<DecimalParts>,
    open: Option<DecimalParts>,
    volume: Option<DecimalParts>,
) -> Result<CandleView, ErrorView> {
    if close is None || high is None || low is None || open is None || volume is None {
        Err(decimal_error())
    } else {
        Ok(
            CandleView {
                time: reinterpreted(n.interval_start as int) as u64,
                low: low->Some_0,
                high: high->Some_0,
                open: open->Some_0,
                close: close->Some_0,
                volume: volume->Some_0,
            },
        )
    }
}

/// The candle that Nash's candle stands for. Its volume is the volume of the
/// market's first asset.
pub open spec fn candle_of(n: native::Candle) -> Result<CandleView, ErrorView> {
    assembled_candle(
        n,
        parse_of(n.close_price@),
        parse_of(n.high_price@),
        parse_of(n.low_price@),
        parse_of(n.open_price@),
        parse_of(n.a_volume@),
    )
}

/// The translation of a candle, as a function.
pub open spec fn candle_translation() -> spec_fn(native::Candle) -> Result<CandleView, ErrorView> {
    |n: native::Candle| candle_of(n)
}

/// The candles that Nash's candles stand for, in order.
pub open spec fn candles_of(candles: Seq<native::Candle>) -> Result<Seq<CandleView>, ErrorView> {
    try_map(candles, candle_translation())
}

/// The price between two prices that may be absent, given what they read as
/// and what their mean is: absent where either price is absent, their mean
/// where both are there.
pub open spec fn mid_of_parsed(
    both: bool,
    first: Option<DecimalParts>,
    second: Option<DecimalParts>,
    mean: Option<DecimalParts>,
) -> Result<Option<DecimalParts>, ErrorView> {
    if !both {
        Ok(None)
    } else if first is None || second is None {
        Err(decimal_error())
    } else if mean is None {
        Err(overflow_error())
    } else {
        Ok(mean)
    }
}

/// The mean of what two texts read as, where both read as decimals.
pub open spec fn mean_of_parsed(first: Option<DecimalParts>, second: Option<DecimalParts>)
    -> Option<DecimalParts> {
    if first is Some && second is Some {
        mean_of(first->Some_0, second->Some_0)
    } else {
        None
    }
}

/// The price between two prices that may be absent: absent where either is,
/// and otherwise the arithmetic mean of the two, computed in decimal
/// arithmetic.
pub open spec fn mid_price(first: Option<String>, second: Option<String>) -> Result<
    Option<DecimalParts>,
    ErrorView,
> {
    mid_of_parsed(
        first is Some && second is Some,
        parse_of_opt(first),
        parse_of_opt(second),
        mean_of_parsed(parse_of_opt(first), parse_of_opt(second)),
    )
}

/// The ticker that Nash's ticker stands for: the price is the mean of the
/// best ask and the best bid, the price of the day the mean of the day's high
/// and low.
pub open spec fn ticker_of(n: native::TickerResponse) -> Result<TickerView, ErrorView> {
    match mid_price(n.best_ask_price, n.best_bid_price) {
        Err(e) => Err(e),
        Ok(price) => match mid_price(n.high_price_24h, n.low_price_24h) {
            Err(e) => Err(e),
            Ok(price_24h) => Ok(TickerView { price, price_24h }),
        },
    }
}

/// The level that Nash's level stands for, given what its price and its
/// amount read as.
pub open spec fn assembled_level(price: Option<DecimalParts>, qty: Option<DecimalParts>) -> Result<
    AskBidView,
    ErrorView,
> {
    if price is None || qty is None {
        Err(decimal_error())
    } else {
        Ok(AskBidView { price: price->Some_0, qty: qty->Some_0 })
    }
}

/// The level that Nash's level of an order book stands for.
pub open spec fn level_of(n: native::OrderbookOrder) -> Result<AskBidView, ErrorView> {
    assembled_level(parse_of(n.price@), parse_of(n.amount@))
}

/// The translation of a level, as a function.
pub open spec fn level_translation() -> spec_fn(native::OrderbookOrder) -> Result<
    AskBidView,
    ErrorView,
> {
    |n: native::OrderbookOrder| level_of(n)
}

/// The levels that Nash's levels stand for, in order.
pub open spec fn levels_of(levels: Seq<native::OrderbookOrder>) -> Result<
    Seq<AskBidView>,
    ErrorView,
> {
    try_map(levels, level_translation())
}

/// The order book that Nash's order book stands for. The bids are translated
/// before the asks.
pub open spec fn order_book_of(n: native::OrderbookResponse) -> Result<OrderBookView, ErrorView> {
    match levels_of(n.bids@) {
        Err(e) => Err(e),
        Ok(bids) => match levels_of(n.asks@) {
            Err(e) => Err(e),
            Ok(asks) => Ok(
                OrderBookView {
                    update_id: Some(reinterpreted(n.update_id as int) as u64),
                    last_update_id: Some(reinterpreted(n.last_update_id as int) as u64),
                    bids,
                    asks,
                },
            ),
        },
    }
}

impl Candle {
    /// The candle that Nash's candle stands for, given what its prices and
    /// its volume were read as.
    pub fn assemble(
        n: &native::Candle,
        close: Option<Decimal>,
        high: Option<Decimal>,
        low: Option<Decimal>,
        open: Option<Decimal>,
        volume: Option<Decimal>,
    ) -> (r: Result<Candle, OpenLimitsError>)
        ensures
            outcome(r) == assembled_candle(
                *n,
                opt_view(close),
                opt_view(high),
                opt_view(low),
                opt_view(open),
                opt_view(volume),
            ),
    {
        match (close, high, low, open, volume) {
            (Some(close), Some(high), Some(low), Some(open), Some(volume)) => Ok(
                Candle { time: to_unsigned(n.interval_start), low, high, open, close, volume },
            ),
            _ => Err(OpenLimitsError::not_a_decimal()),
        }
    }

    /// The candle that Nash's candle stands for; an error where a price or
    /// the volume cannot be read.
    pub fn from_native(n: &native::Candle) -> (r: Result<Candle, OpenLimitsError>)
        ensures
            outcome(r) == candle_of(*n),
    {
        let close = Decimal::parse(n.close_price.as_str());
        let high = Decimal::parse(n.high_price.as_str());
        let low = Decimal::parse(n.low_price.as_str());
        let open = Decimal::parse(n.open_price.as_str());
        let volume = Decimal::parse(n.a_volume.as_str());
        Candle::assemble(n, close, high, low, open, volume)
    }
}

/// The candles that Nash's candles stand for, in order; the error of the
/// first that has none.
pub fn candles_from_native(candles: &Vec<native::Candle>) -> (r: Result<
    Vec<Candle>,
    OpenLimitsError,
>)
    ensures
        list_outcome(r) == candles_of(candles@),
{
    let ghost f = candle_translation();
    let ghost s = candles@;
    let mut out: Vec<Candle> = Vec::new();
    let mut i: usize = 0;
    proof {
        assert(s.take(0) =~= Seq::<native::Candle>::empty());
        lemma_views_empty(out@);
    }
    while i < candles.len()
        invariant
            i <= s.len(),
            s == candles@,
            f == candle_translation(),
            try_map(s.take(i as int), f) == Ok::<Seq<CandleView>, ErrorView>(views(out@)),
        decreases s.len() - i,
    {
        proof {
            lemma_try_map_step(s, f, i as int);
        }
        match Candle::from_native(&candles[i]) {
            Ok(c) => {
                proof {
                    lemma_views_push(out@, c);
                }
                out.push(c);
            },
            Err(e) => {
                proof {
                    lemma_try_map_fails(s, f, i as int + 1);
                }
                return Err(e);
            },
        }
        i += 1;
    }
    assert(s.take(i as int) =~= s);
    Ok(out)
}

/// The price between two prices, given whether both are there, what they
/// were read as and what their mean was computed to be.
pub fn mid_from_parsed(
    both: bool,
    first: Option<Decimal>,
    second: Option<Decimal>,
    mean: Option<Decimal>,
) -> (r: Result<Option<Decimal>, OpenLimitsError>)
    ensures
        match r {
            Ok(p) => mid_of_parsed(both, opt_view(first), opt_view(second), opt_view(mean)) == Ok::<
                Option<DecimalParts>,
                ErrorView,
            >(opt_view(p)),
            Err(e) => mid_of_parsed(both, opt_view(first), opt_view(second), opt_view(mean))
                == Err::<Option<DecimalParts>, ErrorView>(e@),
        },
{
    if !both {
        Ok(None)
    } else if first.is_none() || second.is_none() {
        Err(OpenLimitsError::not_a_decimal())
    } else {
        match mean {
            Some(m) => Ok(Some(m)),
            None => Err(OpenLimitsError::overflow()),
        }
    }
}

/// The price between two prices that may be absent: absent where either is,
/// and otherwise their arithmetic mean.
pub fn mid_price_from_native(first: &Option<String>, second: &Option<String>) -> (r: Result<
    Option<Decimal>,
    OpenLimitsError,
>)
    ensures
        match r {
            Ok(p) => mid_price(*first, *second) == Ok::<Option<DecimalParts>, ErrorView>(
                opt_view(p),
            ),
            Err(e) => mid_price(*first, *second) == Err::<Option<DecimalParts>, ErrorView>(e@),
        },
{
    let a = match first {
        Some(t) => Decimal::parse(t.as_str()),
        None => None,
    };
    let b = match second {
        Some(t) => Decimal::parse(t.as_str()),
        None => None,
    };
    let mean = match (a, b) {
        (Some(x), Some(y)) => x.mean(y),
        _ => None,
    };
    mid_from_parsed(first.is_some() && second.is_some(), a, b, mean)
}

impl Ticker {
    /// The ticker that Nash's ticker stands for; an error where a price that
    /// is there cannot be read, or a mean cannot be represented.
    pub fn from_native(n: &native::TickerResponse) -> (r: Result<Ticker, OpenLimitsError>)
        ensures
            outcome(r) == ticker_of(*n),
    {
        let price = match mid_price_from_native(&n.best_ask_price, &n.best_bid_price) {
            Ok(p) => p,
            Err(e) => { return Err(e); },
        };
        let price_24h = match mid_price_from_native(&n.high_price_24h, &n.low_price_24h) {
            Ok(p) => p,
            Err(e) => { return Err(e); },
        };
        Ok(Ticker { price, price_24h })
    }
}

impl AskBid {
    /// The level that Nash's level stands for, given what its price and its
    /// amount were read as.
    pub fn assemble(price: Option<Decimal>, qty: Option<Decimal>) -> (r: Result<
        AskBid,
        OpenLimitsError,
    >)
        ensures
            outcome(r) == assembled_level(opt_view(price), opt_view(qty)),
    {
        match (price, qty) {
            (Some(price), Some(qty)) => Ok(AskBid { price, qty }),
            _ => Err(OpenLimitsError::not_a_decimal()),
        }
    }

    /// The level that Nash's level stands for; an error where its price or
    /// its amount cannot be read.
    pub fn from_native(n: &native::OrderbookOrder) -> (r: Result<AskBid, OpenLimitsError>)
        ensures
            outcome(r) == level_of(*n),
    {
        let price = Decimal::parse(n.price.as_str());
        let qty = Decimal::parse(n.amount.as_str());
        AskBid::assemble(price, qty)
    }
}

/// The levels that Nash's levels stand for, in order; the error of the first
/// that has none.
pub fn levels_from_native(levels: &Vec<native::OrderbookOrder>) -> (r: Result<
    Vec<AskBid>,
    OpenLimitsError,
>)
    ensures
        list_outcome(r) == levels_of(levels@),
{
    let ghost f = level_translation();
    let ghost s = levels@;
    let mut out: Vec<AskBid> = Vec::new();
    let mut i: usize = 0;
    proof {
        assert(s.take(0) =~= Seq::<native::OrderbookOrder>::empty());
        lemma_views_empty(out@);
    }
    while i < levels.len()
        invariant
            i <= s.len(),
            s == levels@,
            f == level_translation(),
            try_map(s.take(i as int), f) == Ok::<Seq<AskBidView>, ErrorView>(views(out@)),
        decreases s.len() - i,
    {
        proof {
            lemma_try_map_step(s, f, i as int);
        }
        match AskBid::from_native(&levels[i]) {
            Ok(l) => {
                proof {
                    lemma_views_push(out@, l);
                }
                out.push(l);
            },
            Err(e) => {
                proof {
                    lemma_try_map_fails(s, f, i as int + 1);
                }
                return Err(e);
            },
        }
        i += 1;
    }
    assert(s.take(i as int) =~= s);
    Ok(out)
}

impl OrderBookResponse {
    /// The order book that Nash's order book stands for; an error where a
    /// level cannot be read.
    pub fn from_native(n: &native::OrderbookResponse) -> (r: Result<
        OrderBookResponse,
        OpenLimitsError,
    >)
        ensures
            outcome(r) == order_book_of(*n),
    {
        let bids = match levels_from_native(&n.bids) {
            Ok(l) => l,
            Err(e) => { return Err(e); },
        };
        let asks = match levels_from_native(&n.asks) {
            Ok(l) => l,
            Err(e) => { return Err(e); },
        };
        Ok(
            OrderBookResponse {
                update_id: Some(to_unsigned(n.update_id)),
                last_update_id: Some(to_unsigned(n.last_update_id)),
                bids,
                asks,
            },
        )
    }
}

/// Where both the best ask and the best bid are there and read as decimals,
/// the ticker's price is their arithmetic mean; where either is absent, the
/// ticker has no price.
pub proof fn lemma_ticker_price(n: native::TickerResponse)
    requires
        ticker_of(n) is Ok,
    ensures
        (n.best_ask_price is None || n.best_bid_price is None) ==> ticker_of(n)->Ok_0.price
            is None,
        (n.best_ask_price is Some && n.best_bid_price is Some) ==> {
            &&& parse_of(n.best_ask_price->Some_0@) is Some
            &&& parse_of(n.best_bid_price->Some_0@) is Some
            &&& ticker_of(n)->Ok_0.price is Some
            &&& ticker_of(n)->Ok_0.price == mean_of(
                parse_of(n.best_ask_price->Some_0@)->Some_0,
                parse_of(n.best_bid_price->Some_0@)->Some_0,
            )
        },
{
}

} // verus!
