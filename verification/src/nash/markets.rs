//! The markets that Nash lists, translated into market pairs.
use crate::decimal::{Decimal, DecimalParts, MAX_SCALE, opt_view, parse_of};
use crate::errors::{ErrorView, OpenLimitsError, decimal_error, list_outcome, outcome};
use crate::info::{MarketPair, MarketPairView};
use crate::nash::native;
use crate::sequence::{lemma_try_map_fails, lemma_try_map_step, try_map};
use crate::shared::{lemma_views_empty, lemma_views_push, views};
use vstd::prelude::*;

verus! {

/// The error of a precision that no decimal can have.
pub open spec fn precision_error() -> ErrorView {
    ErrorView::NotParsableResponse("Market precision is out of range."@)
}

/// The smallest step of an amount that has `precision` digits after the
/// point: one unit of the last digit. There is none where the precision is
/// above what a decimal can have.
pub open spec fn increment_of(precision: u32) -> Option<DecimalParts> {
    if precision <= MAX_SCALE {
        Some(DecimalParts { mantissa: 1, scale: precision as nat })
    } else {
        None
    }
}

/// The market pair that Nash's market stands for, given the steps of its two
/// assets and what its two smallest trades read as.
pub open spec fn assembled_pair(
    m: native::Market,
    base_increment: Option<DecimalParts>,
    quote_increment: Option<DecimalParts>,
    min_base: Option<DecimalParts>,
    min_quote: Option<DecimalParts>,
) -> Result<MarketPairView, ErrorView> {
    if base_increment is None || quote_increment is None {
        Err(precision_error())
    } else if min_base is None || min_quote is None {
        Err(decimal_error())
    } else {
        Ok(
            MarketPairView {
                base: m.asset_a@,
                quote: m.asset_b@,
                symbol: m.symbol@,
                base_increment: base_increment->Some_0,
                quote_increment: quote_increment->Some_0,
                min_base_trade_size: min_base,
                min_quote_trade_size: min_quote,
            },
        )
    }
}

/// The market pair that Nash's market stands for.
pub open spec fn pair_of(m: native::Market) -> Result<MarketPairView, ErrorView> {
    assembled_pair(
        m,
        increment_of(m.precision_a),
        increment_of(m.precision_b),
        parse_of(m.min_trade_size_a@),
        parse_of(m.min_trade_size_b@),
    )
}

/// The translation of a market, as a function.
pub open spec fn pair_translation() -> spec_fn(native::Market) -> Result<
    MarketPairView,
    ErrorView,
> {
    |m: native::Market| pair_of(m)
}

/// The market pairs that Nash's markets stand for, in order.
pub open spec fn pairs_of(markets: Seq<native::Market>) -> Result<Seq<MarketPairView>, ErrorView> {
    try_map(markets, pair_translation())
}

impl MarketPair {
    /// The market pair that Nash's market stands for, given the steps of its
    /// two assets and what its two smallest trades were read as.
    pub fn assemble(
        m: &native::Market,
        base_increment: Option<Decimal>,
        quote_increment: Option<Decimal>,
        min_base: Option<Decimal>,
        min_quote: Option<Decimal>,
    ) -> (r: Result<MarketPair, OpenLimitsError>)
        ensures
            outcome(r) == assembled_pair(
                *m,
                opt_view(base_increment),
                opt_view(quote_increment),
                opt_view(min_base),
                opt_view(min_quote),
            ),
    {
        let (base_increment, quote_increment) = match (base_increment, quote_increment) {
            (Some(b), Some(q)) => (b, q),
            _ => {
                return Err(
                    OpenLimitsError::NotParsableResponse(
                        "Market precision is out of range.".to_owned(),
                    ),
                );
            },
        };
        if min_base.is_none() || min_quote.is_none() {
            return Err(OpenLimitsError::not_a_decimal());
        }
        Ok(
            MarketPair {
                base: m.asset_a.clone(),
                quote: m.asset_b.clone(),
                symbol: m.symbol.clone(),
                base_increment,
                quote_increment,
                min_base_trade_size: min_base,
                min_quote_trade_size: min_quote,
            },
        )
    }

    /// The market pair that Nash's market stands for; an error where a
    /// precision is out of range or a smallest trade cannot be read.
    pub fn from_native(m: &native::Market) -> (r: Result<MarketPair, OpenLimitsError>)
        ensures
            outcome(r) == pair_of(*m),
    {
        let base_increment = Decimal::new(1, m.precision_a);
        let quote_increment = Decimal::new(1, m.precision_b);
        let min_base = Decimal::parse(m.min_trade_size_a.as_str());
        let min_quote = Decimal::parse(m.min_trade_size_b.as_str());
        MarketPair::assemble(m, base_increment, quote_increment, min_base, min_quote)
    }
}

/// The market pairs that Nash's markets stand for, in order; the error of
/// the first that has none.
pub fn pairs_from_native(markets: &Vec<native::Market>) -> (r: Result<
    Vec<MarketPair>,
    OpenLimitsError,
>)
    ensures
        list_outcome(r) == pairs_of(markets@),
{
    let ghost f = pair_translation();
    let ghost s = markets@;
    let mut out: Vec<MarketPair> = Vec::new();
    let mut i: usize = 0;
    proof {
        assert(s.take(0) =~= Seq::<native::Market>::empty());
        lemma_views_empty(out@);
    }
    while i < markets.len()
        invariant
            i <= s.len(),
            s == markets@,
            f == pair_translation(),
            try_map(s.take(i as int), f) == Ok::<Seq<MarketPairView>, ErrorView>(views(out@)),
        decreases s.len() - i,
    {
        proof {
            lemma_try_map_step(s, f, i as int);
        }
        match MarketPair::from_native(&markets[i]) {
            Ok(p) => {
                proof {
                    lemma_views_push(out@, p);
                }
                out.push(p);
            },
            Err(e) => {
                proof {
                    lemma_try_map_fails(s, f, i as int + 1);
                }
                return Err(e);
            },
        }
        i += 1;
    }
    assert(s.take(i as int) =~= s);
    Ok(out)
}

} // verus!
