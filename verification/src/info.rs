//! The cache of an exchange's tradable market pairs.
//!
//! The cache starts empty and not ready. A successful refresh replaces its
//! contents wholesale with the pairs that were retrieved and makes it ready;
//! a failed refresh leaves it as it was. A pair is looked up by its symbol.
use crate::decimal::{Decimal, DecimalParts, opt_view};
use crate::errors::{ErrorView, OpenLimitsError};
use crate::shared::{lemma_views_empty, lemma_views_push, views};
use vstd::prelude::*;

verus! {

/// A tradable pair of assets: its symbol, the two assets, the smallest step
/// of an amount of each, and the smallest trade in each where the exchange
/// has one.
#[derive(Clone, Debug, PartialEq, Eq)]
pub struct MarketPair {
    pub base: String,
    pub quote: String,
    pub symbol: String,
    pub base_increment: Decimal,
    pub quote_increment: Decimal,
    pub min_base_trade_size: Option<Decimal>,
    pub min_quote_trade_size: Option<Decimal>,
}

/// The mathematical content of a [`MarketPair`].
pub ghost struct MarketPairView {
    pub base: Seq<char>,
    pub quote: Seq<char>,
    pub symbol: Seq<char>,
    pub base_increment: DecimalParts,
    pub quote_increment: DecimalParts,
    pub min_base_trade_size: Option<DecimalParts>,
    pub min_quote_trade_size: Option<DecimalParts>,
}

impl View for MarketPair {
    type V = MarketPairView;

    open spec fn view(&self) -> MarketPairView {
        MarketPairView {
            base: self.base@,
            quote: self.quote@,
            symbol: self.symbol@,
            base_increment: self.base_increment@,
            quote_increment: self.quote_increment@,
            min_base_trade_size: opt_view(self.min_base_trade_size),
            min_quote_trade_size: opt_view(self.min_quote_trade_size),
        }
    }
}

impl MarketPair {
    /// A copy of the pair.
    pub fn duplicate(&self) -> (r: MarketPair)
        ensures
            r == *self,
    {
        MarketPair {
            base: self.base.clone(),
            quote: self.quote.clone(),
            symbol: self.symbol.clone(),
            base_increment: self.base_increment,
            quote_increment: self.quote_increment,
            min_base_trade_size: self.min_base_trade_size,
            min_quote_trade_size: self.min_quote_trade_size,
        }
    }
}

/// The snapshot that a list of pairs makes: every symbol of the list, with
/// the last pair of the list that has it.
pub open spec fn snapshot_of(pairs: Seq<MarketPairView>) -> Map<Seq<char>, MarketPairView>
    decreases pairs.len(),
{
    if pairs.len() == 0 {
        Map::empty()
    } else {
        snapshot_of(pairs.drop_last()).insert(pairs.last().symbol, pairs.last())
    }
}

/// Whether no two pairs of a list have the same symbol.
pub open spec fn distinct_symbols(pairs: Seq<MarketPairView>) -> bool {
    forall|i: int, j: int| 0 <= i < j < pairs.len() ==> pairs[i].symbol != pairs[j].symbol
}

/// Whether a symbol occurs in a list of pairs.
pub open spec fn has_symbol(pairs: Seq<MarketPairView>, symbol: Seq<char>) -> bool {
    exists|i: int| 0 <= i < pairs.len() && (#[trigger] pairs[i]).symbol == symbol
}

/// A snapshot knows exactly the symbols of its list.
pub proof fn lemma_snapshot_keys(pairs: Seq<MarketPairView>, symbol: Seq<char>)
    ensures
        snapshot_of(pairs).contains_key(symbol) <==> has_symbol(pairs, symbol),
    decreases pairs.len(),
{
    if pairs.len() > 0 {
        let front = pairs.drop_last();
        lemma_snapshot_keys(front, symbol);
        if has_symbol(pairs, symbol) {
            let i = choose|i: int| 0 <= i < pairs.len() && (#[trigger] pairs[i]).symbol == symbol;
            if i < front.len() {
                assert(front[i].symbol == symbol);
            }
        }
        if has_symbol(front, symbol) {
            let i = choose|i: int| 0 <= i < front.len() && (#[trigger] front[i]).symbol == symbol;
            assert(pairs[i].symbol == symbol);
        }
        if pairs.last().symbol == symbol {
            assert(pairs[pairs.len() - 1].symbol == symbol);
        }
    }
}

/// After a refresh with a list of pairs, each symbol of the list is known,
/// and stands for the last pair of the list that has it.
pub proof fn lemma_snapshot_holds_last(pairs: Seq<MarketPairView>, i: int)
    requires
        0 <= i < pairs.len(),
        forall|j: int| i < j < pairs.len() ==> pairs[j].symbol != pairs[i].symbol,
    ensures
        snapshot_of(pairs).contains_key(pairs[i].symbol),
        snapshot_of(pairs)[pairs[i].symbol] == pairs[i],
    decreases pairs.len(),
{
    if i < pairs.len() - 1 {
        let front = pairs.drop_last();
        assert(front[i] == pairs[i]);
        assert forall|j: int| i < j < front.len() implies front[j].symbol != front[i].symbol by {
            assert(front[j] == pairs[j]);
        }
        lemma_snapshot_holds_last(front, i);
        assert(pairs.last().symbol != pairs[i].symbol);
    }
}

/// In a list without repeated symbols, the snapshot holds each pair of the
/// list under its symbol.
pub proof fn lemma_snapshot_at(pairs: Seq<MarketPairView>, i: int)
    requires
        distinct_symbols(pairs),
        0 <= i < pairs.len(),
    ensures
        snapshot_of(pairs).contains_key(pairs[i].symbol),
        snapshot_of(pairs)[pairs[i].symbol] == pairs[i],
{
    lemma_snapshot_holds_last(pairs, i);
}

/// Replacing a pair of a list by one of the same symbol replaces it in the
/// snapshot, and repeats no symbol.
pub proof fn lemma_snapshot_update(pairs: Seq<MarketPairView>, j: int, p: MarketPairView)
    requires
        distinct_symbols(pairs),
        0 <= j < pairs.len(),
        pairs[j].symbol == p.symbol,
    ensures
        snapshot_of(pairs.update(j, p)) == snapshot_of(pairs).insert(p.symbol, p),
        distinct_symbols(pairs.update(j, p)),
    decreases pairs.len(),
{
    let updated = pairs.update(j, p);
    let front = pairs.drop_last();
    if j == pairs.len() - 1 {
        assert(updated.drop_last() =~= front);
        assert(snapshot_of(updated) =~= snapshot_of(pairs).insert(p.symbol, p));
    } else {
        assert(updated.drop_last() =~= front.update(j, p));
        assert(front[j] == pairs[j]);
        assert(distinct_symbols(front)) by {
            assert forall|a: int, b: int| 0 <= a < b < front.len() implies front[a].symbol
                != front[b].symbol by {
                assert(front[a] == pairs[a] && front[b] == pairs[b]);
            }
        }
        lemma_snapshot_update(front, j, p);
        assert(pairs.last().symbol != p.symbol);
        assert(snapshot_of(updated) =~= snapshot_of(pairs).insert(p.symbol, p));
    }
}

/// Adding a pair with a new symbol to a list repeats no symbol.
pub proof fn lemma_distinct_push(pairs: Seq<MarketPairView>, p: MarketPairView)
    requires
        distinct_symbols(pairs),
        !has_symbol(pairs, p.symbol),
    ensures
        distinct_symbols(pairs.push(p)),
{
    assert forall|i: int, j: int| 0 <= i < j < pairs.push(p).len() implies pairs.push(p)[i].symbol
        != pairs.push(p)[j].symbol by {
        if j == pairs.len() {
            assert(pairs[i].symbol != p.symbol);
        }
    }
}

/// The cache of an exchange's market pairs.
#[derive(Debug)]
pub struct ExchangeInfo {
    pairs: Vec<MarketPair>,
    ready: bool,
}

impl View for ExchangeInfo {
    type V = Map<Seq<char>, MarketPairView>;

    /// The snapshot: the pair that is known under each known symbol.
    closed spec fn view(&self) -> Map<Seq<char>, MarketPairView> {
        snapshot_of(views(self.pairs@))
    }
}

/// The place of a symbol in a list of pairs, where it has one.
fn position(pairs: &Vec<MarketPair>, symbol: &String) -> (r: Option<usize>)
    ensures
        match r {
            Some(i) => i < pairs.len() && pairs[i as int].symbol@ == symbol@,
            None => !has_symbol(views(pairs@), symbol@),
        },
{
    let mut i: usize = 0;
    while i < pairs.len()
        invariant
            i <= pairs.len(),
            forall|j: int| 0 <= j < i ==> pairs[j].symbol@ != symbol@,
        decreases pairs.len() - i,
    {
        if pairs[i].symbol == *symbol {
            return Some(i);
        }
        i += 1;
    }
    proof {
        let s = views(pairs@);
        if has_symbol(s, symbol@) {
            let j = choose|j: int| 0 <= j < s.len() && (#[trigger] s[j]).symbol == symbol@;
            assert(s[j] == pairs[j]@);
        }
    }
    None
}

impl ExchangeInfo {
    #[verifier::type_invariant]
    spec fn well_formed(self) -> bool {
        &&& distinct_symbols(views(self.pairs@))
        &&& !self.ready ==> self.pairs@.len() == 0
    }

    /// Whether a refresh has succeeded.
    pub closed spec fn is_ready(&self) -> bool {
        self.ready
    }

    /// An empty cache, which no refresh has filled yet: it knows no symbol.
    pub fn new() -> (r: ExchangeInfo)
        ensures
            r@ == Map::<Seq<char>, MarketPairView>::empty(),
            !r.is_ready(),
    {
        let pairs: Vec<MarketPair> = Vec::new();
        proof {
            lemma_views_empty(pairs@);
        }
        ExchangeInfo { pairs, ready: false }
    }

    /// Whether a refresh has succeeded.
    pub fn ready(&self) -> (r: bool)
        ensures
            r == self.is_ready(),
            !r ==> self@ == Map::<Seq<char>, MarketPairView>::empty(),
    {
        proof {
            use_type_invariant(self);
            if !self.ready {
                lemma_views_empty(self.pairs@);
            }
        }
        self.ready
    }

    /// The pair that the last successful refresh holds under the symbol;
    /// the error of an unknown market pair where it holds none, and so
    /// before any refresh has succeeded.
    pub fn get_pair(&self, name: &str) -> (r: Result<MarketPair, OpenLimitsError>)
        ensures
            match r {
                Ok(p) => self@.contains_key(name@) && self@[name@] == p@,
                Err(e) => !self@.contains_key(name@) && e@ == ErrorView::SymbolNotFound,
            },
    {
        let symbol = name.to_owned();
        proof {
            use_type_invariant(self);
            lemma_snapshot_keys(views(self.pairs@), name@);
        }
        match position(&self.pairs, &symbol) {
            Some(i) => {
                proof {
                    lemma_snapshot_at(views(self.pairs@), i as int);
                }
                Ok(self.pairs[i].duplicate())
            },
            None => Err(OpenLimitsError::SymbolNotFound),
        }
    }

    /// The pairs of the snapshot, each symbol once.
    pub fn list_pairs(&self) -> (r: Vec<MarketPair>)
        ensures
            distinct_symbols(views(r@)),
            snapshot_of(views(r@)) == self@,
    {
        proof {
            use_type_invariant(self);
        }
        let mut out: Vec<MarketPair> = Vec::new();
        let mut i: usize = 0;
        while i < self.pairs.len()
            invariant
                i <= self.pairs.len(),
                out@ == self.pairs@.take(i as int),
            decreases self.pairs.len() - i,
        {
            out.push(self.pairs[i].duplicate());
            assert(out@ =~= self.pairs@.take(i as int + 1));
            i += 1;
        }
        assert(out@ =~= self.pairs@);
        out
    }

    /// Ends a refresh with what was retrieved from the exchange.
    ///
    /// Where the retrieval succeeded, the snapshot is replaced wholesale by
    /// the pairs that were retrieved, the cache is ready, and the pairs of
    /// the new snapshot are returned. Where it failed, the cache stays as it
    /// was, and the error is returned.
    pub fn refresh(&mut self, retrieved: Result<Vec<MarketPair>, OpenLimitsError>) -> (r: Result<
        Vec<MarketPair>,
        OpenLimitsError,
    >)
        ensures
            match retrieved {
                Ok(pairs) => {
                    &&& final(self)@ == snapshot_of(views(pairs@))
                    &&& final(self).is_ready()
                    &&& r matches Ok(listed)
                    &&& distinct_symbols(views(listed@))
                    &&& snapshot_of(views(listed@)) == final(self)@
                },
                Err(e) => {
                    &&& final(self)@ == old(self)@
                    &&& final(self).is_ready() == old(self).is_ready()
                    &&& r == Err::<Vec<MarketPair>, OpenLimitsError>(e)
                },
            },
    {
        match retrieved {
            Ok(pairs) => {
                let fresh = distinct_pairs(&pairs);
                *self = ExchangeInfo { pairs: fresh, ready: true };
                Ok(self.list_pairs())
            },
            Err(e) => Err(e),
        }
    }
}

/// The pairs of a list, each symbol once: a pair replaces an earlier one of
/// the same symbol at that one's place.
pub fn distinct_pairs(pairs: &Vec<MarketPair>) -> (r: Vec<MarketPair>)
    ensures
        distinct_symbols(views(r@)),
        snapshot_of(views(r@)) == snapshot_of(views(pairs@)),
{
    let ghost s = views(pairs@);
    let mut out: Vec<MarketPair> = Vec::new();
    let mut i: usize = 0;
    proof {
        lemma_views_empty(out@);
        assert(s.take(0) =~= Seq::<MarketPairView>::empty());
    }
    while i < pairs.len()
        invariant
            i <= pairs.len(),
            s == views(pairs@),
            distinct_symbols(views(out@)),
            snapshot_of(views(out@)) == snapshot_of(s.take(i as int)),
        decreases pairs.len() - i,
    {
        let pair = pairs[i].duplicate();
        proof {
            assert(s.take(i as int + 1).drop_last() =~= s.take(i as int));
            assert(s.take(i as int + 1).last() == pair@);
        }
        match position(&out, &pair.symbol) {
            Some(j) => {
                proof {
                    lemma_snapshot_update(views(out@), j as int, pair@);
                    assert(views(out@.update(j as int, pair)) =~= views(out@).update(
                        j as int,
                        pair@,
                    ));
                }
                out.set(j, pair);
            },
            None => {
                proof {
                    lemma_distinct_push(views(out@), pair@);
                    lemma_views_push(out@, pair);
                    assert(views(out@).push(pair@).drop_last() =~= views(out@));
                }
                out.push(pair);
            },
        }
        i += 1;
    }
    assert(s.take(i as int) =~= s);
    out
}

/// A cache that no refresh has filled knows no symbol; after a refresh with
/// a list of pairs it knows every symbol of the list, and holds under it the
/// cached data of the last pair of that symbol.
pub proof fn lemma_known_after_refresh(pairs: Seq<MarketPairView>, symbol: Seq<char>)
    ensures
        !Map::<Seq<char>, MarketPairView>::empty().contains_key(symbol),
        has_symbol(pairs, symbol) ==> {
            &&& snapshot_of(pairs).contains_key(symbol)
            &&& snapshot_of(pairs)[symbol].symbol == symbol
            &&& exists|i: int|
                0 <= i < pairs.len() && snapshot_of(pairs)[symbol] == #[trigger] pairs[i]
        },
        !has_symbol(pairs, symbol) ==> !snapshot_of(pairs).contains_key(symbol),
    decreases pairs.len(),
{
    lemma_snapshot_keys(pairs, symbol);
    if pairs.len() > 0 {
        let front = pairs.drop_last();
        lemma_snapshot_keys(front, symbol);
        lemma_known_after_refresh(front, symbol);
        if pairs.last().symbol == symbol {
            assert(snapshot_of(pairs)[symbol] == pairs[pairs.len() - 1]);
        } else if has_symbol(pairs, symbol) {
            let i = choose|i: int|
                0 <= i < front.len() && snapshot_of(front)[symbol] == #[trigger] front[i];
            assert(snapshot_of(pairs)[symbol] == pairs[i]);
        }
    }
}

} // verus!
