//! The balances of the account. Nash reports, asset by asset, what is free to
//! trade and what is held in open orders; the total of an asset is their sum.
use crate::decimal::{Decimal, DecimalParts, opt_view, parse_of, sum_of};
use crate::errors::{
    ErrorView, OpenLimitsError, decimal_error, list_outcome, outcome, overflow_error,
};
use crate::model::{Balance, BalanceView};
use crate::nash::native::{AssetAmount, ListAccountBalancesResponse};
use crate::sequence::{lemma_try_map_fails, lemma_try_map_step, try_map};
use crate::shared::{lemma_views_empty, lemma_views_push, views};
use vstd::prelude::*;

verus! {

/// The amount of the first entry from place `i` on that names the asset.
pub open spec fn amount_from(entries: Seq<AssetAmount>, asset: Seq<char>, i: int) -> Option<
    Seq<char>,
>
    decreases entries.len() - i,
{
    if i < 0 || i >= entries.len() {
        None
    } else if entries[i].asset@ == asset {
        Some(entries[i].amount@)
    } else {
        amount_from(entries, asset, i + 1)
    }
}

/// The amount that the entries report for an asset, where they name it.
pub open spec fn amount_of(entries: Seq<AssetAmount>, asset: Seq<char>) -> Option<Seq<char>> {
    amount_from(entries, asset, 0)
}

/// The balance of an asset whose free amount, amount in orders and total are
/// known: it fails where the total could not be represented.
pub open spec fn synthesized(
    asset: Seq<char>,
    free: DecimalParts,
    total: Option<DecimalParts>,
) -> Result<BalanceView, ErrorView> {
    match total {
        Some(total) => Ok(BalanceView { asset, total, free }),
        None => Err(overflow_error()),
    }
}

/// The balance of an asset, from the texts that the exchange reports: the
/// free amount and, where the exchange names the asset among the amounts in
/// orders, that amount.
pub open spec fn balance_of(asset: Seq<char>, free: Seq<char>, held: Option<Seq<char>>) -> Result<
    BalanceView,
    ErrorView,
> {
    match parse_of(free) {
        None => Err(decimal_error()),
        Some(free) => match held {
            None => Err(ErrorView::AssetNotFound),
            Some(held) => match parse_of(held) {
                None => Err(decimal_error()),
                Some(held) => synthesized(asset, free, sum_of(free, held)),
            },
        },
    }
}

/// The balance of one entry of the free amounts, given the amounts in orders.
pub open spec fn entry_balance(held: Seq<AssetAmount>) -> spec_fn(AssetAmount) -> Result<
    BalanceView,
    ErrorView,
> {
    |e: AssetAmount| balance_of(e.asset@, e.amount@, amount_of(held, e.asset@))
}

/// The balances of every asset that the exchange reports a free amount of, in
/// the order of the report.
pub open spec fn balances_of(resp: ListAccountBalancesResponse) -> Result<
    Seq<BalanceView>,
    ErrorView,
> {
    try_map(resp.state_channel@, entry_balance(resp.in_orders@))
}

/// The total of a synthesized balance is the sum, in decimal arithmetic, of
/// its free amount and the amount that the exchange reports in orders.
pub proof fn lemma_total_is_free_plus_in_orders(
    asset: Seq<char>,
    free: Seq<char>,
    held: Option<Seq<char>>,
)
    requires
        balance_of(asset, free, held) is Ok,
    ensures
        held is Some,
        parse_of(held->Some_0) is Some,
        parse_of(free) == Some(balance_of(asset, free, held)->Ok_0.free),
        sum_of(balance_of(asset, free, held)->Ok_0.free, parse_of(held->Some_0)->Some_0) == Some(
            balance_of(asset, free, held)->Ok_0.total,
        ),
{
}

/// Looks an asset up among the entries.
pub fn find_amount<'a>(entries: &'a Vec<AssetAmount>, asset: &String) -> (r: Option<&'a String>)
    ensures
        match r {
            Some(amount) => amount_of(entries@, asset@) == Some(amount@),
            None => amount_of(entries@, asset@) is None,
        },
{
    let mut i: usize = 0;
    while i < entries.len()
        invariant
            i <= entries.len(),
            amount_of(entries@, asset@) == amount_from(entries@, asset@, i as int),
        decreases entries.len() - i,
    {
        if entries[i].asset == *asset {
            return Some(&entries[i].amount);
        }
        i += 1;
    }
    None
}

/// The balance of an asset from its free amount and its total, where the
/// total could be represented.
pub fn synthesize_balance(asset: String, free: Decimal, total: Option<Decimal>) -> (r: Result<
    Balance,
    OpenLimitsError,
>)
    ensures
        outcome(r) == synthesized(asset@, free@, opt_view(total)),
{
    match total {
        Some(total) => Ok(Balance { asset, total, free }),
        None => Err(OpenLimitsError::overflow()),
    }
}

/// The balance of an asset, from the texts that the exchange reports for it.
pub fn balance_from_native(asset: &String, free: &String, held: Option<&String>) -> (r: Result<
    Balance,
    OpenLimitsError,
>)
    ensures
        outcome(r) == balance_of(
            asset@,
            free@,
            match held {
                Some(h) => Some(h@),
                None => None,
            },
        ),
{
    let free = match Decimal::parse(free.as_str()) {
        Some(d) => d,
        None => { return Err(OpenLimitsError::not_a_decimal()); },
    };
    let held = match held {
        Some(h) => h,
        None => { return Err(OpenLimitsError::AssetNotFound); },
    };
    let held = match Decimal::parse(held.as_str()) {
        Some(d) => d,
        None => { return Err(OpenLimitsError::not_a_decimal()); },
    };
    synthesize_balance(asset.clone(), free, free.checked_add(held))
}

/// The balances of the account: one for every asset that the exchange reports
/// a free amount of, in the order of the report. The first asset whose
/// amounts cannot be read, or that is missing among the amounts in orders,
/// fails the whole.
pub fn balances_from_native(resp: &ListAccountBalancesResponse) -> (r: Result<
    Vec<Balance>,
    OpenLimitsError,
>)
    ensures
        list_outcome(r) == balances_of(*resp),
{
    let ghost f = entry_balance(resp.in_orders@);
    let ghost s = resp.state_channel@;
    let mut balances: Vec<Balance> = Vec::new();
    let mut i: usize = 0;
    proof {
        assert(s.take(0) =~= Seq::<AssetAmount>::empty());
        lemma_views_empty(balances@);
    }
    while i < resp.state_channel.len()
        invariant
            i <= s.len(),
            s == resp.state_channel@,
            f == entry_balance(resp.in_orders@),
            try_map(s.take(i as int), f) == Ok::<Seq<BalanceView>, ErrorView>(views(balances@)),
        decreases s.len() - i,
    {
        let entry = &resp.state_channel[i];
        let held = find_amount(&resp.in_orders, &entry.asset);
        proof {
            lemma_try_map_step(s, f, i as int);
        }
        match balance_from_native(&entry.asset, &entry.amount, held) {
            Ok(b) => {
                proof {
                    lemma_views_push(balances@, b);
                }
                balances.push(b);
            },
            Err(e) => {
                proof {
                    lemma_try_map_fails(s, f, i as int + 1);
                }
                return Err(e);
            },
        }
        i += 1;
    }
    assert(s.take(i as int) =~= s);
    Ok(balances)
}

} // verus!
