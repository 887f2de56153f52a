//! The paginator of the model, translated to what Nash takes: a cursor, a
//! limit and a window of time; and back.
use crate::errors::{ErrorView, OpenLimitsError};
use crate::model::{Paginator, PaginatorView};
use crate::nash::native::DateTimeRange;
use crate::shared::opt_text;
use vstd::prelude::*;

verus! {

/// What Nash takes for a page: the cursor, the limit, the window of time.
pub ghost struct SplitView {
    pub before: Option<Seq<char>>,
    pub limit: Option<i64>,
    pub range: Option<DateTimeRange>,
}

/// The error of a limit that Nash's integers cannot hold.
pub open spec fn limit_error() -> ErrorView {
    ErrorView::InvalidParameter("Couldn't convert paginator limit to i64"@)
}

/// The error of a window of time of which one end is missing.
pub open spec fn window_error() -> ErrorView {
    ErrorView::InvalidParameter("Paginator time window requires both start and end time"@)
}

/// The error of a limit of Nash that is negative.
pub open spec fn native_limit_error() -> ErrorView {
    ErrorView::InvalidParameter("Couldn't convert native limit to u64"@)
}

/// Whether a paginator can be handed to Nash: its limit fits Nash's integers,
/// and its window of time has both ends or none.
pub open spec fn splittable(p: PaginatorView) -> bool {
    &&& p.limit matches Some(l) ==> l <= i64::MAX
    &&& p.start_time is Some <==> p.end_time is Some
}

/// What Nash takes for a paginator. The limit is checked before the window.
/// Without a paginator Nash is given no cursor, no limit and no window.
pub open spec fn split_of(p: Option<PaginatorView>) -> Result<SplitView, ErrorView> {
    match p {
        None => Ok(SplitView { before: None, limit: None, range: None }),
        Some(p) => if p.limit is Some && p.limit->Some_0 > i64::MAX {
            Err(limit_error())
        } else if p.start_time is Some != p.end_time is Some {
            Err(window_error())
        } else {
            Ok(
                SplitView {
                    before: p.before,
                    limit: match p.limit {
                        Some(l) => Some(l as i64),
                        None => None,
                    },
                    range: match p.start_time {
                        Some(start) => Some(DateTimeRange { start, stop: p.end_time->Some_0 }),
                        None => None,
                    },
                },
            )
        },
    }
}

/// The paginator that stands for a cursor, a limit and a window of Nash. It
/// has no cursor for what comes after, as Nash has none.
pub open spec fn joined(s: SplitView) -> Result<PaginatorView, ErrorView> {
    if s.limit is Some && s.limit->Some_0 < 0 {
        Err(native_limit_error())
    } else {
        Ok(
            PaginatorView {
                start_time: match s.range {
                    Some(r) => Some(r.start),
                    None => None,
                },
                end_time: match s.range {
                    Some(r) => Some(r.stop),
                    None => None,
                },
                limit: match s.limit {
                    Some(l) => Some(l as u64),
                    None => None,
                },
                before: s.before,
                after: None,
            },
        )
    }
}

/// The content of an optional paginator.
pub open spec fn opt_paginator_view(p: Option<Paginator>) -> Option<PaginatorView> {
    match p {
        Some(p) => Some(p@),
        None => None,
    }
}

/// Splits a paginator into what Nash takes: the cursor, unchanged; the limit,
/// as a signed integer; the window of time, where the paginator has both
/// ends.
///
/// It fails, before anything is sent, where the limit does not fit a signed
/// 64-bit integer, and where the paginator has one end of a window without
/// the other.
pub fn try_split_paginator(paginator: Option<Paginator>) -> (r: Result<
    (Option<String>, Option<i64>, Option<DateTimeRange>),
    OpenLimitsError,
>)
    ensures
        match r {
            Ok((before, limit, range)) => split_of(opt_paginator_view(paginator)) == Ok::<
                SplitView,
                ErrorView,
            >(SplitView { before: opt_text(before), limit, range }),
            Err(e) => split_of(opt_paginator_view(paginator)) == Err::<SplitView, ErrorView>(e@),
        },
        r is Ok <==> (paginator matches Some(p) ==> splittable(p@)),
{
    match paginator {
        Some(paginator) => {
            let limit: Option<i64> = match paginator.limit {
                Some(v) => {
                    if v > 0x7fff_ffff_ffff_ffffu64 {
                        return Err(
                            OpenLimitsError::invalid_parameter(
                                "Couldn't convert paginator limit to i64",
                            ),
                        );
                    }
                    Some(v as i64)
                },
                None => None,
            };
            let range = match (paginator.start_time, paginator.end_time) {
                (Some(start), Some(stop)) => Some(DateTimeRange { start, stop }),
                (None, None) => None,
                _ => {
                    return Err(
                        OpenLimitsError::invalid_parameter(
                            "Paginator time window requires both start and end time",
                        ),
                    );
                },
            };
            Ok((paginator.before, limit, range))
        },
        None => Ok((None, None, None)),
    }
}

/// The paginator that stands for a cursor, a limit and a window of Nash: the
/// cursor, unchanged; the limit, as an unsigned integer; the two ends of the
/// window. It fails where the limit is negative.
pub fn join_paginator(
    before: Option<String>,
    limit: Option<i64>,
    range: Option<DateTimeRange>,
) -> (r: Result<Paginator, OpenLimitsError>)
    ensures
        crate::errors::outcome(r) == joined(SplitView { before: opt_text(before), limit, range }),
{
    let limit: Option<u64> = match limit {
        Some(v) => {
            if v < 0 {
                return Err(
                    OpenLimitsError::invalid_parameter("Couldn't convert native limit to u64"),
                );
            }
            Some(v as u64)
        },
        None => None,
    };
    let (start_time, end_time) = match range {
        Some(r) => (Some(r.start), Some(r.stop)),
        None => (None, None),
    };
    Ok(Paginator { start_time, end_time, limit, before, after: None })
}

/// A paginator that can be handed to Nash comes back from Nash with its
/// cursor, its limit and its window unchanged.
pub proof fn lemma_paginator_round_trip(p: PaginatorView)
    requires
        splittable(p),
    ensures
        split_of(Some(p)) is Ok,
        split_of(Some(p))->Ok_0.before == p.before,
        joined(split_of(Some(p))->Ok_0) == Ok::<PaginatorView, ErrorView>(
            PaginatorView { after: None, ..p },
        ),
{
}

/// What Nash takes for a page comes back from the model unchanged, where its
/// limit is not negative.
pub proof fn lemma_split_round_trip(s: SplitView)
    requires
        s.limit matches Some(l) ==> l >= 0,
    ensures
        joined(s) is Ok,
        split_of(Some(joined(s)->Ok_0)) == Ok::<SplitView, ErrorView>(s),
{
}

/// A paginator with one end of a window of time and not the other is
/// rejected, and so is one whose limit Nash's integers cannot hold.
pub proof fn lemma_partial_window_rejected(p: PaginatorView)
    requires
        !splittable(p),
    ensures
        split_of(Some(p)) is Err,
        (p.limit matches Some(l) ==> l <= i64::MAX) ==> split_of(Some(p)) == Err::<
            SplitView,
            ErrorView,
        >(window_error()),
{
}

} // verus!
