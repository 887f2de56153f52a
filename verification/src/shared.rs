//! Small helpers shared by the modules: optional texts and timestamps.
use vstd::prelude::*;

verus! {

/// The characters of an optional text.
pub open spec fn opt_text(t: Option<String>) -> Option<Seq<char>> {
    match t {
        Some(s) => Some(s@),
        None => None,
    }
}

/// The contents of a list, item by item.
pub open spec fn views<T: View>(s: Seq<T>) -> Seq<T::V> {
    s.map_values(|t: T| t@)
}

/// Pushing an item onto a list pushes its content onto the list's contents.
pub proof fn lemma_views_push<T: View>(s: Seq<T>, t: T)
    ensures
        views(s.push(t)) == views(s).push(t@),
{
    assert(views(s.push(t)) =~= views(s).push(t@));
}

/// The empty list has no contents.
pub proof fn lemma_views_empty<T: View>(s: Seq<T>)
    requires
        s.len() == 0,
    ensures
        views(s) == Seq::<T::V>::empty(),
{
    assert(views(s) =~= Seq::<T::V>::empty());
}

/// A copy of an optional text.
pub fn clone_opt_text(t: &Option<String>) -> (r: Option<String>)
    ensures
        r == *t,
{
    match t {
        Some(s) => Some(s.clone()),
        None => None,
    }
}

/// Two to the power 64.
pub open spec fn two_pow_64() -> int {
    0x1_0000_0000_0000_0000
}

/// The unsigned 64-bit number that has the bits of a signed one.
pub open spec fn reinterpreted(millis: int) -> int {
    if millis >= 0 {
        millis
    } else {
        millis + two_pow_64()
    }
}

/// A signed number as an unsigned one, as a timestamp or an update counter is held: the
/// number itself where it is not negative, its bits read as unsigned where it
/// is.
pub fn to_unsigned(millis: i64) -> (t: u64)
    ensures
        t == reinterpreted(millis as int),
{
    if millis >= 0 {
        millis as u64
    } else {
        let below: u64 = (-(millis + 1)) as u64;
        u64::MAX - below
    }
}

/// A timestamp in milliseconds as whole seconds and the nanoseconds left
/// over.
pub fn timestamp_parts(timestamp: u64) -> (r: (i64, u32))
    ensures
        r.0 == timestamp / 1000,
        r.1 == (timestamp % 1000) * 1_000_000,
        r.0 * 1000 + r.1 / 1_000_000 == timestamp,
{
    let seconds: i64 = (timestamp / 1000) as i64;
    let nanos: u32 = ((timestamp % 1000) * 1_000_000) as u32;
    (seconds, nanos)
}

/// Calls `chrono::Utc::now` and `timestamp_millis` on what it returns: the
/// clock's reading in milliseconds since the epoch. Nothing is claimed of the
/// reading. `chrono` panics where the system's clock reads a moment before
/// the epoch.
#[verifier::external_body]
pub(crate) fn clock_millis() -> i64 {
    chrono::Utc::now().timestamp_millis()
}

} // verus!
