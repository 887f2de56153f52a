//! Translating a list item by item, where the translation of an item can
//! fail: the result is the list of the translations, or the error of the
//! first item that has none.
use vstd::prelude::*;

verus! {

/// The translations of the items of `s` under `f`, in order; the error of the
/// first item whose translation fails, where there is one.
pub open spec fn try_map<A, B, E>(s: Seq<A>, f: spec_fn(A) -> Result<B, E>) -> Result<Seq<B>, E>
    decreases s.len(),
{
    if s.len() == 0 {
        Ok(Seq::empty())
    } else {
        match try_map(s.drop_last(), f) {
            Err(e) => Err(e),
            Ok(done) => match f(s.last()) {
                Err(e) => Err(e),
                Ok(b) => Ok(done.push(b)),
            },
        }
    }
}

/// Translating one item more extends the translation of the items before it.
pub proof fn lemma_try_map_step<A, B, E>(s: Seq<A>, f: spec_fn(A) -> Result<B, E>, i: int)
    requires
        0 <= i < s.len(),
    ensures
        try_map(s.take(i + 1), f) == match try_map(s.take(i), f) {
            Err(e) => Err(e),
            Ok(done) => match f(s[i]) {
                Err(e) => Err(e),
                Ok(b) => Ok(done.push(b)),
            },
        },
{
    assert(s.take(i + 1).drop_last() =~= s.take(i));
    assert(s.take(i + 1).last() == s[i]);
}

/// An error among the first items is the error of the whole list.
pub proof fn lemma_try_map_fails<A, B, E>(s: Seq<A>, f: spec_fn(A) -> Result<B, E>, i: int)
    requires
        0 <= i <= s.len(),
        try_map(s.take(i), f) is Err,
    ensures
        try_map(s, f) == try_map(s.take(i), f),
    decreases s.len() - i,
{
    if i == s.len() {
        assert(s.take(i) =~= s);
    } else {
        lemma_try_map_step(s, f, i);
        lemma_try_map_fails(s, f, i + 1);
    }
}

/// The translation succeeds exactly where every item has a translation, and
/// then holds the translation of each item at the item's place.
pub proof fn lemma_try_map_ok<A, B, E>(s: Seq<A>, f: spec_fn(A) -> Result<B, E>)
    ensures
        try_map(s, f) is Ok <==> forall|i: int| 0 <= i < s.len() ==> (#[trigger] f(s[i])) is Ok,
        try_map(s, f) matches Ok(out) ==> {
            &&& out.len() == s.len()
            &&& forall|i: int| 0 <= i < s.len() ==> f(s[i]) == Ok::<B, E>(#[trigger] out[i])
        },
    decreases s.len(),
{
    if s.len() > 0 {
        let front = s.drop_last();
        lemma_try_map_ok(front, f);
        assert forall|i: int| 0 <= i < front.len() implies front[i] == s[i] by {}
        if try_map(front, f) is Ok && f(s.last()) is Ok {
            assert forall|i: int| 0 <= i < s.len() implies (#[trigger] f(s[i])) is Ok by {
                if i < front.len() {
                    assert(front[i] == s[i]);
                }
            }
        } else if try_map(front, f) is Err {
            let i = choose|i: int| 0 <= i < front.len() && !((#[trigger] f(front[i])) is Ok);
            assert(front[i] == s[i]);
        }
        if let Ok(out) = try_map(s, f) {
            let done = try_map(front, f)->Ok_0;
            assert forall|i: int| 0 <= i < s.len() implies f(s[i]) == Ok::<B, E>(
                #[trigger] out[i],
            ) by {
                if i < front.len() {
                    assert(front[i] == s[i]);
                    assert(out[i] == done[i]);
                }
            }
        }
    }
}

} // verus!
