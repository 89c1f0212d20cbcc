//! Picking the one item of a list that passes a test, and refusing to pick
//! when none or several do.

use itertools::Itertools;
use vstd::prelude::*;

verus! {

/// The only item of `s`, where `s` holds exactly one.
pub open spec fn sole<T>(s: Seq<T>) -> Option<T> {
    if s.len() == 1 {
        Some(s[0])
    } else {
        None
    }
}

/// The one item of `s` that passes `pred`, where exactly one does.
pub open spec fn sole_match<T>(s: Seq<T>, pred: spec_fn(T) -> bool) -> Option<T> {
    sole(s.filter(pred))
}

/// Calls `Itertools::collect_tuple` for a tuple of one item, which hands back
/// the item of an iterator that yields exactly one, and `None` for an iterator
/// that yields none or more than one. Verus takes this on trust.
#[verifier::external_body]
pub(crate) fn sole_item<T>(items: Vec<T>) -> (r: Option<T>)
    ensures
        r == sole(items@),
{
    items.into_iter().collect_tuple().map(|(item,)| item)
}

/// Where no item passes the test, none is picked.
pub proof fn lemma_no_match<T>(s: Seq<T>, pred: spec_fn(T) -> bool)
    requires
        forall|i: int| 0 <= i < s.len() ==> !pred(#[trigger] s[i]),
    ensures
        s.filter(pred).len() == 0,
        sole_match(s, pred) is None,
    decreases s.len(),
{
    reveal(Seq::filter);
    if s.len() > 0 {
        lemma_no_match(s.drop_last(), pred);
    }
}

/// Where the item at `i` passes the test and no other does, it is the one
/// picked.
pub proof fn lemma_one_match<T>(s: Seq<T>, pred: spec_fn(T) -> bool, i: int)
    requires
        0 <= i < s.len(),
        pred(s[i]),
        forall|j: int| 0 <= j < s.len() && j != i ==> !pred(#[trigger] s[j]),
    ensures
        s.filter(pred) == seq![s[i]],
        sole_match(s, pred) == Some(s[i]),
    decreases s.len(),
{
    reveal(Seq::filter);
    let front = s.drop_last();
    if i == s.len() - 1 {
        lemma_no_match(front, pred);
    } else {
        lemma_one_match(front, pred, i);
    }
}

/// Every item that passes the test adds to the count of those that do.
proof fn lemma_match_counts<T>(s: Seq<T>, pred: spec_fn(T) -> bool, i: int)
    requires
        0 <= i < s.len(),
        pred(s[i]),
    ensures
        s.take(i).filter(pred).len() < s.filter(pred).len(),
    decreases s.len(),
{
    reveal(Seq::filter);
    let front = s.drop_last();
    if i < s.len() - 1 {
        assert(front.take(i) == s.take(i));
        lemma_match_counts(front, pred, i);
    }
}

/// Where two different items pass the test, none is picked.
pub proof fn lemma_two_matches<T>(s: Seq<T>, pred: spec_fn(T) -> bool, i: int, j: int)
    requires
        0 <= i < j < s.len(),
        pred(s[i]),
        pred(s[j]),
    ensures
        s.filter(pred).len() >= 2,
        sole_match(s, pred) is None,
{
    lemma_match_counts(s, pred, j);
    lemma_match_counts(s.take(j), pred, i);
}

} // verus!
