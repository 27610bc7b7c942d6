//! Text and sequences of text, as the contracts of this crate see them.

use vstd::prelude::*;

verus! {

/// `String::push` (std) appends one character to the end of the string and
/// leaves the characters before it as they were.
pub assume_specification[ String::push ](s: &mut String, c: char)
    ensures
        final(s)@ == old(s)@.push(c),
;

/// The views of the items of a sequence, in order.
pub open spec fn views<T: View>(items: Seq<T>) -> Seq<T::V> {
    Seq::new(items.len(), |i: int| items[i]@)
}

/// The view of an optional value.
pub open spec fn optional_view<T: View>(item: Option<T>) -> Option<T::V> {
    match item {
        Some(t) => Some(t@),
        None => None,
    }
}

/// Pushing an item pushes its view.
pub proof fn lemma_views_push<T: View>(items: Seq<T>, item: T)
    ensures
        views(items.push(item)) == views(items).push(item@),
{
    assert(views(items.push(item)) =~= views(items).push(item@));
}

/// The views of a prefix that is one item longer.
pub proof fn lemma_views_take_next<T: View>(items: Seq<T>, n: int)
    requires
        0 <= n < items.len(),
    ensures
        views(items.take(n + 1)) == views(items.take(n)).push(items[n]@),
{
    assert(views(items.take(n + 1)) =~= views(items.take(n)).push(items[n]@));
}

/// The views of the whole sequence, taken as a prefix.
pub proof fn lemma_views_take_all<T: View>(items: Seq<T>)
    ensures
        views(items.take(items.len() as int)) == views(items),
{
    assert(items.take(items.len() as int) =~= items);
}

/// A copy of a list of strings.
pub fn clone_strings(items: &Vec<String>) -> (copy: Vec<String>)
    ensures
        views(copy@) == views(items@),
{
    let mut copy: Vec<String> = Vec::new();
    for i in 0..items.len()
        invariant
            views(copy@) == views(items@.take(i as int)),
    {
        let item = items[i].clone();
        proof {
            lemma_views_push(copy@, item);
            lemma_views_take_next(items@, i as int);
        }
        copy.push(item);
    }
    proof {
        lemma_views_take_all(items@);
    }
    copy
}

} // verus!
