//! Ghost histories.
//!
//! A history is the sequence of everything one layer has asked of the layer
//! below it, each entry with the answer it got.  A call extends the history;
//! its contract describes the entries it added.
use vstd::prelude::*;

verus! {

/// `after` continues `before`: nothing recorded is ever changed or lost.
pub open spec fn extends<T>(after: Seq<T>, before: Seq<T>) -> bool {
    before.is_prefix_of(after)
}

/// The entries of `after` that were recorded since `before`.
pub open spec fn added<T>(after: Seq<T>, before: Seq<T>) -> Seq<T>
    recommends
        extends(after, before),
{
    after.skip(before.len() as int)
}

/// One more entry continues a history, and is the last of what was added.
pub proof fn added_push<T>(after: Seq<T>, before: Seq<T>, entry: T)
    requires
        extends(after, before),
    ensures
        extends(after.push(entry), before),
        added(after.push(entry), before) == added(after, before).push(entry),
{
    assert(after.push(entry).subrange(0, before.len() as int) =~= after.subrange(
        0,
        before.len() as int,
    ));
    assert(added(after.push(entry), before) =~= added(after, before).push(entry));
}

/// Continuing a continuation continues the first history, and what was
/// added in all is what was added in the two steps, in that order.
pub proof fn added_chain<T>(last: Seq<T>, middle: Seq<T>, first: Seq<T>)
    requires
        extends(middle, first),
        extends(last, middle),
    ensures
        extends(last, first),
        added(last, first) == added(middle, first) + added(last, middle),
{
    assert(middle =~= last.subrange(0, middle.len() as int));
    assert(last.subrange(0, first.len() as int) =~= middle.subrange(0, first.len() as int));
    assert(added(last, first) =~= added(middle, first) + added(last, middle));
}

} // verus!
