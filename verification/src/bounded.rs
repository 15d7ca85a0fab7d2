//! Bounded buffers: a queue that keeps only its newest entries.
//!
//! The dashboard holds two kinds of them. A metric's series grows at the back
//! and loses its oldest point at the front; the list of recent updates grows
//! at the front, newest first, and loses its oldest line at the back.

use std::collections::VecDeque;
use vstd::prelude::*;

verus! {

/// How many points a metric's series keeps.
pub const MAX_POINTS: usize = 100;

/// How many update lines the dashboard keeps.
pub const MAX_UPDATES: usize = 100;

/// `buf` after `item` went in at the back: when that makes more than `cap`
/// entries, the front one leaves.
pub open spec fn push_back_bounded<T>(buf: Seq<T>, item: T, cap: nat) -> Seq<T> {
    let grown = buf.push(item);
    if grown.len() > cap {
        grown.drop_first()
    } else {
        grown
    }
}

/// `buf` after `item` went in at the front: when that makes more than `cap`
/// entries, the back one leaves.
pub open spec fn push_front_bounded<T>(buf: Seq<T>, item: T, cap: nat) -> Seq<T> {
    let grown = seq![item] + buf;
    if grown.len() > cap {
        grown.drop_last()
    } else {
        grown
    }
}

/// `buf` after every entry of `items` went in at the back, first to last.
pub open spec fn push_all_back<T>(buf: Seq<T>, items: Seq<T>, cap: nat) -> Seq<T>
    decreases items.len(),
{
    if items.len() == 0 {
        buf
    } else {
        push_back_bounded(push_all_back(buf, items.drop_last(), cap), items.last(), cap)
    }
}

/// `buf` after every entry of `items` went in at the front, first to last.
pub open spec fn push_all_front<T>(buf: Seq<T>, items: Seq<T>, cap: nat) -> Seq<T>
    decreases items.len(),
{
    if items.len() == 0 {
        buf
    } else {
        push_front_bounded(push_all_front(buf, items.drop_last(), cap), items.last(), cap)
    }
}

/// The last `cap` entries of `items`, or all of them if there are fewer.
pub open spec fn newest<T>(items: Seq<T>, cap: nat) -> Seq<T> {
    if items.len() <= cap {
        items
    } else {
        items.skip(items.len() - cap)
    }
}

/// A buffer within its capacity stays within it when an entry goes in at the
/// back.
pub proof fn lemma_push_back_bounded_len<T>(buf: Seq<T>, item: T, cap: nat)
    requires
        buf.len() <= cap,
        cap >= 1,
    ensures
        push_back_bounded(buf, item, cap).len() <= cap,
        push_back_bounded(buf, item, cap).len() == if buf.len() < cap {
            buf.len() + 1
        } else {
            cap
        },
        push_back_bounded(buf, item, cap).last() == item,
{
}

/// A buffer within its capacity stays within it when an entry goes in at the
/// front.
pub proof fn lemma_push_front_bounded_len<T>(buf: Seq<T>, item: T, cap: nat)
    requires
        buf.len() <= cap,
        cap >= 1,
    ensures
        push_front_bounded(buf, item, cap).len() <= cap,
        push_front_bounded(buf, item, cap).len() == if buf.len() < cap {
            buf.len() + 1
        } else {
            cap
        },
        push_front_bounded(buf, item, cap)[0] == item,
{
}

/// Eviction at the front is first in, first out: an empty buffer that took
/// `items` one by one holds the last `cap` of them, in the order they came.
pub proof fn lemma_push_all_back_keeps_newest<T>(items: Seq<T>, cap: nat)
    requires
        cap >= 1,
    ensures
        push_all_back(Seq::<T>::empty(), items, cap) == newest(items, cap),
    decreases items.len(),
{
    if items.len() > 0 {
        lemma_push_all_back_keeps_newest(items.drop_last(), cap);
    }
}

/// Eviction at the back drops the oldest too: an empty buffer that took
/// `items` one by one at the front holds the last `cap` of them, the most
/// recent first.
pub proof fn lemma_push_all_front_keeps_newest<T>(items: Seq<T>, cap: nat)
    requires
        cap >= 1,
    ensures
        push_all_front(Seq::<T>::empty(), items, cap) == newest(items, cap).reverse(),
    decreases items.len(),
{
    if items.len() > 0 {
        lemma_push_all_front_keeps_newest(items.drop_last(), cap);
    }
}

/// Appends `item` and evicts the front entry if the buffer then holds more
/// than `cap`.
pub fn push_back_evict<T>(buf: &mut VecDeque<T>, item: T, cap: usize)
    ensures
        final(buf)@ == push_back_bounded(old(buf)@, item, cap as nat),
{
    buf.push_back(item);
    if buf.len() > cap {
        let _ = buf.pop_front();
    }
}

/// Prepends `item` and evicts the back entry if the buffer then holds more
/// than `cap`.
pub fn push_front_evict<T>(buf: &mut VecDeque<T>, item: T, cap: usize)
    ensures
        final(buf)@ == push_front_bounded(old(buf)@, item, cap as nat),
{
    buf.push_front(item);
    if buf.len() > cap {
        let _ = buf.pop_back();
    }
}

} // verus!
