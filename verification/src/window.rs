//! Bounded histories: what a push keeps, and the newest samples of one.

use vstd::prelude::*;
use std::collections::VecDeque;

verus! {

/// A ring after a push: when it already holds `cap` items or more, the
/// oldest leaves before the new one enters.
pub open spec fn ring_pushed<T>(buf: Seq<T>, cap: int, x: T) -> Seq<T> {
    if buf.len() >= cap && buf.len() > 0 {
        buf.skip(1).push(x)
    } else {
        buf.push(x)
    }
}

/// A trailing history after a push: the new item enters, and the oldest
/// leaves where that made more than `cap` items.
pub open spec fn trail_pushed<T>(buf: Seq<T>, cap: int, x: T) -> Seq<T> {
    if buf.len() + 1 > cap {
        buf.push(x).skip(1)
    } else {
        buf.push(x)
    }
}

/// The smaller of the two.
pub open spec fn at_most(n: int, len: int) -> int {
    if n < len {
        n
    } else {
        len
    }
}

/// The `n` newest items of a history, newest first; all of them where it
/// holds fewer.
pub open spec fn newest_first<T>(buf: Seq<T>, n: int) -> Seq<T> {
    Seq::new(at_most(n, buf.len() as int) as nat, |i: int| buf[buf.len() - 1 - i])
}

/// Pushes into a ring of capacity `factor * unit`.
pub fn push_ring<T>(buf: &mut VecDeque<T>, unit: usize, factor: usize, x: T)
    requires
        factor > 0,
    ensures
        final(buf)@ == ring_pushed(old(buf)@, factor * unit, x),
{
    let len: usize = buf.len();
    assert((len / factor >= unit) == (len >= factor * unit)) by (nonlinear_arith)
        requires
            factor > 0,
            len >= 0,
            unit >= 0,
    ;
    if len / factor >= unit {
        let gone = buf.pop_front();
        assert(len > 0 ==> buf@ =~= old(buf)@.skip(1));
    }
    buf.push_back(x);
}

/// Pushes into a trailing history that keeps `cap` items.
pub fn push_trail<T>(buf: &mut Vec<T>, cap: usize, x: T)
    ensures
        final(buf)@ == trail_pushed(old(buf)@, cap as int, x),
{
    buf.push(x);
    if buf.len() > cap {
        let gone = buf.remove(0);
        assert(buf@ =~= old(buf)@.push(x).skip(1));
    }
}

/// Copies the `n` newest items, newest first.
pub fn recent<T: Copy>(buf: &VecDeque<T>, n: usize) -> (out: Vec<T>)
    ensures
        out@ == newest_first(buf@, n as int),
{
    let len: usize = buf.len();
    let m: usize = if n < len { n } else { len };
    let mut out: Vec<T> = Vec::new();
    let mut i: usize = 0;
    while i < m
        invariant
            i <= m <= len,
            len == buf@.len(),
            out@.len() == i,
            forall|j: int| 0 <= j < i ==> out@[j] == buf@[len - 1 - j],
        decreases m - i,
    {
        out.push(buf[len - 1 - i]);
        i += 1;
    }
    assert(out@ =~= newest_first(buf@, n as int));
    out
}

/// The newest item.
pub fn newest<T: Copy>(buf: &VecDeque<T>) -> (r: Option<T>)
    ensures
        buf@.len() == 0 ==> r is None,
        buf@.len() > 0 ==> r == Some(buf@[buf@.len() - 1]),
{
    let len: usize = buf.len();
    if len == 0 {
        None
    } else {
        Some(buf[len - 1])
    }
}

/// The two newest items, the newest first.
pub fn newest_pair<T: Copy>(buf: &VecDeque<T>) -> (r: Option<(T, T)>)
    ensures
        buf@.len() < 2 ==> r is None,
        buf@.len() >= 2 ==> r == Some((buf@[buf@.len() - 1], buf@[buf@.len() - 2])),
{
    let len: usize = buf.len();
    if len < 2 {
        None
    } else {
        Some((buf[len - 1], buf[len - 2]))
    }
}

/// A ring never outgrows its capacity, but for the one item that a ring
/// of no capacity still holds.
pub proof fn lemma_ring_bounded<T>(buf: Seq<T>, cap: int, x: T)
    requires
        buf.len() <= cap || buf.len() <= 1,
    ensures
        ring_pushed(buf, cap, x).len() <= cap || ring_pushed(buf, cap, x).len() <= 1,
        ring_pushed(buf, cap, x).len() >= 1,
        ring_pushed(buf, cap, x).last() == x,
{
}

/// A trailing history never outgrows its capacity, and below it nothing
/// is lost.
pub proof fn lemma_trail_bounded<T>(buf: Seq<T>, cap: int, x: T)
    requires
        0 <= cap,
        buf.len() <= cap,
    ensures
        trail_pushed(buf, cap, x).len() <= cap,
        buf.len() < cap ==> trail_pushed(buf, cap, x) == buf.push(x),
        cap > 0 ==> trail_pushed(buf, cap, x).last() == x,
{
}

} // verus!
