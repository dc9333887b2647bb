//! Measures of text and the clamping of sizes to what a cell count can hold.

use vstd::prelude::*;
use crate::helper::{greatest, least};

verus! {

/// The width of the longest of the lines whose widths are `widths`, zero if
/// there is none.
pub open spec fn widest(widths: Seq<usize>) -> int
    decreases widths.len(),
{
    if widths.len() == 0 {
        0
    } else {
        greatest(widest(widths.drop_last()), widths.last() as int)
    }
}

/// `widest` is no less than any of the widths, and is one of them unless
/// there is none.
pub proof fn lemma_widest(widths: Seq<usize>)
    ensures
        forall|i: int| 0 <= i < widths.len() ==> widths[i] <= widest(widths),
        widths.len() > 0 ==> exists|i: int| 0 <= i < widths.len() && widths[i] == widest(widths),
        widths.len() == 0 ==> widest(widths) == 0,
    decreases widths.len(),
{
    if widths.len() > 0 {
        let front = widths.drop_last();
        lemma_widest(front);
        assert forall|i: int| 0 <= i < widths.len() implies widths[i] <= widest(widths) by {
            if i < front.len() {
                assert(front[i] == widths[i]);
            }
        }
        if widest(widths) == widths.last() {
            assert(widths[widths.len() - 1] == widest(widths));
        } else {
            let i = choose|i: int| 0 <= i < front.len() && front[i] == widest(front);
            assert(widths[i] == widest(widths));
        }
    }
}

/// `n`, as far as a `u32` holds it without passing `u16::MAX`.
pub(crate) fn clamped(n: usize) -> (r: u32)
    ensures
        r == least(n as int, u16::MAX as int),
{
    if n > 0xffff {
        0xffff
    } else {
        n as u32
    }
}

/// `n`, as far as a `u16` holds it.
pub(crate) fn narrowed(n: u32) -> (r: u16)
    ensures
        r == least(n as int, u16::MAX as int),
{
    if n > 0xffff {
        0xffff
    } else {
        n as u16
    }
}

/// The width of the longest line: no line is wider, and unless there is no
/// line at all, one is as wide.
pub fn widest_line(widths: &Vec<usize>) -> (w: usize)
    ensures
        w == widest(widths@),
        forall|i: int| 0 <= i < widths@.len() ==> widths@[i] <= w,
        widths@.len() > 0 ==> exists|i: int| 0 <= i < widths@.len() && widths@[i] == w,
        widths@.len() == 0 ==> w == 0,
{
    proof {
        lemma_widest(widths@);
    }
    let mut w: usize = 0;
    let mut i: usize = 0;
    while i < widths.len()
        invariant
            i <= widths.len(),
            w == widest(widths@.take(i as int)),
        decreases widths.len() - i,
    {
        assert(widths@.take(i + 1).drop_last() =~= widths@.take(i as int));
        if widths[i] > w {
            w = widths[i];
        }
        i += 1;
    }
    assert(widths@.take(i as int) =~= widths@);
    w
}

} // verus!
