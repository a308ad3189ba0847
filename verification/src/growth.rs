//! The growth of the listing: how the number of entries to show rises as
//! the view is scrolled towards the bottom, and where that ends.

use vstd::prelude::*;

verus! {

/// How near the bottom, in pixels, the view must come for the listing to
/// grow.
pub const SCROLL_MARGIN: i64 = 50;

/// Where the growth of the listing stands.
#[derive(Clone, Copy, Debug, PartialEq, Eq, Structural)]
pub enum Growth {
    /// The listing shows its first entries and has not grown.
    Idle,
    /// The listing has grown on a scroll signal.
    Growing,
    /// Scrolling cannot be followed: the listing no longer grows on scroll
    /// signals.
    Errored,
}

/// Whether the view has come within the margin of the bottom.
pub open spec fn near_bottom(scroll: i64, height: i64, offset: i64) -> bool {
    height + scroll > offset - SCROLL_MARGIN
}

/// Twice the number, or the highest number there is.
pub open spec fn doubled(count: usize) -> usize {
    if count + count > usize::MAX {
        usize::MAX
    } else {
        (count + count) as usize
    }
}

/// The number after `n` doublings.
pub open spec fn doubled_times(count: usize, n: nat) -> usize
    decreases n,
{
    if n == 0 {
        count
    } else {
        doubled(doubled_times(count, (n - 1) as nat))
    }
}

/// Two to the power of `n`.
pub open spec fn pow2(n: nat) -> nat
    decreases n,
{
    if n == 0 {
        1
    } else {
        2 * pow2((n - 1) as nat)
    }
}

/// Growth after a change of sort order, filter or page: back to `Idle`,
/// but for `Errored`, which nothing leaves.
pub open spec fn rested(growth: Growth) -> Growth {
    if growth == Growth::Errored {
        Growth::Errored
    } else {
        Growth::Idle
    }
}

/// Whether the view has come within the margin of the bottom.
pub fn is_near_bottom(scroll: i64, height: i64, offset: i64) -> (near: bool)
    ensures
        near == near_bottom(scroll, height, offset),
{
    let reach: i128 = height as i128 + scroll as i128;
    let line: i128 = offset as i128 - SCROLL_MARGIN as i128;
    reach > line
}

/// Twice the number, or the highest number there is.
pub fn double(count: usize) -> (twice: usize)
    ensures
        twice == doubled(count),
{
    if count > usize::MAX - count {
        usize::MAX
    } else {
        count + count
    }
}

/// Growth after a change of sort order, filter or page.
pub fn rest(growth: Growth) -> (next: Growth)
    ensures
        next == rested(growth),
{
    match growth {
        Growth::Errored => Growth::Errored,
        _ => Growth::Idle,
    }
}

/// `n` doublings multiply by 2^n, up to the highest number there is.
pub proof fn doubling_is_power(count: usize, n: nat)
    ensures
        count * pow2(n) <= usize::MAX ==> doubled_times(count, n) == count * pow2(n),
        count * pow2(n) > usize::MAX ==> doubled_times(count, n) == usize::MAX,
    decreases n,
{
    if n == 0 {
        assert(count * pow2(0) == count) by (nonlinear_arith)
            requires
                pow2(0) == 1,
        ;
    } else {
        let m = (n - 1) as nat;
        doubling_is_power(count, m);
        assert(count * pow2(n) == 2 * (count * pow2(m))) by (nonlinear_arith)
            requires
                pow2(n) == 2 * pow2(m),
        ;
        assert(count * pow2(m) >= 0) by (nonlinear_arith)
            requires
                count >= 0,
                pow2(m) >= 0,
        ;
    }
}

} // verus!
