//! Selection of an FFT-efficient padding dimension: the smallest 5-smooth
//! number (no prime factors other than 2, 3 and 5) at least as large as the
//! observed frame dimension.

use vstd::prelude::*;

verus! {

/// `n` is 5-smooth: positive with no prime factors other than 2, 3 and 5.
pub open spec fn five_smooth(n: int) -> bool
    decreases n,
{
    if n <= 0 {
        false
    } else if n == 1 {
        true
    } else if n % 2 == 0 {
        five_smooth(n / 2)
    } else if n % 3 == 0 {
        five_smooth(n / 3)
    } else if n % 5 == 0 {
        five_smooth(n / 5)
    } else {
        false
    }
}

/// `n` is the smallest 5-smooth number that is at least `x`.
pub open spec fn is_closest_efficient_size(x: int, n: int) -> bool {
    &&& n >= x
    &&& five_smooth(n)
    &&& forall|m: int| x <= m < n ==> !five_smooth(m)
}

/// Decides 5-smoothness by dividing out the factors 2, 3 and 5.
pub fn check_five_smooth(n: u64) -> (r: bool)
    requires
        n >= 1,
    ensures
        r == five_smooth(n as int),
{
    let mut m: u64 = n;
    loop
        invariant
            1 <= m,
            five_smooth(m as int) == five_smooth(n as int),
        ensures
            1 <= m,
            five_smooth(m as int) == five_smooth(n as int),
            m == 1 || (m % 2 != 0 && m % 3 != 0 && m % 5 != 0),
        decreases m,
    {
        if m == 1 || (m % 2 != 0 && m % 3 != 0 && m % 5 != 0) {
            break;
        }
        if m % 2 == 0 {
            m = m / 2;
        } else if m % 3 == 0 {
            m = m / 3;
        } else {
            m = m / 5;
        }
    }
    m == 1
}

/// Returns the smallest 5-smooth size at least `x`, the dimension on which
/// the padded FFT of a frame runs efficiently.  The upper bound on `x`
/// guarantees that a power of two at least `x` still fits in a `u64`.
pub fn closest_efficient_size(x: u64) -> (n: u64)
    requires
        1 <= x <= 0x8000_0000_0000_0000u64,
    ensures
        is_closest_efficient_size(x as int, n as int),
        (n as int) < 2 * (x as int),
{
    let mut bound: u64 = 1;
    assert(five_smooth(1));
    while bound < x
        invariant
            1 <= bound,
            x <= 0x8000_0000_0000_0000u64,
            five_smooth(bound as int),
            bound == 1 || (bound as int) <= 2 * (x as int) - 2,
        decreases 2 * x - bound,
    {
        proof {
            assert((2 * (bound as int)) % 2 == 0);
            assert((2 * (bound as int)) / 2 == bound as int);
        }
        bound = bound * 2;
    }
    proof {
        if bound == 1 {
            assert(x == 1);
        }
    }
    let mut n: u64 = x;
    loop
        invariant
            x <= n <= bound,
            x <= bound,
            1 <= x,
            five_smooth(bound as int),
            (bound as int) < 2 * (x as int),
            forall|m: int| x <= m < n ==> !five_smooth(m),
        ensures
            x <= n <= bound,
            five_smooth(n as int),
            (bound as int) < 2 * (x as int),
            forall|m: int| x <= m < n ==> !five_smooth(m),
        decreases bound - n,
    {
        if check_five_smooth(n) {
            break;
        }
        proof {
            assert(n != bound);
        }
        n = n + 1;
    }
    n
}

} // verus!
