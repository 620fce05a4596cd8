//! The iteration budget: how many probes the bisection is allowed.
//!
//! The budget bounds the number of network round-trips the search may make:
//! `floor(log2(width / accuracy)) + 2`, enough halvings to take the window
//! down to the requested accuracy plus slack for rounding. Degenerate
//! requests (an accuracy of zero or less, or wider than the window) get the
//! minimal budget of two instead of failing, so the search always terminates
//! after finitely many probes and then reports exhaustion.
use vstd::prelude::*;

verus! {

/// Two to the power `k`, as a mathematical integer.
pub open spec fn spec_pow2(k: nat) -> int
    decreases k,
{
    if k == 0 {
        1
    } else {
        2 * spec_pow2((k - 1) as nat)
    }
}

/// Floor of the base-two logarithm for arguments of one or more; zero below.
pub open spec fn spec_ilog2(n: int) -> int
    decreases n,
{
    if n <= 1 {
        0
    } else {
        1 + spec_ilog2(n / 2)
    }
}

pub proof fn lemma_ilog2_nonneg(n: int)
    ensures
        spec_ilog2(n) >= 0,
    decreases n,
{
    if n > 1 {
        lemma_ilog2_nonneg(n / 2);
    }
}

pub proof fn lemma_pow2_pos(k: nat)
    ensures
        spec_pow2(k) >= 1,
    decreases k,
{
    if k > 0 {
        lemma_pow2_pos((k - 1) as nat);
    }
}

pub proof fn lemma_pow2_mono(a: nat, b: nat)
    requires
        a <= b,
    ensures
        spec_pow2(a) <= spec_pow2(b),
    decreases b,
{
    if a < b {
        lemma_pow2_mono(a, (b - 1) as nat);
        lemma_pow2_pos((b - 1) as nat);
    }
}

/// The defining bracket of the floored logarithm: `n` lies between
/// `2^ilog2(n)` and `2^(ilog2(n) + 1)`.
pub proof fn lemma_ilog2_bounds(n: int)
    requires
        n >= 1,
    ensures
        spec_pow2(spec_ilog2(n) as nat) <= n < 2 * spec_pow2(spec_ilog2(n) as nat),
    decreases n,
{
    lemma_ilog2_nonneg(n);
    if n >= 2 {
        lemma_ilog2_nonneg(n / 2);
        lemma_ilog2_bounds(n / 2);
        assert(spec_pow2(spec_ilog2(n) as nat) == 2 * spec_pow2(spec_ilog2(n / 2) as nat));
    }
}

/// Anything below a power of two has a logarithm below its exponent.
pub proof fn lemma_ilog2_below(n: int, k: nat)
    requires
        1 <= n,
        n < spec_pow2(k),
    ensures
        spec_ilog2(n) < k,
    decreases k,
{
    if n <= 1 {
        if k == 0 {
            assert(spec_pow2(0) == 1);
        }
    } else {
        assert(spec_pow2(k) == 2 * spec_pow2((k - 1) as nat));
        lemma_ilog2_below(n / 2, (k - 1) as nat);
    }
}

/// Powers of two multiply when exponents add.
proof fn lemma_pow2_add(a: nat, b: nat)
    ensures
        spec_pow2(a + b) == spec_pow2(a) * spec_pow2(b),
    decreases a,
{
    if a != 0 {
        lemma_pow2_add((a - 1) as nat, b);
        assert(2 * (spec_pow2((a - 1) as nat) * spec_pow2(b)) == (2 * spec_pow2(
            (a - 1) as nat,
        )) * spec_pow2(b)) by (nonlinear_arith);
    }
}

proof fn lemma_pow2_127_exceeds_i128()
    ensures
        spec_pow2(127) > i128::MAX,
{
    reveal_with_fuel(spec_pow2, 9);
    assert(spec_pow2(8) == 256);
    assert(spec_pow2(7) == 128);
    lemma_pow2_add(8, 8);
    assert(spec_pow2(16) == 0x10000);
    lemma_pow2_add(16, 16);
    assert(spec_pow2(32) == 0x100000000);
    lemma_pow2_add(32, 32);
    assert(spec_pow2(64) == 0x10000000000000000);
    lemma_pow2_add(64, 32);
    assert(spec_pow2(96) == 0x1000000000000000000000000);
    lemma_pow2_add(96, 16);
    assert(spec_pow2(112) == 0x10000000000000000000000000000);
    lemma_pow2_add(112, 8);
    assert(spec_pow2(120) == 0x1000000000000000000000000000000);
    lemma_pow2_add(120, 7);
    assert(spec_pow2(127) == 0x80000000000000000000000000000000);
}

proof fn lemma_ilog2_fits_u32(n: int)
    requires
        1 <= n <= i128::MAX,
    ensures
        0 <= spec_ilog2(n) <= 126,
{
    lemma_ilog2_nonneg(n);
    lemma_pow2_127_exceeds_i128();
    lemma_ilog2_below(n, 127);
}

/// Floor of the base-two logarithm of a positive machine integer.
pub fn ilog2_i128(n: i128) -> (r: u32)
    requires
        n >= 1,
    ensures
        r == spec_ilog2(n as int),
        r <= 126,
{
    proof {
        lemma_ilog2_fits_u32(n as int);
    }
    let mut x: i128 = n;
    let mut r: u32 = 0;
    while x >= 2
        invariant
            1 <= x <= n,
            r + spec_ilog2(x as int) == spec_ilog2(n as int),
            spec_ilog2(n as int) <= 126,
        decreases x,
    {
        proof {
            lemma_ilog2_nonneg(x as int / 2);
        }
        x = x / 2;
        r = r + 1;
    }
    r
}

/// The probe budget granted for a window of the given width and the given
/// accuracy, both in nanoseconds: `floor(log2(width / accuracy)) + 2` when
/// that quotient is at least one, and the minimal budget of two otherwise
/// (an empty or inverted window, a non-positive accuracy, or an accuracy
/// wider than the window).
pub open spec fn spec_budget(width: int, accuracy: int) -> int {
    if width < 1 {
        2
    } else {
        let q = if accuracy >= 1 {
            width / accuracy
        } else {
            width
        };
        if q < 1 {
            2
        } else {
            spec_ilog2(q) + 2
        }
    }
}

pub proof fn lemma_budget_at_least_two(width: int, accuracy: int)
    ensures
        spec_budget(width, accuracy) >= 2,
{
    if width >= 1 {
        let q = if accuracy >= 1 {
            width / accuracy
        } else {
            width
        };
        if q >= 1 {
            lemma_ilog2_nonneg(q);
        }
    }
}

/// Compute the iteration budget for a window of width `width` nanoseconds.
pub fn iteration_budget(width: i128, accuracy: i128) -> (b: u32)
    ensures
        b == spec_budget(width as int, accuracy as int),
        2 <= b <= 128,
{
    if width < 1 {
        return 2;
    }
    let q: i128 = if accuracy >= 1 {
        width / accuracy
    } else {
        width
    };
    if q < 1 {
        2
    } else {
        proof {
            lemma_ilog2_nonneg(q as int);
        }
        ilog2_i128(q) + 2
    }
}

} // verus!
