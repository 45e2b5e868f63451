use vstd::prelude::*;

verus! {

/// `r` is the floor of the square root of `n`.
pub open spec fn is_floor_sqrt(n: int, r: int) -> bool {
    0 <= r && r * r <= n < (r + 1) * (r + 1)
}

/// The floor of the square root of `n`.
pub open spec fn floor_sqrt(n: int) -> int {
    choose|r: int| is_floor_sqrt(n, r)
}

/// At most one integer is the floor of the square root of `n`.
pub proof fn lemma_floor_sqrt_unique(n: int, r1: int, r2: int)
    requires
        is_floor_sqrt(n, r1),
        is_floor_sqrt(n, r2),
    ensures
        r1 == r2,
{
    if r1 < r2 {
        assert((r1 + 1) * (r1 + 1) <= r2 * r2) by (nonlinear_arith)
            requires
                0 <= r1 + 1 <= r2,
        ;
    } else if r2 < r1 {
        assert((r2 + 1) * (r2 + 1) <= r1 * r1) by (nonlinear_arith)
            requires
                0 <= r2 + 1 <= r1,
        ;
    }
}

/// A witness of the floor square root fixes `floor_sqrt`.
pub proof fn lemma_floor_sqrt_is(n: int, r: int)
    requires
        is_floor_sqrt(n, r),
    ensures
        floor_sqrt(n) == r,
{
    let c = floor_sqrt(n);
    assert(is_floor_sqrt(n, c));
    lemma_floor_sqrt_unique(n, r, c);
}

/// One Newton step `(x + n / x) / 2` never lands below the floor square root:
/// its successor squared exceeds `n`.
proof fn lemma_newton_step_above(n: int, x: int)
    requires
        0 <= n,
        0 < x,
    ensures
        n < ((x + n / x) / 2 + 1) * ((x + n / x) / 2 + 1),
{
    let q = n / x;
    let t = (x + q) / 2 + 1;
    assert(q * x <= n < (q + 1) * x) by (nonlinear_arith)
        requires
            0 <= n,
            0 < x,
            q == n / x,
    ;
    assert(x + q <= 2 * t - 1);
    if t * t <= n {
        assert((q + 1) * x <= t * t) by (nonlinear_arith)
            requires
                0 < x,
                q + 1 <= 2 * t - x,
        ;
    }
}

/// Where `x` squared exceeds `n`, a Newton step strictly decreases `x`.
proof fn lemma_newton_step_decreases(n: int, x: int)
    requires
        0 <= n,
        0 < x,
        n < x * x,
    ensures
        (x + n / x) / 2 < x,
{
    let q = n / x;
    assert(q < x) by (nonlinear_arith)
        requires
            0 <= n < x * x,
            0 < x,
            q == n / x,
    ;
}

/// `(x + n / x) / 2`, computed without overflow for every `n` and `x`.
fn newton_step(n: u64, x: u64) -> (r: u64)
    requires
        0 < x <= n,
    ensures
        r as int == (x + n / x) / 2,
{
    let q: u64 = n / x;
    let s: u128 = x as u128 + q as u128;
    proof {
        assert(q <= n) by (nonlinear_arith)
            requires
                0 < x,
                q == n / x,
        ;
    }
    (s / 2) as u64
}

/// The largest `r` with `r * r <= n`, by Newton's method seeded at `n`:
/// iterate `x1 = (x0 + n / x0) / 2` while it decreases, and return `x0`.
pub fn integer_sqrt(n: u64) -> (r: u64)
    ensures
        r as int * r as int <= n as int,
        (n as int) < (r as int + 1) * (r as int + 1),
        r as int == floor_sqrt(n as int),
{
    if n == 0 {
        proof {
            lemma_floor_sqrt_is(0, 0);
        }
        return 0;
    }
    let mut x0: u64 = n;
    let mut x1: u64 = newton_step(n, x0);
    proof {
        lemma_newton_step_above(n as int, x0 as int);
        assert((n as int) < (x0 as int + 1) * (x0 as int + 1)) by (nonlinear_arith)
            requires
                x0 == n,
                0 < n,
        ;
    }
    while x1 < x0
        invariant
            0 < n,
            0 < x0 <= n,
            (n as int) < (x0 as int + 1) * (x0 as int + 1),
            x1 as int == (x0 + n / x0) / 2,
            (n as int) < (x1 as int + 1) * (x1 as int + 1),
        decreases x0,
    {
        proof {
            assert(0 < x1) by (nonlinear_arith)
                requires
                    0 < n,
                    (n as int) < (x1 as int + 1) * (x1 as int + 1),
            ;
        }
        x0 = x1;
        proof {
            lemma_newton_step_above(n as int, x0 as int);
        }
        x1 = newton_step(n, x0);
    }
    proof {
        if (n as int) < x0 as int * x0 as int {
            lemma_newton_step_decreases(n as int, x0 as int);
        }
        lemma_floor_sqrt_is(n as int, x0 as int);
    }
    x0
}

} // verus!
