use vstd::prelude::*;

verus! {

/// Division rounding towards positive infinity, as `u32::div_ceil` and
/// `u64::div_ceil` compute it for a nonzero divisor.
pub open spec fn spec_div_ceil(a: int, b: int) -> int {
    a / b + if a % b == 0 { 0int } else { 1int }
}

/// `spec_div_ceil(n, size)` groups of `size` cover `n` items, and one group
/// fewer would not: a dispatch of that many workgroups reaches every item
/// with no workgroup wholly idle.
pub proof fn lemma_div_ceil_covers(n: int, size: int)
    requires
        0 <= n,
        0 < size,
    ensures
        spec_div_ceil(n, size) * size >= n,
        n > 0 ==> (spec_div_ceil(n, size) - 1) * size < n,
        n == 0 ==> spec_div_ceil(n, size) == 0,
{
    vstd::arithmetic::div_mod::lemma_fundamental_div_mod(n, size);
    let q = n / size;
    let r = n % size;
    assert(0 <= r < size);
    if r == 0 {
        assert(spec_div_ceil(n, size) == q);
        assert(q * size == n) by (nonlinear_arith)
            requires
                n == size * q + r,
                r == 0,
        ;
        if n > 0 {
            assert((q - 1) * size < n) by (nonlinear_arith)
                requires
                    q * size == n,
                    size > 0,
            ;
        } else {
            assert(q == 0) by (nonlinear_arith)
                requires
                    q * size == 0,
                    size > 0,
            ;
        }
    } else {
        assert(spec_div_ceil(n, size) == q + 1);
        assert((q + 1) * size >= n && q * size < n) by (nonlinear_arith)
            requires
                n == size * q + r,
                0 < r < size,
        ;
    }
}

/// `groups` workgroups of `size` invocations reach all `items`, and one
/// workgroup fewer would not.
pub open spec fn covers_exactly(groups: int, items: int, size: int) -> bool {
    &&& groups * size >= items
    &&& groups * size < items + size
}

/// Rounding up is the least number of groups that cover: it covers
/// exactly, and it is no more than the item count, so it fits the items'
/// integer type.
pub proof fn lemma_div_ceil_exact(n: int, size: int)
    requires
        0 <= n,
        0 < size,
    ensures
        covers_exactly(spec_div_ceil(n, size), n, size),
        0 <= spec_div_ceil(n, size) <= n,
{
    lemma_div_ceil_covers(n, size);
    let c = spec_div_ceil(n, size);
    if n > 0 {
        assert(c <= n && c >= 1) by (nonlinear_arith)
            requires
                (c - 1) * size < n,
                c * size >= n,
                size >= 1,
                n > 0,
        ;
    }
    assert(c * size < n + size) by (nonlinear_arith)
        requires
            n > 0 ==> (c - 1) * size < n,
            n == 0 ==> c == 0,
            n >= 0,
            size > 0,
    ;
}

/// `u32::div_ceil`, which the workgroup and row-size computations use.
pub fn div_ceil_u32(a: u32, b: u32) -> (r: u32)
    requires
        b > 0,
    ensures
        r == spec_div_ceil(a as int, b as int),
{
    let q = a / b;
    if a % b == 0 {
        q
    } else {
        proof {
            assert(q < u32::MAX) by (nonlinear_arith)
                requires q == a / b, b > 0, a % b != 0, a <= u32::MAX;
        }
        q + 1
    }
}

/// `c` is the smallest natural number whose square is at least `n`,
/// i.e. the ceiling of the square root of `n`.
pub open spec fn is_ceil_sqrt(c: int, n: int) -> bool {
    &&& 0 <= c
    &&& c * c >= n
    &&& (c == 0 || (c - 1) * (c - 1) < n)
}

/// The ceiling of the square root of `n`.
pub open spec fn spec_ceil_sqrt(n: int) -> int {
    choose|c: int| is_ceil_sqrt(c, n)
}

proof fn lemma_ceil_sqrt_exists_from(n: int, c: int)
    requires
        0 <= c,
        c * c < n,
    ensures
        exists|k: int| is_ceil_sqrt(k, n),
    decreases n - c,
{
    assert(c < n) by (nonlinear_arith)
        requires
            0 <= c,
            c * c < n,
    ;
    if (c + 1) * (c + 1) >= n {
        assert(is_ceil_sqrt(c + 1, n));
    } else {
        lemma_ceil_sqrt_exists_from(n, c + 1);
    }
}

/// The ceiling square root exists and is unique.
pub proof fn lemma_ceil_sqrt(n: int)
    requires
        0 <= n,
    ensures
        is_ceil_sqrt(spec_ceil_sqrt(n), n),
        forall|c: int| #[trigger] is_ceil_sqrt(c, n) ==> c == spec_ceil_sqrt(n),
{
    if n == 0 {
        assert(is_ceil_sqrt(0, n));
    } else {
        lemma_ceil_sqrt_exists_from(n, 0);
    }
    let s = spec_ceil_sqrt(n);
    assert forall|c: int| #[trigger] is_ceil_sqrt(c, n) implies c == s by {
        if c < s {
            assert((s - 1) * (s - 1) >= c * c) by (nonlinear_arith)
                requires
                    0 <= c,
                    c < s,
            ;
        } else if s < c {
            assert((c - 1) * (c - 1) >= s * s) by (nonlinear_arith)
                requires
                    0 <= s,
                    s < c,
            ;
        }
    }
}

/// The ceiling of the square root of `n`: the number of tile columns of a
/// square-ish contact sheet of `n` images.
pub fn ceil_sqrt(n: u32) -> (c: u32)
    ensures
        c == spec_ceil_sqrt(n as int),
        is_ceil_sqrt(c as int, n as int),
{
    proof {
        lemma_ceil_sqrt(n as int);
    }
    let mut c: u64 = 0;
    let mut sq: u64 = 0;
    while sq < n as u64
        invariant
            sq == c * c,
            c == 0 || (c - 1) * (c - 1) < n,
            c <= 65536,
        decreases n as int - c,
    {
        proof {
            assert(c < n) by (nonlinear_arith)
                requires
                    c * c < n,
            ;
            assert(c < 65536) by (nonlinear_arith)
                requires
                    c * c < n,
                    n <= u32::MAX,
            ;
            assert((c + 1) * (c + 1) == c * c + 2 * c + 1) by (nonlinear_arith);
        }
        sq = sq + 2 * c + 1;
        c = c + 1;
    }
    proof {
        assert(is_ceil_sqrt(c as int, n as int));
    }
    c as u32
}

} // verus!
