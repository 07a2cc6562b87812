//! Marks of a logarithmic grid. Every step size of such a grid is the
//! smallest visible unit times a power of the base, so every mark sits at an
//! integer multiple of that unit; positions are counted in units here, and
//! the caller turns them into data values.
use vstd::prelude::*;

verus! {

/// One mark of a logarithmic grid: its position as a multiple of the
/// smallest visible unit, and its thickness class (0 for the unit, 1 for
/// unit times base, 2 for unit times base squared).
#[derive(Debug, Clone, Copy, PartialEq, Eq, Structural)]
pub struct LogGridMark {
    pub units: i64,
    pub class: u8,
}

/// The step size of class `k`, in units.
pub open spec fn class_step(base: int, k: int) -> int {
    if k == 0 {
        1
    } else if k == 1 {
        base
    } else {
        base * base
    }
}

/// The thickness class of the mark at `n` units: the coarsest of the three
/// step sizes of which `n` is a multiple.
pub open spec fn mark_class(n: int, base: int) -> u8 {
    if n % (base * base) == 0 {
        2
    } else if n % base == 0 {
        1
    } else {
        0
    }
}

/// The marks at `first, first + 1, ..., last - 1` units, each once and in
/// increasing order, each tagged with the coarsest class whose step divides
/// it. This is what the three step sizes' multiples give once marks at the
/// same position are merged into the coarsest one.
pub fn log_marks(first: i64, last: i64, base: i64) -> (r: Vec<LogGridMark>)
    requires
        first <= last,
        base >= 2,
    ensures
        r@.len() == last - first,
        forall|i: int|
            0 <= i < r@.len() ==> #[trigger] r@[i] == (LogGridMark {
                units: (first + i) as i64,
                class: mark_class(first + i, base as int),
            }),
{
    let b: u128 = base as u128;
    proof {
        assert(0 <= b * b <= 0x7fff_ffff_ffff_ffff * 0x7fff_ffff_ffff_ffff) by (nonlinear_arith)
            requires
                0 <= b <= 0x7fff_ffff_ffff_ffff,
        ;
        assert(b * b >= 4) by (nonlinear_arith)
            requires
                b >= 2,
        ;
    }
    let b2: u128 = b * b;
    let mut out: Vec<LogGridMark> = Vec::new();
    let mut n: i64 = first;
    while n < last
        invariant
            first <= n <= last,
            b == base,
            b2 == base * base,
            b2 >= 4,
            base >= 2,
            out@.len() == n - first,
            forall|i: int|
                0 <= i < out@.len() ==> #[trigger] out@[i] == (LogGridMark {
                    units: (first + i) as i64,
                    class: mark_class(first + i, base as int),
                }),
        decreases last - n,
    {
        // Divisibility does not depend on the sign.
        let m: u128 = if n < 0 {
            (-(n as i128)) as u128
        } else {
            n as u128
        };
        proof {
            lemma_divides_abs(n as int, b2 as int);
            lemma_divides_abs(n as int, b as int);
        }
        let class: u8 = if m % b2 == 0 {
            2
        } else if m % b == 0 {
            1
        } else {
            0
        };
        out.push(LogGridMark { units: n, class });
        n += 1;
    }
    out
}

/// `d` divides `n` exactly when it divides `|n|`.
proof fn lemma_divides_abs(n: int, d: int)
    requires
        d > 0,
    ensures
        (n % d == 0) == ((if n < 0 { -n } else { n }) % d == 0),
{
    if n < 0 {
        vstd::arithmetic::div_mod::lemma_fundamental_div_mod(n, d);
        vstd::arithmetic::div_mod::lemma_fundamental_div_mod(-n, d);
        if n % d == 0 {
            assert(-n == (-(n / d)) * d) by (nonlinear_arith)
                requires
                    n == d * (n / d),
            ;
            vstd::arithmetic::div_mod::lemma_mod_multiples_basic(-(n / d), d);
        }
        if (-n) % d == 0 {
            assert(n == (-((-n) / d)) * d) by (nonlinear_arith)
                requires
                    -n == d * ((-n) / d),
            ;
            vstd::arithmetic::div_mod::lemma_mod_multiples_basic(-((-n) / d), d);
        }
    }
}

/// Marks that coincide collapse to the coarsest: the class given to a
/// position is one whose step divides it, and no coarser class's step
/// divides it.
pub proof fn lemma_coarsest_class_wins(n: int, base: int, k: int)
    requires
        base >= 2,
        0 <= k <= 2,
        n % class_step(base, k) == 0,
    ensures
        k <= mark_class(n, base),
        n % class_step(base, mark_class(n, base) as int) == 0,
{
}

} // verus!
