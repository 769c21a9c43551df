//! The horizontal screen split.
//!
//! The screen is divided into one column per pane: every pane gets the
//! same width, `total / n`, and whatever remainder integer division
//! leaves goes to the last pane, so the columns together cover the whole
//! width with nothing left over.
use vstd::prelude::*;

use vstd::arithmetic::div_mod::{lemma_fundamental_div_mod, lemma_mod_bound};

verus! {

/// The total of a sequence of column widths.
pub open spec fn sum_widths(s: Seq<u16>) -> int
    decreases s.len(),
{
    if s.len() == 0 {
        0
    } else {
        sum_widths(s.drop_last()) + s.last()
    }
}

/// How many decimal digits `n` takes to print.
pub open spec fn decimal_digits(n: nat) -> nat
    decreases n,
{
    if n < 10 {
        1
    } else {
        1 + decimal_digits(n / 10)
    }
}

/// The width of the line-number gutter for a buffer of `n` lines: the
/// digits of the largest line number, plus one cell of padding on each
/// side.
pub fn number_column_width(n: usize) -> (r: usize)
    ensures
        r == decimal_digits(n as nat) + 2,
{
    let mut digits: usize = 1;
    let mut m: usize = n;
    while m >= 10
        invariant
            digits >= 1,
            m <= n,
            9 * (digits as int - 1) <= n as int - m as int,
            decimal_digits(n as nat) + 1 == decimal_digits(m as nat) + digits,
        decreases m,
    {
        proof {
            lemma_fundamental_div_mod(m as int, 10);
            lemma_mod_bound(m as int, 10);
        }
        digits = digits + 1;
        m = m / 10;
    }
    digits + 2
}

/// The widths of `n` side-by-side panes on a screen `total` cells wide:
/// each pane is `total / n` cells, except the last, which also takes the
/// remainder. The widths always add up to exactly `total`.
pub fn split_widths(total: u16, n: u16) -> (r: Vec<u16>)
    requires
        n >= 1,
    ensures
        r@.len() == n as nat,
        forall|j: int| 0 <= j < n as int - 1 ==> (#[trigger] r@[j]) as int == total as int / n as int,
        r@[n as int - 1] as int == total as int - (n as int - 1) * (total as int / n as int),
        sum_widths(r@) == total as int,
{
    let per: u16 = total / n;
    proof {
        let t: int = total as int;
        let nn: int = n as int;
        let q: int = t / nn;
        let m: int = t % nn;
        lemma_fundamental_div_mod(t, nn);
        lemma_mod_bound(t, nn);
        assert(0 <= q && (nn - 1) * q <= t && q <= t) by (nonlinear_arith)
            requires
                t >= 0,
                nn >= 1,
                t == nn * q + m,
                0 <= m < nn,
        ;
    }
    let mut r: Vec<u16> = Vec::new();
    let mut i: u16 = 0;
    while i < n - 1
        invariant
            n >= 1,
            i <= n - 1,
            per == total / n,
            r@.len() == i as nat,
            forall|j: int| 0 <= j < i as int ==> (#[trigger] r@[j]) == per,
            sum_widths(r@) == i as int * per as int,
            (n as int - 1) * (per as int) <= total as int,
        decreases n - 1 - i,
    {
        proof {
            assert((i as int) * (per as int) <= (n as int - 1) * (per as int)
                && (i as int + 1) * (per as int) == (i as int) * (per as int) + per as int)
                by (nonlinear_arith)
                requires
                    0 <= i as int <= n as int - 1,
                    0 <= per as int,
            ;
        }
        let ghost r0 = r@;
        r.push(per);
        proof {
            assert(r@.drop_last() =~= r0);
        }
        i = i + 1;
    }
    let used: u16 = (n - 1) * per;
    let ghost r1 = r@;
    r.push(total - used);
    proof {
        assert(r@.drop_last() =~= r1);
    }
    r
}

} // verus!
