use vstd::arithmetic::div_mod::{lemma_fundamental_div_mod, lemma_fundamental_div_mod_converse_div};
use vstd::prelude::*;

verus! {

/// Rounded-up quotient `a / b` for a positive divisor.
pub fn div_ceil(a: usize, b: usize) -> (r: usize)
    requires
        b > 0,
    ensures
        r as int == (a as int + b as int - 1) / b as int,
{
    let q = a / b;
    let m = a % b;
    proof {
        lemma_fundamental_div_mod(a as int, b as int);
        assert(a as int == q as int * b as int + m as int) by (nonlinear_arith)
            requires a as int == b as int * q as int + m as int;
    }
    if m == 0 {
        proof {
            lemma_fundamental_div_mod_converse_div(
                a as int + b as int - 1, b as int, q as int, b as int - 1);
        }
        q
    } else {
        proof {
            assert(a as int + b as int - 1 == (q as int + 1) * b as int + (m as int - 1))
                by (nonlinear_arith)
                requires a as int == q as int * b as int + m as int;
            lemma_fundamental_div_mod_converse_div(
                a as int + b as int - 1, b as int, q as int + 1, m as int - 1);
            assert(q as int * b as int <= a as int) by (nonlinear_arith)
                requires a as int == q as int * b as int + m as int, m >= 0;
            assert(b >= 2);
            assert(q as int + 1 <= a as int) by (nonlinear_arith)
                requires q as int * b as int <= a as int, b >= 2, m > 0,
                    a as int == q as int * b as int + m as int;
        }
        q + 1
    }
}

} // verus!
