//! Arithmetic on the shapes of images and tensors.

use vstd::prelude::*;

verus! {

/// The number of elements of a block of `a` by `b` by `c` elements, or `None`
/// if that number does not fit the machine word.
pub fn checked_volume(a: usize, b: usize, c: usize) -> (v: Option<usize>)
    ensures
        match v {
            Some(n) => n == a * b * c,
            None => a * b * c > usize::MAX,
        },
{
    if a == 0 || b == 0 || c == 0 {
        assert(a * b * c == 0) by (nonlinear_arith)
            requires
                a == 0 || b == 0 || c == 0,
        ;
        return Some(0);
    }
    match a.checked_mul(b) {
        None => {
            assert(a * b * c >= a * b) by (nonlinear_arith)
                requires
                    a * b >= 0,
                    c >= 1,
            ;
            None
        },
        Some(ab) => ab.checked_mul(c),
    }
}

} // verus!
