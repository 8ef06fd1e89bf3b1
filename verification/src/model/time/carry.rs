//! The result of fitting a magnitude into a bounded field.
use vstd::prelude::*;

verus! {

/// A value that fits its field, together with what did not fit.
#[derive(Debug)]
pub struct Carry<T> {
    /// The part that fits.
    pub value: T,
    /// How many whole multiples of the modulus were taken off.
    pub carry: u32,
    /// The magnitude before reduction.
    pub original: u32,
}

impl Carry<u32> {
    /// Splits `value` into remainder and quotient with respect to `modulus`.
    pub fn from_division(value: u32, modulus: u32) -> (c: Self)
        requires
            modulus > 0,
        ensures
            c.value == value % modulus,
            c.value < modulus,
            c.carry == (value - c.value) / (modulus as int),
            c.carry == value / modulus,
            c.carry * modulus + c.value == value,
            c.original == value,
    {
        let reduced: u32 = value % modulus;
        proof {
            lemma_quotient_of_difference(value as int, modulus as int);
            assert(reduced <= value) by (nonlinear_arith)
                requires
                    (value / modulus) * modulus + reduced == value,
                    value / modulus >= 0,
                    modulus > 0,
            ;
        }
        let carry: u32 = (value - reduced) / modulus;
        Carry { value: reduced, carry, original: value }
    }
}

/// Taking the remainder off first does not change the quotient.
pub proof fn lemma_quotient_of_difference(v: int, m: int)
    requires
        0 <= v,
        0 < m,
    ensures
        (v - v % m) / m == v / m,
        (v / m) * m + v % m == v,
        0 <= v % m < m,
{
    vstd::arithmetic::div_mod::lemma_fundamental_div_mod(v, m);
    vstd::arithmetic::div_mod::lemma_mod_bound(v, m);
    assert((v - v % m) == m * (v / m));
    vstd::arithmetic::div_mod::lemma_div_multiples_vanish(v / m, m);
    assert(m * (v / m) == (v / m) * m) by (nonlinear_arith);
}

} // verus!
