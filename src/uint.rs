use vstd::prelude::*;
use stylus_sdk::alloy_primitives::U256 as WordRepr;

verus! {

/// 2^64, the weight of one limb.
pub open spec fn limb_base() -> nat {
    0x1_0000_0000_0000_0000
}

/// 2^256: every `U256` value lies below it.
pub open spec fn word_modulus() -> nat {
    limb_base() * limb_base() * limb_base() * limb_base()
}

/// An unsigned 256-bit integer, as four 64-bit limbs, least significant first.
#[derive(Clone, Copy, Debug, PartialEq, Eq, Structural)]
pub struct U256 {
    pub l0: u64,
    pub l1: u64,
    pub l2: u64,
    pub l3: u64,
}

impl View for U256 {
    type V = nat;

    open spec fn view(&self) -> nat {
        self.l0 as nat + limb_base() * (self.l1 as nat + limb_base() * (self.l2 as nat
            + limb_base() * (self.l3 as nat)))
    }
}

pub proof fn lemma_value_bounds(a: U256)
    ensures
        a@ < word_modulus(),
{
    let b = limb_base();
    let (l0, l1, l2, l3) = (a.l0 as nat, a.l1 as nat, a.l2 as nat, a.l3 as nat);
    assert(l3 < b && l2 < b && l1 < b && l0 < b);
    assert(l2 + b * l3 < b * b) by (nonlinear_arith)
        requires l3 < b, l2 < b;
    assert(l1 + b * (l2 + b * l3) < b * b * b) by (nonlinear_arith)
        requires l1 < b, l2 + b * l3 < b * b;
    assert(l0 + b * (l1 + b * (l2 + b * l3)) < b * b * b * b) by (nonlinear_arith)
        requires l0 < b, l1 + b * (l2 + b * l3) < b * b * b;
}


proof fn lemma_limb_split(x0: nat, xr: nat, y0: nat, yr: nat)
    requires
        x0 < limb_base(),
        y0 < limb_base(),
        x0 + limb_base() * xr == y0 + limb_base() * yr,
    ensures
        x0 == y0,
        xr == yr,
{
    let v = (x0 + limb_base() * xr) as int;
    vstd::arithmetic::div_mod::lemma_fundamental_div_mod_converse(v, limb_base() as int, xr as int, x0 as int);
    vstd::arithmetic::div_mod::lemma_fundamental_div_mod_converse(v, limb_base() as int, yr as int, y0 as int);
}

/// Two words with the same value are the same word.
pub proof fn lemma_value_injective(a: U256, b: U256)
    requires
        a@ == b@,
    ensures
        a == b,
{
    let base = limb_base();
    lemma_limb_split(a.l0 as nat, (a.l1 + base * (a.l2 + base * a.l3)) as nat,
        b.l0 as nat, (b.l1 + base * (b.l2 + base * b.l3)) as nat);
    lemma_limb_split(a.l1 as nat, (a.l2 + base * a.l3) as nat, b.l1 as nat, (b.l2 + base * b.l3) as nat);
    lemma_limb_split(a.l2 as nat, a.l3 as nat, b.l2 as nat, b.l3 as nat);
}

/// A word's value fits in 64 bits exactly when its three upper limbs are zero.
pub proof fn lemma_fits_u64(a: U256)
    ensures
        (a@ < limb_base()) == (a.l1 == 0 && a.l2 == 0 && a.l3 == 0),
        a.l1 == 0 && a.l2 == 0 && a.l3 == 0 ==> a@ == a.l0,
{
    let base = limb_base();
    let rest = a.l1 + base * (a.l2 + base * a.l3);
    assert(a@ == a.l0 + base * rest);
    if a.l1 != 0 || a.l2 != 0 || a.l3 != 0 {
        assert(rest >= 1) by (nonlinear_arith)
            requires
                rest == a.l1 + base * (a.l2 + base * a.l3),
                a.l1 != 0 || a.l2 != 0 || a.l3 != 0,
                base > 0,
        ;
        assert(base * rest >= base) by (nonlinear_arith)
            requires rest >= 1, base > 0;
    }
}

impl U256 {
    /// The word of value zero.
    pub fn zero() -> (r: U256)
        ensures
            r@ == 0,
    {
        U256 { l0: 0, l1: 0, l2: 0, l3: 0 }
    }

    /// The word whose value is `n`.
    pub fn from_u64(n: u64) -> (r: U256)
        ensures
            r@ == n,
    {
        U256 { l0: n, l1: 0, l2: 0, l3: 0 }
    }

    /// The largest word, 2^256 - 1.
    pub fn max_value() -> (r: U256)
        ensures
            r@ == word_modulus() - 1,
    {
        let r = U256 { l0: u64::MAX, l1: u64::MAX, l2: u64::MAX, l3: u64::MAX };
        let ghost m = (u64::MAX as nat);
        assert(r@ == word_modulus() - 1) by (nonlinear_arith)
            requires
                r@ == m + limb_base() * (m + limb_base() * (m + limb_base() * m)),
                m + 1 == limb_base(),
                word_modulus() == limb_base() * limb_base() * limb_base() * limb_base(),
        ;
        r
    }

    pub fn is_zero(&self) -> (r: bool)
        ensures
            r == (self@ == 0),
    {
        proof {
            lemma_fits_u64(*self);
        }
        self.l0 == 0 && self.l1 == 0 && self.l2 == 0 && self.l3 == 0
    }

    /// Whether the value fits in 64 bits.
    pub fn fits_u64(&self) -> (r: bool)
        ensures
            r == (self@ < limb_base()),
    {
        proof {
            lemma_fits_u64(*self);
        }
        self.l1 == 0 && self.l2 == 0 && self.l3 == 0
    }

    /// The value as a `u64`; it must fit.
    pub fn to_u64(&self) -> (r: u64)
        requires
            self@ < limb_base(),
        ensures
            r == self@,
    {
        proof {
            lemma_fits_u64(*self);
        }
        self.l0
    }

    /// Equality of values.
    pub fn eq_value(&self, other: &U256) -> (r: bool)
        ensures
            r == (self@ == other@),
    {
        proof {
            if self@ == other@ {
                lemma_value_injective(*self, *other);
            }
        }
        *self == *other
    }
}

/// Relies on ruint's `Uint::checked_add`: the sum, or `None` where it overflows 256 bits.
#[verifier::external_body]
pub(crate) fn checked_add(a: U256, b: U256) -> (r: Option<U256>)
    ensures
        match r {
            Some(s) => a@ + b@ < word_modulus() && s@ == a@ + b@,
            None => a@ + b@ >= word_modulus(),
        },
{
    let x = WordRepr::from_limbs([a.l0, a.l1, a.l2, a.l3]);
    match x.checked_add(WordRepr::from_limbs([b.l0, b.l1, b.l2, b.l3])) {
        Some(v) => {
            let l = v.into_limbs();
            Some(U256 { l0: l[0], l1: l[1], l2: l[2], l3: l[3] })
        },
        None => None,
    }
}

/// Relies on ruint's `Uint::checked_mul`: the product, or `None` where it overflows 256 bits.
#[verifier::external_body]
pub(crate) fn checked_mul(a: U256, b: U256) -> (r: Option<U256>)
    ensures
        match r {
            Some(s) => a@ * b@ < word_modulus() && s@ == a@ * b@,
            None => a@ * b@ >= word_modulus(),
        },
{
    let x = WordRepr::from_limbs([a.l0, a.l1, a.l2, a.l3]);
    match x.checked_mul(WordRepr::from_limbs([b.l0, b.l1, b.l2, b.l3])) {
        Some(v) => {
            let l = v.into_limbs();
            Some(U256 { l0: l[0], l1: l[1], l2: l[2], l3: l[3] })
        },
        None => None,
    }
}

/// Relies on ruint's `Uint::checked_div`: the quotient rounded down, or `None` for a zero divisor.
#[verifier::external_body]
pub(crate) fn checked_div(a: U256, b: U256) -> (r: Option<U256>)
    ensures
        match r {
            Some(q) => b@ != 0 && q@ == a@ / b@,
            None => b@ == 0,
        },
{
    let x = WordRepr::from_limbs([a.l0, a.l1, a.l2, a.l3]);
    match x.checked_div(WordRepr::from_limbs([b.l0, b.l1, b.l2, b.l3])) {
        Some(v) => {
            let l = v.into_limbs();
            Some(U256 { l0: l[0], l1: l[1], l2: l[2], l3: l[3] })
        },
        None => None,
    }
}

/// Relies on ruint's `Uint::checked_rem`: the remainder, or `None` for a zero divisor.
#[verifier::external_body]
pub(crate) fn checked_rem(a: U256, b: U256) -> (r: Option<U256>)
    ensures
        match r {
            Some(m) => b@ != 0 && m@ == a@ % b@,
            None => b@ == 0,
        },
{
    let x = WordRepr::from_limbs([a.l0, a.l1, a.l2, a.l3]);
    match x.checked_rem(WordRepr::from_limbs([b.l0, b.l1, b.l2, b.l3])) {
        Some(v) => {
            let l = v.into_limbs();
            Some(U256 { l0: l[0], l1: l[1], l2: l[2], l3: l[3] })
        },
        None => None,
    }
}

/// Relies on ruint's `Ord` for `Uint`, which compares by value.
#[verifier::external_body]
pub(crate) fn lt(a: U256, b: U256) -> (r: bool)
    ensures
        r == (a@ < b@),
{
    WordRepr::from_limbs([a.l0, a.l1, a.l2, a.l3]) < WordRepr::from_limbs([b.l0, b.l1, b.l2, b.l3])
}

} // verus!
