use vstd::arithmetic::div_mod::{lemma_fundamental_div_mod, lemma_fundamental_div_mod_converse_mod};
use vstd::arithmetic::power::{lemma_pow_adds, lemma_pow_multiplies, pow};
use vstd::arithmetic::power2::{lemma2_to64, lemma2_to64_rest, lemma_pow2, pow2};
use vstd::bits::lemma_u64_shl_is_mul;
use vstd::prelude::*;

verus! {

/// The radix of a limb.
pub open spec fn limb_base() -> int {
    0x1_0000_0000_0000_0000
}

/// The value of little-endian base-2^64 limbs.
pub open spec fn limbs_value(s: Seq<u64>) -> int
    decreases s.len(),
{
    if s.len() == 0 {
        0
    } else {
        s[0] as int + limb_base() * limbs_value(s.drop_first())
    }
}

/// Limbs are worth zero exactly when every limb is zero; otherwise at least one.
pub proof fn lemma_limbs_value_zero(s: Seq<u64>)
    ensures
        limbs_value(s) >= 0,
        (limbs_value(s) == 0) == (forall|i: int| 0 <= i < s.len() ==> s[i] == 0),
    decreases s.len(),
{
    if s.len() > 0 {
        lemma_limbs_value_zero(s.drop_first());
        if limbs_value(s) == 0 {
            assert forall|i: int| 0 <= i < s.len() implies s[i] == 0 by {
                if i > 0 {
                    assert(s[i] == s.drop_first()[i - 1]);
                }
            }
        }
        if forall|i: int| 0 <= i < s.len() ==> s[i] == 0 {
            assert forall|i: int| 0 <= i < s.len() - 1 implies s.drop_first()[i] == 0 by {
                assert(s.drop_first()[i] == s[i + 1]);
            }
        }
    }
}

/// Appending a zero limb keeps the value.
pub proof fn lemma_limbs_value_push_zero(s: Seq<u64>)
    ensures
        limbs_value(s.push(0)) == limbs_value(s),
    decreases s.len(),
{
    let t = s.push(0);
    if s.len() == 0 {
        assert(t.drop_first() =~= Seq::<u64>::empty());
        assert(limbs_value(t.drop_first()) == 0);
        assert(limbs_value(t) == t[0] as int + limb_base() * limbs_value(t.drop_first()));
    } else {
        lemma_limbs_value_push_zero(s.drop_first());
        assert(t.drop_first() =~= s.drop_first().push(0));
        assert(t[0] == s[0]);
        assert(limbs_value(t) == t[0] as int + limb_base() * limbs_value(t.drop_first()));
    }
}

/// `q` zero limbs below a top limb `x` are worth `x * (2^64)^q`.
proof fn lemma_limbs_value_shifted(q: nat, x: u64)
    ensures
        limbs_value(Seq::new(q, |i: int| 0u64).push(x)) == x as int * pow(limb_base(), q),
    decreases q,
{
    let s = Seq::new(q, |i: int| 0u64).push(x);
    if q == 0 {
        assert(s.drop_first() =~= Seq::<u64>::empty());
        assert(limbs_value(s) == s[0] as int + limb_base() * limbs_value(s.drop_first()));
        assert(pow(limb_base(), 0) == 1) by {
            reveal_with_fuel(pow, 1);
        }
    } else {
        let rest = Seq::new((q - 1) as nat, |i: int| 0u64).push(x);
        lemma_limbs_value_shifted((q - 1) as nat, x);
        assert(s.drop_first() =~= rest);
        assert(s[0] == 0);
        assert(limbs_value(s) == s[0] as int + limb_base() * limbs_value(s.drop_first()));
        assert(pow(limb_base(), q) == limb_base() * pow(limb_base(), (q - 1) as nat)) by {
            reveal_with_fuel(pow, 1);
        }
        let p = pow(limb_base(), (q - 1) as nat);
        assert(limb_base() * (x as int * p) == x as int * (limb_base() * p)) by (nonlinear_arith);
    }
}

/// The limbs without their high zero limbs.
fn trim_high_zeros(limbs: Vec<u64>) -> (r: Vec<u64>)
    ensures
        limbs_value(r@) == limbs_value(limbs@),
        r@.len() == 0 || r@.last() != 0,
{
    let mut v = limbs;
    while v.len() > 0 && v[v.len() - 1] == 0
        invariant
            limbs_value(v@) == limbs_value(limbs@),
        decreases v@.len(),
    {
        let ghost before = v@;
        v.pop();
        proof {
            assert(before =~= v@.push(0));
            lemma_limbs_value_push_zero(v@);
        }
    }
    v
}

/// An integer of any size: a sign and little-endian base-2^64 magnitude limbs.
/// The sign of a zero magnitude is ignored. `==` compares representations;
/// the constructors give the canonical one (see `is_canonical`), so equal
/// values built by them compare equal.
#[derive(Debug, Clone, PartialEq, Eq)]
pub struct Felt {
    pub negative: bool,
    pub limbs: Vec<u64>,
}

impl View for Felt {
    type V = int;

    open spec fn view(&self) -> int {
        if self.negative {
            -limbs_value(self.limbs@)
        } else {
            limbs_value(self.limbs@)
        }
    }
}

impl Felt {
    /// No high zero limb, and zero is not negative.
    pub open spec fn is_canonical(&self) -> bool {
        &&& self.limbs@.len() == 0 || self.limbs@.last() != 0
        &&& self.negative ==> self.limbs@.len() > 0
    }

    /// The integer `-magnitude` or `magnitude`, from the magnitude's limbs.
    pub fn from_parts(negative: bool, limbs: Vec<u64>) -> (r: Felt)
        ensures
            r@ == (if negative { -limbs_value(limbs@) } else { limbs_value(limbs@) }),
            r.is_canonical(),
    {
        let limbs = trim_high_zeros(limbs);
        let negative = negative && limbs.len() > 0;
        proof {
            if limbs@.len() == 0 {
                assert(limbs_value(limbs@) == 0);
            }
        }
        Felt { negative, limbs }
    }

    /// The power `(2^16)^e`.
    pub fn pow_2_16(e: u32) -> (r: Felt)
        ensures
            r@ == pow(0x10000, e as nat),
            r.is_canonical(),
    {
        let bits: u64 = 16 * (e as u64);
        let q = (bits / 64) as usize;
        let shift = bits % 64;
        let mut limbs: Vec<u64> = Vec::new();
        let mut i: usize = 0;
        while i < q
            invariant
                i <= q,
                limbs@ == Seq::new(i as nat, |k: int| 0u64),
            decreases q - i,
        {
            limbs.push(0);
            proof {
                assert(limbs@ =~= Seq::new((i + 1) as nat, |k: int| 0u64));
            }
            i = i + 1;
        }
        proof {
            lemma2_to64();
            lemma2_to64_rest();
            lemma_u64_shl_is_mul(1, shift);
        }
        let top: u64 = 1u64 << shift;
        let ghost zeros = limbs@;
        limbs.push(top);
        proof {
            assert(limbs@ == zeros.push(top));
            assert(top as int == pow2(shift as nat));
            lemma_limbs_value_shifted(q as nat, top);
            // (2^16)^e = 2^(16 e) = (2^64)^q * 2^shift
            lemma_pow2(16);
            lemma_pow2(64);
            lemma_pow2(shift as nat);
            lemma_pow_multiplies(2, 16, e as nat);
            lemma_pow_multiplies(2, 64, q as nat);
            lemma_pow_adds(2, (64 * q) as nat, shift as nat);
            assert(16 * e as int == 64 * q as int + shift as int);
            assert((64 * q) as nat + shift as nat == (16 * e) as nat);
            assert(pow(2, 16) == 0x10000);
            assert(pow(2, 64) == limb_base());
            assert(pow(limb_base(), q as nat) == pow(2, (64 * q) as nat));
            assert(pow(0x10000, e as nat) == pow(2, (16 * e) as nat));
            assert(pow(2, (16 * e) as nat) == pow(2, (64 * q) as nat) * pow(2, shift as nat));
            assert(limbs_value(limbs@) == top as int * pow(limb_base(), q as nat));
            assert(limbs_value(limbs@) == pow(0x10000, e as nat)) by (nonlinear_arith)
                requires
                    limbs_value(limbs@) == top as int * pow(limb_base(), q as nat),
                    top as int == pow(2, shift as nat),
                    pow(limb_base(), q as nat) == pow(2, (64 * q) as nat),
                    pow(0x10000, e as nat) == pow(2, (64 * q) as nat) * pow(2, shift as nat),
            ;
        }
        Felt::from_parts(false, limbs)
    }

    pub fn from_u128(v: u128) -> (r: Felt)
        ensures
            r@ == v as int,
            r.is_canonical(),
    {
        let lo = (v % 0x1_0000_0000_0000_0000u128) as u64;
        let hi = (v / 0x1_0000_0000_0000_0000u128) as u64;
        let limbs = vec![lo, hi];
        proof {
            lemma_fundamental_div_mod(v as int, limb_base());
            let s = limbs@;
            assert(s.drop_first().drop_first().len() == 0);
            assert(limbs_value(s.drop_first()) == hi as int + limb_base() * limbs_value(
                s.drop_first().drop_first(),
            ));
            assert(limbs_value(s) == lo as int + limb_base() * hi as int);
        }
        Felt::from_parts(false, limbs)
    }

    /// The value as a `u128`, when it lies in `[0, 2^128)`.
    pub fn to_u128(&self) -> (r: Option<u128>)
        ensures
            r.is_some() == (0 <= self@ < 0x1_0000_0000_0000_0000_0000_0000_0000_0000int),
            r.is_some() ==> r.unwrap() as int == self@,
    {
        let n = self.limbs.len();
        let lo: u64 = if n > 0 { self.limbs[0] } else { 0 };
        let hi: u64 = if n > 1 { self.limbs[1] } else { 0 };
        let mut rest_zero = true;
        let mut i: usize = 2;
        while i < n
            invariant
                n == self.limbs@.len(),
                2 <= i,
                i <= n || i == 2,
                rest_zero == (forall|k: int| 2 <= k < i ==> self.limbs@[k] == 0),
            decreases n - i,
        {
            if self.limbs[i] != 0 {
                rest_zero = false;
            }
            i = i + 1;
            assert(rest_zero == (forall|k: int| 2 <= k < i ==> self.limbs@[k] == 0)) by {
                if !rest_zero {
                    if self.limbs@[i - 1] == 0 {
                        let k = choose|k: int| 2 <= k < i - 1 && self.limbs@[k] != 0;
                        assert(2 <= k < i && self.limbs@[k] != 0);
                    }
                }
            }
        }
        let ghost s = self.limbs@;
        let ghost rest = if n >= 2 { s.skip(2) } else { Seq::<u64>::empty() };
        proof {
            if n >= 2 {
                assert(s.drop_first().drop_first() =~= rest);
                assert(limbs_value(s.drop_first()) == hi as int + limb_base() * limbs_value(
                    rest,
                ));
            } else if n == 1 {
                assert(s.drop_first() =~= rest);
            }
            assert(limbs_value(s) == lo as int + limb_base() * hi as int + limb_base()
                * limb_base() * limbs_value(rest)) by (nonlinear_arith)
                requires
                    limbs_value(s) == lo as int + limb_base() * (hi as int + limb_base()
                        * limbs_value(rest)),
            ;
            lemma_limbs_value_zero(rest);
            if n >= 2 {
                assert(rest_zero == (forall|k: int| 0 <= k < rest.len() ==> rest[k] == 0)) by {
                    if !rest_zero {
                        let k = choose|k: int| 2 <= k < n && self.limbs@[k] != 0;
                        assert(rest[k - 2] != 0);
                    }
                    if rest_zero {
                        assert forall|k: int| 0 <= k < rest.len() implies rest[k] == 0 by {
                            assert(rest[k] == s[k + 2]);
                        }
                    }
                }
            } else {
                assert(rest_zero);
            }
            assert(lo as int + limb_base() * hi as int <= 0xffff_ffff_ffff_ffff_ffff_ffff_ffff_ffff)
                by (nonlinear_arith)
                requires lo <= 0xffff_ffff_ffff_ffff, hi <= 0xffff_ffff_ffff_ffff;
            if !rest_zero {
                assert(limb_base() * limb_base() * limbs_value(rest) >= limb_base() * limb_base())
                    by (nonlinear_arith)
                    requires limbs_value(rest) >= 1;
            }
        }
        if !rest_zero {
            return None;
        }
        let mag: u128 = lo as u128 + (hi as u128) * 0x1_0000_0000_0000_0000u128;
        if self.negative && mag != 0 {
            None
        } else {
            Some(mag)
        }
    }

    /// The value modulo 2^16, as a non-negative remainder (floor division).
    pub fn mod_floor_2_16(&self) -> (r: u64)
        ensures
            r as int == self@ % 0x10000,
            r < 0x10000,
    {
        let ghost s = self.limbs@;
        let m: u64 = if self.limbs.len() > 0 { self.limbs[0] % 0x10000 } else { 0 };
        proof {
            let v = limbs_value(s);
            if s.len() > 0 {
                let t = limbs_value(s.drop_first());
                lemma_fundamental_div_mod(s[0] as int, 0x10000);
                let q = s[0] as int / 0x10000 + 0x1_0000_0000_0000 * t;
                assert(v == q * 0x10000 + m as int) by (nonlinear_arith)
                    requires
                        v == s[0] as int + limb_base() * t,
                        s[0] as int == 0x10000 * (s[0] as int / 0x10000) + m as int,
                        q == s[0] as int / 0x10000 + 0x1_0000_0000_0000 * t,
                ;
                lemma_fundamental_div_mod_converse_mod(v, 0x10000, q, m as int);
            }
            assert(v % 0x10000 == m as int);
            lemma_fundamental_div_mod(v, 0x10000);
            let q = v / 0x10000;
            if self.negative {
                if m == 0 {
                    lemma_fundamental_div_mod_converse_mod(-v, 0x10000, -q, 0);
                } else {
                    lemma_fundamental_div_mod_converse_mod(-v, 0x10000, -q - 1, 0x10000 - m);
                }
            }
        }
        if self.negative && m != 0 {
            0x10000 - m
        } else {
            m
        }
    }
}

} // verus!
