//! Power-of-two arithmetic shared by the CIDR block computations.

use vstd::prelude::*;

use vstd::arithmetic::div_mod::lemma_fundamental_div_mod;
use vstd::arithmetic::div_mod::lemma_mod_multiples_basic;
use vstd::arithmetic::power2::lemma2_to64;
use vstd::arithmetic::power2::lemma2_to64_rest;
use vstd::arithmetic::power2::lemma_pow2_adds;
use vstd::arithmetic::power2::lemma_pow2_pos;
use vstd::arithmetic::power2::lemma_pow2_strictly_increases;
use vstd::arithmetic::power2::lemma_pow2_unfold;
use vstd::arithmetic::power2::pow2;

verus! {

/// `pow2` is monotone (non-strict form).
pub proof fn lemma_pow2_increases(e1: nat, e2: nat)
    requires
        e1 <= e2,
    ensures
        pow2(e1) <= pow2(e2),
{
    if e1 < e2 {
        lemma_pow2_strictly_increases(e1, e2);
    }
}

/// Concrete value of `pow2(127)`, derived from the 64-bit tables.
pub proof fn lemma_pow2_127()
    ensures
        pow2(127) == 0x80000000000000000000000000000000,
{
    lemma_pow2_adds(64, 63);
    lemma2_to64();
    lemma2_to64_rest();
}

/// Concrete value of `pow2(128)`: one past the largest 128-bit value.
pub proof fn lemma_pow2_128()
    ensures
        pow2(128) == 0x100000000000000000000000000000000,
{
    lemma_pow2_adds(64, 64);
    lemma2_to64();
}

/// A multiple of `2 * m` is a multiple of `m`.
pub proof fn lemma_mod_double_step(x: int, m: int)
    requires
        m >= 1,
        x % (2 * m) == 0,
    ensures
        x % m == 0,
{
    let q = x / (2 * m);
    lemma_fundamental_div_mod(x, 2 * m);
    assert(x == 2 * m * q + x % (2 * m));
    assert(2 * m * q == (2 * q) * m) by (nonlinear_arith);
    lemma_mod_multiples_basic(2 * q, m);
}

/// A multiple of `pow2(e2)` is a multiple of `pow2(e1)` for `e1 <= e2`.
pub proof fn lemma_mod_pow2_mono(x: int, e1: nat, e2: nat)
    requires
        e1 <= e2,
        x % (pow2(e2) as int) == 0,
    ensures
        x % (pow2(e1) as int) == 0,
    decreases e2 - e1,
{
    if e1 < e2 {
        lemma_pow2_unfold(e2);
        lemma_pow2_pos((e2 - 1) as nat);
        lemma_mod_double_step(x, pow2((e2 - 1) as nat) as int);
        lemma_mod_pow2_mono(x, e1, (e2 - 1) as nat);
    }
}

/// `2^e` for `e <= 63`, computed by doubling.
pub fn pow2_u64(e: u8) -> (r: u64)
    requires
        e <= 63,
    ensures
        r == pow2(e as nat),
{
    proof {
        lemma2_to64();
    }
    let mut i: u8 = 0;
    let mut r: u64 = 1;
    while i < e
        invariant
            i <= e,
            e <= 63,
            r == pow2(i as nat),
        decreases e - i,
    {
        proof {
            lemma_pow2_unfold((i + 1) as nat);
            lemma_pow2_increases((i + 1) as nat, 63);
            lemma2_to64_rest();
        }
        r = r * 2;
        i = i + 1;
    }
    r
}

/// `2^e` for `e <= 127`, computed by doubling.
pub fn pow2_u128(e: u8) -> (r: u128)
    requires
        e <= 127,
    ensures
        r == pow2(e as nat),
{
    proof {
        lemma2_to64();
    }
    let mut i: u8 = 0;
    let mut r: u128 = 1;
    while i < e
        invariant
            i <= e,
            e <= 127,
            r == pow2(i as nat),
        decreases e - i,
    {
        proof {
            lemma_pow2_unfold((i + 1) as nat);
            lemma_pow2_increases((i + 1) as nat, 127);
            lemma_pow2_127();
        }
        r = r * 2;
        i = i + 1;
    }
    r
}

} // verus!
