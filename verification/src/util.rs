//! Utilities: branch hints, C strings, rounding and logarithms.
use vstd::prelude::*;
use vstd::arithmetic::div_mod::{lemma_fundamental_div_mod, lemma_mod_multiples_basic};
use vstd::arithmetic::power2::{pow2, lemma_pow2_unfold, lemma_pow2_pos};

verus! {

/// Tells the compiler that `cond` is likely to be false; the value passes through unchanged.
pub fn unlikely(cond: bool) -> (r: bool)
    ensures
        r == cond,
{
    cond
}

/// `n` is the length of the C string at the start of `s`: the position of its first NUL.
pub open spec fn is_cstr_len(s: Seq<u8>, n: int) -> bool {
    &&& 0 <= n < s.len()
    &&& s[n] == 0
    &&& forall|i: int| 0 <= i < n ==> s[i] != 0
}

/// `s` holds a NUL-terminated string.
pub open spec fn has_nul(s: Seq<u8>) -> bool {
    exists|i: int| 0 <= i < s.len() && s[i] == 0
}

/// The length of the NUL-terminated string at the start of `s` (what `strlen` computes).
pub fn cstr_len(s: &[u8]) -> (n: usize)
    requires
        has_nul(s@),
    ensures
        is_cstr_len(s@, n as int),
{
    let mut i: usize = 0;
    while s[i] != 0
        invariant
            has_nul(s@),
            0 <= i < s@.len(),
            forall|j: int| 0 <= j < i ==> s@[j] != 0,
        decreases s@.len() - i,
    {
        proof {
            let j = choose|j: int| 0 <= j < s@.len() && s@[j] == 0;
            assert(j > i);
        }
        i = i + 1;
    }
    i
}

/// The characters of the NUL-terminated string at the start of `s`, without the NUL.
pub fn cstr_to_str(s: &[u8]) -> (r: &[u8])
    requires
        has_nul(s@),
    ensures
        exists|n: int| is_cstr_len(s@, n) && r@ == s@.subrange(0, n),
{
    let n = cstr_len(s);
    vstd::slice::slice_subrange(s, 0, n)
}

/// `value` rounded up to a multiple of `align`.
pub open spec fn round_up_spec(value: int, align: int) -> int {
    if value % align == 0 {
        value
    } else {
        value + (align - value % align)
    }
}

/// The least multiple of `align` that is at least `value`.
pub fn round_up(value: usize, align: usize) -> (r: usize)
    requires
        align > 0,
        value + align - 1 <= usize::MAX,
    ensures
        r == round_up_spec(value as int, align as int),
        r % align == 0,
        value <= r,
        r < value + align,
{
    let rem = value % align;
    if rem == 0 {
        value
    } else {
        proof {
            lemma_fundamental_div_mod(value as int, align as int);
            lemma_mod_multiples_basic(value as int / align as int + 1, align as int);
            assert((value as int / align as int + 1) * align as int == align as int * (value as int / align as int) + align as int) by (nonlinear_arith);
        }
        value + (align - rem)
    }
}

/// `r` is the exponent of the least power of two that is at least `size`.
pub open spec fn is_next_log2(size: int, r: int) -> bool {
    &&& 0 <= r <= 64
    &&& pow2(r as nat) >= size
    &&& (r == 0 || pow2((r - 1) as nat) < size)
}

/// The exponent of the least power of two that is at least `size`.
pub fn next_log2(size: usize) -> (r: i32)
    ensures
        is_next_log2(size as int, r as int),
{
    let mut p: u128 = 1;
    let mut k: i32 = 0;
    proof {
        vstd::arithmetic::power2::lemma2_to64();
    }
    while p < size as u128
        invariant
            0 <= k <= 64,
            p == pow2(k as nat),
            k == 0 || pow2((k - 1) as nat) < size,
            size <= usize::MAX,
        decreases 64 - k,
    {
        proof {
            lemma_pow2_unfold((k + 1) as nat);
            if k >= 64 {
                vstd::arithmetic::power2::lemma2_to64();
                vstd::arithmetic::power2::lemma_pow2_strictly_increases(64, k as nat);
                assert(false);
            }
        }
        p = p * 2;
        k = k + 1;
    }
    k
}

} // verus!

verus! {

/// Rounding up gives the least multiple of `align` that is at least `value`.
pub proof fn lemma_round_up(value: int, align: int)
    requires
        value >= 0,
        align > 0,
    ensures
        round_up_spec(value, align) % align == 0,
        value <= round_up_spec(value, align) < value + align,
{
    vstd::arithmetic::div_mod::lemma_fundamental_div_mod(value, align);
    vstd::arithmetic::div_mod::lemma_mod_multiples_basic(value / align + 1, align);
    assert((value / align + 1) * align == align * (value / align) + align) by (nonlinear_arith);
}

} // verus!
