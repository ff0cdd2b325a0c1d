//! Fixed-width big-endian byte encodings of integers, and byte-buffer
//! helpers used by the operation encoder.

use vstd::prelude::*;
use vstd::arithmetic::div_mod::{
    lemma_div_basics, lemma_div_denominator, lemma_mod_breakdown, lemma_small_mod,
};

verus! {

/// 256 raised to `n`: the weight of the byte `n` places above the least
/// significant one.
pub open spec fn pow256(n: nat) -> nat
    decreases n,
{
    if n == 0 {
        1
    } else {
        256 * pow256((n - 1) as nat)
    }
}

/// The value of a byte sequence read as one big-endian unsigned integer.
pub open spec fn be_val(s: Seq<u8>) -> nat
    decreases s.len(),
{
    if s.len() == 0 {
        0
    } else {
        (be_val(s.drop_last()) * 256 + s.last()) as nat
    }
}

/// The 32-byte big-endian encoding of `v % 256^32`.
pub open spec fn be32_of(v: nat) -> Seq<u8> {
    Seq::new(32, |i: int| ((v / pow256((31 - i) as nat)) % 256) as u8)
}

pub proof fn lemma_pow256_positive(n: nat)
    ensures
        pow256(n) >= 1,
    decreases n,
{
    if n > 0 {
        lemma_pow256_positive((n - 1) as nat);
    }
}

/// Powers of 256 multiply when exponents add.
pub proof fn lemma_pow256_adds(a: nat, b: nat)
    ensures
        pow256(a + b) == pow256(a) * pow256(b),
    decreases a,
{
    if a == 0 {
        assert(pow256(0) == 1);
        assert(pow256(a + b) == 1 * pow256(b));
    } else {
        let p = pow256((a - 1) as nat);
        let q = pow256(b);
        lemma_pow256_adds((a - 1) as nat, b);
        assert(pow256((a - 1 + b) as nat) == p * q);
        assert(pow256(a + b) == 256 * pow256((a + b - 1) as nat));
        assert(pow256(a + b) == 256 * (p * q));
        assert(pow256(a) == 256 * p);
        assert(256 * (p * q) == (256 * p) * q) by (nonlinear_arith);
        assert(pow256(a + b) == pow256(a) * q);
    }
}

/// Dividing twice by powers of 256 is dividing by the summed power.
pub proof fn lemma_div_pow256_add(v: nat, a: nat, b: nat)
    ensures
        v / pow256(a) / pow256(b) == v / pow256(a + b),
{
    lemma_pow256_positive(a);
    lemma_pow256_positive(b);
    lemma_pow256_adds(a, b);
    lemma_div_denominator(v as int, pow256(a) as int, pow256(b) as int);
}

/// Reading back the `n`-byte big-endian encoding of `v` yields `v % 256^n`.
pub proof fn lemma_be_val_of_encoding(v: nat, n: nat)
    ensures
        be_val(Seq::new(n, |i: int| ((v / pow256((n - 1 - i) as nat)) % 256) as u8)) == v % pow256(
            n,
        ),
    decreases n,
{
    let s = Seq::new(n, |i: int| ((v / pow256((n - 1 - i) as nat)) % 256) as u8);
    if n == 0 {
        assert(v as int % 1 == 0) by (nonlinear_arith);
    } else {
        let m = (n - 1) as nat;
        lemma_be_val_of_encoding(v / 256, m);
        let t = Seq::new(m, |i: int| (((v / 256) / pow256((m - 1 - i) as nat)) % 256) as u8);
        assert(pow256(0) == 1);
        assert(pow256(1) == 256);
        assert(s.drop_last() =~= t) by {
            assert forall|i: int| 0 <= i < m implies s[i] == t[i] by {
                lemma_div_pow256_add(v, 1, (m - 1 - i) as nat);
                assert(pow256(0) == 1);
                assert(pow256(1) == 256);
            }
        }
        lemma_div_basics(v as int);
        assert(s.last() == (v % 256) as u8);
        assert(be_val(s) == ((v / 256) % pow256(m)) * 256 + v % 256);
        lemma_pow256_positive(m);
        lemma_mod_breakdown(v as int, 256, pow256(m) as int);
        assert(pow256(n) == 256 * pow256(m));
    }
}

/// A value below `256^n` is unchanged by the encode-decode round trip.
pub proof fn lemma_be_val_be32_of(v: nat)
    requires
        v < pow256(32),
    ensures
        be_val(be32_of(v)) == v,
{
    assert(be32_of(v) =~= Seq::new(
        32,
        |i: int| ((v / pow256((32 - 1 - i) as nat)) % 256) as u8,
    ));
    lemma_be_val_of_encoding(v, 32);
    lemma_small_mod(v, pow256(32));
}

/// Every big-endian value fits below `256^len`.
pub proof fn lemma_be_val_bound(s: Seq<u8>)
    ensures
        be_val(s) < pow256(s.len()),
    decreases s.len(),
{
    if s.len() == 0 {
    } else {
        lemma_be_val_bound(s.drop_last());
        assert(pow256(s.len()) == pow256((s.len() - 1) as nat) * 256) by {
            lemma_pow256_adds((s.len() - 1) as nat, 1);
        }
        assert(be_val(s.drop_last()) * 256 + 255 < pow256((s.len() - 1) as nat) * 256)
            by (nonlinear_arith)
            requires
                be_val(s.drop_last()) < pow256((s.len() - 1) as nat),
        ;
    }
}

/// Encodes a 128-bit amount as a 32-byte big-endian buffer.
pub fn u128_to_bytes(amount: u128) -> (r: Vec<u8>)
    ensures
        r@ == be32_of(amount as nat),
        r@.len() == 32,
{
    let mut low: Vec<u8> = Vec::new();
    let mut x: u128 = amount;
    let mut j: usize = 0;
    proof {
        lemma_div_basics(amount as int);
    }
    while j < 32
        invariant
            j <= 32,
            low@.len() == j,
            x as nat == (amount as nat) / pow256(j as nat),
            forall|k: int|
                0 <= k < j ==> low@[k] == (((amount as nat) / pow256(k as nat)) % 256) as u8,
        decreases 32 - j,
    {
        let b: u8 = (x % 256) as u8;
        proof {
            lemma_div_pow256_add(amount as nat, j as nat, 1);
            assert(pow256(0) == 1);
            assert(pow256(1) == 256);
        }
        low.push(b);
        x = x / 256;
        j += 1;
    }
    let mut r: Vec<u8> = Vec::new();
    let mut i: usize = 0;
    while i < 32
        invariant
            i <= 32,
            r@.len() == i,
            low@.len() == 32,
            forall|k: int|
                0 <= k < 32 ==> low@[k] == (((amount as nat) / pow256(k as nat)) % 256) as u8,
            forall|k: int| 0 <= k < i ==> r@[k] == be32_of(amount as nat)[k],
        decreases 32 - i,
    {
        r.push(low[31 - i]);
        i += 1;
    }
    proof {
        assert(r@ =~= be32_of(amount as nat));
    }
    r
}

/// Encodes a length as a 32-byte big-endian buffer.
pub fn usize_to_bytes(value: usize) -> (r: Vec<u8>)
    ensures
        r@ == be32_of(value as nat),
        r@.len() == 32,
{
    u128_to_bytes(value as u128)
}

/// Left-pads a 1..=32-byte buffer with zeroes up to 32 bytes; an empty or
/// over-long buffer is returned unchanged.
pub open spec fn padded_32(s: Seq<u8>) -> Seq<u8> {
    if s.len() > 32 || s.len() == 0 {
        s
    } else {
        Seq::new((32 - s.len()) as nat, |i: int| 0u8) + s
    }
}

/// Left-pads a short buffer with zero bytes to 32 bytes.
pub fn to_32_bytes(slice: &[u8]) -> (r: Vec<u8>)
    ensures
        r@ == padded_32(slice@),
{
    let n: usize = slice.len();
    if n > 32 || n == 0 {
        return vstd::slice::slice_to_vec(slice);
    }
    let mut r: Vec<u8> = Vec::new();
    let mut i: usize = 0;
    while i < 32 - n
        invariant
            n <= 32,
            i <= 32 - n,
            r@.len() == i,
            forall|j: int| 0 <= j < i ==> r@[j] == 0u8,
        decreases 32 - n - i,
    {
        r.push(0u8);
        i += 1;
    }
    let mut k: usize = 0;
    while k < n
        invariant
            n <= 32,
            slice@.len() == n,
            k <= n,
            r@.len() == 32 - n + k,
            forall|j: int| 0 <= j < 32 - n ==> r@[j] == 0u8,
            forall|j: int| 0 <= j < k ==> r@[32 - n + j] == slice@[j],
        decreases n - k,
    {
        r.push(slice[k]);
        k += 1;
    }
    proof {
        assert(r@ =~= padded_32(slice@));
    }
    r
}

/// Turns a fixed 32-byte buffer into a growable one.
pub fn vector_from_32_bytes(val: [u8; 32]) -> (r: Vec<u8>)
    ensures
        r@ == val@,
{
    vstd::slice::slice_to_vec(vstd::array::array_as_slice(&val))
}


/// A byte sequence whose first difference is larger reads as the larger
/// big-endian value.
pub proof fn lemma_be_val_lex(a: Seq<u8>, b: Seq<u8>, i: int)
    requires
        a.len() == b.len(),
        0 <= i < a.len(),
        a.subrange(0, i) == b.subrange(0, i),
        a[i] > b[i],
    ensures
        be_val(a) > be_val(b),
    decreases a.len(),
{
    let n = a.len() as int;
    if i == n - 1 {
        assert(a.drop_last() =~= b.drop_last());
        assert(be_val(a) == be_val(a.drop_last()) * 256 + a[i]);
        assert(be_val(b) == be_val(b.drop_last()) * 256 + b[i]);
    } else {
        assert(a.drop_last().subrange(0, i) =~= a.subrange(0, i));
        assert(b.drop_last().subrange(0, i) =~= b.subrange(0, i));
        assert(a.drop_last()[i] == a[i]);
        assert(b.drop_last()[i] == b[i]);
        lemma_be_val_lex(a.drop_last(), b.drop_last(), i);
        assert(be_val(a) == be_val(a.drop_last()) * 256 + a.last());
        assert(be_val(b) == be_val(b.drop_last()) * 256 + b.last());
        assert(be_val(a.drop_last()) * 256 >= (be_val(b.drop_last()) + 1) * 256);
    }
}

/// Compares two equally long buffers as big-endian unsigned integers.
pub fn bytes_ge(a: &Vec<u8>, b: &Vec<u8>) -> (r: bool)
    requires
        a@.len() == b@.len(),
    ensures
        r == (be_val(a@) >= be_val(b@)),
{
    let n: usize = a.len();
    let mut i: usize = 0;
    while i < n
        invariant
            a@.len() == n,
            b@.len() == n,
            i <= n,
            a@.subrange(0, i as int) == b@.subrange(0, i as int),
        decreases n - i,
    {
        if a[i] > b[i] {
            proof {
                lemma_be_val_lex(a@, b@, i as int);
            }
            return true;
        }
        if a[i] < b[i] {
            proof {
                lemma_be_val_lex(b@, a@, i as int);
            }
            return false;
        }
        proof {
            assert(a@.subrange(0, i + 1) =~= b@.subrange(0, i + 1));
        }
        i += 1;
    }
    proof {
        assert(a@.subrange(0, n as int) =~= a@);
        assert(b@.subrange(0, n as int) =~= b@);
        assert(a@ =~= b@);
    }
    true
}

/// Appends a slice to the end of a buffer.
pub fn append_bytes(dst: &mut Vec<u8>, src: &[u8])
    ensures
        final(dst)@ == old(dst)@ + src@,
{
    let n: usize = src.len();
    let mut i: usize = 0;
    while i < n
        invariant
            src@.len() == n,
            i <= n,
            dst@ == old(dst)@ + src@.subrange(0, i as int),
        decreases n - i,
    {
        dst.push(src[i]);
        proof {
            assert(old(dst)@ + src@.subrange(0, i + 1) =~= (old(dst)@ + src@.subrange(
                0,
                i as int,
            )).push(src@[i as int]));
        }
        i += 1;
    }
    proof {
        assert(src@.subrange(0, n as int) =~= src@);
    }
}


/// Leading zero bytes do not change the big-endian value.
pub proof fn lemma_be_val_leading_zeros(s: Seq<u8>, k: int)
    requires
        0 <= k <= s.len(),
        forall|i: int| 0 <= i < k ==> s[i] == 0u8,
    ensures
        be_val(s) == be_val(s.skip(k)),
    decreases s.len(),
{
    if k == s.len() {
        lemma_be_val_all_zero(s);
        assert(s.skip(k) =~= Seq::<u8>::empty());
    } else {
        assert(s.skip(k).len() > 0);
        assert(s.skip(k).drop_last() =~= s.drop_last().skip(k));
        lemma_be_val_leading_zeros(s.drop_last(), k);
        assert(s.skip(k).last() == s.last());
    }
}

/// A buffer of zero bytes reads as zero.
pub proof fn lemma_be_val_all_zero(s: Seq<u8>)
    requires
        forall|i: int| 0 <= i < s.len() ==> s[i] == 0u8,
    ensures
        be_val(s) == 0,
    decreases s.len(),
{
    if s.len() > 0 {
        lemma_be_val_all_zero(s.drop_last());
    }
}

/// Each byte bounds the big-endian value from below by its weight.
pub proof fn lemma_be_val_byte_lower(s: Seq<u8>, i: int)
    requires
        0 <= i < s.len(),
    ensures
        be_val(s) >= s[i] * pow256((s.len() - 1 - i) as nat),
    decreases s.len(),
{
    if i == s.len() - 1 {
        let w = pow256((s.len() - 1 - i) as nat);
        assert(w == 1);
        assert(be_val(s) == be_val(s.drop_last()) * 256 + s[i]);
        assert(be_val(s.drop_last()) * 256 >= 0);
        assert(s[i] * w == s[i]) by (nonlinear_arith)
            requires
                w == 1,
        ;
    } else {
        lemma_be_val_byte_lower(s.drop_last(), i);
        let w = pow256((s.len() - 2 - i) as nat);
        assert(s.drop_last()[i] == s[i]);
        assert(be_val(s.drop_last()) >= s[i] * w);
        assert(be_val(s) == be_val(s.drop_last()) * 256 + s.last());
        assert(be_val(s.drop_last()) * 256 >= (s[i] * w) * 256) by (nonlinear_arith)
            requires
                be_val(s.drop_last()) >= s[i] * w,
        ;
        assert((s[i] * w) * 256 == s[i] * (w * 256)) by (nonlinear_arith);
        assert(pow256((s.len() - 1 - i) as nat) == w * 256) by {
            lemma_pow256_adds((s.len() - 2 - i) as nat, 1);
            assert(pow256(0) == 1);
            assert(pow256(1) == 256 * pow256(0));
        }
        assert(be_val(s) >= s[i] * pow256((s.len() - 1 - i) as nat));
    }
}


/// Powers of 256 grow with the exponent.
pub proof fn lemma_pow256_monotone(a: nat, b: nat)
    requires
        a <= b,
    ensures
        pow256(a) <= pow256(b),
    decreases b,
{
    if a < b {
        lemma_pow256_monotone(a, (b - 1) as nat);
        lemma_pow256_positive((b - 1) as nat);
    }
}


/// The numeric value of the eight-byte weight.
pub proof fn lemma_pow256_8()
    ensures
        pow256(8) == 0x1_0000_0000_0000_0000,
{
    assert(pow256(0) == 1);
    assert(pow256(1) == 256);
    assert(pow256(2) == 0x1_0000);
    assert(pow256(3) == 0x100_0000);
    assert(pow256(4) == 0x1_0000_0000);
    assert(pow256(5) == 0x100_0000_0000);
    assert(pow256(6) == 0x1_0000_0000_0000);
    assert(pow256(7) == 0x100_0000_0000_0000);
    assert(pow256(8) == 0x1_0000_0000_0000_0000);
}

} // verus!
