//! Little-endian integers in byte sequences, the byte order of every value in
//! the x86-64 register snapshot.

use vstd::prelude::*;

verus! {

/// 256 to the power `n`.
pub open spec fn pow256(n: nat) -> nat
    decreases n,
{
    if n == 0 {
        1
    } else {
        256 * pow256((n - 1) as nat)
    }
}

/// The number that `bytes` denotes when its first byte is the least significant.
pub open spec fn le_value(bytes: Seq<u8>) -> nat
    decreases bytes.len(),
{
    if bytes.len() == 0 {
        0
    } else {
        bytes[0] as nat + 256 * le_value(bytes.drop_first())
    }
}

/// The `len` least significant bytes of `value`, least significant first.
pub open spec fn le_bytes(value: nat, len: nat) -> Seq<u8>
    decreases len,
{
    if len == 0 {
        Seq::<u8>::empty()
    } else {
        seq![(value % 256) as u8] + le_bytes(value / 256, (len - 1) as nat)
    }
}

/// The values of `pow256` at the widths that registers have.
pub proof fn lemma_pow256_values()
    ensures
        pow256(0) == 1,
        pow256(1) == 0x100,
        pow256(2) == 0x1_0000,
        pow256(4) == 0x1_0000_0000,
        pow256(7) == 0x100_0000_0000_0000,
        pow256(8) == 0x1_0000_0000_0000_0000,
{
    reveal_with_fuel(pow256, 9);
}

/// `pow256` never shrinks as its argument grows.
pub proof fn lemma_pow256_monotonic(a: nat, b: nat)
    requires
        a <= b,
    ensures
        pow256(a) <= pow256(b),
        pow256(a) >= 1,
    decreases b,
{
    if b == 0 {
    } else if a == b {
        lemma_pow256_monotonic((a - 1) as nat, (b - 1) as nat);
    } else {
        lemma_pow256_monotonic(a, (b - 1) as nat);
    }
}

/// A sequence of `n` bytes denotes a number below `256^n`.
pub proof fn lemma_le_value_bound(bytes: Seq<u8>)
    ensures
        le_value(bytes) < pow256(bytes.len()),
    decreases bytes.len(),
{
    if bytes.len() > 0 {
        lemma_le_value_bound(bytes.drop_first());
    }
}

/// `le_bytes` yields as many bytes as it is asked for.
pub proof fn lemma_le_bytes_len(value: nat, len: nat)
    ensures
        le_bytes(value, len).len() == len,
    decreases len,
{
    if len > 0 {
        lemma_le_bytes_len(value / 256, (len - 1) as nat);
    }
}

/// Encoding a number and decoding the bytes gives the number back, reduced
/// to the width that was encoded.
pub proof fn lemma_le_value_of_bytes(value: nat, len: nat)
    ensures
        le_value(le_bytes(value, len)) == value % pow256(len),
    decreases len,
{
    if len == 0 {
    } else {
        let rest = le_bytes(value / 256, (len - 1) as nat);
        let all = le_bytes(value, len);
        lemma_le_value_of_bytes(value / 256, (len - 1) as nat);
        assert(all.drop_first() =~= rest);
        assert(all[0] == (value % 256) as u8);
        let p = pow256((len - 1) as nat);
        lemma_pow256_monotonic(0, (len - 1) as nat);
        lemma_split_mod(value, p);
    }
}

/// Reducing modulo `256 * p` keeps the lowest byte and reduces the rest
/// modulo `p`.
proof fn lemma_split_mod(value: nat, p: nat)
    requires
        p >= 1,
    ensures
        value % (256 * p) == value % 256 + 256 * ((value / 256) % p),
{
    let q = value / 256;
    let r = value % 256;
    let qq = q / p;
    let qr = q % p;
    assert(value == 256 * q + r);
    assert(q == p * qq + qr) by {
        vstd::arithmetic::div_mod::lemma_fundamental_div_mod(q as int, p as int);
    }
    let low = r + 256 * qr;
    assert(0 <= low < 256 * p) by (nonlinear_arith)
        requires
            0 <= r < 256,
            0 <= qr < p,
            low == r + 256 * qr,
    ;
    assert(value == (256 * p) * qq + low) by (nonlinear_arith)
        requires
            value == 256 * q + r,
            q == p * qq + qr,
            low == r + 256 * qr,
    ;
    vstd::arithmetic::div_mod::lemma_fundamental_div_mod_converse(
        value as int,
        (256 * p) as int,
        qq as int,
        low as int,
    );
}

/// Decoding bytes and encoding the number at the same width gives the bytes
/// back.
pub proof fn lemma_le_bytes_of_value(bytes: Seq<u8>)
    ensures
        le_bytes(le_value(bytes), bytes.len()) == bytes,
    decreases bytes.len(),
{
    if bytes.len() == 0 {
        assert(le_bytes(le_value(bytes), 0) =~= bytes);
    } else {
        let tail = bytes.drop_first();
        lemma_le_bytes_of_value(tail);
        let v = le_value(bytes);
        assert(v % 256 == bytes[0] as nat);
        assert(v / 256 == le_value(tail));
        assert(le_bytes(v, bytes.len()) =~= bytes);
    }
}

/// Reads the `len` bytes of `bytes` that start at `offset` as one
/// little-endian number.
pub fn load_le(bytes: &[u8], offset: usize, len: usize) -> (value: u64)
    requires
        len <= 8,
        offset + len <= bytes.len(),
    ensures
        value == le_value(bytes@.subrange(offset as int, offset + len)),
{
    let mut value: u64 = 0;
    let mut i: usize = len;
    while i > 0
        invariant
            i <= len <= 8,
            offset + len <= bytes.len(),
            value == le_value(bytes@.subrange(offset + i, offset + len)),
        decreases i,
    {
        i = i - 1;
        proof {
            let here = bytes@.subrange(offset + i, offset + len);
            let above = bytes@.subrange(offset + i + 1, offset + len);
            assert(here.drop_first() =~= above);
            lemma_le_value_bound(above);
            lemma_pow256_monotonic(above.len(), 7);
            lemma_pow256_values();
        }
        value = value * 256 + bytes[offset + i] as u64;
    }
    value
}

} // verus!
