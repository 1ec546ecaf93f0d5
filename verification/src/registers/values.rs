//! The typed payload of one register access.

use crate::codec::{le_bytes, pow256};
use vstd::prelude::*;

verus! {

/// Eight raw bytes, as an MMX register holds them.
pub type Byte64 = [u8; 8];

/// Sixteen raw bytes: the widest register, and the width every value is
/// brought to before it is written.
pub type Byte128 = [u8; 16];

/// A register's content, tagged with how it is to be understood.
///
/// `F` holds the bit pattern of an IEEE 754 double, and `LD` the sixteen-byte
/// slot of an x87 extended-precision number, so that every value is compared
/// and copied exactly.
#[derive(Clone, Copy, Debug, PartialEq, Eq)]
pub enum Value {
    U8(u8),
    U16(u16),
    U32(u32),
    U64(u64),
    I8(i8),
    I16(i16),
    I32(i32),
    I64(i64),
    F(u64),
    LD(Byte128),
    B64(Byte64),
    B128(Byte128),
}

/// The unsigned number with the same `width`-byte two's complement pattern
/// as `v`.
pub open spec fn unsigned_of(v: int, width: nat) -> nat {
    if v >= 0 {
        v as nat
    } else {
        (v + pow256(width)) as nat
    }
}

/// `n` zero bytes.
pub open spec fn zeros(n: nat) -> Seq<u8> {
    Seq::new(n, |i: int| 0u8)
}

impl Value {
    /// The number of bytes that the value occupies in a register.
    pub open spec fn spec_size(self) -> nat {
        match self {
            Value::U8(_) | Value::I8(_) => 1,
            Value::U16(_) | Value::I16(_) => 2,
            Value::U32(_) | Value::I32(_) => 4,
            Value::U64(_) | Value::I64(_) | Value::F(_) | Value::B64(_) => 8,
            Value::LD(_) | Value::B128(_) => 16,
        }
    }

    /// The bytes that stand for the value in a register, least significant
    /// first; signed numbers in two's complement.
    pub open spec fn bytes(self) -> Seq<u8> {
        match self {
            Value::U8(v) => le_bytes(v as nat, 1),
            Value::U16(v) => le_bytes(v as nat, 2),
            Value::U32(v) => le_bytes(v as nat, 4),
            Value::U64(v) => le_bytes(v as nat, 8),
            Value::I8(v) => le_bytes(unsigned_of(v as int, 1), 1),
            Value::I16(v) => le_bytes(unsigned_of(v as int, 2), 2),
            Value::I32(v) => le_bytes(unsigned_of(v as int, 4), 4),
            Value::I64(v) => le_bytes(unsigned_of(v as int, 8), 8),
            Value::F(bits) => le_bytes(bits as nat, 8),
            Value::LD(raw) => raw@,
            Value::B64(raw) => raw@,
            Value::B128(raw) => raw@,
        }
    }

    /// The value's bytes followed by zeros up to sixteen bytes.
    pub open spec fn widened(self) -> Seq<u8> {
        self.bytes() + zeros((16 - self.spec_size()) as nat)
    }

    /// The number of bytes that the value occupies in a register.
    pub fn size(&self) -> (n: usize)
        ensures
            n == self.spec_size(),
            n == 1 || n == 2 || n == 4 || n == 8 || n == 16,
    {
        match self {
            Value::U8(_) | Value::I8(_) => 1,
            Value::U16(_) | Value::I16(_) => 2,
            Value::U32(_) | Value::I32(_) => 4,
            Value::U64(_) | Value::I64(_) | Value::F(_) | Value::B64(_) => 8,
            Value::LD(_) | Value::B128(_) => 16,
        }
    }

    /// Brings the value to the widest representation: its own bytes first,
    /// zeros after them.
    pub fn widen(&self) -> (wide: Byte128)
        ensures
            wide@ == self.widened(),
    {
        proof {
            crate::codec::lemma_pow256_values();
        }
        match self {
            Value::U8(v) => widen_number(*v as u64, 1),
            Value::U16(v) => widen_number(*v as u64, 2),
            Value::U32(v) => widen_number(*v as u64, 4),
            Value::U64(v) => widen_number(*v, 8),
            Value::I8(v) => widen_number(to_unsigned(*v as i64, 1), 1),
            Value::I16(v) => widen_number(to_unsigned(*v as i64, 2), 2),
            Value::I32(v) => widen_number(to_unsigned(*v as i64, 4), 4),
            Value::I64(v) => widen_number(to_unsigned(*v, 8), 8),
            Value::F(bits) => widen_number(*bits, 8),
            Value::LD(raw) => {
                assert(raw@ + zeros(0) =~= raw@);
                *raw
            },
            Value::B64(raw) => {
                let mut wide: Byte128 = [0u8; 16];
                let mut i: usize = 0;
                while i < 8
                    invariant
                        i <= 8,
                        forall|j: int| 0 <= j < i ==> wide@[j] == raw@[j],
                        forall|j: int| i <= j < 16 ==> wide@[j] == 0,
                    decreases 8 - i,
                {
                    wide[i] = raw[i];
                    i = i + 1;
                }
                assert(wide@ =~= raw@ + zeros(8));
                wide
            },
            Value::B128(raw) => {
                assert(raw@ + zeros(0) =~= raw@);
                *raw
            },
        }
    }
}

/// The unsigned number with the same `width`-byte two's complement pattern
/// as `v`.
fn to_unsigned(v: i64, width: usize) -> (u: u64)
    requires
        width == 1 || width == 2 || width == 4 || width == 8,
        -pow256(width as nat) <= 2 * v < pow256(width as nat),
    ensures
        u == unsigned_of(v as int, width as nat),
{
    proof {
        crate::codec::lemma_pow256_values();
    }
    if v >= 0 {
        v as u64
    } else if width == 1 {
        (v + 0x100) as u64
    } else if width == 2 {
        (v + 0x1_0000) as u64
    } else if width == 4 {
        (v + 0x1_0000_0000) as u64
    } else {
        (v as i128 + 0x1_0000_0000_0000_0000) as u64
    }
}

/// A value has as many bytes as its size says.
pub proof fn lemma_value_bytes_len(value: Value)
    ensures
        value.bytes().len() == value.spec_size(),
{
    crate::codec::lemma_le_bytes_len(0, 0);
    match value {
        Value::U8(v) => crate::codec::lemma_le_bytes_len(v as nat, 1),
        Value::U16(v) => crate::codec::lemma_le_bytes_len(v as nat, 2),
        Value::U32(v) => crate::codec::lemma_le_bytes_len(v as nat, 4),
        Value::U64(v) => crate::codec::lemma_le_bytes_len(v as nat, 8),
        Value::I8(v) => crate::codec::lemma_le_bytes_len(unsigned_of(v as int, 1), 1),
        Value::I16(v) => crate::codec::lemma_le_bytes_len(unsigned_of(v as int, 2), 2),
        Value::I32(v) => crate::codec::lemma_le_bytes_len(unsigned_of(v as int, 4), 4),
        Value::I64(v) => crate::codec::lemma_le_bytes_len(unsigned_of(v as int, 8), 8),
        Value::F(bits) => crate::codec::lemma_le_bytes_len(bits as nat, 8),
        Value::LD(_) => {},
        Value::B64(_) => {},
        Value::B128(_) => {},
    }
}

/// The `size` low bytes of `number`, least significant first, followed by
/// zeros up to sixteen bytes.
fn widen_number(number: u64, size: usize) -> (wide: Byte128)
    requires
        size <= 8,
    ensures
        wide@ == le_bytes(number as nat, size as nat) + zeros((16 - size) as nat),
{
    let mut wide: Byte128 = [0u8; 16];
    let mut rest: u64 = number;
    let mut i: usize = 0;
    while i < size
        invariant
            i <= size <= 8,
            le_bytes(number as nat, size as nat) == wide@.subrange(0, i as int) + le_bytes(
                rest as nat,
                (size - i) as nat,
            ),
            forall|j: int| i <= j < 16 ==> wide@[j] == 0,
        decreases size - i,
    {
        let ghost before = wide@;
        wide[i] = (rest % 256) as u8;
        proof {
            let tail = le_bytes((rest / 256) as nat, (size - i - 1) as nat);
            assert(le_bytes(rest as nat, (size - i) as nat) == seq![(rest % 256) as u8] + tail);
            assert(wide@.subrange(0, i + 1) =~= before.subrange(0, i as int).push(
                (rest % 256) as u8,
            ));
            assert(wide@.subrange(0, i + 1) + tail =~= before.subrange(0, i as int) + (seq![
                (rest % 256) as u8,
            ] + tail));
        }
        rest = rest / 256;
        i = i + 1;
    }
    proof {
        assert(le_bytes(rest as nat, 0) =~= Seq::<u8>::empty());
        assert(wide@.subrange(0, size as int) + Seq::<u8>::empty() =~= wide@.subrange(
            0,
            size as int,
        ));
        assert(wide@ =~= wide@.subrange(0, size as int) + zeros((16 - size) as nat));
    }
    wide
}

} // verus!
