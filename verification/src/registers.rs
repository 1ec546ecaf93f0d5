//! The register snapshot of a traced process, and typed reads and writes of
//! single registers against it.
//!
//! A read decodes bytes of the snapshot. A write changes the snapshot and
//! says which part of it the host has to hand back to the kernel, so that the
//! traced process sees the change.

use crate::codec::{le_value, load_le};
use crate::error::Error;
use crate::reginfo::{
    lookup_register_info_by_id, register_info, RegisterFormat, RegisterId, RegisterInfo,
    RegisterKind, FP_BLOCK_OFFSET, FP_BLOCK_SIZE, SNAPSHOT_SIZE,
};
use crate::registers::values::{lemma_value_bytes_len, zeros, Byte128, Byte64, Value};
use vstd::prelude::*;

pub mod values;

verus! {

/// The raw bytes of the kernel's register snapshot.
pub type UserArea = [u8; 912];

/// The raw bytes of the floating-point block of the snapshot.
pub type FpBlock = [u8; 512];

/// A copy of the register state of a stopped process.
pub struct Registers {
    data: UserArea,
}

/// What the host has to hand to the kernel after a write to the snapshot.
#[derive(Clone, Copy, Debug, PartialEq, Eq)]
pub enum WriteBack {
    /// The whole floating-point block, which the kernel takes only in one
    /// piece.
    FloatingPoint(FpBlock),
    /// One aligned eight-byte word of the snapshot, and where it starts.
    UserWord { offset: usize, word: u64 },
}

/// Whether a register of `size` bytes in `format` can be decoded.
pub open spec fn decodable(format: RegisterFormat, size: nat) -> bool {
    match format {
        RegisterFormat::Uint => size == 1 || size == 2 || size == 4 || size == 8,
        RegisterFormat::DoubleFloat => size == 8,
        RegisterFormat::LongDouble => size == 16,
        RegisterFormat::Vector => size == 8 || size == 16,
    }
}

/// Whether `value` is what `bytes` hold when they are read in `format`.
pub open spec fn decodes_to(format: RegisterFormat, bytes: Seq<u8>, value: Value) -> bool {
    match format {
        RegisterFormat::Uint => {
            if bytes.len() == 1 {
                value == Value::U8(le_value(bytes) as u8)
            } else if bytes.len() == 2 {
                value == Value::U16(le_value(bytes) as u16)
            } else if bytes.len() == 4 {
                value == Value::U32(le_value(bytes) as u32)
            } else {
                bytes.len() == 8 && value == Value::U64(le_value(bytes) as u64)
            }
        },
        RegisterFormat::DoubleFloat => bytes.len() == 8 && value == Value::F(
            le_value(bytes) as u64,
        ),
        RegisterFormat::LongDouble => bytes.len() == 16 && (value matches Value::LD(raw)
            && raw@ == bytes),
        RegisterFormat::Vector => {
            if bytes.len() == 8 {
                value matches Value::B64(raw) && raw@ == bytes
            } else {
                bytes.len() == 16 && (value matches Value::B128(raw) && raw@ == bytes)
            }
        },
    }
}

/// The bytes of the register that `info` describes, in the snapshot `area`.
pub open spec fn register_bytes(area: Seq<u8>, info: RegisterInfo) -> Seq<u8> {
    area.subrange(info.offset as int, info.offset + info.size)
}

/// The sequence `area` with `bytes` laid over it from `offset` on.
pub open spec fn overlay(area: Seq<u8>, offset: int, bytes: Seq<u8>) -> Seq<u8> {
    Seq::new(
        area.len(),
        |i: int|
            if offset <= i < offset + bytes.len() {
                bytes[i - offset]
            } else {
                area[i]
            },
    )
}

/// Where the aligned eight-byte word starts that holds the byte at `offset`.
pub open spec fn word_start(offset: int) -> int {
    offset - offset % 8
}

/// The part of the snapshot that a write to the register hands back to the
/// kernel, as where it starts and where it ends: the floating-point block for
/// a floating-point register, and for any other the aligned eight-byte word
/// in which the register starts.
pub open spec fn write_unit(info: RegisterInfo) -> (int, int) {
    if info.kind == RegisterKind::FloatingPoint {
        (FP_BLOCK_OFFSET as int, FP_BLOCK_OFFSET + FP_BLOCK_SIZE)
    } else {
        (word_start(info.offset as int), word_start(info.offset as int) + 8)
    }
}

/// Whether `back` is what has to be handed to the kernel after a write to
/// the register that `info` describes, when the snapshot then reads `area`.
pub open spec fn writes_back(info: RegisterInfo, area: Seq<u8>, back: WriteBack) -> bool {
    let unit = area.subrange(write_unit(info).0, write_unit(info).1);
    if info.kind == RegisterKind::FloatingPoint {
        back matches WriteBack::FloatingPoint(block) && block@ == unit
    } else {
        back == (WriteBack::UserWord {
            offset: write_unit(info).0 as usize,
            word: le_value(unit) as u64,
        })
    }
}

/// Whether `value` carries the tag that a read in `format` gives to a
/// register of the value's size.
pub open spec fn native_to(value: Value, format: RegisterFormat) -> bool {
    match format {
        RegisterFormat::Uint => value is U8 || value is U16 || value is U32 || value is U64,
        RegisterFormat::DoubleFloat => value is F,
        RegisterFormat::LongDouble => value is LD,
        RegisterFormat::Vector => value is B64 || value is B128,
    }
}

/// Every register of the table has a format and a size that go together, so
/// that a read of it never fails.
pub proof fn lemma_table_is_decodable(id: RegisterId)
    ensures
        decodable(register_info(id).format, register_info(id).size as nat),
{
}

/// Bytes in a format decode to one value only.
pub proof fn lemma_decodes_to_one_value(
    format: RegisterFormat,
    bytes: Seq<u8>,
    first: Value,
    second: Value,
)
    requires
        decodes_to(format, bytes, first),
        decodes_to(format, bytes, second),
    ensures
        first == second,
{
    match (first, second) {
        (Value::LD(a), Value::LD(b)) => {
            assert(a =~= b);
        },
        (Value::B64(a), Value::B64(b)) => {
            assert(a =~= b);
        },
        (Value::B128(a), Value::B128(b)) => {
            assert(a =~= b);
        },
        _ => {},
    }
}

/// A value that was written to a register is the value that a read of the
/// same register then yields: the register's bytes in the new snapshot decode
/// to it. This holds of every value that carries the tag of the register's
/// format and has the register's size.
pub proof fn lemma_write_then_read(area: Seq<u8>, info: RegisterInfo, value: Value)
    requires
        area.len() == SNAPSHOT_SIZE,
        info.in_bounds(),
        value.spec_size() == info.size,
        native_to(value, info.format),
    ensures
        decodable(info.format, info.size as nat),
        register_bytes(overlay(area, info.offset as int, value.bytes()), info) == value.bytes(),
        decodes_to(
            info.format,
            register_bytes(overlay(area, info.offset as int, value.bytes()), info),
            value,
        ),
{
    lemma_value_bytes_len(value);
    let after = overlay(area, info.offset as int, value.bytes());
    assert(register_bytes(after, info) =~= value.bytes());
    crate::codec::lemma_pow256_values();
    match value {
        Value::U8(v) => crate::codec::lemma_le_value_of_bytes(v as nat, 1),
        Value::U16(v) => crate::codec::lemma_le_value_of_bytes(v as nat, 2),
        Value::U32(v) => crate::codec::lemma_le_value_of_bytes(v as nat, 4),
        Value::U64(v) => crate::codec::lemma_le_value_of_bytes(v as nat, 8),
        Value::F(bits) => crate::codec::lemma_le_value_of_bytes(bits as nat, 8),
        _ => {},
    }
}

/// Writing back the value that a register was read as changes nothing.
pub proof fn lemma_read_then_write(area: Seq<u8>, info: RegisterInfo, value: Value)
    requires
        area.len() == SNAPSHOT_SIZE,
        info.in_bounds(),
        decodable(info.format, info.size as nat),
        decodes_to(info.format, register_bytes(area, info), value),
    ensures
        value.spec_size() == info.size,
        value.bytes() == register_bytes(area, info),
        overlay(area, info.offset as int, value.bytes()) == area,
{
    let bytes = register_bytes(area, info);
    crate::codec::lemma_le_bytes_of_value(bytes);
    crate::codec::lemma_le_value_bound(bytes);
    crate::codec::lemma_pow256_values();
    assert(value.bytes() == bytes);
    assert(overlay(area, info.offset as int, bytes) =~= area);
}

/// A write to one register leaves every byte of the snapshot outside that
/// register as it was. So of any other register `whole`, such as the 64-bit
/// register that a one-byte register lies in, each byte that is not also a
/// byte of the written register is unchanged.
pub proof fn lemma_write_keeps_other_bytes(
    area: Seq<u8>,
    info: RegisterInfo,
    value: Value,
    whole: RegisterInfo,
    k: int,
)
    requires
        area.len() == SNAPSHOT_SIZE,
        info.in_bounds(),
        whole.in_bounds(),
        value.spec_size() == info.size,
        0 <= k < whole.size,
        !(info.offset <= whole.offset + k < info.offset + info.size),
    ensures
        register_bytes(overlay(area, info.offset as int, value.bytes()), whole)[k]
            == register_bytes(area, whole)[k],
{
    lemma_value_bytes_len(value);
}

/// What a write hands back to the kernel holds every byte that the write
/// changed, for a register that lies within its write unit, as every register
/// of the table does.
pub proof fn lemma_write_back_covers(area: Seq<u8>, info: RegisterInfo, value: Value, i: int)
    requires
        area.len() == SNAPSHOT_SIZE,
        info.in_bounds(),
        info.within_write_unit(),
        value.spec_size() == info.size,
        0 <= i < area.len(),
        overlay(area, info.offset as int, value.bytes())[i] != area[i],
    ensures
        write_unit(info).0 <= i < write_unit(info).1,
        0 <= write_unit(info).0,
        write_unit(info).1 <= SNAPSHOT_SIZE,
{
    lemma_value_bytes_len(value);
}

impl View for Registers {
    type V = Seq<u8>;

    /// The bytes of the snapshot.
    closed spec fn view(&self) -> Seq<u8> {
        self.data@
    }
}

impl Default for Registers {
    /// A snapshot in which every byte is zero.
    fn default() -> (registers: Self)
        ensures
            registers@ == zeros(SNAPSHOT_SIZE as nat),
    {
        let registers = Self { data: [0u8; 912] };
        assert(registers@ =~= zeros(SNAPSHOT_SIZE as nat));
        registers
    }
}

impl Registers {
    /// A snapshot has the size of the kernel's register area.
    pub proof fn lemma_len(&self)
        ensures
            self@.len() == SNAPSHOT_SIZE,
    {
    }

    /// The raw bytes of the snapshot, in the kernel's layout.
    pub fn user_data(&self) -> (area: UserArea)
        ensures
            area@ == self@,
    {
        self.data
    }

    /// Replaces the snapshot by `area`, the raw bytes of a register area that
    /// was fetched from the kernel.
    pub fn set_user_data(&mut self, area: UserArea)
        ensures
            final(self)@ == area@,
    {
        self.data = area;
    }

    /// Decodes the register that `info` describes from the snapshot.
    ///
    /// Fails with `DecodeFailure`, which carries the size, where the
    /// descriptor's format and size do not go together.
    pub fn read(&self, info: &RegisterInfo) -> (result: Result<Value, Error>)
        requires
            info.in_bounds(),
        ensures
            decodable(info.format, info.size as nat) ==> (result matches Ok(value) && decodes_to(
                info.format,
                register_bytes(self@, *info),
                value,
            )),
            !decodable(info.format, info.size as nat) ==> result == Err::<Value, Error>(
                Error::DecodeFailure(info.size),
            ),
    {
        let ghost bytes = register_bytes(self@, *info);
        proof {
            crate::codec::lemma_le_value_bound(bytes);
            crate::codec::lemma_pow256_values();
        }
        match info.format {
            RegisterFormat::Uint => {
                if info.size == 1 {
                    Ok(Value::U8(load_le(&self.data, info.offset, 1) as u8))
                } else if info.size == 2 {
                    Ok(Value::U16(load_le(&self.data, info.offset, 2) as u16))
                } else if info.size == 4 {
                    Ok(Value::U32(load_le(&self.data, info.offset, 4) as u32))
                } else if info.size == 8 {
                    Ok(Value::U64(load_le(&self.data, info.offset, 8)))
                } else {
                    Err(Error::DecodeFailure(info.size))
                }
            },
            RegisterFormat::DoubleFloat => {
                if info.size == 8 {
                    Ok(Value::F(load_le(&self.data, info.offset, 8)))
                } else {
                    Err(Error::DecodeFailure(info.size))
                }
            },
            RegisterFormat::LongDouble => {
                if info.size == 16 {
                    Ok(Value::LD(self.copy_16(info.offset)))
                } else {
                    Err(Error::DecodeFailure(info.size))
                }
            },
            RegisterFormat::Vector => {
                if info.size == 8 {
                    Ok(Value::B64(self.copy_8(info.offset)))
                } else if info.size == 16 {
                    Ok(Value::B128(self.copy_16(info.offset)))
                } else {
                    Err(Error::DecodeFailure(info.size))
                }
            },
        }
    }

    /// Decodes the register `register_id` from the snapshot.
    pub fn read_by_id(&self, register_id: RegisterId) -> (result: Result<Value, Error>)
        ensures
            result matches Ok(value) && decodes_to(
                register_info(register_id).format,
                register_bytes(self@, register_info(register_id)),
                value,
            ),
    {
        match lookup_register_info_by_id(register_id) {
            Ok(info) => self.read(&info),
            Err(e) => Err(e),
        }
    }

    /// Writes `value` into the register that `register_info` describes, and
    /// says what the host has to hand back to the kernel.
    ///
    /// Only the register's own bytes change. Fails with `SizeMismatch`, and
    /// changes nothing, where the value has another size than the register.
    pub fn write(&mut self, register_info: &RegisterInfo, value: Value) -> (result: Result<
        WriteBack,
        Error,
    >)
        requires
            register_info.in_bounds(),
        ensures
            value.spec_size() != register_info.size ==> result == Err::<WriteBack, Error>(
                Error::SizeMismatch,
            ) && final(self)@ == old(self)@,
            value.spec_size() == register_info.size ==> final(self)@ == overlay(
                old(self)@,
                register_info.offset as int,
                value.bytes(),
            ) && (result matches Ok(back) && writes_back(*register_info, final(self)@, back)),
    {
        if value.size() != register_info.size {
            return Err(Error::SizeMismatch);
        }
        let widened = value.widen();
        let start = register_info.offset;
        let size = register_info.size;
        let ghost before = self@;
        proof {
            lemma_value_bytes_len(value);
        }
        let mut i: usize = 0;
        while i < size
            invariant
                i <= size <= 16,
                start + size <= SNAPSHOT_SIZE,
                before.len() == SNAPSHOT_SIZE,
                self@ == overlay(before, start as int, widened@.subrange(0, i as int)),
            decreases size - i,
        {
            self.data[start + i] = widened[i];
            i = i + 1;
            assert(self@ =~= overlay(before, start as int, widened@.subrange(0, i as int)));
        }
        assert(widened@.subrange(0, size as int) =~= value.bytes());
        if register_info.kind == RegisterKind::FloatingPoint {
            Ok(WriteBack::FloatingPoint(self.fp_block()))
        } else {
            let aligned = start - start % 8;
            let word = load_le(&self.data, aligned, 8);
            proof {
                let bytes = self@.subrange(aligned as int, aligned + 8);
                crate::codec::lemma_le_value_bound(bytes);
                crate::codec::lemma_pow256_values();
            }
            Ok(WriteBack::UserWord { offset: aligned, word })
        }
    }

    /// Writes `value` into the register `register_id`, and says what the
    /// host has to hand back to the kernel.
    pub fn write_by_id(&mut self, register_id: RegisterId, value: Value) -> (result: Result<
        WriteBack,
        Error,
    >)
        ensures
            value.spec_size() != register_info(register_id).size ==> result == Err::<
                WriteBack,
                Error,
            >(Error::SizeMismatch) && final(self)@ == old(self)@,
            value.spec_size() == register_info(register_id).size ==> final(self)@ == overlay(
                old(self)@,
                register_info(register_id).offset as int,
                value.bytes(),
            ) && (result matches Ok(back) && writes_back(
                register_info(register_id),
                final(self)@,
                back,
            )),
    {
        match lookup_register_info_by_id(register_id) {
            Ok(info) => self.write(&info, value),
            Err(e) => Err(e),
        }
    }

    /// The floating-point block of the snapshot.
    fn fp_block(&self) -> (block: FpBlock)
        ensures
            block@ == self@.subrange(FP_BLOCK_OFFSET as int, FP_BLOCK_OFFSET + FP_BLOCK_SIZE),
    {
        let mut block: FpBlock = [0u8; 512];
        let mut i: usize = 0;
        while i < 512
            invariant
                i <= 512,
                forall|j: int| 0 <= j < i ==> block@[j] == self.data@[FP_BLOCK_OFFSET + j],
            decreases 512 - i,
        {
            block[i] = self.data[FP_BLOCK_OFFSET + i];
            i = i + 1;
        }
        assert(block@ =~= self@.subrange(
            FP_BLOCK_OFFSET as int,
            FP_BLOCK_OFFSET + FP_BLOCK_SIZE,
        ));
        block
    }

    /// The eight bytes of the snapshot from `offset` on.
    fn copy_8(&self, offset: usize) -> (raw: Byte64)
        requires
            offset + 8 <= SNAPSHOT_SIZE,
        ensures
            raw@ == self@.subrange(offset as int, offset + 8),
    {
        let mut raw: Byte64 = [0u8; 8];
        let mut i: usize = 0;
        while i < 8
            invariant
                i <= 8,
                offset + 8 <= SNAPSHOT_SIZE,
                forall|j: int| 0 <= j < i ==> raw@[j] == self.data@[offset + j],
            decreases 8 - i,
        {
            raw[i] = self.data[offset + i];
            i = i + 1;
        }
        assert(raw@ =~= self@.subrange(offset as int, offset + 8));
        raw
    }

    /// The sixteen bytes of the snapshot from `offset` on.
    fn copy_16(&self, offset: usize) -> (raw: Byte128)
        requires
            offset + 16 <= SNAPSHOT_SIZE,
        ensures
            raw@ == self@.subrange(offset as int, offset + 16),
    {
        let mut raw: Byte128 = [0u8; 16];
        let mut i: usize = 0;
        while i < 16
            invariant
                i <= 16,
                offset + 16 <= SNAPSHOT_SIZE,
                forall|j: int| 0 <= j < i ==> raw@[j] == self.data@[offset + j],
            decreases 16 - i,
        {
            raw[i] = self.data[offset + i];
            i = i + 1;
        }
        assert(raw@ =~= self@.subrange(offset as int, offset + 16));
        raw
    }
}

} // verus!
