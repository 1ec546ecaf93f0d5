//! The register table of x86-64: one descriptor for every register that the
//! kernel's register snapshot of a traced process holds, and the lookup by
//! symbolic identity.
//!
//! The snapshot is the kernel's `user` area: the general-purpose block first,
//! then the floating-point block, then bookkeeping fields, and the debug
//! registers last. Every offset below is a byte offset into that area.

use crate::error::Error;
use vstd::prelude::*;

verus! {

/// The size of the register snapshot in bytes.
pub const SNAPSHOT_SIZE: usize = 912;

/// Where the general-purpose block starts, and the size of each of its slots.
pub const GENERAL_BLOCK_OFFSET: usize = 0;

pub const GENERAL_SLOT_SIZE: usize = 8;

/// Where the floating-point block starts, and its size.
pub const FP_BLOCK_OFFSET: usize = 224;

pub const FP_BLOCK_SIZE: usize = 512;

/// Where the x87 stack registers start inside the floating-point block; each
/// has a slot of sixteen bytes, which its MMX alias shares.
pub const ST_SPACE_OFFSET: usize = 32;

/// Where the SSE registers start inside the floating-point block; sixteen
/// bytes each.
pub const XMM_SPACE_OFFSET: usize = 160;

/// Where the eight debug registers start; eight bytes each.
pub const DEBUG_BLOCK_OFFSET: usize = 848;

// The slots of the general-purpose block, in the kernel's order.
pub const SLOT_R15: usize = 0;
pub const SLOT_R14: usize = 1;
pub const SLOT_R13: usize = 2;
pub const SLOT_R12: usize = 3;
pub const SLOT_RBP: usize = 4;
pub const SLOT_RBX: usize = 5;
pub const SLOT_R11: usize = 6;
pub const SLOT_R10: usize = 7;
pub const SLOT_R9: usize = 8;
pub const SLOT_R8: usize = 9;
pub const SLOT_RAX: usize = 10;
pub const SLOT_RCX: usize = 11;
pub const SLOT_RDX: usize = 12;
pub const SLOT_RSI: usize = 13;
pub const SLOT_RDI: usize = 14;
pub const SLOT_ORIG_RAX: usize = 15;
pub const SLOT_RIP: usize = 16;
pub const SLOT_CS: usize = 17;
pub const SLOT_EFLAGS: usize = 18;
pub const SLOT_RSP: usize = 19;
pub const SLOT_SS: usize = 20;
pub const SLOT_FS_BASE: usize = 21;
pub const SLOT_GS_BASE: usize = 22;
pub const SLOT_DS: usize = 23;
pub const SLOT_ES: usize = 24;
pub const SLOT_FS: usize = 25;
pub const SLOT_GS: usize = 26;

/// The symbolic identity of a register: the key of the table.
#[derive(Clone, Copy, Debug, PartialEq, Eq, Hash, Structural)]
pub enum RegisterId {
    // 64-bit general-purpose registers, segment registers and flags
    Rax,
    Rdx,
    Rcx,
    Rbx,
    Rsi,
    Rdi,
    Rbp,
    Rsp,
    R8,
    R9,
    R10,
    R11,
    R12,
    R13,
    R14,
    R15,
    Rip,
    Eflags,
    Cs,
    Fs,
    Gs,
    Ss,
    Ds,
    Es,
    FsBase,
    GsBase,
    OrigRax,
    // 32-bit views
    Eax,
    Edx,
    Ecx,
    Ebx,
    Esi,
    Edi,
    Ebp,
    Esp,
    R8d,
    R9d,
    R10d,
    R11d,
    R12d,
    R13d,
    R14d,
    R15d,
    // 16-bit views
    Ax,
    Dx,
    Cx,
    Bx,
    Si,
    Di,
    Bp,
    Sp,
    R8w,
    R9w,
    R10w,
    R11w,
    R12w,
    R13w,
    R14w,
    R15w,
    // high-byte views
    Ah,
    Dh,
    Ch,
    Bh,
    // low-byte views
    Al,
    Dl,
    Cl,
    Bl,
    Sil,
    Dil,
    Bpl,
    Spl,
    R8b,
    R9b,
    R10b,
    R11b,
    R12b,
    R13b,
    R14b,
    R15b,
    // x87 and SSE control registers
    Fcw,
    Fsw,
    Ftw,
    Fop,
    Frip,
    Frdp,
    Mxcsr,
    Mxcsrmask,
    // x87 stack registers
    St0,
    St1,
    St2,
    St3,
    St4,
    St5,
    St6,
    St7,
    // MMX registers
    Mm0,
    Mm1,
    Mm2,
    Mm3,
    Mm4,
    Mm5,
    Mm6,
    Mm7,
    // SSE registers
    Xmm0,
    Xmm1,
    Xmm2,
    Xmm3,
    Xmm4,
    Xmm5,
    Xmm6,
    Xmm7,
    Xmm8,
    Xmm9,
    Xmm10,
    Xmm11,
    Xmm12,
    Xmm13,
    Xmm14,
    Xmm15,
    // debug registers
    Dr0,
    Dr1,
    Dr2,
    Dr3,
    Dr4,
    Dr5,
    Dr6,
    Dr7,
}

/// What part of the machine a register belongs to.
#[derive(Clone, Copy, Debug, PartialEq, Eq, Structural)]
pub enum RegisterKind {
    GeneralPurpose,
    SubGeneralPurpose,
    FloatingPoint,
    Debug,
}

/// How the bytes of a register are to be understood.
#[derive(Clone, Copy, Debug, PartialEq, Eq, Structural)]
pub enum RegisterFormat {
    Uint,
    DoubleFloat,
    LongDouble,
    Vector,
}

/// The description of one register.
#[derive(Clone, Copy, Debug, PartialEq, Eq)]
pub struct RegisterInfo {
    /// The register's identity.
    pub id: RegisterId,
    /// The name by which people know the register.
    pub name: &'static str,
    /// The register's number in DWARF debug information, or -1 where it has
    /// none.
    pub dwarf_id: i32,
    /// The register's size in bytes.
    pub size: usize,
    /// Where the register's bytes start in the snapshot.
    pub offset: usize,
    /// The part of the machine the register belongs to.
    pub kind: RegisterKind,
    /// How the register's bytes are to be understood.
    pub format: RegisterFormat,
}

impl RegisterInfo {
    /// The register's bytes lie inside the snapshot.
    pub open spec fn in_bounds(self) -> bool {
        self.offset + self.size <= SNAPSHOT_SIZE
    }

    /// Whether the register's bytes lie inside the snapshot.
    pub fn is_in_bounds(&self) -> (inside: bool)
        ensures
            inside == self.in_bounds(),
    {
        self.offset <= SNAPSHOT_SIZE && self.size <= SNAPSHOT_SIZE - self.offset
    }

    /// The register's bytes lie inside the part of the snapshot that a write
    /// hands back to the kernel: the floating-point block for a
    /// floating-point register, one aligned eight-byte word for any other.
    pub open spec fn within_write_unit(self) -> bool {
        if self.kind == RegisterKind::FloatingPoint {
            FP_BLOCK_OFFSET <= self.offset && self.offset + self.size <= FP_BLOCK_OFFSET
                + FP_BLOCK_SIZE
        } else {
            self.offset % 8 + self.size <= 8
        }
    }
}

/// A 64-bit register in slot `slot` of the general-purpose block.
pub open spec fn spec_gpr64(
    id: RegisterId,
    name: &'static str,
    dwarf_id: i32,
    slot: usize,
) -> RegisterInfo {
    RegisterInfo {
        id,
        name,
        dwarf_id,
        size: 8,
        offset: (GENERAL_BLOCK_OFFSET + GENERAL_SLOT_SIZE * slot) as usize,
        kind: RegisterKind::GeneralPurpose,
        format: RegisterFormat::Uint,
    }
}

fn gpr64(id: RegisterId, name: &'static str, dwarf_id: i32, slot: usize) -> (info: RegisterInfo)
    requires
        slot < 27,
    ensures
        info == spec_gpr64(id, name, dwarf_id, slot),
{
    RegisterInfo {
        id,
        name,
        dwarf_id,
        size: 8,
        offset: GENERAL_BLOCK_OFFSET + GENERAL_SLOT_SIZE * slot,
        kind: RegisterKind::GeneralPurpose,
        format: RegisterFormat::Uint,
    }
}

/// The low four bytes of the register in slot `slot`.
pub open spec fn spec_gpr32(id: RegisterId, name: &'static str, slot: usize) -> RegisterInfo {
    RegisterInfo {
        id,
        name,
        dwarf_id: -1i32,
        size: 4,
        offset: (GENERAL_BLOCK_OFFSET + GENERAL_SLOT_SIZE * slot) as usize,
        kind: RegisterKind::SubGeneralPurpose,
        format: RegisterFormat::Uint,
    }
}

fn gpr32(id: RegisterId, name: &'static str, slot: usize) -> (info: RegisterInfo)
    requires
        slot < 27,
    ensures
        info == spec_gpr32(id, name, slot),
{
    RegisterInfo {
        id,
        name,
        dwarf_id: -1,
        size: 4,
        offset: GENERAL_BLOCK_OFFSET + GENERAL_SLOT_SIZE * slot,
        kind: RegisterKind::SubGeneralPurpose,
        format: RegisterFormat::Uint,
    }
}

/// The low two bytes of the register in slot `slot`.
pub open spec fn spec_gpr16(id: RegisterId, name: &'static str, slot: usize) -> RegisterInfo {
    RegisterInfo {
        id,
        name,
        dwarf_id: -1i32,
        size: 2,
        offset: (GENERAL_BLOCK_OFFSET + GENERAL_SLOT_SIZE * slot) as usize,
        kind: RegisterKind::SubGeneralPurpose,
        format: RegisterFormat::Uint,
    }
}

fn gpr16(id: RegisterId, name: &'static str, slot: usize) -> (info: RegisterInfo)
    requires
        slot < 27,
    ensures
        info == spec_gpr16(id, name, slot),
{
    RegisterInfo {
        id,
        name,
        dwarf_id: -1,
        size: 2,
        offset: GENERAL_BLOCK_OFFSET + GENERAL_SLOT_SIZE * slot,
        kind: RegisterKind::SubGeneralPurpose,
        format: RegisterFormat::Uint,
    }
}

/// The second-lowest byte of the register in slot `slot`.
pub open spec fn spec_gpr8_hi(id: RegisterId, name: &'static str, slot: usize) -> RegisterInfo {
    RegisterInfo {
        id,
        name,
        dwarf_id: -1i32,
        size: 1,
        offset: (GENERAL_BLOCK_OFFSET + GENERAL_SLOT_SIZE * slot + 1) as usize,
        kind: RegisterKind::SubGeneralPurpose,
        format: RegisterFormat::Uint,
    }
}

fn gpr8_hi(id: RegisterId, name: &'static str, slot: usize) -> (info: RegisterInfo)
    requires
        slot < 27,
    ensures
        info == spec_gpr8_hi(id, name, slot),
{
    RegisterInfo {
        id,
        name,
        dwarf_id: -1,
        size: 1,
        offset: GENERAL_BLOCK_OFFSET + GENERAL_SLOT_SIZE * slot + 1,
        kind: RegisterKind::SubGeneralPurpose,
        format: RegisterFormat::Uint,
    }
}

/// The lowest byte of the register in slot `slot`.
pub open spec fn spec_gpr8_lo(id: RegisterId, name: &'static str, slot: usize) -> RegisterInfo {
    RegisterInfo {
        id,
        name,
        dwarf_id: -1i32,
        size: 1,
        offset: (GENERAL_BLOCK_OFFSET + GENERAL_SLOT_SIZE * slot) as usize,
        kind: RegisterKind::SubGeneralPurpose,
        format: RegisterFormat::Uint,
    }
}

fn gpr8_lo(id: RegisterId, name: &'static str, slot: usize) -> (info: RegisterInfo)
    requires
        slot < 27,
    ensures
        info == spec_gpr8_lo(id, name, slot),
{
    RegisterInfo {
        id,
        name,
        dwarf_id: -1,
        size: 1,
        offset: GENERAL_BLOCK_OFFSET + GENERAL_SLOT_SIZE * slot,
        kind: RegisterKind::SubGeneralPurpose,
        format: RegisterFormat::Uint,
    }
}

/// A control register of `size` bytes at `field` in the floating-point block.
pub open spec fn spec_fpr(
    id: RegisterId,
    name: &'static str,
    dwarf_id: i32,
    field: usize,
    size: usize,
) -> RegisterInfo {
    RegisterInfo {
        id,
        name,
        dwarf_id,
        size,
        offset: (FP_BLOCK_OFFSET + field) as usize,
        kind: RegisterKind::FloatingPoint,
        format: RegisterFormat::Uint,
    }
}

fn fpr(
    id: RegisterId,
    name: &'static str,
    dwarf_id: i32,
    field: usize,
    size: usize,
) -> (info: RegisterInfo)
    requires
        field < 32,
    ensures
        info == spec_fpr(id, name, dwarf_id, field, size),
{
    RegisterInfo {
        id,
        name,
        dwarf_id,
        size,
        offset: FP_BLOCK_OFFSET + field,
        kind: RegisterKind::FloatingPoint,
        format: RegisterFormat::Uint,
    }
}

/// The x87 stack register number `index`.
pub open spec fn spec_fp_st(id: RegisterId, name: &'static str, index: usize) -> RegisterInfo {
    RegisterInfo {
        id,
        name,
        dwarf_id: (33 + index) as i32,
        size: 16,
        offset: (FP_BLOCK_OFFSET + ST_SPACE_OFFSET + 16 * index) as usize,
        kind: RegisterKind::FloatingPoint,
        format: RegisterFormat::LongDouble,
    }
}

fn fp_st(id: RegisterId, name: &'static str, index: usize) -> (info: RegisterInfo)
    requires
        index < 8,
    ensures
        info == spec_fp_st(id, name, index),
{
    RegisterInfo {
        id,
        name,
        dwarf_id: 33 + index as i32,
        size: 16,
        offset: FP_BLOCK_OFFSET + ST_SPACE_OFFSET + 16 * index,
        kind: RegisterKind::FloatingPoint,
        format: RegisterFormat::LongDouble,
    }
}

/// The MMX register number `index`, which lies in the low half of the x87
/// stack register with the same number.
pub open spec fn spec_fp_mm(id: RegisterId, name: &'static str, index: usize) -> RegisterInfo {
    RegisterInfo {
        id,
        name,
        dwarf_id: (41 + index) as i32,
        size: 8,
        offset: (FP_BLOCK_OFFSET + ST_SPACE_OFFSET + 16 * index) as usize,
        kind: RegisterKind::FloatingPoint,
        format: RegisterFormat::Vector,
    }
}

fn fp_mm(id: RegisterId, name: &'static str, index: usize) -> (info: RegisterInfo)
    requires
        index < 8,
    ensures
        info == spec_fp_mm(id, name, index),
{
    RegisterInfo {
        id,
        name,
        dwarf_id: 41 + index as i32,
        size: 8,
        offset: FP_BLOCK_OFFSET + ST_SPACE_OFFSET + 16 * index,
        kind: RegisterKind::FloatingPoint,
        format: RegisterFormat::Vector,
    }
}

/// The SSE register number `index`.
pub open spec fn spec_xmm(id: RegisterId, name: &'static str, index: usize) -> RegisterInfo {
    RegisterInfo {
        id,
        name,
        dwarf_id: (17 + index) as i32,
        size: 16,
        offset: (FP_BLOCK_OFFSET + XMM_SPACE_OFFSET + 16 * index) as usize,
        kind: RegisterKind::FloatingPoint,
        format: RegisterFormat::Vector,
    }
}

fn xmm(id: RegisterId, name: &'static str, index: usize) -> (info: RegisterInfo)
    requires
        index < 16,
    ensures
        info == spec_xmm(id, name, index),
{
    RegisterInfo {
        id,
        name,
        dwarf_id: 17 + index as i32,
        size: 16,
        offset: FP_BLOCK_OFFSET + XMM_SPACE_OFFSET + 16 * index,
        kind: RegisterKind::FloatingPoint,
        format: RegisterFormat::Vector,
    }
}

/// The debug register number `index`.
pub open spec fn spec_debugreg(id: RegisterId, name: &'static str, index: usize) -> RegisterInfo {
    RegisterInfo {
        id,
        name,
        dwarf_id: -1i32,
        size: 8,
        offset: (DEBUG_BLOCK_OFFSET + 8 * index) as usize,
        kind: RegisterKind::Debug,
        format: RegisterFormat::Uint,
    }
}

fn debugreg(id: RegisterId, name: &'static str, index: usize) -> (info: RegisterInfo)
    requires
        index < 8,
    ensures
        info == spec_debugreg(id, name, index),
{
    RegisterInfo {
        id,
        name,
        dwarf_id: -1,
        size: 8,
        offset: DEBUG_BLOCK_OFFSET + 8 * index,
        kind: RegisterKind::Debug,
        format: RegisterFormat::Uint,
    }
}

/// The register table: the descriptor of each register.
pub open spec fn register_info(id: RegisterId) -> RegisterInfo {
    match id {
        RegisterId::Rax => spec_gpr64(RegisterId::Rax, "rax", 0, SLOT_RAX),
        RegisterId::Rdx => spec_gpr64(RegisterId::Rdx, "rdx", 1, SLOT_RDX),
        RegisterId::Rcx => spec_gpr64(RegisterId::Rcx, "rcx", 2, SLOT_RCX),
        RegisterId::Rbx => spec_gpr64(RegisterId::Rbx, "rbx", 3, SLOT_RBX),
        RegisterId::Rsi => spec_gpr64(RegisterId::Rsi, "rsi", 4, SLOT_RSI),
        RegisterId::Rdi => spec_gpr64(RegisterId::Rdi, "rdi", 5, SLOT_RDI),
        RegisterId::Rbp => spec_gpr64(RegisterId::Rbp, "rbp", 6, SLOT_RBP),
        RegisterId::Rsp => spec_gpr64(RegisterId::Rsp, "rsp", 7, SLOT_RSP),
        RegisterId::R8 => spec_gpr64(RegisterId::R8, "r8", 8, SLOT_R8),
        RegisterId::R9 => spec_gpr64(RegisterId::R9, "r9", 9, SLOT_R9),
        RegisterId::R10 => spec_gpr64(RegisterId::R10, "r10", 10, SLOT_R10),
        RegisterId::R11 => spec_gpr64(RegisterId::R11, "r11", 11, SLOT_R11),
        RegisterId::R12 => spec_gpr64(RegisterId::R12, "r12", 12, SLOT_R12),
        RegisterId::R13 => spec_gpr64(RegisterId::R13, "r13", 13, SLOT_R13),
        RegisterId::R14 => spec_gpr64(RegisterId::R14, "r14", 14, SLOT_R14),
        RegisterId::R15 => spec_gpr64(RegisterId::R15, "r15", 15, SLOT_R15),
        RegisterId::Rip => spec_gpr64(RegisterId::Rip, "rip", 16, SLOT_RIP),
        RegisterId::Eflags => spec_gpr64(RegisterId::Eflags, "eflags", 49, SLOT_EFLAGS),
        RegisterId::Cs => spec_gpr64(RegisterId::Cs, "cs", 51, SLOT_CS),
        RegisterId::Fs => spec_gpr64(RegisterId::Fs, "fs", 54, SLOT_FS),
        RegisterId::Gs => spec_gpr64(RegisterId::Gs, "gs", 55, SLOT_GS),
        RegisterId::Ss => spec_gpr64(RegisterId::Ss, "ss", 52, SLOT_SS),
        RegisterId::Ds => spec_gpr64(RegisterId::Ds, "ds", 53, SLOT_DS),
        RegisterId::Es => spec_gpr64(RegisterId::Es, "es", 50, SLOT_ES),
        RegisterId::FsBase => spec_gpr64(RegisterId::FsBase, "fs_base", 58, SLOT_FS_BASE),
        RegisterId::GsBase => spec_gpr64(RegisterId::GsBase, "gs_base", 59, SLOT_GS_BASE),
        RegisterId::OrigRax => spec_gpr64(RegisterId::OrigRax, "orig_rax", -1i32, SLOT_ORIG_RAX),
        RegisterId::Eax => spec_gpr32(RegisterId::Eax, "eax", SLOT_RAX),
        RegisterId::Edx => spec_gpr32(RegisterId::Edx, "edx", SLOT_RDX),
        RegisterId::Ecx => spec_gpr32(RegisterId::Ecx, "ecx", SLOT_RCX),
        RegisterId::Ebx => spec_gpr32(RegisterId::Ebx, "ebx", SLOT_RBX),
        RegisterId::Esi => spec_gpr32(RegisterId::Esi, "esi", SLOT_RSI),
        RegisterId::Edi => spec_gpr32(RegisterId::Edi, "edi", SLOT_RDI),
        RegisterId::Ebp => spec_gpr32(RegisterId::Ebp, "ebp", SLOT_RBP),
        RegisterId::Esp => spec_gpr32(RegisterId::Esp, "esp", SLOT_RSP),
        RegisterId::R8d => spec_gpr32(RegisterId::R8d, "r8d", SLOT_R8),
        RegisterId::R9d => spec_gpr32(RegisterId::R9d, "r9d", SLOT_R9),
        RegisterId::R10d => spec_gpr32(RegisterId::R10d, "r10d", SLOT_R10),
        RegisterId::R11d => spec_gpr32(RegisterId::R11d, "r11d", SLOT_R11),
        RegisterId::R12d => spec_gpr32(RegisterId::R12d, "r12d", SLOT_R12),
        RegisterId::R13d => spec_gpr32(RegisterId::R13d, "r13d", SLOT_R13),
        RegisterId::R14d => spec_gpr32(RegisterId::R14d, "r14d", SLOT_R14),
        RegisterId::R15d => spec_gpr32(RegisterId::R15d, "r15d", SLOT_R15),
        RegisterId::Ax => spec_gpr16(RegisterId::Ax, "ax", SLOT_RAX),
        RegisterId::Dx => spec_gpr16(RegisterId::Dx, "dx", SLOT_RDX),
        RegisterId::Cx => spec_gpr16(RegisterId::Cx, "cx", SLOT_RCX),
        RegisterId::Bx => spec_gpr16(RegisterId::Bx, "bx", SLOT_RBX),
        RegisterId::Si => spec_gpr16(RegisterId::Si, "si", SLOT_RSI),
        RegisterId::Di => spec_gpr16(RegisterId::Di, "di", SLOT_RDI),
        RegisterId::Bp => spec_gpr16(RegisterId::Bp, "bp", SLOT_RBP),
        RegisterId::Sp => spec_gpr16(RegisterId::Sp, "sp", SLOT_RSP),
        RegisterId::R8w => spec_gpr16(RegisterId::R8w, "r8w", SLOT_R8),
        RegisterId::R9w => spec_gpr16(RegisterId::R9w, "r9w", SLOT_R9),
        RegisterId::R10w => spec_gpr16(RegisterId::R10w, "r10w", SLOT_R10),
        RegisterId::R11w => spec_gpr16(RegisterId::R11w, "r11w", SLOT_R11),
        RegisterId::R12w => spec_gpr16(RegisterId::R12w, "r12w", SLOT_R12),
        RegisterId::R13w => spec_gpr16(RegisterId::R13w, "r13w", SLOT_R13),
        RegisterId::R14w => spec_gpr16(RegisterId::R14w, "r14w", SLOT_R14),
        RegisterId::R15w => spec_gpr16(RegisterId::R15w, "r15w", SLOT_R15),
        RegisterId::Ah => spec_gpr8_hi(RegisterId::Ah, "ah", SLOT_RAX),
        RegisterId::Dh => spec_gpr8_hi(RegisterId::Dh, "dh", SLOT_RDX),
        RegisterId::Ch => spec_gpr8_hi(RegisterId::Ch, "ch", SLOT_RCX),
        RegisterId::Bh => spec_gpr8_hi(RegisterId::Bh, "bh", SLOT_RBX),
        RegisterId::Al => spec_gpr8_lo(RegisterId::Al, "al", SLOT_RAX),
        RegisterId::Dl => spec_gpr8_lo(RegisterId::Dl, "dl", SLOT_RDX),
        RegisterId::Cl => spec_gpr8_lo(RegisterId::Cl, "cl", SLOT_RCX),
        RegisterId::Bl => spec_gpr8_lo(RegisterId::Bl, "bl", SLOT_RBX),
        RegisterId::Sil => spec_gpr8_lo(RegisterId::Sil, "sil", SLOT_RSI),
        RegisterId::Dil => spec_gpr8_lo(RegisterId::Dil, "dil", SLOT_RDI),
        RegisterId::Bpl => spec_gpr8_lo(RegisterId::Bpl, "bpl", SLOT_RBP),
        RegisterId::Spl => spec_gpr8_lo(RegisterId::Spl, "spl", SLOT_RSP),
        RegisterId::R8b => spec_gpr8_lo(RegisterId::R8b, "r8b", SLOT_R8),
        RegisterId::R9b => spec_gpr8_lo(RegisterId::R9b, "r9b", SLOT_R9),
        RegisterId::R10b => spec_gpr8_lo(RegisterId::R10b, "r10b", SLOT_R10),
        RegisterId::R11b => spec_gpr8_lo(RegisterId::R11b, "r11b", SLOT_R11),
        RegisterId::R12b => spec_gpr8_lo(RegisterId::R12b, "r12b", SLOT_R12),
        RegisterId::R13b => spec_gpr8_lo(RegisterId::R13b, "r13b", SLOT_R13),
        RegisterId::R14b => spec_gpr8_lo(RegisterId::R14b, "r14b", SLOT_R14),
        RegisterId::R15b => spec_gpr8_lo(RegisterId::R15b, "r15b", SLOT_R15),
        RegisterId::Fcw => spec_fpr(RegisterId::Fcw, "fcw", 65, 0, 2),
        RegisterId::Fsw => spec_fpr(RegisterId::Fsw, "fsw", 66, 2, 2),
        RegisterId::Ftw => spec_fpr(RegisterId::Ftw, "ftw", -1i32, 4, 2),
        RegisterId::Fop => spec_fpr(RegisterId::Fop, "fop", -1i32, 6, 2),
        RegisterId::Frip => spec_fpr(RegisterId::Frip, "frip", -1i32, 8, 8),
        RegisterId::Frdp => spec_fpr(RegisterId::Frdp, "frdp", -1i32, 16, 8),
        RegisterId::Mxcsr => spec_fpr(RegisterId::Mxcsr, "mxcsr", 64, 24, 4),
        RegisterId::Mxcsrmask => spec_fpr(RegisterId::Mxcsrmask, "mxcsrmask", -1i32, 28, 4),
        RegisterId::St0 => spec_fp_st(RegisterId::St0, "st0", 0),
        RegisterId::St1 => spec_fp_st(RegisterId::St1, "st1", 1),
        RegisterId::St2 => spec_fp_st(RegisterId::St2, "st2", 2),
        RegisterId::St3 => spec_fp_st(RegisterId::St3, "st3", 3),
        RegisterId::St4 => spec_fp_st(RegisterId::St4, "st4", 4),
        RegisterId::St5 => spec_fp_st(RegisterId::St5, "st5", 5),
        RegisterId::St6 => spec_fp_st(RegisterId::St6, "st6", 6),
        RegisterId::St7 => spec_fp_st(RegisterId::St7, "st7", 7),
        RegisterId::Mm0 => spec_fp_mm(RegisterId::Mm0, "mm0", 0),
        RegisterId::Mm1 => spec_fp_mm(RegisterId::Mm1, "mm1", 1),
        RegisterId::Mm2 => spec_fp_mm(RegisterId::Mm2, "mm2", 2),
        RegisterId::Mm3 => spec_fp_mm(RegisterId::Mm3, "mm3", 3),
        RegisterId::Mm4 => spec_fp_mm(RegisterId::Mm4, "mm4", 4),
        RegisterId::Mm5 => spec_fp_mm(RegisterId::Mm5, "mm5", 5),
        RegisterId::Mm6 => spec_fp_mm(RegisterId::Mm6, "mm6", 6),
        RegisterId::Mm7 => spec_fp_mm(RegisterId::Mm7, "mm7", 7),
        RegisterId::Xmm0 => spec_xmm(RegisterId::Xmm0, "xmm0", 0),
        RegisterId::Xmm1 => spec_xmm(RegisterId::Xmm1, "xmm1", 1),
        RegisterId::Xmm2 => spec_xmm(RegisterId::Xmm2, "xmm2", 2),
        RegisterId::Xmm3 => spec_xmm(RegisterId::Xmm3, "xmm3", 3),
        RegisterId::Xmm4 => spec_xmm(RegisterId::Xmm4, "xmm4", 4),
        RegisterId::Xmm5 => spec_xmm(RegisterId::Xmm5, "xmm5", 5),
        RegisterId::Xmm6 => spec_xmm(RegisterId::Xmm6, "xmm6", 6),
        RegisterId::Xmm7 => spec_xmm(RegisterId::Xmm7, "xmm7", 7),
        RegisterId::Xmm8 => spec_xmm(RegisterId::Xmm8, "xmm8", 8),
        RegisterId::Xmm9 => spec_xmm(RegisterId::Xmm9, "xmm9", 9),
        RegisterId::Xmm10 => spec_xmm(RegisterId::Xmm10, "xmm10", 10),
        RegisterId::Xmm11 => spec_xmm(RegisterId::Xmm11, "xmm11", 11),
        RegisterId::Xmm12 => spec_xmm(RegisterId::Xmm12, "xmm12", 12),
        RegisterId::Xmm13 => spec_xmm(RegisterId::Xmm13, "xmm13", 13),
        RegisterId::Xmm14 => spec_xmm(RegisterId::Xmm14, "xmm14", 14),
        RegisterId::Xmm15 => spec_xmm(RegisterId::Xmm15, "xmm15", 15),
        RegisterId::Dr0 => spec_debugreg(RegisterId::Dr0, "dr0", 0),
        RegisterId::Dr1 => spec_debugreg(RegisterId::Dr1, "dr1", 1),
        RegisterId::Dr2 => spec_debugreg(RegisterId::Dr2, "dr2", 2),
        RegisterId::Dr3 => spec_debugreg(RegisterId::Dr3, "dr3", 3),
        RegisterId::Dr4 => spec_debugreg(RegisterId::Dr4, "dr4", 4),
        RegisterId::Dr5 => spec_debugreg(RegisterId::Dr5, "dr5", 5),
        RegisterId::Dr6 => spec_debugreg(RegisterId::Dr6, "dr6", 6),
        RegisterId::Dr7 => spec_debugreg(RegisterId::Dr7, "dr7", 7),
    }
}

/// Finds the descriptor of the register `id`.
///
/// The table has a descriptor for every identity, so the lookup never fails.
#[verifier::rlimit(40)]
pub fn lookup_register_info_by_id(id: RegisterId) -> (found: Result<RegisterInfo, Error>)
    ensures
        found == Ok::<RegisterInfo, Error>(register_info(id)),
        register_info(id).in_bounds(),
        register_info(id).within_write_unit(),
{
    proof {
        lemma_table_well_formed(id);
    }
    Ok(
        match id {
            RegisterId::Rax => gpr64(RegisterId::Rax, "rax", 0, SLOT_RAX),
            RegisterId::Rdx => gpr64(RegisterId::Rdx, "rdx", 1, SLOT_RDX),
            RegisterId::Rcx => gpr64(RegisterId::Rcx, "rcx", 2, SLOT_RCX),
            RegisterId::Rbx => gpr64(RegisterId::Rbx, "rbx", 3, SLOT_RBX),
            RegisterId::Rsi => gpr64(RegisterId::Rsi, "rsi", 4, SLOT_RSI),
            RegisterId::Rdi => gpr64(RegisterId::Rdi, "rdi", 5, SLOT_RDI),
            RegisterId::Rbp => gpr64(RegisterId::Rbp, "rbp", 6, SLOT_RBP),
            RegisterId::Rsp => gpr64(RegisterId::Rsp, "rsp", 7, SLOT_RSP),
            RegisterId::R8 => gpr64(RegisterId::R8, "r8", 8, SLOT_R8),
            RegisterId::R9 => gpr64(RegisterId::R9, "r9", 9, SLOT_R9),
            RegisterId::R10 => gpr64(RegisterId::R10, "r10", 10, SLOT_R10),
            RegisterId::R11 => gpr64(RegisterId::R11, "r11", 11, SLOT_R11),
            RegisterId::R12 => gpr64(RegisterId::R12, "r12", 12, SLOT_R12),
            RegisterId::R13 => gpr64(RegisterId::R13, "r13", 13, SLOT_R13),
            RegisterId::R14 => gpr64(RegisterId::R14, "r14", 14, SLOT_R14),
            RegisterId::R15 => gpr64(RegisterId::R15, "r15", 15, SLOT_R15),
            RegisterId::Rip => gpr64(RegisterId::Rip, "rip", 16, SLOT_RIP),
            RegisterId::Eflags => gpr64(RegisterId::Eflags, "eflags", 49, SLOT_EFLAGS),
            RegisterId::Cs => gpr64(RegisterId::Cs, "cs", 51, SLOT_CS),
            RegisterId::Fs => gpr64(RegisterId::Fs, "fs", 54, SLOT_FS),
            RegisterId::Gs => gpr64(RegisterId::Gs, "gs", 55, SLOT_GS),
            RegisterId::Ss => gpr64(RegisterId::Ss, "ss", 52, SLOT_SS),
            RegisterId::Ds => gpr64(RegisterId::Ds, "ds", 53, SLOT_DS),
            RegisterId::Es => gpr64(RegisterId::Es, "es", 50, SLOT_ES),
            RegisterId::FsBase => gpr64(RegisterId::FsBase, "fs_base", 58, SLOT_FS_BASE),
            RegisterId::GsBase => gpr64(RegisterId::GsBase, "gs_base", 59, SLOT_GS_BASE),
            RegisterId::OrigRax => gpr64(RegisterId::OrigRax, "orig_rax", -1i32, SLOT_ORIG_RAX),
            RegisterId::Eax => gpr32(RegisterId::Eax, "eax", SLOT_RAX),
            RegisterId::Edx => gpr32(RegisterId::Edx, "edx", SLOT_RDX),
            RegisterId::Ecx => gpr32(RegisterId::Ecx, "ecx", SLOT_RCX),
            RegisterId::Ebx => gpr32(RegisterId::Ebx, "ebx", SLOT_RBX),
            RegisterId::Esi => gpr32(RegisterId::Esi, "esi", SLOT_RSI),
            RegisterId::Edi => gpr32(RegisterId::Edi, "edi", SLOT_RDI),
            RegisterId::Ebp => gpr32(RegisterId::Ebp, "ebp", SLOT_RBP),
            RegisterId::Esp => gpr32(RegisterId::Esp, "esp", SLOT_RSP),
            RegisterId::R8d => gpr32(RegisterId::R8d, "r8d", SLOT_R8),
            RegisterId::R9d => gpr32(RegisterId::R9d, "r9d", SLOT_R9),
            RegisterId::R10d => gpr32(RegisterId::R10d, "r10d", SLOT_R10),
            RegisterId::R11d => gpr32(RegisterId::R11d, "r11d", SLOT_R11),
            RegisterId::R12d => gpr32(RegisterId::R12d, "r12d", SLOT_R12),
            RegisterId::R13d => gpr32(RegisterId::R13d, "r13d", SLOT_R13),
            RegisterId::R14d => gpr32(RegisterId::R14d, "r14d", SLOT_R14),
            RegisterId::R15d => gpr32(RegisterId::R15d, "r15d", SLOT_R15),
            RegisterId::Ax => gpr16(RegisterId::Ax, "ax", SLOT_RAX),
            RegisterId::Dx => gpr16(RegisterId::Dx, "dx", SLOT_RDX),
            RegisterId::Cx => gpr16(RegisterId::Cx, "cx", SLOT_RCX),
            RegisterId::Bx => gpr16(RegisterId::Bx, "bx", SLOT_RBX),
            RegisterId::Si => gpr16(RegisterId::Si, "si", SLOT_RSI),
            RegisterId::Di => gpr16(RegisterId::Di, "di", SLOT_RDI),
            RegisterId::Bp => gpr16(RegisterId::Bp, "bp", SLOT_RBP),
            RegisterId::Sp => gpr16(RegisterId::Sp, "sp", SLOT_RSP),
            RegisterId::R8w => gpr16(RegisterId::R8w, "r8w", SLOT_R8),
            RegisterId::R9w => gpr16(RegisterId::R9w, "r9w", SLOT_R9),
            RegisterId::R10w => gpr16(RegisterId::R10w, "r10w", SLOT_R10),
            RegisterId::R11w => gpr16(RegisterId::R11w, "r11w", SLOT_R11),
            RegisterId::R12w => gpr16(RegisterId::R12w, "r12w", SLOT_R12),
            RegisterId::R13w => gpr16(RegisterId::R13w, "r13w", SLOT_R13),
            RegisterId::R14w => gpr16(RegisterId::R14w, "r14w", SLOT_R14),
            RegisterId::R15w => gpr16(RegisterId::R15w, "r15w", SLOT_R15),
            RegisterId::Ah => gpr8_hi(RegisterId::Ah, "ah", SLOT_RAX),
            RegisterId::Dh => gpr8_hi(RegisterId::Dh, "dh", SLOT_RDX),
            RegisterId::Ch => gpr8_hi(RegisterId::Ch, "ch", SLOT_RCX),
            RegisterId::Bh => gpr8_hi(RegisterId::Bh, "bh", SLOT_RBX),
            RegisterId::Al => gpr8_lo(RegisterId::Al, "al", SLOT_RAX),
            RegisterId::Dl => gpr8_lo(RegisterId::Dl, "dl", SLOT_RDX),
            RegisterId::Cl => gpr8_lo(RegisterId::Cl, "cl", SLOT_RCX),
            RegisterId::Bl => gpr8_lo(RegisterId::Bl, "bl", SLOT_RBX),
            RegisterId::Sil => gpr8_lo(RegisterId::Sil, "sil", SLOT_RSI),
            RegisterId::Dil => gpr8_lo(RegisterId::Dil, "dil", SLOT_RDI),
            RegisterId::Bpl => gpr8_lo(RegisterId::Bpl, "bpl", SLOT_RBP),
            RegisterId::Spl => gpr8_lo(RegisterId::Spl, "spl", SLOT_RSP),
            RegisterId::R8b => gpr8_lo(RegisterId::R8b, "r8b", SLOT_R8),
            RegisterId::R9b => gpr8_lo(RegisterId::R9b, "r9b", SLOT_R9),
            RegisterId::R10b => gpr8_lo(RegisterId::R10b, "r10b", SLOT_R10),
            RegisterId::R11b => gpr8_lo(RegisterId::R11b, "r11b", SLOT_R11),
            RegisterId::R12b => gpr8_lo(RegisterId::R12b, "r12b", SLOT_R12),
            RegisterId::R13b => gpr8_lo(RegisterId::R13b, "r13b", SLOT_R13),
            RegisterId::R14b => gpr8_lo(RegisterId::R14b, "r14b", SLOT_R14),
            RegisterId::R15b => gpr8_lo(RegisterId::R15b, "r15b", SLOT_R15),
            RegisterId::Fcw => fpr(RegisterId::Fcw, "fcw", 65, 0, 2),
            RegisterId::Fsw => fpr(RegisterId::Fsw, "fsw", 66, 2, 2),
            RegisterId::Ftw => fpr(RegisterId::Ftw, "ftw", -1i32, 4, 2),
            RegisterId::Fop => fpr(RegisterId::Fop, "fop", -1i32, 6, 2),
            RegisterId::Frip => fpr(RegisterId::Frip, "frip", -1i32, 8, 8),
            RegisterId::Frdp => fpr(RegisterId::Frdp, "frdp", -1i32, 16, 8),
            RegisterId::Mxcsr => fpr(RegisterId::Mxcsr, "mxcsr", 64, 24, 4),
            RegisterId::Mxcsrmask => fpr(RegisterId::Mxcsrmask, "mxcsrmask", -1i32, 28, 4),
            RegisterId::St0 => fp_st(RegisterId::St0, "st0", 0),
            RegisterId::St1 => fp_st(RegisterId::St1, "st1", 1),
            RegisterId::St2 => fp_st(RegisterId::St2, "st2", 2),
            RegisterId::St3 => fp_st(RegisterId::St3, "st3", 3),
            RegisterId::St4 => fp_st(RegisterId::St4, "st4", 4),
            RegisterId::St5 => fp_st(RegisterId::St5, "st5", 5),
            RegisterId::St6 => fp_st(RegisterId::St6, "st6", 6),
            RegisterId::St7 => fp_st(RegisterId::St7, "st7", 7),
            RegisterId::Mm0 => fp_mm(RegisterId::Mm0, "mm0", 0),
            RegisterId::Mm1 => fp_mm(RegisterId::Mm1, "mm1", 1),
            RegisterId::Mm2 => fp_mm(RegisterId::Mm2, "mm2", 2),
            RegisterId::Mm3 => fp_mm(RegisterId::Mm3, "mm3", 3),
            RegisterId::Mm4 => fp_mm(RegisterId::Mm4, "mm4", 4),
            RegisterId::Mm5 => fp_mm(RegisterId::Mm5, "mm5", 5),
            RegisterId::Mm6 => fp_mm(RegisterId::Mm6, "mm6", 6),
            RegisterId::Mm7 => fp_mm(RegisterId::Mm7, "mm7", 7),
            RegisterId::Xmm0 => xmm(RegisterId::Xmm0, "xmm0", 0),
            RegisterId::Xmm1 => xmm(RegisterId::Xmm1, "xmm1", 1),
            RegisterId::Xmm2 => xmm(RegisterId::Xmm2, "xmm2", 2),
            RegisterId::Xmm3 => xmm(RegisterId::Xmm3, "xmm3", 3),
            RegisterId::Xmm4 => xmm(RegisterId::Xmm4, "xmm4", 4),
            RegisterId::Xmm5 => xmm(RegisterId::Xmm5, "xmm5", 5),
            RegisterId::Xmm6 => xmm(RegisterId::Xmm6, "xmm6", 6),
            RegisterId::Xmm7 => xmm(RegisterId::Xmm7, "xmm7", 7),
            RegisterId::Xmm8 => xmm(RegisterId::Xmm8, "xmm8", 8),
            RegisterId::Xmm9 => xmm(RegisterId::Xmm9, "xmm9", 9),
            RegisterId::Xmm10 => xmm(RegisterId::Xmm10, "xmm10", 10),
            RegisterId::Xmm11 => xmm(RegisterId::Xmm11, "xmm11", 11),
            RegisterId::Xmm12 => xmm(RegisterId::Xmm12, "xmm12", 12),
            RegisterId::Xmm13 => xmm(RegisterId::Xmm13, "xmm13", 13),
            RegisterId::Xmm14 => xmm(RegisterId::Xmm14, "xmm14", 14),
            RegisterId::Xmm15 => xmm(RegisterId::Xmm15, "xmm15", 15),
            RegisterId::Dr0 => debugreg(RegisterId::Dr0, "dr0", 0),
            RegisterId::Dr1 => debugreg(RegisterId::Dr1, "dr1", 1),
            RegisterId::Dr2 => debugreg(RegisterId::Dr2, "dr2", 2),
            RegisterId::Dr3 => debugreg(RegisterId::Dr3, "dr3", 3),
            RegisterId::Dr4 => debugreg(RegisterId::Dr4, "dr4", 4),
            RegisterId::Dr5 => debugreg(RegisterId::Dr5, "dr5", 5),
            RegisterId::Dr6 => debugreg(RegisterId::Dr6, "dr6", 6),
            RegisterId::Dr7 => debugreg(RegisterId::Dr7, "dr7", 7),
        },
    )
}

/// The 64-bit register that fills the slot `slot` of the general-purpose
/// block.
pub open spec fn general_register_at(slot: int) -> RegisterId {
    if slot == SLOT_R15 {
        RegisterId::R15
    } else if slot == SLOT_R14 {
        RegisterId::R14
    } else if slot == SLOT_R13 {
        RegisterId::R13
    } else if slot == SLOT_R12 {
        RegisterId::R12
    } else if slot == SLOT_RBP {
        RegisterId::Rbp
    } else if slot == SLOT_RBX {
        RegisterId::Rbx
    } else if slot == SLOT_R11 {
        RegisterId::R11
    } else if slot == SLOT_R10 {
        RegisterId::R10
    } else if slot == SLOT_R9 {
        RegisterId::R9
    } else if slot == SLOT_R8 {
        RegisterId::R8
    } else if slot == SLOT_RAX {
        RegisterId::Rax
    } else if slot == SLOT_RCX {
        RegisterId::Rcx
    } else if slot == SLOT_RDX {
        RegisterId::Rdx
    } else if slot == SLOT_RSI {
        RegisterId::Rsi
    } else if slot == SLOT_RDI {
        RegisterId::Rdi
    } else if slot == SLOT_ORIG_RAX {
        RegisterId::OrigRax
    } else if slot == SLOT_RIP {
        RegisterId::Rip
    } else if slot == SLOT_CS {
        RegisterId::Cs
    } else if slot == SLOT_EFLAGS {
        RegisterId::Eflags
    } else if slot == SLOT_RSP {
        RegisterId::Rsp
    } else if slot == SLOT_SS {
        RegisterId::Ss
    } else if slot == SLOT_FS_BASE {
        RegisterId::FsBase
    } else if slot == SLOT_GS_BASE {
        RegisterId::GsBase
    } else if slot == SLOT_DS {
        RegisterId::Ds
    } else if slot == SLOT_ES {
        RegisterId::Es
    } else if slot == SLOT_FS {
        RegisterId::Fs
    } else {
        RegisterId::Gs
    }
}

/// Every narrower view of a general-purpose register lies inside the eight
/// bytes of the 64-bit register that fills the same slot.
pub proof fn lemma_sub_register_lies_in_general(id: RegisterId)
    requires
        register_info(id).kind == RegisterKind::SubGeneralPurpose,
    ensures
        ({
            let sub = register_info(id);
            let whole = register_info(general_register_at((sub.offset / 8) as int));
            &&& whole.kind == RegisterKind::GeneralPurpose
            &&& whole.size == 8
            &&& whole.offset <= sub.offset
            &&& sub.offset + sub.size <= whole.offset + whole.size
        }),
{
}

/// Each MMX register starts where the x87 stack register with the same
/// number starts: the two share their bytes.
pub proof fn lemma_mmx_shares_x87_storage()
    ensures
        register_info(RegisterId::Mm0).offset == register_info(RegisterId::St0).offset,
        register_info(RegisterId::Mm1).offset == register_info(RegisterId::St1).offset,
        register_info(RegisterId::Mm2).offset == register_info(RegisterId::St2).offset,
        register_info(RegisterId::Mm3).offset == register_info(RegisterId::St3).offset,
        register_info(RegisterId::Mm4).offset == register_info(RegisterId::St4).offset,
        register_info(RegisterId::Mm5).offset == register_info(RegisterId::St5).offset,
        register_info(RegisterId::Mm6).offset == register_info(RegisterId::St6).offset,
        register_info(RegisterId::Mm7).offset == register_info(RegisterId::St7).offset,
{
}

/// Every descriptor of the table is found again under its own identity.
pub proof fn lemma_lookup_round_trip(id: RegisterId)
    ensures
        register_info(id).id == id,
        register_info(register_info(id).id) == register_info(id),
{
}

/// Every descriptor of the table lies inside the snapshot and inside the part
/// of it that a write hands back, and has a size of 1, 2, 4, 8 or 16 bytes.
pub proof fn lemma_table_well_formed(id: RegisterId)
    ensures
        register_info(id).in_bounds(),
        register_info(id).within_write_unit(),
        ({
            let size = register_info(id).size;
            size == 1 || size == 2 || size == 4 || size == 8 || size == 16
        }),
{
}

} // verus!
