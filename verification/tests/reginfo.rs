use kitt::reginfo::{
    lookup_register_info_by_id, RegisterFormat, RegisterId, RegisterInfo, RegisterKind,
    DEBUG_BLOCK_OFFSET, FP_BLOCK_OFFSET, FP_BLOCK_SIZE, SNAPSHOT_SIZE,
};
use kitt::reginfo::RegisterFormat::{LongDouble, Uint, Vector};
use kitt::reginfo::RegisterKind::{FloatingPoint, GeneralPurpose, SubGeneralPurpose};
use std::collections::HashSet;

fn expected(
    id: RegisterId,
    name: &'static str,
    dwarf_id: i32,
    size: usize,
    offset: usize,
    kind: RegisterKind,
    format: RegisterFormat,
) -> RegisterInfo {
    RegisterInfo { id, name, dwarf_id, size, offset, kind, format }
}

fn table() -> Vec<RegisterInfo> {
    vec![
        expected(RegisterId::Rax, "rax", 0, 8, 80, GeneralPurpose, Uint),
        expected(RegisterId::Rdx, "rdx", 1, 8, 96, GeneralPurpose, Uint),
        expected(RegisterId::Rcx, "rcx", 2, 8, 88, GeneralPurpose, Uint),
        expected(RegisterId::Rbx, "rbx", 3, 8, 40, GeneralPurpose, Uint),
        expected(RegisterId::Rsi, "rsi", 4, 8, 104, GeneralPurpose, Uint),
        expected(RegisterId::Rdi, "rdi", 5, 8, 112, GeneralPurpose, Uint),
        expected(RegisterId::Rbp, "rbp", 6, 8, 32, GeneralPurpose, Uint),
        expected(RegisterId::Rsp, "rsp", 7, 8, 152, GeneralPurpose, Uint),
        expected(RegisterId::R8, "r8", 8, 8, 72, GeneralPurpose, Uint),
        expected(RegisterId::R9, "r9", 9, 8, 64, GeneralPurpose, Uint),
        expected(RegisterId::R10, "r10", 10, 8, 56, GeneralPurpose, Uint),
        expected(RegisterId::R11, "r11", 11, 8, 48, GeneralPurpose, Uint),
        expected(RegisterId::R12, "r12", 12, 8, 24, GeneralPurpose, Uint),
        expected(RegisterId::R13, "r13", 13, 8, 16, GeneralPurpose, Uint),
        expected(RegisterId::R14, "r14", 14, 8, 8, GeneralPurpose, Uint),
        expected(RegisterId::R15, "r15", 15, 8, 0, GeneralPurpose, Uint),
        expected(RegisterId::Rip, "rip", 16, 8, 128, GeneralPurpose, Uint),
        expected(RegisterId::Eflags, "eflags", 49, 8, 144, GeneralPurpose, Uint),
        expected(RegisterId::Cs, "cs", 51, 8, 136, GeneralPurpose, Uint),
        expected(RegisterId::Fs, "fs", 54, 8, 200, GeneralPurpose, Uint),
        expected(RegisterId::Gs, "gs", 55, 8, 208, GeneralPurpose, Uint),
        expected(RegisterId::Ss, "ss", 52, 8, 160, GeneralPurpose, Uint),
        expected(RegisterId::Ds, "ds", 53, 8, 184, GeneralPurpose, Uint),
        expected(RegisterId::Es, "es", 50, 8, 192, GeneralPurpose, Uint),
        expected(RegisterId::FsBase, "fs_base", 58, 8, 168, GeneralPurpose, Uint),
        expected(RegisterId::GsBase, "gs_base", 59, 8, 176, GeneralPurpose, Uint),
        expected(RegisterId::OrigRax, "orig_rax", -1, 8, 120, GeneralPurpose, Uint),
        expected(RegisterId::Eax, "eax", -1, 4, 80, SubGeneralPurpose, Uint),
        expected(RegisterId::Edx, "edx", -1, 4, 96, SubGeneralPurpose, Uint),
        expected(RegisterId::Ecx, "ecx", -1, 4, 88, SubGeneralPurpose, Uint),
        expected(RegisterId::Ebx, "ebx", -1, 4, 40, SubGeneralPurpose, Uint),
        expected(RegisterId::Esi, "esi", -1, 4, 104, SubGeneralPurpose, Uint),
        expected(RegisterId::Edi, "edi", -1, 4, 112, SubGeneralPurpose, Uint),
        expected(RegisterId::Ebp, "ebp", -1, 4, 32, SubGeneralPurpose, Uint),
        expected(RegisterId::Esp, "esp", -1, 4, 152, SubGeneralPurpose, Uint),
        expected(RegisterId::R8d, "r8d", -1, 4, 72, SubGeneralPurpose, Uint),
        expected(RegisterId::R9d, "r9d", -1, 4, 64, SubGeneralPurpose, Uint),
        expected(RegisterId::R10d, "r10d", -1, 4, 56, SubGeneralPurpose, Uint),
        expected(RegisterId::R11d, "r11d", -1, 4, 48, SubGeneralPurpose, Uint),
        expected(RegisterId::R12d, "r12d", -1, 4, 24, SubGeneralPurpose, Uint),
        expected(RegisterId::R13d, "r13d", -1, 4, 16, SubGeneralPurpose, Uint),
        expected(RegisterId::R14d, "r14d", -1, 4, 8, SubGeneralPurpose, Uint),
        expected(RegisterId::R15d, "r15d", -1, 4, 0, SubGeneralPurpose, Uint),
        expected(RegisterId::Ax, "ax", -1, 2, 80, SubGeneralPurpose, Uint),
        expected(RegisterId::Dx, "dx", -1, 2, 96, SubGeneralPurpose, Uint),
        expected(RegisterId::Cx, "cx", -1, 2, 88, SubGeneralPurpose, Uint),
        expected(RegisterId::Bx, "bx", -1, 2, 40, SubGeneralPurpose, Uint),
        expected(RegisterId::Si, "si", -1, 2, 104, SubGeneralPurpose, Uint),
        expected(RegisterId::Di, "di", -1, 2, 112, SubGeneralPurpose, Uint),
        expected(RegisterId::Bp, "bp", -1, 2, 32, SubGeneralPurpose, Uint),
        expected(RegisterId::Sp, "sp", -1, 2, 152, SubGeneralPurpose, Uint),
        expected(RegisterId::R8w, "r8w", -1, 2, 72, SubGeneralPurpose, Uint),
        expected(RegisterId::R9w, "r9w", -1, 2, 64, SubGeneralPurpose, Uint),
        expected(RegisterId::R10w, "r10w", -1, 2, 56, SubGeneralPurpose, Uint),
        expected(RegisterId::R11w, "r11w", -1, 2, 48, SubGeneralPurpose, Uint),
        expected(RegisterId::R12w, "r12w", -1, 2, 24, SubGeneralPurpose, Uint),
        expected(RegisterId::R13w, "r13w", -1, 2, 16, SubGeneralPurpose, Uint),
        expected(RegisterId::R14w, "r14w", -1, 2, 8, SubGeneralPurpose, Uint),
        expected(RegisterId::R15w, "r15w", -1, 2, 0, SubGeneralPurpose, Uint),
        expected(RegisterId::Ah, "ah", -1, 1, 81, SubGeneralPurpose, Uint),
        expected(RegisterId::Dh, "dh", -1, 1, 97, SubGeneralPurpose, Uint),
        expected(RegisterId::Ch, "ch", -1, 1, 89, SubGeneralPurpose, Uint),
        expected(RegisterId::Bh, "bh", -1, 1, 41, SubGeneralPurpose, Uint),
        expected(RegisterId::Al, "al", -1, 1, 80, SubGeneralPurpose, Uint),
        expected(RegisterId::Dl, "dl", -1, 1, 96, SubGeneralPurpose, Uint),
        expected(RegisterId::Cl, "cl", -1, 1, 88, SubGeneralPurpose, Uint),
        expected(RegisterId::Bl, "bl", -1, 1, 40, SubGeneralPurpose, Uint),
        expected(RegisterId::Sil, "sil", -1, 1, 104, SubGeneralPurpose, Uint),
        expected(RegisterId::Dil, "dil", -1, 1, 112, SubGeneralPurpose, Uint),
        expected(RegisterId::Bpl, "bpl", -1, 1, 32, SubGeneralPurpose, Uint),
        expected(RegisterId::Spl, "spl", -1, 1, 152, SubGeneralPurpose, Uint),
        expected(RegisterId::R8b, "r8b", -1, 1, 72, SubGeneralPurpose, Uint),
        expected(RegisterId::R9b, "r9b", -1, 1, 64, SubGeneralPurpose, Uint),
        expected(RegisterId::R10b, "r10b", -1, 1, 56, SubGeneralPurpose, Uint),
        expected(RegisterId::R11b, "r11b", -1, 1, 48, SubGeneralPurpose, Uint),
        expected(RegisterId::R12b, "r12b", -1, 1, 24, SubGeneralPurpose, Uint),
        expected(RegisterId::R13b, "r13b", -1, 1, 16, SubGeneralPurpose, Uint),
        expected(RegisterId::R14b, "r14b", -1, 1, 8, SubGeneralPurpose, Uint),
        expected(RegisterId::R15b, "r15b", -1, 1, 0, SubGeneralPurpose, Uint),
        expected(RegisterId::Fcw, "fcw", 65, 2, 224, FloatingPoint, Uint),
        expected(RegisterId::Fsw, "fsw", 66, 2, 226, FloatingPoint, Uint),
        expected(RegisterId::Ftw, "ftw", -1, 2, 228, FloatingPoint, Uint),
        expected(RegisterId::Fop, "fop", -1, 2, 230, FloatingPoint, Uint),
        expected(RegisterId::Frip, "frip", -1, 8, 232, FloatingPoint, Uint),
        expected(RegisterId::Frdp, "frdp", -1, 8, 240, FloatingPoint, Uint),
        expected(RegisterId::Mxcsr, "mxcsr", 64, 4, 248, FloatingPoint, Uint),
        expected(RegisterId::Mxcsrmask, "mxcsrmask", -1, 4, 252, FloatingPoint, Uint),
        expected(RegisterId::St0, "st0", 33, 16, 256, FloatingPoint, LongDouble),
        expected(RegisterId::St1, "st1", 34, 16, 272, FloatingPoint, LongDouble),
        expected(RegisterId::St2, "st2", 35, 16, 288, FloatingPoint, LongDouble),
        expected(RegisterId::St3, "st3", 36, 16, 304, FloatingPoint, LongDouble),
        expected(RegisterId::St4, "st4", 37, 16, 320, FloatingPoint, LongDouble),
        expected(RegisterId::St5, "st5", 38, 16, 336, FloatingPoint, LongDouble),
        expected(RegisterId::St6, "st6", 39, 16, 352, FloatingPoint, LongDouble),
        expected(RegisterId::St7, "st7", 40, 16, 368, FloatingPoint, LongDouble),
        expected(RegisterId::Mm0, "mm0", 41, 8, 256, FloatingPoint, Vector),
        expected(RegisterId::Mm1, "mm1", 42, 8, 272, FloatingPoint, Vector),
        expected(RegisterId::Mm2, "mm2", 43, 8, 288, FloatingPoint, Vector),
        expected(RegisterId::Mm3, "mm3", 44, 8, 304, FloatingPoint, Vector),
        expected(RegisterId::Mm4, "mm4", 45, 8, 320, FloatingPoint, Vector),
        expected(RegisterId::Mm5, "mm5", 46, 8, 336, FloatingPoint, Vector),
        expected(RegisterId::Mm6, "mm6", 47, 8, 352, FloatingPoint, Vector),
        expected(RegisterId::Mm7, "mm7", 48, 8, 368, FloatingPoint, Vector),
        expected(RegisterId::Xmm0, "xmm0", 17, 16, 384, FloatingPoint, Vector),
        expected(RegisterId::Xmm1, "xmm1", 18, 16, 400, FloatingPoint, Vector),
        expected(RegisterId::Xmm2, "xmm2", 19, 16, 416, FloatingPoint, Vector),
        expected(RegisterId::Xmm3, "xmm3", 20, 16, 432, FloatingPoint, Vector),
        expected(RegisterId::Xmm4, "xmm4", 21, 16, 448, FloatingPoint, Vector),
        expected(RegisterId::Xmm5, "xmm5", 22, 16, 464, FloatingPoint, Vector),
        expected(RegisterId::Xmm6, "xmm6", 23, 16, 480, FloatingPoint, Vector),
        expected(RegisterId::Xmm7, "xmm7", 24, 16, 496, FloatingPoint, Vector),
        expected(RegisterId::Xmm8, "xmm8", 25, 16, 512, FloatingPoint, Vector),
        expected(RegisterId::Xmm9, "xmm9", 26, 16, 528, FloatingPoint, Vector),
        expected(RegisterId::Xmm10, "xmm10", 27, 16, 544, FloatingPoint, Vector),
        expected(RegisterId::Xmm11, "xmm11", 28, 16, 560, FloatingPoint, Vector),
        expected(RegisterId::Xmm12, "xmm12", 29, 16, 576, FloatingPoint, Vector),
        expected(RegisterId::Xmm13, "xmm13", 30, 16, 592, FloatingPoint, Vector),
        expected(RegisterId::Xmm14, "xmm14", 31, 16, 608, FloatingPoint, Vector),
        expected(RegisterId::Xmm15, "xmm15", 32, 16, 624, FloatingPoint, Vector),
        expected(RegisterId::Dr0, "dr0", -1, 8, 848, RegisterKind::Debug, Uint),
        expected(RegisterId::Dr1, "dr1", -1, 8, 856, RegisterKind::Debug, Uint),
        expected(RegisterId::Dr2, "dr2", -1, 8, 864, RegisterKind::Debug, Uint),
        expected(RegisterId::Dr3, "dr3", -1, 8, 872, RegisterKind::Debug, Uint),
        expected(RegisterId::Dr4, "dr4", -1, 8, 880, RegisterKind::Debug, Uint),
        expected(RegisterId::Dr5, "dr5", -1, 8, 888, RegisterKind::Debug, Uint),
        expected(RegisterId::Dr6, "dr6", -1, 8, 896, RegisterKind::Debug, Uint),
        expected(RegisterId::Dr7, "dr7", -1, 8, 904, RegisterKind::Debug, Uint),
    ]
}

#[test]
fn table_has_every_register() {
    assert_eq!(table().len(), 127);
    let ids: HashSet<RegisterId> = table().iter().map(|info| info.id).collect();
    assert_eq!(ids.len(), 127);
}

#[test]
fn lookup_finds_each_descriptor_as_the_table_has_it() {
    for info in table() {
        assert_eq!(lookup_register_info_by_id(info.id), Ok(info));
    }
}

#[test]
fn lookup_of_a_descriptor_s_own_id_gives_the_descriptor() {
    for row in table() {
        let found = lookup_register_info_by_id(row.id).unwrap();
        assert_eq!(found.id, row.id);
        assert_eq!(lookup_register_info_by_id(found.id), Ok(found));
    }
}

#[test]
fn register_names_are_distinct() {
    let names: HashSet<&str> = table().iter().map(|info| info.name).collect();
    assert_eq!(names.len(), 127);
}

#[test]
fn debug_numbers_are_distinct() {
    let numbered: Vec<i32> =
        table().iter().map(|info| info.dwarf_id).filter(|number| *number != -1).collect();
    let distinct: HashSet<i32> = numbered.iter().copied().collect();
    assert_eq!(distinct.len(), numbered.len());
    assert_eq!(numbered.len(), 61);
}

#[test]
fn every_register_lies_in_the_snapshot() {
    for row in table() {
        let info = lookup_register_info_by_id(row.id).unwrap();
        assert!(matches!(info.size, 1 | 2 | 4 | 8 | 16));
        assert!(info.offset + info.size <= SNAPSHOT_SIZE);
        match info.kind {
            RegisterKind::FloatingPoint => {
                assert!(FP_BLOCK_OFFSET <= info.offset);
                assert!(info.offset + info.size <= FP_BLOCK_OFFSET + FP_BLOCK_SIZE);
            }
            RegisterKind::Debug => {
                assert!(DEBUG_BLOCK_OFFSET <= info.offset);
                assert_eq!(info.offset % 8, 0);
            }
            _ => assert!(info.offset % 8 + info.size <= 8),
        }
    }
}

#[test]
fn sub_registers_have_no_debug_number() {
    for row in table() {
        let info = lookup_register_info_by_id(row.id).unwrap();
        if info.kind == RegisterKind::SubGeneralPurpose {
            assert_eq!(info.dwarf_id, -1);
        }
    }
}

#[test]
fn well_known_registers_are_where_the_kernel_has_them() {
    let rax = lookup_register_info_by_id(RegisterId::Rax).unwrap();
    assert_eq!((rax.name, rax.dwarf_id, rax.size, rax.offset), ("rax", 0, 8, 80));
    let rip = lookup_register_info_by_id(RegisterId::Rip).unwrap();
    assert_eq!((rip.name, rip.dwarf_id, rip.size, rip.offset), ("rip", 16, 8, 128));
    let ah = lookup_register_info_by_id(RegisterId::Ah).unwrap();
    assert_eq!((ah.name, ah.dwarf_id, ah.size, ah.offset), ("ah", -1, 1, 81));
    let st3 = lookup_register_info_by_id(RegisterId::St3).unwrap();
    assert_eq!((st3.name, st3.dwarf_id, st3.size, st3.offset), ("st3", 36, 16, 304));
    let mm3 = lookup_register_info_by_id(RegisterId::Mm3).unwrap();
    assert_eq!((mm3.name, mm3.dwarf_id, mm3.size, mm3.offset), ("mm3", 44, 8, 304));
    let xmm15 = lookup_register_info_by_id(RegisterId::Xmm15).unwrap();
    assert_eq!((xmm15.name, xmm15.dwarf_id, xmm15.size, xmm15.offset), ("xmm15", 32, 16, 624));
    let dr7 = lookup_register_info_by_id(RegisterId::Dr7).unwrap();
    assert_eq!((dr7.name, dr7.dwarf_id, dr7.size, dr7.offset), ("dr7", -1, 8, 904));
    let mxcsr = lookup_register_info_by_id(RegisterId::Mxcsr).unwrap();
    assert_eq!((mxcsr.name, mxcsr.dwarf_id, mxcsr.size, mxcsr.offset), ("mxcsr", 64, 4, 248));
}

#[test]
fn snapshot_has_the_size_of_the_kernel_s_user_area() {
    assert_eq!(std::mem::size_of::<nix::libc::user>(), SNAPSHOT_SIZE);
    assert_eq!(std::mem::size_of::<nix::libc::user_regs_struct>(), 27 * 8);
    assert_eq!(std::mem::size_of::<nix::libc::user_fpregs_struct>(), FP_BLOCK_SIZE);
    assert_eq!(std::mem::align_of::<nix::libc::user_fpregs_struct>(), 8);
}
