use arm64_singlepass::calls::{Relocation, RelocationKind};
use arm64_singlepass::imm::{compatible_imm, offset_is_ok, ImmType};
use arm64_singlepass::inst::{Inst, LoadKind, Op2, Op3, StoreKind};
use arm64_singlepass::machine::{MachineARM64, TrapInformation};
use arm64_singlepass::regs::{Condition, Location, MemoryImmediate, Size, TrapCode, GPR, NEON};

fn gpr(r: GPR) -> Location {
    Location::GPR(r)
}

fn sp() -> Location {
    Location::GPR(GPR::XzrSp)
}

#[test]
fn bits12_boundary() {
    assert!(compatible_imm(4095, ImmType::Bits12));
    assert!(!compatible_imm(4096, ImmType::Bits12));
    assert!(compatible_imm(0, ImmType::Bits12));
    assert!(!compatible_imm(-1, ImmType::Bits12));
}

#[test]
fn offset_dword_boundary() {
    assert!(compatible_imm(8, ImmType::OffsetDWord));
    assert!(!compatible_imm(7, ImmType::OffsetDWord));
    assert!(compatible_imm(32760, ImmType::OffsetDWord));
    assert!(!compatible_imm(32768, ImmType::OffsetDWord));
}

#[test]
fn unscaled_offset_boundary() {
    assert!(compatible_imm(-255, ImmType::UnscaledOffset));
    assert!(compatible_imm(255, ImmType::UnscaledOffset));
    assert!(!compatible_imm(-256, ImmType::UnscaledOffset));
    assert!(!compatible_imm(256, ImmType::UnscaledOffset));
}

#[test]
fn other_immediate_kinds() {
    assert!(!compatible_imm(0, ImmType::NoImm));
    assert!(!compatible_imm(0, ImmType::NoneXzr));
    assert!(compatible_imm(255, ImmType::Bits8));
    assert!(!compatible_imm(256, ImmType::Bits8));
    assert!(compatible_imm(0, ImmType::Shift32));
    assert!(!compatible_imm(0, ImmType::Shift32No0));
    assert!(compatible_imm(31, ImmType::Shift32No0));
    assert!(!compatible_imm(32, ImmType::Shift32No0));
    assert!(compatible_imm(63, ImmType::Shift64No0));
    assert!(!compatible_imm(64, ImmType::Shift64));
    assert!(compatible_imm(4094, ImmType::OffsetHWord));
    assert!(!compatible_imm(3, ImmType::OffsetHWord));
    assert!(compatible_imm(16380, ImmType::OffsetWord));
    assert!(!compatible_imm(16384, ImmType::OffsetWord));
    assert!(compatible_imm(4095, ImmType::OffsetByte));
}

#[test]
fn logical_immediates_follow_the_bitmask_encoding() {
    assert!(compatible_imm(0xff, ImmType::Logical32));
    assert!(compatible_imm(0x5555_5555, ImmType::Logical32));
    assert!(!compatible_imm(0, ImmType::Logical32));
    assert!(!compatible_imm(0xffff_ffff, ImmType::Logical32));
    assert!(!compatible_imm(0x1234_5678, ImmType::Logical32));
    assert!(compatible_imm(0x7fff_ffff_ffff_ffff, ImmType::Logical64));
    assert!(!compatible_imm(-1, ImmType::Logical64));
    assert!(!compatible_imm(0x1234_5678_9abc_def0, ImmType::Logical64));
}

#[test]
fn classifier_depends_only_on_its_arguments() {
    let a = compatible_imm(100, ImmType::Bits12);
    let mut m = MachineARM64::new();
    m.reserve_gpr(GPR::X8);
    m.set_srcloc(7);
    assert_eq!(compatible_imm(100, ImmType::Bits12), a);
}

#[test]
fn scaled_offsets_by_size() {
    assert!(offset_is_ok(Size::S8, 4095));
    assert!(!offset_is_ok(Size::S8, 4096));
    assert!(offset_is_ok(Size::S64, 8));
    assert!(!offset_is_ok(Size::S64, 12));
    assert!(!offset_is_ok(Size::S32, -4));
}

#[test]
fn temporaries_come_in_order_and_run_out() {
    let mut m = MachineARM64::new();
    let order = [GPR::X8, GPR::X7, GPR::X6, GPR::X5, GPR::X4, GPR::X3, GPR::X2, GPR::X1];
    for r in order.iter() {
        assert_eq!(m.acquire_temp_gpr(), Some(*r));
    }
    assert_eq!(m.acquire_temp_gpr(), None);
    m.release_gpr(GPR::X5);
    assert_eq!(m.pick_temp_gpr(), Some(GPR::X5));
    assert_eq!(m.pick_gpr(), Some(GPR::X9));
    m.reserve_gpr(GPR::X9);
    assert_eq!(m.pick_gpr(), Some(GPR::X10));
}

#[test]
fn simd_pools() {
    let mut m = MachineARM64::new();
    assert_eq!(m.pick_simd(), Some(NEON::V8));
    assert_eq!(m.acquire_temp_simd(), Some(NEON::V0));
    assert_eq!(m.acquire_temp_simd(), Some(NEON::V1));
    m.release_simd(NEON::V0);
    assert_eq!(m.get_used_simd(), vec![NEON::V1]);
}

#[test]
fn used_registers_are_listed_in_register_order() {
    let mut m = MachineARM64::new();
    m.reserve_gpr(GPR::X21);
    m.reserve_gpr(GPR::X19);
    m.reserve_gpr(GPR::X20);
    assert_eq!(m.get_used_gprs(), vec![GPR::X19, GPR::X20, GPR::X21]);
}

#[test]
fn add_i32_of_two_locals() {
    let mut m = MachineARM64::new();
    m.set_srcloc(3);
    let begin = m.get_offset();
    m.emit_binop_add32(gpr(GPR::X19), gpr(GPR::X20), gpr(GPR::X0));
    m.mark_instruction_address_end(begin);
    assert_eq!(
        m.instructions(),
        vec![Inst::Op3(Op3::Add, Size::S32, gpr(GPR::X19), gpr(GPR::X20), gpr(GPR::X0))]
    );
    assert!(m.collect_trap_information().is_empty());
    let map = m.instructions_address_map();
    assert_eq!(map.len(), 1);
    assert_eq!(map[0].srcloc, 3);
    assert_eq!(map[0].code_offset, 0);
    assert_eq!(map[0].code_len, 4);
    assert!(m.get_used_gprs().is_empty());
}

#[test]
fn add_with_immediate_and_memory_operands() {
    let mut m = MachineARM64::new();
    m.emit_binop_add32(gpr(GPR::X9), Location::Imm32(5), Location::Memory(GPR::X29, -16));
    assert_eq!(
        m.instructions(),
        vec![
            Inst::Op3(Op3::Add, Size::S32, gpr(GPR::X9), Location::Imm32(5), gpr(GPR::X8)),
            Inst::Stur(Size::S32, gpr(GPR::X8), GPR::X29, -16),
        ]
    );
    assert!(m.get_used_gprs().is_empty());
}

#[test]
fn large_immediate_is_materialised() {
    let mut m = MachineARM64::new();
    m.emit_binop_sub64(gpr(GPR::X9), Location::Imm64(0x1_0000_2000), gpr(GPR::X10));
    assert_eq!(
        m.instructions(),
        vec![
            Inst::Movz(GPR::X8, 0x2000, 0),
            Inst::Movk(GPR::X8, 1, 32),
            Inst::Op3(Op3::Sub, Size::S64, gpr(GPR::X9), gpr(GPR::X8), gpr(GPR::X10)),
        ]
    );
}

#[test]
fn legalised_immediate_stays_in_its_temporary() {
    let mut m = MachineARM64::new();
    let mut temps = vec![];
    let r = m.location_to_reg(Size::S64, Location::Imm64(0x1234_5678), &mut temps, ImmType::NoImm, true, None);
    assert_eq!(r, gpr(GPR::X8));
    assert_eq!(temps, vec![GPR::X8]);
    let n = m.instructions().len();
    let again = m.location_to_reg(Size::S64, r, &mut temps, ImmType::NoImm, true, None);
    assert_eq!(again, r);
    assert_eq!(m.instructions().len(), n);
    assert_eq!(temps, vec![GPR::X8]);
    m.release_gpr(GPR::X8);
}

#[test]
fn zero_goes_to_the_zero_register() {
    let mut m = MachineARM64::new();
    let mut temps = vec![];
    let r = m.location_to_reg(Size::S64, Location::Imm32(0), &mut temps, ImmType::NoneXzr, true, None);
    assert_eq!(r, sp());
    assert!(temps.is_empty());
    assert!(m.instructions().is_empty());
}

#[test]
fn memory_operand_load_forms() {
    let mut m = MachineARM64::new();
    let mut temps = vec![];
    let a = m.location_to_reg(Size::S64, Location::Memory(GPR::X29, 16), &mut temps, ImmType::NoImm, true, None);
    let b = m.location_to_reg(Size::S64, Location::Memory(GPR::X29, -8), &mut temps, ImmType::NoImm, true, None);
    let c = m.location_to_reg(Size::S64, Location::Memory(GPR::X29, 40000), &mut temps, ImmType::NoImm, true, None);
    assert_eq!((a, b, c), (gpr(GPR::X8), gpr(GPR::X7), gpr(GPR::X6)));
    assert_eq!(
        m.instructions(),
        vec![
            Inst::Load(LoadKind::Ldr, Size::S64, gpr(GPR::X8), Location::Memory(GPR::X29, 16)),
            Inst::Ldur(Size::S64, gpr(GPR::X7), GPR::X29, -8),
            Inst::Movz(GPR::X6, 40000, 0),
            Inst::Load(
                LoadKind::Ldr,
                Size::S64,
                gpr(GPR::X6),
                Location::Memory2(GPR::X29, GPR::X6, arm64_singlepass::regs::Multiplier::One, 0)
            ),
        ]
    );
}

#[test]
fn move_with_a_far_offset_goes_through_x17() {
    let mut m = MachineARM64::new();
    m.move_location(Size::S64, gpr(GPR::X9), Location::Memory(GPR::X29, -1000));
    assert_eq!(
        m.instructions(),
        vec![
            Inst::Movz(GPR::X17, 1000, 0),
            Inst::Op3(Op3::Sub, Size::S64, gpr(GPR::X29), gpr(GPR::X17), gpr(GPR::X17)),
            Inst::Store(StoreKind::Str, Size::S64, gpr(GPR::X9), Location::Memory(GPR::X17, 0)),
        ]
    );
}

#[test]
fn move_memory_to_memory_uses_a_temporary() {
    let mut m = MachineARM64::new();
    m.move_location(Size::S64, Location::Memory(GPR::X29, 8), Location::Memory(GPR::X29, 16));
    assert_eq!(
        m.instructions(),
        vec![
            Inst::Load(LoadKind::Ldr, Size::S64, gpr(GPR::X8), Location::Memory(GPR::X29, 8)),
            Inst::Store(StoreKind::Str, Size::S64, gpr(GPR::X8), Location::Memory(GPR::X29, 16)),
        ]
    );
    assert!(m.get_used_gprs().is_empty());
}

#[test]
fn i32_load_with_bounds_check() {
    let mut m = MachineARM64::new();
    let oob = m.get_label();
    let memarg = MemoryImmediate { offset: 0x10, align: 4 };
    m.i32_load(gpr(GPR::X9), &memarg, gpr(GPR::X11), true, false, 0x30, oob);
    let code = m.instructions();
    assert_eq!(
        code,
        vec![
            Inst::Load(LoadKind::Ldr, Size::S64, gpr(GPR::X7), Location::Memory(GPR::X28, 0x30)),
            Inst::Load(LoadKind::Ldr, Size::S64, gpr(GPR::X6), Location::Memory(GPR::X28, 0x38)),
            Inst::Op3(Op3::Add, Size::S64, gpr(GPR::X6), gpr(GPR::X7), gpr(GPR::X6)),
            Inst::Op3(Op3::Sub, Size::S64, gpr(GPR::X6), Location::Imm32(4), gpr(GPR::X6)),
            Inst::Op2(Op2::Mov, Size::S32, gpr(GPR::X9), gpr(GPR::X8)),
            Inst::Op3(Op3::Adds, Size::S32, Location::Imm32(0x10), gpr(GPR::X8), gpr(GPR::X8)),
            Inst::Bcond(Condition::Cs, oob),
            Inst::Op3(Op3::Add, Size::S64, gpr(GPR::X7), gpr(GPR::X8), gpr(GPR::X8)),
            Inst::Op2(Op2::Cmp, Size::S64, gpr(GPR::X6), gpr(GPR::X8)),
            Inst::Bcond(Condition::Hi, oob),
            Inst::Load(LoadKind::Ldr, Size::S32, gpr(GPR::X11), Location::Memory(GPR::X8, 0)),
        ]
    );
    let traps = m.collect_trap_information();
    let expected: Vec<TrapInformation> = (40..44)
        .map(|o| TrapInformation { code_offset: o, trap_code: TrapCode::HeapAccessOutOfBounds })
        .collect();
    assert_eq!(traps, expected);
    let map = m.instructions_address_map();
    assert_eq!(map.len(), 1);
    assert_eq!((map[0].code_offset, map[0].code_len), (40, 4));
    assert!(m.get_used_gprs().is_empty());
}

#[test]
fn imported_memory_without_check_and_alignment_test() {
    let mut m = MachineARM64::new();
    let oob = m.get_label();
    let memarg = MemoryImmediate { offset: 0, align: 8 };
    m.i64_save(Location::Imm64(0), &memarg, gpr(GPR::X9), false, true, 0x40, oob);
    let code = m.instructions();
    assert_eq!(code[0], Inst::Load(LoadKind::Ldr, Size::S64, gpr(GPR::X7), Location::Memory(GPR::X28, 0x40)));
    assert_eq!(code[1], Inst::Op2(Op2::Mov, Size::S64, gpr(GPR::X7), gpr(GPR::X8)));
    assert_eq!(code[2], Inst::Load(LoadKind::Ldr, Size::S64, gpr(GPR::X7), Location::Memory(GPR::X8, 0)));
    assert_eq!(
        *code.last().unwrap(),
        Inst::Store(StoreKind::Str, Size::S64, sp(), Location::Memory(GPR::X8, 0))
    );
    assert!(m.get_used_gprs().is_empty());
}

#[test]
fn alignment_check_when_asked() {
    let mut m = MachineARM64::new();
    let oob = m.get_label();
    let memarg = MemoryImmediate { offset: 0, align: 4 };
    m.memory_op(
        gpr(GPR::X9),
        &memarg,
        true,
        4,
        false,
        false,
        0x30,
        oob,
        arm64_singlepass::memory::HeapAccess::Direct(Size::S32, Location::SIMD(NEON::V1)),
    );
    let code = m.instructions();
    let n = code.len();
    assert_eq!(code[n - 3], Inst::Op2(Op2::Tst, Size::S64, Location::Imm32(3), gpr(GPR::X8)));
    assert_eq!(code[n - 2], Inst::Bcond(Condition::Ne, oob));
}

#[test]
fn signed_division_checks_zero_and_overflow() {
    let mut m = MachineARM64::new();
    let dbz = m.get_label();
    let ovf = m.get_label();
    let off = m.emit_binop_sdiv32(gpr(GPR::X9), gpr(GPR::X10), gpr(GPR::X11), dbz, ovf);
    let no_ovf = arm64_singlepass::regs::Label { id: 2 };
    assert_eq!(
        m.instructions(),
        vec![
            Inst::Cbz(Size::S32, gpr(GPR::X10), dbz),
            Inst::Movz(GPR::X8, 0, 0),
            Inst::Movk(GPR::X8, 0x8000, 16),
            Inst::Op2(Op2::Cmp, Size::S32, gpr(GPR::X8), gpr(GPR::X9)),
            Inst::Bcond(Condition::Ne, no_ovf),
            Inst::Movn(Size::S32, gpr(GPR::X8), 0),
            Inst::Op2(Op2::Cmp, Size::S32, gpr(GPR::X8), gpr(GPR::X10)),
            Inst::Bcond(Condition::Eq, ovf),
            Inst::Op3(Op3::Sdiv, Size::S32, gpr(GPR::X9), gpr(GPR::X10), gpr(GPR::X11)),
        ]
    );
    assert_eq!(off, 32);
    assert_eq!(m.label_offset(no_ovf), Some(32));
    assert_eq!(
        m.collect_trap_information(),
        vec![TrapInformation { code_offset: 32, trap_code: TrapCode::IntegerOverflow }]
    );
    assert!(m.get_used_gprs().is_empty());
}

#[test]
fn signed_division_64_uses_the_64_bit_minimum() {
    let mut m = MachineARM64::new();
    let dbz = m.get_label();
    let ovf = m.get_label();
    m.emit_binop_sdiv64(gpr(GPR::X9), gpr(GPR::X10), gpr(GPR::X11), dbz, ovf);
    let code = m.instructions();
    assert_eq!(code[1], Inst::Movz(GPR::X8, 0, 0));
    assert_eq!(code[2], Inst::Movk(GPR::X8, 0x8000, 48));
}

#[test]
fn unsigned_remainder_uses_msub() {
    let mut m = MachineARM64::new();
    let dbz = m.get_label();
    let ovf = m.get_label();
    let off = m.emit_binop_urem32(gpr(GPR::X9), gpr(GPR::X10), gpr(GPR::X11), dbz, ovf);
    assert_eq!(
        m.instructions(),
        vec![
            Inst::Cbz(Size::S32, gpr(GPR::X10), dbz),
            Inst::Op3(Op3::Udiv, Size::S32, gpr(GPR::X9), gpr(GPR::X10), gpr(GPR::X11)),
            Inst::Msub(Size::S32, gpr(GPR::X11), gpr(GPR::X10), gpr(GPR::X9), gpr(GPR::X11)),
        ]
    );
    assert_eq!(off, 4);
}

#[test]
fn remainder_into_an_operand_goes_through_a_temporary() {
    let mut m = MachineARM64::new();
    let dbz = m.get_label();
    let ovf = m.get_label();
    m.emit_binop_srem64(gpr(GPR::X9), gpr(GPR::X10), gpr(GPR::X9), dbz, ovf);
    let code = m.instructions();
    assert_eq!(code[0], Inst::Op2(Op2::Mov, Size::S64, gpr(GPR::X9), gpr(GPR::X8)));
    assert_eq!(code[2], Inst::Op3(Op3::Sdiv, Size::S64, gpr(GPR::X9), gpr(GPR::X10), gpr(GPR::X8)));
    assert_eq!(*code.last().unwrap(), Inst::Op2(Op2::Mov, Size::S64, gpr(GPR::X8), gpr(GPR::X9)));
    assert!(m.get_used_gprs().is_empty());
}

#[test]
fn popcnt_loop() {
    let mut m = MachineARM64::new();
    m.i32_popcnt(gpr(GPR::X9), gpr(GPR::X11));
    let lp = arm64_singlepass::regs::Label { id: 0 };
    let exit = arm64_singlepass::regs::Label { id: 1 };
    assert_eq!(
        m.instructions(),
        vec![
            Inst::Op2(Op2::Mov, Size::S32, gpr(GPR::X9), gpr(GPR::X8)),
            Inst::Op2(Op2::Mov, Size::S32, sp(), gpr(GPR::X11)),
            Inst::Cbz(Size::S32, gpr(GPR::X8), exit),
            Inst::Op3(Op3::Add, Size::S32, gpr(GPR::X11), Location::Imm8(1), gpr(GPR::X11)),
            Inst::Op2(Op2::Clz, Size::S32, gpr(GPR::X8), gpr(GPR::X7)),
            Inst::Op3(Op3::Add, Size::S32, gpr(GPR::X7), Location::Imm8(1), gpr(GPR::X7)),
            Inst::Op3(Op3::Lsl, Size::S32, gpr(GPR::X8), gpr(GPR::X7), gpr(GPR::X8)),
            Inst::Cbnz(Size::S32, gpr(GPR::X8), lp),
        ]
    );
    assert_eq!(m.label_offset(lp), Some(12));
    assert_eq!(m.label_offset(exit), Some(32));
    assert!(m.get_used_gprs().is_empty());
}

#[test]
fn rotate_left_by_register() {
    let mut m = MachineARM64::new();
    m.i32_rol(gpr(GPR::X9), gpr(GPR::X10), gpr(GPR::X11));
    assert_eq!(
        m.instructions(),
        vec![
            Inst::Movz(GPR::X8, 32, 0),
            Inst::Op3(Op3::Sub, Size::S32, gpr(GPR::X8), gpr(GPR::X10), gpr(GPR::X8)),
            Inst::Op3(Op3::Ror, Size::S32, gpr(GPR::X9), gpr(GPR::X8), gpr(GPR::X11)),
        ]
    );
    assert!(m.get_used_gprs().is_empty());
}

#[test]
fn rotate_left_by_immediate() {
    let mut m = MachineARM64::new();
    m.i64_rol(gpr(GPR::X9), Location::Imm32(70), gpr(GPR::X11));
    assert_eq!(
        m.instructions(),
        vec![Inst::Op3(Op3::Ror, Size::S64, gpr(GPR::X9), Location::Imm8(58), gpr(GPR::X11))]
    );
}

#[test]
fn count_trailing_zeros() {
    let mut m = MachineARM64::new();
    m.i64_ctz(gpr(GPR::X9), gpr(GPR::X10));
    assert_eq!(
        m.instructions(),
        vec![
            Inst::Op2(Op2::Rbit, Size::S64, gpr(GPR::X9), gpr(GPR::X10)),
            Inst::Op2(Op2::Clz, Size::S64, gpr(GPR::X10), gpr(GPR::X10)),
        ]
    );
}

#[test]
fn comparison_into_memory() {
    let mut m = MachineARM64::new();
    m.i32_cmp_lt_s(gpr(GPR::X9), Location::Imm32(7), Location::Memory(GPR::X29, -8));
    assert_eq!(
        m.instructions(),
        vec![
            Inst::Op2(Op2::Cmp, Size::S32, Location::Imm32(7), gpr(GPR::X9)),
            Inst::Cset(Size::S32, gpr(GPR::X8), Condition::Lt),
            Inst::Stur(Size::S32, gpr(GPR::X8), GPR::X29, -8),
        ]
    );
}

#[test]
fn push_used_callee_saved_registers() {
    let mut m = MachineARM64::new();
    m.reserve_gpr(GPR::X19);
    m.reserve_gpr(GPR::X20);
    m.reserve_gpr(GPR::X21);
    let adjust = m.push_used_gpr();
    assert_eq!(adjust, 32);
    let down = Inst::Op3(Op3::Sub, Size::S64, sp(), Location::Imm8(16), sp());
    assert_eq!(
        m.instructions(),
        vec![
            down,
            Inst::Stur(Size::S64, gpr(GPR::X19), GPR::XzrSp, 8),
            Inst::Stur(Size::S64, gpr(GPR::X20), GPR::XzrSp, 0),
            down,
            Inst::Stur(Size::S64, gpr(GPR::X21), GPR::XzrSp, 8),
            Inst::Stur(Size::S64, sp(), GPR::XzrSp, 0),
        ]
    );
    assert!(!m.pushed());
    m.pop_used_gpr();
    assert!(!m.pushed());
    let code = m.instructions();
    assert_eq!(code[6], Inst::Ldur(Size::S64, sp(), GPR::XzrSp, 0));
    assert_eq!(code[7], Inst::Ldur(Size::S64, gpr(GPR::X21), GPR::XzrSp, 8));
    assert_eq!(code[8], Inst::Op3(Op3::Add, Size::S64, sp(), Location::Imm8(16), sp()));
    assert_eq!(*code.last().unwrap(), Inst::Op3(Op3::Add, Size::S64, sp(), Location::Imm8(16), sp()));
}

#[test]
fn push_then_pop_restores_parity() {
    let mut m = MachineARM64::new();
    m.emit_push(Size::S64, gpr(GPR::X9));
    assert!(m.pushed());
    m.emit_pop(Size::S64, gpr(GPR::X9));
    assert!(!m.pushed());
    assert_eq!(
        m.instructions(),
        vec![
            Inst::Op3(Op3::Sub, Size::S64, sp(), Location::Imm8(16), sp()),
            Inst::Stur(Size::S64, gpr(GPR::X9), GPR::XzrSp, 8),
            Inst::Ldur(Size::S64, gpr(GPR::X9), GPR::XzrSp, 8),
            Inst::Op3(Op3::Add, Size::S64, sp(), Location::Imm8(16), sp()),
        ]
    );
}

#[test]
fn push_of_an_immediate_goes_through_a_temporary() {
    let mut m = MachineARM64::new();
    m.emit_push(Size::S64, Location::Imm32(9));
    assert_eq!(m.instructions()[0], Inst::Movz(GPR::X8, 9, 0));
    assert!(m.get_used_gprs().is_empty());
}

#[test]
fn prolog_then_epilog() {
    let mut m = MachineARM64::new();
    m.emit_function_prolog();
    m.emit_function_epilog();
    assert!(!m.pushed());
    assert_eq!(
        m.instructions(),
        vec![
            Inst::Stpdb(Size::S64, gpr(GPR::X29), gpr(GPR::X30), GPR::XzrSp, 16),
            Inst::Stpdb(Size::S64, gpr(GPR::X27), gpr(GPR::X28), GPR::XzrSp, 16),
            Inst::Op3(Op3::Add, Size::S64, sp(), Location::Imm8(0), gpr(GPR::X29)),
            Inst::Op3(Op3::Add, Size::S64, gpr(GPR::X29), Location::Imm8(0), sp()),
            Inst::Ldpia(Size::S64, gpr(GPR::X27), gpr(GPR::X28), GPR::XzrSp, 16),
            Inst::Ldpia(Size::S64, gpr(GPR::X29), gpr(GPR::X30), GPR::XzrSp, 16),
        ]
    );
}

#[test]
fn double_push_when_half_full_falls_back() {
    let mut m = MachineARM64::new();
    m.emit_push(Size::S64, gpr(GPR::X9));
    m.emit_double_push(Size::S64, gpr(GPR::X10), gpr(GPR::X11));
    let code = m.instructions();
    assert_eq!(code[2], Inst::Stur(Size::S64, gpr(GPR::X10), GPR::XzrSp, 0));
    assert_eq!(code[4], Inst::Stur(Size::S64, gpr(GPR::X11), GPR::XzrSp, 8));
    assert!(m.pushed());
}

#[test]
fn restore_saved_area_sets_parity() {
    let mut m = MachineARM64::new();
    m.restore_saved_area(24);
    assert!(m.pushed());
    assert_eq!(
        m.instructions(),
        vec![Inst::Op3(Op3::Sub, Size::S64, gpr(GPR::X29), Location::Imm32(32), sp())]
    );
    m.restore_saved_area(32);
    assert!(!m.pushed());
}

#[test]
fn stack_adjustments() {
    let mut m = MachineARM64::new();
    m.adjust_stack(32);
    m.restore_stack(5000);
    m.pop_stack_locals(40);
    assert_eq!(
        m.instructions(),
        vec![
            Inst::Op3(Op3::Sub, Size::S64, sp(), Location::Imm32(32), sp()),
            Inst::Movz(GPR::X17, 5000, 0),
            Inst::Op3(Op3::Add, Size::S64, sp(), gpr(GPR::X17), sp()),
            Inst::Op3(Op3::Add, Size::S64, sp(), Location::Imm32(48), sp()),
        ]
    );
}

#[test]
fn simd_save_area() {
    let mut m = MachineARM64::new();
    m.reserve_simd(NEON::V8);
    assert_eq!(m.push_used_simd(), 16);
    m.pop_used_simd();
    assert_eq!(
        m.instructions(),
        vec![
            Inst::Op3(Op3::Sub, Size::S64, sp(), Location::Imm32(16), sp()),
            Inst::Store(StoreKind::Str, Size::S64, Location::SIMD(NEON::V8), Location::Memory(GPR::XzrSp, 0)),
            Inst::Load(LoadKind::Ldr, Size::S64, Location::SIMD(NEON::V8), Location::Memory(GPR::XzrSp, 0)),
            Inst::Op3(Op3::Add, Size::S64, sp(), Location::Imm32(16), sp()),
        ]
    );
}

#[test]
fn relocated_address_takes_four_movk() {
    let mut m = MachineARM64::new();
    m.emit_ret();
    let mut relocs: Vec<Relocation<u32>> = vec![];
    m.move_with_reloc(7u32, &mut relocs);
    assert_eq!(relocs.len(), 4);
    let kinds = [RelocationKind::Arm64Movw0, RelocationKind::Arm64Movw1, RelocationKind::Arm64Movw2, RelocationKind::Arm64Movw3];
    for k in 0..4 {
        assert_eq!(relocs[k].kind, kinds[k]);
        assert_eq!(relocs[k].offset, 4 + 4 * k as u32);
        assert_eq!(relocs[k].reloc_target, 7);
        assert_eq!(relocs[k].addend, 0);
    }
    assert_eq!(m.instructions()[4], Inst::Movk(GPR::X27, 0, 48));
}

#[test]
fn stack_locals_are_cleared_by_a_loop() {
    let mut m = MachineARM64::new();
    m.init_stack_loc(3, Location::Memory(GPR::X29, -64));
    let lbl = arm64_singlepass::regs::Label { id: 0 };
    assert_eq!(
        m.instructions(),
        vec![
            Inst::Movz(GPR::X7, 3, 0),
            Inst::Op3(Op3::Sub, Size::S64, gpr(GPR::X29), Location::Imm32(64), gpr(GPR::X8)),
            Inst::Stria(Size::S64, sp(), gpr(GPR::X8), 8),
            Inst::Op3(Op3::Sub, Size::S64, gpr(GPR::X7), Location::Imm8(1), gpr(GPR::X7)),
            Inst::Cbnz(Size::S64, gpr(GPR::X7), lbl),
        ]
    );
    assert_eq!(m.label_offset(lbl), Some(8));
    assert!(m.get_used_gprs().is_empty());
}

#[test]
fn jump_table_dispatch() {
    let mut m = MachineARM64::new();
    let table = m.get_label();
    m.emit_jmp_to_jumptable(table, gpr(GPR::X9));
    assert_eq!(
        m.instructions(),
        vec![
            Inst::LoadLabel(GPR::X8, table),
            Inst::Op2(Op2::Mov, Size::S32, gpr(GPR::X9), gpr(GPR::X7)),
            Inst::AddLsl(Size::S64, gpr(GPR::X8), gpr(GPR::X7), 2, gpr(GPR::X7)),
            Inst::BReg(GPR::X7),
        ]
    );
}

#[test]
fn locals_and_params() {
    let m = MachineARM64::new();
    assert_eq!(m.get_local_location(0, 0), gpr(GPR::X19));
    assert_eq!(m.get_local_location(7, 0), gpr(GPR::X26));
    assert_eq!(m.get_local_location(8, 16), Location::Memory(GPR::X29, -56));
    let cc = arm64_singlepass::calls::CallingConvention::SystemV;
    assert_eq!(m.get_param_location(3, cc), gpr(GPR::X3));
    assert_eq!(m.get_param_location(9, cc), Location::Memory(GPR::X29, 40));
    assert!(m.is_local_on_stack(8));
    assert!(!m.is_local_on_stack(7));
    assert_eq!(m.round_stack_adjust(17), 32);
    assert_eq!(m.round_stack_adjust(32), 32);
}

#[test]
fn call_through_memory_loads_x27() {
    let mut m = MachineARM64::new();
    m.emit_call_location(Location::Memory(GPR::X28, 0x100));
    assert_eq!(
        m.instructions(),
        vec![
            Inst::Load(LoadKind::Ldr, Size::S64, gpr(GPR::X27), Location::Memory(GPR::X28, 0x100)),
            Inst::CallReg(GPR::X27),
        ]
    );
}

#[test]
fn trap_table_is_sorted_and_stack_overflow_at_zero() {
    let mut m = MachineARM64::new();
    m.emit_ret();
    m.mark_address_with_trap_code(TrapCode::IntegerOverflow);
    m.insert_stackoverflow();
    assert_eq!(
        m.collect_trap_information(),
        vec![
            TrapInformation { code_offset: 0, trap_code: TrapCode::StackOverflow },
            TrapInformation { code_offset: 4, trap_code: TrapCode::IntegerOverflow },
        ]
    );
}

#[test]
fn address_map_in_emission_order() {
    let mut m = MachineARM64::new();
    let oob = m.get_label();
    let memarg = MemoryImmediate { offset: 0, align: 1 };
    m.set_srcloc(1);
    m.i32_load_8u(gpr(GPR::X9), &memarg, gpr(GPR::X10), true, false, 0x30, oob);
    m.set_srcloc(2);
    m.mark_address_with_trap_code(TrapCode::IntegerOverflow);
    m.set_srcloc(5);
    m.i64_load_32s(gpr(GPR::X9), &memarg, gpr(GPR::X10), false, false, 0x30, oob);
    let map = m.instructions_address_map();
    assert_eq!(map.len(), 3);
    for w in map.windows(2) {
        assert!(w[0].code_offset <= w[1].code_offset);
        assert!(w[0].srcloc <= w[1].srcloc);
    }
}

#[test]
fn float_operations() {
    let mut m = MachineARM64::new();
    m.f64_add(Location::SIMD(NEON::V8), Location::SIMD(NEON::V9), Location::SIMD(NEON::V10));
    m.f32_cmp_ge(Location::SIMD(NEON::V8), Location::SIMD(NEON::V9), gpr(GPR::X9));
    m.convert_f64_i32(gpr(GPR::X9), true, Location::SIMD(NEON::V8));
    m.f64_abs(Location::SIMD(NEON::V8), Location::SIMD(NEON::V9));
    assert_eq!(
        m.instructions(),
        vec![
            Inst::Op3(Op3::Fadd, Size::S64, Location::SIMD(NEON::V8), Location::SIMD(NEON::V9), Location::SIMD(NEON::V10)),
            Inst::Op2(Op2::Fcmp, Size::S32, Location::SIMD(NEON::V9), Location::SIMD(NEON::V8)),
            Inst::Cset(Size::S32, gpr(GPR::X9), Condition::Ls),
            Inst::IntToFloat(true, Size::S32, gpr(GPR::X9), Size::S64, Location::SIMD(NEON::V8)),
            Inst::Op2(Op2::Mov, Size::S64, Location::SIMD(NEON::V8), gpr(GPR::X8)),
            Inst::Op3(Op3::And, Size::S64, gpr(GPR::X8), Location::Imm64(0x7fff_ffff_ffff_ffff), gpr(GPR::X8)),
            Inst::Op2(Op2::Mov, Size::S64, gpr(GPR::X8), Location::SIMD(NEON::V9)),
        ]
    );
    assert!(m.get_used_gprs().is_empty());
    assert!(m.get_used_simd().is_empty());
}

#[test]
fn float_operand_in_memory_uses_a_neon_temporary() {
    let mut m = MachineARM64::new();
    m.f32_neg(Location::Memory(GPR::X29, -4), Location::Memory(GPR::X29, -8));
    assert_eq!(
        m.instructions(),
        vec![
            Inst::Ldur(Size::S32, Location::SIMD(NEON::V0), GPR::X29, -4),
            Inst::Op2(Op2::Fneg, Size::S32, Location::SIMD(NEON::V0), Location::SIMD(NEON::V1)),
            Inst::Stur(Size::S32, Location::SIMD(NEON::V1), GPR::X29, -8),
        ]
    );
    assert!(m.get_used_simd().is_empty());
}

#[test]
fn location_add_and_sub() {
    let mut m = MachineARM64::new();
    m.location_add(Size::S64, Location::Imm32(8), gpr(GPR::X9), false);
    m.location_sub(Size::S32, gpr(GPR::X10), Location::Memory(GPR::X29, -8), true);
    assert_eq!(
        m.instructions(),
        vec![
            Inst::Op3(Op3::Add, Size::S64, gpr(GPR::X9), Location::Imm32(8), gpr(GPR::X9)),
            Inst::Ldur(Size::S32, gpr(GPR::X8), GPR::X29, -8),
            Inst::Op3(Op3::Subs, Size::S32, gpr(GPR::X8), gpr(GPR::X10), gpr(GPR::X8)),
            Inst::Stur(Size::S32, gpr(GPR::X8), GPR::X29, -8),
        ]
    );
    assert!(m.get_used_gprs().is_empty());
}

#[test]
fn sign_extension_from_memory_and_register() {
    let mut m = MachineARM64::new();
    m.emit_relaxed_sign_extension(Size::S8, Location::Memory(GPR::X9, 3), Size::S64, gpr(GPR::X10));
    m.emit_relaxed_sign_extension(Size::S16, gpr(GPR::X9), Size::S32, gpr(GPR::X10));
    assert_eq!(
        m.instructions(),
        vec![
            Inst::Load(LoadKind::Ldrsb, Size::S64, gpr(GPR::X10), Location::Memory(GPR::X9, 3)),
            Inst::Op2(Op2::Sxth, Size::S32, gpr(GPR::X9), gpr(GPR::X10)),
        ]
    );
}

#[test]
fn native_argument_push_of_a_constant() {
    let mut m = MachineARM64::new();
    m.push_location_for_native(Location::Imm64(0x2_0000_0000));
    assert_eq!(
        m.instructions(),
        vec![
            Inst::Movz(GPR::X17, 0, 0),
            Inst::Movk(GPR::X17, 2, 32),
            Inst::Op3(Op3::Sub, Size::S64, sp(), Location::Imm8(16), sp()),
            Inst::Stur(Size::S64, gpr(GPR::X17), GPR::XzrSp, 8),
        ]
    );
    m.pop_location(gpr(GPR::X9));
    assert!(!m.pushed());
}

#[test]
fn register_indices() {
    let m = MachineARM64::new();
    assert_eq!(m.index_from_gpr(GPR::X28), 28);
    assert_eq!(m.index_from_gpr(GPR::XzrSp), 31);
    assert_eq!(m.index_from_simd(NEON::V3), 35);
    assert_eq!(m.get_vmctx_reg(), GPR::X28);
    assert_eq!(m.get_gpr_for_ret(), GPR::X0);
}

#[test]
fn relaxed_loads_and_stores_pick_their_form() {
    let mut m = MachineARM64::new();
    m.emit_relaxed_ldr16(Size::S32, gpr(GPR::X9), Location::Memory(GPR::X10, 3));
    m.emit_relaxed_str64(Location::Imm32(0), Location::Memory(GPR::X10, -8));
    m.emit_relaxed_str8(gpr(GPR::X9), Location::Memory(GPR::X10, 5000));
    assert_eq!(
        m.instructions(),
        vec![
            Inst::Movz(GPR::X8, 3, 0),
            Inst::Load(
                LoadKind::Ldrh,
                Size::S32,
                gpr(GPR::X9),
                Location::Memory2(GPR::X10, GPR::X8, arm64_singlepass::regs::Multiplier::One, 0)
            ),
            Inst::Stur(Size::S64, sp(), GPR::X10, -8),
            Inst::Movz(GPR::X8, 5000, 0),
            Inst::Store(
                StoreKind::Strb,
                Size::S32,
                gpr(GPR::X9),
                Location::Memory2(GPR::X10, GPR::X8, arm64_singlepass::regs::Multiplier::One, 0)
            ),
        ]
    );
    assert!(m.get_used_gprs().is_empty());
}

#[test]
fn return_value_goes_to_x0() {
    let mut m = MachineARM64::new();
    m.emit_function_return_value(arm64_singlepass::calls::WpType::I64, false, Location::Memory(GPR::X29, -16));
    m.emit_function_return_float();
    assert_eq!(
        m.instructions(),
        vec![
            Inst::Ldur(Size::S64, gpr(GPR::X8), GPR::X29, -16),
            Inst::Op2(Op2::Mov, Size::S64, gpr(GPR::X8), gpr(GPR::X0)),
            Inst::Op2(Op2::Mov, Size::S64, gpr(GPR::X0), Location::SIMD(NEON::V0)),
        ]
    );
}
