//! Calls, relocations, jump tables, locals and parameters.

use crate::imm::{compatible_imm, fits, ImmType};
use crate::inst::{mov_imm_seq, Inst, Op3};
use crate::legalise::{move_code, move_ok, to_gpr, to_gpr_ok};
use crate::machine::{first_free_temp_gpr, free_temp_gprs, MachineARM64, MachineView};
use crate::regs::{GPR, Label, Location, Size};
use vstd::prelude::*;

verus! {

broadcast use {crate::regs::lemma_gpr_idx_range, crate::regs::lemma_simd_idx_range};

/// Which 16-bit part of a 64-bit address a relocation patches.
#[derive(Clone, Copy, Debug, PartialEq, Eq, Structural)]
pub enum RelocationKind {
    Arm64Movw0,
    Arm64Movw1,
    Arm64Movw2,
    Arm64Movw3,
}

/// A patch the linker applies at `offset`.
#[derive(Debug, PartialEq, Eq)]
pub struct Relocation<T> {
    pub kind: RelocationKind,
    pub reloc_target: T,
    pub offset: u32,
    pub addend: i64,
}

/// The calling conventions a trampoline may follow; the integer-register path
/// is the same for each on this target.
#[derive(Clone, Copy, Debug, PartialEq, Eq, Structural)]
pub enum CallingConvention {
    SystemV,
    WindowsFastcall,
    AppleAarch64,
}

/// Wasm value types.
#[derive(Clone, Copy, Debug, PartialEq, Eq, Structural)]
pub enum WpType {
    I32,
    I64,
    F32,
    F64,
    V128,
    FuncRef,
    ExternRef,
}

/// The four `movk` into `X27` that receive a relocated address.
pub open spec fn reloc_code() -> Seq<Inst> {
    seq![
        Inst::Movk(GPR::X27, 0, 0),
        Inst::Movk(GPR::X27, 0, 16),
        Inst::Movk(GPR::X27, 0, 32),
        Inst::Movk(GPR::X27, 0, 48),
    ]
}

/// The address of the first stack slot to clear, computed into `dest`.
pub open spec fn stack_loc_addr_code(used: Seq<bool>, reg: GPR, offset: i32, dest: GPR) -> Seq<Inst> {
    let op = if offset < 0 {
        Op3::Sub
    } else {
        Op3::Add
    };
    let off: u32 = if offset < 0 {
        (-offset) as u32
    } else {
        offset as u32
    };
    if fits(off as i64, ImmType::Bits12) {
        seq![Inst::Op3(op, Size::S64, Location::GPR(reg), Location::Imm32(off), Location::GPR(dest))]
    } else {
        let t = first_free_temp_gpr(used)->Some_0;
        mov_imm_seq(t, off as u64) + seq![Inst::Op3(op, Size::S64, Location::GPR(reg), Location::GPR(t), Location::GPR(dest))]
    }
}

pub open spec fn stack_loc_needs_temp(offset: i32) -> bool {
    let off: u32 = if offset < 0 {
        (-offset) as u32
    } else {
        offset as u32
    };
    !fits(off as i64, ImmType::Bits12)
}

/// The code of `init_stack_loc`: the count and the start address, then
/// (from the label on) a loop storing zero with post-increment and counting
/// down.
pub open spec fn init_stack_loc_parts(used: Seq<bool>, cnt: u64, reg: GPR, offset: i32, lbl: Label) -> (Seq<Inst>, Seq<Inst>) {
    let t1 = first_free_temp_gpr(used)->Some_0;
    let u1 = used.update(t1.idx(), true);
    let l = to_gpr(u1, Size::S64, Location::Imm64(cnt), ImmType::NoImm, true, None);
    (
        l.code + stack_loc_addr_code(l.used, reg, offset, t1),
        seq![
            Inst::Stria(Size::S64, Location::GPR(GPR::XzrSp), Location::GPR(t1), 8),
            Inst::Op3(Op3::Sub, Size::S64, l.loc, Location::Imm8(1), l.loc),
            Inst::Cbnz(Size::S64, l.loc, lbl),
        ],
    )
}

pub open spec fn init_stack_loc_ok(used: Seq<bool>, cnt: u64, offset: i32) -> bool {
    let t1 = first_free_temp_gpr(used)->Some_0;
    let u1 = used.update(t1.idx(), true);
    let l = to_gpr(u1, Size::S64, Location::Imm64(cnt), ImmType::NoImm, true, None);
    &&& cnt >= 1
    &&& free_temp_gprs(used) >= 1
    &&& to_gpr_ok(u1, Size::S64, Location::Imm64(cnt), ImmType::NoImm, true, None)
    &&& stack_loc_needs_temp(offset) ==> free_temp_gprs(l.used) >= 1
    &&& offset != i32::MIN
}

/// Location of local `idx`: the callee-saved registers `X19..X26` for the
/// first eight, the frame below the saved registers for the rest.
pub open spec fn local_location(idx: usize, callee_saved_regs_size: usize) -> Location {
    if idx == 0 {
        Location::GPR(GPR::X19)
    } else if idx == 1 {
        Location::GPR(GPR::X20)
    } else if idx == 2 {
        Location::GPR(GPR::X21)
    } else if idx == 3 {
        Location::GPR(GPR::X22)
    } else if idx == 4 {
        Location::GPR(GPR::X23)
    } else if idx == 5 {
        Location::GPR(GPR::X24)
    } else if idx == 6 {
        Location::GPR(GPR::X25)
    } else if idx == 7 {
        Location::GPR(GPR::X26)
    } else {
        Location::Memory(GPR::X29, -((idx - 3) * 8 + callee_saved_regs_size) as i32)
    }
}

/// Location of parameter `idx`: `X0..X7`, then the caller's frame above the
/// saved frame pointer and link register.
pub open spec fn param_location(idx: usize) -> Location {
    if idx < 8 {
        Location::GPR(choose|r: GPR| r.idx() == idx)
    } else {
        Location::Memory(GPR::X29, (16 * 2 + (idx - 8) * 8) as i32)
    }
}

impl MachineARM64 {
    /// Emits the four `movk` that load a relocated 64-bit address into `X27`,
    /// recording one relocation for each at its offset.
    pub fn move_with_reloc<T: Copy>(&mut self, reloc_target: T, relocations: &mut Vec<Relocation<T>>)
        requires
            old(self).wf(),
            old(self)@.room(4),
        ensures
            final(self).wf(),
            final(self)@ == old(self)@.with_code(reloc_code()),
            final(relocations)@.len() == old(relocations)@.len() + 4,
            forall|i: int| 0 <= i < old(relocations)@.len() ==> final(relocations)@[i] == old(relocations)@[i],
            forall|k: int|
                0 <= k < 4 ==> {
                    let r = #[trigger] final(relocations)@[old(relocations)@.len() + k];
                    &&& r.offset == 4 * (old(self)@.code.len() + k)
                    &&& r.reloc_target == reloc_target
                    &&& r.addend == 0
                    &&& r.kind == if k == 0 {
                        RelocationKind::Arm64Movw0
                    } else if k == 1 {
                        RelocationKind::Arm64Movw1
                    } else if k == 2 {
                        RelocationKind::Arm64Movw2
                    } else {
                        RelocationKind::Arm64Movw3
                    }
                },
    {
        let reloc_at = self.get_offset();
        relocations.push(Relocation { kind: RelocationKind::Arm64Movw0, reloc_target, offset: reloc_at as u32, addend: 0 });
        self.emit(Inst::Movk(GPR::X27, 0, 0));
        let reloc_at = self.get_offset();
        relocations.push(Relocation { kind: RelocationKind::Arm64Movw1, reloc_target, offset: reloc_at as u32, addend: 0 });
        self.emit(Inst::Movk(GPR::X27, 0, 16));
        let reloc_at = self.get_offset();
        relocations.push(Relocation { kind: RelocationKind::Arm64Movw2, reloc_target, offset: reloc_at as u32, addend: 0 });
        self.emit(Inst::Movk(GPR::X27, 0, 32));
        let reloc_at = self.get_offset();
        relocations.push(Relocation { kind: RelocationKind::Arm64Movw3, reloc_target, offset: reloc_at as u32, addend: 0 });
        self.emit(Inst::Movk(GPR::X27, 0, 48));
        assert(self@ =~= old(self)@.with_code(reloc_code()));
    }

    /// Clears `init_stack_loc_cnt` 8-byte stack slots upwards from the slot
    /// `last_stack_loc`, with a counted loop; the loop body runs before the
    /// count is tested, so the count is at least one.
    pub fn init_stack_loc(&mut self, init_stack_loc_cnt: u64, last_stack_loc: Location)
        requires
            old(self).wf(),
            old(self)@.room(16),
            last_stack_loc is Memory,
            init_stack_loc_ok(old(self)@.used_gprs, init_stack_loc_cnt, last_stack_loc->Memory_1),
        ensures
            final(self).wf(),
            ({
                let lbl = Label { id: old(self)@.labels.len() as usize };
                let (head, body) = init_stack_loc_parts(
                    old(self)@.used_gprs,
                    init_stack_loc_cnt,
                    last_stack_loc->Memory_0,
                    last_stack_loc->Memory_1,
                    lbl,
                );
                final(self)@ == (MachineView {
                    labels: old(self)@.labels.push(Some((4 * (old(self)@.code.len() + head.len())) as usize)),
                    ..old(self)@.with_code(head + body)
                })
            }),
    {
        let ghost base = self@.used_gprs;
        let label = self.get_label();
        let mut temps: Vec<GPR> = Vec::new();
        let dest = self.acquire_temp(&mut temps, Ghost(base));
        let cnt = self.to_reg(Size::S64, Location::Imm64(init_stack_loc_cnt), &mut temps, ImmType::NoImm, true, Ghost(base));
        let ghost mid = self@;
        if let Location::Memory(reg, offset) = last_stack_loc {
            let op = if offset < 0 {
                Op3::Sub
            } else {
                Op3::Add
            };
            let off: u32 = if offset < 0 {
                (-offset) as u32
            } else {
                offset as u32
            };
            if compatible_imm(off as i64, ImmType::Bits12) {
                self.emit(Inst::Op3(op, Size::S64, Location::GPR(reg), Location::Imm32(off), Location::GPR(dest)));
            } else {
                let tmp = self.acquire_temp(&mut temps, Ghost(base));
                proof { crate::inst::lemma_mov_imm_len(tmp, off as u64); }
                self.emit_mov_imm(tmp, off as u64);
                self.emit(Inst::Op3(op, Size::S64, Location::GPR(reg), Location::GPR(tmp), Location::GPR(dest)));
            }
            assert(self@.code =~= mid.code + stack_loc_addr_code(mid.used_gprs, reg, offset, dest));
        }
        let ghost c_head = self@.code;
        self.emit_label(label);
        self.emit(Inst::Stria(Size::S64, Location::GPR(GPR::XzrSp), Location::GPR(dest), 8));
        self.emit(Inst::Op3(Op3::Sub, Size::S64, cnt, Location::Imm8(1), cnt));
        self.emit(Inst::Cbnz(Size::S64, cnt, label));
        self.release_temps(temps, Ghost(base));
        proof {
            let lbl = Label { id: old(self)@.labels.len() as usize };
            let (head, body) = init_stack_loc_parts(base, init_stack_loc_cnt, last_stack_loc->Memory_0, last_stack_loc->Memory_1, lbl);
            assert(c_head =~= old(self)@.code + head);
            assert(self@.code =~= old(self)@.code + (head + body));
            assert(self@ =~= (MachineView {
                labels: old(self)@.labels.push(Some((4 * (old(self)@.code.len() + head.len())) as usize)),
                ..old(self)@.with_code(head + body)
            }));
        }
    }

    /// Branches to entry `cond` of the table at `label`, whose entries are
    /// four bytes apart.
    pub fn emit_jmp_to_jumptable(&mut self, label: Label, cond: Location)
        requires
            old(self).wf(),
            old(self)@.room(16),
            free_temp_gprs(old(self)@.used_gprs) >= 2,
            move_ok(
                old(self)@.used_gprs.update(first_free_temp_gpr(old(self)@.used_gprs)->Some_0.idx(), true).update(
                    first_free_temp_gpr(old(self)@.used_gprs.update(first_free_temp_gpr(old(self)@.used_gprs)->Some_0.idx(), true))->Some_0.idx(),
                    true,
                ),
                Size::S32,
                cond,
                Location::GPR(first_free_temp_gpr(old(self)@.used_gprs.update(first_free_temp_gpr(old(self)@.used_gprs)->Some_0.idx(), true))->Some_0),
            ),
        ensures
            final(self).wf(),
            ({
                let u0 = old(self)@.used_gprs;
                let t1 = first_free_temp_gpr(u0)->Some_0;
                let u1 = u0.update(t1.idx(), true);
                let t2 = first_free_temp_gpr(u1)->Some_0;
                let u2 = u1.update(t2.idx(), true);
                final(self)@ == old(self)@.with_code(
                    seq![Inst::LoadLabel(t1, label)] + move_code(u2, Size::S32, cond, Location::GPR(t2)) + seq![
                        Inst::AddLsl(Size::S64, Location::GPR(t1), Location::GPR(t2), 2, Location::GPR(t2)),
                        Inst::BReg(t2),
                    ],
                )
            }),
    {
        let tmp1 = self.acquire_temp_gpr().unwrap();
        let tmp2 = self.acquire_temp_gpr().unwrap();
        self.emit(Inst::LoadLabel(tmp1, label));
        self.move_location(Size::S32, cond, Location::GPR(tmp2));
        self.emit(Inst::AddLsl(Size::S64, Location::GPR(tmp1), Location::GPR(tmp2), 2, Location::GPR(tmp2)));
        self.emit(Inst::BReg(tmp2));
        self.release_gpr(tmp2);
        self.release_gpr(tmp1);
        assert(self@.used_gprs =~= old(self)@.used_gprs);
        assert(self@.code =~= old(self)@.code + seq![Inst::LoadLabel(tmp1, label)] + move_code(
            old(self)@.used_gprs.update(tmp1.idx(), true).update(tmp2.idx(), true),
            Size::S32,
            cond,
            Location::GPR(tmp2),
        ) + seq![
            Inst::AddLsl(Size::S64, Location::GPR(tmp1), Location::GPR(tmp2), 2, Location::GPR(tmp2)),
            Inst::BReg(tmp2),
        ]);
    }

    /// Calls the address at `location`, loaded into `X27` unless it is
    /// already in a register.
    pub fn emit_call_location(&mut self, location: Location)
        requires
            old(self).wf(),
            old(self)@.room(6),
            !(location is SIMD),
            to_gpr_ok(old(self)@.used_gprs, Size::S64, location, ImmType::NoImm, true, Some(GPR::X27)),
        ensures
            final(self).wf(),
            ({
                let l = to_gpr(old(self)@.used_gprs, Size::S64, location, ImmType::NoImm, true, Some(GPR::X27));
                final(self)@ == old(self)@.with_code(l.code + seq![Inst::CallReg(l.loc->GPR_0)])
            }),
    {
        let mut temps: Vec<GPR> = Vec::new();
        let loc = self.location_to_reg(Size::S64, location, &mut temps, ImmType::NoImm, true, Some(GPR::X27));
        proof {
            reveal(to_gpr);
            reveal(to_gpr_ok);
        }
        assert(self@.used_gprs == old(self)@.used_gprs);
        assert(loc is GPR);
        if let Location::GPR(reg) = loc {
            self.emit(Inst::CallReg(reg));
        }
        assert(self@ =~= old(self)@.with_code(
            to_gpr(old(self)@.used_gprs, Size::S64, location, ImmType::NoImm, true, Some(GPR::X27)).code + seq![
                Inst::CallReg(loc->GPR_0),
            ],
        ));
    }

    /// Location of local `idx`.
    pub fn get_local_location(&self, idx: usize, callee_saved_regs_size: usize) -> (r: Location)
        requires
            idx > 7 ==> (idx - 3) * 8 + callee_saved_regs_size <= i32::MAX,
        ensures
            r == local_location(idx, callee_saved_regs_size),
    {
        match idx {
            0 => Location::GPR(GPR::X19),
            1 => Location::GPR(GPR::X20),
            2 => Location::GPR(GPR::X21),
            3 => Location::GPR(GPR::X22),
            4 => Location::GPR(GPR::X23),
            5 => Location::GPR(GPR::X24),
            6 => Location::GPR(GPR::X25),
            7 => Location::GPR(GPR::X26),
            _ => Location::Memory(GPR::X29, -(((idx - 3) * 8 + callee_saved_regs_size) as i32)),
        }
    }

    /// Location of parameter `idx` under `calling_convention`.
    pub fn get_param_location(&self, idx: usize, calling_convention: CallingConvention) -> (r: Location)
        requires
            idx >= 8 ==> 16 * 2 + (idx - 8) * 8 <= i32::MAX,
        ensures
            r == param_location(idx),
    {
        if idx < 8 {
            let g = GPR::from_index(idx);
            proof {
                let c = choose|r: GPR| r.idx() == idx;
                crate::regs::lemma_gpr_idx_injective(g, c);
            }
            Location::GPR(g)
        } else {
            Location::Memory(GPR::X29, (16 * 2 + (idx - 8) * 8) as i32)
        }
    }

    /// Whether local `idx` lives on the stack rather than in a register.
    pub fn is_local_on_stack(&self, idx: usize) -> (r: bool)
        ensures
            r == (idx > 7),
    {
        idx > 7
    }

    /// The frame slot `stack_offset` bytes below the frame pointer.
    pub fn local_on_stack(&self, stack_offset: i32) -> (r: Location)
        requires
            stack_offset != i32::MIN,
        ensures
            r == Location::Memory(GPR::X29, -stack_offset as i32),
    {
        Location::Memory(GPR::X29, -stack_offset)
    }

    /// `value` rounded up to a multiple of 16.
    pub fn round_stack_adjust(&self, value: usize) -> (r: usize)
        requires
            value <= usize::MAX - 16,
        ensures
            r % 16 == 0,
            value <= r < value + 16,
    {
        if value % 16 != 0 {
            (value / 16 + 1) * 16
        } else {
            value
        }
    }

    /// The register holding the VM context.
    pub fn get_vmctx_reg(&self) -> (r: GPR)
        ensures
            r == GPR::X28,
    {
        GPR::X28
    }

    /// The register used as the base of stack locals.
    pub fn local_pointer(&self) -> (r: GPR)
        ensures
            r == GPR::X29,
    {
        GPR::X29
    }

    /// The register a call target is loaded into.
    pub fn get_grp_for_call(&self) -> (r: GPR)
        ensures
            r == GPR::X27,
    {
        GPR::X27
    }

    /// The register of an integer return value.
    pub fn get_gpr_for_ret(&self) -> (r: GPR)
        ensures
            r == GPR::X0,
    {
        GPR::X0
    }

    /// The register of a floating-point return value.
    pub fn get_simd_for_ret(&self) -> (r: crate::regs::NEON)
        ensures
            r == crate::regs::NEON::V0,
    {
        crate::regs::NEON::V0
    }

    /// Stores `location` in the frame slot `stack_offset` bytes below the
    /// frame pointer, through `X17` when the offset is 256 or more.
    pub fn move_local(&mut self, stack_offset: i32, location: Location)
        requires
            old(self).wf(),
            old(self)@.room(6),
            stack_offset != i32::MIN,
        ensures
            final(self).wf(),
            final(self)@ == old(self)@.with_code(
                if stack_offset < 256 {
                    seq![Inst::Stur(Size::S64, location, GPR::X29, -stack_offset as i32)]
                } else {
                    mov_imm_seq(GPR::X17, stack_offset as u64) + seq![
                        Inst::Op3(Op3::Sub, Size::S64, Location::GPR(GPR::X29), Location::GPR(GPR::X17), Location::GPR(GPR::X17)),
                        Inst::Store(crate::inst::StoreKind::Str, Size::S64, location, Location::Memory(GPR::X17, 0)),
                    ]
                },
            ),
    {
        if stack_offset < 256 {
            self.emit(Inst::Stur(Size::S64, location, GPR::X29, -stack_offset));
        } else {
            self.emit_mov_imm(GPR::X17, stack_offset as u64);
            self.emit(Inst::Op3(Op3::Sub, Size::S64, Location::GPR(GPR::X29), Location::GPR(GPR::X17), Location::GPR(GPR::X17)));
            self.emit(Inst::Store(crate::inst::StoreKind::Str, Size::S64, location, Location::Memory(GPR::X17, 0)));
            assert(self@.code =~= old(self)@.code + mov_imm_seq(GPR::X17, stack_offset as u64) + seq![
                Inst::Op3(Op3::Sub, Size::S64, Location::GPR(GPR::X29), Location::GPR(GPR::X17), Location::GPR(GPR::X17)),
                Inst::Store(crate::inst::StoreKind::Str, Size::S64, location, Location::Memory(GPR::X17, 0)),
            ]);
        }
    }

    /// Sets `location` to zero, from the zero register.
    pub fn zero_location(&mut self, size: Size, location: Location)
        requires
            old(self).wf(),
            old(self)@.room(11),
            move_ok(old(self)@.used_gprs, size, Location::GPR(GPR::XzrSp), location),
        ensures
            final(self).wf(),
            final(self)@ == old(self)@.with_code(move_code(old(self)@.used_gprs, size, Location::GPR(GPR::XzrSp), location)),
    {
        self.move_location(size, Location::GPR(GPR::XzrSp), location);
    }

    /// Moves the return value `loc` of type `ty` to `X0`. NaNs are not
    /// canonicalised on this target, so `canonicalize` must be false.
    pub fn emit_function_return_value(&mut self, ty: WpType, canonicalize: bool, loc: Location)
        requires
            old(self).wf(),
            old(self)@.room(24),
            !canonicalize,
            crate::kernel::binop_ok(old(self)@.used_gprs, Size::S64, loc, Location::GPR(GPR::X0), true),
        ensures
            final(self).wf(),
            final(self)@ == old(self)@.with_code(
                crate::kernel::binop_code(old(self)@.used_gprs, crate::inst::Op2::Mov, Size::S64, loc, Location::GPR(GPR::X0), true),
            ),
    {
        self.emit_relaxed_mov(Size::S64, loc, Location::GPR(GPR::X0));
    }

    /// Moves the integer return register to the floating-point one.
    pub fn emit_function_return_float(&mut self)
        requires
            old(self).wf(),
            old(self)@.room(11),
        ensures
            final(self).wf(),
            final(self)@ == old(self)@.with_code(
                move_code(old(self)@.used_gprs, Size::S64, Location::GPR(GPR::X0), Location::SIMD(crate::regs::NEON::V0)),
            ),
    {
        proof { reveal(move_ok); }
        self.move_location(Size::S64, Location::GPR(GPR::X0), Location::SIMD(crate::regs::NEON::V0));
    }
}

} // verus!
