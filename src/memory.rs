//! Guarded linear-memory accesses: base and bound loads, effective address,
//! bounds and alignment checks, and trap tagging of the access.

use crate::imm::{compatible_imm, fits, ImmType};
use crate::inst::{mov_imm_seq, Inst, LoadKind, Op2, Op3, StoreKind};
use crate::kernel::{
    binop_code, binop_ok, relaxed_load_code, relaxed_load_ok, relaxed_store_code, relaxed_store_ok, AccessForm,
};
use crate::legalise::{move_code, move_ok};
use crate::machine::{first_free_temp_gpr, free_temp_gprs, mark_range, InstructionAddressMap, MachineARM64, MachineView};
use crate::regs::{Condition, GPR, Label, Location, MemoryImmediate, Size, TrapCode};
use vstd::prelude::*;

verus! {

broadcast use {crate::regs::lemma_gpr_idx_range, crate::regs::lemma_simd_idx_range};

/// The access that a guarded memory operation performs once the effective
/// address is in a register.
#[derive(Clone, Copy, Debug, PartialEq, Eq, Structural)]
pub enum HeapAccess {
    /// A relaxed load of the result, of size `Size`, into the location.
    Load(LoadKind, AccessForm, Size, Location),
    /// A relaxed store of the value at the location.
    Store(StoreKind, AccessForm, Location),
    /// A plain `ldr` of the given size into the register.
    Direct(Size, Location),
}

/// The code of `access` with the effective address in `addr`.
pub open spec fn heap_access_code(used: Seq<bool>, access: HeapAccess, addr: GPR) -> Seq<Inst> {
    match access {
        HeapAccess::Load(kind, f, sz, ret) => relaxed_load_code(used, kind, f, sz, ret, Location::Memory(addr, 0)),
        HeapAccess::Store(kind, f, value) => relaxed_store_code(used, kind, f, value, Location::Memory(addr, 0)),
        HeapAccess::Direct(sz, ret) => seq![Inst::Load(LoadKind::Ldr, sz, ret, Location::Memory(addr, 0))],
    }
}

pub open spec fn heap_access_ok(used: Seq<bool>, access: HeapAccess, addr: GPR) -> bool {
    match access {
        HeapAccess::Load(_, f, sz, ret) => relaxed_load_ok(used, f, sz, ret, Location::Memory(addr, 0)),
        HeapAccess::Store(_, f, value) => relaxed_store_ok(used, f, value, Location::Memory(addr, 0)),
        HeapAccess::Direct(_, _) => true,
    }
}

/// The addressing form of 64-bit loads.
pub open spec fn form64() -> AccessForm {
    AccessForm { opsz: Size::S64, scaled: ImmType::OffsetDWord, unscaled: true }
}

/// The temporaries of a guard: address, base and bound, taken in turn from
/// `used`.
pub open spec fn guard_temps(used: Seq<bool>) -> (GPR, GPR, GPR) {
    let t1 = first_free_temp_gpr(used)->Some_0;
    let u1 = used.update(t1.idx(), true);
    let t2 = first_free_temp_gpr(u1)->Some_0;
    let u2 = u1.update(t2.idx(), true);
    let t3 = first_free_temp_gpr(u2)->Some_0;
    (t1, t2, t3)
}

pub open spec fn guard_used(used: Seq<bool>) -> Seq<bool> {
    let (t1, t2, t3) = guard_temps(used);
    used.update(t1.idx(), true).update(t2.idx(), true).update(t3.idx(), true)
}

/// Where the memory's base and bound are read: through the imported
/// memory's definition, reached from the VM context, or from the VM context
/// itself.
pub open spec fn base_bound_locs(imported: bool, t1: GPR, offset: i32) -> (Location, Location) {
    if imported {
        (Location::Memory(t1, 0), Location::Memory(t1, 8))
    } else {
        (Location::Memory(GPR::X28, offset), Location::Memory(GPR::X28, (offset + 8) as i32))
    }
}

/// `tmp_bound = tmp_bound - value_size`.
pub open spec fn bound_sub_code(u3: Seq<bool>, t3: GPR, value_size: usize) -> Seq<Inst> {
    if fits(value_size as i64, ImmType::Bits12) {
        seq![Inst::Op3(Op3::Sub, Size::S64, Location::GPR(t3), Location::Imm32(value_size as u32), Location::GPR(t3))]
    } else {
        let t4 = first_free_temp_gpr(u3)->Some_0;
        mov_imm_seq(t4, value_size as u64) + seq![
            Inst::Op3(Op3::Sub, Size::S64, Location::GPR(t3), Location::GPR(t4), Location::GPR(t3)),
        ]
    }
}

/// Loads of base and, when checked, of the inclusive bound of legal access
/// starts.
pub open spec fn bounds_code(
    u3: Seq<bool>,
    imported: bool,
    offset: i32,
    need_check: bool,
    value_size: usize,
    t1: GPR,
    t2: GPR,
    t3: GPR,
) -> Seq<Inst> {
    let (base_loc, bound_loc) = base_bound_locs(imported, t1, offset);
    relaxed_load_code(u3, LoadKind::Ldr, form64(), Size::S64, Location::GPR(t2), base_loc) + if need_check {
        relaxed_load_code(u3, LoadKind::Ldr, form64(), Size::S64, Location::GPR(t3), bound_loc) + seq![
            Inst::Op3(Op3::Add, Size::S64, Location::GPR(t3), Location::GPR(t2), Location::GPR(t3)),
        ] + bound_sub_code(u3, t3, value_size)
    } else {
        seq![]
    }
}

/// Wasm address plus static offset, with a branch out on carry, then plus
/// the memory base.
pub open spec fn address_code(u3: Seq<bool>, addr: Location, off: u32, oob: Label, t1: GPR, t2: GPR) -> Seq<Inst> {
    move_code(u3, Size::S32, addr, Location::GPR(t1)) + (if off != 0 {
        (if fits(off as i64, ImmType::Bits12) {
            seq![Inst::Op3(Op3::Adds, Size::S32, Location::Imm32(off), Location::GPR(t1), Location::GPR(t1))]
        } else {
            let t4 = first_free_temp_gpr(u3)->Some_0;
            mov_imm_seq(t4, off as u64) + seq![
                Inst::Op3(Op3::Adds, Size::S32, Location::GPR(t1), Location::GPR(t4), Location::GPR(t1)),
            ]
        }) + seq![Inst::Bcond(Condition::Cs, oob)]
    } else {
        seq![]
    }) + seq![Inst::Op3(Op3::Add, Size::S64, Location::GPR(t2), Location::GPR(t1), Location::GPR(t1))]
}

/// The upper-bound comparison and the alignment test.
pub open spec fn check_code(
    need_check: bool,
    check_alignment: bool,
    align: u32,
    oob: Label,
    t1: GPR,
    t3: GPR,
) -> Seq<Inst> {
    (if need_check {
        seq![Inst::Op2(Op2::Cmp, Size::S64, Location::GPR(t3), Location::GPR(t1)), Inst::Bcond(Condition::Hi, oob)]
    } else {
        seq![]
    }) + if check_alignment && align != 1 {
        seq![
            Inst::Op2(Op2::Tst, Size::S64, Location::Imm32((align - 1) as u32), Location::GPR(t1)),
            Inst::Bcond(Condition::Ne, oob),
        ]
    } else {
        seq![]
    }
}

/// Everything a guarded access emits before the access itself.
pub open spec fn guard_code(
    used: Seq<bool>,
    addr: Location,
    memarg: MemoryImmediate,
    check_alignment: bool,
    value_size: usize,
    need_check: bool,
    imported: bool,
    offset: i32,
    oob: Label,
) -> Seq<Inst> {
    let (t1, t2, t3) = guard_temps(used);
    let u1 = used.update(t1.idx(), true);
    let u3 = guard_used(used);
    (if imported {
        binop_code(u1, Op2::Mov, Size::S64, Location::Memory(GPR::X28, offset), Location::GPR(t1), true)
    } else {
        seq![]
    }) + bounds_code(u3, imported, offset, need_check, value_size, t1, t2, t3) + address_code(
        u3,
        addr,
        memarg.offset,
        oob,
        t1,
        t2,
    ) + check_code(need_check, check_alignment, memarg.align, oob, t1, t3)
}

/// The inputs on which a guard has the registers and encodings it needs.
pub open spec fn guard_ok(
    used: Seq<bool>,
    addr: Location,
    memarg: MemoryImmediate,
    check_alignment: bool,
    value_size: usize,
    need_check: bool,
    imported: bool,
    offset: i32,
) -> bool {
    let (t1, t2, t3) = guard_temps(used);
    let u1 = used.update(t1.idx(), true);
    let u3 = guard_used(used);
    let (base_loc, bound_loc) = base_bound_locs(imported, t1, offset);
    &&& free_temp_gprs(used) >= 3
    &&& (need_check && !fits(value_size as i64, ImmType::Bits12)) ==> free_temp_gprs(used) >= 4
    &&& (memarg.offset != 0 && !fits(memarg.offset as i64, ImmType::Bits12)) ==> free_temp_gprs(used) >= 4
    &&& imported ==> binop_ok(u1, Size::S64, Location::Memory(GPR::X28, offset), Location::GPR(t1), true)
    &&& !imported ==> offset <= i32::MAX - 8
    &&& relaxed_load_ok(u3, form64(), Size::S64, Location::GPR(t2), base_loc)
    &&& need_check ==> relaxed_load_ok(u3, form64(), Size::S64, Location::GPR(t3), bound_loc)
    &&& move_ok(u3, Size::S32, addr, Location::GPR(t1))
    &&& (check_alignment ==> memarg.align != 0)
}

/// The state after a guarded access from state `m`: guard and access code
/// appended, every byte of the access tagged `HeapAccessOutOfBounds`, and an
/// address-map row for the access.
pub open spec fn guarded(
    m: MachineView,
    addr: Location,
    memarg: MemoryImmediate,
    check_alignment: bool,
    value_size: usize,
    need_check: bool,
    imported: bool,
    offset: i32,
    oob: Label,
    access: HeapAccess,
) -> MachineView {
    let t1 = guard_temps(m.used_gprs).0;
    let g = guard_code(m.used_gprs, addr, memarg, check_alignment, value_size, need_check, imported, offset, oob);
    let a = heap_access_code(m.used_gprs.update(t1.idx(), true), access, t1);
    let begin: int = 4 * (m.code.len() + g.len()) as int;
    let end: int = begin + 4 * a.len() as int;
    MachineView {
        code: m.code + g + a,
        traps: mark_range(m.traps, begin, end, TrapCode::HeapAccessOutOfBounds),
        addr_map: m.addr_map.push(
            InstructionAddressMap { srcloc: m.src_loc, code_offset: begin as usize, code_len: (end - begin) as usize },
        ),
        ..m
    }
}

/// The inputs on which a guarded access has what it needs.
pub open spec fn guarded_ok(
    used: Seq<bool>,
    addr: Location,
    memarg: MemoryImmediate,
    check_alignment: bool,
    value_size: usize,
    need_check: bool,
    imported: bool,
    offset: i32,
    access: HeapAccess,
) -> bool {
    let t1 = guard_temps(used).0;
    &&& guard_ok(used, addr, memarg, check_alignment, value_size, need_check, imported, offset)
    &&& heap_access_ok(used.update(t1.idx(), true), access, t1)
}

impl MachineARM64 {
    #[verifier::rlimit(40)]
    fn emit_bounds(
        &mut self,
        imported: bool,
        offset: i32,
        need_check: bool,
        value_size: usize,
        t1: GPR,
        t2: GPR,
        t3: GPR,
    )
        requires
            old(self).wf(),
            old(self)@.room(48),
            !imported ==> offset <= i32::MAX - 8,
            relaxed_load_ok(old(self)@.used_gprs, form64(), Size::S64, Location::GPR(t2), base_bound_locs(imported, t1, offset).0),
            need_check ==> relaxed_load_ok(old(self)@.used_gprs, form64(), Size::S64, Location::GPR(t3), base_bound_locs(imported, t1, offset).1),
            (need_check && !fits(value_size as i64, ImmType::Bits12)) ==> free_temp_gprs(old(self)@.used_gprs) >= 1,
        ensures
            final(self).wf(),
            final(self)@ == old(self)@.with_code(bounds_code(old(self)@.used_gprs, imported, offset, need_check, value_size, t1, t2, t3)),
            final(self)@.code.len() <= old(self)@.code.len() + 48,
    {
        let (base_loc, bound_loc) = if imported {
            (Location::Memory(t1, 0), Location::Memory(t1, 8))
        } else {
            (Location::Memory(GPR::X28, offset), Location::Memory(GPR::X28, offset + 8))
        };
        self.emit_relaxed_load(LoadKind::Ldr, AccessForm { opsz: Size::S64, scaled: ImmType::OffsetDWord, unscaled: true }, Size::S64, Location::GPR(t2), base_loc);
        let ghost mid = self@;
        if need_check {
            self.emit_relaxed_load(LoadKind::Ldr, AccessForm { opsz: Size::S64, scaled: ImmType::OffsetDWord, unscaled: true }, Size::S64, Location::GPR(t3), bound_loc);
            self.emit(Inst::Op3(Op3::Add, Size::S64, Location::GPR(t3), Location::GPR(t2), Location::GPR(t3)));
            let ghost mid2 = self@;
            if compatible_imm(value_size as i64, ImmType::Bits12) {
                self.emit(Inst::Op3(Op3::Sub, Size::S64, Location::GPR(t3), Location::Imm32(value_size as u32), Location::GPR(t3)));
            } else {
                let t4 = self.acquire_temp_gpr().unwrap();
                proof { crate::inst::lemma_mov_imm_len(t4, value_size as u64); }
                self.emit_mov_imm(t4, value_size as u64);
                self.emit(Inst::Op3(Op3::Sub, Size::S64, Location::GPR(t3), Location::GPR(t4), Location::GPR(t3)));
                self.release_gpr(t4);
                assert(self@.used_gprs =~= old(self)@.used_gprs);
            }
            assert(self@.code =~= mid2.code + bound_sub_code(old(self)@.used_gprs, t3, value_size));
        }
        assert(self@ =~= old(self)@.with_code(bounds_code(old(self)@.used_gprs, imported, offset, need_check, value_size, t1, t2, t3)));
    }

    fn emit_address(&mut self, addr: Location, off: u32, oob: Label, t1: GPR, t2: GPR)
        requires
            old(self).wf(),
            old(self)@.room(20),
            move_ok(old(self)@.used_gprs, Size::S32, addr, Location::GPR(t1)),
            (off != 0 && !fits(off as i64, ImmType::Bits12)) ==> free_temp_gprs(old(self)@.used_gprs) >= 1,
        ensures
            final(self).wf(),
            final(self)@ == old(self)@.with_code(address_code(old(self)@.used_gprs, addr, off, oob, t1, t2)),
            final(self)@.code.len() <= old(self)@.code.len() + 18,
    {
        self.move_location(Size::S32, addr, Location::GPR(t1));
        let ghost mid = self@;
        if off != 0 {
            if compatible_imm(off as i64, ImmType::Bits12) {
                self.emit(Inst::Op3(Op3::Adds, Size::S32, Location::Imm32(off), Location::GPR(t1), Location::GPR(t1)));
            } else {
                let t4 = self.acquire_temp_gpr().unwrap();
                proof { crate::inst::lemma_mov_imm_len(t4, off as u64); }
                self.emit_mov_imm(t4, off as u64);
                self.emit(Inst::Op3(Op3::Adds, Size::S32, Location::GPR(t1), Location::GPR(t4), Location::GPR(t1)));
                self.release_gpr(t4);
                assert(self@.used_gprs =~= old(self)@.used_gprs);
            }
            self.emit(Inst::Bcond(Condition::Cs, oob));
        }
        self.emit(Inst::Op3(Op3::Add, Size::S64, Location::GPR(t2), Location::GPR(t1), Location::GPR(t1)));
        assert(self@ =~= old(self)@.with_code(address_code(old(self)@.used_gprs, addr, off, oob, t1, t2)));
    }

    /// Emits the bounds protocol of a guarded access and returns the register
    /// that then holds the effective address, still acquired.
    fn emit_guard(
        &mut self,
        addr: Location,
        memarg: &MemoryImmediate,
        check_alignment: bool,
        value_size: usize,
        need_check: bool,
        imported: bool,
        offset: i32,
        oob: Label,
    ) -> (t1: GPR)
        requires
            old(self).wf(),
            old(self)@.room(96),
            guard_ok(old(self)@.used_gprs, addr, *memarg, check_alignment, value_size, need_check, imported, offset),
        ensures
            final(self).wf(),
            t1 == guard_temps(old(self)@.used_gprs).0,
            final(self)@ == (MachineView {
                code: old(self)@.code + guard_code(old(self)@.used_gprs, addr, *memarg, check_alignment, value_size, need_check, imported, offset, oob),
                used_gprs: old(self)@.used_gprs.update(t1.idx(), true),
                ..old(self)@
            }),
            final(self)@.code.len() <= old(self)@.code.len() + 92,
            !old(self)@.used_gprs[t1.idx()],
    {
        let ghost u0 = self@.used_gprs;
        let tmp_addr = self.acquire_temp_gpr().unwrap();
        let ghost u1 = self@.used_gprs;
        if imported {
            self.emit_relaxed_binop(Op2::Mov, Size::S64, Location::Memory(GPR::X28, offset), Location::GPR(tmp_addr), true);
        }
        let tmp_base = self.acquire_temp_gpr().unwrap();
        let tmp_bound = self.acquire_temp_gpr().unwrap();
        assert(self@.used_gprs == guard_used(u0));
        self.emit_bounds(imported, offset, need_check, value_size, tmp_addr, tmp_base, tmp_bound);
        self.emit_address(addr, memarg.offset, oob, tmp_addr, tmp_base);
        if need_check {
            self.emit(Inst::Op2(Op2::Cmp, Size::S64, Location::GPR(tmp_bound), Location::GPR(tmp_addr)));
            self.emit(Inst::Bcond(Condition::Hi, oob));
        }
        self.release_gpr(tmp_bound);
        self.release_gpr(tmp_base);
        let align = memarg.align;
        if check_alignment && align != 1 {
            self.emit(Inst::Op2(Op2::Tst, Size::S64, Location::Imm32(align - 1), Location::GPR(tmp_addr)));
            self.emit(Inst::Bcond(Condition::Ne, oob));
        }
        assert(self@.used_gprs =~= u1);
        assert(self@ =~= (MachineView {
            code: old(self)@.code + guard_code(u0, addr, *memarg, check_alignment, value_size, need_check, imported, offset, oob),
            used_gprs: u1,
            ..old(self)@
        }));
        tmp_addr
    }

    fn emit_heap_access(&mut self, access: HeapAccess, addr: GPR)
        requires
            old(self).wf(),
            old(self)@.room(24),
            heap_access_ok(old(self)@.used_gprs, access, addr),
        ensures
            final(self).wf(),
            final(self)@ == old(self)@.with_code(heap_access_code(old(self)@.used_gprs, access, addr)),
            final(self)@.code.len() <= old(self)@.code.len() + 21,
    {
        match access {
            HeapAccess::Load(kind, f, sz, ret) => self.emit_relaxed_load(kind, f, sz, ret, Location::Memory(addr, 0)),
            HeapAccess::Store(kind, f, value) => self.emit_relaxed_store(kind, f, value, Location::Memory(addr, 0)),
            HeapAccess::Direct(sz, ret) => self.emit(Inst::Load(LoadKind::Ldr, sz, ret, Location::Memory(addr, 0))),
        }
    }

    /// A guarded access to linear memory: loads the memory's base (and, with
    /// `need_check`, its bound), forms the effective address with an overflow
    /// branch, branches to `heap_access_oob` when the access would end past
    /// the bound or is misaligned under `check_alignment`, then emits `access`
    /// and tags each of its bytes with `HeapAccessOutOfBounds`.
    pub fn memory_op(
        &mut self,
        addr: Location,
        memarg: &MemoryImmediate,
        check_alignment: bool,
        value_size: usize,
        need_check: bool,
        imported_memories: bool,
        offset: i32,
        heap_access_oob: Label,
        access: HeapAccess,
    )
        requires
            old(self).wf(),
            old(self)@.room(128),
            guarded_ok(old(self)@.used_gprs, addr, *memarg, check_alignment, value_size, need_check, imported_memories, offset, access),
        ensures
            final(self).wf(),
            final(self)@ == guarded(old(self)@, addr, *memarg, check_alignment, value_size, need_check, imported_memories, offset, heap_access_oob, access),
            final(self)@.code.len() <= old(self)@.code.len() + 113,
    {
        let tmp_addr = self.emit_guard(addr, memarg, check_alignment, value_size, need_check, imported_memories, offset, heap_access_oob);
        let begin = self.get_offset();
        self.emit_heap_access(access, tmp_addr);
        let end = self.get_offset();
        self.mark_address_range_with_trap_code(TrapCode::HeapAccessOutOfBounds, begin, end);
        self.release_gpr(tmp_addr);
        assert(self@.used_gprs =~= old(self)@.used_gprs);
        assert(self@.code =~= old(self)@.code + guard_code(old(self)@.used_gprs, addr, *memarg, check_alignment, value_size, need_check, imported_memories, offset, heap_access_oob) + heap_access_code(old(self)@.used_gprs.update(tmp_addr.idx(), true), access, tmp_addr));
    }
}

} // verus!
