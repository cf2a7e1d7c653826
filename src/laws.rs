//! Properties that relate several operations: stack round trips, alignment,
//! trap tagging, address-map order, re-legalisation and division guards.

use crate::frame::{epilog_code, pop_code, prolog_code, push_any_code, push_code, sp_down, sp_up};
use crate::imm::ImmType;
use crate::inst::{Inst, Op3};
use crate::legalise::{to_gpr, Legal};
use crate::machine::{InstructionAddressMap, MachineView};
use crate::memory::{guard_code, guard_temps, guarded, heap_access_code, HeapAccess};
use crate::regs::{Condition, GPR, Label, Location, MemoryImmediate, Size, TrapCode};
use crate::inst::{mov_imm_seq, Op2};
use crate::machine::{first_free_temp_gpr, free_temp_gprs};
use crate::ops::sdiv_head;
use vstd::prelude::*;

verus! {

/// What the stack-manipulating instructions see of a processor: the stack
/// pointer, the general-purpose registers and memory.
pub struct StackState {
    pub sp: int,
    pub regs: spec_fn(GPR) -> int,
    pub mem: spec_fn(int) -> int,
}

/// A register as a source operand: register 31 reads as zero.
pub open spec fn reg_val(s: StackState, r: GPR) -> int {
    if r == GPR::XzrSp {
        0
    } else {
        (s.regs)(r)
    }
}

/// A register written as a destination: writes to register 31 are dropped.
pub open spec fn set_reg(s: StackState, r: GPR, v: int) -> StackState {
    if r == GPR::XzrSp {
        s
    } else {
        StackState { regs: |x: GPR| if x == r { v } else { (s.regs)(x) }, ..s }
    }
}

pub open spec fn store(s: StackState, a: int, v: int) -> StackState {
    StackState { mem: |x: int| if x == a { v } else { (s.mem)(x) }, ..s }
}

/// The effect of one instruction on the stack pointer, registers and memory,
/// for the forms the frame code uses; other instructions leave them as they
/// are.
pub open spec fn step(s: StackState, i: Inst) -> StackState {
    match i {
        Inst::Op3(Op3::Sub, Size::S64, Location::GPR(GPR::XzrSp), Location::Imm8(n), Location::GPR(GPR::XzrSp)) => StackState {
            sp: s.sp - n,
            ..s
        },
        Inst::Op3(Op3::Add, Size::S64, Location::GPR(GPR::XzrSp), Location::Imm8(n), Location::GPR(GPR::XzrSp)) => StackState {
            sp: s.sp + n,
            ..s
        },
        Inst::Op3(Op3::Add, Size::S64, Location::GPR(GPR::XzrSp), Location::Imm8(0), Location::GPR(r)) => set_reg(s, r, s.sp),
        Inst::Op3(Op3::Add, Size::S64, Location::GPR(r), Location::Imm8(0), Location::GPR(GPR::XzrSp)) => StackState {
            sp: reg_val(s, r),
            ..s
        },
        Inst::Op3(Op3::Sub, Size::S64, Location::GPR(r), Location::Imm32(n), Location::GPR(GPR::XzrSp)) => StackState {
            sp: reg_val(s, r) - n,
            ..s
        },
        Inst::Stur(Size::S64, Location::GPR(r), GPR::XzrSp, off) => store(s, s.sp + off, reg_val(s, r)),
        Inst::Ldur(Size::S64, Location::GPR(r), GPR::XzrSp, off) => set_reg(s, r, (s.mem)(s.sp + off)),
        Inst::Stpdb(Size::S64, Location::GPR(a), Location::GPR(b), GPR::XzrSp, n) => {
            let sp2 = s.sp - n;
            store(store(StackState { sp: sp2, ..s }, sp2, reg_val(s, a)), sp2 + 8, reg_val(s, b))
        },
        Inst::Ldpia(Size::S64, Location::GPR(a), Location::GPR(b), GPR::XzrSp, n) => {
            let s1 = set_reg(s, a, (s.mem)(s.sp));
            let s2 = set_reg(s1, b, (s.mem)(s.sp + 8));
            StackState { sp: s.sp + n, ..s2 }
        },
        _ => s,
    }
}

/// Running `code` from `s`.
pub open spec fn run(s: StackState, code: Seq<Inst>) -> StackState
    decreases code.len(),
{
    if code.len() == 0 {
        s
    } else {
        step(run(s, code.drop_last()), code.last())
    }
}

/// Every register holds the same value in `a` as in `b`.
pub open spec fn same_regs(a: StackState, b: StackState) -> bool {
    forall|x: GPR| #[trigger] (a.regs)(x) == (b.regs)(x)
}

/// The lowest byte in use on the stack: the stack pointer, or eight bytes
/// above it when the last slot is half full.
pub open spec fn stack_top(sp: int, pushed: bool) -> int {
    if pushed {
        sp + 8
    } else {
        sp
    }
}

/// Pushing a register keeps the stack pointer 16-byte aligned, lowers the
/// top of the stack by eight bytes, stores the register there, and the new
/// `pushed` is set exactly when the new top is not 16-byte aligned.
pub proof fn law_push_keeps_alignment(s: StackState, pushed: bool, r: GPR)
    requires
        s.sp % 16 == 0,
        stack_top(s.sp, pushed) % 16 == if pushed { 8int } else { 0int },
    ensures
        ({
            let t = run(s, push_code(pushed, Location::GPR(r)));
            &&& t.sp % 16 == 0
            &&& stack_top(t.sp, !pushed) == stack_top(s.sp, pushed) - 8
            &&& stack_top(t.sp, !pushed) % 16 == if !pushed { 8int } else { 0int }
            &&& (t.mem)(stack_top(t.sp, !pushed)) == reg_val(s, r)
        }),
{
    reveal_with_fuel(run, 3);
}

/// Popping into a register keeps the stack pointer 16-byte aligned, raises
/// the top of the stack by eight bytes and loads the register from the old
/// top.
pub proof fn law_pop_keeps_alignment(s: StackState, pushed: bool, r: GPR)
    requires
        s.sp % 16 == 0,
        r != GPR::XzrSp,
    ensures
        ({
            let t = run(s, pop_code(pushed, Location::GPR(r)));
            &&& t.sp % 16 == 0
            &&& stack_top(t.sp, !pushed) == stack_top(s.sp, pushed) + 8
            &&& (t.regs)(r) == (s.mem)(stack_top(s.sp, pushed))
        }),
{
    reveal_with_fuel(run, 3);
}

/// A push of a register followed by a pop into it restores the stack pointer,
/// every register, and the parity flag.
pub proof fn law_push_pop_round_trip(s: StackState, pushed: bool, r: GPR)
    requires
        r != GPR::XzrSp,
    ensures
        ({
            let t = run(s, push_code(pushed, Location::GPR(r)) + pop_code(!pushed, Location::GPR(r)));
            &&& t.sp == s.sp
            &&& same_regs(t, s)
        }),
{
    let code = push_code(pushed, Location::GPR(r)) + pop_code(!pushed, Location::GPR(r));
    let st = Inst::Stur(Size::S64, Location::GPR(r), GPR::XzrSp, if pushed { 0 } else { 8 });
    let ld = Inst::Ldur(Size::S64, Location::GPR(r), GPR::XzrSp, if pushed { 0 } else { 8 });
    if pushed {
        assert(code =~= seq![st, ld]);
        assert(code.drop_last() =~= seq![st]);
        assert(seq![st].drop_last() =~= Seq::<Inst>::empty());
        let s1 = step(s, st);
        assert(run(s, seq![st]) == s1) by {
            reveal_with_fuel(run, 2);
        }
        let t = step(s1, ld);
        assert(run(s, code) == t);
        assert forall|x: GPR| #[trigger] (t.regs)(x) == (s.regs)(x) by {}
    } else {
        assert(code =~= seq![sp_down(), st, ld, sp_up()]);
        assert(code.drop_last() =~= seq![sp_down(), st, ld]);
        assert(seq![sp_down(), st, ld].drop_last() =~= seq![sp_down(), st]);
        assert(seq![sp_down(), st].drop_last() =~= seq![sp_down()]);
        assert(seq![sp_down()].drop_last() =~= Seq::<Inst>::empty());
        let s1 = step(s, sp_down());
        assert(run(s, seq![sp_down()]) == s1) by {
            reveal_with_fuel(run, 2);
        }
        let s2 = step(s1, st);
        assert(run(s, seq![sp_down(), st]) == s2);
        let s3 = step(s2, ld);
        assert(run(s, seq![sp_down(), st, ld]) == s3);
        let t = step(s3, sp_up());
        assert(run(s, code) == t);
        assert forall|x: GPR| #[trigger] (t.regs)(x) == (s.regs)(x) by {}
    }
}

/// The prologue followed by the epilogue restores the stack pointer and every
/// register, callee-saved ones included; `pushed` is false before the
/// prologue and after the epilogue.
pub proof fn law_prolog_epilog_round_trip(s: StackState)
    ensures
        ({
            let t = run(s, prolog_code() + epilog_code());
            &&& t.sp == s.sp
            &&& same_regs(t, s)
        }),
{
    let code = prolog_code() + epilog_code();
    assert(code == seq![
        prolog_code()[0], prolog_code()[1], prolog_code()[2], epilog_code()[0], epilog_code()[1], epilog_code()[2],
    ]);
    reveal_with_fuel(run, 7);
    let t = run(s, code);
    assert forall|x: GPR| #[trigger] (t.regs)(x) == (s.regs)(x) by {}
}

/// A paired push followed by the paired pop of the same two registers, on
/// a full last slot, restores the stack pointer and every register.
pub proof fn law_double_push_pop_round_trip(s: StackState, a: GPR, b: GPR)
    requires
        a != b,
        a != GPR::XzrSp,
        b != GPR::XzrSp,
    ensures
        ({
            let t = run(
                s,
                seq![
                    Inst::Stpdb(Size::S64, Location::GPR(a), Location::GPR(b), GPR::XzrSp, 16),
                    Inst::Ldpia(Size::S64, Location::GPR(a), Location::GPR(b), GPR::XzrSp, 16),
                ],
            );
            &&& t.sp == s.sp
            &&& same_regs(t, s)
        }),
{
    reveal_with_fuel(run, 3);
    let t = run(
        s,
        seq![
            Inst::Stpdb(Size::S64, Location::GPR(a), Location::GPR(b), GPR::XzrSp, 16),
            Inst::Ldpia(Size::S64, Location::GPR(a), Location::GPR(b), GPR::XzrSp, 16),
        ],
    );
    assert forall|x: GPR| #[trigger] (t.regs)(x) == (s.regs)(x) by {}
}

/// `emit_push` of a register followed by `emit_pop` into it, as their
/// contracts state the machine afterwards: the parity flag and the register
/// pool are as before, the code grows by exactly the push and the pop, and
/// running that code restores the stack pointer and every register.
pub proof fn law_emit_push_pop_round_trip(m: MachineView, r: GPR, s: StackState)
    requires
        r != GPR::XzrSp,
    ensures
        ({
            let m1 = m.with_pushed(push_any_code(m.used_gprs, m.pushed, Location::GPR(r)), !m.pushed);
            let m2 = m1.with_pushed(pop_code(m1.pushed, Location::GPR(r)), !m1.pushed);
            let added = m2.code.subrange(m.code.len() as int, m2.code.len() as int);
            let t = run(s, added);
            &&& m2.pushed == m.pushed
            &&& m2.used_gprs == m.used_gprs
            &&& m2.used_simd == m.used_simd
            &&& t.sp == s.sp
            &&& same_regs(t, s)
        }),
{
    let m1 = m.with_pushed(push_any_code(m.used_gprs, m.pushed, Location::GPR(r)), !m.pushed);
    let m2 = m1.with_pushed(pop_code(m1.pushed, Location::GPR(r)), !m1.pushed);
    let added = m2.code.subrange(m.code.len() as int, m2.code.len() as int);
    let code = push_code(m.pushed, Location::GPR(r)) + pop_code(!m.pushed, Location::GPR(r));
    assert(added =~= code);
    law_push_pop_round_trip(s, m.pushed, r);
}

/// A paired push on a full last slot keeps the stack pointer 16-byte
/// aligned, lowers it by 16 bytes, and stores the two registers in the 16
/// bytes below the old top, the first at the lower address.
pub proof fn law_double_push_keeps_alignment(s: StackState, a: GPR, b: GPR)
    requires
        s.sp % 16 == 0,
    ensures
        ({
            let t = run(s, seq![Inst::Stpdb(Size::S64, Location::GPR(a), Location::GPR(b), GPR::XzrSp, 16)]);
            &&& t.sp % 16 == 0
            &&& t.sp == s.sp - 16
            &&& (t.mem)(s.sp - 16) == reg_val(s, a)
            &&& (t.mem)(s.sp - 8) == reg_val(s, b)
        }),
{
    reveal_with_fuel(run, 2);
}

/// Restoring a saved area of `offset` bytes below a 16-byte aligned frame
/// pointer, where the rounded size fits an immediate: the stack pointer ends
/// 16-byte aligned, `pushed` is set exactly when the size was not a multiple
/// of 16, and the top of the stack is `offset` bytes below the frame pointer.
pub proof fn law_restore_saved_area_alignment(s: StackState, offset: i32)
    requires
        0 <= offset <= 4000,
        offset % 8 == 0,
        (s.regs)(GPR::X29) % 16 == 0,
    ensures
        ({
            let misaligned = offset & 15 != 0;
            let rd = if misaligned { (offset + 8) as i32 } else { offset };
            let t = run(s, seq![Inst::Op3(Op3::Sub, Size::S64, Location::GPR(GPR::X29), Location::Imm32(rd as u32), Location::GPR(GPR::XzrSp))]);
            &&& misaligned == (offset % 16 != 0)
            &&& t.sp % 16 == 0
            &&& stack_top(t.sp, misaligned) == (s.regs)(GPR::X29) - offset
        }),
{
    assert((offset & 15 != 0) == (offset % 16 != 0)) by (bit_vector);
    reveal_with_fuel(run, 2);
}

/// A guarded access records `HeapAccessOutOfBounds` at every byte offset of
/// the access it emits, and keeps every other recorded offset.
pub proof fn law_guarded_access_tagged(
    m: MachineView,
    addr: Location,
    memarg: MemoryImmediate,
    check_alignment: bool,
    value_size: usize,
    need_check: bool,
    imported: bool,
    offset: i32,
    oob: Label,
    access: HeapAccess,
    k: int,
)
    ensures
        ({
            let t1 = guard_temps(m.used_gprs).0;
            let g = guard_code(m.used_gprs, addr, memarg, check_alignment, value_size, need_check, imported, offset, oob);
            let a = heap_access_code(m.used_gprs.update(t1.idx(), true), access, t1);
            let begin = 4 * (m.code.len() + g.len());
            let end = begin + 4 * a.len();
            let t = guarded(m, addr, memarg, check_alignment, value_size, need_check, imported, offset, oob, access).traps;
            &&& begin <= k < end ==> t.contains_key(k) && t[k] == TrapCode::HeapAccessOutOfBounds
            &&& !(begin <= k < end) && m.traps.contains_key(k) ==> t.contains_key(k) && t[k] == m.traps[k]
        }),
{
}

/// The address map is ordered by code offset and by source location, and
/// lies within the code emitted and the current source location.
pub open spec fn addr_map_ordered(m: MachineView) -> bool {
    &&& forall|i: int, j: int|
        0 <= i < j < m.addr_map.len() ==> m.addr_map[i].code_offset <= m.addr_map[j].code_offset
            && m.addr_map[i].srcloc <= m.addr_map[j].srcloc
    &&& forall|i: int|
        0 <= i < m.addr_map.len() ==> m.addr_map[i].code_offset <= m.offset() && m.addr_map[i].srcloc
            <= m.src_loc
}

/// Appending code keeps the address map ordered.
pub proof fn law_emit_keeps_map_order(m: MachineView, s: Seq<Inst>)
    requires
        addr_map_ordered(m),
    ensures
        addr_map_ordered(m.with_code(s)),
{
}

/// Moving the source location forward keeps the address map ordered.
pub proof fn law_set_srcloc_keeps_map_order(m: MachineView, loc: u32)
    requires
        addr_map_ordered(m),
        loc >= m.src_loc,
    ensures
        addr_map_ordered(MachineView { src_loc: loc, ..m }),
{
}

/// A row added at the current offset keeps the address map ordered.
pub proof fn law_mark_keeps_map_order(m: MachineView, code: TrapCode)
    requires
        addr_map_ordered(m),
        m.offset() <= usize::MAX,
    ensures
        addr_map_ordered(
            MachineView {
                traps: m.traps.insert(m.offset(), code),
                addr_map: m.addr_map.push(
                    InstructionAddressMap { srcloc: m.src_loc, code_offset: m.offset() as usize, code_len: 0 },
                ),
                ..m
            },
        ),
{
}

/// A guarded access keeps the address map ordered.
pub proof fn law_guarded_access_keeps_map_order(
    m: MachineView,
    addr: Location,
    memarg: MemoryImmediate,
    check_alignment: bool,
    value_size: usize,
    need_check: bool,
    imported: bool,
    offset: i32,
    oob: Label,
    access: HeapAccess,
)
    requires
        addr_map_ordered(m),
        4 * (m.code.len() + guard_code(m.used_gprs, addr, memarg, check_alignment, value_size, need_check, imported, offset, oob).len()
            + heap_access_code(m.used_gprs.update(guard_temps(m.used_gprs).0.idx(), true), access, guard_temps(m.used_gprs).0).len())
            <= usize::MAX,
    ensures
        addr_map_ordered(guarded(m, addr, memarg, check_alignment, value_size, need_check, imported, offset, oob, access)),
{
}

/// An immediate that the legaliser materialised into a temporary, legalised
/// again while that temporary is held, stays in the same register and emits
/// nothing.
pub proof fn law_relegalise_materialised(
    used: Seq<bool>,
    sz: Size,
    v: u64,
    allow_imm: ImmType,
    sz2: Size,
    allow_imm2: ImmType,
    read_val: bool,
)
    ensures
        ({
            let l = to_gpr(used, sz, Location::Imm64(v), allow_imm, true, None);
            let again = to_gpr(l.used, sz2, l.loc, allow_imm2, read_val, None);
            l.temp is Some ==> again == (Legal::<GPR> { loc: l.loc, code: seq![], used: l.used, temp: None })
        }),
{
    reveal(to_gpr);
}

/// Register values and the zero flag, as the division guards see them.
pub struct Regs {
    pub x: spec_fn(GPR) -> u64,
    pub z: bool,
}

/// Where control goes after some instructions: on to the next one, with the
/// registers as they then are, or to a label.
pub enum Flow {
    Next(Regs),
    Jump(Label),
}

/// A value as an operand of size `sz` sees it.
pub open spec fn width(sz: Size, v: u64) -> u64 {
    if sz == Size::S32 {
        v & 0xffff_ffff
    } else {
        v
    }
}

pub open spec fn read(r: Regs, sz: Size, l: Location) -> u64 {
    match l {
        Location::GPR(g) => if g == GPR::XzrSp {
            0
        } else {
            width(sz, (r.x)(g))
        },
        Location::Imm8(v) => v as u64,
        Location::Imm32(v) => width(sz, v as u64),
        Location::Imm64(v) => width(sz, v),
        _ => 0,
    }
}

pub open spec fn write(r: Regs, g: GPR, v: u64) -> Regs {
    Regs { x: |y: GPR| if y == g { v } else { (r.x)(y) }, ..r }
}

/// One instruction of the forms the division guards use: moves of
/// constants, compare, and the branches; other instructions go on unchanged.
pub open spec fn exec_inst(r: Regs, i: Inst) -> Flow {
    match i {
        Inst::Cbz(sz, l, t) => if read(r, sz, l) == 0 {
            Flow::Jump(t)
        } else {
            Flow::Next(r)
        },
        Inst::Movz(g, imm, sh) => Flow::Next(write(r, g, (imm as u64) << (sh as u64))),
        Inst::Movk(g, imm, sh) => Flow::Next(
            write(r, g, ((r.x)(g) & !(0xffffu64 << (sh as u64))) | ((imm as u64) << (sh as u64))),
        ),
        Inst::Movn(sz, Location::GPR(g), imm) => Flow::Next(write(r, g, width(sz, !(imm as u64)))),
        Inst::Op2(Op2::Cmp, sz, a, b) => Flow::Next(Regs { z: read(r, sz, a) == read(r, sz, b), ..r }),
        Inst::Bcond(Condition::Eq, t) => if r.z {
            Flow::Jump(t)
        } else {
            Flow::Next(r)
        },
        Inst::Bcond(Condition::Ne, t) => if !r.z {
            Flow::Jump(t)
        } else {
            Flow::Next(r)
        },
        _ => Flow::Next(r),
    }
}

/// Running `code` from `r` until it branches away or ends.
pub open spec fn exec_seq(r: Regs, code: Seq<Inst>) -> Flow
    decreases code.len(),
{
    if code.len() == 0 {
        Flow::Next(r)
    } else {
        match exec_seq(r, code.drop_last()) {
            Flow::Next(r1) => exec_inst(r1, code.last()),
            Flow::Jump(t) => Flow::Jump(t),
        }
    }
}

/// The guards of a 32-bit signed division of register operands: a zero
/// divisor branches to `dbz` before any division; otherwise the minimum
/// divided by -1 branches to `ovf`; any other operands reach the `sdiv`,
/// which follows the guards and carries the label `no_ovf`.
pub proof fn law_sdiv32_guards(
    used: Seq<bool>,
    ra: GPR,
    rb: GPR,
    rd: GPR,
    dbz: Label,
    ovf: Label,
    no_ovf: Label,
    r: Regs,
)
    requires
        used.len() == 32,
        free_temp_gprs(used) >= 1,
        ra != first_free_temp_gpr(used)->Some_0,
        rb != first_free_temp_gpr(used)->Some_0,
        ra != GPR::XzrSp,
        rb != GPR::XzrSp,
        dbz != ovf,
        dbz != no_ovf,
        ovf != no_ovf,
    ensures
        ({
            let f = exec_seq(r, sdiv_head(used, Size::S32, Location::GPR(ra), Location::GPR(rb), Location::GPR(rd), dbz, ovf, no_ovf));
            let a = width(Size::S32, (r.x)(ra));
            let b = width(Size::S32, (r.x)(rb));
            &&& b == 0 ==> f == Flow::Jump(dbz)
            &&& (b != 0 && a == 0x8000_0000 && b == 0xffff_ffff) ==> f == Flow::Jump(ovf)
            &&& !(b == 0 || (a == 0x8000_0000 && b == 0xffff_ffff)) ==> (f == Flow::Jump(no_ovf) || f is Next)
        }),
{
    reveal(to_gpr);
    let t = first_free_temp_gpr(used)->Some_0;
    assert((0x8000_0000u64 & 0xffff) == 0 && ((0x8000_0000u64 >> 16u64) & 0xffff) == 0x8000 && ((0x8000_0000u64 >> 32u64) & 0xffff) == 0
        && ((0x8000_0000u64 >> 48u64) & 0xffff) == 0) by (bit_vector);
    assert(mov_imm_seq(t, 0x8000_0000u64) =~= seq![Inst::Movz(t, 0, 0), Inst::Movk(t, 0x8000, 16)]);
    let head = sdiv_head(used, Size::S32, Location::GPR(ra), Location::GPR(rb), Location::GPR(rd), dbz, ovf, no_ovf);
    let ta = Location::GPR(t);
    assert(head =~= seq![
        Inst::Cbz(Size::S32, Location::GPR(rb), dbz),
        Inst::Movz(t, 0, 0),
        Inst::Movk(t, 0x8000, 16),
        Inst::Op2(Op2::Cmp, Size::S32, ta, Location::GPR(ra)),
        Inst::Bcond(Condition::Ne, no_ovf),
        Inst::Movn(Size::S32, ta, 0),
        Inst::Op2(Op2::Cmp, Size::S32, ta, Location::GPR(rb)),
        Inst::Bcond(Condition::Eq, ovf),
    ]);
    assert(((0u64 << 0u64) & !(0xffffu64 << 16u64)) | (0x8000u64 << 16u64) == 0x8000_0000u64) by (bit_vector);
    assert((0x8000_0000u64 & 0xffff_ffffu64) == 0x8000_0000u64) by (bit_vector);
    assert((!(0u64) & 0xffff_ffffu64) == 0xffff_ffffu64) by (bit_vector);
    assert((0xffff_ffffu64 & 0xffff_ffffu64) == 0xffff_ffffu64) by (bit_vector);
    reveal_with_fuel(exec_seq, 9);
}

/// The guards of a 64-bit signed division of register operands, as
/// `law_sdiv32_guards` states them for 32 bits.
pub proof fn law_sdiv64_guards(
    used: Seq<bool>,
    ra: GPR,
    rb: GPR,
    rd: GPR,
    dbz: Label,
    ovf: Label,
    no_ovf: Label,
    r: Regs,
)
    requires
        used.len() == 32,
        free_temp_gprs(used) >= 1,
        ra != first_free_temp_gpr(used)->Some_0,
        rb != first_free_temp_gpr(used)->Some_0,
        ra != GPR::XzrSp,
        rb != GPR::XzrSp,
        dbz != ovf,
        dbz != no_ovf,
        ovf != no_ovf,
    ensures
        ({
            let f = exec_seq(r, sdiv_head(used, Size::S64, Location::GPR(ra), Location::GPR(rb), Location::GPR(rd), dbz, ovf, no_ovf));
            let a = (r.x)(ra);
            let b = (r.x)(rb);
            &&& b == 0 ==> f == Flow::Jump(dbz)
            &&& (b != 0 && a == 0x8000_0000_0000_0000 && b == 0xffff_ffff_ffff_ffff) ==> f == Flow::Jump(ovf)
            &&& !(b == 0 || (a == 0x8000_0000_0000_0000 && b == 0xffff_ffff_ffff_ffff)) ==> (f == Flow::Jump(no_ovf) || f is Next)
        }),
{
    reveal(to_gpr);
    let t = first_free_temp_gpr(used)->Some_0;
    let min: u64 = 0x8000_0000_0000_0000;
    assert((min & 0xffff) == 0 && ((min >> 16u64) & 0xffff) == 0 && ((min >> 32u64) & 0xffff) == 0
        && ((min >> 48u64) & 0xffff) == 0x8000) by (bit_vector)
        requires
            min == 0x8000_0000_0000_0000u64,
    ;
    assert(mov_imm_seq(t, min) =~= seq![Inst::Movz(t, 0, 0), Inst::Movk(t, 0x8000, 48)]);
    let head = sdiv_head(used, Size::S64, Location::GPR(ra), Location::GPR(rb), Location::GPR(rd), dbz, ovf, no_ovf);
    let ta = Location::GPR(t);
    assert(head =~= seq![
        Inst::Cbz(Size::S64, Location::GPR(rb), dbz),
        Inst::Movz(t, 0, 0),
        Inst::Movk(t, 0x8000, 48),
        Inst::Op2(Op2::Cmp, Size::S64, ta, Location::GPR(ra)),
        Inst::Bcond(Condition::Ne, no_ovf),
        Inst::Movn(Size::S64, ta, 0),
        Inst::Op2(Op2::Cmp, Size::S64, ta, Location::GPR(rb)),
        Inst::Bcond(Condition::Eq, ovf),
    ]);
    assert(((0u64 << 0u64) & !(0xffffu64 << 48u64)) | (0x8000u64 << 48u64) == 0x8000_0000_0000_0000u64) by (bit_vector);
    assert(!(0u64) == 0xffff_ffff_ffff_ffffu64) by (bit_vector);
    reveal_with_fuel(exec_seq, 9);
}

} // verus!
