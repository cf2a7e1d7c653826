//! Integer lowerings that need more than one instruction: division and
//! remainder with their checks, population count, rotate left, trailing zeros.

use crate::imm::ImmType;
use crate::inst::{Inst, Op2, Op3};
use crate::kernel::{binop3_code, binop3_ok};
use crate::legalise::{move_code, move_ok, to_gpr, to_gpr_ok, with_temps};
use crate::machine::{first_free_temp_gpr, free_temp_gprs, MachineARM64, MachineView};
use crate::regs::{Condition, GPR, Label, Location, Size, TrapCode};
use vstd::prelude::*;

verus! {

broadcast use {crate::regs::lemma_gpr_idx_range, crate::regs::lemma_simd_idx_range};

/// The most negative value of an operand of size `sz`.
pub open spec fn int_min(sz: Size) -> Location {
    if sz == Size::S32 {
        Location::Imm32(0x8000_0000)
    } else {
        Location::Imm64(0x8000_0000_0000_0000)
    }
}

/// The three operands of a division, legalised in turn.
pub open spec fn div_operands(used: Seq<bool>, sz: Size, a: Location, b: Location, ret: Location) -> (
    crate::legalise::Legal<GPR>,
    crate::legalise::Legal<GPR>,
    crate::legalise::Legal<GPR>,
) {
    let l1 = to_gpr(used, sz, a, ImmType::NoImm, true, None);
    let l2 = to_gpr(l1.used, sz, b, ImmType::NoImm, true, None);
    let l3 = to_gpr(l2.used, sz, ret, ImmType::NoImm, false, None);
    (l1, l2, l3)
}

pub open spec fn div_operands_ok(used: Seq<bool>, sz: Size, a: Location, b: Location, ret: Location) -> bool {
    let (l1, l2, l3) = div_operands(used, sz, a, b, ret);
    &&& to_gpr_ok(used, sz, a, ImmType::NoImm, true, None)
    &&& to_gpr_ok(l1.used, sz, b, ImmType::NoImm, true, None)
    &&& to_gpr_ok(l2.used, sz, ret, ImmType::NoImm, false, None)
}

/// Everything a signed division emits before the `sdiv`: the operands, the
/// branch to `dbz` on a zero divisor, and the branch to `ovf` when the
/// dividend is the minimum and the divisor is -1, which skips to `no_ovf`
/// otherwise.
pub open spec fn sdiv_head(
    used: Seq<bool>,
    sz: Size,
    a: Location,
    b: Location,
    ret: Location,
    dbz: Label,
    ovf: Label,
    no_ovf: Label,
) -> Seq<Inst> {
    let (l1, l2, l3) = div_operands(used, sz, a, b, ret);
    let l4 = to_gpr(l3.used, sz, int_min(sz), ImmType::NoImm, true, None);
    l1.code + l2.code + l3.code + seq![Inst::Cbz(sz, l2.loc, dbz)] + l4.code + seq![
        Inst::Op2(Op2::Cmp, sz, l4.loc, l1.loc),
        Inst::Bcond(Condition::Ne, no_ovf),
        Inst::Movn(sz, l4.loc, 0),
        Inst::Op2(Op2::Cmp, sz, l4.loc, l2.loc),
        Inst::Bcond(Condition::Eq, ovf),
    ]
}

/// The `sdiv` and the write-back of its result.
pub open spec fn sdiv_tail(used: Seq<bool>, sz: Size, a: Location, b: Location, ret: Location) -> Seq<Inst> {
    let (l1, l2, l3) = div_operands(used, sz, a, b, ret);
    let l4 = to_gpr(l3.used, sz, int_min(sz), ImmType::NoImm, true, None);
    seq![Inst::Op3(Op3::Sdiv, sz, l1.loc, l2.loc, l3.loc)] + if ret != l3.loc {
        move_code(l4.used, sz, l3.loc, ret)
    } else {
        seq![]
    }
}

pub open spec fn sdiv_ok(used: Seq<bool>, sz: Size, a: Location, b: Location, ret: Location) -> bool {
    let (l1, l2, l3) = div_operands(used, sz, a, b, ret);
    let l4 = to_gpr(l3.used, sz, int_min(sz), ImmType::NoImm, true, None);
    &&& div_operands_ok(used, sz, a, b, ret)
    &&& to_gpr_ok(l3.used, sz, int_min(sz), ImmType::NoImm, true, None)
    &&& ret != l3.loc ==> move_ok(l4.used, sz, l3.loc, ret)
}

/// The code of an unsigned division: a branch to `dbz` on a zero divisor,
/// then `udiv`.
pub open spec fn udiv_parts(used: Seq<bool>, sz: Size, a: Location, b: Location, ret: Location, dbz: Label) -> (
    Seq<Inst>,
    Seq<Inst>,
) {
    let (l1, l2, l3) = div_operands(used, sz, a, b, ret);
    (
        l1.code + l2.code + l3.code + seq![Inst::Cbz(sz, l2.loc, dbz)],
        seq![Inst::Op3(Op3::Udiv, sz, l1.loc, l2.loc, l3.loc)] + if ret != l3.loc {
            move_code(l3.used, sz, l3.loc, ret)
        } else {
            seq![]
        },
    )
}

pub open spec fn udiv_ok(used: Seq<bool>, sz: Size, a: Location, b: Location, ret: Location) -> bool {
    let (l1, l2, l3) = div_operands(used, sz, a, b, ret);
    &&& div_operands_ok(used, sz, a, b, ret)
    &&& ret != l3.loc ==> move_ok(l3.used, sz, l3.loc, ret)
}

/// Where a remainder is formed: the destination operand, or a temporary when
/// that aliases an operand.
pub open spec fn rem_dest(used: Seq<bool>, sz: Size, a: Location, b: Location, ret: Location) -> (Location, Seq<bool>, Seq<Inst>) {
    let (l1, l2, l3) = div_operands(used, sz, a, b, ret);
    if l3.loc == l1.loc || l3.loc == l2.loc {
        let t = first_free_temp_gpr(l3.used)->Some_0;
        (Location::GPR(t), l3.used.update(t.idx(), true), seq![Inst::Op2(Op2::Mov, sz, l3.loc, Location::GPR(t))])
    } else {
        (l3.loc, l3.used, seq![])
    }
}

/// The code of a remainder `a - (a / b) * b`, with `div` the division
/// instruction used: everything before the division, and the rest.
pub open spec fn rem_parts(
    used: Seq<bool>,
    div: Op3,
    sz: Size,
    a: Location,
    b: Location,
    ret: Location,
    dbz: Label,
) -> (Seq<Inst>, Seq<Inst>) {
    let (l1, l2, l3) = div_operands(used, sz, a, b, ret);
    let (d, u, copy) = rem_dest(used, sz, a, b, ret);
    (
        l1.code + l2.code + l3.code + copy + seq![Inst::Cbz(sz, l2.loc, dbz)],
        seq![Inst::Op3(div, sz, l1.loc, l2.loc, d), Inst::Msub(sz, d, l2.loc, l1.loc, d)] + if ret != d {
            move_code(u, sz, d, ret)
        } else {
            seq![]
        },
    )
}

pub open spec fn rem_ok(used: Seq<bool>, sz: Size, a: Location, b: Location, ret: Location) -> bool {
    let (l1, l2, l3) = div_operands(used, sz, a, b, ret);
    let (d, u, copy) = rem_dest(used, sz, a, b, ret);
    &&& div_operands_ok(used, sz, a, b, ret)
    &&& (l3.loc == l1.loc || l3.loc == l2.loc) ==> free_temp_gprs(l3.used) >= 1
    &&& ret != d ==> move_ok(u, sz, d, ret)
}

/// The state after a division: `code` appended, with a trap code recorded
/// at `offset`.
pub open spec fn after_div(m: MachineView, code: Seq<Inst>, offset: int) -> MachineView {
    MachineView { code: m.code + code, traps: m.traps.insert(offset, TrapCode::IntegerOverflow), ..m }
}

/// Where `popcnt` counts: a copy of the source in a temporary when the source
/// was already a register (the loop destroys it), else the register it was
/// loaded into.
pub open spec fn popcnt_src(used: Seq<bool>, sz: Size, loc: Location, ret: Location) -> (Location, Seq<bool>, Seq<Inst>) {
    let l1 = to_gpr(used, sz, loc, ImmType::NoImm, true, None);
    let l2 = to_gpr(l1.used, sz, ret, ImmType::NoImm, false, None);
    if l1.loc == loc {
        let t = first_free_temp_gpr(l2.used)->Some_0;
        (Location::GPR(t), l2.used.update(t.idx(), true), seq![Inst::Op2(Op2::Mov, sz, l1.loc, Location::GPR(t))])
    } else {
        (l1.loc, l2.used, seq![])
    }
}

/// The code of `popcnt`: what precedes the loop label, the loop body, and
/// what follows the exit label.
pub open spec fn popcnt_parts(used: Seq<bool>, sz: Size, loc: Location, ret: Location, lp: Label, exit: Label) -> (
    Seq<Inst>,
    Seq<Inst>,
    Seq<Inst>,
) {
    let l1 = to_gpr(used, sz, loc, ImmType::NoImm, true, None);
    let l2 = to_gpr(l1.used, sz, ret, ImmType::NoImm, false, None);
    let (src, u3, copy) = popcnt_src(used, sz, loc, ret);
    let tmp = Location::GPR(first_free_temp_gpr(u3)->Some_0);
    let dest = l2.loc;
    (
        l1.code + l2.code + copy + seq![
            Inst::Op2(Op2::Mov, Size::S32, Location::GPR(GPR::XzrSp), dest),
            Inst::Cbz(sz, src, exit),
        ],
        seq![
            Inst::Op3(Op3::Add, Size::S32, dest, Location::Imm8(1), dest),
            Inst::Op2(Op2::Clz, sz, src, tmp),
            Inst::Op3(Op3::Add, Size::S32, tmp, Location::Imm8(1), tmp),
            Inst::Op3(Op3::Lsl, sz, src, tmp, src),
            Inst::Cbnz(sz, src, lp),
        ],
        if ret != dest {
            move_code(u3.update(tmp->GPR_0.idx(), true), sz, dest, ret)
        } else {
            seq![]
        },
    )
}

pub open spec fn popcnt_ok(used: Seq<bool>, sz: Size, loc: Location, ret: Location) -> bool {
    let l1 = to_gpr(used, sz, loc, ImmType::NoImm, true, None);
    let l2 = to_gpr(l1.used, sz, ret, ImmType::NoImm, false, None);
    let (src, u3, copy) = popcnt_src(used, sz, loc, ret);
    let t = first_free_temp_gpr(u3)->Some_0;
    &&& to_gpr_ok(used, sz, loc, ImmType::NoImm, true, None)
    &&& to_gpr_ok(l1.used, sz, ret, ImmType::NoImm, false, None)
    &&& l1.loc == loc ==> free_temp_gprs(l2.used) >= 1
    &&& free_temp_gprs(u3) >= 1
    &&& ret != l2.loc ==> move_ok(u3.update(t.idx(), true), sz, l2.loc, ret)
}

/// The rotate-right amount that rotates left by `b`: `width - (b mod width)`
/// for an immediate, else computed into a register.
pub open spec fn rol_amount(used: Seq<bool>, sz: Size, b: Location) -> (Location, Seq<Inst>, Seq<bool>) {
    let w: int = if sz == Size::S32 { 32 } else { 64 };
    match b {
        Location::Imm8(imm) => (Location::Imm8((w - (imm as int % w)) as u8), seq![], used),
        Location::Imm32(imm) => (Location::Imm8((w - (imm as int % w)) as u8), seq![], used),
        Location::Imm64(imm) => (Location::Imm8((w - (imm as int % w)) as u8), seq![], used),
        _ => {
            let l1 = to_gpr(used, sz, Location::Imm32(w as u32), ImmType::NoImm, true, None);
            let l2 = to_gpr(l1.used, sz, b, ImmType::NoImm, true, None);
            (l1.loc, l1.code + l2.code + seq![Inst::Op3(Op3::Sub, sz, l1.loc, l2.loc, l1.loc)], l2.used)
        },
    }
}

pub open spec fn shift_imm(sz: Size) -> ImmType {
    if sz == Size::S32 {
        ImmType::Shift32No0
    } else {
        ImmType::Shift64No0
    }
}

pub open spec fn rol_code(used: Seq<bool>, sz: Size, a: Location, b: Location, ret: Location) -> Seq<Inst> {
    let (amt, code, u) = rol_amount(used, sz, b);
    code + binop3_code(u, Op3::Ror, sz, a, amt, ret, shift_imm(sz))
}

pub open spec fn rol_ok(used: Seq<bool>, sz: Size, a: Location, b: Location, ret: Location) -> bool {
    let w: int = if sz == Size::S32 { 32 } else { 64 };
    let (amt, code, u) = rol_amount(used, sz, b);
    let l1 = to_gpr(used, sz, Location::Imm32(w as u32), ImmType::NoImm, true, None);
    &&& !b.is_imm() ==> to_gpr_ok(used, sz, Location::Imm32(w as u32), ImmType::NoImm, true, None)
        && to_gpr_ok(l1.used, sz, b, ImmType::NoImm, true, None)
    &&& binop3_ok(u, sz, a, amt, ret, shift_imm(sz))
}

/// The code of a count of trailing zeros: bit reversal, then a count of
/// leading zeros.
pub open spec fn ctz_code(used: Seq<bool>, sz: Size, src: Location, dst: Location) -> Seq<Inst> {
    let l1 = to_gpr(used, sz, src, ImmType::NoImm, true, None);
    let l2 = to_gpr(l1.used, sz, dst, ImmType::NoImm, false, None);
    l1.code + l2.code + seq![Inst::Op2(Op2::Rbit, sz, l1.loc, l2.loc), Inst::Op2(Op2::Clz, sz, l2.loc, l2.loc)]
        + if dst != l2.loc {
        move_code(l2.used, sz, l2.loc, dst)
    } else {
        seq![]
    }
}

pub open spec fn ctz_ok(used: Seq<bool>, sz: Size, src: Location, dst: Location) -> bool {
    let l1 = to_gpr(used, sz, src, ImmType::NoImm, true, None);
    let l2 = to_gpr(l1.used, sz, dst, ImmType::NoImm, false, None);
    &&& to_gpr_ok(used, sz, src, ImmType::NoImm, true, None)
    &&& to_gpr_ok(l1.used, sz, dst, ImmType::NoImm, false, None)
    &&& dst != l2.loc ==> move_ok(l2.used, sz, l2.loc, dst)
}

pub proof fn lemma_mask8(x: u8)
    ensures
        (x & 31) as int == x as int % 32,
        (x & 63) as int == x as int % 64,
{
    assert(x & 31 == x % 32) by (bit_vector);
    assert(x & 63 == x % 64) by (bit_vector);
}

pub proof fn lemma_mask32(x: u32)
    ensures
        (x & 31) as int == x as int % 32,
        (x & 63) as int == x as int % 64,
{
    assert(x & 31 == x % 32) by (bit_vector);
    assert(x & 63 == x % 64) by (bit_vector);
}

pub proof fn lemma_mask64(x: u64)
    ensures
        (x & 31) as int == x as int % 32,
        (x & 63) as int == x as int % 64,
{
    assert(x & 31 == x % 32) by (bit_vector);
    assert(x & 63 == x % 64) by (bit_vector);
}

impl MachineARM64 {
    fn div_operands_exec(
        &mut self,
        sz: Size,
        a: Location,
        b: Location,
        ret: Location,
        temps: &mut Vec<GPR>,
        Ghost(base): Ghost<Seq<bool>>,
    ) -> (r: (Location, Location, Location))
        requires
            old(self).wf(),
            old(self)@.room(15),
            div_operands_ok(old(self)@.used_gprs, sz, a, b, ret),
            base.len() == 32,
            old(self)@.used_gprs == with_temps(base, old(temps)@),
            crate::legalise::temps_fresh(base, old(temps)@),
        ensures
            final(self).wf(),
            ({
                let (l1, l2, l3) = div_operands(old(self)@.used_gprs, sz, a, b, ret);
                &&& r == (l1.loc, l2.loc, l3.loc)
                &&& final(self)@ == old(self)@.emitted(l1.code + l2.code + l3.code, l3.used)
                &&& l1.code.len() + l2.code.len() + l3.code.len() <= 15
            }),
            final(self)@.used_gprs == with_temps(base, final(temps)@),
            crate::legalise::temps_fresh(base, final(temps)@),
    {
        let s1 = self.to_reg(sz, a, temps, ImmType::NoImm, true, Ghost(base));
        let s2 = self.to_reg(sz, b, temps, ImmType::NoImm, true, Ghost(base));
        let d = self.to_reg(sz, ret, temps, ImmType::NoImm, false, Ghost(base));
        let ghost (l1, l2, l3) = div_operands(old(self)@.used_gprs, sz, a, b, ret);
        assert(self@ =~= old(self)@.emitted(l1.code + l2.code + l3.code, l3.used));
        (s1, s2, d)
    }

    /// Signed division `ret = a / b` of size `sz`: branches to
    /// `integer_division_by_zero` on a zero divisor and to `integer_overflow`
    /// on the minimum divided by -1, then divides; returns the offset of the
    /// `sdiv`, which is recorded with `IntegerOverflow`.
    pub fn emit_binop_sdiv(
        &mut self,
        sz: Size,
        loc_a: Location,
        loc_b: Location,
        ret: Location,
        integer_division_by_zero: Label,
        integer_overflow: Label,
    ) -> (offset: usize)
        requires
            old(self).wf(),
            old(self)@.room(40),
            sz == Size::S32 || sz == Size::S64,
            sdiv_ok(old(self)@.used_gprs, sz, loc_a, loc_b, ret),
        ensures
            final(self).wf(),
            ({
                let no_ovf = Label { id: old(self)@.labels.len() as usize };
                let head = sdiv_head(old(self)@.used_gprs, sz, loc_a, loc_b, ret, integer_division_by_zero, integer_overflow, no_ovf);
                let tail = sdiv_tail(old(self)@.used_gprs, sz, loc_a, loc_b, ret);
                &&& offset == 4 * (old(self)@.code.len() + head.len())
                &&& final(self)@ == (MachineView {
                    labels: old(self)@.labels.push(Some(offset)),
                    ..after_div(old(self)@, head + tail, offset as int)
                })
            }),
    {
        let ghost base = self@.used_gprs;
        let mut temps: Vec<GPR> = Vec::new();
        let (src1, src2, dest) = self.div_operands_exec(sz, loc_a, loc_b, ret, &mut temps, Ghost(base));
        self.emit(Inst::Cbz(sz, src2, integer_division_by_zero));
        let label_nooverflow = self.get_label();
        let min = if sz == Size::S32 {
            Location::Imm32(0x8000_0000)
        } else {
            Location::Imm64(0x8000_0000_0000_0000)
        };
        let tmp = self.to_reg(sz, min, &mut temps, ImmType::NoImm, true, Ghost(base));
        self.emit(Inst::Op2(Op2::Cmp, sz, tmp, src1));
        self.emit(Inst::Bcond(Condition::Ne, label_nooverflow));
        self.emit(Inst::Movn(sz, tmp, 0));
        self.emit(Inst::Op2(Op2::Cmp, sz, tmp, src2));
        self.emit(Inst::Bcond(Condition::Eq, integer_overflow));
        let offset = self.mark_instruction_with_trap_code(TrapCode::IntegerOverflow);
        self.emit_label(label_nooverflow);
        let ghost mid = self@.code;
        self.emit(Inst::Op3(Op3::Sdiv, sz, src1, src2, dest));
        if ret != dest {
            self.move_location(sz, dest, ret);
        }
        self.release_temps(temps, Ghost(base));
        proof {
            let no_ovf = Label { id: old(self)@.labels.len() as usize };
            let head = sdiv_head(base, sz, loc_a, loc_b, ret, integer_division_by_zero, integer_overflow, no_ovf);
            let tail = sdiv_tail(base, sz, loc_a, loc_b, ret);
            assert(mid =~= old(self)@.code + head);
            assert(self@.code =~= old(self)@.code + (head + tail));
            assert(self@ =~= (MachineView {
                labels: old(self)@.labels.push(Some(offset)),
                ..after_div(old(self)@, head + tail, offset as int)
            }));
        }
        offset
    }

    /// Unsigned division `ret = a / b` of size `sz`: branches to
    /// `integer_division_by_zero` on a zero divisor, then divides; returns
    /// the offset of the `udiv`, recorded with `IntegerOverflow`.
    pub fn emit_binop_udiv(
        &mut self,
        sz: Size,
        loc_a: Location,
        loc_b: Location,
        ret: Location,
        integer_division_by_zero: Label,
    ) -> (offset: usize)
        requires
            old(self).wf(),
            old(self)@.room(32),
            udiv_ok(old(self)@.used_gprs, sz, loc_a, loc_b, ret),
        ensures
            final(self).wf(),
            ({
                let (head, tail) = udiv_parts(old(self)@.used_gprs, sz, loc_a, loc_b, ret, integer_division_by_zero);
                &&& offset == 4 * (old(self)@.code.len() + head.len())
                &&& final(self)@ == after_div(old(self)@, head + tail, offset as int)
            }),
    {
        let ghost base = self@.used_gprs;
        let mut temps: Vec<GPR> = Vec::new();
        let (src1, src2, dest) = self.div_operands_exec(sz, loc_a, loc_b, ret, &mut temps, Ghost(base));
        self.emit(Inst::Cbz(sz, src2, integer_division_by_zero));
        let offset = self.mark_instruction_with_trap_code(TrapCode::IntegerOverflow);
        self.emit(Inst::Op3(Op3::Udiv, sz, src1, src2, dest));
        if ret != dest {
            self.move_location(sz, dest, ret);
        }
        self.release_temps(temps, Ghost(base));
        proof {
            let (head, tail) = udiv_parts(base, sz, loc_a, loc_b, ret, integer_division_by_zero);
            assert(self@.code =~= old(self)@.code + (head + tail));
            assert(self@ =~= after_div(old(self)@, head + tail, offset as int));
        }
        offset
    }

    /// Remainder `ret = a - (a / b) * b` of size `sz`, with `div` the signed
    /// or unsigned division: branches to `integer_division_by_zero` on a zero
    /// divisor; returns the offset of the division, recorded with
    /// `IntegerOverflow`.
    pub fn emit_binop_rem(
        &mut self,
        div: Op3,
        sz: Size,
        loc_a: Location,
        loc_b: Location,
        ret: Location,
        integer_division_by_zero: Label,
    ) -> (offset: usize)
        requires
            old(self).wf(),
            old(self)@.room(40),
            rem_ok(old(self)@.used_gprs, sz, loc_a, loc_b, ret),
        ensures
            final(self).wf(),
            ({
                let (head, tail) = rem_parts(old(self)@.used_gprs, div, sz, loc_a, loc_b, ret, integer_division_by_zero);
                &&& offset == 4 * (old(self)@.code.len() + head.len())
                &&& final(self)@ == after_div(old(self)@, head + tail, offset as int)
            }),
    {
        let ghost base = self@.used_gprs;
        let mut temps: Vec<GPR> = Vec::new();
        let (src1, src2, dest) = self.div_operands_exec(sz, loc_a, loc_b, ret, &mut temps, Ghost(base));
        let dest = if dest == src1 || dest == src2 {
            let tmp = self.acquire_temp(&mut temps, Ghost(base));
            self.emit(Inst::Op2(Op2::Mov, sz, dest, Location::GPR(tmp)));
            Location::GPR(tmp)
        } else {
            dest
        };
        self.emit(Inst::Cbz(sz, src2, integer_division_by_zero));
        let offset = self.mark_instruction_with_trap_code(TrapCode::IntegerOverflow);
        self.emit(Inst::Op3(div, sz, src1, src2, dest));
        self.emit(Inst::Msub(sz, dest, src2, src1, dest));
        if ret != dest {
            self.move_location(sz, dest, ret);
        }
        self.release_temps(temps, Ghost(base));
        proof {
            let (head, tail) = rem_parts(base, div, sz, loc_a, loc_b, ret, integer_division_by_zero);
            assert(self@.code =~= old(self)@.code + (head + tail));
            assert(self@ =~= after_div(old(self)@, head + tail, offset as int));
        }
        offset
    }
    /// Counts the set bits of `loc` into `ret` with a loop that, while the
    /// value is not zero, adds one and shifts out the leading one.
    #[verifier::rlimit(100)]
    pub fn emit_popcnt(&mut self, sz: Size, loc: Location, ret: Location)
        requires
            old(self).wf(),
            old(self)@.room(40),
            popcnt_ok(old(self)@.used_gprs, sz, loc, ret),
        ensures
            final(self).wf(),
            ({
                let n = old(self)@.labels.len();
                let lp = Label { id: n as usize };
                let exit = Label { id: (n + 1) as usize };
                let (head, body, tail) = popcnt_parts(old(self)@.used_gprs, sz, loc, ret, lp, exit);
                let at_loop = 4 * (old(self)@.code.len() + head.len());
                let at_exit = at_loop + 4 * body.len();
                final(self)@ == (MachineView {
                    labels: old(self)@.labels.push(Some(at_loop as usize)).push(Some(at_exit as usize)),
                    ..old(self)@.with_code(head + body + tail)
                })
            }),
    {
        let ghost base = self@.used_gprs;
        let mut temps: Vec<GPR> = Vec::new();
        let src0 = self.to_reg(sz, loc, &mut temps, ImmType::NoImm, true, Ghost(base));
        let dest = self.to_reg(sz, ret, &mut temps, ImmType::NoImm, false, Ghost(base));
        let src = if src0 == loc {
            let t = self.acquire_temp(&mut temps, Ghost(base));
            self.emit(Inst::Op2(Op2::Mov, sz, src0, Location::GPR(t)));
            Location::GPR(t)
        } else {
            src0
        };
        let t2 = self.acquire_temp(&mut temps, Ghost(base));
        let tmp = Location::GPR(t2);
        proof {
            let (src_s, u3, copy) = popcnt_src(base, sz, loc, ret);
            let l1 = to_gpr(base, sz, loc, ImmType::NoImm, true, None);
            let l2 = to_gpr(l1.used, sz, ret, ImmType::NoImm, false, None);
            assert(src == src_s && dest == l2.loc);
            assert(t2 == first_free_temp_gpr(u3)->Some_0);
            assert(self@.code =~= old(self)@.code + (l1.code + l2.code + copy));
        }
        let label_loop = self.get_label();
        let label_exit = self.get_label();
        self.emit(Inst::Op2(Op2::Mov, Size::S32, Location::GPR(GPR::XzrSp), dest));
        self.emit(Inst::Cbz(sz, src, label_exit));
        let ghost c_head = self@.code;
        self.emit_label(label_loop);
        self.emit(Inst::Op3(Op3::Add, Size::S32, dest, Location::Imm8(1), dest));
        self.emit(Inst::Op2(Op2::Clz, sz, src, tmp));
        self.emit(Inst::Op3(Op3::Add, Size::S32, tmp, Location::Imm8(1), tmp));
        self.emit(Inst::Op3(Op3::Lsl, sz, src, tmp, src));
        self.emit(Inst::Cbnz(sz, src, label_loop));
        self.emit_label(label_exit);
        if ret != dest {
            self.move_location(sz, dest, ret);
        }
        self.release_temps(temps, Ghost(base));
        proof {
            let n = old(self)@.labels.len();
            let lp = Label { id: n as usize };
            let exit = Label { id: (n + 1) as usize };
            let (head, body, tail) = popcnt_parts(base, sz, loc, ret, lp, exit);
            assert(c_head =~= old(self)@.code + head);
            assert(self@.code =~= old(self)@.code + (head + body + tail));
            let at_loop = 4 * (old(self)@.code.len() + head.len());
            let at_exit = at_loop + 4 * body.len();
            assert(self@.labels =~= old(self)@.labels.push(Some(at_loop as usize)).push(Some(at_exit as usize)));
            assert(self@ =~= (MachineView {
                labels: old(self)@.labels.push(Some(at_loop as usize)).push(Some(at_exit as usize)),
                ..old(self)@.with_code(head + body + tail)
            }));
        }
    }

    /// Rotates `a` left by `b` into `ret`, as a rotate right by the width
    /// minus the amount.
    pub fn emit_rol(&mut self, sz: Size, loc_a: Location, loc_b: Location, ret: Location)
        requires
            old(self).wf(),
            old(self)@.room(48),
            sz == Size::S32 || sz == Size::S64,
            rol_ok(old(self)@.used_gprs, sz, loc_a, loc_b, ret),
        ensures
            final(self).wf(),
            final(self)@ == old(self)@.with_code(rol_code(old(self)@.used_gprs, sz, loc_a, loc_b, ret)),
    {
        let ghost base = self@.used_gprs;
        let mut temps: Vec<GPR> = Vec::new();
        let is32 = sz == Size::S32;
        proof {
            match loc_b {
                Location::Imm8(imm) => lemma_mask8(imm),
                Location::Imm32(imm) => lemma_mask32(imm),
                Location::Imm64(imm) => lemma_mask64(imm),
                _ => {},
            }
        }
        let src2 = match loc_b {
            Location::Imm8(imm) => if is32 {
                Location::Imm8(32 - (imm & 31))
            } else {
                Location::Imm8(64 - (imm & 63))
            },
            Location::Imm32(imm) => if is32 {
                Location::Imm8(32 - (imm & 31) as u8)
            } else {
                Location::Imm8(64 - (imm & 63) as u8)
            },
            Location::Imm64(imm) => if is32 {
                Location::Imm8(32 - (imm & 31) as u8)
            } else {
                Location::Imm8(64 - (imm & 63) as u8)
            },
            _ => {
                let w: u32 = if is32 { 32 } else { 64 };
                let tmp1 = self.to_reg(sz, Location::Imm32(w), &mut temps, ImmType::NoImm, true, Ghost(base));
                let tmp2 = self.to_reg(sz, loc_b, &mut temps, ImmType::NoImm, true, Ghost(base));
                self.emit(Inst::Op3(Op3::Sub, sz, tmp1, tmp2, tmp1));
                tmp1
            },
        };
        let kind = if is32 {
            ImmType::Shift32No0
        } else {
            ImmType::Shift64No0
        };
        self.emit_relaxed_binop3(Op3::Ror, sz, loc_a, src2, ret, kind);
        self.release_temps(temps, Ghost(base));
        assert(self@ =~= old(self)@.with_code(rol_code(base, sz, loc_a, loc_b, ret)));
    }

    /// Counts the trailing zeros of `src` into `dst`.
    pub fn emit_ctz(&mut self, sz: Size, src: Location, dst: Location)
        requires
            old(self).wf(),
            old(self)@.room(24),
            ctz_ok(old(self)@.used_gprs, sz, src, dst),
        ensures
            final(self).wf(),
            final(self)@ == old(self)@.with_code(ctz_code(old(self)@.used_gprs, sz, src, dst)),
    {
        let ghost base = self@.used_gprs;
        let mut temps: Vec<GPR> = Vec::new();
        let s = self.to_reg(sz, src, &mut temps, ImmType::NoImm, true, Ghost(base));
        let dest = self.to_reg(sz, dst, &mut temps, ImmType::NoImm, false, Ghost(base));
        self.emit(Inst::Op2(Op2::Rbit, sz, s, dest));
        self.emit(Inst::Op2(Op2::Clz, sz, dest, dest));
        if dst != dest {
            self.move_location(sz, dest, dst);
        }
        self.release_temps(temps, Ghost(base));
        assert(self@ =~= old(self)@.with_code(ctz_code(base, sz, src, dst)));
    }
}

} // verus!
