//! The integer operators and control-flow emitters, one method each.

use crate::imm::ImmType;
use crate::inst::{Inst, Op2, Op3};
use crate::kernel::{binop3_code, binop3_ok, binop_code, binop_ok, cmp_dynamic_code, cmp_dynamic_ok};
use crate::machine::{first_free_temp_gpr, free_temp_gprs, MachineARM64, MachineView};
use crate::legalise::{move_code, move_ok, to_gpr, to_gpr_ok};
use crate::kernel::{relaxed_load_code, relaxed_load_ok, AccessForm};
use crate::ops::{
    after_div, ctz_code, ctz_ok, popcnt_ok, popcnt_parts, rem_ok, rem_parts, rol_code, rol_ok, sdiv_head, sdiv_ok,
    sdiv_tail, udiv_ok, udiv_parts,
};
use crate::regs::{Condition, GPR, Label, Location, Size};
use vstd::prelude::*;

verus! {

broadcast use {crate::regs::lemma_gpr_idx_range, crate::regs::lemma_simd_idx_range};

/// The code of `location_add` / `location_sub`: `dest = dest op source`,
/// with `source` possibly a 12-bit immediate, written back to `dest`.
pub open spec fn location_arith_code(used: Seq<bool>, op: Op3, size: Size, source: Location, dest: Location) -> Seq<Inst> {
    let l1 = to_gpr(used, size, source, ImmType::Bits12, true, None);
    let l2 = to_gpr(l1.used, size, dest, ImmType::NoImm, true, None);
    l1.code + l2.code + seq![Inst::Op3(op, size, l2.loc, l1.loc, l2.loc)] + if l2.loc != dest {
        move_code(l2.used, size, l2.loc, dest)
    } else {
        seq![]
    }
}

pub open spec fn location_arith_ok(used: Seq<bool>, size: Size, source: Location, dest: Location) -> bool {
    let l1 = to_gpr(used, size, source, ImmType::Bits12, true, None);
    let l2 = to_gpr(l1.used, size, dest, ImmType::NoImm, true, None);
    &&& to_gpr_ok(used, size, source, ImmType::Bits12, true, None)
    &&& to_gpr_ok(l1.used, size, dest, ImmType::NoImm, true, None)
    &&& l2.loc != dest ==> move_ok(l2.used, size, l2.loc, dest)
}

/// The sign-extending instruction from an operand of size `sz_src`.
pub open spec fn sext_op(sz_src: Size) -> Op2 {
    if sz_src == Size::S8 {
        Op2::Sxtb
    } else if sz_src == Size::S16 {
        Op2::Sxth
    } else {
        Op2::Sxtw
    }
}

/// The load kind that sign-extends from memory of size `sz_src`.
pub open spec fn sext_load(sz_src: Size, sz_dst: Size) -> (crate::inst::LoadKind, AccessForm) {
    if sz_src == Size::S8 {
        (crate::inst::LoadKind::Ldrsb, AccessForm { opsz: sz_dst, scaled: ImmType::OffsetByte, unscaled: false })
    } else if sz_src == Size::S16 {
        (crate::inst::LoadKind::Ldrsh, AccessForm { opsz: sz_dst, scaled: ImmType::OffsetHWord, unscaled: false })
    } else {
        (crate::inst::LoadKind::Ldrsw, AccessForm { opsz: Size::S64, scaled: ImmType::OffsetWord, unscaled: false })
    }
}

/// The code of `emit_relaxed_sign_extension`.
pub open spec fn sext_code(used: Seq<bool>, sz_src: Size, src: Location, sz_dst: Size, dst: Location) -> Seq<Inst> {
    if src is Memory && dst is GPR {
        relaxed_load_code(used, sext_load(sz_src, sz_dst).0, sext_load(sz_src, sz_dst).1, sz_dst, dst, src)
    } else {
        let l1 = to_gpr(used, sz_dst, src, ImmType::NoImm, true, None);
        let l2 = to_gpr(l1.used, sz_dst, dst, ImmType::NoImm, false, None);
        l1.code + l2.code + seq![Inst::Op2(sext_op(sz_src), sz_dst, l1.loc, l2.loc)] + if dst != l2.loc {
            move_code(l2.used, sz_dst, l2.loc, dst)
        } else {
            seq![]
        }
    }
}

pub open spec fn sext_ok(used: Seq<bool>, sz_src: Size, src: Location, sz_dst: Size, dst: Location) -> bool {
    &&& sz_src != Size::S64
    &&& if src is Memory && dst is GPR {
        relaxed_load_ok(used, sext_load(sz_src, sz_dst).1, sz_dst, dst, src)
    } else {
        let l1 = to_gpr(used, sz_dst, src, ImmType::NoImm, true, None);
        let l2 = to_gpr(l1.used, sz_dst, dst, ImmType::NoImm, false, None);
        &&& to_gpr_ok(used, sz_dst, src, ImmType::NoImm, true, None)
        &&& to_gpr_ok(l1.used, sz_dst, dst, ImmType::NoImm, false, None)
        &&& dst != l2.loc ==> move_ok(l2.used, sz_dst, l2.loc, dst)
    }
}

impl MachineARM64 {
    fn location_arith(&mut self, op: Op3, size: Size, source: Location, dest: Location)
        requires
            old(self).wf(),
            old(self)@.room(24),
            location_arith_ok(old(self)@.used_gprs, size, source, dest),
        ensures
            final(self).wf(),
            final(self)@ == old(self)@.with_code(location_arith_code(old(self)@.used_gprs, op, size, source, dest)),
    {
        let ghost base = self@.used_gprs;
        let mut temps: Vec<GPR> = Vec::new();
        let src = self.to_reg(size, source, &mut temps, ImmType::Bits12, true, Ghost(base));
        let dst = self.to_reg(size, dest, &mut temps, ImmType::NoImm, true, Ghost(base));
        self.emit(Inst::Op3(op, size, dst, src, dst));
        if dst != dest {
            self.move_location(size, dst, dest);
        }
        self.release_temps(temps, Ghost(base));
        assert(self@ =~= old(self)@.with_code(location_arith_code(base, op, size, source, dest)));
    }

    /// `dest = dest + source`, setting the flags when `flags` is set.
    pub fn location_add(&mut self, size: Size, source: Location, dest: Location, flags: bool)
        requires
            old(self).wf(),
            old(self)@.room(24),
            location_arith_ok(old(self)@.used_gprs, size, source, dest),
        ensures
            final(self).wf(),
            final(self)@ == old(self)@.with_code(
                location_arith_code(old(self)@.used_gprs, if flags { Op3::Adds } else { Op3::Add }, size, source, dest),
            ),
    {
        let op = if flags {
            Op3::Adds
        } else {
            Op3::Add
        };
        self.location_arith(op, size, source, dest);
    }

    /// `dest = dest - source`, setting the flags when `flags` is set.
    pub fn location_sub(&mut self, size: Size, source: Location, dest: Location, flags: bool)
        requires
            old(self).wf(),
            old(self)@.room(24),
            location_arith_ok(old(self)@.used_gprs, size, source, dest),
        ensures
            final(self).wf(),
            final(self)@ == old(self)@.with_code(
                location_arith_code(old(self)@.used_gprs, if flags { Op3::Subs } else { Op3::Sub }, size, source, dest),
            ),
    {
        let op = if flags {
            Op3::Subs
        } else {
            Op3::Sub
        };
        self.location_arith(op, size, source, dest);
    }

    /// Sign-extends `src` of size `sz_src` into `dst` of size `sz_dst`: a
    /// sign-extending load from memory into a register, else a sign-extend
    /// instruction between registers.
    pub fn emit_relaxed_sign_extension(&mut self, sz_src: Size, src: Location, sz_dst: Size, dst: Location)
        requires
            old(self).wf(),
            old(self)@.room(24),
            sext_ok(old(self)@.used_gprs, sz_src, src, sz_dst, dst),
        ensures
            final(self).wf(),
            final(self)@ == old(self)@.with_code(sext_code(old(self)@.used_gprs, sz_src, src, sz_dst, dst)),
    {
        if matches!(src, Location::Memory(_, _)) && matches!(dst, Location::GPR(_)) {
            match sz_src {
                Size::S8 => self.emit_relaxed_ldr8s(sz_dst, dst, src),
                Size::S16 => self.emit_relaxed_ldr16s(sz_dst, dst, src),
                _ => self.emit_relaxed_ldr32s(sz_dst, dst, src),
            }
        } else {
            let ghost base = self@.used_gprs;
            let mut temps: Vec<GPR> = Vec::new();
            let s = self.to_reg(sz_dst, src, &mut temps, ImmType::NoImm, true, Ghost(base));
            let dest = self.to_reg(sz_dst, dst, &mut temps, ImmType::NoImm, false, Ghost(base));
            let op = match sz_src {
                Size::S8 => Op2::Sxtb,
                Size::S16 => Op2::Sxth,
                _ => Op2::Sxtw,
            };
            self.emit(Inst::Op2(op, sz_dst, s, dest));
            if dst != dest {
                self.move_location(sz_dst, dest, dst);
            }
            self.release_temps(temps, Ghost(base));
            assert(self@ =~= old(self)@.with_code(sext_code(base, sz_src, src, sz_dst, dst)));
        }
    }

    /// Pushes an argument for a native call; a 64-bit immediate goes through
    /// `X17`.
    pub fn push_location_for_native(&mut self, loc: Location)
        requires
            old(self).wf(),
            old(self)@.room(12),
            loc is Imm64 || crate::frame::push_any_ok(old(self)@.used_gprs, loc),
        ensures
            final(self).wf(),
            final(self)@ == old(self)@.with_pushed(
                if loc is Imm64 {
                    crate::inst::mov_imm_seq(GPR::X17, loc->Imm64_0) + crate::frame::push_code(
                        old(self)@.pushed,
                        Location::GPR(GPR::X17),
                    )
                } else {
                    crate::frame::push_any_code(old(self)@.used_gprs, old(self)@.pushed, loc)
                },
                !old(self)@.pushed,
            ),
    {
        match loc {
            Location::Imm64(v) => {
                proof { crate::inst::lemma_mov_imm_len(GPR::X17, v); }
                self.emit_mov_imm(GPR::X17, v);
                self.emit_push(Size::S64, Location::GPR(GPR::X17));
                assert(self@.code =~= old(self)@.code + (crate::inst::mov_imm_seq(GPR::X17, v) + crate::frame::push_code(
                    old(self)@.pushed,
                    Location::GPR(GPR::X17),
                )));
            },
            _ => self.emit_push(Size::S64, loc),
        }
    }

    /// Pops the 8-byte value on top of the stack into the register `location`.
    pub fn pop_location(&mut self, location: Location)
        requires
            old(self).wf(),
            old(self)@.room(2),
            location.is_reg(),
        ensures
            final(self).wf(),
            final(self)@ == old(self)@.with_pushed(
                crate::frame::pop_code(old(self)@.pushed, location),
                !old(self)@.pushed,
            ),
    {
        self.emit_pop(Size::S64, location);
    }

    /// The register-file index of a general-purpose register.
    pub fn index_from_gpr(&self, x: GPR) -> (r: usize)
        ensures
            r == x.idx(),
    {
        x.index()
    }

    /// The register-file index of a NEON register, after the 32
    /// general-purpose ones.
    pub fn index_from_simd(&self, x: crate::regs::NEON) -> (r: usize)
        ensures
            r == x.idx() + 32,
    {
        x.index() + 32
    }
    /// `ret = a + b` on 32 bits; `b` may be a 12-bit immediate.
    pub fn emit_binop_add32(&mut self, loc_a: Location, loc_b: Location, ret: Location)
        requires
            old(self).wf(),
            old(self)@.room(32),
            binop3_ok(old(self)@.used_gprs, Size::S32, loc_a, loc_b, ret, ImmType::Bits12),
        ensures
            final(self).wf(),
            final(self)@ == old(self)@.with_code(
                binop3_code(old(self)@.used_gprs, Op3::Add, Size::S32, loc_a, loc_b, ret, ImmType::Bits12),
            ),
    {
        self.emit_relaxed_binop3(Op3::Add, Size::S32, loc_a, loc_b, ret, ImmType::Bits12);
    }

    /// `ret = a - b` on 32 bits; `b` may be a 12-bit immediate.
    pub fn emit_binop_sub32(&mut self, loc_a: Location, loc_b: Location, ret: Location)
        requires
            old(self).wf(),
            old(self)@.room(32),
            binop3_ok(old(self)@.used_gprs, Size::S32, loc_a, loc_b, ret, ImmType::Bits12),
        ensures
            final(self).wf(),
            final(self)@ == old(self)@.with_code(
                binop3_code(old(self)@.used_gprs, Op3::Sub, Size::S32, loc_a, loc_b, ret, ImmType::Bits12),
            ),
    {
        self.emit_relaxed_binop3(Op3::Sub, Size::S32, loc_a, loc_b, ret, ImmType::Bits12);
    }

    /// `ret = a * b` on 32 bits.
    pub fn emit_binop_mul32(&mut self, loc_a: Location, loc_b: Location, ret: Location)
        requires
            old(self).wf(),
            old(self)@.room(32),
            binop3_ok(old(self)@.used_gprs, Size::S32, loc_a, loc_b, ret, ImmType::NoImm),
        ensures
            final(self).wf(),
            final(self)@ == old(self)@.with_code(
                binop3_code(old(self)@.used_gprs, Op3::Mul, Size::S32, loc_a, loc_b, ret, ImmType::NoImm),
            ),
    {
        self.emit_relaxed_binop3(Op3::Mul, Size::S32, loc_a, loc_b, ret, ImmType::NoImm);
    }

    /// `ret = a & b` on 32 bits; `b` may be a logical immediate.
    pub fn emit_binop_and32(&mut self, loc_a: Location, loc_b: Location, ret: Location)
        requires
            old(self).wf(),
            old(self)@.room(32),
            binop3_ok(old(self)@.used_gprs, Size::S32, loc_a, loc_b, ret, ImmType::Logical32),
        ensures
            final(self).wf(),
            final(self)@ == old(self)@.with_code(
                binop3_code(old(self)@.used_gprs, Op3::And, Size::S32, loc_a, loc_b, ret, ImmType::Logical32),
            ),
    {
        self.emit_relaxed_binop3(Op3::And, Size::S32, loc_a, loc_b, ret, ImmType::Logical32);
    }

    /// `ret = a | b` on 32 bits; `b` may be a logical immediate.
    pub fn emit_binop_or32(&mut self, loc_a: Location, loc_b: Location, ret: Location)
        requires
            old(self).wf(),
            old(self)@.room(32),
            binop3_ok(old(self)@.used_gprs, Size::S32, loc_a, loc_b, ret, ImmType::Logical32),
        ensures
            final(self).wf(),
            final(self)@ == old(self)@.with_code(
                binop3_code(old(self)@.used_gprs, Op3::Orr, Size::S32, loc_a, loc_b, ret, ImmType::Logical32),
            ),
    {
        self.emit_relaxed_binop3(Op3::Orr, Size::S32, loc_a, loc_b, ret, ImmType::Logical32);
    }

    /// `ret = a ^ b` on 32 bits; `b` may be a logical immediate.
    pub fn emit_binop_xor32(&mut self, loc_a: Location, loc_b: Location, ret: Location)
        requires
            old(self).wf(),
            old(self)@.room(32),
            binop3_ok(old(self)@.used_gprs, Size::S32, loc_a, loc_b, ret, ImmType::Logical32),
        ensures
            final(self).wf(),
            final(self)@ == old(self)@.with_code(
                binop3_code(old(self)@.used_gprs, Op3::Eor, Size::S32, loc_a, loc_b, ret, ImmType::Logical32),
            ),
    {
        self.emit_relaxed_binop3(Op3::Eor, Size::S32, loc_a, loc_b, ret, ImmType::Logical32);
    }

    /// Shift left on 32 bits; a non-zero immediate amount stays immediate.
    pub fn i32_shl(&mut self, loc_a: Location, loc_b: Location, ret: Location)
        requires
            old(self).wf(),
            old(self)@.room(32),
            binop3_ok(old(self)@.used_gprs, Size::S32, loc_a, loc_b, ret, ImmType::Shift32No0),
        ensures
            final(self).wf(),
            final(self)@ == old(self)@.with_code(
                binop3_code(old(self)@.used_gprs, Op3::Lsl, Size::S32, loc_a, loc_b, ret, ImmType::Shift32No0),
            ),
    {
        self.emit_relaxed_binop3(Op3::Lsl, Size::S32, loc_a, loc_b, ret, ImmType::Shift32No0);
    }

    /// Logical shift right on 32 bits.
    pub fn i32_shr(&mut self, loc_a: Location, loc_b: Location, ret: Location)
        requires
            old(self).wf(),
            old(self)@.room(32),
            binop3_ok(old(self)@.used_gprs, Size::S32, loc_a, loc_b, ret, ImmType::Shift32No0),
        ensures
            final(self).wf(),
            final(self)@ == old(self)@.with_code(
                binop3_code(old(self)@.used_gprs, Op3::Lsr, Size::S32, loc_a, loc_b, ret, ImmType::Shift32No0),
            ),
    {
        self.emit_relaxed_binop3(Op3::Lsr, Size::S32, loc_a, loc_b, ret, ImmType::Shift32No0);
    }

    /// Arithmetic shift right on 32 bits.
    pub fn i32_sar(&mut self, loc_a: Location, loc_b: Location, ret: Location)
        requires
            old(self).wf(),
            old(self)@.room(32),
            binop3_ok(old(self)@.used_gprs, Size::S32, loc_a, loc_b, ret, ImmType::Shift32No0),
        ensures
            final(self).wf(),
            final(self)@ == old(self)@.with_code(
                binop3_code(old(self)@.used_gprs, Op3::Asr, Size::S32, loc_a, loc_b, ret, ImmType::Shift32No0),
            ),
    {
        self.emit_relaxed_binop3(Op3::Asr, Size::S32, loc_a, loc_b, ret, ImmType::Shift32No0);
    }

    /// Rotate right on 32 bits.
    pub fn i32_ror(&mut self, loc_a: Location, loc_b: Location, ret: Location)
        requires
            old(self).wf(),
            old(self)@.room(32),
            binop3_ok(old(self)@.used_gprs, Size::S32, loc_a, loc_b, ret, ImmType::Shift32No0),
        ensures
            final(self).wf(),
            final(self)@ == old(self)@.with_code(
                binop3_code(old(self)@.used_gprs, Op3::Ror, Size::S32, loc_a, loc_b, ret, ImmType::Shift32No0),
            ),
    {
        self.emit_relaxed_binop3(Op3::Ror, Size::S32, loc_a, loc_b, ret, ImmType::Shift32No0);
    }

    /// Unsigned division on 32 bits; see `emit_binop_udiv`.
    pub fn emit_binop_udiv32(
        &mut self,
        loc_a: Location,
        loc_b: Location,
        ret: Location,
        integer_division_by_zero: Label,
        integer_overflow: Label,
    ) -> (offset: usize)
        requires
            old(self).wf(),
            old(self)@.room(32),
            udiv_ok(old(self)@.used_gprs, Size::S32, loc_a, loc_b, ret),
        ensures
            final(self).wf(),
            ({
                let (head, tail) = udiv_parts(old(self)@.used_gprs, Size::S32, loc_a, loc_b, ret, integer_division_by_zero);
                &&& offset == 4 * (old(self)@.code.len() + head.len())
                &&& final(self)@ == after_div(old(self)@, head + tail, offset as int)
            }),
    {
        self.emit_binop_udiv(Size::S32, loc_a, loc_b, ret, integer_division_by_zero)
    }

    /// Signed division on 32 bits; see `emit_binop_sdiv`.
    pub fn emit_binop_sdiv32(
        &mut self,
        loc_a: Location,
        loc_b: Location,
        ret: Location,
        integer_division_by_zero: Label,
        integer_overflow: Label,
    ) -> (offset: usize)
        requires
            old(self).wf(),
            old(self)@.room(40),
            sdiv_ok(old(self)@.used_gprs, Size::S32, loc_a, loc_b, ret),
        ensures
            final(self).wf(),
            ({
                let no_ovf = Label { id: old(self)@.labels.len() as usize };
                let head = sdiv_head(old(self)@.used_gprs, Size::S32, loc_a, loc_b, ret, integer_division_by_zero, integer_overflow, no_ovf);
                let tail = sdiv_tail(old(self)@.used_gprs, Size::S32, loc_a, loc_b, ret);
                &&& offset == 4 * (old(self)@.code.len() + head.len())
                &&& final(self)@ == (MachineView {
                    labels: old(self)@.labels.push(Some(offset)),
                    ..after_div(old(self)@, head + tail, offset as int)
                })
            }),
    {
        self.emit_binop_sdiv(Size::S32, loc_a, loc_b, ret, integer_division_by_zero, integer_overflow)
    }

    /// Remainder on 32 bits through `udiv`; see `emit_binop_rem`.
    pub fn emit_binop_urem32(
        &mut self,
        loc_a: Location,
        loc_b: Location,
        ret: Location,
        integer_division_by_zero: Label,
        integer_overflow: Label,
    ) -> (offset: usize)
        requires
            old(self).wf(),
            old(self)@.room(40),
            rem_ok(old(self)@.used_gprs, Size::S32, loc_a, loc_b, ret),
        ensures
            final(self).wf(),
            ({
                let (head, tail) = rem_parts(old(self)@.used_gprs, Op3::Udiv, Size::S32, loc_a, loc_b, ret, integer_division_by_zero);
                &&& offset == 4 * (old(self)@.code.len() + head.len())
                &&& final(self)@ == after_div(old(self)@, head + tail, offset as int)
            }),
    {
        self.emit_binop_rem(Op3::Udiv, Size::S32, loc_a, loc_b, ret, integer_division_by_zero)
    }

    /// Remainder on 32 bits through `sdiv`; see `emit_binop_rem`.
    pub fn emit_binop_srem32(
        &mut self,
        loc_a: Location,
        loc_b: Location,
        ret: Location,
        integer_division_by_zero: Label,
        integer_overflow: Label,
    ) -> (offset: usize)
        requires
            old(self).wf(),
            old(self)@.room(40),
            rem_ok(old(self)@.used_gprs, Size::S32, loc_a, loc_b, ret),
        ensures
            final(self).wf(),
            ({
                let (head, tail) = rem_parts(old(self)@.used_gprs, Op3::Sdiv, Size::S32, loc_a, loc_b, ret, integer_division_by_zero);
                &&& offset == 4 * (old(self)@.code.len() + head.len())
                &&& final(self)@ == after_div(old(self)@, head + tail, offset as int)
            }),
    {
        self.emit_binop_rem(Op3::Sdiv, Size::S32, loc_a, loc_b, ret, integer_division_by_zero)
    }

    /// Count of leading zeros on 32 bits.
    pub fn i32_clz(&mut self, src: Location, dst: Location)
        requires
            old(self).wf(),
            old(self)@.room(24),
            binop_ok(old(self)@.used_gprs, Size::S32, src, dst, true),
        ensures
            final(self).wf(),
            final(self)@ == old(self)@.with_code(binop_code(old(self)@.used_gprs, Op2::Clz, Size::S32, src, dst, true)),
    {
        self.emit_relaxed_binop(Op2::Clz, Size::S32, src, dst, true);
    }

    /// Count of trailing zeros on 32 bits.
    pub fn i32_ctz(&mut self, src: Location, dst: Location)
        requires
            old(self).wf(),
            old(self)@.room(24),
            ctz_ok(old(self)@.used_gprs, Size::S32, src, dst),
        ensures
            final(self).wf(),
            final(self)@ == old(self)@.with_code(ctz_code(old(self)@.used_gprs, Size::S32, src, dst)),
    {
        self.emit_ctz(Size::S32, src, dst);
    }

    /// Count of set bits on 32 bits; see `emit_popcnt`.
    pub fn i32_popcnt(&mut self, loc: Location, ret: Location)
        requires
            old(self).wf(),
            old(self)@.room(40),
            popcnt_ok(old(self)@.used_gprs, Size::S32, loc, ret),
        ensures
            final(self).wf(),
            ({
                let n = old(self)@.labels.len();
                let lp = Label { id: n as usize };
                let exit = Label { id: (n + 1) as usize };
                let (head, body, tail) = popcnt_parts(old(self)@.used_gprs, Size::S32, loc, ret, lp, exit);
                let at_loop = 4 * (old(self)@.code.len() + head.len());
                let at_exit = at_loop + 4 * body.len();
                final(self)@ == (MachineView {
                    labels: old(self)@.labels.push(Some(at_loop as usize)).push(Some(at_exit as usize)),
                    ..old(self)@.with_code(head + body + tail)
                })
            }),
    {
        self.emit_popcnt(Size::S32, loc, ret);
    }

    /// Rotate left on 32 bits; see `emit_rol`.
    pub fn i32_rol(&mut self, loc_a: Location, loc_b: Location, ret: Location)
        requires
            old(self).wf(),
            old(self)@.room(48),
            rol_ok(old(self)@.used_gprs, Size::S32, loc_a, loc_b, ret),
        ensures
            final(self).wf(),
            final(self)@ == old(self)@.with_code(rol_code(old(self)@.used_gprs, Size::S32, loc_a, loc_b, ret)),
    {
        self.emit_rol(Size::S32, loc_a, loc_b, ret);
    }

    /// 32-bit comparison of `a` with `b`, setting `ret` to 1 where `c`
    /// holds and 0 elsewhere.
    pub fn emit_cmpop_i32_dynamic_b(&mut self, c: Condition, loc_a: Location, loc_b: Location, ret: Location)
        requires
            old(self).wf(),
            old(self)@.room(40),
            cmp_dynamic_ok(old(self)@.used_gprs, Size::S32, loc_a, loc_b, ret),
        ensures
            final(self).wf(),
            final(self)@ == old(self)@.with_code(cmp_dynamic_code(old(self)@.used_gprs, Size::S32, c, loc_a, loc_b, ret)),
    {
        self.emit_cmpop_dynamic_b(Size::S32, c, loc_a, loc_b, ret);
    }

    /// `ret = (signed `a >= b`)` on 32 bits.
    pub fn i32_cmp_ge_s(&mut self, loc_a: Location, loc_b: Location, ret: Location)
        requires
            old(self).wf(),
            old(self)@.room(40),
            cmp_dynamic_ok(old(self)@.used_gprs, Size::S32, loc_a, loc_b, ret),
        ensures
            final(self).wf(),
            final(self)@ == old(self)@.with_code(
                cmp_dynamic_code(old(self)@.used_gprs, Size::S32, Condition::Ge, loc_a, loc_b, ret),
            ),
    {
        self.emit_cmpop_i32_dynamic_b(Condition::Ge, loc_a, loc_b, ret);
    }

    /// `ret = (signed `a > b`)` on 32 bits.
    pub fn i32_cmp_gt_s(&mut self, loc_a: Location, loc_b: Location, ret: Location)
        requires
            old(self).wf(),
            old(self)@.room(40),
            cmp_dynamic_ok(old(self)@.used_gprs, Size::S32, loc_a, loc_b, ret),
        ensures
            final(self).wf(),
            final(self)@ == old(self)@.with_code(
                cmp_dynamic_code(old(self)@.used_gprs, Size::S32, Condition::Gt, loc_a, loc_b, ret),
            ),
    {
        self.emit_cmpop_i32_dynamic_b(Condition::Gt, loc_a, loc_b, ret);
    }

    /// `ret = (signed `a <= b`)` on 32 bits.
    pub fn i32_cmp_le_s(&mut self, loc_a: Location, loc_b: Location, ret: Location)
        requires
            old(self).wf(),
            old(self)@.room(40),
            cmp_dynamic_ok(old(self)@.used_gprs, Size::S32, loc_a, loc_b, ret),
        ensures
            final(self).wf(),
            final(self)@ == old(self)@.with_code(
                cmp_dynamic_code(old(self)@.used_gprs, Size::S32, Condition::Le, loc_a, loc_b, ret),
            ),
    {
        self.emit_cmpop_i32_dynamic_b(Condition::Le, loc_a, loc_b, ret);
    }

    /// `ret = (signed `a < b`)` on 32 bits.
    pub fn i32_cmp_lt_s(&mut self, loc_a: Location, loc_b: Location, ret: Location)
        requires
            old(self).wf(),
            old(self)@.room(40),
            cmp_dynamic_ok(old(self)@.used_gprs, Size::S32, loc_a, loc_b, ret),
        ensures
            final(self).wf(),
            final(self)@ == old(self)@.with_code(
                cmp_dynamic_code(old(self)@.used_gprs, Size::S32, Condition::Lt, loc_a, loc_b, ret),
            ),
    {
        self.emit_cmpop_i32_dynamic_b(Condition::Lt, loc_a, loc_b, ret);
    }

    /// `ret = (unsigned `a >= b`)` on 32 bits.
    pub fn i32_cmp_ge_u(&mut self, loc_a: Location, loc_b: Location, ret: Location)
        requires
            old(self).wf(),
            old(self)@.room(40),
            cmp_dynamic_ok(old(self)@.used_gprs, Size::S32, loc_a, loc_b, ret),
        ensures
            final(self).wf(),
            final(self)@ == old(self)@.with_code(
                cmp_dynamic_code(old(self)@.used_gprs, Size::S32, Condition::Cs, loc_a, loc_b, ret),
            ),
    {
        self.emit_cmpop_i32_dynamic_b(Condition::Cs, loc_a, loc_b, ret);
    }

    /// `ret = (unsigned `a > b`)` on 32 bits.
    pub fn i32_cmp_gt_u(&mut self, loc_a: Location, loc_b: Location, ret: Location)
        requires
            old(self).wf(),
            old(self)@.room(40),
            cmp_dynamic_ok(old(self)@.used_gprs, Size::S32, loc_a, loc_b, ret),
        ensures
            final(self).wf(),
            final(self)@ == old(self)@.with_code(
                cmp_dynamic_code(old(self)@.used_gprs, Size::S32, Condition::Hi, loc_a, loc_b, ret),
            ),
    {
        self.emit_cmpop_i32_dynamic_b(Condition::Hi, loc_a, loc_b, ret);
    }

    /// `ret = (unsigned `a <= b`)` on 32 bits.
    pub fn i32_cmp_le_u(&mut self, loc_a: Location, loc_b: Location, ret: Location)
        requires
            old(self).wf(),
            old(self)@.room(40),
            cmp_dynamic_ok(old(self)@.used_gprs, Size::S32, loc_a, loc_b, ret),
        ensures
            final(self).wf(),
            final(self)@ == old(self)@.with_code(
                cmp_dynamic_code(old(self)@.used_gprs, Size::S32, Condition::Ls, loc_a, loc_b, ret),
            ),
    {
        self.emit_cmpop_i32_dynamic_b(Condition::Ls, loc_a, loc_b, ret);
    }

    /// `ret = (unsigned `a < b`)` on 32 bits.
    pub fn i32_cmp_lt_u(&mut self, loc_a: Location, loc_b: Location, ret: Location)
        requires
            old(self).wf(),
            old(self)@.room(40),
            cmp_dynamic_ok(old(self)@.used_gprs, Size::S32, loc_a, loc_b, ret),
        ensures
            final(self).wf(),
            final(self)@ == old(self)@.with_code(
                cmp_dynamic_code(old(self)@.used_gprs, Size::S32, Condition::Cc, loc_a, loc_b, ret),
            ),
    {
        self.emit_cmpop_i32_dynamic_b(Condition::Cc, loc_a, loc_b, ret);
    }

    /// `ret = (`a != b`)` on 32 bits.
    pub fn i32_cmp_ne(&mut self, loc_a: Location, loc_b: Location, ret: Location)
        requires
            old(self).wf(),
            old(self)@.room(40),
            cmp_dynamic_ok(old(self)@.used_gprs, Size::S32, loc_a, loc_b, ret),
        ensures
            final(self).wf(),
            final(self)@ == old(self)@.with_code(
                cmp_dynamic_code(old(self)@.used_gprs, Size::S32, Condition::Ne, loc_a, loc_b, ret),
            ),
    {
        self.emit_cmpop_i32_dynamic_b(Condition::Ne, loc_a, loc_b, ret);
    }

    /// `ret = (`a == b`)` on 32 bits.
    pub fn i32_cmp_eq(&mut self, loc_a: Location, loc_b: Location, ret: Location)
        requires
            old(self).wf(),
            old(self)@.room(40),
            cmp_dynamic_ok(old(self)@.used_gprs, Size::S32, loc_a, loc_b, ret),
        ensures
            final(self).wf(),
            final(self)@ == old(self)@.with_code(
                cmp_dynamic_code(old(self)@.used_gprs, Size::S32, Condition::Eq, loc_a, loc_b, ret),
            ),
    {
        self.emit_cmpop_i32_dynamic_b(Condition::Eq, loc_a, loc_b, ret);
    }

    /// `ret = a + b` on 64 bits; `b` may be a 12-bit immediate.
    pub fn emit_binop_add64(&mut self, loc_a: Location, loc_b: Location, ret: Location)
        requires
            old(self).wf(),
            old(self)@.room(32),
            binop3_ok(old(self)@.used_gprs, Size::S64, loc_a, loc_b, ret, ImmType::Bits12),
        ensures
            final(self).wf(),
            final(self)@ == old(self)@.with_code(
                binop3_code(old(self)@.used_gprs, Op3::Add, Size::S64, loc_a, loc_b, ret, ImmType::Bits12),
            ),
    {
        self.emit_relaxed_binop3(Op3::Add, Size::S64, loc_a, loc_b, ret, ImmType::Bits12);
    }

    /// `ret = a - b` on 64 bits; `b` may be a 12-bit immediate.
    pub fn emit_binop_sub64(&mut self, loc_a: Location, loc_b: Location, ret: Location)
        requires
            old(self).wf(),
            old(self)@.room(32),
            binop3_ok(old(self)@.used_gprs, Size::S64, loc_a, loc_b, ret, ImmType::Bits12),
        ensures
            final(self).wf(),
            final(self)@ == old(self)@.with_code(
                binop3_code(old(self)@.used_gprs, Op3::Sub, Size::S64, loc_a, loc_b, ret, ImmType::Bits12),
            ),
    {
        self.emit_relaxed_binop3(Op3::Sub, Size::S64, loc_a, loc_b, ret, ImmType::Bits12);
    }

    /// `ret = a * b` on 64 bits.
    pub fn emit_binop_mul64(&mut self, loc_a: Location, loc_b: Location, ret: Location)
        requires
            old(self).wf(),
            old(self)@.room(32),
            binop3_ok(old(self)@.used_gprs, Size::S64, loc_a, loc_b, ret, ImmType::NoImm),
        ensures
            final(self).wf(),
            final(self)@ == old(self)@.with_code(
                binop3_code(old(self)@.used_gprs, Op3::Mul, Size::S64, loc_a, loc_b, ret, ImmType::NoImm),
            ),
    {
        self.emit_relaxed_binop3(Op3::Mul, Size::S64, loc_a, loc_b, ret, ImmType::NoImm);
    }

    /// `ret = a & b` on 64 bits; `b` may be a logical immediate.
    pub fn emit_binop_and64(&mut self, loc_a: Location, loc_b: Location, ret: Location)
        requires
            old(self).wf(),
            old(self)@.room(32),
            binop3_ok(old(self)@.used_gprs, Size::S64, loc_a, loc_b, ret, ImmType::Logical64),
        ensures
            final(self).wf(),
            final(self)@ == old(self)@.with_code(
                binop3_code(old(self)@.used_gprs, Op3::And, Size::S64, loc_a, loc_b, ret, ImmType::Logical64),
            ),
    {
        self.emit_relaxed_binop3(Op3::And, Size::S64, loc_a, loc_b, ret, ImmType::Logical64);
    }

    /// `ret = a | b` on 64 bits; `b` may be a logical immediate.
    pub fn emit_binop_or64(&mut self, loc_a: Location, loc_b: Location, ret: Location)
        requires
            old(self).wf(),
            old(self)@.room(32),
            binop3_ok(old(self)@.used_gprs, Size::S64, loc_a, loc_b, ret, ImmType::Logical64),
        ensures
            final(self).wf(),
            final(self)@ == old(self)@.with_code(
                binop3_code(old(self)@.used_gprs, Op3::Orr, Size::S64, loc_a, loc_b, ret, ImmType::Logical64),
            ),
    {
        self.emit_relaxed_binop3(Op3::Orr, Size::S64, loc_a, loc_b, ret, ImmType::Logical64);
    }

    /// `ret = a ^ b` on 64 bits; `b` may be a logical immediate.
    pub fn emit_binop_xor64(&mut self, loc_a: Location, loc_b: Location, ret: Location)
        requires
            old(self).wf(),
            old(self)@.room(32),
            binop3_ok(old(self)@.used_gprs, Size::S64, loc_a, loc_b, ret, ImmType::Logical64),
        ensures
            final(self).wf(),
            final(self)@ == old(self)@.with_code(
                binop3_code(old(self)@.used_gprs, Op3::Eor, Size::S64, loc_a, loc_b, ret, ImmType::Logical64),
            ),
    {
        self.emit_relaxed_binop3(Op3::Eor, Size::S64, loc_a, loc_b, ret, ImmType::Logical64);
    }

    /// Shift left on 64 bits; a non-zero immediate amount stays immediate.
    pub fn i64_shl(&mut self, loc_a: Location, loc_b: Location, ret: Location)
        requires
            old(self).wf(),
            old(self)@.room(32),
            binop3_ok(old(self)@.used_gprs, Size::S64, loc_a, loc_b, ret, ImmType::Shift64No0),
        ensures
            final(self).wf(),
            final(self)@ == old(self)@.with_code(
                binop3_code(old(self)@.used_gprs, Op3::Lsl, Size::S64, loc_a, loc_b, ret, ImmType::Shift64No0),
            ),
    {
        self.emit_relaxed_binop3(Op3::Lsl, Size::S64, loc_a, loc_b, ret, ImmType::Shift64No0);
    }

    /// Logical shift right on 64 bits.
    pub fn i64_shr(&mut self, loc_a: Location, loc_b: Location, ret: Location)
        requires
            old(self).wf(),
            old(self)@.room(32),
            binop3_ok(old(self)@.used_gprs, Size::S64, loc_a, loc_b, ret, ImmType::Shift64No0),
        ensures
            final(self).wf(),
            final(self)@ == old(self)@.with_code(
                binop3_code(old(self)@.used_gprs, Op3::Lsr, Size::S64, loc_a, loc_b, ret, ImmType::Shift64No0),
            ),
    {
        self.emit_relaxed_binop3(Op3::Lsr, Size::S64, loc_a, loc_b, ret, ImmType::Shift64No0);
    }

    /// Arithmetic shift right on 64 bits.
    pub fn i64_sar(&mut self, loc_a: Location, loc_b: Location, ret: Location)
        requires
            old(self).wf(),
            old(self)@.room(32),
            binop3_ok(old(self)@.used_gprs, Size::S64, loc_a, loc_b, ret, ImmType::Shift64No0),
        ensures
            final(self).wf(),
            final(self)@ == old(self)@.with_code(
                binop3_code(old(self)@.used_gprs, Op3::Asr, Size::S64, loc_a, loc_b, ret, ImmType::Shift64No0),
            ),
    {
        self.emit_relaxed_binop3(Op3::Asr, Size::S64, loc_a, loc_b, ret, ImmType::Shift64No0);
    }

    /// Rotate right on 64 bits.
    pub fn i64_ror(&mut self, loc_a: Location, loc_b: Location, ret: Location)
        requires
            old(self).wf(),
            old(self)@.room(32),
            binop3_ok(old(self)@.used_gprs, Size::S64, loc_a, loc_b, ret, ImmType::Shift64No0),
        ensures
            final(self).wf(),
            final(self)@ == old(self)@.with_code(
                binop3_code(old(self)@.used_gprs, Op3::Ror, Size::S64, loc_a, loc_b, ret, ImmType::Shift64No0),
            ),
    {
        self.emit_relaxed_binop3(Op3::Ror, Size::S64, loc_a, loc_b, ret, ImmType::Shift64No0);
    }

    /// Unsigned division on 64 bits; see `emit_binop_udiv`.
    pub fn emit_binop_udiv64(
        &mut self,
        loc_a: Location,
        loc_b: Location,
        ret: Location,
        integer_division_by_zero: Label,
        integer_overflow: Label,
    ) -> (offset: usize)
        requires
            old(self).wf(),
            old(self)@.room(32),
            udiv_ok(old(self)@.used_gprs, Size::S64, loc_a, loc_b, ret),
        ensures
            final(self).wf(),
            ({
                let (head, tail) = udiv_parts(old(self)@.used_gprs, Size::S64, loc_a, loc_b, ret, integer_division_by_zero);
                &&& offset == 4 * (old(self)@.code.len() + head.len())
                &&& final(self)@ == after_div(old(self)@, head + tail, offset as int)
            }),
    {
        self.emit_binop_udiv(Size::S64, loc_a, loc_b, ret, integer_division_by_zero)
    }

    /// Signed division on 64 bits; see `emit_binop_sdiv`.
    pub fn emit_binop_sdiv64(
        &mut self,
        loc_a: Location,
        loc_b: Location,
        ret: Location,
        integer_division_by_zero: Label,
        integer_overflow: Label,
    ) -> (offset: usize)
        requires
            old(self).wf(),
            old(self)@.room(40),
            sdiv_ok(old(self)@.used_gprs, Size::S64, loc_a, loc_b, ret),
        ensures
            final(self).wf(),
            ({
                let no_ovf = Label { id: old(self)@.labels.len() as usize };
                let head = sdiv_head(old(self)@.used_gprs, Size::S64, loc_a, loc_b, ret, integer_division_by_zero, integer_overflow, no_ovf);
                let tail = sdiv_tail(old(self)@.used_gprs, Size::S64, loc_a, loc_b, ret);
                &&& offset == 4 * (old(self)@.code.len() + head.len())
                &&& final(self)@ == (MachineView {
                    labels: old(self)@.labels.push(Some(offset)),
                    ..after_div(old(self)@, head + tail, offset as int)
                })
            }),
    {
        self.emit_binop_sdiv(Size::S64, loc_a, loc_b, ret, integer_division_by_zero, integer_overflow)
    }

    /// Remainder on 64 bits through `udiv`; see `emit_binop_rem`.
    pub fn emit_binop_urem64(
        &mut self,
        loc_a: Location,
        loc_b: Location,
        ret: Location,
        integer_division_by_zero: Label,
        integer_overflow: Label,
    ) -> (offset: usize)
        requires
            old(self).wf(),
            old(self)@.room(40),
            rem_ok(old(self)@.used_gprs, Size::S64, loc_a, loc_b, ret),
        ensures
            final(self).wf(),
            ({
                let (head, tail) = rem_parts(old(self)@.used_gprs, Op3::Udiv, Size::S64, loc_a, loc_b, ret, integer_division_by_zero);
                &&& offset == 4 * (old(self)@.code.len() + head.len())
                &&& final(self)@ == after_div(old(self)@, head + tail, offset as int)
            }),
    {
        self.emit_binop_rem(Op3::Udiv, Size::S64, loc_a, loc_b, ret, integer_division_by_zero)
    }

    /// Remainder on 64 bits through `sdiv`; see `emit_binop_rem`.
    pub fn emit_binop_srem64(
        &mut self,
        loc_a: Location,
        loc_b: Location,
        ret: Location,
        integer_division_by_zero: Label,
        integer_overflow: Label,
    ) -> (offset: usize)
        requires
            old(self).wf(),
            old(self)@.room(40),
            rem_ok(old(self)@.used_gprs, Size::S64, loc_a, loc_b, ret),
        ensures
            final(self).wf(),
            ({
                let (head, tail) = rem_parts(old(self)@.used_gprs, Op3::Sdiv, Size::S64, loc_a, loc_b, ret, integer_division_by_zero);
                &&& offset == 4 * (old(self)@.code.len() + head.len())
                &&& final(self)@ == after_div(old(self)@, head + tail, offset as int)
            }),
    {
        self.emit_binop_rem(Op3::Sdiv, Size::S64, loc_a, loc_b, ret, integer_division_by_zero)
    }

    /// Count of leading zeros on 64 bits.
    pub fn i64_clz(&mut self, src: Location, dst: Location)
        requires
            old(self).wf(),
            old(self)@.room(24),
            binop_ok(old(self)@.used_gprs, Size::S64, src, dst, true),
        ensures
            final(self).wf(),
            final(self)@ == old(self)@.with_code(binop_code(old(self)@.used_gprs, Op2::Clz, Size::S64, src, dst, true)),
    {
        self.emit_relaxed_binop(Op2::Clz, Size::S64, src, dst, true);
    }

    /// Count of trailing zeros on 64 bits.
    pub fn i64_ctz(&mut self, src: Location, dst: Location)
        requires
            old(self).wf(),
            old(self)@.room(24),
            ctz_ok(old(self)@.used_gprs, Size::S64, src, dst),
        ensures
            final(self).wf(),
            final(self)@ == old(self)@.with_code(ctz_code(old(self)@.used_gprs, Size::S64, src, dst)),
    {
        self.emit_ctz(Size::S64, src, dst);
    }

    /// Count of set bits on 64 bits; see `emit_popcnt`.
    pub fn i64_popcnt(&mut self, loc: Location, ret: Location)
        requires
            old(self).wf(),
            old(self)@.room(40),
            popcnt_ok(old(self)@.used_gprs, Size::S64, loc, ret),
        ensures
            final(self).wf(),
            ({
                let n = old(self)@.labels.len();
                let lp = Label { id: n as usize };
                let exit = Label { id: (n + 1) as usize };
                let (head, body, tail) = popcnt_parts(old(self)@.used_gprs, Size::S64, loc, ret, lp, exit);
                let at_loop = 4 * (old(self)@.code.len() + head.len());
                let at_exit = at_loop + 4 * body.len();
                final(self)@ == (MachineView {
                    labels: old(self)@.labels.push(Some(at_loop as usize)).push(Some(at_exit as usize)),
                    ..old(self)@.with_code(head + body + tail)
                })
            }),
    {
        self.emit_popcnt(Size::S64, loc, ret);
    }

    /// Rotate left on 64 bits; see `emit_rol`.
    pub fn i64_rol(&mut self, loc_a: Location, loc_b: Location, ret: Location)
        requires
            old(self).wf(),
            old(self)@.room(48),
            rol_ok(old(self)@.used_gprs, Size::S64, loc_a, loc_b, ret),
        ensures
            final(self).wf(),
            final(self)@ == old(self)@.with_code(rol_code(old(self)@.used_gprs, Size::S64, loc_a, loc_b, ret)),
    {
        self.emit_rol(Size::S64, loc_a, loc_b, ret);
    }

    /// 64-bit comparison of `a` with `b`, setting `ret` to 1 where `c`
    /// holds and 0 elsewhere.
    pub fn emit_cmpop_i64_dynamic_b(&mut self, c: Condition, loc_a: Location, loc_b: Location, ret: Location)
        requires
            old(self).wf(),
            old(self)@.room(40),
            cmp_dynamic_ok(old(self)@.used_gprs, Size::S64, loc_a, loc_b, ret),
        ensures
            final(self).wf(),
            final(self)@ == old(self)@.with_code(cmp_dynamic_code(old(self)@.used_gprs, Size::S64, c, loc_a, loc_b, ret)),
    {
        self.emit_cmpop_dynamic_b(Size::S64, c, loc_a, loc_b, ret);
    }

    /// `ret = (signed `a >= b`)` on 64 bits.
    pub fn i64_cmp_ge_s(&mut self, loc_a: Location, loc_b: Location, ret: Location)
        requires
            old(self).wf(),
            old(self)@.room(40),
            cmp_dynamic_ok(old(self)@.used_gprs, Size::S64, loc_a, loc_b, ret),
        ensures
            final(self).wf(),
            final(self)@ == old(self)@.with_code(
                cmp_dynamic_code(old(self)@.used_gprs, Size::S64, Condition::Ge, loc_a, loc_b, ret),
            ),
    {
        self.emit_cmpop_i64_dynamic_b(Condition::Ge, loc_a, loc_b, ret);
    }

    /// `ret = (signed `a > b`)` on 64 bits.
    pub fn i64_cmp_gt_s(&mut self, loc_a: Location, loc_b: Location, ret: Location)
        requires
            old(self).wf(),
            old(self)@.room(40),
            cmp_dynamic_ok(old(self)@.used_gprs, Size::S64, loc_a, loc_b, ret),
        ensures
            final(self).wf(),
            final(self)@ == old(self)@.with_code(
                cmp_dynamic_code(old(self)@.used_gprs, Size::S64, Condition::Gt, loc_a, loc_b, ret),
            ),
    {
        self.emit_cmpop_i64_dynamic_b(Condition::Gt, loc_a, loc_b, ret);
    }

    /// `ret = (signed `a <= b`)` on 64 bits.
    pub fn i64_cmp_le_s(&mut self, loc_a: Location, loc_b: Location, ret: Location)
        requires
            old(self).wf(),
            old(self)@.room(40),
            cmp_dynamic_ok(old(self)@.used_gprs, Size::S64, loc_a, loc_b, ret),
        ensures
            final(self).wf(),
            final(self)@ == old(self)@.with_code(
                cmp_dynamic_code(old(self)@.used_gprs, Size::S64, Condition::Le, loc_a, loc_b, ret),
            ),
    {
        self.emit_cmpop_i64_dynamic_b(Condition::Le, loc_a, loc_b, ret);
    }

    /// `ret = (signed `a < b`)` on 64 bits.
    pub fn i64_cmp_lt_s(&mut self, loc_a: Location, loc_b: Location, ret: Location)
        requires
            old(self).wf(),
            old(self)@.room(40),
            cmp_dynamic_ok(old(self)@.used_gprs, Size::S64, loc_a, loc_b, ret),
        ensures
            final(self).wf(),
            final(self)@ == old(self)@.with_code(
                cmp_dynamic_code(old(self)@.used_gprs, Size::S64, Condition::Lt, loc_a, loc_b, ret),
            ),
    {
        self.emit_cmpop_i64_dynamic_b(Condition::Lt, loc_a, loc_b, ret);
    }

    /// `ret = (unsigned `a >= b`)` on 64 bits.
    pub fn i64_cmp_ge_u(&mut self, loc_a: Location, loc_b: Location, ret: Location)
        requires
            old(self).wf(),
            old(self)@.room(40),
            cmp_dynamic_ok(old(self)@.used_gprs, Size::S64, loc_a, loc_b, ret),
        ensures
            final(self).wf(),
            final(self)@ == old(self)@.with_code(
                cmp_dynamic_code(old(self)@.used_gprs, Size::S64, Condition::Cs, loc_a, loc_b, ret),
            ),
    {
        self.emit_cmpop_i64_dynamic_b(Condition::Cs, loc_a, loc_b, ret);
    }

    /// `ret = (unsigned `a > b`)` on 64 bits.
    pub fn i64_cmp_gt_u(&mut self, loc_a: Location, loc_b: Location, ret: Location)
        requires
            old(self).wf(),
            old(self)@.room(40),
            cmp_dynamic_ok(old(self)@.used_gprs, Size::S64, loc_a, loc_b, ret),
        ensures
            final(self).wf(),
            final(self)@ == old(self)@.with_code(
                cmp_dynamic_code(old(self)@.used_gprs, Size::S64, Condition::Hi, loc_a, loc_b, ret),
            ),
    {
        self.emit_cmpop_i64_dynamic_b(Condition::Hi, loc_a, loc_b, ret);
    }

    /// `ret = (unsigned `a <= b`)` on 64 bits.
    pub fn i64_cmp_le_u(&mut self, loc_a: Location, loc_b: Location, ret: Location)
        requires
            old(self).wf(),
            old(self)@.room(40),
            cmp_dynamic_ok(old(self)@.used_gprs, Size::S64, loc_a, loc_b, ret),
        ensures
            final(self).wf(),
            final(self)@ == old(self)@.with_code(
                cmp_dynamic_code(old(self)@.used_gprs, Size::S64, Condition::Ls, loc_a, loc_b, ret),
            ),
    {
        self.emit_cmpop_i64_dynamic_b(Condition::Ls, loc_a, loc_b, ret);
    }

    /// `ret = (unsigned `a < b`)` on 64 bits.
    pub fn i64_cmp_lt_u(&mut self, loc_a: Location, loc_b: Location, ret: Location)
        requires
            old(self).wf(),
            old(self)@.room(40),
            cmp_dynamic_ok(old(self)@.used_gprs, Size::S64, loc_a, loc_b, ret),
        ensures
            final(self).wf(),
            final(self)@ == old(self)@.with_code(
                cmp_dynamic_code(old(self)@.used_gprs, Size::S64, Condition::Cc, loc_a, loc_b, ret),
            ),
    {
        self.emit_cmpop_i64_dynamic_b(Condition::Cc, loc_a, loc_b, ret);
    }

    /// `ret = (`a != b`)` on 64 bits.
    pub fn i64_cmp_ne(&mut self, loc_a: Location, loc_b: Location, ret: Location)
        requires
            old(self).wf(),
            old(self)@.room(40),
            cmp_dynamic_ok(old(self)@.used_gprs, Size::S64, loc_a, loc_b, ret),
        ensures
            final(self).wf(),
            final(self)@ == old(self)@.with_code(
                cmp_dynamic_code(old(self)@.used_gprs, Size::S64, Condition::Ne, loc_a, loc_b, ret),
            ),
    {
        self.emit_cmpop_i64_dynamic_b(Condition::Ne, loc_a, loc_b, ret);
    }

    /// `ret = (`a == b`)` on 64 bits.
    pub fn i64_cmp_eq(&mut self, loc_a: Location, loc_b: Location, ret: Location)
        requires
            old(self).wf(),
            old(self)@.room(40),
            cmp_dynamic_ok(old(self)@.used_gprs, Size::S64, loc_a, loc_b, ret),
        ensures
            final(self).wf(),
            final(self)@ == old(self)@.with_code(
                cmp_dynamic_code(old(self)@.used_gprs, Size::S64, Condition::Eq, loc_a, loc_b, ret),
            ),
    {
        self.emit_cmpop_i64_dynamic_b(Condition::Eq, loc_a, loc_b, ret);
    }

    /// Moves `src` to `dst` through registers as needed.
    pub fn emit_relaxed_mov(&mut self, sz: Size, src: Location, dst: Location)
        requires
            old(self).wf(),
            old(self)@.room(24),
            binop_ok(old(self)@.used_gprs, sz, src, dst, true),
        ensures
            final(self).wf(),
            final(self)@ == old(self)@.with_code(binop_code(old(self)@.used_gprs, Op2::Mov, sz, src, dst, true)),
    {
        self.emit_relaxed_binop(Op2::Mov, sz, src, dst, true);
    }

    /// Compares `dst` with `src`, which may be a 12-bit immediate.
    pub fn emit_relaxed_cmp(&mut self, sz: Size, src: Location, dst: Location)
        requires
            old(self).wf(),
            old(self)@.room(24),
            binop_ok(old(self)@.used_gprs, sz, src, dst, false),
        ensures
            final(self).wf(),
            final(self)@ == old(self)@.with_code(binop_code(old(self)@.used_gprs, Op2::Cmp, sz, src, dst, false)),
    {
        self.emit_relaxed_binop(Op2::Cmp, sz, src, dst, false);
    }

    /// Compares `dest` with `source`, as `emit_relaxed_cmp` does.
    pub fn location_cmp(&mut self, size: Size, source: Location, dest: Location)
        requires
            old(self).wf(),
            old(self)@.room(24),
            binop_ok(old(self)@.used_gprs, size, source, dest, false),
        ensures
            final(self).wf(),
            final(self)@ == old(self)@.with_code(binop_code(old(self)@.used_gprs, Op2::Cmp, size, source, dest, false)),
    {
        self.emit_relaxed_binop(Op2::Cmp, size, source, dest, false);
    }

    /// `gpr = gpr * imm32`, through a temporary.
    pub fn emit_imul_imm32(&mut self, size: Size, imm32: u32, gpr: GPR)
        requires
            old(self).wf(),
            old(self)@.room(5),
            free_temp_gprs(old(self)@.used_gprs) >= 1,
        ensures
            final(self).wf(),
            ({
                let t = first_free_temp_gpr(old(self)@.used_gprs)->Some_0;
                final(self)@ == old(self)@.with_code(
                    crate::inst::mov_imm_seq(t, imm32 as u64) + seq![
                        Inst::Op3(Op3::Mul, size, Location::GPR(gpr), Location::GPR(t), Location::GPR(gpr)),
                    ],
                )
            }),
    {
        let tmp = self.acquire_temp_gpr().unwrap();
        self.emit_mov_imm(tmp, imm32 as u64);
        self.emit(Inst::Op3(Op3::Mul, size, Location::GPR(gpr), Location::GPR(tmp), Location::GPR(gpr)));
        self.release_gpr(tmp);
        assert(self@.used_gprs =~= old(self)@.used_gprs);
        assert(self@ =~= old(self)@.with_code(
            crate::inst::mov_imm_seq(tmp, imm32 as u64) + seq![
                Inst::Op3(Op3::Mul, size, Location::GPR(gpr), Location::GPR(tmp), Location::GPR(gpr)),
            ],
        ));
    }

    /// Unconditional branch to `label`.
    pub fn jmp_unconditionnal(&mut self, label: Label)
        requires
            old(self).wf(),
            old(self)@.room(1),
        ensures
            final(self).wf(),
            final(self)@ == old(self)@.with_code(seq![Inst::B(label)]),
    {
        self.emit(Inst::B(label));
    }

    /// Branch to `label` on equal.
    pub fn jmp_on_equal(&mut self, label: Label)
        requires
            old(self).wf(),
            old(self)@.room(1),
        ensures
            final(self).wf(),
            final(self)@ == old(self)@.with_code(seq![Inst::Bcond(Condition::Eq, label)]),
    {
        self.emit(Inst::Bcond(Condition::Eq, label));
    }

    /// Branch to `label` on not equal.
    pub fn jmp_on_different(&mut self, label: Label)
        requires
            old(self).wf(),
            old(self)@.room(1),
        ensures
            final(self).wf(),
            final(self)@ == old(self)@.with_code(seq![Inst::Bcond(Condition::Ne, label)]),
    {
        self.emit(Inst::Bcond(Condition::Ne, label));
    }

    /// Branch to `label` on unsigned greater.
    pub fn jmp_on_above(&mut self, label: Label)
        requires
            old(self).wf(),
            old(self)@.room(1),
        ensures
            final(self).wf(),
            final(self)@ == old(self)@.with_code(seq![Inst::Bcond(Condition::Hi, label)]),
    {
        self.emit(Inst::Bcond(Condition::Hi, label));
    }

    /// Branch to `label` on unsigned greater or equal.
    pub fn jmp_on_aboveequal(&mut self, label: Label)
        requires
            old(self).wf(),
            old(self)@.room(1),
        ensures
            final(self).wf(),
            final(self)@ == old(self)@.with_code(seq![Inst::Bcond(Condition::Cs, label)]),
    {
        self.emit(Inst::Bcond(Condition::Cs, label));
    }

    /// Branch to `label` on unsigned lower or equal.
    pub fn jmp_on_belowequal(&mut self, label: Label)
        requires
            old(self).wf(),
            old(self)@.room(1),
        ensures
            final(self).wf(),
            final(self)@ == old(self)@.with_code(seq![Inst::Bcond(Condition::Ls, label)]),
    {
        self.emit(Inst::Bcond(Condition::Ls, label));
    }

    /// Branch to `label` on carry.
    pub fn jmp_on_overflow(&mut self, label: Label)
        requires
            old(self).wf(),
            old(self)@.room(1),
        ensures
            final(self).wf(),
            final(self)@ == old(self)@.with_code(seq![Inst::Bcond(Condition::Cs, label)]),
    {
        self.emit(Inst::Bcond(Condition::Cs, label));
    }

    /// Call through `reg`.
    pub fn emit_call_register(&mut self, reg: GPR)
        requires
            old(self).wf(),
            old(self)@.room(1),
        ensures
            final(self).wf(),
            final(self)@ == old(self)@.with_code(seq![Inst::CallReg(reg)]),
    {
        self.emit(Inst::CallReg(reg));
    }

    /// Call `label`.
    pub fn emit_call_label(&mut self, label: Label)
        requires
            old(self).wf(),
            old(self)@.room(1),
        ensures
            final(self).wf(),
            final(self)@ == old(self)@.with_code(seq![Inst::CallLabel(label)]),
    {
        self.emit(Inst::CallLabel(label));
    }

    /// Return.
    pub fn emit_ret(&mut self)
        requires
            old(self).wf(),
            old(self)@.room(1),
        ensures
            final(self).wf(),
            final(self)@ == old(self)@.with_code(seq![Inst::Ret]),
    {
        self.emit(Inst::Ret);
    }

    /// Memory barrier.
    pub fn emit_memory_fence(&mut self)
        requires
            old(self).wf(),
            old(self)@.room(1),
        ensures
            final(self).wf(),
            final(self)@ == old(self)@.with_code(seq![Inst::Dmb]),
    {
        self.emit(Inst::Dmb);
    }

    /// Permanently undefined instruction.
    pub fn emit_illegal_op(&mut self)
        requires
            old(self).wf(),
            old(self)@.room(1),
        ensures
            final(self).wf(),
            final(self)@ == old(self)@.with_code(seq![Inst::Udf]),
    {
        self.emit(Inst::Udf);
    }

    /// Breakpoint.
    pub fn emit_debug_breakpoint(&mut self)
        requires
            old(self).wf(),
            old(self)@.room(1),
        ensures
            final(self).wf(),
            final(self)@ == old(self)@.with_code(seq![Inst::Brk]),
    {
        self.emit(Inst::Brk);
    }
}

} // verus!
