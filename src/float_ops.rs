//! The floating-point operators.

use crate::imm::ImmType;
use crate::inst::{Inst, Op2, Op3};
use crate::kernel::{binop3_neon_code, binop3_neon_ok, binop_neon_code, binop_neon_ok};
use crate::legalise::{move_code, move_ok, to_gpr, to_gpr_ok, to_neon, to_neon_ok};
use crate::machine::{first_free_temp_gpr, free_temp_gprs, MachineARM64};
use crate::regs::{Condition, GPR, Location, Size};
use vstd::prelude::*;

verus! {

broadcast use {crate::regs::lemma_gpr_idx_range, crate::regs::lemma_simd_idx_range};

/// The code of a floating-point comparison of `x` with `y` whose outcome
/// under `c` is set in `ret`.
pub open spec fn fcmp_code(used_gprs: Seq<bool>, used_simd: Seq<bool>, sz: Size, c: Condition, x: Location, y: Location, ret: Location) -> Seq<Inst> {
    let d = to_gpr(used_gprs, sz, ret, ImmType::NoImm, false, None);
    d.code + binop_neon_code(used_simd, d.used, Op2::Fcmp, sz, x, y, false) + seq![Inst::Cset(Size::S32, d.loc, c)] + if ret != d.loc {
        move_code(d.used, Size::S32, d.loc, ret)
    } else {
        seq![]
    }
}

pub open spec fn fcmp_ok(used_gprs: Seq<bool>, used_simd: Seq<bool>, sz: Size, x: Location, y: Location, ret: Location) -> bool {
    let d = to_gpr(used_gprs, sz, ret, ImmType::NoImm, false, None);
    &&& to_gpr_ok(used_gprs, sz, ret, ImmType::NoImm, false, None)
    &&& binop_neon_ok(used_simd, d.used, sz, x, y, false)
    &&& ret != d.loc ==> move_ok(d.used, Size::S32, d.loc, ret)
}

/// The mask that clears the sign bit of a value of size `sz`.
pub open spec fn abs_mask(sz: Size) -> Location {
    if sz == Size::S32 {
        Location::Imm32(0x7fff_ffff)
    } else {
        Location::Imm64(0x7fff_ffff_ffff_ffff)
    }
}

/// The code of a floating-point absolute value, through a temporary.
pub open spec fn fabs_code(used: Seq<bool>, sz: Size, loc: Location, ret: Location) -> Seq<Inst> {
    let t = first_free_temp_gpr(used)->Some_0;
    let u = used.update(t.idx(), true);
    move_code(u, sz, loc, Location::GPR(t)) + seq![
        Inst::Op3(Op3::And, sz, Location::GPR(t), abs_mask(sz), Location::GPR(t)),
    ] + move_code(u, sz, Location::GPR(t), ret)
}

pub open spec fn fabs_ok(used: Seq<bool>, sz: Size, loc: Location, ret: Location) -> bool {
    let t = first_free_temp_gpr(used)->Some_0;
    let u = used.update(t.idx(), true);
    &&& free_temp_gprs(used) >= 1
    &&& move_ok(u, sz, loc, Location::GPR(t))
    &&& move_ok(u, sz, Location::GPR(t), ret)
}

/// The code of an integer-to-float conversion from `loc` (size `isz`) into
/// `ret` (size `fsz`).
pub open spec fn int_to_float_code(
    used_gprs: Seq<bool>,
    used_simd: Seq<bool>,
    signed: bool,
    isz: Size,
    fsz: Size,
    loc: Location,
    ret: Location,
) -> Seq<Inst> {
    let s = to_gpr(used_gprs, isz, loc, ImmType::NoneXzr, true, None);
    let d = to_neon(used_simd, s.used, fsz, ret, ImmType::NoImm, false);
    s.code + d.code + seq![Inst::IntToFloat(signed, isz, s.loc, fsz, d.loc)] + if ret != d.loc {
        move_code(s.used, fsz, d.loc, ret)
    } else {
        seq![]
    }
}

pub open spec fn int_to_float_ok(used_gprs: Seq<bool>, used_simd: Seq<bool>, isz: Size, fsz: Size, loc: Location, ret: Location) -> bool {
    let s = to_gpr(used_gprs, isz, loc, ImmType::NoneXzr, true, None);
    let d = to_neon(used_simd, s.used, fsz, ret, ImmType::NoImm, false);
    &&& to_gpr_ok(used_gprs, isz, loc, ImmType::NoneXzr, true, None)
    &&& to_neon_ok(used_simd, s.used, fsz, ret, ImmType::NoImm, false)
    &&& ret != d.loc ==> move_ok(s.used, fsz, d.loc, ret)
}

/// The sign of `tmp2` with the magnitude of `tmp1`, into `tmp1`.
pub open spec fn copysign_code(sz: Size, tmp1: GPR, tmp2: GPR) -> Seq<Inst> {
    let sign = if sz == Size::S32 {
        Location::Imm32(0x8000_0000)
    } else {
        Location::Imm64(0x8000_0000_0000_0000)
    };
    seq![
        Inst::Op3(Op3::And, sz, Location::GPR(tmp1), abs_mask(sz), Location::GPR(tmp1)),
        Inst::Op3(Op3::And, sz, Location::GPR(tmp2), sign, Location::GPR(tmp2)),
        Inst::Op3(Op3::Orr, sz, Location::GPR(tmp1), Location::GPR(tmp2), Location::GPR(tmp1)),
    ]
}

impl MachineARM64 {
    /// Compares `x` with `y` as floats of size `sz` and sets `ret` to the
    /// outcome under `c`.
    pub fn emit_fcmp(&mut self, sz: Size, c: Condition, x: Location, y: Location, ret: Location)
        requires
            old(self).wf(),
            old(self)@.room(48),
            fcmp_ok(old(self)@.used_gprs, old(self)@.used_simd, sz, x, y, ret),
        ensures
            final(self).wf(),
            final(self)@ == old(self)@.with_code(fcmp_code(old(self)@.used_gprs, old(self)@.used_simd, sz, c, x, y, ret)),
    {
        let ghost base = self@.used_gprs;
        let mut temps: Vec<GPR> = Vec::new();
        let dest = self.to_reg(sz, ret, &mut temps, ImmType::NoImm, false, Ghost(base));
        let ghost d = to_gpr(base, sz, ret, ImmType::NoImm, false, None);
        assert(self@.used_gprs == d.used);
        self.emit_relaxed_binop_neon(Op2::Fcmp, sz, x, y, false);
        self.emit(Inst::Cset(Size::S32, dest, c));
        if ret != dest {
            self.move_location(Size::S32, dest, ret);
        }
        assert(self@.code =~= old(self)@.code + fcmp_code(base, old(self)@.used_simd, sz, c, x, y, ret));
        self.release_temps(temps, Ghost(base));
        assert(self@ =~= old(self)@.with_code(fcmp_code(base, old(self)@.used_simd, sz, c, x, y, ret)));
    }

    /// Clears the sign bit of `loc` into `ret`, through a temporary.
    pub fn emit_fabs(&mut self, sz: Size, loc: Location, ret: Location)
        requires
            old(self).wf(),
            old(self)@.room(24),
            fabs_ok(old(self)@.used_gprs, sz, loc, ret),
        ensures
            final(self).wf(),
            final(self)@ == old(self)@.with_code(fabs_code(old(self)@.used_gprs, sz, loc, ret)),
    {
        let tmp = self.acquire_temp_gpr().unwrap();
        self.move_location(sz, loc, Location::GPR(tmp));
        let mask = if sz == Size::S32 {
            Location::Imm32(0x7fff_ffff)
        } else {
            Location::Imm64(0x7fff_ffff_ffff_ffff)
        };
        self.emit(Inst::Op3(Op3::And, sz, Location::GPR(tmp), mask, Location::GPR(tmp)));
        self.move_location(sz, Location::GPR(tmp), ret);
        self.release_gpr(tmp);
        assert(self@.used_gprs =~= old(self)@.used_gprs);
        assert(self@ =~= old(self)@.with_code(fabs_code(old(self)@.used_gprs, sz, loc, ret)));
    }

    /// Converts the integer `loc` of size `isz`, signed or not, to a float of
    /// size `fsz` in `ret`.
    pub fn emit_int_to_float(&mut self, signed: bool, isz: Size, fsz: Size, loc: Location, ret: Location)
        requires
            old(self).wf(),
            old(self)@.room(24),
            int_to_float_ok(old(self)@.used_gprs, old(self)@.used_simd, isz, fsz, loc, ret),
        ensures
            final(self).wf(),
            final(self)@ == old(self)@.with_code(
                int_to_float_code(old(self)@.used_gprs, old(self)@.used_simd, signed, isz, fsz, loc, ret),
            ),
    {
        let ghost gbase = self@.used_gprs;
        let ghost sbase = self@.used_simd;
        let mut gprs: Vec<GPR> = Vec::new();
        let mut neons: Vec<crate::regs::NEON> = Vec::new();
        let src = self.to_reg(isz, loc, &mut gprs, ImmType::NoneXzr, true, Ghost(gbase));
        let dest = self.to_neon_reg(fsz, ret, &mut neons, ImmType::NoImm, false, Ghost(sbase));
        self.emit(Inst::IntToFloat(signed, isz, src, fsz, dest));
        if ret != dest {
            self.move_location(fsz, dest, ret);
        }
        self.release_temps(gprs, Ghost(gbase));
        self.release_simd_temps(neons, Ghost(sbase));
        assert(self@ =~= old(self)@.with_code(int_to_float_code(gbase, sbase, signed, isz, fsz, loc, ret)));
    }

    /// `tmp1` gets the magnitude of `tmp1` and the sign of `tmp2`; `tmp2` is
    /// clobbered.
    pub fn emit_copysign(&mut self, sz: Size, tmp1: GPR, tmp2: GPR)
        requires
            old(self).wf(),
            old(self)@.room(3),
        ensures
            final(self).wf(),
            final(self)@ == old(self)@.with_code(copysign_code(sz, tmp1, tmp2)),
    {
        let (mask, sign) = if sz == Size::S32 {
            (Location::Imm32(0x7fff_ffff), Location::Imm32(0x8000_0000))
        } else {
            (Location::Imm64(0x7fff_ffff_ffff_ffff), Location::Imm64(0x8000_0000_0000_0000))
        };
        self.emit(Inst::Op3(Op3::And, sz, Location::GPR(tmp1), mask, Location::GPR(tmp1)));
        self.emit(Inst::Op3(Op3::And, sz, Location::GPR(tmp2), sign, Location::GPR(tmp2)));
        self.emit(Inst::Op3(Op3::Orr, sz, Location::GPR(tmp1), Location::GPR(tmp2), Location::GPR(tmp1)));
        assert(self@ =~= old(self)@.with_code(copysign_code(sz, tmp1, tmp2)));
    }

    /// Wasm `f32.add`.
    pub fn f32_add(&mut self, loc_a: Location, loc_b: Location, ret: Location)
        requires
            old(self).wf(),
            old(self)@.room(32),
            binop3_neon_ok(old(self)@.used_simd, old(self)@.used_gprs, Size::S32, loc_a, loc_b, ret, ImmType::NoImm),
        ensures
            final(self).wf(),
            final(self)@ == old(self)@.with_code(
                binop3_neon_code(old(self)@.used_simd, old(self)@.used_gprs, Op3::Fadd, Size::S32, loc_a, loc_b, ret, ImmType::NoImm),
            ),
    {
        self.emit_relaxed_binop3_neon(Op3::Fadd, Size::S32, loc_a, loc_b, ret, ImmType::NoImm);
    }

    /// Wasm `f32.sub`.
    pub fn f32_sub(&mut self, loc_a: Location, loc_b: Location, ret: Location)
        requires
            old(self).wf(),
            old(self)@.room(32),
            binop3_neon_ok(old(self)@.used_simd, old(self)@.used_gprs, Size::S32, loc_a, loc_b, ret, ImmType::NoImm),
        ensures
            final(self).wf(),
            final(self)@ == old(self)@.with_code(
                binop3_neon_code(old(self)@.used_simd, old(self)@.used_gprs, Op3::Fsub, Size::S32, loc_a, loc_b, ret, ImmType::NoImm),
            ),
    {
        self.emit_relaxed_binop3_neon(Op3::Fsub, Size::S32, loc_a, loc_b, ret, ImmType::NoImm);
    }

    /// Wasm `f32.mul`.
    pub fn f32_mul(&mut self, loc_a: Location, loc_b: Location, ret: Location)
        requires
            old(self).wf(),
            old(self)@.room(32),
            binop3_neon_ok(old(self)@.used_simd, old(self)@.used_gprs, Size::S32, loc_a, loc_b, ret, ImmType::NoImm),
        ensures
            final(self).wf(),
            final(self)@ == old(self)@.with_code(
                binop3_neon_code(old(self)@.used_simd, old(self)@.used_gprs, Op3::Fmul, Size::S32, loc_a, loc_b, ret, ImmType::NoImm),
            ),
    {
        self.emit_relaxed_binop3_neon(Op3::Fmul, Size::S32, loc_a, loc_b, ret, ImmType::NoImm);
    }

    /// Wasm `f32.div`.
    pub fn f32_div(&mut self, loc_a: Location, loc_b: Location, ret: Location)
        requires
            old(self).wf(),
            old(self)@.room(32),
            binop3_neon_ok(old(self)@.used_simd, old(self)@.used_gprs, Size::S32, loc_a, loc_b, ret, ImmType::NoImm),
        ensures
            final(self).wf(),
            final(self)@ == old(self)@.with_code(
                binop3_neon_code(old(self)@.used_simd, old(self)@.used_gprs, Op3::Fdiv, Size::S32, loc_a, loc_b, ret, ImmType::NoImm),
            ),
    {
        self.emit_relaxed_binop3_neon(Op3::Fdiv, Size::S32, loc_a, loc_b, ret, ImmType::NoImm);
    }

    /// Wasm `f32.min`.
    pub fn f32_min(&mut self, loc_a: Location, loc_b: Location, ret: Location)
        requires
            old(self).wf(),
            old(self)@.room(32),
            binop3_neon_ok(old(self)@.used_simd, old(self)@.used_gprs, Size::S32, loc_a, loc_b, ret, ImmType::NoImm),
        ensures
            final(self).wf(),
            final(self)@ == old(self)@.with_code(
                binop3_neon_code(old(self)@.used_simd, old(self)@.used_gprs, Op3::Fmin, Size::S32, loc_a, loc_b, ret, ImmType::NoImm),
            ),
    {
        self.emit_relaxed_binop3_neon(Op3::Fmin, Size::S32, loc_a, loc_b, ret, ImmType::NoImm);
    }

    /// Wasm `f32.max`.
    pub fn f32_max(&mut self, loc_a: Location, loc_b: Location, ret: Location)
        requires
            old(self).wf(),
            old(self)@.room(32),
            binop3_neon_ok(old(self)@.used_simd, old(self)@.used_gprs, Size::S32, loc_a, loc_b, ret, ImmType::NoImm),
        ensures
            final(self).wf(),
            final(self)@ == old(self)@.with_code(
                binop3_neon_code(old(self)@.used_simd, old(self)@.used_gprs, Op3::Fmax, Size::S32, loc_a, loc_b, ret, ImmType::NoImm),
            ),
    {
        self.emit_relaxed_binop3_neon(Op3::Fmax, Size::S32, loc_a, loc_b, ret, ImmType::NoImm);
    }

    /// Wasm `f32.neg`.
    pub fn f32_neg(&mut self, loc: Location, ret: Location)
        requires
            old(self).wf(),
            old(self)@.room(24),
            binop_neon_ok(old(self)@.used_simd, old(self)@.used_gprs, Size::S32, loc, ret, true),
        ensures
            final(self).wf(),
            final(self)@ == old(self)@.with_code(
                binop_neon_code(old(self)@.used_simd, old(self)@.used_gprs, Op2::Fneg, Size::S32, loc, ret, true),
            ),
    {
        self.emit_relaxed_binop_neon(Op2::Fneg, Size::S32, loc, ret, true);
    }

    /// Wasm `f32.sqrt`.
    pub fn f32_sqrt(&mut self, loc: Location, ret: Location)
        requires
            old(self).wf(),
            old(self)@.room(24),
            binop_neon_ok(old(self)@.used_simd, old(self)@.used_gprs, Size::S32, loc, ret, true),
        ensures
            final(self).wf(),
            final(self)@ == old(self)@.with_code(
                binop_neon_code(old(self)@.used_simd, old(self)@.used_gprs, Op2::Fsqrt, Size::S32, loc, ret, true),
            ),
    {
        self.emit_relaxed_binop_neon(Op2::Fsqrt, Size::S32, loc, ret, true);
    }

    /// Wasm `convert_f32_f64`.
    pub fn convert_f32_f64(&mut self, loc: Location, ret: Location)
        requires
            old(self).wf(),
            old(self)@.room(24),
            binop_neon_ok(old(self)@.used_simd, old(self)@.used_gprs, Size::S64, loc, ret, true),
        ensures
            final(self).wf(),
            final(self)@ == old(self)@.with_code(
                binop_neon_code(old(self)@.used_simd, old(self)@.used_gprs, Op2::Fcvt, Size::S64, loc, ret, true),
            ),
    {
        self.emit_relaxed_binop_neon(Op2::Fcvt, Size::S64, loc, ret, true);
    }

    /// Wasm `f32.ge`: NaN operands give 0.
    pub fn f32_cmp_ge(&mut self, loc_a: Location, loc_b: Location, ret: Location)
        requires
            old(self).wf(),
            old(self)@.room(48),
            fcmp_ok(old(self)@.used_gprs, old(self)@.used_simd, Size::S32, loc_b, loc_a, ret),
        ensures
            final(self).wf(),
            final(self)@ == old(self)@.with_code(
                fcmp_code(old(self)@.used_gprs, old(self)@.used_simd, Size::S32, Condition::Ls, loc_b, loc_a, ret),
            ),
    {
        self.emit_fcmp(Size::S32, Condition::Ls, loc_b, loc_a, ret);
    }

    /// Wasm `f32.gt`: NaN operands give 0.
    pub fn f32_cmp_gt(&mut self, loc_a: Location, loc_b: Location, ret: Location)
        requires
            old(self).wf(),
            old(self)@.room(48),
            fcmp_ok(old(self)@.used_gprs, old(self)@.used_simd, Size::S32, loc_b, loc_a, ret),
        ensures
            final(self).wf(),
            final(self)@ == old(self)@.with_code(
                fcmp_code(old(self)@.used_gprs, old(self)@.used_simd, Size::S32, Condition::Cc, loc_b, loc_a, ret),
            ),
    {
        self.emit_fcmp(Size::S32, Condition::Cc, loc_b, loc_a, ret);
    }

    /// Wasm `f32.le`: NaN operands give 0.
    pub fn f32_cmp_le(&mut self, loc_a: Location, loc_b: Location, ret: Location)
        requires
            old(self).wf(),
            old(self)@.room(48),
            fcmp_ok(old(self)@.used_gprs, old(self)@.used_simd, Size::S32, loc_a, loc_b, ret),
        ensures
            final(self).wf(),
            final(self)@ == old(self)@.with_code(
                fcmp_code(old(self)@.used_gprs, old(self)@.used_simd, Size::S32, Condition::Ls, loc_a, loc_b, ret),
            ),
    {
        self.emit_fcmp(Size::S32, Condition::Ls, loc_a, loc_b, ret);
    }

    /// Wasm `f32.lt`: NaN operands give 0.
    pub fn f32_cmp_lt(&mut self, loc_a: Location, loc_b: Location, ret: Location)
        requires
            old(self).wf(),
            old(self)@.room(48),
            fcmp_ok(old(self)@.used_gprs, old(self)@.used_simd, Size::S32, loc_a, loc_b, ret),
        ensures
            final(self).wf(),
            final(self)@ == old(self)@.with_code(
                fcmp_code(old(self)@.used_gprs, old(self)@.used_simd, Size::S32, Condition::Cc, loc_a, loc_b, ret),
            ),
    {
        self.emit_fcmp(Size::S32, Condition::Cc, loc_a, loc_b, ret);
    }

    /// Wasm `f32.ne`: NaN operands give 0.
    pub fn f32_cmp_ne(&mut self, loc_a: Location, loc_b: Location, ret: Location)
        requires
            old(self).wf(),
            old(self)@.room(48),
            fcmp_ok(old(self)@.used_gprs, old(self)@.used_simd, Size::S32, loc_a, loc_b, ret),
        ensures
            final(self).wf(),
            final(self)@ == old(self)@.with_code(
                fcmp_code(old(self)@.used_gprs, old(self)@.used_simd, Size::S32, Condition::Ne, loc_a, loc_b, ret),
            ),
    {
        self.emit_fcmp(Size::S32, Condition::Ne, loc_a, loc_b, ret);
    }

    /// Wasm `f32.eq`: NaN operands give 0.
    pub fn f32_cmp_eq(&mut self, loc_a: Location, loc_b: Location, ret: Location)
        requires
            old(self).wf(),
            old(self)@.room(48),
            fcmp_ok(old(self)@.used_gprs, old(self)@.used_simd, Size::S32, loc_a, loc_b, ret),
        ensures
            final(self).wf(),
            final(self)@ == old(self)@.with_code(
                fcmp_code(old(self)@.used_gprs, old(self)@.used_simd, Size::S32, Condition::Eq, loc_a, loc_b, ret),
            ),
    {
        self.emit_fcmp(Size::S32, Condition::Eq, loc_a, loc_b, ret);
    }

    /// Wasm `f32.abs`.
    pub fn f32_abs(&mut self, loc: Location, ret: Location)
        requires
            old(self).wf(),
            old(self)@.room(24),
            fabs_ok(old(self)@.used_gprs, Size::S32, loc, ret),
        ensures
            final(self).wf(),
            final(self)@ == old(self)@.with_code(fabs_code(old(self)@.used_gprs, Size::S32, loc, ret)),
    {
        self.emit_fabs(Size::S32, loc, ret);
    }

    /// The 32-bit copysign on integer registers.
    pub fn emit_i32_copysign(&mut self, tmp1: GPR, tmp2: GPR)
        requires
            old(self).wf(),
            old(self)@.room(3),
        ensures
            final(self).wf(),
            final(self)@ == old(self)@.with_code(copysign_code(Size::S32, tmp1, tmp2)),
    {
        self.emit_copysign(Size::S32, tmp1, tmp2);
    }

    /// Wasm `f64.add`.
    pub fn f64_add(&mut self, loc_a: Location, loc_b: Location, ret: Location)
        requires
            old(self).wf(),
            old(self)@.room(32),
            binop3_neon_ok(old(self)@.used_simd, old(self)@.used_gprs, Size::S64, loc_a, loc_b, ret, ImmType::NoImm),
        ensures
            final(self).wf(),
            final(self)@ == old(self)@.with_code(
                binop3_neon_code(old(self)@.used_simd, old(self)@.used_gprs, Op3::Fadd, Size::S64, loc_a, loc_b, ret, ImmType::NoImm),
            ),
    {
        self.emit_relaxed_binop3_neon(Op3::Fadd, Size::S64, loc_a, loc_b, ret, ImmType::NoImm);
    }

    /// Wasm `f64.sub`.
    pub fn f64_sub(&mut self, loc_a: Location, loc_b: Location, ret: Location)
        requires
            old(self).wf(),
            old(self)@.room(32),
            binop3_neon_ok(old(self)@.used_simd, old(self)@.used_gprs, Size::S64, loc_a, loc_b, ret, ImmType::NoImm),
        ensures
            final(self).wf(),
            final(self)@ == old(self)@.with_code(
                binop3_neon_code(old(self)@.used_simd, old(self)@.used_gprs, Op3::Fsub, Size::S64, loc_a, loc_b, ret, ImmType::NoImm),
            ),
    {
        self.emit_relaxed_binop3_neon(Op3::Fsub, Size::S64, loc_a, loc_b, ret, ImmType::NoImm);
    }

    /// Wasm `f64.mul`.
    pub fn f64_mul(&mut self, loc_a: Location, loc_b: Location, ret: Location)
        requires
            old(self).wf(),
            old(self)@.room(32),
            binop3_neon_ok(old(self)@.used_simd, old(self)@.used_gprs, Size::S64, loc_a, loc_b, ret, ImmType::NoImm),
        ensures
            final(self).wf(),
            final(self)@ == old(self)@.with_code(
                binop3_neon_code(old(self)@.used_simd, old(self)@.used_gprs, Op3::Fmul, Size::S64, loc_a, loc_b, ret, ImmType::NoImm),
            ),
    {
        self.emit_relaxed_binop3_neon(Op3::Fmul, Size::S64, loc_a, loc_b, ret, ImmType::NoImm);
    }

    /// Wasm `f64.div`.
    pub fn f64_div(&mut self, loc_a: Location, loc_b: Location, ret: Location)
        requires
            old(self).wf(),
            old(self)@.room(32),
            binop3_neon_ok(old(self)@.used_simd, old(self)@.used_gprs, Size::S64, loc_a, loc_b, ret, ImmType::NoImm),
        ensures
            final(self).wf(),
            final(self)@ == old(self)@.with_code(
                binop3_neon_code(old(self)@.used_simd, old(self)@.used_gprs, Op3::Fdiv, Size::S64, loc_a, loc_b, ret, ImmType::NoImm),
            ),
    {
        self.emit_relaxed_binop3_neon(Op3::Fdiv, Size::S64, loc_a, loc_b, ret, ImmType::NoImm);
    }

    /// Wasm `f64.min`.
    pub fn f64_min(&mut self, loc_a: Location, loc_b: Location, ret: Location)
        requires
            old(self).wf(),
            old(self)@.room(32),
            binop3_neon_ok(old(self)@.used_simd, old(self)@.used_gprs, Size::S64, loc_a, loc_b, ret, ImmType::NoImm),
        ensures
            final(self).wf(),
            final(self)@ == old(self)@.with_code(
                binop3_neon_code(old(self)@.used_simd, old(self)@.used_gprs, Op3::Fmin, Size::S64, loc_a, loc_b, ret, ImmType::NoImm),
            ),
    {
        self.emit_relaxed_binop3_neon(Op3::Fmin, Size::S64, loc_a, loc_b, ret, ImmType::NoImm);
    }

    /// Wasm `f64.max`.
    pub fn f64_max(&mut self, loc_a: Location, loc_b: Location, ret: Location)
        requires
            old(self).wf(),
            old(self)@.room(32),
            binop3_neon_ok(old(self)@.used_simd, old(self)@.used_gprs, Size::S64, loc_a, loc_b, ret, ImmType::NoImm),
        ensures
            final(self).wf(),
            final(self)@ == old(self)@.with_code(
                binop3_neon_code(old(self)@.used_simd, old(self)@.used_gprs, Op3::Fmax, Size::S64, loc_a, loc_b, ret, ImmType::NoImm),
            ),
    {
        self.emit_relaxed_binop3_neon(Op3::Fmax, Size::S64, loc_a, loc_b, ret, ImmType::NoImm);
    }

    /// Wasm `f64.neg`.
    pub fn f64_neg(&mut self, loc: Location, ret: Location)
        requires
            old(self).wf(),
            old(self)@.room(24),
            binop_neon_ok(old(self)@.used_simd, old(self)@.used_gprs, Size::S64, loc, ret, true),
        ensures
            final(self).wf(),
            final(self)@ == old(self)@.with_code(
                binop_neon_code(old(self)@.used_simd, old(self)@.used_gprs, Op2::Fneg, Size::S64, loc, ret, true),
            ),
    {
        self.emit_relaxed_binop_neon(Op2::Fneg, Size::S64, loc, ret, true);
    }

    /// Wasm `f64.sqrt`.
    pub fn f64_sqrt(&mut self, loc: Location, ret: Location)
        requires
            old(self).wf(),
            old(self)@.room(24),
            binop_neon_ok(old(self)@.used_simd, old(self)@.used_gprs, Size::S64, loc, ret, true),
        ensures
            final(self).wf(),
            final(self)@ == old(self)@.with_code(
                binop_neon_code(old(self)@.used_simd, old(self)@.used_gprs, Op2::Fsqrt, Size::S64, loc, ret, true),
            ),
    {
        self.emit_relaxed_binop_neon(Op2::Fsqrt, Size::S64, loc, ret, true);
    }

    /// Wasm `convert_f64_f32`.
    pub fn convert_f64_f32(&mut self, loc: Location, ret: Location)
        requires
            old(self).wf(),
            old(self)@.room(24),
            binop_neon_ok(old(self)@.used_simd, old(self)@.used_gprs, Size::S32, loc, ret, true),
        ensures
            final(self).wf(),
            final(self)@ == old(self)@.with_code(
                binop_neon_code(old(self)@.used_simd, old(self)@.used_gprs, Op2::Fcvt, Size::S32, loc, ret, true),
            ),
    {
        self.emit_relaxed_binop_neon(Op2::Fcvt, Size::S32, loc, ret, true);
    }

    /// Wasm `f64.ge`: NaN operands give 0.
    pub fn f64_cmp_ge(&mut self, loc_a: Location, loc_b: Location, ret: Location)
        requires
            old(self).wf(),
            old(self)@.room(48),
            fcmp_ok(old(self)@.used_gprs, old(self)@.used_simd, Size::S64, loc_b, loc_a, ret),
        ensures
            final(self).wf(),
            final(self)@ == old(self)@.with_code(
                fcmp_code(old(self)@.used_gprs, old(self)@.used_simd, Size::S64, Condition::Ls, loc_b, loc_a, ret),
            ),
    {
        self.emit_fcmp(Size::S64, Condition::Ls, loc_b, loc_a, ret);
    }

    /// Wasm `f64.gt`: NaN operands give 0.
    pub fn f64_cmp_gt(&mut self, loc_a: Location, loc_b: Location, ret: Location)
        requires
            old(self).wf(),
            old(self)@.room(48),
            fcmp_ok(old(self)@.used_gprs, old(self)@.used_simd, Size::S64, loc_b, loc_a, ret),
        ensures
            final(self).wf(),
            final(self)@ == old(self)@.with_code(
                fcmp_code(old(self)@.used_gprs, old(self)@.used_simd, Size::S64, Condition::Cc, loc_b, loc_a, ret),
            ),
    {
        self.emit_fcmp(Size::S64, Condition::Cc, loc_b, loc_a, ret);
    }

    /// Wasm `f64.le`: NaN operands give 0.
    pub fn f64_cmp_le(&mut self, loc_a: Location, loc_b: Location, ret: Location)
        requires
            old(self).wf(),
            old(self)@.room(48),
            fcmp_ok(old(self)@.used_gprs, old(self)@.used_simd, Size::S64, loc_a, loc_b, ret),
        ensures
            final(self).wf(),
            final(self)@ == old(self)@.with_code(
                fcmp_code(old(self)@.used_gprs, old(self)@.used_simd, Size::S64, Condition::Ls, loc_a, loc_b, ret),
            ),
    {
        self.emit_fcmp(Size::S64, Condition::Ls, loc_a, loc_b, ret);
    }

    /// Wasm `f64.lt`: NaN operands give 0.
    pub fn f64_cmp_lt(&mut self, loc_a: Location, loc_b: Location, ret: Location)
        requires
            old(self).wf(),
            old(self)@.room(48),
            fcmp_ok(old(self)@.used_gprs, old(self)@.used_simd, Size::S64, loc_a, loc_b, ret),
        ensures
            final(self).wf(),
            final(self)@ == old(self)@.with_code(
                fcmp_code(old(self)@.used_gprs, old(self)@.used_simd, Size::S64, Condition::Cc, loc_a, loc_b, ret),
            ),
    {
        self.emit_fcmp(Size::S64, Condition::Cc, loc_a, loc_b, ret);
    }

    /// Wasm `f64.ne`: NaN operands give 0.
    pub fn f64_cmp_ne(&mut self, loc_a: Location, loc_b: Location, ret: Location)
        requires
            old(self).wf(),
            old(self)@.room(48),
            fcmp_ok(old(self)@.used_gprs, old(self)@.used_simd, Size::S64, loc_a, loc_b, ret),
        ensures
            final(self).wf(),
            final(self)@ == old(self)@.with_code(
                fcmp_code(old(self)@.used_gprs, old(self)@.used_simd, Size::S64, Condition::Ne, loc_a, loc_b, ret),
            ),
    {
        self.emit_fcmp(Size::S64, Condition::Ne, loc_a, loc_b, ret);
    }

    /// Wasm `f64.eq`: NaN operands give 0.
    pub fn f64_cmp_eq(&mut self, loc_a: Location, loc_b: Location, ret: Location)
        requires
            old(self).wf(),
            old(self)@.room(48),
            fcmp_ok(old(self)@.used_gprs, old(self)@.used_simd, Size::S64, loc_a, loc_b, ret),
        ensures
            final(self).wf(),
            final(self)@ == old(self)@.with_code(
                fcmp_code(old(self)@.used_gprs, old(self)@.used_simd, Size::S64, Condition::Eq, loc_a, loc_b, ret),
            ),
    {
        self.emit_fcmp(Size::S64, Condition::Eq, loc_a, loc_b, ret);
    }

    /// Wasm `f64.abs`.
    pub fn f64_abs(&mut self, loc: Location, ret: Location)
        requires
            old(self).wf(),
            old(self)@.room(24),
            fabs_ok(old(self)@.used_gprs, Size::S64, loc, ret),
        ensures
            final(self).wf(),
            final(self)@ == old(self)@.with_code(fabs_code(old(self)@.used_gprs, Size::S64, loc, ret)),
    {
        self.emit_fabs(Size::S64, loc, ret);
    }

    /// The 64-bit copysign on integer registers.
    pub fn emit_i64_copysign(&mut self, tmp1: GPR, tmp2: GPR)
        requires
            old(self).wf(),
            old(self)@.room(3),
        ensures
            final(self).wf(),
            final(self)@ == old(self)@.with_code(copysign_code(Size::S64, tmp1, tmp2)),
    {
        self.emit_copysign(Size::S64, tmp1, tmp2);
    }

    /// Wasm `f64.convert_i64_s` / `_u`.
    pub fn convert_f64_i64(&mut self, loc: Location, signed: bool, ret: Location)
        requires
            old(self).wf(),
            old(self)@.room(24),
            int_to_float_ok(old(self)@.used_gprs, old(self)@.used_simd, Size::S64, Size::S64, loc, ret),
        ensures
            final(self).wf(),
            final(self)@ == old(self)@.with_code(
                int_to_float_code(old(self)@.used_gprs, old(self)@.used_simd, signed, Size::S64, Size::S64, loc, ret),
            ),
    {
        self.emit_int_to_float(signed, Size::S64, Size::S64, loc, ret);
    }

    /// Wasm `f64.convert_i32_s` / `_u`.
    pub fn convert_f64_i32(&mut self, loc: Location, signed: bool, ret: Location)
        requires
            old(self).wf(),
            old(self)@.room(24),
            int_to_float_ok(old(self)@.used_gprs, old(self)@.used_simd, Size::S32, Size::S64, loc, ret),
        ensures
            final(self).wf(),
            final(self)@ == old(self)@.with_code(
                int_to_float_code(old(self)@.used_gprs, old(self)@.used_simd, signed, Size::S32, Size::S64, loc, ret),
            ),
    {
        self.emit_int_to_float(signed, Size::S32, Size::S64, loc, ret);
    }

    /// Wasm `f32.convert_i64_s` / `_u`.
    pub fn convert_f32_i64(&mut self, loc: Location, signed: bool, ret: Location)
        requires
            old(self).wf(),
            old(self)@.room(24),
            int_to_float_ok(old(self)@.used_gprs, old(self)@.used_simd, Size::S64, Size::S32, loc, ret),
        ensures
            final(self).wf(),
            final(self)@ == old(self)@.with_code(
                int_to_float_code(old(self)@.used_gprs, old(self)@.used_simd, signed, Size::S64, Size::S32, loc, ret),
            ),
    {
        self.emit_int_to_float(signed, Size::S64, Size::S32, loc, ret);
    }

    /// Wasm `f32.convert_i32_s` / `_u`.
    pub fn convert_f32_i32(&mut self, loc: Location, signed: bool, ret: Location)
        requires
            old(self).wf(),
            old(self)@.room(24),
            int_to_float_ok(old(self)@.used_gprs, old(self)@.used_simd, Size::S32, Size::S32, loc, ret),
        ensures
            final(self).wf(),
            final(self)@ == old(self)@.with_code(
                int_to_float_code(old(self)@.used_gprs, old(self)@.used_simd, signed, Size::S32, Size::S32, loc, ret),
            ),
    {
        self.emit_int_to_float(signed, Size::S32, Size::S32, loc, ret);
    }
}

} // verus!
