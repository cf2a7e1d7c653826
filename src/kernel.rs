//! The emission skeletons most operators reduce to: two- and three-operand
//! operations, relaxed loads and stores, and comparisons into a location.

use crate::imm::{compatible_imm, fits, ImmType};
use crate::inst::{mov_imm_seq, Inst, LoadKind, Op2, Op3, StoreKind};
use crate::legalise::{move_code, move_ok, to_gpr, to_gpr_ok, to_neon, to_neon_ok, with_temps};
use crate::machine::{first_free_temp_gpr, free_temp_gprs, MachineARM64};
use crate::regs::{Condition, GPR, Location, Multiplier, Size};
use vstd::prelude::*;

verus! {

broadcast use {crate::regs::lemma_gpr_idx_range, crate::regs::lemma_simd_idx_range};

/// The source-immediate kind of a two-operand operation: an add-style
/// immediate unless the result is written back.
pub open spec fn binop_src_imm(putback: bool) -> ImmType {
    if putback {
        ImmType::NoImm
    } else {
        ImmType::Bits12
    }
}

/// The code of `emit_relaxed_binop(op, sz, src, dst, putback)`.
#[verifier::opaque]
pub open spec fn binop_code(used: Seq<bool>, op: Op2, sz: Size, src: Location, dst: Location, putback: bool) -> Seq<Inst> {
    let l1 = to_gpr(used, sz, src, binop_src_imm(putback), true, None);
    let l2 = to_gpr(l1.used, sz, dst, ImmType::NoImm, !putback, None);
    l1.code + l2.code + seq![Inst::Op2(op, sz, l1.loc, l2.loc)] + if dst != l2.loc && putback {
        move_code(l2.used, sz, l2.loc, dst)
    } else {
        seq![]
    }
}

#[verifier::opaque]
pub open spec fn binop_ok(used: Seq<bool>, sz: Size, src: Location, dst: Location, putback: bool) -> bool {
    let l1 = to_gpr(used, sz, src, binop_src_imm(putback), true, None);
    let l2 = to_gpr(l1.used, sz, dst, ImmType::NoImm, !putback, None);
    &&& to_gpr_ok(used, sz, src, binop_src_imm(putback), true, None)
    &&& to_gpr_ok(l1.used, sz, dst, ImmType::NoImm, !putback, None)
    &&& (dst != l2.loc && putback) ==> move_ok(l2.used, sz, l2.loc, dst)
}

/// The code of `emit_relaxed_binop3(op, sz, a, b, dst, allow_imm)`.
#[verifier::opaque]
pub open spec fn binop3_code(
    used: Seq<bool>,
    op: Op3,
    sz: Size,
    a: Location,
    b: Location,
    dst: Location,
    allow_imm: ImmType,
) -> Seq<Inst> {
    let l1 = to_gpr(used, sz, a, ImmType::NoImm, true, None);
    let l2 = to_gpr(l1.used, sz, b, allow_imm, true, None);
    let l3 = to_gpr(l2.used, sz, dst, ImmType::NoImm, false, None);
    l1.code + l2.code + l3.code + seq![Inst::Op3(op, sz, l1.loc, l2.loc, l3.loc)] + if dst != l3.loc {
        move_code(l3.used, sz, l3.loc, dst)
    } else {
        seq![]
    }
}

#[verifier::opaque]
pub open spec fn binop3_ok(
    used: Seq<bool>,
    sz: Size,
    a: Location,
    b: Location,
    dst: Location,
    allow_imm: ImmType,
) -> bool {
    let l1 = to_gpr(used, sz, a, ImmType::NoImm, true, None);
    let l2 = to_gpr(l1.used, sz, b, allow_imm, true, None);
    let l3 = to_gpr(l2.used, sz, dst, ImmType::NoImm, false, None);
    &&& to_gpr_ok(used, sz, a, ImmType::NoImm, true, None)
    &&& to_gpr_ok(l1.used, sz, b, allow_imm, true, None)
    &&& to_gpr_ok(l2.used, sz, dst, ImmType::NoImm, false, None)
    &&& dst != l3.loc ==> move_ok(l3.used, sz, l3.loc, dst)
}

/// The code of `emit_relaxed_binop_neon(op, sz, src, dst, putback)`.
#[verifier::opaque]
pub open spec fn binop_neon_code(
    used: Seq<bool>,
    used_gprs: Seq<bool>,
    op: Op2,
    sz: Size,
    src: Location,
    dst: Location,
    putback: bool,
) -> Seq<Inst> {
    let l1 = to_neon(used, used_gprs, sz, src, ImmType::NoImm, true);
    let l2 = to_neon(l1.used, used_gprs, sz, dst, ImmType::NoImm, !putback);
    l1.code + l2.code + seq![Inst::Op2(op, sz, l1.loc, l2.loc)] + if dst != l2.loc && putback {
        move_code(used_gprs, sz, l2.loc, dst)
    } else {
        seq![]
    }
}

#[verifier::opaque]
pub open spec fn binop_neon_ok(
    used: Seq<bool>,
    used_gprs: Seq<bool>,
    sz: Size,
    src: Location,
    dst: Location,
    putback: bool,
) -> bool {
    let l1 = to_neon(used, used_gprs, sz, src, ImmType::NoImm, true);
    let l2 = to_neon(l1.used, used_gprs, sz, dst, ImmType::NoImm, !putback);
    &&& to_neon_ok(used, used_gprs, sz, src, ImmType::NoImm, true)
    &&& to_neon_ok(l1.used, used_gprs, sz, dst, ImmType::NoImm, !putback)
    &&& (dst != l2.loc && putback) ==> move_ok(used_gprs, sz, l2.loc, dst)
}

/// The code of `emit_relaxed_binop3_neon(op, sz, a, b, dst, allow_imm)`.
#[verifier::opaque]
pub open spec fn binop3_neon_code(
    used: Seq<bool>,
    used_gprs: Seq<bool>,
    op: Op3,
    sz: Size,
    a: Location,
    b: Location,
    dst: Location,
    allow_imm: ImmType,
) -> Seq<Inst> {
    let l1 = to_neon(used, used_gprs, sz, a, ImmType::NoImm, true);
    let l2 = to_neon(l1.used, used_gprs, sz, b, allow_imm, true);
    let l3 = to_neon(l2.used, used_gprs, sz, dst, ImmType::NoImm, false);
    l1.code + l2.code + l3.code + seq![Inst::Op3(op, sz, l1.loc, l2.loc, l3.loc)] + if dst != l3.loc {
        move_code(used_gprs, sz, l3.loc, dst)
    } else {
        seq![]
    }
}

#[verifier::opaque]
pub open spec fn binop3_neon_ok(
    used: Seq<bool>,
    used_gprs: Seq<bool>,
    sz: Size,
    a: Location,
    b: Location,
    dst: Location,
    allow_imm: ImmType,
) -> bool {
    let l1 = to_neon(used, used_gprs, sz, a, ImmType::NoImm, true);
    let l2 = to_neon(l1.used, used_gprs, sz, b, allow_imm, true);
    let l3 = to_neon(l2.used, used_gprs, sz, dst, ImmType::NoImm, false);
    &&& to_neon_ok(used, used_gprs, sz, a, ImmType::NoImm, true)
    &&& to_neon_ok(l1.used, used_gprs, sz, b, allow_imm, true)
    &&& to_neon_ok(l2.used, used_gprs, sz, dst, ImmType::NoImm, false)
    &&& dst != l3.loc ==> move_ok(used_gprs, sz, l3.loc, dst)
}

/// How a relaxed load or store addresses memory: the instruction kind, its
/// operand size, the scaled-offset kind, and whether the unscaled form may be
/// used.
#[derive(Clone, Copy, Debug, PartialEq, Eq, Structural)]
pub struct AccessForm {
    pub opsz: Size,
    pub scaled: ImmType,
    pub unscaled: bool,
}

/// Whether an access at offset `off` needs a scratch register for it.
pub open spec fn access_needs_temp(f: AccessForm, off: i32) -> bool {
    !fits(off as i64, f.scaled) && !(f.unscaled && fits(off as i64, ImmType::UnscaledOffset))
}

/// The load of `dest` from `src` (a `Memory` operand), with `used` the
/// register-use state before it.
pub open spec fn load_body(used: Seq<bool>, kind: LoadKind, f: AccessForm, dest: Location, src: Location) -> Seq<Inst> {
    match src {
        Location::Memory(addr, off) => if fits(off as i64, f.scaled) {
            seq![Inst::Load(kind, f.opsz, dest, src)]
        } else if f.unscaled && fits(off as i64, ImmType::UnscaledOffset) {
            seq![Inst::Ldur(f.opsz, dest, addr, off)]
        } else {
            let t = first_free_temp_gpr(used)->Some_0;
            mov_imm_seq(t, off as u64) + seq![
                Inst::Load(kind, f.opsz, dest, Location::Memory2(addr, t, Multiplier::One, 0)),
            ]
        },
        _ => seq![],
    }
}

/// The store of `value` to `dst` (a `Memory` operand).
pub open spec fn store_body(used: Seq<bool>, kind: StoreKind, f: AccessForm, value: Location, dst: Location) -> Seq<Inst> {
    match dst {
        Location::Memory(addr, off) => if fits(off as i64, f.scaled) {
            seq![Inst::Store(kind, f.opsz, value, dst)]
        } else if f.unscaled && fits(off as i64, ImmType::UnscaledOffset) {
            seq![Inst::Stur(f.opsz, value, addr, off)]
        } else {
            let t = first_free_temp_gpr(used)->Some_0;
            mov_imm_seq(t, off as u64) + seq![
                Inst::Store(kind, f.opsz, value, Location::Memory2(addr, t, Multiplier::One, 0)),
            ]
        },
        _ => seq![],
    }
}

/// The code of a relaxed load of `dst` (of size `sz`) from `src`.
#[verifier::opaque]
pub open spec fn relaxed_load_code(
    used: Seq<bool>,
    kind: LoadKind,
    f: AccessForm,
    sz: Size,
    dst: Location,
    src: Location,
) -> Seq<Inst> {
    let d = to_gpr(used, sz, dst, ImmType::NoImm, false, None);
    let u2 = if access_needs_temp(f, src->Memory_1) {
        d.used.update(first_free_temp_gpr(d.used)->Some_0.idx(), true)
    } else {
        d.used
    };
    d.code + load_body(d.used, kind, f, d.loc, src) + if dst != d.loc {
        move_code(u2, sz, d.loc, dst)
    } else {
        seq![]
    }
}

#[verifier::opaque]
pub open spec fn relaxed_load_ok(used: Seq<bool>, f: AccessForm, sz: Size, dst: Location, src: Location) -> bool {
    let d = to_gpr(used, sz, dst, ImmType::NoImm, false, None);
    let u2 = if access_needs_temp(f, src->Memory_1) {
        d.used.update(first_free_temp_gpr(d.used)->Some_0.idx(), true)
    } else {
        d.used
    };
    &&& src is Memory
    &&& to_gpr_ok(used, sz, dst, ImmType::NoImm, false, None)
    &&& access_needs_temp(f, src->Memory_1) ==> free_temp_gprs(d.used) >= 1
    &&& dst != d.loc ==> move_ok(u2, sz, d.loc, dst)
}

/// The code of a relaxed store of `value` to `dst`.
#[verifier::opaque]
pub open spec fn relaxed_store_code(
    used: Seq<bool>,
    kind: StoreKind,
    f: AccessForm,
    value: Location,
    dst: Location,
) -> Seq<Inst> {
    let s = to_gpr(used, Size::S64, value, ImmType::NoneXzr, true, None);
    s.code + store_body(s.used, kind, f, s.loc, dst)
}

#[verifier::opaque]
pub open spec fn relaxed_store_ok(used: Seq<bool>, f: AccessForm, value: Location, dst: Location) -> bool {
    let s = to_gpr(used, Size::S64, value, ImmType::NoneXzr, true, None);
    &&& dst is Memory
    &&& to_gpr_ok(used, Size::S64, value, ImmType::NoneXzr, true, None)
    &&& access_needs_temp(f, dst->Memory_1) ==> free_temp_gprs(s.used) >= 1
}

/// The code of a comparison of `a` with `b` whose outcome under `c` is set in
/// `ret`.
#[verifier::opaque]
pub open spec fn cmp_dynamic_code(used: Seq<bool>, sz: Size, c: Condition, a: Location, b: Location, ret: Location) -> Seq<Inst> {
    match ret {
        Location::GPR(_) => binop_code(used, Op2::Cmp, sz, b, a, false) + seq![Inst::Cset(Size::S32, ret, c)],
        _ => {
            let t = first_free_temp_gpr(used)->Some_0;
            let u1 = used.update(t.idx(), true);
            binop_code(u1, Op2::Cmp, sz, b, a, false) + seq![Inst::Cset(Size::S32, Location::GPR(t), c)]
                + move_code(u1, Size::S32, Location::GPR(t), ret)
        },
    }
}

#[verifier::opaque]
pub open spec fn cmp_dynamic_ok(used: Seq<bool>, sz: Size, a: Location, b: Location, ret: Location) -> bool {
    match ret {
        Location::GPR(_) => binop_ok(used, sz, b, a, false),
        Location::Memory(_, o) => {
            let t = first_free_temp_gpr(used)->Some_0;
            &&& free_temp_gprs(used) >= 1
            &&& binop_ok(used.update(t.idx(), true), sz, b, a, false)
            &&& o != i32::MIN
        },
        _ => false,
    }
}

impl MachineARM64 {
    /// `op sz, src, dst` with both operands legalised; with `putback` the
    /// result is written back to `dst`, else `src` may be an add-style
    /// immediate.
    pub fn emit_relaxed_binop(&mut self, op: Op2, sz: Size, src: Location, dst: Location, putback: bool)
        requires
            old(self).wf(),
            old(self)@.room(24),
            binop_ok(old(self)@.used_gprs, sz, src, dst, putback),
        ensures
            final(self).wf(),
            final(self)@ == old(self)@.with_code(binop_code(old(self)@.used_gprs, op, sz, src, dst, putback)),
            final(self)@.code.len() <= old(self)@.code.len() + 22,
    {
        reveal(binop_code);
        reveal(binop_ok);
        let ghost base = self@.used_gprs;
        let mut temps: Vec<GPR> = Vec::new();
        let src_imm = if putback {
            ImmType::NoImm
        } else {
            ImmType::Bits12
        };
        let s = self.to_reg(sz, src, &mut temps, src_imm, true, Ghost(base));
        let dest = self.to_reg(sz, dst, &mut temps, ImmType::NoImm, !putback, Ghost(base));
        self.emit(Inst::Op2(op, sz, s, dest));
        if dst != dest && putback {
            self.move_location(sz, dest, dst);
        }
        self.release_temps(temps, Ghost(base));
        assert(self@ =~= old(self)@.with_code(binop_code(base, op, sz, src, dst, putback)));
    }

    /// `op sz, a, b, dst` with the operands legalised, `b` as an immediate
    /// where `allow_imm` accepts it, and the result written back to `dst`.
    #[verifier::rlimit(40)]
    pub fn emit_relaxed_binop3(
        &mut self,
        op: Op3,
        sz: Size,
        a: Location,
        b: Location,
        dst: Location,
        allow_imm: ImmType,
    )
        requires
            old(self).wf(),
            old(self)@.room(32),
            binop3_ok(old(self)@.used_gprs, sz, a, b, dst, allow_imm),
        ensures
            final(self).wf(),
            final(self)@ == old(self)@.with_code(binop3_code(old(self)@.used_gprs, op, sz, a, b, dst, allow_imm)),
            final(self)@.code.len() <= old(self)@.code.len() + 27,
    {
        reveal(binop3_code);
        reveal(binop3_ok);
        let ghost base = self@.used_gprs;
        let mut temps: Vec<GPR> = Vec::new();
        let s1 = self.to_reg(sz, a, &mut temps, ImmType::NoImm, true, Ghost(base));
        let s2 = self.to_reg(sz, b, &mut temps, allow_imm, true, Ghost(base));
        let dest = self.to_reg(sz, dst, &mut temps, ImmType::NoImm, false, Ghost(base));
        self.emit(Inst::Op3(op, sz, s1, s2, dest));
        if dst != dest {
            self.move_location(sz, dest, dst);
        }
        assert(self@.code =~= old(self)@.code + binop3_code(base, op, sz, a, b, dst, allow_imm));
        self.release_temps(temps, Ghost(base));
        assert(self@ =~= old(self)@.with_code(binop3_code(base, op, sz, a, b, dst, allow_imm)));
    }

    /// The NEON form of `emit_relaxed_binop`.
    pub fn emit_relaxed_binop_neon(&mut self, op: Op2, sz: Size, src: Location, dst: Location, putback: bool)
        requires
            old(self).wf(),
            old(self)@.room(24),
            binop_neon_ok(old(self)@.used_simd, old(self)@.used_gprs, sz, src, dst, putback),
        ensures
            final(self).wf(),
            final(self)@ == old(self)@.with_code(
                binop_neon_code(old(self)@.used_simd, old(self)@.used_gprs, op, sz, src, dst, putback),
            ),
            final(self)@.code.len() <= old(self)@.code.len() + 24,
    {
        reveal(binop_neon_code);
        reveal(binop_neon_ok);
        let ghost base = self@.used_simd;
        let mut temps: Vec<crate::regs::NEON> = Vec::new();
        let s = self.to_neon_reg(sz, src, &mut temps, ImmType::NoImm, true, Ghost(base));
        let dest = self.to_neon_reg(sz, dst, &mut temps, ImmType::NoImm, !putback, Ghost(base));
        self.emit(Inst::Op2(op, sz, s, dest));
        if dst != dest && putback {
            self.move_location(sz, dest, dst);
        }
        self.release_simd_temps(temps, Ghost(base));
        assert(self@ =~= old(self)@.with_code(
            binop_neon_code(base, old(self)@.used_gprs, op, sz, src, dst, putback),
        ));
    }

    /// The NEON form of `emit_relaxed_binop3`.
    pub fn emit_relaxed_binop3_neon(
        &mut self,
        op: Op3,
        sz: Size,
        a: Location,
        b: Location,
        dst: Location,
        allow_imm: ImmType,
    )
        requires
            old(self).wf(),
            old(self)@.room(32),
            binop3_neon_ok(old(self)@.used_simd, old(self)@.used_gprs, sz, a, b, dst, allow_imm),
        ensures
            final(self).wf(),
            final(self)@ == old(self)@.with_code(
                binop3_neon_code(old(self)@.used_simd, old(self)@.used_gprs, op, sz, a, b, dst, allow_imm),
            ),
            final(self)@.code.len() <= old(self)@.code.len() + 30,
    {
        reveal(binop3_neon_code);
        reveal(binop3_neon_ok);
        let ghost base = self@.used_simd;
        let mut temps: Vec<crate::regs::NEON> = Vec::new();
        let s1 = self.to_neon_reg(sz, a, &mut temps, ImmType::NoImm, true, Ghost(base));
        let s2 = self.to_neon_reg(sz, b, &mut temps, allow_imm, true, Ghost(base));
        let dest = self.to_neon_reg(sz, dst, &mut temps, ImmType::NoImm, false, Ghost(base));
        self.emit(Inst::Op3(op, sz, s1, s2, dest));
        if dst != dest {
            self.move_location(sz, dest, dst);
        }
        self.release_simd_temps(temps, Ghost(base));
        assert(self@ =~= old(self)@.with_code(
            binop3_neon_code(base, old(self)@.used_gprs, op, sz, a, b, dst, allow_imm),
        ));
    }
    /// Acquires a temporary and records it on `temps`.
    pub(crate) fn acquire_temp(&mut self, temps: &mut Vec<GPR>, Ghost(base): Ghost<Seq<bool>>) -> (r: GPR)
        requires
            old(self).wf(),
            free_temp_gprs(old(self)@.used_gprs) >= 1,
            base.len() == 32,
            old(self)@.used_gprs == with_temps(base, old(temps)@),
            crate::legalise::temps_fresh(base, old(temps)@),
        ensures
            final(self).wf(),
            r == first_free_temp_gpr(old(self)@.used_gprs)->Some_0,
            final(self)@ == old(self)@.with_gpr(r, true),
            final(self)@.used_gprs == with_temps(base, final(temps)@),
            crate::legalise::temps_fresh(base, final(temps)@),
    {
        let ghost ts = temps@;
        let r = self.acquire_temp_gpr().unwrap();
        temps.push(r);
        proof {
            crate::legalise::lemma_with_temps(base, ts);
            assert(temps@.drop_last() == ts);
            assert forall|j: int| 0 <= j < ts.len() implies ts[j] != r by {
                if ts[j] == r {
                    assert(with_temps(base, ts)[r.idx()]);
                }
            }
            assert forall|j: int| 0 <= j < temps@.len() implies !base[#[trigger] temps@[j].idx()] by {
                if j < ts.len() {
                    assert(temps@[j] == ts[j]);
                }
            }
            assert forall|j: int, k: int| 0 <= j < k < temps@.len() implies temps@[j] != temps@[k] by {
                if k < ts.len() {
                    assert(temps@[j] == ts[j] && temps@[k] == ts[k]);
                } else {
                    assert(temps@[j] == ts[j]);
                }
            }
        }
        r
    }

    /// Loads `dst` from the `Memory` operand `src` in the scaled form where
    /// the offset fits it, else unscaled where allowed and fitting, else with
    /// the offset in a temporary; a `dst` that is not a register is written
    /// through a temporary.
    pub fn emit_relaxed_load(&mut self, kind: LoadKind, f: AccessForm, sz: Size, dst: Location, src: Location)
        requires
            old(self).wf(),
            old(self)@.room(24),
            relaxed_load_ok(old(self)@.used_gprs, f, sz, dst, src),
        ensures
            final(self).wf(),
            final(self)@ == old(self)@.with_code(relaxed_load_code(old(self)@.used_gprs, kind, f, sz, dst, src)),
            final(self)@.code.len() <= old(self)@.code.len() + 21,
    {
        reveal(relaxed_load_code);
        reveal(relaxed_load_ok);
        let ghost base = self@.used_gprs;
        let mut temps: Vec<GPR> = Vec::new();
        let dest = self.to_reg(sz, dst, &mut temps, ImmType::NoImm, false, Ghost(base));
        let ghost mid = self@;
        if let Location::Memory(addr, offset) = src {
            if compatible_imm(offset as i64, f.scaled) {
                self.emit(Inst::Load(kind, f.opsz, dest, src));
            } else if f.unscaled && compatible_imm(offset as i64, ImmType::UnscaledOffset) {
                self.emit(Inst::Ldur(f.opsz, dest, addr, offset));
            } else {
                let tmp = self.acquire_temp(&mut temps, Ghost(base));
                proof { crate::inst::lemma_mov_imm_len(tmp, offset as u64); }
                self.emit_mov_imm(tmp, offset as u64);
                self.emit(Inst::Load(kind, f.opsz, dest, Location::Memory2(addr, tmp, Multiplier::One, 0)));
            }
        }
        assert(self@.code =~= mid.code + load_body(mid.used_gprs, kind, f, dest, src));
        if dst != dest {
            self.move_location(sz, dest, dst);
        }
        self.release_temps(temps, Ghost(base));
        assert(self@ =~= old(self)@.with_code(relaxed_load_code(base, kind, f, sz, dst, src)));
    }

    /// Stores `value` (zero through the zero register) to the `Memory` operand
    /// `dst`, choosing the addressing form as `emit_relaxed_load` does.
    pub fn emit_relaxed_store(&mut self, kind: StoreKind, f: AccessForm, value: Location, dst: Location)
        requires
            old(self).wf(),
            old(self)@.room(16),
            relaxed_store_ok(old(self)@.used_gprs, f, value, dst),
        ensures
            final(self).wf(),
            final(self)@ == old(self)@.with_code(relaxed_store_code(old(self)@.used_gprs, kind, f, value, dst)),
            final(self)@.code.len() <= old(self)@.code.len() + 10,
    {
        reveal(relaxed_store_code);
        reveal(relaxed_store_ok);
        let ghost base = self@.used_gprs;
        let mut temps: Vec<GPR> = Vec::new();
        let v = self.to_reg(Size::S64, value, &mut temps, ImmType::NoneXzr, true, Ghost(base));
        let ghost mid = self@;
        if let Location::Memory(addr, offset) = dst {
            if compatible_imm(offset as i64, f.scaled) {
                self.emit(Inst::Store(kind, f.opsz, v, dst));
            } else if f.unscaled && compatible_imm(offset as i64, ImmType::UnscaledOffset) {
                self.emit(Inst::Stur(f.opsz, v, addr, offset));
            } else {
                let tmp = self.acquire_temp(&mut temps, Ghost(base));
                proof { crate::inst::lemma_mov_imm_len(tmp, offset as u64); }
                self.emit_mov_imm(tmp, offset as u64);
                self.emit(Inst::Store(kind, f.opsz, v, Location::Memory2(addr, tmp, Multiplier::One, 0)));
            }
        }
        assert(self@.code =~= mid.code + store_body(mid.used_gprs, kind, f, v, dst));
        self.release_temps(temps, Ghost(base));
        assert(self@ =~= old(self)@.with_code(relaxed_store_code(base, kind, f, value, dst)));
    }

    /// Compares `b` with `a` and sets `ret` to the outcome under `c`, through a
    /// temporary where `ret` is in memory.
    pub fn emit_cmpop_dynamic_b(&mut self, sz: Size, c: Condition, loc_a: Location, loc_b: Location, ret: Location)
        requires
            old(self).wf(),
            old(self)@.room(40),
            cmp_dynamic_ok(old(self)@.used_gprs, sz, loc_a, loc_b, ret),
        ensures
            final(self).wf(),
            final(self)@ == old(self)@.with_code(cmp_dynamic_code(old(self)@.used_gprs, sz, c, loc_a, loc_b, ret)),
            final(self)@.code.len() <= old(self)@.code.len() + 34,
    {
        reveal(cmp_dynamic_code);
        reveal(cmp_dynamic_ok);
        reveal(binop_ok);
        match ret {
            Location::GPR(_) => {
                self.emit_relaxed_binop(Op2::Cmp, sz, loc_b, loc_a, false);
                self.emit(Inst::Cset(Size::S32, ret, c));
            },
            _ => {
                let tmp = self.acquire_temp_gpr().unwrap();
                self.emit_relaxed_binop(Op2::Cmp, sz, loc_b, loc_a, false);
                self.emit(Inst::Cset(Size::S32, Location::GPR(tmp), c));
                proof { reveal(move_ok); }
                self.move_location(Size::S32, Location::GPR(tmp), ret);
                self.release_gpr(tmp);
                assert(self@.used_gprs =~= old(self)@.used_gprs);
            },
        }
        assert(self@ =~= old(self)@.with_code(cmp_dynamic_code(old(self)@.used_gprs, sz, c, loc_a, loc_b, ret)));
    }
}

} // verus!
