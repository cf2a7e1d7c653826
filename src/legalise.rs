//! Operand legalisation: putting an abstract location in the register or
//! immediate form an instruction accepts, and moves between locations.

use crate::imm::{compatible_imm, fits, offset_is_ok, scaled_offset, size_bytes, ImmType};
use crate::inst::{mov_imm_seq, Inst, LoadKind, Op2, Op3, StoreKind};
use crate::machine::{first_free_temp_gpr, first_free_temp_simd, free_temp_gprs, free_temp_simd, MachineARM64, MachineView};
use crate::regs::{GPR, Location, Multiplier, NEON, Size};
use vstd::prelude::*;

verus! {

broadcast use {crate::regs::lemma_gpr_idx_range, crate::regs::lemma_simd_idx_range};

/// The outcome of legalising one operand: the operand to use, the code that
/// produces it, the register-use state afterwards, and the temporary that the
/// caller must release, if one was acquired.
pub struct Legal<R> {
    pub loc: Location,
    pub code: Seq<Inst>,
    pub used: Seq<bool>,
    pub temp: Option<R>,
}

/// `used` with each register of `ts` marked as used.
pub open spec fn with_temps(used: Seq<bool>, ts: Seq<GPR>) -> Seq<bool>
    decreases ts.len(),
{
    if ts.len() == 0 {
        used
    } else {
        with_temps(used, ts.drop_last()).update(ts.last().idx(), true)
    }
}

pub open spec fn with_simd_temps(used: Seq<bool>, ts: Seq<NEON>) -> Seq<bool>
    decreases ts.len(),
{
    if ts.len() == 0 {
        used
    } else {
        with_simd_temps(used, ts.drop_last()).update(ts.last().idx(), true)
    }
}

/// Every register of `ts` is free in `used`, and none occurs twice.
pub open spec fn temps_fresh(used: Seq<bool>, ts: Seq<GPR>) -> bool {
    &&& forall|j: int| 0 <= j < ts.len() ==> !used[#[trigger] ts[j].idx()]
    &&& forall|j: int, k: int| 0 <= j < k < ts.len() ==> ts[j] != ts[k]
}

pub open spec fn simd_temps_fresh(used: Seq<bool>, ts: Seq<NEON>) -> bool {
    &&& forall|j: int| 0 <= j < ts.len() ==> !used[#[trigger] ts[j].idx()]
    &&& forall|j: int, k: int| 0 <= j < k < ts.len() ==> ts[j] != ts[k]
}

pub proof fn lemma_with_temps(used: Seq<bool>, ts: Seq<GPR>)
    requires
        used.len() == 32,
    ensures
        with_temps(used, ts).len() == 32,
        forall|i: int|
            0 <= i < 32 ==> #[trigger] with_temps(used, ts)[i] == (used[i] || exists|j: int|
                0 <= j < ts.len() && ts[j].idx() == i),
    decreases ts.len(),
{
    if ts.len() > 0 {
        lemma_with_temps(used, ts.drop_last());
        assert forall|i: int| 0 <= i < 32 implies #[trigger] with_temps(used, ts)[i] == (used[i]
            || exists|j: int| 0 <= j < ts.len() && ts[j].idx() == i) by {
            if exists|j: int| 0 <= j < ts.len() && ts[j].idx() == i {
                let j = choose|j: int| 0 <= j < ts.len() && ts[j].idx() == i;
                if j < ts.len() - 1 {
                    assert(ts.drop_last()[j] == ts[j]);
                }
            }
            if exists|j: int| 0 <= j < ts.len() - 1 && ts.drop_last()[j].idx() == i {
                let j = choose|j: int| 0 <= j < ts.len() - 1 && ts.drop_last()[j].idx() == i;
                assert(ts[j] == ts.drop_last()[j]);
            }
        }
    }
}

pub proof fn lemma_with_simd_temps(used: Seq<bool>, ts: Seq<NEON>)
    requires
        used.len() == 32,
    ensures
        with_simd_temps(used, ts).len() == 32,
        forall|i: int|
            0 <= i < 32 ==> #[trigger] with_simd_temps(used, ts)[i] == (used[i] || exists|j: int|
                0 <= j < ts.len() && ts[j].idx() == i),
    decreases ts.len(),
{
    if ts.len() > 0 {
        lemma_with_simd_temps(used, ts.drop_last());
        assert forall|i: int| 0 <= i < 32 implies #[trigger] with_simd_temps(used, ts)[i] == (
        used[i] || exists|j: int| 0 <= j < ts.len() && ts[j].idx() == i) by {
            if exists|j: int| 0 <= j < ts.len() && ts[j].idx() == i {
                let j = choose|j: int| 0 <= j < ts.len() && ts[j].idx() == i;
                if j < ts.len() - 1 {
                    assert(ts.drop_last()[j] == ts[j]);
                }
            }
            if exists|j: int| 0 <= j < ts.len() - 1 && ts.drop_last()[j].idx() == i {
                let j = choose|j: int| 0 <= j < ts.len() - 1 && ts.drop_last()[j].idx() == i;
                assert(ts[j] == ts.drop_last()[j]);
            }
        }
    }
}

/// The scaled-offset kind of a load of size `sz` in the legaliser.
pub open spec fn load_offset_kind(sz: Size) -> ImmType {
    if sz == Size::S32 {
        ImmType::OffsetWord
    } else {
        ImmType::OffsetDWord
    }
}

/// The load of `[reg + off]` into `dst`: scaled form if the offset fits, else
/// unscaled, else through `scratch` holding the offset.
pub open spec fn load_seq(sz: Size, dst: Location, reg: GPR, off: i32, scratch: GPR) -> Seq<Inst> {
    if fits(off as i64, load_offset_kind(sz)) {
        seq![Inst::Load(LoadKind::Ldr, sz, dst, Location::Memory(reg, off))]
    } else if fits(off as i64, ImmType::UnscaledOffset) {
        seq![Inst::Ldur(sz, dst, reg, off)]
    } else {
        mov_imm_seq(scratch, off as u64) + seq![
            Inst::Load(LoadKind::Ldr, sz, dst, Location::Memory2(reg, scratch, Multiplier::One, 0)),
        ]
    }
}

/// Whether the load needs a scratch register for its offset.
pub open spec fn load_needs_scratch(sz: Size, off: i32) -> bool {
    !fits(off as i64, load_offset_kind(sz)) && !fits(off as i64, ImmType::UnscaledOffset)
}

/// Whether an immediate goes to the zero register, stays as it is, or must be
/// materialised.
pub open spec fn imm_is_zero_reg(src: Location, allow_imm: ImmType) -> bool {
    allow_imm == ImmType::NoneXzr && src.imm_bits() == 0
}

/// Whether legalising `src` into a general-purpose register needs a register
/// to put it in.
pub open spec fn gpr_needs_reg(src: Location, allow_imm: ImmType) -> bool {
    ||| (src.is_imm() && !imm_is_zero_reg(src, allow_imm) && !fits(src.imm_value(), allow_imm))
    ||| src is Memory
}

/// The register that receives a materialised operand.
pub open spec fn gpr_target(used: Seq<bool>, wanted: Option<GPR>) -> GPR {
    match wanted {
        Some(w) => w,
        None => first_free_temp_gpr(used)->Some_0,
    }
}

/// Legalising `src` into a general-purpose register or an accepted immediate.
#[verifier::opaque]
pub open spec fn to_gpr(
    used: Seq<bool>,
    sz: Size,
    src: Location,
    allow_imm: ImmType,
    read_val: bool,
    wanted: Option<GPR>,
) -> Legal<GPR> {
    let t = gpr_target(used, wanted);
    let used2 = if wanted is None && gpr_needs_reg(src, allow_imm) {
        used.update(t.idx(), true)
    } else {
        used
    };
    let temp = if wanted is None && gpr_needs_reg(src, allow_imm) {
        Some(t)
    } else {
        None
    };
    if src.is_imm() {
        if imm_is_zero_reg(src, allow_imm) {
            Legal { loc: Location::GPR(GPR::XzrSp), code: seq![], used, temp: None }
        } else if fits(src.imm_value(), allow_imm) {
            Legal { loc: src, code: seq![], used, temp: None }
        } else {
            Legal { loc: Location::GPR(t), code: mov_imm_seq(t, src.imm_bits()), used: used2, temp }
        }
    } else {
        match src {
            Location::Memory(reg, off) => Legal {
                loc: Location::GPR(t),
                code: if read_val {
                    load_seq(sz, Location::GPR(t), reg, off, t)
                } else {
                    seq![]
                },
                used: used2,
                temp,
            },
            _ => Legal { loc: src, code: seq![], used, temp: None },
        }
    }
}

/// The inputs on which `location_to_reg` has what it needs.
#[verifier::opaque]
pub open spec fn to_gpr_ok(
    used: Seq<bool>,
    sz: Size,
    src: Location,
    allow_imm: ImmType,
    read_val: bool,
    wanted: Option<GPR>,
) -> bool {
    &&& !(src is Memory2)
    &&& (gpr_needs_reg(src, allow_imm) && wanted is None) ==> free_temp_gprs(used) >= 1
    &&& match src {
        Location::Memory(reg, off) => (read_val && load_needs_scratch(sz, off)) ==> reg != gpr_target(
            used,
            wanted,
        ),
        _ => true,
    }
}

/// Legalising `src` into a NEON register or an accepted immediate.
#[verifier::opaque]
pub open spec fn to_neon(
    used: Seq<bool>,
    used_gprs: Seq<bool>,
    sz: Size,
    src: Location,
    allow_imm: ImmType,
    read_val: bool,
) -> Legal<NEON> {
    let t = first_free_temp_simd(used)->Some_0;
    let g = first_free_temp_gpr(used_gprs)->Some_0;
    let used2 = used.update(t.idx(), true);
    match src {
        Location::SIMD(_) => Legal { loc: src, code: seq![], used, temp: None },
        Location::GPR(_) => Legal {
            loc: Location::SIMD(t),
            code: if read_val {
                seq![Inst::Op2(Op2::Mov, sz, src, Location::SIMD(t))]
            } else {
                seq![]
            },
            used: used2,
            temp: Some(t),
        },
        Location::Memory(reg, off) => Legal {
            loc: Location::SIMD(t),
            code: if read_val {
                load_seq(sz, Location::SIMD(t), reg, off, g)
            } else {
                seq![]
            },
            used: used2,
            temp: Some(t),
        },
        _ => if fits(src.imm_value(), allow_imm) {
            Legal { loc: src, code: seq![], used, temp: None }
        } else {
            Legal {
                loc: Location::SIMD(t),
                code: mov_imm_seq(g, src.imm_bits()) + seq![
                    Inst::Op2(Op2::Mov, sz, Location::GPR(g), Location::SIMD(t)),
                ],
                used: used2,
                temp: Some(t),
            }
        },
    }
}

/// Whether legalising `src` into a NEON register takes a general-purpose
/// scratch register.
pub open spec fn neon_needs_gpr(sz: Size, src: Location, allow_imm: ImmType, read_val: bool) -> bool {
    ||| (src.is_imm() && !fits(src.imm_value(), allow_imm))
    ||| (src is Memory && read_val && load_needs_scratch(sz, src->Memory_1))
}

/// The inputs on which `location_to_neon` has what it needs.
#[verifier::opaque]
pub open spec fn to_neon_ok(
    used: Seq<bool>,
    used_gprs: Seq<bool>,
    sz: Size,
    src: Location,
    allow_imm: ImmType,
    read_val: bool,
) -> bool {
    &&& !(src is Memory2)
    &&& !(src is SIMD || (src.is_imm() && fits(src.imm_value(), allow_imm))) ==> free_temp_simd(used)
        >= 1
    &&& neon_needs_gpr(sz, src, allow_imm, read_val) ==> free_temp_gprs(used_gprs) >= 1
}

/// The address `addr + offs` computed into `X17`.
pub open spec fn x17_address_seq(addr: GPR, offs: i32) -> Seq<Inst> {
    if offs < 0 {
        mov_imm_seq(GPR::X17, (-offs) as u64) + seq![
            Inst::Op3(Op3::Sub, Size::S64, Location::GPR(addr), Location::GPR(GPR::X17), Location::GPR(GPR::X17)),
        ]
    } else {
        mov_imm_seq(GPR::X17, offs as u64) + seq![
            Inst::Op3(Op3::Add, Size::S64, Location::GPR(addr), Location::GPR(GPR::X17), Location::GPR(GPR::X17)),
        ]
    }
}

/// What `move_location` emits from a register to a register or memory.
pub open spec fn move_from_reg(size: Size, src: Location, dst: Location) -> Seq<Inst> {
    match dst {
        Location::Memory(addr, offs) => if scaled_offset(offs as int, size_bytes(size)) {
            seq![Inst::Store(StoreKind::Str, size, src, dst)]
        } else if fits(offs as i64, ImmType::UnscaledOffset) {
            seq![Inst::Stur(size, src, addr, offs)]
        } else {
            x17_address_seq(addr, offs) + seq![
                Inst::Store(StoreKind::Str, size, src, Location::Memory(GPR::X17, 0)),
            ]
        },
        _ => seq![Inst::Op2(Op2::Mov, size, src, dst)],
    }
}

/// What `move_location` emits from memory to a register.
pub open spec fn move_from_mem(size: Size, addr: GPR, offs: i32, dst: Location) -> Seq<Inst> {
    if scaled_offset(offs as int, size_bytes(size)) {
        seq![Inst::Load(LoadKind::Ldr, size, dst, Location::Memory(addr, offs))]
    } else if -256 < offs < 256 {
        seq![Inst::Ldur(size, dst, addr, offs)]
    } else {
        x17_address_seq(addr, offs) + seq![
            Inst::Load(LoadKind::Ldr, size, dst, Location::Memory(GPR::X17, 0)),
        ]
    }
}

/// The code that `move_location(size, src, dst)` emits.
#[verifier::opaque]
pub open spec fn move_code(used: Seq<bool>, size: Size, src: Location, dst: Location) -> Seq<Inst> {
    match src {
        Location::GPR(_) | Location::SIMD(_) => move_from_reg(size, src, dst),
        Location::Imm8(_) => seq![Inst::Op2(Op2::Mov, size, src, dst)],
        Location::Imm32(v) => mov_imm_seq(dst->GPR_0, v as u64),
        Location::Imm64(v) => mov_imm_seq(dst->GPR_0, v),
        Location::Memory(addr, offs) => if dst.is_reg() {
            move_from_mem(size, addr, offs, dst)
        } else {
            let l = to_gpr(used, size, src, ImmType::NoImm, true, None);
            l.code + move_from_reg(size, l.loc, dst)
        },
        _ => seq![],
    }
}

/// The moves that `move_location` can emit.
#[verifier::opaque]
pub open spec fn move_ok(used: Seq<bool>, size: Size, src: Location, dst: Location) -> bool {
    match src {
        Location::GPR(_) | Location::SIMD(_) => dst.is_reg() || match dst {
            Location::Memory(_, offs) => offs != i32::MIN,
            _ => false,
        },
        Location::Imm8(_) | Location::Imm32(_) | Location::Imm64(_) => dst is GPR,
        Location::Memory(_, offs) => if dst.is_reg() {
            offs != i32::MIN
        } else {
            &&& to_gpr_ok(used, size, src, ImmType::NoImm, true, None)
            &&& dst matches Location::Memory(_, o) && o != i32::MIN
        },
        _ => false,
    }
}

impl MachineView {
    /// The state after `code` is appended and the register-use state becomes
    /// `used`.
    pub open spec fn emitted(self, code: Seq<Inst>, used: Seq<bool>) -> MachineView {
        MachineView { code: self.code + code, used_gprs: used, ..self }
    }

    pub open spec fn emitted_neon(self, code: Seq<Inst>, used: Seq<bool>) -> MachineView {
        MachineView { code: self.code + code, used_simd: used, ..self }
    }
}

impl MachineARM64 {
    fn emit_load_seq(&mut self, sz: Size, dst: Location, reg: GPR, off: i32, scratch: GPR)
        requires
            old(self).wf(),
            old(self)@.room(5),
        ensures
            final(self).wf(),
            final(self)@ == old(self)@.with_code(load_seq(sz, dst, reg, off, scratch)),
    {
        let kind = if sz == Size::S32 {
            ImmType::OffsetWord
        } else {
            ImmType::OffsetDWord
        };
        if compatible_imm(off as i64, kind) {
            self.emit(Inst::Load(LoadKind::Ldr, sz, dst, Location::Memory(reg, off)));
        } else if compatible_imm(off as i64, ImmType::UnscaledOffset) {
            self.emit(Inst::Ldur(sz, dst, reg, off));
        } else {
            self.emit_mov_imm(scratch, off as u64);
            self.emit(
                Inst::Load(LoadKind::Ldr, sz, dst, Location::Memory2(reg, scratch, Multiplier::One, 0)),
            );
            assert(self@.code =~= old(self)@.code + load_seq(sz, dst, reg, off, scratch));
        }
    }

    /// Puts `src` in a general-purpose register, or keeps it as an immediate
    /// where `allow_imm` accepts it. A temporary it acquires is pushed on
    /// `temps`, for the caller to release.
    pub fn location_to_reg(
        &mut self,
        sz: Size,
        src: Location,
        temps: &mut Vec<GPR>,
        allow_imm: ImmType,
        read_val: bool,
        wanted: Option<GPR>,
    ) -> (r: Location)
        requires
            old(self).wf(),
            old(self)@.room(5),
            to_gpr_ok(old(self)@.used_gprs, sz, src, allow_imm, read_val, wanted),
        ensures
            final(self).wf(),
            ({
                let l = to_gpr(old(self)@.used_gprs, sz, src, allow_imm, read_val, wanted);
                &&& r == l.loc
                &&& final(self)@ == old(self)@.emitted(l.code, l.used)
                &&& final(temps)@ == match l.temp {
                    Some(t) => old(temps)@.push(t),
                    None => old(temps)@,
                }
                &&& l.temp matches Some(t) ==> !old(self)@.used_gprs[t.idx()]
                &&& l.code.len() <= 5
                &&& l.used == match l.temp {
                    Some(t) => old(self)@.used_gprs.update(t.idx(), true),
                    None => old(self)@.used_gprs,
                }
            }),
    {
        reveal(to_gpr);
        reveal(to_gpr_ok);
        let ghost l = to_gpr(old(self)@.used_gprs, sz, src, allow_imm, read_val, wanted);
        match src {
            Location::GPR(_) | Location::SIMD(_) => {
                assert(self@ =~= old(self)@.emitted(l.code, l.used));
                src
            },
            Location::Imm8(_) | Location::Imm32(_) | Location::Imm64(_) => {
                let (val, bits): (i64, u64) = match src {
                    Location::Imm8(v) => (v as i64, v as u64),
                    Location::Imm32(v) => (v as i64, v as u64),
                    Location::Imm64(v) => (v as i64, v),
                    _ => (0, 0),
                };
                if allow_imm == ImmType::NoneXzr && bits == 0 {
                    assert(self@ =~= old(self)@.emitted(l.code, l.used));
                    Location::GPR(GPR::XzrSp)
                } else if compatible_imm(val, allow_imm) {
                    assert(self@ =~= old(self)@.emitted(l.code, l.used));
                    src
                } else {
                    let tmp = match wanted {
                        Some(w) => w,
                        None => {
                            let t = self.acquire_temp_gpr().unwrap();
                            temps.push(t);
                            t
                        },
                    };
                    self.emit_mov_imm(tmp, bits);
                    assert(self@ =~= old(self)@.emitted(l.code, l.used));
                    Location::GPR(tmp)
                }
            },
            Location::Memory(reg, off) => {
                let tmp = match wanted {
                    Some(w) => w,
                    None => {
                        let t = self.acquire_temp_gpr().unwrap();
                        temps.push(t);
                        t
                    },
                };
                if read_val {
                    self.emit_load_seq(sz, Location::GPR(tmp), reg, off, tmp);
                }
                assert(self@ =~= old(self)@.emitted(l.code, l.used));
                Location::GPR(tmp)
            },
            Location::Memory2(..) => { src },
        }
    }

    /// Puts `src` in a NEON register, or keeps it as an immediate where
    /// `allow_imm` accepts it. A NEON temporary it acquires is pushed on
    /// `temps`; a general-purpose scratch it takes is released before it
    /// returns.
    pub fn location_to_neon(
        &mut self,
        sz: Size,
        src: Location,
        temps: &mut Vec<NEON>,
        allow_imm: ImmType,
        read_val: bool,
    ) -> (r: Location)
        requires
            old(self).wf(),
            old(self)@.room(6),
            to_neon_ok(old(self)@.used_simd, old(self)@.used_gprs, sz, src, allow_imm, read_val),
        ensures
            final(self).wf(),
            ({
                let l = to_neon(
                    old(self)@.used_simd,
                    old(self)@.used_gprs,
                    sz,
                    src,
                    allow_imm,
                    read_val,
                );
                &&& r == l.loc
                &&& final(self)@ == old(self)@.emitted_neon(l.code, l.used)
                &&& final(temps)@ == match l.temp {
                    Some(t) => old(temps)@.push(t),
                    None => old(temps)@,
                }
                &&& l.temp matches Some(t) ==> !old(self)@.used_simd[t.idx()]
                &&& l.code.len() <= 6
                &&& l.used == match l.temp {
                    Some(t) => old(self)@.used_simd.update(t.idx(), true),
                    None => old(self)@.used_simd,
                }
            }),
    {
        reveal(to_neon);
        reveal(to_neon_ok);
        let ghost l = to_neon(old(self)@.used_simd, old(self)@.used_gprs, sz, src, allow_imm, read_val);
        match src {
            Location::SIMD(_) => {
                assert(self@ =~= old(self)@.emitted_neon(l.code, l.used));
                src
            },
            Location::GPR(_) => {
                let tmp = self.acquire_temp_simd().unwrap();
                temps.push(tmp);
                if read_val {
                    self.emit(Inst::Op2(Op2::Mov, sz, src, Location::SIMD(tmp)));
                }
                assert(self@ =~= old(self)@.emitted_neon(l.code, l.used));
                Location::SIMD(tmp)
            },
            Location::Imm8(_) | Location::Imm32(_) | Location::Imm64(_) => {
                let (val, bits): (i64, u64) = match src {
                    Location::Imm8(v) => (v as i64, v as u64),
                    Location::Imm32(v) => (v as i64, v as u64),
                    Location::Imm64(v) => (v as i64, v),
                    _ => (0, 0),
                };
                if compatible_imm(val, allow_imm) {
                    assert(self@ =~= old(self)@.emitted_neon(l.code, l.used));
                    src
                } else {
                    let gpr = self.acquire_temp_gpr().unwrap();
                    let tmp = self.acquire_temp_simd().unwrap();
                    temps.push(tmp);
                    self.emit_mov_imm(gpr, bits);
                    self.emit(Inst::Op2(Op2::Mov, sz, Location::GPR(gpr), Location::SIMD(tmp)));
                    self.release_gpr(gpr);
                    assert(self@.used_gprs =~= old(self)@.used_gprs);
                    assert(self@ =~= old(self)@.emitted_neon(l.code, l.used));
                    Location::SIMD(tmp)
                }
            },
            Location::Memory(reg, off) => {
                let tmp = self.acquire_temp_simd().unwrap();
                temps.push(tmp);
                if read_val {
                    let kind = if sz == Size::S32 {
                        ImmType::OffsetWord
                    } else {
                        ImmType::OffsetDWord
                    };
                    if compatible_imm(off as i64, kind) || compatible_imm(
                        off as i64,
                        ImmType::UnscaledOffset,
                    ) {
                        self.emit_load_seq(sz, Location::SIMD(tmp), reg, off, GPR::X8);
                        assert(load_seq(sz, Location::SIMD(tmp), reg, off, GPR::X8) == l.code);
                    } else {
                        let gpr = self.acquire_temp_gpr().unwrap();
                        self.emit_load_seq(sz, Location::SIMD(tmp), reg, off, gpr);
                        self.release_gpr(gpr);
                        assert(self@.used_gprs =~= old(self)@.used_gprs);
                    }
                }
                assert(self@ =~= old(self)@.emitted_neon(l.code, l.used));
                Location::SIMD(tmp)
            },
            Location::Memory2(..) => { src },
        }
    }
    fn emit_x17_address(&mut self, addr: GPR, offs: i32)
        requires
            old(self).wf(),
            old(self)@.room(5),
            offs != i32::MIN,
        ensures
            final(self).wf(),
            final(self)@ == old(self)@.with_code(x17_address_seq(addr, offs)),
    {
        if offs < 0 {
            self.emit_mov_imm(GPR::X17, (-offs) as u64);
            self.emit(
                Inst::Op3(Op3::Sub, Size::S64, Location::GPR(addr), Location::GPR(GPR::X17), Location::GPR(GPR::X17)),
            );
        } else {
            self.emit_mov_imm(GPR::X17, offs as u64);
            self.emit(
                Inst::Op3(Op3::Add, Size::S64, Location::GPR(addr), Location::GPR(GPR::X17), Location::GPR(GPR::X17)),
            );
        }
        assert(self@.code =~= old(self)@.code + x17_address_seq(addr, offs));
    }

    fn move_reg(&mut self, size: Size, source: Location, dest: Location)
        requires
            old(self).wf(),
            old(self)@.room(6),
            source.is_reg(),
            move_ok(old(self)@.used_gprs, size, source, dest),
        ensures
            final(self).wf(),
            final(self)@ == old(self)@.with_code(move_from_reg(size, source, dest)),
            move_from_reg(size, source, dest).len() <= 6,
    {
        reveal(move_ok);
        match dest {
            Location::Memory(addr, offs) => {
                if offset_is_ok(size, offs) {
                    self.emit(Inst::Store(StoreKind::Str, size, source, dest));
                } else if compatible_imm(offs as i64, ImmType::UnscaledOffset) {
                    self.emit(Inst::Stur(size, source, addr, offs));
                } else {
                    self.emit_x17_address(addr, offs);
                    self.emit(Inst::Store(StoreKind::Str, size, source, Location::Memory(GPR::X17, 0)));
                    assert(self@.code =~= old(self)@.code + move_from_reg(size, source, dest));
                }
            },
            _ => {
                self.emit(Inst::Op2(Op2::Mov, size, source, dest));
            },
        }
    }

    fn emit_move_from_mem(&mut self, size: Size, addr: GPR, offs: i32, dest: Location)
        requires
            old(self).wf(),
            old(self)@.room(6),
            offs != i32::MIN,
        ensures
            final(self).wf(),
            final(self)@ == old(self)@.with_code(move_from_mem(size, addr, offs, dest)),
            move_from_mem(size, addr, offs, dest).len() <= 6,
    {
        if offset_is_ok(size, offs) {
            self.emit(Inst::Load(LoadKind::Ldr, size, dest, Location::Memory(addr, offs)));
        } else if offs > -256 && offs < 256 {
            self.emit(Inst::Ldur(size, dest, addr, offs));
        } else {
            self.emit_x17_address(addr, offs);
            self.emit(Inst::Load(LoadKind::Ldr, size, dest, Location::Memory(GPR::X17, 0)));
            assert(self@.code =~= old(self)@.code + move_from_mem(size, addr, offs, dest));
        }
    }

    fn move_mem_to_mem(&mut self, size: Size, source: Location, dest: Location)
        requires
            old(self).wf(),
            old(self)@.room(11),
            source is Memory,
            !dest.is_reg(),
            move_ok(old(self)@.used_gprs, size, source, dest),
        ensures
            final(self).wf(),
            final(self)@ == old(self)@.with_code(move_code(old(self)@.used_gprs, size, source, dest)),
            move_code(old(self)@.used_gprs, size, source, dest).len() <= 11,
    {
        reveal(move_code);
        reveal(move_ok);
        reveal(to_gpr);
        reveal(to_gpr_ok);
        let mut temps: Vec<GPR> = Vec::new();
        let src = self.location_to_reg(size, source, &mut temps, ImmType::NoImm, true, None);
        self.move_reg(size, src, dest);
        let t = temps.pop().unwrap();
        self.release_gpr(t);
        assert(self@.used_gprs =~= old(self)@.used_gprs);
        assert(self@ =~= old(self)@.with_code(move_code(old(self)@.used_gprs, size, source, dest)));
    }

    /// Moves `source` to `dest`: register to register or memory, immediate to
    /// register, memory to register, or memory to memory through a temporary.
    pub fn move_location(&mut self, size: Size, source: Location, dest: Location)
        requires
            old(self).wf(),
            old(self)@.room(11),
            move_ok(old(self)@.used_gprs, size, source, dest),
        ensures
            final(self).wf(),
            final(self)@ == old(self)@.with_code(move_code(old(self)@.used_gprs, size, source, dest)),
            move_code(old(self)@.used_gprs, size, source, dest).len() <= 11,
    {
        reveal(move_code);
        reveal(move_ok);
        match source {
            Location::GPR(_) | Location::SIMD(_) => {
                self.move_reg(size, source, dest);
                assert(move_code(old(self)@.used_gprs, size, source, dest).len() <= 11);
            },
            Location::Imm8(_) => {
                self.emit(Inst::Op2(Op2::Mov, size, source, dest));
            },
            Location::Imm32(val) => {
                if let Location::GPR(r) = dest {
                    proof { crate::inst::lemma_mov_imm_len(r, val as u64); }
                    self.emit_mov_imm(r, val as u64);
                }
            },
            Location::Imm64(val) => {
                if let Location::GPR(r) = dest {
                    proof { crate::inst::lemma_mov_imm_len(r, val); }
                    self.emit_mov_imm(r, val);
                }
            },
            Location::Memory(addr, offs) => {
                if matches!(dest, Location::GPR(_) | Location::SIMD(_)) {
                    self.emit_move_from_mem(size, addr, offs, dest);
                    assert(move_code(old(self)@.used_gprs, size, source, dest).len() <= 11);
                } else {
                    self.move_mem_to_mem(size, source, dest);
                    assert(move_code(old(self)@.used_gprs, size, source, dest).len() <= 11);
                }
            },
            Location::Memory2(..) => {},
        }
    }

    /// Releases each temporary of `temps`, which were acquired in turn from
    /// the register-use state `base`.
    pub(crate) fn release_temps(&mut self, temps: Vec<GPR>, Ghost(base): Ghost<Seq<bool>>)
        requires
            old(self).wf(),
            base.len() == 32,
            old(self)@.used_gprs == with_temps(base, temps@),
            temps_fresh(base, temps@),
        ensures
            final(self).wf(),
            final(self)@ == (MachineView { used_gprs: base, ..old(self)@ }),
    {
        let mut temps = temps;
        while temps.len() > 0
            invariant
                self.wf(),
                base.len() == 32,
                self@.used_gprs == with_temps(base, temps@),
                temps_fresh(base, temps@),
                self@ == (MachineView { used_gprs: self@.used_gprs, ..old(self)@ }),
            decreases temps@.len(),
        {
            let ghost ts = temps@;
            let r = temps.pop().unwrap();
            proof {
                lemma_with_temps(base, ts.drop_last());
                assert(temps@ == ts.drop_last());
                assert(!with_temps(base, temps@)[r.idx()]) by {
                    if exists|j: int| 0 <= j < temps@.len() && temps@[j].idx() == r.idx() {
                        let j = choose|j: int| 0 <= j < temps@.len() && temps@[j].idx() == r.idx();
                        crate::regs::lemma_gpr_idx_injective(temps@[j], r);
                        assert(ts[j] == ts[ts.len() - 1]);
                    }
                    assert(!base[ts[ts.len() - 1].idx()]);
                }
            }
            self.release_gpr(r);
            assert(self@.used_gprs =~= with_temps(base, temps@));
        }
        assert(self@ =~= (MachineView { used_gprs: base, ..old(self)@ }));
    }

    pub(crate) fn release_simd_temps(&mut self, temps: Vec<NEON>, Ghost(base): Ghost<Seq<bool>>)
        requires
            old(self).wf(),
            base.len() == 32,
            old(self)@.used_simd == with_simd_temps(base, temps@),
            simd_temps_fresh(base, temps@),
        ensures
            final(self).wf(),
            final(self)@ == (MachineView { used_simd: base, ..old(self)@ }),
    {
        let mut temps = temps;
        while temps.len() > 0
            invariant
                self.wf(),
                base.len() == 32,
                self@.used_simd == with_simd_temps(base, temps@),
                simd_temps_fresh(base, temps@),
                self@ == (MachineView { used_simd: self@.used_simd, ..old(self)@ }),
            decreases temps@.len(),
        {
            let ghost ts = temps@;
            let r = temps.pop().unwrap();
            proof {
                lemma_with_simd_temps(base, ts.drop_last());
                assert(temps@ == ts.drop_last());
                assert(!with_simd_temps(base, temps@)[r.idx()]) by {
                    if exists|j: int| 0 <= j < temps@.len() && temps@[j].idx() == r.idx() {
                        let j = choose|j: int| 0 <= j < temps@.len() && temps@[j].idx() == r.idx();
                        crate::regs::lemma_simd_idx_injective(temps@[j], r);
                        assert(ts[j] == ts[ts.len() - 1]);
                    }
                    assert(!base[ts[ts.len() - 1].idx()]);
                }
            }
            self.release_simd(r);
            assert(self@.used_simd =~= with_simd_temps(base, temps@));
        }
        assert(self@ =~= (MachineView { used_simd: base, ..old(self)@ }));
    }

    /// `location_to_reg`, keeping track of the temporaries taken since `base`.
    pub(crate) fn to_reg(
        &mut self,
        sz: Size,
        src: Location,
        temps: &mut Vec<GPR>,
        allow_imm: ImmType,
        read_val: bool,
        Ghost(base): Ghost<Seq<bool>>,
    ) -> (r: Location)
        requires
            old(self).wf(),
            old(self)@.room(5),
            to_gpr_ok(old(self)@.used_gprs, sz, src, allow_imm, read_val, None),
            base.len() == 32,
            old(self)@.used_gprs == with_temps(base, old(temps)@),
            temps_fresh(base, old(temps)@),
        ensures
            final(self).wf(),
            ({
                let l = to_gpr(old(self)@.used_gprs, sz, src, allow_imm, read_val, None);
                &&& r == l.loc
                &&& final(self)@ == old(self)@.emitted(l.code, l.used)
                &&& l.code.len() <= 5
            }),
            final(self)@.used_gprs == with_temps(base, final(temps)@),
            temps_fresh(base, final(temps)@),
    {
        let ghost ts = temps@;
        let r = self.location_to_reg(sz, src, temps, allow_imm, read_val, None);
        proof {
            let l = to_gpr(old(self)@.used_gprs, sz, src, allow_imm, read_val, None);
            if let Some(t) = l.temp {
                lemma_with_temps(base, ts);
                assert(temps@ == ts.push(t));
                assert(temps@.drop_last() == ts);
                assert(!base[t.idx()]);
                assert forall|j: int| 0 <= j < ts.len() implies ts[j] != t by {
                    if ts[j] == t {
                        assert(with_temps(base, ts)[t.idx()]);
                    }
                }
                assert forall|j: int| 0 <= j < temps@.len() implies !base[#[trigger] temps@[j].idx()] by {
                    if j < ts.len() {
                        assert(temps@[j] == ts[j]);
                    }
                }
                assert forall|j: int, k: int| 0 <= j < k < temps@.len() implies temps@[j] != temps@[k] by {
                    if k < ts.len() {
                        assert(temps@[j] == ts[j] && temps@[k] == ts[k]);
                    } else {
                        assert(temps@[j] == ts[j]);
                    }
                }
            }
        }
        r
    }

    /// `location_to_neon`, keeping track of the temporaries taken since `base`.
    pub(crate) fn to_neon_reg(
        &mut self,
        sz: Size,
        src: Location,
        temps: &mut Vec<NEON>,
        allow_imm: ImmType,
        read_val: bool,
        Ghost(base): Ghost<Seq<bool>>,
    ) -> (r: Location)
        requires
            old(self).wf(),
            old(self)@.room(6),
            to_neon_ok(old(self)@.used_simd, old(self)@.used_gprs, sz, src, allow_imm, read_val),
            base.len() == 32,
            old(self)@.used_simd == with_simd_temps(base, old(temps)@),
            simd_temps_fresh(base, old(temps)@),
        ensures
            final(self).wf(),
            ({
                let l = to_neon(old(self)@.used_simd, old(self)@.used_gprs, sz, src, allow_imm, read_val);
                &&& r == l.loc
                &&& final(self)@ == old(self)@.emitted_neon(l.code, l.used)
                &&& l.code.len() <= 6
            }),
            final(self)@.used_simd == with_simd_temps(base, final(temps)@),
            simd_temps_fresh(base, final(temps)@),
    {
        let ghost ts = temps@;
        let r = self.location_to_neon(sz, src, temps, allow_imm, read_val);
        proof {
            let l = to_neon(old(self)@.used_simd, old(self)@.used_gprs, sz, src, allow_imm, read_val);
            if let Some(t) = l.temp {
                lemma_with_simd_temps(base, ts);
                assert(temps@ == ts.push(t));
                assert(temps@.drop_last() == ts);
                assert(!base[t.idx()]);
                assert forall|j: int| 0 <= j < ts.len() implies ts[j] != t by {
                    if ts[j] == t {
                        assert(with_simd_temps(base, ts)[t.idx()]);
                    }
                }
                assert forall|j: int| 0 <= j < temps@.len() implies !base[#[trigger] temps@[j].idx()] by {
                    if j < ts.len() {
                        assert(temps@[j] == ts[j]);
                    }
                }
                assert forall|j: int, k: int| 0 <= j < k < temps@.len() implies temps@[j] != temps@[k] by {
                    if k < ts.len() {
                        assert(temps@[j] == ts[j] && temps@[k] == ts[k]);
                    } else {
                        assert(temps@[j] == ts[j]);
                    }
                }
            }
        }
        r
    }
}

} // verus!
