//! Stack frame management: pushes and pops with the 16-byte parity flag,
//! prologue and epilogue, callee-saved saves and stack adjustments.

use crate::imm::{compatible_imm, fits, ImmType};
use crate::inst::{mov_imm_seq, Inst, LoadKind, Op3, StoreKind};
use crate::legalise::{to_gpr, to_gpr_ok};
use crate::machine::{first_free_temp_gpr, free_temp_gprs, used_gpr_list, used_simd_list, MachineARM64, MachineView, MAX_CODE};
use crate::regs::{GPR, Location, NEON, Size};
use vstd::prelude::*;

verus! {

broadcast use {crate::regs::lemma_gpr_idx_range, crate::regs::lemma_simd_idx_range};

pub open spec fn sp() -> Location {
    Location::GPR(GPR::XzrSp)
}

/// `sp = sp - 16`.
pub open spec fn sp_down() -> Inst {
    Inst::Op3(Op3::Sub, Size::S64, sp(), Location::Imm8(16), sp())
}

/// `sp = sp + 16`.
pub open spec fn sp_up() -> Inst {
    Inst::Op3(Op3::Add, Size::S64, sp(), Location::Imm8(16), sp())
}

/// Pushing the register `src` when the last slot is half full (`pushed`)
/// or not: a new 16-byte slot is opened only in the second case.
pub open spec fn push_code(pushed: bool, src: Location) -> Seq<Inst> {
    if pushed {
        seq![Inst::Stur(Size::S64, src, GPR::XzrSp, 0)]
    } else {
        seq![sp_down(), Inst::Stur(Size::S64, src, GPR::XzrSp, 8)]
    }
}

/// Popping into the register `dst`: the slot is closed only when it was half
/// full.
pub open spec fn pop_code(pushed: bool, dst: Location) -> Seq<Inst> {
    if pushed {
        seq![Inst::Ldur(Size::S64, dst, GPR::XzrSp, 8), sp_up()]
    } else {
        seq![Inst::Ldur(Size::S64, dst, GPR::XzrSp, 0)]
    }
}

/// The code of `emit_push(S64, src)`.
pub open spec fn push_any_code(used: Seq<bool>, pushed: bool, src: Location) -> Seq<Inst> {
    if src.is_reg() {
        push_code(pushed, src)
    } else {
        let l = to_gpr(used, Size::S64, src, ImmType::NoImm, true, None);
        l.code + push_code(pushed, l.loc)
    }
}

pub open spec fn push_any_ok(used: Seq<bool>, src: Location) -> bool {
    src.is_reg() || to_gpr_ok(used, Size::S64, src, ImmType::NoImm, true, None)
}

/// `p` after `k` single pushes or pops.
pub open spec fn parity_after(p: bool, k: int) -> bool {
    if k % 2 == 0 {
        p
    } else {
        !p
    }
}

/// Pushing each register of `regs` in turn, starting with parity `p`.
pub open spec fn push_regs_code(p: bool, regs: Seq<GPR>) -> Seq<Inst>
    decreases regs.len(),
{
    if regs.len() == 0 {
        seq![]
    } else {
        push_regs_code(p, regs.drop_last()) + push_code(
            parity_after(p, regs.len() - 1),
            Location::GPR(regs.last()),
        )
    }
}

/// The first `k` pops of `pop_used_gpr` over `regs`, last register first,
/// starting with parity `p`.
pub open spec fn pop_regs_code(p: bool, regs: Seq<GPR>, k: int) -> Seq<Inst>
    decreases k,
{
    if k <= 0 {
        seq![]
    } else {
        pop_regs_code(p, regs, k - 1) + pop_code(
            parity_after(p, k - 1),
            Location::GPR(regs[regs.len() - k]),
        )
    }
}

/// The code of `push_used_gpr`: each used register in register order, then a
/// zero-register pad when their count is odd.
pub open spec fn push_used_gpr_code(used: Seq<bool>, p: bool) -> Seq<Inst> {
    let regs = used_gpr_list(used, 32);
    push_regs_code(p, regs) + if regs.len() % 2 == 1 {
        push_code(parity_after(p, regs.len() as int), Location::GPR(GPR::XzrSp))
    } else {
        seq![]
    }
}

/// The code of `pop_used_gpr`: the pad first when the count is odd, then
/// each used register in reverse register order.
pub open spec fn pop_used_gpr_code(used: Seq<bool>, p: bool) -> Seq<Inst> {
    let regs = used_gpr_list(used, 32);
    if regs.len() % 2 == 1 {
        pop_code(p, Location::GPR(GPR::XzrSp)) + pop_regs_code(!p, regs, regs.len() as int)
    } else {
        pop_regs_code(p, regs, regs.len() as int)
    }
}

/// The code of the prologue: save frame pointer and link register, then the
/// call scratch and VM context registers, and point the frame pointer at the
/// stack.
pub open spec fn prolog_code() -> Seq<Inst> {
    seq![
        Inst::Stpdb(Size::S64, Location::GPR(GPR::X29), Location::GPR(GPR::X30), GPR::XzrSp, 16),
        Inst::Stpdb(Size::S64, Location::GPR(GPR::X27), Location::GPR(GPR::X28), GPR::XzrSp, 16),
        Inst::Op3(Op3::Add, Size::S64, sp(), Location::Imm8(0), Location::GPR(GPR::X29)),
    ]
}

/// The code of the epilogue.
pub open spec fn epilog_code() -> Seq<Inst> {
    seq![
        Inst::Op3(Op3::Add, Size::S64, Location::GPR(GPR::X29), Location::Imm8(0), sp()),
        Inst::Ldpia(Size::S64, Location::GPR(GPR::X27), Location::GPR(GPR::X28), GPR::XzrSp, 16),
        Inst::Ldpia(Size::S64, Location::GPR(GPR::X29), Location::GPR(GPR::X30), GPR::XzrSp, 16),
    ]
}

/// The operand that moves the stack pointer by `delta`: the immediate where
/// it fits, else `X17` after loading it.
pub open spec fn stack_delta_code(delta: u32) -> (Seq<Inst>, Location) {
    if fits(delta as i64, ImmType::Bits12) {
        (seq![], Location::Imm32(delta))
    } else {
        (mov_imm_seq(GPR::X17, delta as u64), Location::GPR(GPR::X17))
    }
}

/// Bytes that `push_used_simd` reserves: eight per register, rounded up to
/// sixteen.
pub open spec fn simd_area(n: int) -> int {
    if n % 2 == 1 {
        n * 8 + 8
    } else {
        n * 8
    }
}

/// Stores (or loads) of each register of `regs` at `[sp + 8 * i]`.
pub open spec fn simd_slots_code(regs: Seq<NEON>, store: bool) -> Seq<Inst>
    decreases regs.len(),
{
    if regs.len() == 0 {
        seq![]
    } else {
        let i = regs.len() - 1;
        let slot = Location::Memory(GPR::XzrSp, (i * 8) as i32);
        simd_slots_code(regs.drop_last(), store) + if store {
            seq![Inst::Store(StoreKind::Str, Size::S64, Location::SIMD(regs.last()), slot)]
        } else {
            seq![Inst::Load(LoadKind::Ldr, Size::S64, Location::SIMD(regs.last()), slot)]
        }
    }
}

impl MachineView {
    pub open spec fn with_pushed(self, code: Seq<Inst>, pushed: bool) -> MachineView {
        MachineView { code: self.code + code, pushed, ..self }
    }
}

impl MachineARM64 {
    fn emit_push_reg(&mut self, src: Location)
        requires
            old(self).wf(),
            old(self)@.room(2),
        ensures
            final(self).wf(),
            final(self)@ == old(self)@.with_pushed(push_code(old(self)@.pushed, src), !old(self)@.pushed),
    {
        let offset: i32 = if self.pushed() {
            0
        } else {
            self.emit(Inst::Op3(Op3::Sub, Size::S64, Location::GPR(GPR::XzrSp), Location::Imm8(16), Location::GPR(GPR::XzrSp)));
            8
        };
        self.emit(Inst::Stur(Size::S64, src, GPR::XzrSp, offset));
        let p = self.pushed();
        self.set_pushed(!p);
        assert(self@ =~= old(self)@.with_pushed(push_code(old(self)@.pushed, src), !old(self)@.pushed));
    }

    /// Pushes an 8-byte value: into the free half of the last 16-byte slot
    /// if there is one, else into a new slot; the stack pointer stays 16-byte
    /// aligned and `pushed` flips.
    pub fn emit_push(&mut self, sz: Size, src: Location)
        requires
            old(self).wf(),
            old(self)@.room(8),
            sz == Size::S64,
            push_any_ok(old(self)@.used_gprs, src),
        ensures
            final(self).wf(),
            final(self)@ == old(self)@.with_pushed(
                push_any_code(old(self)@.used_gprs, old(self)@.pushed, src),
                !old(self)@.pushed,
            ),
            final(self)@.code.len() <= old(self)@.code.len() + 7,
    {
        match src {
            Location::GPR(_) | Location::SIMD(_) => {
                self.emit_push_reg(src);
            },
            _ => {
                let mut temps: Vec<GPR> = Vec::new();
                let s = self.location_to_reg(sz, src, &mut temps, ImmType::NoImm, true, None);
                self.emit_push_reg(s);
                if temps.len() > 0 {
                    let t = temps.pop().unwrap();
                    self.release_gpr(t);
                }
                assert(self@.used_gprs =~= old(self)@.used_gprs);
                assert(self@ =~= old(self)@.with_pushed(
                    push_any_code(old(self)@.used_gprs, old(self)@.pushed, src),
                    !old(self)@.pushed,
                ));
            },
        }
    }

    /// Pops an 8-byte value into the register `dst`, closing the slot when it
    /// was half full; `pushed` flips.
    pub fn emit_pop(&mut self, sz: Size, dst: Location)
        requires
            old(self).wf(),
            old(self)@.room(2),
            sz == Size::S64,
            dst.is_reg(),
        ensures
            final(self).wf(),
            final(self)@ == old(self)@.with_pushed(pop_code(old(self)@.pushed, dst), !old(self)@.pushed),
    {
        let p = self.pushed();
        let offset: i32 = if p {
            8
        } else {
            0
        };
        self.emit(Inst::Ldur(Size::S64, dst, GPR::XzrSp, offset));
        if p {
            self.emit(Inst::Op3(Op3::Add, Size::S64, Location::GPR(GPR::XzrSp), Location::Imm8(16), Location::GPR(GPR::XzrSp)));
        }
        self.set_pushed(!p);
        assert(self@ =~= old(self)@.with_pushed(pop_code(old(self)@.pushed, dst), !old(self)@.pushed));
    }

    /// Pushes two values: one `stp` with pre-decrement when the last slot is
    /// full and both are general-purpose registers, else two pushes.
    pub fn emit_double_push(&mut self, sz: Size, src1: Location, src2: Location)
        requires
            old(self).wf(),
            old(self)@.room(4),
            sz == Size::S64,
            src1.is_reg(),
            src2.is_reg(),
        ensures
            final(self).wf(),
            final(self)@ == if !old(self)@.pushed && src1 is GPR && src2 is GPR {
                old(self)@.with_code(seq![Inst::Stpdb(Size::S64, src1, src2, GPR::XzrSp, 16)])
            } else {
                old(self)@.with_code(push_code(old(self)@.pushed, src1) + push_code(!old(self)@.pushed, src2))
            },
    {
        if !self.pushed() && matches!(src1, Location::GPR(_)) && matches!(src2, Location::GPR(_)) {
            self.emit(Inst::Stpdb(Size::S64, src1, src2, GPR::XzrSp, 16));
        } else {
            self.emit_push_reg(src1);
            self.emit_push_reg(src2);
            assert(self@ =~= old(self)@.with_code(push_code(old(self)@.pushed, src1) + push_code(!old(self)@.pushed, src2)));
        }
    }

    /// Pops two values, the reverse of `emit_double_push`.
    pub fn emit_double_pop(&mut self, sz: Size, dst1: Location, dst2: Location)
        requires
            old(self).wf(),
            old(self)@.room(4),
            sz == Size::S64,
            dst1.is_reg(),
            dst2.is_reg(),
        ensures
            final(self).wf(),
            final(self)@ == if !old(self)@.pushed && dst1 is GPR && dst2 is GPR {
                old(self)@.with_code(seq![Inst::Ldpia(Size::S64, dst1, dst2, GPR::XzrSp, 16)])
            } else {
                old(self)@.with_code(pop_code(old(self)@.pushed, dst2) + pop_code(!old(self)@.pushed, dst1))
            },
    {
        if !self.pushed() && matches!(dst1, Location::GPR(_)) && matches!(dst2, Location::GPR(_)) {
            self.emit(Inst::Ldpia(Size::S64, dst1, dst2, GPR::XzrSp, 16));
        } else {
            self.emit_pop(sz, dst2);
            self.emit_pop(sz, dst1);
            assert(self@ =~= old(self)@.with_code(pop_code(old(self)@.pushed, dst2) + pop_code(!old(self)@.pushed, dst1)));
        }
    }

    /// Saves `X29, X30`, then `X27, X28`, and sets `X29` to the stack pointer.
    pub fn emit_function_prolog(&mut self)
        requires
            old(self).wf(),
            old(self)@.room(8),
            !old(self)@.pushed,
        ensures
            final(self).wf(),
            final(self)@ == old(self)@.with_code(prolog_code()),
    {
        self.emit_double_push(Size::S64, Location::GPR(GPR::X29), Location::GPR(GPR::X30));
        self.emit_double_push(Size::S64, Location::GPR(GPR::X27), Location::GPR(GPR::X28));
        self.emit(Inst::Op3(Op3::Add, Size::S64, Location::GPR(GPR::XzrSp), Location::Imm8(0), Location::GPR(GPR::X29)));
        assert(self@ =~= old(self)@.with_code(prolog_code()));
    }

    /// Resets the stack pointer from `X29`, which leaves it 16-byte aligned,
    /// and restores `X27, X28`, then `X29, X30`.
    pub fn emit_function_epilog(&mut self)
        requires
            old(self).wf(),
            old(self)@.room(8),
        ensures
            final(self).wf(),
            final(self)@ == old(self)@.with_pushed(epilog_code(), false),
    {
        self.emit(Inst::Op3(Op3::Add, Size::S64, Location::GPR(GPR::X29), Location::Imm8(0), Location::GPR(GPR::XzrSp)));
        self.set_pushed(false);
        self.emit_double_pop(Size::S64, Location::GPR(GPR::X27), Location::GPR(GPR::X28));
        self.emit_double_pop(Size::S64, Location::GPR(GPR::X29), Location::GPR(GPR::X30));
        assert(self@ =~= old(self)@.with_pushed(epilog_code(), false));
    }

    /// Pushes every used general-purpose register, then a zero-register pad
    /// when their count is odd, and returns the bytes the stack pointer
    /// moved.
    pub fn push_used_gpr(&mut self) -> (r: usize)
        requires
            old(self).wf(),
            old(self)@.room(66),
        ensures
            final(self).wf(),
            final(self)@ == old(self)@.with_code(push_used_gpr_code(old(self)@.used_gprs, old(self)@.pushed)),
            r == (used_gpr_list(old(self)@.used_gprs, 32).len() + 1) / 2 * 16,
    {
        let used_gprs = self.get_used_gprs();
        proof { lemma_used_gpr_list_len(self@.used_gprs, 32); }
        let ghost start_parity = self@.pushed;
        let ghost c0 = self@.code;
        let ghost pad_parity = self@.pushed;
        let mut i: usize = 0;
        while i < used_gprs.len()
            invariant
                self.wf(),
                i <= used_gprs@.len() <= 32,
                c0.len() + 2 * 32 <= MAX_CODE,
                self@ == (MachineView {
                    code: c0 + push_regs_code(pad_parity, used_gprs@.take(i as int)),
                    pushed: parity_after(pad_parity, i as int),
                    ..old(self)@
                }),
                push_regs_code(pad_parity, used_gprs@.take(i as int)).len() <= 2 * i,
            decreases used_gprs@.len() - i,
        {
            let r = used_gprs[i];
            proof {
                assert(used_gprs@.take(i + 1).drop_last() == used_gprs@.take(i as int));
            }
            self.emit_push_reg(Location::GPR(r));
            i = i + 1;
            assert(self@ =~= (MachineView {
                code: c0 + push_regs_code(pad_parity, used_gprs@.take(i as int)),
                pushed: parity_after(pad_parity, i as int),
                ..old(self)@
            }));
        }
        assert(used_gprs@.take(used_gprs@.len() as int) == used_gprs@);
        if used_gprs.len() % 2 == 1 {
            self.emit_push_reg(Location::GPR(GPR::XzrSp));
        }
        assert(self@ =~= old(self)@.with_code(push_used_gpr_code(old(self)@.used_gprs, start_parity)));
        (used_gprs.len() + 1) / 2 * 16
    }
}

/// At most 32 registers are in use.
pub proof fn lemma_used_gpr_list_len(used: Seq<bool>, n: int)
    requires
        0 <= n <= 32,
    ensures
        used_gpr_list(used, n).len() <= n,
    decreases n,
{
    if n > 0 {
        lemma_used_gpr_list_len(used, n - 1);
    }
}

pub proof fn lemma_used_simd_list_len(used: Seq<bool>, n: int)
    requires
        0 <= n <= 32,
    ensures
        used_simd_list(used, n).len() <= n,
    decreases n,
{
    if n > 0 {
        lemma_used_simd_list_len(used, n - 1);
    }
}

impl MachineARM64 {
    /// Pops the pad, if there is one, then every used general-purpose
    /// register in the reverse order of `push_used_gpr`.
    pub fn pop_used_gpr(&mut self)
        requires
            old(self).wf(),
            old(self)@.room(66),
        ensures
            final(self).wf(),
            final(self)@ == old(self)@.with_pushed(
                pop_used_gpr_code(old(self)@.used_gprs, old(self)@.pushed),
                parity_after(old(self)@.pushed, used_gpr_list(old(self)@.used_gprs, 32).len() as int
                    + used_gpr_list(old(self)@.used_gprs, 32).len() as int % 2),
            ),
    {
        let used_gprs = self.get_used_gprs();
        proof { lemma_used_gpr_list_len(self@.used_gprs, 32); }
        let ghost start_parity = self@.pushed;
        let n = used_gprs.len();
        if n % 2 == 1 {
            self.emit_pop(Size::S64, Location::GPR(GPR::XzrSp));
        }
        let ghost c0 = self@.code;
        let ghost pad_parity = self@.pushed;
        let mut k: usize = 0;
        while k < n
            invariant
                self.wf(),
                k <= n == used_gprs@.len() <= 32,
                c0.len() + 64 <= MAX_CODE,
                self@ == (MachineView {
                    code: c0 + pop_regs_code(pad_parity, used_gprs@, k as int),
                    pushed: parity_after(pad_parity, k as int),
                    ..old(self)@
                }),
                pop_regs_code(pad_parity, used_gprs@, k as int).len() <= 2 * k,
            decreases n - k,
        {
            let r = used_gprs[n - 1 - k];
            self.emit_pop(Size::S64, Location::GPR(r));
            k = k + 1;
            assert(self@ =~= (MachineView {
                code: c0 + pop_regs_code(pad_parity, used_gprs@, k as int),
                pushed: parity_after(pad_parity, k as int),
                ..old(self)@
            }));
        }
        assert(self@ =~= old(self)@.with_pushed(
            pop_used_gpr_code(old(self)@.used_gprs, start_parity),
            parity_after(start_parity, n as int + n as int % 2),
        ));
    }

    /// Moves the stack pointer down by `delta_stack_offset` bytes.
    pub fn adjust_stack(&mut self, delta_stack_offset: u32)
        requires
            old(self).wf(),
            old(self)@.room(5),
        ensures
            final(self).wf(),
            final(self)@ == old(self)@.with_code(
                stack_delta_code(delta_stack_offset).0 + seq![
                    Inst::Op3(Op3::Sub, Size::S64, sp(), stack_delta_code(delta_stack_offset).1, sp()),
                ],
            ),
    {
        let delta = self.stack_delta(delta_stack_offset);
        self.emit(Inst::Op3(Op3::Sub, Size::S64, Location::GPR(GPR::XzrSp), delta, Location::GPR(GPR::XzrSp)));
    }

    /// Moves the stack pointer up by `delta_stack_offset` bytes.
    pub fn restore_stack(&mut self, delta_stack_offset: u32)
        requires
            old(self).wf(),
            old(self)@.room(5),
        ensures
            final(self).wf(),
            final(self)@ == old(self)@.with_code(
                stack_delta_code(delta_stack_offset).0 + seq![
                    Inst::Op3(Op3::Add, Size::S64, sp(), stack_delta_code(delta_stack_offset).1, sp()),
                ],
            ),
    {
        let delta = self.stack_delta(delta_stack_offset);
        self.emit(Inst::Op3(Op3::Add, Size::S64, Location::GPR(GPR::XzrSp), delta, Location::GPR(GPR::XzrSp)));
    }

    /// Releases the stack area of locals, rounded up to 16 bytes by adding
    /// eight to a size that is not a multiple of 16.
    pub fn pop_stack_locals(&mut self, delta_stack_offset: u32)
        requires
            old(self).wf(),
            old(self)@.room(5),
            delta_stack_offset & 15 != 0 ==> delta_stack_offset <= u32::MAX - 8,
        ensures
            final(self).wf(),
            ({
                let rd = if delta_stack_offset & 15 != 0 {
                    (delta_stack_offset + 8) as u32
                } else {
                    delta_stack_offset
                };
                final(self)@ == old(self)@.with_code(
                    stack_delta_code(rd).0 + seq![
                        Inst::Op3(Op3::Add, Size::S64, sp(), stack_delta_code(rd).1, sp()),
                    ],
                )
            }),
    {
        let real_delta = if delta_stack_offset & 15 != 0 {
            delta_stack_offset + 8
        } else {
            delta_stack_offset
        };
        self.restore_stack(real_delta);
    }

    fn stack_delta(&mut self, delta: u32) -> (r: Location)
        requires
            old(self).wf(),
            old(self)@.room(4),
        ensures
            final(self).wf(),
            r == stack_delta_code(delta).1,
            final(self)@ == old(self)@.with_code(stack_delta_code(delta).0),
            stack_delta_code(delta).0.len() <= 4,
    {
        if compatible_imm(delta as i64, ImmType::Bits12) {
            assert(self@ =~= old(self)@.with_code(seq![]));
            Location::Imm32(delta)
        } else {
            proof { crate::inst::lemma_mov_imm_len(GPR::X17, delta as u64); }
            self.emit_mov_imm(GPR::X17, delta as u64);
            Location::GPR(GPR::X17)
        }
    }

    /// Resets the stack pointer to `saved_area_offset` bytes below the frame
    /// pointer, rounded up to 16, and sets `pushed` to whether rounding took
    /// place.
    pub fn restore_saved_area(&mut self, saved_area_offset: i32)
        requires
            old(self).wf(),
            old(self)@.room(6),
            saved_area_offset & 15 != 0 ==> saved_area_offset <= i32::MAX - 8,
            !fits(
                (if saved_area_offset & 15 != 0 {
                    (saved_area_offset + 8) as i32
                } else {
                    saved_area_offset
                }) as i64,
                ImmType::Bits12,
            ) ==> free_temp_gprs(old(self)@.used_gprs) >= 1,
        ensures
            final(self).wf(),
            ({
                let misaligned = saved_area_offset & 15 != 0;
                let rd = if misaligned {
                    (saved_area_offset + 8) as i32
                } else {
                    saved_area_offset
                };
                let t = first_free_temp_gpr(old(self)@.used_gprs)->Some_0;
                final(self)@ == old(self)@.with_pushed(
                    if fits(rd as i64, ImmType::Bits12) {
                        seq![Inst::Op3(Op3::Sub, Size::S64, Location::GPR(GPR::X29), Location::Imm32(rd as u32), sp())]
                    } else {
                        mov_imm_seq(t, rd as u64) + seq![
                            Inst::Op3(Op3::Sub, Size::S64, Location::GPR(GPR::X29), Location::GPR(t), sp()),
                        ]
                    },
                    misaligned,
                )
            }),
    {
        let real_delta = if saved_area_offset & 15 != 0 {
            self.set_pushed(true);
            saved_area_offset + 8
        } else {
            self.set_pushed(false);
            saved_area_offset
        };
        if compatible_imm(real_delta as i64, ImmType::Bits12) {
            self.emit(Inst::Op3(Op3::Sub, Size::S64, Location::GPR(GPR::X29), Location::Imm32(real_delta as u32), Location::GPR(GPR::XzrSp)));
        } else {
            let tmp = self.acquire_temp_gpr().unwrap();
            self.emit_mov_imm(tmp, real_delta as u64);
            self.emit(Inst::Op3(Op3::Sub, Size::S64, Location::GPR(GPR::X29), Location::GPR(tmp), Location::GPR(GPR::XzrSp)));
            self.release_gpr(tmp);
            assert(self@.used_gprs =~= old(self)@.used_gprs);
        }
        assert(self@.code =~= old(self)@.code + if fits(real_delta as i64, ImmType::Bits12) {
            seq![Inst::Op3(Op3::Sub, Size::S64, Location::GPR(GPR::X29), Location::Imm32(real_delta as u32), sp())]
        } else {
            mov_imm_seq(first_free_temp_gpr(old(self)@.used_gprs)->Some_0, real_delta as u64) + seq![
                Inst::Op3(Op3::Sub, Size::S64, Location::GPR(GPR::X29), Location::GPR(first_free_temp_gpr(old(self)@.used_gprs)->Some_0), sp()),
            ]
        });
    }

    /// Stores every used NEON register in a stack area it reserves, eight
    /// bytes each, rounded up to 16; returns the area's size.
    pub fn push_used_simd(&mut self) -> (r: usize)
        requires
            old(self).wf(),
            old(self)@.room(40),
        ensures
            final(self).wf(),
            ({
                let regs = used_simd_list(old(self)@.used_simd, 32);
                let area = simd_area(regs.len() as int) as u32;
                &&& r == area
                &&& final(self)@ == old(self)@.with_code(
                    stack_delta_code(area).0 + seq![
                        Inst::Op3(Op3::Sub, Size::S64, sp(), stack_delta_code(area).1, sp()),
                    ] + simd_slots_code(regs, true),
                )
            }),
    {
        let used_neons = self.get_used_simd();
        proof { lemma_used_simd_list_len(self@.used_simd, 32); }
        let n = used_neons.len();
        let stack_adjust: u32 = if n % 2 == 1 {
            (n * 8) as u32 + 8
        } else {
            (n * 8) as u32
        };
        self.adjust_stack(stack_adjust);
        self.emit_simd_slots(&used_neons, true);
        stack_adjust as usize
    }

    /// Loads every used NEON register back from the area of `push_used_simd`
    /// and releases it.
    pub fn pop_used_simd(&mut self)
        requires
            old(self).wf(),
            old(self)@.room(40),
        ensures
            final(self).wf(),
            ({
                let regs = used_simd_list(old(self)@.used_simd, 32);
                let area = simd_area(regs.len() as int) as u32;
                final(self)@ == old(self)@.with_code(
                    simd_slots_code(regs, false) + seq![
                        Inst::Op3(Op3::Add, Size::S64, sp(), Location::Imm32(area), sp()),
                    ],
                )
            }),
    {
        let used_neons = self.get_used_simd();
        proof { lemma_used_simd_list_len(self@.used_simd, 32); }
        let n = used_neons.len();
        self.emit_simd_slots(&used_neons, false);
        let stack_adjust: u32 = if n % 2 == 1 {
            (n * 8) as u32 + 8
        } else {
            (n * 8) as u32
        };
        self.emit(Inst::Op3(Op3::Add, Size::S64, Location::GPR(GPR::XzrSp), Location::Imm32(stack_adjust), Location::GPR(GPR::XzrSp)));
        assert(self@.code =~= old(self)@.code + simd_slots_code(used_neons@, false) + seq![
            Inst::Op3(Op3::Add, Size::S64, sp(), Location::Imm32(stack_adjust), sp()),
        ]);
    }

    fn emit_simd_slots(&mut self, regs: &Vec<NEON>, store: bool)
        requires
            old(self).wf(),
            regs@.len() <= 32,
            old(self)@.room(32),
        ensures
            final(self).wf(),
            final(self)@ == old(self)@.with_code(simd_slots_code(regs@, store)),
            simd_slots_code(regs@, store).len() == regs@.len(),
    {
        let mut i: usize = 0;
        while i < regs.len()
            invariant
                self.wf(),
                i <= regs@.len() <= 32,
                old(self)@.code.len() + 32 <= MAX_CODE,
                self@ == old(self)@.with_code(simd_slots_code(regs@.take(i as int), store)),
                simd_slots_code(regs@.take(i as int), store).len() == i,
            decreases regs@.len() - i,
        {
            let slot = Location::Memory(GPR::XzrSp, (i * 8) as i32);
            if store {
                self.emit(Inst::Store(StoreKind::Str, Size::S64, Location::SIMD(regs[i]), slot));
            } else {
                self.emit(Inst::Load(LoadKind::Ldr, Size::S64, Location::SIMD(regs[i]), slot));
            }
            proof {
                assert(regs@.take(i + 1).drop_last() == regs@.take(i as int));
            }
            i = i + 1;
            assert(self@ =~= old(self)@.with_code(simd_slots_code(regs@.take(i as int), store)));
        }
        assert(regs@.take(regs@.len() as int) == regs@);
    }
}

} // verus!
