//! The machine state: emitted code, labels, register pool, trap table,
//! address map, source location and stack parity.

use crate::inst::{mov_imm_seq, Inst};
use crate::regs::{GPR, Label, NEON, TrapCode};
use vstd::prelude::*;

verus! {

broadcast use {crate::regs::lemma_gpr_idx_range, crate::regs::lemma_simd_idx_range};

/// Most instructions one function may hold: their byte offsets fit in 32 bits.
pub const MAX_CODE: usize = 0x1000_0000;

/// One row of the address map: the Wasm source location of a native range.
#[derive(Clone, Copy, Debug, PartialEq, Eq, Structural)]
pub struct InstructionAddressMap {
    pub srcloc: u32,
    pub code_offset: usize,
    pub code_len: usize,
}

/// One row of the collected trap table.
#[derive(Clone, Copy, Debug, PartialEq, Eq, Structural)]
pub struct TrapInformation {
    pub code_offset: u32,
    pub trap_code: TrapCode,
}

/// The code generator's state for one function.
pub struct MachineARM64 {
    code: Vec<Inst>,
    labels: Vec<Option<usize>>,
    used_gprs: Vec<bool>,
    used_simd: Vec<bool>,
    trap_table: Vec<Option<TrapCode>>,
    instructions_address_map: Vec<InstructionAddressMap>,
    src_loc: u32,
    pushed: bool,
}

/// The abstract state of a machine.
#[verifier::ext_equal]
pub struct MachineView {
    /// Instructions emitted so far, four bytes each.
    pub code: Seq<Inst>,
    /// Byte offset at which each label was placed, if it was.
    pub labels: Seq<Option<usize>>,
    /// Which general-purpose registers are in use, by register index.
    pub used_gprs: Seq<bool>,
    /// Which NEON registers are in use, by register index.
    pub used_simd: Seq<bool>,
    /// Trap code recorded for each byte offset.
    pub traps: Map<int, TrapCode>,
    pub addr_map: Seq<InstructionAddressMap>,
    pub src_loc: u32,
    /// Whether the last 16-byte stack slot holds one 8-byte value.
    pub pushed: bool,
}

pub open spec fn traps_of(t: Seq<Option<TrapCode>>) -> Map<int, TrapCode> {
    Map::new(|i: int| 0 <= i < t.len() && t[i] is Some, |i: int| t[i]->Some_0)
}

impl MachineView {
    pub open spec fn wf(self) -> bool {
        &&& self.used_gprs.len() == 32
        &&& self.used_simd.len() == 32
        &&& self.code.len() <= MAX_CODE
        &&& forall|i: int| #[trigger] self.traps.contains_key(i) ==> 0 <= i <= self.offset()
    }

    /// Byte offset of the next instruction.
    pub open spec fn offset(self) -> int {
        4 * self.code.len() as int
    }

    /// Room for `n` more instructions.
    pub open spec fn room(self, n: int) -> bool {
        self.code.len() + n <= MAX_CODE
    }

    pub open spec fn gpr_used(self, r: GPR) -> bool {
        self.used_gprs[r.idx()]
    }

    pub open spec fn simd_used(self, r: NEON) -> bool {
        self.used_simd[r.idx()]
    }

    /// The state after `s` is appended to the code.
    pub open spec fn with_code(self, s: Seq<Inst>) -> MachineView {
        MachineView { code: self.code + s, ..self }
    }

    /// The state with `r` marked as used or free.
    pub open spec fn with_gpr(self, r: GPR, used: bool) -> MachineView {
        MachineView { used_gprs: self.used_gprs.update(r.idx(), used), ..self }
    }

    pub open spec fn with_simd(self, r: NEON, used: bool) -> MachineView {
        MachineView { used_simd: self.used_simd.update(r.idx(), used), ..self }
    }
}

/// First free register of the allocatable pool `X9..X15`.
pub open spec fn first_free_gpr(used: Seq<bool>) -> Option<GPR> {
    if !used[9] {
        Some(GPR::X9)
    } else if !used[10] {
        Some(GPR::X10)
    } else if !used[11] {
        Some(GPR::X11)
    } else if !used[12] {
        Some(GPR::X12)
    } else if !used[13] {
        Some(GPR::X13)
    } else if !used[14] {
        Some(GPR::X14)
    } else if !used[15] {
        Some(GPR::X15)
    } else {
        None
    }
}

/// First free register of the temporary pool, tried `X8, X7, ..., X1`.
pub open spec fn first_free_temp_gpr(used: Seq<bool>) -> Option<GPR> {
    if !used[8] {
        Some(GPR::X8)
    } else if !used[7] {
        Some(GPR::X7)
    } else if !used[6] {
        Some(GPR::X6)
    } else if !used[5] {
        Some(GPR::X5)
    } else if !used[4] {
        Some(GPR::X4)
    } else if !used[3] {
        Some(GPR::X3)
    } else if !used[2] {
        Some(GPR::X2)
    } else if !used[1] {
        Some(GPR::X1)
    } else {
        None
    }
}

/// Number of free registers in the temporary pool.
pub open spec fn free_temp_gprs(used: Seq<bool>) -> int {
    (if used[1] { 0int } else { 1int }) + (if used[2] { 0int } else { 1int }) + (if used[3] {
        0int
    } else {
        1int
    }) + (if used[4] { 0int } else { 1int }) + (if used[5] { 0int } else { 1int }) + (if used[6] {
        0int
    } else {
        1int
    }) + (if used[7] { 0int } else { 1int }) + (if used[8] { 0int } else { 1int })
}

/// First free register of the allocatable NEON pool `V8..V12`.
pub open spec fn first_free_simd(used: Seq<bool>) -> Option<NEON> {
    if !used[8] {
        Some(NEON::V8)
    } else if !used[9] {
        Some(NEON::V9)
    } else if !used[10] {
        Some(NEON::V10)
    } else if !used[11] {
        Some(NEON::V11)
    } else if !used[12] {
        Some(NEON::V12)
    } else {
        None
    }
}

/// First free register of the temporary NEON pool `V0..V7`.
pub open spec fn first_free_temp_simd(used: Seq<bool>) -> Option<NEON> {
    if !used[0] {
        Some(NEON::V0)
    } else if !used[1] {
        Some(NEON::V1)
    } else if !used[2] {
        Some(NEON::V2)
    } else if !used[3] {
        Some(NEON::V3)
    } else if !used[4] {
        Some(NEON::V4)
    } else if !used[5] {
        Some(NEON::V5)
    } else if !used[6] {
        Some(NEON::V6)
    } else if !used[7] {
        Some(NEON::V7)
    } else {
        None
    }
}

/// Number of free registers in the temporary NEON pool.
pub open spec fn free_temp_simd(used: Seq<bool>) -> int {
    (if used[0] { 0int } else { 1int }) + (if used[1] { 0int } else { 1int }) + (if used[2] {
        0int
    } else {
        1int
    }) + (if used[3] { 0int } else { 1int }) + (if used[4] { 0int } else { 1int }) + (if used[5] {
        0int
    } else {
        1int
    }) + (if used[6] { 0int } else { 1int }) + (if used[7] { 0int } else { 1int })
}

/// A temporary register is one of `X1..X8`.
pub open spec fn is_temp_gpr(r: GPR) -> bool {
    1 <= r.idx() <= 8
}

pub open spec fn is_temp_simd(r: NEON) -> bool {
    0 <= r.idx() <= 7
}

impl View for MachineARM64 {
    type V = MachineView;

    closed spec fn view(&self) -> MachineView {
        MachineView {
            code: self.code@,
            labels: self.labels@,
            used_gprs: self.used_gprs@,
            used_simd: self.used_simd@,
            traps: traps_of(self.trap_table@),
            addr_map: self.instructions_address_map@,
            src_loc: self.src_loc,
            pushed: self.pushed,
        }
    }
}

impl MachineARM64 {
    /// Consistency of the representation that the view does not show.
    pub closed spec fn inv(&self) -> bool {
        self.trap_table@.len() <= 4 * self.code@.len() + 1
    }

    /// The machine's state is consistent.
    pub open spec fn wf(&self) -> bool {
        self@.wf() && self.inv()
    }

    /// A machine for a new function: no code, no register in use.
    pub fn new() -> (m: Self)
        ensures
            m.wf(),
            m@.code.len() == 0,
            m@.labels.len() == 0,
            forall|i: int| 0 <= i < 32 ==> !m@.used_gprs[i] && !m@.used_simd[i],
            m@.traps.is_empty(),
            m@.addr_map.len() == 0,
            m@.src_loc == 0,
            !m@.pushed,
    {
        let mut used_gprs: Vec<bool> = Vec::new();
        let mut used_simd: Vec<bool> = Vec::new();
        let mut i: usize = 0;
        while i < 32
            invariant
                i <= 32,
                used_gprs@.len() == i,
                used_simd@.len() == i,
                forall|j: int| 0 <= j < i ==> !used_gprs@[j] && !used_simd@[j],
            decreases 32 - i,
        {
            used_gprs.push(false);
            used_simd.push(false);
            i = i + 1;
        }
        let m = MachineARM64 {
            code: Vec::new(),
            labels: Vec::new(),
            used_gprs,
            used_simd,
            trap_table: Vec::new(),
            instructions_address_map: Vec::new(),
            src_loc: 0,
            pushed: false,
        };
        assert(m@.traps =~= Map::empty());
        m
    }

    /// Appends one instruction.
    pub fn emit(&mut self, i: Inst)
        requires
            old(self).wf(),
            old(self)@.room(1),
        ensures
            final(self).wf(),
            final(self)@ == old(self)@.with_code(seq![i]),
    {
        self.code.push(i);
        assert(self@ =~= old(self)@.with_code(seq![i]));
    }

    /// Puts the constant `v` in `r`.
    pub fn emit_mov_imm(&mut self, r: GPR, v: u64)
        requires
            old(self).wf(),
            old(self)@.room(4),
        ensures
            final(self).wf(),
            final(self)@ == old(self)@.with_code(mov_imm_seq(r, v)),
    {
        self.emit(Inst::Movz(r, (v & 0xffff) as u32, 0));
        if (v >> 16u64) & 0xffff != 0 {
            self.emit(Inst::Movk(r, ((v >> 16u64) & 0xffff) as u32, 16));
        }
        if (v >> 32u64) & 0xffff != 0 {
            self.emit(Inst::Movk(r, ((v >> 32u64) & 0xffff) as u32, 32));
        }
        if (v >> 48u64) & 0xffff != 0 {
            self.emit(Inst::Movk(r, ((v >> 48u64) & 0xffff) as u32, 48));
        }
        assert(self@.code =~= old(self)@.code + mov_imm_seq(r, v));
    }

    /// Byte offset of the next instruction.
    pub fn get_offset(&self) -> (r: usize)
        requires
            self.wf(),
        ensures
            r == self@.offset(),
    {
        4 * self.code.len()
    }

    /// The instructions emitted so far.
    pub fn instructions(&self) -> (r: Vec<Inst>)
        ensures
            r@ == self@.code,
    {
        let mut r: Vec<Inst> = Vec::new();
        let mut i: usize = 0;
        while i < self.code.len()
            invariant
                i <= self.code@.len(),
                r@ == self.code@.subrange(0, i as int),
            decreases self.code@.len() - i,
        {
            r.push(self.code[i]);
            i = i + 1;
            assert(r@ =~= self.code@.subrange(0, i as int));
        }
        assert(r@ =~= self.code@);
        r
    }

    /// A new label, not yet placed.
    pub fn get_label(&mut self) -> (l: Label)
        requires
            old(self).wf(),
        ensures
            final(self).wf(),
            l.id == old(self)@.labels.len(),
            final(self)@ == (MachineView { labels: old(self)@.labels.push(None), ..old(self)@ }),
    {
        let id = self.labels.len();
        self.labels.push(None);
        assert(self@ =~= (MachineView { labels: old(self)@.labels.push(None), ..old(self)@ }));
        Label { id }
    }

    /// Places `l` at the current offset.
    pub fn emit_label(&mut self, l: Label)
        requires
            old(self).wf(),
            l.id < old(self)@.labels.len(),
        ensures
            final(self).wf(),
            final(self)@ == (MachineView {
                labels: old(self)@.labels.update(l.id as int, Some(old(self)@.offset() as usize)),
                ..old(self)@
            }),
    {
        let off = 4 * self.code.len();
        self.labels.set(l.id, Some(off));
        assert(self@ =~= (MachineView {
            labels: old(self)@.labels.update(l.id as int, Some(old(self)@.offset() as usize)),
            ..old(self)@
        }));
    }

    /// Where `l` was placed, if it was.
    pub fn label_offset(&self, l: Label) -> (r: Option<usize>)
        requires
            l.id < self@.labels.len(),
        ensures
            r == self@.labels[l.id as int],
    {
        self.labels[l.id]
    }

    /// Whether the last stack slot is half full.
    pub fn pushed(&self) -> (r: bool)
        ensures
            r == self@.pushed,
    {
        self.pushed
    }

    pub(crate) fn set_pushed(&mut self, p: bool)
        requires
            old(self).wf(),
        ensures
            final(self).wf(),
            final(self)@ == (MachineView { pushed: p, ..old(self)@ }),
    {
        self.pushed = p;
        assert(self@ =~= (MachineView { pushed: p, ..old(self)@ }));
    }

    /// The source location of the operator being compiled.
    pub fn src_loc(&self) -> (r: u32)
        ensures
            r == self@.src_loc,
    {
        self.src_loc
    }

    /// Sets the Wasm source location of the operator about to be compiled.
    pub fn set_srcloc(&mut self, offset: u32)
        requires
            old(self).wf(),
        ensures
            final(self).wf(),
            final(self)@ == (MachineView { src_loc: offset, ..old(self)@ }),
    {
        self.src_loc = offset;
        assert(self@ =~= (MachineView { src_loc: offset, ..old(self)@ }));
    }
}


/// The used registers among the first `n` positions, in register order.
pub open spec fn used_gpr_list(used: Seq<bool>, n: int) -> Seq<GPR>
    decreases n,
{
    if n <= 0 {
        seq![]
    } else if used[n - 1] {
        used_gpr_list(used, n - 1).push(choose|r: GPR| r.idx() == n - 1)
    } else {
        used_gpr_list(used, n - 1)
    }
}

pub open spec fn used_simd_list(used: Seq<bool>, n: int) -> Seq<NEON>
    decreases n,
{
    if n <= 0 {
        seq![]
    } else if used[n - 1] {
        used_simd_list(used, n - 1).push(choose|r: NEON| r.idx() == n - 1)
    } else {
        used_simd_list(used, n - 1)
    }
}

/// `t` with `code` recorded at every byte offset in `begin..end`.
pub open spec fn mark_range(t: Map<int, TrapCode>, begin: int, end: int, code: TrapCode) -> Map<
    int,
    TrapCode,
> {
    Map::new(
        |i: int| t.contains_key(i) || begin <= i < end,
        |i: int|
            if begin <= i < end {
                code
            } else {
                t[i]
            },
    )
}

impl MachineARM64 {
    /// First free allocatable register, if any.
    pub fn pick_gpr(&self) -> (r: Option<GPR>)
        requires
            self.wf(),
        ensures
            r == first_free_gpr(self@.used_gprs),
    {
        if !self.used_gprs[9] {
            Some(GPR::X9)
        } else if !self.used_gprs[10] {
            Some(GPR::X10)
        } else if !self.used_gprs[11] {
            Some(GPR::X11)
        } else if !self.used_gprs[12] {
            Some(GPR::X12)
        } else if !self.used_gprs[13] {
            Some(GPR::X13)
        } else if !self.used_gprs[14] {
            Some(GPR::X14)
        } else if !self.used_gprs[15] {
            Some(GPR::X15)
        } else {
            None
        }
    }

    /// First free register of the temporary pool, if any.
    pub fn pick_temp_gpr(&self) -> (r: Option<GPR>)
        requires
            self.wf(),
        ensures
            r == first_free_temp_gpr(self@.used_gprs),
    {
        if !self.used_gprs[8] {
            Some(GPR::X8)
        } else if !self.used_gprs[7] {
            Some(GPR::X7)
        } else if !self.used_gprs[6] {
            Some(GPR::X6)
        } else if !self.used_gprs[5] {
            Some(GPR::X5)
        } else if !self.used_gprs[4] {
            Some(GPR::X4)
        } else if !self.used_gprs[3] {
            Some(GPR::X3)
        } else if !self.used_gprs[2] {
            Some(GPR::X2)
        } else if !self.used_gprs[1] {
            Some(GPR::X1)
        } else {
            None
        }
    }

    /// Picks a temporary register and marks it used.
    pub fn acquire_temp_gpr(&mut self) -> (r: Option<GPR>)
        requires
            old(self).wf(),
        ensures
            final(self).wf(),
            r == first_free_temp_gpr(old(self)@.used_gprs),
            r is None ==> final(self)@ == old(self)@,
            r is Some ==> final(self)@ == old(self)@.with_gpr(r->Some_0, true),
            r is Some ==> !old(self)@.gpr_used(r->Some_0) && is_temp_gpr(r->Some_0),
            r is None <==> free_temp_gprs(old(self)@.used_gprs) == 0,
    {
        let r = self.pick_temp_gpr();
        if let Some(x) = r {
            self.used_gprs.set(x.index(), true);
            assert(self@ =~= old(self)@.with_gpr(x, true));
        }
        r
    }

    /// Marks `r`, which must be in use, as free.
    pub fn release_gpr(&mut self, r: GPR)
        requires
            old(self).wf(),
            old(self)@.gpr_used(r),
        ensures
            final(self).wf(),
            final(self)@ == old(self)@.with_gpr(r, false),
    {
        self.used_gprs.set(r.index(), false);
        assert(self@ =~= old(self)@.with_gpr(r, false));
    }

    /// Marks `r`, which must be free, as used.
    pub fn reserve_unused_temp_gpr(&mut self, r: GPR) -> (out: GPR)
        requires
            old(self).wf(),
            !old(self)@.gpr_used(r),
        ensures
            final(self).wf(),
            out == r,
            final(self)@ == old(self)@.with_gpr(r, true),
    {
        self.used_gprs.set(r.index(), true);
        assert(self@ =~= old(self)@.with_gpr(r, true));
        r
    }

    /// Marks `r` as used, whether or not it was.
    pub fn reserve_gpr(&mut self, r: GPR)
        requires
            old(self).wf(),
        ensures
            final(self).wf(),
            final(self)@ == old(self)@.with_gpr(r, true),
    {
        self.used_gprs.set(r.index(), true);
        assert(self@ =~= old(self)@.with_gpr(r, true));
    }

    /// The general-purpose registers in use, in register order.
    pub fn get_used_gprs(&self) -> (r: Vec<GPR>)
        requires
            self.wf(),
        ensures
            r@ == used_gpr_list(self@.used_gprs, 32),
    {
        let mut r: Vec<GPR> = Vec::new();
        let mut i: usize = 0;
        while i < 32
            invariant
                i <= 32,
                self@.used_gprs.len() == 32,
                r@ == used_gpr_list(self@.used_gprs, i as int),
            decreases 32 - i,
        {
            if self.used_gprs[i] {
                let g = GPR::from_index(i);
                assert(g == choose|x: GPR| x.idx() == i as int) by {
                    let c = choose|x: GPR| x.idx() == i as int;
                    crate::regs::lemma_gpr_idx_injective(g, c);
                }
                r.push(g);
            }
            i = i + 1;
        }
        r
    }

    /// First free allocatable NEON register, if any.
    pub fn pick_simd(&self) -> (r: Option<NEON>)
        requires
            self.wf(),
        ensures
            r == first_free_simd(self@.used_simd),
    {
        if !self.used_simd[8] {
            Some(NEON::V8)
        } else if !self.used_simd[9] {
            Some(NEON::V9)
        } else if !self.used_simd[10] {
            Some(NEON::V10)
        } else if !self.used_simd[11] {
            Some(NEON::V11)
        } else if !self.used_simd[12] {
            Some(NEON::V12)
        } else {
            None
        }
    }

    /// First free register of the temporary NEON pool, if any.
    pub fn pick_temp_simd(&self) -> (r: Option<NEON>)
        requires
            self.wf(),
        ensures
            r == first_free_temp_simd(self@.used_simd),
    {
        if !self.used_simd[0] {
            Some(NEON::V0)
        } else if !self.used_simd[1] {
            Some(NEON::V1)
        } else if !self.used_simd[2] {
            Some(NEON::V2)
        } else if !self.used_simd[3] {
            Some(NEON::V3)
        } else if !self.used_simd[4] {
            Some(NEON::V4)
        } else if !self.used_simd[5] {
            Some(NEON::V5)
        } else if !self.used_simd[6] {
            Some(NEON::V6)
        } else if !self.used_simd[7] {
            Some(NEON::V7)
        } else {
            None
        }
    }

    /// Picks a temporary NEON register and marks it used.
    pub fn acquire_temp_simd(&mut self) -> (r: Option<NEON>)
        requires
            old(self).wf(),
        ensures
            final(self).wf(),
            r == first_free_temp_simd(old(self)@.used_simd),
            r is None ==> final(self)@ == old(self)@,
            r is Some ==> final(self)@ == old(self)@.with_simd(r->Some_0, true),
            r is Some ==> !old(self)@.simd_used(r->Some_0) && is_temp_simd(r->Some_0),
            r is None <==> free_temp_simd(old(self)@.used_simd) == 0,
    {
        let r = self.pick_temp_simd();
        if let Some(x) = r {
            self.used_simd.set(x.index(), true);
            assert(self@ =~= old(self)@.with_simd(x, true));
        }
        r
    }

    /// Marks `r` as used, whether or not it was.
    pub fn reserve_simd(&mut self, r: NEON)
        requires
            old(self).wf(),
        ensures
            final(self).wf(),
            final(self)@ == old(self)@.with_simd(r, true),
    {
        self.used_simd.set(r.index(), true);
        assert(self@ =~= old(self)@.with_simd(r, true));
    }

    /// Marks `r`, which must be in use, as free.
    pub fn release_simd(&mut self, r: NEON)
        requires
            old(self).wf(),
            old(self)@.simd_used(r),
        ensures
            final(self).wf(),
            final(self)@ == old(self)@.with_simd(r, false),
    {
        self.used_simd.set(r.index(), false);
        assert(self@ =~= old(self)@.with_simd(r, false));
    }

    /// The NEON registers in use, in register order.
    pub fn get_used_simd(&self) -> (r: Vec<NEON>)
        requires
            self.wf(),
        ensures
            r@ == used_simd_list(self@.used_simd, 32),
    {
        let mut r: Vec<NEON> = Vec::new();
        let mut i: usize = 0;
        while i < 32
            invariant
                i <= 32,
                self@.used_simd.len() == 32,
                r@ == used_simd_list(self@.used_simd, i as int),
            decreases 32 - i,
        {
            if self.used_simd[i] {
                let g = NEON::from_index(i);
                assert(g == choose|x: NEON| x.idx() == i as int) by {
                    let c = choose|x: NEON| x.idx() == i as int;
                    crate::regs::lemma_simd_idx_injective(g, c);
                }
                r.push(g);
            }
            i = i + 1;
        }
        r
    }

    /// Records `code` at every byte offset in `begin..end`, then adds an
    /// address-map row for the code from `begin` to the current offset.
    pub fn mark_address_range_with_trap_code(&mut self, code: TrapCode, begin: usize, end: usize)
        requires
            old(self).wf(),
            begin <= end <= old(self)@.offset(),
        ensures
            final(self).wf(),
            final(self)@ == (MachineView {
                traps: mark_range(old(self)@.traps, begin as int, end as int, code),
                addr_map: old(self)@.addr_map.push(
                    InstructionAddressMap {
                        srcloc: old(self)@.src_loc,
                        code_offset: begin,
                        code_len: (old(self)@.offset() - begin) as usize,
                    },
                ),
                ..old(self)@
            }),
    {
        while self.trap_table.len() < end
            invariant
                end <= 4 * self.code@.len(),
                self.code@ == old(self)@.code,
                self.wf(),
                self@ == old(self)@,
            decreases end - self.trap_table@.len(),
        {
            self.trap_table.push(None);
            assert(traps_of(self.trap_table@) =~= old(self)@.traps);
        }
        let ghost t0 = self@.traps;
        let mut i = begin;
        while i < end
            invariant
                begin <= i <= end <= self.trap_table@.len() <= 4 * self.code@.len() + 1,
                self.code@ == old(self)@.code,
                self@.used_gprs.len() == 32,
                self@.used_simd.len() == 32,
                self@ == (MachineView { traps: self@.traps, ..old(self)@ }),
                self@.traps == mark_range(t0, begin as int, i as int, code),
            decreases end - i,
        {
            let ghost prev = self.trap_table@;
            self.trap_table.set(i, Some(code));
            i = i + 1;
            proof {
                let nt = traps_of(self.trap_table@);
                let ot = traps_of(prev);
                let mr = mark_range(t0, begin as int, i as int, code);
                assert(ot == mark_range(t0, begin as int, i - 1, code));
                let pm = mark_range(t0, begin as int, i - 1, code);
                assert forall|k: int| nt.contains_key(k) <==> mr.contains_key(k) by {
                    assert(ot.contains_key(k) <==> pm.contains_key(k));
                    assert(ot.contains_key(k) <==> (0 <= k < prev.len() && prev[k] is Some));
                    if k != i - 1 && 0 <= k < prev.len() {
                        assert(self.trap_table@[k] == prev[k]);
                    }
                }
                assert forall|k: int| nt.contains_key(k) implies nt[k] == mr[k] by {
                    if k != i - 1 {
                        assert(self.trap_table@[k] == prev[k]);
                        assert(ot.contains_key(k) <==> pm.contains_key(k));
                        assert(ot.contains_key(k));
                        assert(ot[k] == pm[k]);
                    }
                }
                assert(nt =~= mr);
            }
        }
        assert(mark_range(t0, begin as int, end as int, code) =~= mark_range(
            old(self)@.traps,
            begin as int,
            end as int,
            code,
        ));
        self.mark_instruction_address_end(begin);
    }

    /// Records `code` at the current offset and adds an empty address-map row
    /// there.
    pub fn mark_address_with_trap_code(&mut self, code: TrapCode)
        requires
            old(self).wf(),
        ensures
            final(self).wf(),
            final(self)@ == (MachineView {
                traps: old(self)@.traps.insert(old(self)@.offset(), code),
                addr_map: old(self)@.addr_map.push(
                    InstructionAddressMap {
                        srcloc: old(self)@.src_loc,
                        code_offset: old(self)@.offset() as usize,
                        code_len: 0,
                    },
                ),
                ..old(self)@
            }),
    {
        let offset = self.mark_instruction_with_trap_code(code);
        self.mark_instruction_address_end(offset);
    }

    /// Records `code` at the current offset, which it returns.
    pub fn mark_instruction_with_trap_code(&mut self, code: TrapCode) -> (offset: usize)
        requires
            old(self).wf(),
        ensures
            final(self).wf(),
            offset == old(self)@.offset(),
            final(self)@ == (MachineView {
                traps: old(self)@.traps.insert(old(self)@.offset(), code),
                ..old(self)@
            }),
    {
        let offset = 4 * self.code.len();
        self.set_trap(offset, code);
        offset
    }

    fn set_trap(&mut self, offset: usize, code: TrapCode)
        requires
            old(self).wf(),
            offset <= old(self)@.offset(),
        ensures
            final(self).wf(),
            final(self)@ == (MachineView {
                traps: old(self)@.traps.insert(offset as int, code),
                ..old(self)@
            }),
    {
        while self.trap_table.len() <= offset
            invariant
                offset <= 4 * self.code@.len(),
                self.code@ == old(self)@.code,
                self.wf(),
                self@ == old(self)@,
            decreases offset + 1 - self.trap_table@.len(),
        {
            self.trap_table.push(None);
            assert(traps_of(self.trap_table@) =~= old(self)@.traps);
        }
        self.trap_table.set(offset, Some(code));
        assert(traps_of(self.trap_table@) =~= old(self)@.traps.insert(offset as int, code));
        assert(self@ =~= (MachineView {
            traps: old(self)@.traps.insert(offset as int, code),
            ..old(self)@
        }));
    }

    /// Adds an address-map row for the code from `begin` to the current offset.
    pub fn mark_instruction_address_end(&mut self, begin: usize)
        requires
            old(self).wf(),
            begin <= old(self)@.offset(),
        ensures
            final(self).wf(),
            final(self)@ == (MachineView {
                addr_map: old(self)@.addr_map.push(
                    InstructionAddressMap {
                        srcloc: old(self)@.src_loc,
                        code_offset: begin,
                        code_len: (old(self)@.offset() - begin) as usize,
                    },
                ),
                ..old(self)@
            }),
    {
        let len = 4 * self.code.len() - begin;
        self.instructions_address_map.push(
            InstructionAddressMap { srcloc: self.src_loc, code_offset: begin, code_len: len },
        );
        assert(self@ =~= (MachineView {
            addr_map: old(self)@.addr_map.push(
                InstructionAddressMap {
                    srcloc: old(self)@.src_loc,
                    code_offset: begin,
                    code_len: (old(self)@.offset() - begin) as usize,
                },
            ),
            ..old(self)@
        }));
    }

    /// Records a stack overflow at offset 0, so that a trap taken by the first
    /// instruction is attributed.
    pub fn insert_stackoverflow(&mut self)
        requires
            old(self).wf(),
        ensures
            final(self).wf(),
            final(self)@ == (MachineView {
                traps: old(self)@.traps.insert(0, TrapCode::StackOverflow),
                addr_map: old(self)@.addr_map.push(
                    InstructionAddressMap {
                        srcloc: old(self)@.src_loc,
                        code_offset: 0,
                        code_len: old(self)@.offset() as usize,
                    },
                ),
                ..old(self)@
            }),
    {
        self.set_trap(0, TrapCode::StackOverflow);
        self.mark_instruction_address_end(0);
    }

    /// The trap table, one row per recorded offset, by increasing offset.
    pub fn collect_trap_information(&self) -> (r: Vec<TrapInformation>)
        requires
            self.wf(),
        ensures
            forall|j: int|
                0 <= j < r@.len() ==> #[trigger] self@.traps.contains_key(r@[j].code_offset as int)
                    && self@.traps[r@[j].code_offset as int] == r@[j].trap_code,
            forall|j: int, k: int| 0 <= j < k < r@.len() ==> r@[j].code_offset < r@[k].code_offset,
            forall|i: int|
                #[trigger] self@.traps.contains_key(i) ==> exists|j: int|
                    0 <= j < r@.len() && r@[j].code_offset == i,
    {
        let mut r: Vec<TrapInformation> = Vec::new();
        let mut i: usize = 0;
        let ghost t = self.trap_table@;
        while i < self.trap_table.len()
            invariant
                self.wf(),
                t == self.trap_table@,
                i <= t.len() <= 4 * MAX_CODE + 1,
                forall|j: int|
                    0 <= j < r@.len() ==> (#[trigger] r@[j].code_offset as int) < i && t[r@[j].code_offset as int]
                        == Some(r@[j].trap_code),
                forall|j: int, k: int|
                    0 <= j < k < r@.len() ==> r@[j].code_offset < r@[k].code_offset,
                forall|x: int|
                    0 <= x < i && (#[trigger] t[x]) is Some ==> exists|j: int|
                        0 <= j < r@.len() && r@[j].code_offset == x,
            decreases t.len() - i,
        {
            let ghost r0 = r@;
            if let Some(c) = self.trap_table[i] {
                r.push(TrapInformation { code_offset: i as u32, trap_code: c });
                assert(r@[r@.len() - 1].code_offset == i);
            }
            proof {
                assert forall|x: int| 0 <= x <= i && (#[trigger] t[x]) is Some implies exists|j: int|
                    0 <= j < r@.len() && r@[j].code_offset == x by {
                    if x < i {
                        let j = choose|j: int| 0 <= j < r0.len() && r0[j].code_offset == x;
                        assert(r@[j] == r0[j]);
                    } else {
                        assert(r@[r@.len() - 1].code_offset == x);
                    }
                }
            }
            i = i + 1;
        }
        assert forall|i: int| #[trigger] self@.traps.contains_key(i) implies exists|j: int|
            0 <= j < r@.len() && r@[j].code_offset == i by {
            assert(t[i] is Some);
        }
        r
    }

    /// The address map, in the order its rows were added.
    pub fn instructions_address_map(&self) -> (r: Vec<InstructionAddressMap>)
        ensures
            r@ == self@.addr_map,
    {
        let mut r: Vec<InstructionAddressMap> = Vec::new();
        let mut i: usize = 0;
        while i < self.instructions_address_map.len()
            invariant
                i <= self.instructions_address_map@.len(),
                r@ == self.instructions_address_map@.subrange(0, i as int),
            decreases self.instructions_address_map@.len() - i,
        {
            r.push(self.instructions_address_map[i]);
            i = i + 1;
            assert(r@ =~= self.instructions_address_map@.subrange(0, i as int));
        }
        assert(r@ =~= self.instructions_address_map@);
        r
    }
}

} // verus!
