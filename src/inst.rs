//! The instructions the code generator emits, four bytes each.

use crate::regs::{Condition, GPR, Label, Location, Size};
use vstd::prelude::*;

verus! {

/// Two-operand operations, written `op sz, a, b` in operand order of the
/// emitter: for `Mov`, `a` is the source and `b` the destination; for `Cmp`,
/// `Tst` and `Fcmp` both are read.
#[derive(Clone, Copy, Debug, PartialEq, Eq, Structural)]
pub enum Op2 {
    Mov,
    Cmp,
    Tst,
    Clz,
    Rbit,
    Sxtb,
    Sxth,
    Sxtw,
    Fcmp,
    Fneg,
    Fsqrt,
    Fcvt,
}

/// Three-operand operations `dst = a op b`, written `op sz, a, b, dst`.
#[derive(Clone, Copy, Debug, PartialEq, Eq, Structural)]
pub enum Op3 {
    Add,
    Sub,
    Adds,
    Subs,
    Mul,
    Udiv,
    Sdiv,
    And,
    Orr,
    Eor,
    Lsl,
    Lsr,
    Asr,
    Ror,
    Fadd,
    Fsub,
    Fmul,
    Fdiv,
    Fmin,
    Fmax,
}

/// Loads with a scaled, unscaled or register-indexed address.
#[derive(Clone, Copy, Debug, PartialEq, Eq, Structural)]
pub enum LoadKind {
    Ldr,
    Ldrsw,
    Ldrh,
    Ldrsh,
    Ldrb,
    Ldrsb,
}

/// Stores of a full register, a half word or a byte.
#[derive(Clone, Copy, Debug, PartialEq, Eq, Structural)]
pub enum StoreKind {
    Str,
    Strh,
    Strb,
}

/// One AArch64 instruction, four bytes of code.
#[derive(Clone, Copy, Debug, PartialEq, Eq, Structural)]
pub enum Inst {
    Op2(Op2, Size, Location, Location),
    Op3(Op3, Size, Location, Location, Location),
    /// `dst = c - a * b`, written `msub sz, a, b, c, dst`.
    Msub(Size, Location, Location, Location, Location),
    /// `dst = a + (b << shift)`.
    AddLsl(Size, Location, Location, u32, Location),
    /// `movz reg, #imm16, lsl #shift`.
    Movz(GPR, u32, u32),
    /// `movk reg, #imm16, lsl #shift`.
    Movk(GPR, u32, u32),
    /// `movn dst, #imm16`.
    Movn(Size, Location, u32),
    Load(LoadKind, Size, Location, Location),
    Ldur(Size, Location, GPR, i32),
    Store(StoreKind, Size, Location, Location),
    Stur(Size, Location, GPR, i32),
    /// Store pair with pre-decrement of the base.
    Stpdb(Size, Location, Location, GPR, u32),
    /// Load pair with post-increment of the base.
    Ldpia(Size, Location, Location, GPR, u32),
    /// Store with post-increment of the base register.
    Stria(Size, Location, Location, u32),
    /// Integer to floating-point conversion, signed or not: source size and
    /// register, destination size and register.
    IntToFloat(bool, Size, Location, Size, Location),
    Cset(Size, Location, Condition),
    Bcond(Condition, Label),
    B(Label),
    Cbz(Size, Location, Label),
    Cbnz(Size, Location, Label),
    BReg(GPR),
    CallReg(GPR),
    CallLabel(Label),
    LoadLabel(GPR, Label),
    Ret,
    Udf,
    Brk,
    Dmb,
}

/// The instructions that put the 64-bit constant `v` into `r`: `movz` of the
/// low half word, then `movk` of each other half word that is not zero.
pub open spec fn mov_imm_seq(r: GPR, v: u64) -> Seq<Inst> {
    seq![Inst::Movz(r, (v & 0xffff) as u32, 0)] + (if (v >> 16) & 0xffff != 0 {
        seq![Inst::Movk(r, ((v >> 16) & 0xffff) as u32, 16)]
    } else {
        seq![]
    }) + (if (v >> 32) & 0xffff != 0 {
        seq![Inst::Movk(r, ((v >> 32) & 0xffff) as u32, 32)]
    } else {
        seq![]
    }) + (if (v >> 48) & 0xffff != 0 {
        seq![Inst::Movk(r, ((v >> 48) & 0xffff) as u32, 48)]
    } else {
        seq![]
    })
}

pub proof fn lemma_mov_imm_len(r: GPR, v: u64)
    ensures
        1 <= mov_imm_seq(r, v).len() <= 4,
        mov_imm_seq(r, v)[0] == Inst::Movz(r, (v & 0xffff) as u32, 0),
{
}

} // verus!
