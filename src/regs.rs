//! Registers, operand sizes, abstract operand locations, labels and trap codes.

use vstd::prelude::*;

verus! {

/// Operand width of an instruction.
#[derive(Clone, Copy, Debug, PartialEq, Eq, Structural)]
pub enum Size {
    S8,
    S16,
    S32,
    S64,
}

/// General-purpose registers; `XzrSp` is the zero register or the stack
/// pointer, depending on the instruction that names it.
#[derive(Clone, Copy, Debug, PartialEq, Eq, Structural)]
pub enum GPR {
    X0,
    X1,
    X2,
    X3,
    X4,
    X5,
    X6,
    X7,
    X8,
    X9,
    X10,
    X11,
    X12,
    X13,
    X14,
    X15,
    X16,
    X17,
    X18,
    X19,
    X20,
    X21,
    X22,
    X23,
    X24,
    X25,
    X26,
    X27,
    X28,
    X29,
    X30,
    XzrSp,
}

/// NEON / floating-point registers.
#[derive(Clone, Copy, Debug, PartialEq, Eq, Structural)]
pub enum NEON {
    V0,
    V1,
    V2,
    V3,
    V4,
    V5,
    V6,
    V7,
    V8,
    V9,
    V10,
    V11,
    V12,
    V13,
    V14,
    V15,
    V16,
    V17,
    V18,
    V19,
    V20,
    V21,
    V22,
    V23,
    V24,
    V25,
    V26,
    V27,
    V28,
    V29,
    V30,
    V31,
}

impl GPR {
    pub open spec fn idx(self) -> int {
        match self {
            GPR::X0 => 0,
            GPR::X1 => 1,
            GPR::X2 => 2,
            GPR::X3 => 3,
            GPR::X4 => 4,
            GPR::X5 => 5,
            GPR::X6 => 6,
            GPR::X7 => 7,
            GPR::X8 => 8,
            GPR::X9 => 9,
            GPR::X10 => 10,
            GPR::X11 => 11,
            GPR::X12 => 12,
            GPR::X13 => 13,
            GPR::X14 => 14,
            GPR::X15 => 15,
            GPR::X16 => 16,
            GPR::X17 => 17,
            GPR::X18 => 18,
            GPR::X19 => 19,
            GPR::X20 => 20,
            GPR::X21 => 21,
            GPR::X22 => 22,
            GPR::X23 => 23,
            GPR::X24 => 24,
            GPR::X25 => 25,
            GPR::X26 => 26,
            GPR::X27 => 27,
            GPR::X28 => 28,
            GPR::X29 => 29,
            GPR::X30 => 30,
            GPR::XzrSp => 31,
        }
    }

    /// Position of the register in the register file, `0..32`.
    pub fn index(self) -> (r: usize)
        ensures
            r as int == self.idx(),
            r < 32,
    {
        match self {
            GPR::X0 => 0,
            GPR::X1 => 1,
            GPR::X2 => 2,
            GPR::X3 => 3,
            GPR::X4 => 4,
            GPR::X5 => 5,
            GPR::X6 => 6,
            GPR::X7 => 7,
            GPR::X8 => 8,
            GPR::X9 => 9,
            GPR::X10 => 10,
            GPR::X11 => 11,
            GPR::X12 => 12,
            GPR::X13 => 13,
            GPR::X14 => 14,
            GPR::X15 => 15,
            GPR::X16 => 16,
            GPR::X17 => 17,
            GPR::X18 => 18,
            GPR::X19 => 19,
            GPR::X20 => 20,
            GPR::X21 => 21,
            GPR::X22 => 22,
            GPR::X23 => 23,
            GPR::X24 => 24,
            GPR::X25 => 25,
            GPR::X26 => 26,
            GPR::X27 => 27,
            GPR::X28 => 28,
            GPR::X29 => 29,
            GPR::X30 => 30,
            GPR::XzrSp => 31,
        }
    }
}

impl NEON {
    pub open spec fn idx(self) -> int {
        match self {
            NEON::V0 => 0,
            NEON::V1 => 1,
            NEON::V2 => 2,
            NEON::V3 => 3,
            NEON::V4 => 4,
            NEON::V5 => 5,
            NEON::V6 => 6,
            NEON::V7 => 7,
            NEON::V8 => 8,
            NEON::V9 => 9,
            NEON::V10 => 10,
            NEON::V11 => 11,
            NEON::V12 => 12,
            NEON::V13 => 13,
            NEON::V14 => 14,
            NEON::V15 => 15,
            NEON::V16 => 16,
            NEON::V17 => 17,
            NEON::V18 => 18,
            NEON::V19 => 19,
            NEON::V20 => 20,
            NEON::V21 => 21,
            NEON::V22 => 22,
            NEON::V23 => 23,
            NEON::V24 => 24,
            NEON::V25 => 25,
            NEON::V26 => 26,
            NEON::V27 => 27,
            NEON::V28 => 28,
            NEON::V29 => 29,
            NEON::V30 => 30,
            NEON::V31 => 31,
        }
    }

    /// Position of the register in the NEON register file, `0..32`.
    pub fn index(self) -> (r: usize)
        ensures
            r as int == self.idx(),
            r < 32,
    {
        match self {
            NEON::V0 => 0,
            NEON::V1 => 1,
            NEON::V2 => 2,
            NEON::V3 => 3,
            NEON::V4 => 4,
            NEON::V5 => 5,
            NEON::V6 => 6,
            NEON::V7 => 7,
            NEON::V8 => 8,
            NEON::V9 => 9,
            NEON::V10 => 10,
            NEON::V11 => 11,
            NEON::V12 => 12,
            NEON::V13 => 13,
            NEON::V14 => 14,
            NEON::V15 => 15,
            NEON::V16 => 16,
            NEON::V17 => 17,
            NEON::V18 => 18,
            NEON::V19 => 19,
            NEON::V20 => 20,
            NEON::V21 => 21,
            NEON::V22 => 22,
            NEON::V23 => 23,
            NEON::V24 => 24,
            NEON::V25 => 25,
            NEON::V26 => 26,
            NEON::V27 => 27,
            NEON::V28 => 28,
            NEON::V29 => 29,
            NEON::V30 => 30,
            NEON::V31 => 31,
        }
    }
}

impl GPR {
    /// The register at position `i` of the register file.
    pub fn from_index(i: usize) -> (r: GPR)
        requires
            i < 32,
        ensures
            r.idx() == i,
    {
        match i {
            0 => GPR::X0,
            1 => GPR::X1,
            2 => GPR::X2,
            3 => GPR::X3,
            4 => GPR::X4,
            5 => GPR::X5,
            6 => GPR::X6,
            7 => GPR::X7,
            8 => GPR::X8,
            9 => GPR::X9,
            10 => GPR::X10,
            11 => GPR::X11,
            12 => GPR::X12,
            13 => GPR::X13,
            14 => GPR::X14,
            15 => GPR::X15,
            16 => GPR::X16,
            17 => GPR::X17,
            18 => GPR::X18,
            19 => GPR::X19,
            20 => GPR::X20,
            21 => GPR::X21,
            22 => GPR::X22,
            23 => GPR::X23,
            24 => GPR::X24,
            25 => GPR::X25,
            26 => GPR::X26,
            27 => GPR::X27,
            28 => GPR::X28,
            29 => GPR::X29,
            30 => GPR::X30,
            _ => GPR::XzrSp,
        }
    }
}

impl NEON {
    /// The register at position `i` of the NEON register file.
    pub fn from_index(i: usize) -> (r: NEON)
        requires
            i < 32,
        ensures
            r.idx() == i,
    {
        match i {
            0 => NEON::V0,
            1 => NEON::V1,
            2 => NEON::V2,
            3 => NEON::V3,
            4 => NEON::V4,
            5 => NEON::V5,
            6 => NEON::V6,
            7 => NEON::V7,
            8 => NEON::V8,
            9 => NEON::V9,
            10 => NEON::V10,
            11 => NEON::V11,
            12 => NEON::V12,
            13 => NEON::V13,
            14 => NEON::V14,
            15 => NEON::V15,
            16 => NEON::V16,
            17 => NEON::V17,
            18 => NEON::V18,
            19 => NEON::V19,
            20 => NEON::V20,
            21 => NEON::V21,
            22 => NEON::V22,
            23 => NEON::V23,
            24 => NEON::V24,
            25 => NEON::V25,
            26 => NEON::V26,
            27 => NEON::V27,
            28 => NEON::V28,
            29 => NEON::V29,
            30 => NEON::V30,
            _ => NEON::V31,
        }
    }
}

/// Register positions lie in `0..32`.
pub broadcast proof fn lemma_gpr_idx_range(r: GPR)
    ensures
        0 <= #[trigger] r.idx() < 32,
{
}

pub broadcast proof fn lemma_simd_idx_range(r: NEON)
    ensures
        0 <= #[trigger] r.idx() < 32,
{
}

/// Position `i` names exactly one register.
pub proof fn lemma_gpr_idx_injective(a: GPR, b: GPR)
    ensures
        a.idx() == b.idx() ==> a == b,
        0 <= a.idx() < 32,
{
}

pub proof fn lemma_simd_idx_injective(a: NEON, b: NEON)
    ensures
        a.idx() == b.idx() ==> a == b,
        0 <= a.idx() < 32,
{
}

/// Scale applied to the index register of a two-register address.
#[derive(Clone, Copy, Debug, PartialEq, Eq, Structural)]
pub enum Multiplier {
    Zero,
    One,
    Two,
    Four,
    Eight,
}

/// An abstract operand: a register, an immediate, or memory relative to a
/// general-purpose base register.
#[derive(Clone, Copy, Debug, PartialEq, Eq, Structural)]
pub enum Location {
    GPR(GPR),
    SIMD(NEON),
    Imm8(u8),
    Imm32(u32),
    Imm64(u64),
    Memory(GPR, i32),
    Memory2(GPR, GPR, Multiplier, i32),
}

impl Location {
    pub open spec fn is_reg(self) -> bool {
        self is GPR || self is SIMD
    }

    pub open spec fn is_imm(self) -> bool {
        self is Imm8 || self is Imm32 || self is Imm64
    }

    /// The value of an immediate operand, as the classifier sees it.
    pub open spec fn imm_value(self) -> i64 {
        match self {
            Location::Imm8(v) => v as i64,
            Location::Imm32(v) => v as i64,
            Location::Imm64(v) => v as i64,
            _ => 0,
        }
    }

    /// The same value, as the register that receives it holds it.
    pub open spec fn imm_bits(self) -> u64 {
        match self {
            Location::Imm8(v) => v as u64,
            Location::Imm32(v) => v as u64,
            Location::Imm64(v) => v,
            _ => 0,
        }
    }
}

/// Condition codes of conditional branches and `cset`.
#[derive(Clone, Copy, Debug, PartialEq, Eq, Structural)]
pub enum Condition {
    Eq,
    Ne,
    Cs,
    Cc,
    Mi,
    Pl,
    Vs,
    Vc,
    Hi,
    Ls,
    Ge,
    Lt,
    Gt,
    Le,
    Al,
}

/// A branch target, created by the machine and placed at most once.
#[derive(Clone, Copy, Debug, PartialEq, Eq, Structural)]
pub struct Label {
    pub id: usize,
}

/// Classes of guest-observable faults recorded against code offsets.
#[derive(Clone, Copy, Debug, PartialEq, Eq, Structural)]
pub enum TrapCode {
    StackOverflow,
    HeapAccessOutOfBounds,
    IntegerOverflow,
}

/// The `offset` / `align` pair that accompanies a Wasm memory instruction.
#[derive(Clone, Copy, Debug, PartialEq, Eq, Structural)]
pub struct MemoryImmediate {
    pub offset: u32,
    pub align: u32,
}

} // verus!
