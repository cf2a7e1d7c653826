//! Immediate classification: which constants fit which AArch64 encoding slot.

use vstd::prelude::*;

verus! {

/// The encoding slot an immediate operand must fit.
#[derive(Clone, Copy, Debug, PartialEq, Eq, Structural)]
pub enum ImmType {
    NoImm,
    NoneXzr,
    Bits8,
    Bits12,
    Shift32,
    Shift32No0,
    Shift64,
    Shift64No0,
    Logical32,
    Logical64,
    UnscaledOffset,
    OffsetByte,
    OffsetHWord,
    OffsetWord,
    OffsetDWord,
}

/// What `encode_logical_immediate_32bit` returns for a value.
pub uninterp spec fn logical_imm32_encoding(v: u32) -> Option<u16>;

/// What `encode_logical_immediate_64bit` returns for a value.
pub uninterp spec fn logical_imm64_encoding(v: u64) -> Option<u16>;

/// Relies on dynasmrt::aarch64::encode_logical_immediate_32bit: the bitmask
/// immediate encoding of a 32-bit value, `None` where it has none; all-zero
/// and all-one values have none.
#[verifier::external_body]
fn encode_logical32(v: u32) -> (r: Option<u16>)
    ensures
        r == logical_imm32_encoding(v),
        (v == 0 || v == 0xffff_ffff) ==> r is None,
{
    dynasmrt::aarch64::encode_logical_immediate_32bit(v)
}

/// Relies on dynasmrt::aarch64::encode_logical_immediate_64bit: the bitmask
/// immediate encoding of a 64-bit value, `None` where it has none; all-zero
/// and all-one values have none.
#[verifier::external_body]
fn encode_logical64(v: u64) -> (r: Option<u16>)
    ensures
        r == logical_imm64_encoding(v),
        (v == 0 || v == 0xffff_ffff_ffff_ffff) ==> r is None,
{
    dynasmrt::aarch64::encode_logical_immediate_64bit(v)
}

/// Whether `imm` fits the encoding slot `ty`.
pub open spec fn fits(imm: i64, ty: ImmType) -> bool {
    match ty {
        ImmType::NoImm => false,
        ImmType::NoneXzr => false,
        ImmType::Bits8 => 0 <= imm < 256,
        ImmType::Bits12 => 0 <= imm < 4096,
        ImmType::Shift32 => 0 <= imm < 32,
        ImmType::Shift32No0 => 0 < imm < 32,
        ImmType::Shift64 => 0 <= imm < 64,
        ImmType::Shift64No0 => 0 < imm < 64,
        ImmType::Logical32 => logical_imm32_encoding(imm as u32) is Some,
        ImmType::Logical64 => logical_imm64_encoding(imm as u64) is Some,
        ImmType::UnscaledOffset => -256 < imm < 256,
        ImmType::OffsetByte => scaled_offset(imm as int, 1),
        ImmType::OffsetHWord => scaled_offset(imm as int, 2),
        ImmType::OffsetWord => scaled_offset(imm as int, 4),
        ImmType::OffsetDWord => scaled_offset(imm as int, 8),
    }
}

/// An unsigned offset below `4096 * scale` and a multiple of `scale`.
pub open spec fn scaled_offset(imm: int, scale: int) -> bool {
    0 <= imm < 4096 * scale && imm % scale == 0
}

/// Classifies an immediate against an encoding slot. It reads nothing but its
/// two arguments.
pub fn compatible_imm(imm: i64, ty: ImmType) -> (r: bool)
    ensures
        r == fits(imm, ty),
{
    match ty {
        ImmType::NoImm => false,
        ImmType::NoneXzr => false,
        ImmType::Bits8 => imm >= 0 && imm < 256,
        ImmType::Bits12 => imm >= 0 && imm < 0x1000,
        ImmType::Shift32 => imm >= 0 && imm < 32,
        ImmType::Shift32No0 => imm > 0 && imm < 32,
        ImmType::Shift64 => imm >= 0 && imm < 64,
        ImmType::Shift64No0 => imm > 0 && imm < 64,
        ImmType::Logical32 => encode_logical32(imm as u32).is_some(),
        ImmType::Logical64 => encode_logical64(imm as u64).is_some(),
        ImmType::UnscaledOffset => imm > -256 && imm < 256,
        ImmType::OffsetByte => imm >= 0 && imm < 0x1000,
        ImmType::OffsetHWord => imm >= 0 && imm < 0x2000 && imm % 2 == 0,
        ImmType::OffsetWord => imm >= 0 && imm < 0x4000 && imm % 4 == 0,
        ImmType::OffsetDWord => imm >= 0 && imm < 0x8000 && imm % 8 == 0,
    }
}

/// Byte width of an access of size `sz`.
pub open spec fn size_bytes(sz: crate::regs::Size) -> int {
    match sz {
        crate::regs::Size::S8 => 1,
        crate::regs::Size::S16 => 2,
        crate::regs::Size::S32 => 4,
        crate::regs::Size::S64 => 8,
    }
}

/// Whether `offset` can be the scaled unsigned offset of an access of size
/// `size`.
pub fn offset_is_ok(size: crate::regs::Size, offset: i32) -> (r: bool)
    ensures
        r == scaled_offset(offset as int, size_bytes(size)),
{
    if offset < 0 {
        return false;
    }
    let scale: i32 = match size {
        crate::regs::Size::S8 => 1,
        crate::regs::Size::S16 => 2,
        crate::regs::Size::S32 => 4,
        crate::regs::Size::S64 => 8,
    };
    offset < 0x1000 * scale && offset % scale == 0
}

} // verus!
