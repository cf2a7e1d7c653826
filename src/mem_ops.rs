//! The memory operators, each a guarded access with its load or store.

use crate::imm::ImmType;
use crate::inst::{LoadKind, StoreKind};
use crate::kernel::{relaxed_load_code, relaxed_load_ok, relaxed_store_code, relaxed_store_ok, AccessForm};
use crate::machine::MachineARM64;
use crate::memory::{guarded, guarded_ok, HeapAccess};
use crate::regs::{Label, Location, MemoryImmediate, Size};
use vstd::prelude::*;

verus! {

impl MachineARM64 {
    /// Loads `dst` with a 64-bit load from the memory operand `src`.
    pub fn emit_relaxed_ldr64(&mut self, sz: Size, dst: Location, src: Location)
        requires
            old(self).wf(),
            old(self)@.room(24),
            relaxed_load_ok(old(self)@.used_gprs, (AccessForm { opsz: Size::S64, scaled: ImmType::OffsetDWord, unscaled: true }), sz, dst, src),
        ensures
            final(self).wf(),
            final(self)@ == old(self)@.with_code(
                relaxed_load_code(old(self)@.used_gprs, LoadKind::Ldr, (AccessForm { opsz: Size::S64, scaled: ImmType::OffsetDWord, unscaled: true }), sz, dst, src),
            ),
    {
        self.emit_relaxed_load(LoadKind::Ldr, AccessForm { opsz: Size::S64, scaled: ImmType::OffsetDWord, unscaled: true }, sz, dst, src);
    }

    /// Loads `dst` with a 32-bit load from the memory operand `src`.
    pub fn emit_relaxed_ldr32(&mut self, sz: Size, dst: Location, src: Location)
        requires
            old(self).wf(),
            old(self)@.room(24),
            relaxed_load_ok(old(self)@.used_gprs, (AccessForm { opsz: Size::S32, scaled: ImmType::OffsetWord, unscaled: true }), sz, dst, src),
        ensures
            final(self).wf(),
            final(self)@ == old(self)@.with_code(
                relaxed_load_code(old(self)@.used_gprs, LoadKind::Ldr, (AccessForm { opsz: Size::S32, scaled: ImmType::OffsetWord, unscaled: true }), sz, dst, src),
            ),
    {
        self.emit_relaxed_load(LoadKind::Ldr, AccessForm { opsz: Size::S32, scaled: ImmType::OffsetWord, unscaled: true }, sz, dst, src);
    }

    /// Loads `dst` with a sign-extending 32-bit load from the memory operand `src`.
    pub fn emit_relaxed_ldr32s(&mut self, sz: Size, dst: Location, src: Location)
        requires
            old(self).wf(),
            old(self)@.room(24),
            relaxed_load_ok(old(self)@.used_gprs, (AccessForm { opsz: Size::S64, scaled: ImmType::OffsetWord, unscaled: false }), sz, dst, src),
        ensures
            final(self).wf(),
            final(self)@ == old(self)@.with_code(
                relaxed_load_code(old(self)@.used_gprs, LoadKind::Ldrsw, (AccessForm { opsz: Size::S64, scaled: ImmType::OffsetWord, unscaled: false }), sz, dst, src),
            ),
    {
        self.emit_relaxed_load(LoadKind::Ldrsw, AccessForm { opsz: Size::S64, scaled: ImmType::OffsetWord, unscaled: false }, sz, dst, src);
    }

    /// Loads `dst` with a zero-extending 16-bit load from the memory operand `src`.
    pub fn emit_relaxed_ldr16(&mut self, sz: Size, dst: Location, src: Location)
        requires
            old(self).wf(),
            old(self)@.room(24),
            relaxed_load_ok(old(self)@.used_gprs, (AccessForm { opsz: Size::S32, scaled: ImmType::OffsetHWord, unscaled: false }), sz, dst, src),
        ensures
            final(self).wf(),
            final(self)@ == old(self)@.with_code(
                relaxed_load_code(old(self)@.used_gprs, LoadKind::Ldrh, (AccessForm { opsz: Size::S32, scaled: ImmType::OffsetHWord, unscaled: false }), sz, dst, src),
            ),
    {
        self.emit_relaxed_load(LoadKind::Ldrh, AccessForm { opsz: Size::S32, scaled: ImmType::OffsetHWord, unscaled: false }, sz, dst, src);
    }

    /// Loads `dst` with a sign-extending 16-bit load from the memory operand `src`.
    pub fn emit_relaxed_ldr16s(&mut self, sz: Size, dst: Location, src: Location)
        requires
            old(self).wf(),
            old(self)@.room(24),
            relaxed_load_ok(old(self)@.used_gprs, (AccessForm { opsz: sz, scaled: ImmType::OffsetHWord, unscaled: false }), sz, dst, src),
        ensures
            final(self).wf(),
            final(self)@ == old(self)@.with_code(
                relaxed_load_code(old(self)@.used_gprs, LoadKind::Ldrsh, (AccessForm { opsz: sz, scaled: ImmType::OffsetHWord, unscaled: false }), sz, dst, src),
            ),
    {
        self.emit_relaxed_load(LoadKind::Ldrsh, AccessForm { opsz: sz, scaled: ImmType::OffsetHWord, unscaled: false }, sz, dst, src);
    }

    /// Loads `dst` with a zero-extending 8-bit load from the memory operand `src`.
    pub fn emit_relaxed_ldr8(&mut self, sz: Size, dst: Location, src: Location)
        requires
            old(self).wf(),
            old(self)@.room(24),
            relaxed_load_ok(old(self)@.used_gprs, (AccessForm { opsz: Size::S32, scaled: ImmType::OffsetByte, unscaled: false }), sz, dst, src),
        ensures
            final(self).wf(),
            final(self)@ == old(self)@.with_code(
                relaxed_load_code(old(self)@.used_gprs, LoadKind::Ldrb, (AccessForm { opsz: Size::S32, scaled: ImmType::OffsetByte, unscaled: false }), sz, dst, src),
            ),
    {
        self.emit_relaxed_load(LoadKind::Ldrb, AccessForm { opsz: Size::S32, scaled: ImmType::OffsetByte, unscaled: false }, sz, dst, src);
    }

    /// Loads `dst` with a sign-extending 8-bit load from the memory operand `src`.
    pub fn emit_relaxed_ldr8s(&mut self, sz: Size, dst: Location, src: Location)
        requires
            old(self).wf(),
            old(self)@.room(24),
            relaxed_load_ok(old(self)@.used_gprs, (AccessForm { opsz: sz, scaled: ImmType::OffsetByte, unscaled: false }), sz, dst, src),
        ensures
            final(self).wf(),
            final(self)@ == old(self)@.with_code(
                relaxed_load_code(old(self)@.used_gprs, LoadKind::Ldrsb, (AccessForm { opsz: sz, scaled: ImmType::OffsetByte, unscaled: false }), sz, dst, src),
            ),
    {
        self.emit_relaxed_load(LoadKind::Ldrsb, AccessForm { opsz: sz, scaled: ImmType::OffsetByte, unscaled: false }, sz, dst, src);
    }

    /// Stores `dst` with a 64-bit store to the memory operand `src`.
    pub fn emit_relaxed_str64(&mut self, dst: Location, src: Location)
        requires
            old(self).wf(),
            old(self)@.room(16),
            relaxed_store_ok(old(self)@.used_gprs, (AccessForm { opsz: Size::S64, scaled: ImmType::OffsetDWord, unscaled: true }), dst, src),
        ensures
            final(self).wf(),
            final(self)@ == old(self)@.with_code(relaxed_store_code(old(self)@.used_gprs, StoreKind::Str, (AccessForm { opsz: Size::S64, scaled: ImmType::OffsetDWord, unscaled: true }), dst, src)),
    {
        self.emit_relaxed_store(StoreKind::Str, AccessForm { opsz: Size::S64, scaled: ImmType::OffsetDWord, unscaled: true }, dst, src);
    }

    /// Stores `dst` with a 32-bit store to the memory operand `src`.
    pub fn emit_relaxed_str32(&mut self, dst: Location, src: Location)
        requires
            old(self).wf(),
            old(self)@.room(16),
            relaxed_store_ok(old(self)@.used_gprs, (AccessForm { opsz: Size::S32, scaled: ImmType::OffsetWord, unscaled: true }), dst, src),
        ensures
            final(self).wf(),
            final(self)@ == old(self)@.with_code(relaxed_store_code(old(self)@.used_gprs, StoreKind::Str, (AccessForm { opsz: Size::S32, scaled: ImmType::OffsetWord, unscaled: true }), dst, src)),
    {
        self.emit_relaxed_store(StoreKind::Str, AccessForm { opsz: Size::S32, scaled: ImmType::OffsetWord, unscaled: true }, dst, src);
    }

    /// Stores `dst` with a 16-bit store to the memory operand `src`.
    pub fn emit_relaxed_str16(&mut self, dst: Location, src: Location)
        requires
            old(self).wf(),
            old(self)@.room(16),
            relaxed_store_ok(old(self)@.used_gprs, (AccessForm { opsz: Size::S32, scaled: ImmType::OffsetHWord, unscaled: false }), dst, src),
        ensures
            final(self).wf(),
            final(self)@ == old(self)@.with_code(relaxed_store_code(old(self)@.used_gprs, StoreKind::Strh, (AccessForm { opsz: Size::S32, scaled: ImmType::OffsetHWord, unscaled: false }), dst, src)),
    {
        self.emit_relaxed_store(StoreKind::Strh, AccessForm { opsz: Size::S32, scaled: ImmType::OffsetHWord, unscaled: false }, dst, src);
    }

    /// Stores `dst` with an 8-bit store to the memory operand `src`.
    pub fn emit_relaxed_str8(&mut self, dst: Location, src: Location)
        requires
            old(self).wf(),
            old(self)@.room(16),
            relaxed_store_ok(old(self)@.used_gprs, (AccessForm { opsz: Size::S32, scaled: ImmType::OffsetByte, unscaled: false }), dst, src),
        ensures
            final(self).wf(),
            final(self)@ == old(self)@.with_code(relaxed_store_code(old(self)@.used_gprs, StoreKind::Strb, (AccessForm { opsz: Size::S32, scaled: ImmType::OffsetByte, unscaled: false }), dst, src)),
    {
        self.emit_relaxed_store(StoreKind::Strb, AccessForm { opsz: Size::S32, scaled: ImmType::OffsetByte, unscaled: false }, dst, src);
    }

    /// Wasm `i32.load`: a guarded 4-byte access (see `memory_op`) that loads `ret`.
    pub fn i32_load(
        &mut self,
        addr: Location,
        memarg: &MemoryImmediate,
        ret: Location,
        need_check: bool,
        imported_memories: bool,
        offset: i32,
        heap_access_oob: Label,
    )
        requires
            old(self).wf(),
            old(self)@.room(128),
            guarded_ok(old(self)@.used_gprs, addr, *memarg, false, 4, need_check, imported_memories, offset, (HeapAccess::Load(LoadKind::Ldr, AccessForm { opsz: Size::S32, scaled: ImmType::OffsetWord, unscaled: true }, Size::S32, ret))),
        ensures
            final(self).wf(),
            final(self)@ == guarded(old(self)@, addr, *memarg, false, 4, need_check, imported_memories, offset, heap_access_oob, (HeapAccess::Load(LoadKind::Ldr, AccessForm { opsz: Size::S32, scaled: ImmType::OffsetWord, unscaled: true }, Size::S32, ret))),
    {
        self.memory_op(addr, memarg, false, 4, need_check, imported_memories, offset, heap_access_oob, HeapAccess::Load(LoadKind::Ldr, AccessForm { opsz: Size::S32, scaled: ImmType::OffsetWord, unscaled: true }, Size::S32, ret));
    }

    /// Wasm `i32.load_8u`: a guarded 1-byte access (see `memory_op`) that loads `ret`.
    pub fn i32_load_8u(
        &mut self,
        addr: Location,
        memarg: &MemoryImmediate,
        ret: Location,
        need_check: bool,
        imported_memories: bool,
        offset: i32,
        heap_access_oob: Label,
    )
        requires
            old(self).wf(),
            old(self)@.room(128),
            guarded_ok(old(self)@.used_gprs, addr, *memarg, false, 1, need_check, imported_memories, offset, (HeapAccess::Load(LoadKind::Ldrb, AccessForm { opsz: Size::S32, scaled: ImmType::OffsetByte, unscaled: false }, Size::S32, ret))),
        ensures
            final(self).wf(),
            final(self)@ == guarded(old(self)@, addr, *memarg, false, 1, need_check, imported_memories, offset, heap_access_oob, (HeapAccess::Load(LoadKind::Ldrb, AccessForm { opsz: Size::S32, scaled: ImmType::OffsetByte, unscaled: false }, Size::S32, ret))),
    {
        self.memory_op(addr, memarg, false, 1, need_check, imported_memories, offset, heap_access_oob, HeapAccess::Load(LoadKind::Ldrb, AccessForm { opsz: Size::S32, scaled: ImmType::OffsetByte, unscaled: false }, Size::S32, ret));
    }

    /// Wasm `i32.load_8s`: a guarded 1-byte access (see `memory_op`) that loads `ret`.
    pub fn i32_load_8s(
        &mut self,
        addr: Location,
        memarg: &MemoryImmediate,
        ret: Location,
        need_check: bool,
        imported_memories: bool,
        offset: i32,
        heap_access_oob: Label,
    )
        requires
            old(self).wf(),
            old(self)@.room(128),
            guarded_ok(old(self)@.used_gprs, addr, *memarg, false, 1, need_check, imported_memories, offset, (HeapAccess::Load(LoadKind::Ldrsb, AccessForm { opsz: Size::S32, scaled: ImmType::OffsetByte, unscaled: false }, Size::S32, ret))),
        ensures
            final(self).wf(),
            final(self)@ == guarded(old(self)@, addr, *memarg, false, 1, need_check, imported_memories, offset, heap_access_oob, (HeapAccess::Load(LoadKind::Ldrsb, AccessForm { opsz: Size::S32, scaled: ImmType::OffsetByte, unscaled: false }, Size::S32, ret))),
    {
        self.memory_op(addr, memarg, false, 1, need_check, imported_memories, offset, heap_access_oob, HeapAccess::Load(LoadKind::Ldrsb, AccessForm { opsz: Size::S32, scaled: ImmType::OffsetByte, unscaled: false }, Size::S32, ret));
    }

    /// Wasm `i32.load_16u`: a guarded 2-byte access (see `memory_op`) that loads `ret`.
    pub fn i32_load_16u(
        &mut self,
        addr: Location,
        memarg: &MemoryImmediate,
        ret: Location,
        need_check: bool,
        imported_memories: bool,
        offset: i32,
        heap_access_oob: Label,
    )
        requires
            old(self).wf(),
            old(self)@.room(128),
            guarded_ok(old(self)@.used_gprs, addr, *memarg, false, 2, need_check, imported_memories, offset, (HeapAccess::Load(LoadKind::Ldrh, AccessForm { opsz: Size::S32, scaled: ImmType::OffsetHWord, unscaled: false }, Size::S32, ret))),
        ensures
            final(self).wf(),
            final(self)@ == guarded(old(self)@, addr, *memarg, false, 2, need_check, imported_memories, offset, heap_access_oob, (HeapAccess::Load(LoadKind::Ldrh, AccessForm { opsz: Size::S32, scaled: ImmType::OffsetHWord, unscaled: false }, Size::S32, ret))),
    {
        self.memory_op(addr, memarg, false, 2, need_check, imported_memories, offset, heap_access_oob, HeapAccess::Load(LoadKind::Ldrh, AccessForm { opsz: Size::S32, scaled: ImmType::OffsetHWord, unscaled: false }, Size::S32, ret));
    }

    /// Wasm `i32.load_16s`: a guarded 2-byte access (see `memory_op`) that loads `ret`.
    pub fn i32_load_16s(
        &mut self,
        addr: Location,
        memarg: &MemoryImmediate,
        ret: Location,
        need_check: bool,
        imported_memories: bool,
        offset: i32,
        heap_access_oob: Label,
    )
        requires
            old(self).wf(),
            old(self)@.room(128),
            guarded_ok(old(self)@.used_gprs, addr, *memarg, false, 2, need_check, imported_memories, offset, (HeapAccess::Load(LoadKind::Ldrsh, AccessForm { opsz: Size::S32, scaled: ImmType::OffsetHWord, unscaled: false }, Size::S32, ret))),
        ensures
            final(self).wf(),
            final(self)@ == guarded(old(self)@, addr, *memarg, false, 2, need_check, imported_memories, offset, heap_access_oob, (HeapAccess::Load(LoadKind::Ldrsh, AccessForm { opsz: Size::S32, scaled: ImmType::OffsetHWord, unscaled: false }, Size::S32, ret))),
    {
        self.memory_op(addr, memarg, false, 2, need_check, imported_memories, offset, heap_access_oob, HeapAccess::Load(LoadKind::Ldrsh, AccessForm { opsz: Size::S32, scaled: ImmType::OffsetHWord, unscaled: false }, Size::S32, ret));
    }

    /// Wasm `i64.load`: a guarded 8-byte access (see `memory_op`) that loads `ret`.
    pub fn i64_load(
        &mut self,
        addr: Location,
        memarg: &MemoryImmediate,
        ret: Location,
        need_check: bool,
        imported_memories: bool,
        offset: i32,
        heap_access_oob: Label,
    )
        requires
            old(self).wf(),
            old(self)@.room(128),
            guarded_ok(old(self)@.used_gprs, addr, *memarg, false, 8, need_check, imported_memories, offset, (HeapAccess::Load(LoadKind::Ldr, AccessForm { opsz: Size::S64, scaled: ImmType::OffsetDWord, unscaled: true }, Size::S64, ret))),
        ensures
            final(self).wf(),
            final(self)@ == guarded(old(self)@, addr, *memarg, false, 8, need_check, imported_memories, offset, heap_access_oob, (HeapAccess::Load(LoadKind::Ldr, AccessForm { opsz: Size::S64, scaled: ImmType::OffsetDWord, unscaled: true }, Size::S64, ret))),
    {
        self.memory_op(addr, memarg, false, 8, need_check, imported_memories, offset, heap_access_oob, HeapAccess::Load(LoadKind::Ldr, AccessForm { opsz: Size::S64, scaled: ImmType::OffsetDWord, unscaled: true }, Size::S64, ret));
    }

    /// Wasm `i64.load_8u`: a guarded 1-byte access (see `memory_op`) that loads `ret`.
    pub fn i64_load_8u(
        &mut self,
        addr: Location,
        memarg: &MemoryImmediate,
        ret: Location,
        need_check: bool,
        imported_memories: bool,
        offset: i32,
        heap_access_oob: Label,
    )
        requires
            old(self).wf(),
            old(self)@.room(128),
            guarded_ok(old(self)@.used_gprs, addr, *memarg, false, 1, need_check, imported_memories, offset, (HeapAccess::Load(LoadKind::Ldrb, AccessForm { opsz: Size::S32, scaled: ImmType::OffsetByte, unscaled: false }, Size::S64, ret))),
        ensures
            final(self).wf(),
            final(self)@ == guarded(old(self)@, addr, *memarg, false, 1, need_check, imported_memories, offset, heap_access_oob, (HeapAccess::Load(LoadKind::Ldrb, AccessForm { opsz: Size::S32, scaled: ImmType::OffsetByte, unscaled: false }, Size::S64, ret))),
    {
        self.memory_op(addr, memarg, false, 1, need_check, imported_memories, offset, heap_access_oob, HeapAccess::Load(LoadKind::Ldrb, AccessForm { opsz: Size::S32, scaled: ImmType::OffsetByte, unscaled: false }, Size::S64, ret));
    }

    /// Wasm `i64.load_8s`: a guarded 1-byte access (see `memory_op`) that loads `ret`.
    pub fn i64_load_8s(
        &mut self,
        addr: Location,
        memarg: &MemoryImmediate,
        ret: Location,
        need_check: bool,
        imported_memories: bool,
        offset: i32,
        heap_access_oob: Label,
    )
        requires
            old(self).wf(),
            old(self)@.room(128),
            guarded_ok(old(self)@.used_gprs, addr, *memarg, false, 1, need_check, imported_memories, offset, (HeapAccess::Load(LoadKind::Ldrsb, AccessForm { opsz: Size::S64, scaled: ImmType::OffsetByte, unscaled: false }, Size::S64, ret))),
        ensures
            final(self).wf(),
            final(self)@ == guarded(old(self)@, addr, *memarg, false, 1, need_check, imported_memories, offset, heap_access_oob, (HeapAccess::Load(LoadKind::Ldrsb, AccessForm { opsz: Size::S64, scaled: ImmType::OffsetByte, unscaled: false }, Size::S64, ret))),
    {
        self.memory_op(addr, memarg, false, 1, need_check, imported_memories, offset, heap_access_oob, HeapAccess::Load(LoadKind::Ldrsb, AccessForm { opsz: Size::S64, scaled: ImmType::OffsetByte, unscaled: false }, Size::S64, ret));
    }

    /// Wasm `i64.load_16u`: a guarded 2-byte access (see `memory_op`) that loads `ret`.
    pub fn i64_load_16u(
        &mut self,
        addr: Location,
        memarg: &MemoryImmediate,
        ret: Location,
        need_check: bool,
        imported_memories: bool,
        offset: i32,
        heap_access_oob: Label,
    )
        requires
            old(self).wf(),
            old(self)@.room(128),
            guarded_ok(old(self)@.used_gprs, addr, *memarg, false, 2, need_check, imported_memories, offset, (HeapAccess::Load(LoadKind::Ldrh, AccessForm { opsz: Size::S32, scaled: ImmType::OffsetHWord, unscaled: false }, Size::S64, ret))),
        ensures
            final(self).wf(),
            final(self)@ == guarded(old(self)@, addr, *memarg, false, 2, need_check, imported_memories, offset, heap_access_oob, (HeapAccess::Load(LoadKind::Ldrh, AccessForm { opsz: Size::S32, scaled: ImmType::OffsetHWord, unscaled: false }, Size::S64, ret))),
    {
        self.memory_op(addr, memarg, false, 2, need_check, imported_memories, offset, heap_access_oob, HeapAccess::Load(LoadKind::Ldrh, AccessForm { opsz: Size::S32, scaled: ImmType::OffsetHWord, unscaled: false }, Size::S64, ret));
    }

    /// Wasm `i64.load_16s`: a guarded 2-byte access (see `memory_op`) that loads `ret`.
    pub fn i64_load_16s(
        &mut self,
        addr: Location,
        memarg: &MemoryImmediate,
        ret: Location,
        need_check: bool,
        imported_memories: bool,
        offset: i32,
        heap_access_oob: Label,
    )
        requires
            old(self).wf(),
            old(self)@.room(128),
            guarded_ok(old(self)@.used_gprs, addr, *memarg, false, 2, need_check, imported_memories, offset, (HeapAccess::Load(LoadKind::Ldrsh, AccessForm { opsz: Size::S64, scaled: ImmType::OffsetHWord, unscaled: false }, Size::S64, ret))),
        ensures
            final(self).wf(),
            final(self)@ == guarded(old(self)@, addr, *memarg, false, 2, need_check, imported_memories, offset, heap_access_oob, (HeapAccess::Load(LoadKind::Ldrsh, AccessForm { opsz: Size::S64, scaled: ImmType::OffsetHWord, unscaled: false }, Size::S64, ret))),
    {
        self.memory_op(addr, memarg, false, 2, need_check, imported_memories, offset, heap_access_oob, HeapAccess::Load(LoadKind::Ldrsh, AccessForm { opsz: Size::S64, scaled: ImmType::OffsetHWord, unscaled: false }, Size::S64, ret));
    }

    /// Wasm `i64.load_32u`: a guarded 4-byte access (see `memory_op`) that loads `ret`.
    pub fn i64_load_32u(
        &mut self,
        addr: Location,
        memarg: &MemoryImmediate,
        ret: Location,
        need_check: bool,
        imported_memories: bool,
        offset: i32,
        heap_access_oob: Label,
    )
        requires
            old(self).wf(),
            old(self)@.room(128),
            guarded_ok(old(self)@.used_gprs, addr, *memarg, false, 4, need_check, imported_memories, offset, (HeapAccess::Load(LoadKind::Ldr, AccessForm { opsz: Size::S32, scaled: ImmType::OffsetWord, unscaled: true }, Size::S64, ret))),
        ensures
            final(self).wf(),
            final(self)@ == guarded(old(self)@, addr, *memarg, false, 4, need_check, imported_memories, offset, heap_access_oob, (HeapAccess::Load(LoadKind::Ldr, AccessForm { opsz: Size::S32, scaled: ImmType::OffsetWord, unscaled: true }, Size::S64, ret))),
    {
        self.memory_op(addr, memarg, false, 4, need_check, imported_memories, offset, heap_access_oob, HeapAccess::Load(LoadKind::Ldr, AccessForm { opsz: Size::S32, scaled: ImmType::OffsetWord, unscaled: true }, Size::S64, ret));
    }

    /// Wasm `i64.load_32s`: a guarded 4-byte access (see `memory_op`) that loads `ret`.
    pub fn i64_load_32s(
        &mut self,
        addr: Location,
        memarg: &MemoryImmediate,
        ret: Location,
        need_check: bool,
        imported_memories: bool,
        offset: i32,
        heap_access_oob: Label,
    )
        requires
            old(self).wf(),
            old(self)@.room(128),
            guarded_ok(old(self)@.used_gprs, addr, *memarg, false, 4, need_check, imported_memories, offset, (HeapAccess::Load(LoadKind::Ldrsw, AccessForm { opsz: Size::S64, scaled: ImmType::OffsetWord, unscaled: false }, Size::S64, ret))),
        ensures
            final(self).wf(),
            final(self)@ == guarded(old(self)@, addr, *memarg, false, 4, need_check, imported_memories, offset, heap_access_oob, (HeapAccess::Load(LoadKind::Ldrsw, AccessForm { opsz: Size::S64, scaled: ImmType::OffsetWord, unscaled: false }, Size::S64, ret))),
    {
        self.memory_op(addr, memarg, false, 4, need_check, imported_memories, offset, heap_access_oob, HeapAccess::Load(LoadKind::Ldrsw, AccessForm { opsz: Size::S64, scaled: ImmType::OffsetWord, unscaled: false }, Size::S64, ret));
    }

    /// Wasm `i32.store`: a guarded 4-byte access (see `memory_op`) that stores `target_value`.
    pub fn i32_save(
        &mut self,
        target_value: Location,
        memarg: &MemoryImmediate,
        target_addr: Location,
        need_check: bool,
        imported_memories: bool,
        offset: i32,
        heap_access_oob: Label,
    )
        requires
            old(self).wf(),
            old(self)@.room(128),
            guarded_ok(old(self)@.used_gprs, target_addr, *memarg, false, 4, need_check, imported_memories, offset, (HeapAccess::Store(StoreKind::Str, AccessForm { opsz: Size::S32, scaled: ImmType::OffsetWord, unscaled: true }, target_value))),
        ensures
            final(self).wf(),
            final(self)@ == guarded(old(self)@, target_addr, *memarg, false, 4, need_check, imported_memories, offset, heap_access_oob, (HeapAccess::Store(StoreKind::Str, AccessForm { opsz: Size::S32, scaled: ImmType::OffsetWord, unscaled: true }, target_value))),
    {
        self.memory_op(target_addr, memarg, false, 4, need_check, imported_memories, offset, heap_access_oob, HeapAccess::Store(StoreKind::Str, AccessForm { opsz: Size::S32, scaled: ImmType::OffsetWord, unscaled: true }, target_value));
    }

    /// Wasm `i32.store_8`: a guarded 1-byte access (see `memory_op`) that stores `target_value`.
    pub fn i32_save_8(
        &mut self,
        target_value: Location,
        memarg: &MemoryImmediate,
        target_addr: Location,
        need_check: bool,
        imported_memories: bool,
        offset: i32,
        heap_access_oob: Label,
    )
        requires
            old(self).wf(),
            old(self)@.room(128),
            guarded_ok(old(self)@.used_gprs, target_addr, *memarg, false, 1, need_check, imported_memories, offset, (HeapAccess::Store(StoreKind::Strb, AccessForm { opsz: Size::S32, scaled: ImmType::OffsetByte, unscaled: false }, target_value))),
        ensures
            final(self).wf(),
            final(self)@ == guarded(old(self)@, target_addr, *memarg, false, 1, need_check, imported_memories, offset, heap_access_oob, (HeapAccess::Store(StoreKind::Strb, AccessForm { opsz: Size::S32, scaled: ImmType::OffsetByte, unscaled: false }, target_value))),
    {
        self.memory_op(target_addr, memarg, false, 1, need_check, imported_memories, offset, heap_access_oob, HeapAccess::Store(StoreKind::Strb, AccessForm { opsz: Size::S32, scaled: ImmType::OffsetByte, unscaled: false }, target_value));
    }

    /// Wasm `i32.store_16`: a guarded 2-byte access (see `memory_op`) that stores `target_value`.
    pub fn i32_save_16(
        &mut self,
        target_value: Location,
        memarg: &MemoryImmediate,
        target_addr: Location,
        need_check: bool,
        imported_memories: bool,
        offset: i32,
        heap_access_oob: Label,
    )
        requires
            old(self).wf(),
            old(self)@.room(128),
            guarded_ok(old(self)@.used_gprs, target_addr, *memarg, false, 2, need_check, imported_memories, offset, (HeapAccess::Store(StoreKind::Strh, AccessForm { opsz: Size::S32, scaled: ImmType::OffsetHWord, unscaled: false }, target_value))),
        ensures
            final(self).wf(),
            final(self)@ == guarded(old(self)@, target_addr, *memarg, false, 2, need_check, imported_memories, offset, heap_access_oob, (HeapAccess::Store(StoreKind::Strh, AccessForm { opsz: Size::S32, scaled: ImmType::OffsetHWord, unscaled: false }, target_value))),
    {
        self.memory_op(target_addr, memarg, false, 2, need_check, imported_memories, offset, heap_access_oob, HeapAccess::Store(StoreKind::Strh, AccessForm { opsz: Size::S32, scaled: ImmType::OffsetHWord, unscaled: false }, target_value));
    }

    /// Wasm `i64.store`: a guarded 8-byte access (see `memory_op`) that stores `target_value`.
    pub fn i64_save(
        &mut self,
        target_value: Location,
        memarg: &MemoryImmediate,
        target_addr: Location,
        need_check: bool,
        imported_memories: bool,
        offset: i32,
        heap_access_oob: Label,
    )
        requires
            old(self).wf(),
            old(self)@.room(128),
            guarded_ok(old(self)@.used_gprs, target_addr, *memarg, false, 8, need_check, imported_memories, offset, (HeapAccess::Store(StoreKind::Str, AccessForm { opsz: Size::S64, scaled: ImmType::OffsetDWord, unscaled: true }, target_value))),
        ensures
            final(self).wf(),
            final(self)@ == guarded(old(self)@, target_addr, *memarg, false, 8, need_check, imported_memories, offset, heap_access_oob, (HeapAccess::Store(StoreKind::Str, AccessForm { opsz: Size::S64, scaled: ImmType::OffsetDWord, unscaled: true }, target_value))),
    {
        self.memory_op(target_addr, memarg, false, 8, need_check, imported_memories, offset, heap_access_oob, HeapAccess::Store(StoreKind::Str, AccessForm { opsz: Size::S64, scaled: ImmType::OffsetDWord, unscaled: true }, target_value));
    }

    /// Wasm `i64.store_8`: a guarded 1-byte access (see `memory_op`) that stores `target_value`.
    pub fn i64_save_8(
        &mut self,
        target_value: Location,
        memarg: &MemoryImmediate,
        target_addr: Location,
        need_check: bool,
        imported_memories: bool,
        offset: i32,
        heap_access_oob: Label,
    )
        requires
            old(self).wf(),
            old(self)@.room(128),
            guarded_ok(old(self)@.used_gprs, target_addr, *memarg, false, 1, need_check, imported_memories, offset, (HeapAccess::Store(StoreKind::Strb, AccessForm { opsz: Size::S32, scaled: ImmType::OffsetByte, unscaled: false }, target_value))),
        ensures
            final(self).wf(),
            final(self)@ == guarded(old(self)@, target_addr, *memarg, false, 1, need_check, imported_memories, offset, heap_access_oob, (HeapAccess::Store(StoreKind::Strb, AccessForm { opsz: Size::S32, scaled: ImmType::OffsetByte, unscaled: false }, target_value))),
    {
        self.memory_op(target_addr, memarg, false, 1, need_check, imported_memories, offset, heap_access_oob, HeapAccess::Store(StoreKind::Strb, AccessForm { opsz: Size::S32, scaled: ImmType::OffsetByte, unscaled: false }, target_value));
    }

    /// Wasm `i64.store_16`: a guarded 2-byte access (see `memory_op`) that stores `target_value`.
    pub fn i64_save_16(
        &mut self,
        target_value: Location,
        memarg: &MemoryImmediate,
        target_addr: Location,
        need_check: bool,
        imported_memories: bool,
        offset: i32,
        heap_access_oob: Label,
    )
        requires
            old(self).wf(),
            old(self)@.room(128),
            guarded_ok(old(self)@.used_gprs, target_addr, *memarg, false, 2, need_check, imported_memories, offset, (HeapAccess::Store(StoreKind::Strh, AccessForm { opsz: Size::S32, scaled: ImmType::OffsetHWord, unscaled: false }, target_value))),
        ensures
            final(self).wf(),
            final(self)@ == guarded(old(self)@, target_addr, *memarg, false, 2, need_check, imported_memories, offset, heap_access_oob, (HeapAccess::Store(StoreKind::Strh, AccessForm { opsz: Size::S32, scaled: ImmType::OffsetHWord, unscaled: false }, target_value))),
    {
        self.memory_op(target_addr, memarg, false, 2, need_check, imported_memories, offset, heap_access_oob, HeapAccess::Store(StoreKind::Strh, AccessForm { opsz: Size::S32, scaled: ImmType::OffsetHWord, unscaled: false }, target_value));
    }

    /// Wasm `i64.store_32`: a guarded 4-byte access (see `memory_op`) that stores `target_value`.
    pub fn i64_save_32(
        &mut self,
        target_value: Location,
        memarg: &MemoryImmediate,
        target_addr: Location,
        need_check: bool,
        imported_memories: bool,
        offset: i32,
        heap_access_oob: Label,
    )
        requires
            old(self).wf(),
            old(self)@.room(128),
            guarded_ok(old(self)@.used_gprs, target_addr, *memarg, false, 4, need_check, imported_memories, offset, (HeapAccess::Store(StoreKind::Str, AccessForm { opsz: Size::S32, scaled: ImmType::OffsetWord, unscaled: true }, target_value))),
        ensures
            final(self).wf(),
            final(self)@ == guarded(old(self)@, target_addr, *memarg, false, 4, need_check, imported_memories, offset, heap_access_oob, (HeapAccess::Store(StoreKind::Str, AccessForm { opsz: Size::S32, scaled: ImmType::OffsetWord, unscaled: true }, target_value))),
    {
        self.memory_op(target_addr, memarg, false, 4, need_check, imported_memories, offset, heap_access_oob, HeapAccess::Store(StoreKind::Str, AccessForm { opsz: Size::S32, scaled: ImmType::OffsetWord, unscaled: true }, target_value));
    }

    /// Wasm `f32.load`: a guarded 4-byte access (see `memory_op`) that loads `ret` with a plain `ldr`.
    pub fn f32_load(
        &mut self,
        addr: Location,
        memarg: &MemoryImmediate,
        ret: Location,
        need_check: bool,
        imported_memories: bool,
        offset: i32,
        heap_access_oob: Label,
    )
        requires
            old(self).wf(),
            old(self)@.room(128),
            guarded_ok(old(self)@.used_gprs, addr, *memarg, false, 4, need_check, imported_memories, offset, (HeapAccess::Direct(Size::S32, ret))),
        ensures
            final(self).wf(),
            final(self)@ == guarded(old(self)@, addr, *memarg, false, 4, need_check, imported_memories, offset, heap_access_oob, (HeapAccess::Direct(Size::S32, ret))),
    {
        self.memory_op(addr, memarg, false, 4, need_check, imported_memories, offset, heap_access_oob, HeapAccess::Direct(Size::S32, ret));
    }

    /// Wasm `f64.load`: a guarded 8-byte access (see `memory_op`) that loads `ret` with a plain `ldr`.
    pub fn f64_load(
        &mut self,
        addr: Location,
        memarg: &MemoryImmediate,
        ret: Location,
        need_check: bool,
        imported_memories: bool,
        offset: i32,
        heap_access_oob: Label,
    )
        requires
            old(self).wf(),
            old(self)@.room(128),
            guarded_ok(old(self)@.used_gprs, addr, *memarg, false, 8, need_check, imported_memories, offset, (HeapAccess::Direct(Size::S64, ret))),
        ensures
            final(self).wf(),
            final(self)@ == guarded(old(self)@, addr, *memarg, false, 8, need_check, imported_memories, offset, heap_access_oob, (HeapAccess::Direct(Size::S64, ret))),
    {
        self.memory_op(addr, memarg, false, 8, need_check, imported_memories, offset, heap_access_oob, HeapAccess::Direct(Size::S64, ret));
    }

    /// Wasm `f32.store`: a guarded 4-byte store of the value's bits. NaNs are not
    /// canonicalised on this target, so `canonicalize` has no effect.
    pub fn f32_save(
        &mut self,
        target_value: Location,
        memarg: &MemoryImmediate,
        target_addr: Location,
        canonicalize: bool,
        need_check: bool,
        imported_memories: bool,
        offset: i32,
        heap_access_oob: Label,
    )
        requires
            old(self).wf(),
            old(self)@.room(128),
            guarded_ok(old(self)@.used_gprs, target_addr, *memarg, false, 4, need_check, imported_memories, offset, (HeapAccess::Store(StoreKind::Str, AccessForm { opsz: Size::S32, scaled: ImmType::OffsetWord, unscaled: true }, target_value))),
        ensures
            final(self).wf(),
            final(self)@ == guarded(old(self)@, target_addr, *memarg, false, 4, need_check, imported_memories, offset, heap_access_oob, (HeapAccess::Store(StoreKind::Str, AccessForm { opsz: Size::S32, scaled: ImmType::OffsetWord, unscaled: true }, target_value))),
    {
        self.memory_op(target_addr, memarg, false, 4, need_check, imported_memories, offset, heap_access_oob, HeapAccess::Store(StoreKind::Str, AccessForm { opsz: Size::S32, scaled: ImmType::OffsetWord, unscaled: true }, target_value));
    }

    /// Wasm `f64.store`: a guarded 8-byte store of the value's bits. NaNs are not
    /// canonicalised on this target, so `canonicalize` has no effect.
    pub fn f64_save(
        &mut self,
        target_value: Location,
        memarg: &MemoryImmediate,
        target_addr: Location,
        canonicalize: bool,
        need_check: bool,
        imported_memories: bool,
        offset: i32,
        heap_access_oob: Label,
    )
        requires
            old(self).wf(),
            old(self)@.room(128),
            guarded_ok(old(self)@.used_gprs, target_addr, *memarg, false, 8, need_check, imported_memories, offset, (HeapAccess::Store(StoreKind::Str, AccessForm { opsz: Size::S64, scaled: ImmType::OffsetDWord, unscaled: true }, target_value))),
        ensures
            final(self).wf(),
            final(self)@ == guarded(old(self)@, target_addr, *memarg, false, 8, need_check, imported_memories, offset, heap_access_oob, (HeapAccess::Store(StoreKind::Str, AccessForm { opsz: Size::S64, scaled: ImmType::OffsetDWord, unscaled: true }, target_value))),
    {
        self.memory_op(target_addr, memarg, false, 8, need_check, imported_memories, offset, heap_access_oob, HeapAccess::Store(StoreKind::Str, AccessForm { opsz: Size::S64, scaled: ImmType::OffsetDWord, unscaled: true }, target_value));
    }

}

} // verus!
