//! An AArch64 single-pass code generator core for WebAssembly: register pool,
//! operand legalisation, instruction selection, memory-access guards and
//! frame / trap bookkeeping, emitting an instruction stream with metadata.

pub mod imm;
pub mod regs;
pub mod inst;
pub mod machine;
pub mod legalise;
pub mod kernel;
pub mod memory;
pub mod frame;
pub mod ops;
pub mod int_ops;
pub mod mem_ops;
pub mod calls;
pub mod float_ops;
pub mod laws;
