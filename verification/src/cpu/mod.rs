//! The hart: registers, instruction stream, decoder and executor.

pub mod alu;
pub mod compressed_laws;
pub mod cpu;
pub mod cpu_instruction_comp;
pub mod csr;
pub mod decode;
pub mod encoding;
pub mod invariants;
pub mod trap;
