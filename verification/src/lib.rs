//! Decoding, encoding and loading of RV64IMAC executable programs.
//!
//! The core is the instruction coding layer: length classification from the
//! low bits of an instruction word, full decoding of 32-bit words into a
//! typed sum, decompression of 16-bit compressed encodings into equivalent
//! 32-bit encodings, and symmetric construction of encoded words from typed
//! instructions. Around it stand streaming iterators over a mixed 2/4-byte
//! instruction region and a loader that turns an ELF64 image into two byte
//! regions with their load addresses.

pub mod bits;
pub mod bytes;
pub mod decode;
pub mod decompress;
pub mod elf;
pub mod instruction;
pub mod iterators;
pub mod register;
pub mod types;

pub use decode::{decode, instruction_length, DecodingError, INSTRUCTION_SIZE, WORD_SIZE};
pub use elf::{load_program, DecodedProgram, Program, ProgramSegment, RiscuError};
pub use instruction::Instruction;
pub use register::Register;
