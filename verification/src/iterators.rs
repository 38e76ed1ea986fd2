use vstd::prelude::*;

use crate::bytes::{le16, le32, read_u16_at, read_u32_at};
use crate::decode::{
    decode, instruction_length, spec_decode, spec_instruction_length, DecodingError,
};
use crate::instruction::Instruction;

verus! {

/// An iterator over the program-counter values at which the instructions of
/// a byte region begin. It is single-pass and forward-only; a malformed
/// tail ends the walk with an error instead of a panic.
pub struct LocationIter<'a> {
    /// The instruction bytes being walked.
    pub memory_view: &'a [u8],
    /// The byte offset of the next instruction within the region.
    pub current_index: u64,
    /// The address at which the region starts.
    pub address: u64,
}

impl<'a> LocationIter<'a> {
    /// Start a walk over `memory_view`, which is loaded at `address`.
    pub fn new(memory_view: &'a [u8], address: u64) -> (r: LocationIter<'a>)
        ensures
            r.memory_view@ == memory_view@,
            r.current_index == 0,
            r.address == address,
    {
        LocationIter { memory_view, current_index: 0, address }
    }

    /// Yield the address of the next instruction and step over it: over two
    /// bytes for a compressed instruction, over four for a full one. At the
    /// end of the region the walk stops; a trailing fragment shorter than
    /// its classified length is reported as truncated, and a classified
    /// length above four as unimplemented, each ending the walk.
    pub fn next(&mut self) -> (r: Option<Result<u64, DecodingError>>)
        requires
            old(self).address + old(self).memory_view@.len() <= u64::MAX,
        ensures
            final(self).memory_view@ == old(self).memory_view@,
            final(self).address == old(self).address,
            ({
                let mem = old(self).memory_view@;
                let idx = old(self).current_index as int;
                if idx >= mem.len() {
                    r is None && final(self).current_index == old(self).current_index
                } else if idx + 2 > mem.len() {
                    r == Some(Err::<u64, DecodingError>(DecodingError::Truncated)) && final(self).current_index == mem.len()
                } else {
                    let l = spec_instruction_length(le16(mem, idx));
                    if l == 2 {
                        r == Some(Ok::<u64, DecodingError>((old(self).address + idx) as u64))
                            && final(self).current_index == idx + 2
                    } else if l == 4 && idx + 4 <= mem.len() {
                        r == Some(Ok::<u64, DecodingError>((old(self).address + idx) as u64))
                            && final(self).current_index == idx + 4
                    } else if l == 4 {
                        r == Some(Err::<u64, DecodingError>(DecodingError::Truncated)) && final(self).current_index == mem.len()
                    } else {
                        r == Some(Err::<u64, DecodingError>(DecodingError::Unimplemented))
                            && final(self).current_index == mem.len()
                    }
                }
            }),
    {
        let n: usize = self.memory_view.len();
        if self.current_index >= n as u64 {
            return None;
        }
        let idx: usize = self.current_index as usize;
        if idx >= n - 1 {
            self.current_index = n as u64;
            return Some(Err(DecodingError::Truncated));
        }
        let half_word: u16 = read_u16_at(self.memory_view, idx);
        let l: usize = instruction_length(half_word);
        if l == 2 {
            self.current_index = self.current_index + 2;
            Some(Ok(self.address + self.current_index - 2))
        } else if l == 4 {
            if n >= 4 && idx <= n - 4 {
                self.current_index = self.current_index + 4;
                Some(Ok(self.address + self.current_index - 4))
            } else {
                self.current_index = n as u64;
                Some(Err(DecodingError::Truncated))
            }
        } else {
            self.current_index = n as u64;
            Some(Err(DecodingError::Unimplemented))
        }
    }
}

/// An iterator over the decoded instructions of a byte region that mixes
/// two- and four-byte encodings. It is single-pass and forward-only; a
/// word that does not decode ends the walk with its decoding error.
pub struct InstructionIter<'a> {
    /// The instruction bytes being walked.
    pub memory_view: &'a [u8],
    /// The byte offset of the next instruction within the region.
    pub current_index: u64,
}

impl<'a> InstructionIter<'a> {
    /// Start a walk over `memory_view`.
    pub fn new(memory_view: &'a [u8]) -> (r: InstructionIter<'a>)
        ensures
            r.memory_view@ == memory_view@,
            r.current_index == 0,
    {
        InstructionIter { memory_view, current_index: 0 }
    }

    /// Decode the next instruction and step over it. At the end of the
    /// region the walk stops; a word that does not decode, a trailing
    /// fragment shorter than its classified length, and a classified length
    /// above four each end the walk with the corresponding error.
    pub fn next(&mut self) -> (r: Option<Result<Instruction, DecodingError>>)
        ensures
            final(self).memory_view@ == old(self).memory_view@,
            ({
                let mem = old(self).memory_view@;
                let idx = old(self).current_index as int;
                if idx >= mem.len() {
                    r is None && final(self).current_index == old(self).current_index
                } else if idx + 2 > mem.len() {
                    r == Some(Err::<Instruction, DecodingError>(DecodingError::Truncated))
                        && final(self).current_index == mem.len()
                } else {
                    let l = spec_instruction_length(le16(mem, idx));
                    if l == 2 {
                        match spec_decode(le16(mem, idx) as u32) {
                            Ok(ins) => r == Some(Ok::<Instruction, DecodingError>(ins)) && final(self).current_index == idx + 2,
                            Err(e) => r == Some(Err::<Instruction, DecodingError>(e)) && final(self).current_index == mem.len(),
                        }
                    } else if l == 4 && idx + 4 <= mem.len() {
                        match spec_decode(le32(mem, idx)) {
                            Ok(ins) => r == Some(Ok::<Instruction, DecodingError>(ins)) && final(self).current_index == idx + 4,
                            Err(e) => r == Some(Err::<Instruction, DecodingError>(e)) && final(self).current_index == mem.len(),
                        }
                    } else if l == 4 {
                        r == Some(Err::<Instruction, DecodingError>(DecodingError::Truncated))
                            && final(self).current_index == mem.len()
                    } else {
                        r == Some(Err::<Instruction, DecodingError>(DecodingError::Unimplemented))
                            && final(self).current_index == mem.len()
                    }
                }
            }),
    {
        let n: usize = self.memory_view.len();
        if self.current_index >= n as u64 {
            return None;
        }
        let idx: usize = self.current_index as usize;
        if idx >= n - 1 {
            self.current_index = n as u64;
            return Some(Err(DecodingError::Truncated));
        }
        let half_word: u16 = read_u16_at(self.memory_view, idx);
        let l: usize = instruction_length(half_word);
        if l == 2 {
            match decode(half_word as u32) {
                Ok(ins) => {
                    self.current_index = self.current_index + 2;
                    Some(Ok(ins))
                },
                Err(e) => {
                    self.current_index = n as u64;
                    Some(Err(e))
                },
            }
        } else if l == 4 {
            if n >= 4 && idx <= n - 4 {
                let word: u32 = read_u32_at(self.memory_view, idx);
                match decode(word) {
                    Ok(ins) => {
                        self.current_index = self.current_index + 4;
                        Some(Ok(ins))
                    },
                    Err(e) => {
                        self.current_index = n as u64;
                        Some(Err(e))
                    },
                }
            } else {
                self.current_index = n as u64;
                Some(Err(DecodingError::Truncated))
            }
        } else {
            self.current_index = n as u64;
            Some(Err(DecodingError::Unimplemented))
        }
    }
}

} // verus!
