//! Loading of RISC-U ELF64 images into code and data regions.

use vstd::prelude::*;

use core::ops::Range;

use crate::bytes::{le32, le64, read_u32_at, read_u64_at};
use crate::decode::{decode, spec_decode, DecodingError};
use crate::instruction::Instruction;
use vstd::slice::{slice_subrange, slice_to_vec};

verus! {

/// A run of bytes or values together with the address it is loaded at.
#[derive(Clone, Debug)]
pub struct ProgramSegment<T> {
    /// The virtual address of the first element.
    pub address: u64,
    /// The elements themselves.
    pub content: Vec<T>,
}

/// A loaded program: its code and data regions, and the address range
/// within the code region that holds executable instructions.
#[derive(Debug)]
pub struct Program {
    /// The executable region.
    pub code: ProgramSegment<u8>,
    /// The writable region, interpreted as little-endian 64-bit words.
    pub data: ProgramSegment<u8>,
    /// The address range of the instructions inside the code region.
    pub instruction_range: Range<u64>,
}

impl Clone for Program {
    /// Copy the program, its regions and its instruction range.
    fn clone(&self) -> (r: Program) {
        Program {
            code: self.code.clone(),
            data: self.data.clone(),
            instruction_range: Range {
                start: self.instruction_range.start,
                end: self.instruction_range.end,
            },
        }
    }
}

/// A program decoded into typed values: instructions and 64-bit words.
#[derive(Clone, Debug)]
pub struct DecodedProgram {
    /// The decoded instructions of the instruction range.
    pub code: ProgramSegment<Instruction>,
    /// The data region read as little-endian 64-bit words.
    pub data: ProgramSegment<u64>,
}

/// Why an image could not be loaded as a RISC-U program.
#[derive(Clone, Debug)]
pub enum RiscuError {
    /// The file could not be read at all.
    CouldNotReadFile(String),
    /// The bytes do not parse as an ELF image.
    InvalidElf(String),
    /// The image parses, but is not a valid RISC-U executable.
    InvalidRiscu(&'static str),
    /// An instruction of the code region failed to decode.
    DecodingError(DecodingError),
}

// ---------------------------------------------------------------------------
// The parts of an ELF image that the loader reads
// ---------------------------------------------------------------------------

/// A program header, reduced to the fields the loader consults.
#[derive(Clone, Copy, Debug)]
pub struct ElfProgramHeader {
    /// The segment type; loadable segments carry 1.
    pub p_type: u32,
    /// The permission flags: executable 1, writable 2, readable 4.
    pub p_flags: u32,
    /// The offset of the segment's bytes within the image.
    pub p_offset: u64,
    /// The virtual address the segment is loaded at.
    pub p_vaddr: u64,
    /// The number of bytes the segment occupies in the image.
    pub p_filesz: u64,
    /// The number of bytes the segment occupies in memory.
    pub p_memsz: u64,
}

impl ElfProgramHeader {
    /// Bundle the fields of a program header.
    pub fn new(p_type: u32, p_flags: u32, p_offset: u64, p_vaddr: u64, p_filesz: u64, p_memsz: u64) -> (r: ElfProgramHeader)
        ensures
            r == (ElfProgramHeader { p_type, p_flags, p_offset, p_vaddr, p_filesz, p_memsz }),
    {
        ElfProgramHeader { p_type, p_flags, p_offset, p_vaddr, p_filesz, p_memsz }
    }
}

/// A section header, reduced to the fields the loader consults.
#[derive(Clone, Copy, Debug)]
pub struct ElfSectionHeader {
    /// The section type; program data carries 1.
    pub sh_type: u32,
    /// The section flags: writable 1, executable 4.
    pub sh_flags: u64,
    /// The virtual address the section is loaded at.
    pub sh_addr: u64,
    /// The offset of the section's bytes within the image.
    pub sh_offset: u64,
    /// The size of the section in bytes.
    pub sh_size: u64,
}

impl ElfSectionHeader {
    /// Bundle the fields of a section header.
    pub fn new(sh_type: u32, sh_flags: u64, sh_addr: u64, sh_offset: u64, sh_size: u64) -> (r: ElfSectionHeader)
        ensures
            r == (ElfSectionHeader { sh_type, sh_flags, sh_addr, sh_offset, sh_size }),
    {
        ElfSectionHeader { sh_type, sh_flags, sh_addr, sh_offset, sh_size }
    }
}

/// The header fields and header tables of a parsed ELF image.
#[derive(Clone, Debug)]
pub struct ElfFile {
    /// Whether the image is 64-bit.
    pub is_64: bool,
    /// Whether the image is a shared object.
    pub is_lib: bool,
    /// Whether the image is little-endian.
    pub little_endian: bool,
    /// The number of program headers the ELF header announces.
    pub e_phnum: u16,
    /// The program header table.
    pub program_headers: Vec<ElfProgramHeader>,
    /// The section header table.
    pub section_headers: Vec<ElfSectionHeader>,
}

impl ElfFile {
    /// Bundle the parsed parts of an image.
    pub fn new(
        is_64: bool,
        is_lib: bool,
        little_endian: bool,
        e_phnum: u16,
        program_headers: Vec<ElfProgramHeader>,
        section_headers: Vec<ElfSectionHeader>,
    ) -> (r: ElfFile)
        ensures
            r == (ElfFile { is_64, is_lib, little_endian, e_phnum, program_headers, section_headers }),
    {
        ElfFile { is_64, is_lib, little_endian, e_phnum, program_headers, section_headers }
    }
}

/// What goblin's `Elf::parse` makes of a byte buffer, reduced to the header
/// fields and header tables the loader reads. The parse reads nothing but
/// the buffer, so its outcome is a function of the bytes alone; the name
/// stands for that outcome without restating the ELF grammar.
pub uninterp spec fn parsed_elf(bytes: Seq<u8>) -> Result<ElfFile, String>;

/// Relies on goblin's `Elf::parse`: it reads the ELF header and the program
/// and section header tables out of the buffer, and fails on anything that
/// does not parse as ELF. Its outcome depends on the buffer alone and is
/// named `parsed_elf`.
#[verifier::external_body]
fn parse_elf(buffer: &[u8]) -> (r: Result<ElfFile, String>)
    ensures
        r == parsed_elf(buffer@),
{
    match goblin::elf::Elf::parse(buffer) {
        Ok(e) => Ok(ElfFile::new(e.is_64, e.is_lib, e.little_endian, e.header.e_phnum,
            e.program_headers.iter().map(|p| ElfProgramHeader::new(
                p.p_type, p.p_flags, p.p_offset, p.p_vaddr, p.p_filesz, p.p_memsz)).collect(),
            e.section_headers.iter().map(|s| ElfSectionHeader::new(
                s.sh_type, s.sh_flags, s.sh_addr, s.sh_offset, s.sh_size)).collect())),
        Err(e) => Err(format!("{}", e)),
    }
}

// ---------------------------------------------------------------------------
// Selection of the segments and the instruction section
// ---------------------------------------------------------------------------

/// Whether a program header describes a loadable segment.
pub open spec fn is_load_header(ph: ElfProgramHeader) -> bool {
    ph.p_type == 1
}

/// Whether a program header describes the code segment: loadable, readable
/// and executable but not writable.
pub open spec fn is_code_header(ph: ElfProgramHeader) -> bool {
    is_load_header(ph) && ph.p_flags & 4 != 0 && ph.p_flags & 1 != 0 && ph.p_flags & 2 == 0
}

/// Whether a program header describes the data segment: loadable, readable
/// and writable but not executable.
pub open spec fn is_data_header(ph: ElfProgramHeader) -> bool {
    is_load_header(ph) && ph.p_flags & 4 != 0 && ph.p_flags & 2 != 0 && ph.p_flags & 1 == 0
}

/// Whether a section header describes executable program data: program
/// bits, executable and not writable.
pub open spec fn is_instruction_section(sh: ElfSectionHeader) -> bool {
    sh.sh_type == 1 && sh.sh_flags & 4 != 0 && sh.sh_flags & 1 == 0
}

/// How many of the first `n` program headers are loadable.
pub open spec fn count_load_headers(phs: Seq<ElfProgramHeader>, n: int) -> int
    decreases n,
{
    if n <= 0 {
        0
    } else {
        count_load_headers(phs, n - 1) + if is_load_header(phs[n - 1]) {
            1int
        } else {
            0int
        }
    }
}

/// The index of the first code header at or after position `k`, if any.
pub open spec fn find_code_from(phs: Seq<ElfProgramHeader>, k: int) -> Option<int>
    decreases phs.len() - k,
{
    if k < 0 || k >= phs.len() {
        None
    } else if is_code_header(phs[k]) {
        Some(k)
    } else {
        find_code_from(phs, k + 1)
    }
}

/// The index of the first data header at or after position `k`, if any.
pub open spec fn find_data_from(phs: Seq<ElfProgramHeader>, k: int) -> Option<int>
    decreases phs.len() - k,
{
    if k < 0 || k >= phs.len() {
        None
    } else if is_data_header(phs[k]) {
        Some(k)
    } else {
        find_data_from(phs, k + 1)
    }
}

/// The index of the first executable program-bits section at or after
/// position `k`, if any.
pub open spec fn find_section_from(shs: Seq<ElfSectionHeader>, k: int) -> Option<int>
    decreases shs.len() - k,
{
    if k < 0 || k >= shs.len() {
        None
    } else if is_instruction_section(shs[k]) {
        Some(k)
    } else {
        find_section_from(shs, k + 1)
    }
}

fn count_load_headers_exec(phs: &Vec<ElfProgramHeader>) -> (r: usize)
    ensures
        r == count_load_headers(phs@, phs@.len() as int),
        r <= phs@.len(),
{
    let mut count: usize = 0;
    let n: usize = phs.len();
    for i in 0..n
        invariant
            n == phs@.len(),
            count == count_load_headers(phs@, i as int),
            count <= i,
    {
        if phs[i].p_type == 1 {
            count = count + 1;
        }
    }
    count
}

fn find_code_header(phs: &Vec<ElfProgramHeader>) -> (r: Option<usize>)
    ensures
        match r {
            Some(k) => find_code_from(phs@, 0) == Some(k as int) && k < phs@.len()
                && is_code_header(phs@[k as int]),
            None => find_code_from(phs@, 0) is None,
        },
{
    let n: usize = phs.len();
    for i in 0..n
        invariant
            n == phs@.len(),
            find_code_from(phs@, 0) == find_code_from(phs@, i as int),
    {
        let ph = phs[i];
        if ph.p_type == 1 && ph.p_flags & 4 != 0 && ph.p_flags & 1 != 0 && ph.p_flags & 2 == 0 {
            return Some(i);
        }
    }
    None
}

fn find_data_header(phs: &Vec<ElfProgramHeader>) -> (r: Option<usize>)
    ensures
        match r {
            Some(k) => find_data_from(phs@, 0) == Some(k as int) && k < phs@.len()
                && is_data_header(phs@[k as int]),
            None => find_data_from(phs@, 0) is None,
        },
{
    let n: usize = phs.len();
    for i in 0..n
        invariant
            n == phs@.len(),
            find_data_from(phs@, 0) == find_data_from(phs@, i as int),
    {
        let ph = phs[i];
        if ph.p_type == 1 && ph.p_flags & 4 != 0 && ph.p_flags & 2 != 0 && ph.p_flags & 1 == 0 {
            return Some(i);
        }
    }
    None
}

fn find_instruction_section(shs: &Vec<ElfSectionHeader>) -> (r: Option<usize>)
    ensures
        match r {
            Some(k) => find_section_from(shs@, 0) == Some(k as int) && k < shs@.len()
                && is_instruction_section(shs@[k as int]),
            None => find_section_from(shs@, 0) is None,
        },
{
    let n: usize = shs.len();
    for i in 0..n
        invariant
            n == shs@.len(),
            find_section_from(shs@, 0) == find_section_from(shs@, i as int),
    {
        let sh = shs[i];
        if sh.sh_type == 1 && sh.sh_flags & 4 != 0 && sh.sh_flags & 1 == 0 {
            return Some(i);
        }
    }
    None
}

// ---------------------------------------------------------------------------
// Copying segments out of the image
// ---------------------------------------------------------------------------

/// `seg` holds the `filesz` image bytes that start at `offset`, zero-padded
/// to `memsz`.
pub open spec fn is_padded_copy(
    seg: Seq<u8>,
    raw: Seq<u8>,
    offset: int,
    filesz: int,
    memsz: int,
) -> bool {
    &&& seg.len() == memsz
    &&& forall|k: int| 0 <= k < filesz ==> seg[k] == raw[offset + k]
    &&& forall|k: int| filesz <= k < memsz ==> seg[k] == 0
}

/// Whether a segment of `filesz` bytes at `offset`, occupying `memsz` bytes
/// of memory, can be copied out of an image of `raw_len` bytes.
pub open spec fn segment_loadable(raw_len: int, offset: u64, filesz: u64, memsz: u64) -> bool {
    &&& offset + filesz <= raw_len
    &&& filesz <= memsz
    &&& memsz <= usize::MAX
}

/// Copy a segment's bytes out of the image and zero-pad them to `memsz`;
/// nothing is copied when the named range does not lie within the image.
fn load_segment(raw: &[u8], offset: u64, filesz: u64, memsz: u64) -> (r: Option<Vec<u8>>)
    ensures
        r is Some <==> segment_loadable(raw@.len() as int, offset, filesz, memsz),
        r matches Some(v) ==> is_padded_copy(
            v@,
            raw@,
            offset as int,
            filesz as int,
            memsz as int,
        ),
{
    if memsz > usize::MAX as u64 || filesz > memsz {
        return None;
    }
    let n: usize = raw.len();
    if offset > n as u64 || filesz > n as u64 - offset {
        return None;
    }
    let start: usize = offset as usize;
    let end: usize = (offset + filesz) as usize;
    let mut v: Vec<u8> = slice_to_vec(slice_subrange(raw, start, end));
    let target: usize = memsz as usize;
    while v.len() < target
        invariant
            filesz <= v@.len() <= target,
            target == memsz,
            offset + filesz <= raw@.len(),
            forall|k: int| 0 <= k < filesz ==> v@[k] == raw@[offset + k],
            forall|k: int| filesz <= k < v@.len() ==> v@[k] == 0,
        decreases target - v@.len(),
    {
        v.push(0);
    }
    Some(v)
}

/// `u64` addition that stops at the largest representable address.
pub open spec fn sat_add_u64(a: u64, b: u64) -> u64 {
    if a + b > u64::MAX {
        u64::MAX
    } else {
        (a + b) as u64
    }
}

// ---------------------------------------------------------------------------
// Extraction of a program from a parsed image
// ---------------------------------------------------------------------------

/// The conditions under which a parsed image yields a program: a 64-bit
/// little-endian executable with at least two loadable segments, among them
/// a code segment and a data segment, whose bytes lie within the image. A
/// legacy image whose code segment names file offset zero is accepted when
/// an executable section names the instruction bytes instead.
pub open spec fn extract_ok(raw: Seq<u8>, elf: ElfFile) -> bool {
    let phs = elf.program_headers@;
    let shs = elf.section_headers@;
    &&& !elf.is_lib
    &&& elf.is_64
    &&& elf.little_endian
    &&& elf.e_phnum >= 2
    &&& count_load_headers(phs, phs.len() as int) >= 2
    &&& count_load_headers(phs, phs.len() as int) <= elf.e_phnum
    &&& find_code_from(phs, 0) is Some
    &&& find_data_from(phs, 0) is Some
    &&& {
        let cph = phs[find_code_from(phs, 0).unwrap()];
        let dph = phs[find_data_from(phs, 0).unwrap()];
        &&& segment_loadable(raw.len() as int, dph.p_offset, dph.p_filesz, dph.p_memsz)
        &&& if cph.p_offset == 0 {
            &&& find_section_from(shs, 0) is Some
            &&& {
                let sh = shs[find_section_from(shs, 0).unwrap()];
                segment_loadable(raw.len() as int, sh.sh_offset, sh.sh_size, sh.sh_size)
            }
        } else {
            segment_loadable(raw.len() as int, cph.p_offset, cph.p_filesz, cph.p_memsz)
        }
    }
}

/// What the extracted program holds: the code and data segments named by
/// the first matching program headers, each zero-padded to its memory
/// size, and the instruction range of the first executable section, or of
/// the whole code segment when the image has no such section. For a legacy
/// image whose code segment names file offset zero, the code region is the
/// executable section itself.
pub open spec fn extracted(raw: Seq<u8>, elf: ElfFile, p: Program) -> bool {
    let phs = elf.program_headers@;
    let shs = elf.section_headers@;
    let cph = phs[find_code_from(phs, 0).unwrap()];
    let dph = phs[find_data_from(phs, 0).unwrap()];
    let sopt = find_section_from(shs, 0);
    &&& p.data.address == dph.p_vaddr
    &&& is_padded_copy(
        p.data.content@,
        raw,
        dph.p_offset as int,
        dph.p_filesz as int,
        dph.p_memsz as int,
    )
    &&& if cph.p_offset == 0 {
        let sh = shs[sopt.unwrap()];
        &&& p.code.address == sh.sh_addr
        &&& is_padded_copy(p.code.content@, raw, sh.sh_offset as int, sh.sh_size as int, sh.sh_size as int)
    } else {
        &&& p.code.address == cph.p_vaddr
        &&& is_padded_copy(
            p.code.content@,
            raw,
            cph.p_offset as int,
            cph.p_filesz as int,
            cph.p_memsz as int,
        )
    }
    &&& match sopt {
        Some(si) => p.instruction_range.start == shs[si].sh_addr && p.instruction_range.end
            == sat_add_u64(shs[si].sh_addr, shs[si].sh_size),
        None => p.instruction_range.start == cph.p_vaddr && p.instruction_range.end == sat_add_u64(
            cph.p_vaddr,
            cph.p_filesz,
        ),
    }
}

/// Extract the code segment, the data segment and the instruction range
/// from a parsed image.
pub fn extract_program(raw: &[u8], elf: &ElfFile) -> (r: Result<Program, RiscuError>)
    ensures
        r is Ok <==> extract_ok(raw@, *elf),
        r matches Ok(p) ==> extracted(raw@, *elf, p),
        r is Err ==> r matches Err(RiscuError::InvalidRiscu(_)),
{
    if elf.is_lib || !elf.is_64 || !elf.little_endian {
        return Err(
            RiscuError::InvalidRiscu("has to be an executable, 64bit, static, little endian binary"),
        );
    }
    let n_loads: usize = count_load_headers_exec(&elf.program_headers);
    if elf.e_phnum < 2 || n_loads < 2 || (elf.e_phnum as usize) < n_loads {
        return Err(RiscuError::InvalidRiscu("must have at least 2 program segments"));
    }
    let ci: usize = match find_code_header(&elf.program_headers) {
        Some(k) => k,
        None => {
            return Err(RiscuError::InvalidRiscu("code segment (readable and executable) is missing"));
        },
    };
    let di: usize = match find_data_header(&elf.program_headers) {
        Some(k) => k,
        None => {
            return Err(RiscuError::InvalidRiscu("data segment (readable and writable) is missing"));
        },
    };
    let cph: ElfProgramHeader = elf.program_headers[ci];
    let dph: ElfProgramHeader = elf.program_headers[di];
    let sopt: Option<usize> = find_instruction_section(&elf.section_headers);
    let code_address: u64;
    let code_content: Vec<u8>;
    if cph.p_offset == 0 {
        let si: usize = match sopt {
            Some(k) => k,
            None => {
                return Err(
                    RiscuError::InvalidRiscu("legacy image without an executable section holding the code"),
                );
            },
        };
        let sh: ElfSectionHeader = elf.section_headers[si];
        match load_segment(raw, sh.sh_offset, sh.sh_size, sh.sh_size) {
            Some(v) => {
                code_address = sh.sh_addr;
                code_content = v;
            },
            None => {
                return Err(RiscuError::InvalidRiscu("executable section lies outside the image"));
            },
        }
    } else {
        match load_segment(raw, cph.p_offset, cph.p_filesz, cph.p_memsz) {
            Some(v) => {
                code_address = cph.p_vaddr;
                code_content = v;
            },
            None => {
                return Err(RiscuError::InvalidRiscu("code segment lies outside the image"));
            },
        }
    }
    let data_content: Vec<u8> = match load_segment(raw, dph.p_offset, dph.p_filesz, dph.p_memsz) {
        Some(v) => v,
        None => {
            return Err(RiscuError::InvalidRiscu("data segment lies outside the image"));
        },
    };
    let instruction_range: Range<u64> = match sopt {
        Some(si) => {
            let sh = elf.section_headers[si];
            sh.sh_addr..sh.sh_addr.saturating_add(sh.sh_size)
        },
        None => cph.p_vaddr..cph.p_vaddr.saturating_add(cph.p_filesz),
    };
    Ok(
        Program {
            code: ProgramSegment { address: code_address, content: code_content },
            data: ProgramSegment { address: dph.p_vaddr, content: data_content },
            instruction_range,
        },
    )
}

/// Parse a byte buffer as an ELF image and extract the program it holds:
/// success exactly when the parsed image meets the acceptance conditions,
/// and the program returned is the one extraction pins down. A buffer that
/// is not ELF fails with the parser's diagnostic, and a parsed image that
/// is no RISC-U executable with the condition it breaks.
pub fn load_program(buffer: &[u8]) -> (r: Result<Program, RiscuError>)
    ensures
        parsed_elf(buffer@) matches Ok(elf) ==> (r is Ok <==> extract_ok(buffer@, elf)),
        parsed_elf(buffer@) matches Ok(elf) ==> (r matches Ok(p) ==> extracted(buffer@, elf, p)),
        parsed_elf(buffer@) matches Ok(elf) ==> (r is Err ==> r matches Err(
            RiscuError::InvalidRiscu(_),
        )),
        parsed_elf(buffer@) is Err ==> r matches Err(RiscuError::InvalidElf(_)),
{
    match parse_elf(buffer) {
        Ok(elf) => extract_program(buffer, &elf),
        Err(message) => Err(RiscuError::InvalidElf(message)),
    }
}

// ---------------------------------------------------------------------------
// Decoding a loaded program
// ---------------------------------------------------------------------------

/// The instructions of the first `k` four-byte chunks that start at `base`,
/// in order; the first chunk that fails to decode fails the whole run.
pub open spec fn decode_chunks(bytes: Seq<u8>, base: int, k: int) -> Result<
    Seq<Instruction>,
    DecodingError,
>
    decreases k,
{
    if k <= 0 {
        Ok(Seq::empty())
    } else {
        match decode_chunks(bytes, base, k - 1) {
            Ok(s) => match spec_decode(le32(bytes, base + 4 * (k - 1))) {
                Ok(ins) => Ok(s.push(ins)),
                Err(e) => Err(e),
            },
            Err(e) => Err(e),
        }
    }
}

/// A run that fails keeps failing the same way when extended.
proof fn lemma_decode_chunks_err(bytes: Seq<u8>, base: int, k: int, n: int)
    requires
        0 <= k <= n,
        decode_chunks(bytes, base, k) is Err,
    ensures
        decode_chunks(bytes, base, n) == decode_chunks(bytes, base, k),
    decreases n - k,
{
    if n > k {
        lemma_decode_chunks_err(bytes, base, k, n - 1);
    }
}

/// The data region read as 64-bit little-endian words; trailing bytes that
/// do not fill a word are dropped.
pub open spec fn data_words(bytes: Seq<u8>) -> Seq<u64> {
    Seq::new((bytes.len() / 8) as nat, |j: int| le64(bytes, 8 * j))
}

/// The instruction range lies within the code region.
pub open spec fn instruction_range_within(p: Program) -> bool {
    &&& p.instruction_range.start >= p.code.address
    &&& p.instruction_range.end >= p.instruction_range.start
    &&& p.instruction_range.end - p.code.address <= p.code.content@.len()
}

/// What decoding the program's instruction range yields: the range's
/// four-byte chunks decoded in order, relative to the code region.
pub open spec fn spec_program_code(p: Program) -> Result<Seq<Instruction>, DecodingError> {
    decode_chunks(
        p.code.content@,
        p.instruction_range.start - p.code.address,
        (p.instruction_range.end - p.instruction_range.start) / 4,
    )
}

impl Program {
    /// Decode the program: each four-byte chunk of the instruction range
    /// becomes an instruction, and the data region is read as little-endian
    /// 64-bit words. The first chunk that fails to decode fails the whole
    /// decode with its decoding error.
    pub fn decode(&self) -> (r: Result<DecodedProgram, RiscuError>)
        ensures
            instruction_range_within(*self) ==> match spec_program_code(*self) {
                Ok(code) => r matches Ok(d) && d.code.address == self.instruction_range.start
                    && d.code.content@ == code && d.data.address == self.data.address
                    && d.data.content@ == data_words(self.data.content@),
                Err(e) => r == Err::<DecodedProgram, RiscuError>(RiscuError::DecodingError(e)),
            },
            !instruction_range_within(*self) ==> r matches Err(RiscuError::InvalidRiscu(_)),
    {
        copy_and_decode(self)
    }
}

fn copy_and_decode(program: &Program) -> (r: Result<DecodedProgram, RiscuError>)
    ensures
        instruction_range_within(*program) ==> match spec_program_code(*program) {
            Ok(code) => r matches Ok(d) && d.code.address == program.instruction_range.start
                && d.code.content@ == code && d.data.address == program.data.address
                && d.data.content@ == data_words(program.data.content@),
            Err(e) => r == Err::<DecodedProgram, RiscuError>(RiscuError::DecodingError(e)),
        },
        !instruction_range_within(*program) ==> r matches Err(RiscuError::InvalidRiscu(_)),
{
    if program.instruction_range.start < program.code.address
        || program.instruction_range.end < program.instruction_range.start
        || program.instruction_range.end - program.code.address > program.code.content.len() as u64 {
        return Err(RiscuError::InvalidRiscu("instruction range lies outside the code segment"));
    }
    let rel_start: usize = (program.instruction_range.start - program.code.address) as usize;
    let rel_end: usize = (program.instruction_range.end - program.code.address) as usize;
    let chunks: usize = (rel_end - rel_start) / 4;
    let content_len: usize = program.code.content.len();
    let ghost base = rel_start as int;
    let mut code_vec: Vec<Instruction> = Vec::new();
    let mut j: usize = 0;
    while j < chunks
        invariant
            base == rel_start as int,
            base == program.instruction_range.start - program.code.address,
            chunks as int == (program.instruction_range.end - program.instruction_range.start)
                / 4,
            instruction_range_within(*program),
            j <= chunks,
            content_len == program.code.content@.len(),
            rel_start + 4 * chunks <= content_len,
            decode_chunks(program.code.content@, base, j as int) == Ok::<
                Seq<Instruction>,
                DecodingError,
            >(code_vec@),
        decreases chunks - j,
    {
        let word: u32 = read_u32_at(program.code.content.as_slice(), rel_start + 4 * j);
        match decode(word) {
            Ok(ins) => {
                code_vec.push(ins);
            },
            Err(e) => {
                proof {
                    lemma_decode_chunks_err(
                        program.code.content@,
                        base,
                        j + 1,
                        chunks as int,
                    );
                }
                return Err(RiscuError::DecodingError(e));
            },
        }
        j = j + 1;
    }
    let data_len: usize = program.data.content.len();
    let words: usize = data_len / 8;
    let mut data_vec: Vec<u64> = Vec::new();
    let mut j: usize = 0;
    while j < words
        invariant
            j <= words,
            data_len == program.data.content@.len(),
            words == program.data.content@.len() / 8,
            data_vec@.len() == j,
            forall|k: int| 0 <= k < j ==> data_vec@[k] == le64(program.data.content@, 8 * k),
        decreases words - j,
    {
        let w: u64 = read_u64_at(program.data.content.as_slice(), 8 * j);
        data_vec.push(w);
        j = j + 1;
    }
    proof {
        assert(data_vec@ =~= data_words(program.data.content@));
    }
    Ok(
        DecodedProgram {
            code: ProgramSegment {
                address: program.instruction_range.start,
                content: code_vec,
            },
            data: ProgramSegment { address: program.data.address, content: data_vec },
        },
    )
}

} // verus!
