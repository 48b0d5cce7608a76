//! The loaded ELF32 image: the byte buffer together with its parsed headers.

use vstd::prelude::*;

use crate::errors::{ElfError, Stage};
use crate::headers::{
    elf_header_matches, program_header_matches, section_header_matches, spec_phentsize, spec_phnum,
    spec_phoff, spec_shentsize, spec_shnum, spec_shoff, table_in_bounds, ElfHeader, ProgramHeader,
    SectionHeader, ELF_HEADER_SIZE,
};

verus! {

/// A fully loaded ELF32 image. Owns the byte buffer it was parsed from, so
/// segment bytes can be extracted later against the same bytes.
#[derive(Debug)]
pub struct Elf {
    /// The whole file image.
    pub data: Vec<u8>,
    /// The file header decoded from the first 52 bytes.
    pub elf_header: ElfHeader,
    /// The program header table, in table order; length `phnum`.
    pub program_headers: Vec<ProgramHeader>,
    /// The section header table, in table order; length `shnum`.
    pub section_headers: Vec<SectionHeader>,
}

/// A buffer parses as a whole image: it holds the 52-byte file header, and
/// both header tables the file header declares lie within the buffer.
pub open spec fn load_ok(s: Seq<u8>) -> bool {
    &&& s.len() >= ELF_HEADER_SIZE
    &&& table_in_bounds(
        s.len() as int,
        spec_phoff(s) as int,
        spec_phnum(s) as int,
        spec_phentsize(s) as int,
    )
    &&& table_in_bounds(
        s.len() as int,
        spec_shoff(s) as int,
        spec_shnum(s) as int,
        spec_shentsize(s) as int,
    )
}

impl Elf {
    /// The parsed headers are exactly what the owned buffer's bytes say:
    /// the file header matches the first 52 bytes, and each table holds the
    /// declared number of records, each decoded from its own record bytes.
    pub open spec fn wf(self) -> bool {
        &&& load_ok(self.data@)
        &&& elf_header_matches(self.elf_header, self.data@)
        &&& self.program_headers@.len() == self.elf_header.phnum
        &&& forall|i: int|
            0 <= i < self.program_headers@.len() ==> program_header_matches(
                #[trigger] self.program_headers@[i],
                self.data@,
                self.elf_header.phoff + i * self.elf_header.phentsize,
                self.elf_header.phentsize as int,
            )
        &&& self.section_headers@.len() == self.elf_header.shnum
        &&& forall|i: int|
            0 <= i < self.section_headers@.len() ==> section_header_matches(
                #[trigger] self.section_headers@[i],
                self.data@,
                self.elf_header.shoff + i * self.elf_header.shentsize,
                self.elf_header.shentsize as int,
            )
    }

    /// Loads a whole image from an owned byte buffer: decodes the file
    /// header at offset 0, then the program header table, then the section
    /// header table, failing fast at the first stage whose records reach
    /// past the end of the buffer. No partial image is ever returned.
    pub fn load_buffer(data: Vec<u8>) -> (r: Result<Elf, ElfError>)
        ensures
            r is Ok <==> load_ok(data@),
            r is Ok ==> (r->Ok_0).wf() && (r->Ok_0).data@ == data@,
            data@.len() < ELF_HEADER_SIZE ==> r == Err::<Elf, ElfError>(
                ElfError::TruncatedRecord(Stage::FileHeader),
            ),
            r is Err && data@.len() >= ELF_HEADER_SIZE && !table_in_bounds(
                data@.len() as int,
                spec_phoff(data@) as int,
                spec_phnum(data@) as int,
                spec_phentsize(data@) as int,
            ) ==> r == Err::<Elf, ElfError>(ElfError::TruncatedRecord(Stage::ProgramHeaderTable)),
            r is Err && data@.len() >= ELF_HEADER_SIZE && table_in_bounds(
                data@.len() as int,
                spec_phoff(data@) as int,
                spec_phnum(data@) as int,
                spec_phentsize(data@) as int,
            ) ==> r == Err::<Elf, ElfError>(ElfError::TruncatedRecord(Stage::SectionHeaderTable)),
    {
        let elf_header = match ElfHeader::read_elf_header(&data) {
            Ok(h) => h,
            Err(e) => {
                return Err(e);
            },
        };
        let program_headers = match ProgramHeader::read_program_headers(&data, &elf_header) {
            Ok(t) => t,
            Err(e) => {
                return Err(e);
            },
        };
        let section_headers = match SectionHeader::read_section_headers(&data, &elf_header) {
            Ok(t) => t,
            Err(e) => {
                return Err(e);
            },
        };
        Ok(Elf { data, elf_header, program_headers, section_headers })
    }

    /// Extracts the on-disk bytes of the program segment at `idx`: exactly
    /// `filesz` bytes of the owned buffer starting at the segment's `offset`.
    /// An index at or past the end of the program header table is a typed
    /// out-of-range error; a segment reaching past the end of the buffer is
    /// a truncation error. The parsed image is left unchanged.
    pub fn read_program_bytes(&self, idx: usize) -> (r: Result<Vec<u8>, ElfError>)
        ensures
            idx >= self.program_headers@.len() ==> r == Err::<Vec<u8>, ElfError>(
                ElfError::IndexOutOfRange,
            ),
            idx < self.program_headers@.len() ==> {
                let ph = self.program_headers@[idx as int];
                &&& (r is Ok <==> ph.offset + ph.filesz <= self.data@.len())
                &&& r is Ok ==> r->Ok_0@ == self.data@.subrange(
                    ph.offset as int,
                    ph.offset + ph.filesz,
                )
                &&& r is Err ==> r == Err::<Vec<u8>, ElfError>(
                    ElfError::TruncatedRecord(Stage::SegmentData),
                )
            },
    {
        if idx >= self.program_headers.len() {
            return Err(ElfError::IndexOutOfRange);
        }
        let ph = self.program_headers[idx];
        let data_len = self.data.len();
        if (ph.offset as u64) + (ph.filesz as u64) > (data_len as u64) {
            return Err(ElfError::TruncatedRecord(Stage::SegmentData));
        }
        let offset = ph.offset as usize;
        let filesz = ph.filesz as usize;
        let mut out: Vec<u8> = Vec::new();
        let mut j: usize = 0;
        while j < filesz
            invariant
                j <= filesz,
                data_len == self.data@.len(),
                offset + filesz <= self.data@.len(),
                out@ == self.data@.subrange(offset as int, offset + j),
            decreases filesz - j,
        {
            out.push(self.data[offset + j]);
            assert(out@ =~= self.data@.subrange(offset as int, offset + j + 1));
            j = j + 1;
        }
        Ok(out)
    }
}

} // verus!
