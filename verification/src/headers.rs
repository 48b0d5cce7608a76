//! The three fixed-layout ELF32 header structures and their decoders.
//!
//! Each structure has a `..._matches` predicate that says, byte for byte,
//! what its fields are as a function of the buffer: the little-endian value
//! of the bytes at the field's fixed offset inside its record. The decoders
//! are proved to return exactly those values.

use vstd::prelude::*;

use crate::codec::{le16, le32, rec_byte, rec_u16, rec_u32, read_rec_byte, read_rec_u16, read_rec_u32};
use crate::errors::{ElfError, Stage};

verus! {

/// Size in bytes of the ELF32 file header.
pub const ELF_HEADER_SIZE: usize = 52;

/// Natural size in bytes of one ELF32 program header record.
pub const PROGRAM_HEADER_SIZE: usize = 32;

/// Natural size in bytes of one ELF32 section header record.
pub const SECTION_HEADER_SIZE: usize = 40;

/// The ELF32 file header: the fixed 52-byte record at offset 0 of the image.
#[derive(Debug, Clone, Copy, PartialEq, Eq)]
pub struct ElfHeader {
    /// Magic, class, encoding and ABI identification; carried opaquely.
    pub ident: [u8; 16],
    /// Object file type.
    pub typ: u16,
    /// Target machine.
    pub machine: u16,
    /// Object file version.
    pub version: u32,
    /// Virtual entry address.
    pub entry: u32,
    /// File offset of the program header table.
    pub phoff: u32,
    /// File offset of the section header table.
    pub shoff: u32,
    /// Processor-specific flags.
    pub flags: u32,
    /// Size of this header.
    pub ehsize: u16,
    /// Declared size of one program header record.
    pub phentsize: u16,
    /// Number of program header records.
    pub phnum: u16,
    /// Declared size of one section header record.
    pub shentsize: u16,
    /// Number of section header records.
    pub shnum: u16,
    /// Section header index of the section-name string table.
    pub shstrndx: u16,
}

/// One ELF32 program header record: describes a segment of the file.
#[derive(Debug, Clone, Copy, PartialEq, Eq)]
pub struct ProgramHeader {
    /// Segment kind; carried opaquely.
    pub typ: u32,
    /// File offset of the segment's on-disk bytes.
    pub offset: u32,
    /// Virtual load address.
    pub vaddr: u32,
    /// Physical load address.
    pub paddr: u32,
    /// Number of the segment's bytes present in the file.
    pub filesz: u32,
    /// Size of the segment in memory.
    pub memsz: u32,
    /// Permission flags.
    pub flags: u32,
    /// Alignment.
    pub align: u32,
}

/// One ELF32 section header record: describes a named region of the file.
#[derive(Debug, Clone, Copy, PartialEq, Eq)]
pub struct SectionHeader {
    /// Index into the section-name string table; carried opaquely as bytes.
    pub name: [u8; 4],
    /// Section kind.
    pub typ: u32,
    /// Section flags.
    pub flags: u32,
    /// Virtual address of the section in memory.
    pub addr: u32,
    /// File offset of the section's bytes.
    pub offset: u32,
    /// Size of the section in the file.
    pub size: u32,
    /// A related section's index.
    pub link: u32,
    /// Extra information.
    pub info: u32,
    /// Address alignment.
    pub addralign: u32,
    /// Size of one entry, for sections that hold a table.
    pub entsize: u32,
}

/// The program-header-table file offset declared by the header bytes of `s`.
pub open spec fn spec_phoff(s: Seq<u8>) -> u32 {
    rec_u32(s, 0, ELF_HEADER_SIZE as int, 28)
}

/// The program-header record size declared by the header bytes of `s`.
pub open spec fn spec_phentsize(s: Seq<u8>) -> u16 {
    rec_u16(s, 0, ELF_HEADER_SIZE as int, 42)
}

/// The program-header count declared by the header bytes of `s`.
pub open spec fn spec_phnum(s: Seq<u8>) -> u16 {
    rec_u16(s, 0, ELF_HEADER_SIZE as int, 44)
}

/// The section-header-table file offset declared by the header bytes of `s`.
pub open spec fn spec_shoff(s: Seq<u8>) -> u32 {
    rec_u32(s, 0, ELF_HEADER_SIZE as int, 32)
}

/// The section-header record size declared by the header bytes of `s`.
pub open spec fn spec_shentsize(s: Seq<u8>) -> u16 {
    rec_u16(s, 0, ELF_HEADER_SIZE as int, 46)
}

/// The section-header count declared by the header bytes of `s`.
pub open spec fn spec_shnum(s: Seq<u8>) -> u16 {
    rec_u16(s, 0, ELF_HEADER_SIZE as int, 48)
}

/// The fields of `h` are exactly the little-endian decoding of the 52-byte
/// record at offset 0 of `s`, field by field at the ELF32 layout's offsets.
pub open spec fn elf_header_matches(h: ElfHeader, s: Seq<u8>) -> bool {
    let sz = ELF_HEADER_SIZE as int;
    &&& h.ident@ == Seq::new(16, |i: int| rec_byte(s, 0, sz, i))
    &&& h.typ == rec_u16(s, 0, sz, 16)
    &&& h.machine == rec_u16(s, 0, sz, 18)
    &&& h.version == rec_u32(s, 0, sz, 20)
    &&& h.entry == rec_u32(s, 0, sz, 24)
    &&& h.phoff == spec_phoff(s)
    &&& h.shoff == spec_shoff(s)
    &&& h.flags == rec_u32(s, 0, sz, 36)
    &&& h.ehsize == rec_u16(s, 0, sz, 40)
    &&& h.phentsize == spec_phentsize(s)
    &&& h.phnum == spec_phnum(s)
    &&& h.shentsize == spec_shentsize(s)
    &&& h.shnum == spec_shnum(s)
    &&& h.shstrndx == rec_u16(s, 0, sz, 50)
}

/// The fields of `ph` are exactly the little-endian decoding of the record
/// of `entsize` bytes at `start` in `s`, at the ELF32 program header
/// layout's offsets, with bytes past the record's declared end read as zero.
pub open spec fn program_header_matches(
    ph: ProgramHeader,
    s: Seq<u8>,
    start: int,
    entsize: int,
) -> bool {
    &&& ph.typ == rec_u32(s, start, entsize, 0)
    &&& ph.offset == rec_u32(s, start, entsize, 4)
    &&& ph.vaddr == rec_u32(s, start, entsize, 8)
    &&& ph.paddr == rec_u32(s, start, entsize, 12)
    &&& ph.filesz == rec_u32(s, start, entsize, 16)
    &&& ph.memsz == rec_u32(s, start, entsize, 20)
    &&& ph.flags == rec_u32(s, start, entsize, 24)
    &&& ph.align == rec_u32(s, start, entsize, 28)
}

/// The fields of `sh` are exactly the little-endian decoding of the record
/// of `entsize` bytes at `start` in `s`, at the ELF32 section header
/// layout's offsets, with bytes past the record's declared end read as zero.
pub open spec fn section_header_matches(
    sh: SectionHeader,
    s: Seq<u8>,
    start: int,
    entsize: int,
) -> bool {
    &&& sh.name@ == Seq::new(4, |i: int| rec_byte(s, start, entsize, i))
    &&& sh.typ == rec_u32(s, start, entsize, 4)
    &&& sh.flags == rec_u32(s, start, entsize, 8)
    &&& sh.addr == rec_u32(s, start, entsize, 12)
    &&& sh.offset == rec_u32(s, start, entsize, 16)
    &&& sh.size == rec_u32(s, start, entsize, 20)
    &&& sh.link == rec_u32(s, start, entsize, 24)
    &&& sh.info == rec_u32(s, start, entsize, 28)
    &&& sh.addralign == rec_u32(s, start, entsize, 32)
    &&& sh.entsize == rec_u32(s, start, entsize, 36)
}

/// A table of `num` records of `entsize` bytes starting at file offset `off`
/// lies within a buffer of `len` bytes. An empty table and a zero record
/// size never reach past the end, whatever `off` is, because no byte of the
/// buffer is consumed.
pub open spec fn table_in_bounds(len: int, off: int, num: int, entsize: int) -> bool {
    num == 0 || entsize == 0 || off + num * entsize <= len
}

impl ElfHeader {
    /// Decodes the fixed 52-byte file header at offset 0 of `data`.
    /// Succeeds exactly when the buffer holds at least those 52 bytes; no
    /// semantic validation of magic, class or version is performed.
    pub fn read_elf_header(data: &Vec<u8>) -> (r: Result<ElfHeader, ElfError>)
        ensures
            r is Ok <==> data@.len() >= ELF_HEADER_SIZE,
            r is Ok ==> elf_header_matches(r->Ok_0, data@),
            r is Err ==> r->Err_0 == ElfError::TruncatedRecord(Stage::FileHeader),
    {
        if data.len() < ELF_HEADER_SIZE {
            return Err(ElfError::TruncatedRecord(Stage::FileHeader));
        }
        let sz = ELF_HEADER_SIZE;
        let ident: [u8; 16] = [
            read_rec_byte(data, 0, sz, 0),
            read_rec_byte(data, 0, sz, 1),
            read_rec_byte(data, 0, sz, 2),
            read_rec_byte(data, 0, sz, 3),
            read_rec_byte(data, 0, sz, 4),
            read_rec_byte(data, 0, sz, 5),
            read_rec_byte(data, 0, sz, 6),
            read_rec_byte(data, 0, sz, 7),
            read_rec_byte(data, 0, sz, 8),
            read_rec_byte(data, 0, sz, 9),
            read_rec_byte(data, 0, sz, 10),
            read_rec_byte(data, 0, sz, 11),
            read_rec_byte(data, 0, sz, 12),
            read_rec_byte(data, 0, sz, 13),
            read_rec_byte(data, 0, sz, 14),
            read_rec_byte(data, 0, sz, 15),
        ];
        let h = ElfHeader {
            ident,
            typ: read_rec_u16(data, 0, sz, 16),
            machine: read_rec_u16(data, 0, sz, 18),
            version: read_rec_u32(data, 0, sz, 20),
            entry: read_rec_u32(data, 0, sz, 24),
            phoff: read_rec_u32(data, 0, sz, 28),
            shoff: read_rec_u32(data, 0, sz, 32),
            flags: read_rec_u32(data, 0, sz, 36),
            ehsize: read_rec_u16(data, 0, sz, 40),
            phentsize: read_rec_u16(data, 0, sz, 42),
            phnum: read_rec_u16(data, 0, sz, 44),
            shentsize: read_rec_u16(data, 0, sz, 46),
            shnum: read_rec_u16(data, 0, sz, 48),
            shstrndx: read_rec_u16(data, 0, sz, 50),
        };
        assert(h.ident@ =~= Seq::new(16, |i: int| rec_byte(data@, 0, ELF_HEADER_SIZE as int, i)));
        Ok(h)
    }
}

impl ProgramHeader {
    /// Decodes one program header record of `entsize` bytes at `start`.
    fn read_at(data: &Vec<u8>, start: usize, entsize: u16) -> (ph: ProgramHeader)
        requires
            entsize == 0 || start + entsize <= data@.len(),
        ensures
            program_header_matches(ph, data@, start as int, entsize as int),
    {
        let sz = entsize as usize;
        ProgramHeader {
            typ: read_rec_u32(data, start, sz, 0),
            offset: read_rec_u32(data, start, sz, 4),
            vaddr: read_rec_u32(data, start, sz, 8),
            paddr: read_rec_u32(data, start, sz, 12),
            filesz: read_rec_u32(data, start, sz, 16),
            memsz: read_rec_u32(data, start, sz, 20),
            flags: read_rec_u32(data, start, sz, 24),
            align: read_rec_u32(data, start, sz, 28),
        }
    }

    /// Decodes the program header table declared by `elf_header`: `phnum`
    /// records of `phentsize` bytes each, the first at file offset `phoff`.
    /// Succeeds exactly when the whole table lies within the buffer, and then
    /// returns the records in table order, each decoded from its own bytes.
    pub fn read_program_headers(data: &Vec<u8>, elf_header: &ElfHeader) -> (r: Result<
        Vec<ProgramHeader>,
        ElfError,
    >)
        ensures
            r is Ok <==> table_in_bounds(
                data@.len() as int,
                elf_header.phoff as int,
                elf_header.phnum as int,
                elf_header.phentsize as int,
            ),
            r is Ok ==> r->Ok_0@.len() == elf_header.phnum,
            r is Ok ==> forall|i: int|
                0 <= i < elf_header.phnum ==> program_header_matches(
                    #[trigger] r->Ok_0@[i],
                    data@,
                    elf_header.phoff + i * elf_header.phentsize,
                    elf_header.phentsize as int,
                ),
            r is Err ==> r->Err_0 == ElfError::TruncatedRecord(Stage::ProgramHeaderTable),
    {
        let phoff = elf_header.phoff as u64;
        let phnum = elf_header.phnum as u64;
        let entsize = elf_header.phentsize as u64;
        if phnum > 0 && entsize > 0 {
            proof {
                vstd::arithmetic::mul::lemma_mul_upper_bound(
                    phnum as int,
                    0xffff,
                    entsize as int,
                    0xffff,
                );
            }
            if phoff + phnum * entsize > data.len() as u64 {
                return Err(ElfError::TruncatedRecord(Stage::ProgramHeaderTable));
            }
        }
        let data_len = data.len();
        let mut headers: Vec<ProgramHeader> = Vec::new();
        let mut i: u16 = 0;
        while i < elf_header.phnum
            invariant
                i <= elf_header.phnum,
                phoff == elf_header.phoff,
                phnum == elf_header.phnum,
                entsize == elf_header.phentsize,
                data_len == data@.len(),
                table_in_bounds(data@.len() as int, phoff as int, phnum as int, entsize as int),
                headers@.len() == i,
                forall|j: int|
                    0 <= j < i ==> program_header_matches(
                        #[trigger] headers@[j],
                        data@,
                        phoff + j * entsize,
                        entsize as int,
                    ),
            decreases elf_header.phnum - i,
        {
            proof {
                vstd::arithmetic::mul::lemma_mul_upper_bound(
                    i as int,
                    0xffff,
                    entsize as int,
                    0xffff,
                );
                if entsize > 0 {
                    vstd::arithmetic::mul::lemma_mul_inequality(
                        i as int + 1,
                        phnum as int,
                        entsize as int,
                    );
                    vstd::arithmetic::mul::lemma_mul_is_distributive_add_other_way(
                        entsize as int,
                        i as int,
                        1,
                    );
                    assert(phoff + i * entsize + entsize <= data_len);
                }
            }
            let start_wide = phoff + (i as u64) * entsize;
            assert(start_wide + entsize <= data_len || entsize == 0);
            assert(start_wide <= usize::MAX);
            let start = start_wide as usize;
            let ph = ProgramHeader::read_at(data, start, elf_header.phentsize);
            headers.push(ph);
            i = i + 1;
        }
        Ok(headers)
    }
}

impl SectionHeader {
    /// Decodes one section header record of `entsize` bytes at `start`.
    fn read_at(data: &Vec<u8>, start: usize, entsize: u16) -> (sh: SectionHeader)
        requires
            entsize == 0 || start + entsize <= data@.len(),
        ensures
            section_header_matches(sh, data@, start as int, entsize as int),
    {
        let sz = entsize as usize;
        let name: [u8; 4] = [
            read_rec_byte(data, start, sz, 0),
            read_rec_byte(data, start, sz, 1),
            read_rec_byte(data, start, sz, 2),
            read_rec_byte(data, start, sz, 3),
        ];
        let sh = SectionHeader {
            name,
            typ: read_rec_u32(data, start, sz, 4),
            flags: read_rec_u32(data, start, sz, 8),
            addr: read_rec_u32(data, start, sz, 12),
            offset: read_rec_u32(data, start, sz, 16),
            size: read_rec_u32(data, start, sz, 20),
            link: read_rec_u32(data, start, sz, 24),
            info: read_rec_u32(data, start, sz, 28),
            addralign: read_rec_u32(data, start, sz, 32),
            entsize: read_rec_u32(data, start, sz, 36),
        };
        assert(sh.name@ =~= Seq::new(4, |i: int| rec_byte(data@, start as int, entsize as int, i)));
        sh
    }

    /// Decodes the section header table declared by `elf_header`: `shnum`
    /// records of `shentsize` bytes each, the first at file offset `shoff`.
    /// Succeeds exactly when the whole table lies within the buffer, and then
    /// returns the records in table order, each decoded from its own bytes.
    pub fn read_section_headers(data: &Vec<u8>, elf_header: &ElfHeader) -> (r: Result<
        Vec<SectionHeader>,
        ElfError,
    >)
        ensures
            r is Ok <==> table_in_bounds(
                data@.len() as int,
                elf_header.shoff as int,
                elf_header.shnum as int,
                elf_header.shentsize as int,
            ),
            r is Ok ==> r->Ok_0@.len() == elf_header.shnum,
            r is Ok ==> forall|i: int|
                0 <= i < elf_header.shnum ==> section_header_matches(
                    #[trigger] r->Ok_0@[i],
                    data@,
                    elf_header.shoff + i * elf_header.shentsize,
                    elf_header.shentsize as int,
                ),
            r is Err ==> r->Err_0 == ElfError::TruncatedRecord(Stage::SectionHeaderTable),
    {
        let shoff = elf_header.shoff as u64;
        let shnum = elf_header.shnum as u64;
        let entsize = elf_header.shentsize as u64;
        if shnum > 0 && entsize > 0 {
            proof {
                vstd::arithmetic::mul::lemma_mul_upper_bound(
                    shnum as int,
                    0xffff,
                    entsize as int,
                    0xffff,
                );
            }
            if shoff + shnum * entsize > data.len() as u64 {
                return Err(ElfError::TruncatedRecord(Stage::SectionHeaderTable));
            }
        }
        let data_len = data.len();
        let mut headers: Vec<SectionHeader> = Vec::new();
        let mut i: u16 = 0;
        while i < elf_header.shnum
            invariant
                i <= elf_header.shnum,
                shoff == elf_header.shoff,
                shnum == elf_header.shnum,
                entsize == elf_header.shentsize,
                data_len == data@.len(),
                table_in_bounds(data@.len() as int, shoff as int, shnum as int, entsize as int),
                headers@.len() == i,
                forall|j: int|
                    0 <= j < i ==> section_header_matches(
                        #[trigger] headers@[j],
                        data@,
                        shoff + j * entsize,
                        entsize as int,
                    ),
            decreases elf_header.shnum - i,
        {
            proof {
                vstd::arithmetic::mul::lemma_mul_upper_bound(
                    i as int,
                    0xffff,
                    entsize as int,
                    0xffff,
                );
                if entsize > 0 {
                    vstd::arithmetic::mul::lemma_mul_inequality(
                        i as int + 1,
                        shnum as int,
                        entsize as int,
                    );
                    vstd::arithmetic::mul::lemma_mul_is_distributive_add_other_way(
                        entsize as int,
                        i as int,
                        1,
                    );
                    assert(shoff + i * entsize + entsize <= data_len);
                }
            }
            let start_wide = shoff + (i as u64) * entsize;
            assert(start_wide + entsize <= data_len || entsize == 0);
            assert(start_wide <= usize::MAX);
            let start = start_wide as usize;
            let sh = SectionHeader::read_at(data, start, elf_header.shentsize);
            headers.push(sh);
            i = i + 1;
        }
        Ok(headers)
    }
}

} // verus!
