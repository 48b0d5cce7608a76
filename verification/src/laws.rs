//! Round-trip laws: a record assembled from given field values decodes back
//! to exactly those values.
//!
//! The encoders are the specification-level inverses of the decode
//! predicates of [`crate::headers`]: each lays the fields out little-endian
//! at the ELF32 offsets with no padding and no transformation, so decoding
//! the assembled bytes must reproduce every field unchanged.

use vstd::prelude::*;

use crate::codec::{
    lemma_le16_round_trip, lemma_le32_round_trip, rec_byte, u16_le_bytes, u32_le_bytes,
};
use crate::headers::{
    elf_header_matches, program_header_matches, section_header_matches, ElfHeader, ProgramHeader,
    SectionHeader, ELF_HEADER_SIZE, PROGRAM_HEADER_SIZE, SECTION_HEADER_SIZE,
};
use crate::image::{load_ok, Elf};
use vstd::arithmetic::div_mod::lemma_fundamental_div_mod_converse;

verus! {

/// The 52 bytes of an ELF32 file header with the fields of `h`.
pub open spec fn encode_elf_header(h: ElfHeader) -> Seq<u8> {
    h.ident@ + u16_le_bytes(h.typ) + u16_le_bytes(h.machine) + u32_le_bytes(h.version)
        + u32_le_bytes(h.entry) + u32_le_bytes(h.phoff) + u32_le_bytes(h.shoff) + u32_le_bytes(
        h.flags,
    ) + u16_le_bytes(h.ehsize) + u16_le_bytes(h.phentsize) + u16_le_bytes(h.phnum) + u16_le_bytes(
        h.shentsize,
    ) + u16_le_bytes(h.shnum) + u16_le_bytes(h.shstrndx)
}

/// The 32 bytes of an ELF32 program header record with the fields of `ph`.
pub open spec fn encode_program_header(ph: ProgramHeader) -> Seq<u8> {
    u32_le_bytes(ph.typ) + u32_le_bytes(ph.offset) + u32_le_bytes(ph.vaddr) + u32_le_bytes(
        ph.paddr,
    ) + u32_le_bytes(ph.filesz) + u32_le_bytes(ph.memsz) + u32_le_bytes(ph.flags) + u32_le_bytes(
        ph.align,
    )
}

/// The 40 bytes of an ELF32 section header record with the fields of `sh`.
pub open spec fn encode_section_header(sh: SectionHeader) -> Seq<u8> {
    sh.name@ + u32_le_bytes(sh.typ) + u32_le_bytes(sh.flags) + u32_le_bytes(sh.addr)
        + u32_le_bytes(sh.offset) + u32_le_bytes(sh.size) + u32_le_bytes(sh.link) + u32_le_bytes(
        sh.info,
    ) + u32_le_bytes(sh.addralign) + u32_le_bytes(sh.entsize)
}

/// A file header assembled from any field values decodes back to those
/// values, field for field.
pub proof fn lemma_elf_header_round_trip(h: ElfHeader)
    ensures
        encode_elf_header(h).len() == ELF_HEADER_SIZE,
        elf_header_matches(h, encode_elf_header(h)),
{
    let s = encode_elf_header(h);
    assert(s.len() == ELF_HEADER_SIZE);
    lemma_le16_round_trip(h.typ);
    lemma_le16_round_trip(h.machine);
    lemma_le32_round_trip(h.version);
    lemma_le32_round_trip(h.entry);
    lemma_le32_round_trip(h.phoff);
    lemma_le32_round_trip(h.shoff);
    lemma_le32_round_trip(h.flags);
    lemma_le16_round_trip(h.ehsize);
    lemma_le16_round_trip(h.phentsize);
    lemma_le16_round_trip(h.phnum);
    lemma_le16_round_trip(h.shentsize);
    lemma_le16_round_trip(h.shnum);
    lemma_le16_round_trip(h.shstrndx);
    assert(h.ident@ =~= Seq::new(16, |i: int| rec_byte(s, 0, ELF_HEADER_SIZE as int, i)));
}

/// A program header record assembled from any field values decodes back to
/// those values, field for field.
pub proof fn lemma_program_header_round_trip(ph: ProgramHeader)
    ensures
        encode_program_header(ph).len() == PROGRAM_HEADER_SIZE,
        program_header_matches(ph, encode_program_header(ph), 0, PROGRAM_HEADER_SIZE as int),
{
    let s = encode_program_header(ph);
    assert(s.len() == PROGRAM_HEADER_SIZE);
    lemma_le32_round_trip(ph.typ);
    lemma_le32_round_trip(ph.offset);
    lemma_le32_round_trip(ph.vaddr);
    lemma_le32_round_trip(ph.paddr);
    lemma_le32_round_trip(ph.filesz);
    lemma_le32_round_trip(ph.memsz);
    lemma_le32_round_trip(ph.flags);
    lemma_le32_round_trip(ph.align);
}

/// A section header record assembled from any field values decodes back to
/// those values, field for field.
pub proof fn lemma_section_header_round_trip(sh: SectionHeader)
    ensures
        encode_section_header(sh).len() == SECTION_HEADER_SIZE,
        section_header_matches(sh, encode_section_header(sh), 0, SECTION_HEADER_SIZE as int),
{
    let s = encode_section_header(sh);
    assert(s.len() == SECTION_HEADER_SIZE);
    lemma_le32_round_trip(sh.typ);
    lemma_le32_round_trip(sh.flags);
    lemma_le32_round_trip(sh.addr);
    lemma_le32_round_trip(sh.offset);
    lemma_le32_round_trip(sh.size);
    lemma_le32_round_trip(sh.link);
    lemma_le32_round_trip(sh.info);
    lemma_le32_round_trip(sh.addralign);
    lemma_le32_round_trip(sh.entsize);
    assert(sh.name@ =~= Seq::new(4, |i: int| rec_byte(s, 0, SECTION_HEADER_SIZE as int, i)));
}

/// Two file headers decoded from the same bytes are the same header.
pub proof fn lemma_elf_header_matches_unique(h1: ElfHeader, h2: ElfHeader, s: Seq<u8>)
    requires
        elf_header_matches(h1, s),
        elf_header_matches(h2, s),
    ensures
        h1 == h2,
{
    broadcast use vstd::array::group_array_axioms;

    assert(h1.ident =~= h2.ident);
}

/// Two program headers decoded from the same record bytes are the same.
pub proof fn lemma_program_header_matches_unique(
    p1: ProgramHeader,
    p2: ProgramHeader,
    s: Seq<u8>,
    start: int,
    entsize: int,
)
    requires
        program_header_matches(p1, s, start, entsize),
        program_header_matches(p2, s, start, entsize),
    ensures
        p1 == p2,
{
}

/// Two section headers decoded from the same record bytes are the same.
pub proof fn lemma_section_header_matches_unique(
    h1: SectionHeader,
    h2: SectionHeader,
    s: Seq<u8>,
    start: int,
    entsize: int,
)
    requires
        section_header_matches(h1, s, start, entsize),
        section_header_matches(h2, s, start, entsize),
    ensures
        h1 == h2,
{
    broadcast use vstd::array::group_array_axioms;

    assert(h1.name =~= h2.name);
}

/// The table metadata of a header whose program header table starts right
/// after the 52-byte file header, followed immediately by the section header
/// table, both with the natural record sizes.
pub open spec fn standard_layout(h: ElfHeader, phnum: int, shnum: int) -> bool {
    &&& h.phoff == ELF_HEADER_SIZE
    &&& h.phentsize == PROGRAM_HEADER_SIZE
    &&& h.phnum == phnum
    &&& h.shoff == ELF_HEADER_SIZE + PROGRAM_HEADER_SIZE * phnum
    &&& h.shentsize == SECTION_HEADER_SIZE
    &&& h.shnum == shnum
}

/// The program header table assembled from the records of `phs`, one
/// 32-byte encoded record after the other.
pub open spec fn program_table_bytes(phs: Seq<ProgramHeader>) -> Seq<u8> {
    Seq::new(
        (PROGRAM_HEADER_SIZE * phs.len()) as nat,
        |i: int| encode_program_header(phs[i / (PROGRAM_HEADER_SIZE as int)])[i % (PROGRAM_HEADER_SIZE as int)],
    )
}

/// The section header table assembled from the records of `shs`, one
/// 40-byte encoded record after the other.
pub open spec fn section_table_bytes(shs: Seq<SectionHeader>) -> Seq<u8> {
    Seq::new(
        (SECTION_HEADER_SIZE * shs.len()) as nat,
        |i: int| encode_section_header(shs[i / (SECTION_HEADER_SIZE as int)])[i % (SECTION_HEADER_SIZE as int)],
    )
}

/// A whole ELF32 image assembled from given field values: the encoded file
/// header, then the program header table, then the section header table.
pub open spec fn encode_image(
    h: ElfHeader,
    phs: Seq<ProgramHeader>,
    shs: Seq<SectionHeader>,
) -> Seq<u8> {
    encode_elf_header(h) + program_table_bytes(phs) + section_table_bytes(shs)
}

/// An image assembled from any header and table values under the standard
/// layout parses whole: the buffer passes the load bounds checks, and every
/// header decoded from it is exactly the one it was assembled from.
pub proof fn lemma_image_round_trip(h: ElfHeader, phs: Seq<ProgramHeader>, shs: Seq<SectionHeader>)
    requires
        standard_layout(h, phs.len() as int, shs.len() as int),
    ensures
        encode_image(h, phs, shs).len() == ELF_HEADER_SIZE + PROGRAM_HEADER_SIZE * phs.len()
            + SECTION_HEADER_SIZE * shs.len(),
        load_ok(encode_image(h, phs, shs)),
        elf_header_matches(h, encode_image(h, phs, shs)),
        forall|i: int|
            0 <= i < phs.len() ==> program_header_matches(
                #[trigger] phs[i],
                encode_image(h, phs, shs),
                h.phoff + i * h.phentsize,
                h.phentsize as int,
            ),
        forall|i: int|
            0 <= i < shs.len() ==> section_header_matches(
                #[trigger] shs[i],
                encode_image(h, phs, shs),
                h.shoff + i * h.shentsize,
                h.shentsize as int,
            ),
{
    let s = encode_image(h, phs, shs);
    let hs = encode_elf_header(h);
    let pht = program_table_bytes(phs);
    let sht = section_table_bytes(shs);
    let hsz = ELF_HEADER_SIZE as int;
    let psz = PROGRAM_HEADER_SIZE as int;
    let ssz = SECTION_HEADER_SIZE as int;
    lemma_elf_header_round_trip(h);
    assert(s.len() == hsz + psz * phs.len() + ssz * shs.len());
    assert forall|k: int| 0 <= k < hsz implies #[trigger] rec_byte(s, 0, hsz, k) == rec_byte(
        hs,
        0,
        hsz,
        k,
    ) by {
        assert(s[k] == hs[k]);
    }
    assert(elf_header_matches(h, s)) by {
        assert(Seq::new(16, |i: int| rec_byte(s, 0, hsz, i)) =~= Seq::new(
            16,
            |i: int| rec_byte(hs, 0, hsz, i),
        ));
    }
    assert(load_ok(s));
    assert forall|i: int| 0 <= i < phs.len() implies program_header_matches(
        #[trigger] phs[i],
        s,
        h.phoff + i * h.phentsize,
        h.phentsize as int,
    ) by {
        let enc = encode_program_header(phs[i]);
        let start = hsz + psz * i;
        lemma_program_header_round_trip(phs[i]);
        assert forall|k: int| 0 <= k < psz implies #[trigger] rec_byte(s, start, psz, k)
            == rec_byte(enc, 0, psz, k) by {
            let pos = psz * i + k;
            lemma_fundamental_div_mod_converse(pos, psz, i, k);
            assert(pht[pos] == enc[k]);
            assert(s[hsz + pos] == pht[pos]);
        }
        assert(h.phoff + i * h.phentsize == start);
        assert(program_header_matches(phs[i], s, start, psz));
    }
    assert forall|i: int| 0 <= i < shs.len() implies section_header_matches(
        #[trigger] shs[i],
        s,
        h.shoff + i * h.shentsize,
        h.shentsize as int,
    ) by {
        let enc = encode_section_header(shs[i]);
        let start = hsz + psz * phs.len() + ssz * i;
        lemma_section_header_round_trip(shs[i]);
        assert forall|k: int| 0 <= k < ssz implies #[trigger] rec_byte(s, start, ssz, k)
            == rec_byte(enc, 0, ssz, k) by {
            let pos = ssz * i + k;
            lemma_fundamental_div_mod_converse(pos, ssz, i, k);
            assert(sht[pos] == enc[k]);
            assert(s[hsz + psz * phs.len() + pos] == sht[pos]);
        }
        assert(h.shoff + i * h.shentsize == start);
        assert(section_header_matches(shs[i], s, start, ssz)) by {
            assert(shs[i].name@ =~= Seq::new(4, |j: int| rec_byte(s, start, ssz, j)));
        }
    }
}

/// Round trip through the loader: an image loaded from a buffer that was
/// assembled from given header and table values under the standard layout
/// reads back exactly those values.
pub proof fn lemma_load_reproduces_encoded_image(
    elf: Elf,
    h: ElfHeader,
    phs: Seq<ProgramHeader>,
    shs: Seq<SectionHeader>,
)
    requires
        standard_layout(h, phs.len() as int, shs.len() as int),
        elf.wf(),
        elf.data@ == encode_image(h, phs, shs),
    ensures
        elf.elf_header == h,
        elf.program_headers@ == phs,
        elf.section_headers@ == shs,
{
    lemma_image_round_trip(h, phs, shs);
    lemma_elf_header_matches_unique(elf.elf_header, h, elf.data@);
    assert forall|i: int| 0 <= i < phs.len() implies elf.program_headers@[i] == #[trigger] phs[i] by {
        lemma_program_header_matches_unique(
            elf.program_headers@[i],
            phs[i],
            elf.data@,
            h.phoff + i * h.phentsize,
            h.phentsize as int,
        );
    }
    assert(elf.program_headers@ =~= phs);
    assert forall|i: int| 0 <= i < shs.len() implies elf.section_headers@[i] == #[trigger] shs[i] by {
        lemma_section_header_matches_unique(
            elf.section_headers@[i],
            shs[i],
            elf.data@,
            h.shoff + i * h.shentsize,
            h.shentsize as int,
        );
    }
    assert(elf.section_headers@ =~= shs);
}

} // verus!
