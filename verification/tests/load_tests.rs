use elf32::errors::{ElfError, Stage};
use elf32::headers::{ElfHeader, ProgramHeader, SectionHeader};
use elf32::image::Elf;

fn push_u16(buf: &mut Vec<u8>, v: u16) {
    buf.push((v & 0xff) as u8);
    buf.push((v >> 8) as u8);
}

fn push_u32(buf: &mut Vec<u8>, v: u32) {
    buf.push((v & 0xff) as u8);
    buf.push(((v >> 8) & 0xff) as u8);
    buf.push(((v >> 16) & 0xff) as u8);
    buf.push(((v >> 24) & 0xff) as u8);
}

/// The 52 header bytes of a little-endian ELF32 file header.
fn header_bytes(
    phoff: u32,
    phentsize: u16,
    phnum: u16,
    shoff: u32,
    shentsize: u16,
    shnum: u16,
) -> Vec<u8> {
    let mut buf: Vec<u8> = Vec::new();
    let ident: [u8; 16] = [
        0x7f, b'E', b'L', b'F', 1, 1, 1, 0, 0, 0, 0, 0, 0, 0, 0, 0,
    ];
    buf.extend_from_slice(&ident);
    push_u16(&mut buf, 2); // typ: executable
    push_u16(&mut buf, 3); // machine
    push_u32(&mut buf, 1); // version
    push_u32(&mut buf, 0x8048000); // entry
    push_u32(&mut buf, phoff);
    push_u32(&mut buf, shoff);
    push_u32(&mut buf, 0x1234_5678); // flags
    push_u16(&mut buf, 52); // ehsize
    push_u16(&mut buf, phentsize);
    push_u16(&mut buf, phnum);
    push_u16(&mut buf, shentsize);
    push_u16(&mut buf, shnum);
    push_u16(&mut buf, 1); // shstrndx
    assert_eq!(buf.len(), 52);
    buf
}

fn push_program_header(buf: &mut Vec<u8>, ph: &ProgramHeader) {
    push_u32(buf, ph.typ);
    push_u32(buf, ph.offset);
    push_u32(buf, ph.vaddr);
    push_u32(buf, ph.paddr);
    push_u32(buf, ph.filesz);
    push_u32(buf, ph.memsz);
    push_u32(buf, ph.flags);
    push_u32(buf, ph.align);
}

fn push_section_header(buf: &mut Vec<u8>, sh: &SectionHeader) {
    buf.extend_from_slice(&sh.name);
    push_u32(buf, sh.typ);
    push_u32(buf, sh.flags);
    push_u32(buf, sh.addr);
    push_u32(buf, sh.offset);
    push_u32(buf, sh.size);
    push_u32(buf, sh.link);
    push_u32(buf, sh.info);
    push_u32(buf, sh.addralign);
    push_u32(buf, sh.entsize);
}

fn sample_program_header(k: u32) -> ProgramHeader {
    ProgramHeader {
        typ: 1 + k,
        offset: 0x100 * (k + 1),
        vaddr: 0x8048000 + 0x1000 * k,
        paddr: 0x8048000 + 0x1000 * k,
        filesz: 0x20 + k,
        memsz: 0x40 + k,
        flags: 5,
        align: 0x1000,
    }
}

fn sample_section_header(k: u32) -> SectionHeader {
    SectionHeader {
        name: [k as u8, 0, 0, 0],
        typ: 1 + k,
        flags: 6,
        addr: 0x8048000 + k,
        offset: 0x200 + k,
        size: 0x30 + k,
        link: k,
        info: 2 * k,
        addralign: 4,
        entsize: 0,
    }
}

/// A complete image: header, then `phnum` program headers at offset 52,
/// then `shnum` section headers right after them.
fn sample_image(phnum: u16, shnum: u16) -> Vec<u8> {
    let shoff = 52 + 32 * phnum as u32;
    let mut buf = header_bytes(52, 32, phnum, shoff, 40, shnum);
    for k in 0..phnum as u32 {
        push_program_header(&mut buf, &sample_program_header(k));
    }
    for k in 0..shnum as u32 {
        push_section_header(&mut buf, &sample_section_header(k));
    }
    buf
}

#[test]
fn parses_declared_count_of_program_headers() {
    let buf = sample_image(3, 0);
    let elf = Elf::load_buffer(buf).unwrap();
    assert_eq!(elf.program_headers.len(), 3);
    for k in 0..3u32 {
        assert_eq!(elf.program_headers[k as usize], sample_program_header(k));
    }
}

#[test]
fn parses_declared_count_of_section_headers() {
    let buf = sample_image(1, 2);
    let elf = Elf::load_buffer(buf).unwrap();
    assert_eq!(elf.section_headers.len(), 2);
    for k in 0..2u32 {
        assert_eq!(elf.section_headers[k as usize], sample_section_header(k));
    }
}

#[test]
fn header_fields_round_trip_through_a_buffer() {
    let buf = header_bytes(0xdead_beef, 32, 7, 0xcafe_f00d, 40, 9);
    // Tables that start past the end are tolerated when they are empty,
    // so parse the header alone.
    let h = ElfHeader::read_elf_header(&buf).unwrap();
    assert_eq!(
        h.ident,
        [0x7f, b'E', b'L', b'F', 1, 1, 1, 0, 0, 0, 0, 0, 0, 0, 0, 0]
    );
    assert_eq!(h.typ, 2);
    assert_eq!(h.machine, 3);
    assert_eq!(h.version, 1);
    assert_eq!(h.entry, 0x8048000);
    assert_eq!(h.phoff, 0xdead_beef);
    assert_eq!(h.shoff, 0xcafe_f00d);
    assert_eq!(h.flags, 0x1234_5678);
    assert_eq!(h.ehsize, 52);
    assert_eq!(h.phentsize, 32);
    assert_eq!(h.phnum, 7);
    assert_eq!(h.shentsize, 40);
    assert_eq!(h.shnum, 9);
    assert_eq!(h.shstrndx, 1);
}

#[test]
fn image_round_trip_reproduces_every_field() {
    let buf = sample_image(2, 2);
    let elf = Elf::load_buffer(buf.clone()).unwrap();
    assert_eq!(elf.data, buf);
    assert_eq!(elf.elf_header.phoff, 52);
    assert_eq!(elf.elf_header.phnum, 2);
    assert_eq!(elf.elf_header.shoff, 52 + 64);
    assert_eq!(elf.elf_header.shnum, 2);
    assert_eq!(elf.program_headers[0], sample_program_header(0));
    assert_eq!(elf.program_headers[1], sample_program_header(1));
    assert_eq!(elf.section_headers[0], sample_section_header(0));
    assert_eq!(elf.section_headers[1], sample_section_header(1));
}

#[test]
fn twenty_byte_file_fails_with_truncated_header() {
    let buf: Vec<u8> = vec![0x7f; 20];
    let r = Elf::load_buffer(buf);
    assert_eq!(r.unwrap_err(), ElfError::TruncatedRecord(Stage::FileHeader));
}

#[test]
fn empty_file_fails_with_truncated_header() {
    let r = Elf::load_buffer(Vec::new());
    assert_eq!(r.unwrap_err(), ElfError::TruncatedRecord(Stage::FileHeader));
}

#[test]
fn fifty_one_bytes_fail_and_fifty_two_suffice() {
    let buf = header_bytes(0, 0, 0, 0, 0, 0);
    let mut short = buf.clone();
    short.pop();
    assert_eq!(
        Elf::load_buffer(short).unwrap_err(),
        ElfError::TruncatedRecord(Stage::FileHeader)
    );
    let elf = Elf::load_buffer(buf).unwrap();
    assert_eq!(elf.program_headers.len(), 0);
    assert_eq!(elf.section_headers.len(), 0);
}

#[test]
fn three_headers_at_phoff_52_succeed_over_a_long_enough_file() {
    // phnum = 3, phoff = 52, phentsize = 32, length >= 52 + 3 * 32.
    let buf = sample_image(3, 0);
    assert!(buf.len() >= 52 + 3 * 32);
    let elf = Elf::load_buffer(buf).unwrap();
    assert_eq!(elf.program_headers.len(), 3);
}

#[test]
fn program_table_past_the_end_is_a_truncation_error() {
    // Declares 3 records of 32 bytes at offset 52 over a 52-byte file.
    let buf = header_bytes(52, 32, 3, 0, 0, 0);
    assert_eq!(
        Elf::load_buffer(buf).unwrap_err(),
        ElfError::TruncatedRecord(Stage::ProgramHeaderTable)
    );
}

#[test]
fn section_table_past_the_end_is_a_truncation_error() {
    let buf = header_bytes(0, 0, 0, 52, 40, 1);
    assert_eq!(
        Elf::load_buffer(buf).unwrap_err(),
        ElfError::TruncatedRecord(Stage::SectionHeaderTable)
    );
}

#[test]
fn empty_tables_tolerate_offsets_past_the_end() {
    // phnum = shnum = 0: no record is read, whatever the offsets say.
    let buf = header_bytes(0xffff_ffff, 32, 0, 0xffff_ffff, 40, 0);
    let elf = Elf::load_buffer(buf).unwrap();
    assert_eq!(elf.program_headers.len(), 0);
    assert_eq!(elf.section_headers.len(), 0);
}

#[test]
fn zero_entsize_yields_zero_filled_records() {
    // phentsize = 0: each of the 2 records consumes no bytes and reads as zero.
    let buf = header_bytes(52, 0, 2, 0, 0, 0);
    let elf = Elf::load_buffer(buf).unwrap();
    assert_eq!(elf.program_headers.len(), 2);
    let zero = ProgramHeader {
        typ: 0,
        offset: 0,
        vaddr: 0,
        paddr: 0,
        filesz: 0,
        memsz: 0,
        flags: 0,
        align: 0,
    };
    assert_eq!(elf.program_headers[0], zero);
    assert_eq!(elf.program_headers[1], zero);
}

#[test]
fn short_entsize_zero_fills_the_trailing_fields() {
    // phentsize = 8: only `typ` and `offset` come from the file.
    let mut buf = header_bytes(52, 8, 2, 0, 0, 0);
    push_u32(&mut buf, 11);
    push_u32(&mut buf, 0x100);
    push_u32(&mut buf, 22);
    push_u32(&mut buf, 0x200);
    let elf = Elf::load_buffer(buf).unwrap();
    assert_eq!(elf.program_headers.len(), 2);
    assert_eq!(elf.program_headers[0].typ, 11);
    assert_eq!(elf.program_headers[0].offset, 0x100);
    assert_eq!(elf.program_headers[0].vaddr, 0);
    assert_eq!(elf.program_headers[0].filesz, 0);
    assert_eq!(elf.program_headers[1].typ, 22);
    assert_eq!(elf.program_headers[1].offset, 0x200);
    assert_eq!(elf.program_headers[1].align, 0);
}

#[test]
fn long_entsize_skips_the_surplus_bytes() {
    // phentsize = 36: each record carries 4 surplus bytes that are ignored.
    let mut buf = header_bytes(52, 36, 2, 0, 0, 0);
    for k in 0..2u32 {
        push_program_header(&mut buf, &sample_program_header(k));
        push_u32(&mut buf, 0xffff_ffff);
    }
    let elf = Elf::load_buffer(buf).unwrap();
    assert_eq!(elf.program_headers.len(), 2);
    assert_eq!(elf.program_headers[0], sample_program_header(0));
    assert_eq!(elf.program_headers[1], sample_program_header(1));
}
