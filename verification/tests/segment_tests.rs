use elf32::errors::{ElfError, Stage};
use elf32::image::Elf;

fn push_u16(buf: &mut Vec<u8>, v: u16) {
    buf.push((v & 0xff) as u8);
    buf.push((v >> 8) as u8);
}

fn push_u32(buf: &mut Vec<u8>, v: u32) {
    buf.push((v & 0xff) as u8);
    buf.push(((v >> 8) & 0xff) as u8);
    buf.push(((v >> 16) & 0xff) as u8);
    buf.push(((v >> 24) & 0xff) as u8);
}

/// An image with `segments.len()` program headers at offset 52, each
/// pointing at its own payload laid out after the table.
fn image_with_segments(segments: &[&[u8]]) -> Vec<u8> {
    let phnum = segments.len() as u16;
    let mut buf: Vec<u8> = Vec::new();
    buf.extend_from_slice(&[0x7f, b'E', b'L', b'F', 1, 1, 1, 0, 0, 0, 0, 0, 0, 0, 0, 0]);
    push_u16(&mut buf, 2);
    push_u16(&mut buf, 3);
    push_u32(&mut buf, 1);
    push_u32(&mut buf, 0);
    push_u32(&mut buf, 52); // phoff
    push_u32(&mut buf, 0); // shoff
    push_u32(&mut buf, 0);
    push_u16(&mut buf, 52);
    push_u16(&mut buf, 32);
    push_u16(&mut buf, phnum);
    push_u16(&mut buf, 40);
    push_u16(&mut buf, 0); // shnum
    push_u16(&mut buf, 0);
    let mut payload_offset = 52 + 32 * segments.len() as u32;
    for seg in segments {
        push_u32(&mut buf, 1); // typ
        push_u32(&mut buf, payload_offset);
        push_u32(&mut buf, 0);
        push_u32(&mut buf, 0);
        push_u32(&mut buf, seg.len() as u32); // filesz
        push_u32(&mut buf, seg.len() as u32); // memsz
        push_u32(&mut buf, 5);
        push_u32(&mut buf, 4);
        payload_offset += seg.len() as u32;
    }
    for seg in segments {
        buf.extend_from_slice(seg);
    }
    buf
}

#[test]
fn extraction_returns_exactly_filesz_bytes_at_offset() {
    let first: &[u8] = &[1, 2, 3, 4, 5, 6, 7];
    let second: &[u8] = &[0xaa, 0xbb, 0xcc];
    let buf = image_with_segments(&[first, second]);
    let elf = Elf::load_buffer(buf).unwrap();
    let bytes0 = elf.read_program_bytes(0).unwrap();
    assert_eq!(bytes0.len(), elf.program_headers[0].filesz as usize);
    assert_eq!(bytes0, first.to_vec());
    let bytes1 = elf.read_program_bytes(1).unwrap();
    assert_eq!(bytes1, second.to_vec());
}

#[test]
fn extraction_at_the_table_length_is_out_of_range() {
    let first: &[u8] = &[9, 9];
    let second: &[u8] = &[8];
    let buf = image_with_segments(&[first, second]);
    let elf = Elf::load_buffer(buf).unwrap();
    assert_eq!(elf.read_program_bytes(2).unwrap_err(), ElfError::IndexOutOfRange);
}

#[test]
fn index_five_against_two_entries_is_out_of_range() {
    let first: &[u8] = &[1];
    let second: &[u8] = &[2];
    let buf = image_with_segments(&[first, second]);
    let elf = Elf::load_buffer(buf).unwrap();
    assert_eq!(elf.read_program_bytes(5).unwrap_err(), ElfError::IndexOutOfRange);
}

#[test]
fn segment_past_the_end_is_a_truncation_error() {
    let payload: &[u8] = &[1, 2, 3, 4];
    let mut buf = image_with_segments(&[payload]);
    // Drop the payload's last byte: filesz now reaches past the end.
    buf.pop();
    let elf = Elf::load_buffer(buf).unwrap();
    assert_eq!(
        elf.read_program_bytes(0).unwrap_err(),
        ElfError::TruncatedRecord(Stage::SegmentData)
    );
}

#[test]
fn empty_segment_extracts_as_empty() {
    let empty: &[u8] = &[];
    let buf = image_with_segments(&[empty]);
    let elf = Elf::load_buffer(buf).unwrap();
    assert_eq!(elf.read_program_bytes(0).unwrap(), Vec::<u8>::new());
}

#[test]
fn extraction_leaves_the_parsed_image_unchanged() {
    let payload: &[u8] = &[7; 16];
    let buf = image_with_segments(&[payload]);
    let elf = Elf::load_buffer(buf.clone()).unwrap();
    let before = elf.program_headers.clone();
    let _ = elf.read_program_bytes(0).unwrap();
    assert_eq!(elf.program_headers, before);
    assert_eq!(elf.data, buf);
}

#[test]
fn stage_describe_names_each_stage() {
    assert_eq!(Stage::FileHeader.describe(), "file header");
    assert_eq!(Stage::ProgramHeaderTable.describe(), "program header table");
    assert_eq!(Stage::SectionHeaderTable.describe(), "section header table");
    assert_eq!(Stage::SegmentData.describe(), "segment data");
}
