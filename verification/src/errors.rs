//! Typed errors for loading an ELF32 image from a byte buffer.

use vstd::prelude::*;

verus! {

/// The stage of loading or extraction at which a failure occurred.
#[derive(Debug, Clone, Copy, PartialEq, Eq, Structural)]
pub enum Stage {
    /// Decoding the 52-byte file header at offset 0.
    FileHeader,
    /// Decoding the program header table.
    ProgramHeaderTable,
    /// Decoding the section header table.
    SectionHeaderTable,
    /// Extracting a program segment's on-disk bytes.
    SegmentData,
}

/// A failure while loading an image or extracting a segment.
#[derive(Debug, Clone, Copy, PartialEq, Eq, Structural)]
pub enum ElfError {
    /// The buffer holds fewer bytes than the records of the named stage demand.
    TruncatedRecord(Stage),
    /// A program-header index at or past the end of the parsed table.
    IndexOutOfRange,
}

impl Stage {
    /// A short name of the stage, for diagnostics.
    pub fn describe(&self) -> (r: &'static str)
        ensures
            self is FileHeader ==> r@ == "file header"@,
            self is ProgramHeaderTable ==> r@ == "program header table"@,
            self is SectionHeaderTable ==> r@ == "section header table"@,
            self is SegmentData ==> r@ == "segment data"@,
    {
        match self {
            Stage::FileHeader => "file header",
            Stage::ProgramHeaderTable => "program header table",
            Stage::SectionHeaderTable => "section header table",
            Stage::SegmentData => "segment data",
        }
    }
}

} // verus!
