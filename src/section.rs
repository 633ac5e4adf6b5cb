//! Section records, the walker over one segment's section array, and the two
//! unwind-metadata views.

use vstd::prelude::*;

use crate::header::MachType;
use crate::layout::{c_str, le_u32, le_u64, name_at, read_u32, read_u64, NAME_LEN};

verus! {

/// What a section or segment view stands for: its width and the bytes it borrows.
pub type RecordView = (MachType, Seq<u8>);

/// The name of the section record `v`.
pub open spec fn section_name(v: RecordView) -> Seq<u8> {
    c_str(v.1.subrange(0, NAME_LEN as int))
}

/// The stated (as linked) virtual address of the section record `v`.
pub open spec fn section_address(v: RecordView) -> u64 {
    match v.0 {
        MachType::Mach32 => le_u32(v.1, 32) as u64,
        MachType::Mach64 => le_u64(v.1, 32),
    }
}

/// The byte length of the section record `v`.
pub open spec fn section_length(v: RecordView) -> u64 {
    match v.0 {
        MachType::Mach32 => le_u32(v.1, 36) as u64,
        MachType::Mach64 => le_u64(v.1, 40),
    }
}

/// The section records of width `kind` that start at `start` in `data`: at
/// most `count` of them, in order, up to the first that does not fit.
pub open spec fn section_records(kind: MachType, data: Seq<u8>, start: int, count: int) -> Seq<
    RecordView,
>
    decreases count,
{
    let size = kind.spec_section_size();
    if count <= 0 || start < 0 || start + size > data.len() {
        Seq::empty()
    } else {
        seq![(kind, data.subrange(start, start + size))] + section_records(
            kind,
            data,
            start + size,
            count - 1,
        )
    }
}

/// A Mach-O section mapped into memory somewhere within a Mach-O segment.
#[derive(Debug)]
pub enum Section<'a> {
    /// A 32-bit section record.
    Section32(&'a [u8]),
    /// A 64-bit section record.
    Section64(&'a [u8]),
}

impl<'a> View for Section<'a> {
    type V = RecordView;

    open spec fn view(&self) -> RecordView {
        match self {
            Section::Section32(b) => (MachType::Mach32, b@),
            Section::Section64(b) => (MachType::Mach64, b@),
        }
    }
}

impl<'a> Section<'a> {
    /// The view borrows exactly one section record of its width.
    pub open spec fn wf(&self) -> bool {
        self@.1.len() == self@.0.spec_section_size()
    }

    /// The section's name, up to its first NUL.
    pub fn name(&self) -> (r: &'a [u8])
        requires
            self.wf(),
        ensures
            r@ == section_name(self@),
    {
        match self {
            Section::Section32(b) => name_at(b, 0),
            Section::Section64(b) => name_at(b, 0),
        }
    }

    /// The section's stated virtual memory address, not adjusted by the load bias.
    pub fn stated_virtual_memory_address(&self) -> (r: u64)
        requires
            self.wf(),
        ensures
            r == section_address(self@),
    {
        match self {
            Section::Section32(b) => read_u32(b, 32) as u64,
            Section::Section64(b) => read_u64(b, 32),
        }
    }

    /// The section's length in bytes.
    pub fn len(&self) -> (r: u64)
        requires
            self.wf(),
        ensures
            r == section_length(self@),
    {
        match self {
            Section::Section32(b) => read_u32(b, 36) as u64,
            Section::Section64(b) => read_u64(b, 40),
        }
    }
}

/// An iterator over the section records that follow one segment command.
#[derive(Debug)]
pub struct SectionIter<'a> {
    data: &'a [u8],
    offset: usize,
    remaining: usize,
    kind: MachType,
}

impl<'a> View for SectionIter<'a> {
    type V = Seq<RecordView>;

    /// The sections that are still to come.
    closed spec fn view(&self) -> Seq<RecordView> {
        section_records(self.kind, self.data@, self.offset as int, self.remaining as int)
    }
}

impl<'a> SectionIter<'a> {
    /// An iterator over at most `count` records of width `kind` starting at
    /// `offset` in `data`.
    pub fn new(data: &'a [u8], offset: usize, count: usize, kind: MachType) -> (r: SectionIter<'a>)
        ensures
            r@ == section_records(kind, data@, offset as int, count as int),
    {
        SectionIter { data, offset, remaining: count, kind }
    }

    /// An iterator that yields nothing.
    pub fn empty(data: &'a [u8]) -> (r: SectionIter<'a>)
        ensures
            r@.len() == 0,
    {
        SectionIter { data, offset: 0, remaining: 0, kind: MachType::Mach32 }
    }

    /// Yields the next section record, or `None` once they are exhausted.
    pub fn next(&mut self) -> (r: Option<Section<'a>>)
        ensures
            old(self)@.len() == 0 ==> r is None && final(self)@.len() == 0,
            old(self)@.len() > 0 ==> r is Some && r->0@ == old(self)@[0] && r->0.wf()
                && final(self)@ == old(self)@.drop_first(),
    {
        let size = self.kind.section_size();
        if self.remaining == 0 || self.offset > self.data.len() || size > self.data.len()
            - self.offset {
            self.remaining = 0;
            return None;
        }
        let rec = &self.data[self.offset..self.offset + size];
        self.offset = self.offset + size;
        self.remaining = self.remaining - 1;
        match self.kind {
            MachType::Mach32 => Some(Section::Section32(rec)),
            MachType::Mach64 => Some(Section::Section64(rec)),
        }
    }
}

} // verus!
