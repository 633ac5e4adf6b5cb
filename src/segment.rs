//! Segment commands and the walker over an image's load-command list.

use vstd::prelude::*;

use crate::header::MachType;
use crate::layout::{c_str, le_u32, le_u64, name_at, read_u32, read_u64, LC_SEGMENT, LC_SEGMENT_64};
use crate::section::{section_records, RecordView, SectionIter};

verus! {

/// The name of the segment command `v`.
pub open spec fn segment_name(v: RecordView) -> Seq<u8> {
    c_str(v.1.subrange(8, 24))
}

/// The stated (as linked) virtual address of the segment command `v`.
pub open spec fn segment_address(v: RecordView) -> u64 {
    match v.0 {
        MachType::Mach32 => le_u32(v.1, 24) as u64,
        MachType::Mach64 => le_u64(v.1, 24),
    }
}

/// The byte length of the segment command `v`'s mapping.
pub open spec fn segment_length(v: RecordView) -> u64 {
    match v.0 {
        MachType::Mach32 => le_u32(v.1, 28) as u64,
        MachType::Mach64 => le_u64(v.1, 32),
    }
}

/// The number of section records that the segment command `v` declares.
pub open spec fn segment_section_count(v: RecordView) -> u32 {
    match v.0 {
        MachType::Mach32 => le_u32(v.1, 48),
        MachType::Mach64 => le_u32(v.1, 64),
    }
}

/// The sections of the segment command `v`: the records that follow it,
/// as many as it declares, up to the first that does not fit.
pub open spec fn segment_sections(v: RecordView) -> Seq<RecordView> {
    section_records(
        v.0,
        v.1,
        v.0.spec_segment_command_size(),
        segment_section_count(v) as int,
    )
}

/// The segments declared by at most `count` load commands starting at `off`
/// in `data`. Each segment's view runs from its command to the end of
/// `data`. The walk ends early at a command that does not fit, at a
/// segment command too short for its record, or at a command whose size
/// leads past the end of `data`.
pub open spec fn segment_records(data: Seq<u8>, off: int, count: int) -> Seq<RecordView>
    decreases count,
{
    if count <= 0 || off < 0 || off + 8 > data.len() {
        Seq::empty()
    } else {
        let cmd = le_u32(data, off);
        let size = le_u32(data, off + 4) as int;
        let rest = if off + size <= data.len() {
            segment_records(data, off + size, count - 1)
        } else {
            Seq::empty()
        };
        if cmd == LC_SEGMENT {
            if off + 56 <= data.len() {
                seq![(MachType::Mach32, data.subrange(off, data.len() as int))] + rest
            } else {
                Seq::empty()
            }
        } else if cmd == LC_SEGMENT_64 {
            if off + 72 <= data.len() {
                seq![(MachType::Mach64, data.subrange(off, data.len() as int))] + rest
            } else {
                Seq::empty()
            }
        } else {
            rest
        }
    }
}

/// A Mach-O segment: a view that starts at its segment command and runs to
/// the end of the image's load commands.
#[derive(Debug)]
pub enum Segment<'a> {
    /// A 32-bit Mach-O segment.
    Segment32(&'a [u8]),
    /// A 64-bit Mach-O segment.
    Segment64(&'a [u8]),
}

impl<'a> View for Segment<'a> {
    type V = RecordView;

    open spec fn view(&self) -> RecordView {
        match self {
            Segment::Segment32(b) => (MachType::Mach32, b@),
            Segment::Segment64(b) => (MachType::Mach64, b@),
        }
    }
}

impl<'a> Segment<'a> {
    /// The view holds at least one whole segment command of its width.
    pub open spec fn wf(&self) -> bool {
        self@.1.len() >= self@.0.spec_segment_command_size()
    }

    /// The segment's name, up to its first NUL.
    pub fn name(&self) -> (r: &'a [u8])
        requires
            self.wf(),
        ensures
            r@ == segment_name(self@),
    {
        match self {
            Segment::Segment32(b) => name_at(b, 8),
            Segment::Segment64(b) => name_at(b, 8),
        }
    }

    /// The segment's stated virtual memory address, not adjusted by the load bias.
    pub fn stated_virtual_memory_address(&self) -> (r: u64)
        requires
            self.wf(),
        ensures
            r == segment_address(self@),
    {
        match self {
            Segment::Segment32(b) => read_u32(b, 24) as u64,
            Segment::Segment64(b) => read_u64(b, 24),
        }
    }

    /// The length in bytes of the segment's mapping.
    pub fn len(&self) -> (r: u64)
        requires
            self.wf(),
        ensures
            r == segment_length(self@),
    {
        match self {
            Segment::Segment32(b) => read_u32(b, 28) as u64,
            Segment::Segment64(b) => read_u64(b, 32),
        }
    }

    /// The number of section records that the segment declares.
    pub fn section_count(&self) -> (r: u32)
        requires
            self.wf(),
        ensures
            r == segment_section_count(self@),
    {
        match self {
            Segment::Segment32(b) => read_u32(b, 48),
            Segment::Segment64(b) => read_u32(b, 64),
        }
    }

    /// An iterator over the section records that follow the segment command.
    pub fn sections(&self) -> (r: SectionIter<'a>)
        requires
            self.wf(),
        ensures
            r@ == segment_sections(self@),
    {
        let count = self.section_count() as usize;
        match self {
            Segment::Segment32(b) => SectionIter::new(b, 56, count, MachType::Mach32),
            Segment::Segment64(b) => SectionIter::new(b, 72, count, MachType::Mach64),
        }
    }
}

/// An iterator over the segments that an image's load commands declare.
#[derive(Debug)]
pub struct SegmentIter<'a> {
    data: &'a [u8],
    offset: usize,
    remaining: usize,
}

impl<'a> View for SegmentIter<'a> {
    type V = Seq<RecordView>;

    /// The segments that are still to come.
    closed spec fn view(&self) -> Seq<RecordView> {
        segment_records(self.data@, self.offset as int, self.remaining as int)
    }
}

impl<'a> SegmentIter<'a> {
    /// An iterator over the segments declared by at most `count` load
    /// commands starting at `offset` in `data`.
    pub fn new(data: &'a [u8], offset: usize, count: usize) -> (r: SegmentIter<'a>)
        ensures
            r@ == segment_records(data@, offset as int, count as int),
    {
        SegmentIter { data, offset, remaining: count }
    }

    /// Yields the next segment, skipping load commands of other kinds, or
    /// `None` once the commands are exhausted.
    pub fn next(&mut self) -> (r: Option<Segment<'a>>)
        ensures
            old(self)@.len() == 0 ==> r is None && final(self)@.len() == 0,
            old(self)@.len() > 0 ==> r is Some && r->0@ == old(self)@[0] && r->0.wf()
                && final(self)@ == old(self)@.drop_first(),
    {
        let ghost start = self@;
        let n = self.data.len();
        loop
            invariant
                self@ == start,
                start == old(self)@,
                n == self.data@.len(),
            decreases self.remaining,
        {
            if self.remaining == 0 || self.offset > n || 8 > n - self.offset {
                self.remaining = 0;
                return None;
            }
            let here = self.offset;
            let cmd = read_u32(self.data, here);
            let size = read_u32(self.data, here + 4) as usize;
            self.remaining = self.remaining - 1;
            if size <= n - here {
                self.offset = here + size;
            } else {
                self.remaining = 0;
            }
            if cmd == LC_SEGMENT {
                if 56 > n - here {
                    self.remaining = 0;
                    return None;
                }
                return Some(Segment::Segment32(&self.data[here..n]));
            } else if cmd == LC_SEGMENT_64 {
                if 72 > n - here {
                    self.remaining = 0;
                    return None;
                }
                return Some(Segment::Segment64(&self.data[here..n]));
            }
        }
    }
}

} // verus!
