//! One loaded image: its header, load bias and path name, with the walks
//! over its segments and sections and the lookup of its unwind metadata.

use vstd::prelude::*;

use crate::header::MachType;
use crate::layout::{bytes_eq, le_u32, read_u32};
use crate::section::{
    section_address, section_length, section_name, RecordView, Section, SectionIter,
};
use crate::section::section_records;
use crate::segment::{segment_records, segment_section_count, segment_sections, SegmentIter};

verus! {

/// The sections of each of `segs`, in order, as one sequence.
pub open spec fn flat_sections(segs: Seq<RecordView>) -> Seq<RecordView>
    decreases segs.len(),
{
    if segs.len() == 0 {
        Seq::empty()
    } else {
        segment_sections(segs[0]) + flat_sections(segs.drop_first())
    }
}

/// The first of `secs` whose name is `name`.
pub open spec fn first_named(secs: Seq<RecordView>, name: Seq<u8>) -> Option<RecordView>
    decreases secs.len(),
{
    if secs.len() == 0 {
        None
    } else if section_name(secs[0]) == name {
        Some(secs[0])
    } else {
        first_named(secs.drop_first(), name)
    }
}

/// The name of the section that holds the unwind tables.
pub open spec fn eh_frame_name() -> Seq<u8> {
    seq![95u8, 95, 101, 104, 95, 102, 114, 97, 109, 101]
}

/// The name of the section that holds the unwind tables' search header.
pub open spec fn eh_frame_hdr_name() -> Seq<u8> {
    eh_frame_name() + seq![95u8, 104, 100, 114]
}

/// The number of sections that the segments `segs` hold, each counted on its own.
pub open spec fn sections_per_segment(segs: Seq<RecordView>) -> int
    decreases segs.len(),
{
    if segs.len() == 0 {
        0
    } else {
        segment_sections(segs[0]).len() + sections_per_segment(segs.drop_first())
    }
}

/// The number of sections that the segments `segs` declare.
pub open spec fn declared_sections(segs: Seq<RecordView>) -> int
    decreases segs.len(),
{
    if segs.len() == 0 {
        0
    } else {
        segment_section_count(segs[0]) + declared_sections(segs.drop_first())
    }
}

/// Some section of some segment of `segs` is named `name`.
pub open spec fn nested_has_name(segs: Seq<RecordView>, name: Seq<u8>) -> bool {
    exists|j: int, k: int|
        0 <= j < segs.len() && 0 <= k < segment_sections(segs[j]).len() && section_name(
            #[trigger] segment_sections(segs[j])[k],
        ) == name
}

/// `first_named` finds a section exactly when one of them has the name.
pub proof fn lemma_first_named_exists(secs: Seq<RecordView>, name: Seq<u8>)
    ensures
        first_named(secs, name) is Some <==> exists|i: int|
            0 <= i < secs.len() && section_name(#[trigger] secs[i]) == name,
    decreases secs.len(),
{
    if secs.len() > 0 {
        lemma_first_named_exists(secs.drop_first(), name);
        if section_name(secs[0]) != name {
            if exists|i: int| 0 <= i < secs.len() && section_name(#[trigger] secs[i]) == name {
                let i = choose|i: int| 0 <= i < secs.len() && section_name(#[trigger] secs[i]) == name;
                assert(secs.drop_first()[i - 1] == secs[i]);
            }
            if exists|i: int| 0 <= i < secs.len() - 1 && section_name(#[trigger] secs.drop_first()[i]) == name {
                let i = choose|i: int| 0 <= i < secs.len() - 1 && section_name(#[trigger] secs.drop_first()[i]) == name;
                assert(secs[i + 1] == secs.drop_first()[i]);
            }
        }
    }
}

/// A section named `name` is in the flat sequence of `segs` exactly when a
/// walk over each segment's own sections finds one.
pub proof fn lemma_flat_has_name(segs: Seq<RecordView>, name: Seq<u8>)
    ensures
        (exists|i: int|
            0 <= i < flat_sections(segs).len() && section_name(#[trigger] flat_sections(segs)[i])
                == name) <==> nested_has_name(segs, name),
    decreases segs.len(),
{
    if segs.len() > 0 {
        let head = segment_sections(segs[0]);
        let tail = segs.drop_first();
        lemma_flat_has_name(tail, name);
        let flat = flat_sections(segs);
        assert(flat == head + flat_sections(tail));
        if exists|i: int| 0 <= i < flat.len() && section_name(#[trigger] flat[i]) == name {
            let i = choose|i: int| 0 <= i < flat.len() && section_name(#[trigger] flat[i]) == name;
            if i < head.len() {
                assert(segment_sections(segs[0])[i] == flat[i]);
            } else {
                assert(flat_sections(tail)[i - head.len()] == flat[i]);
                let (j, k) = choose|j: int, k: int|
                    0 <= j < tail.len() && 0 <= k < segment_sections(tail[j]).len()
                        && section_name(#[trigger] segment_sections(tail[j])[k]) == name;
                assert(tail[j] == segs[j + 1]);
                assert(section_name(segment_sections(segs[j + 1])[k]) == name);
            }
        }
        if nested_has_name(segs, name) {
            let (j, k) = choose|j: int, k: int|
                0 <= j < segs.len() && 0 <= k < segment_sections(segs[j]).len() && section_name(
                    #[trigger] segment_sections(segs[j])[k],
                ) == name;
            if j == 0 {
                assert(flat[k] == head[k]);
            } else {
                assert(segs[j] == tail[j - 1]);
                assert(section_name(segment_sections(tail[j - 1])[k]) == name);
                let i = choose|i: int|
                    0 <= i < flat_sections(tail).len() && section_name(
                        #[trigger] flat_sections(tail)[i],
                    ) == name;
                assert(flat[head.len() + i] == flat_sections(tail)[i]);
            }
        }
    }
}

/// The flat sequence of sections is as long as the per-segment counts added up.
pub proof fn lemma_flat_len(segs: Seq<RecordView>)
    ensures
        flat_sections(segs).len() == sections_per_segment(segs),
    decreases segs.len(),
{
    if segs.len() > 0 {
        lemma_flat_len(segs.drop_first());
    }
}

/// Where a segment's section array fits, it yields as many sections as it declares.
pub proof fn lemma_segment_sections_len(kind: MachType, data: Seq<u8>, start: int, count: int)
    requires
        0 <= start,
        0 <= count,
        start + count * kind.spec_section_size() <= data.len(),
    ensures
        section_records(kind, data, start, count).len() == count,
    decreases count,
{
    if count > 0 {
        assert(start + (count - 1) * kind.spec_section_size() + kind.spec_section_size()
            == start + count * kind.spec_section_size()) by (nonlinear_arith);
        assert((count - 1) * kind.spec_section_size() >= 0) by (nonlinear_arith)
            requires count >= 1, kind.spec_section_size() > 0;
        lemma_segment_sections_len(kind, data, start + kind.spec_section_size(), count - 1);
    }
}

/// The section array that the segment command `v` declares lies within its view.
pub open spec fn sections_fit(v: RecordView) -> bool {
    v.0.spec_segment_command_size() + segment_section_count(v) * v.0.spec_section_size()
        <= v.1.len()
}

/// Where every segment's declared section array lies within the image, the
/// flat sequence holds exactly as many sections as the segments declare.
pub proof fn lemma_flat_len_declared(segs: Seq<RecordView>)
    requires
        forall|j: int| 0 <= j < segs.len() ==> sections_fit(#[trigger] segs[j]),
    ensures
        flat_sections(segs).len() == declared_sections(segs),
    decreases segs.len(),
{
    if segs.len() > 0 {
        assert(sections_fit(segs[0]));
        lemma_segment_sections_len(
            segs[0].0,
            segs[0].1,
            segs[0].0.spec_segment_command_size(),
            segment_section_count(segs[0]) as int,
        );
        assert forall|j: int| 0 <= j < segs.drop_first().len() implies sections_fit(
            #[trigger] segs.drop_first()[j],
        ) by {
            assert(segs.drop_first()[j] == segs[j + 1]);
        }
        lemma_flat_len_declared(segs.drop_first());
    }
}

/// Looking up a section by name over the flat sequence of an image's
/// sections succeeds exactly when a walk over each of its segments' own
/// sections finds a section of that name.
pub proof fn lemma_flat_and_nested_lookup_agree(lib: SharedLibrary, name: Seq<u8>)
    ensures
        first_named(lib.spec_sections(), name) is Some <==> nested_has_name(
            lib.spec_segments(),
            name,
        ),
{
    lemma_first_named_exists(lib.spec_sections(), name);
    lemma_flat_has_name(lib.spec_segments(), name);
}

/// The all-sections walk of an image yields as many sections as its
/// segments yield each on their own; where every segment's section array
/// lies within the image, that is the sum of their declared section counts.
pub proof fn lemma_all_sections_count(lib: SharedLibrary)
    ensures
        lib.spec_sections().len() == sections_per_segment(lib.spec_segments()),
        (forall|j: int|
            0 <= j < lib.spec_segments().len() ==> sections_fit(#[trigger] lib.spec_segments()[j]))
            ==> lib.spec_sections().len() == declared_sections(lib.spec_segments()),
{
    lemma_flat_len(lib.spec_segments());
    if forall|j: int|
        0 <= j < lib.spec_segments().len() ==> sections_fit(#[trigger] lib.spec_segments()[j]) {
        lemma_flat_len_declared(lib.spec_segments());
    }
}

/// A Mach-O header: a view over an image's bytes, from its header to the
/// end of its load commands.
#[derive(Debug)]
pub enum MachHeader<'a> {
    /// A 32-bit image.
    Header32(&'a [u8]),
    /// A 64-bit image.
    Header64(&'a [u8]),
}

impl<'a> MachHeader<'a> {
    /// The image's width.
    pub open spec fn kind(&self) -> MachType {
        match self {
            MachHeader::Header32(_) => MachType::Mach32,
            MachHeader::Header64(_) => MachType::Mach64,
        }
    }

    /// The image's bytes.
    pub open spec fn image(&self) -> Seq<u8> {
        match self {
            MachHeader::Header32(b) => b@,
            MachHeader::Header64(b) => b@,
        }
    }

    /// The view holds a whole header of its width.
    pub open spec fn wf(&self) -> bool {
        self.image().len() >= self.kind().spec_header_size()
    }

    /// The number of load commands that the header declares.
    pub open spec fn spec_command_count(&self) -> u32 {
        le_u32(self.image(), 16)
    }

    /// The segments that the image's load commands declare.
    pub open spec fn spec_segments(&self) -> Seq<RecordView> {
        segment_records(
            self.image(),
            self.kind().spec_header_size(),
            self.spec_command_count() as int,
        )
    }

    /// Classifies the header at the start of `image`: `None` where its magic is
    /// unknown or `image` is too short for the header it announces.
    pub fn from_header_bytes(image: &'a [u8]) -> (r: Option<MachHeader<'a>>)
        ensures
            r is None <==> (MachType::spec_of_image(image@) is None || image@.len()
                < MachType::spec_of_image(image@)->0.spec_header_size()),
            r is Some ==> r->0.wf() && r->0.image() == image@ && Some(r->0.kind())
                == MachType::spec_of_image(image@),
    {
        match MachType::from_header_bytes(image) {
            None => None,
            Some(kind) => {
                if image.len() < kind.header_size() {
                    None
                } else {
                    match kind {
                        MachType::Mach32 => Some(MachHeader::Header32(image)),
                        MachType::Mach64 => Some(MachHeader::Header64(image)),
                    }
                }
            },
        }
    }

    /// An iterator over the segments of the image.
    pub fn segments(&self) -> (r: SegmentIter<'a>)
        requires
            self.wf(),
        ensures
            r@ == self.spec_segments(),
    {
        match self {
            MachHeader::Header32(b) => SegmentIter::new(b, 28, read_u32(b, 16) as usize),
            MachHeader::Header64(b) => SegmentIter::new(b, 32, read_u32(b, 16) as usize),
        }
    }
}

/// The MacOS view of one shared library: its header, the load bias (slide)
/// that the loader applied, and its path name.
#[derive(Debug)]
pub struct SharedLibrary<'a> {
    header: MachHeader<'a>,
    slide: isize,
    name: &'a [u8],
}

impl<'a> SharedLibrary<'a> {
    /// The image's header.
    pub closed spec fn spec_header(&self) -> MachHeader<'a> {
        self.header
    }

    /// The image's load bias.
    pub closed spec fn spec_bias(&self) -> isize {
        self.slide
    }

    /// The image's path name.
    pub closed spec fn spec_name(&self) -> Seq<u8> {
        self.name@
    }

    /// The header is whole.
    pub open spec fn wf(&self) -> bool {
        self.spec_header().wf()
    }

    /// The image's segments.
    pub open spec fn spec_segments(&self) -> Seq<RecordView> {
        self.spec_header().spec_segments()
    }

    /// All sections of all the image's segments, in order.
    pub open spec fn spec_sections(&self) -> Seq<RecordView> {
        flat_sections(self.spec_segments())
    }

    /// A library view over `header`, with load bias `slide` and path name `name`.
    pub fn new(header: MachHeader<'a>, slide: isize, name: &'a [u8]) -> (r: SharedLibrary<'a>)
        ensures
            r.spec_header() == header,
            r.spec_bias() == slide,
            r.spec_name() == name@,
    {
        SharedLibrary { header, slide, name }
    }

    /// The image's path name, without its terminating NUL.
    pub fn name(&self) -> (r: &'a [u8])
        ensures
            r@ == self.spec_name(),
    {
        self.name
    }

    /// The load bias: what to add to a stated address to get the address at
    /// which it is mapped in this process.
    pub fn virtual_memory_bias(&self) -> (r: isize)
        ensures
            r == self.spec_bias(),
    {
        self.slide
    }

    /// Where the stated address `stated` is mapped in this process: `stated`
    /// plus the load bias, or `None` where that falls outside the `u64` range.
    pub fn runtime_address(&self, stated: u64) -> (r: Option<u64>)
        ensures
            r is Some <==> 0 <= stated + self.spec_bias() <= u64::MAX,
            r is Some ==> r->0 == stated + self.spec_bias(),
    {
        let address = stated as i128 + self.slide as i128;
        if address < 0 || address > u64::MAX as i128 {
            None
        } else {
            Some(address as u64)
        }
    }

    /// An iterator over the image's segments.
    pub fn segments(&self) -> (r: SegmentIter<'a>)
        requires
            self.wf(),
        ensures
            r@ == self.spec_segments(),
    {
        self.header.segments()
    }

    /// An iterator over all sections of all the image's segments.
    pub fn sections(&self) -> (r: AllSectionsIter<'a>)
        requires
            self.wf(),
        ensures
            r@ == self.spec_sections(),
    {
        let segments = self.segments();
        let sections = match &self.header {
            MachHeader::Header32(b) => SectionIter::empty(b),
            MachHeader::Header64(b) => SectionIter::empty(b),
        };
        AllSectionsIter { segments, sections }
    }

    /// The first section, over all segments in order, named `name`.
    fn find_section(&self, name: &[u8]) -> (r: Option<Section<'a>>)
        requires
            self.wf(),
        ensures
            r is None ==> first_named(self.spec_sections(), name@) is None,
            r is Some ==> first_named(self.spec_sections(), name@) == Some(r->0@) && r->0.wf(),
    {
        let mut it = self.sections();
        loop
            invariant
                first_named(self.spec_sections(), name@) == first_named(it@, name@),
            decreases it@.len(),
        {
            match it.next() {
                None => {
                    return None;
                },
                Some(s) => {
                    if bytes_eq(s.name(), name) {
                        return Some(s);
                    }
                },
            }
        }
    }

    /// The section that holds the unwind tables' search header, if any.
    pub fn eh_frame_hdr(&self) -> (r: Option<EhFrameHdr<'a>>)
        requires
            self.wf(),
        ensures
            r is None ==> first_named(self.spec_sections(), eh_frame_hdr_name()) is None,
            r is Some ==> first_named(self.spec_sections(), eh_frame_hdr_name()) == Some(
                r->0@,
            ) && r->0.wf(),
    {
        let lit: [u8; 14] = [95, 95, 101, 104, 95, 102, 114, 97, 109, 101, 95, 104, 100, 114];
        assert(lit@ =~= eh_frame_hdr_name());
        match self.find_section(&lit) {
            None => None,
            Some(s) => Some(EhFrameHdr(s)),
        }
    }

    /// The section that holds the unwind tables, if any.
    pub fn eh_frame(&self) -> (r: Option<EhFrame<'a>>)
        requires
            self.wf(),
        ensures
            r is None ==> first_named(self.spec_sections(), eh_frame_name()) is None,
            r is Some ==> first_named(self.spec_sections(), eh_frame_name()) == Some(r->0@)
                && r->0.wf(),
    {
        let lit: [u8; 10] = [95, 95, 101, 104, 95, 102, 114, 97, 109, 101];
        assert(lit@ =~= eh_frame_name());
        match self.find_section(&lit) {
            None => None,
            Some(s) => Some(EhFrame(s)),
        }
    }
}

/// An iterator over all the sections that are in all mapped segments of a
/// Mach-O shared library.
#[derive(Debug)]
pub struct AllSectionsIter<'a> {
    segments: SegmentIter<'a>,
    sections: SectionIter<'a>,
}

impl<'a> View for AllSectionsIter<'a> {
    type V = Seq<RecordView>;

    /// The sections that are still to come.
    closed spec fn view(&self) -> Seq<RecordView> {
        self.sections@ + flat_sections(self.segments@)
    }
}

impl<'a> AllSectionsIter<'a> {
    /// Yields the next section, moving on to the next segment when the
    /// current one has no more, or `None` once all segments are exhausted.
    pub fn next(&mut self) -> (r: Option<Section<'a>>)
        ensures
            old(self)@.len() == 0 ==> r is None && final(self)@.len() == 0,
            old(self)@.len() > 0 ==> r is Some && r->0@ == old(self)@[0] && r->0.wf()
                && final(self)@ == old(self)@.drop_first(),
    {
        if let Some(s) = self.sections.next() {
            return Some(s);
        }
        assert(old(self)@ == flat_sections(self.segments@));
        loop
            invariant
                old(self)@ == flat_sections(self.segments@),
                self.sections@.len() == 0,
            decreases self.segments@.len(),
        {
            match self.segments.next() {
                None => {
                    return None;
                },
                Some(seg) => {
                    self.sections = seg.sections();
                    if let Some(s) = self.sections.next() {
                        return Some(s);
                    }
                },
            }
        }
    }
}

/// The section that holds the unwind tables' search header.
#[derive(Debug)]
pub struct EhFrameHdr<'a>(Section<'a>);

impl<'a> View for EhFrameHdr<'a> {
    type V = RecordView;

    closed spec fn view(&self) -> RecordView {
        self.0@
    }
}

impl<'a> EhFrameHdr<'a> {
    /// The underlying section is one whole record.
    pub open spec fn wf(&self) -> bool {
        self@.1.len() == self@.0.spec_section_size()
    }

    /// The section's name.
    pub fn name(&self) -> (r: &'a [u8])
        requires
            self.wf(),
        ensures
            r@ == section_name(self@),
    {
        self.0.name()
    }

    /// The section's stated virtual memory address.
    pub fn stated_virtual_memory_address(&self) -> (r: u64)
        requires
            self.wf(),
        ensures
            r == section_address(self@),
    {
        self.0.stated_virtual_memory_address()
    }

    /// The section's length in bytes.
    pub fn len(&self) -> (r: u64)
        requires
            self.wf(),
        ensures
            r == section_length(self@),
    {
        self.0.len()
    }
}

/// The section that holds the unwind tables.
#[derive(Debug)]
pub struct EhFrame<'a>(Section<'a>);

impl<'a> View for EhFrame<'a> {
    type V = RecordView;

    closed spec fn view(&self) -> RecordView {
        self.0@
    }
}

impl<'a> EhFrame<'a> {
    /// The underlying section is one whole record.
    pub open spec fn wf(&self) -> bool {
        self@.1.len() == self@.0.spec_section_size()
    }

    /// The section's name.
    pub fn name(&self) -> (r: &'a [u8])
        requires
            self.wf(),
        ensures
            r@ == section_name(self@),
    {
        self.0.name()
    }

    /// The section's stated virtual memory address.
    pub fn stated_virtual_memory_address(&self) -> (r: u64)
        requires
            self.wf(),
        ensures
            r == section_address(self@),
    {
        self.0.stated_virtual_memory_address()
    }

    /// The section's length in bytes.
    pub fn len(&self) -> (r: u64)
        requires
            self.wf(),
        ensures
            r == section_length(self@),
    {
        self.0.len()
    }
}

} // verus!
