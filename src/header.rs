//! Classification of an image's header by its magic value.

use vstd::prelude::*;

use crate::layout::{le_u32, read_u32, MH_MAGIC, MH_MAGIC_64};

verus! {

/// Word width of a Mach-O structure: selects the field widths of headers,
/// segment commands and section records.
#[derive(Debug, Clone, Copy, PartialEq, Eq, Structural)]
pub enum MachType {
    /// 32-bit structures.
    Mach32,
    /// 64-bit structures.
    Mach64,
}

impl MachType {
    /// Size in bytes of a Mach-O header of this width.
    pub open spec fn spec_header_size(self) -> int {
        match self {
            MachType::Mach32 => 28,
            MachType::Mach64 => 32,
        }
    }

    /// Size in bytes of a segment command record of this width.
    pub open spec fn spec_segment_command_size(self) -> int {
        match self {
            MachType::Mach32 => 56,
            MachType::Mach64 => 72,
        }
    }

    /// Size in bytes of a section record of this width.
    pub open spec fn spec_section_size(self) -> int {
        match self {
            MachType::Mach32 => 68,
            MachType::Mach64 => 80,
        }
    }

    /// Size in bytes of a Mach-O header of this width.
    pub fn header_size(&self) -> (r: usize)
        ensures
            r == self.spec_header_size(),
    {
        match self {
            MachType::Mach32 => 28,
            MachType::Mach64 => 32,
        }
    }

    /// Size in bytes of a segment command record of this width.
    pub fn segment_command_size(&self) -> (r: usize)
        ensures
            r == self.spec_segment_command_size(),
    {
        match self {
            MachType::Mach32 => 56,
            MachType::Mach64 => 72,
        }
    }

    /// Size in bytes of a section record of this width.
    pub fn section_size(&self) -> (r: usize)
        ensures
            r == self.spec_section_size(),
    {
        match self {
            MachType::Mach32 => 68,
            MachType::Mach64 => 80,
        }
    }

    /// The width that a header magic selects, if it is one of the two known ones.
    pub open spec fn spec_from_magic(magic: u32) -> Option<MachType> {
        if magic == MH_MAGIC {
            Some(MachType::Mach32)
        } else if magic == MH_MAGIC_64 {
            Some(MachType::Mach64)
        } else {
            None
        }
    }

    /// Classifies a header magic value.
    pub fn from_magic(magic: u32) -> (r: Option<MachType>)
        ensures
            r == Self::spec_from_magic(magic),
    {
        if magic == MH_MAGIC {
            Some(MachType::Mach32)
        } else if magic == MH_MAGIC_64 {
            Some(MachType::Mach64)
        } else {
            None
        }
    }

    /// The width of the image whose bytes are `image`: `None` where they are
    /// too short to hold a magic or the magic is unknown.
    pub open spec fn spec_of_image(image: Seq<u8>) -> Option<MachType> {
        if image.len() < 4 {
            None
        } else {
            Self::spec_from_magic(le_u32(image, 0))
        }
    }

    /// Classifies the header at the start of `image`.
    pub fn from_header_bytes(image: &[u8]) -> (r: Option<MachType>)
        ensures
            r == Self::spec_of_image(image@),
    {
        if image.len() < 4 {
            None
        } else {
            Self::from_magic(read_u32(image, 0))
        }
    }
}

/// The image bytes start with a header of a known width, whole.
pub open spec fn recognized(image: Seq<u8>) -> bool {
    MachType::spec_of_image(image) is Some && image.len() >= MachType::spec_of_image(
        image,
    )->0.spec_header_size()
}

/// The byte length of the image whose header starts `prefix`: the header
/// and the load commands that follow it.
pub open spec fn spec_image_extent(prefix: Seq<u8>) -> int {
    MachType::spec_of_image(prefix)->0.spec_header_size() + le_u32(prefix, 20) as int
}

/// The byte length of the image whose header starts `prefix`, or `None`
/// where the header is not recognized or the length does not fit a `usize`.
pub fn image_extent(prefix: &[u8]) -> (r: Option<usize>)
    ensures
        r is Some <==> recognized(prefix@) && spec_image_extent(prefix@) <= usize::MAX,
        r is Some ==> r->0 == spec_image_extent(prefix@),
{
    match MachType::from_header_bytes(prefix) {
        None => None,
        Some(kind) => {
            let header = kind.header_size();
            if prefix.len() < header {
                return None;
            }
            let commands = read_u32(prefix, 20) as usize;
            if commands > usize::MAX - header {
                None
            } else {
                Some(header + commands)
            }
        },
    }
}

} // verus!
