//! Walks the Mach-O images that the dynamic loader has mapped into a process:
//! header classification, the load-command list, the section records of each
//! segment, and the lookup of the unwind-metadata sections.
//!
//! Every view borrows the image's bytes; nothing is copied, and stated
//! addresses are never adjusted by the load bias.

pub mod header;
pub mod layout;
pub mod library;
pub mod registry;
pub mod section;
pub mod segment;

pub use header::{image_extent, MachType};
pub use library::{AllSectionsIter, EhFrame, EhFrameHdr, MachHeader, SharedLibrary};
pub use registry::{image_for_slot, Enumeration, IterationControl, SlotError};
pub use section::{Section, SectionIter};
pub use segment::{Segment, SegmentIter};
