//! The decisions of one enumeration pass over the loader's image table:
//! what each table slot yields, and when the pass ends. Reading the table and
//! holding the loader lock are left to the caller.

use vstd::prelude::*;

use crate::header::{recognized, MachType};
use crate::library::{MachHeader, SharedLibrary};

verus! {

/// What a callback answers after seeing one image.
#[derive(Debug, Clone, Copy, PartialEq, Eq, Structural)]
pub enum IterationControl {
    /// Stop the enumeration.
    Break,
    /// Go on to the next image.
    Continue,
}

/// An inconsistent loader table: a slot holds a recognized header but not
/// the rest of what the loader owes for it.
#[derive(Debug, Clone, Copy, PartialEq, Eq, Structural)]
pub enum SlotError {
    /// The slot's load bias is zero.
    ZeroSlide,
    /// The slot has no path name.
    MissingName,
}

/// What one slot of the loader's table yields: `Ok(None)` for a header that
/// is not recognized (the slot is skipped), an error for a recognized header
/// whose slide is zero or whose name is missing, and the image otherwise.
pub fn image_for_slot<'a>(image: &'a [u8], slide: isize, name: Option<&'a [u8]>) -> (r: Result<
    Option<SharedLibrary<'a>>,
    SlotError,
>)
    ensures
        !recognized(image@) ==> r == Ok::<Option<SharedLibrary<'a>>, SlotError>(None),
        recognized(image@) && slide == 0 ==> r == Err::<Option<SharedLibrary<'a>>, SlotError>(
            SlotError::ZeroSlide,
        ),
        recognized(image@) && slide != 0 && name is None ==> r == Err::<
            Option<SharedLibrary<'a>>,
            SlotError,
        >(SlotError::MissingName),
        recognized(image@) && slide != 0 && name is Some ==> r is Ok && r->Ok_0 is Some && ({
            let lib = r->Ok_0->0;
            &&& lib.wf()
            &&& lib.spec_header().image() == image@
            &&& Some(lib.spec_header().kind()) == MachType::spec_of_image(image@)
            &&& lib.spec_bias() == slide
            &&& lib.spec_name() == name->0@
        }),
{
    match MachHeader::from_header_bytes(image) {
        None => Ok(None),
        Some(header) => {
            if slide == 0 {
                Err(SlotError::ZeroSlide)
            } else {
                match name {
                    None => Err(SlotError::MissingName),
                    Some(n) => Ok(Some(SharedLibrary::new(header, slide, n))),
                }
            }
        },
    }
}

/// The number of recognized slots from `i` on.
pub open spec fn recognized_from(slots: Seq<bool>, i: int) -> int
    decreases slots.len() - i,
{
    if i < 0 || i >= slots.len() {
        0
    } else {
        (if slots[i] {
            1int
        } else {
            0
        }) + recognized_from(slots, i + 1)
    }
}

/// The number of callbacks that a pass makes from slot `i` on, where
/// `slots` says which slots hold a recognized image, `visited` callbacks
/// have been made so far, and the callback answers `Break` on its
/// `break_at`-th call (counting from one) and `Continue` on every other.
pub open spec fn visits_from(slots: Seq<bool>, i: int, visited: int, break_at: int) -> int
    decreases slots.len() - i,
{
    if i < 0 || i >= slots.len() {
        visited
    } else if !slots[i] {
        visits_from(slots, i + 1, visited, break_at)
    } else if visited + 1 == break_at {
        visited + 1
    } else {
        visits_from(slots, i + 1, visited + 1, break_at)
    }
}

/// The number of callbacks that a whole pass over `slots` makes.
pub open spec fn visits(slots: Seq<bool>, break_at: int) -> int {
    visits_from(slots, 0, 0, break_at)
}

proof fn lemma_recognized_nonneg(slots: Seq<bool>, i: int)
    ensures
        recognized_from(slots, i) >= 0,
    decreases slots.len() - i,
{
    if 0 <= i < slots.len() {
        lemma_recognized_nonneg(slots, i + 1);
    }
}

proof fn lemma_visits_from(slots: Seq<bool>, i: int, visited: int, break_at: int)
    requires
        0 <= i,
    ensures
        break_at <= visited ==> visits_from(slots, i, visited, break_at) == visited
            + recognized_from(slots, i),
        break_at > visited && visited + recognized_from(slots, i) >= break_at ==> visits_from(
            slots,
            i,
            visited,
            break_at,
        ) == break_at,
        break_at > visited && visited + recognized_from(slots, i) < break_at ==> visits_from(
            slots,
            i,
            visited,
            break_at,
        ) == visited + recognized_from(slots, i),
    decreases slots.len() - i,
{
    lemma_recognized_nonneg(slots, i + 1);
    if i < slots.len() {
        assert(recognized_from(slots, i) == (if slots[i] {
            1int
        } else {
            0
        }) + recognized_from(slots, i + 1));
        if slots[i] {
            lemma_visits_from(slots, i + 1, visited + 1, break_at);
        } else {
            lemma_visits_from(slots, i + 1, visited, break_at);
        }
    }
}

/// A pass whose callback never breaks visits every recognized slot; a pass
/// over the same table whose callback breaks on its `k`-th call, for `k`
/// from one up to that count, ends after exactly `k` callbacks.
pub proof fn lemma_break_after(slots: Seq<bool>, k: int)
    ensures
        visits(slots, 0) == recognized_from(slots, 0),
        1 <= k <= visits(slots, 0) ==> visits(slots, k) == k,
{
    lemma_visits_from(slots, 0, 0, 0);
    lemma_visits_from(slots, 0, 0, k);
}

/// The state of one enumeration pass over a table of `count` slots.
#[derive(Debug)]
pub struct Enumeration {
    count: u32,
    next: u32,
    visited: u32,
    stopped: bool,
}

impl Enumeration {
    /// The number of slots in the table.
    pub closed spec fn spec_count(&self) -> u32 {
        self.count
    }

    /// The slot to look at next.
    pub closed spec fn spec_next(&self) -> u32 {
        self.next
    }

    /// The number of callbacks made so far.
    pub closed spec fn spec_visited(&self) -> u32 {
        self.visited
    }

    /// A callback has answered `Break`.
    pub closed spec fn spec_stopped(&self) -> bool {
        self.stopped
    }

    /// The pass has ended.
    pub open spec fn spec_done(&self) -> bool {
        self.spec_stopped() || self.spec_next() >= self.spec_count()
    }

    /// Callbacks are counted among the slots passed.
    pub open spec fn wf(&self) -> bool {
        self.spec_visited() <= self.spec_next() <= self.spec_count()
    }

    /// The state at the start of a pass over `count` slots.
    pub fn new(count: u32) -> (r: Enumeration)
        ensures
            r.wf(),
            r.spec_count() == count,
            r.spec_next() == 0,
            r.spec_visited() == 0,
            !r.spec_stopped(),
    {
        Enumeration { count, next: 0, visited: 0, stopped: false }
    }

    /// The slot to read next, or `None` once the pass has ended.
    pub fn next_slot(&self) -> (r: Option<u32>)
        ensures
            r == (if self.spec_done() {
                None
            } else {
                Some(self.spec_next())
            }),
    {
        if self.stopped || self.next >= self.count {
            None
        } else {
            Some(self.next)
        }
    }

    /// Passes over the current slot, whose header was not recognized.
    pub fn skip(&mut self)
        requires
            old(self).wf(),
            !old(self).spec_done(),
        ensures
            final(self).wf(),
            final(self).spec_count() == old(self).spec_count(),
            final(self).spec_next() == old(self).spec_next() + 1,
            final(self).spec_visited() == old(self).spec_visited(),
            final(self).spec_stopped() == old(self).spec_stopped(),
    {
        self.next = self.next + 1;
    }

    /// Records the callback's answer on the current slot's image.
    pub fn record(&mut self, control: IterationControl)
        requires
            old(self).wf(),
            !old(self).spec_done(),
        ensures
            final(self).wf(),
            final(self).spec_count() == old(self).spec_count(),
            final(self).spec_next() == old(self).spec_next() + 1,
            final(self).spec_visited() == old(self).spec_visited() + 1,
            final(self).spec_stopped() == (control == IterationControl::Break),
    {
        self.next = self.next + 1;
        self.visited = self.visited + 1;
        self.stopped = control == IterationControl::Break;
    }

    /// The number of callbacks made so far.
    pub fn visited(&self) -> (r: u32)
        ensures
            r == self.spec_visited(),
    {
        self.visited
    }
}

} // verus!
