//! Page-window arithmetic.
//!
//! A cursor names the window `[start, start + take)` of a paged listing.
//! `take` never changes once the cursor exists, `start` is always a whole
//! number of pages, and the end of the window always fits in a `u32`.

use vstd::arithmetic::div_mod::lemma_small_mod;
use vstd::prelude::*;

verus! {

/// The mathematical value of a cursor: where the window starts and how many
/// entries it spans.
pub struct Window {
    pub start: nat,
    pub take: nat,
}

/// A window is aligned when it spans at least one entry, starts on a page
/// boundary, and ends at or below `u32::MAX`.
pub open spec fn aligned(w: Window) -> bool {
    &&& w.take > 0
    &&& w.start % w.take == 0
    &&& w.start + w.take <= u32::MAX
}

/// The window one page further on.
pub open spec fn next_window(w: Window) -> Window {
    Window { start: w.start + w.take, take: w.take }
}

/// The window one page back, stopping at the first page.
pub open spec fn back_window(w: Window) -> Window {
    Window { start: if w.start >= w.take { (w.start - w.take) as nat } else { 0 }, take: w.take }
}

/// Whether the window one page further on still ends at or below `u32::MAX`.
pub open spec fn can_advance(w: Window) -> bool {
    w.start + w.take + w.take <= u32::MAX
}

/// The pagination window of a paged view.
#[derive(Clone, Copy, Debug, PartialEq, Eq)]
pub struct PaginationCursor {
    start: u32,
    take: u32,
}

impl View for PaginationCursor {
    type V = Window;

    closed spec fn view(&self) -> Window {
        Window { start: self.start as nat, take: self.take as nat }
    }
}

impl PaginationCursor {
    #[verifier::type_invariant]
    spec fn inv(self) -> bool {
        aligned(self@)
    }

    /// A cursor at `start` spanning `take` entries, or `None` when that window
    /// is not aligned.
    pub fn new(start: u32, take: u32) -> (r: Option<PaginationCursor>)
        ensures
            r is Some <==> aligned(Window { start: start as nat, take: take as nat }),
            r matches Some(c) ==> c@ == (Window { start: start as nat, take: take as nat }),
    {
        if take == 0 || start % take != 0 || start > u32::MAX - take {
            None
        } else {
            Some(PaginationCursor { start, take })
        }
    }

    /// The cursor on the first page of a listing that shows `take` entries
    /// per page.
    pub fn first_page(take: u32) -> (r: PaginationCursor)
        requires
            take > 0,
        ensures
            r@ == (Window { start: 0, take: take as nat }),
            aligned(r@),
    {
        proof {
            lemma_first_aligned(take as nat);
        }
        PaginationCursor { start: 0, take }
    }

    /// Where the window starts.
    pub fn start(&self) -> (r: u32)
        ensures
            r == self@.start,
            aligned(self@),
    {
        proof {
            use_type_invariant(self);
        }
        self.start
    }

    /// How many entries the window spans.
    pub fn take(&self) -> (r: u32)
        ensures
            r == self@.take,
            aligned(self@),
    {
        proof {
            use_type_invariant(self);
        }
        self.take
    }

    /// One past the last position of the window.
    pub fn end(&self) -> (r: u32)
        ensures
            r == self@.start + self@.take,
            aligned(self@),
    {
        proof {
            use_type_invariant(self);
        }
        self.start + self.take
    }

    /// Whether `next` may be called: the following window still fits.
    pub fn has_next(&self) -> (r: bool)
        ensures
            r == can_advance(self@),
            aligned(self@),
    {
        proof {
            use_type_invariant(self);
        }
        self.take <= u32::MAX - self.start - self.take
    }

    /// The cursor one page further on.
    pub fn next(self) -> (r: PaginationCursor)
        requires
            can_advance(self@),
        ensures
            r@ == next_window(self@),
            aligned(r@),
    {
        proof {
            use_type_invariant(self);
            lemma_next_aligned(self@);
        }
        PaginationCursor { start: self.start + self.take, take: self.take }
    }

    /// The cursor one page further on, or `None` when that window would end
    /// above `u32::MAX`.
    pub fn checked_next(self) -> (r: Option<PaginationCursor>)
        ensures
            r is Some <==> can_advance(self@),
            r matches Some(c) ==> c@ == next_window(self@) && aligned(c@),
    {
        if self.has_next() {
            Some(self.next())
        } else {
            None
        }
    }

    /// The cursor one page back; on the first page it stays where it is.
    pub fn back(self) -> (r: PaginationCursor)
        ensures
            r@ == back_window(self@),
            aligned(r@),
            self@.start == 0 ==> r@.start == 0,
    {
        proof {
            use_type_invariant(self);
            lemma_back_aligned(self@);
        }
        if self.start >= self.take {
            PaginationCursor { start: self.start - self.take, take: self.take }
        } else {
            PaginationCursor { start: 0, take: self.take }
        }
    }
}

/// The first page of any listing is aligned.
pub proof fn lemma_first_aligned(take: nat)
    requires
        0 < take <= u32::MAX,
    ensures
        aligned(Window { start: 0, take }),
{
    lemma_small_mod(0, take);
}

/// One page on from a page boundary is a page boundary.
pub proof fn lemma_next_on_boundary(w: Window)
    requires
        w.take > 0,
        w.start % w.take == 0,
    ensures
        next_window(w).start % next_window(w).take == 0,
        next_window(w).take == w.take,
{
    let s = w.start as int;
    let t = w.take as int;
    assert((s + t) % t == 0) by (nonlinear_arith)
        requires
            t > 0,
            s >= 0,
            s % t == 0,
    ;
}

/// Moving forward keeps the window aligned, as long as it fits.
pub proof fn lemma_next_aligned(w: Window)
    requires
        aligned(w),
        can_advance(w),
    ensures
        aligned(next_window(w)),
        next_window(w).take == w.take,
{
    lemma_next_on_boundary(w);
}

/// Moving back keeps the window on a page boundary and never leaves the
/// listing: from the first page it yields the first page.
pub proof fn lemma_back_aligned(w: Window)
    requires
        aligned(w),
    ensures
        aligned(back_window(w)),
        back_window(w).take == w.take,
        back_window(w).start <= w.start,
        w.start == 0 ==> back_window(w).start == 0,
{
    let s = w.start as int;
    let t = w.take as int;
    if s >= t {
        assert((s - t) % t == 0) by (nonlinear_arith)
            requires
                t > 0,
                s >= t,
                s % t == 0,
        ;
    } else {
        lemma_small_mod(w.start, w.take);
    }
}

/// Going forward and then back returns to the window one started from.
pub proof fn lemma_back_undoes_next(w: Window)
    requires
        aligned(w),
    ensures
        back_window(next_window(w)) == w,
{
}

} // verus!
