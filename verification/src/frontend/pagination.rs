//! Pagination state for offset-paginated result pages, independent of
//! listing totals and link targets.
use vstd::prelude::*;

use crate::text::{decimal, owned, push_str, to_decimal};

verus! {

/// Navigation state for an offset-paginated result page.
#[derive(Debug)]
pub struct PaginationState {
    /// The page length, at least 1.
    pub effective_limit: u32,
    /// Offset of the previous page.
    pub prev_offset: u32,
    /// Offset of the next page.
    pub next_offset: u32,
    /// Whether a previous page exists.
    pub has_prev: bool,
    /// Whether a next page exists.
    pub has_next: bool,
    /// 1-based position of the first result shown (0 when none).
    pub start: u32,
    /// 1-based position of the last result shown (0 when none).
    pub end: u32,
}

/// `a + b`, capped at `u32::MAX`.
pub open spec fn sat_add(a: int, b: int) -> int {
    if a + b > u32::MAX {
        u32::MAX as int
    } else {
        a + b
    }
}

/// `a - b`, floored at 0.
pub open spec fn sat_sub(a: int, b: int) -> int {
    if a - b < 0 {
        0
    } else {
        a - b
    }
}

/// The page length: `limit`, at least 1.
pub open spec fn effective(limit: u32) -> int {
    if limit == 0 {
        1
    } else {
        limit as int
    }
}

impl PaginationState {
    /// The state describes a page of `count` results at `offset` with page
    /// length `limit`, whose successor exists when `has_next` says so and
    /// lies further on.
    pub open spec fn describes(self, count: int, offset: u32, limit: u32, has_next: bool) -> bool {
        let eff = effective(limit);
        let next = sat_add(offset as int, eff);
        &&& self.effective_limit == eff
        &&& self.next_offset == next
        &&& self.prev_offset == sat_sub(offset as int, eff)
        &&& self.has_prev == (offset > 0)
        &&& self.has_next == (has_next && next > offset)
        &&& self.start == if count == 0 {
            0
        } else {
            sat_add(offset as int, 1)
        }
        &&& self.end == if count == 0 {
            0
        } else {
            sat_add(offset as int, count)
        }
    }

    /// Preserve the package listing's page-length pagination: a next page
    /// exists when this page is full.
    pub fn new(count: usize, offset: u32, limit: u32) -> (s: Self)
        requires
            count <= u32::MAX,
        ensures
            s.describes(count as int, offset, limit, count == effective(limit)),
    {
        let eff = if limit < 1 {
            1
        } else {
            limit
        };
        Self::with_next(count, offset, limit, count == eff as usize)
    }

    /// Use explicit next-page information from a relationship result page.
    pub fn with_next(count: usize, offset: u32, limit: u32, has_next: bool) -> (s: Self)
        requires
            count <= u32::MAX,
        ensures
            s.describes(count as int, offset, limit, has_next),
    {
        let effective_limit = if limit < 1 {
            1
        } else {
            limit
        };
        let next_offset = offset.saturating_add(effective_limit);
        let count = count as u32;
        let (start, end) = if count == 0 {
            (0, 0)
        } else {
            (offset.saturating_add(1), offset.saturating_add(count))
        };
        PaginationState {
            effective_limit,
            prev_offset: offset.saturating_sub(effective_limit),
            next_offset,
            has_prev: offset > 0,
            has_next: has_next && next_offset > offset,
            start,
            end,
        }
    }
}

/// A full page is followed by a page that starts right after it: the next
/// page's first result is the one after this page's last, and going back
/// from there returns to this page.
pub proof fn law_full_pages_tile(
    here: PaginationState,
    there: PaginationState,
    offset: u32,
    limit: u32,
    count_next: int,
    has_next_next: bool,
)
    requires
        offset + effective(limit) + effective(limit) <= u32::MAX,
        here.describes(effective(limit), offset, limit, true),
        there.describes(count_next, here.next_offset, limit, has_next_next),
        count_next > 0,
    ensures
        here.has_next,
        there.start == here.end + 1,
        there.prev_offset == offset,
        there.has_prev,
{
}

/// A page shows `count` results: its range covers exactly that many
/// positions when no offset reaches `u32::MAX`.
pub proof fn law_range_counts_results(s: PaginationState, count: int, offset: u32, limit: u32, has_next: bool)
    requires
        0 < count,
        offset + count <= u32::MAX,
        s.describes(count, offset, limit, has_next),
    ensures
        s.end - s.start + 1 == count,
        s.start == offset + 1,
{
}

/// A Previous or Next control: its label, and the offset and page length
/// it links to when it is enabled.
pub struct PageControl {
    pub label: &'static str,
    pub target: Option<(u32, u32)>,
}

impl PaginationState {
    /// The range line above the controls, `Showing start–end`.
    pub fn range_text(&self) -> (s: String)
        ensures
            s@ == "Showing "@ + decimal(self.start as nat) + "\u{2013}"@ + decimal(self.end as nat),
    {
        let mut s = owned("Showing ");
        push_str(&mut s, to_decimal(self.start as u64).as_str());
        push_str(&mut s, "\u{2013}");
        push_str(&mut s, to_decimal(self.end as u64).as_str());
        s
    }

    /// The Previous and Next controls: each links to its page, at the
    /// effective page length, when that page exists, and is shown disabled
    /// otherwise.
    pub fn controls(&self) -> (c: (PageControl, PageControl))
        ensures
            c.0.label@ == "Previous"@,
            c.0.target == if self.has_prev {
                Some((self.prev_offset, self.effective_limit))
            } else {
                None
            },
            c.1.label@ == "Next"@,
            c.1.target == if self.has_next {
                Some((self.next_offset, self.effective_limit))
            } else {
                None
            },
    {
        (
            PageControl {
                label: "Previous",
                target: if self.has_prev {
                    Some((self.prev_offset, self.effective_limit))
                } else {
                    None
                },
            },
            PageControl {
                label: "Next",
                target: if self.has_next {
                    Some((self.next_offset, self.effective_limit))
                } else {
                    None
                },
            },
        )
    }
}

} // verus!
