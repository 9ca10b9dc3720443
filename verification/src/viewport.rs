//! Vertical scroll state and window math for the read-only page viewport.

use vstd::prelude::*;

verus! {

/// `a + b`, saturating at the top of the `u16` range.
pub open spec fn sat_add_u16(a: int, b: int) -> int {
    if a + b > u16::MAX {
        u16::MAX as int
    } else {
        a + b
    }
}

/// `a - b`, saturating at zero.
pub open spec fn sat_sub(a: int, b: int) -> int {
    if a < b {
        0
    } else {
        a - b
    }
}

pub open spec fn min_int(a: int, b: int) -> int {
    if a <= b {
        a
    } else {
        b
    }
}

/// The vertical scroll position of the viewport, measured in rows from the top of the
/// content.
///
/// Every method that is given the scrollable range leaves the offset inside it, so the draw
/// path can trust it without re-checking.
#[derive(Debug, Default)]
pub struct ScrollState {
    offset: u16,
}

/// The offset `reveal_row` lands on: unchanged when `row` is already inside the window, `row`
/// when it lies above, and just far enough down to put `row` on the bottom edge when it lies
/// below; then clamped to `max_offset`.
pub open spec fn reveal_row_offset(offset: int, row: int, height: int, max_offset: int) -> int {
    let moved = if row < offset {
        row
    } else if row >= sat_add_u16(offset, height) {
        sat_sub(row, sat_sub(height, 1))
    } else {
        offset
    };
    min_int(moved, max_offset)
}

impl ScrollState {
    pub closed spec fn spec_offset(&self) -> int {
        self.offset as int
    }

    pub fn new() -> (s: ScrollState)
        ensures
            s.spec_offset() == 0,
    {
        ScrollState { offset: 0 }
    }

    pub fn offset(&self) -> (r: u16)
        ensures
            r == self.spec_offset(),
    {
        self.offset
    }

    pub fn line_down(&mut self, max_offset: u16)
        ensures
            final(self).spec_offset() == min_int(
                sat_add_u16(old(self).spec_offset(), 1),
                max_offset as int,
            ),
            final(self).spec_offset() <= max_offset,
    {
        self.offset = self.offset.saturating_add(1).min(max_offset);
    }

    pub fn line_up(&mut self)
        ensures
            final(self).spec_offset() == sat_sub(old(self).spec_offset(), 1),
    {
        self.offset = self.offset.saturating_sub(1);
    }

    pub fn page_down(&mut self, viewport_height: u16, max_offset: u16)
        ensures
            final(self).spec_offset() == min_int(
                sat_add_u16(old(self).spec_offset(), viewport_height as int),
                max_offset as int,
            ),
            final(self).spec_offset() <= max_offset,
    {
        self.offset = self.offset.saturating_add(viewport_height).min(max_offset);
    }

    pub fn page_up(&mut self, viewport_height: u16)
        ensures
            final(self).spec_offset() == sat_sub(
                old(self).spec_offset(),
                viewport_height as int,
            ),
    {
        self.offset = self.offset.saturating_sub(viewport_height);
    }

    pub fn move_to_top(&mut self)
        ensures
            final(self).spec_offset() == 0,
    {
        self.offset = 0;
    }

    pub fn move_to_bottom(&mut self, max_offset: u16)
        ensures
            final(self).spec_offset() == max_offset,
    {
        self.offset = max_offset;
    }

    /// Brings `row` to the top of the viewport, clamped so the last content row never
    /// scrolls past the bottom. Used to land the viewport on a fragment's anchor.
    pub fn scroll_to(&mut self, row: u16, max_offset: u16)
        ensures
            final(self).spec_offset() == min_int(row as int, max_offset as int),
    {
        self.offset = row.min(max_offset);
    }

    /// Scrolls the minimum needed so `row` is visible, then clamps to range. A row already
    /// inside the window leaves the offset unchanged; a row above moves to it, a row below
    /// moves just far enough to bring it to the bottom edge.
    pub fn reveal_row(&mut self, row: u16, viewport_height: u16, max_offset: u16)
        ensures
            final(self).spec_offset() == reveal_row_offset(
                old(self).spec_offset(),
                row as int,
                viewport_height as int,
                max_offset as int,
            ),
            final(self).spec_offset() <= max_offset,
            row <= max_offset && viewport_height > 0 ==> final(self).spec_offset() <= row
                < final(self).spec_offset() + viewport_height,
    {
        if row < self.offset {
            self.offset = row;
        } else if row >= self.offset.saturating_add(viewport_height) {
            self.offset = row.saturating_sub(viewport_height.saturating_sub(1));
        }
        self.offset = self.offset.min(max_offset);
    }

    /// Pulls the offset back within range after the content or viewport shrank.
    pub fn clamp(&mut self, max_offset: u16)
        ensures
            final(self).spec_offset() == min_int(old(self).spec_offset(), max_offset as int),
    {
        self.offset = self.offset.min(max_offset);
    }
}

/// The largest valid scroll offset: how far the top of the viewport can move down
/// before the last content row sits at the bottom. Zero when the content fits.
pub fn max_scroll_offset(content_rows: u16, viewport_height: u16) -> (r: u16)
    ensures
        r == sat_sub(content_rows as int, viewport_height as int),
{
    content_rows.saturating_sub(viewport_height)
}

/// The percentage `scroll_percentage` reports: 100 when nothing can scroll, otherwise the
/// offset's share of the range rounded down, falling back to 100 if it would not fit a `u16`.
pub open spec fn scroll_percentage_spec(offset: int, max_offset: int) -> int {
    if max_offset == 0 {
        100
    } else if offset * 100 / max_offset > u16::MAX {
        100
    } else {
        offset * 100 / max_offset
    }
}

/// The scroll position as a whole-number percentage of the scrollable range.
///
/// When nothing can scroll the whole document is already visible, reported as 100.
pub fn scroll_percentage(offset: u16, max_offset: u16) -> (r: u16)
    ensures
        r == scroll_percentage_spec(offset as int, max_offset as int),
        offset <= max_offset ==> r <= 100,
        offset == max_offset ==> r == 100,
        offset == 0 && max_offset > 0 ==> r == 0,
{
    if max_offset == 0 {
        return 100;
    }
    let percent: u32 = (offset as u32) * 100 / (max_offset as u32);
    proof {
        assert(offset * 100 <= max_offset * 100 ==> offset * 100 / (max_offset as int) <= 100) by (nonlinear_arith)
            requires max_offset > 0;
        assert((max_offset as int) * 100 / (max_offset as int) == 100) by (nonlinear_arith)
            requires max_offset > 0;
    }
    if percent > 65535 {
        100
    } else {
        percent as u16
    }
}

} // verus!
