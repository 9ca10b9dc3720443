//! Mouse-drag text selection state, click-versus-drag disambiguation, and the mapping from
//! pointer positions to document cells.

use vstd::prelude::*;

verus! {

/// Terminal columns of left padding before the page body.
pub const CONTENT_PADDING: u16 = 2;

/// The terminal row where the page body begins.
pub const BODY_AREA_TOP_ROW: u16 = 0;

/// A cell of the laid-out document: its column within the row and its row from the top.
#[derive(Debug, Clone, Copy, PartialEq, Eq, Structural)]
pub struct CellPosition {
    pub column: u16,
    pub row: u16,
}

/// Whether `a` comes no later than `b` in row-major reading order.
pub open spec fn reads_before(a: CellPosition, b: CellPosition) -> bool {
    a.row < b.row || (a.row == b.row && a.column <= b.column)
}

/// A text selection driven by a left-button mouse drag over the page body.
///
/// A press starts a pending selection at the anchor cell. Movement while the button is
/// held sets the cursor and marks the gesture as moved, which is how the event loop tells
/// a drag (selects text) from a clean click (activates a link). Once marked as moved the
/// gesture stays a drag even if the pointer returns to the anchor cell, so a press that
/// wandered and came back never activates a link by accident.
#[derive(Debug, Clone, PartialEq, Eq)]
pub struct TextSelection {
    anchor: Option<CellPosition>,
    cursor: Option<CellPosition>,
    moved: bool,
}

impl TextSelection {
    /// The press cell, when a press has begun a selection.
    pub closed spec fn spec_anchor(self) -> Option<CellPosition> {
        self.anchor
    }

    /// The latest pointer cell of the gesture.
    pub closed spec fn spec_cursor(self) -> Option<CellPosition> {
        self.cursor
    }

    /// Whether the pointer has left the anchor cell since the press.
    pub closed spec fn spec_moved(self) -> bool {
        self.moved
    }

    /// The selection is idle, or holds both an anchor and a cursor.
    pub closed spec fn wf(self) -> bool {
        &&& self.anchor is Some <==> self.cursor is Some
        &&& self.moved ==> self.anchor is Some
    }

    /// An empty selection with nothing pressed or highlighted.
    pub fn new() -> (s: TextSelection)
        ensures
            s.wf(),
            s.spec_anchor() is None,
            s.spec_cursor() is None,
            !s.spec_moved(),
    {
        TextSelection { anchor: None, cursor: None, moved: false }
    }

    /// Starts a pending selection at the press cell, discarding any previous selection so a
    /// new press clears the old highlight.
    pub fn begin(&mut self, anchor: CellPosition)
        ensures
            final(self).wf(),
            final(self).spec_anchor() == Some(anchor),
            final(self).spec_cursor() == Some(anchor),
            !final(self).spec_moved(),
    {
        self.anchor = Some(anchor);
        self.cursor = Some(anchor);
        self.moved = false;
    }

    /// Sets the cursor cell during a drag and marks the gesture as moved once the cursor
    /// leaves the anchor cell. Does nothing when no press has begun a selection.
    pub fn update(&mut self, cursor: CellPosition)
        requires
            old(self).wf(),
        ensures
            final(self).wf(),
            match old(self).spec_anchor() {
                None => *final(self) == *old(self),
                Some(anchor) => {
                    &&& final(self).spec_anchor() == Some(anchor)
                    &&& final(self).spec_cursor() == Some(cursor)
                    &&& final(self).spec_moved() == (old(self).spec_moved() || cursor != anchor)
                },
            },
    {
        let anchor = match self.anchor {
            Some(anchor) => anchor,
            None => return,
        };
        self.cursor = Some(cursor);
        if cursor != anchor {
            self.moved = true;
        }
    }

    /// Whether a selection is active: a press has begun one and it has not been cleared.
    pub fn is_dragging(&self) -> (r: bool)
        ensures
            r == self.spec_anchor() is Some,
    {
        self.anchor.is_some()
    }

    /// Whether the pointer has moved off the anchor cell since the press. A moved gesture is
    /// a drag (selects text); an unmoved one is a click (activates a link).
    pub fn has_moved(&self) -> (r: bool)
        ensures
            r == self.spec_moved(),
    {
        self.moved
    }

    /// The selected span as an inclusive `(start, end)` pair in reading order (earlier row
    /// first, then smaller column). `None` until the pointer has moved, so a plain click
    /// never highlights anything.
    pub fn range(&self) -> (r: Option<(CellPosition, CellPosition)>)
        requires
            self.wf(),
        ensures
            !self.spec_moved() ==> r is None,
            self.spec_moved() ==> r == Some(
                reading_order_spec(self.spec_anchor()->0, self.spec_cursor()->0),
            ),
            r matches Some((start, end)) ==> reads_before(start, end),
    {
        if !self.moved {
            return None;
        }
        let anchor = match self.anchor {
            Some(a) => a,
            None => return None,
        };
        let cursor = match self.cursor {
            Some(c) => c,
            None => return None,
        };
        Some(reading_order(anchor, cursor))
    }

    /// Discards the selection so no cells stay highlighted.
    pub fn clear(&mut self)
        ensures
            final(self).wf(),
            final(self).spec_anchor() is None,
            final(self).spec_cursor() is None,
            !final(self).spec_moved(),
    {
        self.anchor = None;
        self.cursor = None;
        self.moved = false;
    }
}

/// The two cells in reading order.
pub open spec fn reading_order_spec(anchor: CellPosition, cursor: CellPosition) -> (
    CellPosition,
    CellPosition,
) {
    if reads_before(anchor, cursor) {
        (anchor, cursor)
    } else {
        (cursor, anchor)
    }
}

/// Orders two positions so the first is the earlier cell in row-major reading order:
/// earlier row first, then smaller column on the same row.
pub fn reading_order(anchor: CellPosition, cursor: CellPosition) -> (r: (CellPosition, CellPosition))
    ensures
        r == reading_order_spec(anchor, cursor),
        reads_before(r.0, r.1),
{
    let anchor_is_first = anchor.row < cursor.row || (anchor.row == cursor.row && anchor.column
        <= cursor.column);
    if anchor_is_first {
        return (anchor, cursor);
    }
    (cursor, anchor)
}

/// Whether a cell lies within the linear span from `start` to `end`: interior rows are fully
/// covered, the first row from its start column on, the last row up to its end column.
pub open spec fn in_selection(column: int, row: int, start: CellPosition, end: CellPosition) -> bool {
    if row < start.row || row > end.row {
        false
    } else if start.row == end.row {
        start.column <= column <= end.column
    } else if row == start.row {
        column >= start.column
    } else if row == end.row {
        column <= end.column
    } else {
        true
    }
}

/// Whether the cell at `column`, `row` falls inside the linear selection span. Interior
/// rows are fully covered; the first row runs from its start column to the row end and the
/// last row from column zero to its end column, matching how the text is extracted.
pub fn cell_is_selected(
    column: u16,
    row: u16,
    selection_range: Option<(CellPosition, CellPosition)>,
) -> (r: bool)
    ensures
        r == match selection_range {
            Some((start, end)) => in_selection(column as int, row as int, start, end),
            None => false,
        },
        r == match selection_range {
            Some((start, end)) => reads_before(start, (CellPosition { column, row }))
                && reads_before((CellPosition { column, row }), end),
            None => false,
        },
{
    proof {
        if let Some((start, end)) = selection_range {
            lemma_selected_cells_lie_between_the_ends(start, end, CellPosition { column, row });
        }
    }
    let (start, end) = match selection_range {
        Some(range) => range,
        None => return false,
    };
    if row < start.row || row > end.row {
        return false;
    }
    if start.row == end.row {
        return column >= start.column && column <= end.column;
    }
    if row == start.row {
        return column >= start.column;
    }
    if row == end.row {
        return column <= end.column;
    }
    true
}

/// The cursor and moved flag a press at `anchor` followed by drags to each cell of `cs` in
/// turn leaves, one step per drag exactly as `update`'s contract describes it.
pub open spec fn drag_steps(anchor: CellPosition, cs: Seq<CellPosition>) -> (CellPosition, bool)
    decreases cs.len(),
{
    if cs.len() == 0 {
        (anchor, false)
    } else {
        (cs.last(), drag_steps(anchor, cs.drop_last()).1 || cs.last() != anchor)
    }
}

/// The span `range` reports after a press at `anchor` and drags to the cells of `cs`: the
/// anchor and the last drag cell in reading order once any drag left the anchor cell, and
/// nothing while every drag stayed on it.
pub open spec fn range_after_drags(anchor: CellPosition, cs: Seq<CellPosition>) -> Option<(CellPosition, CellPosition)> {
    if exists|i: int| 0 <= i < cs.len() && #[trigger] cs[i] != anchor {
        Some(reading_order_spec(anchor, cs.last()))
    } else {
        None
    }
}

/// Over any number of drags after a press, the gesture counts as moved exactly when some
/// drag left the anchor cell, even if later ones came back, and the cursor is the last drag
/// cell; so `range` then reports `range_after_drags`.
pub proof fn lemma_drags_decide_the_range(anchor: CellPosition, cs: Seq<CellPosition>)
    ensures
        drag_steps(anchor, cs).1 <==> exists|i: int| 0 <= i < cs.len() && #[trigger] cs[i] != anchor,
        cs.len() > 0 ==> drag_steps(anchor, cs).0 == cs.last(),
        (if drag_steps(anchor, cs).1 {
            Some(reading_order_spec(anchor, drag_steps(anchor, cs).0))
        } else {
            None
        }) == range_after_drags(anchor, cs),
    decreases cs.len(),
{
    if cs.len() > 0 {
        let front = cs.drop_last();
        lemma_drags_decide_the_range(anchor, front);
        if drag_steps(anchor, front).1 {
            let i = choose|i: int| 0 <= i < front.len() && #[trigger] front[i] != anchor;
            assert(cs[i] == front[i]);
        }
        if exists|i: int| 0 <= i < cs.len() && #[trigger] cs[i] != anchor {
            let i = choose|i: int| 0 <= i < cs.len() && #[trigger] cs[i] != anchor;
            if i < cs.len() - 1 {
                assert(front[i] == cs[i]);
            }
        }
    }
}

/// A cell is highlighted exactly when it lies between the selection's start and end in
/// reading order: nothing before the start or past the end is, on any row, whatever the
/// span's shape.
pub proof fn lemma_selected_cells_lie_between_the_ends(start: CellPosition, end: CellPosition, cell: CellPosition)
    ensures
        in_selection(cell.column as int, cell.row as int, start, end) <==> reads_before(start, cell)
            && reads_before(cell, end),
        cell.row > end.row || cell.row < start.row ==> !in_selection(
            cell.column as int,
            cell.row as int,
            start,
            end,
        ),
{
}

/// Both ends of an ordered selection are highlighted, and so is every cell between them in
/// reading order.
pub proof fn lemma_selection_covers_its_span(start: CellPosition, end: CellPosition, cell: CellPosition)
    requires
        reads_before(start, end),
    ensures
        in_selection(start.column as int, start.row as int, start, end),
        in_selection(end.column as int, end.row as int, start, end),
        reads_before(start, cell) && reads_before(cell, end) ==> in_selection(
            cell.column as int,
            cell.row as int,
            start,
            end,
        ),
{
}

/// The document cell under a pointer at `mouse_column`, `mouse_row`, or `None` above the body,
/// inside the left padding, or past the last addressable row.
pub open spec fn document_cell(mouse_column: u16, mouse_row: u16, scroll_offset: u16, body_area_top_row: u16) -> Option<CellPosition> {
    if mouse_row >= body_area_top_row && mouse_row - body_area_top_row + scroll_offset <= u16::MAX
        && mouse_column >= CONTENT_PADDING {
        Some(CellPosition {
            column: (mouse_column - CONTENT_PADDING) as u16,
            row: (mouse_row - body_area_top_row + scroll_offset) as u16,
        })
    } else {
        None
    }
}

/// The document cell under a pointer, clamped to a buffer of `buffer_width` by
/// `buffer_height` cells.
pub open spec fn clamped_cell(
    mouse_column: u16,
    mouse_row: u16,
    buffer_width: u16,
    buffer_height: u16,
    scroll_offset: u16,
    body_area_top_row: u16,
) -> CellPosition {
    CellPosition {
        column: crate::viewport::min_int(
            crate::viewport::sat_sub(mouse_column as int, CONTENT_PADDING as int),
            crate::viewport::sat_sub(buffer_width as int, 1),
        ) as u16,
        row: crate::viewport::min_int(
            crate::viewport::sat_add_u16(
                crate::viewport::sat_sub(mouse_row as int, body_area_top_row as int),
                scroll_offset as int,
            ),
            crate::viewport::sat_sub(buffer_height as int, 1),
        ) as u16,
    }
}

/// Maps a pointer position to a document coordinate: the screen row maps to a buffer row
/// through the scroll offset and the screen column is shifted back by the content padding.
/// Returns `None` when the pointer is above the body or inside the left padding.
pub fn document_coordinate(
    mouse_column: u16,
    mouse_row: u16,
    scroll_offset: u16,
    body_area_top_row: u16,
) -> (r: Option<CellPosition>)
    ensures
        r == document_cell(mouse_column, mouse_row, scroll_offset, body_area_top_row),
        match r {
            Some(p) => mouse_row >= body_area_top_row && mouse_row - body_area_top_row
                + scroll_offset <= u16::MAX && mouse_column >= CONTENT_PADDING && p.row
                == mouse_row - body_area_top_row + scroll_offset && p.column == mouse_column
                - CONTENT_PADDING,
            None => !(mouse_row >= body_area_top_row && mouse_row - body_area_top_row
                + scroll_offset <= u16::MAX && mouse_column >= CONTENT_PADDING),
        },
{
    let row = match mouse_row.checked_sub(body_area_top_row) {
        Some(row) => match row.checked_add(scroll_offset) {
            Some(row) => row,
            None => return None,
        },
        None => return None,
    };
    let column = match mouse_column.checked_sub(CONTENT_PADDING) {
        Some(column) => column,
        None => return None,
    };
    Some(CellPosition { column, row })
}

/// Maps a pointer position to a document coordinate clamped to the buffer's last cell, so a
/// drag into the chrome or past the content still yields a valid in-buffer cursor.
pub fn clamped_document_coordinate(
    mouse_column: u16,
    mouse_row: u16,
    buffer_width: u16,
    buffer_height: u16,
    scroll_offset: u16,
    body_area_top_row: u16,
) -> (r: CellPosition)
    ensures
        r == clamped_cell(mouse_column, mouse_row, buffer_width, buffer_height, scroll_offset, body_area_top_row),
        r.row == crate::viewport::min_int(
            crate::viewport::sat_add_u16(
                crate::viewport::sat_sub(mouse_row as int, body_area_top_row as int),
                scroll_offset as int,
            ),
            crate::viewport::sat_sub(buffer_height as int, 1),
        ),
        r.column == crate::viewport::min_int(
            crate::viewport::sat_sub(mouse_column as int, CONTENT_PADDING as int),
            crate::viewport::sat_sub(buffer_width as int, 1),
        ),
        buffer_height > 0 ==> r.row < buffer_height,
        buffer_width > 0 ==> r.column < buffer_width,
{
    let row = mouse_row.saturating_sub(body_area_top_row).saturating_add(scroll_offset);
    let column = mouse_column.saturating_sub(CONTENT_PADDING);
    let last_row = buffer_height.saturating_sub(1);
    let last_column = buffer_width.saturating_sub(1);
    CellPosition { column: column.min(last_column), row: row.min(last_row) }
}

} // verus!
