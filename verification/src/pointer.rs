//! Links on the rendered page: what the pointer rests on, what a click or drag does, and how
//! Tab focus walks the links while keeping the focused one on screen.

use vstd::prelude::*;
use vstd::string::StringSliceAdditionalSpecFns;

use crate::clipboard::{
    clipboard_write_succeeded, copied_message, copied_text, copy_to_clipboard, grapheme_count,
    osc52_text, ClipboardOutcome, CopyStep, MAX_OSC52_BYTES,
};
use crate::selection::{
    clamped_cell, clamped_document_coordinate, document_cell, document_coordinate,
    reading_order_spec, CellPosition, TextSelection,
};
use crate::text::{chars_of, is_whitespace_char, owned, spec_is_whitespace, str_equals};
use crate::ui_state::{UiState, UiView, wrap_next, wrap_prev};
use crate::viewport::{reveal_row_offset, ScrollState};

verus! {

/// How a link span was authored: an ordinary link, or a citation whose target the preview
/// popup shows.
#[derive(Debug, Clone, Copy, PartialEq, Eq, Structural)]
pub enum LinkKind {
    Link,
    Citation,
}

/// One link on the laid-out page: its target, the row it sits on, the inclusive column
/// extent it covers there, and its kind. A link that wraps has one span per row.
#[derive(Debug, Clone, PartialEq, Eq)]
pub struct LinkSpan {
    pub url: String,
    pub row: u16,
    pub col_start: u16,
    pub col_end: u16,
    pub kind: LinkKind,
}

/// What pointer and focus handling read of a laid-out page: its size in cells and its link
/// spans in reading order.
#[derive(Debug, Clone, PartialEq, Eq)]
pub struct PageLayout {
    pub width: u16,
    pub height: u16,
    pub links: Vec<LinkSpan>,
}

/// The visible window of the page body: how many rows it shows and the furthest the page
/// can scroll.
#[derive(Debug, Clone, Copy, PartialEq, Eq, Structural)]
pub struct ViewportBounds {
    pub height: u16,
    pub max_offset: u16,
}

/// A mouse button.
#[derive(Debug, Clone, Copy, PartialEq, Eq, Structural)]
pub enum MouseButton {
    Left,
    Right,
    Middle,
}

/// What a mouse event reports.
#[derive(Debug, Clone, Copy, PartialEq, Eq, Structural)]
pub enum MouseEventKind {
    Down(MouseButton),
    Up(MouseButton),
    Drag(MouseButton),
    Moved,
    ScrollDown,
    ScrollUp,
    ScrollLeft,
    ScrollRight,
}

/// One mouse event at a terminal cell.
#[derive(Debug, Clone, Copy, PartialEq, Eq, Structural)]
pub struct MouseEvent {
    pub kind: MouseEventKind,
    pub column: u16,
    pub row: u16,
}

/// Whether the cell at `column`, `row` lies on `span`.
pub open spec fn on_span(span: LinkSpan, row: u16, column: u16) -> bool {
    span.row == row && span.col_start <= column && column <= span.col_end
}

/// Whether the cell at `column`, `row` falls within `span`'s extent on its row.
pub fn span_contains(span: &LinkSpan, row: u16, column: u16) -> (r: bool)
    ensures
        r == on_span(*span, row, column),
{
    span.row == row && span.col_start <= column && column <= span.col_end
}

/// The position of the first span under the cell, counting only citations when
/// `citations_only` is set.
pub open spec fn first_span_at(links: Seq<LinkSpan>, row: u16, column: u16, citations_only: bool) -> Option<int>
    decreases links.len(),
{
    if links.len() == 0 {
        None
    } else if on_span(links[0], row, column) && (!citations_only || links[0].kind == LinkKind::Citation) {
        Some(0)
    } else {
        match first_span_at(links.drop_first(), row, column, citations_only) {
            Some(i) => Some(i + 1),
            None => None,
        }
    }
}

/// The target of the first span under the cell, counting only citations when
/// `citations_only` is set.
pub open spec fn url_at(links: Seq<LinkSpan>, row: u16, column: u16, citations_only: bool) -> Option<Seq<char>> {
    match first_span_at(links, row, column, citations_only) {
        Some(i) => Some(links[i].url@),
        None => None,
    }
}

proof fn lemma_first_span_at_bound(links: Seq<LinkSpan>, row: u16, column: u16, citations_only: bool)
    ensures
        first_span_at(links, row, column, citations_only) matches Some(i) ==> 0 <= i < links.len(),
    decreases links.len(),
{
    if links.len() > 0 {
        lemma_first_span_at_bound(links.drop_first(), row, column, citations_only);
    }
}

/// The target of the first span under the cell, counting only citations when
/// `citations_only` is set.
fn find_url_at(links: &[LinkSpan], row: u16, column: u16, citations_only: bool) -> (r: Option<String>)
    ensures
        match r {
            Some(u) => url_at(links@, row, column, citations_only) == Some(u@),
            None => url_at(links@, row, column, citations_only) is None,
        },
{
    let ghost all = links@;
    proof {
        assert(all.skip(0) =~= all);
        lemma_first_span_at_bound(all, row, column, citations_only);
    }
    let mut i: usize = 0;
    while i < links.len()
        invariant
            all == links@,
            i <= all.len(),
            first_span_at(all, row, column, citations_only) == match first_span_at(all.skip(i as int), row, column, citations_only) {
                Some(k) => Some(k + i),
                None => None,
            },
        decreases all.len() - i,
    {
        proof {
            assert(all.skip(i as int)[0] == all[i as int]);
            assert(all.skip(i as int).drop_first() =~= all.skip(i + 1));
        }
        let hit = span_contains(&links[i], row, column) && (!citations_only || links[i].kind
            == LinkKind::Citation);
        if hit {
            return Some(owned(links[i].url.as_str()));
        }
        i = i + 1;
    }
    proof {
        assert(all.skip(i as int).len() == 0);
    }
    None
}

/// Sets `navigate_to_url` to the link under the pointer, leaving it untouched when the
/// pointer rests on no link or outside the page body. Used for a clean click.
pub fn activate_link_under_pointer(
    mouse: &MouseEvent,
    page: &PageLayout,
    scroll_offset: u16,
    body_area_top_row: u16,
    navigate_to_url: &mut Option<String>,
)
    ensures
        match document_cell(mouse.column, mouse.row, scroll_offset, body_area_top_row) {
            Some(p) => match url_at(page.links@, p.row, p.column, false) {
                Some(u) => *final(navigate_to_url) matches Some(v) && v@ == u,
                None => *final(navigate_to_url) == *old(navigate_to_url),
            },
            None => *final(navigate_to_url) == *old(navigate_to_url),
        },
{
    let pointer = match document_coordinate(mouse.column, mouse.row, scroll_offset, body_area_top_row) {
        Some(p) => p,
        None => return,
    };
    if let Some(url) = find_url_at(page.links.as_slice(), pointer.row, pointer.column, false) {
        *navigate_to_url = Some(url);
    }
}

/// Shows the citation preview while the pointer rests on a citation span and clears it
/// otherwise. Leaves the preview untouched when the pointer is outside the page body.
pub fn update_citation_preview_for_pointer(
    mouse: &MouseEvent,
    page: &PageLayout,
    scroll_offset: u16,
    body_area_top_row: u16,
    ui_state: &mut UiState,
)
    requires
        old(ui_state).wf(),
    ensures
        final(ui_state).wf(),
        final(ui_state)@ == match document_cell(mouse.column, mouse.row, scroll_offset, body_area_top_row) {
            Some(p) => UiView { citation: url_at(page.links@, p.row, p.column, true), ..old(ui_state)@ },
            None => old(ui_state)@,
        },
{
    let pointer = match document_coordinate(mouse.column, mouse.row, scroll_offset, body_area_top_row) {
        Some(p) => p,
        None => return,
    };
    match find_url_at(page.links.as_slice(), pointer.row, pointer.column, true) {
        Some(url) => ui_state.set_citation_preview(url),
        None => ui_state.clear_citation_preview(),
    }
}

/// What a mouse event does to the selection while a page is shown, as a function of the
/// selection's anchor, cursor, and moved flag before the event.
pub open spec fn selection_after(
    mouse: MouseEvent,
    page: PageLayout,
    scroll_offset: u16,
    body_area_top_row: u16,
    anchor: Option<CellPosition>,
    cursor: Option<CellPosition>,
    moved: bool,
) -> (Option<CellPosition>, Option<CellPosition>, bool) {
    match mouse.kind {
        MouseEventKind::Down(MouseButton::Left) => match document_cell(mouse.column, mouse.row, scroll_offset, body_area_top_row) {
            Some(p) => (Some(p), Some(p), false),
            None => (anchor, cursor, moved),
        },
        MouseEventKind::Drag(MouseButton::Left) => match anchor {
            Some(a) => {
                let c = clamped_cell(mouse.column, mouse.row, page.width, page.height, scroll_offset, body_area_top_row);
                (Some(a), Some(c), moved || c != a)
            },
            None => (anchor, cursor, moved),
        },
        MouseEventKind::Up(MouseButton::Left) => if moved {
            (anchor, cursor, moved)
        } else {
            (None, None, false)
        },
        _ => (anchor, cursor, moved),
    }
}

/// Dispatches a mouse gesture over the page body. A press begins a selection; a drag
/// extends it, clamped to the page so dragging into the chrome or past the content never
/// leaves the grid; a release either keeps the highlight (the gesture moved, so it is a
/// selection) or activates the link under the pointer and clears the selection (it did not
/// move, so it is a click); a plain move updates the citation preview. Wheel and other
/// events are ignored. Nothing happens while no page is shown.
///
/// When a moved gesture is released with `copy_on_select` on, the highlighted range comes
/// back so the caller can extract its text and hand it to [`copy_selected_text`].
pub fn handle_mouse_event(
    mouse: MouseEvent,
    page: Option<&PageLayout>,
    scroll_offset: u16,
    body_area_top_row: u16,
    selection: &mut TextSelection,
    navigate_to_url: &mut Option<String>,
    ui_state: &mut UiState,
    copy_on_select: bool,
) -> (r: Option<(CellPosition, CellPosition)>)
    requires
        old(ui_state).wf(),
        old(selection).wf(),
    ensures
        final(ui_state).wf(),
        final(selection).wf(),
        match page {
            None => {
                &&& r is None
                &&& *final(selection) == *old(selection)
                &&& *final(navigate_to_url) == *old(navigate_to_url)
                &&& final(ui_state)@ == old(ui_state)@
            },
            Some(p) => {
                let after = selection_after(
                    mouse,
                    *p,
                    scroll_offset,
                    body_area_top_row,
                    old(selection).spec_anchor(),
                    old(selection).spec_cursor(),
                    old(selection).spec_moved(),
                );
                let released_click = mouse.kind == MouseEventKind::Up(MouseButton::Left)
                    && !old(selection).spec_moved();
                &&& (final(selection).spec_anchor(), final(selection).spec_cursor(), final(selection).spec_moved()) == after
                &&& r == (if mouse.kind == MouseEventKind::Up(MouseButton::Left) && old(selection).spec_moved() && copy_on_select {
                    Some(reading_order_spec(old(selection).spec_anchor()->0, old(selection).spec_cursor()->0))
                } else {
                    None
                })
                &&& if released_click {
                    match document_cell(mouse.column, mouse.row, scroll_offset, body_area_top_row) {
                        Some(c) => match url_at(p.links@, c.row, c.column, false) {
                            Some(u) => *final(navigate_to_url) matches Some(v) && v@ == u,
                            None => *final(navigate_to_url) == *old(navigate_to_url),
                        },
                        None => *final(navigate_to_url) == *old(navigate_to_url),
                    }
                } else {
                    *final(navigate_to_url) == *old(navigate_to_url)
                }
                &&& final(ui_state)@ == if mouse.kind == MouseEventKind::Moved {
                    match document_cell(mouse.column, mouse.row, scroll_offset, body_area_top_row) {
                        Some(c) => UiView { citation: url_at(p.links@, c.row, c.column, true), ..old(ui_state)@ },
                        None => old(ui_state)@,
                    }
                } else {
                    old(ui_state)@
                }
            },
        },
{
    let page = match page {
        Some(page) => page,
        None => return None,
    };
    match mouse.kind {
        MouseEventKind::Down(MouseButton::Left) => {
            if let Some(anchor) = document_coordinate(mouse.column, mouse.row, scroll_offset, body_area_top_row) {
                selection.begin(anchor);
            }
            None
        },
        MouseEventKind::Drag(MouseButton::Left) => {
            if selection.is_dragging() {
                let cursor = clamped_document_coordinate(
                    mouse.column,
                    mouse.row,
                    page.width,
                    page.height,
                    scroll_offset,
                    body_area_top_row,
                );
                selection.update(cursor);
            }
            None
        },
        MouseEventKind::Up(MouseButton::Left) => {
            if selection.has_moved() {
                if copy_on_select {
                    return selection.range();
                }
                return None;
            }
            activate_link_under_pointer(&mouse, page, scroll_offset, body_area_top_row, navigate_to_url);
            selection.clear();
            None
        },
        MouseEventKind::Moved => {
            update_citation_preview_for_pointer(&mouse, page, scroll_offset, body_area_top_row, ui_state);
            None
        },
        _ => None,
    }
}

/// Whether every character of `text` is whitespace (so an empty text is blank too).
pub open spec fn blank(text: Seq<char>) -> bool {
    forall|i: int| 0 <= i < text.len() ==> spec_is_whitespace(#[trigger] text[i])
}

fn is_blank(text: &str) -> (r: bool)
    ensures
        r == blank(text@),
{
    let chars = chars_of(text);
    let mut i: usize = 0;
    while i < chars.len()
        invariant
            chars@ == text@,
            i <= chars.len(),
            forall|k: int| 0 <= k < i ==> spec_is_whitespace(#[trigger] chars@[k]),
        decreases chars.len() - i,
    {
        if !is_whitespace_char(chars[i]) {
            return false;
        }
        i = i + 1;
    }
    true
}

/// Records the result of copying `text`: a successful write shows the
/// `copied N chars to clipboard` confirmation; a failed one changes nothing.
pub fn record_copy_outcome(outcome: ClipboardOutcome, text: &str, ui_state: &mut UiState, now: u64)
    requires
        old(ui_state).wf(),
    ensures
        final(ui_state).wf(),
        final(ui_state)@ == if outcome != ClipboardOutcome::Failed {
            UiView {
                transient: Some(copied_text(grapheme_count(text@))),
                transient_set_at: Some(now),
                ..old(ui_state)@
            }
        } else {
            old(ui_state)@
        },
{
    if !clipboard_write_succeeded(outcome) {
        return;
    }
    ui_state.set_transient_message(copied_message(text), now);
}

/// Copies a released selection's text to the clipboard. A blank selection is skipped. When
/// the copy is over at once, its outcome is recorded as [`record_copy_outcome`] does: a
/// successful write shows the `copied N chars to clipboard` confirmation, and the highlight
/// stays so the reader sees what was copied. When the copy goes through OSC 52, the
/// sequence comes back and nothing is recorded yet: the caller writes it to the terminal and
/// records [`osc52_outcome`](crate::clipboard::osc52_outcome) of the answer.
pub fn copy_selected_text(text: &str, force_osc52: bool, ui_state: &mut UiState, now: u64) -> (r: Option<String>)
    requires
        old(ui_state).wf(),
    ensures
        final(ui_state).wf(),
        blank(text@) ==> r is None && final(ui_state)@ == old(ui_state)@,
        r matches Some(sequence) ==> sequence@ == osc52_text(text) && final(ui_state)@ == old(ui_state)@,
        !blank(text@) && text.spec_bytes().len() <= MAX_OSC52_BYTES && force_osc52 ==> r is Some,
        text.spec_bytes().len() > MAX_OSC52_BYTES && force_osc52 ==> r is None && final(ui_state)@
            == old(ui_state)@,
        !blank(text@) && r is None ==> final(ui_state)@ == old(ui_state)@ || final(ui_state)@ == (UiView {
            transient: Some(copied_text(grapheme_count(text@))),
            transient_set_at: Some(now),
            ..old(ui_state)@
        }),
        !blank(text@) && r is None && text.spec_bytes().len() <= MAX_OSC52_BYTES ==> final(ui_state)@
            == (UiView {
            transient: Some(copied_text(grapheme_count(text@))),
            transient_set_at: Some(now),
            ..old(ui_state)@
        }),
{
    if is_blank(text) {
        return None;
    }
    match copy_to_clipboard(text, force_osc52) {
        CopyStep::Finished(outcome) => {
            record_copy_outcome(outcome, text, ui_state, now);
            None
        },
        CopyStep::SendOsc52(sequence) => Some(sequence),
    }
}

/// The distinct link targets in the order they first appear: the list Tab steps through.
pub open spec fn unique_urls(links: Seq<LinkSpan>) -> Seq<Seq<char>>
    decreases links.len(),
{
    if links.len() == 0 {
        Seq::empty()
    } else {
        let earlier = unique_urls(links.drop_last());
        if earlier.contains(links.last().url@) {
            earlier
        } else {
            earlier.push(links.last().url@)
        }
    }
}

/// The position of the first span whose target is `url`.
pub open spec fn first_span_for(links: Seq<LinkSpan>, url: Seq<char>) -> Option<int>
    decreases links.len(),
{
    if links.len() == 0 {
        None
    } else if links[0].url@ == url {
        Some(0)
    } else {
        match first_span_for(links.drop_first(), url) {
            Some(i) => Some(i + 1),
            None => None,
        }
    }
}

proof fn lemma_first_span_for_bound(links: Seq<LinkSpan>, url: Seq<char>)
    ensures
        first_span_for(links, url) matches Some(i) ==> 0 <= i < links.len() && links[i].url@ == url,
    decreases links.len(),
{
    if links.len() > 0 {
        lemma_first_span_for_bound(links.drop_first(), url);
    }
}

/// The row of the first span whose target is `url`.
pub open spec fn url_row(links: Seq<LinkSpan>, url: Seq<char>) -> Option<u16> {
    match first_span_for(links, url) {
        Some(i) => Some(links[i].row),
        None => None,
    }
}

/// The kind of the first span whose target is `url`.
pub open spec fn url_kind(links: Seq<LinkSpan>, url: Seq<char>) -> Option<LinkKind> {
    match first_span_for(links, url) {
        Some(i) => Some(links[i].kind),
        None => None,
    }
}

/// The target at position `index` of the Tab order, if there is one.
pub open spec fn focus_url(links: Seq<LinkSpan>, index: int) -> Option<Seq<char>> {
    if 0 <= index < unique_urls(links).len() {
        Some(unique_urls(links)[index])
    } else {
        None
    }
}

/// The row of the target at position `index` of the Tab order.
pub open spec fn focus_row(links: Seq<LinkSpan>, index: int) -> Option<u16> {
    match focus_url(links, index) {
        Some(u) => url_row(links, u),
        None => None,
    }
}

/// The first position of `urls` whose target starts at or below `offset`, if any.
pub open spec fn first_visible_pos(links: Seq<LinkSpan>, urls: Seq<Seq<char>>, offset: u16) -> Option<int>
    decreases urls.len(),
{
    if urls.len() == 0 {
        None
    } else if url_row(links, urls[0]) matches Some(row) && row >= offset {
        Some(0)
    } else {
        match first_visible_pos(links, urls.drop_first(), offset) {
            Some(i) => Some(i + 1),
            None => None,
        }
    }
}

/// The position in the Tab order of the first target starting at or below `offset`, so Tab
/// focuses a link the reader can see; the first target when every one lies above.
pub open spec fn first_visible_index(links: Seq<LinkSpan>, offset: u16) -> int {
    match first_visible_pos(links, unique_urls(links), offset) {
        Some(i) => i,
        None => 0,
    }
}

/// The targets held by a list of owned strings.
pub open spec fn url_views(urls: Seq<String>) -> Seq<Seq<char>> {
    urls.map_values(|u: String| u@)
}

fn contains_url(urls: &Vec<String>, url: &str) -> (r: bool)
    ensures
        r == url_views(urls@).contains(url@),
{
    let mut i: usize = 0;
    while i < urls.len()
        invariant
            i <= urls.len(),
            forall|k: int| 0 <= k < i ==> url_views(urls@)[k] != url@,
        decreases urls.len() - i,
    {
        if str_equals(urls[i].as_str(), url) {
            proof {
                assert(url_views(urls@)[i as int] == url@);
            }
            return true;
        }
        i = i + 1;
    }
    false
}

/// The distinct link targets in the order they first appear.
pub fn unique_link_urls(links: &[LinkSpan]) -> (r: Vec<String>)
    ensures
        url_views(r@) == unique_urls(links@),
{
    let mut urls: Vec<String> = Vec::new();
    let mut i: usize = 0;
    while i < links.len()
        invariant
            i <= links@.len(),
            url_views(urls@) == unique_urls(links@.take(i as int)),
        decreases links@.len() - i,
    {
        proof {
            assert(links@.take(i + 1).drop_last() =~= links@.take(i as int));
            assert(links@.take(i + 1).last() == links@[i as int]);
        }
        let url = links[i].url.as_str();
        if !contains_url(&urls, url) {
            let ghost before = urls@;
            urls.push(owned(url));
            proof {
                assert(url_views(urls@) =~= url_views(before).push(url@));
            }
        }
        i = i + 1;
    }
    proof {
        assert(links@.take(links@.len() as int) =~= links@);
    }
    urls
}

/// How a page cell is drawn over its own style: as part of the focused link, of a visited
/// link, or plainly.
#[derive(Debug, Clone, Copy, PartialEq, Eq, Structural)]
pub enum LinkHighlight {
    Plain,
    Focused,
    Visited,
}

/// The highlight of the cell at `column`, `row`: the first link span under it decides,
/// focused when its target is the focused link's, visited when its target was visited this
/// session, plain otherwise and off links.
pub open spec fn link_highlight_for(
    links: Seq<LinkSpan>,
    row: u16,
    column: u16,
    focused_url: Option<Seq<char>>,
    visited: Set<Seq<char>>,
) -> LinkHighlight {
    match url_at(links, row, column, false) {
        None => LinkHighlight::Plain,
        Some(u) => if focused_url == Some(u) {
            LinkHighlight::Focused
        } else if visited.contains(u) {
            LinkHighlight::Visited
        } else {
            LinkHighlight::Plain
        },
    }
}

/// The target of the focused link while link navigation points at one of the page's links.
pub fn focused_link_url(ui_state: &UiState, links: &[LinkSpan]) -> (r: Option<String>)
    ensures
        match r {
            Some(u) => ui_state@.focused_link matches Some(i) && focus_url(links@, i as int) == Some(u@),
            None => match ui_state@.focused_link {
                Some(i) => focus_url(links@, i as int) is None,
                None => true,
            },
        },
{
    let index = match ui_state.focused_link_index() {
        Some(index) => index,
        None => return None,
    };
    let urls = unique_link_urls(links);
    if index >= urls.len() {
        return None;
    }
    proof {
        assert(url_views(urls@)[index as int] == urls@[index as int]@);
    }
    Some(owned(urls[index].as_str()))
}

/// How to draw the page cell at `column`, `row` given the focused link's target: the
/// focused link stands out, a visited link is dimmed, and every other cell keeps its style.
pub fn link_highlight(
    links: &[LinkSpan],
    row: u16,
    column: u16,
    focused_url: Option<&str>,
    ui_state: &UiState,
) -> (r: LinkHighlight)
    ensures
        r == link_highlight_for(
            links@,
            row,
            column,
            match focused_url {
                Some(u) => Some(u@),
                None => None,
            },
            ui_state@.visited,
        ),
{
    let url = match find_url_at(links, row, column, false) {
        Some(url) => url,
        None => return LinkHighlight::Plain,
    };
    let is_focused = match focused_url {
        Some(f) => str_equals(f, url.as_str()),
        None => false,
    };
    if is_focused {
        return LinkHighlight::Focused;
    }
    if ui_state.is_visited(url.as_str()) {
        return LinkHighlight::Visited;
    }
    LinkHighlight::Plain
}

/// The row and kind of the first span whose target is `url`.
fn span_for_url(links: &[LinkSpan], url: &str) -> (r: Option<(u16, LinkKind)>)
    ensures
        match r {
            Some((row, kind)) => url_row(links@, url@) == Some(row) && url_kind(links@, url@) == Some(kind),
            None => first_span_for(links@, url@) is None,
        },
{
    let ghost all = links@;
    proof {
        assert(all.skip(0) =~= all);
        lemma_first_span_for_bound(all, url@);
    }
    let mut i: usize = 0;
    while i < links.len()
        invariant
            all == links@,
            i <= all.len(),
            first_span_for(all, url@) == match first_span_for(all.skip(i as int), url@) {
                Some(k) => Some(k + i),
                None => None,
            },
        decreases all.len() - i,
    {
        proof {
            assert(all.skip(i as int)[0] == all[i as int]);
            assert(all.skip(i as int).drop_first() =~= all.skip(i + 1));
        }
        if str_equals(links[i].url.as_str(), url) {
            return Some((links[i].row, links[i].kind));
        }
        i = i + 1;
    }
    proof {
        assert(all.skip(i as int).len() == 0);
    }
    None
}

/// The position in the Tab order of the first link starting at or below `scroll_offset`,
/// or the first link when every one lies above the viewport.
pub fn first_visible_link_index(links: &[LinkSpan], scroll_offset: u16) -> (r: usize)
    ensures
        r == first_visible_index(links@, scroll_offset),
{
    let urls = unique_link_urls(links);
    let ghost all = url_views(urls@);
    proof {
        assert(all.skip(0) =~= all);
    }
    let mut i: usize = 0;
    while i < urls.len()
        invariant
            all == url_views(urls@),
            all == unique_urls(links@),
            i <= all.len(),
            first_visible_pos(links@, all, scroll_offset) == match first_visible_pos(links@, all.skip(i as int), scroll_offset) {
                Some(k) => Some(k + i),
                None => None,
            },
        decreases all.len() - i,
    {
        proof {
            assert(all.skip(i as int)[0] == all[i as int]);
            assert(all.skip(i as int).drop_first() =~= all.skip(i + 1));
        }
        if let Some((row, _kind)) = span_for_url(links, urls[i].as_str()) {
            if row >= scroll_offset {
                return i;
            }
        }
        i = i + 1;
    }
    proof {
        assert(all.skip(i as int).len() == 0);
    }
    0
}

/// The row and kind of the link at position `index` of the Tab order, or `None` when there
/// is no such link.
pub(crate) fn focused_link_span(links: &[LinkSpan], index: usize) -> (r: Option<(String, u16, LinkKind)>)
    ensures
        match r {
            Some((url, row, kind)) => focus_url(links@, index as int) == Some(url@)
                && url_row(links@, url@) == Some(row) && url_kind(links@, url@) == Some(kind),
            None => focus_row(links@, index as int) is None && match focus_url(links@, index as int) {
                Some(u) => url_kind(links@, u) is None,
                None => true,
            },
        },
{
    let urls = unique_link_urls(links);
    if index >= urls.len() {
        return None;
    }
    let url = owned(urls[index].as_str());
    proof {
        assert(url_views(urls@)[index as int] == urls@[index as int]@);
    }
    match span_for_url(links, url.as_str()) {
        Some((row, kind)) => Some((url, row, kind)),
        None => None,
    }
}

/// What focusing the link at position `index` of the Tab order does to the chrome state:
/// link navigation points at it, and the citation preview shows its target when it is a
/// citation and is cleared otherwise.
pub open spec fn focus_view(v: UiView, links: Seq<LinkSpan>, index: int, entering: bool) -> UiView {
    UiView {
        mode: if entering { crate::ui_state::InteractionMode::LinkNavigation } else { v.mode },
        focused_link: Some(index as usize),
        citation: match focus_url(links, index) {
            Some(u) => if url_kind(links, u) == Some(LinkKind::Citation) {
                Some(u)
            } else {
                None
            },
            None => None,
        },
        ..v
    }
}

/// The scroll offset after focusing position `index`: just far enough to reveal its row,
/// or unchanged when it has none.
pub open spec fn focus_offset(links: Seq<LinkSpan>, index: int, offset: int, bounds: ViewportBounds) -> int {
    match focus_row(links, index) {
        Some(row) => reveal_row_offset(offset, row as int, bounds.height as int, bounds.max_offset as int),
        None => offset,
    }
}

/// Scrolls to reveal the focused link and points the citation preview at it.
fn settle_link_focus(ui_state: &mut UiState, links: &[LinkSpan], scroll: &mut ScrollState, bounds: ViewportBounds)
    requires
        old(ui_state).wf(),
        old(ui_state)@.focused_link is Some,
    ensures
        final(ui_state).wf(),
        ({
            let index = old(ui_state)@.focused_link->0 as int;
            &&& final(scroll).spec_offset() == focus_offset(links@, index, old(scroll).spec_offset(), bounds)
            &&& final(ui_state)@ == (UiView {
                citation: focus_view(old(ui_state)@, links@, index, false).citation,
                ..old(ui_state)@
            })
        }),
{
    let index = match ui_state.focused_link_index() {
        Some(i) => i,
        None => return,
    };
    match focused_link_span(links, index) {
        Some((url, row, kind)) => {
            scroll.reveal_row(row, bounds.height, bounds.max_offset);
            if kind == LinkKind::Citation {
                ui_state.set_citation_preview(url);
            } else {
                ui_state.clear_citation_preview();
            }
        },
        None => {
            ui_state.clear_citation_preview();
        },
    }
}

/// Moves focus to the next link in Tab order, wrapping at the end; with nothing focused it
/// enters link navigation at the first link the reader can see. The viewport then scrolls
/// the minimum needed to reveal the focused link, and the citation preview follows it.
/// Nothing happens while no page is shown or the page has no links.
pub fn advance_link_focus(
    ui_state: &mut UiState,
    links: Option<&[LinkSpan]>,
    scroll: &mut ScrollState,
    bounds: ViewportBounds,
)
    requires
        old(ui_state).wf(),
        old(ui_state)@.focused_link != Some(usize::MAX),
    ensures
        final(ui_state).wf(),
        match links {
            Some(l) if unique_urls(l@).len() > 0 => {
                let count = unique_urls(l@).len() as int;
                let index = match old(ui_state)@.focused_link {
                    Some(i) => wrap_next(i as int, count),
                    None => first_visible_index(l@, old(scroll).spec_offset() as u16),
                };
                &&& final(ui_state)@ == focus_view(old(ui_state)@, l@, index, old(ui_state)@.focused_link is None)
                &&& final(scroll).spec_offset() == focus_offset(l@, index, old(scroll).spec_offset(), bounds)
            },
            _ => final(ui_state)@ == old(ui_state)@ && *final(scroll) == *old(scroll),
        },
{
    let links = match links {
        Some(l) => l,
        None => return,
    };
    let count = unique_link_urls(links).len();
    if count == 0 {
        return;
    }
    if ui_state.focused_link_index().is_none() {
        let first = first_visible_link_index(links, scroll.offset());
        ui_state.enter_link_navigation(first);
    } else {
        ui_state.focus_next_link(count);
    }
    settle_link_focus(ui_state, links, scroll, bounds);
}

/// Moves focus to the previous link in Tab order, wrapping at the start; with nothing
/// focused it enters link navigation at the first link the reader can see. The viewport
/// then scrolls the minimum needed to reveal the focused link, and the citation preview
/// follows it. Nothing happens while no page is shown or the page has no links.
pub fn retreat_link_focus(
    ui_state: &mut UiState,
    links: Option<&[LinkSpan]>,
    scroll: &mut ScrollState,
    bounds: ViewportBounds,
)
    requires
        old(ui_state).wf(),
    ensures
        final(ui_state).wf(),
        match links {
            Some(l) if unique_urls(l@).len() > 0 => {
                let count = unique_urls(l@).len() as int;
                let index = match old(ui_state)@.focused_link {
                    Some(i) => wrap_prev(i as int, count),
                    None => first_visible_index(l@, old(scroll).spec_offset() as u16),
                };
                &&& final(ui_state)@ == focus_view(old(ui_state)@, l@, index, old(ui_state)@.focused_link is None)
                &&& final(scroll).spec_offset() == focus_offset(l@, index, old(scroll).spec_offset(), bounds)
            },
            _ => final(ui_state)@ == old(ui_state)@ && *final(scroll) == *old(scroll),
        },
{
    let links = match links {
        Some(l) => l,
        None => return,
    };
    let count = unique_link_urls(links).len();
    if count == 0 {
        return;
    }
    if ui_state.focused_link_index().is_none() {
        let first = first_visible_link_index(links, scroll.offset());
        ui_state.enter_link_navigation(first);
    } else {
        ui_state.focus_previous_link(count);
    }
    settle_link_focus(ui_state, links, scroll, bounds);
}

} // verus!
