//! Composes the slash-command palette popup rows, alignment, and scroll window.

use vstd::prelude::*;

use crate::command::CommandMatch;
use crate::history_view::list_window;
use crate::text::{fit_padded, fit_to_width, owned, push_spaces, push_str, spaces, str_width, unicode_str_width};
use crate::viewport::sat_sub;

verus! {

/// Maximum number of command rows the palette popup shows at once.
pub const MENU_MAX_ROWS: usize = 8;

/// A composed palette popup: the visible rows, each already truncated and padded to the
/// popup width, and which of those rows carries the selection highlight.
pub struct PaletteMenu {
    pub rows: Vec<String>,
    pub selected_row: usize,
}

/// A command name as the palette shows it: with its leading `/`.
pub open spec fn labeled_name(name: Seq<char>) -> Seq<char> {
    seq!['/'] + name
}

/// The description column: the display width of the widest `/name` across `ms`.
pub open spec fn name_column(ms: Seq<CommandMatch>) -> int
    decreases ms.len(),
{
    if ms.len() == 0 {
        0
    } else {
        let earlier = name_column(ms.drop_last());
        let here = unicode_str_width(labeled_name(ms.last().spec.name@)) as int;
        if here > earlier {
            here
        } else {
            earlier
        }
    }
}

/// One palette row: `/name`, padding to the description column, a two-space gap, the
/// description, all fitted to `width` columns.
pub open spec fn menu_row_text(name: Seq<char>, description: Seq<char>, column: int, width: int) -> Seq<
    char,
> {
    let labeled = labeled_name(name);
    fit_padded(
        labeled + spaces(sat_sub(column, unicode_str_width(labeled) as int) as nat) + "  "@
            + description,
        width,
    )
}

/// The argument-hint row: the Tab marker and the hint, fitted to `width` columns.
pub open spec fn arg_hint_text(hint: Seq<char>, width: int) -> Seq<char> {
    fit_padded("↹ "@ + hint, width)
}

/// Chooses which slice of the match list is visible so the selected row stays on screen.
/// The window is anchored to the top until the selection would fall past the last visible
/// row, then it scrolls down just enough to keep the selection as the bottom row.
pub fn visible_window(match_count: usize, selected: usize, max_rows: usize) -> (r: (usize, usize))
    ensures
        (r.0 as int, r.1 as int) == list_window(match_count as int, Some(selected), max_rows as int),
        r.0 + r.1 <= match_count,
        selected < match_count && max_rows > 0 ==> r.0 <= selected < r.0 + r.1,
{
    let window_len = if match_count < max_rows {
        match_count
    } else {
        max_rows
    };
    if window_len == 0 {
        return (0, 0);
    }
    let sel = if selected < match_count - 1 {
        selected
    } else {
        match_count - 1
    };
    let start = if sel < max_rows {
        0
    } else {
        sel + 1 - max_rows
    };
    let max_start = match_count - window_len;
    let first = if start < max_start {
        start
    } else {
        max_start
    };
    (first, window_len)
}

/// Display width of the widest `/name` label across every match, used as the aligned
/// description column position.
pub fn name_column_width(matches: &[CommandMatch]) -> (r: usize)
    ensures
        r == name_column(matches@),
{
    let mut widest: usize = 0;
    let mut i: usize = 0;
    while i < matches.len()
        invariant
            i <= matches@.len(),
            matches@.len() == matches.len(),
            widest == name_column(matches@.take(i as int)),
        decreases matches.len() - i,
    {
        proof {
            assert(matches@.take(i + 1).drop_last() =~= matches@.take(i as int));
        }
        let mut labeled = owned("/");
        push_str(&mut labeled, matches[i].spec.name);
        proof {
            reveal_strlit("/");
            assert(labeled@ =~= labeled_name(matches@[i as int].spec.name@));
        }
        let here = str_width(labeled.as_str());
        if here > widest {
            widest = here;
        }
        i = i + 1;
    }
    proof {
        assert(matches@.take(matches@.len() as int) =~= matches@);
    }
    widest
}

/// Formats one popup row as `/name  description`, padding the name into its aligned column
/// and fitting the whole row to exactly `width` columns.
pub fn format_menu_row(name: &str, description: &str, column: usize, width: usize) -> (r: String)
    ensures
        r@ == menu_row_text(name@, description@, column as int, width as int),
{
    let mut labeled = owned("/");
    push_str(&mut labeled, name);
    let name_width = str_width(labeled.as_str());
    let padding = column.saturating_sub(name_width);
    let mut full_row = owned(labeled.as_str());
    push_spaces(&mut full_row, padding);
    push_str(&mut full_row, "  ");
    push_str(&mut full_row, description);
    proof {
        reveal_strlit("/");
        assert(labeled@ =~= labeled_name(name@));
    }
    fit_to_width(full_row.as_str(), width)
}

/// Formats the argument-hint row (for example `↹ /open <url>`) shown beneath the menu,
/// fitted to `width` columns so it spans the popup line like the command rows.
pub fn compose_arg_hint_row(hint: &str, width: u16) -> (r: String)
    ensures
        r@ == arg_hint_text(hint@, width as int),
{
    let mut prefixed = owned("↹ ");
    push_str(&mut prefixed, hint);
    fit_to_width(prefixed.as_str(), width as usize)
}

/// The rows and highlight `compose_palette_menu` owes for `matches`.
pub open spec fn palette_menu_matches(
    matches: Seq<CommandMatch>,
    selected: int,
    width: int,
    max_rows: int,
    menu: PaletteMenu,
) -> bool {
    if matches.len() == 0 || width == 0 || max_rows == 0 {
        menu.rows@.len() == 0 && menu.selected_row == 0
    } else {
        let sel = if selected < matches.len() - 1 {
            selected
        } else {
            matches.len() - 1
        };
        let (start, len) = list_window(matches.len() as int, Some(sel as usize), max_rows);
        &&& menu.rows@.len() == len
        &&& forall|i: int|
            0 <= i < len ==> (#[trigger] menu.rows@[i])@ == menu_row_text(
                matches[start + i].spec.name@,
                matches[start + i].spec.description@,
                name_column(matches),
                width,
            )
        &&& menu.selected_row == sel - start
    }
}

/// Composes the visible palette rows for `matches`, scrolled so `selected` stays in view
/// and each row fitted to `width` columns. Descriptions align into a column past the
/// widest command name across the whole match list, so the column stays put while
/// scrolling. Returns no rows when there is nothing to show or no width to show it in.
pub fn compose_palette_menu(
    matches: &[CommandMatch],
    selected: usize,
    width: u16,
    max_rows: usize,
) -> (r: PaletteMenu)
    ensures
        palette_menu_matches(matches@, selected as int, width as int, max_rows as int, r),
        r.rows@.len() > 0 ==> r.selected_row < r.rows@.len(),
{
    let width = width as usize;
    if matches.len() == 0 || width == 0 || max_rows == 0 {
        return PaletteMenu { rows: Vec::new(), selected_row: 0 };
    }
    let selected = if selected < matches.len() - 1 {
        selected
    } else {
        matches.len() - 1
    };
    let (window_start, window_len) = visible_window(matches.len(), selected, max_rows);
    let column = name_column_width(matches);
    let mut rows: Vec<String> = Vec::new();
    let mut i: usize = 0;
    while i < window_len
        invariant
            window_start + window_len <= matches@.len(),
            matches@.len() == matches.len(),
            column == name_column(matches@),
            i <= window_len,
            rows@.len() == i,
            forall|k: int|
                0 <= k < i ==> (#[trigger] rows@[k])@ == menu_row_text(
                    matches@[window_start + k].spec.name@,
                    matches@[window_start + k].spec.description@,
                    column as int,
                    width as int,
                ),
        decreases window_len - i,
    {
        let found = matches[window_start + i];
        rows.push(format_menu_row(found.spec.name, found.spec.description, column, width));
        i = i + 1;
    }
    PaletteMenu { rows, selected_row: selected - window_start }
}

} // verus!
