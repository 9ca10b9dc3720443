//! The popups drawn over the bottom of the page area, composed from the chrome state: the
//! command palette, the address suggestions, the history and cookie lists, and the citation
//! preview. Each is `None` when there is nothing to draw.

use vstd::prelude::*;

use crate::history_view::{
    compose_list_menu, format_history_label, history_label_text, list_menu_matches,
    relative_time_text, ListMenu, LIST_MENU_MAX_ROWS,
};
use crate::palette_menu::{compose_palette_menu, palette_menu_matches, PaletteMenu, MENU_MAX_ROWS};
use crate::text::{strip_control, strip_control_spec};
use crate::ui_state::{InteractionMode, UiState};
use crate::viewport::min_int;

verus! {

/// How many rows a popup may use in a page area `height` rows tall.
pub open spec fn popup_rows(cap: usize, height: u16) -> int {
    min_int(cap as int, height as int)
}

/// The command palette popup: the ranked matches for the slash buffer, windowed around the
/// highlighted row. Nothing is drawn outside a slash buffer, with no match, or in an empty
/// area.
pub fn palette_popup(ui_state: &UiState, width: u16, height: u16) -> (r: Option<PaletteMenu>)
    ensures
        ({
            let v = ui_state@;
            let shown = v.command.len() > 0 && v.command[0] == '/' && v.palette.len() > 0 && width > 0
                && height > 0;
            &&& !shown ==> r is None
            &&& shown ==> match r {
                Some(menu) => palette_menu_matches(
                    v.palette,
                    v.palette_index as int,
                    width as int,
                    popup_rows(MENU_MAX_ROWS, height),
                    menu,
                ) && menu.rows@.len() > 0,
                None => exists|menu: PaletteMenu|
                    #[trigger] palette_menu_matches(
                        v.palette,
                        v.palette_index as int,
                        width as int,
                        popup_rows(MENU_MAX_ROWS, height),
                        menu,
                    ) && menu.rows@.len() == 0,
            }
        }),
{
    if !ui_state.is_palette_active() {
        return None;
    }
    let matches = ui_state.palette_matches();
    if matches.len() == 0 || width == 0 || height == 0 {
        return None;
    }
    let max_rows = if MENU_MAX_ROWS < height as usize {
        MENU_MAX_ROWS
    } else {
        height as usize
    };
    let menu = compose_palette_menu(matches, ui_state.palette_selected(), width, max_rows);
    if menu.rows.len() == 0 {
        return None;
    }
    Some(menu)
}

/// A list popup over `labels`: `None` when nothing would be drawn, else the composed menu.
pub open spec fn list_popup_for(labels: Seq<String>, selected: Option<usize>, width: u16, height: u16, r: Option<ListMenu>) -> bool {
    match r {
        Some(menu) => list_menu_matches(labels, selected, width as int, popup_rows(LIST_MENU_MAX_ROWS, height), menu)
            && menu.rows@.len() > 0,
        None => exists|menu: ListMenu|
            #[trigger] list_menu_matches(labels, selected, width as int, popup_rows(LIST_MENU_MAX_ROWS, height), menu)
                && menu.rows@.len() == 0,
    }
}

fn list_popup(labels: &[String], selected: Option<usize>, width: u16, height: u16) -> (r: Option<ListMenu>)
    requires
        labels@.len() > 0,
        width > 0,
        height > 0,
    ensures
        list_popup_for(labels@, selected, width, height, r),
{
    let max_rows = if LIST_MENU_MAX_ROWS < height as usize {
        LIST_MENU_MAX_ROWS
    } else {
        height as usize
    };
    let menu = compose_list_menu(labels, selected, width, max_rows);
    if menu.rows.len() == 0 {
        return None;
    }
    Some(menu)
}

/// The address-suggestion popup while an address is typed: the stored URLs, control-stripped,
/// with the highlighted one marked.
pub fn suggestions_popup(ui_state: &UiState, width: u16, height: u16) -> (r: Option<ListMenu>)
    ensures
        ({
            let v = ui_state@;
            let shown = v.mode == InteractionMode::Command && v.suggestions.len() > 0 && width > 0 && height > 0;
            &&& !shown ==> r is None
            &&& shown ==> exists|labels: Seq<String>|
                labels.len() == v.suggestions.len()
                && (forall|i: int| 0 <= i < labels.len() ==> (#[trigger] labels[i])@ == strip_control_spec(v.suggestions[i]))
                && #[trigger] list_popup_for(labels, v.suggestion, width, height, r)
        }),
{
    if !ui_state.is_in_command_mode() {
        return None;
    }
    let suggestions = ui_state.address_suggestions();
    if suggestions.len() == 0 || width == 0 || height == 0 {
        return None;
    }
    let mut labels: Vec<String> = Vec::new();
    let mut i: usize = 0;
    while i < suggestions.len()
        invariant
            i <= suggestions@.len(),
            suggestions@.map_values(|u: String| u@) == ui_state@.suggestions,
            labels@.len() == i,
            forall|k: int| 0 <= k < i ==> (#[trigger] labels@[k])@ == strip_control_spec(ui_state@.suggestions[k]),
        decreases suggestions@.len() - i,
    {
        proof {
            assert(suggestions@.map_values(|u: String| u@)[i as int] == suggestions@[i as int]@);
        }
        labels.push(strip_control(suggestions[i].as_str()));
        i = i + 1;
    }
    let r = list_popup(labels.as_slice(), ui_state.selected_suggestion(), width, height);
    proof {
        assert(list_popup_for(labels@, ui_state@.suggestion, width, height, r));
    }
    r
}

/// The history popup while the history list is open: one label per entry, aged against
/// `now_unix`, with the highlighted entry marked.
pub fn history_popup(ui_state: &UiState, width: u16, height: u16, now_unix: i64) -> (r: Option<ListMenu>)
    ensures
        ({
            let v = ui_state@;
            let shown = v.mode == InteractionMode::History && v.history.len() > 0 && width > 0 && height > 0;
            &&& !shown ==> r is None
            &&& shown ==> exists|labels: Seq<String>|
                labels.len() == v.history.len()
                && (forall|i: int| 0 <= i < labels.len() ==> (#[trigger] labels[i])@
                    == relative_time_text(v.history[i].visited_at as int, now_unix as int) + "  "@
                    + history_label_text(v.history[i]))
                && #[trigger] list_popup_for(labels, Some(v.history_index as usize), width, height, r)
        }),
{
    if !ui_state.is_in_history_mode() {
        return None;
    }
    let entries = ui_state.history_entries();
    if entries.len() == 0 || width == 0 || height == 0 {
        return None;
    }
    let mut labels: Vec<String> = Vec::new();
    let mut i: usize = 0;
    while i < entries.len()
        invariant
            i <= entries@.len(),
            entries@ == ui_state@.history,
            labels@.len() == i,
            forall|k: int| 0 <= k < i ==> (#[trigger] labels@[k])@ == relative_time_text(
                ui_state@.history[k].visited_at as int,
                now_unix as int,
            ) + "  "@ + history_label_text(ui_state@.history[k]),
        decreases entries@.len() - i,
    {
        labels.push(format_history_label(&entries[i], now_unix));
        i = i + 1;
    }
    let r = list_popup(labels.as_slice(), Some(ui_state.history_selected()), width, height);
    proof {
        assert(list_popup_for(labels@, Some(ui_state@.history_index as usize), width, height, r));
    }
    r
}

/// The cookie popup while it is open: its composed lines with the highlighted one marked.
pub fn cookies_popup(ui_state: &UiState, width: u16, height: u16) -> (r: Option<ListMenu>)
    ensures
        ({
            let v = ui_state@;
            let shown = v.mode == InteractionMode::Cookies && v.cookies.len() > 0 && width > 0 && height > 0;
            &&& !shown ==> r is None
            &&& shown ==> exists|labels: Seq<String>|
                labels.map_values(|u: String| u@) == v.cookies
                && #[trigger] list_popup_for(labels, Some(v.cookie_index as usize), width, height, r)
        }),
{
    if !ui_state.is_in_cookies_mode() {
        return None;
    }
    let lines = ui_state.cookie_lines();
    if lines.len() == 0 || width == 0 || height == 0 {
        return None;
    }
    let r = list_popup(lines, Some(ui_state.cookie_selected()), width, height);
    proof {
        assert(list_popup_for(lines@, Some(ui_state@.cookie_index as usize), width, height, r));
    }
    r
}

/// The citation preview line: the previewed `cite` URL, control-stripped, while the preview
/// is visible and the area is not empty.
pub fn citation_popup(ui_state: &UiState, width: u16, height: u16) -> (r: Option<String>)
    ensures
        ({
            let v = ui_state@;
            let shown = v.citation is Some && v.suggestions.len() == 0 && (v.mode == InteractionMode::Reading
                || v.mode == InteractionMode::LinkNavigation) && width > 0 && height > 0;
            &&& !shown ==> r is None
            &&& shown ==> (r matches Some(line) && line@ == strip_control_spec(v.citation->0))
        }),
{
    if !ui_state.citation_preview_visible() {
        return None;
    }
    let url = match ui_state.citation_preview() {
        Some(url) => url,
        None => return None,
    };
    if width == 0 || height == 0 {
        return None;
    }
    Some(strip_control(url))
}

/// The top row and height of a popup of `rows` lines anchored to the bottom of a page area
/// that starts at row `area_y` and is `area_height` rows tall.
pub fn bottom_popup_rows(area_y: u16, area_height: u16, rows: u16) -> (r: (u16, u16))
    requires
        area_y + area_height <= u16::MAX,
        rows <= area_height,
    ensures
        r.0 == area_y + area_height - rows,
        r.1 == rows,
{
    (area_y + area_height - rows, rows)
}

} // verus!
