//! What a frame shows around and in place of the page: how the terminal splits into the page
//! area and the chrome rows, the command bar with its cursor, the padded body columns, and
//! the message a page-less body shows.

use vstd::prelude::*;

use crate::command_bar::{
    command_cursor_col, compose_command_bar_command, compose_command_bar_loading,
    compose_command_bar_reading, loading_text, prompt_text,
};
use crate::text::unicode_str_width;
use crate::text_editor::lemma_char_offset_is_boundary;
use crate::selection::CONTENT_PADDING;
use crate::settings_view::SettingsRow;
use crate::text::{owned, push_char};
use crate::ui_state::{reading_hint, InteractionMode, UiState, UiView};
use crate::view_state::ViewState;

verus! {

/// The command bar row of a frame.
#[derive(Debug, Clone, PartialEq, Eq)]
pub struct CommandBarRow {
    /// The composed row text.
    pub text: String,
    /// The terminal cursor's column within the row while a command or address is typed.
    pub cursor_col: Option<u16>,
}

/// The hint the command bar shows while reading: the transient message while one is set,
/// else the current rotating hint.
pub open spec fn shown_hint(v: UiView) -> Seq<char> {
    match v.transient {
        Some(m) => m,
        None => reading_hint(v.hint_index as int),
    }
}

/// The cursor column after the `> ` prompt and the typed text before the cursor, cut to a
/// terminal column.
pub open spec fn prompt_cursor_col(text: Seq<char>, cursor: nat) -> u16 {
    ((2 + unicode_str_width(text.take(cursor as int))) % 0x10000) as u16
}

/// The command bar row: the loading bar while a page loads, the typed buffer with the
/// cursor placed after the text before it while in command mode, and the shown hint
/// otherwise.
pub fn command_bar_row(ui_state: &UiState, loading: Option<(usize, &str, usize)>, terminal_width: u16) -> (r:
    CommandBarRow)
    requires
        ui_state.wf(),
    ensures
        match loading {
            Some((frame, url, bytes)) => r.text@ == loading_text(
                frame as nat,
                url@,
                bytes as nat,
                terminal_width as int,
            ) && r.cursor_col is None,
            None => if ui_state@.mode == InteractionMode::Command {
                &&& r.text@ == prompt_text(ui_state@.command, terminal_width as int)
                &&& r.cursor_col == Some(prompt_cursor_col(ui_state@.command, ui_state@.cursor))
            } else {
                &&& r.text@ == prompt_text(shown_hint(ui_state@), terminal_width as int)
                &&& r.cursor_col is None
            },
        },
{
    if let Some((frame, url, bytes)) = loading {
        let text = compose_command_bar_loading(frame, url, bytes, terminal_width);
        return CommandBarRow { text, cursor_col: None };
    }
    if ui_state.is_in_command_mode() {
        let buffer = ui_state.command_buffer();
        let offset = ui_state.cursor_byte_offset();
        proof {
            lemma_char_offset_is_boundary(ui_state@.command, ui_state@.cursor as int);
        }
        let text = compose_command_bar_command(buffer.as_str(), terminal_width);
        let col = command_cursor_col(buffer.as_str(), offset);
        return CommandBarRow { text, cursor_col: Some(col) };
    }
    let hint = ui_state.current_hint();
    let text = compose_command_bar_reading(hint.as_str(), terminal_width);
    CommandBarRow { text, cursor_col: None }
}

/// The text a body without a page shows.
pub const BLANK_PLACEHOLDER: &'static str = "(blank page)";

/// The message the body shows in place of a page: the placeholder on a blank page, the
/// failure's message on an error page, and nothing while a page is shown.
pub fn body_message(view: &ViewState) -> (r: Option<String>)
    ensures
        match view {
            ViewState::Page => r is None,
            ViewState::Blank => r matches Some(m) && m@ == BLANK_PLACEHOLDER@,
            ViewState::Error(message) => r matches Some(m) && m@ == message@,
        },
{
    match view {
        ViewState::Page => None,
        ViewState::Blank => Some(owned(BLANK_PLACEHOLDER)),
        ViewState::Error(message) => Some(owned(message.as_str())),
    }
}

/// The first column and the width of the page body inside an area starting at column `x`
/// and `width` columns wide: the padding is kept clear on both sides, saturating at the
/// bounds of the column range.
pub fn padded_body_columns(x: u16, width: u16) -> (r: (u16, u16))
    ensures
        r.0 == crate::viewport::sat_add_u16(x as int, CONTENT_PADDING as int),
        r.1 == crate::viewport::sat_sub(width as int, 2 * CONTENT_PADDING as int),
{
    (x.saturating_add(CONTENT_PADDING), width.saturating_sub(CONTENT_PADDING * 2))
}

/// How a settings row is emphasized when drawn.
#[derive(Debug, Clone, Copy, PartialEq, Eq, Structural)]
pub enum RowEmphasis {
    /// Drawn reversed: the focused row.
    Highlighted,
    /// Drawn dimmed: a row fixed by the environment.
    Dimmed,
    Plain,
}

/// The emphasis of a settings row: focus highlights it, an environment-fixed row is dimmed,
/// and every other row is plain. Focus wins over the dimming so the highlight stays visible.
pub fn settings_row_emphasis(row: &SettingsRow, is_focused: bool) -> (r: RowEmphasis)
    ensures
        r == if is_focused {
            RowEmphasis::Highlighted
        } else if row.env_overridden {
            RowEmphasis::Dimmed
        } else {
            RowEmphasis::Plain
        },
{
    if is_focused {
        return RowEmphasis::Highlighted;
    }
    if row.env_overridden {
        return RowEmphasis::Dimmed;
    }
    RowEmphasis::Plain
}

/// The separator row between the page and the command bar, and between the command bar and
/// the title bar: `width` box-drawing horizontals.
pub fn separator_line(width: u16) -> (r: String)
    ensures
        r@ == Seq::new(width as nat, |i: int| '\u{2500}'),
{
    let mut line = String::new();
    let mut i: u16 = 0;
    while i < width
        invariant
            i <= width,
            line@ == Seq::new(i as nat, |k: int| '\u{2500}'),
        decreases width - i,
    {
        push_char(&mut line, '\u{2500}');
        proof {
            assert(line@ =~= Seq::new((i + 1) as nat, |k: int| '\u{2500}'));
        }
        i = i + 1;
    }
    line
}

/// Rows the fixed chrome takes below the page: separator, command bar, separator, title
/// bar, and hints bar.
pub const CHROME_ROWS: u16 = 5;

/// How a terminal of `width` by `height` cells splits for a page of `content_rows` rows.
#[derive(Debug, Clone, Copy, PartialEq, Eq, Structural)]
pub struct FrameGeometry {
    /// Rows the page area shows.
    pub viewport_height: u16,
    /// Columns the page is laid out to, inside the padding.
    pub content_width: u16,
    /// The furthest the page can scroll.
    pub max_offset: u16,
}

/// Splits the terminal: the page area is every row the chrome leaves, the page is laid out
/// to the width inside the padding, and it scrolls until its last row is the area's last.
pub fn frame_geometry(width: u16, height: u16, content_rows: u16) -> (r: FrameGeometry)
    ensures
        r.viewport_height == crate::viewport::sat_sub(height as int, CHROME_ROWS as int),
        r.content_width == crate::viewport::sat_sub(width as int, 2 * CONTENT_PADDING as int),
        r.max_offset == crate::viewport::sat_sub(content_rows as int, r.viewport_height as int),
{
    let viewport_height = height.saturating_sub(CHROME_ROWS);
    let content_width = width.saturating_sub(CONTENT_PADDING * 2);
    let max_offset = crate::viewport::max_scroll_offset(content_rows, viewport_height);
    FrameGeometry { viewport_height, content_width, max_offset }
}

} // verus!
