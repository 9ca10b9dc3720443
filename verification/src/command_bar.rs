//! Composes the command bar string for reading, command, and loading modes.

use vstd::prelude::*;
use vstd::string::StringSliceAdditionalSpecFns;

use crate::text::{decimal, owned, push_decimal, push_spaces, push_str, spaces, str_width, unicode_str_width};
use crate::viewport::sat_sub;

verus! {

/// `> <text>` padded with spaces to `width` columns (no padding once it is wider).
pub open spec fn prompt_text(text: Seq<char>, width: int) -> Seq<char> {
    let left = "> "@ + text;
    left + spaces(sat_sub(width, unicode_str_width(left) as int) as nat)
}

fn compose_prompt(text: &str, terminal_width: u16) -> (r: String)
    ensures
        r@ == prompt_text(text@, terminal_width as int),
{
    let mut left = owned("> ");
    push_str(&mut left, text);
    let width = terminal_width as usize;
    let left_cols = str_width(left.as_str());
    let padding = width.saturating_sub(left_cols);
    push_spaces(&mut left, padding);
    left
}

/// Composes the command bar string for reading mode: the prompt prefix and the current
/// hint on the left, padded to fill the terminal width.
pub fn compose_command_bar_reading(hint: &str, terminal_width: u16) -> (r: String)
    ensures
        r@ == prompt_text(hint@, terminal_width as int),
{
    compose_prompt(hint, terminal_width)
}

/// Composes the command bar string for command mode: the prompt prefix and the current
/// buffer content, padded to fill the terminal width.
pub fn compose_command_bar_command(buffer: &str, terminal_width: u16) -> (r: String)
    ensures
        r@ == prompt_text(buffer@, terminal_width as int),
{
    compose_prompt(buffer, terminal_width)
}

/// The braille spinner frames, in animation order.
pub open spec fn spinner_frame(i: int) -> Seq<char> {
    if i == 0 {
        "⠋"@
    } else if i == 1 {
        "⠙"@
    } else if i == 2 {
        "⠹"@
    } else if i == 3 {
        "⠸"@
    } else if i == 4 {
        "⠼"@
    } else if i == 5 {
        "⠴"@
    } else if i == 6 {
        "⠦"@
    } else if i == 7 {
        "⠧"@
    } else if i == 8 {
        "⠇"@
    } else {
        "⠏"@
    }
}

fn spinner(i: usize) -> (r: &'static str)
    requires
        i < 10,
    ensures
        r@ == spinner_frame(i as int),
{
    match i {
        0 => "⠋",
        1 => "⠙",
        2 => "⠹",
        3 => "⠸",
        4 => "⠼",
        5 => "⠴",
        6 => "⠦",
        7 => "⠧",
        8 => "⠇",
        _ => "⠏",
    }
}

/// The loading bar: spinner, `Loading <url>…` on the left and the whole kilobytes received
/// (after a `↓ ` marker) on the right, padded between them; the right side is dropped when both do not fit.
pub open spec fn loading_text(frame: nat, url: Seq<char>, bytes_received: nat, width: int) -> Seq<
    char,
> {
    let left = spinner_frame((frame % 10) as int) + " Loading "@ + url + "…"@;
    let right = "↓ "@ + decimal(bytes_received / 1024) + " KB"@;
    let left_cols = unicode_str_width(left) as int;
    let right_cols = unicode_str_width(right) as int;
    if left_cols + right_cols <= width {
        left + spaces((width - left_cols - right_cols) as nat) + right
    } else {
        left + spaces(sat_sub(width, left_cols) as nat)
    }
}

/// Composes the command bar string for loading mode: spinner, URL being loaded, and live
/// byte count right-aligned. The byte count is shown in KB (truncated, no decimals).
pub fn compose_command_bar_loading(
    frame: usize,
    url: &str,
    bytes_received: usize,
    terminal_width: u16,
) -> (r: String)
    ensures
        r@ == loading_text(frame as nat, url@, bytes_received as nat, terminal_width as int),
{
    let mut left = owned(spinner(frame % 10));
    push_str(&mut left, " Loading ");
    push_str(&mut left, url);
    push_str(&mut left, "…");
    let mut right = owned("↓ ");
    push_decimal(&mut right, (bytes_received / 1024) as u64);
    push_str(&mut right, " KB");
    let width = terminal_width as usize;
    let left_cols = str_width(left.as_str());
    let right_cols = str_width(right.as_str());
    if left_cols <= width && right_cols <= width - left_cols {
        push_spaces(&mut left, width - left_cols - right_cols);
        push_str(&mut left, right.as_str());
    } else {
        push_spaces(&mut left, width.saturating_sub(left_cols));
    }
    left
}

/// The cursor column for the command bar: the two-column `> ` prefix plus the display
/// width of the buffer text before the cursor, truncated to a `u16` as the terminal column.
pub open spec fn cursor_col_value(buffer_bytes: Seq<u8>, cursor_byte_offset: int) -> u16 {
    ((2 + unicode_str_width(vstd::utf8::decode_utf8(buffer_bytes.subrange(0, cursor_byte_offset))))
        % 0x10000) as u16
}

/// Returns the visual column of the terminal cursor within the command bar row.
///
/// The command bar shows `"> <buffer>"`, so the cursor column is 2 (the "> " prefix)
/// plus the display width of the buffer content before the cursor byte offset.
pub fn command_cursor_col(buffer: &str, cursor_byte_offset: usize) -> (r: u16)
    requires
        vstd::utf8::is_char_boundary(buffer.spec_bytes(), cursor_byte_offset as int),
    ensures
        r == cursor_col_value(buffer.spec_bytes(), cursor_byte_offset as int),
{
    let (before, _after) = buffer.split_at(cursor_byte_offset);
    proof {
        vstd::utf8::encode_utf8_decode_utf8(before@);
    }
    let text_cols = str_width(before);
    let wide: u128 = 2 + text_cols as u128;
    (wide % 0x10000) as u16
}

} // verus!
