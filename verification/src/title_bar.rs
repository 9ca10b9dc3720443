//! Composes the full-width title bar string for the browser chrome.

use vstd::prelude::*;

use crate::text::{
    char_width, chars_of, decimal, fit_count, fit_prefix, fit_unpadded, owned, push_char,
    push_decimal, push_spaces, push_str, spaces, str_width, sub_string, unicode_char_width,
    unicode_str_width,
};
use crate::viewport::sat_sub;

verus! {

/// The display columns reserved for the ellipsis: its table width, or one column when the
/// tables give none.
pub open spec fn ellipsis_cols() -> int {
    match unicode_char_width('…') {
        Some(w) => w as int,
        None => 1,
    }
}

/// `text` cut to `max_cols` columns: unchanged when it fits, otherwise the longest prefix
/// that still leaves room for an ellipsis, followed by the ellipsis.
pub open spec fn truncated_text(text: Seq<char>, max_cols: int) -> Seq<char> {
    if max_cols == 0 {
        Seq::empty()
    } else {
        let cut = fit_count(text, max_cols);
        if cut == text.len() {
            text
        } else {
            let head = text.take(cut as int);
            head.take(fit_count(head, max_cols - ellipsis_cols()) as int).push('…')
        }
    }
}

/// Cuts `text` to `max_cols` columns, ending in an ellipsis when anything was cut.
pub fn truncate_with_ellipsis(text: &str, max_cols: usize) -> (r: String)
    ensures
        r@ == truncated_text(text@, max_cols as int),
{
    let ellipsis_width = match char_width('…') {
        Some(w) => w,
        None => 1,
    };
    if max_cols == 0 {
        return String::new();
    }
    let chars = chars_of(text);
    let (cut, _cols) = fit_prefix(&chars, max_cols);
    if cut == chars.len() {
        return owned(text);
    }
    let head = sub_string(&chars, 0, cut);
    let head_chars = chars_of(head.as_str());
    let keep = if ellipsis_width > max_cols {
        proof {
            let h = head_chars@;
            if h.len() > 0 {
                assert(crate::text::col_width(h[0]) >= 0);
            }
        }
        0
    } else {
        let (k, _c) = fit_prefix(&head_chars, max_cols - ellipsis_width);
        k
    };
    let mut result = sub_string(&head_chars, 0, keep);
    push_char(&mut result, '…');
    proof {
        assert(head_chars@ =~= chars@.take(cut as int));
        assert(head_chars@.subrange(0, keep as int) =~= head_chars@.take(keep as int));
    }
    result
}

/// Cuts `text` to at most `max_cols` terminal columns without adding an ellipsis.
pub fn clamp_to_cols(text: &str, max_cols: usize) -> (r: String)
    ensures
        r@ == fit_unpadded(text@, max_cols as int),
{
    crate::text::fit_to_width_unpadded(text, max_cols)
}

/// One decimal place of `bytes / unit`, rounded to nearest with ties to even, as
/// `<whole>.<tenth>`.
pub open spec fn one_decimal(bytes: nat, unit: nat) -> Seq<char>
    recommends
        unit > 0,
{
    let q = (10 * bytes) / unit;
    let rem = (10 * bytes) % unit;
    let tenths = if 2 * rem > unit || (2 * rem == unit && q % 2 == 1) {
        q + 1
    } else {
        q
    };
    decimal(tenths / 10) + "."@ + decimal(tenths % 10)
}

/// The page-size label: bytes below 1 KB, one decimal place in KB below 1 MB, one decimal
/// place in MB otherwise.
pub open spec fn page_size_text(byte_count: nat) -> Seq<char> {
    if byte_count < 1024 {
        "↓ "@ + decimal(byte_count) + " B"@
    } else if byte_count < 1024 * 1024 {
        "↓ "@ + one_decimal(byte_count, 1024) + " KB"@
    } else {
        "↓ "@ + one_decimal(byte_count, 1024 * 1024) + " MB"@
    }
}

fn push_one_decimal(out: &mut String, bytes: u64, unit: u64)
    requires
        unit == 1024 || unit == 1024 * 1024,
    ensures
        final(out)@ == old(out)@ + one_decimal(bytes as nat, unit as nat),
{
    let scaled: u128 = 10 * (bytes as u128);
    let q: u128 = scaled / (unit as u128);
    let rem: u128 = scaled % (unit as u128);
    let tenths: u128 = if 2 * rem > unit as u128 || (2 * rem == unit as u128 && q % 2 == 1) {
        q + 1
    } else {
        q
    };
    proof {
        assert(q <= scaled);
        assert(tenths / 10 <= 2 * (bytes as int) + 1) by (nonlinear_arith)
            requires
                tenths <= q + 1,
                q <= scaled,
                scaled == 10 * (bytes as int),
                unit >= 1024,
                q as int == (scaled as int) / (unit as int),
        ;
    }
    let whole = tenths / 10;
    let tenth = tenths % 10;
    push_decimal(out, whole as u64);
    push_str(out, ".");
    push_decimal(out, tenth as u64);
}

/// Formats a byte count as a human-readable string: bytes for values below 1 KB,
/// one decimal place in KB below 1 MB, one decimal place in MB otherwise.
pub fn format_page_size(byte_count: usize) -> (r: String)
    ensures
        r@ == page_size_text(byte_count as nat),
{
    let mut r = owned("↓ ");
    if byte_count < 1024 {
        push_decimal(&mut r, byte_count as u64);
        push_str(&mut r, " B");
    } else if byte_count < 1024 * 1024 {
        push_one_decimal(&mut r, byte_count as u64, 1024);
        push_str(&mut r, " KB");
    } else {
        push_one_decimal(&mut r, byte_count as u64, 1024 * 1024);
        push_str(&mut r, " MB");
    }
    r
}

/// The right-hand indicators: the page size when known, the scroll percentage, and the
/// blocked-script count when any, separated by ` · `.
pub open spec fn right_indicators_text(scroll_percent: nat, script_count: nat, page_byte_count: nat) -> Seq<
    char,
> {
    (if page_byte_count > 0 {
        page_size_text(page_byte_count) + " · "@
    } else {
        Seq::empty()
    }) + decimal(scroll_percent) + "%"@ + (if script_count == 1 {
        " · 1 script blocked"@
    } else if script_count > 1 {
        " · "@ + decimal(script_count) + " scripts blocked"@
    } else {
        Seq::empty()
    })
}

pub fn build_right_indicators(scroll_percent: u16, script_count: usize, page_byte_count: usize) -> (r:
    String)
    ensures
        r@ == right_indicators_text(scroll_percent as nat, script_count as nat, page_byte_count as nat),
{
    let mut right = String::new();
    if page_byte_count > 0 {
        let size = format_page_size(page_byte_count);
        push_str(&mut right, size.as_str());
        push_str(&mut right, " · ");
    }
    let ghost after_size = right@;
    push_decimal(&mut right, scroll_percent as u64);
    push_str(&mut right, "%");
    let ghost after_percent = right@;
    if script_count == 1 {
        push_str(&mut right, " · 1 script blocked");
    } else if script_count > 1 {
        push_str(&mut right, " · ");
        push_decimal(&mut right, script_count as u64);
        push_str(&mut right, " scripts blocked");
    }
    proof {
        let size_part = if page_byte_count > 0 {
            page_size_text(page_byte_count as nat) + " · "@
        } else {
            Seq::<char>::empty()
        };
        assert(after_size =~= size_part);
        let tail = if script_count == 1 {
            " · 1 script blocked"@
        } else if script_count > 1 {
            " · "@ + decimal(script_count as nat) + " scripts blocked"@
        } else {
            Seq::<char>::empty()
        };
        assert(right@ =~= after_percent + tail);
    }
    right
}

/// The right side as the title bar shows it when it does not fit: cut to the columns left
/// beside the title.
pub open spec fn title_right_clamped(right: Seq<char>, available: int) -> Seq<char> {
    fit_unpadded(right, available)
}

/// Whether the clamped right side of the title bar fits the columns it was cut to; the
/// title bar is only defined when it does.
pub open spec fn title_bar_fits(
    label: Seq<char>,
    scroll_percent: nat,
    script_count: nat,
    page_byte_count: nat,
    terminal_width: int,
) -> bool {
    let left = truncated_text(label, terminal_width / 2);
    let right = right_indicators_text(scroll_percent, script_count, page_byte_count);
    let available = sat_sub(terminal_width, unicode_str_width(left) as int);
    unicode_str_width(right) as int <= available || unicode_str_width(
        title_right_clamped(right, available),
    ) as int <= available
}

/// The title bar: the truncated title on the left, the indicators on the right, padded
/// between them; an overflowing right side is cut and the padding goes after it.
pub open spec fn title_bar_text(
    label: Seq<char>,
    scroll_percent: nat,
    script_count: nat,
    page_byte_count: nat,
    terminal_width: int,
) -> Seq<char> {
    let left = truncated_text(label, terminal_width / 2);
    let right = right_indicators_text(scroll_percent, script_count, page_byte_count);
    let available = sat_sub(terminal_width, unicode_str_width(left) as int);
    if unicode_str_width(right) as int <= available {
        left + spaces((available - unicode_str_width(right)) as nat) + right
    } else {
        let clamped = title_right_clamped(right, available);
        left + clamped + spaces((available - unicode_str_width(clamped)) as nat)
    }
}

/// Composes the full-width title bar string: title on the left (auto-ellipsis at 50%
/// of terminal width), status indicators on the right.
pub fn compose_title_bar(
    label: &str,
    scroll_percent: u16,
    script_count: usize,
    page_byte_count: usize,
    terminal_width: u16,
) -> (r: String)
    requires
        title_bar_fits(
            label@,
            scroll_percent as nat,
            script_count as nat,
            page_byte_count as nat,
            terminal_width as int,
        ),
    ensures
        r@ == title_bar_text(
            label@,
            scroll_percent as nat,
            script_count as nat,
            page_byte_count as nat,
            terminal_width as int,
        ),
{
    let width = terminal_width as usize;
    let max_label_cols = width / 2;
    let left = truncate_with_ellipsis(label, max_label_cols);
    let right = build_right_indicators(scroll_percent, script_count, page_byte_count);
    let left_width = str_width(left.as_str());
    let available = width.saturating_sub(left_width);
    let right_width = str_width(right.as_str());
    let mut bar = owned(left.as_str());
    if right_width <= available {
        push_spaces(&mut bar, available - right_width);
        push_str(&mut bar, right.as_str());
    } else {
        let clamped = clamp_to_cols(right.as_str(), available);
        let clamped_width = str_width(clamped.as_str());
        push_str(&mut bar, clamped.as_str());
        push_spaces(&mut bar, available - clamped_width);
    }
    bar
}

/// The title bar when its right side can be laid out, or `None` when the cut right side
/// would still be wider than the columns it was cut to.
pub fn compose_title_bar_checked(
    label: &str,
    scroll_percent: u16,
    script_count: usize,
    page_byte_count: usize,
    terminal_width: u16,
) -> (r: Option<String>)
    ensures
        match r {
            Some(bar) => title_bar_fits(
                label@,
                scroll_percent as nat,
                script_count as nat,
                page_byte_count as nat,
                terminal_width as int,
            ) && bar@ == title_bar_text(
                label@,
                scroll_percent as nat,
                script_count as nat,
                page_byte_count as nat,
                terminal_width as int,
            ),
            None => !title_bar_fits(
                label@,
                scroll_percent as nat,
                script_count as nat,
                page_byte_count as nat,
                terminal_width as int,
            ),
        },
{
    let width = terminal_width as usize;
    let left = truncate_with_ellipsis(label, width / 2);
    let right = build_right_indicators(scroll_percent, script_count, page_byte_count);
    let available = width.saturating_sub(str_width(left.as_str()));
    if str_width(right.as_str()) > available {
        let clamped = clamp_to_cols(right.as_str(), available);
        if str_width(clamped.as_str()) > available {
            return None;
        }
    }
    Some(compose_title_bar(label, scroll_percent, script_count, page_byte_count, terminal_width))
}

} // verus!
