//! Composes the bottom hints bar string: static shortcuts and optional system message.

use vstd::prelude::*;

use crate::text::{
    fit_to_width_unpadded, fit_unpadded, owned, push_spaces, push_str, spaces, str_width,
    unicode_str_width,
};

verus! {

/// The static shortcut list on the left of the hints bar.
pub open spec fn shortcuts_text() -> Seq<char> {
    "? for shortcuts · r for refresh"@
}

/// The hints bar: the shortcuts, padding, and the system message, cut to `width` columns.
pub open spec fn hints_bar_text(message: Seq<char>, width: int) -> Seq<char> {
    let left_cols = unicode_str_width(shortcuts_text()) as int;
    let right_cols = unicode_str_width(message) as int;
    let padding = if left_cols + right_cols >= width {
        0
    } else {
        width - left_cols - right_cols
    };
    fit_unpadded(shortcuts_text() + spaces(padding as nat) + message, width)
}

/// Composes the bottom hints bar string: static shortcuts on the left, an optional
/// system message on the right. The result always spans at most `terminal_width`
/// columns; a line wider than the terminal is truncated so the bar never overflows the
/// row and disturbs the layout.
pub fn compose_hints_bar(system_message: Option<&str>, terminal_width: u16) -> (r: String)
    ensures
        r@ == hints_bar_text(
            match system_message {
                Some(m) => m@,
                None => Seq::empty(),
            },
            terminal_width as int,
        ),
{
    let shortcuts = "? for shortcuts · r for refresh";
    let width = terminal_width as usize;
    let left_cols = str_width(shortcuts);
    let right = match system_message {
        Some(m) => m,
        None => "",
    };
    proof {
        reveal_strlit("");
        if system_message is None {
            assert(right@ =~= Seq::<char>::empty());
        }
    }
    let right_cols = str_width(right);
    let padding = if left_cols >= width || right_cols >= width - left_cols {
        0
    } else {
        width - left_cols - right_cols
    };
    let mut composed = owned(shortcuts);
    push_spaces(&mut composed, padding);
    push_str(&mut composed, right);
    fit_to_width_unpadded(composed.as_str(), width)
}

} // verus!
