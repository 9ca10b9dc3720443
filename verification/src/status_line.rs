//! Composes the bottom status-line text from sanitized page and viewport state.

use vstd::prelude::*;

use crate::text::{decimal, owned, push_decimal, push_str};

verus! {

/// The blocked-script segment for `n` suppressed scripts.
pub open spec fn blocked_scripts_text(n: nat) -> Seq<char> {
    if n == 1 {
        "1 script blocked"@
    } else {
        decimal(n) + " scripts blocked"@
    }
}

/// The quit hint: the arm prompt while the quit is armed, the plain hint otherwise.
pub open spec fn quit_text(quit_armed: bool) -> Seq<char> {
    if quit_armed {
        "Press Esc again to quit"@
    } else {
        "Esc Esc to quit"@
    }
}

/// The whole status line: label, scroll percentage, the blocked-script segment when any
/// script was suppressed, and the quit hint, joined by ` | `.
pub open spec fn status_line_text(
    label: Seq<char>,
    scroll_percent: nat,
    script_count: nat,
    quit_armed: bool,
) -> Seq<char> {
    label + " | "@ + decimal(scroll_percent) + "%"@ + (if script_count > 0 {
        " | "@ + blocked_scripts_text(script_count)
    } else {
        Seq::empty()
    }) + " | "@ + quit_text(quit_armed)
}

/// Builds the status-line text shown on the bottom row.
///
/// `label` is the already-sanitized page title, URL, or state word. The blocked-script
/// segment appears only when scripts were suppressed, and the arm hint replaces the
/// plain quit hint while the quit is armed.
pub fn compose_status_line(
    label: &str,
    scroll_percent: u16,
    script_count: usize,
    quit_armed: bool,
) -> (r: String)
    ensures
        r@ == status_line_text(label@, scroll_percent as nat, script_count as nat, quit_armed),
{
    let mut line = owned(label);
    push_str(&mut line, " | ");
    push_decimal(&mut line, scroll_percent as u64);
    push_str(&mut line, "%");
    let ghost before = line@;
    if script_count > 0 {
        push_str(&mut line, " | ");
        let segment = blocked_scripts_segment(script_count);
        push_str(&mut line, segment.as_str());
        proof {
            assert(line@ =~= before + (" | "@ + blocked_scripts_text(script_count as nat)));
        }
    } else {
        proof {
            assert(line@ =~= before + Seq::<char>::empty());
        }
    }
    let ghost middle = line@;
    push_str(&mut line, " | ");
    let quit = quit_segment(quit_armed);
    push_str(&mut line, quit.as_str());
    proof {
        assert(line@ =~= status_line_text(
            label@,
            scroll_percent as nat,
            script_count as nat,
            quit_armed,
        ));
    }
    line
}

/// The blocked-script segment, singular for exactly one script.
pub fn blocked_scripts_segment(script_count: usize) -> (r: String)
    ensures
        r@ == blocked_scripts_text(script_count as nat),
{
    if script_count == 1 {
        return owned("1 script blocked");
    }
    let mut r = String::new();
    push_decimal(&mut r, script_count as u64);
    push_str(&mut r, " scripts blocked");
    r
}

/// The quit hint for the current arm state.
pub fn quit_segment(quit_armed: bool) -> (r: String)
    ensures
        r@ == quit_text(quit_armed),
{
    if quit_armed {
        return owned("Press Esc again to quit");
    }
    owned("Esc Esc to quit")
}

} // verus!
