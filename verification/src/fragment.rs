//! URL fragments: decoding them, finding the anchor row they name, and moving the viewport
//! there.

use vstd::prelude::*;

use vstd::string::StrSliceExecFns;

use crate::text::{chars_of, owned, push_str, str_equals, strip_control, strip_control_spec};
use crate::ui_state::{UiState, UiView};
use crate::viewport::{ScrollState, min_int};

verus! {

/// A named anchor on the rendered page: the buffer row an `id` or `name` target sits on.
/// Anchors are listed in ascending row order.
#[derive(Debug, Clone, PartialEq, Eq)]
pub struct AnchorSpan {
    pub name: String,
    pub row: u16,
}

/// What the percent-encoding crate's decoder gives back for `fragment`: every `%` followed
/// by two hex digits becomes that byte, and the bytes are read as UTF-8 with invalid
/// sequences replaced by U+FFFD.
pub uninterp spec fn percent_decoded(fragment: Seq<char>) -> Seq<char>;

/// `percent_decode_str(..).decode_utf8_lossy()` of the percent-encoding crate. The contract
/// names the result, and states the one fact the crate documents plainly: input without a
/// `%` has no encoded sequence and comes back unchanged.
#[verifier::external_body]
fn percent_decode_lossy(fragment: &str) -> (r: String)
    ensures
        r@ == percent_decoded(fragment@),
        !fragment@.contains('%') ==> r@ == fragment@,
{
    percent_encoding::percent_decode_str(fragment).decode_utf8_lossy().into_owned()
}

/// The decoded form of an optional fragment: nothing for a missing one.
pub open spec fn decoded_fragment(fragment: Option<Seq<char>>) -> Seq<char> {
    match fragment {
        Some(f) => percent_decoded(f),
        None => Seq::empty(),
    }
}

pub open spec fn opt_str_view(fragment: Option<&str>) -> Option<Seq<char>> {
    match fragment {
        Some(f) => Some(f@),
        None => None,
    }
}

/// Percent-decodes a fragment into the form anchor names are compared against. A missing
/// fragment decodes to empty.
pub fn decode_fragment(fragment: Option<&str>) -> (r: String)
    ensures
        r@ == decoded_fragment(opt_str_view(fragment)),
        match fragment {
            Some(f) => !f@.contains('%') ==> r@ == f@,
            None => true,
        },
{
    match fragment {
        Some(f) => percent_decode_lossy(f),
        None => String::new(),
    }
}

/// Strips control characters from a fragment before it appears in a status message, so a
/// crafted `id` or `name` can never carry an escape sequence into terminal output.
pub fn sanitize_fragment_for_display(fragment: &str) -> (r: String)
    ensures
        r@ == strip_control_spec(fragment@),
{
    strip_control(fragment)
}

/// The code of `c` with ASCII upper-case letters folded to lower case.
pub open spec fn folded_code(c: char) -> u32 {
    if 'A' <= c && c <= 'Z' {
        (c as u32 + 32) as u32
    } else {
        c as u32
    }
}

/// Whether `a` and `b` are equal once ASCII letters are folded to one case; every other
/// character must match exactly.
pub open spec fn eq_ascii_caseless(a: Seq<char>, b: Seq<char>) -> bool {
    &&& a.len() == b.len()
    &&& forall|i: int| 0 <= i < a.len() ==> folded_code(#[trigger] a[i]) == folded_code(b[i])
}

fn fold_code(c: char) -> (r: u32)
    ensures
        r == folded_code(c),
{
    if 'A' <= c && c <= 'Z' {
        (c as u32) + 32
    } else {
        c as u32
    }
}

/// ASCII case-insensitive string equality.
pub fn eq_ignore_ascii_case(a: &str, b: &str) -> (r: bool)
    ensures
        r == eq_ascii_caseless(a@, b@),
{
    let x = chars_of(a);
    let y = chars_of(b);
    if x.len() != y.len() {
        return false;
    }
    let mut i: usize = 0;
    while i < x.len()
        invariant
            x@ == a@,
            y@ == b@,
            x.len() == y.len(),
            i <= x.len(),
            forall|k: int| 0 <= k < i ==> folded_code(#[trigger] x@[k]) == folded_code(y@[k]),
        decreases x.len() - i,
    {
        if fold_code(x[i]) != fold_code(y[i]) {
            return false;
        }
        i = i + 1;
    }
    true
}

/// The position of the first anchor whose name is exactly `name`.
pub open spec fn first_named(anchors: Seq<AnchorSpan>, name: Seq<char>) -> Option<int>
    decreases anchors.len(),
{
    if anchors.len() == 0 {
        None
    } else if anchors[0].name@ == name {
        Some(0)
    } else {
        match first_named(anchors.drop_first(), name) {
            Some(i) => Some(i + 1),
            None => None,
        }
    }
}

/// The position of the first anchor whose name equals `name` ignoring ASCII case.
pub open spec fn first_named_caseless(anchors: Seq<AnchorSpan>, name: Seq<char>) -> Option<int>
    decreases anchors.len(),
{
    if anchors.len() == 0 {
        None
    } else if eq_ascii_caseless(anchors[0].name@, name) {
        Some(0)
    } else {
        match first_named_caseless(anchors.drop_first(), name) {
            Some(i) => Some(i + 1),
            None => None,
        }
    }
}

proof fn lemma_first_named_bound(anchors: Seq<AnchorSpan>, name: Seq<char>)
    ensures
        first_named(anchors, name) matches Some(i) ==> 0 <= i < anchors.len(),
        first_named_caseless(anchors, name) matches Some(i) ==> 0 <= i < anchors.len(),
    decreases anchors.len(),
{
    if anchors.len() > 0 {
        lemma_first_named_bound(anchors.drop_first(), name);
    }
}

/// The row a decoded fragment names: the top of the page for an empty fragment or `top` in
/// any ASCII case, otherwise the first anchor of exactly that name, otherwise the first
/// anchor of that name ignoring ASCII case, and `None` when no anchor matches.
pub open spec fn anchor_row_for(decoded: Seq<char>, anchors: Seq<AnchorSpan>) -> Option<u16> {
    if decoded.len() == 0 || eq_ascii_caseless(decoded, seq!['t', 'o', 'p']) {
        Some(0u16)
    } else {
        match first_named(anchors, decoded) {
            Some(i) => Some(anchors[i].row),
            None => match first_named_caseless(anchors, decoded) {
                Some(i) => Some(anchors[i].row),
                None => None,
            },
        }
    }
}

/// The first anchor in `anchors[from..]` whose name is `name`, exactly or ignoring ASCII case.
fn find_anchor(anchors: &[AnchorSpan], name: &str, caseless: bool) -> (r: Option<u16>)
    ensures
        r == (if caseless {
            match first_named_caseless(anchors@, name@) {
                Some(i) => Some(anchors@[i].row),
                None => None,
            }
        } else {
            match first_named(anchors@, name@) {
                Some(i) => Some(anchors@[i].row),
                None => None,
            }
        }),
{
    let ghost all = anchors@;
    let mut i: usize = 0;
    proof {
        assert(all.skip(0) =~= all);
    }
    while i < anchors.len()
        invariant
            all == anchors@,
            i <= all.len(),
            !caseless ==> first_named(all, name@) == match first_named(all.skip(i as int), name@) {
                Some(k) => Some(k + i),
                None => None,
            },
            caseless ==> first_named_caseless(all, name@) == match first_named_caseless(all.skip(i as int), name@) {
                Some(k) => Some(k + i),
                None => None,
            },
        decreases all.len() - i,
    {
        proof {
            assert(all.skip(i as int)[0] == all[i as int]);
            assert(all.skip(i as int).drop_first() =~= all.skip(i + 1));
        }
        let found = if caseless {
            eq_ignore_ascii_case(anchors[i].name.as_str(), name)
        } else {
            str_equals(anchors[i].name.as_str(), name)
        };
        if found {
            return Some(anchors[i].row);
        }
        i = i + 1;
    }
    proof {
        assert(all.skip(i as int).len() == 0);
    }
    None
}

/// The buffer row an already-decoded fragment names, or `None` when it matches no anchor.
pub fn resolve_decoded_anchor_row(decoded: &str, anchors: &[AnchorSpan]) -> (r: Option<u16>)
    ensures
        r == anchor_row_for(decoded@, anchors@),
{
    proof {
        lemma_first_named_bound(anchors@, decoded@);
        reveal_strlit("top");
    }
    if decoded.unicode_len() == 0 || eq_ignore_ascii_case(decoded, "top") {
        return Some(0);
    }
    match find_anchor(anchors, decoded, false) {
        Some(row) => Some(row),
        None => find_anchor(anchors, decoded, true),
    }
}

/// The buffer row a fragment names, or `None` when the fragment matches no anchor. The
/// fragment is percent-decoded first, matching the decoding anchor names went through.
pub fn resolve_anchor_row(fragment: Option<&str>, anchors: &[AnchorSpan]) -> (r: Option<u16>)
    ensures
        r == anchor_row_for(decoded_fragment(opt_str_view(fragment)), anchors@),
{
    let decoded = decode_fragment(fragment);
    resolve_decoded_anchor_row(decoded.as_str(), anchors)
}

/// The status message for a fragment that names no anchor: the decoded name, control
/// characters stripped.
pub open spec fn anchor_not_found_text(decoded: Seq<char>) -> Seq<char> {
    "anchor not found: "@ + strip_control_spec(decoded)
}

/// What a successful in-page anchor jump does to the chrome state: it remembers the offset
/// the viewport left, so going back returns there.
pub open spec fn anchor_jump_post(before: UiView, offset_before: int, after: UiView) -> bool {
    after == (UiView { anchor_returns: before.anchor_returns.push(offset_before as u16), ..before })
}

/// What jumping to the anchor `fragment` names does: with no page rendered (`anchors` is
/// `None`) nothing; with an anchor found the viewport moves to its row (clamped to the page)
/// and the offset it left is remembered; otherwise the viewport stays and the chrome says the
/// anchor was not found.
pub open spec fn jump_outcome(
    fragment: Option<Seq<char>>,
    anchors: Option<Seq<AnchorSpan>>,
    before: UiView,
    after: UiView,
    offset_before: int,
    offset_after: int,
    max_offset: int,
    now: u64,
) -> bool {
    match anchors {
        None => offset_after == offset_before && after == before,
        Some(list) => match anchor_row_for(decoded_fragment(fragment), list) {
            Some(row) => {
                &&& offset_after == min_int(row as int, max_offset)
                &&& anchor_jump_post(before, offset_before, after)
            },
            None => {
                &&& offset_after == offset_before
                &&& after == (UiView {
                    transient: Some(anchor_not_found_text(decoded_fragment(fragment))),
                    transient_set_at: Some(now),
                    ..before
                })
            },
        },
    }
}

/// Moves the viewport to the anchor `fragment` names, remembering the offset it left so
/// going back returns there, or reports that it was not found without moving. Nothing
/// happens while no page is rendered (`anchors` is `None`).
pub fn jump_to_anchor(
    fragment: Option<&str>,
    anchors: Option<&[AnchorSpan]>,
    scroll: &mut ScrollState,
    max_offset: u16,
    ui_state: &mut UiState,
    now: u64,
)
    requires
        old(ui_state).wf(),
    ensures
        final(ui_state).wf(),
        jump_outcome(
            opt_str_view(fragment),
            match anchors {
                Some(list) => Some(list@),
                None => None,
            },
            old(ui_state)@,
            final(ui_state)@,
            old(scroll).spec_offset(),
            final(scroll).spec_offset(),
            max_offset as int,
            now,
        ),
{
    let list = match anchors {
        Some(list) => list,
        None => return,
    };
    match resolve_anchor_row(fragment, list) {
        Some(row) => {
            ui_state.push_anchor_return(scroll.offset());
            scroll.scroll_to(row, max_offset);
        },
        None => {
            let name = sanitize_fragment_for_display(decode_fragment(fragment).as_str());
            let mut message = owned("anchor not found: ");
            push_str(&mut message, name.as_str());
            proof {
                reveal_strlit("anchor not found: ");
            }
            ui_state.set_transient_message(message, now);
        },
    }
}

/// Applies a fragment remembered from a completed load once the new page has rendered,
/// consuming it so it applies exactly once. A fragment that matches nothing leaves the
/// viewport where it is.
pub fn apply_pending_fragment(
    ui_state: &mut UiState,
    anchors: Option<&[AnchorSpan]>,
    scroll: &mut ScrollState,
    max_offset: u16,
)
    requires
        old(ui_state).wf(),
    ensures
        final(ui_state).wf(),
        match (old(ui_state)@.pending_fragment, anchors) {
            (Some(f), Some(list)) => {
                &&& final(ui_state)@ == (UiView { pending_fragment: None, ..old(ui_state)@ })
                &&& match anchor_row_for(percent_decoded(f), list@) {
                    Some(row) => final(scroll).spec_offset() == min_int(row as int, max_offset as int),
                    None => *final(scroll) == *old(scroll),
                }
            },
            _ => *final(scroll) == *old(scroll) && final(ui_state)@ == old(ui_state)@,
        },
{
    if !ui_state.has_pending_fragment() {
        return;
    }
    let list = match anchors {
        Some(list) => list,
        None => return,
    };
    let fragment = ui_state.take_pending_fragment();
    let row = match &fragment {
        Some(f) => resolve_anchor_row(Some(f.as_str()), list),
        None => None,
    };
    if let Some(row) = row {
        scroll.scroll_to(row, max_offset);
    }
}

} // verus!
