//! What the chrome does around a navigation the core classified or refused: jumping within
//! the page or starting a fetch, marking an activated link visited, showing an address or
//! link that cannot be opened, refusing a reload with no page, and deciding when the page
//! must be laid out again.

use vstd::prelude::*;

use crate::fragment::{jump_outcome, jump_to_anchor, opt_str_view, AnchorSpan};
use crate::text::{owned, push_str};
use crate::ui_state::{InteractionMode, UiState, UiView};
use crate::view_state::ViewState;
use crate::viewport::ScrollState;

verus! {

/// Where a typed address or an activated link leads, as the navigation core classified it.
/// The URL to fetch stays with the caller; the chrome needs only the fragment.
#[derive(Debug, Clone, PartialEq, Eq)]
pub enum NavigationTarget {
    /// A fragment of the page already shown: jump within it, with no request.
    SamePageAnchor { fragment: Option<String> },
    /// Another document: fetch it, and honor the fragment once it has rendered.
    Fetch { fragment: Option<String> },
}

/// The view of an optional owned fragment.
pub open spec fn opt_fragment(fragment: Option<String>) -> Option<Seq<char>> {
    match fragment {
        Some(f) => Some(f@),
        None => None,
    }
}

/// Carries out a classified navigation. A same-page fragment jumps within the shown page
/// (see [`jump_to_anchor`]) and returns `false`; a fetch remembers its fragment for the
/// page it loads and returns `true`, asking the caller to start the load.
pub fn apply_navigation_target(
    target: NavigationTarget,
    anchors: Option<&[AnchorSpan]>,
    scroll: &mut ScrollState,
    max_offset: u16,
    ui_state: &mut UiState,
    now: u64,
) -> (fetch: bool)
    requires
        old(ui_state).wf(),
    ensures
        final(ui_state).wf(),
        match target {
            NavigationTarget::SamePageAnchor { fragment } => !fetch && jump_outcome(
                opt_fragment(fragment),
                match anchors {
                    Some(list) => Some(list@),
                    None => None,
                },
                old(ui_state)@,
                final(ui_state)@,
                old(scroll).spec_offset(),
                final(scroll).spec_offset(),
                max_offset as int,
                now,
            ),
            NavigationTarget::Fetch { fragment } => fetch && final(scroll).spec_offset()
                == old(scroll).spec_offset() && final(ui_state)@ == (UiView {
                pending_fragment: opt_fragment(fragment),
                ..old(ui_state)@
            }),
        },
{
    match target {
        NavigationTarget::SamePageAnchor { fragment } => {
            let name: Option<&str> = match &fragment {
                Some(f) => Some(f.as_str()),
                None => None,
            };
            proof {
                assert(opt_str_view(name) == opt_fragment(fragment));
            }
            jump_to_anchor(name, anchors, scroll, max_offset, ui_state, now);
            false
        },
        NavigationTarget::Fetch { fragment } => {
            ui_state.set_pending_fragment(fragment);
            true
        },
    }
}

/// Starts following an activated link: its target is remembered as visited and link
/// navigation ends, before the core classifies the target.
pub fn begin_link_load(url: &str, ui_state: &mut UiState)
    requires
        old(ui_state).wf(),
    ensures
        final(ui_state).wf(),
        final(ui_state)@ == (UiView {
            visited: old(ui_state)@.visited.insert(url@),
            mode: InteractionMode::Reading,
            focused_link: None,
            citation: None,
            ..old(ui_state)@
        }),
{
    ui_state.mark_visited(url);
    ui_state.exit_link_navigation();
}

/// The error page for a typed address the core cannot resolve. It echoes only the typed
/// input, which is local, never remote content.
pub fn invalid_address_view(input: &str) -> (r: ViewState)
    ensures
        r matches ViewState::Error(m) && m@ == "Not a valid address: "@ + input@,
{
    let mut message = owned("Not a valid address: ");
    push_str(&mut message, input);
    proof {
        reveal_strlit("Not a valid address: ");
    }
    ViewState::Error(message)
}

/// The error page for an activated link the core cannot resolve. The link's target is never
/// echoed, so a crafted `href` cannot place raw bytes in terminal output.
pub fn unopenable_link_view() -> (r: ViewState)
    ensures
        r matches ViewState::Error(m) && m@ == "Cannot open this link"@,
{
    let message = owned("Cannot open this link");
    proof {
        reveal_strlit("Cannot open this link");
    }
    ViewState::Error(message)
}

/// Whether `/reload` has a page to fetch again (`has_current_url`). Without one it says
/// there is nothing to reload and returns `false`.
pub fn plan_reload(has_current_url: bool, ui_state: &mut UiState, now: u64) -> (r: bool)
    requires
        old(ui_state).wf(),
    ensures
        final(ui_state).wf(),
        r == has_current_url,
        r ==> final(ui_state)@ == old(ui_state)@,
        !r ==> final(ui_state)@ == (UiView {
            transient: Some("nothing to reload"@),
            transient_set_at: Some(now),
            ..old(ui_state)@
        }),
{
    if !has_current_url {
        let message = owned("nothing to reload");
        proof {
            reveal_strlit("nothing to reload");
        }
        ui_state.set_transient_message(message, now);
        return false;
    }
    true
}

/// Whether the page must be laid out again for a body `width` columns wide: only while a
/// page is shown, and only when no layout is cached or the cached one was made for another
/// width.
pub fn needs_relayout(view: &ViewState, cached_width: Option<u16>, width: u16) -> (r: bool)
    ensures
        r == (*view == ViewState::Page && cached_width != Some(width)),
{
    let showing_page = match view {
        ViewState::Page => true,
        _ => false,
    };
    if !showing_page {
        return false;
    }
    match cached_width {
        Some(cached) => cached != width,
        None => true,
    }
}

} // verus!
