//! What the chrome does with the history store's answers: opening the list on the entries a
//! query returned, reporting a clear, removing a deleted entry from the open list, and
//! opening the highlighted entry.

use vstd::prelude::*;

use crate::error::CoreError;
use crate::history_view::HistoryEntry;
use crate::text::owned;
use crate::ui_state::{exit_history_mode_post, remove_selected_history_post, InteractionMode, UiState, UiView};

verus! {

/// The controls hint shown while the history list is open.
pub const HISTORY_CONTROLS_HINT: &'static str = "↑↓ select · Enter open · Del delete · Esc close";

/// The notice for a history query that matched nothing.
pub const NO_MATCHING_HISTORY: &'static str = "no matching history";

/// Which history query ran: the most recent visits, or a search.
#[derive(Debug, Clone, Copy, PartialEq, Eq, Structural)]
pub enum HistoryQuery {
    Recent,
    Search,
}

/// The message a failed history query shows.
pub open spec fn query_failure_text(query: HistoryQuery) -> Seq<char> {
    match query {
        HistoryQuery::Recent => "could not read history"@,
        HistoryQuery::Search => "could not search history"@,
    }
}

/// The chrome state with `message` as the transient message set at `now`.
pub open spec fn with_message(v: UiView, message: Seq<char>, now: u64) -> UiView {
    UiView { transient: Some(message), transient_set_at: Some(now), ..v }
}

/// Shows what a history query returned: the list opens on the entries with its controls
/// hint, a query that matched nothing shows a short notice instead, and a failed query says
/// it could not read (or search) history, never the store's error itself.
pub fn show_history_result(
    result: Result<Vec<HistoryEntry>, CoreError>,
    query: HistoryQuery,
    ui_state: &mut UiState,
    now: u64,
)
    requires
        old(ui_state).wf(),
    ensures
        final(ui_state).wf(),
        match result {
            Ok(entries) => if entries@.len() == 0 {
                final(ui_state)@ == with_message(old(ui_state)@, NO_MATCHING_HISTORY@, now)
            } else {
                final(ui_state)@ == with_message(
                    UiView {
                        mode: InteractionMode::History,
                        history: entries@,
                        history_index: 0,
                        ..old(ui_state)@
                    },
                    HISTORY_CONTROLS_HINT@,
                    now,
                )
            },
            Err(_) => final(ui_state)@ == with_message(old(ui_state)@, query_failure_text(query), now),
        },
{
    match result {
        Ok(entries) => {
            if entries.len() == 0 {
                ui_state.set_transient_message(owned(NO_MATCHING_HISTORY), now);
                return;
            }
            ui_state.enter_history_mode(entries);
            ui_state.set_transient_message(owned(HISTORY_CONTROLS_HINT), now);
        },
        Err(_) => {
            let message = match query {
                HistoryQuery::Recent => owned("could not read history"),
                HistoryQuery::Search => owned("could not search history"),
            };
            proof {
                reveal_strlit("could not read history");
                reveal_strlit("could not search history");
            }
            ui_state.set_transient_message(message, now);
        },
    }
}

/// The message a history clear answers with.
pub open spec fn clear_result_text(result: Result<(), CoreError>, site_only: bool) -> Seq<char> {
    match result {
        Ok(()) => if site_only {
            "site history cleared"@
        } else {
            "history cleared"@
        },
        Err(_) => "could not clear history"@,
    }
}

/// Reports a history clear (of one site's visits when `site_only`) as a short status
/// message.
pub fn record_history_clear(result: Result<(), CoreError>, site_only: bool, ui_state: &mut UiState, now: u64)
    requires
        old(ui_state).wf(),
    ensures
        final(ui_state).wf(),
        final(ui_state)@ == with_message(old(ui_state)@, clear_result_text(result, site_only), now),
{
    let message = match result {
        Ok(()) => if site_only {
            owned("site history cleared")
        } else {
            owned("history cleared")
        },
        Err(_) => owned("could not clear history"),
    };
    proof {
        reveal_strlit("site history cleared");
        reveal_strlit("history cleared");
        reveal_strlit("could not clear history");
    }
    ui_state.set_transient_message(message, now);
}

/// The stored id of the highlighted history entry, the one the delete key removes; `None`
/// while the list is empty.
pub fn history_entry_to_delete(ui_state: &UiState) -> (r: Option<i64>)
    requires
        ui_state.wf(),
    ensures
        match r {
            Some(id) => ui_state@.history.len() > 0 && id == ui_state@.history[ui_state@.history_index as int].id,
            None => ui_state@.history.len() == 0,
        },
{
    match ui_state.selected_history_entry() {
        Some(entry) => Some(entry.id),
        None => None,
    }
}

/// Finishes deleting the highlighted entry once the store answered: a removal drops it from
/// the open list, and a failure leaves the list as it was and says the entry could not be
/// deleted, never the store's error itself.
pub fn record_history_delete(result: Result<(), CoreError>, ui_state: &mut UiState, now: u64)
    requires
        old(ui_state).wf(),
    ensures
        final(ui_state).wf(),
        match result {
            Ok(()) => remove_selected_history_post(old(ui_state)@, final(ui_state)@),
            Err(_) => final(ui_state)@ == with_message(old(ui_state)@, "could not delete entry"@, now),
        },
{
    match result {
        Ok(()) => ui_state.remove_selected_history_entry(),
        Err(_) => {
            let message = owned("could not delete entry");
            proof {
                reveal_strlit("could not delete entry");
            }
            ui_state.set_transient_message(message, now);
        },
    }
}

/// Opens the highlighted history entry: the list closes and its URL is handed back to route
/// through the address path like a typed address. `None`, changing nothing, while the list
/// is empty.
pub fn take_selected_history_url(ui_state: &mut UiState) -> (r: Option<String>)
    requires
        old(ui_state).wf(),
    ensures
        final(ui_state).wf(),
        match r {
            Some(url) => old(ui_state)@.history.len() > 0
                && url@ == old(ui_state)@.history[old(ui_state)@.history_index as int].url@
                && exit_history_mode_post(old(ui_state)@, final(ui_state)@),
            None => old(ui_state)@.history.len() == 0 && final(ui_state)@ == old(ui_state)@,
        },
{
    let url = match ui_state.selected_history_entry() {
        Some(entry) => owned(entry.url.as_str()),
        None => return None,
    };
    ui_state.exit_history_mode();
    Some(url)
}

} // verus!
