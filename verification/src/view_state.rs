//! What the terminal shows: at start-up and across the session.

use vstd::prelude::*;

verus! {

/// What the terminal shows when it starts, decided before the event loop runs.
///
/// `Page` means the navigation core already holds a loaded document to render. `Blank`
/// means no URL was given. `Error` carries the safe, already-sanitized status message
/// from a failed load; it is display text only and never raw error detail.
#[derive(Debug, Clone, PartialEq, Eq)]
pub enum InitialView {
    Page,
    Blank,
    Error(String),
}

/// The current view state of the terminal session, with the same three cases as
/// [`InitialView`].
#[derive(Debug, Clone, PartialEq, Eq)]
pub enum ViewState {
    Page,
    Blank,
    Error(String),
}

} // verus!
