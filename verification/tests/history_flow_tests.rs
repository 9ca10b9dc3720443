use puma_terminal::{
    apply_navigation_target, begin_link_load, history_entry_to_delete, invalid_address_view,
    needs_relayout, plan_reload, record_history_clear, record_history_delete, show_history_result,
    take_selected_history_url, unopenable_link_view, AnchorSpan, CoreError, HistoryEntry,
    HistoryQuery, NavigationTarget, ScrollState, UiState, ViewState, HISTORY_CONTROLS_HINT,
    NO_MATCHING_HISTORY,
};

const START: u64 = 1_000_000;

fn entry(id: i64, url: &str) -> HistoryEntry {
    HistoryEntry::new(id, url.to_string(), None, 100)
}

#[test]
fn a_history_list_request_opens_the_list_with_the_stored_entries() {
    let mut ui_state = UiState::new(true, START);
    show_history_result(
        Ok(vec![HistoryEntry::new(
            1,
            "https://a.test/".to_string(),
            Some("A".to_string()),
            100,
        )]),
        HistoryQuery::Recent,
        &mut ui_state,
        START,
    );
    assert!(ui_state.is_in_history_mode());
    assert_eq!(ui_state.history_entries().len(), 1);
    assert_eq!(ui_state.transient_message(), Some(HISTORY_CONTROLS_HINT));
}

#[test]
fn an_empty_history_list_request_shows_a_notice_and_opens_no_list() {
    let mut ui_state = UiState::new(true, START);
    show_history_result(Ok(Vec::new()), HistoryQuery::Recent, &mut ui_state, START);
    assert!(!ui_state.is_in_history_mode());
    assert_eq!(ui_state.transient_message(), Some("no matching history"));
    assert_eq!(NO_MATCHING_HISTORY, "no matching history");
}

#[test]
fn a_failed_history_query_says_so_without_the_error() {
    let mut ui_state = UiState::new(true, START);
    show_history_result(Err(CoreError::Storage), HistoryQuery::Search, &mut ui_state, START);
    assert!(!ui_state.is_in_history_mode());
    assert_eq!(ui_state.transient_message(), Some("could not search history"));
    show_history_result(Err(CoreError::Storage), HistoryQuery::Recent, &mut ui_state, START);
    assert_eq!(ui_state.transient_message(), Some("could not read history"));
}

#[test]
fn history_clears_report_their_outcome() {
    let mut ui_state = UiState::new(true, START);
    record_history_clear(Ok(()), false, &mut ui_state, START);
    assert_eq!(ui_state.transient_message(), Some("history cleared"));
    record_history_clear(Ok(()), true, &mut ui_state, START);
    assert_eq!(ui_state.transient_message(), Some("site history cleared"));
    record_history_clear(Err(CoreError::Storage), true, &mut ui_state, START);
    assert_eq!(ui_state.transient_message(), Some("could not clear history"));
}

#[test]
fn the_delete_key_removes_the_selected_history_entry_once_the_store_agrees() {
    let mut ui_state = UiState::new(true, START);
    assert_eq!(history_entry_to_delete(&ui_state), None);
    ui_state.enter_history_mode(vec![entry(7, "https://a.test/")]);
    assert_eq!(history_entry_to_delete(&ui_state), Some(7));
    record_history_delete(Err(CoreError::Storage), &mut ui_state, START);
    assert!(ui_state.is_in_history_mode());
    assert_eq!(ui_state.transient_message(), Some("could not delete entry"));
    record_history_delete(Ok(()), &mut ui_state, START);
    // The only entry is gone, so the list closes.
    assert!(!ui_state.is_in_history_mode());
}

#[test]
fn opening_the_highlighted_history_entry_closes_the_list() {
    let mut ui_state = UiState::new(true, START);
    assert_eq!(take_selected_history_url(&mut ui_state), None);
    ui_state.enter_history_mode(vec![entry(1, "https://a.test/"), entry(2, "https://b.test/")]);
    ui_state.history_select_next();
    assert_eq!(
        take_selected_history_url(&mut ui_state),
        Some("https://b.test/".to_string())
    );
    assert!(!ui_state.is_in_history_mode());
}

#[test]
fn a_same_page_target_jumps_and_a_fetch_remembers_its_fragment() {
    let anchors = vec![AnchorSpan {
        name: "part".to_string(),
        row: 9,
    }];
    let mut scroll = ScrollState::new();
    let mut ui_state = UiState::new(true, START);
    let fetch = apply_navigation_target(
        NavigationTarget::SamePageAnchor {
            fragment: Some("part".to_string()),
        },
        Some(anchors.as_slice()),
        &mut scroll,
        40,
        &mut ui_state,
        START,
    );
    assert!(!fetch);
    assert_eq!(scroll.offset(), 9);
    let fetch = apply_navigation_target(
        NavigationTarget::Fetch {
            fragment: Some("later".to_string()),
        },
        Some(anchors.as_slice()),
        &mut scroll,
        40,
        &mut ui_state,
        START,
    );
    assert!(fetch);
    assert_eq!(scroll.offset(), 9);
    assert!(ui_state.has_pending_fragment());
}

#[test]
fn following_a_link_marks_it_visited_and_leaves_link_navigation() {
    let mut ui_state = UiState::new(true, START);
    ui_state.enter_link_navigation(0);
    begin_link_load("https://a.test/", &mut ui_state);
    assert!(ui_state.is_visited("https://a.test/"));
    assert!(!ui_state.is_in_link_navigation());
}

#[test]
fn unresolvable_targets_show_fixed_error_pages() {
    assert_eq!(
        invalid_address_view("::nope"),
        ViewState::Error("Not a valid address: ::nope".to_string())
    );
    assert_eq!(
        unopenable_link_view(),
        ViewState::Error("Cannot open this link".to_string())
    );
}

#[test]
fn reload_needs_a_page_url() {
    let mut ui_state = UiState::new(true, START);
    assert!(plan_reload(true, &mut ui_state, START));
    assert_eq!(ui_state.transient_message(), None);
    assert!(!plan_reload(false, &mut ui_state, START));
    assert_eq!(ui_state.transient_message(), Some("nothing to reload"));
}

#[test]
fn the_page_is_laid_out_again_only_when_its_width_changes() {
    assert!(needs_relayout(&ViewState::Page, None, 80));
    assert!(needs_relayout(&ViewState::Page, Some(60), 80));
    assert!(!needs_relayout(&ViewState::Page, Some(80), 80));
    assert!(!needs_relayout(&ViewState::Blank, None, 80));
    assert!(!needs_relayout(&ViewState::Error("x".to_string()), None, 80));
}
