use puma_terminal::{
    action_refreshes_suggestions, advance_link_focus, apply_pending_fragment, cell_is_selected,
    clamped_document_coordinate, copied_message, decode_fragment, document_coordinate,
    handle_mouse_event, jump_to_anchor, max_scroll_offset, parse_history_request,
    resolve_anchor_row, retreat_link_focus, sanitize_fragment_for_display, AnchorSpan,
    CellPosition, HistoryRequest, InputAction, LinkKind, LinkSpan, MouseButton, MouseEvent,
    MouseEventKind, PageLayout, ScrollState, TextSelection, UiState, ViewportBounds,
    BODY_AREA_TOP_ROW, CONTENT_PADDING, CookiePolicy, CookiesRequest, CookiesStep,
    plan_cookies, address_suggestion_query,
};

/// A reading of the millisecond clock the tests treat as the present.
const START: u64 = 1_000_000;

fn anchor(name: &str, row: u16) -> AnchorSpan {
    AnchorSpan {
        name: name.to_string(),
        row,
    }
}

/// The anchors of a two-paragraph page whose second paragraph carries `anchor_name`, so the
/// anchor sits on a non-zero row and a jump to it is observable as a changed scroll offset.
fn page_with_anchor(anchor_name: &str) -> Vec<AnchorSpan> {
    vec![anchor(anchor_name, 2)]
}

#[test]
fn resolve_anchor_row_sends_an_empty_fragment_to_the_top() {
    assert_eq!(resolve_anchor_row(Some(""), &[]), Some(0));
    assert_eq!(resolve_anchor_row(None, &[]), Some(0));
}

#[test]
fn resolve_anchor_row_sends_top_to_the_top_regardless_of_case() {
    let anchors = [anchor("body", 9)];
    assert_eq!(resolve_anchor_row(Some("top"), &anchors), Some(0));
    assert_eq!(resolve_anchor_row(Some("TOP"), &anchors), Some(0));
}

#[test]
fn resolve_anchor_row_matches_an_exact_name() {
    let anchors = [anchor("intro", 3), anchor("details", 8)];
    assert_eq!(resolve_anchor_row(Some("details"), &anchors), Some(8));
}

#[test]
fn resolve_anchor_row_falls_back_to_a_case_insensitive_match() {
    let anchors = [anchor("Details", 8)];
    assert_eq!(resolve_anchor_row(Some("details"), &anchors), Some(8));
}

#[test]
fn resolve_anchor_row_prefers_an_exact_match_over_a_case_insensitive_one() {
    let anchors = [anchor("Section", 2), anchor("section", 6)];
    assert_eq!(resolve_anchor_row(Some("section"), &anchors), Some(6));
}

#[test]
fn resolve_anchor_row_returns_the_first_anchor_of_a_shared_name() {
    let anchors = [anchor("dup", 4), anchor("dup", 11)];
    assert_eq!(resolve_anchor_row(Some("dup"), &anchors), Some(4));
}

#[test]
fn resolve_anchor_row_reports_no_row_for_an_unknown_fragment() {
    let anchors = [anchor("intro", 3)];
    assert_eq!(resolve_anchor_row(Some("missing"), &anchors), None);
}

#[test]
fn resolve_anchor_row_decodes_a_percent_encoded_fragment() {
    let anchors = [anchor("a b", 5)];
    assert_eq!(resolve_anchor_row(Some("a%20b"), &anchors), Some(5));
}

#[test]
fn decode_fragment_of_none_is_empty() {
    assert_eq!(decode_fragment(None), "");
}

#[test]
fn sanitize_fragment_for_display_strips_control_characters() {
    assert_eq!(sanitize_fragment_for_display("a\u{1b}b"), "ab");
}

#[test]
fn a_same_page_jump_to_a_present_anchor_moves_the_viewport_there() {
    let anchors = page_with_anchor("target");
    let target_row = anchors[0].row;
    assert!(
        target_row > 0,
        "the anchor must sit below the top of the page"
    );
    let mut scroll = ScrollState::new();
    let mut ui_state = UiState::new(true, START);

    jump_to_anchor(
        Some("target"),
        Some(anchors.as_slice()),
        &mut scroll,
        80,
        &mut ui_state,
        START,
    );

    assert_eq!(scroll.offset(), target_row);
    assert_eq!(ui_state.transient_message(), None);
}

#[test]
fn a_same_page_jump_to_a_missing_anchor_reports_it_and_does_not_move() {
    let anchors = page_with_anchor("target");
    let mut scroll = ScrollState::new();
    let mut ui_state = UiState::new(true, START);

    jump_to_anchor(
        Some("absent"),
        Some(anchors.as_slice()),
        &mut scroll,
        80,
        &mut ui_state,
        START,
    );

    assert_eq!(scroll.offset(), 0);
    assert_eq!(
        ui_state.transient_message(),
        Some("anchor not found: absent")
    );
}

#[test]
fn a_pending_fragment_is_applied_and_cleared_after_the_page_renders() {
    let anchors = page_with_anchor("target");
    let target_row = anchors[0].row;
    let mut scroll = ScrollState::new();
    let mut ui_state = UiState::new(true, START);
    ui_state.set_pending_fragment(Some("target".to_string()));

    apply_pending_fragment(&mut ui_state, Some(anchors.as_slice()), &mut scroll, 80);

    assert_eq!(scroll.offset(), target_row);
    assert!(!ui_state.has_pending_fragment());
}

#[test]
fn apply_pending_fragment_does_nothing_without_a_pending_fragment() {
    let anchors = page_with_anchor("target");
    let mut scroll = ScrollState::new();
    let mut ui_state = UiState::new(true, START);

    apply_pending_fragment(&mut ui_state, Some(anchors.as_slice()), &mut scroll, 80);

    assert_eq!(scroll.offset(), 0);
    assert!(!ui_state.has_pending_fragment());
}

fn position(column: u16, row: u16) -> CellPosition {
    CellPosition { column, row }
}

#[test]
fn document_coordinate_shifts_by_padding_and_adds_scroll() {
    let coordinate = document_coordinate(5, 3, 4, BODY_AREA_TOP_ROW);
    assert_eq!(coordinate, Some(position(5 - CONTENT_PADDING, 3 + 4)));
}

#[test]
fn document_coordinate_in_left_padding_maps_to_none() {
    assert_eq!(document_coordinate(1, 3, 0, BODY_AREA_TOP_ROW), None);
}

#[test]
fn clamped_coordinate_past_content_clamps_to_last_cell() {
    let coordinate = clamped_document_coordinate(100, 100, 10, 6, 0, BODY_AREA_TOP_ROW);
    assert_eq!(coordinate, position(9, 5));
}

#[test]
fn clamped_coordinate_within_content_is_unchanged() {
    let coordinate = clamped_document_coordinate(5, 2, 10, 6, 1, BODY_AREA_TOP_ROW);
    assert_eq!(coordinate, position(5 - CONTENT_PADDING, 3));
}

#[test]
fn clamped_coordinate_on_empty_buffer_does_not_panic() {
    let coordinate = clamped_document_coordinate(50, 50, 0, 0, 0, BODY_AREA_TOP_ROW);
    assert_eq!(coordinate, position(0, 0));
}

#[test]
fn cell_is_selected_covers_the_single_row_span_inclusively() {
    let range = Some((position(2, 1), position(5, 1)));
    assert!(!cell_is_selected(1, 1, range));
    assert!(cell_is_selected(2, 1, range));
    assert!(cell_is_selected(5, 1, range));
    assert!(!cell_is_selected(6, 1, range));
    assert!(!cell_is_selected(3, 0, range));
}

#[test]
fn cell_is_selected_covers_interior_rows_fully_and_ends_partially() {
    let range = Some((position(4, 1), position(3, 3)));
    assert!(!cell_is_selected(3, 1, range));
    assert!(cell_is_selected(4, 1, range));
    assert!(cell_is_selected(0, 2, range));
    assert!(cell_is_selected(9, 2, range));
    assert!(cell_is_selected(3, 3, range));
    assert!(!cell_is_selected(4, 3, range));
}

#[test]
fn cell_is_selected_is_false_without_a_range() {
    assert!(!cell_is_selected(3, 1, None));
}

#[test]
fn copied_message_reports_the_ascii_grapheme_count() {
    assert_eq!(copied_message("hello"), "copied 5 chars to clipboard");
}

#[test]
fn copied_message_counts_multibyte_characters_as_one_grapheme_each() {
    // "café" is five UTF-8 bytes but four grapheme clusters; a combined-emoji family is
    // many bytes yet a single grapheme. The count must be graphemes, not bytes.
    assert_eq!(copied_message("café"), "copied 4 chars to clipboard");
    assert_eq!(copied_message("👨‍👩‍👧"), "copied 1 chars to clipboard");
}

#[test]
fn copied_message_reports_zero_for_empty_text() {
    assert_eq!(copied_message(""), "copied 0 chars to clipboard");
}

#[test]
fn only_buffer_editing_actions_refresh_the_suggestions() {
    assert!(action_refreshes_suggestions(InputAction::CommandAppend(
        'a'
    )));
    assert!(action_refreshes_suggestions(InputAction::EnterCommand('a')));
    assert!(action_refreshes_suggestions(InputAction::CommandDeleteBack));
    assert!(!action_refreshes_suggestions(
        InputAction::SuggestionSelectNext
    ));
    assert!(!action_refreshes_suggestions(
        InputAction::SuggestionDismiss
    ));
}

#[test]
fn parse_history_request_lists_on_an_empty_argument() {
    assert!(matches!(parse_history_request(""), HistoryRequest::List));
    assert!(matches!(parse_history_request("   "), HistoryRequest::List));
}

#[test]
fn parse_history_request_clears_all_on_a_bare_clear() {
    assert!(matches!(
        parse_history_request("clear"),
        HistoryRequest::ClearAll
    ));
}

#[test]
fn parse_history_request_clears_a_single_site() {
    match parse_history_request("clear example.com") {
        HistoryRequest::ClearSite(host) => assert_eq!(host, "example.com"),
        _ => panic!("clear with a host must clear that site"),
    }
}

#[test]
fn parse_history_request_treats_other_text_as_a_search_query() {
    match parse_history_request("rust lang") {
        HistoryRequest::Search(query) => assert_eq!(query, "rust lang"),
        _ => panic!("a non-clear argument must search"),
    }
    // A word that merely starts with "clear" is a search, not a clear.
    assert!(matches!(
        parse_history_request("clearance"),
        HistoryRequest::Search(_)
    ));
}

#[test]
fn a_max_offset_leaves_room_for_the_last_anchor() {
    assert_eq!(max_scroll_offset(11, 4), 7);
}

fn mouse(kind: MouseEventKind, column: u16, row: u16) -> MouseEvent {
    MouseEvent { kind, column, row }
}

/// A blank laid-out page of `width` by `height` cells with no links.
fn blank_page(width: u16, height: u16) -> PageLayout {
    PageLayout {
        width,
        height,
        links: Vec::new(),
    }
}

#[test]
fn press_begins_a_selection_without_a_range() {
    let buffer = blank_page(10, 6);
    let mut selection = TextSelection::new();
    let mut navigate_to_url = None;
    handle_mouse_event(
        mouse(MouseEventKind::Down(MouseButton::Left), 5, 2),
        Some(&buffer),
        0,
        BODY_AREA_TOP_ROW,
        &mut selection,
        &mut navigate_to_url,
        &mut UiState::new(true, START),
        true,
    );
    assert!(selection.is_dragging());
    assert!(!selection.has_moved());
    assert_eq!(selection.range(), None);
    assert_eq!(navigate_to_url, None);
}

#[test]
fn press_drag_release_keeps_the_highlighted_range() {
    let buffer = blank_page(10, 6);
    let mut selection = TextSelection::new();
    let mut navigate_to_url = None;
    let steps = [
        MouseEventKind::Down(MouseButton::Left),
        MouseEventKind::Drag(MouseButton::Left),
        MouseEventKind::Up(MouseButton::Left),
    ];
    let columns = [3, 7, 7];
    for (kind, column) in steps.into_iter().zip(columns) {
        handle_mouse_event(
            mouse(kind, column, 2),
            Some(&buffer),
            0,
            BODY_AREA_TOP_ROW,
            &mut selection,
            &mut navigate_to_url,
            &mut UiState::new(true, START),
            true,
        );
    }
    assert!(selection.has_moved());
    assert_eq!(
        selection.range(),
        Some((
            position(3 - CONTENT_PADDING, 2),
            position(7 - CONTENT_PADDING, 2)
        ))
    );
    assert_eq!(navigate_to_url, None);
}

#[test]
fn release_with_copy_disabled_keeps_the_highlight_and_sets_no_message() {
    let buffer = blank_page(10, 6);
    let mut selection = TextSelection::new();
    let mut navigate_to_url = None;
    let mut ui_state = UiState::new(true, START);
    let steps = [
        MouseEventKind::Down(MouseButton::Left),
        MouseEventKind::Drag(MouseButton::Left),
        MouseEventKind::Up(MouseButton::Left),
    ];
    let columns = [3, 7, 7];
    let mut to_copy = None;
    for (kind, column) in steps.into_iter().zip(columns) {
        to_copy = handle_mouse_event(
            mouse(kind, column, 2),
            Some(&buffer),
            0,
            BODY_AREA_TOP_ROW,
            &mut selection,
            &mut navigate_to_url,
            &mut ui_state,
            false,
        );
    }
    // The drag still produced a highlighted range, but with copy disabled the release
    // copies nothing and shows no confirmation.
    assert!(selection.has_moved());
    assert_eq!(
        selection.range(),
        Some((
            position(3 - CONTENT_PADDING, 2),
            position(7 - CONTENT_PADDING, 2)
        ))
    );
    assert_eq!(to_copy, None);
    assert_eq!(ui_state.transient_message(), None);
}

#[test]
fn press_release_without_movement_clears_the_selection() {
    let buffer = blank_page(10, 6);
    let mut selection = TextSelection::new();
    let mut navigate_to_url = None;
    handle_mouse_event(
        mouse(MouseEventKind::Down(MouseButton::Left), 5, 2),
        Some(&buffer),
        0,
        BODY_AREA_TOP_ROW,
        &mut selection,
        &mut navigate_to_url,
        &mut UiState::new(true, START),
        true,
    );
    handle_mouse_event(
        mouse(MouseEventKind::Up(MouseButton::Left), 5, 2),
        Some(&buffer),
        0,
        BODY_AREA_TOP_ROW,
        &mut selection,
        &mut navigate_to_url,
        &mut UiState::new(true, START),
        true,
    );
    assert!(!selection.is_dragging());
    assert_eq!(selection.range(), None);
    assert_eq!(navigate_to_url, None);
}

#[test]
fn a_drag_without_a_prior_press_is_ignored() {
    let buffer = blank_page(10, 6);
    let mut selection = TextSelection::new();
    let mut navigate_to_url = None;
    handle_mouse_event(
        mouse(MouseEventKind::Drag(MouseButton::Left), 5, 2),
        Some(&buffer),
        0,
        BODY_AREA_TOP_ROW,
        &mut selection,
        &mut navigate_to_url,
        &mut UiState::new(true, START),
        true,
    );
    assert!(!selection.is_dragging());
    assert_eq!(selection.range(), None);
}

#[test]
fn wheel_scroll_events_do_not_touch_the_selection() {
    let buffer = blank_page(10, 6);
    let mut selection = TextSelection::new();
    let mut navigate_to_url = None;
    handle_mouse_event(
        mouse(MouseEventKind::Down(MouseButton::Left), 5, 2),
        Some(&buffer),
        0,
        BODY_AREA_TOP_ROW,
        &mut selection,
        &mut navigate_to_url,
        &mut UiState::new(true, START),
        true,
    );
    handle_mouse_event(
        mouse(MouseEventKind::ScrollDown, 5, 2),
        Some(&buffer),
        0,
        BODY_AREA_TOP_ROW,
        &mut selection,
        &mut navigate_to_url,
        &mut UiState::new(true, START),
        true,
    );
    assert!(selection.is_dragging());
    assert!(!selection.has_moved());
}

/// A page of `link_count` single-link paragraphs laid out with a blank line between them, so
/// the links sit on evenly spaced rows (0, 2, 4, ...) of a page taller than a small viewport.
fn page_with_links(link_count: u16) -> PageLayout {
    let links = (0..link_count)
        .map(|number| LinkSpan {
            url: format!("https://example.com/{number}"),
            row: number * 2,
            col_start: 0,
            col_end: 5,
            kind: LinkKind::Link,
        })
        .collect();
    PageLayout {
        width: 40,
        height: link_count * 2 - 1,
        links,
    }
}

#[test]
fn tabbing_down_onto_a_link_below_the_fold_scrolls_to_reveal_it() {
    let cache = page_with_links(6);
    let viewport_height = 4;
    let max_offset = max_scroll_offset(cache.height, viewport_height);
    let mut ui_state = UiState::new(true, START);
    let mut scroll = ScrollState::new();

    // The entry Tab focuses the first visible link (row 0) and does not scroll.
    advance_link_focus(
        &mut ui_state,
        Some(cache.links.as_slice()),
        &mut scroll,
        ViewportBounds {
            height: viewport_height,
            max_offset,
        },
    );
    assert_eq!(scroll.offset(), 0);

    // Tabbing down to the fourth link (row 6) scrolls it onto the bottom edge.
    for _ in 0..3 {
        advance_link_focus(
            &mut ui_state,
            Some(cache.links.as_slice()),
            &mut scroll,
            ViewportBounds {
                height: viewport_height,
                max_offset,
            },
        );
    }
    assert_eq!(ui_state.focused_link_index(), Some(3));
    assert_eq!(scroll.offset(), 6 - (viewport_height - 1));
}

#[test]
fn shift_tabbing_up_to_a_link_above_the_window_scrolls_to_reveal_it() {
    let cache = page_with_links(6);
    let viewport_height = 4;
    let max_offset = max_scroll_offset(cache.height, viewport_height);
    let mut ui_state = UiState::new(true, START);
    let mut scroll = ScrollState::new();
    // Focus the fifth link (row 8) with the window scrolled to the bottom.
    ui_state.enter_link_navigation(4);
    scroll.scroll_to(8, max_offset);

    // Shift+Tab up to the fourth link (row 6) sits above the window and scrolls up to it.
    retreat_link_focus(
        &mut ui_state,
        Some(cache.links.as_slice()),
        &mut scroll,
        ViewportBounds {
            height: viewport_height,
            max_offset,
        },
    );
    assert_eq!(ui_state.focused_link_index(), Some(3));
    assert_eq!(scroll.offset(), 6);
}

#[test]
fn tabbing_forward_off_the_last_link_wraps_and_scrolls_to_the_top() {
    let cache = page_with_links(6);
    let viewport_height = 4;
    let max_offset = max_scroll_offset(cache.height, viewport_height);
    let mut ui_state = UiState::new(true, START);
    let mut scroll = ScrollState::new();
    ui_state.enter_link_navigation(5);
    scroll.scroll_to(8, max_offset);

    advance_link_focus(
        &mut ui_state,
        Some(cache.links.as_slice()),
        &mut scroll,
        ViewportBounds {
            height: viewport_height,
            max_offset,
        },
    );
    assert_eq!(ui_state.focused_link_index(), Some(0));
    assert_eq!(scroll.offset(), 0);
}

#[test]
fn shift_tabbing_backward_off_the_first_link_wraps_and_reveals_the_last() {
    let cache = page_with_links(6);
    let viewport_height = 4;
    let max_offset = max_scroll_offset(cache.height, viewport_height);
    let mut ui_state = UiState::new(true, START);
    let mut scroll = ScrollState::new();
    ui_state.enter_link_navigation(0);

    // The last link sits on row 10; the bottom edge lands it at offset 10 - (4 - 1) = 7.
    retreat_link_focus(
        &mut ui_state,
        Some(cache.links.as_slice()),
        &mut scroll,
        ViewportBounds {
            height: viewport_height,
            max_offset,
        },
    );
    assert_eq!(ui_state.focused_link_index(), Some(5));
    assert_eq!(scroll.offset(), 10 - (viewport_height - 1));
}

#[test]
fn tabbing_onto_an_already_visible_link_leaves_the_offset_unchanged() {
    let cache = page_with_links(6);
    let viewport_height = 6;
    let max_offset = max_scroll_offset(cache.height, viewport_height);
    let mut ui_state = UiState::new(true, START);
    let mut scroll = ScrollState::new();
    ui_state.enter_link_navigation(0);

    // The second link (row 2) is already inside the window that starts at the top.
    advance_link_focus(
        &mut ui_state,
        Some(cache.links.as_slice()),
        &mut scroll,
        ViewportBounds {
            height: viewport_height,
            max_offset,
        },
    );
    assert_eq!(ui_state.focused_link_index(), Some(1));
    assert_eq!(scroll.offset(), 0);
}

#[test]
fn allow_session_writes_the_session_policy_for_the_site() {
    let mut ui_state = UiState::new(true, START);
    let step = plan_cookies(
        CookiesRequest::AllowSession("example.com".to_string()),
        &[],
        &mut ui_state,
        START,
    );
    assert_eq!(
        step,
        CookiesStep::SetSitePolicy("example.com".to_string(), CookiePolicy::Session)
    );
}

#[test]
fn reject_writes_the_reject_policy_for_the_site() {
    let mut ui_state = UiState::new(true, START);
    let step = plan_cookies(
        CookiesRequest::Reject("example.com".to_string()),
        &[],
        &mut ui_state,
        START,
    );
    assert_eq!(
        step,
        CookiesStep::SetSitePolicy("example.com".to_string(), CookiePolicy::Reject)
    );
}

#[test]
fn a_cookies_summary_with_no_records_reports_an_empty_session() {
    let mut ui_state = UiState::new(true, START);

    plan_cookies(CookiesRequest::Summary, &[], &mut ui_state, START);

    assert!(!ui_state.is_in_cookies_mode());
    assert_eq!(
        ui_state.transient_message(),
        Some("no cookies recorded this session")
    );
}

#[test]
fn clearing_cookies_confirms_and_does_not_open_the_popup() {
    let mut ui_state = UiState::new(true, START);

    let step = plan_cookies(CookiesRequest::Clear, &[], &mut ui_state, START);

    assert_eq!(step, CookiesStep::ClearJar);
    assert!(!ui_state.is_in_cookies_mode());
    assert_eq!(ui_state.transient_message(), Some("cookies cleared"));
}

#[test]
fn an_unknown_cookies_subcommand_shows_the_usage_message() {
    let mut ui_state = UiState::new(true, START);

    plan_cookies(CookiesRequest::Usage, &[], &mut ui_state, START);

    assert!(!ui_state.is_in_cookies_mode());
    assert!(ui_state
        .transient_message()
        .expect("a usage message must be set")
        .starts_with("usage: /cookies"));
}

/// Mirrors the event loop's Enter decision: a highlighted suggestion is taken over the
/// typed buffer.
fn resolve_submit(ui_state: &mut UiState) -> String {
    match ui_state.take_selected_suggestion() {
        Some(url) => url,
        None => ui_state.take_submit_buffer(),
    }
}

/// The history index the tests ask for suggestions: every stored URL containing the query.
fn suggest(query: &str) -> Vec<String> {
    ["https://github.com/"]
        .iter()
        .filter(|url| url.contains(query))
        .map(|url| url.to_string())
        .collect()
}

#[test]
fn typing_an_address_populates_suggestions_from_the_controller() {
    let mut ui_state = UiState::new(true, START);
    ui_state.enter_command_mode('g');
    ui_state.command_append_char('i');
    ui_state.command_append_char('t');

    let query = address_suggestion_query(&mut ui_state).expect("an address is being typed");
    ui_state.set_address_suggestions(suggest(&query));

    assert!(ui_state.has_address_suggestions());
    assert_eq!(ui_state.address_suggestions()[0], "https://github.com/");
}

#[test]
fn a_slash_buffer_shows_no_address_suggestions() {
    let mut ui_state = UiState::new(true, START);
    ui_state.enter_command_mode('/');

    assert_eq!(address_suggestion_query(&mut ui_state), None);

    assert!(!ui_state.has_address_suggestions());
}

#[test]
fn an_empty_command_buffer_offers_no_suggestions() {
    let mut ui_state = UiState::new(true, START);

    assert_eq!(address_suggestion_query(&mut ui_state), None);

    assert!(!ui_state.has_address_suggestions());
}

#[test]
fn enter_with_a_selected_suggestion_resolves_to_that_url_not_the_typed_text() {
    let mut ui_state = UiState::new(true, START);
    ui_state.enter_command_mode('g');
    ui_state.command_append_char('i');
    ui_state.command_append_char('t');
    ui_state.set_address_suggestions(vec!["https://github.com/".to_string()]);
    ui_state.suggestion_select_next();

    let submitted = resolve_submit(&mut ui_state);

    assert_eq!(submitted, "https://github.com/");
}

#[test]
fn enter_without_a_selection_resolves_to_the_typed_text() {
    let mut ui_state = UiState::new(true, START);
    ui_state.enter_command_mode('e');
    ui_state.command_append_char('x');
    ui_state.set_address_suggestions(vec!["https://github.com/".to_string()]);

    let submitted = resolve_submit(&mut ui_state);

    assert_eq!(submitted, "ex");
}

fn settings_with_unwrap_tracking(unwrap_tracking: bool) -> puma_terminal::TerminalSettings {
    puma_terminal::TerminalSettings {
        copy_on_select: false,
        force_osc52: false,
        search_enabled: true,
        unwrap_tracking,
        env_overridden: puma_terminal::EnvOverrides::default(),
    }
}

#[test]
fn an_enabled_unwrap_tracking_setting_maps_to_the_enabled_mode() {
    let settings = settings_with_unwrap_tracking(true);

    assert_eq!(
        settings.tracking_unwrap_mode(),
        puma_terminal::TrackingUnwrap::Enabled
    );
}

#[test]
fn a_disabled_unwrap_tracking_setting_maps_to_the_disabled_mode() {
    let settings = settings_with_unwrap_tracking(false);

    assert_eq!(
        settings.tracking_unwrap_mode(),
        puma_terminal::TrackingUnwrap::Disabled
    );
}
