use puma_terminal::{
    body_message, focused_link_url, link_highlight, padded_body_columns, LinkHighlight, ViewState,
    BLANK_PLACEHOLDER, bottom_popup_rows, separator_line, settings_row_emphasis, RowEmphasis,
    SettingId, SettingsControl, SettingsRow, frame_geometry, citation_popup, command_bar_row, compose_command_bar_loading,
    compose_command_bar_reading, cookies_popup, history_popup, palette_popup, suggestions_popup,
    HistoryEntry, UiState,
};

const START: u64 = 1_000_000;

#[test]
fn no_popup_is_drawn_while_reading() {
    let state = UiState::new(true, START);
    assert!(palette_popup(&state, 80, 20).is_none());
    assert!(suggestions_popup(&state, 80, 20).is_none());
    assert!(history_popup(&state, 80, 20, 0).is_none());
    assert!(cookies_popup(&state, 80, 20).is_none());
    assert!(citation_popup(&state, 80, 20).is_none());
}

#[test]
fn a_slash_buffer_draws_the_palette_with_the_first_match_highlighted() {
    let mut state = UiState::new(true, START);
    state.enter_command_mode('/');
    let menu = palette_popup(&state, 80, 20).expect("palette is drawn");
    assert_eq!(menu.rows.len(), 6);
    assert_eq!(menu.selected_row, 0);
    assert!(menu.rows[0].starts_with("/open"));
}

#[test]
fn the_palette_uses_no_more_rows_than_the_area_has() {
    let mut state = UiState::new(true, START);
    state.enter_command_mode('/');
    let menu = palette_popup(&state, 80, 3).expect("palette is drawn");
    assert_eq!(menu.rows.len(), 3);
}

#[test]
fn an_empty_area_draws_no_palette() {
    let mut state = UiState::new(true, START);
    state.enter_command_mode('/');
    assert!(palette_popup(&state, 0, 20).is_none());
    assert!(palette_popup(&state, 80, 0).is_none());
}

#[test]
fn a_slash_buffer_without_matches_draws_no_palette() {
    let mut state = UiState::new(true, START);
    state.enter_command_mode('/');
    state.command_append_char('z');
    state.command_append_char('z');
    assert!(palette_popup(&state, 80, 20).is_none());
}

#[test]
fn address_suggestions_are_listed_without_control_characters() {
    let mut state = UiState::new(true, START);
    state.enter_command_mode('e');
    state.set_address_suggestions(vec![
        "https://example.com/\u{7}a".to_string(),
        "https://example.org/".to_string(),
    ]);
    let menu = suggestions_popup(&state, 30, 20).expect("suggestions are drawn");
    assert_eq!(menu.rows.len(), 2);
    assert!(menu.rows[0].starts_with("https://example.com/a"));
    assert!(!menu.rows[0].contains('\u{7}'));
    assert!(menu.rows[1].starts_with("https://example.org/"));
}

#[test]
fn the_history_popup_labels_each_visit_with_its_age() {
    let mut state = UiState::new(true, START);
    state.enter_history_mode(vec![
        HistoryEntry::new(1, "https://a.example/".to_string(), Some("A".to_string()), 1_000),
        HistoryEntry::new(2, "https://b.example/".to_string(), None, 1_000 - 7_200),
    ]);
    let menu = history_popup(&state, 60, 20, 1_000).expect("history is drawn");
    assert_eq!(menu.rows.len(), 2);
    assert!(menu.rows[0].starts_with("just now  "));
    assert!(menu.rows[1].starts_with("2h ago  "));
    assert_eq!(menu.selected_row, Some(0));
}

#[test]
fn the_cookie_popup_lists_its_lines() {
    let mut state = UiState::new(true, START);
    state.enter_cookies_mode(vec!["first line".to_string(), "second line".to_string()]);
    let menu = cookies_popup(&state, 20, 20).expect("cookies are drawn");
    assert_eq!(menu.rows, vec!["first line          ".to_string(), "second line         ".to_string()]);
    assert_eq!(menu.selected_row, Some(0));
}

#[test]
fn the_citation_preview_shows_the_cite_url() {
    let mut state = UiState::new(true, START);
    state.set_citation_preview("https://cite.example/\u{1b}x".to_string());
    assert_eq!(citation_popup(&state, 80, 20), Some("https://cite.example/x".to_string()));
    assert!(citation_popup(&state, 0, 20).is_none());
}

#[test]
fn a_bottom_popup_ends_on_the_last_row_of_the_area() {
    assert_eq!(bottom_popup_rows(2, 20, 5), (17, 5));
    assert_eq!(bottom_popup_rows(0, 4, 4), (0, 4));
}

#[test]
fn the_command_bar_shows_the_hint_while_reading() {
    let state = UiState::new(true, START);
    let row = command_bar_row(&state, None, 40);
    assert_eq!(row.text, compose_command_bar_reading(&state.current_hint(), 40));
    assert!(row.text.starts_with("> "));
    assert_eq!(row.cursor_col, None);
}

#[test]
fn the_command_bar_places_the_cursor_after_the_typed_text() {
    let mut state = UiState::new(true, START);
    state.enter_command_mode('h');
    state.command_append_char('\u{e9}');
    let row = command_bar_row(&state, None, 20);
    assert_eq!(row.text, "> h\u{e9}                ");
    assert_eq!(row.cursor_col, Some(4));
    state.command_move_left();
    assert_eq!(command_bar_row(&state, None, 20).cursor_col, Some(3));
}

#[test]
fn the_command_bar_shows_the_loading_bar_over_everything_else() {
    let mut state = UiState::new(true, START);
    state.enter_command_mode('h');
    let row = command_bar_row(&state, Some((3, "https://x.test/", 2048)), 60);
    assert_eq!(row.text, compose_command_bar_loading(3, "https://x.test/", 2048, 60));
    assert!(row.text.ends_with("\u{2193} 2 KB"));
    assert_eq!(row.cursor_col, None);
}

#[test]
fn a_body_without_a_page_shows_its_message() {
    assert_eq!(body_message(&ViewState::Page), None);
    assert_eq!(body_message(&ViewState::Blank), Some(BLANK_PLACEHOLDER.to_string()));
    assert_eq!(BLANK_PLACEHOLDER, "(blank page)");
    assert_eq!(
        body_message(&ViewState::Error("could not load".to_string())),
        Some("could not load".to_string())
    );
}

#[test]
fn the_body_keeps_its_padding_clear_on_both_sides() {
    assert_eq!(padded_body_columns(0, 80), (2, 76));
    assert_eq!(padded_body_columns(0, 3), (2, 0));
    assert_eq!(padded_body_columns(u16::MAX, 10), (u16::MAX, 6));
}

fn link(url: &str, row: u16, col_start: u16, col_end: u16) -> puma_terminal::LinkSpan {
    puma_terminal::LinkSpan {
        url: url.to_string(),
        row,
        col_start,
        col_end,
        kind: puma_terminal::LinkKind::Link,
    }
}

#[test]
fn links_are_drawn_focused_visited_or_plain() {
    let links = vec![
        link("https://a.test/", 0, 0, 4),
        link("https://b.test/", 1, 2, 6),
        link("https://c.test/", 2, 0, 3),
    ];
    let mut state = UiState::new(true, START);
    state.mark_visited("https://b.test/");
    assert_eq!(focused_link_url(&state, &links), None);
    state.enter_link_navigation(2);
    let focused = focused_link_url(&state, &links);
    assert_eq!(focused, Some("https://c.test/".to_string()));
    let focused = focused.as_deref();
    assert_eq!(link_highlight(&links, 2, 1, focused, &state), LinkHighlight::Focused);
    assert_eq!(link_highlight(&links, 1, 3, focused, &state), LinkHighlight::Visited);
    assert_eq!(link_highlight(&links, 0, 4, focused, &state), LinkHighlight::Plain);
    assert_eq!(link_highlight(&links, 0, 5, focused, &state), LinkHighlight::Plain);
    state.enter_link_navigation(7);
    assert_eq!(focused_link_url(&state, &links), None);
}

#[test]
fn the_separator_spans_the_width_in_box_drawing_lines() {
    assert_eq!(separator_line(4), "\u{2500}\u{2500}\u{2500}\u{2500}");
    assert_eq!(separator_line(0), "");
}

#[test]
fn focus_outranks_the_environment_dimming_of_a_settings_row() {
    let row = SettingsRow {
        id: SettingId::CopyOnSelect,
        label: "Copy on select".to_string(),
        control: SettingsControl::Checkbox { checked: true },
        env_overridden: true,
    };
    assert_eq!(settings_row_emphasis(&row, true), RowEmphasis::Highlighted);
    assert_eq!(settings_row_emphasis(&row, false), RowEmphasis::Dimmed);
    let free = SettingsRow {
        env_overridden: false,
        ..row
    };
    assert_eq!(settings_row_emphasis(&free, false), RowEmphasis::Plain);
}

#[test]
fn the_page_area_is_what_the_chrome_leaves() {
    let geometry = frame_geometry(80, 24, 100);
    assert_eq!(geometry.viewport_height, 19);
    assert_eq!(geometry.content_width, 76);
    assert_eq!(geometry.max_offset, 81);
    let tiny = frame_geometry(3, 4, 10);
    assert_eq!(tiny.viewport_height, 0);
    assert_eq!(tiny.content_width, 0);
    assert_eq!(tiny.max_offset, 10);
    assert_eq!(frame_geometry(80, 24, 5).max_offset, 0);
}
