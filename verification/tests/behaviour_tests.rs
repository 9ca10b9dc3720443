use puma_terminal::{
    build_osc52_sequence, build_settings_model, copied_message_for_count, decode_fragment,
    eq_ignore_ascii_case, filter, fit_to_width, focused_row_line_index, format_page_size,
    map_key_event, quit_armed_after, refresh_armed_after, relative_time,
    resolve_decoded_anchor_row, scroll_percentage, settings_line_texts, settings_row_line_text,
    settings_text_cursor_position, strip_control, unique_link_urls, unix_seconds_from,
    update_citation_preview_for_pointer, AnchorSpan, CookiePolicy, CookiePolicyPair,
    EnvOverrides, InputAction, KeyCode, KeyEvent, LinkKind, LinkSpan, MatchRank, MouseEvent,
    MouseEventKind, PageLayout, ScrollState, SearchEngine, SettingId, SettingsEscOutcome,
    TerminalSettings, UiState, BODY_AREA_TOP_ROW, CONTENT_PADDING,
};

const START: u64 = 1_000_000;

fn key(code: KeyCode) -> KeyEvent {
    KeyEvent {
        code,
        control: false,
    }
}

fn reading(code: KeyCode, quit_armed: bool, refresh_armed: bool) -> InputAction {
    map_key_event(
        key(code),
        quit_armed,
        refresh_armed,
        false,
        false,
        false,
        false,
        false,
        false,
        false,
    )
}

fn sample_model() -> puma_terminal::SettingsModel {
    build_settings_model(
        &TerminalSettings {
            copy_on_select: true,
            force_osc52: false,
            search_enabled: true,
            unwrap_tracking: false,
            env_overridden: EnvOverrides::default(),
        },
        CookiePolicyPair {
            first_party: CookiePolicy::Reject,
            third_party: CookiePolicy::Reject,
        },
        &SearchEngine {
            base_url: "https://duckduckgo.com/".to_string(),
            query_parameter: "q".to_string(),
        },
    )
}

#[test]
fn two_esc_presses_quit_and_two_r_presses_refresh() {
    let first = reading(KeyCode::Esc, false, false);
    assert_eq!(first, InputAction::ArmQuit);
    let second = reading(KeyCode::Esc, quit_armed_after(first), false);
    assert_eq!(second, InputAction::Quit);
    let first = reading(KeyCode::Char('r'), false, false);
    let second = reading(KeyCode::Char('r'), false, refresh_armed_after(first));
    assert_eq!(second, InputAction::RefreshArmed);
}

#[test]
fn ctrl_c_quits_in_every_mode() {
    let ctrl_c = KeyEvent {
        code: KeyCode::Char('c'),
        control: true,
    };
    for mask in 0u32..(1 << 10) {
        let flag = |bit: u32| mask & (1 << bit) != 0;
        let action = map_key_event(
            ctrl_c,
            flag(0),
            flag(1),
            flag(2),
            flag(3),
            flag(4),
            flag(5),
            flag(6),
            flag(7),
            flag(8),
        );
        assert_eq!(action, InputAction::Quit);
    }
}

#[test]
fn a_quit_stays_armed_only_after_arming() {
    assert!(!quit_armed_after(InputAction::ScrollLineDown));
    assert!(!quit_armed_after(InputAction::Quit));
    assert!(!refresh_armed_after(InputAction::ArmQuit));
    assert_eq!(reading(KeyCode::Esc, false, true), InputAction::ArmQuit);
}

#[test]
fn scrolling_never_passes_the_last_offset() {
    let mut scroll = ScrollState::new();
    scroll.page_down(30, 12);
    assert_eq!(scroll.offset(), 12);
    scroll.line_down(12);
    assert_eq!(scroll.offset(), 12);
    scroll.page_up(5);
    assert_eq!(scroll.offset(), 7);
    scroll.move_to_top();
    assert_eq!(scroll.offset(), 0);
}

#[test]
fn revealing_a_row_moves_the_window_just_enough() {
    let mut scroll = ScrollState::new();
    scroll.reveal_row(9, 4, 20);
    assert_eq!(scroll.offset(), 6);
    scroll.reveal_row(7, 4, 20);
    assert_eq!(scroll.offset(), 6);
    scroll.reveal_row(2, 4, 20);
    assert_eq!(scroll.offset(), 2);
}

#[test]
fn scroll_percentage_rounds_down_between_the_ends() {
    assert_eq!(scroll_percentage(1, 3), 33);
    assert_eq!(scroll_percentage(2, 3), 66);
}

#[test]
fn page_size_rounds_a_tie_to_even_like_the_float_formatter() {
    assert_eq!(format_page_size(1280), format!("↓ {:.1} KB", 1280.0_f64 / 1024.0));
    assert_eq!(format_page_size(1331), format!("↓ {:.1} KB", 1331.0_f64 / 1024.0));
    assert_eq!(format_page_size(3 * 1024 * 1024 + 512 * 1024), "↓ 3.5 MB");
}

#[test]
fn relative_time_uses_whole_units() {
    assert_eq!(relative_time(0, 59), "just now");
    assert_eq!(relative_time(0, 60), "1m ago");
    assert_eq!(relative_time(0, 3_599), "59m ago");
    assert_eq!(relative_time(0, 3_600), "1h ago");
    assert_eq!(relative_time(0, 86_400), "1d ago");
}

#[test]
fn a_clock_before_the_epoch_reads_as_zero() {
    assert_eq!(unix_seconds_from(None), 0);
    assert_eq!(unix_seconds_from(Some(42)), 42);
}

#[test]
fn control_characters_never_survive_stripping() {
    let stripped = strip_control("a\u{1b}[2Jb\u{7}c\u{9b}d");
    assert_eq!(stripped, "a[2Jbcd");
    assert!(!stripped.chars().any(char::is_control));
}

#[test]
fn wide_characters_are_fitted_by_their_columns() {
    assert_eq!(fit_to_width("日本語", 4), "日本");
    assert_eq!(fit_to_width("日本語", 5), "日本 ");
    assert_eq!(fit_to_width("ab", 4), "ab  ");
}

#[test]
fn the_osc52_payload_is_the_base64_of_the_bytes() {
    assert_eq!(build_osc52_sequence("hi"), "\x1b]52;c;aGk=\x07");
    assert_eq!(build_osc52_sequence("abc"), "\x1b]52;c;YWJj\x07");
}

#[test]
fn the_copy_message_counts_what_it_is_given() {
    assert_eq!(copied_message_for_count(12), "copied 12 chars to clipboard");
}

#[test]
fn a_percent_encoded_fragment_is_decoded() {
    assert_eq!(decode_fragment(Some("caf%C3%A9")), "café");
    assert_eq!(decode_fragment(Some("plain")), "plain");
    assert_eq!(decode_fragment(Some("bad%zz")), "bad%zz");
}

#[test]
fn ascii_case_is_ignored_but_nothing_else() {
    assert!(eq_ignore_ascii_case("Top", "tOP"));
    assert!(!eq_ignore_ascii_case("top", "tops"));
    assert!(!eq_ignore_ascii_case("É", "é"));
}

#[test]
fn an_exact_anchor_wins_over_a_caseless_one_even_when_later() {
    let anchors = [
        AnchorSpan {
            name: "Notes".to_string(),
            row: 1,
        },
        AnchorSpan {
            name: "notes".to_string(),
            row: 7,
        },
    ];
    assert_eq!(resolve_decoded_anchor_row("notes", &anchors), Some(7));
    assert_eq!(resolve_decoded_anchor_row("NOTES", &anchors), Some(1));
    assert_eq!(resolve_decoded_anchor_row("", &anchors), Some(0));
}

#[test]
fn prefix_matches_come_before_subsequence_matches() {
    let matches = filter("e");
    let first_subsequence = matches
        .iter()
        .position(|found| found.rank == MatchRank::Subsequence)
        .unwrap_or(matches.len());
    assert!(matches[..first_subsequence]
        .iter()
        .all(|found| found.rank == MatchRank::Prefix));
    assert!(matches[first_subsequence..]
        .iter()
        .all(|found| found.rank == MatchRank::Subsequence));
}

#[test]
fn typing_then_deleting_leaves_the_buffer_as_it_was() {
    let mut state = UiState::new(true, START);
    state.enter_command_mode('a');
    state.command_append_char('b');
    state.command_move_left();
    let before = state.command_buffer();
    let cursor = state.cursor_byte_offset();
    state.command_append_char('x');
    state.command_delete_before_cursor();
    assert_eq!(state.command_buffer(), before);
    assert_eq!(state.cursor_byte_offset(), cursor);
}

#[test]
fn stepping_the_settings_focus_forward_then_back_returns_to_the_row() {
    let mut state = UiState::new(true, START);
    state.enter_settings_mode(sample_model());
    state.settings_focus_next();
    state.settings_focus_next();
    let focus = state.settings_focus();
    state.settings_focus_next();
    state.settings_focus_prev();
    assert_eq!(state.settings_focus(), focus);
}

#[test]
fn the_focused_line_index_names_the_line_the_panel_draws_for_the_row() {
    let model = sample_model();
    for focus in 0..model.row_count() {
        let lines = settings_line_texts(&model, focus, Some("draft"), Some("bad value"));
        let index = focused_row_line_index(&model, focus).expect("every row has a line");
        let row = model
            .sections
            .iter()
            .flat_map(|section| &section.rows)
            .nth(focus)
            .expect("the row exists");
        assert_eq!(
            lines[index],
            settings_row_line_text(row, Some("draft"), Some("bad value"))
        );
    }
}

#[test]
fn the_panel_starts_with_the_heading_and_ends_with_the_controls_hint() {
    let model = sample_model();
    let lines = settings_line_texts(&model, 0, None, None);
    assert_eq!(lines[0], "Settings");
    assert_eq!(lines[1], "");
    assert_eq!(
        lines.last().map(String::as_str),
        Some("↑↓ move · Space toggle · ←→ cycle · type to edit · Esc revert/close")
    );
    assert_eq!(lines.len(), 1 + 2 * model.sections.len() + model.row_count() + 2);
}

#[test]
fn an_env_fixed_row_is_marked_and_an_error_follows_it() {
    let model = build_settings_model(
        &TerminalSettings {
            copy_on_select: true,
            force_osc52: true,
            search_enabled: true,
            unwrap_tracking: false,
            env_overridden: EnvOverrides {
                force_osc52: true,
                ..EnvOverrides::default()
            },
        },
        CookiePolicyPair {
            first_party: CookiePolicy::Reject,
            third_party: CookiePolicy::Reject,
        },
        &SearchEngine {
            base_url: "https://duckduckgo.com/".to_string(),
            query_parameter: "q".to_string(),
        },
    );
    let row = model
        .sections
        .iter()
        .flat_map(|section| &section.rows)
        .find(|row| row.id == SettingId::ForceOsc52)
        .expect("the row exists");
    let line = settings_row_line_text(row, None, Some("oops"));
    assert!(line.starts_with("  [x] "));
    assert!(line.ends_with(" (set by environment)  ⚠ oops"));
}

#[test]
fn the_text_cursor_sits_after_the_label_and_the_draft_prefix() {
    let model = sample_model();
    let base_url_focus = model
        .sections
        .iter()
        .flat_map(|section| &section.rows)
        .position(|row| row.id == SettingId::SearchBaseUrl)
        .expect("the row exists");
    let line = focused_row_line_index(&model, base_url_focus).expect("a line");
    let label = &model
        .sections
        .iter()
        .flat_map(|section| &section.rows)
        .nth(base_url_focus)
        .expect("the row exists")
        .label;
    let expected_x = 10 + 2 + label.chars().count() as u16 + 3 + 3;
    assert_eq!(
        settings_text_cursor_position(&model, base_url_focus, "abcdef", 3, 10, 4),
        Some((expected_x, 4 + line as u16))
    );
    assert_eq!(settings_text_cursor_position(&model, 0, "abc", 1, 0, 0), None);
}

#[test]
fn a_settings_text_edit_reverts_then_closes_on_escape() {
    let mut state = UiState::new(true, START);
    state.enter_settings_mode(sample_model());
    state.begin_settings_text_edit(SettingId::SearchQueryParameter, START);
    assert_eq!(state.settings_text_draft().as_deref(), Some("q"));
    state.settings_text_input('x', START + 10);
    assert_eq!(state.settings_text_draft().as_deref(), Some("qx"));
    assert_eq!(state.settings_text_due_save(START + 100), None);
    let due = state
        .settings_text_due_save(START + 10 + 1_500)
        .expect("an idle dirty draft is due");
    assert_eq!(due.id, SettingId::SearchQueryParameter);
    assert_eq!(due.value, "qx");
    state.mark_settings_text_save_failed("rejected".to_string());
    assert_eq!(state.settings_text_error(), Some("rejected"));
    assert_eq!(state.settings_text_due_save(START + 10_000), None);
    assert!(state.settings_text_pending_save().is_some());
    assert_eq!(state.settings_text_cancel(), SettingsEscOutcome::Reverted);
    assert_eq!(state.settings_text_draft().as_deref(), Some("q"));
    assert_eq!(state.settings_text_error(), None);
    assert_eq!(state.settings_text_cancel(), SettingsEscOutcome::ClosePanel);
}

#[test]
fn a_successful_save_updates_both_search_rows() {
    let mut state = UiState::new(true, START);
    state.enter_settings_mode(sample_model());
    state.begin_settings_text_edit(SettingId::SearchBaseUrl, START);
    state.settings_text_input('/', START);
    state.mark_settings_text_saved("https://example.org/", "query");
    assert!(state.settings_text_pending_save().is_none());
    let model = state.settings_model().expect("the panel is open");
    assert_eq!(model.text_value(SettingId::SearchBaseUrl), Some("https://example.org/"));
    assert_eq!(model.text_value(SettingId::SearchQueryParameter), Some("query"));
}

#[test]
fn links_are_walked_once_each_in_page_order() {
    let span = |url: &str, row: u16| LinkSpan {
        url: url.to_string(),
        row,
        col_start: 0,
        col_end: 3,
        kind: LinkKind::Link,
    };
    let links = [span("a", 0), span("b", 1), span("a", 2), span("c", 3)];
    assert_eq!(unique_link_urls(&links), vec!["a", "b", "c"]);
}

#[test]
fn hovering_a_citation_previews_it_and_leaving_clears_it() {
    let page = PageLayout {
        width: 40,
        height: 5,
        links: vec![LinkSpan {
            url: "https://cite.example/".to_string(),
            row: 1,
            col_start: 4,
            col_end: 8,
            kind: LinkKind::Citation,
        }],
    };
    let mut state = UiState::new(true, START);
    let over = MouseEvent {
        kind: MouseEventKind::Moved,
        column: 5 + CONTENT_PADDING,
        row: 1,
    };
    update_citation_preview_for_pointer(&over, &page, 0, BODY_AREA_TOP_ROW, &mut state);
    assert_eq!(state.citation_preview(), Some("https://cite.example/"));
    let away = MouseEvent {
        kind: MouseEventKind::Moved,
        column: 20,
        row: 3,
    };
    update_citation_preview_for_pointer(&away, &page, 0, BODY_AREA_TOP_ROW, &mut state);
    assert_eq!(state.citation_preview(), None);
}

#[test]
fn a_single_select_cycles_to_the_next_option_and_wraps() {
    let options = vec!["a".to_string(), "b".to_string(), "c".to_string()];
    assert_eq!(puma_terminal::next_select_value(&options, Some("a")), "b");
    assert_eq!(puma_terminal::next_select_value(&options, Some("c")), "a");
    assert_eq!(puma_terminal::next_select_value(&options, None), "a");
    assert_eq!(puma_terminal::next_select_value(&options, Some("zz")), "a");
    assert_eq!(puma_terminal::next_select_value(&[], Some("a")), "");
}

#[test]
fn going_back_after_an_anchor_jump_returns_to_where_the_jump_left() {
    let anchors = vec![AnchorSpan {
        name: "later".to_string(),
        row: 30,
    }];
    let mut scroll = ScrollState::new();
    scroll.scroll_to(7, 80);
    let mut ui_state = UiState::new(true, START);
    puma_terminal::jump_to_anchor(
        Some("later"),
        Some(anchors.as_slice()),
        &mut scroll,
        80,
        &mut ui_state,
        START,
    );
    assert_eq!(scroll.offset(), 30);
    assert!(ui_state.has_anchor_return());
    assert!(puma_terminal::plan_back(&mut ui_state, false, START));
    assert!(puma_terminal::undo_anchor_jump(&mut ui_state, &mut scroll, 80));
    assert_eq!(scroll.offset(), 7);
    assert!(!ui_state.has_anchor_return());
    // With the jump undone and no previous page, back has nowhere to go.
    assert!(!puma_terminal::undo_anchor_jump(&mut ui_state, &mut scroll, 80));
    assert_eq!(scroll.offset(), 7);
    assert!(!puma_terminal::plan_back(&mut ui_state, false, START));
    assert_eq!(
        ui_state.transient_message(),
        Some(puma_terminal::NO_PAGE_TO_GO_BACK)
    );
}

#[test]
fn going_back_in_history_shows_the_previous_page_from_the_top() {
    let mut ui_state = UiState::new(true, START);
    ui_state.push_anchor_return(4);
    ui_state.enter_link_navigation(0);
    let mut scroll = ScrollState::new();
    scroll.scroll_to(12, 80);
    let mut view = puma_terminal::ViewState::Blank;
    puma_terminal::finish_history_back(&mut view, &mut scroll, &mut ui_state);
    assert_eq!(view, puma_terminal::ViewState::Page);
    assert_eq!(scroll.offset(), 0);
    assert!(!ui_state.has_anchor_return());
    assert!(!ui_state.is_in_link_navigation());
}

#[test]
fn a_finished_load_forgets_the_old_page_anchor_jumps() {
    let mut ui_state = UiState::new(true, START);
    ui_state.push_anchor_return(4);
    let mut scroll = ScrollState::new();
    let mut view = puma_terminal::ViewState::Blank;
    let mut selection = puma_terminal::TextSelection::new();
    puma_terminal::finish_load(Ok(()), &mut view, &mut scroll, &mut selection, &mut ui_state);
    assert!(!ui_state.has_anchor_return());
}

#[test]
fn an_osc52_copy_succeeds_only_when_written_and_flushed() {
    use_outcome(true, true, puma_terminal::ClipboardOutcome::CopiedOsc52);
    use_outcome(true, false, puma_terminal::ClipboardOutcome::Failed);
    use_outcome(false, false, puma_terminal::ClipboardOutcome::Failed);
}

fn use_outcome(written: bool, flushed: bool, expected: puma_terminal::ClipboardOutcome) {
    assert_eq!(puma_terminal::osc52_outcome(written, flushed), expected);
}

#[test]
fn after_the_native_clipboard_a_copy_stops_or_falls_back_to_osc52() {
    assert!(matches!(
        puma_terminal::plan_copy("hello", true),
        puma_terminal::CopyStep::Finished(puma_terminal::ClipboardOutcome::CopiedNative)
    ));
    match puma_terminal::plan_copy("hello", false) {
        puma_terminal::CopyStep::SendOsc52(sequence) => assert_eq!(sequence, "\x1b]52;c;aGVsbG8=\x07"),
        other => panic!("expected an OSC 52 write, got {other:?}"),
    }
    let oversized = "a".repeat(puma_terminal::MAX_OSC52_BYTES + 1);
    assert!(matches!(
        puma_terminal::plan_copy(&oversized, false),
        puma_terminal::CopyStep::Finished(puma_terminal::ClipboardOutcome::Failed)
    ));
}

#[test]
fn a_forced_osc52_copy_hands_back_the_sequence_and_records_nothing_yet() {
    let mut ui_state = UiState::new(true, START);
    let before = ui_state.transient_message().map(|m| m.to_string());
    let sequence = puma_terminal::copy_selected_text("hi", true, &mut ui_state, 7);
    assert_eq!(sequence.as_deref(), Some("\x1b]52;c;aGk=\x07"));
    assert_eq!(ui_state.transient_message().map(|m| m.to_string()), before);
    puma_terminal::record_copy_outcome(puma_terminal::osc52_outcome(true, true), "hi", &mut ui_state, 7);
    assert_eq!(ui_state.transient_message(), Some("copied 2 chars to clipboard"));
}

#[test]
fn a_blank_or_oversized_forced_copy_sends_nothing() {
    let mut ui_state = UiState::new(true, START);
    assert_eq!(puma_terminal::copy_selected_text("  \n", true, &mut ui_state, 7), None);
    let oversized = "a".repeat(puma_terminal::MAX_OSC52_BYTES + 1);
    assert_eq!(puma_terminal::copy_selected_text(&oversized, true, &mut ui_state, 7), None);
    assert_eq!(ui_state.transient_message(), None);
}

#[test]
fn cycling_a_policy_radio_succeeds_exactly_on_radio_rows() {
    let mut model = sample_model();
    let before = model.row_count();
    for index in 0..before + 1 {
        let cycled = model.cycle_radio(index, puma_terminal::CycleDirection::Next);
        assert_eq!(cycled.is_some(), index < 2);
    }
}

#[test]
fn each_settings_row_renders_on_its_closed_form_line() {
    let model = sample_model();
    let lines: Vec<Option<usize>> = (0..9).map(|focus| focused_row_line_index(&model, focus)).collect();
    assert_eq!(
        lines,
        vec![
            Some(3),
            Some(4),
            Some(7),
            Some(8),
            Some(11),
            Some(12),
            Some(13),
            Some(16),
            None
        ]
    );
}

#[test]
fn subsequences_match_at_increasing_positions() {
    assert!(puma_terminal::is_subsequence("st", "settings"));
    assert!(!puma_terminal::is_subsequence("ab", "back"));
    assert!(puma_terminal::is_subsequence("", "x"));
}

#[test]
fn resolving_is_an_exact_case_sensitive_find() {
    assert!(puma_terminal::resolve("Reload").is_none());
    assert!(puma_terminal::resolve("/open").is_none());
    for spec in puma_terminal::registry() {
        assert_eq!(puma_terminal::resolve(spec.name).map(|found| found.kind), Some(spec.kind));
    }
}

#[test]
fn error_messages_name_no_internals() {
    use_error(puma_terminal::TerminalError::RenderFailed);
    use_error(puma_terminal::TerminalError::Core(puma_terminal::CoreError::Storage));
    use_error(puma_terminal::TerminalError::Core(puma_terminal::CoreError::Network));
}

fn use_error(error: puma_terminal::TerminalError) {
    let message = error.user_message();
    assert!(!message.contains("::") && !message.contains("browser") && !message.contains("Error"));
}

#[test]
fn a_cookie_line_carries_no_control_character() {
    let line = puma_terminal::compose_cookie_line(
        "sid\u{1b}[31m",
        "https://a.test\u{7}",
        true,
        Some("policy"),
        false,
        "lax",
        true,
        false,
    );
    assert!(!line.chars().any(char::is_control));
    assert!(line.starts_with("  sid[31m  https://a.test  first-party"));
}
