use puma_terminal::{
    apply_checkbox_setting, apply_command_action, apply_settings_text_action,
    build_settings_model, is_slash_buffer, plan_command, plan_submission,
    plan_text_field_reconcile, record_search_engine_save, record_site_policy,
    search_engine_update, settings_change_allowed, CommandPlan, CookiePolicy, CookiePolicyPair,
    CoreError, EnvOverrides, InputAction, SearchEngine, SettingId, SettingsTextSave,
    TerminalSettings, TextFieldStep, UiState, COOKIES_USAGE, status_label, ViewState, key_step,
    LinkKind, LinkSpan, ScrollState, ViewportBounds, SettingsMutation, finish_load, TextSelection,
    CellPosition,
};

const START: u64 = 1_000_000;

fn settings(env_overridden: EnvOverrides) -> TerminalSettings {
    TerminalSettings {
        copy_on_select: true,
        force_osc52: false,
        search_enabled: true,
        unwrap_tracking: false,
        env_overridden,
    }
}

fn engine() -> SearchEngine {
    SearchEngine {
        base_url: "https://duckduckgo.com/".to_string(),
        query_parameter: "q".to_string(),
    }
}

fn panel(env_overridden: EnvOverrides) -> puma_terminal::SettingsModel {
    build_settings_model(
        &settings(env_overridden),
        CookiePolicyPair {
            first_party: CookiePolicy::Reject,
            third_party: CookiePolicy::Reject,
        },
        &engine(),
    )
}

#[test]
fn an_unknown_command_is_named_back_and_loads_nothing() {
    let mut state = UiState::new(true, START);
    assert_eq!(plan_command("/bogus now", true, &mut state, START), CommandPlan::Stay);
    assert_eq!(state.transient_message(), Some("unknown command: /bogus"));
}

#[test]
fn a_lone_slash_and_help_reopen_the_palette() {
    let mut state = UiState::new(true, START);
    assert_eq!(plan_command("/", true, &mut state, START), CommandPlan::Stay);
    assert!(state.is_in_command_mode());
    assert_eq!(state.command_buffer(), "/");
    let mut state = UiState::new(true, START);
    assert_eq!(plan_command("/help", true, &mut state, START), CommandPlan::Stay);
    assert!(state.is_palette_active());
}

#[test]
fn open_needs_an_address() {
    let mut state = UiState::new(true, START);
    assert_eq!(plan_command("/open", true, &mut state, START), CommandPlan::Stay);
    assert_eq!(state.transient_message(), Some("usage: /open <url>"));
    assert_eq!(
        plan_command("/open  example.com ", true, &mut state, START),
        CommandPlan::LoadAddress("example.com".to_string())
    );
}

#[test]
fn commands_without_arguments_are_handed_back() {
    let mut state = UiState::new(true, START);
    assert_eq!(plan_command("/reload", true, &mut state, START), CommandPlan::Reload);
    assert_eq!(plan_command("/back", true, &mut state, START), CommandPlan::Back);
    assert_eq!(plan_command("/quit", true, &mut state, START), CommandPlan::Quit);
    assert_eq!(plan_command("/config", true, &mut state, START), CommandPlan::OpenSettings);
    assert_eq!(state.transient_message(), None);
}

#[test]
fn an_address_goes_through_as_typed() {
    let mut state = UiState::new(true, START);
    assert!(!is_slash_buffer("example.com/a"));
    assert!(is_slash_buffer("   /reload"));
    assert_eq!(
        plan_submission("example.com/a", true, &mut state, START),
        CommandPlan::LoadAddress("example.com/a".to_string())
    );
    assert_eq!(plan_submission("  /reload", true, &mut state, START), CommandPlan::Reload);
}

#[test]
fn command_actions_edit_the_buffer_and_move_the_popups() {
    let mut state = UiState::new(true, START);
    apply_command_action(InputAction::EnterCommand('/'), &mut state);
    apply_command_action(InputAction::CommandAppend('o'), &mut state);
    assert_eq!(state.command_buffer(), "/o");
    apply_command_action(InputAction::PaletteComplete, &mut state);
    assert_eq!(state.command_buffer(), "/open ");
    apply_command_action(InputAction::CommandCancel, &mut state);
    assert!(!state.is_in_command_mode());
    apply_command_action(InputAction::ScrollLineDown, &mut state);
    assert!(!state.is_in_command_mode());
}

#[test]
fn escape_on_a_clean_text_field_closes_the_panel() {
    let mut state = UiState::new(true, START);
    state.enter_settings_mode(panel(EnvOverrides::default()));
    state.begin_settings_text_edit(SettingId::SearchBaseUrl, START);
    apply_settings_text_action(InputAction::SettingsTextInput('x'), &mut state, START);
    apply_settings_text_action(InputAction::SettingsTextCancel, &mut state, START);
    assert!(state.is_in_settings_mode());
    apply_settings_text_action(InputAction::SettingsTextCancel, &mut state, START);
    assert!(!state.is_in_settings_mode());
}

#[test]
fn a_checkbox_change_reaches_the_live_settings() {
    let mut live = settings(EnvOverrides::default());
    let mut state = UiState::new(true, START);
    apply_checkbox_setting(&mut live, SettingId::SearchEnabled, false, &mut state);
    assert!(!live.search_enabled);
    apply_checkbox_setting(&mut live, SettingId::ForceOsc52, true, &mut state);
    assert!(live.force_osc52);
    let before = live;
    apply_checkbox_setting(&mut live, SettingId::SearchBaseUrl, true, &mut state);
    assert_eq!(live, before);
}

#[test]
fn an_environment_fixed_row_refuses_changes() {
    let mut state = UiState::new(true, START);
    state.enter_settings_mode(panel(EnvOverrides {
        copy_on_select: true,
        ..EnvOverrides::default()
    }));
    assert!(settings_change_allowed(&mut state, START));
    state.settings_focus_next();
    state.settings_focus_next();
    assert!(!settings_change_allowed(&mut state, START));
    assert_eq!(
        state.transient_message(),
        Some("This setting is fixed by an environment variable")
    );
}

#[test]
fn the_draft_follows_the_settings_focus() {
    let mut state = UiState::new(true, START);
    assert_eq!(plan_text_field_reconcile(&mut state), TextFieldStep::Keep);
    state.enter_settings_mode(panel(EnvOverrides::default()));
    for _ in 0..6 {
        state.settings_focus_next();
    }
    assert_eq!(
        plan_text_field_reconcile(&mut state),
        TextFieldStep::Begin(SettingId::SearchBaseUrl)
    );
    state.begin_settings_text_edit(SettingId::SearchBaseUrl, START);
    assert_eq!(plan_text_field_reconcile(&mut state), TextFieldStep::Keep);
    state.settings_focus_next();
    assert_eq!(
        plan_text_field_reconcile(&mut state),
        TextFieldStep::CommitThenBegin(SettingId::SearchQueryParameter)
    );
    state.settings_focus_next();
    assert_eq!(plan_text_field_reconcile(&mut state), TextFieldStep::Commit);
}

#[test]
fn a_search_field_save_keeps_the_other_field() {
    let save = SettingsTextSave {
        id: SettingId::SearchQueryParameter,
        value: "query".to_string(),
    };
    assert_eq!(
        search_engine_update(&save, &engine()),
        Some(("https://duckduckgo.com/".to_string(), "query".to_string()))
    );
    let other = SettingsTextSave {
        id: SettingId::CopyOnSelect,
        value: "x".to_string(),
    };
    assert_eq!(search_engine_update(&other, &engine()), None);
}

#[test]
fn a_rejected_search_engine_keeps_the_draft_and_explains() {
    let mut state = UiState::new(true, START);
    state.enter_settings_mode(panel(EnvOverrides::default()));
    state.begin_settings_text_edit(SettingId::SearchBaseUrl, START);
    state.settings_text_input('!', START);
    record_search_engine_save(&mut state, None, START);
    assert_eq!(state.settings_text_error(), Some("invalid value, not saved"));
    assert!(state.settings_text_pending_save().is_some());
    let stored = SearchEngine {
        base_url: "https://example.org/".to_string(),
        query_parameter: "q".to_string(),
    };
    record_search_engine_save(&mut state, Some(&stored), START);
    assert_eq!(state.transient_message(), Some("Setting saved"));
    assert!(state.settings_text_pending_save().is_none());
}

#[test]
fn a_site_exception_is_confirmed_or_explained() {
    let mut state = UiState::new(true, START);
    record_site_policy("ex\u{1b}ample.com", CookiePolicy::Session, Ok(()), &mut state, START);
    assert_eq!(
        state.transient_message(),
        Some("example.com: session cookies allowed")
    );
    record_site_policy("example.com", CookiePolicy::Reject, Err(CoreError::Storage), &mut state, START);
    assert_eq!(state.transient_message(), Some("Could not access local data"));
    assert!(COOKIES_USAGE.starts_with("usage: /cookies"));
}

#[test]
fn the_status_label_prefers_the_title_then_the_address() {
    assert_eq!(status_label(&ViewState::Blank, Some("T"), None), "blank");
    assert_eq!(status_label(&ViewState::Error("x".to_string()), None, None), "error");
    assert_eq!(status_label(&ViewState::Page, Some("Title"), Some("https://a/")), "Title");
    assert_eq!(status_label(&ViewState::Page, None, Some("https://a/")), "https://a/");
    assert_eq!(status_label(&ViewState::Page, None, None), "page");
}

fn bounds() -> ViewportBounds {
    ViewportBounds {
        height: 4,
        max_offset: 20,
    }
}

#[test]
fn an_arming_key_shows_its_hint_and_the_second_press_quits() {
    let mut state = UiState::new(true, START);
    let mut scroll = ScrollState::new();
    let outcome = key_step(InputAction::ArmQuit, &mut state, &mut scroll, None, bounds(), START);
    assert!(!outcome.quit);
    assert!(state.quit_armed());
    assert_eq!(state.transient_message(), Some("Press Esc again to quit"));
    let outcome = key_step(InputAction::ScrollLineDown, &mut state, &mut scroll, None, bounds(), START);
    assert!(!outcome.quit);
    assert!(!state.quit_armed());
    assert_eq!(state.transient_message(), None);
    assert_eq!(scroll.offset(), 1);
    let outcome = key_step(InputAction::Quit, &mut state, &mut scroll, None, bounds(), START);
    assert!(outcome.quit);
}

#[test]
fn enter_hands_back_the_highlighted_suggestion() {
    let mut state = UiState::new(true, START);
    let mut scroll = ScrollState::new();
    key_step(InputAction::EnterCommand('g'), &mut state, &mut scroll, None, bounds(), START);
    state.set_address_suggestions(vec!["https://github.com/".to_string()]);
    key_step(InputAction::SuggestionSelectNext, &mut state, &mut scroll, None, bounds(), START);
    let outcome = key_step(InputAction::CommandSubmit, &mut state, &mut scroll, None, bounds(), START);
    assert_eq!(outcome.submit.as_deref(), Some("https://github.com/"));
    assert!(!state.is_in_command_mode());
}

#[test]
fn tab_focuses_a_link_and_enter_asks_to_load_it() {
    let links = vec![
        LinkSpan {
            url: "https://a.test/".to_string(),
            row: 0,
            col_start: 0,
            col_end: 4,
            kind: LinkKind::Link,
        },
        LinkSpan {
            url: "https://b.test/".to_string(),
            row: 9,
            col_start: 0,
            col_end: 4,
            kind: LinkKind::Citation,
        },
    ];
    let mut state = UiState::new(true, START);
    let mut scroll = ScrollState::new();
    key_step(InputAction::FocusNextLink, &mut state, &mut scroll, Some(links.as_slice()), bounds(), START);
    assert!(state.is_in_link_navigation());
    key_step(InputAction::FocusNextLink, &mut state, &mut scroll, Some(links.as_slice()), bounds(), START);
    assert_eq!(state.focused_link_index(), Some(1));
    assert_eq!(scroll.offset(), 6);
    assert_eq!(state.citation_preview(), Some("https://b.test/"));
    let outcome = key_step(InputAction::ActivateFocusedLink, &mut state, &mut scroll, Some(links.as_slice()), bounds(), START);
    assert_eq!(outcome.navigate_to.as_deref(), Some("https://b.test/"));
    key_step(InputAction::Disarm, &mut state, &mut scroll, Some(links.as_slice()), bounds(), START);
    assert!(!state.is_in_link_navigation());
    assert_eq!(state.citation_preview(), None);
}

#[test]
fn work_for_the_navigation_core_is_handed_back() {
    let mut state = UiState::new(true, START);
    let mut scroll = ScrollState::new();
    assert!(key_step(InputAction::RefreshArmed, &mut state, &mut scroll, None, bounds(), START).reload);
    assert!(key_step(InputAction::NavigateBack, &mut state, &mut scroll, None, bounds(), START).navigate_back);
    assert_eq!(
        key_step(InputAction::SettingsToggle, &mut state, &mut scroll, None, bounds(), START).settings_mutation,
        Some(SettingsMutation::Toggle)
    );
    assert_eq!(
        key_step(InputAction::HistoryDeleteSelected, &mut state, &mut scroll, None, bounds(), START).history_action,
        Some(InputAction::HistoryDeleteSelected)
    );
    assert!(key_step(InputAction::EnterCommand('a'), &mut state, &mut scroll, None, bounds(), START).refresh_suggestions);
}

#[test]
fn a_finished_load_resets_the_view_and_a_failed_one_reports_safely() {
    let mut view = ViewState::Blank;
    let mut scroll = ScrollState::new();
    scroll.scroll_to(5, 10);
    let mut selection = TextSelection::new();
    selection.begin(CellPosition { column: 1, row: 1 });
    let mut state = UiState::new(true, START);
    state.set_pending_fragment(Some("top".to_string()));
    finish_load(Ok(()), &mut view, &mut scroll, &mut selection, &mut state);
    assert_eq!(view, ViewState::Page);
    assert_eq!(scroll.offset(), 0);
    assert!(!selection.is_dragging());
    assert!(state.has_pending_fragment());
    finish_load(Err(CoreError::Network), &mut view, &mut scroll, &mut selection, &mut state);
    assert_eq!(view, ViewState::Error("Connection failed".to_string()));
    assert!(!state.has_pending_fragment());
}

#[test]
fn completing_a_command_that_takes_an_argument_adds_a_space() {
    let mut state = UiState::new(true, START);
    state.enter_command_mode('/');
    state.command_append_char('o');
    state.palette_complete();
    assert_eq!(state.command_buffer(), "/open ");
}

#[test]
fn a_toggled_checkbox_is_stored_under_its_key_as_true_or_false() {
    use_entry(SettingId::CopyOnSelect, true, Some(("ui.copy_on_select", "true")));
    use_entry(SettingId::SearchEnabled, false, Some(("search.enabled", "false")));
    use_entry(SettingId::CookiesFirstParty, true, None);
}

fn use_entry(id: SettingId, checked: bool, expected: Option<(&str, &str)>) {
    assert_eq!(puma_terminal::checkbox_config_entry(id, checked), expected);
}

#[test]
fn a_failed_settings_store_warns_and_a_successful_one_is_silent() {
    let mut state = UiState::new(true, START);
    puma_terminal::record_setting_persist(Ok(()), &mut state, START);
    assert_eq!(state.transient_message(), None);
    puma_terminal::record_setting_persist(Err(CoreError::Storage), &mut state, START);
    assert_eq!(
        state.transient_message(),
        Some("Setting changed for this session but could not be saved")
    );
}
