//! Terminal chrome logic for the Puma text browser: scrolling, the slash-command palette,
//! popup composition, status and title bars, and the settings panel model.

mod text;

pub use text::{chars_of, decimal_string, fit_to_width, fit_to_width_unpadded, is_control_char, is_whitespace_char, strip_control};
mod viewport;

pub use viewport::{max_scroll_offset, scroll_percentage, ScrollState};
mod command;

pub use command::{filter, parse_command_input, parse_cookies_request, parse_history_request, CookiesRequest, HistoryRequest, is_subsequence, rank_spec, registry, resolve, ArgSpec, CommandKind, CommandMatch, CommandSpec, MatchRank};
mod status_line;

pub use status_line::{blocked_scripts_segment, compose_status_line, quit_segment};
mod history_view;

pub use history_view::{
    compose_list_menu, format_history_label, relative_time, unix_seconds_from,
    visible_window, HistoryEntry, ListMenu, HISTORY_QUERY_LIMIT, LIST_MENU_MAX_ROWS,
};
mod cookie_view;

pub use cookie_view::{
    compose_cookie_line, decision_lines, flag_list, format_cookie_line, reason_label,
    same_site_label, summary_lines, CookieFilter, CookieRecord, RejectionReason, SameSite,
};
mod palette_menu;

pub use palette_menu::{
    compose_arg_hint_row, compose_palette_menu, format_menu_row, name_column_width, PaletteMenu,
    MENU_MAX_ROWS,
};
mod title_bar;

pub use title_bar::{
    build_right_indicators, clamp_to_cols, compose_title_bar, compose_title_bar_checked,
    format_page_size, truncate_with_ellipsis,
};
mod command_bar;
mod hints_bar;

pub use command_bar::{
    command_cursor_col, compose_command_bar_command, compose_command_bar_loading,
    compose_command_bar_reading,
};
pub use hints_bar::compose_hints_bar;
mod clipboard;

pub use clipboard::{
    build_osc52_sequence, clipboard_write_succeeded, copied_message, copied_message_for_count, copy_to_clipboard, copy_to_native_clipboard,
    text_fits_osc52_limit, ClipboardOutcome, CopyStep, MAX_OSC52_BYTES, plan_copy, osc52_outcome,
};
mod input;

pub use input::{
    action_refreshes_suggestions, apply_scroll, arm_or_quit, arm_or_refresh, is_quit_combination,
    map_command_mode_key, map_cookies_key, map_history_key, map_key_event, map_link_navigation_key,
    map_palette_key, map_reading_mode_key, map_settings_key, map_suggestion_key,
    quit_armed_after, refresh_armed_after, settings_mutation_for, InputAction, KeyCode, KeyEvent,
    SettingsMutation,
};
mod selection;

pub use selection::{
    cell_is_selected, clamped_document_coordinate, document_coordinate, reading_order,
    CellPosition, TextSelection, BODY_AREA_TOP_ROW, CONTENT_PADDING,
};
mod settings_view;

pub use settings_view::{
    build_settings_model, checkbox_config_key, checkbox_row, compose_radio_options,
    compose_settings_row_text, confirmation_choice_line, cookie_scope, focused_row_line_index,
    policy_confirmation, radio_row, settings_line_texts, settings_row_line_text,
    settings_text_cursor_position, SETTINGS_CONTROLS_HINT, SETTINGS_HEADING,
    text_field_id, text_row, CookiePolicy, CookiePolicyPair, CookieScope, CycleDirection,
    EnvOverrides, RadioOption, SearchEngine, SettingId, SettingsControl, SettingsModel,
    SettingsRow, SettingsSection, TerminalSettings, TrackingUnwrap,
};
mod text_editor;

pub use text_editor::TextEditor;
mod ui_state;

pub use ui_state::{
    reading_hint_text, should_save, InteractionMode, SettingsEscOutcome, SettingsTextSave,
    UiState, HINT_ROTATION_INTERVAL_MS, READING_HINT_COUNT, SETTINGS_AUTOSAVE_DEBOUNCE_MS,
    TRANSIENT_HINT_DURATION_MS,
};
mod fragment;

pub use fragment::{
    apply_pending_fragment, decode_fragment, eq_ignore_ascii_case, jump_to_anchor,
    resolve_anchor_row, resolve_decoded_anchor_row, sanitize_fragment_for_display, AnchorSpan,
};
mod error;
mod view_state;

pub use error::{CoreError, TerminalError};
pub use view_state::{InitialView, ViewState};
mod pointer;

pub use pointer::{
    activate_link_under_pointer, advance_link_focus, copy_selected_text,
    first_visible_link_index, handle_mouse_event, record_copy_outcome, retreat_link_focus,
    span_contains, unique_link_urls, update_citation_preview_for_pointer, LinkKind, LinkSpan,
    MouseButton, MouseEvent, MouseEventKind, PageLayout, ViewportBounds, focused_link_url,
    link_highlight, LinkHighlight,
};
mod dispatch;

pub use dispatch::{
    finish_load, finish_history_back, plan_back, undo_anchor_jump, NO_PAGE_TO_GO_BACK,
    checkbox_config_entry, record_setting_persist, SETTINGS_SAVE_FAILED,
    key_step, KeyOutcome,
    address_suggestion_query, status_label, ADDRESS_SUGGESTION_LIMIT,
    apply_checkbox_setting, apply_command_action, apply_settings_text_action, is_slash_buffer,
    plan_command, plan_submission, plan_text_field_reconcile, record_search_engine_save,
    plan_cookies, record_site_policy, search_engine_update, settings_change_allowed, CommandPlan,
    CookiesStep, TextFieldStep, COOKIES_USAGE, SETTINGS_ENV_LOCKED,
    SETTINGS_TEXT_INVALID, SETTINGS_TEXT_SAVED,
};
mod form;

pub use form::{
    confirmation_submits, field_activation, field_edit_overlay, field_span_for,
    multi_select_option_line, multi_select_overlay, next_select_value, submit_confirmation_lines,
    toggled_choice, FieldActivation, FieldControl, FieldEditOverlay, FieldSpan, FieldSpanKind,
    MultiSelectOverlay, SelectOption, SubmitChoice, FIELD_EDIT_MASK_CHARACTER, field_step, FieldEdit,
    FieldEffect,
};
mod popups;

pub use popups::{
    bottom_popup_rows, citation_popup, cookies_popup, history_popup, palette_popup,
    suggestions_popup,
};
mod chrome;

pub use chrome::{
    body_message, command_bar_row, frame_geometry, padded_body_columns, separator_line,
    settings_row_emphasis, CommandBarRow, FrameGeometry, RowEmphasis, BLANK_PLACEHOLDER,
    CHROME_ROWS,
};
mod history_actions;

pub use history_actions::{
    history_entry_to_delete, record_history_clear, record_history_delete, show_history_result,
    take_selected_history_url, HistoryQuery, HISTORY_CONTROLS_HINT, NO_MATCHING_HISTORY,
};
mod navigation;

pub use navigation::{
    apply_navigation_target, begin_link_load, invalid_address_view, needs_relayout, plan_reload,
    unopenable_link_view, NavigationTarget,
};
