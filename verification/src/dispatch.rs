//! What a key action or a submitted command-bar buffer does: the chrome-state changes the
//! library makes itself, and the work it hands back to the caller that owns the navigation
//! core.

use vstd::prelude::*;
use vstd::string::StrSliceExecFns;

use crate::command::{
    command_parts, cookies_request_for, first_answering, history_request_for, parse_command_input,
    parse_cookies_request, parse_history_request, registry_kinds, resolve, CommandKind,
    CookiesRequest, HistoryRequest,
};
use crate::input::{
    action_refreshes_suggestions, apply_scroll, quit_armed_after, refresh_armed_after, scroll_after,
    settings_mutation_for, InputAction, SettingsMutation,
};
use crate::pointer::{
    advance_link_focus, first_visible_index, focus_offset, focus_url, focus_view, focused_link_span,
    retreat_link_focus, unique_urls, url_kind, LinkSpan, ViewportBounds,
};
use crate::fragment::anchor_jump_post;
use crate::selection::TextSelection;
use crate::viewport::{min_int, ScrollState};
use crate::cookie_view::{decision_lines, decision_view, summary_lines, summary_view, CookieFilter, CookieRecord};
use crate::error::{user_text, CoreError, TerminalError};
use crate::view_state::ViewState;
use crate::settings_view::{checkbox_config_key, policy_confirmation, CookiePolicy, SearchEngine, SettingId, TerminalSettings};
use crate::text::{chars_of, owned, push_str, strip_control, strip_control_spec, sub_string, trim_range, trim_spec};
use crate::text_editor::editor_capacity;
use crate::ui_state::{
    cancel_command_mode_post, clear_address_suggestions_post, command_append_char_post,
    command_delete_or_exit_post, command_move_left_post, command_move_right_post,
    cookie_select_next_post, cookie_select_prev_post, enter_command_mode_post,
    exit_cookies_mode_post, exit_history_mode_post, exit_settings_mode_post, focused_row,
    history_select_next_post, history_select_prev_post, palette_complete_post,
    palette_select_next_post, palette_select_prev_post, settings_focus_next_post,
    settings_focus_prev_post, settings_text_cancel_post, settings_text_delete_back_post,
    settings_text_input_post, settings_text_move_left_post, settings_text_move_right_post,
    suggestion_select_next_post, suggestion_select_prev_post, focused_text_id,
    mark_settings_text_saved_post, mark_settings_text_save_failed_post, InteractionMode,
    SettingsEscOutcome, SettingsTextSave, UiState, UiView, submit_text, wrap_next, wrap_prev,
};

verus! {

/// What `apply_command_action` does to the chrome state.
pub open spec fn command_action_post(action: InputAction, before: UiView, after: UiView) -> bool {
    match action {
        InputAction::EnterCommand(c) => enter_command_mode_post(before, after, c),
        InputAction::CommandAppend(c) => command_append_char_post(before, after, c),
        InputAction::CommandMoveCursorLeft => command_move_left_post(before, after),
        InputAction::CommandMoveCursorRight => command_move_right_post(before, after),
        InputAction::CommandDeleteBack => command_delete_or_exit_post(before, after),
        InputAction::CommandCancel => cancel_command_mode_post(before, after),
        InputAction::PaletteSelectPrev => palette_select_prev_post(before, after),
        InputAction::PaletteSelectNext => palette_select_next_post(before, after),
        InputAction::PaletteComplete => palette_complete_post(before, after),
        InputAction::SuggestionSelectPrev => suggestion_select_prev_post(before, after),
        InputAction::SuggestionSelectNext => suggestion_select_next_post(before, after),
        InputAction::SuggestionDismiss => clear_address_suggestions_post(before, after),
        InputAction::HistorySelectPrev => history_select_prev_post(before, after),
        InputAction::HistorySelectNext => history_select_next_post(before, after),
        InputAction::HistoryClose => exit_history_mode_post(before, after),
        InputAction::CookiesSelectPrev => cookie_select_prev_post(before, after),
        InputAction::CookiesSelectNext => cookie_select_next_post(before, after),
        InputAction::CookiesClose => exit_cookies_mode_post(before, after),
        InputAction::SettingsSelectPrev => settings_focus_prev_post(before, after),
        InputAction::SettingsSelectNext => settings_focus_next_post(before, after),
        InputAction::SettingsClose => exit_settings_mode_post(before, after),
        _ => after == before,
    }
}

/// Applies a command-bar, palette, suggestion, popup-list, or settings-focus action to the
/// chrome state. Settings mutations and text edits, scrolling, arming, submitting, and link
/// actions are handled elsewhere and leave the state unchanged here.
pub fn apply_command_action(action: InputAction, ui_state: &mut UiState)
    requires
        old(ui_state).wf(),
        action is CommandAppend ==> old(ui_state)@.command.len() < editor_capacity(),
    ensures
        final(ui_state).wf(),
        command_action_post(action, old(ui_state)@, final(ui_state)@),
{
    match action {
        InputAction::EnterCommand(ch) => ui_state.enter_command_mode(ch),
        InputAction::CommandAppend(ch) => ui_state.command_append_char(ch),
        InputAction::CommandMoveCursorLeft => ui_state.command_move_left(),
        InputAction::CommandMoveCursorRight => ui_state.command_move_right(),
        InputAction::CommandDeleteBack => ui_state.command_delete_or_exit(),
        InputAction::CommandCancel => ui_state.cancel_command_mode(),
        InputAction::PaletteSelectPrev => ui_state.palette_select_prev(),
        InputAction::PaletteSelectNext => ui_state.palette_select_next(),
        InputAction::PaletteComplete => ui_state.palette_complete(),
        InputAction::SuggestionSelectPrev => ui_state.suggestion_select_prev(),
        InputAction::SuggestionSelectNext => ui_state.suggestion_select_next(),
        InputAction::SuggestionDismiss => ui_state.clear_address_suggestions(),
        InputAction::HistorySelectPrev => ui_state.history_select_prev(),
        InputAction::HistorySelectNext => ui_state.history_select_next(),
        InputAction::HistoryClose => ui_state.exit_history_mode(),
        InputAction::CookiesSelectPrev => ui_state.cookie_select_prev(),
        InputAction::CookiesSelectNext => ui_state.cookie_select_next(),
        InputAction::CookiesClose => ui_state.exit_cookies_mode(),
        InputAction::SettingsSelectPrev => ui_state.settings_focus_prev(),
        InputAction::SettingsSelectNext => ui_state.settings_focus_next(),
        InputAction::SettingsClose => ui_state.exit_settings_mode(),
        _ => {},
    }
}

/// What `apply_settings_text_action` does to the chrome state.
pub open spec fn settings_text_action_post(action: InputAction, before: UiView, after: UiView, now: u64) -> bool {
    match action {
        InputAction::SettingsTextInput(c) => settings_text_input_post(before, after, c, now),
        InputAction::SettingsTextDeleteBack => settings_text_delete_back_post(before, after, now),
        InputAction::SettingsTextMoveCursorLeft => settings_text_move_left_post(before, after),
        InputAction::SettingsTextMoveCursorRight => settings_text_move_right_post(before, after),
        InputAction::SettingsTextCancel => match before.text_edit {
            Some(e) => if e.dirty {
                settings_text_cancel_post(before, after, SettingsEscOutcome::Reverted)
            } else {
                exit_settings_mode_post(before, after)
            },
            None => exit_settings_mode_post(before, after),
        },
        _ => after == before,
    }
}

/// Applies a settings text-field action to the active draft: characters and cursor keys
/// edit it, and `Esc` reverts an unsaved draft or, when there is nothing to revert, closes
/// the panel. Every other action leaves the state unchanged.
pub fn apply_settings_text_action(action: InputAction, ui_state: &mut UiState, now: u64)
    requires
        old(ui_state).wf(),
        action is SettingsTextInput ==> (old(ui_state)@.text_edit matches Some(e) ==> e.text.len() < editor_capacity()),
    ensures
        final(ui_state).wf(),
        settings_text_action_post(action, old(ui_state)@, final(ui_state)@, now),
{
    match action {
        InputAction::SettingsTextInput(character) => ui_state.settings_text_input(character, now),
        InputAction::SettingsTextDeleteBack => ui_state.settings_text_delete_back(now),
        InputAction::SettingsTextMoveCursorLeft => ui_state.settings_text_move_left(),
        InputAction::SettingsTextMoveCursorRight => ui_state.settings_text_move_right(),
        InputAction::SettingsTextCancel => {
            let outcome = ui_state.settings_text_cancel();
            match outcome {
                SettingsEscOutcome::ClosePanel => ui_state.exit_settings_mode(),
                SettingsEscOutcome::Reverted => {},
            }
        },
        _ => {},
    }
}

/// What the caller that owns the navigation core does next with a submitted command-bar
/// buffer.
#[derive(Debug, Clone, PartialEq, Eq)]
pub enum CommandPlan {
    /// Nothing further: a message or the reopened palette already answered.
    Stay,
    /// Load this typed address through the address path.
    LoadAddress(String),
    /// Search for this query.
    Search(String),
    Reload,
    Back,
    History(HistoryRequest),
    Cookies(CookiesRequest),
    Quit,
    OpenSettings,
}

/// Whether a submitted buffer is a slash command: its first non-blank character is `/`.
pub open spec fn is_slash_command(input: Seq<char>) -> bool {
    trim_spec(input).len() > 0 && trim_spec(input)[0] == '/'
}

/// The message an unknown command token is answered with.
pub open spec fn unknown_command_text(token: Seq<char>) -> Seq<char> {
    "unknown command: /"@ + token
}

/// What a slash command asks for and what it shows, for a buffer whose command token is
/// `token` and whose argument is `remainder`: `(plan, message)`, where a message is set as
/// the transient hint and `reopen` means the palette is reopened on a lone `/`.
pub open spec fn command_outcome(
    token: Seq<char>,
    remainder: Seq<char>,
    search_enabled: bool,
    plan: CommandPlan,
    message: Option<Seq<char>>,
    reopen: bool,
) -> bool {
    if token.len() == 0 {
        plan == CommandPlan::Stay && message is None && reopen
    } else {
        match first_answering(registry_kinds(), token) {
            None => plan == CommandPlan::Stay && message == Some(unknown_command_text(token)) && !reopen,
            Some(kind) => match kind {
                CommandKind::Open => if remainder.len() == 0 {
                    plan == CommandPlan::Stay && message == Some("usage: /open <url>"@) && !reopen
                } else {
                    plan matches CommandPlan::LoadAddress(a) && a@ == remainder && message is None && !reopen
                },
                CommandKind::Search => if !search_enabled {
                    plan == CommandPlan::Stay && message == Some("search is disabled"@) && !reopen
                } else if trim_spec(remainder).len() == 0 {
                    plan == CommandPlan::Stay && message == Some("usage: /search <query>"@) && !reopen
                } else {
                    plan matches CommandPlan::Search(q) && q@ == trim_spec(remainder) && message is None
                        && !reopen
                },
                CommandKind::Reload => plan == CommandPlan::Reload && message is None && !reopen,
                CommandKind::Back => plan == CommandPlan::Back && message is None && !reopen,
                CommandKind::History => plan matches CommandPlan::History(req) && history_request_for(
                    remainder,
                    req,
                ) && message is None && !reopen,
                CommandKind::Cookies => plan matches CommandPlan::Cookies(req) && cookies_request_for(
                    remainder,
                    req,
                ) && message is None && !reopen,
                CommandKind::Quit => plan == CommandPlan::Quit && message is None && !reopen,
                CommandKind::Help => plan == CommandPlan::Stay && message is None && reopen,
                CommandKind::Settings => plan == CommandPlan::OpenSettings && message is None && !reopen,
            },
        }
    }
}

/// The chrome state after a command answered with `message` or a reopened palette.
pub open spec fn answered(before: UiView, after: UiView, message: Option<Seq<char>>, reopen: bool, now: u64) -> bool {
    if reopen {
        enter_command_mode_post(before, after, '/')
    } else {
        match message {
            Some(m) => after == (UiView { transient: Some(m), transient_set_at: Some(now), ..before }),
            None => after == before,
        }
    }
}

/// Plans a slash command from a submitted buffer. A lone `/` and `/help` reopen the palette;
/// an unknown token and `/open` without an address answer with a message; every other
/// registered command is handed back to run. The `Search`, `History` and `Cookies` arms
/// answer for kinds that the six-command registry never resolves a token to.
pub fn plan_command(input: &str, search_enabled: bool, ui_state: &mut UiState, now: u64) -> (r: CommandPlan)
    requires
        old(ui_state).wf(),
    ensures
        final(ui_state).wf(),
        exists|message: Option<Seq<char>>, reopen: bool|
            command_outcome(command_parts(input@).0, command_parts(input@).1, search_enabled, r, message, reopen)
                && #[trigger] answered(old(ui_state)@, final(ui_state)@, message, reopen, now),
{
    let (token, remainder) = parse_command_input(input);
    let ghost before = ui_state@;
    if token.unicode_len() == 0 {
        ui_state.enter_command_mode('/');
        proof {
            assert(token@.len() == 0);
            assert(answered(before, ui_state@, None, true, now));
        }
        return CommandPlan::Stay;
    }
    proof {
        assert(token@.len() > 0);
    }
    let spec = match resolve(token) {
        Some(spec) => spec,
        None => {
            let mut message = owned("unknown command: /");
            push_str(&mut message, token);
            proof {
                reveal_strlit("unknown command: /");
            }
            let ghost m = message@;
            ui_state.set_transient_message(message, now);
            proof {
                assert(answered(before, ui_state@, Some(m), false, now));
            }
            return CommandPlan::Stay;
        },
    };
    match spec.kind {
        CommandKind::Open => {
            if remainder.unicode_len() == 0 {
                let message = owned("usage: /open <url>");
                let ghost m = message@;
                ui_state.set_transient_message(message, now);
                proof {
                    assert(remainder@.len() == 0);
                    assert(answered(before, ui_state@, Some(m), false, now));
                }
                return CommandPlan::Stay;
            }
            proof {
                assert(remainder@.len() > 0);
                assert(answered(before, ui_state@, None, false, now));
            }
            CommandPlan::LoadAddress(owned(remainder))
        },
        CommandKind::Search => {
            if !search_enabled {
                let message = owned("search is disabled");
                let ghost m = message@;
                ui_state.set_transient_message(message, now);
                proof {
                    assert(answered(before, ui_state@, Some(m), false, now));
                }
                return CommandPlan::Stay;
            }
            let query = trimmed(remainder);
            if query.as_str().unicode_len() == 0 {
                let message = owned("usage: /search <query>");
                let ghost m = message@;
                ui_state.set_transient_message(message, now);
                proof {
                    assert(answered(before, ui_state@, Some(m), false, now));
                }
                return CommandPlan::Stay;
            }
            proof {
                assert(answered(before, ui_state@, None, false, now));
            }
            CommandPlan::Search(query)
        },
        CommandKind::Reload => {
            proof {
                assert(answered(before, ui_state@, None, false, now));
            }
            CommandPlan::Reload
        },
        CommandKind::Back => {
            proof {
                assert(answered(before, ui_state@, None, false, now));
            }
            CommandPlan::Back
        },
        CommandKind::History => {
            proof {
                assert(answered(before, ui_state@, None, false, now));
            }
            CommandPlan::History(parse_history_request(remainder))
        },
        CommandKind::Cookies => {
            proof {
                assert(answered(before, ui_state@, None, false, now));
            }
            CommandPlan::Cookies(parse_cookies_request(remainder))
        },
        CommandKind::Quit => {
            proof {
                assert(answered(before, ui_state@, None, false, now));
            }
            CommandPlan::Quit
        },
        CommandKind::Help => {
            ui_state.enter_command_mode('/');
            proof {
                assert(answered(before, ui_state@, None, true, now));
            }
            CommandPlan::Stay
        },
        CommandKind::Settings => {
            proof {
                assert(answered(before, ui_state@, None, false, now));
            }
            CommandPlan::OpenSettings
        },
    }
}

/// `text` with surrounding whitespace removed.
fn trimmed(text: &str) -> (r: String)
    ensures
        r@ == trim_spec(text@),
{
    let v = chars_of(text);
    let (a, b) = trim_range(&v, 0, v.len());
    proof {
        assert(v@.subrange(0, v@.len() as int) =~= v@);
    }
    sub_string(&v, a, b)
}

/// Whether a submitted buffer is a slash command: its first non-blank character is `/`.
pub fn is_slash_buffer(input: &str) -> (r: bool)
    ensures
        r == is_slash_command(input@),
{
    let v = chars_of(input);
    let (a, b) = trim_range(&v, 0, v.len());
    proof {
        assert(v@.subrange(0, v@.len() as int) =~= v@);
    }
    a < b && v[a] == '/'
}

/// Routes a submitted command-bar buffer: a buffer whose first non-blank character is `/`
/// is planned as a slash command, and anything else is an address to load as typed.
pub fn plan_submission(input: &str, search_enabled: bool, ui_state: &mut UiState, now: u64) -> (r: CommandPlan)
    requires
        old(ui_state).wf(),
    ensures
        final(ui_state).wf(),
        !is_slash_command(input@) ==> (r matches CommandPlan::LoadAddress(a) && a@ == input@)
            && final(ui_state)@ == old(ui_state)@,
        is_slash_command(input@) ==> exists|message: Option<Seq<char>>, reopen: bool|
            command_outcome(command_parts(input@).0, command_parts(input@).1, search_enabled, r, message, reopen)
                && #[trigger] answered(old(ui_state)@, final(ui_state)@, message, reopen, now),
{
    if !is_slash_buffer(input) {
        return CommandPlan::LoadAddress(owned(input));
    }
    plan_command(input, search_enabled, ui_state, now)
}

/// Writes a checkbox's new value into the matching live setting. The search flag is
/// mirrored into the chrome state so the palette follows it at once; radio and text rows
/// change nothing here.
pub fn apply_checkbox_setting(settings: &mut TerminalSettings, id: SettingId, checked: bool, ui_state: &mut UiState)
    requires
        old(ui_state).wf(),
    ensures
        final(ui_state).wf(),
        *final(settings) == match id {
            SettingId::CopyOnSelect => TerminalSettings { copy_on_select: checked, ..*old(settings) },
            SettingId::ForceOsc52 => TerminalSettings { force_osc52: checked, ..*old(settings) },
            SettingId::SearchEnabled => TerminalSettings { search_enabled: checked, ..*old(settings) },
            SettingId::UnwrapTracking => TerminalSettings { unwrap_tracking: checked, ..*old(settings) },
            _ => *old(settings),
        },
        final(ui_state)@ == if id == SettingId::SearchEnabled {
            UiView { search_enabled: checked, ..old(ui_state)@ }
        } else {
            old(ui_state)@
        },
{
    match id {
        SettingId::CopyOnSelect => settings.copy_on_select = checked,
        SettingId::ForceOsc52 => settings.force_osc52 = checked,
        SettingId::SearchEnabled => {
            settings.search_enabled = checked;
            ui_state.set_search_enabled(checked);
        },
        SettingId::UnwrapTracking => settings.unwrap_tracking = checked,
        SettingId::CookiesFirstParty
        | SettingId::CookiesThirdParty
        | SettingId::SearchBaseUrl
        | SettingId::SearchQueryParameter => {},
    }
}

/// The warning shown when a setting changed for the running session could not be stored.
pub const SETTINGS_SAVE_FAILED: &'static str = "Setting changed for this session but could not be saved";

/// The config-store entry a toggled checkbox writes: its key and the new value encoded as
/// `true` or `false`. `None` for a radio or text row, which are stored another way.
pub fn checkbox_config_entry(id: SettingId, checked: bool) -> (r: Option<(&'static str, &'static str)>)
    ensures
        match r {
            Some((key, value)) => checkbox_key_spec(id) == Some(key@)
                && value@ == (if checked { "true"@ } else { "false"@ }),
            None => checkbox_key_spec(id) is None,
        },
{
    let key = match checkbox_config_key(id) {
        Some(key) => key,
        None => return None,
    };
    let value = if checked { "true" } else { "false" };
    proof {
        reveal_strlit("true");
        reveal_strlit("false");
    }
    Some((key, value))
}

/// The config-store key of each checkbox row.
pub open spec fn checkbox_key_spec(id: SettingId) -> Option<Seq<char>> {
    match id {
        SettingId::CopyOnSelect => Some("ui.copy_on_select"@),
        SettingId::ForceOsc52 => Some("ui.force_osc52"@),
        SettingId::SearchEnabled => Some("search.enabled"@),
        SettingId::UnwrapTracking => Some("network.unwrap_tracking"@),
        _ => None,
    }
}

/// Reports a failed store of a setting that already changed for the running session; a
/// successful store changes nothing.
pub fn record_setting_persist(result: Result<(), CoreError>, ui_state: &mut UiState, now: u64)
    requires
        old(ui_state).wf(),
    ensures
        final(ui_state).wf(),
        result is Ok ==> final(ui_state)@ == old(ui_state)@,
        result is Err ==> final(ui_state)@ == (UiView {
            transient: Some(SETTINGS_SAVE_FAILED@),
            transient_set_at: Some(now),
            ..old(ui_state)@
        }),
{
    if result.is_err() {
        ui_state.set_transient_message(owned(SETTINGS_SAVE_FAILED), now);
    }
}

/// The refusal shown when a change targets a setting an environment variable fixes.
pub const SETTINGS_ENV_LOCKED: &'static str = "This setting is fixed by an environment variable";

/// Whether the focused settings row may be changed. A row an environment variable fixes
/// refuses the change and explains why; with no focused row there is nothing to change.
pub fn settings_change_allowed(ui_state: &mut UiState, now: u64) -> (r: bool)
    requires
        old(ui_state).wf(),
    ensures
        final(ui_state).wf(),
        r == (focused_row(old(ui_state)@) matches Some(row) && !row.env_overridden),
        final(ui_state)@ == if focused_row(old(ui_state)@) matches Some(row) && row.env_overridden {
            UiView { transient: Some(SETTINGS_ENV_LOCKED@), transient_set_at: Some(now), ..old(ui_state)@ }
        } else {
            old(ui_state)@
        },
{
    let locked = match ui_state.focused_settings_row() {
        Some(row) => row.env_overridden,
        None => return false,
    };
    if locked {
        ui_state.set_transient_message(owned(SETTINGS_ENV_LOCKED), now);
        return false;
    }
    true
}


/// How the active text-field draft must follow the settings focus.
#[derive(Debug, Clone, Copy, PartialEq, Eq, Structural)]
pub enum TextFieldStep {
    /// The draft already belongs to the focused field, or there is neither.
    Keep,
    /// Seed a draft for the newly focused text field.
    Begin(SettingId),
    /// Commit the draft of the field focus left; no text field is focused now.
    Commit,
    /// Commit the draft of the field focus left, then seed one for the focused field.
    CommitThenBegin(SettingId),
}

/// The step that keeps the draft in step with the focus, from the focused text field and
/// the field being edited.
pub open spec fn text_field_step(focused: Option<SettingId>, editing: Option<SettingId>) -> TextFieldStep {
    match (focused, editing) {
        (Some(f), Some(e)) => if f == e {
            TextFieldStep::Keep
        } else {
            TextFieldStep::CommitThenBegin(f)
        },
        (Some(f), None) => TextFieldStep::Begin(f),
        (None, Some(_)) => TextFieldStep::Commit,
        (None, None) => TextFieldStep::Keep,
    }
}

/// Decides how the active text-field draft follows the settings focus. Outside the settings
/// panel any draft is dropped at once and nothing is left to do. Focusing a text field asks
/// for its draft to be seeded; leaving one, or moving straight to another, asks for the field
/// being left to be committed first. The caller runs the commit, which saves through the
/// navigation core.
pub fn plan_text_field_reconcile(ui_state: &mut UiState) -> (r: TextFieldStep)
    requires
        old(ui_state).wf(),
    ensures
        final(ui_state).wf(),
        old(ui_state)@.mode != InteractionMode::Settings ==> r == TextFieldStep::Keep
            && final(ui_state)@ == (UiView { text_edit: None, ..old(ui_state)@ }),
        old(ui_state)@.mode == InteractionMode::Settings ==> r == text_field_step(
            focused_text_id(old(ui_state)@),
            match old(ui_state)@.text_edit {
                Some(e) => Some(e.id),
                None => None,
            },
        ) && final(ui_state)@ == old(ui_state)@,
{
    if !ui_state.is_in_settings_mode() {
        ui_state.clear_settings_text_edit();
        return TextFieldStep::Keep;
    }
    let focused = ui_state.focused_settings_text_id();
    let editing = ui_state.settings_text_edit_id();
    match (focused, editing) {
        (Some(focused_id), Some(editing_id)) => if focused_id == editing_id {
            TextFieldStep::Keep
        } else {
            TextFieldStep::CommitThenBegin(focused_id)
        },
        (Some(focused_id), None) => TextFieldStep::Begin(focused_id),
        (None, Some(_)) => TextFieldStep::Commit,
        (None, None) => TextFieldStep::Keep,
    }
}

/// The search engine a text-field save asks the navigation core to validate: the edited
/// field takes the draft value and the other keeps its current value. `None` for a field
/// that is not a search setting.
pub fn search_engine_update(save: &SettingsTextSave, current: &SearchEngine) -> (r: Option<(String, String)>)
    ensures
        match save.id {
            SettingId::SearchBaseUrl => r matches Some((b, q)) && b@ == save.value@ && q@ == current.query_parameter@,
            SettingId::SearchQueryParameter => r matches Some((b, q)) && b@ == current.base_url@ && q@ == save.value@,
            _ => r is None,
        },
{
    match save.id {
        SettingId::SearchBaseUrl => Some((owned(save.value.as_str()), owned(current.query_parameter.as_str()))),
        SettingId::SearchQueryParameter => Some((owned(current.base_url.as_str()), owned(save.value.as_str()))),
        _ => None,
    }
}

/// The confirmation shown after a settings text field was saved.
pub const SETTINGS_TEXT_SAVED: &'static str = "Setting saved";

/// The inline note a rejected settings text value shows.
pub const SETTINGS_TEXT_INVALID: &'static str = "invalid value, not saved";

/// Records what the navigation core answered to a search-engine save: the engine it stored,
/// or `None` when it rejected the value. A stored engine replaces both shown search values,
/// marks the draft clean, and confirms the save; a rejection keeps the draft and shows the
/// inline note.
pub fn record_search_engine_save(ui_state: &mut UiState, saved: Option<&SearchEngine>, now: u64)
    requires
        old(ui_state).wf(),
        saved matches Some(engine) ==> engine.base_url@.len() <= editor_capacity()
            && engine.query_parameter@.len() <= editor_capacity(),
    ensures
        final(ui_state).wf(),
        match saved {
            Some(engine) => exists|mid: UiView|
                #[trigger] mark_settings_text_saved_post(old(ui_state)@, mid, engine.base_url@, engine.query_parameter@)
                && final(ui_state)@ == (UiView {
                    transient: Some(SETTINGS_TEXT_SAVED@),
                    transient_set_at: Some(now),
                    ..mid
                }),
            None => mark_settings_text_save_failed_post(old(ui_state)@, final(ui_state)@, SETTINGS_TEXT_INVALID@),
        },
{
    match saved {
        Some(engine) => {
            ui_state.mark_settings_text_saved(engine.base_url.as_str(), engine.query_parameter.as_str());
            let ghost mid = ui_state@;
            ui_state.set_transient_message(owned(SETTINGS_TEXT_SAVED), now);
            proof {
                assert(ui_state@ == (UiView {
                    transient: Some(SETTINGS_TEXT_SAVED@),
                    transient_set_at: Some(now),
                    ..mid
                }));
            }
        },
        None => {
            ui_state.mark_settings_text_save_failed(owned(SETTINGS_TEXT_INVALID));
        },
    }
}


/// The usage line shown when a `/cookies` argument is not a recognized subcommand.
pub const COOKIES_USAGE: &'static str = "usage: /cookies [accepted | rejected | clear | allow-session <site> | reject <site>]";

/// What the caller that owns the cookie jar and the site-policy store does for a `/cookies`
/// request after the chrome state has answered it.
#[derive(Debug, Clone, PartialEq, Eq)]
pub enum CookiesStep {
    /// Nothing further.
    Done,
    /// Empty the session jar.
    ClearJar,
    /// Store this per-site policy exception, then report it with [`record_site_policy`].
    SetSitePolicy(String, CookiePolicy),
}

/// The chrome state after a `/cookies` request over `records`, and the step handed back.
pub open spec fn cookies_answer(
    request: CookiesRequest,
    records: Seq<CookieRecord>,
    before: UiView,
    after: UiView,
    step: CookiesStep,
    now: u64,
) -> bool {
    let message = |m: Seq<char>| UiView { transient: Some(m), transient_set_at: Some(now), ..before };
    let popup = |lines: Seq<Seq<char>>| UiView {
        mode: InteractionMode::Cookies,
        cookies: lines,
        cookie_index: 0,
        ..before
    };
    match request {
        CookiesRequest::Summary => step == CookiesStep::Done && if records.len() == 0 {
            after == message("no cookies recorded this session"@)
        } else {
            after == popup(summary_view(records))
        },
        CookiesRequest::Accepted => step == CookiesStep::Done && after == popup(
            decision_view(records, CookieFilter::Accepted),
        ),
        CookiesRequest::Rejected => step == CookiesStep::Done && after == popup(
            decision_view(records, CookieFilter::Rejected),
        ),
        CookiesRequest::Clear => step == CookiesStep::ClearJar && after == message("cookies cleared"@),
        CookiesRequest::AllowSession(site) => step matches CookiesStep::SetSitePolicy(s, p) && s@ == site@
            && p == CookiePolicy::Session && after == before,
        CookiesRequest::Reject(site) => step matches CookiesStep::SetSitePolicy(s, p) && s@ == site@
            && p == CookiePolicy::Reject && after == before,
        CookiesRequest::Usage => step == CookiesStep::Done && after == message(COOKIES_USAGE@),
    }
}

/// Answers a `/cookies` request from the session's cookie records. The summary and the
/// accepted or rejected listings open the inspection popup (an empty session reports itself
/// instead of showing a zero-count box); `clear` confirms and asks the caller to empty the
/// jar; `allow-session` and `reject` ask the caller to store the site exception; anything
/// else shows the usage line.
pub fn plan_cookies(request: CookiesRequest, records: &[CookieRecord], ui_state: &mut UiState, now: u64) -> (r: CookiesStep)
    requires
        old(ui_state).wf(),
    ensures
        final(ui_state).wf(),
        cookies_answer(request, records@, old(ui_state)@, final(ui_state)@, r, now),
{
    match request {
        CookiesRequest::Summary => {
            if records.len() == 0 {
                ui_state.set_transient_message(owned("no cookies recorded this session"), now);
                return CookiesStep::Done;
            }
            let lines = summary_lines(records);
            ui_state.enter_cookies_mode(lines);
            CookiesStep::Done
        },
        CookiesRequest::Accepted => {
            ui_state.enter_cookies_mode(decision_lines(records, CookieFilter::Accepted));
            CookiesStep::Done
        },
        CookiesRequest::Rejected => {
            ui_state.enter_cookies_mode(decision_lines(records, CookieFilter::Rejected));
            CookiesStep::Done
        },
        CookiesRequest::Clear => {
            ui_state.set_transient_message(owned("cookies cleared"), now);
            CookiesStep::ClearJar
        },
        CookiesRequest::AllowSession(site) => CookiesStep::SetSitePolicy(site, CookiePolicy::Session),
        CookiesRequest::Reject(site) => CookiesStep::SetSitePolicy(site, CookiePolicy::Reject),
        CookiesRequest::Usage => {
            ui_state.set_transient_message(owned(COOKIES_USAGE), now);
            CookiesStep::Done
        },
    }
}

/// The message a stored per-site exception is confirmed with: the site, control-stripped,
/// and the policy's phrase; or the safe status line of the failure the store reported.
pub open spec fn site_policy_text(site: Seq<char>, policy: CookiePolicy, result: Result<(), CoreError>) -> Seq<char> {
    match result {
        Ok(()) => strip_control_spec(site) + ": "@ + policy_phrase(policy),
        Err(e) => user_text(TerminalError::Core(e)),
    }
}

/// The confirmation phrase for a per-site policy exception.
pub open spec fn policy_phrase(policy: CookiePolicy) -> Seq<char> {
    match policy {
        CookiePolicy::Session => "session cookies allowed"@,
        CookiePolicy::Reject => "cookies rejected"@,
        CookiePolicy::Allow => "cookies allowed"@,
        CookiePolicy::Ask => "cookies set to ask"@,
    }
}

/// Reports what storing a per-site cookie exception came to: a confirmation naming the
/// control-stripped site and the policy, or the safe status line of the failure.
pub fn record_site_policy(site: &str, policy: CookiePolicy, result: Result<(), CoreError>, ui_state: &mut UiState, now: u64)
    requires
        old(ui_state).wf(),
    ensures
        final(ui_state).wf(),
        final(ui_state)@ == (UiView {
            transient: Some(site_policy_text(site@, policy, result)),
            transient_set_at: Some(now),
            ..old(ui_state)@
        }),
{
    let message = match result {
        Ok(()) => {
            let mut text = strip_control(site);
            push_str(&mut text, ": ");
            push_str(&mut text, policy_confirmation(policy));
            text
        },
        Err(error) => TerminalError::Core(error).user_message(),
    };
    ui_state.set_transient_message(message, now);
}


/// How many address-bar suggestions are asked of the history index on each edit.
pub const ADDRESS_SUGGESTION_LIMIT: usize = 8;

/// The text to ask the history index for suggestions with, after a command-bar edit.
/// Suggestions appear only while an address is being typed: outside command mode, over a
/// slash buffer (which drives the palette instead), or over a blank buffer the list is
/// cleared and there is nothing to ask.
pub fn address_suggestion_query(ui_state: &mut UiState) -> (r: Option<String>)
    requires
        old(ui_state).wf(),
    ensures
        final(ui_state).wf(),
        ({
            let v = old(ui_state)@;
            let wanted = v.mode == InteractionMode::Command && !(v.command.len() > 0 && v.command[0] == '/')
                && trim_spec(v.command).len() > 0;
            &&& wanted ==> (r matches Some(q) && q@ == trim_spec(v.command)) && final(ui_state)@ == v
            &&& !wanted ==> r is None && clear_address_suggestions_post(v, final(ui_state)@)
        }),
{
    if !ui_state.is_in_command_mode() || ui_state.is_palette_active() {
        ui_state.clear_address_suggestions();
        return None;
    }
    let buffer = ui_state.command_buffer();
    let query = trimmed(buffer.as_str());
    if query.as_str().unicode_len() == 0 {
        ui_state.clear_address_suggestions();
        return None;
    }
    Some(query)
}

/// The status-line label for a view: the page's title, else its address, else `page`;
/// or `blank` and `error` for those views.
pub open spec fn status_label_text(view: ViewState, title: Option<Seq<char>>, url: Option<Seq<char>>) -> Seq<char> {
    match view {
        ViewState::Blank => "blank"@,
        ViewState::Error(_) => "error"@,
        ViewState::Page => match title {
            Some(t) => t,
            None => match url {
                Some(u) => u,
                None => "page"@,
            },
        },
    }
}

/// The status-line label for the current view, given the loaded page's title and address.
pub fn status_label(view: &ViewState, title: Option<&str>, url: Option<&str>) -> (r: String)
    ensures
        r@ == status_label_text(
            *view,
            match title {
                Some(t) => Some(t@),
                None => None,
            },
            match url {
                Some(u) => Some(u@),
                None => None,
            },
        ),
{
    match view {
        ViewState::Blank => owned("blank"),
        ViewState::Error(_) => owned("error"),
        ViewState::Page => match title {
            Some(t) => owned(t),
            None => match url {
                Some(u) => owned(u),
                None => owned("page"),
            },
        },
    }
}


/// The chrome state once a submitted buffer has been taken: back to reading, with the
/// command bar, palette, and suggestions cleared.
pub open spec fn submitted_view(v: UiView) -> UiView {
    UiView {
        mode: InteractionMode::Reading,
        command: Seq::empty(),
        cursor: 0,
        palette: Seq::empty(),
        palette_index: 0,
        suggestions: Seq::empty(),
        suggestion: None,
        ..v
    }
}

/// What Enter submits: the highlighted address suggestion when there is one, else the
/// command-bar buffer as the palette resolves it.
pub open spec fn submitted_text(v: UiView) -> Seq<char> {
    match v.suggestion {
        Some(i) => v.suggestions[i as int],
        None => submit_text(v),
    }
}

/// What a link-navigation action does: Tab and Shift+Tab move the focus and reveal it, Enter
/// asks to load the focused link, and `Disarm` leaves link navigation.
pub open spec fn link_action_post(
    action: InputAction,
    links: Option<Seq<LinkSpan>>,
    before: UiView,
    after: UiView,
    offset: int,
    offset_after: int,
    bounds: ViewportBounds,
    navigate_to: Option<Seq<char>>,
) -> bool {
    match action {
        InputAction::FocusNextLink | InputAction::FocusPreviousLink => navigate_to is None && match links {
            Some(l) => if unique_urls(l).len() > 0 {
                let count = unique_urls(l).len() as int;
                let index = match before.focused_link {
                    Some(i) => if action == InputAction::FocusNextLink {
                        wrap_next(i as int, count)
                    } else {
                        wrap_prev(i as int, count)
                    },
                    None => first_visible_index(l, offset as u16),
                };
                after == focus_view(before, l, index, before.focused_link is None)
                    && offset_after == focus_offset(l, index, offset, bounds)
            } else {
                after == before && offset_after == offset
            },
            None => after == before && offset_after == offset,
        },
        InputAction::ActivateFocusedLink => after == before && offset_after == offset && navigate_to == match (before.focused_link, links) {
            (Some(i), Some(l)) => match focus_url(l, i as int) {
                Some(u) => if url_kind(l, u) is Some {
                    Some(u)
                } else {
                    None
                },
                None => None,
            },
            _ => None,
        },
        InputAction::Disarm => navigate_to is None && offset_after == offset && if before.mode == InteractionMode::LinkNavigation {
            after == (UiView { mode: InteractionMode::Reading, focused_link: None, citation: None, ..before })
        } else {
            after == before
        },
        _ => after == before && offset_after == offset && navigate_to is None,
    }
}

/// The chrome state after the arm flags follow `action`: only arming keeps a flag set, and
/// arming shows the matching confirmation hint.
pub open spec fn armed_view(action: InputAction, v: UiView, now: u64) -> UiView {
    let flagged = UiView {
        quit_armed: action == InputAction::ArmQuit,
        refresh_armed: action == InputAction::ArmRefresh,
        ..v
    };
    if action == InputAction::ArmQuit {
        UiView { transient: Some("Press Esc again to quit"@), transient_set_at: Some(now), ..flagged }
    } else if action == InputAction::ArmRefresh {
        UiView { transient: Some("Press r again to refresh"@), transient_set_at: Some(now), ..flagged }
    } else {
        flagged
    }
}

/// The chain of chrome states a non-quit key action passes through: the transient hint is
/// cleared, the command bar takes the action (or the buffer is submitted), the settings text
/// field takes it, link navigation takes it, and the arm flags follow it.
pub open spec fn key_chain(
    action: InputAction,
    links: Option<Seq<LinkSpan>>,
    before: UiView,
    v2: UiView,
    v3: UiView,
    v4: UiView,
    after: UiView,
    scrolled: int,
    offset_after: int,
    bounds: ViewportBounds,
    submit: Option<Seq<char>>,
    navigate_to: Option<Seq<char>>,
    now: u64,
) -> bool {
    let v1 = UiView { transient: None, transient_set_at: None, ..before };
    &&& if action == InputAction::CommandSubmit {
        submit == Some(submitted_text(v1)) && v2 == submitted_view(v1)
    } else {
        submit is None && command_action_post(action, v1, v2)
    }
    &&& settings_text_action_post(action, v2, v3, now)
    &&& link_action_post(action, links, v3, v4, scrolled, offset_after, bounds, navigate_to)
    &&& after == armed_view(action, v4, now)
}

/// What a key action leaves for the caller that owns the navigation core.
#[derive(Debug, Clone, PartialEq, Eq)]
pub struct KeyOutcome {
    /// Leave the event loop.
    pub quit: bool,
    /// A command-bar buffer or suggestion to route with [`plan_submission`].
    pub submit: Option<String>,
    /// Re-fetch the current page.
    pub reload: bool,
    /// A history-list action that needs the history store.
    pub history_action: Option<InputAction>,
    /// A settings change to apply to the live settings and persist.
    pub settings_mutation: Option<SettingsMutation>,
    /// Ask the history index for fresh address suggestions.
    pub refresh_suggestions: bool,
    /// A link to load.
    pub navigate_to: Option<String>,
    /// Go back in history.
    pub navigate_back: bool,
}

/// The spans of an optional link list.
pub open spec fn opt_links(links: Option<&[LinkSpan]>) -> Option<Seq<LinkSpan>> {
    match links {
        Some(l) => Some(l@),
        None => None,
    }
}

/// The view of an optional owned string.
pub open spec fn opt_text(s: Option<String>) -> Option<Seq<char>> {
    match s {
        Some(t) => Some(t@),
        None => None,
    }
}

/// Applies one key action to the chrome state, the scroll position, and the link focus, and
/// says what is left for the caller to do. `Quit` changes nothing and asks to leave; every
/// other action clears the transient hint, scrolls, edits the command bar or submits it,
/// edits the settings text field, moves the link focus, and updates the arm flags, in that
/// order.
pub fn key_step(
    action: InputAction,
    ui_state: &mut UiState,
    scroll: &mut ScrollState,
    links: Option<&[LinkSpan]>,
    bounds: ViewportBounds,
    now: u64,
) -> (r: KeyOutcome)
    requires
        old(ui_state).wf(),
        action is CommandAppend ==> old(ui_state)@.command.len() < editor_capacity(),
        action is SettingsTextInput ==> (old(ui_state)@.text_edit matches Some(e) ==> e.text.len() < editor_capacity()),
        action == InputAction::FocusNextLink ==> old(ui_state)@.focused_link != Some(usize::MAX),
    ensures
        final(ui_state).wf(),
        r.quit == (action == InputAction::Quit),
        action == InputAction::Quit ==> final(ui_state)@ == old(ui_state)@ && *final(scroll) == *old(scroll)
            && r.submit is None && r.navigate_to is None,
        r.reload == (action == InputAction::RefreshArmed),
        r.history_action == (if action == InputAction::HistoryDeleteSelected || action == InputAction::HistoryActivateSelected {
            Some(action)
        } else {
            None
        }),
        r.settings_mutation == match action {
            InputAction::SettingsToggle => Some(SettingsMutation::Toggle),
            InputAction::SettingsCyclePrev => Some(SettingsMutation::CyclePrev),
            InputAction::SettingsCycleNext => Some(SettingsMutation::CycleNext),
            _ => None,
        },
        r.refresh_suggestions == (action is EnterCommand || action is CommandAppend || action == InputAction::CommandDeleteBack),
        r.navigate_back == (action == InputAction::NavigateBack),
        action != InputAction::Quit ==> exists|v2: UiView, v3: UiView, v4: UiView|
            #[trigger] key_chain(
                action,
                opt_links(links),
                old(ui_state)@,
                v2,
                v3,
                v4,
                final(ui_state)@,
                scroll_after(action, old(scroll).spec_offset(), bounds.height as int, bounds.max_offset as int),
                final(scroll).spec_offset(),
                bounds,
                opt_text(r.submit),
                opt_text(r.navigate_to),
                now,
            ),
{
    if action == InputAction::Quit {
        return KeyOutcome {
            quit: true,
            submit: None,
            reload: false,
            history_action: None,
            settings_mutation: None,
            refresh_suggestions: false,
            navigate_to: None,
            navigate_back: false,
        };
    }
    ui_state.clear_transient();
    let ghost v1 = ui_state@;
    apply_scroll(action, scroll, bounds.height, bounds.max_offset);
    let ghost scrolled = scroll.spec_offset();
    let submit = if action == InputAction::CommandSubmit {
        Some(
            match ui_state.take_selected_suggestion() {
                Some(url) => url,
                None => ui_state.take_submit_buffer(),
            },
        )
    } else {
        apply_command_action(action, ui_state);
        None
    };
    let ghost v2 = ui_state@;
    apply_settings_text_action(action, ui_state, now);
    let ghost v3 = ui_state@;
    let navigate_to = link_action(action, ui_state, links, scroll, bounds);
    let ghost v4 = ui_state@;
    ui_state.set_arm_flags(quit_armed_after(action), refresh_armed_after(action));
    if action == InputAction::ArmQuit {
        ui_state.set_transient_hint("Press Esc again to quit", now);
    } else if action == InputAction::ArmRefresh {
        ui_state.set_transient_hint("Press r again to refresh", now);
    }
    let history_action = if action == InputAction::HistoryDeleteSelected || action
        == InputAction::HistoryActivateSelected {
        Some(action)
    } else {
        None
    };
    let r = KeyOutcome {
        quit: false,
        submit,
        reload: action == InputAction::RefreshArmed,
        history_action,
        settings_mutation: settings_mutation_for(action),
        refresh_suggestions: action_refreshes_suggestions(action),
        navigate_to,
        navigate_back: action == InputAction::NavigateBack,
    };
    proof {
        assert(key_chain(
            action,
            opt_links(links),
            old(ui_state)@,
            v2,
            v3,
            v4,
            ui_state@,
            scrolled,
            scroll.spec_offset(),
            bounds,
            opt_text(r.submit),
            opt_text(r.navigate_to),
            now,
        ));
    }
    r
}

/// Applies a link-navigation action: Tab and Shift+Tab move and reveal the focus, Enter
/// returns the focused link's target, and `Disarm` leaves link navigation.
fn link_action(
    action: InputAction,
    ui_state: &mut UiState,
    links: Option<&[LinkSpan]>,
    scroll: &mut ScrollState,
    bounds: ViewportBounds,
) -> (r: Option<String>)
    requires
        old(ui_state).wf(),
        action == InputAction::FocusNextLink ==> old(ui_state)@.focused_link != Some(usize::MAX),
    ensures
        final(ui_state).wf(),
        link_action_post(
            action,
            opt_links(links),
            old(ui_state)@,
            final(ui_state)@,
            old(scroll).spec_offset(),
            final(scroll).spec_offset(),
            bounds,
            opt_text(r),
        ),
{
    match action {
        InputAction::FocusNextLink => {
            advance_link_focus(ui_state, links, scroll, bounds);
            None
        },
        InputAction::FocusPreviousLink => {
            retreat_link_focus(ui_state, links, scroll, bounds);
            None
        },
        InputAction::ActivateFocusedLink => {
            match (ui_state.focused_link_index(), links) {
                (Some(index), Some(list)) => match focused_link_span(list, index) {
                    Some((url, _row, _kind)) => Some(url),
                    None => None,
                },
                _ => None,
            }
        },
        InputAction::Disarm => {
            if ui_state.is_in_link_navigation() {
                ui_state.exit_link_navigation();
            }
            None
        },
        _ => None,
    }
}


/// Settles the chrome after a page load finished: the selection, scroll position, and
/// outstanding anchor jumps of the old page are dropped, and the view shows the new page, or the failure's safe status line
/// (a fragment waiting for the failed page is dropped with it). The caller drops its cached
/// layout of the old page.
pub fn finish_load(
    result: Result<(), CoreError>,
    view_state: &mut ViewState,
    scroll: &mut ScrollState,
    selection: &mut TextSelection,
    ui_state: &mut UiState,
)
    requires
        old(ui_state).wf(),
    ensures
        final(ui_state).wf(),
        final(selection).wf(),
        final(selection).spec_anchor() is None && !final(selection).spec_moved(),
        final(scroll).spec_offset() == 0,
        match result {
            Ok(()) => *final(view_state) == ViewState::Page
                && final(ui_state)@ == (UiView { anchor_returns: Seq::empty(), ..old(ui_state)@ }),
            Err(e) => (*final(view_state) matches ViewState::Error(m) && m@ == user_text(TerminalError::Core(e)))
                && final(ui_state)@ == (UiView {
                anchor_returns: Seq::empty(),
                pending_fragment: None,
                ..old(ui_state)@
            }),
        },
{
    selection.clear();
    ui_state.clear_anchor_returns();
    *scroll = ScrollState::new();
    match result {
        Ok(()) => {
            *view_state = ViewState::Page;
        },
        Err(error) => {
            *view_state = ViewState::Error(TerminalError::Core(error).user_message());
            ui_state.set_pending_fragment(None);
        },
    }
}

/// What undoing an in-page anchor jump does: with a jump outstanding, the viewport returns
/// to the offset that jump left (clamped to the page) and the jump is forgotten; with none,
/// nothing changes.
pub open spec fn undo_anchor_jump_post(
    before: UiView,
    after: UiView,
    offset_before: int,
    offset_after: int,
    max_offset: int,
    undone: bool,
) -> bool {
    if before.anchor_returns.len() > 0 {
        &&& undone
        &&& offset_after == min_int(before.anchor_returns.last() as int, max_offset)
        &&& after == (UiView { anchor_returns: before.anchor_returns.drop_last(), ..before })
    } else {
        &&& !undone
        &&& offset_after == offset_before
        &&& after == before
    }
}

/// The first half of going back: undoes the most recent in-page anchor jump, so a table of
/// contents is not a one-way trip. Returns `false`, changing nothing, when no jump is
/// outstanding; the caller then goes back in history and, when that succeeds, settles the
/// chrome with [`finish_history_back`].
pub fn undo_anchor_jump(ui_state: &mut UiState, scroll: &mut ScrollState, max_offset: u16) -> (r: bool)
    requires
        old(ui_state).wf(),
    ensures
        final(ui_state).wf(),
        undo_anchor_jump_post(
            old(ui_state)@,
            final(ui_state)@,
            old(scroll).spec_offset(),
            final(scroll).spec_offset(),
            max_offset as int,
            r,
        ),
{
    match ui_state.pop_anchor_return() {
        Some(offset) => {
            scroll.scroll_to(offset, max_offset);
            true
        },
        None => false,
    }
}

/// Settles the chrome after going back to the previous page: the page shows from its top,
/// with no anchor jump outstanding and no link focused. The caller drops its cached layout.
pub fn finish_history_back(view_state: &mut ViewState, scroll: &mut ScrollState, ui_state: &mut UiState)
    requires
        old(ui_state).wf(),
    ensures
        final(ui_state).wf(),
        *final(view_state) == ViewState::Page,
        final(scroll).spec_offset() == 0,
        final(ui_state)@ == (UiView {
            mode: InteractionMode::Reading,
            focused_link: None,
            citation: None,
            anchor_returns: Seq::empty(),
            ..old(ui_state)@
        }),
{
    *view_state = ViewState::Page;
    *scroll = ScrollState::new();
    ui_state.clear_anchor_returns();
    ui_state.exit_link_navigation();
}

/// The message `/back` answers with when there is nowhere to go.
pub const NO_PAGE_TO_GO_BACK: &'static str = "no page to go back to";

/// Whether `/back` has somewhere to go: an outstanding anchor jump or a previous page
/// (`can_go_back`). With neither, it says so and returns `false`.
pub fn plan_back(ui_state: &mut UiState, can_go_back: bool, now: u64) -> (r: bool)
    requires
        old(ui_state).wf(),
    ensures
        final(ui_state).wf(),
        r == (can_go_back || old(ui_state)@.anchor_returns.len() > 0),
        r ==> final(ui_state)@ == old(ui_state)@,
        !r ==> final(ui_state)@ == (UiView {
            transient: Some(NO_PAGE_TO_GO_BACK@),
            transient_set_at: Some(now),
            ..old(ui_state)@
        }),
{
    if !can_go_back && !ui_state.has_anchor_return() {
        ui_state.set_transient_message(owned(NO_PAGE_TO_GO_BACK), now);
        return false;
    }
    true
}

/// Going back right after an in-page anchor jump undoes it: the viewport returns to the
/// offset it had before the jump, and the chrome state is what it was before the jump.
pub proof fn lemma_back_undoes_anchor_jump(
    before_jump: UiView,
    after_jump: UiView,
    after_back: UiView,
    offset_before_jump: int,
    offset_after_jump: int,
    offset_after_back: int,
    max_offset: int,
    undone: bool,
)
    requires
        0 <= offset_before_jump <= max_offset,
        offset_before_jump <= u16::MAX,
        anchor_jump_post(before_jump, offset_before_jump, after_jump),
        undo_anchor_jump_post(after_jump, after_back, offset_after_jump, offset_after_back, max_offset, undone),
    ensures
        undone,
        offset_after_back == offset_before_jump,
        after_back == before_jump,
{
    let pushed = before_jump.anchor_returns.push(offset_before_jump as u16);
    assert(pushed.drop_last() =~= before_jump.anchor_returns);
    assert(pushed.last() == offset_before_jump as u16);
}

} // verus!
