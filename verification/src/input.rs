//! Maps key events to viewport input actions and the quit-arm and refresh-arm transitions.

use vstd::prelude::*;

use crate::text::{is_control_char, spec_is_control};
use crate::viewport::ScrollState;

verus! {

/// The key a key event carries, as far as the browser distinguishes keys.
#[derive(Debug, Clone, Copy, PartialEq, Eq, Structural)]
pub enum KeyCode {
    Backspace,
    Enter,
    Left,
    Right,
    Up,
    Down,
    PageUp,
    PageDown,
    Tab,
    BackTab,
    Esc,
    Delete,
    Char(char),
    Other,
}

/// One key press: the key and whether the Control modifier was held.
#[derive(Debug, Clone, Copy, PartialEq, Eq, Structural)]
pub struct KeyEvent {
    pub code: KeyCode,
    pub control: bool,
}

/// A single interpreted input command, decoupled from the raw key event.
#[derive(Debug, Clone, Copy, PartialEq, Eq, Structural)]
pub enum InputAction {
    ScrollLineDown,
    ScrollLineUp,
    ScrollPageDown,
    ScrollPageUp,
    ScrollToTop,
    ScrollToBottom,
    ArmQuit,
    Quit,
    ArmRefresh,
    RefreshArmed,
    Disarm,
    EnterCommand(char),
    CommandAppend(char),
    CommandMoveCursorLeft,
    CommandMoveCursorRight,
    CommandDeleteBack,
    CommandCancel,
    CommandSubmit,
    PaletteSelectPrev,
    PaletteSelectNext,
    PaletteComplete,
    SuggestionSelectPrev,
    SuggestionSelectNext,
    SuggestionDismiss,
    HistorySelectPrev,
    HistorySelectNext,
    HistoryActivateSelected,
    HistoryDeleteSelected,
    HistoryClose,
    CookiesSelectPrev,
    CookiesSelectNext,
    CookiesClose,
    SettingsSelectPrev,
    SettingsSelectNext,
    SettingsToggle,
    SettingsCyclePrev,
    SettingsCycleNext,
    SettingsClose,
    SettingsTextInput(char),
    SettingsTextDeleteBack,
    SettingsTextMoveCursorLeft,
    SettingsTextMoveCursorRight,
    SettingsTextCancel,
    FocusNextLink,
    FocusPreviousLink,
    ActivateFocusedLink,
    FocusNextInteractive,
    FocusPreviousInteractive,
    ActivateFocused,
    NavigateBack,
    FieldTextInput(char),
    FieldTextDeleteBack,
    FieldTextMoveCursorLeft,
    FieldTextMoveCursorRight,
    FieldTextCancel,
    FieldTextCommit,
    FieldMultiSelectMoveUp,
    FieldMultiSelectMoveDown,
    FieldMultiSelectToggle,
    FieldMultiSelectCommit,
    FieldMultiSelectCancel,
    SubmitConfirmToggle,
    SubmitConfirmActivate,
    SubmitConfirmCancel,
}

/// Whether `event` is `Ctrl+C`.
pub open spec fn is_quit_key(event: KeyEvent) -> bool {
    event.code == KeyCode::Char('c') && event.control
}

/// The action a key means while reading: `Esc` and `r` arm their two-press confirmations
/// (or confirm them when already armed), navigation keys scroll, Tab moves link focus, and
/// any other printable character opens the command bar seeded with it.
pub open spec fn reading_action(code: KeyCode, quit_armed: bool, refresh_armed: bool) -> InputAction {
    match code {
        KeyCode::Esc => if quit_armed {
            InputAction::Quit
        } else {
            InputAction::ArmQuit
        },
        KeyCode::Char('r') => if refresh_armed {
            InputAction::RefreshArmed
        } else {
            InputAction::ArmRefresh
        },
        KeyCode::Down | KeyCode::Char('j') => InputAction::ScrollLineDown,
        KeyCode::Up | KeyCode::Char('k') => InputAction::ScrollLineUp,
        KeyCode::PageDown => InputAction::ScrollPageDown,
        KeyCode::PageUp => InputAction::ScrollPageUp,
        KeyCode::Char('g') => InputAction::ScrollToTop,
        KeyCode::Char('G') => InputAction::ScrollToBottom,
        KeyCode::Tab => InputAction::FocusNextLink,
        KeyCode::BackTab => InputAction::FocusPreviousLink,
        KeyCode::Backspace => InputAction::NavigateBack,
        KeyCode::Char(ch) => if !spec_is_control(ch) {
            InputAction::EnterCommand(ch)
        } else {
            InputAction::Disarm
        },
        _ => InputAction::Disarm,
    }
}

/// The action a key means while a link is focused.
pub open spec fn link_navigation_action(code: KeyCode) -> InputAction {
    match code {
        KeyCode::Tab => InputAction::FocusNextLink,
        KeyCode::BackTab => InputAction::FocusPreviousLink,
        KeyCode::Enter => InputAction::ActivateFocusedLink,
        KeyCode::Esc => InputAction::Disarm,
        KeyCode::Backspace => InputAction::NavigateBack,
        KeyCode::Down | KeyCode::Char('j') => InputAction::ScrollLineDown,
        KeyCode::Up | KeyCode::Char('k') => InputAction::ScrollLineUp,
        KeyCode::PageDown => InputAction::ScrollPageDown,
        KeyCode::PageUp => InputAction::ScrollPageUp,
        KeyCode::Char('g') => InputAction::ScrollToTop,
        KeyCode::Char('G') => InputAction::ScrollToBottom,
        _ => InputAction::Disarm,
    }
}

/// The action a key means while the command bar is open.
pub open spec fn command_mode_action(code: KeyCode) -> InputAction {
    match code {
        KeyCode::Esc => InputAction::CommandCancel,
        KeyCode::Enter => InputAction::CommandSubmit,
        KeyCode::Left => InputAction::CommandMoveCursorLeft,
        KeyCode::Right => InputAction::CommandMoveCursorRight,
        KeyCode::Backspace => InputAction::CommandDeleteBack,
        KeyCode::Char(ch) => InputAction::CommandAppend(ch),
        _ => InputAction::Disarm,
    }
}

/// The action a key means while the slash-command palette is offered: the arrows move its
/// highlight and Tab completes the buffer; every other key edits as in command mode.
pub open spec fn palette_action(code: KeyCode) -> InputAction {
    match code {
        KeyCode::Up => InputAction::PaletteSelectPrev,
        KeyCode::Down => InputAction::PaletteSelectNext,
        KeyCode::Tab => InputAction::PaletteComplete,
        _ => command_mode_action(code),
    }
}

/// The action a key means while address suggestions are offered: the arrows and Tab move
/// the highlight, `Esc` dismisses the list; every other key edits as in command mode.
pub open spec fn suggestion_action(code: KeyCode) -> InputAction {
    match code {
        KeyCode::Down | KeyCode::Tab => InputAction::SuggestionSelectNext,
        KeyCode::Up => InputAction::SuggestionSelectPrev,
        KeyCode::Esc => InputAction::SuggestionDismiss,
        _ => command_mode_action(code),
    }
}

/// The action a key means while the history list is open.
pub open spec fn history_action(code: KeyCode) -> InputAction {
    match code {
        KeyCode::Down => InputAction::HistorySelectNext,
        KeyCode::Up => InputAction::HistorySelectPrev,
        KeyCode::Enter => InputAction::HistoryActivateSelected,
        KeyCode::Delete | KeyCode::Char('d') => InputAction::HistoryDeleteSelected,
        KeyCode::Esc => InputAction::HistoryClose,
        _ => InputAction::Disarm,
    }
}

/// The action a key means while the cookie popup is open.
pub open spec fn cookies_action(code: KeyCode) -> InputAction {
    match code {
        KeyCode::Down => InputAction::CookiesSelectNext,
        KeyCode::Up => InputAction::CookiesSelectPrev,
        KeyCode::Esc => InputAction::CookiesClose,
        _ => InputAction::Disarm,
    }
}

/// The action a key means while the settings panel is open.
pub open spec fn settings_action(code: KeyCode) -> InputAction {
    match code {
        KeyCode::Down | KeyCode::Char('j') => InputAction::SettingsSelectNext,
        KeyCode::Up | KeyCode::Char('k') => InputAction::SettingsSelectPrev,
        KeyCode::Esc => InputAction::SettingsClose,
        KeyCode::Enter | KeyCode::Char(' ') => InputAction::SettingsToggle,
        KeyCode::Left | KeyCode::Char('h') => InputAction::SettingsCyclePrev,
        KeyCode::Right | KeyCode::Char('l') => InputAction::SettingsCycleNext,
        _ => InputAction::Disarm,
    }
}

/// The action one key event means in the current mode and arm state. `Ctrl+C` quits from
/// every mode; otherwise the open popup or panel, then the command bar (with its palette or
/// suggestions), then link navigation, then reading decide.
pub open spec fn key_action(
    event: KeyEvent,
    quit_armed: bool,
    refresh_armed: bool,
    in_command_mode: bool,
    in_link_navigation: bool,
    palette_active: bool,
    suggestions_active: bool,
    in_history: bool,
    in_cookies: bool,
    in_settings: bool,
) -> InputAction {
    if is_quit_key(event) {
        InputAction::Quit
    } else if in_settings {
        settings_action(event.code)
    } else if in_cookies {
        cookies_action(event.code)
    } else if in_history {
        history_action(event.code)
    } else if in_command_mode {
        if palette_active {
            palette_action(event.code)
        } else if suggestions_active {
            suggestion_action(event.code)
        } else {
            command_mode_action(event.code)
        }
    } else if in_link_navigation {
        link_navigation_action(event.code)
    } else {
        reading_action(event.code, quit_armed, refresh_armed)
    }
}

/// Interprets one key event against the current arm state and interaction mode.
///
/// `Ctrl+C` always quits immediately. In reading mode, navigation keys scroll and
/// `Esc`/`r` arm their respective two-press confirmations; any other printable character
/// enters command mode seeded with that character. In command mode, `Esc` cancels,
/// `Enter` submits, arrow keys move the cursor, `Backspace` deletes, and printable
/// characters append to the buffer; an offered palette or suggestion list takes the arrows
/// and Tab. The history list, the cookie popup, and the settings panel each have their own
/// keys.
pub fn map_key_event(
    event: KeyEvent,
    quit_armed: bool,
    refresh_armed: bool,
    in_command_mode: bool,
    in_link_navigation: bool,
    palette_active: bool,
    suggestions_active: bool,
    in_history: bool,
    in_cookies: bool,
    in_settings: bool,
) -> (r: InputAction)
    ensures
        r == key_action(
            event,
            quit_armed,
            refresh_armed,
            in_command_mode,
            in_link_navigation,
            palette_active,
            suggestions_active,
            in_history,
            in_cookies,
            in_settings,
        ),
        is_quit_key(event) ==> r == InputAction::Quit,
{
    if is_quit_combination(event) {
        return InputAction::Quit;
    }
    if in_settings {
        return map_settings_key(event);
    }
    if in_cookies {
        return map_cookies_key(event);
    }
    if in_history {
        return map_history_key(event);
    }
    if in_command_mode {
        if palette_active {
            return map_palette_key(event);
        }
        if suggestions_active {
            return map_suggestion_key(event);
        }
        return map_command_mode_key(event);
    }
    if in_link_navigation {
        return map_link_navigation_key(event);
    }
    map_reading_mode_key(event, quit_armed, refresh_armed)
}

/// Maps a key while the slash-command palette is offered.
pub fn map_palette_key(event: KeyEvent) -> (r: InputAction)
    ensures
        r == palette_action(event.code),
{
    match event.code {
        KeyCode::Up => InputAction::PaletteSelectPrev,
        KeyCode::Down => InputAction::PaletteSelectNext,
        KeyCode::Tab => InputAction::PaletteComplete,
        _ => map_command_mode_key(event),
    }
}

/// Maps a key while address suggestions are offered.
pub fn map_suggestion_key(event: KeyEvent) -> (r: InputAction)
    ensures
        r == suggestion_action(event.code),
{
    match event.code {
        KeyCode::Down | KeyCode::Tab => InputAction::SuggestionSelectNext,
        KeyCode::Up => InputAction::SuggestionSelectPrev,
        KeyCode::Esc => InputAction::SuggestionDismiss,
        _ => map_command_mode_key(event),
    }
}

/// Maps a key while the history list is open.
pub fn map_history_key(event: KeyEvent) -> (r: InputAction)
    ensures
        r == history_action(event.code),
{
    match event.code {
        KeyCode::Down => InputAction::HistorySelectNext,
        KeyCode::Up => InputAction::HistorySelectPrev,
        KeyCode::Enter => InputAction::HistoryActivateSelected,
        KeyCode::Delete | KeyCode::Char('d') => InputAction::HistoryDeleteSelected,
        KeyCode::Esc => InputAction::HistoryClose,
        _ => InputAction::Disarm,
    }
}

/// Maps a key while the cookie popup is open.
pub fn map_cookies_key(event: KeyEvent) -> (r: InputAction)
    ensures
        r == cookies_action(event.code),
{
    match event.code {
        KeyCode::Down => InputAction::CookiesSelectNext,
        KeyCode::Up => InputAction::CookiesSelectPrev,
        KeyCode::Esc => InputAction::CookiesClose,
        _ => InputAction::Disarm,
    }
}

/// Maps a key while the settings panel is open.
pub fn map_settings_key(event: KeyEvent) -> (r: InputAction)
    ensures
        r == settings_action(event.code),
{
    match event.code {
        KeyCode::Down | KeyCode::Char('j') => InputAction::SettingsSelectNext,
        KeyCode::Up | KeyCode::Char('k') => InputAction::SettingsSelectPrev,
        KeyCode::Esc => InputAction::SettingsClose,
        KeyCode::Enter | KeyCode::Char(' ') => InputAction::SettingsToggle,
        KeyCode::Left | KeyCode::Char('h') => InputAction::SettingsCyclePrev,
        KeyCode::Right | KeyCode::Char('l') => InputAction::SettingsCycleNext,
        _ => InputAction::Disarm,
    }
}

/// The quit-arm flag after `action` runs.
///
/// Only `ArmQuit` keeps the flag set; every other action clears it.
pub fn quit_armed_after(action: InputAction) -> (r: bool)
    ensures
        r == (action == InputAction::ArmQuit),
{
    match action {
        InputAction::ArmQuit => true,
        _ => false,
    }
}

/// The refresh-arm flag after `action` runs.
///
/// Only `ArmRefresh` keeps the flag set; every other action clears it.
pub fn refresh_armed_after(action: InputAction) -> (r: bool)
    ensures
        r == (action == InputAction::ArmRefresh),
{
    match action {
        InputAction::ArmRefresh => true,
        _ => false,
    }
}

pub fn map_reading_mode_key(event: KeyEvent, quit_armed: bool, refresh_armed: bool) -> (r:
    InputAction)
    ensures
        r == reading_action(event.code, quit_armed, refresh_armed),
{
    match event.code {
        KeyCode::Esc => arm_or_quit(quit_armed),
        KeyCode::Char('r') => arm_or_refresh(refresh_armed),
        KeyCode::Down | KeyCode::Char('j') => InputAction::ScrollLineDown,
        KeyCode::Up | KeyCode::Char('k') => InputAction::ScrollLineUp,
        KeyCode::PageDown => InputAction::ScrollPageDown,
        KeyCode::PageUp => InputAction::ScrollPageUp,
        KeyCode::Char('g') => InputAction::ScrollToTop,
        KeyCode::Char('G') => InputAction::ScrollToBottom,
        KeyCode::Tab => InputAction::FocusNextLink,
        KeyCode::BackTab => InputAction::FocusPreviousLink,
        KeyCode::Backspace => InputAction::NavigateBack,
        KeyCode::Char(ch) => if !is_control_char(ch) {
            InputAction::EnterCommand(ch)
        } else {
            InputAction::Disarm
        },
        _ => InputAction::Disarm,
    }
}

/// Maps a key while a link is focused. Tab and Shift+Tab move focus, Enter activates the
/// focused link, Backspace goes back in history, Esc leaves link navigation, and the
/// scroll keys keep working so the reader can move the viewport while a link stays
/// focused. Any other key leaves link navigation.
pub fn map_link_navigation_key(event: KeyEvent) -> (r: InputAction)
    ensures
        r == link_navigation_action(event.code),
{
    match event.code {
        KeyCode::Tab => InputAction::FocusNextLink,
        KeyCode::BackTab => InputAction::FocusPreviousLink,
        KeyCode::Enter => InputAction::ActivateFocusedLink,
        KeyCode::Esc => InputAction::Disarm,
        KeyCode::Backspace => InputAction::NavigateBack,
        KeyCode::Down | KeyCode::Char('j') => InputAction::ScrollLineDown,
        KeyCode::Up | KeyCode::Char('k') => InputAction::ScrollLineUp,
        KeyCode::PageDown => InputAction::ScrollPageDown,
        KeyCode::PageUp => InputAction::ScrollPageUp,
        KeyCode::Char('g') => InputAction::ScrollToTop,
        KeyCode::Char('G') => InputAction::ScrollToBottom,
        _ => InputAction::Disarm,
    }
}

pub fn map_command_mode_key(event: KeyEvent) -> (r: InputAction)
    ensures
        r == command_mode_action(event.code),
{
    match event.code {
        KeyCode::Esc => InputAction::CommandCancel,
        KeyCode::Enter => InputAction::CommandSubmit,
        KeyCode::Left => InputAction::CommandMoveCursorLeft,
        KeyCode::Right => InputAction::CommandMoveCursorRight,
        KeyCode::Backspace => InputAction::CommandDeleteBack,
        KeyCode::Char(ch) => InputAction::CommandAppend(ch),
        _ => InputAction::Disarm,
    }
}

pub fn is_quit_combination(event: KeyEvent) -> (r: bool)
    ensures
        r == is_quit_key(event),
{
    match event.code {
        KeyCode::Char(c) => c == 'c' && event.control,
        _ => false,
    }
}

pub fn arm_or_quit(quit_armed: bool) -> (r: InputAction)
    ensures
        r == (if quit_armed {
            InputAction::Quit
        } else {
            InputAction::ArmQuit
        }),
{
    if quit_armed {
        return InputAction::Quit;
    }
    InputAction::ArmQuit
}

pub fn arm_or_refresh(refresh_armed: bool) -> (r: InputAction)
    ensures
        r == (if refresh_armed {
            InputAction::RefreshArmed
        } else {
            InputAction::ArmRefresh
        }),
{
    if refresh_armed {
        return InputAction::RefreshArmed;
    }
    InputAction::ArmRefresh
}

/// Two `Esc` presses quit from reading mode: the first arms the quit, and with the flag it
/// leaves set the second quits. Likewise two `r` presses confirm a refresh.
pub proof fn lemma_double_press_confirms(refresh_armed: bool, quit_armed: bool)
    ensures
        reading_action(KeyCode::Esc, false, refresh_armed) == InputAction::ArmQuit,
        reading_action(
            KeyCode::Esc,
            reading_action(KeyCode::Esc, false, refresh_armed) == InputAction::ArmQuit,
            refresh_armed,
        ) == InputAction::Quit,
        reading_action(KeyCode::Char('r'), quit_armed, false) == InputAction::ArmRefresh,
        reading_action(
            KeyCode::Char('r'),
            quit_armed,
            reading_action(KeyCode::Char('r'), quit_armed, false) == InputAction::ArmRefresh,
        ) == InputAction::RefreshArmed,
{
}

/// Any key other than a second `Esc` disarms a pending quit: the flag after any action but
/// `ArmQuit` is clear, and only `Esc` while unarmed produces `ArmQuit`.
pub proof fn lemma_only_esc_arms_quit(
    event: KeyEvent,
    quit_armed: bool,
    refresh_armed: bool,
    in_command_mode: bool,
    in_link_navigation: bool,
    palette_active: bool,
    suggestions_active: bool,
    in_history: bool,
    in_cookies: bool,
    in_settings: bool,
)
    ensures
        key_action(
            event,
            quit_armed,
            refresh_armed,
            in_command_mode,
            in_link_navigation,
            palette_active,
            suggestions_active,
            in_history,
            in_cookies,
            in_settings,
        ) == InputAction::ArmQuit ==> event.code == KeyCode::Esc && !quit_armed
            && !in_command_mode && !in_link_navigation && !in_history && !in_cookies
            && !in_settings,
{
}

/// A settings-panel change requested with a key while a row is focused.
#[derive(Debug, Clone, Copy, PartialEq, Eq, Structural)]
pub enum SettingsMutation {
    Toggle,
    CyclePrev,
    CycleNext,
}

/// The settings mutation a key action requests, or `None` when it is not a settings mutation.
pub fn settings_mutation_for(action: InputAction) -> (r: Option<SettingsMutation>)
    ensures
        r == match action {
            InputAction::SettingsToggle => Some(SettingsMutation::Toggle),
            InputAction::SettingsCyclePrev => Some(SettingsMutation::CyclePrev),
            InputAction::SettingsCycleNext => Some(SettingsMutation::CycleNext),
            _ => None,
        },
{
    match action {
        InputAction::SettingsToggle => Some(SettingsMutation::Toggle),
        InputAction::SettingsCyclePrev => Some(SettingsMutation::CyclePrev),
        InputAction::SettingsCycleNext => Some(SettingsMutation::CycleNext),
        _ => None,
    }
}

/// Whether `action` changed the command buffer text and so should trigger a fresh
/// address-suggestion query. Selection moves and dismissals are excluded so they keep the
/// current list and highlight rather than resetting it.
pub fn action_refreshes_suggestions(action: InputAction) -> (r: bool)
    ensures
        r == (action is EnterCommand || action is CommandAppend || action
            == InputAction::CommandDeleteBack),
{
    match action {
        InputAction::EnterCommand(_) | InputAction::CommandAppend(_)
        | InputAction::CommandDeleteBack => true,
        _ => false,
    }
}

/// Applies a scroll action to the viewport; every other action leaves it untouched.
/// The scroll offset after `action` from `offset`, in a window `height` rows tall over a
/// page that scrolls at most to `max_offset`: the scroll actions move it, every other action
/// leaves it.
pub open spec fn scroll_after(action: InputAction, offset: int, height: int, max_offset: int) -> int {
    match action {
        InputAction::ScrollLineDown => crate::viewport::min_int(crate::viewport::sat_add_u16(offset, 1), max_offset),
        InputAction::ScrollLineUp => crate::viewport::sat_sub(offset, 1),
        InputAction::ScrollPageDown => crate::viewport::min_int(crate::viewport::sat_add_u16(offset, height), max_offset),
        InputAction::ScrollPageUp => crate::viewport::sat_sub(offset, height),
        InputAction::ScrollToTop => 0,
        InputAction::ScrollToBottom => max_offset,
        _ => offset,
    }
}

/// The keys that move the viewport down: `Down`/`j` a line, `PageDown` a page, `G` to the end.
pub open spec fn scrolls_down(code: KeyCode) -> bool {
    code == KeyCode::Down || code == KeyCode::Char('j') || code == KeyCode::PageDown || code
        == KeyCode::Char('G')
}

/// The keys that move the viewport up: `Up`/`k` a line, `PageUp` a page, `g` to the top.
pub open spec fn scrolls_up(code: KeyCode) -> bool {
    code == KeyCode::Up || code == KeyCode::Char('k') || code == KeyCode::PageUp || code
        == KeyCode::Char('g')
}

/// With no popup, panel or command bar open, the scroll keys mean the same whether or not a
/// link is focused, and move the viewport their own way: the down keys never move it up and
/// the up keys never move it down; `Down`/`j` go one line down and `Up`/`k` one line up
/// wherever there is room, `G` reaches the end and `g` the top.
pub proof fn lemma_scroll_keys_move_the_page(
    event: KeyEvent,
    quit_armed: bool,
    refresh_armed: bool,
    in_link_navigation: bool,
    offset: int,
    height: int,
    max_offset: int,
)
    requires
        0 <= offset <= max_offset <= u16::MAX,
        0 <= height,
    ensures
        ({
            let a = key_action(event, quit_armed, refresh_armed, false, in_link_navigation, false, false, false, false, false);
            let after = scroll_after(a, offset, height, max_offset);
            &&& scrolls_down(event.code) || scrolls_up(event.code) ==> a == key_action(
                event,
                quit_armed,
                refresh_armed,
                false,
                !in_link_navigation,
                false,
                false,
                false,
                false,
                false,
            )
            &&& scrolls_down(event.code) ==> offset <= after <= max_offset
            &&& scrolls_up(event.code) ==> 0 <= after <= offset
            &&& (event.code == KeyCode::Down || event.code == KeyCode::Char('j')) && offset < max_offset
                ==> after == offset + 1
            &&& (event.code == KeyCode::Up || event.code == KeyCode::Char('k')) && offset > 0 ==> after
                == offset - 1
            &&& event.code == KeyCode::Char('G') ==> after == max_offset
            &&& event.code == KeyCode::Char('g') ==> after == 0
        }),
{
}

pub fn apply_scroll(
    action: InputAction,
    scroll: &mut ScrollState,
    viewport_height: u16,
    max_offset: u16,
)
    ensures
        final(scroll).spec_offset() == scroll_after(action, old(scroll).spec_offset(), viewport_height as int, max_offset as int),
        action == InputAction::ScrollLineDown ==> final(scroll).spec_offset() == crate::viewport::min_int(
            crate::viewport::sat_add_u16(old(scroll).spec_offset(), 1),
            max_offset as int,
        ),
        action == InputAction::ScrollLineUp ==> final(scroll).spec_offset()
            == crate::viewport::sat_sub(old(scroll).spec_offset(), 1),
        action == InputAction::ScrollPageDown ==> final(scroll).spec_offset()
            == crate::viewport::min_int(
            crate::viewport::sat_add_u16(old(scroll).spec_offset(), viewport_height as int),
            max_offset as int,
        ),
        action == InputAction::ScrollPageUp ==> final(scroll).spec_offset()
            == crate::viewport::sat_sub(old(scroll).spec_offset(), viewport_height as int),
        action == InputAction::ScrollToTop ==> final(scroll).spec_offset() == 0,
        action == InputAction::ScrollToBottom ==> final(scroll).spec_offset() == max_offset,
        !(action == InputAction::ScrollLineDown || action == InputAction::ScrollLineUp || action
            == InputAction::ScrollPageDown || action == InputAction::ScrollPageUp || action
            == InputAction::ScrollToTop || action == InputAction::ScrollToBottom)
            ==> final(scroll).spec_offset() == old(scroll).spec_offset(),
        old(scroll).spec_offset() <= max_offset ==> final(scroll).spec_offset() <= max_offset,
{
    match action {
        InputAction::ScrollLineDown => scroll.line_down(max_offset),
        InputAction::ScrollLineUp => scroll.line_up(),
        InputAction::ScrollPageDown => scroll.page_down(viewport_height, max_offset),
        InputAction::ScrollPageUp => scroll.page_up(viewport_height),
        InputAction::ScrollToTop => scroll.move_to_top(),
        InputAction::ScrollToBottom => scroll.move_to_bottom(max_offset),
        _ => {},
    }
}

} // verus!
