//! The mutable chrome state the event loop drives: interaction mode, arm flags, the command
//! bar and its palette, address suggestions, the history, cookie, and settings popups, link
//! focus, and the rotating and transient hints.

use vstd::prelude::*;

use crate::command::{self, CommandKind, CommandMatch, filter_spec, describes, command_parts, registry_kinds, MatchRank};
use crate::history_view::HistoryEntry;
use crate::settings_view::{
    CookiePolicy, CycleDirection, SettingId, SettingsControl, SettingsModel, SettingsRow, text_value_of,
    first_row_with, lemma_first_row_with_bound, with_text_value, text_field_id, policy_at, cycled_position,
    first_selected, radio_options_for, is_policy_radio,
};
use crate::text::{owned, push_str};
use crate::text_editor::{TextEditor, editor_capacity, utf8_len};

verus! {

/// The reading-mode hints, in rotation order.
pub open spec fn reading_hint(i: int) -> Seq<char> {
    if i == 0 {
        "Type a URL or press / for commands"@
    } else if i == 1 {
        "j · k or ↑ · ↓ to scroll  ·  Space / b to page"@
    } else if i == 2 {
        "g to jump to top  ·  G to jump to bottom"@
    } else {
        "Esc to quit  ·  r to refresh the page"@
    }
}

/// How many reading hints rotate.
pub const READING_HINT_COUNT: usize = 4;

/// The reading-mode hint at `index` of the rotation.
pub fn reading_hint_text(index: usize) -> (r: &'static str)
    requires
        index < READING_HINT_COUNT,
    ensures
        r@ == reading_hint(index as int),
{
    match index {
        0 => "Type a URL or press / for commands",
        1 => "j · k or ↑ · ↓ to scroll  ·  Space / b to page",
        2 => "g to jump to top  ·  G to jump to bottom",
        _ => "Esc to quit  ·  r to refresh the page",
    }
}

/// Milliseconds between reading-hint rotations.
pub const HINT_ROTATION_INTERVAL_MS: u64 = 30_000;

/// Milliseconds a transient hint or message stays up.
pub const TRANSIENT_HINT_DURATION_MS: u64 = 5_000;

/// Milliseconds a settings text field must sit idle after the last keystroke before its
/// value is validated, applied, and persisted.
pub const SETTINGS_AUTOSAVE_DEBOUNCE_MS: u64 = 1_500;

/// Whether at least `span` milliseconds passed from `since` to `now`; a reading earlier than
/// `since` counts as no time elapsed.
pub open spec fn elapsed_at_least(now: u64, since: u64, span: u64) -> bool {
    (if now >= since {
        now - since
    } else {
        0
    }) >= span
}

/// Whether a dirty settings text field has been idle long enough to auto-save. Times are
/// readings of a monotonic millisecond clock; a reading earlier than the last keystroke
/// counts as no time elapsed.
pub fn should_save(now: u64, last_keystroke: u64, dirty: bool, debounce: u64) -> (r: bool)
    ensures
        r == (dirty && elapsed_at_least(now, last_keystroke, debounce)),
{
    dirty && now.saturating_sub(last_keystroke) >= debounce
}

/// The interaction mode the chrome is in.
#[derive(Debug, Clone, Copy, PartialEq, Eq, Structural)]
pub enum InteractionMode {
    Reading,
    Command,
    LinkNavigation,
    History,
    Cookies,
    Settings,
}

/// What an `Esc` press does while a settings text field is focused: revert an unsaved draft,
/// or close the panel when there is nothing to revert.
#[derive(Debug, Clone, Copy, PartialEq, Eq, Structural)]
pub enum SettingsEscOutcome {
    Reverted,
    ClosePanel,
}

/// The persist request a due auto-save or a focus-leave produces: which field to save and the
/// draft value to validate and store.
#[derive(Debug, Clone, PartialEq, Eq)]
pub struct SettingsTextSave {
    pub id: SettingId,
    pub value: String,
}

/// The in-progress edit of a settings text field.
#[derive(Debug)]
pub struct SettingsTextEdit {
    id: SettingId,
    editor: TextEditor,
    dirty: bool,
    last_keystroke: u64,
    autosave_suppressed: bool,
    error: Option<String>,
}

/// The state of a settings text edit, as contracts see it.
pub struct TextEditView {
    pub id: SettingId,
    pub text: Seq<char>,
    pub cursor: nat,
    pub dirty: bool,
    pub last_keystroke: u64,
    pub autosave_suppressed: bool,
    pub error: Option<Seq<char>>,
}

/// The whole chrome state, as contracts see it.
pub struct UiView {
    pub mode: InteractionMode,
    pub quit_armed: bool,
    pub refresh_armed: bool,
    pub focused_link: Option<usize>,
    pub visited: Set<Seq<char>>,
    pub hint_index: nat,
    pub last_hint_advance: u64,
    pub transient: Option<Seq<char>>,
    pub transient_set_at: Option<u64>,
    pub command: Seq<char>,
    pub cursor: nat,
    pub palette: Seq<CommandMatch>,
    pub palette_index: nat,
    pub suggestions: Seq<Seq<char>>,
    pub suggestion: Option<usize>,
    pub citation: Option<Seq<char>>,
    pub history: Seq<HistoryEntry>,
    pub history_index: nat,
    pub cookies: Seq<Seq<char>>,
    pub cookie_index: nat,
    pub settings: Option<SettingsModel>,
    pub settings_focus: nat,
    pub settings_return: InteractionMode,
    pub text_edit: Option<TextEditView>,
    pub pending_fragment: Option<Seq<char>>,
    pub anchor_returns: Seq<u16>,
    pub search_enabled: bool,
}

pub struct UiState {
    interaction_mode: InteractionMode,
    quit_armed: bool,
    refresh_armed: bool,
    focused_link_index: Option<usize>,
    /// The URLs visited this session, viewed as a set. A list rather than a `HashSet`: vstd
    /// states a hash set's contents only for keys that obey its key model, which it gives for
    /// integers and not for `String`.
    visited_urls: Vec<String>,
    hint_index: usize,
    last_hint_advance: u64,
    transient_message: Option<String>,
    transient_set_at: Option<u64>,
    command_editor: TextEditor,
    palette_matches: Vec<CommandMatch>,
    palette_selected_index: usize,
    address_suggestions: Vec<String>,
    suggestion_selected: Option<usize>,
    citation_preview: Option<String>,
    history_entries: Vec<HistoryEntry>,
    history_selected_index: usize,
    cookie_lines: Vec<String>,
    cookie_selected_index: usize,
    settings_model: Option<SettingsModel>,
    settings_focus_index: usize,
    settings_text_edit: Option<SettingsTextEdit>,
    settings_return_mode: InteractionMode,
    pending_fragment: Option<String>,
    anchor_returns: Vec<u16>,
    search_enabled: bool,
}

pub open spec fn opt_view(s: Option<String>) -> Option<Seq<char>> {
    match s {
        Some(t) => Some(t@),
        None => None,
    }
}

impl SettingsTextEdit {
    pub closed spec fn view(self) -> TextEditView {
        TextEditView {
            id: self.id,
            text: self.editor.text(),
            cursor: self.editor.cursor(),
            dirty: self.dirty,
            last_keystroke: self.last_keystroke,
            autosave_suppressed: self.autosave_suppressed,
            error: opt_view(self.error),
        }
    }

    pub closed spec fn wf(self) -> bool {
        self.editor.wf()
    }
}

impl View for UiState {
    type V = UiView;

    closed spec fn view(&self) -> UiView {
        UiView {
            mode: self.interaction_mode,
            quit_armed: self.quit_armed,
            refresh_armed: self.refresh_armed,
            focused_link: self.focused_link_index,
            visited: self.visited_urls@.map_values(|u: String| u@).to_set(),
            hint_index: self.hint_index as nat,
            last_hint_advance: self.last_hint_advance,
            transient: opt_view(self.transient_message),
            transient_set_at: self.transient_set_at,
            command: self.command_editor.text(),
            cursor: self.command_editor.cursor(),
            palette: self.palette_matches@,
            palette_index: self.palette_selected_index as nat,
            suggestions: self.address_suggestions@.map_values(|u: String| u@),
            suggestion: self.suggestion_selected,
            citation: opt_view(self.citation_preview),
            history: self.history_entries@,
            history_index: self.history_selected_index as nat,
            cookies: self.cookie_lines@.map_values(|u: String| u@),
            cookie_index: self.cookie_selected_index as nat,
            settings: self.settings_model,
            settings_focus: self.settings_focus_index as nat,
            settings_return: self.settings_return_mode,
            text_edit: match self.settings_text_edit {
                Some(edit) => Some(edit.view()),
                None => None,
            },
            pending_fragment: opt_view(self.pending_fragment),
            anchor_returns: self.anchor_returns@,
            search_enabled: self.search_enabled,
        }
    }
}

/// The entries of `es` the palette offers, in order: all of them while search is enabled,
/// all but `/search` otherwise.
pub open spec fn offered_entries(es: Seq<(CommandKind, MatchRank)>, search_enabled: bool) -> Seq<
    (CommandKind, MatchRank),
>
    decreases es.len(),
{
    if es.len() == 0 {
        es
    } else {
        let earlier = offered_entries(es.drop_last(), search_enabled);
        if search_enabled || es.last().0 != CommandKind::Search {
            earlier.push(es.last())
        } else {
            earlier
        }
    }
}

/// The palette entries for the command token `q`: the ranked matches, without `/search`
/// while search is disabled.
pub open spec fn palette_spec(q: Seq<char>, search_enabled: bool) -> Seq<(CommandKind, MatchRank)> {
    offered_entries(filter_spec(q), search_enabled)
}

/// Every entry `offered_entries` keeps is an entry of the list it was given.
proof fn lemma_offered_entries_from(es: Seq<(CommandKind, MatchRank)>, search_enabled: bool)
    ensures
        forall|i: int|
            0 <= i < offered_entries(es, search_enabled).len() ==> es.contains(
                #[trigger] offered_entries(es, search_enabled)[i],
            ),
    decreases es.len(),
{
    if es.len() > 0 {
        let front = es.drop_last();
        lemma_offered_entries_from(front, search_enabled);
        let earlier = offered_entries(front, search_enabled);
        assert forall|i: int| 0 <= i < offered_entries(es, search_enabled).len() implies es.contains(
            #[trigger] offered_entries(es, search_enabled)[i],
        ) by {
            if i < earlier.len() {
                let e = earlier[i];
                assert(front.contains(e));
                let j = choose|j: int| 0 <= j < front.len() && front[j] == e;
                assert(es[j] == e);
            } else {
                assert(es[es.len() - 1] == es.last());
            }
        }
    }
}

/// `offered_entries` keeps everything while search is enabled and drops exactly the
/// `/search` entries otherwise.
proof fn lemma_offered_entries_filter(es: Seq<(CommandKind, MatchRank)>)
    ensures
        offered_entries(es, true) == es,
        offered_entries(es, false) == es.filter(
            |entry: (CommandKind, MatchRank)| entry.0 != CommandKind::Search,
        ),
    decreases es.len(),
{
    reveal(Seq::filter);
    if es.len() > 0 {
        lemma_offered_entries_filter(es.drop_last());
        assert(es.drop_last().push(es.last()) =~= es);
    }
}

/// With search enabled the palette for a command token offers every ranked match; with
/// search disabled it offers exactly the ranked matches other than `/search`, in the same
/// order.
pub proof fn lemma_disabling_search_hides_only_search(q: Seq<char>)
    ensures
        palette_spec(q, true) == filter_spec(q),
        palette_spec(q, false) == filter_spec(q).filter(
            |entry: (CommandKind, MatchRank)| entry.0 != CommandKind::Search,
        ),
{
    lemma_offered_entries_filter(filter_spec(q));
}

/// Every command a palette offers is a registered command that its spec describes.
proof fn lemma_palette_entries_registered(command: Seq<char>, palette: Seq<CommandMatch>, search_enabled: bool)
    requires
        palette_follows(command, palette, search_enabled),
    ensures
        forall|i: int|
            0 <= i < palette.len() ==> registry_kinds().contains(#[trigger] palette[i].spec.kind)
                && describes(palette[i].spec, palette[i].spec.kind),
{
    if command.len() > 0 && command[0] == '/' {
        let q = command_parts(command).0;
        let all = filter_spec(q);
        let expected = palette_spec(q, search_enabled);
        lemma_offered_entries_from(all, search_enabled);
        command::lemma_filter_kinds_registered(q);
        assert forall|i: int| 0 <= i < palette.len() implies registry_kinds().contains(
            #[trigger] palette[i].spec.kind,
        ) && describes(palette[i].spec, palette[i].spec.kind) by {
            assert(describes(palette[i].spec, expected[i].0));
            assert(all.contains(expected[i]));
            let j = choose|j: int| 0 <= j < all.len() && all[j] == expected[i];
            assert(registry_kinds().contains(all[j].0));
        }
    }
}

/// Whether `palette` is what the command palette offers for the command text `command`
/// with search enabled or not: the ranked matches for its command token while it begins
/// with `/`, nothing otherwise.
pub open spec fn palette_follows(command: Seq<char>, palette: Seq<CommandMatch>, search_enabled: bool) -> bool {
    if command.len() > 0 && command[0] == '/' {
        let expected = palette_spec(command_parts(command).0, search_enabled);
        &&& palette.len() == expected.len()
        &&& forall|i: int|
            0 <= i < palette.len() ==> describes(#[trigger] palette[i].spec, expected[i].0)
                && palette[i].rank == expected[i].1
    } else {
        palette.len() == 0
    }
}

/// The buffer Enter dispatches: a non-slash buffer or an exactly typed command goes through
/// as typed, and otherwise the highlighted palette command replaces the typed token, keeping
/// the argument remainder.
pub open spec fn submit_text(v: UiView) -> Seq<char> {
    let b = v.command;
    if !(b.len() > 0 && b[0] == '/') {
        b
    } else {
        let (token, remainder) = command_parts(b);
        if command::first_answering(registry_kinds(), token) is Some {
            b
        } else if v.palette_index >= v.palette.len() {
            b
        } else {
            let name = v.palette[v.palette_index as int].spec.name@;
            if remainder.len() == 0 {
                seq!['/'] + name
            } else {
                seq!['/'] + name + seq![' '] + remainder
            }
        }
    }
}

/// The settings panel's size fits the arithmetic its focus and line math does, and every
/// text value fits a text editor.
pub open spec fn settings_model_fits(model: SettingsModel) -> bool {
    &&& 2 * model.sections@.len() + model.flat_rows().len() + 1 <= usize::MAX
    &&& forall|i: int| 0 <= i < model.flat_rows().len() ==> text_fits(#[trigger] model.flat_rows()[i])
}

/// A text row's value fits a text editor.
pub open spec fn text_fits(row: SettingsRow) -> bool {
    match row.control {
        SettingsControl::TextInput { value } => value@.len() <= editor_capacity(),
        _ => true,
    }
}

/// The index after `i` in a list of `len` rows, wrapping from the last to the first.
pub open spec fn wrap_next(i: int, len: int) -> int {
    (i + 1) % len
}

/// The index before `i` in a list of `len` rows, wrapping from the first to the last.
pub open spec fn wrap_prev(i: int, len: int) -> int {
    if i == 0 {
        len - 1
    } else {
        i - 1
    }
}

/// Stepping forward then back over a non-empty list returns to the same row, and so does
/// stepping back then forward.
pub proof fn lemma_wrap_round_trip(i: int, len: int)
    requires
        0 <= i < len,
    ensures
        0 <= wrap_next(i, len) < len,
        0 <= wrap_prev(i, len) < len,
        wrap_prev(wrap_next(i, len), len) == i,
        wrap_next(wrap_prev(i, len), len) == i,
{
    if i + 1 < len {
        assert((i + 1) % len == i + 1) by (nonlinear_arith)
            requires
                0 <= i + 1 < len,
        ;
    } else {
        assert((i + 1) % len == 0) by (nonlinear_arith)
            requires
                i + 1 == len,
                len > 0,
        ;
    }
    if i > 0 {
        assert(i % len == i) by (nonlinear_arith)
            requires
                0 <= i < len,
        ;
    } else {
        assert(len % len == 0) by (nonlinear_arith)
            requires
                len > 0,
        ;
    }
}

fn step_next(i: usize, len: usize) -> (r: usize)
    requires
        len > 0,
        i < len,
    ensures
        r == wrap_next(i as int, len as int),
        r < len,
{
    (i + 1) % len
}

fn step_prev(i: usize, len: usize) -> (r: usize)
    requires
        len > 0,
    ensures
        r == wrap_prev(i as int, len as int),
        i < len ==> r < len,
{
    if i == 0 {
        len - 1
    } else {
        i - 1
    }
}

/// What `enter_command_mode` does to the chrome state.
pub open spec fn enter_command_mode_post(before: UiView, after: UiView, first_char: char) -> bool {
    &&& after.mode == InteractionMode::Command
    &&& after.command == seq![first_char]
    &&& after.cursor == 1
    &&& palette_follows(after.command, after.palette, after.search_enabled)
    &&& after == (UiView {
        mode: InteractionMode::Command,
        command: seq![first_char],
        cursor: 1,
        palette: after.palette,
        palette_index: 0,
        ..before
    })
}

/// What `command_append_char` does to the chrome state.
pub open spec fn command_append_char_post(before: UiView, after: UiView, ch: char) -> bool {
    &&& palette_follows(after.command, after.palette, after.search_enabled)
    &&& after == (UiView {
        command: before.command.insert(before.cursor as int, ch),
        cursor: before.cursor + 1,
        palette: after.palette,
        palette_index: 0,
        ..before
    })
}

/// What `command_move_left` does to the chrome state.
pub open spec fn command_move_left_post(before: UiView, after: UiView) -> bool {
    &&& after == (UiView {
        cursor: if before.cursor == 0 {
            0
        } else {
            (before.cursor - 1) as nat
        },
        ..before
    })
}

/// What `command_move_right` does to the chrome state.
pub open spec fn command_move_right_post(before: UiView, after: UiView) -> bool {
    &&& after == (UiView {
        cursor: if before.cursor >= before.command.len() {
            before.cursor
        } else {
            before.cursor + 1
        },
        ..before
    })
}

/// What `command_delete_or_exit` does to the chrome state.
pub open spec fn command_delete_or_exit_post(before: UiView, after: UiView) -> bool {
    &&& palette_follows(after.command, after.palette, after.search_enabled)
    &&& (before.command.len() > 0 && before.command[0] == '/' && utf8_len(
        before.command.take(before.cursor as int),
    ) == 1) ==> after == (UiView {
        mode: InteractionMode::Reading,
        command: Seq::empty(),
        cursor: 0,
        palette: Seq::empty(),
        palette_index: 0,
        suggestions: Seq::empty(),
        suggestion: None,
        ..before
    })
    &&& !(before.command.len() > 0 && before.command[0] == '/' && utf8_len(
        before.command.take(before.cursor as int),
    ) == 1) ==> after == (UiView {
        command: if before.cursor == 0 {
            before.command
        } else {
            before.command.remove(before.cursor - 1)
        },
        cursor: if before.cursor == 0 {
            0
        } else {
            (before.cursor - 1) as nat
        },
        palette: after.palette,
        palette_index: 0,
        ..before
    })
}

/// What `cancel_command_mode` does to the chrome state.
pub open spec fn cancel_command_mode_post(before: UiView, after: UiView) -> bool {
    &&& after == (UiView {
        mode: InteractionMode::Reading,
        command: Seq::empty(),
        cursor: 0,
        palette: Seq::empty(),
        palette_index: 0,
        suggestions: Seq::empty(),
        suggestion: None,
        ..before
    })
}

/// What `palette_select_prev` does to the chrome state.
pub open spec fn palette_select_prev_post(before: UiView, after: UiView) -> bool {
    &&& before.palette.len() == 0 ==> after == before
    &&& before.palette.len() > 0 ==> after == (UiView {
        palette_index: wrap_prev(
            before.palette_index as int,
            before.palette.len() as int,
        ) as nat,
        ..before
    })
}

/// What `palette_select_next` does to the chrome state.
pub open spec fn palette_select_next_post(before: UiView, after: UiView) -> bool {
    &&& before.palette.len() == 0 ==> after == before
    &&& before.palette.len() > 0 ==> after == (UiView {
        palette_index: wrap_next(
            before.palette_index as int,
            before.palette.len() as int,
        ) as nat,
        ..before
    })
}

/// What `palette_complete` does to the chrome state.
pub open spec fn palette_complete_post(before: UiView, after: UiView) -> bool {
    &&& before.palette.len() == 0 ==> after == before
    &&& before.palette.len() > 0 ==> {
        let chosen = before.palette[before.palette_index as int].spec;
        let completed = if chosen.args@.len() > 0 {
            seq!['/'] + chosen.name@ + seq![' ']
        } else {
            seq!['/'] + chosen.name@
        };
        &&& palette_follows(after.command, after.palette, after.search_enabled)
        &&& after == (UiView {
            command: completed,
            cursor: completed.len(),
            palette: after.palette,
            palette_index: 0,
            ..before
        })
    }
}

/// What `suggestion_select_prev` does to the chrome state.
pub open spec fn suggestion_select_prev_post(before: UiView, after: UiView) -> bool {
    &&& before.suggestions.len() == 0 ==> after == before
    &&& before.suggestions.len() > 0 ==> after == (UiView {
        suggestion: Some(
            match before.suggestion {
                Some(i) => wrap_prev(i as int, before.suggestions.len() as int),
                None => before.suggestions.len() - 1,
            } as usize,
        ),
        ..before
    })
}

/// What `suggestion_select_next` does to the chrome state.
pub open spec fn suggestion_select_next_post(before: UiView, after: UiView) -> bool {
    &&& before.suggestions.len() == 0 ==> after == before
    &&& before.suggestions.len() > 0 ==> after == (UiView {
        suggestion: Some(
            match before.suggestion {
                Some(i) => wrap_next(i as int, before.suggestions.len() as int),
                None => 0,
            } as usize,
        ),
        ..before
    })
}

/// What `clear_address_suggestions` does to the chrome state.
pub open spec fn clear_address_suggestions_post(before: UiView, after: UiView) -> bool {
    &&& after == (UiView { suggestions: Seq::empty(), suggestion: None, ..before })
}

/// What `history_select_prev` does to the chrome state.
pub open spec fn history_select_prev_post(before: UiView, after: UiView) -> bool {
    &&& before.history.len() == 0 ==> after == before
    &&& before.history.len() > 0 ==> after == (UiView {
        history_index: wrap_prev(
            before.history_index as int,
            before.history.len() as int,
        ) as nat,
        ..before
    })
}

/// What `history_select_next` does to the chrome state.
pub open spec fn history_select_next_post(before: UiView, after: UiView) -> bool {
    &&& before.history.len() == 0 ==> after == before
    &&& before.history.len() > 0 ==> after == (UiView {
        history_index: wrap_next(
            before.history_index as int,
            before.history.len() as int,
        ) as nat,
        ..before
    })
}

/// What `exit_history_mode` does to the chrome state.
pub open spec fn exit_history_mode_post(before: UiView, after: UiView) -> bool {
    &&& after == (UiView {
        mode: InteractionMode::Reading,
        history: Seq::empty(),
        history_index: 0,
        ..before
    })
}

/// What `remove_selected_history_entry` does to the chrome state: the highlighted entry
/// leaves the list, the highlight stays on a remaining row, and the list closes once empty.
pub open spec fn remove_selected_history_post(before: UiView, after: UiView) -> bool {
    &&& before.history.len() == 0 ==> after == before
    &&& before.history.len() == 1 ==> after == (UiView {
        mode: InteractionMode::Reading,
        history: Seq::empty(),
        history_index: 0,
        ..before
    })
    &&& before.history.len() > 1 ==> after == (UiView {
        history: before.history.remove(before.history_index as int),
        history_index: if before.history_index < before.history.len() - 1 {
            before.history_index
        } else {
            (before.history.len() - 2) as nat
        },
        ..before
    })
}

/// What `cookie_select_prev` does to the chrome state.
pub open spec fn cookie_select_prev_post(before: UiView, after: UiView) -> bool {
    &&& before.cookies.len() == 0 ==> after == before
    &&& before.cookies.len() > 0 ==> after == (UiView {
        cookie_index: wrap_prev(
            before.cookie_index as int,
            before.cookies.len() as int,
        ) as nat,
        ..before
    })
}

/// What `cookie_select_next` does to the chrome state.
pub open spec fn cookie_select_next_post(before: UiView, after: UiView) -> bool {
    &&& before.cookies.len() == 0 ==> after == before
    &&& before.cookies.len() > 0 ==> after == (UiView {
        cookie_index: wrap_next(
            before.cookie_index as int,
            before.cookies.len() as int,
        ) as nat,
        ..before
    })
}

/// What `exit_cookies_mode` does to the chrome state.
pub open spec fn exit_cookies_mode_post(before: UiView, after: UiView) -> bool {
    &&& after == (UiView {
        mode: InteractionMode::Reading,
        cookies: Seq::empty(),
        cookie_index: 0,
        ..before
    })
}

/// What `settings_focus_prev` does to the chrome state.
pub open spec fn settings_focus_prev_post(before: UiView, after: UiView) -> bool {
    &&& match before.settings {
        Some(m) => if m.flat_rows().len() == 0 {
            after == before
        } else {
            after == (UiView {
                settings_focus: wrap_prev(before.settings_focus as int, m.flat_rows().len() as int) as nat,
                ..before
            })
        },
        None => after == before,
    }
}

/// What `settings_focus_next` does to the chrome state.
pub open spec fn settings_focus_next_post(before: UiView, after: UiView) -> bool {
    &&& match before.settings {
        Some(m) => if m.flat_rows().len() == 0 {
            after == before
        } else {
            after == (UiView {
                settings_focus: ((before.settings_focus + 1) % m.flat_rows().len()) as nat,
                ..before
            })
        },
        None => after == before,
    }
}

/// What `exit_settings_mode` does to the chrome state.
pub open spec fn exit_settings_mode_post(before: UiView, after: UiView) -> bool {
    &&& after == (UiView {
        mode: before.settings_return,
        settings: None,
        settings_focus: 0,
        text_edit: None,
        ..before
    })
}

/// What `settings_text_input` does to the chrome state.
pub open spec fn settings_text_input_post(before: UiView, after: UiView, character: char, now: u64) -> bool {
    &&& match before.text_edit {
        Some(e) => after == (UiView {
            text_edit: Some(TextEditView {
                text: e.text.insert(e.cursor as int, character),
                cursor: e.cursor + 1,
                dirty: true,
                last_keystroke: now,
                autosave_suppressed: false,
                error: None,
                ..e
            }),
            ..before
        }),
        None => after == before,
    }
}

/// What `settings_text_delete_back` does to the chrome state.
pub open spec fn settings_text_delete_back_post(before: UiView, after: UiView, now: u64) -> bool {
    &&& match before.text_edit {
        Some(e) => after == (UiView {
            text_edit: Some(TextEditView {
                text: delete_back(e.text, e.cursor).0,
                cursor: delete_back(e.text, e.cursor).1,
                dirty: true,
                last_keystroke: now,
                autosave_suppressed: false,
                error: None,
                ..e
            }),
            ..before
        }),
        None => after == before,
    }
}

/// What `settings_text_move_left` does to the chrome state.
pub open spec fn settings_text_move_left_post(before: UiView, after: UiView) -> bool {
    &&& match before.text_edit {
        Some(e) => after == (UiView {
            text_edit: Some(TextEditView {
                cursor: if e.cursor == 0 { 0 } else { (e.cursor - 1) as nat },
                ..e
            }),
            ..before
        }),
        None => after == before,
    }
}

/// What `settings_text_move_right` does to the chrome state.
pub open spec fn settings_text_move_right_post(before: UiView, after: UiView) -> bool {
    &&& match before.text_edit {
        Some(e) => after == (UiView {
            text_edit: Some(TextEditView {
                cursor: if e.cursor >= e.text.len() { e.cursor } else { e.cursor + 1 },
                ..e
            }),
            ..before
        }),
        None => after == before,
    }
}

/// What `settings_text_cancel` does to the chrome state.
pub open spec fn settings_text_cancel_post(before: UiView, after: UiView, outcome: SettingsEscOutcome) -> bool {
    &&& match before.text_edit {
        Some(e) => if e.dirty {
            &&& outcome == SettingsEscOutcome::Reverted
            &&& after == (UiView {
                text_edit: Some(TextEditView {
                    text: shown_text(before, e.id),
                    cursor: shown_text(before, e.id).len(),
                    dirty: false,
                    autosave_suppressed: false,
                    error: None,
                    ..e
                }),
                ..before
            })
        } else {
            outcome == SettingsEscOutcome::ClosePanel && after == before
        },
        None => outcome == SettingsEscOutcome::ClosePanel && after == before,
    }
}

/// What `mark_settings_text_saved` does to the chrome state: both search rows of an open
/// panel show the stored values, and the draft is marked clean with no error.
pub open spec fn mark_settings_text_saved_post(before: UiView, after: UiView, base_url: Seq<char>, query_parameter: Seq<char>) -> bool {
    &&& match before.settings {
        Some(m) => after.settings matches Some(m2) && exists|mid: Seq<SettingsRow>|
            with_text_value(m.flat_rows(), mid, SettingId::SearchBaseUrl, base_url)
            && #[trigger] with_text_value(mid, m2.flat_rows(), SettingId::SearchQueryParameter, query_parameter),
        None => after.settings is None,
    }
    &&& after == (UiView {
        settings: after.settings,
        text_edit: match before.text_edit {
            Some(e) => Some(TextEditView { dirty: false, autosave_suppressed: false, error: None, ..e }),
            None => None,
        },
        ..before
    })
}

/// What `mark_settings_text_save_failed` does to the chrome state: the draft stays dirty,
/// shows `message`, and holds off auto-save.
pub open spec fn mark_settings_text_save_failed_post(before: UiView, after: UiView, message: Seq<char>) -> bool {
    match before.text_edit {
        Some(e) => after == (UiView {
            text_edit: Some(TextEditView { autosave_suppressed: true, error: Some(message), ..e }),
            ..before
        }),
        None => after == before,
    }
}

impl UiState {
    /// The indices the state keeps stay inside the lists they index, and every editor it
    /// holds is well formed.
    pub closed spec fn wf(&self) -> bool {
        &&& self.wf_core()
        &&& (palette_follows(self.command_editor.text(), self.palette_matches@, true)
            || palette_follows(self.command_editor.text(), self.palette_matches@, false))
    }

    /// Everything `wf` asks but the palette following the command text.
    closed spec fn wf_core(&self) -> bool {
        &&& self.command_editor.wf()
        &&& self.hint_index < READING_HINT_COUNT
        &&& match self.settings_text_edit {
            Some(edit) => edit.wf(),
            None => true,
        }
        &&& match self.settings_model {
            Some(model) => settings_model_fits(model) && (model.flat_rows().len() > 0
                ==> self.settings_focus_index < model.flat_rows().len()),
            None => self.settings_focus_index == 0,
        }
        &&& self.suggestion_selected matches Some(i) ==> i < self.address_suggestions@.len()
        &&& self.palette_matches@.len() == 0 ==> self.palette_selected_index == 0
        &&& self.palette_matches@.len() > 0 ==> self.palette_selected_index < self.palette_matches@.len()
        &&& self.history_entries@.len() == 0 ==> self.history_selected_index == 0
        &&& self.history_entries@.len() > 0 ==> self.history_selected_index < self.history_entries@.len()
        &&& self.cookie_lines@.len() == 0 ==> self.cookie_selected_index == 0
        &&& self.cookie_lines@.len() > 0 ==> self.cookie_selected_index < self.cookie_lines@.len()
    }

    pub fn new(search_enabled: bool, now: u64) -> (s: UiState)
        ensures
            s.wf(),
            s@.mode == InteractionMode::Reading,
            !s@.quit_armed && !s@.refresh_armed,
            s@.focused_link is None,
            s@.visited == Set::<Seq<char>>::empty(),
            s@.hint_index == 0,
            s@.last_hint_advance == now,
            s@.transient is None && s@.transient_set_at is None,
            s@.command == Seq::<char>::empty() && s@.cursor == 0,
            s@.palette.len() == 0 && s@.palette_index == 0,
            s@.suggestions.len() == 0 && s@.suggestion is None,
            s@.citation is None,
            s@.history.len() == 0 && s@.history_index == 0,
            s@.cookies.len() == 0 && s@.cookie_index == 0,
            s@.settings is None && s@.settings_focus == 0,
            s@.settings_return == InteractionMode::Reading,
            s@.text_edit is None,
            s@.pending_fragment is None,
            s@.anchor_returns.len() == 0,
            s@.search_enabled == search_enabled,
    {
        let s = UiState {
            interaction_mode: InteractionMode::Reading,
            quit_armed: false,
            refresh_armed: false,
            focused_link_index: None,
            visited_urls: Vec::new(),
            hint_index: 0,
            last_hint_advance: now,
            transient_message: None,
            transient_set_at: None,
            command_editor: TextEditor::new(),
            palette_matches: Vec::new(),
            palette_selected_index: 0,
            address_suggestions: Vec::new(),
            suggestion_selected: None,
            citation_preview: None,
            history_entries: Vec::new(),
            history_selected_index: 0,
            cookie_lines: Vec::new(),
            cookie_selected_index: 0,
            settings_model: None,
            settings_focus_index: 0,
            settings_text_edit: None,
            settings_return_mode: InteractionMode::Reading,
            pending_fragment: None,
            anchor_returns: Vec::new(),
            search_enabled,
        };
        proof {
            assert(s@.visited =~= Set::<Seq<char>>::empty());
            assert(s@.suggestions =~= Seq::<Seq<char>>::empty());
            assert(s@.cookies =~= Seq::<Seq<char>>::empty());
        }
        s
    }

    pub fn interaction_mode(&self) -> (r: InteractionMode)
        ensures
            r == self@.mode,
    {
        self.interaction_mode
    }

    pub fn quit_armed(&self) -> (r: bool)
        ensures
            r == self@.quit_armed,
    {
        self.quit_armed
    }

    pub fn refresh_armed(&self) -> (r: bool)
        ensures
            r == self@.refresh_armed,
    {
        self.refresh_armed
    }

    /// Sets both two-press confirmation flags after a key action.
    pub fn set_arm_flags(&mut self, quit_armed: bool, refresh_armed: bool)
        requires
            old(self).wf(),
        ensures
            final(self).wf(),
            final(self)@ == (UiView { quit_armed, refresh_armed, ..old(self)@ }),
    {
        self.quit_armed = quit_armed;
        self.refresh_armed = refresh_armed;
    }

    pub fn focused_link_index(&self) -> (r: Option<usize>)
        ensures
            r == self@.focused_link,
    {
        self.focused_link_index
    }

    /// Remembers the fragment to position the viewport on once the page being loaded
    /// finishes rendering.
    pub fn set_pending_fragment(&mut self, fragment: Option<String>)
        requires
            old(self).wf(),
        ensures
            final(self).wf(),
            final(self)@ == (UiView { pending_fragment: opt_view(fragment), ..old(self)@ }),
    {
        self.pending_fragment = fragment;
    }

    /// Whether a fragment is waiting to be applied after the current load completes.
    pub fn has_pending_fragment(&self) -> (r: bool)
        ensures
            r == self@.pending_fragment is Some,
    {
        self.pending_fragment.is_some()
    }

    /// Takes the fragment waiting to be applied, leaving none behind.
    pub fn take_pending_fragment(&mut self) -> (r: Option<String>)
        requires
            old(self).wf(),
        ensures
            final(self).wf(),
            opt_view(r) == old(self)@.pending_fragment,
            final(self)@ == (UiView { pending_fragment: None, ..old(self)@ }),
    {
        self.pending_fragment.take()
    }

    /// Remembers the scroll offset an in-page anchor jump left, so going back returns to it.
    pub fn push_anchor_return(&mut self, offset: u16)
        requires
            old(self).wf(),
        ensures
            final(self).wf(),
            final(self)@ == (UiView { anchor_returns: old(self)@.anchor_returns.push(offset), ..old(self)@ }),
    {
        self.anchor_returns.push(offset);
    }

    /// Takes the offset the most recent outstanding anchor jump left, if any.
    pub fn pop_anchor_return(&mut self) -> (r: Option<u16>)
        requires
            old(self).wf(),
        ensures
            final(self).wf(),
            old(self)@.anchor_returns.len() == 0 ==> r is None && final(self)@ == old(self)@,
            old(self)@.anchor_returns.len() > 0 ==> r == Some(old(self)@.anchor_returns.last())
                && final(self)@ == (UiView {
                anchor_returns: old(self)@.anchor_returns.drop_last(),
                ..old(self)@
            }),
    {
        self.anchor_returns.pop()
    }

    /// Whether an anchor jump on the current page is waiting to be undone.
    pub fn has_anchor_return(&self) -> (r: bool)
        ensures
            r == (self@.anchor_returns.len() > 0),
    {
        self.anchor_returns.len() > 0
    }

    /// Forgets every outstanding anchor jump, as leaving the page does.
    pub fn clear_anchor_returns(&mut self)
        requires
            old(self).wf(),
        ensures
            final(self).wf(),
            final(self)@ == (UiView { anchor_returns: Seq::empty(), ..old(self)@ }),
    {
        self.anchor_returns.clear();
    }

    pub fn is_in_command_mode(&self) -> (r: bool)
        ensures
            r == (self@.mode == InteractionMode::Command),
    {
        self.interaction_mode == InteractionMode::Command
    }

    pub fn is_in_link_navigation(&self) -> (r: bool)
        ensures
            r == (self@.mode == InteractionMode::LinkNavigation),
    {
        self.interaction_mode == InteractionMode::LinkNavigation
    }

    pub fn is_in_history_mode(&self) -> (r: bool)
        ensures
            r == (self@.mode == InteractionMode::History),
    {
        self.interaction_mode == InteractionMode::History
    }

    pub fn is_in_cookies_mode(&self) -> (r: bool)
        ensures
            r == (self@.mode == InteractionMode::Cookies),
    {
        self.interaction_mode == InteractionMode::Cookies
    }

    pub fn is_in_settings_mode(&self) -> (r: bool)
        ensures
            r == (self@.mode == InteractionMode::Settings),
    {
        self.interaction_mode == InteractionMode::Settings
    }

    /// Replaces the address-bar suggestions, resetting the selection so nothing is highlighted
    /// until the user moves into the list. An empty list clears the popup.
    pub fn set_address_suggestions(&mut self, suggestions: Vec<String>)
        requires
            old(self).wf(),
        ensures
            final(self).wf(),
            final(self)@ == (UiView {
                suggestions: suggestions@.map_values(|u: String| u@),
                suggestion: None,
                ..old(self)@
            }),
    {
        self.address_suggestions = suggestions;
        self.suggestion_selected = None;
    }

    /// Clears the address-bar suggestions and their selection.
    pub fn clear_address_suggestions(&mut self)
        requires
            old(self).wf(),
        ensures
            final(self).wf(),
            clear_address_suggestions_post(old(self)@, final(self)@),
    {
        self.address_suggestions.clear();
        self.suggestion_selected = None;
        proof {
            assert(self@.suggestions =~= Seq::<Seq<char>>::empty());
        }
    }

    /// The current address-bar suggestions, most relevant first.
    pub fn address_suggestions(&self) -> (r: &[String])
        ensures
            r@.map_values(|u: String| u@) == self@.suggestions,
    {
        self.address_suggestions.as_slice()
    }

    /// Whether any address-bar suggestion is currently offered.
    pub fn has_address_suggestions(&self) -> (r: bool)
        ensures
            r == (self@.suggestions.len() > 0),
    {
        self.address_suggestions.len() > 0
    }

    /// Shows the citation preview popup with the given `cite` URL.
    pub fn set_citation_preview(&mut self, url: String)
        requires
            old(self).wf(),
        ensures
            final(self).wf(),
            final(self)@ == (UiView { citation: Some(url@), ..old(self)@ }),
    {
        self.citation_preview = Some(url);
    }

    /// Dismisses the citation preview popup.
    pub fn clear_citation_preview(&mut self)
        requires
            old(self).wf(),
        ensures
            final(self).wf(),
            final(self)@ == (UiView { citation: None, ..old(self)@ }),
    {
        self.citation_preview = None;
    }

    /// The URL shown in the citation preview popup, or `None` when it is not shown.
    pub fn citation_preview(&self) -> (r: Option<&str>)
        ensures
            match r {
                Some(u) => self@.citation == Some(u@),
                None => self@.citation is None,
            },
    {
        match &self.citation_preview {
            Some(url) => Some(url.as_str()),
            None => None,
        }
    }

    /// Whether the citation preview popup should currently draw: a URL is set, and no
    /// higher-precedence overlay (address suggestions, history, cookies, settings, or command
    /// mode) is active.
    pub fn citation_preview_visible(&self) -> (r: bool)
        ensures
            r == (self@.citation is Some && self@.suggestions.len() == 0 && (self@.mode
                == InteractionMode::Reading || self@.mode == InteractionMode::LinkNavigation)),
    {
        self.citation_preview.is_some() && !self.has_address_suggestions()
            && !self.is_in_command_mode() && !self.is_in_history_mode()
            && !self.is_in_cookies_mode() && !self.is_in_settings_mode()
    }

    /// The index of the highlighted suggestion, or `None` when none is highlighted and Enter
    /// would submit the typed text instead.
    pub fn selected_suggestion(&self) -> (r: Option<usize>)
        ensures
            r == self@.suggestion,
    {
        self.suggestion_selected
    }

    /// Moves the suggestion highlight to the next row, entering the list at the first row
    /// when none is highlighted and wrapping from the last back to the first.
    pub fn suggestion_select_next(&mut self)
        requires
            old(self).wf(),
        ensures
            final(self).wf(),
            suggestion_select_next_post(old(self)@, final(self)@),
    {
        let len = self.address_suggestions.len();
        if len == 0 {
            return;
        }
        self.suggestion_selected = Some(
            match self.suggestion_selected {
                Some(current) => step_next(current, len),
                None => 0,
            },
        );
    }

    /// Moves the suggestion highlight to the previous row, entering the list at the last row
    /// when none is highlighted and wrapping from the first back to the last.
    pub fn suggestion_select_prev(&mut self)
        requires
            old(self).wf(),
        ensures
            final(self).wf(),
            suggestion_select_prev_post(old(self)@, final(self)@),
    {
        let len = self.address_suggestions.len();
        if len == 0 {
            return;
        }
        let last = len - 1;
        self.suggestion_selected = Some(
            match self.suggestion_selected {
                Some(current) => step_prev(current, len),
                None => last,
            },
        );
    }

    /// Takes the highlighted suggestion URL, leaving command mode and clearing the buffer,
    /// palette, and suggestions. Returns `None` when no suggestion is highlighted, so the
    /// caller falls back to submitting the typed buffer.
    pub fn take_selected_suggestion(&mut self) -> (r: Option<String>)
        requires
            old(self).wf(),
        ensures
            final(self).wf(),
            match old(self)@.suggestion {
                Some(i) => r matches Some(url) && url@ == old(self)@.suggestions[i as int]
                    && final(self)@ == (UiView {
                        command: Seq::empty(),
                        cursor: 0,
                        mode: InteractionMode::Reading,
                        palette: Seq::empty(),
                        palette_index: 0,
                        suggestions: Seq::empty(),
                        suggestion: None,
                        ..old(self)@
                    }),
                None => r is None && final(self)@ == old(self)@,
            },
    {
        let index = match self.suggestion_selected {
            Some(i) => i,
            None => return None,
        };
        let url = self.address_suggestions[index].clone();
        self.command_editor.clear();
        self.interaction_mode = InteractionMode::Reading;
        self.clear_palette();
        self.clear_address_suggestions();
        Some(url)
    }

    /// Opens the history list on `entries`, selecting the first row.
    pub fn enter_history_mode(&mut self, entries: Vec<HistoryEntry>)
        requires
            old(self).wf(),
        ensures
            final(self).wf(),
            final(self)@ == (UiView {
                mode: InteractionMode::History,
                history: entries@,
                history_index: 0,
                ..old(self)@
            }),
    {
        self.interaction_mode = InteractionMode::History;
        self.history_entries = entries;
        self.history_selected_index = 0;
    }

    /// Closes the history list and returns to reading mode.
    pub fn exit_history_mode(&mut self)
        requires
            old(self).wf(),
        ensures
            final(self).wf(),
            exit_history_mode_post(old(self)@, final(self)@),
    {
        self.interaction_mode = InteractionMode::Reading;
        self.history_entries.clear();
        self.history_selected_index = 0;
    }

    /// The entries shown in the open history list.
    pub fn history_entries(&self) -> (r: &[HistoryEntry])
        ensures
            r@ == self@.history,
    {
        self.history_entries.as_slice()
    }

    /// The index of the highlighted history row.
    pub fn history_selected(&self) -> (r: usize)
        ensures
            r == self@.history_index,
    {
        self.history_selected_index
    }

    /// The highlighted history entry, or `None` when the list is empty.
    pub fn selected_history_entry(&self) -> (r: Option<&HistoryEntry>)
        requires
            self.wf(),
        ensures
            match r {
                Some(e) => self@.history.len() > 0 && *e == self@.history[self@.history_index as int],
                None => self@.history.len() == 0,
            },
    {
        if self.history_selected_index < self.history_entries.len() {
            Some(&self.history_entries[self.history_selected_index])
        } else {
            None
        }
    }

    /// Moves the history highlight to the next row, wrapping at the end.
    pub fn history_select_next(&mut self)
        requires
            old(self).wf(),
        ensures
            final(self).wf(),
            history_select_next_post(old(self)@, final(self)@),
    {
        let len = self.history_entries.len();
        if len == 0 {
            return;
        }
        self.history_selected_index = step_next(self.history_selected_index, len);
    }

    /// Moves the history highlight to the previous row, wrapping at the start.
    pub fn history_select_prev(&mut self)
        requires
            old(self).wf(),
        ensures
            final(self).wf(),
            history_select_prev_post(old(self)@, final(self)@),
    {
        let len = self.history_entries.len();
        if len == 0 {
            return;
        }
        self.history_selected_index = step_prev(self.history_selected_index, len);
    }

    /// Removes the highlighted history entry from the list and clamps the selection to a
    /// remaining row, closing the list once it empties.
    pub fn remove_selected_history_entry(&mut self)
        requires
            old(self).wf(),
        ensures
            final(self).wf(),
            remove_selected_history_post(old(self)@, final(self)@),
    {
        if self.history_selected_index >= self.history_entries.len() {
            return;
        }
        self.history_entries.remove(self.history_selected_index);
        if self.history_entries.len() == 0 {
            self.exit_history_mode();
            return;
        }
        let last = self.history_entries.len() - 1;
        if self.history_selected_index > last {
            self.history_selected_index = last;
        }
    }

    /// Opens the cookie inspection popup on `lines`, selecting the first row. The lines are
    /// already sanitized and composed by the caller; this only holds them for display.
    pub fn enter_cookies_mode(&mut self, lines: Vec<String>)
        requires
            old(self).wf(),
        ensures
            final(self).wf(),
            final(self)@ == (UiView {
                mode: InteractionMode::Cookies,
                cookies: lines@.map_values(|u: String| u@),
                cookie_index: 0,
                ..old(self)@
            }),
    {
        self.interaction_mode = InteractionMode::Cookies;
        self.cookie_lines = lines;
        self.cookie_selected_index = 0;
    }

    /// Closes the cookie inspection popup and returns to reading mode.
    pub fn exit_cookies_mode(&mut self)
        requires
            old(self).wf(),
        ensures
            final(self).wf(),
            exit_cookies_mode_post(old(self)@, final(self)@),
    {
        self.interaction_mode = InteractionMode::Reading;
        self.cookie_lines.clear();
        self.cookie_selected_index = 0;
        proof {
            assert(self@.cookies =~= Seq::<Seq<char>>::empty());
        }
    }

    /// The lines shown in the open cookie inspection popup.
    pub fn cookie_lines(&self) -> (r: &[String])
        ensures
            r@.map_values(|u: String| u@) == self@.cookies,
    {
        self.cookie_lines.as_slice()
    }

    /// The index of the highlighted cookie row, so the popup can keep it in view.
    pub fn cookie_selected(&self) -> (r: usize)
        ensures
            r == self@.cookie_index,
    {
        self.cookie_selected_index
    }

    /// Moves the cookie highlight to the next row, wrapping at the end.
    pub fn cookie_select_next(&mut self)
        requires
            old(self).wf(),
        ensures
            final(self).wf(),
            cookie_select_next_post(old(self)@, final(self)@),
    {
        let len = self.cookie_lines.len();
        if len == 0 {
            return;
        }
        self.cookie_selected_index = step_next(self.cookie_selected_index, len);
    }

    /// Moves the cookie highlight to the previous row, wrapping at the start.
    pub fn cookie_select_prev(&mut self)
        requires
            old(self).wf(),
        ensures
            final(self).wf(),
            cookie_select_prev_post(old(self)@, final(self)@),
    {
        let len = self.cookie_lines.len();
        if len == 0 {
            return;
        }
        self.cookie_selected_index = step_prev(self.cookie_selected_index, len);
    }

    /// Enters link navigation mode and focuses the link at `index`.
    pub fn enter_link_navigation(&mut self, index: usize)
        requires
            old(self).wf(),
        ensures
            final(self).wf(),
            final(self)@ == (UiView {
                mode: InteractionMode::LinkNavigation,
                focused_link: Some(index),
                ..old(self)@
            }),
    {
        self.interaction_mode = InteractionMode::LinkNavigation;
        self.focused_link_index = Some(index);
    }

    /// Exits link navigation mode and clears the focused link and citation preview.
    pub fn exit_link_navigation(&mut self)
        requires
            old(self).wf(),
        ensures
            final(self).wf(),
            final(self)@ == (UiView {
                mode: InteractionMode::Reading,
                focused_link: None,
                citation: None,
                ..old(self)@
            }),
    {
        self.interaction_mode = InteractionMode::Reading;
        self.focused_link_index = None;
        self.clear_citation_preview();
    }

    /// Advances focus to the next link, wrapping at the end.
    pub fn focus_next_link(&mut self, link_count: usize)
        requires
            old(self).wf(),
            old(self)@.focused_link != Some(usize::MAX),
        ensures
            final(self).wf(),
            link_count == 0 ==> final(self)@ == old(self)@,
            link_count > 0 ==> final(self)@ == (UiView {
                focused_link: Some(
                    match old(self)@.focused_link {
                        Some(i) => wrap_next(i as int, link_count as int),
                        None => 0,
                    } as usize,
                ),
                ..old(self)@
            }),
    {
        if link_count == 0 {
            return;
        }
        self.focused_link_index = Some(
            match self.focused_link_index {
                Some(current) => (current + 1) % link_count,
                None => 0,
            },
        );
    }

    /// Moves focus to the previous link, wrapping at the start.
    pub fn focus_previous_link(&mut self, link_count: usize)
        requires
            old(self).wf(),
        ensures
            final(self).wf(),
            link_count == 0 ==> final(self)@ == old(self)@,
            link_count > 0 ==> final(self)@ == (UiView {
                focused_link: Some(
                    match old(self)@.focused_link {
                        Some(i) => wrap_prev(i as int, link_count as int),
                        None => link_count - 1,
                    } as usize,
                ),
                ..old(self)@
            }),
    {
        if link_count == 0 {
            return;
        }
        self.focused_link_index = Some(
            match self.focused_link_index {
                Some(current) => step_prev(current, link_count),
                None => link_count - 1,
            },
        );
    }

    /// Records `url` as visited for this session.
    pub fn mark_visited(&mut self, url: &str)
        requires
            old(self).wf(),
        ensures
            final(self).wf(),
            final(self)@ == (UiView { visited: old(self)@.visited.insert(url@), ..old(self)@ }),
    {
        let ghost before = self.visited_urls@;
        self.visited_urls.push(owned(url));
        proof {
            assert(self.visited_urls@.map_values(|u: String| u@) =~= before.map_values(
                |u: String| u@,
            ).push(url@));
            before.map_values(|u: String| u@).lemma_push_to_set_commute(url@);
            assert(self@.visited =~= old(self)@.visited.insert(url@));
        }
    }

    /// Returns `true` when `url` has been visited this session.
    pub fn is_visited(&self, url: &str) -> (r: bool)
        ensures
            r == self@.visited.contains(url@),
    {
        let ghost urls = self.visited_urls@.map_values(|u: String| u@);
        let mut i: usize = 0;
        while i < self.visited_urls.len()
            invariant
                i <= self.visited_urls@.len(),
                urls == self.visited_urls@.map_values(|u: String| u@),
                forall|k: int| 0 <= k < i ==> urls[k] != url@,
            decreases self.visited_urls@.len() - i,
        {
            if crate::text::str_equals(self.visited_urls[i].as_str(), url) {
                proof {
                    assert(urls[i as int] == url@);
                    assert(urls.contains(url@));
                }
                return true;
            }
            i = i + 1;
        }
        proof {
            if urls.to_set().contains(url@) {
                let k = choose|k: int| 0 <= k < urls.len() && urls[k] == url@;
                assert(urls[k] == url@);
            }
        }
        false
    }

    /// The hint the command bar shows: the transient message when one is up, otherwise the
    /// current reading hint.
    pub fn current_hint(&self) -> (r: String)
        requires
            self.wf(),
        ensures
            r@ == match self@.transient {
                Some(m) => m,
                None => reading_hint(self@.hint_index as int),
            },
    {
        match &self.transient_message {
            Some(message) => owned(message.as_str()),
            None => owned(reading_hint_text(self.hint_index)),
        }
    }

    /// The active transient message, if one is set and unexpired.
    pub fn transient_message(&self) -> (r: Option<&str>)
        ensures
            match r {
                Some(m) => self@.transient == Some(m@),
                None => self@.transient is None,
            },
    {
        match &self.transient_message {
            Some(message) => Some(message.as_str()),
            None => None,
        }
    }

    /// Rotates to the next reading hint once the rotation interval has passed since the last
    /// rotation.
    pub fn advance_hint_if_due(&mut self, now: u64)
        requires
            old(self).wf(),
        ensures
            final(self).wf(),
            elapsed_at_least(now, old(self)@.last_hint_advance, HINT_ROTATION_INTERVAL_MS)
                ==> final(self)@ == (UiView {
                hint_index: ((old(self)@.hint_index + 1) % (READING_HINT_COUNT as nat)) as nat,
                last_hint_advance: now,
                ..old(self)@
            }),
            !elapsed_at_least(now, old(self)@.last_hint_advance, HINT_ROTATION_INTERVAL_MS)
                ==> final(self)@ == old(self)@,
    {
        if now.saturating_sub(self.last_hint_advance) >= HINT_ROTATION_INTERVAL_MS {
            self.hint_index = (self.hint_index + 1) % READING_HINT_COUNT;
            self.last_hint_advance = now;
        }
    }

    /// Clears the transient message, and both arm flags with it, once it has been up for the
    /// transient duration.
    pub fn clear_transient_if_expired(&mut self, now: u64)
        requires
            old(self).wf(),
        ensures
            final(self).wf(),
            match old(self)@.transient_set_at {
                Some(set_at) => if elapsed_at_least(now, set_at, TRANSIENT_HINT_DURATION_MS) {
                    final(self)@ == (UiView {
                        quit_armed: false,
                        refresh_armed: false,
                        transient: None,
                        transient_set_at: None,
                        ..old(self)@
                    })
                } else {
                    final(self)@ == old(self)@
                },
                None => final(self)@ == old(self)@,
            },
    {
        let set_at = match self.transient_set_at {
            Some(set_at) => set_at,
            None => return,
        };
        if now.saturating_sub(set_at) >= TRANSIENT_HINT_DURATION_MS {
            self.quit_armed = false;
            self.refresh_armed = false;
            self.transient_message = None;
            self.transient_set_at = None;
        }
    }

    /// Shows a fixed hint with the transient expiry.
    pub fn set_transient_hint(&mut self, hint: &str, now: u64)
        requires
            old(self).wf(),
        ensures
            final(self).wf(),
            final(self)@ == (UiView {
                transient: Some(hint@),
                transient_set_at: Some(now),
                ..old(self)@
            }),
    {
        self.transient_message = Some(owned(hint));
        self.transient_set_at = Some(now);
    }

    /// Sets an owned transient message with the same expiry as the arm hints, used for
    /// runtime confirmations like the copy-count message.
    pub fn set_transient_message(&mut self, message: String, now: u64)
        requires
            old(self).wf(),
        ensures
            final(self).wf(),
            final(self)@ == (UiView {
                transient: Some(message@),
                transient_set_at: Some(now),
                ..old(self)@
            }),
    {
        self.transient_message = Some(message);
        self.transient_set_at = Some(now);
    }

    pub fn clear_transient(&mut self)
        requires
            old(self).wf(),
        ensures
            final(self).wf(),
            final(self)@ == (UiView { transient: None, transient_set_at: None, ..old(self)@ }),
    {
        self.transient_message = None;
        self.transient_set_at = None;
    }

    fn clear_palette(&mut self)
        requires
            old(self).wf_core(),
            !(old(self)@.command.len() > 0 && old(self)@.command[0] == '/'),
        ensures
            final(self).wf(),
            final(self)@ == (UiView { palette: Seq::empty(), palette_index: 0, ..old(self)@ }),
    {
        self.palette_matches.clear();
        self.palette_selected_index = 0;
    }
}


impl UiState {
    /// Recomputes the filtered command list from the command token and resets the selection
    /// to the first row. Using the token, not the whole buffer, keeps the palette focused on
    /// the command while the user types its argument.
    fn refresh_palette(&mut self)
        requires
            old(self).wf_core(),
        ensures
            final(self).wf(),
            final(self).command_editor == old(self).command_editor,
            palette_follows(final(self).command_editor.text(), final(self).palette_matches@, final(self).search_enabled),
            final(self).palette_selected_index == 0,
            final(self)@ == (UiView {
                palette: final(self)@.palette,
                palette_index: 0,
                ..old(self)@
            }),
    {
        if !self.command_editor.starts_with_char('/') {
            self.palette_matches.clear();
            self.palette_selected_index = 0;
            return;
        }
        let buffer = self.command_editor.buffer();
        let (token, _remainder) = command::parse_command_input(buffer.as_str());
        let found = command::filter(token);
        let enabled = self.search_enabled;
        let ghost all = filter_spec(command_parts(buffer@).0);
        let mut kept: Vec<CommandMatch> = Vec::new();
        let mut i: usize = 0;
        while i < found.len()
            invariant
                i <= found@.len(),
                found@.len() == all.len(),
                forall|k: int|
                    0 <= k < found@.len() ==> describes(#[trigger] found@[k].spec, all[k].0)
                        && found@[k].rank == all[k].1,
                kept@.len() == offered_entries(all.take(i as int), enabled).len(),
                forall|k: int|
                    0 <= k < kept@.len() ==> describes(
                        #[trigger] kept@[k].spec,
                        offered_entries(all.take(i as int), enabled)[k].0,
                    ) && kept@[k].rank == offered_entries(all.take(i as int), enabled)[k].1,
            decreases found@.len() - i,
        {
            let candidate = found[i];
            proof {
                assert(all.take(i + 1).drop_last() =~= all.take(i as int));
                assert(all.take(i + 1).last() == all[i as int]);
                assert(candidate.spec.kind == all[i as int].0);
            }
            if enabled || candidate.spec.kind != CommandKind::Search {
                kept.push(candidate);
            }
            i = i + 1;
        }
        proof {
            assert(all.take(found@.len() as int) =~= all);
        }
        self.palette_matches = kept;
        self.palette_selected_index = 0;
    }

    /// Opens the command bar seeded with `first_char` and refreshes the palette.
    pub fn enter_command_mode(&mut self, first_char: char)
        requires
            old(self).wf(),
        ensures
            final(self).wf(),
            enter_command_mode_post(old(self)@, final(self)@, first_char),
    {
        self.interaction_mode = InteractionMode::Command;
        self.command_editor.clear();
        self.command_editor.insert_char(first_char);
        proof {
            assert(self.command_editor.text() =~= seq![first_char]);
        }
        self.refresh_palette();
    }

    /// The command bar text.
    pub fn command_buffer(&self) -> (r: String)
        ensures
            r@ == self@.command,
    {
        self.command_editor.buffer()
    }

    /// The UTF-8 byte offset of the command bar cursor.
    pub fn cursor_byte_offset(&self) -> (r: usize)
        requires
            self.wf(),
        ensures
            self@.cursor <= self@.command.len(),
            r == utf8_len(self@.command.take(self@.cursor as int)),
    {
        self.command_editor.cursor_byte_offset()
    }

    /// Inserts `ch` at the command bar cursor and refreshes the palette.
    pub fn command_append_char(&mut self, ch: char)
        requires
            old(self).wf(),
            old(self)@.command.len() < editor_capacity(),
        ensures
            final(self).wf(),
            command_append_char_post(old(self)@, final(self)@, ch),
    {
        self.command_editor.insert_char(ch);
        self.refresh_palette();
    }

    /// Moves the command bar cursor one character left.
    pub fn command_move_left(&mut self)
        requires
            old(self).wf(),
        ensures
            final(self).wf(),
            command_move_left_post(old(self)@, final(self)@),
    {
        self.command_editor.move_left();
    }

    /// Moves the command bar cursor one character right.
    pub fn command_move_right(&mut self)
        requires
            old(self).wf(),
        ensures
            final(self).wf(),
            command_move_right_post(old(self)@, final(self)@),
    {
        self.command_editor.move_right();
    }

    /// Deletes the character before the command bar cursor and refreshes the palette.
    pub fn command_delete_before_cursor(&mut self)
        requires
            old(self).wf(),
        ensures
            final(self).wf(),
            palette_follows(final(self)@.command, final(self)@.palette, final(self)@.search_enabled),
            final(self)@ == (UiView {
                command: if old(self)@.cursor == 0 {
                    old(self)@.command
                } else {
                    old(self)@.command.remove(old(self)@.cursor - 1)
                },
                cursor: if old(self)@.cursor == 0 {
                    0
                } else {
                    (old(self)@.cursor - 1) as nat
                },
                palette: final(self)@.palette,
                palette_index: 0,
                ..old(self)@
            }),
    {
        self.command_editor.delete_before_cursor();
        self.refresh_palette();
    }

    /// Leaves command mode, clearing the buffer, the palette, and the suggestions.
    pub fn cancel_command_mode(&mut self)
        requires
            old(self).wf(),
        ensures
            final(self).wf(),
            cancel_command_mode_post(old(self)@, final(self)@),
    {
        self.interaction_mode = InteractionMode::Reading;
        self.command_editor.clear();
        self.clear_palette();
        self.clear_address_suggestions();
    }

    /// True when the next backspace would remove the leading `/`: the buffer is a slash
    /// buffer and the cursor sits just after that `/`.
    pub fn deletes_leading_slash(&self) -> (r: bool)
        requires
            self.wf(),
        ensures
            r == (self@.command.len() > 0 && self@.command[0] == '/' && utf8_len(
                self@.command.take(self@.cursor as int),
            ) == 1),
    {
        self.is_palette_active() && self.command_editor.cursor_byte_offset() == 1
    }

    /// Handles a backspace in command mode. Deleting the leading `/` exits command mode
    /// entirely, the same as cancelling; any other backspace deletes the character before
    /// the cursor and refreshes the palette.
    pub fn command_delete_or_exit(&mut self)
        requires
            old(self).wf(),
        ensures
            final(self).wf(),
            command_delete_or_exit_post(old(self)@, final(self)@),
    {
        if self.deletes_leading_slash() {
            self.cancel_command_mode();
            return;
        }
        self.command_delete_before_cursor();
    }

    /// True when the command buffer begins with `/`, meaning the slash-command palette is
    /// filtering rather than the bar accepting a URL.
    pub fn is_palette_active(&self) -> (r: bool)
        ensures
            r == (self@.command.len() > 0 && self@.command[0] == '/'),
    {
        self.command_editor.starts_with_char('/')
    }

    /// The ranked command matches shown in the palette for the current buffer.
    pub fn palette_matches(&self) -> (r: &[CommandMatch])
        ensures
            r@ == self@.palette,
    {
        self.palette_matches.as_slice()
    }

    /// Index of the highlighted palette row within `palette_matches`.
    pub fn palette_selected(&self) -> (r: usize)
        ensures
            r == self@.palette_index,
    {
        self.palette_selected_index
    }

    /// Moves the palette highlight to the next row, wrapping from the last back to the
    /// first. A no-op when nothing matches.
    pub fn palette_select_next(&mut self)
        requires
            old(self).wf(),
        ensures
            final(self).wf(),
            palette_select_next_post(old(self)@, final(self)@),
    {
        let len = self.palette_matches.len();
        if len == 0 {
            return;
        }
        self.palette_selected_index = step_next(self.palette_selected_index, len);
    }

    /// Moves the palette highlight to the previous row, wrapping from the first back to the
    /// last. A no-op when nothing matches.
    pub fn palette_select_prev(&mut self)
        requires
            old(self).wf(),
        ensures
            final(self).wf(),
            palette_select_prev_post(old(self)@, final(self)@),
    {
        let len = self.palette_matches.len();
        if len == 0 {
            return;
        }
        self.palette_selected_index = step_prev(self.palette_selected_index, len);
    }

    /// Completes the buffer to the highlighted command: `/` plus its canonical name, cursor at
    /// the end, and a trailing space when the command takes an argument. A no-op when nothing
    /// matches.
    pub fn palette_complete(&mut self)
        requires
            old(self).wf(),
        ensures
            final(self).wf(),
            palette_complete_post(old(self)@, final(self)@),
    {
        if self.palette_selected_index >= self.palette_matches.len() {
            return;
        }
        let selected = self.palette_matches[self.palette_selected_index];
        let ghost buffer = self.command_editor.text();
        proof {
            let i = self.palette_selected_index as int;
            if palette_follows(buffer, self.palette_matches@, true) {
                lemma_palette_entries_registered(buffer, self.palette_matches@, true);
            } else {
                lemma_palette_entries_registered(buffer, self.palette_matches@, false);
            }
            command::lemma_registered_names_are_short(self.palette_matches@[i].spec.kind);
            reveal_strlit("/");
            reveal_strlit(" ");
        }
        let mut completed = owned("/");
        push_str(&mut completed, selected.spec.name);
        if selected.spec.args.len() > 0 {
            push_str(&mut completed, " ");
        }
        proof {
            let chosen = selected.spec;
            if chosen.args@.len() > 0 {
                assert(completed@ =~= seq!['/'] + chosen.name@ + seq![' ']);
            } else {
                assert(completed@ =~= seq!['/'] + chosen.name@);
            }
        }
        self.command_editor.set_buffer(completed.as_str());
        self.refresh_palette();
    }

    /// The buffer to dispatch on Enter, resolving the palette selection.
    pub fn resolved_submit_buffer(&self) -> (r: String)
        requires
            self.wf(),
        ensures
            r@ == submit_text(self@),
    {
        let buffer = self.command_editor.buffer();
        if !self.is_palette_active() {
            return buffer;
        }
        let (token, remainder) = command::parse_command_input(buffer.as_str());
        if command::resolve(token).is_some() {
            return owned(buffer.as_str());
        }
        if self.palette_selected_index >= self.palette_matches.len() {
            return owned(buffer.as_str());
        }
        let selected = self.palette_matches[self.palette_selected_index];
        let mut resolved = owned("/");
        push_str(&mut resolved, selected.spec.name);
        proof {
            reveal_strlit("/");
            reveal_strlit(" ");
        }
        if remainder.is_empty() {
            return resolved;
        }
        push_str(&mut resolved, " ");
        push_str(&mut resolved, remainder);
        resolved
    }

    /// Hands back the buffer to dispatch on Enter (see `resolved_submit_buffer`), leaving
    /// command mode and clearing the buffer, palette, and suggestions.
    pub fn take_submit_buffer(&mut self) -> (r: String)
        requires
            old(self).wf(),
        ensures
            final(self).wf(),
            r@ == submit_text(old(self)@),
            final(self)@ == (UiView {
                mode: InteractionMode::Reading,
                command: Seq::empty(),
                cursor: 0,
                palette: Seq::empty(),
                palette_index: 0,
                suggestions: Seq::empty(),
                suggestion: None,
                ..old(self)@
            }),
    {
        let resolved = self.resolved_submit_buffer();
        self.command_editor.clear();
        self.interaction_mode = InteractionMode::Reading;
        self.clear_palette();
        self.clear_address_suggestions();
        resolved
    }

    /// Updates the live search-enabled flag the palette filter reads.
    pub fn set_search_enabled(&mut self, search_enabled: bool)
        requires
            old(self).wf(),
        ensures
            final(self).wf(),
            final(self)@ == (UiView { search_enabled, ..old(self)@ }),
    {
        self.search_enabled = search_enabled;
    }
}


impl UiState {
    /// Opens the settings panel on `model`, focusing the first row and remembering the mode
    /// to return to.
    pub fn enter_settings_mode(&mut self, model: SettingsModel)
        requires
            old(self).wf(),
            settings_model_fits(model),
        ensures
            final(self).wf(),
            final(self)@ == (UiView {
                settings_return: old(self)@.mode,
                mode: InteractionMode::Settings,
                settings: Some(model),
                settings_focus: 0,
                ..old(self)@
            }),
    {
        self.settings_return_mode = self.interaction_mode;
        self.interaction_mode = InteractionMode::Settings;
        self.settings_model = Some(model);
        self.settings_focus_index = 0;
    }

    /// Closes the settings panel, dropping its model and any draft, and restoring the mode
    /// that was active when it opened.
    pub fn exit_settings_mode(&mut self)
        requires
            old(self).wf(),
        ensures
            final(self).wf(),
            exit_settings_mode_post(old(self)@, final(self)@),
    {
        self.interaction_mode = self.settings_return_mode;
        self.settings_model = None;
        self.settings_focus_index = 0;
        self.settings_text_edit = None;
    }

    /// The model shown in the open settings panel, or `None` when it is closed.
    pub fn settings_model(&self) -> (r: Option<&SettingsModel>)
        ensures
            match r {
                Some(m) => self@.settings == Some(*m),
                None => self@.settings is None,
            },
    {
        match &self.settings_model {
            Some(model) => Some(model),
            None => None,
        }
    }

    /// The index of the focused settings row within the flattened row list.
    pub fn settings_focus(&self) -> (r: usize)
        ensures
            r == self@.settings_focus,
    {
        self.settings_focus_index
    }

    /// The focused settings row, or `None` when the panel is closed or has no row there.
    pub fn focused_settings_row(&self) -> (r: Option<&SettingsRow>)
        ensures
            match r {
                Some(row) => self@.settings matches Some(m) && self@.settings_focus < m.flat_rows().len()
                    && *row == m.flat_rows()[self@.settings_focus as int],
                None => match self@.settings {
                    Some(m) => self@.settings_focus >= m.flat_rows().len(),
                    None => true,
                },
            },
    {
        match &self.settings_model {
            Some(model) => model.row_at(self.settings_focus_index),
            None => None,
        }
    }

    /// The number of focusable rows in the open panel, or zero when it is closed.
    pub fn settings_row_count(&self) -> (r: usize)
        requires
            self.wf(),
        ensures
            r == match self@.settings {
                Some(m) => m.flat_rows().len(),
                None => 0,
            },
    {
        match &self.settings_model {
            Some(model) => model.row_count(),
            None => 0,
        }
    }

    /// Moves the settings focus to the next row, wrapping at the end. A no-op when the panel
    /// is closed or has no rows.
    pub fn settings_focus_next(&mut self)
        requires
            old(self).wf(),
        ensures
            final(self).wf(),
            settings_focus_next_post(old(self)@, final(self)@),
    {
        let row_count = self.settings_row_count();
        if row_count == 0 {
            return;
        }
        self.settings_focus_index = step_next(self.settings_focus_index, row_count);
    }

    /// Moves the settings focus to the previous row, wrapping at the start. A no-op when the
    /// panel is closed or has no rows.
    pub fn settings_focus_prev(&mut self)
        requires
            old(self).wf(),
        ensures
            final(self).wf(),
            settings_focus_prev_post(old(self)@, final(self)@),
    {
        let row_count = self.settings_row_count();
        if row_count == 0 {
            return;
        }
        self.settings_focus_index = step_prev(self.settings_focus_index, row_count);
    }
}


/// The row the settings focus sits on, or `None` when the panel is closed or the focus is past
/// its rows.
pub open spec fn focused_row(v: UiView) -> Option<SettingsRow> {
    match v.settings {
        Some(m) => if v.settings_focus < m.flat_rows().len() {
            Some(m.flat_rows()[v.settings_focus as int])
        } else {
            None
        },
        None => None,
    }
}

/// The id of the focused row when it is a text input.
pub open spec fn focused_text_id(v: UiView) -> Option<SettingId> {
    match focused_row(v) {
        Some(row) => if row.control is TextInput {
            Some(row.id)
        } else {
            None
        },
        None => None,
    }
}

/// The value the open panel shows for the text row `id`, empty when there is none.
pub open spec fn shown_text(v: UiView, id: SettingId) -> Seq<char> {
    match v.settings {
        Some(m) => match text_value_of(m.flat_rows(), id) {
            Some(t) => t,
            None => Seq::empty(),
        },
        None => Seq::empty(),
    }
}

/// A text value shown by a panel that fits the chrome state fits a text editor.
proof fn lemma_shown_text_fits(v: UiView, id: SettingId)
    requires
        v.settings matches Some(m) && settings_model_fits(m),
    ensures
        shown_text(v, id).len() <= editor_capacity(),
{
    let m = v.settings->0;
    lemma_first_row_with_bound(m.flat_rows(), id);
    if let Some(i) = first_row_with(m.flat_rows(), id) {
        assert(text_fits(m.flat_rows()[i]));
    }
}

/// Setting a text value that fits an editor keeps every text row fitting one.
proof fn lemma_with_text_value_fits(before: Seq<SettingsRow>, after: Seq<SettingsRow>, id: SettingId, value: Seq<char>)
    requires
        with_text_value(before, after, id, value),
        value.len() <= editor_capacity(),
        forall|i: int| 0 <= i < before.len() ==> text_fits(#[trigger] before[i]),
    ensures
        after.len() == before.len(),
        forall|i: int| 0 <= i < after.len() ==> text_fits(#[trigger] after[i]),
        forall|i: int| 0 <= i < after.len() ==> (#[trigger] after[i]).id == before[i].id,
{
    lemma_first_row_with_bound(before, id);
    if let Some(j) = first_row_with(before, id) {
        if before[j].control is TextInput {
            assert forall|i: int| 0 <= i < after.len() implies text_fits(#[trigger] after[i]) by {
                if i != j {
                    assert(text_fits(before[i]));
                }
            }
        }
    }
}

impl UiState {
    /// Flips the focused checkbox in the open panel and returns its identity and new state, or
    /// `None` when the panel is closed or the focused row is not a checkbox.
    pub fn toggle_focused_checkbox(&mut self) -> (r: Option<(SettingId, bool)>)
        requires
            old(self).wf(),
        ensures
            final(self).wf(),
            match r {
                Some((id, checked)) => {
                    let i = old(self)@.settings_focus as int;
                    &&& old(self)@.settings matches Some(m)
                    &&& focused_row(old(self)@) == Some(m.flat_rows()[i])
                    &&& m.flat_rows()[i].control == (SettingsControl::Checkbox { checked: !checked })
                    &&& id == m.flat_rows()[i].id
                    &&& final(self)@.settings matches Some(m2)
                    &&& m2.flat_rows() == m.flat_rows().update(
                        i,
                        SettingsRow { control: SettingsControl::Checkbox { checked }, ..m.flat_rows()[i] },
                    )
                    &&& final(self)@ == (UiView { settings: Some(m2), ..old(self)@ })
                },
                None => {
                    &&& final(self)@ == old(self)@
                    &&& focused_row(old(self)@) matches Some(row) ==> !(row.control is Checkbox)
                },
            },
    {
        let focus = self.settings_focus_index;
        let ghost before = self.settings_model;
        let r = match &mut self.settings_model {
            Some(model) => model.toggle_checkbox(focus),
            None => None,
        };
        proof {
            if self.settings_model is Some && r is Some {
                let m2 = self.settings_model->0;
                let m = before->0;
                {
                    assert forall|i: int| 0 <= i < m2.flat_rows().len() implies text_fits(#[trigger] m2.flat_rows()[i]) by {
                        if i != focus {
                            assert(m2.flat_rows()[i] == m.flat_rows()[i]);
                            assert(text_fits(m.flat_rows()[i]));
                        }
                    }
                }
            }
        }
        r
    }

    /// Moves the focused radio group's selection one option in `direction` and returns its
    /// identity and the newly selected policy, or `None` when the panel is closed or the
    /// focused row is not a radio group of the policy options.
    pub fn cycle_focused_radio(&mut self, direction: CycleDirection) -> (r: Option<(SettingId, CookiePolicy)>)
        requires
            old(self).wf(),
        ensures
            final(self).wf(),
            r is Some <==> (old(self)@.settings matches Some(m) && is_policy_radio(
                m.flat_rows(),
                old(self)@.settings_focus as int,
            )),
            match r {
                Some((id, policy)) => {
                    let i = old(self)@.settings_focus as int;
                    &&& old(self)@.settings matches Some(m)
                    &&& focused_row(old(self)@) == Some(m.flat_rows()[i])
                    &&& m.flat_rows()[i].control matches SettingsControl::Radio { options }
                        && options@.len() == 4
                        && policy == policy_at(cycled_position(first_selected(options@), 4, direction))
                    &&& id == m.flat_rows()[i].id
                    &&& final(self)@.settings matches Some(m2)
                    &&& m2.flat_rows().len() == m.flat_rows().len()
                    &&& forall|k: int| 0 <= k < m.flat_rows().len() && k != i
                        ==> m2.flat_rows()[k] == m.flat_rows()[k]
                    &&& m2.flat_rows()[i].id == id
                    &&& m2.flat_rows()[i].control matches SettingsControl::Radio { options }
                        && radio_options_for(options@, policy)
                    &&& final(self)@ == (UiView { settings: Some(m2), ..old(self)@ })
                },
                None => final(self)@ == old(self)@,
            },
    {
        let focus = self.settings_focus_index;
        let ghost before = self.settings_model;
        let r = match &mut self.settings_model {
            Some(model) => model.cycle_radio(focus, direction),
            None => None,
        };
        proof {
            if self.settings_model is Some && r is Some {
                let m2 = self.settings_model->0;
                let m = before->0;
                {
                    assert forall|i: int| 0 <= i < m2.flat_rows().len() implies text_fits(#[trigger] m2.flat_rows()[i]) by {
                        if i != focus {
                            assert(m2.flat_rows()[i] == m.flat_rows()[i]);
                            assert(text_fits(m.flat_rows()[i]));
                        }
                    }
                }
            }
        }
        r
    }

    /// The id of the focused row when it is a text input, or `None` for a checkbox, a radio,
    /// or a closed panel.
    pub fn focused_settings_text_id(&self) -> (r: Option<SettingId>)
        ensures
            r == focused_text_id(self@),
    {
        match self.focused_settings_row() {
            Some(row) => text_field_id(row),
            None => None,
        }
    }

    /// Whether the focused row is an editable text input.
    pub fn is_settings_text_field_focused(&self) -> (r: bool)
        ensures
            r == focused_text_id(self@) is Some,
    {
        self.focused_settings_text_id().is_some()
    }

    /// The id of the field being edited, or `None` when no text field has a draft.
    pub fn settings_text_edit_id(&self) -> (r: Option<SettingId>)
        ensures
            r == match self@.text_edit {
                Some(e) => Some(e.id),
                None => None,
            },
    {
        match &self.settings_text_edit {
            Some(edit) => Some(edit.id),
            None => None,
        }
    }

    /// Starts editing the text field `id`, seeding its draft from the value the panel shows
    /// so the cursor lands at the end of the existing text.
    pub fn begin_settings_text_edit(&mut self, id: SettingId, now: u64)
        requires
            old(self).wf(),
        ensures
            final(self).wf(),
            final(self)@ == (UiView {
                text_edit: Some(TextEditView {
                    id,
                    text: shown_text(old(self)@, id),
                    cursor: shown_text(old(self)@, id).len(),
                    dirty: false,
                    last_keystroke: now,
                    autosave_suppressed: false,
                    error: None,
                }),
                ..old(self)@
            }),
    {
        proof {
            if self.settings_model is Some {
                lemma_shown_text_fits(self@, id);
            }
        }
        let editor = match &self.settings_model {
            Some(model) => match model.text_value(id) {
                Some(value) => TextEditor::seeded(value),
                None => TextEditor::new(),
            },
            None => TextEditor::new(),
        };
        self.settings_text_edit = Some(
            SettingsTextEdit {
                id,
                editor,
                dirty: false,
                last_keystroke: now,
                autosave_suppressed: false,
                error: None,
            },
        );
    }

    /// Drops the active text edit without saving.
    pub fn clear_settings_text_edit(&mut self)
        requires
            old(self).wf(),
        ensures
            final(self).wf(),
            final(self)@ == (UiView { text_edit: None, ..old(self)@ }),
    {
        self.settings_text_edit = None;
    }
}


/// The text and cursor left after deleting the character before `cursor`, or unchanged at
/// the start of the text.
pub open spec fn delete_back(text: Seq<char>, cursor: nat) -> (Seq<char>, nat) {
    if cursor == 0 {
        (text, 0)
    } else {
        (text.remove(cursor - 1), (cursor - 1) as nat)
    }
}

/// Whether the draft `e` asks for a save at `now`: it is dirty, its idle window has passed,
/// and its last save was not rejected.
pub open spec fn save_due(e: TextEditView, now: u64) -> bool {
    !e.autosave_suppressed && e.dirty && elapsed_at_least(now, e.last_keystroke, SETTINGS_AUTOSAVE_DEBOUNCE_MS as u64)
}

impl UiState {
    /// Inserts `character` into the active draft at its cursor, marking it dirty, stamping the
    /// keystroke time that drives the debounce, and clearing any prior rejection. A no-op when
    /// no field is being edited.
    pub fn settings_text_input(&mut self, character: char, now: u64)
        requires
            old(self).wf(),
            old(self)@.text_edit matches Some(e) ==> e.text.len() < editor_capacity(),
        ensures
            final(self).wf(),
            settings_text_input_post(old(self)@, final(self)@, character, now),
    {
        match &mut self.settings_text_edit {
            Some(edit) => {
                edit.editor.insert_char(character);
                edit.dirty = true;
                edit.last_keystroke = now;
                edit.autosave_suppressed = false;
                edit.error = None;
            },
            None => {},
        }
    }

    /// Deletes the character before the cursor in the active draft, with the same dirty and
    /// debounce bookkeeping as an insertion. A no-op when no field is being edited.
    pub fn settings_text_delete_back(&mut self, now: u64)
        requires
            old(self).wf(),
        ensures
            final(self).wf(),
            settings_text_delete_back_post(old(self)@, final(self)@, now),
    {
        match &mut self.settings_text_edit {
            Some(edit) => {
                edit.editor.delete_before_cursor();
                edit.dirty = true;
                edit.last_keystroke = now;
                edit.autosave_suppressed = false;
                edit.error = None;
            },
            None => {},
        }
    }

    /// Moves the draft cursor one character left. Cursor moves touch neither dirtiness nor
    /// the debounce.
    pub fn settings_text_move_left(&mut self)
        requires
            old(self).wf(),
        ensures
            final(self).wf(),
            settings_text_move_left_post(old(self)@, final(self)@),
    {
        match &mut self.settings_text_edit {
            Some(edit) => {
                edit.editor.move_left();
            },
            None => {},
        }
    }

    /// Moves the draft cursor one character right, stopping at the end of the draft.
    pub fn settings_text_move_right(&mut self)
        requires
            old(self).wf(),
        ensures
            final(self).wf(),
            settings_text_move_right_post(old(self)@, final(self)@),
    {
        match &mut self.settings_text_edit {
            Some(edit) => {
                edit.editor.move_right();
            },
            None => {},
        }
    }

    /// Handles `Esc` on a text field: an unsaved draft reverts to the value the panel shows
    /// and the panel stays open; a clean field, or no draft at all, asks to close the panel.
    pub fn settings_text_cancel(&mut self) -> (r: SettingsEscOutcome)
        requires
            old(self).wf(),
        ensures
            final(self).wf(),
            settings_text_cancel_post(old(self)@, final(self)@, r),
    {
        let (id, dirty) = match &self.settings_text_edit {
            Some(edit) => (edit.id, edit.dirty),
            None => return SettingsEscOutcome::ClosePanel,
        };
        if !dirty {
            return SettingsEscOutcome::ClosePanel;
        }
        proof {
            if self.settings_model is Some {
                lemma_shown_text_fits(self@, id);
            }
        }
        let saved = match &self.settings_model {
            Some(model) => match model.text_value(id) {
                Some(value) => owned(value),
                None => String::new(),
            },
            None => String::new(),
        };
        match &mut self.settings_text_edit {
            Some(edit) => {
                edit.editor.set_buffer(saved.as_str());
                edit.dirty = false;
                edit.autosave_suppressed = false;
                edit.error = None;
            },
            None => {},
        }
        SettingsEscOutcome::Reverted
    }

    /// The save a due debounce asks for: `Some` only when a field is dirty, its idle window
    /// has elapsed, and its last save was not rejected.
    pub fn settings_text_due_save(&self, now: u64) -> (r: Option<SettingsTextSave>)
        ensures
            match self@.text_edit {
                Some(e) => if save_due(e, now) {
                    r matches Some(save) && save.id == e.id && save.value@ == e.text
                } else {
                    r is None
                },
                None => r is None,
            },
    {
        let edit = match &self.settings_text_edit {
            Some(edit) => edit,
            None => return None,
        };
        if edit.autosave_suppressed {
            return None;
        }
        if !should_save(now, edit.last_keystroke, edit.dirty, SETTINGS_AUTOSAVE_DEBOUNCE_MS) {
            return None;
        }
        Some(SettingsTextSave { id: edit.id, value: edit.editor.buffer() })
    }

    /// The save a focus-leave asks for: `Some` for any dirty field, ignoring the debounce and
    /// a prior rejection.
    pub fn settings_text_pending_save(&self) -> (r: Option<SettingsTextSave>)
        ensures
            match self@.text_edit {
                Some(e) => if e.dirty {
                    r matches Some(save) && save.id == e.id && save.value@ == e.text
                } else {
                    r is None
                },
                None => r is None,
            },
    {
        let edit = match &self.settings_text_edit {
            Some(edit) => edit,
            None => return None,
        };
        if !edit.dirty {
            return None;
        }
        Some(SettingsTextSave { id: edit.id, value: edit.editor.buffer() })
    }

    /// Records a successful save: the stored search values replace the shown values on both
    /// search text rows, and the active draft is marked clean with no error.
    pub fn mark_settings_text_saved(&mut self, base_url: &str, query_parameter: &str)
        requires
            old(self).wf(),
            base_url@.len() <= editor_capacity(),
            query_parameter@.len() <= editor_capacity(),
        ensures
            final(self).wf(),
            mark_settings_text_saved_post(old(self)@, final(self)@, base_url@, query_parameter@),
    {
        let ghost before = self.settings_model;
        match &mut self.settings_model {
            Some(model) => {
                let ghost rows0 = model.flat_rows();
                model.set_text_value(SettingId::SearchBaseUrl, base_url);
                let ghost rows1 = model.flat_rows();
                proof {
                    lemma_with_text_value_fits(rows0, rows1, SettingId::SearchBaseUrl, base_url@);
                }
                model.set_text_value(SettingId::SearchQueryParameter, query_parameter);
                proof {
                    lemma_with_text_value_fits(rows1, model.flat_rows(), SettingId::SearchQueryParameter, query_parameter@);
                    assert(with_text_value(rows0, rows1, SettingId::SearchBaseUrl, base_url@));
                }
            },
            None => {},
        }
        match &mut self.settings_text_edit {
            Some(edit) => {
                edit.dirty = false;
                edit.autosave_suppressed = false;
                edit.error = None;
            },
            None => {},
        }
    }

    /// Records a rejected save: the field stays dirty and shows `message` inline, and
    /// auto-save is held off until the next keystroke.
    pub fn mark_settings_text_save_failed(&mut self, message: String)
        requires
            old(self).wf(),
        ensures
            final(self).wf(),
            mark_settings_text_save_failed_post(old(self)@, final(self)@, message@),
    {
        match &mut self.settings_text_edit {
            Some(edit) => {
                edit.autosave_suppressed = true;
                edit.error = Some(message);
            },
            None => {},
        }
    }

    /// The active draft, or `None` when no field is being edited.
    pub fn settings_text_draft(&self) -> (r: Option<String>)
        ensures
            match self@.text_edit {
                Some(e) => r matches Some(d) && d@ == e.text,
                None => r is None,
            },
    {
        match &self.settings_text_edit {
            Some(edit) => Some(edit.editor.buffer()),
            None => None,
        }
    }

    /// The draft and the cursor's UTF-8 byte offset within it, for placing the terminal
    /// cursor. `None` when no field is being edited.
    pub fn settings_text_cursor(&self) -> (r: Option<(String, usize)>)
        requires
            self.wf(),
        ensures
            match self@.text_edit {
                Some(e) => r matches Some((d, offset)) && d@ == e.text
                    && offset == utf8_len(e.text.take(e.cursor as int)),
                None => r is None,
            },
    {
        match &self.settings_text_edit {
            Some(edit) => Some((edit.editor.buffer(), edit.editor.cursor_byte_offset())),
            None => None,
        }
    }

    /// The inline error shown on the edited field after a rejected save, or `None` when the
    /// field is clean or its last save succeeded.
    pub fn settings_text_error(&self) -> (r: Option<&str>)
        ensures
            r matches Some(m) ==> self@.text_edit matches Some(e) && e.error == Some(m@),
            r is None ==> match self@.text_edit {
                Some(e) => e.error is None,
                None => true,
            },
    {
        match &self.settings_text_edit {
            Some(edit) => match &edit.error {
                Some(message) => Some(message.as_str()),
                None => None,
            },
            None => None,
        }
    }
}

} // verus!
