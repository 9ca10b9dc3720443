//! Form controls as the chrome draws and drives them: a single-select's next option, the
//! draft of a field being edited drawn over its field, a multi-select's expanded options,
//! and the confirmation a `POST` submission asks for.

use vstd::prelude::*;

use crate::input::InputAction;
use crate::settings_view::confirmation_choice_line;
use crate::text_editor::{editor_capacity, TextEditor};
use crate::ui_state::{wrap_next, wrap_prev};
use vstd::string::{StrSliceExecFns, StringSliceAdditionalSpecFns};

use crate::text::{owned, push_char, push_str, str_equals, strip_control, strip_control_spec};
use crate::viewport::min_int;

verus! {

/// The position of the first option whose value is `value`.
pub open spec fn option_position(options: Seq<Seq<char>>, value: Seq<char>) -> Option<int>
    decreases options.len(),
{
    if options.len() == 0 {
        None
    } else if options[0] == value {
        Some(0)
    } else {
        match option_position(options.drop_first(), value) {
            Some(i) => Some(i + 1),
            None => None,
        }
    }
}

proof fn lemma_option_position_bound(options: Seq<Seq<char>>, value: Seq<char>)
    ensures
        option_position(options, value) matches Some(i) ==> 0 <= i < options.len(),
    decreases options.len(),
{
    if options.len() > 0 {
        lemma_option_position_bound(options.drop_first(), value);
    }
}

/// The values of a list of option strings.
pub open spec fn values_of(options: Seq<String>) -> Seq<Seq<char>> {
    options.map_values(|o: String| o@)
}

/// The option a single-select moves to: the one after the selected option, wrapping at
/// the end, or the first when nothing is selected or the selection names no option. Empty
/// when there are no options.
pub open spec fn next_option(options: Seq<Seq<char>>, selected: Option<Seq<char>>) -> Seq<char> {
    if options.len() == 0 {
        Seq::empty()
    } else {
        let index = match selected {
            Some(v) => match option_position(options, v) {
                Some(i) => (i + 1) % (options.len() as int),
                None => 0,
            },
            None => 0,
        };
        options[index]
    }
}

/// The position of the first option whose value is `value`.
fn position_of(option_values: &[String], value: &str) -> (r: Option<usize>)
    ensures
        match r {
            Some(i) => option_position(values_of(option_values@), value@) == Some(i as int),
            None => option_position(values_of(option_values@), value@) is None,
        },
{
    let ghost values = values_of(option_values@);
    let mut i: usize = 0;
    proof {
        assert(values.skip(0) =~= values);
    }
    while i < option_values.len()
        invariant
            values == values_of(option_values@),
            i <= option_values@.len(),
            option_position(values, value@) == match option_position(values.skip(i as int), value@) {
                Some(k) => Some(k + i),
                None => None,
            },
        decreases option_values@.len() - i,
    {
        proof {
            assert(values.skip(i as int)[0] == values[i as int]);
            assert(values.skip(i as int).drop_first() =~= values.skip(i + 1));
        }
        if str_equals(option_values[i].as_str(), value) {
            return Some(i);
        }
        i = i + 1;
    }
    proof {
        assert(values.skip(i as int).len() == 0);
    }
    None
}

/// The value of the option after the currently selected one of a single-select, wrapping at
/// the end, or the first option when nothing is currently selected. Empty when the select
/// has no options. `option_values` are the options' values in order and `selected` the value
/// currently selected.
pub fn next_select_value(option_values: &[String], selected: Option<&str>) -> (r: String)
    ensures
        r@ == next_option(
            values_of(option_values@),
            match selected {
                Some(v) => Some(v@),
                None => None,
            },
        ),
{
    let ghost values = values_of(option_values@);
    if option_values.len() == 0 {
        return String::new();
    }
    let current_index = match selected {
        Some(value) => position_of(option_values, value),
        None => None,
    };
    proof {
        lemma_option_position_bound(values, match selected {
            Some(v) => v@,
            None => Seq::empty(),
        });
    }
    let next_index = match current_index {
        Some(index) => (index + 1) % option_values.len(),
        None => 0,
    };
    owned(option_values[next_index].as_str())
}

/// The kind of form control a field span draws.
#[derive(Debug, Clone, Copy, PartialEq, Eq, Structural)]
pub enum FieldSpanKind {
    Input,
    Select,
    Textarea,
    Button,
}

/// Where a form control sits on the laid-out page: the document node it belongs to, the row
/// it is drawn on, and its first column.
#[derive(Debug, Clone, Copy, PartialEq, Eq, Structural)]
pub struct FieldSpan {
    pub node_id: u64,
    pub row: u16,
    pub col_start: u16,
    pub kind: FieldSpanKind,
}

/// The position of the first span of node `node_id`.
pub open spec fn first_field_span(spans: Seq<FieldSpan>, node_id: u64) -> Option<int>
    decreases spans.len(),
{
    if spans.len() == 0 {
        None
    } else if spans[0].node_id == node_id {
        Some(0)
    } else {
        match first_field_span(spans.drop_first(), node_id) {
            Some(i) => Some(i + 1),
            None => None,
        }
    }
}

proof fn lemma_first_field_span_bound(spans: Seq<FieldSpan>, node_id: u64)
    ensures
        first_field_span(spans, node_id) matches Some(i) ==> 0 <= i < spans.len(),
    decreases spans.len(),
{
    if spans.len() > 0 {
        lemma_first_field_span_bound(spans.drop_first(), node_id);
    }
}

/// The first span of node `node_id`, the one its overlays anchor to.
pub fn field_span_for(spans: &[FieldSpan], node_id: u64) -> (r: Option<FieldSpan>)
    ensures
        match first_field_span(spans@, node_id) {
            Some(i) => r == Some(spans@[i]),
            None => r is None,
        },
{
    let ghost all = spans@;
    proof {
        assert(all.skip(0) =~= all);
        lemma_first_field_span_bound(all, node_id);
    }
    let mut i: usize = 0;
    while i < spans.len()
        invariant
            all == spans@,
            i <= all.len(),
            first_field_span(all, node_id) == match first_field_span(all.skip(i as int), node_id) {
                Some(k) => Some(k + i),
                None => None,
            },
        decreases all.len() - i,
    {
        proof {
            assert(all.skip(i as int)[0] == all[i as int]);
            assert(all.skip(i as int).drop_first() =~= all.skip(i + 1));
        }
        if spans[i].node_id == node_id {
            return Some(spans[i]);
        }
        i = i + 1;
    }
    proof {
        assert(all.skip(i as int).len() == 0);
    }
    None
}

/// The choice a `POST` submission confirmation highlights.
#[derive(Debug, Clone, Copy, PartialEq, Eq, Structural)]
pub enum SubmitChoice {
    Submit,
    Cancel,
}

/// A choice line of the confirmation: the highlighted one marked with `>`.
pub open spec fn choice_line(label: Seq<char>, highlighted: bool) -> Seq<char> {
    (if highlighted {
        "> "@
    } else {
        "  "@
    }) + label
}

/// The confirmation a `POST` submission shows: the question, the method, the destination
/// with control characters stripped, and the two choices with the highlighted one marked.
pub open spec fn confirmation_text(destination: Seq<char>, choice: SubmitChoice) -> Seq<Seq<char>> {
    seq![
        "Submit this form?"@,
        Seq::empty(),
        "Method: POST"@,
        "Destination: "@ + strip_control_spec(destination),
        Seq::empty(),
        choice_line("Submit"@, choice == SubmitChoice::Submit),
        choice_line("Cancel"@, choice == SubmitChoice::Cancel),
    ]
}

/// The lines of the `POST` submission confirmation drawn over the bottom of a page area
/// `width` by `height` cells, or `None` when the area is empty. The destination is a
/// resolved action URL; it is control-stripped here like every page-derived string.
pub fn submit_confirmation_lines(destination: &str, choice: SubmitChoice, width: u16, height: u16) -> (r:
    Option<Vec<String>>)
    ensures
        width == 0 || height == 0 ==> r is None,
        width > 0 && height > 0 ==> (r matches Some(lines) && lines@.map_values(|l: String| l@)
            == confirmation_text(destination@, choice)),
{
    if width == 0 || height == 0 {
        return None;
    }
    let mut lines: Vec<String> = Vec::new();
    lines.push(owned("Submit this form?"));
    lines.push(String::new());
    lines.push(owned("Method: POST"));
    let mut target = owned("Destination: ");
    push_str(&mut target, strip_control(destination).as_str());
    lines.push(target);
    lines.push(String::new());
    lines.push(confirmation_choice_line("Submit", choice == SubmitChoice::Submit));
    lines.push(confirmation_choice_line("Cancel", choice == SubmitChoice::Cancel));
    proof {
        reveal_strlit("Submit this form?");
        reveal_strlit("Method: POST");
        reveal_strlit("Destination: ");
        reveal_strlit("Submit");
        reveal_strlit("Cancel");
        reveal_strlit("> ");
        reveal_strlit("  ");
        assert(lines@.map_values(|l: String| l@) =~= confirmation_text(destination@, choice));
    }
    Some(lines)
}

/// The character a sensitive field's typed characters are drawn as while it is edited.
pub const FIELD_EDIT_MASK_CHARACTER: char = '\u{2022}';

/// Where and how the draft of the field being edited is drawn over its field, relative to
/// the page area.
#[derive(Debug, Clone, PartialEq, Eq)]
pub struct FieldEditOverlay {
    /// The first column the overlay covers.
    pub column: u16,
    /// The page-area row the overlay is drawn on.
    pub row: u16,
    /// How many columns the overlay covers.
    pub width: u16,
    /// The draft, or one mask character per character of it for a sensitive field.
    pub text: String,
    /// The terminal cursor's column within the overlay.
    pub cursor_column: u16,
}

/// What the overlay shows of a draft: the draft itself, or as many mask characters as it
/// has characters when the field is sensitive.
pub open spec fn shown_draft(draft: Seq<char>, sensitive: bool) -> Seq<char> {
    if sensitive {
        Seq::new(draft.len(), |i: int| FIELD_EDIT_MASK_CHARACTER)
    } else {
        draft
    }
}

/// A count cut to sixteen bits, as a narrowing cast does.
pub open spec fn low16(n: int) -> int {
    n % 0x10000
}

/// Whether `overlay` is how a draft is drawn over a field at page row `span_row` and column
/// `col_start`, in a page area `area_width` by `area_height` cells scrolled to
/// `scroll_offset`, with the cursor `cursor_chars` characters into the draft: the overlay
/// sits on the field's row in view and covers the draft's characters (at least one column,
/// at most up to the area's right edge), and the cursor stays within it.
pub open spec fn field_edit_overlay_at(
    span_row: u16,
    col_start: u16,
    scroll_offset: u16,
    area_width: u16,
    area_height: u16,
    draft: Seq<char>,
    cursor_chars: int,
    sensitive: bool,
    overlay: FieldEditOverlay,
) -> bool {
    let available = area_width - col_start;
    let width = min_int(if low16(draft.len() as int) > 1 { low16(draft.len() as int) } else { 1 }, available);
    &&& overlay.column == col_start
    &&& overlay.row == span_row - scroll_offset
    &&& overlay.width == width
    &&& overlay.text@ == shown_draft(draft, sensitive)
    &&& overlay.cursor_column == min_int(low16(cursor_chars), width)
}

/// Whether a field at page row `span_row` and column `col_start` is in view in a page area
/// `area_width` by `area_height` cells scrolled to `scroll_offset`.
pub open spec fn field_in_view(span_row: u16, col_start: u16, scroll_offset: u16, area_width: u16, area_height: u16) -> bool {
    &&& scroll_offset <= span_row
    &&& span_row - scroll_offset < area_height
    &&& col_start < area_width
}

fn masked(count: usize) -> (r: String)
    ensures
        r@ == Seq::new(count as nat, |i: int| FIELD_EDIT_MASK_CHARACTER),
{
    let mut text = String::new();
    let mut i: usize = 0;
    while i < count
        invariant
            i <= count,
            text@ == Seq::new(i as nat, |k: int| FIELD_EDIT_MASK_CHARACTER),
        decreases count - i,
    {
        push_char(&mut text, FIELD_EDIT_MASK_CHARACTER);
        proof {
            assert(text@ =~= Seq::new((i + 1) as nat, |k: int| FIELD_EDIT_MASK_CHARACTER));
        }
        i = i + 1;
    }
    text
}

/// How the draft of the field being edited is drawn over its field `span`, in a page area
/// `area_width` by `area_height` cells scrolled to `scroll_offset`: on the field's row, as
/// wide as the draft (masked for a sensitive field) and at least one column, cut at the
/// area's right edge, with the cursor after the draft's characters before
/// `cursor_byte_offset`. `None` when the field's row is not in view.
pub fn field_edit_overlay(
    span: FieldSpan,
    scroll_offset: u16,
    area_width: u16,
    area_height: u16,
    draft: &str,
    cursor_byte_offset: usize,
    sensitive: bool,
) -> (r: Option<FieldEditOverlay>)
    requires
        vstd::utf8::is_char_boundary(draft.spec_bytes(), cursor_byte_offset as int),
    ensures
        !field_in_view(span.row, span.col_start, scroll_offset, area_width, area_height) ==> r is None,
        field_in_view(span.row, span.col_start, scroll_offset, area_width, area_height) ==> (r matches Some(
            overlay,
        ) && field_edit_overlay_at(
            span.row,
            span.col_start,
            scroll_offset,
            area_width,
            area_height,
            draft@,
            vstd::utf8::decode_utf8(draft.spec_bytes().subrange(0, cursor_byte_offset as int)).len() as int,
            sensitive,
            overlay,
        )),
{
    if span.row < scroll_offset {
        return None;
    }
    let row_in_view = span.row - scroll_offset;
    if row_in_view >= area_height || span.col_start >= area_width {
        return None;
    }
    let count = draft.unicode_len();
    let text = if sensitive {
        masked(count)
    } else {
        owned(draft)
    };
    let available = area_width - span.col_start;
    let shown_cols: u16 = (count % 0x10000) as u16;
    let at_least_one: u16 = if shown_cols > 1 {
        shown_cols
    } else {
        1
    };
    let width: u16 = if at_least_one < available {
        at_least_one
    } else {
        available
    };
    let (before, _after) = draft.split_at(cursor_byte_offset);
    proof {
        vstd::utf8::encode_utf8_decode_utf8(before@);
    }
    let before_chars = before.unicode_len();
    let cursor_cols: u16 = (before_chars % 0x10000) as u16;
    let cursor_column: u16 = if cursor_cols < width {
        cursor_cols
    } else {
        width
    };
    Some(FieldEditOverlay { column: span.col_start, row: row_in_view, width, text, cursor_column })
}

/// One option of a select control: the value a form submits and the label it shows.
#[derive(Debug, Clone, PartialEq, Eq)]
pub struct SelectOption {
    pub value: String,
    pub label: String,
}

/// An expanded multi-select drawn under its field, relative to the page area.
#[derive(Debug, Clone, PartialEq, Eq)]
pub struct MultiSelectOverlay {
    /// The first column the list covers.
    pub column: u16,
    /// The page-area row of its first line, just below the field.
    pub row: u16,
    /// How many columns the list covers: up to the area's right edge.
    pub width: u16,
    /// The option lines that fit, top to bottom.
    pub lines: Vec<String>,
    /// The line the option cursor highlights, when it is among them.
    pub cursor_row: Option<usize>,
}

/// An option's line: a checked marker when its value is among the selected values, then its
/// label with control characters stripped.
pub open spec fn option_line(option: SelectOption, selected: Seq<Seq<char>>) -> Seq<char> {
    (if selected.contains(option.value@) {
        "[x]"@
    } else {
        "[ ]"@
    }) + " "@ + strip_control_spec(option.label@)
}

/// Whether `overlay` is how the options of a multi-select at page row `span_row` and column
/// `col_start` are drawn in a page area `area_width` by `area_height` cells scrolled to
/// `scroll_offset`: from the row below the field, as many option lines as fit above the
/// area's bottom, with the line under the option cursor highlighted.
pub open spec fn multi_select_overlay_at(
    span_row: u16,
    col_start: u16,
    scroll_offset: u16,
    area_width: u16,
    area_height: u16,
    options: Seq<SelectOption>,
    selected: Seq<Seq<char>>,
    cursor: int,
    overlay: MultiSelectOverlay,
) -> bool {
    let anchor = span_row - scroll_offset;
    let rows = min_int(low16(options.len() as int), area_height - anchor - 1);
    &&& overlay.column == col_start
    &&& overlay.row == anchor + 1
    &&& overlay.width == area_width - col_start
    &&& overlay.lines@.len() == rows
    &&& forall|i: int| 0 <= i < rows ==> (#[trigger] overlay.lines@[i])@ == option_line(options[i], selected)
    &&& overlay.cursor_row == if 0 <= cursor < rows {
        Some(cursor as usize)
    } else {
        None
    }
}

fn contains_value(values: &[String], value: &str) -> (r: bool)
    ensures
        r == values_of(values@).contains(value@),
{
    let mut i: usize = 0;
    while i < values.len()
        invariant
            i <= values@.len(),
            forall|k: int| 0 <= k < i ==> values_of(values@)[k] != value@,
        decreases values@.len() - i,
    {
        if str_equals(values[i].as_str(), value) {
            proof {
                assert(values_of(values@)[i as int] == value@);
            }
            return true;
        }
        i = i + 1;
    }
    false
}

/// The line an option shows in the expanded list.
pub fn multi_select_option_line(option: &SelectOption, selected_values: &[String]) -> (r: String)
    ensures
        r@ == option_line(*option, values_of(selected_values@)),
{
    let mut line = if contains_value(selected_values, option.value.as_str()) {
        owned("[x]")
    } else {
        owned("[ ]")
    };
    push_str(&mut line, " ");
    push_str(&mut line, strip_control(option.label.as_str()).as_str());
    proof {
        reveal_strlit("[x]");
        reveal_strlit("[ ]");
        reveal_strlit(" ");
    }
    line
}

/// How the options of the multi-select whose field is `span` are drawn when expanded, in a
/// page area `area_width` by `area_height` cells scrolled to `scroll_offset`: under the
/// field's row, as many lines as fit, each option marked checked when its value is among
/// `selected_values`, with the line under the option `cursor` highlighted. `None` when the
/// field's row is not in view or no line fits below it.
pub fn multi_select_overlay(
    span: FieldSpan,
    scroll_offset: u16,
    area_width: u16,
    area_height: u16,
    options: &[SelectOption],
    selected_values: &[String],
    cursor: usize,
) -> (r: Option<MultiSelectOverlay>)
    ensures
        !field_in_view(span.row, span.col_start, scroll_offset, area_width, area_height) ==> r is None,
        field_in_view(span.row, span.col_start, scroll_offset, area_width, area_height) ==> {
            let rows = min_int(low16(options@.len() as int), area_height - (span.row - scroll_offset) - 1);
            &&& rows == 0 ==> r is None
            &&& rows > 0 ==> (r matches Some(overlay) && multi_select_overlay_at(
                span.row,
                span.col_start,
                scroll_offset,
                area_width,
                area_height,
                options@,
                values_of(selected_values@),
                cursor as int,
                overlay,
            ))
        },
{
    if span.row < scroll_offset {
        return None;
    }
    let anchor = span.row - scroll_offset;
    if anchor >= area_height || span.col_start >= area_width {
        return None;
    }
    let available = area_height - anchor - 1;
    let option_rows: u16 = (options.len() % 0x10000) as u16;
    let rows: u16 = if option_rows < available {
        option_rows
    } else {
        available
    };
    if rows == 0 {
        return None;
    }
    let mut lines: Vec<String> = Vec::new();
    let mut i: usize = 0;
    while i < rows as usize
        invariant
            rows as int <= options@.len(),
            i <= rows,
            lines@.len() == i,
            forall|k: int| 0 <= k < i ==> (#[trigger] lines@[k])@ == option_line(options@[k], values_of(selected_values@)),
        decreases rows - i,
    {
        lines.push(multi_select_option_line(&options[i], selected_values));
        i = i + 1;
    }
    let cursor_row = if cursor < rows as usize {
        Some(cursor)
    } else {
        None
    };
    Some(MultiSelectOverlay {
        column: span.col_start,
        row: anchor + 1,
        width: area_width - span.col_start,
        lines,
        cursor_row,
    })
}

/// A focused form control, as activation sees it.
#[derive(Debug, Clone, Copy, PartialEq, Eq, Structural)]
pub enum FieldControl {
    /// An `<input type=checkbox>`.
    Checkbox,
    /// An `<input type=radio>`.
    Radio,
    /// Any other `<input>`, or a `<textarea>`; `sensitive` for a password field.
    TextEntry { sensitive: bool },
    /// A `<select>` without `multiple`.
    SingleSelect,
    /// A `<select multiple>`.
    MultiSelect,
    /// A `<button type=reset>`.
    ResetButton,
    /// A `<button type=button>`, which has no default action.
    PlainButton,
    /// A submit button of a form sent with `GET`.
    SubmitGet,
    /// A submit button of a form sent with `POST`.
    SubmitPost,
}

/// What activating a focused form control does.
#[derive(Debug, Clone, Copy, PartialEq, Eq, Structural)]
pub enum FieldActivation {
    /// Flip the checkbox at once.
    ToggleCheckbox,
    /// Select the radio at once.
    SelectRadio,
    /// Open the text-edit sub-mode seeded with the field's value.
    EditText { sensitive: bool },
    /// Move a single-select to its next option at once.
    CycleSelect,
    /// Open the multi-select's option list.
    ExpandOptions,
    /// Restore the form's controls to their parsed defaults.
    ResetForm,
    /// Nothing happens.
    Nothing,
    /// Submit the form now, as following a link loads.
    SubmitNow,
    /// Ask for confirmation first.
    ConfirmSubmit,
}

/// Activating a focused form control: a checkbox or radio applies at once, a text field opens
/// its editor, a single-select cycles and a multi-select expands, a reset button resets its
/// form, a plain button does nothing, and a submit button submits a `GET` form at once but
/// asks before sending a `POST`.
pub fn field_activation(control: FieldControl) -> (r: FieldActivation)
    ensures
        r == match control {
            FieldControl::Checkbox => FieldActivation::ToggleCheckbox,
            FieldControl::Radio => FieldActivation::SelectRadio,
            FieldControl::TextEntry { sensitive } => FieldActivation::EditText { sensitive },
            FieldControl::SingleSelect => FieldActivation::CycleSelect,
            FieldControl::MultiSelect => FieldActivation::ExpandOptions,
            FieldControl::ResetButton => FieldActivation::ResetForm,
            FieldControl::PlainButton => FieldActivation::Nothing,
            FieldControl::SubmitGet => FieldActivation::SubmitNow,
            FieldControl::SubmitPost => FieldActivation::ConfirmSubmit,
        },
{
    match control {
        FieldControl::Checkbox => FieldActivation::ToggleCheckbox,
        FieldControl::Radio => FieldActivation::SelectRadio,
        FieldControl::TextEntry { sensitive } => FieldActivation::EditText { sensitive },
        FieldControl::SingleSelect => FieldActivation::CycleSelect,
        FieldControl::MultiSelect => FieldActivation::ExpandOptions,
        FieldControl::ResetButton => FieldActivation::ResetForm,
        FieldControl::PlainButton => FieldActivation::Nothing,
        FieldControl::SubmitGet => FieldActivation::SubmitNow,
        FieldControl::SubmitPost => FieldActivation::ConfirmSubmit,
    }
}

/// Whether answering the submission confirmation sends the form: only the `Submit` choice
/// does; `Cancel` closes the confirmation with nothing sent.
pub fn confirmation_submits(choice: SubmitChoice) -> (r: bool)
    ensures
        r == (choice == SubmitChoice::Submit),
{
    match choice {
        SubmitChoice::Submit => true,
        SubmitChoice::Cancel => false,
    }
}

/// The other choice of the confirmation, as its toggle key moves the highlight.
pub fn toggled_choice(choice: SubmitChoice) -> (r: SubmitChoice)
    ensures
        r != choice,
{
    match choice {
        SubmitChoice::Submit => SubmitChoice::Cancel,
        SubmitChoice::Cancel => SubmitChoice::Submit,
    }
}


/// A form-field sub-mode in progress: a text field's draft being edited, a multi-select's
/// expanded options with the option cursor, or the confirmation a `POST` submission asks for.
#[derive(Debug)]
pub enum FieldEdit {
    Text { node_id: u64, sensitive: bool, draft: TextEditor },
    MultiSelect { node_id: u64, options: Vec<SelectOption>, cursor: usize },
    SubmitConfirmation { node_id: u64, destination: String, choice: SubmitChoice },
}

/// What a field sub-mode step asks of the document the fields belong to.
#[derive(Debug, Clone, PartialEq, Eq)]
pub enum FieldEffect {
    /// Nothing.
    Nothing,
    /// Store `text` as the value of the text field `node_id` (a sensitive one through the
    /// sensitive path).
    SetText { node_id: u64, sensitive: bool, text: String },
    /// Flip whether the option valued `value` of multi-select `node_id` is selected.
    ToggleOption { node_id: u64, value: String },
    /// Submit the form of submit button `node_id`.
    Submit { node_id: u64 },
}

/// The sub-mode is well formed: a draft editor is, and an option cursor names an option.
pub open spec fn field_edit_wf(edit: FieldEdit) -> bool {
    match edit {
        FieldEdit::Text { draft, .. } => draft.wf(),
        FieldEdit::MultiSelect { options, cursor, .. } => options@.len() == 0 || cursor < options@.len(),
        FieldEdit::SubmitConfirmation { .. } => true,
    }
}

/// One key action in a form-field sub-mode: the typing keys edit the draft and commit
/// stores it and closes the editor while cancel just closes it; the arrow keys move the
/// option cursor, wrapping at either end like every list of the chrome, the toggle key flips
/// the option under the cursor, and commit or cancel closes the list; the confirmation's
/// toggle key moves the highlight, activating it submits only on `Submit`, and cancel
/// closes it. Any other action leaves the sub-mode as it is. Returns the sub-mode left
/// open (`None` once closed) and what the document is asked to do.
pub fn field_step(edit: FieldEdit, action: InputAction) -> (r: (Option<FieldEdit>, FieldEffect))
    requires
        field_edit_wf(edit),
        edit matches FieldEdit::Text { draft, .. } ==> (action is FieldTextInput ==> draft.text().len() < editor_capacity()),
    ensures
        r.0 matches Some(e) ==> field_edit_wf(e),
        match edit {
            FieldEdit::Text { node_id, sensitive, draft } => match action {
                InputAction::FieldTextCommit => r.0 is None && (r.1 matches FieldEffect::SetText { node_id: n, sensitive: s, text }
                    && n == node_id && s == sensitive && text@ == draft.text()),
                InputAction::FieldTextCancel => r.0 is None && r.1 == FieldEffect::Nothing,
                InputAction::FieldTextInput(c) => r.1 == FieldEffect::Nothing && (r.0 matches Some(FieldEdit::Text { node_id: n, sensitive: s, draft: d })
                    && n == node_id && s == sensitive && d.text() == draft.text().insert(draft.cursor() as int, c)
                    && d.cursor() == draft.cursor() + 1),
                InputAction::FieldTextDeleteBack => r.1 == FieldEffect::Nothing && (r.0 matches Some(FieldEdit::Text { node_id: n, sensitive: s, draft: d })
                    && n == node_id && s == sensitive && (if draft.cursor() == 0 {
                        d.text() == draft.text() && d.cursor() == 0
                    } else {
                        d.text() == draft.text().remove(draft.cursor() - 1) && d.cursor() == draft.cursor() - 1
                    })),
                InputAction::FieldTextMoveCursorLeft => r.1 == FieldEffect::Nothing && (r.0 matches Some(FieldEdit::Text { node_id: n, sensitive: s, draft: d })
                    && n == node_id && s == sensitive && d.text() == draft.text()
                    && d.cursor() == (if draft.cursor() == 0 { 0 } else { (draft.cursor() - 1) as nat })),
                InputAction::FieldTextMoveCursorRight => r.1 == FieldEffect::Nothing && (r.0 matches Some(FieldEdit::Text { node_id: n, sensitive: s, draft: d })
                    && n == node_id && s == sensitive && d.text() == draft.text()
                    && d.cursor() == (if draft.cursor() >= draft.text().len() { draft.cursor() } else { draft.cursor() + 1 })),
                _ => r.1 == FieldEffect::Nothing && r.0 == Some(FieldEdit::Text { node_id, sensitive, draft }),
            },
            FieldEdit::MultiSelect { node_id, options, cursor } => match action {
                InputAction::FieldMultiSelectMoveDown => r.1 == FieldEffect::Nothing && r.0 == Some(FieldEdit::MultiSelect {
                    node_id,
                    options,
                    cursor: if options@.len() == 0 { cursor } else { wrap_next(cursor as int, options@.len() as int) as usize },
                }),
                InputAction::FieldMultiSelectMoveUp => r.1 == FieldEffect::Nothing && r.0 == Some(FieldEdit::MultiSelect {
                    node_id,
                    options,
                    cursor: if options@.len() == 0 { cursor } else { wrap_prev(cursor as int, options@.len() as int) as usize },
                }),
                InputAction::FieldMultiSelectToggle => r.0 == Some(FieldEdit::MultiSelect { node_id, options, cursor })
                    && (if cursor < options@.len() {
                        r.1 matches FieldEffect::ToggleOption { node_id: n, value } && n == node_id
                            && value@ == options@[cursor as int].value@
                    } else {
                        r.1 == FieldEffect::Nothing
                    }),
                InputAction::FieldMultiSelectCommit | InputAction::FieldMultiSelectCancel => r.0 is None
                    && r.1 == FieldEffect::Nothing,
                _ => r.1 == FieldEffect::Nothing && r.0 == Some(FieldEdit::MultiSelect { node_id, options, cursor }),
            },
            FieldEdit::SubmitConfirmation { node_id, destination, choice } => match action {
                InputAction::SubmitConfirmToggle => r.1 == FieldEffect::Nothing && (r.0 matches Some(FieldEdit::SubmitConfirmation {
                    node_id: n,
                    destination: d,
                    choice: c,
                }) && n == node_id && d == destination && c != choice),
                InputAction::SubmitConfirmActivate => r.0 is None && r.1 == (if choice == SubmitChoice::Submit {
                    FieldEffect::Submit { node_id }
                } else {
                    FieldEffect::Nothing
                }),
                InputAction::SubmitConfirmCancel => r.0 is None && r.1 == FieldEffect::Nothing,
                _ => r.1 == FieldEffect::Nothing && r.0 == Some(FieldEdit::SubmitConfirmation { node_id, destination, choice }),
            },
        },
{
    match edit {
        FieldEdit::Text { node_id, sensitive, mut draft } => match action {
            InputAction::FieldTextCommit => (None, FieldEffect::SetText { node_id, sensitive, text: draft.buffer() }),
            InputAction::FieldTextCancel => (None, FieldEffect::Nothing),
            InputAction::FieldTextInput(c) => {
                draft.insert_char(c);
                (Some(FieldEdit::Text { node_id, sensitive, draft }), FieldEffect::Nothing)
            },
            InputAction::FieldTextDeleteBack => {
                draft.delete_before_cursor();
                (Some(FieldEdit::Text { node_id, sensitive, draft }), FieldEffect::Nothing)
            },
            InputAction::FieldTextMoveCursorLeft => {
                draft.move_left();
                (Some(FieldEdit::Text { node_id, sensitive, draft }), FieldEffect::Nothing)
            },
            InputAction::FieldTextMoveCursorRight => {
                draft.move_right();
                (Some(FieldEdit::Text { node_id, sensitive, draft }), FieldEffect::Nothing)
            },
            _ => (Some(FieldEdit::Text { node_id, sensitive, draft }), FieldEffect::Nothing),
        },
        FieldEdit::MultiSelect { node_id, options, cursor } => match action {
            InputAction::FieldMultiSelectMoveDown => {
                let len = options.len();
                let next = if len == 0 {
                    cursor
                } else {
                    (cursor + 1) % len
                };
                (Some(FieldEdit::MultiSelect { node_id, options, cursor: next }), FieldEffect::Nothing)
            },
            InputAction::FieldMultiSelectMoveUp => {
                let len = options.len();
                let next = if len == 0 {
                    cursor
                } else if cursor == 0 {
                    len - 1
                } else {
                    cursor - 1
                };
                (Some(FieldEdit::MultiSelect { node_id, options, cursor: next }), FieldEffect::Nothing)
            },
            InputAction::FieldMultiSelectToggle => {
                let effect = if cursor < options.len() {
                    FieldEffect::ToggleOption { node_id, value: owned(options[cursor].value.as_str()) }
                } else {
                    FieldEffect::Nothing
                };
                (Some(FieldEdit::MultiSelect { node_id, options, cursor }), effect)
            },
            InputAction::FieldMultiSelectCommit | InputAction::FieldMultiSelectCancel => (None, FieldEffect::Nothing),
            _ => (Some(FieldEdit::MultiSelect { node_id, options, cursor }), FieldEffect::Nothing),
        },
        FieldEdit::SubmitConfirmation { node_id, destination, choice } => match action {
            InputAction::SubmitConfirmToggle => (
                Some(FieldEdit::SubmitConfirmation { node_id, destination, choice: toggled_choice(choice) }),
                FieldEffect::Nothing,
            ),
            InputAction::SubmitConfirmActivate => {
                if confirmation_submits(choice) {
                    (None, FieldEffect::Submit { node_id })
                } else {
                    (None, FieldEffect::Nothing)
                }
            },
            InputAction::SubmitConfirmCancel => (None, FieldEffect::Nothing),
            _ => (Some(FieldEdit::SubmitConfirmation { node_id, destination, choice }), FieldEffect::Nothing),
        },
    }
}

} // verus!
