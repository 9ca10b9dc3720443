use puma_terminal::{
    confirmation_submits, field_activation, field_edit_overlay, field_span_for,
    multi_select_option_line, multi_select_overlay, submit_confirmation_lines, toggled_choice,
    FieldActivation, FieldControl, FieldSpan, FieldSpanKind, SelectOption, SubmitChoice,
};

fn span(node_id: u64, row: u16, col_start: u16, kind: FieldSpanKind) -> FieldSpan {
    FieldSpan {
        node_id,
        row,
        col_start,
        kind,
    }
}

fn option(value: &str, label: &str) -> SelectOption {
    SelectOption {
        value: value.to_string(),
        label: label.to_string(),
    }
}

#[test]
fn a_field_overlay_anchors_to_the_first_span_of_its_node() {
    let spans = [
        span(4, 2, 0, FieldSpanKind::Input),
        span(9, 5, 3, FieldSpanKind::Select),
        span(9, 6, 3, FieldSpanKind::Select),
    ];
    assert_eq!(field_span_for(&spans, 9), Some(spans[1]));
    assert_eq!(field_span_for(&spans, 1), None);
}

#[test]
fn the_edit_draft_is_drawn_over_its_field_with_the_cursor_after_the_typed_text() {
    let field = span(1, 12, 4, FieldSpanKind::Input);
    let overlay = field_edit_overlay(field, 10, 40, 8, "h\u{e9}llo", 3, false)
        .expect("the field is in view");
    assert_eq!(overlay.column, 4);
    assert_eq!(overlay.row, 2);
    assert_eq!(overlay.width, 5);
    assert_eq!(overlay.text, "h\u{e9}llo");
    assert_eq!(overlay.cursor_column, 2);
}

#[test]
fn a_sensitive_draft_is_masked_and_an_empty_one_still_covers_a_column() {
    let field = span(1, 0, 0, FieldSpanKind::Input);
    let overlay = field_edit_overlay(field, 0, 40, 8, "pw", 2, true).expect("in view");
    assert_eq!(overlay.text, "\u{2022}\u{2022}");
    let empty = field_edit_overlay(field, 0, 40, 8, "", 0, false).expect("in view");
    assert_eq!(empty.width, 1);
    assert_eq!(empty.cursor_column, 0);
}

#[test]
fn a_long_draft_is_cut_at_the_area_edge() {
    let field = span(1, 0, 36, FieldSpanKind::Textarea);
    let overlay = field_edit_overlay(field, 0, 40, 8, "abcdefgh", 8, false).expect("in view");
    assert_eq!(overlay.width, 4);
    assert_eq!(overlay.cursor_column, 4);
}

#[test]
fn a_field_out_of_view_draws_no_overlay() {
    let above = span(1, 3, 0, FieldSpanKind::Input);
    assert!(field_edit_overlay(above, 4, 40, 8, "x", 0, false).is_none());
    let below = span(1, 20, 0, FieldSpanKind::Input);
    assert!(field_edit_overlay(below, 4, 40, 8, "x", 0, false).is_none());
    let right = span(1, 5, 40, FieldSpanKind::Input);
    assert!(field_edit_overlay(right, 4, 40, 8, "x", 0, false).is_none());
}

#[test]
fn an_expanded_multi_select_lists_what_fits_below_its_field() {
    let field = span(2, 3, 5, FieldSpanKind::Select);
    let options = [
        option("r", "Red"),
        option("g", "Gr\u{7}een"),
        option("b", "Blue"),
        option("y", "Yellow"),
    ];
    let selected = ["g".to_string()];
    let overlay =
        multi_select_overlay(field, 0, 30, 6, &options, &selected, 1).expect("fits below");
    assert_eq!(overlay.column, 5);
    assert_eq!(overlay.row, 4);
    assert_eq!(overlay.width, 25);
    assert_eq!(overlay.lines, vec!["[ ] Red".to_string(), "[x] Green".to_string()]);
    assert_eq!(overlay.cursor_row, Some(1));
    let scrolled_cursor =
        multi_select_overlay(field, 0, 30, 6, &options, &selected, 3).expect("fits below");
    assert_eq!(scrolled_cursor.cursor_row, None);
    // On the area's last row nothing fits below the field.
    assert!(multi_select_overlay(field, 0, 30, 4, &options, &selected, 0).is_none());
}

#[test]
fn an_option_line_marks_selected_values() {
    let selected = ["a".to_string()];
    assert_eq!(multi_select_option_line(&option("a", "Apple"), &selected), "[x] Apple");
    assert_eq!(multi_select_option_line(&option("b", "Banana"), &selected), "[ ] Banana");
}

#[test]
fn the_post_confirmation_names_the_destination_and_marks_the_choice() {
    let lines = submit_confirmation_lines("https://x.test/\u{1b}form", SubmitChoice::Cancel, 40, 10)
        .expect("the area is not empty");
    assert_eq!(
        lines,
        vec![
            "Submit this form?".to_string(),
            String::new(),
            "Method: POST".to_string(),
            "Destination: https://x.test/form".to_string(),
            String::new(),
            "  Submit".to_string(),
            "> Cancel".to_string(),
        ]
    );
    assert!(submit_confirmation_lines("https://x.test/", SubmitChoice::Submit, 0, 10).is_none());
}

#[test]
fn activation_follows_the_control_kind() {
    assert_eq!(field_activation(FieldControl::Checkbox), FieldActivation::ToggleCheckbox);
    assert_eq!(field_activation(FieldControl::Radio), FieldActivation::SelectRadio);
    assert_eq!(
        field_activation(FieldControl::TextEntry { sensitive: true }),
        FieldActivation::EditText { sensitive: true }
    );
    assert_eq!(field_activation(FieldControl::SingleSelect), FieldActivation::CycleSelect);
    assert_eq!(field_activation(FieldControl::MultiSelect), FieldActivation::ExpandOptions);
    assert_eq!(field_activation(FieldControl::ResetButton), FieldActivation::ResetForm);
    assert_eq!(field_activation(FieldControl::PlainButton), FieldActivation::Nothing);
    assert_eq!(field_activation(FieldControl::SubmitGet), FieldActivation::SubmitNow);
    assert_eq!(field_activation(FieldControl::SubmitPost), FieldActivation::ConfirmSubmit);
}

#[test]
fn only_the_submit_choice_sends_the_form() {
    assert!(confirmation_submits(SubmitChoice::Submit));
    assert!(!confirmation_submits(SubmitChoice::Cancel));
    assert_eq!(toggled_choice(SubmitChoice::Submit), SubmitChoice::Cancel);
    assert_eq!(toggled_choice(SubmitChoice::Cancel), SubmitChoice::Submit);
}

fn text_edit(value: &str) -> puma_terminal::FieldEdit {
    puma_terminal::FieldEdit::Text {
        node_id: 7,
        sensitive: true,
        draft: puma_terminal::TextEditor::seeded(value),
    }
}

#[test]
fn a_field_draft_is_edited_then_committed_through_the_sensitive_path() {
    use_step_text(text_edit("ab"));
}

fn use_step_text(edit: puma_terminal::FieldEdit) {
    let (edit, effect) = puma_terminal::field_step(edit, puma_terminal::InputAction::FieldTextMoveCursorLeft);
    assert_eq!(effect, puma_terminal::FieldEffect::Nothing);
    let (edit, _) = puma_terminal::field_step(edit.expect("still editing"), puma_terminal::InputAction::FieldTextInput('x'));
    let (edit, effect) = puma_terminal::field_step(edit.expect("still editing"), puma_terminal::InputAction::FieldTextCommit);
    assert!(edit.is_none());
    assert_eq!(
        effect,
        puma_terminal::FieldEffect::SetText {
            node_id: 7,
            sensitive: true,
            text: "axb".to_string()
        }
    );
    let (edit, effect) = puma_terminal::field_step(text_edit("zz"), puma_terminal::InputAction::FieldTextCancel);
    assert!(edit.is_none());
    assert_eq!(effect, puma_terminal::FieldEffect::Nothing);
}

#[test]
fn the_option_cursor_wraps_and_toggles_the_option_under_it() {
    let edit = puma_terminal::FieldEdit::MultiSelect {
        node_id: 3,
        options: vec![option("r", "Red"), option("g", "Green")],
        cursor: 0,
    };
    let (edit, _) = puma_terminal::field_step(edit, puma_terminal::InputAction::FieldMultiSelectMoveUp);
    let (edit, effect) = puma_terminal::field_step(edit.expect("open"), puma_terminal::InputAction::FieldMultiSelectToggle);
    assert_eq!(
        effect,
        puma_terminal::FieldEffect::ToggleOption {
            node_id: 3,
            value: "g".to_string()
        }
    );
    let (edit, _) = puma_terminal::field_step(edit.expect("open"), puma_terminal::InputAction::FieldMultiSelectMoveDown);
    let (edit, effect) = puma_terminal::field_step(edit.expect("open"), puma_terminal::InputAction::FieldMultiSelectToggle);
    assert_eq!(
        effect,
        puma_terminal::FieldEffect::ToggleOption {
            node_id: 3,
            value: "r".to_string()
        }
    );
    let (edit, _) = puma_terminal::field_step(edit.expect("open"), puma_terminal::InputAction::FieldMultiSelectCommit);
    assert!(edit.is_none());
}

#[test]
fn the_confirmation_submits_only_on_the_submit_choice() {
    let edit = puma_terminal::FieldEdit::SubmitConfirmation {
        node_id: 9,
        destination: "https://x.test/".to_string(),
        choice: SubmitChoice::Cancel,
    };
    let (edit, _) = puma_terminal::field_step(edit, puma_terminal::InputAction::SubmitConfirmToggle);
    let (edit, effect) = puma_terminal::field_step(edit.expect("open"), puma_terminal::InputAction::SubmitConfirmActivate);
    assert!(edit.is_none());
    assert_eq!(effect, puma_terminal::FieldEffect::Submit { node_id: 9 });
    let cancelled = puma_terminal::FieldEdit::SubmitConfirmation {
        node_id: 9,
        destination: "https://x.test/".to_string(),
        choice: SubmitChoice::Cancel,
    };
    let (edit, effect) = puma_terminal::field_step(cancelled, puma_terminal::InputAction::SubmitConfirmActivate);
    assert!(edit.is_none());
    assert_eq!(effect, puma_terminal::FieldEffect::Nothing);
}
