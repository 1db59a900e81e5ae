use blitz_paint::dom::{DomNode, ElementKind};
use blitz_paint::keyboard::{
    apply_keypress_event, handle_keypress, implicit_form_submission, is_blocking_type, paste_event,
    EditCommand, FormControl, GeneratedEvent, KeyCode, KeyInput, KeyMods, KeyOutcome, KeypressPlan,
};
use blitz_paint::paint::{outline_paint, BorderStyle, Cap, EdgePaint, OutlineStyle};

const PLAIN: KeyMods = KeyMods { shift: false, action: false };
const SHIFT: KeyMods = KeyMods { shift: true, action: false };
const ACTION: KeyMods = KeyMods { shift: false, action: true };
const BOTH: KeyMods = KeyMods { shift: true, action: true };

fn press(key: KeyInput, code: KeyCode, mods: KeyMods) -> KeyOutcome {
    apply_keypress_event(&key, code, true, mods, false, true)
}

#[test]
fn release_does_nothing() {
    let r = apply_keypress_event(&KeyInput::Character("q".to_string()), KeyCode::Other, false, PLAIN, false, false);
    assert_eq!(r, KeyOutcome { command: EditCommand::Nothing, event: None });
}

#[test]
fn clipboard_shortcuts() {
    assert_eq!(press(KeyInput::Character("v".to_string()), KeyCode::Other, ACTION).command, EditCommand::Paste);
    assert_eq!(press(KeyInput::Other, KeyCode::KeyV, ACTION).command, EditCommand::Paste);
    assert_eq!(press(KeyInput::Character("c".to_string()), KeyCode::Other, ACTION), KeyOutcome { command: EditCommand::Copy, event: None });
    assert_eq!(
        press(KeyInput::Character("x".to_string()), KeyCode::KeyX, ACTION),
        KeyOutcome { command: EditCommand::Cut, event: Some(GeneratedEvent::Input) }
    );
    let no_selection = apply_keypress_event(&KeyInput::Character("x".to_string()), KeyCode::KeyX, true, ACTION, false, false);
    assert_eq!(no_selection, KeyOutcome { command: EditCommand::Nothing, event: None });
    assert_eq!(paste_event(true), Some(GeneratedEvent::Input));
    assert_eq!(paste_event(false), None);
}

#[test]
fn select_all_and_typing() {
    assert_eq!(press(KeyInput::Character("A".to_string()), KeyCode::Other, ACTION).command, EditCommand::SelectAll);
    assert_eq!(press(KeyInput::Character("a".to_string()), KeyCode::Other, BOTH).command, EditCommand::CollapseSelection);
    assert_eq!(
        press(KeyInput::Character("a".to_string()), KeyCode::Other, PLAIN),
        KeyOutcome { command: EditCommand::InsertKeyText, event: Some(GeneratedEvent::Input) }
    );
}

#[test]
fn navigation_keys() {
    assert_eq!(press(KeyInput::ArrowLeft, KeyCode::Other, PLAIN).command, EditCommand::MoveLeft);
    assert_eq!(press(KeyInput::ArrowLeft, KeyCode::Other, SHIFT).command, EditCommand::SelectLeft);
    assert_eq!(press(KeyInput::ArrowRight, KeyCode::Other, ACTION).command, EditCommand::MoveWordRight);
    assert_eq!(press(KeyInput::ArrowRight, KeyCode::Other, BOTH).command, EditCommand::SelectWordRight);
    assert_eq!(press(KeyInput::ArrowUp, KeyCode::Other, SHIFT).command, EditCommand::SelectUp);
    assert_eq!(press(KeyInput::Home, KeyCode::Other, ACTION).command, EditCommand::MoveToTextStart);
    assert_eq!(press(KeyInput::End, KeyCode::Other, SHIFT).command, EditCommand::SelectToLineEnd);
}

#[test]
fn deleting_and_enter() {
    assert_eq!(
        press(KeyInput::Backspace, KeyCode::Other, ACTION),
        KeyOutcome { command: EditCommand::BackdeleteWord, event: Some(GeneratedEvent::Input) }
    );
    assert_eq!(press(KeyInput::Delete, KeyCode::Other, PLAIN).command, EditCommand::Delete);
    assert_eq!(
        press(KeyInput::Enter, KeyCode::Other, PLAIN),
        KeyOutcome { command: EditCommand::Nothing, event: Some(GeneratedEvent::Submit) }
    );
    let multi = apply_keypress_event(&KeyInput::Enter, KeyCode::Other, true, PLAIN, true, false);
    assert_eq!(multi, KeyOutcome { command: EditCommand::InsertNewline, event: None });
}

#[test]
fn keypress_routing() {
    let nodes = vec![
        DomNode { parent: None, element: Some(ElementKind::Other), disabled: false },
        DomNode { parent: Some(0), element: Some(ElementKind::TextInput), disabled: false },
    ];
    assert_eq!(
        handle_keypress(&nodes, 0, Some(1), &KeyInput::Tab, KeyCode::Other, true, PLAIN, false, false),
        KeypressPlan::FocusNext
    );
    assert_eq!(
        handle_keypress(&nodes, 0, None, &KeyInput::Delete, KeyCode::Other, true, PLAIN, false, false),
        KeypressPlan::Ignore
    );
    assert_eq!(
        handle_keypress(&nodes, 0, Some(1), &KeyInput::Delete, KeyCode::Other, true, PLAIN, false, false),
        KeypressPlan::Edit {
            node: 1,
            outcome: KeyOutcome { command: EditCommand::Delete, event: Some(GeneratedEvent::Input) },
        }
    );
}

fn control(control: usize, form: usize, t: Option<&str>) -> FormControl {
    FormControl { control, form, input_type: t.map(|s| s.to_string()) }
}

#[test]
fn implicit_submission_rules() {
    assert!(is_blocking_type("datetime-local"));
    assert!(!is_blocking_type("checkbox"));
    assert!(!is_blocking_type("Text"));
    let single = vec![control(1, 9, Some("text")), control(2, 9, Some("checkbox")), control(3, 8, Some("email"))];
    assert_eq!(implicit_form_submission(&single, 1), Some(9));
    assert_eq!(implicit_form_submission(&single, 5), None);
    let two = vec![control(1, 9, Some("text")), control(2, 9, Some("password"))];
    assert_eq!(implicit_form_submission(&two, 1), None);
}

#[test]
fn outline_styles() {
    assert_eq!(outline_paint(OutlineStyle::Auto, 3), EdgePaint::Skip);
    assert_eq!(outline_paint(OutlineStyle::Style(BorderStyle::Solid), 3), EdgePaint::Fill);
    assert_eq!(
        outline_paint(OutlineStyle::Style(BorderStyle::Dotted), 3),
        EdgePaint::Stroke { width: 3, dash: 3, gap: 3, cap: Cap::Round }
    );
}
