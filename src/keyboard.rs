//! Key presses in text inputs: which editing command a key asks for, and
//! when a form is submitted implicitly.
use vstd::prelude::*;
use crate::dom::DomNode;
use crate::margin::{ascii_ieq, ascii_ieq_range};

verus! {

/// A key, as far as text editing tells keys apart.
#[derive(Clone, Debug, PartialEq, Eq)]
pub enum KeyInput {
    Character(String),
    Tab,
    ArrowLeft,
    ArrowRight,
    ArrowUp,
    ArrowDown,
    Home,
    End,
    Delete,
    Backspace,
    Enter,
    Other,
}

/// The physical key, as far as the clipboard shortcuts read it.
#[derive(Clone, Copy, Debug, PartialEq, Eq, Structural)]
pub enum KeyCode {
    KeyV,
    KeyC,
    KeyX,
    Other,
}

/// The event that an edit generates.
#[derive(Clone, Copy, Debug, PartialEq, Eq)]
pub enum GeneratedEvent {
    Input,
    Submit,
}

/// An editing command for the text editor.
#[derive(Clone, Copy, Debug, PartialEq, Eq)]
pub enum EditCommand {
    Nothing,
    /// Insert the clipboard's text in place of the selection.
    Paste,
    /// Put the selection on the clipboard.
    Copy,
    /// Put the selection on the clipboard and delete it.
    Cut,
    SelectAll,
    CollapseSelection,
    MoveLeft,
    SelectLeft,
    MoveWordLeft,
    SelectWordLeft,
    MoveRight,
    SelectRight,
    MoveWordRight,
    SelectWordRight,
    MoveUp,
    SelectUp,
    MoveDown,
    SelectDown,
    MoveToLineStart,
    SelectToLineStart,
    MoveToTextStart,
    SelectToTextStart,
    MoveToLineEnd,
    SelectToLineEnd,
    MoveToTextEnd,
    SelectToTextEnd,
    Delete,
    DeleteWord,
    Backdelete,
    BackdeleteWord,
    InsertNewline,
    /// Insert the key's characters in place of the selection.
    InsertKeyText,
}

/// The modifier state of a key event.
#[derive(Clone, Copy, Debug, PartialEq, Eq)]
pub struct KeyMods {
    pub shift: bool,
    /// The platform's action modifier (Command on macOS, Control elsewhere).
    pub action: bool,
}

/// What a key press in a text input does.
#[derive(Clone, Copy, Debug, PartialEq, Eq)]
pub struct KeyOutcome {
    pub command: EditCommand,
    pub event: Option<GeneratedEvent>,
}

pub open spec fn outcome(command: EditCommand, event: Option<GeneratedEvent>) -> KeyOutcome {
    KeyOutcome { command, event }
}

/// The characters of a character key, or nothing for other keys.
pub open spec fn key_chars(key: KeyInput) -> Option<Seq<char>> {
    match key {
        KeyInput::Character(s) => Some(s@),
        _ => None,
    }
}

pub open spec fn is_letter_key(key: KeyInput, code: KeyCode, letter: char, letter_code: KeyCode) -> bool {
    key_chars(key) == Some(seq![letter]) || code == letter_code
}

/// Chooses between the plain, shifted, word and shifted word forms of a move.
pub open spec fn pick(mods: KeyMods, plain: EditCommand, select: EditCommand, word: EditCommand, select_word: EditCommand) -> EditCommand {
    if mods.action {
        if mods.shift { select_word } else { word }
    } else if mods.shift {
        select
    } else {
        plain
    }
}

pub open spec fn key_outcome(key: KeyInput, code: KeyCode, pressed: bool, mods: KeyMods, multiline: bool, has_selection: bool) -> KeyOutcome {
    if !pressed {
        outcome(EditCommand::Nothing, None)
    } else if mods.action && is_letter_key(key, code, 'v', KeyCode::KeyV) {
        outcome(EditCommand::Paste, None)
    } else if mods.action && is_letter_key(key, code, 'c', KeyCode::KeyC) {
        outcome(if has_selection { EditCommand::Copy } else { EditCommand::Nothing }, None)
    } else if mods.action && is_letter_key(key, code, 'x', KeyCode::KeyX) {
        if has_selection {
            outcome(EditCommand::Cut, Some(GeneratedEvent::Input))
        } else {
            outcome(EditCommand::Nothing, None)
        }
    } else {
        match key {
            KeyInput::Character(s) => if mods.action && ascii_ieq(s@, seq!['a']) {
                outcome(if mods.shift { EditCommand::CollapseSelection } else { EditCommand::SelectAll }, None)
            } else {
                outcome(EditCommand::InsertKeyText, Some(GeneratedEvent::Input))
            },
            KeyInput::ArrowLeft => outcome(
                pick(mods, EditCommand::MoveLeft, EditCommand::SelectLeft, EditCommand::MoveWordLeft, EditCommand::SelectWordLeft),
                None,
            ),
            KeyInput::ArrowRight => outcome(
                pick(mods, EditCommand::MoveRight, EditCommand::SelectRight, EditCommand::MoveWordRight, EditCommand::SelectWordRight),
                None,
            ),
            KeyInput::ArrowUp => outcome(if mods.shift { EditCommand::SelectUp } else { EditCommand::MoveUp }, None),
            KeyInput::ArrowDown => outcome(if mods.shift { EditCommand::SelectDown } else { EditCommand::MoveDown }, None),
            KeyInput::Home => outcome(
                pick(mods, EditCommand::MoveToLineStart, EditCommand::SelectToLineStart, EditCommand::MoveToTextStart, EditCommand::SelectToTextStart),
                None,
            ),
            KeyInput::End => outcome(
                pick(mods, EditCommand::MoveToLineEnd, EditCommand::SelectToLineEnd, EditCommand::MoveToTextEnd, EditCommand::SelectToTextEnd),
                None,
            ),
            KeyInput::Delete => outcome(
                if mods.action { EditCommand::DeleteWord } else { EditCommand::Delete },
                Some(GeneratedEvent::Input),
            ),
            KeyInput::Backspace => outcome(
                if mods.action { EditCommand::BackdeleteWord } else { EditCommand::Backdelete },
                Some(GeneratedEvent::Input),
            ),
            KeyInput::Enter => if multiline {
                outcome(EditCommand::InsertNewline, None)
            } else {
                outcome(EditCommand::Nothing, Some(GeneratedEvent::Submit))
            },
            _ => outcome(EditCommand::Nothing, None),
        }
    }
}

/// Whether `s` is exactly `word`.
pub fn str_is(s: &str, word: &str) -> (r: bool)
    ensures
        r == (s@ == word@),
{
    let n = s.unicode_len();
    if n != word.unicode_len() {
        return false;
    }
    let mut i: usize = 0;
    while i < n
        invariant
            n == s@.len(),
            n == word@.len(),
            i <= n,
            forall|k: int| 0 <= k < i ==> s@[k] == word@[k],
        decreases n - i,
    {
        if s.get_char(i) != word.get_char(i) {
            return false;
        }
        i = i + 1;
    }
    assert(s@ =~= word@);
    true
}

fn key_is(key: &KeyInput, code: KeyCode, word: &str, letter_code: KeyCode) -> (r: bool)
    ensures
        r == (key_chars(*key) == Some(word@) || code == letter_code),
{
    let chars_match = match key {
        KeyInput::Character(s) => str_is(s.as_str(), word),
        _ => false,
    };
    chars_match || code == letter_code
}

fn ascii_ieq_str(s: &str, word: &str) -> (r: bool)
    ensures
        r == ascii_ieq(s@, word@),
{
    let n = s.unicode_len();
    proof {
        assert(s@.subrange(0, n as int) == s@);
    }
    ascii_ieq_range(s, 0, n, word)
}

fn pick_command(mods: KeyMods, plain: EditCommand, select: EditCommand, word: EditCommand, select_word: EditCommand) -> (r: EditCommand)
    ensures
        r == pick(mods, plain, select, word, select_word),
{
    if mods.action {
        if mods.shift { select_word } else { word }
    } else if mods.shift {
        select
    } else {
        plain
    }
}

/// The editing command and generated event of a key event in a text input.
/// Releases do nothing. With the action modifier, `v` (or the V key) pastes,
/// `c` copies and `x` cuts a selection, `a` selects all (collapses with
/// shift); arrows, Home and End move, by word or to the text's ends with the
/// action modifier, and select with shift; Delete and Backspace delete a
/// character or a word and send input; Enter adds a line where the input has
/// lines and otherwise submits; other characters are inserted and send input.
pub fn apply_keypress_event(key: &KeyInput, code: KeyCode, pressed: bool, mods: KeyMods, multiline: bool, has_selection: bool) -> (r: KeyOutcome)
    ensures
        r == key_outcome(*key, code, pressed, mods, multiline, has_selection),
{
    proof {
        reveal_strlit("v");
        reveal_strlit("c");
        reveal_strlit("x");
        reveal_strlit("a");
        assert(seq!['v'] == "v"@);
        assert(seq!['c'] == "c"@);
        assert(seq!['x'] == "x"@);
        assert(seq!['a'] == "a"@);
    }
    if !pressed {
        return KeyOutcome { command: EditCommand::Nothing, event: None };
    }
    if mods.action {
        if key_is(key, code, "v", KeyCode::KeyV) {
            return KeyOutcome { command: EditCommand::Paste, event: None };
        } else if key_is(key, code, "c", KeyCode::KeyC) {
            let command = if has_selection { EditCommand::Copy } else { EditCommand::Nothing };
            return KeyOutcome { command, event: None };
        } else if key_is(key, code, "x", KeyCode::KeyX) {
            if has_selection {
                return KeyOutcome { command: EditCommand::Cut, event: Some(GeneratedEvent::Input) };
            }
            return KeyOutcome { command: EditCommand::Nothing, event: None };
        }
    }
    let (command, event) = match key {
        KeyInput::Character(s) => {
            if mods.action && ascii_ieq_str(s.as_str(), "a") {
                (if mods.shift { EditCommand::CollapseSelection } else { EditCommand::SelectAll }, None)
            } else {
                (EditCommand::InsertKeyText, Some(GeneratedEvent::Input))
            }
        },
        KeyInput::ArrowLeft => (
            pick_command(mods, EditCommand::MoveLeft, EditCommand::SelectLeft, EditCommand::MoveWordLeft, EditCommand::SelectWordLeft),
            None,
        ),
        KeyInput::ArrowRight => (
            pick_command(mods, EditCommand::MoveRight, EditCommand::SelectRight, EditCommand::MoveWordRight, EditCommand::SelectWordRight),
            None,
        ),
        KeyInput::ArrowUp => (if mods.shift { EditCommand::SelectUp } else { EditCommand::MoveUp }, None),
        KeyInput::ArrowDown => (if mods.shift { EditCommand::SelectDown } else { EditCommand::MoveDown }, None),
        KeyInput::Home => (
            pick_command(mods, EditCommand::MoveToLineStart, EditCommand::SelectToLineStart, EditCommand::MoveToTextStart, EditCommand::SelectToTextStart),
            None,
        ),
        KeyInput::End => (
            pick_command(mods, EditCommand::MoveToLineEnd, EditCommand::SelectToLineEnd, EditCommand::MoveToTextEnd, EditCommand::SelectToTextEnd),
            None,
        ),
        KeyInput::Delete => (
            if mods.action { EditCommand::DeleteWord } else { EditCommand::Delete },
            Some(GeneratedEvent::Input),
        ),
        KeyInput::Backspace => (
            if mods.action { EditCommand::BackdeleteWord } else { EditCommand::Backdelete },
            Some(GeneratedEvent::Input),
        ),
        KeyInput::Enter => {
            if multiline {
                (EditCommand::InsertNewline, None)
            } else {
                (EditCommand::Nothing, Some(GeneratedEvent::Submit))
            }
        },
        KeyInput::Tab | KeyInput::Other => (EditCommand::Nothing, None),
    };
    KeyOutcome { command, event }
}

/// The event that a paste sends: input where the clipboard gave text, none
/// where reading it failed.
pub fn paste_event(clipboard_gave_text: bool) -> (r: Option<GeneratedEvent>)
    ensures
        r == (if clipboard_gave_text { Some(GeneratedEvent::Input) } else { None }),
{
    if clipboard_gave_text {
        Some(GeneratedEvent::Input)
    } else {
        None
    }
}

/// A control of a form: its node, its form, and its `type` attribute.
#[derive(Clone, Debug, PartialEq, Eq)]
pub struct FormControl {
    pub control: usize,
    pub form: usize,
    pub input_type: Option<String>,
}

/// The input types that block implicit submission when a form has more than one.
pub open spec fn blocking_types() -> Seq<Seq<char>> {
    seq![
        "text"@, "search"@, "email"@, "url"@, "tel"@, "password"@, "date"@, "month"@, "week"@, "time"@,
        "datetime-local"@, "number"@,
    ]
}

pub open spec fn blocks_implicit_submission(t: Option<String>) -> bool {
    match t {
        Some(s) => blocking_types().contains(s@),
        None => false,
    }
}

/// Whether an input of type `t` blocks implicit submission.
pub fn is_blocking_type(t: &str) -> (r: bool)
    ensures
        r == blocking_types().contains(t@),
{
    let words: [&str; 12] = [
        "text", "search", "email", "url", "tel", "password", "date", "month", "week", "time", "datetime-local",
        "number",
    ];
    let mut i: usize = 0;
    while i < 12
        invariant
            i <= 12,
            words@.map_values(|w: &str| w@) == blocking_types(),
            forall|k: int| 0 <= k < i ==> words@[k]@ != t@,
        decreases 12 - i,
    {
        if str_is(t, words[i]) {
            proof {
                assert(blocking_types()[i as int] == t@);
            }
            return true;
        }
        i = i + 1;
    }
    proof {
        if blocking_types().contains(t@) {
            let k = choose|k: int| 0 <= k < blocking_types().len() && blocking_types()[k] == t@;
            assert(words@[k]@ == t@);
        }
    }
    false
}

/// How many controls of `form` among `controls` block implicit submission.
pub open spec fn blockers(controls: Seq<FormControl>, form: usize) -> nat
    decreases controls.len(),
{
    if controls.len() == 0 {
        0
    } else {
        let last = controls.last();
        blockers(controls.drop_last(), form) + if last.form == form && blocks_implicit_submission(last.input_type) {
            1nat
        } else {
            0nat
        }
    }
}

/// The form of `target` among `controls`: the first entry for it.
pub open spec fn form_of(controls: Seq<FormControl>, target: usize) -> Option<usize>
    decreases controls.len(),
{
    if controls.len() == 0 {
        None
    } else if controls[0].control == target {
        Some(controls[0].form)
    } else {
        form_of(controls.drop_first(), target)
    }
}

/// The form that Enter in the text input `target` submits: its form owner,
/// unless that form has more than one field that blocks implicit submission.
pub fn implicit_form_submission(controls: &Vec<FormControl>, target: usize) -> (r: Option<usize>)
    ensures
        r == (match form_of(controls@, target) {
            Some(f) => if blockers(controls@, f) > 1 { None } else { Some(f) },
            None => None,
        }),
{
    let mut owner: Option<usize> = None;
    let mut i: usize = 0;
    proof {
        assert(controls@.skip(0) == controls@);
    }
    while i < controls.len()
        invariant
            i <= controls@.len(),
            owner is None ==> form_of(controls@, target) == form_of(controls@.skip(i as int), target),
            owner matches Some(f) ==> form_of(controls@, target) == Some(f),
        decreases controls@.len() - i,
    {
        if owner.is_none() && controls[i].control == target {
            owner = Some(controls[i].form);
        }
        proof {
            assert(controls@.skip(i as int).drop_first() == controls@.skip(i + 1));
        }
        i = i + 1;
    }
    let form = match owner {
        Some(f) => f,
        None => {
            return None;
        },
    };
    let mut count: usize = 0;
    let mut j: usize = 0;
    while j < controls.len()
        invariant
            j <= controls@.len(),
            count == blockers(controls@.take(j as int), form),
            count <= j,
        decreases controls@.len() - j,
    {
        proof {
            assert(controls@.take(j + 1).drop_last() == controls@.take(j as int));
        }
        let c = &controls[j];
        if c.form == form {
            let blocks = match &c.input_type {
                Some(t) => is_blocking_type(t.as_str()),
                None => false,
            };
            if blocks {
                count = count + 1;
            }
        }
        j = j + 1;
    }
    proof {
        assert(controls@.take(controls@.len() as int) == controls@);
    }
    if count > 1 {
        None
    } else {
        Some(form)
    }
}

/// What a key event does.
#[derive(Clone, Copy, Debug, PartialEq, Eq)]
pub enum KeypressPlan {
    /// Move the focus to the next focusable node.
    FocusNext,
    /// The node has no text input: nothing happens.
    Ignore,
    /// Apply `outcome` to the text input `node`.
    Edit { node: usize, outcome: KeyOutcome },
}

/// Routes a key event: Tab moves the focus; other keys go to the focused
/// node, or to the target where nothing has focus, and edit it if it is a
/// text input.
pub fn handle_keypress(
    nodes: &Vec<DomNode>,
    target: usize,
    focused: Option<usize>,
    key: &KeyInput,
    code: KeyCode,
    pressed: bool,
    mods: KeyMods,
    multiline: bool,
    has_selection: bool,
) -> (r: KeypressPlan)
    requires
        target < nodes@.len(),
        focused matches Some(f) ==> f < nodes@.len(),
    ensures
        r == (if *key == KeyInput::Tab {
            KeypressPlan::FocusNext
        } else {
            let node = match focused {
                Some(f) => f,
                None => target,
            };
            if nodes@[node as int].spec_is_text_input() {
                KeypressPlan::Edit { node, outcome: key_outcome(*key, code, pressed, mods, multiline, has_selection) }
            } else {
                KeypressPlan::Ignore
            }
        }),
{
    if let KeyInput::Tab = key {
        return KeypressPlan::FocusNext;
    }
    let node_id = match focused {
        Some(f) => f,
        None => target,
    };
    if !nodes[node_id].is_text_input() {
        return KeypressPlan::Ignore;
    }
    let outcome = apply_keypress_event(key, code, pressed, mods, multiline, has_selection);
    KeypressPlan::Edit { node: node_id, outcome }
}

} // verus!
