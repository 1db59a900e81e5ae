//! Default actions of mouse events: what a click does, walking up from its
//! target, and what a released button asks for.
use vstd::prelude::*;
use crate::dom::{is_text_input_or_inside, nodes_wf, text_input_on_chain, DomNode, ElementKind};

verus! {

/// One default action of a click, for the caller to carry out.
#[derive(Clone, Copy, Debug, PartialEq, Eq)]
pub enum ClickAction {
    /// Toggle the checkbox, send it an input event and focus it.
    ToggleCheckbox(usize),
    /// Check the radio button in its group, send it an input event and focus it.
    SelectRadio(usize),
    /// Click the input that the label is bound to.
    ClickLabelTarget(usize),
    /// Follow the link's `href`.
    Navigate(usize),
    /// Submit the form, with the button as submitter.
    SubmitForm { form: usize, submitter: usize },
    /// Collapse the focused text input's selection and clear the focus.
    CollapseSelectionAndBlur(usize),
    /// Clear the focus.
    ClearFocus,
}

/// The actions of the walk from `id` up through at most `steps` nodes, and
/// whether the walk ended at an element that handles the click.
pub open spec fn click_walk(nodes: Seq<DomNode>, id: Option<usize>, steps: nat) -> (Seq<ClickAction>, bool)
    decreases steps,
{
    match id {
        None => (seq![], false),
        Some(i) => if steps == 0 || i >= nodes.len() {
            (seq![], false)
        } else {
            let node = nodes[i as int];
            let up = node.parent;
            match node.element {
                None => click_walk(nodes, up, (steps - 1) as nat),
                Some(kind) => if node.disabled {
                    (seq![], true)
                } else {
                    match kind {
                        ElementKind::TextInput => (seq![], true),
                        ElementKind::Checkbox => (seq![ClickAction::ToggleCheckbox(i)], true),
                        ElementKind::Radio => (seq![ClickAction::SelectRadio(i)], true),
                        ElementKind::Label { bound_input: Some(t) } => (seq![ClickAction::ClickLabelTarget(t)], true),
                        ElementKind::Link { has_href: true } => (seq![ClickAction::Navigate(i)], true),
                        ElementKind::Submit { form_owner: Some(f) } => {
                            let (rest, done) = click_walk(nodes, up, (steps - 1) as nat);
                            (seq![ClickAction::SubmitForm { form: f, submitter: i }].add(rest), done)
                        },
                        _ => click_walk(nodes, up, (steps - 1) as nat),
                    }
                },
            }
        },
    }
}

/// Whether `id`, if any, is a text input or inside one.
pub open spec fn inside_text_input(nodes: Seq<DomNode>, id: Option<usize>) -> bool {
    match id {
        Some(i) => text_input_on_chain(nodes, i as int, nodes.len()),
        None => false,
    }
}

/// What a click that no element handled does to the focus: a focused text
/// input keeps it unless both the press and the click fell outside it;
/// otherwise the focus is cleared.
pub open spec fn focus_outcome(nodes: Seq<DomNode>, target: usize, focused: Option<usize>, mousedown: Option<usize>) -> Seq<ClickAction> {
    match focused {
        Some(f) => if f < nodes.len() && nodes[f as int].spec_is_text_input() {
            if !inside_text_input(nodes, Some(target)) && !inside_text_input(nodes, mousedown) {
                seq![ClickAction::CollapseSelectionAndBlur(f)]
            } else {
                seq![]
            }
        } else {
            seq![ClickAction::ClearFocus]
        },
        None => seq![ClickAction::ClearFocus],
    }
}

pub open spec fn click_outcome(nodes: Seq<DomNode>, target: usize, focused: Option<usize>, mousedown: Option<usize>) -> Seq<ClickAction> {
    let (acts, done) = click_walk(nodes, Some(target), nodes.len());
    if done {
        acts
    } else {
        acts + focus_outcome(nodes, target, focused, mousedown)
    }
}

fn inside(nodes: &Vec<DomNode>, id: Option<usize>) -> (r: bool)
    requires
        nodes_wf(nodes@),
        id matches Some(i) ==> i < nodes@.len(),
    ensures
        r == inside_text_input(nodes@, id),
{
    match id {
        Some(i) => is_text_input_or_inside(nodes, i),
        None => false,
    }
}

/// The default actions of a click on `target`, in order. Walking up from the
/// target, a disabled element or a text input ends the walk with nothing to
/// do; a checkbox, a radio button, a bound label or a link with `href` ends it
/// with its action; a submit button with a form submits it and the walk goes
/// on. A walk that no element ended settles the focus.
pub fn handle_click(nodes: &Vec<DomNode>, target: usize, focused: Option<usize>, mousedown: Option<usize>) -> (r: Vec<ClickAction>)
    requires
        nodes_wf(nodes@),
        target < nodes@.len(),
        mousedown matches Some(m) ==> m < nodes@.len(),
    ensures
        r@ == click_outcome(nodes@, target, focused, mousedown),
{
    let mut actions: Vec<ClickAction> = Vec::new();
    let mut current: Option<usize> = Some(target);
    let mut steps: usize = nodes.len();
    let mut done = false;
    while steps > 0 && !done && current.is_some()
        invariant
            steps <= nodes@.len(),
            nodes_wf(nodes@),
            current matches Some(c) ==> c < nodes@.len(),
            ({
                let (all, fin) = click_walk(nodes@, Some(target), nodes@.len());
                let (rest, rfin) = click_walk(nodes@, current, steps as nat);
                if done {
                    all == actions@ && fin
                } else {
                    all == actions@ + rest && fin == rfin
                }
            }),
        decreases steps,
    {
        let ghost before = actions@;
        let id = match current {
            Some(i) => i,
            // The loop runs only while `current` holds a node.
            None => target,
        };
        let node = nodes[id];
        assert(nodes_wf(nodes@) ==> match nodes@[id as int].parent {
            Some(p) => p < nodes@.len(),
            None => true,
        });
        match node.element {
            None => {},
            Some(kind) => {
                if node.disabled {
                    done = true;
                } else {
                    match kind {
                        ElementKind::TextInput => {
                            done = true;
                        },
                        ElementKind::Checkbox => {
                            actions.push(ClickAction::ToggleCheckbox(id));
                            done = true;
                        },
                        ElementKind::Radio => {
                            actions.push(ClickAction::SelectRadio(id));
                            done = true;
                        },
                        ElementKind::Label { bound_input: Some(t) } => {
                            actions.push(ClickAction::ClickLabelTarget(t));
                            done = true;
                        },
                        ElementKind::Link { has_href: true } => {
                            actions.push(ClickAction::Navigate(id));
                            done = true;
                        },
                        ElementKind::Submit { form_owner: Some(f) } => {
                            actions.push(ClickAction::SubmitForm { form: f, submitter: id });
                            proof {
                                let (rest, _) = click_walk(nodes@, node.parent, (steps - 1) as nat);
                                assert(before + seq![ClickAction::SubmitForm { form: f, submitter: id }].add(rest)
                                    == actions@ + rest);
                            }
                        },
                        _ => {},
                    }
                }
            },
        }
        proof {
            if done {
                assert(actions@ == before + click_walk(nodes@, current, steps as nat).0);
            }
        }
        current = node.parent;
        steps = steps - 1;
    }
    proof {
        if !done {
            assert(click_walk(nodes@, current, steps as nat).0 == Seq::<ClickAction>::empty());
            assert(actions@ + Seq::<ClickAction>::empty() == actions@);
        }
    }
    if done {
        return actions;
    }
    let focused_text_input = match focused {
        Some(f) => f < nodes.len() && nodes[f].is_text_input(),
        None => false,
    };
    if focused_text_input {
        let click_target_is_outside = !inside(nodes, Some(target));
        let mousedown_was_inside = inside(nodes, mousedown);
        if click_target_is_outside && !mousedown_was_inside {
            match focused {
                Some(f) => actions.push(ClickAction::CollapseSelectionAndBlur(f)),
                None => {},
            }
        }
    } else {
        actions.push(ClickAction::ClearFocus);
    }
    actions
}

/// What releasing a mouse button asks for.
#[derive(Clone, Copy, Debug, PartialEq, Eq)]
pub struct MouseUpPlan {
    /// Extend the focused text input's selection to the pointer.
    pub finalize_selection: bool,
    /// Log the node under the pointer for the inspector, and end hover highlighting.
    pub inspect_node: bool,
    /// Dispatch a click on the target.
    pub dispatch_click: bool,
}

/// The plan for a released button: with the main button and a focused text
/// input, a selection begun inside a text input is finalized; while the
/// inspector highlights hovered nodes the release inspects the node instead
/// of clicking; otherwise the main button clicks.
pub fn handle_mouseup(nodes: &Vec<DomNode>, main_button: bool, focused: Option<usize>, mousedown: Option<usize>, highlight_hover: bool) -> (r: MouseUpPlan)
    requires
        nodes_wf(nodes@),
        mousedown matches Some(m) ==> m < nodes@.len(),
        focused matches Some(f) ==> f < nodes@.len(),
    ensures
        r.finalize_selection == (main_button && inside_text_input(nodes@, mousedown) && match focused {
            Some(f) => nodes@[f as int].spec_is_text_input(),
            None => false,
        }),
        r.inspect_node == highlight_hover,
        r.dispatch_click == (!highlight_hover && main_button),
{
    let focused_text_input = match focused {
        Some(f) => nodes[f].is_text_input(),
        None => false,
    };
    let finalize_selection = main_button && inside(nodes, mousedown) && focused_text_input;
    MouseUpPlan { finalize_selection, inspect_node: highlight_hover, dispatch_click: !highlight_hover && main_button }
}

/// What moving the pointer does to a text selection.
#[derive(Clone, Copy, Debug, PartialEq, Eq)]
pub enum MouseMovePlan {
    /// Nothing beyond the hover update.
    Hover,
    /// Extend the focused text input's selection; to the hit point where the
    /// pointer is over that input (`at_hit`), else to the pointer clamped into it.
    ExtendFocused { node: usize, at_hit: bool },
    /// Extend the target text input's selection to the hit point.
    ExtendTarget(usize),
}

/// While a button is held, a focused text input extends its selection
/// wherever the pointer goes; otherwise a held pointer over an enabled text
/// input that is the target extends that input's selection.
pub fn handle_mousemove(nodes: &Vec<DomNode>, target: usize, focused: Option<usize>, hit: Option<usize>, buttons_pressed: bool) -> (r: MouseMovePlan)
    requires
        target < nodes@.len(),
        focused matches Some(f) ==> f < nodes@.len(),
    ensures
        r == (match focused {
            Some(f) if buttons_pressed && nodes@[f as int].spec_is_text_input() => MouseMovePlan::ExtendFocused {
                node: f,
                at_hit: hit == Some(f),
            },
            _ => if buttons_pressed && hit == Some(target) && nodes@[target as int].spec_is_text_input()
                && !nodes@[target as int].disabled {
                MouseMovePlan::ExtendTarget(target)
            } else {
                MouseMovePlan::Hover
            },
        }),
{
    if buttons_pressed {
        if let Some(f) = focused {
            if nodes[f].is_text_input() {
                let at_hit = match hit {
                    Some(h) => h == f,
                    None => false,
                };
                return MouseMovePlan::ExtendFocused { node: f, at_hit };
            }
        }
    }
    let hit_target = match hit {
        Some(h) => h == target,
        None => false,
    };
    if !hit_target {
        return MouseMovePlan::Hover;
    }
    let node = nodes[target];
    if node.disabled || !node.is_text_input() || !buttons_pressed {
        return MouseMovePlan::Hover;
    }
    MouseMovePlan::ExtendTarget(target)
}

/// Pressing a button over an enabled text input that is the target places
/// the caret there and focuses it: gives that input, or `None`.
pub fn handle_mousedown(nodes: &Vec<DomNode>, target: usize, hit: Option<usize>) -> (r: Option<usize>)
    requires
        target < nodes@.len(),
    ensures
        r == (if hit == Some(target) && nodes@[target as int].spec_is_text_input() && !nodes@[target as int].disabled {
            Some(target)
        } else {
            None
        }),
{
    match hit {
        Some(h) => {
            if h != target {
                return None;
            }
        },
        None => {
            return None;
        },
    }
    let node = nodes[target];
    if node.disabled || !node.is_text_input() {
        return None;
    }
    Some(target)
}

} // verus!
