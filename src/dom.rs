//! Node records of the document tree, as far as event handling reads them.
use vstd::prelude::*;

verus! {

/// What kind of element a node is, as far as clicks tell them apart.
#[derive(Clone, Copy, Debug, PartialEq, Eq)]
pub enum ElementKind {
    TextInput,
    Checkbox,
    Radio,
    /// A `<label>`, with the input element it is bound to.
    Label { bound_input: Option<usize> },
    /// An `<a>`, and whether it has an `href`.
    Link { has_href: bool },
    /// A submit button, with the form that owns it.
    Submit { form_owner: Option<usize> },
    Other,
}

/// A node of the flat node store: its parent link, its element kind (none
/// for text, comments and the document), and whether it is disabled.
#[derive(Clone, Copy, Debug, PartialEq, Eq)]
pub struct DomNode {
    pub parent: Option<usize>,
    pub element: Option<ElementKind>,
    pub disabled: bool,
}

impl DomNode {
    pub open spec fn spec_is_text_input(&self) -> bool {
        self.element == Some(ElementKind::TextInput)
    }

    /// Whether the node is a text input element.
    pub fn is_text_input(&self) -> (r: bool)
        ensures
            r == self.spec_is_text_input(),
    {
        match self.element {
            Some(ElementKind::TextInput) => true,
            _ => false,
        }
    }
}

/// Every parent link points into the store.
pub open spec fn nodes_wf(nodes: Seq<DomNode>) -> bool {
    forall|i: int|
        0 <= i < nodes.len() ==> match #[trigger] nodes[i].parent {
            Some(p) => p < nodes.len(),
            None => true,
        }
}

/// Whether a text input is met walking at most `steps` nodes up from `id`.
pub open spec fn text_input_on_chain(nodes: Seq<DomNode>, id: int, steps: nat) -> bool
    decreases steps,
{
    if steps == 0 || !(0 <= id < nodes.len()) {
        false
    } else if nodes[id].spec_is_text_input() {
        true
    } else {
        match nodes[id].parent {
            Some(p) => text_input_on_chain(nodes, p as int, (steps - 1) as nat),
            None => false,
        }
    }
}

/// Whether `node_id` is a text input or lies inside one. The walk takes at most
/// as many steps as there are nodes, which covers every ancestor of an acyclic tree.
pub fn is_text_input_or_inside(nodes: &Vec<DomNode>, node_id: usize) -> (r: bool)
    requires
        node_id < nodes@.len(),
        nodes_wf(nodes@),
    ensures
        r == text_input_on_chain(nodes@, node_id as int, nodes@.len()),
{
    let mut current: Option<usize> = Some(node_id);
    let mut steps: usize = nodes.len();
    while steps > 0
        invariant
            steps <= nodes@.len(),
            nodes_wf(nodes@),
            text_input_on_chain(nodes@, node_id as int, nodes@.len()) == match current {
                Some(id) => text_input_on_chain(nodes@, id as int, steps as nat),
                None => false,
            },
            match current {
                Some(id) => id < nodes@.len(),
                None => true,
            },
        decreases steps,
    {
        match current {
            None => {
                return false;
            },
            Some(id) => {
                let node = nodes[id];
                if node.is_text_input() {
                    return true;
                }
                assert(nodes_wf(nodes@) ==> match nodes@[id as int].parent {
                    Some(p) => p < nodes@.len(),
                    None => true,
                });
                current = node.parent;
                steps = steps - 1;
            },
        }
    }
    false
}

} // verus!
