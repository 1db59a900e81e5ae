//! The clip-path resolver: per node, the contour that its `clip-path` gives,
//! following `url()` references between nodes with a guard against cycles and
//! a cache that lives for one paint pass.
use vstd::prelude::*;
use vstd::set_lib::*;
use std::collections::{HashMap, HashSet};
use std::rc::Rc;
use crate::boxes::CssBox;
use crate::geometry::Rect;
use crate::margin::{resolve_shape_margin_for_node, shape_margin_of};
use crate::shape::{basic_shape_to_path, is_shape_contour, shape_has_contour, BasicShape, Contour, ShapeBox};

verus! {

broadcast use vstd::std_specs::hash::group_hash_axioms;

/// The reference box that a clip path names.
#[derive(Clone, Copy, Debug, PartialEq, Eq)]
pub enum GeometryBox {
    ShapeBox(ShapeBox),
    FillBox,
    StrokeBox,
    ViewBox,
    ElementDependent,
}

/// A node's `clip-path`. A `url(#id)` holds the node that the fragment names,
/// if there is one.
#[derive(Clone, Debug, PartialEq, Eq)]
pub enum ClipPath {
    NoClip,
    Url(Option<usize>),
    Box(GeometryBox),
    Shape(BasicShape, GeometryBox),
}

/// What the resolver reads of a node: its clip path, whether it has style,
/// its frame, and its inline style text (where `shape-margin` is found).
#[derive(Clone, Debug, PartialEq, Eq)]
pub struct ClipNode {
    pub clip_path: ClipPath,
    pub has_style: bool,
    pub frame: CssBox,
    pub style_attr: Option<String>,
}

impl ClipNode {
    /// The node's shape margin, taken against its border box.
    pub open spec fn shape_margin(&self) -> int {
        shape_margin_of(
            match self.style_attr {
                Some(s) => Some(s@),
                None => None,
            },
            self.frame.border_box,
        )
    }
}

/// The box that a geometry box stands for; the boxes of SVG layout, which
/// HTML nodes lack, fall back to the border box.
pub open spec fn box_kind(g: GeometryBox) -> ShapeBox {
    match g {
        GeometryBox::ShapeBox(b) => b,
        _ => ShapeBox::BorderBox,
    }
}

pub open spec fn frame_rect(frame: CssBox, kind: ShapeBox) -> Rect {
    match kind {
        ShapeBox::BorderBox => frame.border_box,
        ShapeBox::PaddingBox => frame.padding_box,
        ShapeBox::ContentBox => frame.content_box,
        ShapeBox::MarginBox => frame.margin_box,
    }
}

/// The rectangle of the frame that a geometry box names.
pub fn reference_rect_for_geometry_box(frame: &CssBox, geometry_box: GeometryBox) -> (r: Rect)
    ensures
        r == frame_rect(*frame, box_kind(geometry_box)),
{
    match geometry_box {
        GeometryBox::ShapeBox(shape_box) => match shape_box {
            ShapeBox::BorderBox => frame.border_box,
            ShapeBox::PaddingBox => frame.padding_box,
            ShapeBox::ContentBox => frame.content_box,
            ShapeBox::MarginBox => frame.margin_box,
        },
        GeometryBox::FillBox | GeometryBox::StrokeBox | GeometryBox::ViewBox | GeometryBox::ElementDependent => {
            frame.border_box
        },
    }
}

/// The contour of a geometry-box clip on node `node`.
pub fn clip_path_for_geometry_box(node: usize, geometry_box: GeometryBox) -> (r: Contour)
    ensures
        r == (Contour::FrameBox { node, kind: box_kind(geometry_box) }),
{
    let kind = match geometry_box {
        GeometryBox::ShapeBox(shape_box) => shape_box,
        GeometryBox::FillBox | GeometryBox::StrokeBox | GeometryBox::ViewBox | GeometryBox::ElementDependent => {
            ShapeBox::BorderBox
        },
    };
    Contour::FrameBox { node, kind }
}

/// Whether node `s` clips by a contour of its own (a box or a shape) and `c` is it.
pub open spec fn is_own_contour(nodes: Seq<ClipNode>, s: int, c: Contour) -> bool {
    match nodes[s].clip_path {
        ClipPath::Box(g) => c == Contour::FrameBox { node: s as usize, kind: box_kind(g) },
        ClipPath::Shape(shape, g) => is_shape_contour(
            shape,
            frame_rect(nodes[s].frame, box_kind(g)),
            nodes[s].shape_margin(),
            c,
        ),
        _ => false,
    }
}

/// Whether node `s` clips by a contour of its own that can be built.
pub open spec fn has_own_contour(nodes: Seq<ClipNode>, s: int) -> bool {
    match nodes[s].clip_path {
        ClipPath::Box(_) => true,
        ClipPath::Shape(shape, g) => shape_has_contour(shape, frame_rect(nodes[s].frame, box_kind(g))),
        _ => false,
    }
}

/// Resolution of node `id` with the nodes in `visited` being resolved and
/// `cache` recording, per node, the node whose own contour it resolved to.
/// Gives that node, or `None` for no clip, and the cache afterwards. A cached
/// node gives its entry; a node already being resolved gives no clip; a
/// `url()` that names no node, a node being resolved, or a node without style
/// gives no clip. `fuel` bounds the depth; it is never spent where `visited`
/// holds only nodes of the store and `fuel` is the number of the others.
pub open spec fn resolution(
    nodes: Seq<ClipNode>,
    cache: Seq<Option<usize>>,
    id: int,
    visited: Set<usize>,
    fuel: nat,
) -> (Option<usize>, Seq<Option<usize>>)
    decreases fuel,
{
    if !(0 <= id < nodes.len()) || cache.len() != nodes.len() {
        (None, cache)
    } else if cache[id] is Some {
        (cache[id], cache)
    } else if visited.contains(id as usize) || fuel == 0 {
        (None, cache)
    } else {
        let inner = visited.insert(id as usize);
        let (src, after) = match nodes[id].clip_path {
            ClipPath::Url(Some(t)) => if t < nodes.len() && !inner.contains(t) && nodes[t as int].has_style {
                resolution(nodes, cache, t as int, inner, (fuel - 1) as nat)
            } else {
                (None, cache)
            },
            ClipPath::Box(_) | ClipPath::Shape(_, _) => if has_own_contour(nodes, id) {
                (Some(id as usize), cache)
            } else {
                (None, cache)
            },
            _ => (None, cache),
        };
        match src {
            Some(s) => (Some(s), after.update(id, Some(s))),
            None => (None, after),
        }
    }
}

/// How many shapes a resolution builds.
pub open spec fn builds(
    nodes: Seq<ClipNode>,
    cache: Seq<Option<usize>>,
    id: int,
    visited: Set<usize>,
    fuel: nat,
) -> nat
    decreases fuel,
{
    if !(0 <= id < nodes.len()) || cache.len() != nodes.len() {
        0
    } else if cache[id] is Some {
        0
    } else if visited.contains(id as usize) || fuel == 0 {
        0
    } else {
        let inner = visited.insert(id as usize);
        match nodes[id].clip_path {
            ClipPath::Url(Some(t)) => if t < nodes.len() && !inner.contains(t) && nodes[t as int].has_style {
                builds(nodes, cache, t as int, inner, (fuel - 1) as nat)
            } else {
                0
            },
            ClipPath::Shape(_, _) => 1,
            _ => 0,
        }
    }
}

/// Resolves clip paths for one paint pass. The cache starts empty and is
/// dropped with the resolver.
pub struct ClipResolver {
    pub nodes: Vec<ClipNode>,
    pub cache: HashMap<usize, Rc<Contour>>,
    /// Per node, the clip path last resolved for it, for lookups by the node;
    /// the cache owns the contours.
    pub node_clip: Vec<Option<Rc<Contour>>>,
    /// Per node, the node whose own contour its cache entry is.
    pub cache_src: Ghost<Seq<Option<usize>>>,
    /// How many shapes have been built.
    pub shape_builds: Ghost<nat>,
}

impl ClipResolver {
    pub open spec fn wf(&self) -> bool {
        let n = self.nodes@.len();
        &&& self.node_clip@.len() == n
        &&& self.cache_src@.len() == n
        &&& forall|k: usize| #[trigger] self.cache@.contains_key(k) ==> k < n
        &&& forall|i: int| 0 <= i < n ==> (self.cache@.contains_key(i as usize) <==> #[trigger] self.cache_src@[i] is Some)
        &&& forall|i: int| 0 <= i < n && #[trigger] self.cache_src@[i] is Some ==> {
            let s = self.cache_src@[i]->0;
            &&& s < n
            &&& is_own_contour(self.nodes@, s as int, *self.cache@[i as usize])
        }
    }

    /// The cache entry of node `i`, if any.
    pub open spec fn cache_entry(&self, i: usize) -> Option<Rc<Contour>> {
        if self.cache@.contains_key(i) {
            Some(self.cache@[i])
        } else {
            None
        }
    }

    /// A resolver for one paint pass over `nodes`, with an empty cache.
    pub fn new(nodes: Vec<ClipNode>) -> (r: ClipResolver)
        ensures
            r.wf(),
            r.nodes@ == nodes@,
            forall|i: int| 0 <= i < nodes@.len() ==> #[trigger] r.cache_src@[i] is None,
            forall|i: int| 0 <= i < nodes@.len() ==> #[trigger] r.node_clip@[i] is None,
            r.shape_builds@ == 0,
    {
        let cache: HashMap<usize, Rc<Contour>> = HashMap::new();
        let mut node_clip: Vec<Option<Rc<Contour>>> = Vec::new();
        let mut i: usize = 0;
        while i < nodes.len()
            invariant
                i <= nodes@.len(),
                node_clip@.len() == i,
                forall|j: int| 0 <= j < i ==> #[trigger] node_clip@[j] is None,
            decreases nodes@.len() - i,
        {
            node_clip.push(None);
            i = i + 1;
        }
        ClipResolver {
            nodes,
            cache,
            node_clip,
            cache_src: Ghost(Seq::new(i as nat, |j: int| None)),
            shape_builds: Ghost(0),
        }
    }

    /// Resolves the clip path of `node_id` while the nodes in `visited` are
    /// being resolved: the contour, or `None` for no clip. A cache hit is
    /// returned as it is; a resolved contour is cached for the node.
    pub fn clip_path_from_styles_inner(&mut self, node_id: usize, visited: &mut HashSet<usize>) -> (r: Option<Rc<Contour>>)
        requires
            old(self).wf(),
            node_id < old(self).nodes@.len(),
            ids_below(old(visited)@, old(self).nodes@.len()),
        ensures
            final(self).wf(),
            final(self).nodes@ == old(self).nodes@,
            final(visited)@ == old(visited)@,
            ({
                let (src, after) = resolution(
                    old(self).nodes@,
                    old(self).cache_src@,
                    node_id as int,
                    old(visited)@,
                    (old(self).nodes@.len() - old(visited)@.len()) as nat,
                );
                &&& final(self).cache_src@ == after
                &&& src is None <==> r is None
                &&& src is Some ==> src->0 < old(self).nodes@.len() && is_own_contour(old(self).nodes@, src->0 as int, *r->0)
                &&& final(self).shape_builds@ == old(self).shape_builds@ + builds(
                    old(self).nodes@,
                    old(self).cache_src@,
                    node_id as int,
                    old(visited)@,
                    (old(self).nodes@.len() - old(visited)@.len()) as nat,
                )
            }),
            old(self).cache_entry(node_id) is Some ==> r == old(self).cache_entry(node_id)
                && final(self).cache@ == old(self).cache@,
            old(self).cache_entry(node_id) is None && old(visited)@.contains(node_id) ==> r is None
                && final(self).cache@ == old(self).cache@
                && final(self).cache_src@ == old(self).cache_src@
                && final(self).node_clip@ == old(self).node_clip@
                && final(self).shape_builds@ == old(self).shape_builds@,
            r is Some ==> final(self).cache_entry(node_id) == r,
            old(self).cache_entry(node_id) is Some || !old(visited)@.contains(node_id) ==> final(self).node_clip@[node_id as int] == r,
            final(self).node_clip@.len() == old(self).node_clip@.len(),
            forall|i: int| 0 <= i < final(self).node_clip@.len() ==> #[trigger] final(self).node_clip@[i] == old(self).node_clip@[i]
                || final(self).node_clip@[i] == r,
        decreases old(self).nodes@.len() - old(visited)@.len(), 0nat,
    {
        let node_count = self.nodes.len();
        let ghost n = node_count as nat;
        let ghost fuel = (n - visited@.len()) as nat;
        if let Some(cached) = self.cache.get(&node_id) {
            let hit = share(cached);
            self.node_clip.set(node_id, Some(share(&hit)));
            return Some(hit);
        }
        if visited.contains(&node_id) {
            return None;
        }
        proof {
            lemma_subset_len(old(visited)@, n);
            lemma_subset_len(old(visited)@.insert(node_id), n);
            assert(old(visited)@.insert(node_id).len() == old(visited)@.len() + 1);
        }
        visited.insert(node_id);
        let path: Option<Rc<Contour>> = match &self.nodes[node_id].clip_path {
            ClipPath::NoClip => None,
            ClipPath::Url(target) => self.clip_path_from_url(*target, visited),
            ClipPath::Box(geometry_box) => Some(Rc::new(clip_path_for_geometry_box(node_id, *geometry_box))),
            ClipPath::Shape(basic_shape, geometry_box) => {
                let node = &self.nodes[node_id];
                let style_attr = match &node.style_attr {
                    Some(s) => Some(s.as_str()),
                    None => None,
                };
                let shape_margin = resolve_shape_margin_for_node(style_attr, node.frame.border_box);
                let reference_rect = reference_rect_for_geometry_box(&node.frame, *geometry_box);
                let built = basic_shape_to_path(basic_shape, reference_rect, shape_margin);
                proof {
                    self.shape_builds@ = self.shape_builds@ + 1;
                }
                match built {
                    Some(c) => Some(Rc::new(c)),
                    None => None,
                }
            },
        };
        visited.remove(&node_id);
        proof {
            assert(visited@ == old(visited)@);
        }
        match path {
            Some(p) => {
                self.node_clip.set(node_id, Some(share(&p)));
                self.cache.insert(node_id, share(&p));
                proof {
                    let (s0, _after) = resolution(old(self).nodes@, old(self).cache_src@, node_id as int, old(visited)@, fuel);
                    self.cache_src@ = self.cache_src@.update(node_id as int, s0);
                }
                Some(p)
            },
            None => {
                self.node_clip.set(node_id, None);
                None
            },
        }
    }

    /// Resolves the clip path of `node_id` for this pass: the contour, or
    /// `None` for no clip. Scaling to device pixels is left to the caller.
    pub fn clip_path_from_styles(&mut self, node_id: usize) -> (r: Option<Rc<Contour>>)
        requires
            old(self).wf(),
            node_id < old(self).nodes@.len(),
        ensures
            final(self).wf(),
            final(self).nodes@ == old(self).nodes@,
            ({
                let (src, after) = resolution(
                    old(self).nodes@,
                    old(self).cache_src@,
                    node_id as int,
                    Set::empty(),
                    old(self).nodes@.len(),
                );
                &&& final(self).cache_src@ == after
                &&& src is None <==> r is None
                &&& src is Some ==> src->0 < old(self).nodes@.len() && is_own_contour(old(self).nodes@, src->0 as int, *r->0)
                &&& final(self).shape_builds@ == old(self).shape_builds@ + builds(
                    old(self).nodes@,
                    old(self).cache_src@,
                    node_id as int,
                    Set::empty(),
                    old(self).nodes@.len(),
                )
            }),
            old(self).cache_entry(node_id) is Some ==> r == old(self).cache_entry(node_id)
                && final(self).cache@ == old(self).cache@,
            r is Some ==> final(self).cache_entry(node_id) == r,
            final(self).node_clip@[node_id as int] == r,
            forall|i: int| 0 <= i < final(self).node_clip@.len() ==> #[trigger] final(self).node_clip@[i] == old(self).node_clip@[i]
                || final(self).node_clip@[i] == r,
    {
        let mut visited: HashSet<usize> = HashSet::new();
        proof {
            assert(visited@.len() == 0);
        }
        self.clip_path_from_styles_inner(node_id, &mut visited)
    }

    fn clip_path_from_url(&mut self, target: Option<usize>, visited: &mut HashSet<usize>) -> (r: Option<Rc<Contour>>)
        requires
            old(self).wf(),
            ids_below(old(visited)@, old(self).nodes@.len()),
        ensures
            final(self).wf(),
            final(self).nodes@ == old(self).nodes@,
            final(visited)@ == old(visited)@,
            ({
                let fuel = (old(self).nodes@.len() - old(visited)@.len()) as nat;
                let (src, after) = match target {
                    Some(t) => if t < old(self).nodes@.len() && !old(visited)@.contains(t)
                        && old(self).nodes@[t as int].has_style {
                        resolution(old(self).nodes@, old(self).cache_src@, t as int, old(visited)@, fuel)
                    } else {
                        (None, old(self).cache_src@)
                    },
                    None => (None, old(self).cache_src@),
                };
                let built = match target {
                    Some(t) => if t < old(self).nodes@.len() && !old(visited)@.contains(t)
                        && old(self).nodes@[t as int].has_style {
                        builds(old(self).nodes@, old(self).cache_src@, t as int, old(visited)@, fuel)
                    } else {
                        0
                    },
                    None => 0,
                };
                &&& final(self).cache_src@ == after
                &&& src is None <==> r is None
                &&& src is Some ==> src->0 < old(self).nodes@.len() && is_own_contour(old(self).nodes@, src->0 as int, *r->0)
                &&& final(self).shape_builds@ == old(self).shape_builds@ + built
            }),
            forall|i: int| 0 <= i < final(self).node_clip@.len() ==> #[trigger] final(self).node_clip@[i] == old(self).node_clip@[i]
                || final(self).node_clip@[i] == r,
        decreases old(self).nodes@.len() - old(visited)@.len(), 1nat,
    {
        let referenced_id = match target {
            Some(t) => t,
            None => {
                return None;
            },
        };
        if referenced_id >= self.nodes.len() || visited.contains(&referenced_id) {
            return None;
        }
        if !self.nodes[referenced_id].has_style {
            return None;
        }
        self.clip_path_from_styles_inner(referenced_id, visited)
    }
}

/// Resolution keeps the cache's length.
pub proof fn lemma_resolution_len(nodes: Seq<ClipNode>, cache: Seq<Option<usize>>, id: int, visited: Set<usize>, fuel: nat)
    ensures
        resolution(nodes, cache, id, visited, fuel).1.len() == cache.len(),
    decreases fuel,
{
    if fuel > 0 && 0 <= id < nodes.len() && cache.len() == nodes.len() && cache[id] is None && !visited.contains(id as usize) {
        match nodes[id].clip_path {
            ClipPath::Url(Some(t)) => {
                lemma_resolution_len(nodes, cache, t as int, visited.insert(id as usize), (fuel - 1) as nat);
            },
            _ => {},
        }
    }
}

/// A node whose `url()` names a node whose `url()` names it back is left
/// unclipped: the cycle ends in no clip rather than in endless recursion.
pub proof fn lemma_url_cycle_gives_no_clip(nodes: Seq<ClipNode>, cache: Seq<Option<usize>>, a: usize, b: usize)
    requires
        a < nodes.len(),
        b < nodes.len(),
        a != b,
        cache.len() == nodes.len(),
        cache[a as int] is None,
        cache[b as int] is None,
        nodes[a as int].clip_path == ClipPath::Url(Some(b)),
        nodes[b as int].clip_path == ClipPath::Url(Some(a)),
    ensures
        resolution(nodes, cache, a as int, Set::empty(), nodes.len()).0 is None,
        builds(nodes, cache, a as int, Set::empty(), nodes.len()) == 0,
{
    let v1 = Set::<usize>::empty().insert(a);
    assert(!v1.contains(b));
    let v2 = v1.insert(b);
    assert(v2.contains(a));
    let f = (nodes.len() - 1) as nat;
    if nodes[b as int].has_style {
        assert(resolution(nodes, cache, b as int, v1, f).0 is None);
        assert(builds(nodes, cache, b as int, v1, f) == 0);
    }
}

/// Once a node's clip path has resolved to a contour, resolving it again in
/// the same pass is a cache hit: the same node, the cache unchanged, and no
/// shape built.
pub proof fn lemma_second_resolution_hits_cache(nodes: Seq<ClipNode>, cache: Seq<Option<usize>>, id: int)
    requires
        0 <= id < nodes.len(),
        cache.len() == nodes.len(),
        resolution(nodes, cache, id, Set::empty(), nodes.len()).0 is Some,
    ensures
        ({
            let (src, after) = resolution(nodes, cache, id, Set::empty(), nodes.len());
            &&& after[id] == src
            &&& resolution(nodes, after, id, Set::empty(), nodes.len()) == (src, after)
            &&& builds(nodes, after, id, Set::empty(), nodes.len()) == 0
        }),
{
    let n = nodes.len();
    lemma_resolution_len(nodes, cache, id, Set::empty(), n);
    let (src, after) = resolution(nodes, cache, id, Set::empty(), n);
    if cache[id] is None {
        let inner = Set::<usize>::empty().insert(id as usize);
        match nodes[id].clip_path {
            ClipPath::Url(Some(t)) => {
                lemma_resolution_len(nodes, cache, t as int, inner, (n - 1) as nat);
            },
            _ => {},
        }
        assert(after[id] == src);
    }
    assert(after[id] is Some);
}

/// A resolution builds at most one shape: the one that ends its chain of
/// references.
pub proof fn lemma_builds_at_most_one(nodes: Seq<ClipNode>, cache: Seq<Option<usize>>, id: int, visited: Set<usize>, fuel: nat)
    ensures
        builds(nodes, cache, id, visited, fuel) <= 1,
    decreases fuel,
{
    if fuel > 0 && 0 <= id < nodes.len() && cache.len() == nodes.len() && cache[id] is None && !visited.contains(id as usize) {
        match nodes[id].clip_path {
            ClipPath::Url(Some(t)) => {
                lemma_builds_at_most_one(nodes, cache, t as int, visited.insert(id as usize), (fuel - 1) as nat);
            },
            _ => {},
        }
    }
}

/// Relies on `Rc::clone`: the new pointer shares the contour of the old one.
#[verifier::external_body]
fn share(c: &Rc<Contour>) -> (r: Rc<Contour>)
    ensures
        r == *c,
{
    Rc::clone(c)
}

/// A set of node indices has no more members than there are nodes.
proof fn lemma_subset_len(s: Set<usize>, n: nat)
    requires
        n <= usize::MAX,
        ids_below(s, n),
    ensures
        s.finite(),
        s.len() <= n,
{
    range_set_properties::<usize>(0, n as usize);
    assert(s.subset_of(Set::<usize>::range(0, n as usize)));
    lemma_len_subset(s, Set::<usize>::range(0, n as usize));
}

/// Every member of `s` is below `n`.
pub open spec fn ids_below(s: Set<usize>, n: nat) -> bool {
    forall|x: usize| #[trigger] s.contains(x) ==> x < n
}

} // verus!
