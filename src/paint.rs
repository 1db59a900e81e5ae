//! Paint decisions of the compositor: whether and how a node is drawn, how a
//! border edge is painted, and the order in which children are visited.
use vstd::prelude::*;

verus! {

/// A border or outline style.
#[derive(Clone, Copy, Debug, PartialEq, Eq)]
pub enum BorderStyle {
    NoBorder,
    Hidden,
    Dotted,
    Dashed,
    Solid,
    Double,
    Groove,
    Ridge,
    Inset,
    Outset,
}

/// The end of a stroked dash.
#[derive(Clone, Copy, Debug, PartialEq, Eq)]
pub enum Cap {
    Butt,
    Round,
}

/// How one border edge is painted.
#[derive(Clone, Copy, Debug, PartialEq, Eq)]
pub enum EdgePaint {
    Skip,
    /// Fill the edge's quadrilateral.
    Fill,
    /// Stroke the edge with `width`, dashes of `dash` and gaps of `gap`.
    Stroke { width: i64, dash: i64, gap: i64, cap: Cap },
}

pub open spec fn edge_paint(style: BorderStyle, width: int, transparent: bool) -> EdgePaint {
    if transparent {
        EdgePaint::Skip
    } else {
        match style {
            BorderStyle::NoBorder | BorderStyle::Hidden => EdgePaint::Skip,
            BorderStyle::Dotted => EdgePaint::Stroke {
                width: width as i64,
                dash: width as i64,
                gap: width as i64,
                cap: Cap::Round,
            },
            BorderStyle::Dashed => EdgePaint::Stroke {
                width: width as i64,
                dash: (3 * width) as i64,
                gap: (3 * width) as i64,
                cap: Cap::Butt,
            },
            _ => EdgePaint::Fill,
        }
    }
}

/// How a border edge of `width` pixels in `style` is painted. A transparent
/// color, `none` (`NoBorder`) and `hidden` paint nothing; dotted edges are round dots as
/// long as the edge is wide, with gaps as long; dashed edges are
/// butt dashes three widths long with gaps as long; every other style fills
/// the edge as a solid.
pub fn border_edge_paint(style: BorderStyle, width: i64, transparent: bool) -> (r: EdgePaint)
    requires
        -0x1000_0000_0000_0000 <= width <= 0x1000_0000_0000_0000,
    ensures
        r == edge_paint(style, width as int, transparent),
{
    if transparent {
        return EdgePaint::Skip;
    }
    match style {
        BorderStyle::NoBorder | BorderStyle::Hidden => EdgePaint::Skip,
        BorderStyle::Dotted => EdgePaint::Stroke { width, dash: width, gap: width, cap: Cap::Round },
        BorderStyle::Dashed => {
            let dash_size = width * 3;
            EdgePaint::Stroke { width, dash: dash_size, gap: dash_size, cap: Cap::Butt }
        },
        BorderStyle::Solid | BorderStyle::Inset | BorderStyle::Groove | BorderStyle::Outset | BorderStyle::Ridge
        | BorderStyle::Double => EdgePaint::Fill,
    }
}

/// An outline style: `auto`, or one of the border styles.
#[derive(Clone, Copy, Debug, PartialEq, Eq)]
pub enum OutlineStyle {
    Auto,
    Style(BorderStyle),
}

/// How an outline of `width` pixels is painted: `auto` paints nothing; the
/// border styles paint as a border edge of that width does.
pub fn outline_paint(style: OutlineStyle, width: i64) -> (r: EdgePaint)
    requires
        -0x1000_0000_0000_0000 <= width <= 0x1000_0000_0000_0000,
    ensures
        r == (match style {
            OutlineStyle::Auto => EdgePaint::Skip,
            OutlineStyle::Style(b) => edge_paint(b, width as int, false),
        }),
{
    match style {
        OutlineStyle::Auto => EdgePaint::Skip,
        OutlineStyle::Style(b) => border_edge_paint(b, width, false),
    }
}

/// What the compositor reads of a node before drawing it. Lengths are device pixels.
#[derive(Clone, Copy, Debug, PartialEq, Eq)]
pub struct NodePaintState {
    pub display_none: bool,
    pub has_style: bool,
    pub hidden_input: bool,
    pub visible: bool,
    /// Opacity in thousandths.
    pub opacity: u16,
    /// Overflow other than `visible` on either axis.
    pub overflow_clips: bool,
    pub is_image: bool,
    pub has_clip_path: bool,
    /// Top of the box, and the larger of its height and its content height.
    pub box_top: i64,
    pub extent: i64,
    pub viewport_height: i64,
    pub content_width: i64,
    pub content_height: i64,
}

/// Whether and how a node is drawn.
#[derive(Clone, Copy, Debug, PartialEq, Eq)]
pub enum PaintDecision {
    Skip,
    /// Draw, inside a composited layer where `layer` holds; the layer clips to
    /// the clip path if there is one, else to the padding box.
    Draw { layer: bool },
}

pub open spec fn state_ok(s: NodePaintState) -> bool {
    &&& -0x2000_0000_0000_0000 <= s.box_top <= 0x2000_0000_0000_0000
    &&& -0x2000_0000_0000_0000 <= s.extent <= 0x2000_0000_0000_0000
    &&& -0x8000_0000 <= s.content_width <= 0x8000_0000
    &&& -0x8000_0000 <= s.content_height <= 0x8000_0000
}

pub open spec fn paint_decision(s: NodePaintState) -> PaintDecision {
    let clips = s.is_image || s.overflow_clips;
    if s.display_none || !s.has_style || s.hidden_input || !s.visible || s.opacity == 0 {
        PaintDecision::Skip
    } else if s.box_top > s.viewport_height || s.box_top + s.extent < 0 {
        PaintDecision::Skip
    } else if clips && s.content_width * s.content_height <= 0 {
        PaintDecision::Skip
    } else {
        PaintDecision::Draw { layer: clips || s.opacity < 1000 || s.has_clip_path }
    }
}

/// Decides whether a node is drawn: not when its display is `none`, it has
/// no style, it is a hidden input, it is not visible, its opacity is zero, it
/// lies wholly above or below the viewport, or it clips to an empty content
/// box. A drawn node gets a layer when it clips its overflow, is an image, is
/// translucent, or has a clip path.
pub fn element_paint_decision(s: &NodePaintState) -> (r: PaintDecision)
    requires
        state_ok(*s),
    ensures
        r == paint_decision(*s),
{
    if s.display_none || !s.has_style || s.hidden_input || !s.visible || s.opacity == 0 {
        return PaintDecision::Skip;
    }
    let should_clip = s.is_image || s.overflow_clips;
    if s.box_top > s.viewport_height || s.box_top + s.extent < 0 {
        return PaintDecision::Skip;
    }
    proof {
        let (w, h) = (s.content_width as int, s.content_height as int);
        assert(-0x4000_0000_0000_0000 <= w * h <= 0x4000_0000_0000_0000) by (nonlinear_arith)
            requires
                -0x8000_0000 <= w <= 0x8000_0000,
                -0x8000_0000 <= h <= 0x8000_0000,
        ;
    }
    let clip_area = s.content_width as i128 * s.content_height as i128;
    if should_clip && clip_area <= 0 {
        return PaintDecision::Skip;
    }
    PaintDecision::Draw { layer: should_clip || s.opacity < 1000 || s.has_clip_path }
}

/// A child in paint order: hoisted children carry their offset from the parent.
#[derive(Clone, Copy, Debug, PartialEq, Eq)]
pub struct PaintChild {
    pub node: usize,
    pub hoisted: bool,
    pub dx: i64,
    pub dy: i64,
}

/// The order in which children are drawn: hoisted children of negative
/// z-index first, then the normal-flow children in document order, then
/// hoisted children of positive z-index.
pub fn draw_children_order(neg_z: &Vec<PaintChild>, normal: &Vec<usize>, pos_z: &Vec<PaintChild>) -> (r: Vec<PaintChild>)
    ensures
        r@ == neg_z@ + normal@.map_values(|n: usize| PaintChild { node: n, hoisted: false, dx: 0, dy: 0 }) + pos_z@,
{
    let mut out: Vec<PaintChild> = Vec::new();
    let mut i: usize = 0;
    while i < neg_z.len()
        invariant
            i <= neg_z@.len(),
            out@ == neg_z@.take(i as int),
        decreases neg_z@.len() - i,
    {
        out.push(neg_z[i]);
        i = i + 1;
    }
    let ghost after_neg = out@;
    let mut j: usize = 0;
    while j < normal.len()
        invariant
            j <= normal@.len(),
            after_neg == neg_z@,
            out@ == after_neg + normal@.take(j as int).map_values(|n: usize| PaintChild { node: n, hoisted: false, dx: 0, dy: 0 }),
        decreases normal@.len() - j,
    {
        out.push(PaintChild { node: normal[j], hoisted: false, dx: 0, dy: 0 });
        proof {
            assert(normal@.take(j + 1).map_values(|n: usize| PaintChild { node: n, hoisted: false, dx: 0, dy: 0 })
                == normal@.take(j as int).map_values(|n: usize| PaintChild { node: n, hoisted: false, dx: 0, dy: 0 })
                    .push(PaintChild { node: normal@[j as int], hoisted: false, dx: 0, dy: 0 }));
        }
        j = j + 1;
    }
    let ghost after_normal = out@;
    let mut k: usize = 0;
    while k < pos_z.len()
        invariant
            k <= pos_z@.len(),
            out@ == after_normal + pos_z@.take(k as int),
        decreases pos_z@.len() - k,
    {
        out.push(pos_z[k]);
        proof {
            assert(pos_z@.take(k + 1) == pos_z@.take(k as int).push(pos_z@[k as int]));
        }
        k = k + 1;
    }
    proof {
        assert(neg_z@.take(neg_z@.len() as int) == neg_z@);
        assert(normal@.take(normal@.len() as int) == normal@);
        assert(pos_z@.take(pos_z@.len() as int) == pos_z@);
    }
    out
}

/// How an image is sampled.
#[derive(Clone, Copy, Debug, PartialEq, Eq)]
pub enum ImageRendering {
    Auto,
    CrispEdges,
    Pixelated,
}

#[derive(Clone, Copy, Debug, PartialEq, Eq)]
pub enum ImageQuality {
    Low,
    Medium,
}

/// `auto` samples at medium quality; `crisp-edges` and `pixelated` at low.
pub fn to_image_quality(image_rendering: ImageRendering) -> (r: ImageQuality)
    ensures
        r == (match image_rendering {
            ImageRendering::Auto => ImageQuality::Medium,
            _ => ImageQuality::Low,
        }),
{
    match image_rendering {
        ImageRendering::Auto => ImageQuality::Medium,
        ImageRendering::CrispEdges => ImageQuality::Low,
        ImageRendering::Pixelated => ImageQuality::Low,
    }
}

/// The canvas background: the root element's background color unless it is
/// transparent (or the root has no style), and then the body's, if the root
/// has a styled body child.
pub fn pick_canvas_background<C>(root: Option<C>, root_is_transparent: bool, body: Option<C>) -> (r: Option<C>)
    ensures
        r == (match root {
            Some(c) => if root_is_transparent { body } else { Some(c) },
            None => body,
        }),
{
    match root {
        Some(c) => {
            if root_is_transparent {
                body
            } else {
                Some(c)
            }
        },
        None => body,
    }
}

/// The kinds of node that the tree walk meets.
#[derive(Clone, Copy, Debug, PartialEq, Eq)]
pub enum NodeKind {
    Element,
    AnonymousBlock,
    Text,
    Document,
    Comment,
}

/// Only elements and anonymous blocks are drawn as boxes; text is drawn as
/// part of its inline layout.
pub fn renders_node(kind: NodeKind) -> (r: bool)
    ensures
        r == (kind == NodeKind::Element || kind == NodeKind::AnonymousBlock),
{
    match kind {
        NodeKind::Element | NodeKind::AnonymousBlock => true,
        NodeKind::Text | NodeKind::Document | NodeKind::Comment => false,
    }
}

/// One step of drawing a node.
#[derive(Clone, Copy, Debug, PartialEq, Eq)]
pub enum DrawStep {
    /// Open a composited layer: the clip path (or the padding box), the
    /// opacity and the transform.
    PushLayer,
    Outline,
    OutsetBoxShadow,
    Background,
    Border,
    InsetBoxShadow,
    DevtoolsStroke,
    /// Move the position by the node's scroll offset for what follows.
    ApplyScrollOffset,
    Image,
    Svg,
    Canvas,
    FormControl,
    TextInput,
    InlineLayout,
    ListMarker,
    Children,
    PopLayer,
}

/// The fixed order of a node's draws.
pub open spec fn node_draws() -> Seq<DrawStep> {
    seq![
        DrawStep::Outline,
        DrawStep::OutsetBoxShadow,
        DrawStep::Background,
        DrawStep::Border,
        DrawStep::InsetBoxShadow,
        DrawStep::DevtoolsStroke,
        DrawStep::ApplyScrollOffset,
        DrawStep::Image,
        DrawStep::Svg,
        DrawStep::Canvas,
        DrawStep::FormControl,
        DrawStep::TextInput,
        DrawStep::InlineLayout,
        DrawStep::ListMarker,
        DrawStep::Children,
    ]
}

/// The draws of a node that `decision` draws, in order: outline, outset
/// shadow, background, border, inset shadow and the devtools stroke; then,
/// scrolled, the replaced content (image, SVG, canvas), form controls, text
/// input, inline text, list marker and children; all inside a layer where
/// the decision asks for one. A skipped node has no draws.
pub fn element_draw_plan(decision: PaintDecision) -> (r: Vec<DrawStep>)
    ensures
        r@ == (match decision {
            PaintDecision::Skip => seq![],
            PaintDecision::Draw { layer: true } => seq![DrawStep::PushLayer] + node_draws() + seq![DrawStep::PopLayer],
            PaintDecision::Draw { layer: false } => node_draws(),
        }),
{
    let mut plan: Vec<DrawStep> = Vec::new();
    let layer = match decision {
        PaintDecision::Skip => {
            return plan;
        },
        PaintDecision::Draw { layer } => layer,
    };
    if layer {
        plan.push(DrawStep::PushLayer);
    }
    plan.push(DrawStep::Outline);
    plan.push(DrawStep::OutsetBoxShadow);
    plan.push(DrawStep::Background);
    plan.push(DrawStep::Border);
    plan.push(DrawStep::InsetBoxShadow);
    plan.push(DrawStep::DevtoolsStroke);
    plan.push(DrawStep::ApplyScrollOffset);
    plan.push(DrawStep::Image);
    plan.push(DrawStep::Svg);
    plan.push(DrawStep::Canvas);
    plan.push(DrawStep::FormControl);
    plan.push(DrawStep::TextInput);
    plan.push(DrawStep::InlineLayout);
    plan.push(DrawStep::ListMarker);
    plan.push(DrawStep::Children);
    if layer {
        plan.push(DrawStep::PopLayer);
    }
    proof {
        if layer {
            assert(plan@ =~= seq![DrawStep::PushLayer] + node_draws() + seq![DrawStep::PopLayer]);
        } else {
            assert(plan@ =~= node_draws());
        }
    }
    plan
}

} // verus!
