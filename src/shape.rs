//! The shape geometry builder: a CSS basic shape resolved against a reference
//! rectangle and a shape margin into a contour.
use vstd::prelude::*;
use crate::geometry::{
    axis_ok, max2, min2, resolve_shape_position, resolve_shape_radius, resolve_unpacked_value,
    resolved, shape_position, shape_radius, LengthPercentage, Point, PositionOrAuto, Rect,
    ShapeRadius,
};
use crate::path::{commands_to_bez_path, run, ByTo, EndPoint, PathEl, ShapeCommand};

verus! {

/// The unit of `path()` coordinates: one millionth of the reference box's
/// width or height, so that 1000000 spans the box.
pub const PATH_UNIT: i64 = 1_000_000;

/// Largest shape margin, in pixels, that the builder accepts.
pub const MARGIN_LIMIT: i64 = 0x0200_0000_0000_0000;

/// The four corner radii of a rounded rectangle, clockwise from the top left.
#[derive(Clone, Copy, Debug, PartialEq, Eq)]
pub struct CornerRadii {
    pub top_left: i64,
    pub top_right: i64,
    pub bottom_right: i64,
    pub bottom_left: i64,
}

/// `inset()`, `rect()` and `xywh()`: edge offsets from the reference box, and
/// corner radii (taken against the width).
#[derive(Clone, Copy, Debug, PartialEq, Eq)]
pub struct InsetRect {
    pub top: LengthPercentage,
    pub right: LengthPercentage,
    pub bottom: LengthPercentage,
    pub left: LengthPercentage,
    pub round_top_left: LengthPercentage,
    pub round_top_right: LengthPercentage,
    pub round_bottom_right: LengthPercentage,
    pub round_bottom_left: LengthPercentage,
}

/// A command of `shape()`, in lengths and percentages of the reference box.
#[derive(Clone, Copy, Debug, PartialEq, Eq)]
pub enum CssEndPoint {
    ToPosition(LengthPercentage, LengthPercentage),
    ByCoordinate(LengthPercentage, LengthPercentage),
}

#[derive(Clone, Copy, Debug, PartialEq, Eq)]
pub struct CssPair {
    pub x: LengthPercentage,
    pub y: LengthPercentage,
}

#[derive(Clone, Copy, Debug, PartialEq, Eq)]
pub enum CssShapeCommand {
    Move { point: CssEndPoint },
    Line { point: CssEndPoint },
    HLine { by_to: ByTo, x: LengthPercentage },
    VLine { by_to: ByTo, y: LengthPercentage },
    CubicCurve { point: CssEndPoint, control1: CssPair, control2: CssPair },
    QuadCurve { point: CssEndPoint, control1: CssPair },
    SmoothCubic { point: CssEndPoint, control2: CssPair },
    SmoothQuad { point: CssEndPoint },
    Arc { point: CssEndPoint, radii: CssPair, sweep_cw: bool, large_arc: bool, rotate: i64 },
    Close,
}

/// A CSS basic shape.
#[derive(Clone, Debug, PartialEq, Eq)]
pub enum BasicShape {
    Circle { radius: ShapeRadius, position: PositionOrAuto },
    Ellipse { semiaxis_x: ShapeRadius, semiaxis_y: ShapeRadius, position: PositionOrAuto },
    Rect(InsetRect),
    Polygon(Vec<CssPair>),
    /// `path()`: commands in `PATH_UNIT`ths of the reference box's width and height.
    Path(Vec<ShapeCommand>),
    /// `shape()`: commands in lengths and percentages.
    Shape(Vec<CssShapeCommand>),
}

/// The four boxes of the CSS box model.
#[derive(Clone, Copy, Debug, PartialEq, Eq)]
pub enum ShapeBox {
    BorderBox,
    PaddingBox,
    ContentBox,
    MarginBox,
}

/// A closed planar contour.
#[derive(Clone, Debug, PartialEq, Eq)]
pub enum Contour {
    /// The outline of one box of a node's frame, rounded as the frame's corners are.
    FrameBox { node: usize, kind: ShapeBox },
    Ellipse { center: Point, radius_x: i64, radius_y: i64 },
    RoundedRect { x0: i64, y0: i64, x1: i64, y1: i64, radii: CornerRadii },
    /// Vertices, each to be pushed away from `center` by `margin`.
    Polygon { points: Vec<Point>, center: Point, margin: i64 },
    /// Segments to be scaled by `scale_x / divisor` and `scale_y / divisor`,
    /// then moved by `offset`.
    Path { elements: Vec<PathEl>, scale_x: i64, scale_y: i64, divisor: i64, offset: Point },
}

pub open spec fn margin_ok(m: int) -> bool {
    0 <= m <= MARGIN_LIMIT
}

pub open spec fn resolved_pair(p: CssPair, w: int, h: int) -> Point {
    Point { x: resolved(p.x, w) as i64, y: resolved(p.y, h) as i64 }
}

pub open spec fn resolved_endpoint(p: CssEndPoint, w: int, h: int) -> EndPoint {
    match p {
        CssEndPoint::ToPosition(x, y) => EndPoint::ToPosition(Point { x: resolved(x, w) as i64, y: resolved(y, h) as i64 }),
        CssEndPoint::ByCoordinate(x, y) => EndPoint::ByCoordinate(Point { x: resolved(x, w) as i64, y: resolved(y, h) as i64 }),
    }
}

/// A `shape()` command with every length-percentage resolved, horizontal ones
/// against `w` and vertical ones against `h`.
pub open spec fn absolute_command(c: CssShapeCommand, w: int, h: int) -> ShapeCommand {
    match c {
        CssShapeCommand::Move { point } => ShapeCommand::Move { point: resolved_endpoint(point, w, h) },
        CssShapeCommand::Line { point } => ShapeCommand::Line { point: resolved_endpoint(point, w, h) },
        CssShapeCommand::HLine { by_to, x } => ShapeCommand::HLine { by_to, x: resolved(x, w) as i64 },
        CssShapeCommand::VLine { by_to, y } => ShapeCommand::VLine { by_to, y: resolved(y, h) as i64 },
        CssShapeCommand::CubicCurve { point, control1, control2 } => ShapeCommand::CubicCurve {
            point: resolved_endpoint(point, w, h),
            control1: resolved_pair(control1, w, h),
            control2: resolved_pair(control2, w, h),
        },
        CssShapeCommand::QuadCurve { point, control1 } => ShapeCommand::QuadCurve {
            point: resolved_endpoint(point, w, h),
            control1: resolved_pair(control1, w, h),
        },
        CssShapeCommand::SmoothCubic { point, control2 } => ShapeCommand::SmoothCubic {
            point: resolved_endpoint(point, w, h),
            control2: resolved_pair(control2, w, h),
        },
        CssShapeCommand::SmoothQuad { point } => ShapeCommand::SmoothQuad { point: resolved_endpoint(point, w, h) },
        CssShapeCommand::Arc { point, radii, sweep_cw, large_arc, rotate } => ShapeCommand::Arc {
            point: resolved_endpoint(point, w, h),
            radii: resolved_pair(radii, w, h),
            sweep_cw,
            large_arc,
            rotate,
        },
        CssShapeCommand::Close => ShapeCommand::Close,
    }
}

fn resolve_coordinate_pair(pair: CssPair, box_width: i64, box_height: i64) -> (r: Point)
    requires
        axis_ok(box_width as int),
        axis_ok(box_height as int),
    ensures
        r == resolved_pair(pair, box_width as int, box_height as int),
{
    Point { x: resolve_unpacked_value(pair.x, box_width), y: resolve_unpacked_value(pair.y, box_height) }
}

fn convert_command_endpoint(endpoint: CssEndPoint, box_width: i64, box_height: i64) -> (r: EndPoint)
    requires
        axis_ok(box_width as int),
        axis_ok(box_height as int),
    ensures
        r == resolved_endpoint(endpoint, box_width as int, box_height as int),
{
    match endpoint {
        CssEndPoint::ToPosition(x, y) => EndPoint::ToPosition(
            Point { x: resolve_unpacked_value(x, box_width), y: resolve_unpacked_value(y, box_height) },
        ),
        CssEndPoint::ByCoordinate(x, y) => EndPoint::ByCoordinate(
            Point { x: resolve_unpacked_value(x, box_width), y: resolve_unpacked_value(y, box_height) },
        ),
    }
}

/// Resolves every length-percentage of `shape()` commands against the box:
/// horizontal ones against `box_width`, vertical ones against `box_height`.
pub fn convert_shape_commands_to_absolute(commands: &Vec<CssShapeCommand>, box_width: i64, box_height: i64) -> (r: Vec<ShapeCommand>)
    requires
        axis_ok(box_width as int),
        axis_ok(box_height as int),
    ensures
        r@.len() == commands@.len(),
        forall|i: int| 0 <= i < r@.len() ==> #[trigger] r@[i] == absolute_command(commands@[i], box_width as int, box_height as int),
{
    let mut out: Vec<ShapeCommand> = Vec::new();
    let mut i: usize = 0;
    while i < commands.len()
        invariant
            axis_ok(box_width as int),
            axis_ok(box_height as int),
            i <= commands@.len(),
            out@.len() == i,
            forall|j: int| 0 <= j < i ==> #[trigger] out@[j] == absolute_command(commands@[j], box_width as int, box_height as int),
        decreases commands@.len() - i,
    {
        let w = box_width;
        let h = box_height;
        let cmd = match commands[i] {
            CssShapeCommand::Move { point } => ShapeCommand::Move { point: convert_command_endpoint(point, w, h) },
            CssShapeCommand::Line { point } => ShapeCommand::Line { point: convert_command_endpoint(point, w, h) },
            CssShapeCommand::HLine { by_to, x } => ShapeCommand::HLine { by_to, x: resolve_unpacked_value(x, w) },
            CssShapeCommand::VLine { by_to, y } => ShapeCommand::VLine { by_to, y: resolve_unpacked_value(y, h) },
            CssShapeCommand::CubicCurve { point, control1, control2 } => ShapeCommand::CubicCurve {
                point: convert_command_endpoint(point, w, h),
                control1: resolve_coordinate_pair(control1, w, h),
                control2: resolve_coordinate_pair(control2, w, h),
            },
            CssShapeCommand::QuadCurve { point, control1 } => ShapeCommand::QuadCurve {
                point: convert_command_endpoint(point, w, h),
                control1: resolve_coordinate_pair(control1, w, h),
            },
            CssShapeCommand::SmoothCubic { point, control2 } => ShapeCommand::SmoothCubic {
                point: convert_command_endpoint(point, w, h),
                control2: resolve_coordinate_pair(control2, w, h),
            },
            CssShapeCommand::SmoothQuad { point } => ShapeCommand::SmoothQuad { point: convert_command_endpoint(point, w, h) },
            CssShapeCommand::Arc { point, radii, sweep_cw, large_arc, rotate } => ShapeCommand::Arc {
                point: convert_command_endpoint(point, w, h),
                radii: resolve_coordinate_pair(radii, w, h),
                sweep_cw,
                large_arc,
                rotate,
            },
            CssShapeCommand::Close => ShapeCommand::Close,
        };
        out.push(cmd);
        i = i + 1;
    }
    out
}

/// `v + margin`, and not below zero.
pub open spec fn grown(v: int, margin: int) -> int {
    max2(0, v + margin)
}

/// The vertices of a polygon resolved in the reference box, before the margin.
pub open spec fn polygon_vertex(p: CssPair, rect: Rect) -> Point {
    Point {
        x: (rect.x0 + resolved(p.x, rect.spec_width())) as i64,
        y: (rect.y0 + resolved(p.y, rect.spec_height())) as i64,
    }
}

/// The center of the reference box, as polygons take it.
pub open spec fn box_center(rect: Rect) -> Point {
    shape_position(PositionOrAuto::Auto, rect)
}

/// The bounds of an inset rectangle: the reference box shrunk by the insets
/// and grown by the margin, with each pair of edges put in order.
pub open spec fn inset_bounds(ins: InsetRect, rect: Rect, margin: int) -> (int, int, int, int) {
    let w = rect.spec_width();
    let h = rect.spec_height();
    let x0_raw = rect.x0 + resolved(ins.left, w) - margin;
    let y0_raw = rect.y0 + resolved(ins.top, h) - margin;
    let x1_raw = rect.x0 + w - resolved(ins.right, w) + margin;
    let y1_raw = rect.y0 + h - resolved(ins.bottom, h) + margin;
    (min2(x0_raw, x1_raw), min2(y0_raw, y1_raw), max2(x0_raw, x1_raw), max2(y0_raw, y1_raw))
}

pub open spec fn inset_radii(ins: InsetRect, rect: Rect) -> CornerRadii {
    let w = rect.spec_width();
    CornerRadii {
        top_left: resolved(ins.round_top_left, w) as i64,
        top_right: resolved(ins.round_top_right, w) as i64,
        bottom_right: resolved(ins.round_bottom_right, w) as i64,
        bottom_left: resolved(ins.round_bottom_left, w) as i64,
    }
}

/// Whether `c` is the contour that `shape` gives in `rect` with `margin`.
pub open spec fn is_shape_contour(shape: BasicShape, rect: Rect, margin: int, c: Contour) -> bool {
    match shape {
        BasicShape::Circle { radius, position } => {
            let center = shape_position(position, rect);
            let r = grown(shape_radius(radius, center, rect, rect.spec_width()), margin);
            c == Contour::Ellipse { center, radius_x: r as i64, radius_y: r as i64 }
        },
        BasicShape::Ellipse { semiaxis_x, semiaxis_y, position } => {
            let center = shape_position(position, rect);
            c == Contour::Ellipse {
                center,
                radius_x: grown(shape_radius(semiaxis_x, center, rect, rect.spec_width()), margin) as i64,
                radius_y: grown(shape_radius(semiaxis_y, center, rect, rect.spec_height()), margin) as i64,
            }
        },
        BasicShape::Rect(ins) => {
            let (x0, y0, x1, y1) = inset_bounds(ins, rect, margin);
            c == Contour::RoundedRect {
                x0: x0 as i64,
                y0: y0 as i64,
                x1: x1 as i64,
                y1: y1 as i64,
                radii: inset_radii(ins, rect),
            }
        },
        BasicShape::Polygon(coords) => match c {
            Contour::Polygon { points, center, margin: m } => {
                &&& center == box_center(rect)
                &&& m == margin
                &&& points@.len() == coords@.len()
                &&& forall|i: int| 0 <= i < points@.len() ==> #[trigger] points@[i] == polygon_vertex(coords@[i], rect)
            },
            _ => false,
        },
        BasicShape::Path(cmds) => match c {
            Contour::Path { elements, scale_x, scale_y, divisor, offset } => {
                &&& run(cmds@) is Some
                &&& elements@ == (run(cmds@)->0).1
                &&& scale_x == rect.spec_width()
                &&& scale_y == rect.spec_height()
                &&& divisor == PATH_UNIT
                &&& offset == (Point { x: rect.x0 as i64, y: rect.y0 as i64 })
            },
            _ => false,
        },
        BasicShape::Shape(cmds) => match c {
            Contour::Path { elements, scale_x, scale_y, divisor, offset } => {
                let abs = cmds@.map_values(|cmd: CssShapeCommand| absolute_command(cmd, rect.spec_width(), rect.spec_height()));
                &&& run(abs) is Some
                &&& elements@ == (run(abs)->0).1
                &&& scale_x == 1
                &&& scale_y == 1
                &&& divisor == 1
                &&& offset == (Point { x: rect.x0 as i64, y: rect.y0 as i64 })
            },
            _ => false,
        },
    }
}

/// Whether the shape has a contour: only the commands of `path()` and
/// `shape()` can fail, where a coordinate leaves the `i64` range.
pub open spec fn shape_has_contour(shape: BasicShape, rect: Rect) -> bool {
    match shape {
        BasicShape::Path(cmds) => run(cmds@) is Some,
        BasicShape::Shape(cmds) => run(
            cmds@.map_values(|cmd: CssShapeCommand| absolute_command(cmd, rect.spec_width(), rect.spec_height())),
        ) is Some,
        _ => true,
    }
}

fn max0(v: i64) -> (r: i64)
    ensures
        r == max2(0, v as int),
{
    if v > 0 { v } else { 0 }
}

fn min_i64(a: i64, b: i64) -> (r: i64)
    ensures
        r == min2(a as int, b as int),
{
    if a <= b { a } else { b }
}

fn max_i64(a: i64, b: i64) -> (r: i64)
    ensures
        r == max2(a as int, b as int),
{
    if a >= b { a } else { b }
}

/// Resolves `shape` against `reference_rect` into a contour. Circle and
/// ellipse radii and inset edges grow by `shape_margin` (radii not below
/// zero); inset edges are put in order; polygon vertices carry the margin for
/// the renderer; `path()`, in `PATH_UNIT`ths of the box, is scaled to it and
/// `shape()` resolved in it.
/// A contour comes even where radii or bounds are degenerate.
pub fn basic_shape_to_path(shape: &BasicShape, reference_rect: Rect, shape_margin: i64) -> (r: Option<Contour>)
    requires
        margin_ok(shape_margin as int),
    ensures
        r is Some <==> shape_has_contour(*shape, reference_rect),
        r is Some ==> is_shape_contour(*shape, reference_rect, shape_margin as int, r->0),
{
    let origin_x = reference_rect.x0 as i64;
    let origin_y = reference_rect.y0 as i64;
    let box_width = reference_rect.width();
    let box_height = reference_rect.height();
    match shape {
        BasicShape::Circle { radius, position } => {
            let center = resolve_shape_position(*position, reference_rect);
            let radius = resolve_shape_radius(*radius, center, reference_rect, box_width);
            let total = max0(radius + shape_margin);
            Some(Contour::Ellipse { center, radius_x: total, radius_y: total })
        },
        BasicShape::Ellipse { semiaxis_x, semiaxis_y, position } => {
            let center = resolve_shape_position(*position, reference_rect);
            let radius_x = resolve_shape_radius(*semiaxis_x, center, reference_rect, box_width) + shape_margin;
            let radius_y = resolve_shape_radius(*semiaxis_y, center, reference_rect, box_height) + shape_margin;
            Some(Contour::Ellipse { center, radius_x: max0(radius_x), radius_y: max0(radius_y) })
        },
        BasicShape::Rect(rect) => {
            let top = resolve_unpacked_value(rect.top, box_height);
            let right = resolve_unpacked_value(rect.right, box_width);
            let bottom = resolve_unpacked_value(rect.bottom, box_height);
            let left = resolve_unpacked_value(rect.left, box_width);
            let x0_raw = origin_x + left - shape_margin;
            let y0_raw = origin_y + top - shape_margin;
            let x1_raw = origin_x + box_width - right + shape_margin;
            let y1_raw = origin_y + box_height - bottom + shape_margin;
            let radii = CornerRadii {
                top_left: resolve_unpacked_value(rect.round_top_left, box_width),
                top_right: resolve_unpacked_value(rect.round_top_right, box_width),
                bottom_right: resolve_unpacked_value(rect.round_bottom_right, box_width),
                bottom_left: resolve_unpacked_value(rect.round_bottom_left, box_width),
            };
            Some(Contour::RoundedRect {
                x0: min_i64(x0_raw, x1_raw),
                y0: min_i64(y0_raw, y1_raw),
                x1: max_i64(x0_raw, x1_raw),
                y1: max_i64(y0_raw, y1_raw),
                radii,
            })
        },
        BasicShape::Polygon(coords) => {
            let center = resolve_shape_position(PositionOrAuto::Auto, reference_rect);
            let mut points: Vec<Point> = Vec::new();
            let mut i: usize = 0;
            while i < coords.len()
                invariant
                    i <= coords@.len(),
                    points@.len() == i,
                    origin_x == reference_rect.x0,
                    origin_y == reference_rect.y0,
                    box_width == reference_rect.spec_width(),
                    box_height == reference_rect.spec_height(),
                    forall|j: int| 0 <= j < i ==> #[trigger] points@[j] == polygon_vertex(coords@[j], reference_rect),
                decreases coords@.len() - i,
            {
                let p = coords[i];
                let x = origin_x + resolve_unpacked_value(p.x, box_width);
                let y = origin_y + resolve_unpacked_value(p.y, box_height);
                points.push(Point { x, y });
                i = i + 1;
            }
            Some(Contour::Polygon { points, center, margin: shape_margin })
        },
        BasicShape::Path(cmds) => match commands_to_bez_path(cmds) {
            Some(elements) => Some(Contour::Path {
                elements,
                scale_x: box_width,
                scale_y: box_height,
                divisor: PATH_UNIT,
                offset: Point { x: origin_x, y: origin_y },
            }),
            None => None,
        },
        BasicShape::Shape(cmds) => {
            let abs = convert_shape_commands_to_absolute(cmds, box_width, box_height);
            proof {
                assert(abs@ == cmds@.map_values(
                    |cmd: CssShapeCommand| absolute_command(cmd, box_width as int, box_height as int),
                ));
            }
            match commands_to_bez_path(&abs) {
                Some(elements) => Some(Contour::Path {
                    elements,
                    scale_x: 1,
                    scale_y: 1,
                    divisor: 1,
                    offset: Point { x: origin_x, y: origin_y },
                }),
                None => None,
            }
        },
    }
}

} // verus!
