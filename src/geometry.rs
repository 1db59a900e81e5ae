//! Points, reference rectangles, and the resolution of lengths, percentages,
//! positions and shape radii against a reference rectangle.
use vstd::prelude::*;

verus! {

/// Largest magnitude of a resolved coordinate that the builders accept.
pub const POINT_LIMIT: i64 = 0x0400_0000_0000_0000;

/// A point in integer CSS pixels.
#[derive(Clone, Copy, Debug, PartialEq, Eq)]
pub struct Point {
    pub x: i64,
    pub y: i64,
}

/// An axis-aligned rectangle given by its edges, as laid out (`x0` left, `x1` right).
#[derive(Clone, Copy, Debug, PartialEq, Eq)]
pub struct Rect {
    pub x0: i32,
    pub y0: i32,
    pub x1: i32,
    pub y1: i32,
}

impl Rect {
    pub fn new(x0: i32, y0: i32, x1: i32, y1: i32) -> (r: Rect)
        ensures
            r == (Rect { x0, y0, x1, y1 }),
    {
        Rect { x0, y0, x1, y1 }
    }

    pub open spec fn spec_width(&self) -> int {
        self.x1 - self.x0
    }

    pub open spec fn spec_height(&self) -> int {
        self.y1 - self.y0
    }

    pub fn width(&self) -> (r: i64)
        ensures
            r == self.spec_width(),
    {
        self.x1 as i64 - self.x0 as i64
    }

    pub fn height(&self) -> (r: i64)
        ensures
            r == self.spec_height(),
    {
        self.y1 as i64 - self.y0 as i64
    }

    /// Whether `p` lies inside the rectangle or on its boundary.
    pub open spec fn contains(&self, p: Point) -> bool {
        self.x0 <= p.x <= self.x1 && self.y0 <= p.y <= self.y1
    }
}

/// A CSS `<length-percentage>`: a length in pixels, a percentage in whole
/// percents, or a `calc()` sum of both.
#[derive(Clone, Copy, Debug, PartialEq, Eq)]
pub enum LengthPercentage {
    Length(i32),
    Percentage(i32),
    Calc { length: i32, percent: i32 },
}

/// Division that rounds toward zero, as integer division in Rust does.
pub open spec fn div_trunc(a: int, b: int) -> int
    recommends
        b > 0,
{
    if a >= 0 {
        a / b
    } else {
        -((-a) / b)
    }
}

/// `percent` percent of `axis`, rounded toward zero.
pub open spec fn percent_of(percent: int, axis: int) -> int {
    div_trunc(percent * axis, 100)
}

/// The pixel value of `v` against a reference length `axis`.
pub open spec fn resolved(v: LengthPercentage, axis: int) -> int {
    match v {
        LengthPercentage::Length(l) => l as int,
        LengthPercentage::Percentage(p) => percent_of(p as int, axis),
        LengthPercentage::Calc { length, percent } => length + percent_of(percent as int, axis),
    }
}

/// A reference length that a percentage may be taken of: the extent of a rectangle.
pub open spec fn axis_ok(axis: int) -> bool {
    -0x1_0000_0000 <= axis <= 0x1_0000_0000
}

pub proof fn lemma_percent_bounds(percent: int, axis: int)
    requires
        -0x8000_0000 <= percent < 0x8000_0000,
        axis_ok(axis),
    ensures
        -0x0200_0000_0000_0000 <= percent_of(percent, axis) <= 0x0200_0000_0000_0000,
{
    let prod = percent * axis;
    assert(-0x8000_0000_0000_0000 <= prod <= 0x8000_0000_0000_0000) by (nonlinear_arith)
        requires
            -0x8000_0000 <= percent < 0x8000_0000,
            -0x1_0000_0000 <= axis <= 0x1_0000_0000,
            prod == percent * axis,
    ;
}

pub proof fn lemma_resolved_bounds(v: LengthPercentage, axis: int)
    requires
        axis_ok(axis),
    ensures
        -0x0201_0000_0000_0000 <= resolved(v, axis) <= 0x0201_0000_0000_0000,
{
    match v {
        LengthPercentage::Length(_) => {},
        LengthPercentage::Percentage(p) => lemma_percent_bounds(p as int, axis),
        LengthPercentage::Calc { length, percent } => lemma_percent_bounds(percent as int, axis),
    }
}

/// `percent` percent of `axis`, rounded toward zero.
fn percent_of_axis(percent: i32, axis: i64) -> (r: i64)
    requires
        axis_ok(axis as int),
    ensures
        r == percent_of(percent as int, axis as int),
{
    proof {
        lemma_percent_bounds(percent as int, axis as int);
        assert(-0x8000_0000_0000_0000 <= percent * axis <= 0x8000_0000_0000_0000) by (nonlinear_arith)
            requires
                -0x8000_0000 <= percent < 0x8000_0000,
                -0x1_0000_0000 <= axis <= 0x1_0000_0000,
        ;
    }
    let prod: i128 = percent as i128 * axis as i128;
    if prod >= 0 {
        (prod / 100) as i64
    } else {
        let q: i128 = (-prod) / 100;
        (-q) as i64
    }
}

/// Resolves a length-percentage against the reference length `axis`: a length
/// stays as it is, a percentage `p` gives `p` percent of `axis`.
pub fn resolve_unpacked_value(value: LengthPercentage, axis: i64) -> (r: i64)
    requires
        axis_ok(axis as int),
    ensures
        r == resolved(value, axis as int),
        -0x0201_0000_0000_0000 <= r <= 0x0201_0000_0000_0000,
{
    proof {
        lemma_resolved_bounds(value, axis as int);
    }
    match value {
        LengthPercentage::Length(l) => l as i64,
        LengthPercentage::Percentage(p) => percent_of_axis(p, axis),
        LengthPercentage::Calc { length, percent } => length as i64 + percent_of_axis(percent, axis),
    }
}

/// A percentage resolves to that fraction of the axis: exactly where the
/// product is a whole number of pixels, and otherwise within one pixel,
/// rounded toward zero.
pub proof fn lemma_percentage_is_proportional(p: i32, axis: int)
    ensures
        (p * axis) % 100 == 0 ==> 100 * resolved(LengthPercentage::Percentage(p), axis) == p * axis,
        p * axis >= 0 ==> 0 <= p * axis - 100 * resolved(LengthPercentage::Percentage(p), axis) < 100,
        p * axis < 0 ==> 0 <= 100 * resolved(LengthPercentage::Percentage(p), axis) - p * axis < 100,
{
}

/// Any percentage of a zero-length axis is zero.
pub proof fn lemma_percentage_of_zero_axis(p: i32)
    ensures
        resolved(LengthPercentage::Percentage(p), 0) == 0,
{
}

/// A shape's `at <position>`, or its absence.
#[derive(Clone, Copy, Debug, PartialEq, Eq)]
pub enum PositionOrAuto {
    Auto,
    Position { horizontal: LengthPercentage, vertical: LengthPercentage },
}

/// The center that a shape's position gives inside `rect`.
pub open spec fn shape_position(pos: PositionOrAuto, rect: Rect) -> Point {
    match pos {
        PositionOrAuto::Auto => Point {
            x: (rect.x0 + div_trunc(rect.spec_width(), 2)) as i64,
            y: (rect.y0 + div_trunc(rect.spec_height(), 2)) as i64,
        },
        PositionOrAuto::Position { horizontal, vertical } => Point {
            x: (rect.x0 + resolved(horizontal, rect.spec_width())) as i64,
            y: (rect.y0 + resolved(vertical, rect.spec_height())) as i64,
        },
    }
}

/// `auto` puts the center halfway between the edges: exactly where the
/// extent is even, and otherwise half a pixel toward the origin edge.
pub proof fn lemma_auto_position_is_center(rect: Rect)
    requires
        rect.x0 <= rect.x1,
        rect.y0 <= rect.y1,
    ensures
        ({
            let c = shape_position(PositionOrAuto::Auto, rect);
            &&& rect.spec_width() % 2 == 0 ==> 2 * c.x == rect.x0 + rect.x1
            &&& rect.spec_height() % 2 == 0 ==> 2 * c.y == rect.y0 + rect.y1
            &&& 0 <= (rect.x0 + rect.x1) - 2 * c.x <= 1
            &&& 0 <= (rect.y0 + rect.y1) - 2 * c.y <= 1
        }),
{
}

/// A coordinate of a resolved center or vertex.
pub open spec fn point_ok(p: Point) -> bool {
    -POINT_LIMIT <= p.x <= POINT_LIMIT && -POINT_LIMIT <= p.y <= POINT_LIMIT
}

/// Half of `v`, rounded toward zero.
fn half(v: i64) -> (r: i64)
    ensures
        r == div_trunc(v as int, 2),
{
    if v >= 0 {
        v / 2
    } else {
        -((-(v as i128)) / 2) as i64
    }
}

/// Resolves a shape position against `rect`; `Auto` is the rectangle's center.
pub fn resolve_shape_position(position: PositionOrAuto, reference_rect: Rect) -> (r: Point)
    ensures
        r == shape_position(position, reference_rect),
        point_ok(r),
{
    match position {
        PositionOrAuto::Position { horizontal, vertical } => {
            let x = resolve_unpacked_value(horizontal, reference_rect.width());
            let y = resolve_unpacked_value(vertical, reference_rect.height());
            Point { x: reference_rect.x0 as i64 + x, y: reference_rect.y0 as i64 + y }
        },
        PositionOrAuto::Auto => Point {
            x: reference_rect.x0 as i64 + half(reference_rect.width()),
            y: reference_rect.y0 as i64 + half(reference_rect.height()),
        },
    }
}

/// A circle or ellipse radius.
#[derive(Clone, Copy, Debug, PartialEq, Eq)]
pub enum ShapeRadius {
    Length(LengthPercentage),
    ClosestSide,
    FarthestSide,
}

pub open spec fn min2(a: int, b: int) -> int {
    if a <= b { a } else { b }
}

pub open spec fn max2(a: int, b: int) -> int {
    if a >= b { a } else { b }
}

/// The signed distances from `c` to the left, right, top and bottom edges.
pub open spec fn edge_distances(c: Point, rect: Rect) -> (int, int, int, int) {
    (c.x - rect.x0, rect.x1 - c.x, c.y - rect.y0, rect.y1 - c.y)
}

/// `closest-side`: the least of the four edge distances.
pub open spec fn closest_side(c: Point, rect: Rect) -> int {
    let (l, r, t, b) = edge_distances(c, rect);
    min2(min2(l, r), min2(t, b))
}

/// `farthest-side`: the greatest of the four edge distances, and at least zero.
pub open spec fn farthest_side(c: Point, rect: Rect) -> int {
    let (l, r, t, b) = edge_distances(c, rect);
    max2(0, max2(max2(l, r), max2(t, b)))
}

pub open spec fn shape_radius(radius: ShapeRadius, c: Point, rect: Rect, axis: int) -> int {
    match radius {
        ShapeRadius::Length(v) => resolved(v, axis),
        ShapeRadius::ClosestSide => closest_side(c, rect),
        ShapeRadius::FarthestSide => farthest_side(c, rect),
    }
}

/// For a center inside the rectangle, `closest-side` is the least and
/// `farthest-side` the greatest of the four distances to the edges.
pub proof fn lemma_side_radii_inside(c: Point, rect: Rect)
    requires
        rect.contains(c),
    ensures
        ({
            let (l, r, t, b) = edge_distances(c, rect);
            &&& closest_side(c, rect) == min2(min2(l, r), min2(t, b))
            &&& farthest_side(c, rect) == max2(max2(l, r), max2(t, b))
            &&& closest_side(c, rect) <= l && closest_side(c, rect) <= r
            &&& closest_side(c, rect) <= t && closest_side(c, rect) <= b
            &&& farthest_side(c, rect) >= l && farthest_side(c, rect) >= r
            &&& farthest_side(c, rect) >= t && farthest_side(c, rect) >= b
            &&& (closest_side(c, rect) == l || closest_side(c, rect) == r
                || closest_side(c, rect) == t || closest_side(c, rect) == b)
            &&& (farthest_side(c, rect) == l || farthest_side(c, rect) == r
                || farthest_side(c, rect) == t || farthest_side(c, rect) == b)
            &&& 0 <= closest_side(c, rect) <= farthest_side(c, rect)
        }),
{
}

/// Resolves a radius: an explicit length-percentage against `axis`, or the
/// least / greatest distance from `center` to an edge of `reference_rect`.
pub fn resolve_shape_radius(radius: ShapeRadius, center: Point, reference_rect: Rect, axis: i64) -> (r: i64)
    requires
        point_ok(center),
        axis_ok(axis as int),
    ensures
        r == shape_radius(radius, center, reference_rect, axis as int),
        -0x0500_0000_0000_0000 <= r <= 0x0500_0000_0000_0000,
{
    match radius {
        ShapeRadius::Length(v) => resolve_unpacked_value(v, axis),
        ShapeRadius::ClosestSide => {
            let distances: [i64; 4] = [
                center.x - reference_rect.x0 as i64,
                reference_rect.x1 as i64 - center.x,
                center.y - reference_rect.y0 as i64,
                reference_rect.y1 as i64 - center.y,
            ];
            let mut acc: i64 = distances[0];
            let mut i: usize = 1;
            while i < 4
                invariant
                    1 <= i <= 4,
                    distances@ == seq![
                        center.x - reference_rect.x0,
                        reference_rect.x1 - center.x,
                        center.y - reference_rect.y0,
                        reference_rect.y1 - center.y,
                    ].map_values(|v: int| v as i64),
                    acc as int == (if i == 1 {
                        distances@[0] as int
                    } else if i == 2 {
                        min2(distances@[0] as int, distances@[1] as int)
                    } else if i == 3 {
                        min2(min2(distances@[0] as int, distances@[1] as int), distances@[2] as int)
                    } else {
                        min2(
                            min2(min2(distances@[0] as int, distances@[1] as int), distances@[2] as int),
                            distances@[3] as int,
                        )
                    }),
                decreases 4 - i,
            {
                if distances[i] < acc {
                    acc = distances[i];
                }
                i = i + 1;
            }
            acc
        },
        ShapeRadius::FarthestSide => {
            let l = center.x - reference_rect.x0 as i64;
            let rt = reference_rect.x1 as i64 - center.x;
            let t = center.y - reference_rect.y0 as i64;
            let b = reference_rect.y1 as i64 - center.y;
            let mut acc: i64 = 0;
            if l > acc {
                acc = l;
            }
            if rt > acc {
                acc = rt;
            }
            if t > acc {
                acc = t;
            }
            if b > acc {
                acc = b;
            }
            acc
        },
    }
}

} // verus!
