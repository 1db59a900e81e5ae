//! The path builder: turns drawing commands with absolute or relative end
//! points into a contour of absolute segments.
use vstd::prelude::*;
use crate::geometry::Point;

verus! {

/// Where a command's end point lies: at a position, or offset from the current point.
#[derive(Clone, Copy, Debug, PartialEq, Eq)]
pub enum EndPoint {
    ToPosition(Point),
    ByCoordinate(Point),
}

/// Whether a horizontal or vertical line goes to a coordinate or by an offset.
#[derive(Clone, Copy, Debug, PartialEq, Eq)]
pub enum ByTo {
    To,
    By,
}

/// One drawing command. Control points are absolute.
#[derive(Clone, Copy, Debug, PartialEq, Eq)]
pub enum ShapeCommand {
    Move { point: EndPoint },
    Line { point: EndPoint },
    HLine { by_to: ByTo, x: i64 },
    VLine { by_to: ByTo, y: i64 },
    CubicCurve { point: EndPoint, control1: Point, control2: Point },
    QuadCurve { point: EndPoint, control1: Point },
    SmoothCubic { point: EndPoint, control2: Point },
    SmoothQuad { point: EndPoint },
    Arc { point: EndPoint, radii: Point, sweep_cw: bool, large_arc: bool, rotate: i64 },
    Close,
}

/// One segment of a contour. An arc keeps its end-point parameters; turning it
/// into curves is left to the renderer.
#[derive(Clone, Copy, Debug, PartialEq, Eq)]
pub enum PathEl {
    MoveTo(Point),
    LineTo(Point),
    QuadTo(Point, Point),
    CurveTo(Point, Point, Point),
    ArcTo { from: Point, to: Point, radii: Point, sweep_cw: bool, large_arc: bool, rotate: i64 },
    ClosePath,
}

/// What the builder tracks between commands.
#[derive(Clone, Copy, Debug, PartialEq, Eq)]
pub struct BuilderState {
    pub current: Point,
    pub subpath_start: Point,
    pub has_started: bool,
    pub last_quad_ctrl: Option<Point>,
    pub last_cubic_ctrl: Option<Point>,
}

pub open spec fn origin() -> Point {
    Point { x: 0, y: 0 }
}

pub open spec fn initial_state() -> BuilderState {
    BuilderState {
        current: origin(),
        subpath_start: origin(),
        has_started: false,
        last_quad_ctrl: None,
        last_cubic_ctrl: None,
    }
}

/// `v` as an `i64`, if it fits.
pub open spec fn fit(v: int) -> Option<i64> {
    if i64::MIN <= v <= i64::MAX {
        Some(v as i64)
    } else {
        None
    }
}

pub open spec fn fit_point(x: int, y: int) -> Option<Point> {
    match (fit(x), fit(y)) {
        (Some(a), Some(b)) => Some(Point { x: a, y: b }),
        _ => None,
    }
}

/// The absolute end point of a command issued at `current`.
pub open spec fn endpoint_abs(p: EndPoint, current: Point) -> Option<Point> {
    match p {
        EndPoint::ToPosition(q) => Some(q),
        EndPoint::ByCoordinate(d) => fit_point(current.x + d.x, current.y + d.y),
    }
}

/// `control` mirrored through `center`.
pub open spec fn reflected(control: Point, center: Point) -> Option<Point> {
    fit_point(2 * center.x - control.x, 2 * center.y - control.y)
}

/// The segments that open a subpath at the current point when none is open yet.
pub open spec fn start_if_needed(s: BuilderState) -> Seq<PathEl> {
    if s.has_started {
        seq![]
    } else {
        seq![PathEl::MoveTo(s.current)]
    }
}

/// State after drawing a segment to `target`, with the curve controls it leaves.
pub open spec fn drawn(s: BuilderState, target: Point, quad: Option<Point>, cubic: Option<Point>) -> BuilderState {
    BuilderState { current: target, has_started: true, last_quad_ctrl: quad, last_cubic_ctrl: cubic, ..s }
}

/// One command applied to the builder state: the next state and the segments
/// emitted, or `None` where a coordinate leaves the `i64` range.
pub open spec fn step(s: BuilderState, cmd: ShapeCommand) -> Option<(BuilderState, Seq<PathEl>)> {
    match cmd {
        ShapeCommand::Move { point } => match endpoint_abs(point, s.current) {
            Some(t) => Some((
                BuilderState {
                    current: t,
                    subpath_start: t,
                    has_started: true,
                    last_quad_ctrl: None,
                    last_cubic_ctrl: None,
                },
                seq![PathEl::MoveTo(t)],
            )),
            None => None,
        },
        ShapeCommand::Line { point } => match endpoint_abs(point, s.current) {
            Some(t) => Some((drawn(s, t, None, None), start_if_needed(s).push(PathEl::LineTo(t)))),
            None => None,
        },
        ShapeCommand::HLine { by_to, x } => {
            let tx = match by_to {
                ByTo::To => Some(x),
                ByTo::By => fit(s.current.x + x),
            };
            match tx {
                Some(tx) => {
                    let t = Point { x: tx, y: s.current.y };
                    Some((drawn(s, t, None, None), start_if_needed(s).push(PathEl::LineTo(t))))
                },
                None => None,
            }
        },
        ShapeCommand::VLine { by_to, y } => {
            let ty = match by_to {
                ByTo::To => Some(y),
                ByTo::By => fit(s.current.y + y),
            };
            match ty {
                Some(ty) => {
                    let t = Point { x: s.current.x, y: ty };
                    Some((drawn(s, t, None, None), start_if_needed(s).push(PathEl::LineTo(t))))
                },
                None => None,
            }
        },
        ShapeCommand::Arc { point, radii, sweep_cw, large_arc, rotate } => match endpoint_abs(point, s.current) {
            Some(t) => Some((
                drawn(s, t, None, None),
                start_if_needed(s).push(
                    PathEl::ArcTo { from: s.current, to: t, radii, sweep_cw, large_arc, rotate },
                ),
            )),
            None => None,
        },
        ShapeCommand::QuadCurve { point, control1 } => match endpoint_abs(point, s.current) {
            Some(t) => Some((
                drawn(s, t, Some(control1), None),
                start_if_needed(s).push(PathEl::QuadTo(control1, t)),
            )),
            None => None,
        },
        ShapeCommand::CubicCurve { point, control1, control2 } => match endpoint_abs(point, s.current) {
            Some(t) => Some((
                drawn(s, t, None, Some(control2)),
                start_if_needed(s).push(PathEl::CurveTo(control1, control2, t)),
            )),
            None => None,
        },
        ShapeCommand::SmoothQuad { point } => {
            let c = match s.last_quad_ctrl {
                Some(q) => reflected(q, s.current),
                None => Some(s.current),
            };
            match (c, endpoint_abs(point, s.current)) {
                (Some(c), Some(t)) => Some((
                    drawn(s, t, Some(c), None),
                    start_if_needed(s).push(PathEl::QuadTo(c, t)),
                )),
                _ => None,
            }
        },
        ShapeCommand::SmoothCubic { point, control2 } => {
            let c = match s.last_cubic_ctrl {
                Some(q) => reflected(q, s.current),
                None => Some(s.current),
            };
            match (c, endpoint_abs(point, s.current)) {
                (Some(c), Some(t)) => Some((
                    drawn(s, t, None, Some(control2)),
                    start_if_needed(s).push(PathEl::CurveTo(c, control2, t)),
                )),
                _ => None,
            }
        },
        ShapeCommand::Close => Some((
            drawn(s, s.subpath_start, None, None),
            start_if_needed(s).push(PathEl::ClosePath),
        )),
    }
}

/// All commands applied in order from the initial state.
pub open spec fn run(cmds: Seq<ShapeCommand>) -> Option<(BuilderState, Seq<PathEl>)>
    decreases cmds.len(),
{
    if cmds.len() == 0 {
        Some((initial_state(), seq![]))
    } else {
        match run(cmds.drop_last()) {
            Some((s, out)) => match step(s, cmds.last()) {
                Some((s2, more)) => Some((s2, out + more)),
                None => None,
            },
            None => None,
        }
    }
}

fn fit_i64(v: i128) -> (r: Option<i64>)
    ensures
        r == fit(v as int),
{
    if i64::MIN as i128 <= v && v <= i64::MAX as i128 {
        Some(v as i64)
    } else {
        None
    }
}

fn fit_pair(x: i128, y: i128) -> (r: Option<Point>)
    ensures
        r == fit_point(x as int, y as int),
{
    match (fit_i64(x), fit_i64(y)) {
        (Some(a), Some(b)) => Some(Point { x: a, y: b }),
        _ => None,
    }
}

/// The absolute end point of `point` issued at `current`.
fn resolve_endpoint_absolute(point: EndPoint, current: Point) -> (r: Option<Point>)
    ensures
        r == endpoint_abs(point, current),
{
    match point {
        EndPoint::ToPosition(p) => Some(p),
        EndPoint::ByCoordinate(d) => fit_pair(current.x as i128 + d.x as i128, current.y as i128 + d.y as i128),
    }
}

/// `control` mirrored through `center`.
fn reflect_point(control: Point, center: Point) -> (r: Option<Point>)
    ensures
        r == reflected(control, center),
{
    fit_pair(2 * center.x as i128 - control.x as i128, 2 * center.y as i128 - control.y as i128)
}

/// Opens a subpath at `current` unless one is open.
fn ensure_path_started(path: &mut Vec<PathEl>, has_started: &mut bool, current: Point)
    ensures
        *old(has_started) ==> final(path)@ == old(path)@,
        !*old(has_started) ==> final(path)@ == old(path)@.push(PathEl::MoveTo(current)),
        *final(has_started),
{
    if !*has_started {
        path.push(PathEl::MoveTo(current));
        *has_started = true;
    }
}

/// Builds the contour that `cmds` draw, starting at the origin. Relative end
/// points are taken from the current point; `Close` returns to the start of the
/// subpath; the smooth curves mirror the previous control point of their kind,
/// or use the current point where there is none. `None` where a coordinate
/// would leave the `i64` range.
pub fn commands_to_bez_path(cmds: &Vec<ShapeCommand>) -> (r: Option<Vec<PathEl>>)
    ensures
        r is Some <==> run(cmds@) is Some,
        r is Some ==> r->0@ == (run(cmds@)->0).1,
{
    let mut path: Vec<PathEl> = Vec::new();
    let mut current = Point { x: 0, y: 0 };
    let mut subpath_start = Point { x: 0, y: 0 };
    let mut has_started = false;
    let mut last_quad_ctrl: Option<Point> = None;
    let mut last_cubic_ctrl: Option<Point> = None;
    let mut i: usize = 0;
    while i < cmds.len()
        invariant
            0 <= i <= cmds@.len(),
            run(cmds@.take(i as int)) == Some((
                BuilderState { current, subpath_start, has_started, last_quad_ctrl, last_cubic_ctrl },
                path@,
            )),
        decreases cmds@.len() - i,
    {
        let ghost s = BuilderState { current, subpath_start, has_started, last_quad_ctrl, last_cubic_ctrl };
        proof {
            assert(cmds@.take(i + 1).drop_last() == cmds@.take(i as int));
            assert(cmds@.take(i + 1).last() == cmds@[i as int]);
        }
        let cmd = cmds[i];
        match cmd {
            ShapeCommand::Move { point } => {
                let target = match resolve_endpoint_absolute(point, current) {
                    Some(t) => t,
                    None => {
                        proof { lemma_run_none_extends(cmds@, i as int); }
                        return None;
                    },
                };
                path.push(PathEl::MoveTo(target));
                current = target;
                subpath_start = target;
                has_started = true;
                last_quad_ctrl = None;
                last_cubic_ctrl = None;
            },
            ShapeCommand::Line { point } => {
                let target = match resolve_endpoint_absolute(point, current) {
                    Some(t) => t,
                    None => {
                        proof { lemma_run_none_extends(cmds@, i as int); }
                        return None;
                    },
                };
                ensure_path_started(&mut path, &mut has_started, current);
                path.push(PathEl::LineTo(target));
                current = target;
                last_quad_ctrl = None;
                last_cubic_ctrl = None;
            },
            ShapeCommand::HLine { by_to, x } => {
                let tx = match by_to {
                    ByTo::To => x,
                    ByTo::By => match fit_i64(current.x as i128 + x as i128) {
                        Some(v) => v,
                        None => {
                            proof { lemma_run_none_extends(cmds@, i as int); }
                            return None;
                        },
                    },
                };
                let target = Point { x: tx, y: current.y };
                ensure_path_started(&mut path, &mut has_started, current);
                path.push(PathEl::LineTo(target));
                current = target;
                last_quad_ctrl = None;
                last_cubic_ctrl = None;
            },
            ShapeCommand::VLine { by_to, y } => {
                let ty = match by_to {
                    ByTo::To => y,
                    ByTo::By => match fit_i64(current.y as i128 + y as i128) {
                        Some(v) => v,
                        None => {
                            proof { lemma_run_none_extends(cmds@, i as int); }
                            return None;
                        },
                    },
                };
                let target = Point { x: current.x, y: ty };
                ensure_path_started(&mut path, &mut has_started, current);
                path.push(PathEl::LineTo(target));
                current = target;
                last_quad_ctrl = None;
                last_cubic_ctrl = None;
            },
            ShapeCommand::Arc { point, radii, sweep_cw, large_arc, rotate } => {
                let target = match resolve_endpoint_absolute(point, current) {
                    Some(t) => t,
                    None => {
                        proof { lemma_run_none_extends(cmds@, i as int); }
                        return None;
                    },
                };
                ensure_path_started(&mut path, &mut has_started, current);
                path.push(PathEl::ArcTo { from: current, to: target, radii, sweep_cw, large_arc, rotate });
                current = target;
                last_quad_ctrl = None;
                last_cubic_ctrl = None;
            },
            ShapeCommand::QuadCurve { point, control1 } => {
                let target = match resolve_endpoint_absolute(point, current) {
                    Some(t) => t,
                    None => {
                        proof { lemma_run_none_extends(cmds@, i as int); }
                        return None;
                    },
                };
                ensure_path_started(&mut path, &mut has_started, current);
                path.push(PathEl::QuadTo(control1, target));
                current = target;
                last_quad_ctrl = Some(control1);
                last_cubic_ctrl = None;
            },
            ShapeCommand::CubicCurve { point, control1, control2 } => {
                let target = match resolve_endpoint_absolute(point, current) {
                    Some(t) => t,
                    None => {
                        proof { lemma_run_none_extends(cmds@, i as int); }
                        return None;
                    },
                };
                ensure_path_started(&mut path, &mut has_started, current);
                path.push(PathEl::CurveTo(control1, control2, target));
                current = target;
                last_cubic_ctrl = Some(control2);
                last_quad_ctrl = None;
            },
            ShapeCommand::SmoothQuad { point } => {
                let control = match last_quad_ctrl {
                    Some(ctrl) => reflect_point(ctrl, current),
                    None => Some(current),
                };
                let target = resolve_endpoint_absolute(point, current);
                let (control, target) = match (control, target) {
                    (Some(c), Some(t)) => (c, t),
                    _ => {
                        proof { lemma_run_none_extends(cmds@, i as int); }
                        return None;
                    },
                };
                ensure_path_started(&mut path, &mut has_started, current);
                path.push(PathEl::QuadTo(control, target));
                current = target;
                last_quad_ctrl = Some(control);
                last_cubic_ctrl = None;
            },
            ShapeCommand::SmoothCubic { point, control2 } => {
                let control_one = match last_cubic_ctrl {
                    Some(ctrl) => reflect_point(ctrl, current),
                    None => Some(current),
                };
                let target = resolve_endpoint_absolute(point, current);
                let (control_one, target) = match (control_one, target) {
                    (Some(c), Some(t)) => (c, t),
                    _ => {
                        proof { lemma_run_none_extends(cmds@, i as int); }
                        return None;
                    },
                };
                ensure_path_started(&mut path, &mut has_started, current);
                path.push(PathEl::CurveTo(control_one, control2, target));
                current = target;
                last_cubic_ctrl = Some(control2);
                last_quad_ctrl = None;
            },
            ShapeCommand::Close => {
                ensure_path_started(&mut path, &mut has_started, current);
                path.push(PathEl::ClosePath);
                current = subpath_start;
                last_quad_ctrl = None;
                last_cubic_ctrl = None;
            },
        }
        proof {
            assert(step(s, cmd) is Some);
        }
        i = i + 1;
    }
    proof {
        assert(cmds@.take(cmds@.len() as int) == cmds@);
    }
    Some(path)
}

/// Once a prefix fails, every longer prefix fails.
proof fn lemma_run_none_extends(cmds: Seq<ShapeCommand>, i: int)
    requires
        0 <= i < cmds.len(),
        run(cmds.take(i)) is Some,
        step((run(cmds.take(i))->0).0, cmds[i]) is None,
    ensures
        run(cmds) is None,
{
    assert(cmds.take(i + 1).drop_last() == cmds.take(i));
    lemma_run_none_prefix(cmds, i + 1);
}

proof fn lemma_run_none_prefix(cmds: Seq<ShapeCommand>, n: int)
    requires
        0 <= n <= cmds.len(),
        run(cmds.take(n)) is None,
    ensures
        run(cmds) is None,
    decreases cmds.len() - n,
{
    if n == cmds.len() {
        assert(cmds.take(n) == cmds);
    } else {
        assert(cmds.take(n + 1).drop_last() == cmds.take(n));
        lemma_run_none_prefix(cmds, n + 1);
    }
}

} // verus!
