use std::collections::HashSet;

use blitz_paint::boxes::{
    create_css_rect, BorderRadii, BoxStyle, CornerRadius, Insets, LayoutBox, RadiusPair,
};
use blitz_paint::clip::{ClipNode, ClipPath, ClipResolver, GeometryBox};
use blitz_paint::geometry::{LengthPercentage, Point, PositionOrAuto, Rect, ShapeRadius};
use blitz_paint::path::{commands_to_bez_path, ByTo, EndPoint, PathEl, ShapeCommand};
use blitz_paint::shape::{
    basic_shape_to_path, convert_shape_commands_to_absolute, BasicShape, Contour, CornerRadii,
    CssEndPoint, CssPair, CssShapeCommand, InsetRect, ShapeBox, PATH_UNIT,
};

fn pt(x: i64, y: i64) -> Point {
    Point { x, y }
}

#[test]
fn path_builder_resolves_relative_points_and_closes() {
    let cmds = vec![
        ShapeCommand::Move { point: EndPoint::ToPosition(pt(10, 10)) },
        ShapeCommand::Line { point: EndPoint::ByCoordinate(pt(5, 0)) },
        ShapeCommand::VLine { by_to: ByTo::By, y: 7 },
        ShapeCommand::HLine { by_to: ByTo::To, x: 2 },
        ShapeCommand::Close,
        ShapeCommand::Line { point: EndPoint::ByCoordinate(pt(1, 1)) },
    ];
    let path = commands_to_bez_path(&cmds).unwrap();
    assert_eq!(
        path,
        vec![
            PathEl::MoveTo(pt(10, 10)),
            PathEl::LineTo(pt(15, 10)),
            PathEl::LineTo(pt(15, 17)),
            PathEl::LineTo(pt(2, 17)),
            PathEl::ClosePath,
            PathEl::LineTo(pt(11, 11)),
        ]
    );
}

#[test]
fn path_builder_starts_at_origin_without_move() {
    let cmds = vec![ShapeCommand::Line { point: EndPoint::ToPosition(pt(4, 5)) }];
    let path = commands_to_bez_path(&cmds).unwrap();
    assert_eq!(path, vec![PathEl::MoveTo(pt(0, 0)), PathEl::LineTo(pt(4, 5))]);
}

#[test]
fn smooth_curves_reflect_previous_control() {
    let cmds = vec![
        ShapeCommand::Move { point: EndPoint::ToPosition(pt(0, 0)) },
        ShapeCommand::QuadCurve { point: EndPoint::ToPosition(pt(10, 0)), control1: pt(5, 5) },
        ShapeCommand::SmoothQuad { point: EndPoint::ToPosition(pt(20, 0)) },
        ShapeCommand::SmoothCubic { point: EndPoint::ToPosition(pt(30, 0)), control2: pt(25, 4) },
        ShapeCommand::SmoothCubic { point: EndPoint::ToPosition(pt(40, 0)), control2: pt(35, 4) },
    ];
    let path = commands_to_bez_path(&cmds).unwrap();
    assert_eq!(
        path,
        vec![
            PathEl::MoveTo(pt(0, 0)),
            PathEl::QuadTo(pt(5, 5), pt(10, 0)),
            PathEl::QuadTo(pt(15, -5), pt(20, 0)),
            PathEl::CurveTo(pt(20, 0), pt(25, 4), pt(30, 0)),
            PathEl::CurveTo(pt(35, -4), pt(35, 4), pt(40, 0)),
        ]
    );
}

#[test]
fn arc_keeps_its_end_point_parameters() {
    let cmds = vec![
        ShapeCommand::Move { point: EndPoint::ToPosition(pt(1, 0)) },
        ShapeCommand::Arc {
            point: EndPoint::ToPosition(pt(0, 1)),
            radii: pt(1, 1),
            sweep_cw: true,
            large_arc: false,
            rotate: 0,
        },
    ];
    let path = commands_to_bez_path(&cmds).unwrap();
    assert_eq!(
        path[1],
        PathEl::ArcTo { from: pt(1, 0), to: pt(0, 1), radii: pt(1, 1), sweep_cw: true, large_arc: false, rotate: 0 }
    );
}

#[test]
fn path_builder_reports_overflow() {
    let cmds = vec![
        ShapeCommand::Move { point: EndPoint::ToPosition(pt(i64::MAX, 0)) },
        ShapeCommand::Line { point: EndPoint::ByCoordinate(pt(1, 0)) },
    ];
    assert!(commands_to_bez_path(&cmds).is_none());
}

#[test]
fn circle_with_margin_and_closest_side() {
    let shape = BasicShape::Circle { radius: ShapeRadius::ClosestSide, position: PositionOrAuto::Auto };
    let c = basic_shape_to_path(&shape, Rect::new(0, 0, 100, 60), 5).unwrap();
    assert_eq!(c, Contour::Ellipse { center: pt(50, 30), radius_x: 35, radius_y: 35 });
}

#[test]
fn ellipse_radius_is_clamped_at_zero() {
    let shape = BasicShape::Ellipse {
        semiaxis_x: ShapeRadius::Length(LengthPercentage::Length(-20)),
        semiaxis_y: ShapeRadius::FarthestSide,
        position: PositionOrAuto::Auto,
    };
    let c = basic_shape_to_path(&shape, Rect::new(0, 0, 100, 60), 0).unwrap();
    assert_eq!(c, Contour::Ellipse { center: pt(50, 30), radius_x: 0, radius_y: 50 });
}

#[test]
fn inset_grows_by_margin_and_sorts_bounds() {
    let zero = LengthPercentage::Length(0);
    let ins = InsetRect {
        top: LengthPercentage::Length(10),
        right: LengthPercentage::Percentage(10),
        bottom: LengthPercentage::Length(10),
        left: LengthPercentage::Length(90),
        round_top_left: LengthPercentage::Percentage(5),
        round_top_right: zero,
        round_bottom_right: zero,
        round_bottom_left: LengthPercentage::Length(3),
    };
    let c = basic_shape_to_path(&BasicShape::Rect(ins), Rect::new(0, 0, 100, 100), 2).unwrap();
    assert_eq!(
        c,
        Contour::RoundedRect {
            x0: 88,
            y0: 8,
            x1: 92,
            y1: 92,
            radii: CornerRadii { top_left: 5, top_right: 0, bottom_right: 0, bottom_left: 3 },
        }
    );
    let inverted = InsetRect { left: LengthPercentage::Length(95), right: LengthPercentage::Length(20), ..ins };
    match basic_shape_to_path(&BasicShape::Rect(inverted), Rect::new(0, 0, 100, 100), 0).unwrap() {
        Contour::RoundedRect { x0, x1, .. } => {
            assert_eq!((x0, x1), (80, 95));
        }
        other => panic!("unexpected contour {:?}", other),
    }
}

#[test]
fn polygon_vertices_resolve_in_box() {
    let coords = vec![
        CssPair { x: LengthPercentage::Percentage(0), y: LengthPercentage::Percentage(0) },
        CssPair { x: LengthPercentage::Percentage(100), y: LengthPercentage::Length(5) },
    ];
    let c = basic_shape_to_path(&BasicShape::Polygon(coords), Rect::new(10, 10, 110, 60), 4).unwrap();
    assert_eq!(
        c,
        Contour::Polygon { points: vec![pt(10, 10), pt(110, 15)], center: pt(60, 35), margin: 4 }
    );
}

#[test]
fn path_shape_is_scaled_to_box_and_shape_is_resolved() {
    let cmds = vec![
        ShapeCommand::Move { point: EndPoint::ToPosition(pt(0, 0)) },
        ShapeCommand::Line { point: EndPoint::ToPosition(pt(PATH_UNIT / 2, PATH_UNIT)) },
    ];
    let c = basic_shape_to_path(&BasicShape::Path(cmds), Rect::new(5, 6, 105, 56), 0).unwrap();
    assert_eq!(
        c,
        Contour::Path {
            elements: vec![PathEl::MoveTo(pt(0, 0)), PathEl::LineTo(pt(500_000, 1_000_000))],
            scale_x: 100,
            scale_y: 50,
            divisor: PATH_UNIT,
            offset: pt(5, 6),
        }
    );
    let css = vec![CssShapeCommand::Line {
        point: CssEndPoint::ToPosition(LengthPercentage::Percentage(50), LengthPercentage::Percentage(50)),
    }];
    let abs = convert_shape_commands_to_absolute(&css, 100, 50);
    assert_eq!(abs, vec![ShapeCommand::Line { point: EndPoint::ToPosition(pt(50, 25)) }]);
    let c = basic_shape_to_path(&BasicShape::Shape(css), Rect::new(5, 6, 105, 56), 0).unwrap();
    assert_eq!(
        c,
        Contour::Path {
            elements: vec![PathEl::MoveTo(pt(0, 0)), PathEl::LineTo(pt(50, 25))],
            scale_x: 1,
            scale_y: 1,
            divisor: 1,
            offset: pt(5, 6),
        }
    );
}

fn plain_style() -> BoxStyle {
    let square = CornerRadius { width: LengthPercentage::Length(0), height: LengthPercentage::Length(0) };
    BoxStyle { top_left: square, top_right: square, bottom_right: square, bottom_left: square, outline_width: 0 }
}

fn insets(l: i32, t: i32, r: i32, b: i32) -> Insets {
    Insets { left: l, top: t, right: r, bottom: b }
}

#[test]
fn box_model_nests_the_four_boxes() {
    let layout = LayoutBox {
        width: 100,
        height: 50,
        border: insets(1, 2, 3, 4),
        padding: insets(5, 5, 5, 5),
        margin: insets(-10, 10, 10, 10),
    };
    let rounded = CornerRadius { width: LengthPercentage::Percentage(10), height: LengthPercentage::Percentage(50) };
    let style = BoxStyle {
        top_left: rounded,
        top_right: CornerRadius { width: LengthPercentage::Length(4), height: LengthPercentage::Length(6) },
        outline_width: 3,
        ..plain_style()
    };
    let frame = create_css_rect(&style, &layout);
    assert_eq!(frame.border_radii.top_left, RadiusPair { x: 10, y: 25 });
    assert_eq!(frame.border_radii.top_right, RadiusPair { x: 4, y: 6 });
    assert_eq!(
        frame.border_radii,
        BorderRadii {
            top_left: RadiusPair { x: 10, y: 25 },
            top_right: RadiusPair { x: 4, y: 6 },
            bottom_right: RadiusPair { x: 0, y: 0 },
            bottom_left: RadiusPair { x: 0, y: 0 },
        }
    );
    assert_eq!(frame.outline_width, 3);
    assert_eq!(frame.border_box, Rect::new(0, 0, 100, 50));
    assert_eq!(frame.padding_box, Rect::new(1, 2, 97, 46));
    assert_eq!(frame.content_box, Rect::new(6, 7, 92, 41));
    assert_eq!(frame.margin_box, Rect::new(10, -10, 110, 60));
}

fn node(clip_path: ClipPath) -> ClipNode {
    let layout = LayoutBox {
        width: 100,
        height: 100,
        border: insets(0, 0, 0, 0),
        padding: insets(10, 10, 10, 10),
        margin: insets(0, 0, 0, 0),
    };
    ClipNode { clip_path, has_style: true, frame: create_css_rect(&plain_style(), &layout), style_attr: None }
}

fn circle() -> BasicShape {
    BasicShape::Circle { radius: ShapeRadius::ClosestSide, position: PositionOrAuto::Auto }
}

#[test]
fn url_cycle_resolves_to_no_clip() {
    let nodes = vec![node(ClipPath::Url(Some(1))), node(ClipPath::Url(Some(0)))];
    let mut resolver = ClipResolver::new(nodes);
    assert!(resolver.clip_path_from_styles(0).is_none());
    assert!(resolver.clip_path_from_styles(1).is_none());
    assert!(resolver.cache.is_empty());
    assert!(resolver.node_clip.iter().all(|c| c.is_none()));
}

#[test]
fn url_reference_aliases_target_contour() {
    let nodes = vec![
        node(ClipPath::Url(Some(1))),
        node(ClipPath::Shape(circle(), GeometryBox::ShapeBox(ShapeBox::ContentBox))),
        node(ClipPath::Url(None)),
        node(ClipPath::Url(Some(9))),
    ];
    let mut resolver = ClipResolver::new(nodes);
    let c = resolver.clip_path_from_styles(0).unwrap();
    assert_eq!(*c, Contour::Ellipse { center: pt(50, 50), radius_x: 40, radius_y: 40 });
    assert!(resolver.cache.contains_key(&0));
    assert!(resolver.cache.contains_key(&1));
    assert_eq!(resolver.node_clip[0].as_deref(), Some(&*c));
    assert_eq!(resolver.node_clip[1].as_deref(), Some(&*c));
    assert!(resolver.node_clip[2].is_none());
    assert!(resolver.clip_path_from_styles(2).is_none());
    assert!(resolver.clip_path_from_styles(3).is_none());
}

#[test]
fn second_resolution_is_a_cache_hit() {
    let nodes = vec![node(ClipPath::Shape(circle(), GeometryBox::FillBox))];
    let mut resolver = ClipResolver::new(nodes);
    let first = resolver.clip_path_from_styles(0).unwrap();
    let second = resolver.clip_path_from_styles(0).unwrap();
    assert!(std::rc::Rc::ptr_eq(&first, &second));
    assert_eq!(*first, Contour::Ellipse { center: pt(50, 50), radius_x: 50, radius_y: 50 });
}

#[test]
fn url_to_node_without_style_is_no_clip() {
    let mut target = node(ClipPath::Box(GeometryBox::ShapeBox(ShapeBox::PaddingBox)));
    target.has_style = false;
    let nodes = vec![node(ClipPath::Url(Some(1))), target];
    let mut resolver = ClipResolver::new(nodes);
    assert!(resolver.clip_path_from_styles(0).is_none());
    let c = resolver.clip_path_from_styles(1).unwrap();
    assert_eq!(*c, Contour::FrameBox { node: 1, kind: ShapeBox::PaddingBox });
}

#[test]
fn geometry_box_clip_and_none() {
    let nodes = vec![node(ClipPath::Box(GeometryBox::ViewBox)), node(ClipPath::NoClip)];
    let mut resolver = ClipResolver::new(nodes);
    let c = resolver.clip_path_from_styles(0).unwrap();
    assert_eq!(*c, Contour::FrameBox { node: 0, kind: ShapeBox::BorderBox });
    let mut visited = HashSet::new();
    assert!(resolver.clip_path_from_styles_inner(1, &mut visited).is_none());
    assert!(visited.is_empty());
}

#[test]
fn shape_margin_comes_from_inline_style_against_border_box() {
    let mut n = node(ClipPath::Shape(circle(), GeometryBox::ShapeBox(ShapeBox::ContentBox)));
    n.style_attr = Some("shape-margin: 10%".to_string());
    let mut resolver = ClipResolver::new(vec![n]);
    let c = resolver.clip_path_from_styles(0).unwrap();
    assert_eq!(*c, Contour::Ellipse { center: pt(50, 50), radius_x: 50, radius_y: 50 });
}

#[test]
fn revisited_node_gives_no_clip_and_keeps_state() {
    let nodes = vec![node(ClipPath::Box(GeometryBox::ShapeBox(ShapeBox::ContentBox)))];
    let mut resolver = ClipResolver::new(nodes);
    let mut visited = HashSet::new();
    visited.insert(0usize);
    assert!(resolver.clip_path_from_styles_inner(0, &mut visited).is_none());
    assert!(!resolver.cache.contains_key(&0));
    assert!(resolver.node_clip[0].is_none());
    assert_eq!(visited.len(), 1);
    let first = resolver.clip_path_from_styles(0).unwrap();
    let hit = resolver.clip_path_from_styles_inner(0, &mut visited).unwrap();
    assert!(std::rc::Rc::ptr_eq(&first, &hit));
    assert_eq!(visited.len(), 1);
}
