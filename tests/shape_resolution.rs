use blitz_paint::geometry::{
    resolve_shape_position, resolve_shape_radius, resolve_unpacked_value, LengthPercentage, Point,
    PositionOrAuto, Rect, ShapeRadius,
};
use blitz_paint::margin::{
    find_shape_margin_declaration, parse_shape_margin_value, resolve_shape_margin_for_node,
};

#[test]
fn test_parse_shape_margin_returns_none_for_empty() {
    let reference_rect = Rect::new(0, 0, 100, 100);
    let margin = parse_shape_margin_value("", reference_rect);
    assert!(margin.is_none());
}

#[test]
fn test_resolve_unpacked_value_length() {
    let unpacked = LengthPercentage::Length(42);
    let axis = 100;
    let result = resolve_unpacked_value(unpacked, axis);
    assert_eq!(result, 42, "Length value should be resolved correctly");
}

#[test]
fn test_resolve_unpacked_value_percentage() {
    let unpacked = LengthPercentage::Percentage(50);
    let axis = 200;
    let result = resolve_unpacked_value(unpacked, axis);
    assert_eq!(
        result, 100,
        "Percentage value should be resolved correctly (50% of 200 = 100)"
    );
}

#[test]
fn test_resolve_shape_radius_closest_side() {
    let radius = ShapeRadius::ClosestSide;
    let center = Point { x: 25, y: 25 };
    let reference_rect = Rect::new(0, 0, 100, 100);
    let axis = 100;
    let result = resolve_shape_radius(radius, center, reference_rect, axis);
    assert_eq!(
        result, 25,
        "ClosestSide should return minimum distance to any edge"
    );
}

#[test]
fn test_resolve_shape_radius_farthest_side() {
    let radius = ShapeRadius::FarthestSide;
    let center = Point { x: 25, y: 25 };
    let reference_rect = Rect::new(0, 0, 100, 100);
    let axis = 100;
    let result = resolve_shape_radius(radius, center, reference_rect, axis);
    assert_eq!(
        result, 75,
        "FarthestSide should return maximum distance to any edge"
    );
}

#[test]
fn test_resolve_shape_position_auto() {
    let position = PositionOrAuto::Auto;
    let reference_rect = Rect::new(10, 20, 110, 120);
    let result = resolve_shape_position(position, reference_rect);
    let expected = Point { x: 60, y: 70 };
    assert_eq!(result.x, expected.x, "Auto position should center horizontally");
    assert_eq!(result.y, expected.y, "Auto position should center vertically");
}

#[test]
fn test_parse_shape_margin_px() {
    let reference_rect = Rect::new(0, 0, 200, 100);
    let parsed = parse_shape_margin_value("15px", reference_rect).unwrap();
    assert_eq!(parsed, 15);
}

#[test]
fn test_parse_shape_margin_percentage() {
    let reference_rect = Rect::new(0, 0, 200, 100);
    let parsed = parse_shape_margin_value("10%", reference_rect).unwrap();
    assert_eq!(parsed, 20);
}

#[test]
fn test_parse_shape_margin_invalid() {
    let reference_rect = Rect::new(0, 0, 200, 100);
    let parsed = parse_shape_margin_value("bogus", reference_rect);
    assert!(parsed.is_none());
}

#[test]
fn test_resolve_shape_radius_edge_cases() {
    let reference_rect = Rect::new(0, 0, 100, 100);
    let axis = 100;

    let center_center = Point { x: 50, y: 50 };
    let radius_closest = ShapeRadius::ClosestSide;
    let result = resolve_shape_radius(radius_closest, center_center, reference_rect, axis);
    assert_eq!(result, 50, "Center point should have equal distance to all sides");

    let center_corner = Point { x: 0, y: 0 };
    let result = resolve_shape_radius(radius_closest, center_corner, reference_rect, axis);
    assert_eq!(result, 0, "Corner point should have 0 distance to closest side");

    let center_edge = Point { x: 0, y: 50 };
    let result = resolve_shape_radius(radius_closest, center_edge, reference_rect, axis);
    assert_eq!(result, 0, "Edge point should have 0 distance to closest side");
}

#[test]
fn test_resolve_unpacked_value_zero_axis() {
    let unpacked = LengthPercentage::Percentage(50);
    let axis = 0;
    let result = resolve_unpacked_value(unpacked, axis);
    assert_eq!(result, 0, "Percentage of zero axis should be zero");
}

#[test]
fn test_resolve_shape_radius_center_at_origin() {
    let radius = ShapeRadius::ClosestSide;
    let center = Point { x: 0, y: 0 };
    let reference_rect = Rect::new(0, 0, 100, 100);
    let axis = 100;
    let result = resolve_shape_radius(radius, center, reference_rect, axis);
    assert_eq!(result, 0, "Center at origin should have 0 distance to closest side");
}

#[test]
fn side_radii_off_center_are_min_and_max() {
    let rect = Rect::new(0, 0, 100, 60);
    let center = Point { x: 30, y: 10 };
    assert_eq!(resolve_shape_radius(ShapeRadius::ClosestSide, center, rect, 100), 10);
    assert_eq!(resolve_shape_radius(ShapeRadius::FarthestSide, center, rect, 100), 70);
}

#[test]
fn farthest_side_is_never_negative_outside_the_box() {
    let rect = Rect::new(0, 0, 10, 10);
    let center = Point { x: 50, y: -40 };
    assert_eq!(resolve_shape_radius(ShapeRadius::ClosestSide, center, rect, 10), -40);
    assert_eq!(resolve_shape_radius(ShapeRadius::FarthestSide, center, rect, 10), 50);
}

#[test]
fn explicit_radius_resolves_against_axis() {
    let rect = Rect::new(0, 0, 300, 100);
    let center = Point { x: 0, y: 0 };
    let r = resolve_shape_radius(ShapeRadius::Length(LengthPercentage::Percentage(25)), center, rect, 300);
    assert_eq!(r, 75);
}

#[test]
fn percentages_round_toward_zero() {
    assert_eq!(resolve_unpacked_value(LengthPercentage::Percentage(33), 10), 3);
    assert_eq!(resolve_unpacked_value(LengthPercentage::Percentage(-33), 10), -3);
    assert_eq!(resolve_unpacked_value(LengthPercentage::Calc { length: 5, percent: 50 }, 30), 20);
}

#[test]
fn explicit_position_is_offset_from_origin() {
    let rect = Rect::new(10, 20, 210, 120);
    let pos = PositionOrAuto::Position {
        horizontal: LengthPercentage::Percentage(25),
        vertical: LengthPercentage::Length(7),
    };
    assert_eq!(resolve_shape_position(pos, rect), Point { x: 60, y: 27 });
}

#[test]
fn auto_position_of_odd_extent_rounds_toward_origin() {
    let rect = Rect::new(0, 0, 5, 7);
    assert_eq!(resolve_shape_position(PositionOrAuto::Auto, rect), Point { x: 2, y: 3 });
}

#[test]
fn shape_margin_number_and_negative_values() {
    let rect = Rect::new(0, 0, 200, 100);
    assert_eq!(parse_shape_margin_value("12", rect), Some(12));
    assert_eq!(parse_shape_margin_value("-4px", rect), Some(0));
    assert_eq!(parse_shape_margin_value("  8PX", rect), Some(8));
    assert_eq!(parse_shape_margin_value("3em", rect), None);
    assert_eq!(parse_shape_margin_value("2.5px", rect), Some(3));
    assert_eq!(parse_shape_margin_value("1.5", rect), Some(2));
    assert_eq!(parse_shape_margin_value("1.25px", rect), Some(1));
    assert_eq!(parse_shape_margin_value("12.5%", rect), Some(25));
    assert_eq!(parse_shape_margin_value("-0.5px", rect), Some(0));
}

#[test]
fn shape_margin_declaration_is_found_in_inline_style() {
    let style = "color: red; Shape-Margin :  10%  ; width: 3px";
    assert_eq!(find_shape_margin_declaration(style), Some("10%"));
    assert_eq!(find_shape_margin_declaration("color: red"), None);
    assert_eq!(find_shape_margin_declaration("shape-margin 4px"), None);
    let rect = Rect::new(0, 0, 300, 100);
    assert_eq!(resolve_shape_margin_for_node(Some(style), rect), 30);
    assert_eq!(resolve_shape_margin_for_node(Some("shape-margin: bogus"), rect), 0);
    assert_eq!(resolve_shape_margin_for_node(None, rect), 0);
}
