//! The box model: the four nested rectangles of a laid-out node.
use vstd::prelude::*;
use crate::geometry::{resolve_unpacked_value, resolved, LengthPercentage, Rect};

verus! {

/// Largest magnitude of a layout value that the box model accepts.
pub const LAYOUT_LIMIT: i32 = 0x1000_0000;

/// Edge widths: left, top, right, bottom.
#[derive(Clone, Copy, Debug, PartialEq, Eq)]
pub struct Insets {
    pub left: i32,
    pub top: i32,
    pub right: i32,
    pub bottom: i32,
}

/// What layout gives a node: its border-box size and its edge widths.
#[derive(Clone, Copy, Debug, PartialEq, Eq)]
pub struct LayoutBox {
    pub width: i32,
    pub height: i32,
    pub border: Insets,
    pub padding: Insets,
    pub margin: Insets,
}

/// A corner's `border-radius`: its horizontal and vertical radius.
#[derive(Clone, Copy, Debug, PartialEq, Eq)]
pub struct CornerRadius {
    pub width: LengthPercentage,
    pub height: LengthPercentage,
}

/// What the box model reads of a node's style: its corner radii and its
/// outline width.
#[derive(Clone, Copy, Debug, PartialEq, Eq)]
pub struct BoxStyle {
    pub top_left: CornerRadius,
    pub top_right: CornerRadius,
    pub bottom_right: CornerRadius,
    pub bottom_left: CornerRadius,
    pub outline_width: i32,
}

/// A resolved corner radius in pixels.
#[derive(Clone, Copy, Debug, PartialEq, Eq)]
pub struct RadiusPair {
    pub x: i64,
    pub y: i64,
}

/// The resolved radii of the four corners.
#[derive(Clone, Copy, Debug, PartialEq, Eq)]
pub struct BorderRadii {
    pub top_left: RadiusPair,
    pub top_right: RadiusPair,
    pub bottom_right: RadiusPair,
    pub bottom_left: RadiusPair,
}

/// The four boxes of a node, in the node's own coordinates (the border box
/// starts at the origin), its corner radii and its outline width.
#[derive(Clone, Copy, Debug, PartialEq, Eq)]
pub struct CssBox {
    pub margin_box: Rect,
    pub border_box: Rect,
    pub padding_box: Rect,
    pub content_box: Rect,
    pub border_radii: BorderRadii,
    pub outline_width: i64,
}

/// A corner radius resolved against the border box: its horizontal radius
/// against the width, its vertical radius against the height.
pub open spec fn radius_of(c: CornerRadius, w: int, h: int) -> RadiusPair {
    RadiusPair { x: resolved(c.width, w) as i64, y: resolved(c.height, h) as i64 }
}

pub open spec fn small(v: i32) -> bool {
    -LAYOUT_LIMIT <= v <= LAYOUT_LIMIT
}

pub open spec fn insets_ok(i: Insets) -> bool {
    small(i.left) && small(i.top) && small(i.right) && small(i.bottom)
}

pub open spec fn layout_ok(l: LayoutBox) -> bool {
    small(l.width) && small(l.height) && insets_ok(l.border) && insets_ok(l.padding) && insets_ok(l.margin)
}

/// `r` shrunk by `i` on each side; a negative inset grows it.
pub open spec fn inset_rect(r: Rect, i: Insets) -> Rect {
    Rect {
        x0: (r.x0 + i.left) as i32,
        y0: (r.y0 + i.top) as i32,
        x1: (r.x1 - i.right) as i32,
        y1: (r.y1 - i.bottom) as i32,
    }
}

/// `r` grown by `i` on each side; a negative inset shrinks it.
pub open spec fn outset_rect(r: Rect, i: Insets) -> Rect {
    Rect {
        x0: (r.x0 - i.left) as i32,
        y0: (r.y0 - i.top) as i32,
        x1: (r.x1 + i.right) as i32,
        y1: (r.y1 + i.bottom) as i32,
    }
}

pub open spec fn css_box_of(style: BoxStyle, l: LayoutBox) -> CssBox {
    let border_box = Rect { x0: 0, y0: 0, x1: l.width, y1: l.height };
    let padding_box = inset_rect(border_box, l.border);
    let (w, h) = (l.width as int, l.height as int);
    CssBox {
        margin_box: outset_rect(border_box, l.margin),
        border_box,
        padding_box,
        content_box: inset_rect(padding_box, l.padding),
        border_radii: BorderRadii {
            top_left: radius_of(style.top_left, w, h),
            top_right: radius_of(style.top_right, w, h),
            bottom_right: radius_of(style.bottom_right, w, h),
            bottom_left: radius_of(style.bottom_left, w, h),
        },
        outline_width: style.outline_width as i64,
    }
}

fn resolve_radius(c: CornerRadius, w: i64, h: i64) -> (r: RadiusPair)
    requires
        -0x1_0000_0000 <= w <= 0x1_0000_0000,
        -0x1_0000_0000 <= h <= 0x1_0000_0000,
    ensures
        r == radius_of(c, w as int, h as int),
{
    RadiusPair { x: resolve_unpacked_value(c.width, w), y: resolve_unpacked_value(c.height, h) }
}

/// The frame of a node: the border box at the origin, the padding box inside
/// the border, the content box inside the padding, the margin box around it
/// all; corner radii as lengths or percentages of the border box's width and
/// height; and the outline width. Scaling to device pixels is left to the caller.
pub fn create_css_rect(style: &BoxStyle, layout: &LayoutBox) -> (r: CssBox)
    requires
        layout_ok(*layout),
    ensures
        r == css_box_of(*style, *layout),
{
    let border_box = Rect { x0: 0, y0: 0, x1: layout.width, y1: layout.height };
    let b = layout.border;
    let p = layout.padding;
    let m = layout.margin;
    let padding_box = Rect {
        x0: border_box.x0 + b.left,
        y0: border_box.y0 + b.top,
        x1: border_box.x1 - b.right,
        y1: border_box.y1 - b.bottom,
    };
    let content_box = Rect {
        x0: padding_box.x0 + p.left,
        y0: padding_box.y0 + p.top,
        x1: padding_box.x1 - p.right,
        y1: padding_box.y1 - p.bottom,
    };
    let margin_box = Rect {
        x0: border_box.x0 - m.left,
        y0: border_box.y0 - m.top,
        x1: border_box.x1 + m.right,
        y1: border_box.y1 + m.bottom,
    };
    let w = layout.width as i64;
    let h = layout.height as i64;
    let border_radii = BorderRadii {
        top_left: resolve_radius(style.top_left, w, h),
        top_right: resolve_radius(style.top_right, w, h),
        bottom_right: resolve_radius(style.bottom_right, w, h),
        bottom_left: resolve_radius(style.bottom_left, w, h),
    };
    CssBox { margin_box, border_box, padding_box, content_box, border_radii, outline_width: style.outline_width as i64 }
}

} // verus!
