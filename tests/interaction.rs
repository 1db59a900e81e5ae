use blitz_paint::dom::{is_text_input_or_inside, DomNode, ElementKind};
use blitz_paint::events::{
    handle_click, handle_mousedown, handle_mousemove, handle_mouseup, ClickAction, MouseMovePlan,
};
use blitz_paint::paint::{
    border_edge_paint, draw_children_order, element_draw_plan, element_paint_decision, DrawStep, pick_canvas_background,
    renders_node, to_image_quality, BorderStyle, Cap, EdgePaint, ImageQuality, ImageRendering,
    NodeKind, NodePaintState, PaintChild, PaintDecision,
};

fn el(parent: Option<usize>, kind: ElementKind) -> DomNode {
    DomNode { parent, element: Some(kind), disabled: false }
}

fn tree() -> Vec<DomNode> {
    vec![
        el(None, ElementKind::Other),
        el(Some(0), ElementKind::TextInput),
        DomNode { parent: Some(1), element: None, disabled: false },
        el(Some(0), ElementKind::Checkbox),
        el(Some(0), ElementKind::Submit { form_owner: Some(7) }),
        el(Some(4), ElementKind::Other),
        el(Some(0), ElementKind::Label { bound_input: Some(3) }),
        el(Some(0), ElementKind::Link { has_href: false }),
    ]
}

#[test]
fn text_input_ancestry() {
    let nodes = tree();
    assert!(is_text_input_or_inside(&nodes, 1));
    assert!(is_text_input_or_inside(&nodes, 2));
    assert!(!is_text_input_or_inside(&nodes, 0));
    assert!(!is_text_input_or_inside(&nodes, 5));
}

#[test]
fn click_on_checkbox_toggles_it() {
    let nodes = tree();
    assert_eq!(handle_click(&nodes, 3, None, None), vec![ClickAction::ToggleCheckbox(3)]);
}

#[test]
fn click_inside_submit_submits_and_settles_focus() {
    let nodes = tree();
    assert_eq!(
        handle_click(&nodes, 5, None, None),
        vec![ClickAction::SubmitForm { form: 7, submitter: 4 }, ClickAction::ClearFocus]
    );
}

#[test]
fn click_on_label_clicks_its_input() {
    let nodes = tree();
    assert_eq!(handle_click(&nodes, 6, None, None), vec![ClickAction::ClickLabelTarget(3)]);
}

#[test]
fn click_outside_focused_text_input_blurs_it() {
    let nodes = tree();
    assert_eq!(
        handle_click(&nodes, 7, Some(1), Some(0)),
        vec![ClickAction::CollapseSelectionAndBlur(1)]
    );
    assert_eq!(handle_click(&nodes, 7, Some(1), Some(2)), vec![]);
    assert_eq!(handle_click(&nodes, 2, Some(1), None), vec![]);
}

#[test]
fn click_on_disabled_element_does_nothing() {
    let mut nodes = tree();
    nodes[3].disabled = true;
    assert_eq!(handle_click(&nodes, 3, None, None), vec![]);
}

#[test]
fn mouseup_plans() {
    let nodes = tree();
    let p = handle_mouseup(&nodes, true, Some(1), Some(2), false);
    assert!(p.finalize_selection && p.dispatch_click && !p.inspect_node);
    let p = handle_mouseup(&nodes, true, Some(1), Some(0), true);
    assert!(!p.finalize_selection && !p.dispatch_click && p.inspect_node);
    let p = handle_mouseup(&nodes, false, Some(1), Some(2), false);
    assert!(!p.finalize_selection && !p.dispatch_click);
}

#[test]
fn border_edges() {
    assert_eq!(border_edge_paint(BorderStyle::Solid, 4, true), EdgePaint::Skip);
    assert_eq!(border_edge_paint(BorderStyle::Hidden, 4, false), EdgePaint::Skip);
    assert_eq!(
        border_edge_paint(BorderStyle::Dotted, 0, false),
        EdgePaint::Stroke { width: 0, dash: 0, gap: 0, cap: Cap::Round }
    );
    assert_eq!(
        border_edge_paint(BorderStyle::Dashed, 2, false),
        EdgePaint::Stroke { width: 2, dash: 6, gap: 6, cap: Cap::Butt }
    );
    assert_eq!(
        border_edge_paint(BorderStyle::Dotted, 4, false),
        EdgePaint::Stroke { width: 4, dash: 4, gap: 4, cap: Cap::Round }
    );
    assert_eq!(border_edge_paint(BorderStyle::Groove, 2, false), EdgePaint::Fill);
}

fn visible_state() -> NodePaintState {
    NodePaintState {
        display_none: false,
        has_style: true,
        hidden_input: false,
        visible: true,
        opacity: 1000,
        overflow_clips: false,
        is_image: false,
        has_clip_path: false,
        box_top: 10,
        extent: 20,
        viewport_height: 600,
        content_width: 50,
        content_height: 20,
    }
}

#[test]
fn paint_decisions() {
    let s = visible_state();
    assert_eq!(element_paint_decision(&s), PaintDecision::Draw { layer: false });
    assert_eq!(element_paint_decision(&NodePaintState { opacity: 0, ..s }), PaintDecision::Skip);
    assert_eq!(element_paint_decision(&NodePaintState { opacity: 500, ..s }), PaintDecision::Draw { layer: true });
    assert_eq!(element_paint_decision(&NodePaintState { box_top: 601, ..s }), PaintDecision::Skip);
    assert_eq!(element_paint_decision(&NodePaintState { box_top: -21, ..s }), PaintDecision::Skip);
    assert_eq!(
        element_paint_decision(&NodePaintState { is_image: true, content_width: 0, ..s }),
        PaintDecision::Skip
    );
    assert_eq!(element_paint_decision(&NodePaintState { has_clip_path: true, ..s }), PaintDecision::Draw { layer: true });
    assert_eq!(element_paint_decision(&NodePaintState { visible: false, ..s }), PaintDecision::Skip);
}

#[test]
fn children_are_drawn_in_stacking_order() {
    let neg = vec![PaintChild { node: 9, hoisted: true, dx: 1, dy: 2 }];
    let pos = vec![PaintChild { node: 8, hoisted: true, dx: 0, dy: 0 }];
    let order: Vec<usize> = draw_children_order(&neg, &vec![3, 4], &pos).iter().map(|c| c.node).collect();
    assert_eq!(order, vec![9, 3, 4, 8]);
}

#[test]
fn image_quality() {
    assert_eq!(to_image_quality(ImageRendering::Auto), ImageQuality::Medium);
    assert_eq!(to_image_quality(ImageRendering::Pixelated), ImageQuality::Low);
}

#[test]
fn mousemove_extends_selections() {
    let mut nodes = tree();
    assert_eq!(
        handle_mousemove(&nodes, 3, Some(1), Some(3), true),
        MouseMovePlan::ExtendFocused { node: 1, at_hit: false }
    );
    assert_eq!(
        handle_mousemove(&nodes, 3, Some(1), Some(1), true),
        MouseMovePlan::ExtendFocused { node: 1, at_hit: true }
    );
    assert_eq!(handle_mousemove(&nodes, 1, None, Some(1), true), MouseMovePlan::ExtendTarget(1));
    assert_eq!(handle_mousemove(&nodes, 1, Some(1), Some(1), false), MouseMovePlan::Hover);
    assert_eq!(handle_mousemove(&nodes, 1, Some(3), Some(0), true), MouseMovePlan::Hover);
    nodes[1].disabled = true;
    assert_eq!(handle_mousemove(&nodes, 1, None, Some(1), true), MouseMovePlan::Hover);
}

#[test]
fn mousedown_places_caret_in_text_input() {
    let mut nodes = tree();
    assert_eq!(handle_mousedown(&nodes, 1, Some(1)), Some(1));
    assert_eq!(handle_mousedown(&nodes, 1, Some(2)), None);
    assert_eq!(handle_mousedown(&nodes, 3, Some(3)), None);
    nodes[1].disabled = true;
    assert_eq!(handle_mousedown(&nodes, 1, Some(1)), None);
}

#[test]
fn canvas_background_falls_back_to_body() {
    assert_eq!(pick_canvas_background(Some(1u32), false, Some(2)), Some(1));
    assert_eq!(pick_canvas_background(Some(1u32), true, Some(2)), Some(2));
    assert_eq!(pick_canvas_background(None, false, Some(2u32)), Some(2));
    assert_eq!(pick_canvas_background::<u32>(Some(1), true, None), None);
}

#[test]
fn only_boxes_are_rendered() {
    assert!(renders_node(NodeKind::Element));
    assert!(renders_node(NodeKind::AnonymousBlock));
    assert!(!renders_node(NodeKind::Text));
    assert!(!renders_node(NodeKind::Comment));
}

#[test]
fn draw_plan_order() {
    assert!(element_draw_plan(PaintDecision::Skip).is_empty());
    let plain = element_draw_plan(PaintDecision::Draw { layer: false });
    assert_eq!(plain.len(), 15);
    assert_eq!(plain[0], DrawStep::Outline);
    assert_eq!(plain[3], DrawStep::Border);
    assert_eq!(plain[14], DrawStep::Children);
    let layered = element_draw_plan(PaintDecision::Draw { layer: true });
    assert_eq!(layered.first(), Some(&DrawStep::PushLayer));
    assert_eq!(layered.last(), Some(&DrawStep::PopLayer));
    assert_eq!(&layered[1..16], &plain[..]);
}
