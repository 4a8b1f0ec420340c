use krusty_grab::canvas::{
    accepts_input, brush_drag, closes_text_editor, leaving_ends_interaction,
    release_finishes_stroke, BrushDrag, DrawingKind,
};
use krusty_grab::tools::{highlighter_alpha, DrawingMode, HIGHLIGTHER_FACTOR};

#[test]
fn default_tool_is_brush() {
    assert_eq!(DrawingMode::default(), DrawingMode::Brush);
}

#[test]
fn menu_icons_follow_filled_tools() {
    assert_eq!(DrawingMode::FilledCircle.circle_icon(), "circle_full");
    assert_eq!(DrawingMode::Circle.circle_icon(), "circle");
    assert_eq!(DrawingMode::Brush.circle_icon(), "circle");
    assert_eq!(DrawingMode::FilledRectangle.rectangle_icon(), "rect_full");
    assert_eq!(DrawingMode::Rectangle.rectangle_icon(), "rect");
    assert_eq!(DrawingMode::Arrow.rectangle_icon(), "rect");
}

#[test]
fn menus_highlight_their_tools() {
    assert!(DrawingMode::Circle.is_circle());
    assert!(DrawingMode::FilledCircle.is_circle());
    assert!(!DrawingMode::Rectangle.is_circle());
    assert!(DrawingMode::Rectangle.is_rectangle());
    assert!(DrawingMode::FilledRectangle.is_rectangle());
    assert!(!DrawingMode::Highlighter.is_rectangle());
}

#[test]
fn highlight_alpha_is_divided_by_factor() {
    assert_eq!(HIGHLIGTHER_FACTOR, 70);
    assert_eq!(highlighter_alpha(255), 3);
    assert_eq!(highlighter_alpha(140), 2);
    assert_eq!(highlighter_alpha(69), 0);
    assert_eq!(highlighter_alpha(0), 0);
}

#[test]
fn brush_extends_only_open_strokes() {
    assert_eq!(brush_drag(Some(DrawingKind::Brush { end: false })), BrushDrag::ExtendLast);
    assert_eq!(brush_drag(Some(DrawingKind::Brush { end: true })), BrushDrag::StartStroke);
    assert_eq!(brush_drag(Some(DrawingKind::Arrow)), BrushDrag::StartStroke);
    assert_eq!(brush_drag(None), BrushDrag::StartStroke);
}

#[test]
fn release_finishes_strokes_only() {
    assert!(release_finishes_stroke(Some(DrawingKind::Brush { end: false })));
    assert!(release_finishes_stroke(Some(DrawingKind::Brush { end: true })));
    assert!(!release_finishes_stroke(Some(DrawingKind::Circle)));
    assert!(!release_finishes_stroke(None));
}

#[test]
fn text_editor_closes_when_leaving_text_tool() {
    assert!(closes_text_editor(DrawingMode::Brush, Some(DrawingKind::Text)));
    assert!(!closes_text_editor(DrawingMode::Text, Some(DrawingKind::Text)));
    assert!(!closes_text_editor(DrawingMode::Brush, Some(DrawingKind::Rectangle)));
    assert!(!closes_text_editor(DrawingMode::Arrow, None));
}

#[test]
fn canvas_input_conditions() {
    assert!(accepts_input(true, false, false, false, false));
    assert!(accepts_input(true, false, false, true, false));
    assert!(accepts_input(true, false, false, false, true));
    assert!(!accepts_input(false, false, false, false, false));
    assert!(!accepts_input(true, true, false, false, false));
    assert!(!accepts_input(true, false, true, false, false));
    assert!(!accepts_input(true, false, false, true, true));
}

#[test]
fn leaving_canvas_ends_brush_always() {
    assert!(leaving_ends_interaction(DrawingMode::Brush, false));
    assert!(leaving_ends_interaction(DrawingMode::Rectangle, true));
    assert!(!leaving_ends_interaction(DrawingMode::Rectangle, false));
}
