//! The drawing tools and what the toolbar shows for the selected one.

use vstd::prelude::*;

verus! {

/// Divisor applied to a stroke's alpha when it is painted as a highlight.
pub const HIGHLIGTHER_FACTOR: u8 = 70;

/// The tool that a press on the canvas draws with.
#[derive(Clone, Copy, Debug, PartialEq, Eq, Structural)]
pub enum DrawingMode {
    Brush,
    Highlighter,
    Rectangle,
    FilledRectangle,
    Circle,
    FilledCircle,
    Arrow,
    Text,
}

/// A tool that draws a shape spanning the drag from its start to its end.
#[derive(Clone, Copy, Debug, PartialEq, Eq, Structural)]
pub enum ShapeTool {
    Highlighter,
    Rectangle,
    FilledRectangle,
    Circle,
    FilledCircle,
    Arrow,
}

/// The shape a tool draws: none for the brush, which draws strokes, and for
/// the text tool.
pub open spec fn shape_tool_of(mode: DrawingMode) -> Option<ShapeTool> {
    match mode {
        DrawingMode::Highlighter => Some(ShapeTool::Highlighter),
        DrawingMode::Rectangle => Some(ShapeTool::Rectangle),
        DrawingMode::FilledRectangle => Some(ShapeTool::FilledRectangle),
        DrawingMode::Circle => Some(ShapeTool::Circle),
        DrawingMode::FilledCircle => Some(ShapeTool::FilledCircle),
        DrawingMode::Arrow => Some(ShapeTool::Arrow),
        DrawingMode::Brush | DrawingMode::Text => None,
    }
}

impl Default for DrawingMode {
    /// The brush is selected until another tool is chosen.
    fn default() -> (mode: Self)
        ensures
            mode == DrawingMode::Brush,
    {
        DrawingMode::Brush
    }
}

impl DrawingMode {
    /// The shape this tool draws, if it draws one.
    pub fn shape_tool(&self) -> (tool: Option<ShapeTool>)
        ensures
            tool == shape_tool_of(*self),
    {
        match self {
            DrawingMode::Highlighter => Some(ShapeTool::Highlighter),
            DrawingMode::Rectangle => Some(ShapeTool::Rectangle),
            DrawingMode::FilledRectangle => Some(ShapeTool::FilledRectangle),
            DrawingMode::Circle => Some(ShapeTool::Circle),
            DrawingMode::FilledCircle => Some(ShapeTool::FilledCircle),
            DrawingMode::Arrow => Some(ShapeTool::Arrow),
            DrawingMode::Brush | DrawingMode::Text => None,
        }
    }

    /// Whether the circles menu is highlighted: a circle tool is selected.
    pub fn is_circle(&self) -> (circle: bool)
        ensures
            circle == (*self == DrawingMode::Circle || *self == DrawingMode::FilledCircle),
    {
        match self {
            DrawingMode::Circle | DrawingMode::FilledCircle => true,
            _ => false,
        }
    }

    /// Whether the rectangles menu is highlighted: a rectangle tool is selected.
    pub fn is_rectangle(&self) -> (rectangle: bool)
        ensures
            rectangle == (*self == DrawingMode::Rectangle || *self == DrawingMode::FilledRectangle),
    {
        match self {
            DrawingMode::Rectangle | DrawingMode::FilledRectangle => true,
            _ => false,
        }
    }

    /// Icon of the circles menu: the filled circle while that tool is selected.
    pub fn circle_icon(&self) -> (icon: &'static str)
        ensures
            icon@ == (if *self == DrawingMode::FilledCircle {
                "circle_full"@
            } else {
                "circle"@
            }),
    {
        match self {
            DrawingMode::FilledCircle => "circle_full",
            _ => "circle",
        }
    }

    /// Icon of the rectangles menu: the filled rectangle while that tool is selected.
    pub fn rectangle_icon(&self) -> (icon: &'static str)
        ensures
            icon@ == (if *self == DrawingMode::FilledRectangle {
                "rect_full"@
            } else {
                "rect"@
            }),
    {
        match self {
            DrawingMode::FilledRectangle => "rect_full",
            _ => "rect",
        }
    }
}

/// Alpha of a highlight painted with a stroke of alpha `alpha`.
pub fn highlighter_alpha(alpha: u8) -> (a: u8)
    ensures
        a == alpha / HIGHLIGTHER_FACTOR,
{
    alpha / HIGHLIGTHER_FACTOR
}

/// Each shape tool draws the shape of the same name, so no two tools draw the
/// same shape; the brush and the text tool draw none.
pub proof fn lemma_shape_tools(m1: DrawingMode, m2: DrawingMode)
    ensures
        shape_tool_of(DrawingMode::Highlighter) == Some(ShapeTool::Highlighter),
        shape_tool_of(DrawingMode::Rectangle) == Some(ShapeTool::Rectangle),
        shape_tool_of(DrawingMode::FilledRectangle) == Some(ShapeTool::FilledRectangle),
        shape_tool_of(DrawingMode::Circle) == Some(ShapeTool::Circle),
        shape_tool_of(DrawingMode::FilledCircle) == Some(ShapeTool::FilledCircle),
        shape_tool_of(DrawingMode::Arrow) == Some(ShapeTool::Arrow),
        (shape_tool_of(m1) is None) == (m1 == DrawingMode::Brush || m1 == DrawingMode::Text),
        shape_tool_of(m1) is Some && shape_tool_of(m1) == shape_tool_of(m2) ==> m1 == m2,
{
}

} // verus!
