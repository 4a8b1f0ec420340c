//! Decisions the canvas takes on pointer input, over what they read of the drawings.

use crate::history::{record_replacing, replaced};
use crate::redo_list::RedoList;
use crate::tools::{shape_tool_of, DrawingMode, ShapeTool};
use vstd::prelude::*;

verus! {

/// What the canvas logic reads of a drawing: its kind and, for a brush stroke,
/// whether the stroke is finished.
#[derive(Clone, Copy, Debug, PartialEq, Eq, Structural)]
pub enum DrawingKind {
    Brush { end: bool },
    Rectangle,
    FilledRectangle,
    Highlighter,
    Circle,
    FilledCircle,
    Arrow,
    Text,
}

/// What a brush drag does with the pointer position.
#[derive(Clone, Copy, Debug, PartialEq, Eq, Structural)]
pub enum BrushDrag {
    /// Append the point to the last drawing, an unfinished stroke.
    ExtendLast,
    /// Begin a new stroke holding the point.
    StartStroke,
}

/// Whether the canvas reacts to the pointer: it is inside the drawing area, the
/// colour picker and the settings menu are closed, and it is not over an open
/// configuration window.
pub fn accepts_input(
    inside_area: bool,
    color_picker_open: bool,
    settings_menu_open: bool,
    config_window_open: bool,
    over_config_window: bool,
) -> (accepts: bool)
    ensures
        accepts == (inside_area && !color_picker_open && !settings_menu_open && !(
        config_window_open && over_config_window)),
{
    inside_area && !color_picker_open && !settings_menu_open && !(config_window_open
        && over_config_window)
}

/// A brush drag extends the last drawing when it is an unfinished stroke and
/// starts a new stroke otherwise.
pub fn brush_drag(last: Option<DrawingKind>) -> (action: BrushDrag)
    ensures
        action == (if last == Some(DrawingKind::Brush { end: false }) {
            BrushDrag::ExtendLast
        } else {
            BrushDrag::StartStroke
        }),
{
    match last {
        Some(DrawingKind::Brush { end }) => {
            if end {
                BrushDrag::StartStroke
            } else {
                BrushDrag::ExtendLast
            }
        },
        _ => BrushDrag::StartStroke,
    }
}

/// Whether releasing the brush finishes the last drawing: it does when that
/// drawing is a stroke.
pub fn release_finishes_stroke(last: Option<DrawingKind>) -> (finishes: bool)
    ensures
        finishes == (last matches Some(DrawingKind::Brush { .. })),
{
    match last {
        Some(DrawingKind::Brush { .. }) => true,
        _ => false,
    }
}

/// Whether the text editor closes: another tool is selected while the last
/// drawing is a text.
pub fn closes_text_editor(mode: DrawingMode, last: Option<DrawingKind>) -> (closes: bool)
    ensures
        closes == (mode != DrawingMode::Text && last == Some(DrawingKind::Text)),
{
    match mode {
        DrawingMode::Text => false,
        _ => match last {
            Some(DrawingKind::Text) => true,
            _ => false,
        },
    }
}

/// Whether the pointer leaving the canvas ends the current interaction: always
/// for the brush, and for the other tools once the button is up.
pub fn leaving_ends_interaction(mode: DrawingMode, primary_up: bool) -> (ends: bool)
    ensures
        ends == (mode == DrawingMode::Brush || primary_up),
{
    match mode {
        DrawingMode::Brush => true,
        _ => primary_up,
    }
}

/// What the canvas keeps from one frame to the next. `P` is a position and
/// `A` the drawing area, both as the GUI measures them.
#[derive(Clone, Copy, Debug, PartialEq)]
pub struct CanvasState<P, A> {
    /// Where the current drag started, on the screenshot.
    pub drag_start: Option<P>,
    /// The area that keeps taking the pointer while a drag goes on.
    pub hover_area: Option<A>,
    /// The last position of the brush.
    pub previous_pos: Option<P>,
    /// Whether the text editor is open.
    pub text_editor: bool,
    /// Whether the next edit replaces the text drawn by the previous one.
    pub text_continue: bool,
    /// Where the text being edited stands.
    pub text_pos: Option<P>,
    /// Whether the configuration window is open.
    pub config_window: bool,
    /// Whether the settings menu was open; the next frame consumes it.
    pub settings_menu_open: bool,
}

impl<P, A> CanvasState<P, A> {
    /// No drag, no text editor, no window or menu open.
    pub fn new() -> (state: Self)
        ensures
            state.drag_start is None,
            state.hover_area is None,
            state.previous_pos is None,
            !state.text_editor,
            !state.text_continue,
            state.text_pos is None,
            !state.config_window,
            !state.settings_menu_open,
    {
        CanvasState {
            drag_start: None,
            hover_area: None,
            previous_pos: None,
            text_editor: false,
            text_continue: false,
            text_pos: None,
            config_window: false,
            settings_menu_open: false,
        }
    }
}

/// The pointer over the window: where it is, and where that is on the screenshot.
#[derive(Clone, Copy, Debug, PartialEq)]
pub struct Pointer<P> {
    pub raw: P,
    pub on_canvas: P,
}

/// What a frame tells the canvas about the pointer.
#[derive(Clone, Copy, Debug, PartialEq)]
pub struct PointerFrame<P, A> {
    /// The pointer, when it hovers the window.
    pub pointer: Option<Pointer<P>>,
    /// Whether the pointer is inside the area that takes it (the hover area
    /// while a drag goes on, the drawing area otherwise).
    pub inside_area: bool,
    /// Whether the pointer is over the configuration window.
    pub over_config_window: bool,
    /// Whether the colour picker is open.
    pub color_picker_open: bool,
    /// Whether the primary button was clicked in this frame.
    pub clicked: bool,
    /// Whether the primary button is down.
    pub down: bool,
    /// Whether the primary button was released in this frame.
    pub released: bool,
    /// Where the current press began, on the screenshot.
    pub press_origin: Option<P>,
    /// The drawing area in this frame.
    pub area: A,
}

/// What happened in the text editor in this frame; `T` is the text drawing
/// that the edited text makes.
#[derive(Clone, Debug, PartialEq)]
pub enum TextEvent<T> {
    Idle,
    LostFocus,
    Changed(T),
}

/// What the GUI does for a press.
#[derive(Clone, Copy, Debug, PartialEq)]
pub enum PressAction<P> {
    Nothing,
    /// Append the point to the open stroke, the last drawing.
    ExtendStroke(P),
    /// Add a new stroke holding the point.
    StartStroke(P),
    /// Paint the shape the drag spans, without recording it.
    Preview { tool: ShapeTool, from: P, to: P },
}

/// What the GUI does for a release or for the pointer leaving the canvas.
#[derive(Clone, Copy, Debug, PartialEq)]
pub enum ReleaseAction<P> {
    Nothing,
    /// Append the point to the last stroke and finish it.
    FinishStroke(P),
    /// Record the shape the drag spans.
    RecordShape { tool: ShapeTool, from: P, to: P },
    /// Finish the last stroke.
    EndStroke,
}

/// Everything the GUI does with the drawings for one frame.
#[derive(Clone, Copy, Debug, PartialEq)]
pub struct CanvasAction<P> {
    pub press: PressAction<P>,
    pub release: ReleaseAction<P>,
}

/// Whether the canvas takes the pointer in this frame.
pub open spec fn takes_input<P, A>(state: CanvasState<P, A>, frame: PointerFrame<P, A>) -> bool {
    &&& frame.pointer is Some
    &&& frame.inside_area
    &&& !frame.color_picker_open
    &&& !state.settings_menu_open
    &&& !(state.config_window && frame.over_config_window)
}

/// Whether the primary button is held on the canvas.
pub open spec fn pressing<P, A>(state: CanvasState<P, A>, frame: PointerFrame<P, A>) -> bool {
    takes_input(state, frame) && frame.down
}

/// Where the drag started, once a press in this frame is taken into account.
pub open spec fn drag_origin<P, A>(state: CanvasState<P, A>, frame: PointerFrame<P, A>) -> Option<P> {
    if pressing(state, frame) {
        Some(
            match state.drag_start {
                Some(p) => p,
                None => frame.press_origin->0,
            },
        )
    } else {
        state.drag_start
    }
}

/// Whether a drag ends on the canvas in this frame.
pub open spec fn releasing<P, A>(state: CanvasState<P, A>, frame: PointerFrame<P, A>) -> bool {
    takes_input(state, frame) && frame.released && drag_origin(state, frame) is Some
}

/// Whether the pointer is outside the canvas in a way that ends the interaction.
pub open spec fn leaving<P, A>(
    state: CanvasState<P, A>,
    mode: DrawingMode,
    frame: PointerFrame<P, A>,
) -> bool {
    frame.pointer is Some && !takes_input(state, frame) && (mode == DrawingMode::Brush
        || !frame.down)
}

/// Whether a click opens the text editor: the text tool is selected and the
/// editor was closed when the frame began.
pub open spec fn opens_text_editor<P, A>(
    state: CanvasState<P, A>,
    mode: DrawingMode,
    frame: PointerFrame<P, A>,
) -> bool {
    takes_input(state, frame) && frame.clicked && !state.text_editor && mode == DrawingMode::Text
}

/// Whether the text editor closes: another tool is selected while the last
/// drawing is a text, or the open editor loses the focus.
pub open spec fn text_closes<P, A, T>(
    state: CanvasState<P, A>,
    mode: DrawingMode,
    last: Option<DrawingKind>,
    event: TextEvent<T>,
) -> bool {
    ||| mode != DrawingMode::Text && last == Some(DrawingKind::Text)
    ||| mode == DrawingMode::Text && state.text_editor && event is LostFocus
}

/// Whether the text in the open editor was changed.
pub open spec fn text_changed<P, A, T>(
    state: CanvasState<P, A>,
    mode: DrawingMode,
    event: TextEvent<T>,
) -> bool {
    mode == DrawingMode::Text && state.text_editor && event is Changed
}

/// What a press does: the brush extends the open stroke or starts one, a
/// shape tool previews the shape from the drag's start, the text tool nothing.
pub open spec fn press_action<P, A>(
    state: CanvasState<P, A>,
    mode: DrawingMode,
    frame: PointerFrame<P, A>,
    last: Option<DrawingKind>,
) -> PressAction<P> {
    if !pressing(state, frame) {
        PressAction::Nothing
    } else if mode == DrawingMode::Brush {
        if last == Some(DrawingKind::Brush { end: false }) {
            PressAction::ExtendStroke(frame.pointer->0.on_canvas)
        } else {
            PressAction::StartStroke(frame.pointer->0.on_canvas)
        }
    } else {
        match shape_tool_of(mode) {
            Some(tool) => PressAction::Preview {
                tool,
                from: drag_origin(state, frame)->0,
                to: frame.pointer->0.on_canvas,
            },
            None => PressAction::Nothing,
        }
    }
}

/// What the end of a drag does: a shape tool records the shape from the drag's
/// start to the pointer, the brush finishes the last drawing when it is a
/// stroke; the pointer leaving the canvas with the brush finishes that stroke.
pub open spec fn release_action<P, A>(
    state: CanvasState<P, A>,
    mode: DrawingMode,
    frame: PointerFrame<P, A>,
    last: Option<DrawingKind>,
) -> ReleaseAction<P> {
    if releasing(state, frame) {
        match shape_tool_of(mode) {
            Some(tool) => ReleaseAction::RecordShape {
                tool,
                from: drag_origin(state, frame)->0,
                to: frame.pointer->0.on_canvas,
            },
            None => if mode == DrawingMode::Brush && (pressing(state, frame) || last matches Some(
                DrawingKind::Brush { .. },
            )) {
                ReleaseAction::FinishStroke(frame.pointer->0.on_canvas)
            } else {
                ReleaseAction::Nothing
            },
        }
    } else if leaving(state, mode, frame) && mode == DrawingMode::Brush && last matches Some(
        DrawingKind::Brush { .. },
    ) {
        ReleaseAction::EndStroke
    } else {
        ReleaseAction::Nothing
    }
}

/// The canvas state after a frame.
pub open spec fn next_state<P, A, T>(
    state: CanvasState<P, A>,
    mode: DrawingMode,
    frame: PointerFrame<P, A>,
    last: Option<DrawingKind>,
    event: TextEvent<T>,
) -> CanvasState<P, A> {
    let opens = opens_text_editor(state, mode, frame);
    let closes = text_closes(state, mode, last, event);
    let ends = releasing(state, frame) || leaving(state, mode, frame);
    CanvasState {
        drag_start: if ends {
            None
        } else {
            drag_origin(state, frame)
        },
        hover_area: if ends {
            None
        } else if pressing(state, frame) {
            Some(frame.area)
        } else {
            state.hover_area
        },
        previous_pos: if mode != DrawingMode::Brush {
            state.previous_pos
        } else if releasing(state, frame) || (leaving(state, mode, frame) && !frame.down) {
            None
        } else if leaving(state, mode, frame) {
            Some(frame.pointer->0.raw)
        } else if pressing(state, frame) {
            Some(frame.pointer->0.on_canvas)
        } else {
            state.previous_pos
        },
        text_editor: if opens {
            true
        } else if closes {
            false
        } else {
            state.text_editor
        },
        text_continue: if opens || closes {
            false
        } else if text_changed(state, mode, event) {
            true
        } else {
            state.text_continue
        },
        text_pos: if opens {
            Some(frame.pointer->0.on_canvas)
        } else {
            state.text_pos
        },
        config_window: state.config_window && !pressing(state, frame),
        settings_menu_open: false,
    }
}

/// One frame of the canvas with tool `mode`, where `last` is the kind of the
/// last drawing when the frame begins. Text edits are recorded here; the
/// strokes and shapes, which the GUI builds, come back as the action.
pub fn canvas_step<T, P: Copy, A: Copy>(
    state: &mut CanvasState<P, A>,
    mode: DrawingMode,
    frame: PointerFrame<P, A>,
    event: TextEvent<T>,
    drawings: &mut Vec<T>,
    redo_list: &mut Option<RedoList<T>>,
    last: Option<DrawingKind>,
) -> (action: CanvasAction<P>)
    requires
        pressing(*old(state), frame) && old(state).drag_start is None ==> frame.press_origin is Some,
    ensures
        !final(state).settings_menu_open,
        final(state).text_editor == (if opens_text_editor(*old(state), mode, frame) {
            true
        } else if text_closes(*old(state), mode, last, event) {
            false
        } else {
            old(state).text_editor
        }),
        final(state).text_continue == (if opens_text_editor(*old(state), mode, frame) || text_closes(
            *old(state),
            mode,
            last,
            event,
        ) {
            false
        } else if text_changed(*old(state), mode, event) {
            true
        } else {
            old(state).text_continue
        }),
        final(state).text_pos == (if opens_text_editor(*old(state), mode, frame) {
            Some(frame.pointer->0.on_canvas)
        } else {
            old(state).text_pos
        }),
        final(drawings)@ == (if text_changed(*old(state), mode, event) {
            replaced(old(drawings)@, old(state).text_continue, event->Changed_0)
        } else {
            old(drawings)@
        }),
        final(state).config_window == (old(state).config_window && !pressing(*old(state), frame)),
        final(state).drag_start == (if releasing(*old(state), frame) || leaving(
            *old(state),
            mode,
            frame,
        ) {
            None
        } else {
            drag_origin(*old(state), frame)
        }),
        final(state).hover_area == (if releasing(*old(state), frame) || leaving(
            *old(state),
            mode,
            frame,
        ) {
            None
        } else if pressing(*old(state), frame) {
            Some(frame.area)
        } else {
            old(state).hover_area
        }),
        final(state).previous_pos == (if mode != DrawingMode::Brush {
            old(state).previous_pos
        } else if releasing(*old(state), frame) || (leaving(*old(state), mode, frame)
            && !frame.down) {
            None
        } else if leaving(*old(state), mode, frame) {
            Some(frame.pointer->0.raw)
        } else if pressing(*old(state), frame) {
            Some(frame.pointer->0.on_canvas)
        } else {
            old(state).previous_pos
        }),
        *final(redo_list) == (if text_changed(*old(state), mode, event) || releasing(
            *old(state),
            frame,
        ) {
            None
        } else {
            *old(redo_list)
        }),
        action.press == press_action(*old(state), mode, frame, last),
        action.release == release_action(*old(state), mode, frame, last),
        *final(state) == next_state(*old(state), mode, frame, last, event),
{
    let settings_menu_open = state.settings_menu_open;
    state.settings_menu_open = false;
    let editor_was_open = state.text_editor;
    if closes_text_editor(mode, last) {
        state.text_editor = false;
        state.text_continue = false;
    } else if mode == DrawingMode::Text && editor_was_open {
        match event {
            TextEvent::LostFocus => {
                state.text_editor = false;
                state.text_continue = false;
            },
            TextEvent::Changed(d) => {
                record_replacing(drawings, redo_list, d, state.text_continue);
                state.text_continue = true;
            },
            TextEvent::Idle => {},
        }
    }
    let mut press = PressAction::Nothing;
    let mut release = ReleaseAction::Nothing;
    if let Some(pointer) = frame.pointer {
        if accepts_input(
            frame.inside_area,
            frame.color_picker_open,
            settings_menu_open,
            state.config_window,
            frame.over_config_window,
        ) {
            let mouse = pointer.on_canvas;
            if frame.clicked && !editor_was_open && mode == DrawingMode::Text {
                state.text_editor = true;
                state.text_continue = false;
                state.text_pos = Some(mouse);
            }
            let mut stroke_open = release_finishes_stroke(last);
            if frame.down {
                state.config_window = false;
                let p0 = match state.drag_start {
                    Some(p) => p,
                    None => frame.press_origin.unwrap(),
                };
                state.drag_start = Some(p0);
                if mode == DrawingMode::Brush {
                    press =
                        match brush_drag(last) {
                            BrushDrag::ExtendLast => PressAction::ExtendStroke(mouse),
                            BrushDrag::StartStroke => PressAction::StartStroke(mouse),
                        };
                    stroke_open = true;
                    state.previous_pos = Some(mouse);
                } else {
                    press =
                        match mode.shape_tool() {
                            Some(tool) => PressAction::Preview { tool, from: p0, to: mouse },
                            None => PressAction::Nothing,
                        };
                }
                state.hover_area = Some(frame.area);
            }
            if frame.released {
                if let Some(p0) = state.drag_start {
                    if mode == DrawingMode::Brush {
                        if stroke_open {
                            release = ReleaseAction::FinishStroke(mouse);
                        }
                        state.previous_pos = None;
                    } else {
                        release =
                            match mode.shape_tool() {
                                Some(tool) => ReleaseAction::RecordShape { tool, from: p0, to: mouse },
                                None => ReleaseAction::Nothing,
                            };
                    }
                    state.drag_start = None;
                    state.hover_area = None;
                    *redo_list = None;
                }
            }
        } else if leaving_ends_interaction(mode, !frame.down) {
            if mode == DrawingMode::Brush {
                if release_finishes_stroke(last) {
                    release = ReleaseAction::EndStroke;
                }
                state.previous_pos =
                    if frame.down {
                        Some(pointer.raw)
                    } else {
                        None
                    };
            }
            state.drag_start = None;
            state.hover_area = None;
        }
    }
    CanvasAction { press, release }
}

/// A brush press on the canvas extends the last drawing only when it is an
/// unfinished stroke; after a finished stroke, another drawing or none, it
/// starts a new stroke at the pointer.
pub proof fn lemma_brush_press<P, A>(
    state: CanvasState<P, A>,
    frame: PointerFrame<P, A>,
    last: Option<DrawingKind>,
)
    requires
        pressing(state, frame),
    ensures
        last == Some(DrawingKind::Brush { end: false }) ==> press_action(
            state,
            DrawingMode::Brush,
            frame,
            last,
        ) == PressAction::ExtendStroke(frame.pointer->0.on_canvas),
        last != Some(DrawingKind::Brush { end: false }) ==> press_action(
            state,
            DrawingMode::Brush,
            frame,
            last,
        ) == PressAction::StartStroke(frame.pointer->0.on_canvas),
        press_action(state, DrawingMode::Brush, frame, Some(DrawingKind::Brush { end: true }))
            != press_action(state, DrawingMode::Brush, frame, Some(DrawingKind::Brush { end: false })),
{
}

/// Only a press on the canvas acts: without one there is no press action.
pub proof fn lemma_no_press_no_action<P, A>(
    state: CanvasState<P, A>,
    mode: DrawingMode,
    frame: PointerFrame<P, A>,
    last: Option<DrawingKind>,
)
    requires
        !pressing(state, frame),
    ensures
        press_action(state, mode, frame, last) == PressAction::<P>::Nothing,
{
}

/// When a drag ends on the canvas with the brush and the last drawing is a
/// stroke, or the stroke was begun by a press in the same frame, the release
/// adds the pointer to it and finishes it.
pub proof fn lemma_brush_release<P, A>(
    state: CanvasState<P, A>,
    frame: PointerFrame<P, A>,
    last: Option<DrawingKind>,
)
    requires
        releasing(state, frame),
        pressing(state, frame) || (last matches Some(DrawingKind::Brush { .. })),
    ensures
        release_action(state, DrawingMode::Brush, frame, last) == ReleaseAction::FinishStroke(
            frame.pointer->0.on_canvas,
        ),
{
}

/// When a drag ends on the canvas with a shape tool, the release records that
/// tool's shape from where the drag started to the pointer.
pub proof fn lemma_shape_release<P, A>(
    state: CanvasState<P, A>,
    mode: DrawingMode,
    frame: PointerFrame<P, A>,
    last: Option<DrawingKind>,
)
    requires
        releasing(state, frame),
        shape_tool_of(mode) is Some,
    ensures
        release_action(state, mode, frame, last) == (ReleaseAction::RecordShape {
            tool: shape_tool_of(mode)->0,
            from: drag_origin(state, frame)->0,
            to: frame.pointer->0.on_canvas,
        }),
        state.drag_start is Some ==> drag_origin(state, frame) == state.drag_start,
{
}

/// With the pointer off the canvas the brush finishes the stroke being drawn,
/// and nothing else ends a drag.
pub proof fn lemma_leaving_brush<P, A>(
    state: CanvasState<P, A>,
    mode: DrawingMode,
    frame: PointerFrame<P, A>,
    last: Option<DrawingKind>,
)
    requires
        frame.pointer is Some,
        !takes_input(state, frame),
    ensures
        mode == DrawingMode::Brush && (last matches Some(DrawingKind::Brush { .. })) ==> release_action(
            state,
            mode,
            frame,
            last,
        ) == ReleaseAction::<P>::EndStroke,
        mode != DrawingMode::Brush ==> release_action(state, mode, frame, last)
            == ReleaseAction::<P>::Nothing,
        press_action(state, mode, frame, last) == PressAction::<P>::Nothing,
{
}

/// The canvas takes the pointer exactly when it hovers the area, the colour
/// picker and the settings menu are closed, and it is not over an open
/// configuration window.
pub proof fn lemma_input_taken<P, A>(state: CanvasState<P, A>, frame: PointerFrame<P, A>)
    ensures
        frame.pointer is None ==> !takes_input(state, frame),
        !frame.inside_area ==> !takes_input(state, frame),
        frame.color_picker_open ==> !takes_input(state, frame),
        state.settings_menu_open ==> !takes_input(state, frame),
        state.config_window && frame.over_config_window ==> !takes_input(state, frame),
        frame.pointer is Some && frame.inside_area && !frame.color_picker_open
            && !state.settings_menu_open && !(state.config_window && frame.over_config_window)
            ==> takes_input(state, frame),
{
}

/// A press on the canvas closes the configuration window and starts a drag at
/// the press origin, or keeps the drag already started; the drag goes on
/// unless the button is also released in the same frame.
pub proof fn lemma_press_starts_drag<P, A, T>(
    state: CanvasState<P, A>,
    mode: DrawingMode,
    frame: PointerFrame<P, A>,
    last: Option<DrawingKind>,
    event: TextEvent<T>,
)
    requires
        takes_input(state, frame),
        frame.down,
        !frame.released,
        state.drag_start is None ==> frame.press_origin is Some,
    ensures
        !next_state(state, mode, frame, last, event).config_window,
        state.drag_start is Some ==> next_state(state, mode, frame, last, event).drag_start
            == state.drag_start,
        state.drag_start is None ==> next_state(state, mode, frame, last, event).drag_start
            == frame.press_origin,
        next_state(state, mode, frame, last, event).hover_area == Some(frame.area),
        mode == DrawingMode::Brush ==> next_state(state, mode, frame, last, event).previous_pos
            == Some(frame.pointer->0.on_canvas),
{
}

/// A drag that ends on the canvas leaves no drag behind, and the brush forgets
/// its last position.
pub proof fn lemma_release_ends_drag<P, A, T>(
    state: CanvasState<P, A>,
    mode: DrawingMode,
    frame: PointerFrame<P, A>,
    last: Option<DrawingKind>,
    event: TextEvent<T>,
)
    requires
        takes_input(state, frame),
        frame.released,
        state.drag_start is Some || frame.down,
    ensures
        releasing(state, frame),
        next_state(state, mode, frame, last, event).drag_start is None,
        next_state(state, mode, frame, last, event).hover_area is None,
        mode == DrawingMode::Brush ==> next_state(state, mode, frame, last, event).previous_pos is None,
{
}

/// A release on the canvas without a drag ends nothing.
pub proof fn lemma_release_without_drag<P, A>(
    state: CanvasState<P, A>,
    mode: DrawingMode,
    frame: PointerFrame<P, A>,
    last: Option<DrawingKind>,
)
    requires
        takes_input(state, frame),
        state.drag_start is None,
        !frame.down,
    ensures
        !releasing(state, frame),
        release_action(state, mode, frame, last) == ReleaseAction::<P>::Nothing,
{
}

/// Off the canvas, with the brush or with the button up, the drag ends; the
/// brush keeps the pointer as its last position only while the button is down.
pub proof fn lemma_leaving_ends_drag<P, A, T>(
    state: CanvasState<P, A>,
    mode: DrawingMode,
    frame: PointerFrame<P, A>,
    last: Option<DrawingKind>,
    event: TextEvent<T>,
)
    requires
        frame.pointer is Some,
        !takes_input(state, frame),
        mode == DrawingMode::Brush || !frame.down,
    ensures
        next_state(state, mode, frame, last, event).drag_start is None,
        next_state(state, mode, frame, last, event).hover_area is None,
        mode == DrawingMode::Brush && frame.down ==> next_state(state, mode, frame, last, event).previous_pos
            == Some(frame.pointer->0.raw),
        mode == DrawingMode::Brush && !frame.down ==> next_state(
            state,
            mode,
            frame,
            last,
            event,
        ).previous_pos is None,
        next_state(state, mode, frame, last, event).config_window == state.config_window,
{
}

/// Off the canvas with a shape tool and the button down, the drag goes on.
pub proof fn lemma_shape_drag_outside<P, A, T>(
    state: CanvasState<P, A>,
    mode: DrawingMode,
    frame: PointerFrame<P, A>,
    last: Option<DrawingKind>,
    event: TextEvent<T>,
)
    requires
        !takes_input(state, frame),
        mode != DrawingMode::Brush,
        frame.down,
    ensures
        next_state(state, mode, frame, last, event).drag_start == state.drag_start,
        next_state(state, mode, frame, last, event).hover_area == state.hover_area,
        next_state(state, mode, frame, last, event).previous_pos == state.previous_pos,
{
}

/// Without the pointer over the window, the drag, the brush position and the
/// configuration window stay as they were, and nothing is drawn.
pub proof fn lemma_no_pointer<P, A, T>(
    state: CanvasState<P, A>,
    mode: DrawingMode,
    frame: PointerFrame<P, A>,
    last: Option<DrawingKind>,
    event: TextEvent<T>,
)
    requires
        frame.pointer is None,
    ensures
        next_state(state, mode, frame, last, event).drag_start == state.drag_start,
        next_state(state, mode, frame, last, event).hover_area == state.hover_area,
        next_state(state, mode, frame, last, event).previous_pos == state.previous_pos,
        next_state(state, mode, frame, last, event).config_window == state.config_window,
        next_state(state, mode, frame, last, event).text_pos == state.text_pos,
        press_action(state, mode, frame, last) == PressAction::<P>::Nothing,
        release_action(state, mode, frame, last) == ReleaseAction::<P>::Nothing,
{
}

/// A click on the canvas with the text tool and the editor closed opens the
/// editor at the pointer, for a new text.
pub proof fn lemma_click_opens_text_editor<P, A, T>(
    state: CanvasState<P, A>,
    frame: PointerFrame<P, A>,
    last: Option<DrawingKind>,
    event: TextEvent<T>,
)
    requires
        takes_input(state, frame),
        frame.clicked,
        !state.text_editor,
    ensures
        next_state(state, DrawingMode::Text, frame, last, event).text_editor,
        !next_state(state, DrawingMode::Text, frame, last, event).text_continue,
        next_state(state, DrawingMode::Text, frame, last, event).text_pos == Some(
            frame.pointer->0.on_canvas,
        ),
{
}

/// The editor closes, ending the text, when another tool is selected over a
/// text or when it loses the focus; an edit makes the next edit replace the
/// text just recorded.
pub proof fn lemma_text_editor_events<P, A, T>(
    state: CanvasState<P, A>,
    mode: DrawingMode,
    frame: PointerFrame<P, A>,
    last: Option<DrawingKind>,
    event: TextEvent<T>,
)
    ensures
        mode != DrawingMode::Text && last == Some(DrawingKind::Text) ==> !next_state(
            state,
            mode,
            frame,
            last,
            event,
        ).text_editor && !next_state(state, mode, frame, last, event).text_continue,
        mode == DrawingMode::Text && state.text_editor && (event is LostFocus) ==> !next_state(
            state,
            mode,
            frame,
            last,
            event,
        ).text_editor && !next_state(state, mode, frame, last, event).text_continue,
        mode == DrawingMode::Text && state.text_editor && (event is Changed) ==> next_state(
            state,
            mode,
            frame,
            last,
            event,
        ).text_editor && next_state(state, mode, frame, last, event).text_continue,
        mode == DrawingMode::Text && !state.text_editor ==> text_changed(state, mode, event)
            == false,
        mode != DrawingMode::Text ==> !text_changed(state, mode, event),
{
}

/// Every frame consumes the settings-menu flag.
pub proof fn lemma_settings_flag_consumed<P, A, T>(
    state: CanvasState<P, A>,
    mode: DrawingMode,
    frame: PointerFrame<P, A>,
    last: Option<DrawingKind>,
    event: TextEvent<T>,
)
    ensures
        !next_state(state, mode, frame, last, event).settings_menu_open,
{
}

} // verus!
