//! Canvas tool modes
//!
//! Provides tool modes (Select, Rectangle, Circle, Text, ...) and which element a drag
//! with each tool creates.
use vstd::prelude::*;

verus! {

/// Available tool modes for canvas operations
#[derive(Debug, Clone, Copy, PartialEq, Eq, Structural)]
pub enum ToolMode {
    /// Selection and modification of existing objects
    Select,
    /// Create rectangle shapes
    Rectangle,
    /// Create circle/ellipse shapes
    Circle,
    /// Create line shapes
    Line,
    /// Create arrow shapes
    Arrow,
    /// Insert image objects
    Image,
    /// Create text objects
    Text,
    /// Pan the canvas (space+drag or middle mouse)
    Pan,
}

impl Default for ToolMode {
    fn default() -> (res: Self)
        ensures
            res == ToolMode::Select,
    {
        ToolMode::Select
    }
}

/// The display name of a tool.
pub open spec fn tool_name(t: ToolMode) -> Seq<char> {
    match t {
        ToolMode::Select => "Select"@,
        ToolMode::Rectangle => "Rectangle"@,
        ToolMode::Circle => "Circle"@,
        ToolMode::Line => "Line"@,
        ToolMode::Arrow => "Arrow"@,
        ToolMode::Image => "Image"@,
        ToolMode::Text => "Text"@,
        ToolMode::Pan => "Pan"@,
    }
}

/// The pointer cursor shown while a tool is active: the drawing tools share the
/// crosshair.
pub open spec fn tool_cursor(t: ToolMode) -> Seq<char> {
    match t {
        ToolMode::Select => "default"@,
        ToolMode::Text => "text"@,
        ToolMode::Pan => "grab"@,
        _ => "crosshair"@,
    }
}

impl ToolMode {
    pub fn name(&self) -> (res: &'static str)
        ensures
            res@ == tool_name(*self),
    {
        match self {
            Self::Select => "Select",
            Self::Rectangle => "Rectangle",
            Self::Circle => "Circle",
            Self::Line => "Line",
            Self::Arrow => "Arrow",
            Self::Image => "Image",
            Self::Text => "Text",
            Self::Pan => "Pan",
        }
    }

    pub fn cursor_name(&self) -> (res: &'static str)
        ensures
            res@ == tool_cursor(*self),
    {
        match self {
            Self::Select => "default",
            Self::Rectangle => "crosshair",
            Self::Circle => "crosshair",
            Self::Line => "crosshair",
            Self::Arrow => "crosshair",
            Self::Image => "crosshair",
            Self::Text => "text",
            Self::Pan => "grab",
        }
    }
}

/// The kind of element a creation drag produces.
#[derive(Debug, Clone, Copy, PartialEq, Eq, Structural)]
pub enum CreatedElement {
    Rectangle,
    Circle,
    Line,
    Arrow,
    Image,
    Text,
}

/// The element that a drag with the given tool creates; selecting and panning create
/// nothing.
pub open spec fn created_by(t: ToolMode) -> Option<CreatedElement> {
    match t {
        ToolMode::Rectangle => Some(CreatedElement::Rectangle),
        ToolMode::Circle => Some(CreatedElement::Circle),
        ToolMode::Line => Some(CreatedElement::Line),
        ToolMode::Arrow => Some(CreatedElement::Arrow),
        ToolMode::Image => Some(CreatedElement::Image),
        ToolMode::Text => Some(CreatedElement::Text),
        _ => None,
    }
}

/// The element that a drag with `tool` creates.
pub fn element_for_tool(tool: ToolMode) -> (res: Option<CreatedElement>)
    ensures
        res == created_by(tool),
{
    match tool {
        ToolMode::Rectangle => Some(CreatedElement::Rectangle),
        ToolMode::Circle => Some(CreatedElement::Circle),
        ToolMode::Line => Some(CreatedElement::Line),
        ToolMode::Arrow => Some(CreatedElement::Arrow),
        ToolMode::Image => Some(CreatedElement::Image),
        ToolMode::Text => Some(CreatedElement::Text),
        _ => None,
    }
}

/// Each drawing tool creates its own kind of element and no other tool creates it:
/// the rectangle tool rectangles, the circle tool circles, the line tool lines, the arrow
/// tool arrows, the image tool images and the text tool texts; the select and pan tools
/// create nothing. So a long enough drag that is not a resize, with a drawing tool,
/// creates that tool's element.
pub proof fn lemma_each_tool_creates_its_element(t: ToolMode, has_selection: bool, past_resize: bool)
    ensures
        created_by(t) == Some(CreatedElement::Rectangle) <==> t == ToolMode::Rectangle,
        created_by(t) == Some(CreatedElement::Circle) <==> t == ToolMode::Circle,
        created_by(t) == Some(CreatedElement::Line) <==> t == ToolMode::Line,
        created_by(t) == Some(CreatedElement::Arrow) <==> t == ToolMode::Arrow,
        created_by(t) == Some(CreatedElement::Image) <==> t == ToolMode::Image,
        created_by(t) == Some(CreatedElement::Text) <==> t == ToolMode::Text,
        created_by(t) is None <==> (t == ToolMode::Select || t == ToolMode::Pan),
        forall|u: ToolMode| #[trigger] created_by(u) == created_by(t) && created_by(t) is Some
            ==> u == t,
        drag_end_action_of(false, t, has_selection, past_resize, true) == (DragEndAction::Create(
            CreatedElement::Circle,
        )) <==> t == ToolMode::Circle,
        drag_end_action_of(false, t, has_selection, past_resize, true) == (DragEndAction::Create(
            CreatedElement::Rectangle,
        )) <==> t == ToolMode::Rectangle,
        t != ToolMode::Select && created_by(t) is Some ==> drag_end_action_of(
            false,
            t,
            has_selection,
            past_resize,
            true,
        ) == DragEndAction::Create(created_by(t).unwrap()),
{
}

/// What the end of a primary-button drag does.
#[derive(Debug, Clone, Copy, PartialEq, Eq, Structural)]
pub enum DragEndAction {
    /// Apply the resize of the object under the resize handle
    Resize,
    /// Move the selected objects by the drag offset
    MoveSelection,
    /// Create an element spanning the dragged rectangle, then return to the select tool
    Create(CreatedElement),
    /// Nothing happens
    Nothing,
}

/// The decision at the end of a drag: a resize applies once the pointer moved past the
/// small resize threshold; otherwise, once it moved past the larger drag threshold, the
/// select tool moves the selection (if any) and the drawing tools create their element.
pub open spec fn drag_end_action_of(
    resizing: bool,
    tool: ToolMode,
    has_selection: bool,
    past_resize_threshold: bool,
    past_drag_threshold: bool,
) -> DragEndAction {
    if resizing && past_resize_threshold {
        DragEndAction::Resize
    } else if tool == ToolMode::Select && past_drag_threshold {
        if has_selection {
            DragEndAction::MoveSelection
        } else {
            DragEndAction::Nothing
        }
    } else if tool != ToolMode::Select && past_drag_threshold {
        match created_by(tool) {
            Some(e) => DragEndAction::Create(e),
            None => DragEndAction::Nothing,
        }
    } else {
        DragEndAction::Nothing
    }
}

/// Decides what the end of a drag does. `past_resize_threshold` and
/// `past_drag_threshold` say whether the drag offset exceeded 2 and 5 pixels along
/// some axis.
pub fn drag_end_action(
    resizing: bool,
    tool: ToolMode,
    has_selection: bool,
    past_resize_threshold: bool,
    past_drag_threshold: bool,
) -> (res: DragEndAction)
    ensures
        res == drag_end_action_of(
            resizing,
            tool,
            has_selection,
            past_resize_threshold,
            past_drag_threshold,
        ),
{
    if resizing && past_resize_threshold {
        DragEndAction::Resize
    } else if tool == ToolMode::Select && past_drag_threshold {
        if has_selection {
            DragEndAction::MoveSelection
        } else {
            DragEndAction::Nothing
        }
    } else if tool != ToolMode::Select && past_drag_threshold {
        match element_for_tool(tool) {
            Some(e) => DragEndAction::Create(e),
            None => DragEndAction::Nothing,
        }
    } else {
        DragEndAction::Nothing
    }
}

} // verus!
