//! The decisions of the interaction engine: the state machine that turns
//! raw input events into chart commands.
//!
//! [`EngineState`] holds the engine's discrete state (mode, pressed button,
//! active tool, held modifiers) and decides, for each event, the next state
//! and which command to emit. Screen coordinates and the numeric payloads of
//! the commands (zoom factors, price deltas) are attached by the caller.

use vstd::prelude::*;
use crate::input::{KeyCode, ModifierState, MouseButton};

verus! {

/// Available drawing tools.
#[derive(Debug, Clone, Copy, PartialEq, Eq, Structural)]
pub enum DrawingTool {
    Select,
    TrendLine,
    Arrow,
    Ray,
    Segment,
    Rectangle,
    Ellipse,
    HorizontalLine,
    VerticalLine,
    FibonacciRetracement,
    FibonacciExtension,
    Pitchfork,
    Path,
    Text,
    Image,
    Label,
}

/// Interaction mode.
#[derive(Debug, Clone, Copy, PartialEq, Eq, Structural)]
pub enum InteractionMode {
    Navigate,
    Draw,
}

/// What a press (left mouse button down, touch start) asks for.
#[derive(Debug, Clone, Copy, PartialEq, Eq, Structural)]
pub enum PressAction {
    /// Not a left-button press: nothing happens.
    Ignore,
    /// No tool is active: only a redraw.
    Redraw,
    /// The select tool is active: select the drawing under the press.
    SelectDrawing,
    /// A drawing tool is active: place a drawing point at the press.
    PlaceDrawingPoint,
}

/// What a key press asks for.
#[derive(Debug, Clone, Copy, PartialEq, Eq, Structural)]
pub enum KeyAction {
    /// The key has no binding.
    Nothing,
    /// Escape while drawing: cancel the drawing, then deselect all.
    CancelDrawingAndDeselect,
    /// Escape while navigating: deselect all.
    DeselectAll,
    /// Delete or Backspace: delete the selection.
    DeleteSelected,
    /// Plus or Equal: zoom in at the cursor.
    ZoomIn,
    /// Minus: zoom out at the cursor.
    ZoomOut,
    /// Horizontal arrows: pan in time by this many units.
    PanTime(i64),
    /// Vertical arrows: pan in price by this many steps (up is negative).
    PanPrice(i8),
    /// Digits 1 to 9: start drawing with this tool.
    StartDrawing(DrawingTool),
}

/// The drawing tool that a digit key selects.
pub open spec fn digit_tool(key: KeyCode) -> Option<DrawingTool> {
    match key {
        KeyCode::Key1 => Some(DrawingTool::TrendLine),
        KeyCode::Key2 => Some(DrawingTool::Arrow),
        KeyCode::Key3 => Some(DrawingTool::Ray),
        KeyCode::Key4 => Some(DrawingTool::Segment),
        KeyCode::Key5 => Some(DrawingTool::Rectangle),
        KeyCode::Key6 => Some(DrawingTool::Ellipse),
        KeyCode::Key7 => Some(DrawingTool::HorizontalLine),
        KeyCode::Key8 => Some(DrawingTool::VerticalLine),
        KeyCode::Key9 => Some(DrawingTool::FibonacciRetracement),
        _ => None,
    }
}

/// The action that pressing `key` asks for, in mode `mode`.
pub open spec fn key_action(mode: InteractionMode, key: KeyCode) -> KeyAction {
    match key {
        KeyCode::Escape => if mode == InteractionMode::Draw {
            KeyAction::CancelDrawingAndDeselect
        } else {
            KeyAction::DeselectAll
        },
        KeyCode::Delete | KeyCode::Backspace => KeyAction::DeleteSelected,
        KeyCode::Plus | KeyCode::Equal => KeyAction::ZoomIn,
        KeyCode::Minus => KeyAction::ZoomOut,
        KeyCode::ArrowLeft => KeyAction::PanTime(-60i64),
        KeyCode::ArrowRight => KeyAction::PanTime(60i64),
        KeyCode::ArrowUp => KeyAction::PanPrice(-1i8),
        KeyCode::ArrowDown => KeyAction::PanPrice(1i8),
        _ => match digit_tool(key) {
            Some(t) => KeyAction::StartDrawing(t),
            None => KeyAction::Nothing,
        },
    }
}

/// The action of a press, given the active tool.
pub open spec fn press_action(tool: Option<DrawingTool>) -> PressAction {
    match tool {
        Some(DrawingTool::Select) => PressAction::SelectDrawing,
        Some(_) => PressAction::PlaceDrawingPoint,
        None => PressAction::Redraw,
    }
}

/// Discrete state of the interaction engine.
pub struct EngineState {
    mode: InteractionMode,
    mouse_down: bool,
    active_tool: Option<DrawingTool>,
    shift_held: bool,
    ctrl_held: bool,
}

impl EngineState {
    /// Current interaction mode.
    pub closed spec fn spec_mode(&self) -> InteractionMode {
        self.mode
    }

    /// Whether the left button (or a touch) is pressed.
    pub closed spec fn spec_mouse_down(&self) -> bool {
        self.mouse_down
    }

    /// The active drawing tool, if any.
    pub closed spec fn spec_active_tool(&self) -> Option<DrawingTool> {
        self.active_tool
    }

    /// Whether Shift was held at the last event that reported modifiers.
    pub closed spec fn spec_shift_held(&self) -> bool {
        self.shift_held
    }

    /// Whether Ctrl was held at the last event that reported modifiers.
    pub closed spec fn spec_ctrl_held(&self) -> bool {
        self.ctrl_held
    }

    /// The engine draws exactly when a tool is active.
    pub open spec fn wf(&self) -> bool {
        (self.spec_mode() == InteractionMode::Draw) == (self.spec_active_tool() is Some)
    }

    /// A new engine in Navigate mode, with nothing pressed or held.
    pub fn new() -> (r: Self)
        ensures
            r.wf(),
            r.spec_mode() == InteractionMode::Navigate,
            !r.spec_mouse_down(),
            r.spec_active_tool() is None,
            !r.spec_shift_held(),
            !r.spec_ctrl_held(),
    {
        EngineState {
            mode: InteractionMode::Navigate,
            mouse_down: false,
            active_tool: None,
            shift_held: false,
            ctrl_held: false,
        }
    }

    /// Set the active drawing tool directly: drawing with `Some`, navigating with `None`.
    pub fn set_tool(&mut self, tool: Option<DrawingTool>)
        ensures
            final(self).wf(),
            final(self).spec_active_tool() == tool,
            final(self).spec_mode() == (if tool is Some {
                InteractionMode::Draw
            } else {
                InteractionMode::Navigate
            }),
            final(self).spec_mouse_down() == old(self).spec_mouse_down(),
            final(self).spec_shift_held() == old(self).spec_shift_held(),
            final(self).spec_ctrl_held() == old(self).spec_ctrl_held(),
    {
        self.active_tool = tool;
        self.mode = match tool {
            Some(_) => InteractionMode::Draw,
            None => InteractionMode::Navigate,
        };
    }

    /// The active drawing tool.
    pub fn active_tool(&self) -> (r: Option<DrawingTool>)
        ensures
            r == self.spec_active_tool(),
    {
        self.active_tool
    }

    /// Whether the engine is in drawing mode.
    pub fn is_drawing(&self) -> (r: bool)
        ensures
            r == (self.spec_mode() == InteractionMode::Draw),
    {
        self.mode == InteractionMode::Draw
    }

    /// Whether the left button (or a touch) is pressed.
    pub fn is_mouse_down(&self) -> (r: bool)
        ensures
            r == self.spec_mouse_down(),
    {
        self.mouse_down
    }

    /// Whether Shift is held.
    pub fn is_shift_held(&self) -> (r: bool)
        ensures
            r == self.spec_shift_held(),
    {
        self.shift_held
    }

    /// Whether Ctrl is held.
    pub fn is_ctrl_held(&self) -> (r: bool)
        ensures
            r == self.spec_ctrl_held(),
    {
        self.ctrl_held
    }

    fn sync_modifiers(&mut self, mods: ModifierState)
        ensures
            final(self).spec_shift_held() == mods.shift,
            final(self).spec_ctrl_held() == mods.ctrl,
            final(self).spec_mode() == old(self).spec_mode(),
            final(self).spec_mouse_down() == old(self).spec_mouse_down(),
            final(self).spec_active_tool() == old(self).spec_active_tool(),
    {
        self.shift_held = mods.shift;
        self.ctrl_held = mods.ctrl;
    }

    fn press(&self) -> (r: PressAction)
        ensures
            r == press_action(self.spec_active_tool()),
    {
        match self.active_tool {
            Some(DrawingTool::Select) => PressAction::SelectDrawing,
            Some(_) => PressAction::PlaceDrawingPoint,
            None => PressAction::Redraw,
        }
    }

    /// A mouse button went down. Only the left button counts: it presses,
    /// takes the event's modifiers, and acts according to the active tool.
    pub fn mouse_down(&mut self, button: MouseButton, mods: ModifierState) -> (r: PressAction)
        requires
            old(self).wf(),
        ensures
            final(self).wf(),
            button != MouseButton::Left ==> r == PressAction::Ignore && *final(self) == *old(self),
            button == MouseButton::Left ==> {
                &&& r == press_action(old(self).spec_active_tool())
                &&& final(self).spec_mouse_down()
                &&& final(self).spec_shift_held() == mods.shift
                &&& final(self).spec_ctrl_held() == mods.ctrl
                &&& final(self).spec_mode() == old(self).spec_mode()
                &&& final(self).spec_active_tool() == old(self).spec_active_tool()
            },
    {
        if button != MouseButton::Left {
            return PressAction::Ignore;
        }
        self.mouse_down = true;
        self.sync_modifiers(mods);
        self.press()
    }

    /// A mouse button went up. Only the left button counts: it releases and
    /// takes the event's modifiers. Returns whether the event counted.
    pub fn mouse_up(&mut self, button: MouseButton, mods: ModifierState) -> (r: bool)
        requires
            old(self).wf(),
        ensures
            final(self).wf(),
            r == (button == MouseButton::Left),
            !r ==> *final(self) == *old(self),
            r ==> {
                &&& !final(self).spec_mouse_down()
                &&& final(self).spec_shift_held() == mods.shift
                &&& final(self).spec_ctrl_held() == mods.ctrl
                &&& final(self).spec_mode() == old(self).spec_mode()
                &&& final(self).spec_active_tool() == old(self).spec_active_tool()
            },
    {
        if button != MouseButton::Left {
            return false;
        }
        self.mouse_down = false;
        self.sync_modifiers(mods);
        true
    }

    /// A pointer moved. Returns whether the move drags the selection (the
    /// select tool is active, the button is pressed, and the pointer moved
    /// beyond the drag threshold); otherwise the crosshair follows it.
    pub fn moves_selection(&self, beyond_threshold: bool) -> (r: bool)
        ensures
            r == (self.spec_mouse_down() && self.spec_mode() == InteractionMode::Draw
                && self.spec_active_tool() == Some(DrawingTool::Select) && beyond_threshold),
    {
        self.mouse_down && self.mode == InteractionMode::Draw && self.active_tool == Some(DrawingTool::Select)
            && beyond_threshold
    }

    /// A wheel event: takes its modifiers, and returns whether it pans
    /// (Shift held) rather than zooms.
    pub fn wheel(&mut self, mods: ModifierState) -> (r: bool)
        requires
            old(self).wf(),
        ensures
            final(self).wf(),
            r == mods.shift,
            final(self).spec_shift_held() == mods.shift,
            final(self).spec_ctrl_held() == mods.ctrl,
            final(self).spec_mode() == old(self).spec_mode(),
            final(self).spec_mouse_down() == old(self).spec_mouse_down(),
            final(self).spec_active_tool() == old(self).spec_active_tool(),
    {
        self.sync_modifiers(mods);
        self.shift_held
    }

    /// A touch began: presses and acts according to the active tool.
    pub fn touch_start(&mut self) -> (r: PressAction)
        requires
            old(self).wf(),
        ensures
            final(self).wf(),
            r == press_action(old(self).spec_active_tool()),
            final(self).spec_mouse_down(),
            final(self).spec_shift_held() == old(self).spec_shift_held(),
            final(self).spec_ctrl_held() == old(self).spec_ctrl_held(),
            final(self).spec_mode() == old(self).spec_mode(),
            final(self).spec_active_tool() == old(self).spec_active_tool(),
    {
        self.mouse_down = true;
        self.press()
    }

    /// A touch ended: releases.
    pub fn touch_end(&mut self)
        requires
            old(self).wf(),
        ensures
            final(self).wf(),
            !final(self).spec_mouse_down(),
            final(self).spec_shift_held() == old(self).spec_shift_held(),
            final(self).spec_ctrl_held() == old(self).spec_ctrl_held(),
            final(self).spec_mode() == old(self).spec_mode(),
            final(self).spec_active_tool() == old(self).spec_active_tool(),
    {
        self.mouse_down = false;
    }

    /// A key went down: takes its modifiers and returns the key's action.
    /// Escape leaves drawing mode; a digit from 1 to 9 starts its tool.
    pub fn key_down(&mut self, key: KeyCode, mods: ModifierState) -> (r: KeyAction)
        requires
            old(self).wf(),
        ensures
            final(self).wf(),
            r == key_action(old(self).spec_mode(), key),
            final(self).spec_shift_held() == mods.shift,
            final(self).spec_ctrl_held() == mods.ctrl,
            final(self).spec_mouse_down() == old(self).spec_mouse_down(),
            key == KeyCode::Escape ==> final(self).spec_active_tool() is None
                && final(self).spec_mode() == InteractionMode::Navigate,
            digit_tool(key) matches Some(t) ==> final(self).spec_active_tool() == Some(t)
                && final(self).spec_mode() == InteractionMode::Draw,
            key != KeyCode::Escape && digit_tool(key) is None ==> final(self).spec_active_tool()
                == old(self).spec_active_tool() && final(self).spec_mode() == old(self).spec_mode(),
    {
        self.sync_modifiers(mods);
        match key {
            KeyCode::Escape => {
                if self.mode == InteractionMode::Draw {
                    self.set_tool(None);
                    KeyAction::CancelDrawingAndDeselect
                } else {
                    KeyAction::DeselectAll
                }
            },
            KeyCode::Delete | KeyCode::Backspace => KeyAction::DeleteSelected,
            KeyCode::Plus | KeyCode::Equal => KeyAction::ZoomIn,
            KeyCode::Minus => KeyAction::ZoomOut,
            KeyCode::ArrowLeft => KeyAction::PanTime(-60i64),
            KeyCode::ArrowRight => KeyAction::PanTime(60i64),
            KeyCode::ArrowUp => KeyAction::PanPrice(-1i8),
            KeyCode::ArrowDown => KeyAction::PanPrice(1i8),
            KeyCode::Key1 => self.start_drawing_tool(DrawingTool::TrendLine),
            KeyCode::Key2 => self.start_drawing_tool(DrawingTool::Arrow),
            KeyCode::Key3 => self.start_drawing_tool(DrawingTool::Ray),
            KeyCode::Key4 => self.start_drawing_tool(DrawingTool::Segment),
            KeyCode::Key5 => self.start_drawing_tool(DrawingTool::Rectangle),
            KeyCode::Key6 => self.start_drawing_tool(DrawingTool::Ellipse),
            KeyCode::Key7 => self.start_drawing_tool(DrawingTool::HorizontalLine),
            KeyCode::Key8 => self.start_drawing_tool(DrawingTool::VerticalLine),
            KeyCode::Key9 => self.start_drawing_tool(DrawingTool::FibonacciRetracement),
            _ => KeyAction::Nothing,
        }
    }

    /// A key went up: takes its modifiers.
    pub fn key_up(&mut self, mods: ModifierState)
        requires
            old(self).wf(),
        ensures
            final(self).wf(),
            final(self).spec_shift_held() == mods.shift,
            final(self).spec_ctrl_held() == mods.ctrl,
            final(self).spec_mode() == old(self).spec_mode(),
            final(self).spec_mouse_down() == old(self).spec_mouse_down(),
            final(self).spec_active_tool() == old(self).spec_active_tool(),
    {
        self.sync_modifiers(mods);
    }

    fn start_drawing_tool(&mut self, tool: DrawingTool) -> (r: KeyAction)
        ensures
            r == KeyAction::StartDrawing(tool),
            final(self).spec_active_tool() == Some(tool),
            final(self).spec_mode() == InteractionMode::Draw,
            final(self).spec_shift_held() == old(self).spec_shift_held(),
            final(self).spec_ctrl_held() == old(self).spec_ctrl_held(),
            final(self).spec_mouse_down() == old(self).spec_mouse_down(),
    {
        self.set_tool(Some(tool));
        KeyAction::StartDrawing(tool)
    }
}

/// Whatever the state, pressing Escape leaves drawing mode with no tool and
/// asks for a deselection (cancelling the drawing first when one was under way).
pub proof fn law_escape_returns_to_navigation(mode: InteractionMode)
    ensures
        key_action(mode, KeyCode::Escape) == (if mode == InteractionMode::Draw {
            KeyAction::CancelDrawingAndDeselect
        } else {
            KeyAction::DeselectAll
        }),
{
}

/// Each digit from 1 to 9 selects its own tool: no two digits share one, and
/// none of them is the select tool.
pub proof fn law_digit_tools_distinct(a: KeyCode, b: KeyCode)
    requires
        digit_tool(a) is Some,
        digit_tool(b) is Some,
        a != b,
    ensures
        digit_tool(a) != digit_tool(b),
        digit_tool(a) != Some(DrawingTool::Select),
{
}

/// A key's action does not depend on the mode, except for Escape.
pub proof fn law_key_action_mode_independent(key: KeyCode)
    requires
        key != KeyCode::Escape,
    ensures
        key_action(InteractionMode::Navigate, key) == key_action(InteractionMode::Draw, key),
{
}

/// The digit keys start the drawing tools in this order, in either mode:
/// 1 the trend line, 2 the arrow, 3 the ray, 4 the segment, 5 the rectangle,
/// 6 the ellipse, 7 the horizontal line, 8 the vertical line and 9 the
/// Fibonacci retracement; the key press then leaves that tool active.
pub proof fn law_digit_keys_start_tools(mode: InteractionMode)
    ensures
        key_action(mode, KeyCode::Key1) == KeyAction::StartDrawing(DrawingTool::TrendLine),
        key_action(mode, KeyCode::Key2) == KeyAction::StartDrawing(DrawingTool::Arrow),
        key_action(mode, KeyCode::Key3) == KeyAction::StartDrawing(DrawingTool::Ray),
        key_action(mode, KeyCode::Key4) == KeyAction::StartDrawing(DrawingTool::Segment),
        key_action(mode, KeyCode::Key5) == KeyAction::StartDrawing(DrawingTool::Rectangle),
        key_action(mode, KeyCode::Key6) == KeyAction::StartDrawing(DrawingTool::Ellipse),
        key_action(mode, KeyCode::Key7) == KeyAction::StartDrawing(DrawingTool::HorizontalLine),
        key_action(mode, KeyCode::Key8) == KeyAction::StartDrawing(DrawingTool::VerticalLine),
        key_action(mode, KeyCode::Key9) == KeyAction::StartDrawing(DrawingTool::FibonacciRetracement),
        digit_tool(KeyCode::Key1) == Some(DrawingTool::TrendLine),
        digit_tool(KeyCode::Key2) == Some(DrawingTool::Arrow),
        digit_tool(KeyCode::Key3) == Some(DrawingTool::Ray),
        digit_tool(KeyCode::Key4) == Some(DrawingTool::Segment),
        digit_tool(KeyCode::Key5) == Some(DrawingTool::Rectangle),
        digit_tool(KeyCode::Key6) == Some(DrawingTool::Ellipse),
        digit_tool(KeyCode::Key7) == Some(DrawingTool::HorizontalLine),
        digit_tool(KeyCode::Key8) == Some(DrawingTool::VerticalLine),
        digit_tool(KeyCode::Key9) == Some(DrawingTool::FibonacciRetracement),
{
}

/// A digit key's action and the tool it leaves active agree: a key that
/// starts a tool makes that tool the active one, and a key that starts no
/// tool is not a digit key from 1 to 9.
pub proof fn law_key_action_matches_active_tool(mode: InteractionMode, key: KeyCode, t: DrawingTool)
    ensures
        key_action(mode, key) == KeyAction::StartDrawing(t) <==> digit_tool(key) == Some(t),
{
}

/// A press with the select tool selects, a press with any other tool places
/// a drawing point, and a press with no tool only redraws.
pub proof fn law_press_places_point_with_any_drawing_tool(t: DrawingTool)
    ensures
        t != DrawingTool::Select ==> press_action(Some(t)) == PressAction::PlaceDrawingPoint,
        press_action(Some(DrawingTool::Select)) == PressAction::SelectDrawing,
        press_action(None) == PressAction::Redraw,
{
}

/// The other bound keys, in either mode: Delete and Backspace delete the
/// selection, Plus and Equal zoom in, Minus zooms out, the horizontal arrows
/// pan 60 time units back and forward, the vertical arrows pan one price
/// step (up is negative); the other keys (Key0, Enter, Home, End, Page Up
/// and Down, letters, modifiers, function keys) do nothing.
pub proof fn law_key_bindings(mode: InteractionMode, c: char)
    ensures
        key_action(mode, KeyCode::Delete) == KeyAction::DeleteSelected,
        key_action(mode, KeyCode::Backspace) == KeyAction::DeleteSelected,
        key_action(mode, KeyCode::Plus) == KeyAction::ZoomIn,
        key_action(mode, KeyCode::Equal) == KeyAction::ZoomIn,
        key_action(mode, KeyCode::Minus) == KeyAction::ZoomOut,
        key_action(mode, KeyCode::ArrowLeft) == KeyAction::PanTime(-60i64),
        key_action(mode, KeyCode::ArrowRight) == KeyAction::PanTime(60i64),
        key_action(mode, KeyCode::ArrowUp) == KeyAction::PanPrice(-1i8),
        key_action(mode, KeyCode::ArrowDown) == KeyAction::PanPrice(1i8),
        key_action(mode, KeyCode::Key0) == KeyAction::Nothing,
        key_action(mode, KeyCode::Enter) == KeyAction::Nothing,
        key_action(mode, KeyCode::Home) == KeyAction::Nothing,
        key_action(mode, KeyCode::End) == KeyAction::Nothing,
        key_action(mode, KeyCode::PageUp) == KeyAction::Nothing,
        key_action(mode, KeyCode::PageDown) == KeyAction::Nothing,
        key_action(mode, KeyCode::Letter(c)) == KeyAction::Nothing,
        key_action(mode, KeyCode::Shift) == KeyAction::Nothing,
        key_action(mode, KeyCode::F1) == KeyAction::Nothing,
        digit_tool(KeyCode::Key0) is None,
{
}

} // verus!
