use lib::engine::{DrawingTool, EngineState, KeyAction, PressAction};
use lib::input::{KeyCode, ModifierState, MouseButton};

fn mods(shift: bool, ctrl: bool) -> ModifierState {
    ModifierState { shift, ctrl, alt: false, super_key: false }
}

#[test]
fn new_engine_navigates() {
    let e = EngineState::new();
    assert!(!e.is_drawing());
    assert_eq!(e.active_tool(), None);
    assert!(!e.is_mouse_down());
}

#[test]
fn set_tool_active_tool_is_drawing() {
    let mut e = EngineState::new();
    e.set_tool(Some(DrawingTool::Rectangle));
    assert!(e.is_drawing());
    assert_eq!(e.active_tool(), Some(DrawingTool::Rectangle));
    e.set_tool(None);
    assert!(!e.is_drawing());
}

#[test]
fn escape_while_navigating_deselects() {
    let mut e = EngineState::new();
    assert_eq!(e.key_down(KeyCode::Escape, mods(false, false)), KeyAction::DeselectAll);
    assert!(!e.is_drawing());
}

#[test]
fn escape_while_drawing_cancels_and_navigates() {
    let mut e = EngineState::new();
    e.set_tool(Some(DrawingTool::TrendLine));
    assert_eq!(e.key_down(KeyCode::Escape, mods(false, false)), KeyAction::CancelDrawingAndDeselect);
    assert!(!e.is_drawing());
    assert_eq!(e.active_tool(), None);
}

#[test]
fn key_1_starts_trend_line() {
    let mut e = EngineState::new();
    assert_eq!(e.key_down(KeyCode::Key1, mods(false, false)), KeyAction::StartDrawing(DrawingTool::TrendLine));
    assert!(e.is_drawing());
    assert_eq!(e.active_tool(), Some(DrawingTool::TrendLine));
}

#[test]
fn key_9_starts_fibonacci_retracement() {
    let mut e = EngineState::new();
    assert_eq!(
        e.key_down(KeyCode::Key9, mods(false, false)),
        KeyAction::StartDrawing(DrawingTool::FibonacciRetracement)
    );
    assert_eq!(e.active_tool(), Some(DrawingTool::FibonacciRetracement));
}

#[test]
fn key_0_is_unbound() {
    let mut e = EngineState::new();
    assert_eq!(e.key_down(KeyCode::Key0, mods(false, false)), KeyAction::Nothing);
    assert!(!e.is_drawing());
}

#[test]
fn navigation_keys() {
    let mut e = EngineState::new();
    assert_eq!(e.key_down(KeyCode::Delete, mods(false, false)), KeyAction::DeleteSelected);
    assert_eq!(e.key_down(KeyCode::Backspace, mods(false, false)), KeyAction::DeleteSelected);
    assert_eq!(e.key_down(KeyCode::Plus, mods(false, false)), KeyAction::ZoomIn);
    assert_eq!(e.key_down(KeyCode::Equal, mods(false, false)), KeyAction::ZoomIn);
    assert_eq!(e.key_down(KeyCode::Minus, mods(false, false)), KeyAction::ZoomOut);
    assert_eq!(e.key_down(KeyCode::ArrowLeft, mods(false, false)), KeyAction::PanTime(-60));
    assert_eq!(e.key_down(KeyCode::ArrowRight, mods(false, false)), KeyAction::PanTime(60));
    assert_eq!(e.key_down(KeyCode::ArrowUp, mods(false, false)), KeyAction::PanPrice(-1));
    assert_eq!(e.key_down(KeyCode::ArrowDown, mods(false, false)), KeyAction::PanPrice(1));
}

#[test]
fn shift_tracking_across_key_down_up() {
    let mut e = EngineState::new();
    e.key_down(KeyCode::Shift, mods(true, false));
    assert!(e.is_shift_held());
    assert!(e.wheel(mods(true, false)));
    e.key_up(mods(false, false));
    assert!(!e.is_shift_held());
    assert!(!e.wheel(mods(false, true)));
    assert!(e.is_ctrl_held());
}

#[test]
fn mouse_down_and_up_cycle() {
    let mut e = EngineState::new();
    assert_eq!(e.mouse_down(MouseButton::Left, mods(false, false)), PressAction::Redraw);
    assert!(e.is_mouse_down());
    assert!(e.mouse_up(MouseButton::Left, mods(false, false)));
    assert!(!e.is_mouse_down());
}

#[test]
fn mouse_down_right_button_is_noop() {
    let mut e = EngineState::new();
    assert_eq!(e.mouse_down(MouseButton::Right, mods(true, false)), PressAction::Ignore);
    assert!(!e.is_mouse_down());
    assert!(!e.is_shift_held());
    assert!(!e.mouse_up(MouseButton::Right, mods(true, false)));
}

#[test]
fn mouse_down_with_select_tool_emits_select_drawing() {
    let mut e = EngineState::new();
    e.set_tool(Some(DrawingTool::Select));
    assert_eq!(e.mouse_down(MouseButton::Left, mods(false, false)), PressAction::SelectDrawing);
}

#[test]
fn mouse_down_with_drawing_tool_emits_place_point() {
    let mut e = EngineState::new();
    e.set_tool(Some(DrawingTool::Ellipse));
    assert_eq!(e.mouse_down(MouseButton::Left, mods(false, false)), PressAction::PlaceDrawingPoint);
}

#[test]
fn draw_select_drag_moves_selection() {
    let mut e = EngineState::new();
    e.set_tool(Some(DrawingTool::Select));
    assert!(!e.moves_selection(true));
    e.mouse_down(MouseButton::Left, mods(false, false));
    assert!(e.moves_selection(true));
    assert!(!e.moves_selection(false));
    e.mouse_up(MouseButton::Left, mods(false, false));
    assert!(!e.moves_selection(true));
}

#[test]
fn touch_start_and_end_cycle() {
    let mut e = EngineState::new();
    assert_eq!(e.touch_start(), PressAction::Redraw);
    assert!(e.is_mouse_down());
    e.touch_end();
    assert!(!e.is_mouse_down());
}

// Apart from Escape, a key asks for the same action in both modes.
#[test]
fn keys_other_than_escape_ignore_mode() {
    let mut nav = EngineState::new();
    let mut draw = EngineState::new();
    draw.set_tool(Some(DrawingTool::Ray));
    for key in [KeyCode::Delete, KeyCode::Plus, KeyCode::Minus, KeyCode::ArrowUp, KeyCode::Home, KeyCode::Letter('x')] {
        assert_eq!(nav.key_down(key, mods(false, false)), draw.key_down(key, mods(false, false)));
    }
}

// Each digit selects its own tool, never the select tool.
#[test]
fn digit_tools_are_distinct() {
    let keys = [
        KeyCode::Key1, KeyCode::Key2, KeyCode::Key3, KeyCode::Key4, KeyCode::Key5,
        KeyCode::Key6, KeyCode::Key7, KeyCode::Key8, KeyCode::Key9,
    ];
    let mut tools = Vec::new();
    for key in keys {
        let mut e = EngineState::new();
        match e.key_down(key, mods(false, false)) {
            KeyAction::StartDrawing(t) => {
                assert_ne!(t, DrawingTool::Select);
                assert!(!tools.contains(&t));
                tools.push(t);
            }
            other => panic!("unexpected {:?}", other),
        }
    }
    assert_eq!(tools.len(), 9);
}
