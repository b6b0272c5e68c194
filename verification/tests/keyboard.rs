use lib::engine::DrawingTool;
use lib::keyboard::{KeyboardPresets, KeyboardShortcut, KeyboardShortcutMap, Modifiers, PresetCommand};

#[derive(Debug, Clone, PartialEq)]
enum Cmd {
    Cancel,
    Delete,
    Deselect,
}

fn shortcut(key: &str, modifiers: Modifiers, command: Cmd, description: &str) -> KeyboardShortcut<Cmd> {
    KeyboardShortcut { key: key.to_string(), modifiers, command, description: description.to_string() }
}

#[test]
fn empty_map() {
    let map: KeyboardShortcutMap<Cmd> = KeyboardShortcutMap::new();
    assert!(map.is_empty());
    assert_eq!(map.len(), 0);
}

#[test]
fn register_shortcut() {
    let mut map = KeyboardShortcutMap::new();
    map.register(shortcut("Escape", Modifiers::none(), Cmd::Cancel, "Cancel"));
    assert_eq!(map.len(), 1);
    assert!(!map.is_empty());
}

#[test]
fn handle_event_match() {
    let mut map = KeyboardShortcutMap::new();
    map.register(shortcut("Escape", Modifiers::none(), Cmd::Cancel, "Cancel"));
    assert_eq!(map.handle_event("Escape", &Modifiers::none()), Some(&Cmd::Cancel));
}

#[test]
fn handle_event_no_match() {
    let mut map = KeyboardShortcutMap::new();
    map.register(shortcut("Escape", Modifiers::none(), Cmd::Cancel, ""));
    assert!(map.handle_event("Delete", &Modifiers::none()).is_none());
}

#[test]
fn handle_event_with_modifier() {
    let mut map = KeyboardShortcutMap::new();
    map.register(shortcut("z", Modifiers::new(true, true, false, false), Cmd::Cancel, "Shift+Ctrl+Z"));
    assert_eq!(map.handle_event("z", &Modifiers::new(true, true, false, false)), Some(&Cmd::Cancel));
}

#[test]
fn handle_event_wrong_modifier() {
    let mut map = KeyboardShortcutMap::new();
    map.register(shortcut("z", Modifiers::new(true, false, false, false), Cmd::Cancel, "Shift+Z"));
    assert!(map.handle_event("z", &Modifiers::none()).is_none());
}

#[test]
fn find_shortcut() {
    let mut map = KeyboardShortcutMap::new();
    map.register(shortcut("Delete", Modifiers::none(), Cmd::Delete, "Delete"));
    let found = map.find("Delete", &Modifiers::none());
    assert!(found.is_some());
    assert_eq!(found.unwrap().key, "Delete");
}

#[test]
fn remove_shortcut() {
    let mut map = KeyboardShortcutMap::new();
    map.register(shortcut("Delete", Modifiers::none(), Cmd::Delete, "Delete"));
    assert!(map.remove("Delete", &Modifiers::none()));
    assert!(map.is_empty());
}

#[test]
fn remove_missing_shortcut() {
    let mut map = KeyboardShortcutMap::new();
    map.register(shortcut("Delete", Modifiers::none(), Cmd::Delete, "Delete"));
    assert!(!map.remove("Delete", &Modifiers::new(false, true, false, false)));
    assert_eq!(map.len(), 1);
}

#[test]
fn clear_shortcuts() {
    let mut map = KeyboardShortcutMap::new();
    map.register(shortcut("a", Modifiers::none(), Cmd::Cancel, ""));
    map.register(shortcut("b", Modifiers::none(), Cmd::Delete, ""));
    map.clear();
    assert!(map.is_empty());
}

#[test]
fn duplicate_key_register() {
    let mut map = KeyboardShortcutMap::new();
    map.register(shortcut("Escape", Modifiers::none(), Cmd::Cancel, "Cancel"));
    map.register(shortcut("Escape", Modifiers::none(), Cmd::Deselect, "Deselect"));
    assert_eq!(map.len(), 2);
    assert_eq!(map.handle_event("Escape", &Modifiers::none()), Some(&Cmd::Cancel));
}

// Removing the first of two duplicates lets the second one answer.
#[test]
fn remove_first_duplicate_exposes_second() {
    let mut map = KeyboardShortcutMap::new();
    map.register(shortcut("Escape", Modifiers::none(), Cmd::Cancel, "Cancel"));
    map.register(shortcut("Escape", Modifiers::none(), Cmd::Deselect, "Deselect"));
    assert!(map.remove("Escape", &Modifiers::none()));
    assert_eq!(map.handle_event("Escape", &Modifiers::none()), Some(&Cmd::Deselect));
}

#[test]
fn shortcuts_in_registration_order() {
    let mut map = KeyboardShortcutMap::new();
    map.register(shortcut("a", Modifiers::none(), Cmd::Cancel, ""));
    map.register(shortcut("b", Modifiers::none(), Cmd::Delete, ""));
    let keys: Vec<&str> = map.shortcuts().iter().map(|s| s.key.as_str()).collect();
    assert_eq!(keys, vec!["a", "b"]);
}

#[test]
fn description_field() {
    let s = shortcut("Escape", Modifiers::none(), Cmd::Cancel, "Cancel the current drawing");
    assert_eq!(s.description, "Cancel the current drawing");
}

#[test]
fn modifiers_new_and_none() {
    assert_eq!(Modifiers::none(), Modifiers::new(false, false, false, false));
    let m = Modifiers::new(true, false, true, false);
    assert!(m.shift && !m.ctrl && m.alt && !m.meta);
}

#[test]
fn default_preset_has_basics() {
    let map = KeyboardPresets::default_shortcuts();
    assert!(map.find("Escape", &Modifiers::none()).is_some());
    assert!(map.find("Delete", &Modifiers::none()).is_some());
    assert!(map.find("ArrowLeft", &Modifiers::none()).is_some());
    assert!(map.find("ArrowRight", &Modifiers::none()).is_some());
    assert!(map.find("ArrowUp", &Modifiers::none()).is_some());
    assert!(map.find("ArrowDown", &Modifiers::none()).is_some());
    assert!(map.find("+", &Modifiers::none()).is_some());
    assert!(map.find("-", &Modifiers::none()).is_some());
    assert!(map.find("1", &Modifiers::none()).is_some());
}

#[test]
fn trading_preset_has_more() {
    let default = KeyboardPresets::default_shortcuts();
    let trading = KeyboardPresets::trading_shortcuts();
    assert!(trading.len() > default.len());
    assert!(trading.find("h", &Modifiers::none()).is_some());
    assert!(trading.find("m", &Modifiers::none()).is_some());
    assert!(trading.find(" ", &Modifiers::none()).is_some());
}

#[test]
fn minimal_preset_has_few() {
    let map = KeyboardPresets::minimal_shortcuts();
    let keys: Vec<&str> = map.shortcuts().iter().map(|s| s.key.as_str()).collect();
    let unique: std::collections::HashSet<&str> = keys.iter().copied().collect();
    assert_eq!(unique.len(), 2);
    assert!(map.find("Escape", &Modifiers::none()).is_some());
    assert!(map.find("Delete", &Modifiers::none()).is_some());
}

#[test]
fn keyboard_shortcuts_preset_matches_engine() {
    let map = KeyboardPresets::default_shortcuts();

    let cmd = map.handle_event("Escape", &Modifiers::none());
    assert!(cmd.is_some());
    assert_eq!(cmd.unwrap(), &PresetCommand::CancelDrawing);

    let cmd = map.handle_event("Delete", &Modifiers::none());
    assert!(cmd.is_some());
    assert_eq!(cmd.unwrap(), &PresetCommand::DeleteSelected);

    let cmd = map.handle_event("ArrowLeft", &Modifiers::none());
    assert!(cmd.is_some());
    assert!(matches!(cmd.unwrap(), PresetCommand::PanTime(_)));

    let cmd = map.handle_event("+", &Modifiers::none());
    assert!(cmd.is_some());
    assert_eq!(cmd.unwrap(), &PresetCommand::ZoomIn);
}

#[test]
fn default_preset_table() {
    let map = KeyboardPresets::default_shortcuts();
    assert_eq!(map.len(), 20);
    let none = Modifiers::none();
    assert_eq!(map.handle_event("ArrowRight", &none), Some(&PresetCommand::PanTime(5)));
    assert_eq!(map.handle_event("ArrowLeft", &none), Some(&PresetCommand::PanTime(-5)));
    assert_eq!(map.handle_event("ArrowUp", &none), Some(&PresetCommand::PanPrice(5)));
    assert_eq!(map.handle_event("ArrowDown", &none), Some(&PresetCommand::PanPrice(-5)));
    assert_eq!(map.handle_event("=", &none), Some(&PresetCommand::ZoomIn));
    assert_eq!(map.handle_event("-", &none), Some(&PresetCommand::ZoomOut));
    assert_eq!(map.handle_event("Backspace", &none), Some(&PresetCommand::DeleteSelected));
    assert_eq!(map.handle_event("1", &none), Some(&PresetCommand::StartDrawing(DrawingTool::TrendLine)));
    assert_eq!(map.handle_event("9", &none), Some(&PresetCommand::StartDrawing(DrawingTool::FibonacciRetracement)));
    assert!(map.handle_event("0", &none).is_none());
    assert!(map.handle_event("Escape", &Modifiers::new(true, false, false, false)).is_none());
    let one = map.find("1", &none).unwrap();
    assert_eq!(one.description, "Start drawing TrendLine");
    let five = map.find("5", &none).unwrap();
    assert_eq!(five.command, PresetCommand::StartDrawing(DrawingTool::Rectangle));
    assert_eq!(five.description, "Start drawing Rectangle");
    // Escape is bound twice; the first binding wins.
    assert_eq!(map.find("Escape", &none).unwrap().description, "Cancel drawing and deselect all");
}

#[test]
fn trading_preset_extends_default() {
    let default = KeyboardPresets::default_shortcuts();
    let trading = KeyboardPresets::trading_shortcuts();
    assert_eq!(trading.len(), 23);
    for (a, b) in default.shortcuts().iter().zip(trading.shortcuts().iter()) {
        assert_eq!(a.key, b.key);
        assert_eq!(a.command, b.command);
        assert_eq!(a.description, b.description);
    }
    let none = Modifiers::none();
    assert_eq!(trading.handle_event("h", &none), Some(&PresetCommand::RequestRedraw));
    assert_eq!(trading.find(" ", &none).unwrap().description, "Toggle auto-scroll");
}

#[test]
fn minimal_preset_table() {
    let map = KeyboardPresets::minimal_shortcuts();
    assert_eq!(map.len(), 3);
    let none = Modifiers::none();
    assert_eq!(map.handle_event("Escape", &none), Some(&PresetCommand::CancelDrawing));
    assert_eq!(map.find("Escape", &none).unwrap().description, "Cancel drawing");
    assert_eq!(map.handle_event("Delete", &none), Some(&PresetCommand::DeleteSelected));
    assert!(map.handle_event("Backspace", &none).is_none());
}
