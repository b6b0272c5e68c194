use lib::input::{AxisLock, FlickDirection, KeyCode, KeyEvent, ModifierFlags, ModifierState, MouseButton, PanMode, ZoomMode};

#[test]
fn modifier_state_default() {
    let m = ModifierState::default();
    assert!(!m.shift);
    assert!(!m.ctrl);
    assert!(!m.alt);
    assert!(!m.super_key);
}

#[test]
fn modifier_state_equality() {
    let a = ModifierState { shift: true, ctrl: false, alt: false, super_key: false };
    let b = ModifierState { shift: true, ctrl: false, alt: false, super_key: false };
    let c = ModifierState { shift: false, ctrl: true, alt: false, super_key: false };
    assert_eq!(a, b);
    assert_ne!(a, c);
}

#[test]
fn mouse_button_variants() {
    assert_eq!(MouseButton::Left, MouseButton::Left);
    assert_ne!(MouseButton::Left, MouseButton::Right);
    assert_ne!(MouseButton::Middle, MouseButton::Other(5));
    assert_eq!(MouseButton::Other(5), MouseButton::Other(5));
}

#[test]
fn key_code_clone_and_hash() {
    let k1 = KeyCode::Letter('a');
    let k2 = k1;
    let mut set = std::collections::HashSet::new();
    set.insert(k1);
    set.insert(k2);
    assert_eq!(set.len(), 1);
}

#[test]
fn modifier_flags_from_state() {
    let none = ModifierFlags::from_state(ModifierState::default());
    assert!(none.is_empty());
    assert_eq!(none.bits(), 0);
    let s = ModifierState { shift: true, ctrl: false, alt: true, super_key: false };
    let f = ModifierFlags::from_state(s);
    assert_eq!(f.bits(), 0b0101);
    assert!(f.contains(ModifierFlags::shift()));
    assert!(f.contains(ModifierFlags::alt()));
    assert!(!f.contains(ModifierFlags::ctrl()));
    assert!(!f.contains(ModifierFlags::super_key()));
    assert!(f.contains(ModifierFlags::shift().union(ModifierFlags::alt())));
}

#[test]
fn modifier_flags_all_held() {
    let s = ModifierState { shift: true, ctrl: true, alt: true, super_key: true };
    assert_eq!(ModifierFlags::from_state(s).bits(), 0b1111);
    assert_eq!(ModifierFlags::from_state(s), ModifierFlags::shift().union(ModifierFlags::ctrl()).union(ModifierFlags::alt()).union(ModifierFlags::super_key()));
}

#[test]
fn key_event_fields() {
    let e = KeyEvent { key: KeyCode::Escape, modifiers: ModifierState::default(), repeat: false };
    assert_eq!(e.key, KeyCode::Escape);
    assert!(!e.repeat);
    assert_ne!(e, KeyEvent { key: KeyCode::Escape, modifiers: ModifierState::default(), repeat: true });
}

#[test]
fn mode_enums_distinct() {
    assert_ne!(PanMode::Drag, PanMode::Momentum);
    assert_ne!(ZoomMode::Box, ZoomMode::AxisX);
    assert_ne!(AxisLock::Time, AxisLock::Price);
    assert_ne!(FlickDirection::Up, FlickDirection::Down);
}

#[test]
fn modifier_flags_set_operations() {
    let sc = ModifierFlags::shift().union(ModifierFlags::ctrl());
    assert_eq!(ModifierFlags::all().bits(), 0b1111);
    assert!(ModifierFlags::all().is_all());
    assert!(!sc.is_all());
    assert!(sc.intersects(ModifierFlags::ctrl()));
    assert!(!sc.intersects(ModifierFlags::alt()));
    assert_eq!(sc.intersection(ModifierFlags::ctrl()), ModifierFlags::ctrl());
    assert_eq!(sc.difference(ModifierFlags::ctrl()), ModifierFlags::shift());
    assert_eq!(sc.symmetric_difference(ModifierFlags::shift().union(ModifierFlags::alt())).bits(), 0b0110);
    assert_eq!(sc.complement().bits(), 0b1100);
}

#[test]
fn modifier_flags_from_bits() {
    assert_eq!(ModifierFlags::from_bits(0b0101).map(|f| f.bits()), Some(0b0101));
    assert!(ModifierFlags::from_bits(0b1_0000).is_none());
    assert_eq!(ModifierFlags::from_bits_truncate(0b1111_0011).bits(), 0b0011);
    assert_eq!(ModifierFlags::from_bits_retain(0b1000_0001).bits(), 0b1000_0001);
}

#[test]
fn modifier_flags_in_place() {
    let mut f = ModifierFlags::empty();
    f.insert(ModifierFlags::alt());
    f.insert(ModifierFlags::shift());
    assert_eq!(f.bits(), 0b0101);
    f.remove(ModifierFlags::shift());
    assert_eq!(f, ModifierFlags::alt());
    f.toggle(ModifierFlags::super_key());
    assert_eq!(f.bits(), 0b1100);
    f.toggle(ModifierFlags::super_key());
    assert_eq!(f.bits(), 0b0100);
    f.set(ModifierFlags::ctrl(), true);
    assert_eq!(f.bits(), 0b0110);
    f.set(ModifierFlags::alt(), false);
    assert_eq!(f, ModifierFlags::ctrl());
}
