//! Platform-agnostic input vocabulary: mouse buttons, modifier keys and key
//! codes that adapters (winit, web, ...) translate platform events into.

use vstd::prelude::*;

verus! {

/// Button that triggered a mouse event.
#[derive(Debug, Clone, Copy, PartialEq, Eq, Structural)]
pub enum MouseButton {
    Left,
    Right,
    Middle,
    Other(u16),
}

/// State of modifier keys during an event.
#[derive(Debug, Clone, Copy, PartialEq, Eq, Structural)]
pub struct ModifierState {
    pub shift: bool,
    pub ctrl: bool,
    pub alt: bool,
    pub super_key: bool,
}

impl Default for ModifierState {
    /// No modifier held.
    fn default() -> (r: Self)
        ensures
            !r.shift && !r.ctrl && !r.alt && !r.super_key,
    {
        ModifierState { shift: false, ctrl: false, alt: false, super_key: false }
    }
}

/// Modifier keys packed into bits (shift, ctrl, alt, super from the lowest
/// bit up): compact storage and fast membership tests for shortcut matching.
#[derive(Debug, Clone, Copy, PartialEq, Eq, Hash, Structural)]
pub struct ModifierFlags {
    bits: u8,
}

/// The packed bits of a [`ModifierState`]: each held modifier's flag set in turn.
pub open spec fn modifier_bits(state: ModifierState) -> u8 {
    let b0 = 0u8;
    let b1 = if state.shift { b0 | 1u8 } else { b0 };
    let b2 = if state.ctrl { b1 | 2u8 } else { b1 };
    let b3 = if state.alt { b2 | 4u8 } else { b2 };
    if state.super_key { b3 | 8u8 } else { b3 }
}

impl ModifierFlags {
    /// The Shift flag alone.
    pub fn shift() -> (r: Self)
        ensures
            r.packed() == 1,
    {
        ModifierFlags { bits: 0b0001 }
    }

    /// The Ctrl flag alone.
    pub fn ctrl() -> (r: Self)
        ensures
            r.packed() == 2,
    {
        ModifierFlags { bits: 0b0010 }
    }

    /// The Alt flag alone.
    pub fn alt() -> (r: Self)
        ensures
            r.packed() == 4,
    {
        ModifierFlags { bits: 0b0100 }
    }

    /// The Super (command / windows) flag alone.
    pub fn super_key() -> (r: Self)
        ensures
            r.packed() == 8,
    {
        ModifierFlags { bits: 0b1000 }
    }

    /// The packed bits.
    pub closed spec fn packed(self) -> u8 {
        self.bits
    }

    /// No modifier.
    pub fn empty() -> (r: Self)
        ensures
            r.packed() == 0,
    {
        ModifierFlags { bits: 0 }
    }

    /// The packed bits.
    pub fn bits(&self) -> (r: u8)
        ensures
            r == self.packed(),
    {
        self.bits
    }

    /// The flags that are set in `self` or in `other`.
    pub fn union(self, other: Self) -> (r: Self)
        ensures
            r.packed() == self.packed() | other.packed(),
    {
        ModifierFlags { bits: self.bits | other.bits }
    }

    /// All four flags.
    pub fn all() -> (r: Self)
        ensures
            r.packed() == 15,
    {
        ModifierFlags { bits: 0b1111 }
    }

    /// Whether all four flags are set.
    pub fn is_all(&self) -> (r: bool)
        ensures
            r == (self.packed() & 15 == 15),
    {
        self.bits & 0b1111 == 0b1111
    }

    /// The flags packed in `bits`, if it sets no bit beyond the four flags.
    pub fn from_bits(bits: u8) -> (r: Option<Self>)
        ensures
            r is Some <==> bits < 16,
            r matches Some(f) ==> f.packed() == bits,
    {
        if bits < 16 {
            Some(ModifierFlags { bits })
        } else {
            None
        }
    }

    /// The flags packed in `bits`, dropping any bit beyond the four flags.
    pub fn from_bits_truncate(bits: u8) -> (r: Self)
        ensures
            r.packed() == bits & 15,
    {
        ModifierFlags { bits: bits & 0b1111 }
    }

    /// The bits as given, unknown ones included.
    pub fn from_bits_retain(bits: u8) -> (r: Self)
        ensures
            r.packed() == bits,
    {
        ModifierFlags { bits }
    }

    /// Whether `self` and `other` share a flag.
    pub fn intersects(&self, other: Self) -> (r: bool)
        ensures
            r == (self.packed() & other.packed() != 0),
    {
        self.bits & other.bits != 0
    }

    /// The flags set in both `self` and `other`.
    pub fn intersection(self, other: Self) -> (r: Self)
        ensures
            r.packed() == self.packed() & other.packed(),
    {
        ModifierFlags { bits: self.bits & other.bits }
    }

    /// The flags of `self` that are not in `other`.
    pub fn difference(self, other: Self) -> (r: Self)
        ensures
            r.packed() == self.packed() & !other.packed(),
    {
        ModifierFlags { bits: self.bits & !other.bits }
    }

    /// The flags set in exactly one of `self` and `other`.
    pub fn symmetric_difference(self, other: Self) -> (r: Self)
        ensures
            r.packed() == self.packed() ^ other.packed(),
    {
        ModifierFlags { bits: self.bits ^ other.bits }
    }

    /// The four flags that are not set in `self`.
    pub fn complement(self) -> (r: Self)
        ensures
            r.packed() == !self.packed() & 15,
    {
        ModifierFlags { bits: !self.bits & 0b1111 }
    }

    /// Set the flags of `other`.
    pub fn insert(&mut self, other: Self)
        ensures
            final(self).packed() == old(self).packed() | other.packed(),
    {
        self.bits = self.bits | other.bits;
    }

    /// Clear the flags of `other`.
    pub fn remove(&mut self, other: Self)
        ensures
            final(self).packed() == old(self).packed() & !other.packed(),
    {
        self.bits = self.bits & !other.bits;
    }

    /// Flip the flags of `other`.
    pub fn toggle(&mut self, other: Self)
        ensures
            final(self).packed() == old(self).packed() ^ other.packed(),
    {
        self.bits = self.bits ^ other.bits;
    }

    /// Set the flags of `other` when `value` holds, clear them otherwise.
    pub fn set(&mut self, other: Self, value: bool)
        ensures
            final(self).packed() == (if value {
                old(self).packed() | other.packed()
            } else {
                old(self).packed() & !other.packed()
            }),
    {
        if value {
            self.insert(other);
        } else {
            self.remove(other);
        }
    }

    /// Whether every flag of `other` is set in `self`.
    pub fn contains(&self, other: Self) -> (r: bool)
        ensures
            r == (self.packed() & other.packed() == other.packed()),
    {
        self.bits & other.bits == other.bits
    }

    /// Whether no flag is set.
    pub fn is_empty(&self) -> (r: bool)
        ensures
            r == (self.packed() == 0),
    {
        self.bits == 0
    }

    /// Convert from a [`ModifierState`]: one flag per held modifier.
    pub fn from_state(state: ModifierState) -> (r: Self)
        ensures
            r.packed() == modifier_bits(state),
            (r.packed() & 1 != 0) == state.shift,
            (r.packed() & 2 != 0) == state.ctrl,
            (r.packed() & 4 != 0) == state.alt,
            (r.packed() & 8 != 0) == state.super_key,
            r.packed() < 16,
    {
        let mut flags = Self::empty();
        if state.shift {
            flags = flags.union(Self::shift());
        }
        if state.ctrl {
            flags = flags.union(Self::ctrl());
        }
        if state.alt {
            flags = flags.union(Self::alt());
        }
        if state.super_key {
            flags = flags.union(Self::super_key());
        }
        let s = state.shift;
        let c = state.ctrl;
        let a = state.alt;
        let k = state.super_key;
        let b = flags.bits;
        assert(b == modifier_bits(state));
        assert({
            &&& (b & 1 != 0) == s
            &&& (b & 2 != 0) == c
            &&& (b & 4 != 0) == a
            &&& (b & 8 != 0) == k
            &&& b < 16
        }) by (bit_vector)
            requires
                b == {
                    let b0 = 0u8;
                    let b1 = if s { b0 | 1u8 } else { b0 };
                    let b2 = if c { b1 | 2u8 } else { b1 };
                    let b3 = if a { b2 | 4u8 } else { b2 };
                    if k { b3 | 8u8 } else { b3 }
                },
        ;
        flags
    }
}

/// Keyboard key event.
#[derive(Debug, Clone, Copy, PartialEq, Eq, Structural)]
pub struct KeyEvent {
    pub key: KeyCode,
    pub modifiers: ModifierState,
    pub repeat: bool,
}

/// Platform-independent key codes: the keys relevant for chart interaction
/// (navigation, shortcuts, drawing tool selection).
#[derive(Debug, Clone, Copy, PartialEq, Eq, Hash, Structural)]
pub enum KeyCode {
    ArrowLeft,
    ArrowRight,
    ArrowUp,
    ArrowDown,
    Home,
    End,
    PageUp,
    PageDown,
    Plus,
    Minus,
    Equal,
    Escape,
    Delete,
    Backspace,
    Enter,
    Key1,
    Key2,
    Key3,
    Key4,
    Key5,
    Key6,
    Key7,
    Key8,
    Key9,
    Key0,
    Letter(char),
    Shift,
    Control,
    Alt,
    Super,
    F1,
    F2,
    F3,
    F4,
    F5,
    F6,
    F7,
    F8,
    F9,
    F10,
    F11,
    F12,
    Unknown,
}

/// Pan mode selector.
#[derive(Debug, Clone, Copy, PartialEq, Eq, Structural)]
pub enum PanMode {
    Drag,
    Momentum,
    Inertia,
}

/// Zoom mode selector.
#[derive(Debug, Clone, Copy, PartialEq, Eq, Structural)]
pub enum ZoomMode {
    Wheel,
    Pinch,
    Box,
    AxisX,
    AxisY,
}

/// Axis lock for axis-locked zoom.
#[derive(Debug, Clone, Copy, PartialEq, Eq, Structural)]
pub enum AxisLock {
    Time,
    Price,
}

/// Direction of a flick gesture.
#[derive(Debug, Clone, Copy, PartialEq, Eq, Structural)]
pub enum FlickDirection {
    Up,
    Down,
    Left,
    Right,
}

} // verus!
