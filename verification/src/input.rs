//! Mouse and keyboard input, and its decoding from window messages.

use vstd::prelude::*;

verus! {

/// The state of a button.
#[derive(Debug, Clone, Copy, PartialEq, Eq, Structural)]
pub enum ButtonState {
    Pressed,
    Released,
    /// Used for mouse input.
    DoubleTapped,
}

/// A mouse button.
#[derive(Debug, Clone, Copy, PartialEq, Eq, Structural)]
pub enum MouseButton {
    Left,
    Right,
    Middle,
    Aux1,
    Aux2,
}

/// The axis of a scroll.
#[derive(Debug, Clone, Copy, PartialEq, Eq, Structural)]
pub enum ScrollAxis {
    Horizontal,
    Vertical,
}

/// A key on the keyboard.
#[derive(Debug, Clone, Copy, PartialEq, Eq, Structural)]
pub enum KeyCode {
    A,
}

/// The modifier keys held during an input event.
#[derive(Debug, Clone, Copy, PartialEq, Eq, Structural)]
pub struct ModifierKeys {
    bits: u8,
}

impl ModifierKeys {
    /// The shift key.
    pub fn shift() -> (r: Self)
        ensures
            r.spec_bits() == 1,
    {
        ModifierKeys { bits: 1 }
    }

    /// The control key.
    pub fn ctrl() -> (r: Self)
        ensures
            r.spec_bits() == 2,
    {
        ModifierKeys { bits: 2 }
    }

    /// The alt key.
    pub fn alt() -> (r: Self)
        ensures
            r.spec_bits() == 4,
    {
        ModifierKeys { bits: 4 }
    }

    /// The bits of the set.
    pub closed spec fn spec_bits(&self) -> u8 {
        self.bits
    }

    /// No modifier key.
    pub fn empty() -> (r: Self)
        ensures
            r.spec_bits() == 0,
    {
        ModifierKeys { bits: 0 }
    }

    /// The bits of the set.
    pub fn bits(&self) -> (r: u8)
        ensures
            r == self.spec_bits(),
    {
        self.bits
    }

    /// Whether every key of `other` is in this set.
    pub fn contains(&self, other: ModifierKeys) -> (r: bool)
        ensures
            r == (self.spec_bits() & other.spec_bits() == other.spec_bits()),
    {
        self.bits & other.bits == other.bits
    }

    /// Adds the keys of `other` to this set.
    pub fn insert(&mut self, other: ModifierKeys)
        ensures
            final(self).spec_bits() == old(self).spec_bits() | other.spec_bits(),
    {
        self.bits = self.bits | other.bits;
    }
}

/// The mouse-button messages, from `WM_LBUTTONDOWN` to `WM_MBUTTONDBLCLK`.
pub const WM_LBUTTONDOWN: u32 = 0x0201;
pub const WM_LBUTTONUP: u32 = 0x0202;
pub const WM_LBUTTONDBLCLK: u32 = 0x0203;
pub const WM_RBUTTONDOWN: u32 = 0x0204;
pub const WM_RBUTTONUP: u32 = 0x0205;
pub const WM_RBUTTONDBLCLK: u32 = 0x0206;
pub const WM_MBUTTONDOWN: u32 = 0x0207;
pub const WM_MBUTTONUP: u32 = 0x0208;
pub const WM_MBUTTONDBLCLK: u32 = 0x0209;
/// The vertical mouse-wheel message.
pub const WM_MOUSEWHEEL: u32 = 0x020A;
/// The horizontal mouse-wheel message.
pub const WM_MOUSEHWHEEL: u32 = 0x020E;

/// The button and state of a mouse-button message.
pub open spec fn spec_mouse_button(msg: u32) -> (MouseButton, ButtonState) {
    let button = if msg <= WM_LBUTTONDBLCLK {
        MouseButton::Left
    } else if msg <= WM_RBUTTONDBLCLK {
        MouseButton::Right
    } else {
        MouseButton::Middle
    };
    let k = (msg - WM_LBUTTONDOWN) % 3;
    let state = if k == 0 {
        ButtonState::Pressed
    } else if k == 1 {
        ButtonState::Released
    } else {
        ButtonState::DoubleTapped
    };
    (button, state)
}

/// Decodes a mouse-button message.
pub fn mouse_button(msg: u32) -> (r: Option<(MouseButton, ButtonState)>)
    requires
        WM_LBUTTONDOWN <= msg <= WM_MBUTTONDBLCLK,
    ensures
        r == Some(spec_mouse_button(msg)),
{
    match msg {
        WM_LBUTTONDOWN => Some((MouseButton::Left, ButtonState::Pressed)),
        WM_LBUTTONUP => Some((MouseButton::Left, ButtonState::Released)),
        WM_LBUTTONDBLCLK => Some((MouseButton::Left, ButtonState::DoubleTapped)),
        WM_RBUTTONDOWN => Some((MouseButton::Right, ButtonState::Pressed)),
        WM_RBUTTONUP => Some((MouseButton::Right, ButtonState::Released)),
        WM_RBUTTONDBLCLK => Some((MouseButton::Right, ButtonState::DoubleTapped)),
        WM_MBUTTONDOWN => Some((MouseButton::Middle, ButtonState::Pressed)),
        WM_MBUTTONUP => Some((MouseButton::Middle, ButtonState::Released)),
        _ => Some((MouseButton::Middle, ButtonState::DoubleTapped)),
    }
}

/// The mouse-button messages come in threes, one three per button (left,
/// right, middle): a press, a release, then a double click. So the button
/// of a message is told by its offset from `WM_LBUTTONDOWN` divided by
/// three, and its state by the remainder.
pub proof fn law_mouse_button_table(msg: u32)
    requires
        0x0201 <= msg <= 0x0209,
    ensures
        spec_mouse_button(msg).0 == MouseButton::Left <==> (msg - 0x0201) / 3 == 0,
        spec_mouse_button(msg).0 == MouseButton::Right <==> (msg - 0x0201) / 3 == 1,
        spec_mouse_button(msg).0 == MouseButton::Middle <==> (msg - 0x0201) / 3 == 2,
        spec_mouse_button(msg).1 == ButtonState::Pressed <==> (msg - 0x0201) % 3 == 0,
        spec_mouse_button(msg).1 == ButtonState::Released <==> (msg - 0x0201) % 3 == 1,
        spec_mouse_button(msg).1 == ButtonState::DoubleTapped <==> (msg - 0x0201) % 3 == 2,
{
}

/// Two different mouse-button messages never decode to the same button
/// and state.
pub proof fn law_mouse_button_distinct(a: u32, b: u32)
    requires
        0x0201 <= a <= 0x0209,
        0x0201 <= b <= 0x0209,
        a != b,
    ensures
        spec_mouse_button(a) != spec_mouse_button(b),
{
    law_mouse_button_table(a);
    law_mouse_button_table(b);
}

/// The scroll axis of a mouse-wheel message, or `None` for any other
/// message.
pub fn wheel_axis(msg: u32) -> (r: Option<ScrollAxis>)
    ensures
        msg == WM_MOUSEWHEEL ==> r == Some(ScrollAxis::Vertical),
        msg == WM_MOUSEHWHEEL ==> r == Some(ScrollAxis::Horizontal),
        msg != WM_MOUSEWHEEL && msg != WM_MOUSEHWHEEL ==> r is None,
{
    match msg {
        0x20A => Some(ScrollAxis::Vertical),
        0x20E => Some(ScrollAxis::Horizontal),
        _ => None,
    }
}

/// The pointer position packed in a mouse message's `LPARAM`: the low and
/// the next 16 bits, each read as unsigned.
pub fn mouse_coords(lparam: isize) -> (r: crate::dpi::WindowPoint)
    ensures
        r.x == (lparam & 0xffff) as int,
        r.y == ((lparam >> 16) & 0xffff) as int,
        0 <= r.x <= 0xffff,
        0 <= r.y <= 0xffff,
{
    let xl = lparam & 0xffff;
    let yl = (lparam >> 16) & 0xffff;
    assert(0 <= xl <= 0xffff) by (bit_vector)
        requires
            xl == lparam & 0xffff,
    ;
    assert(0 <= yl <= 0xffff) by (bit_vector)
        requires
            yl == (lparam >> 16) & 0xffff,
    ;
    crate::dpi::WindowPoint { x: xl as i32, y: yl as i32 }
}

/// The `MK_CONTROL` bit of a mouse message's `WPARAM`.
pub const MK_CONTROL: usize = 0x0008;
/// The `MK_SHIFT` bit of a mouse message's `WPARAM`.
pub const MK_SHIFT: usize = 0x0004;

/// The modifier keys of a mouse message: control and shift as its `WPARAM`
/// reports them, alt as the keyboard reported it.
pub fn mouse_modifiers(wparam: usize, alt_down: bool) -> (r: ModifierKeys)
    ensures
        r.spec_bits() == (if wparam & MK_CONTROL != 0 {
            2u8
        } else {
            0u8
        }) | (if wparam & MK_SHIFT != 0 {
            1u8
        } else {
            0u8
        }) | (if alt_down {
            4u8
        } else {
            0u8
        }),
{
    let mut modifiers = ModifierKeys::empty();
    if wparam & MK_CONTROL != 0 {
        modifiers.insert(ModifierKeys::ctrl());
    }
    if wparam & MK_SHIFT != 0 {
        modifiers.insert(ModifierKeys::shift());
    }
    if alt_down {
        modifiers.insert(ModifierKeys::alt());
    }
    proof {
        let c: u8 = if wparam & MK_CONTROL != 0 { 2u8 } else { 0u8 };
        let s: u8 = if wparam & MK_SHIFT != 0 { 1u8 } else { 0u8 };
        let a: u8 = if alt_down { 4u8 } else { 0u8 };
        assert((0u8 | c) | s == c | s) by (bit_vector);
        assert(((0u8 | c) | s) | a == (c | s) | a) by (bit_vector);
        assert(0u8 | c == c) by (bit_vector);
        assert(0u8 | s == s) by (bit_vector);
        assert(c | 0u8 == c) by (bit_vector);
        assert((c | s) | 0u8 == c | s) by (bit_vector);
    }
    modifiers
}

} // verus!
