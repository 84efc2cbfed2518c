use plinth::input::{
    mouse_button, mouse_coords, mouse_modifiers, wheel_axis, ButtonState, ModifierKeys,
    MouseButton, ScrollAxis, MK_CONTROL, MK_SHIFT,
};

#[test]
fn mouse_buttons_decode_from_messages() {
    assert_eq!(mouse_button(0x0201), Some((MouseButton::Left, ButtonState::Pressed)));
    assert_eq!(mouse_button(0x0202), Some((MouseButton::Left, ButtonState::Released)));
    assert_eq!(mouse_button(0x0203), Some((MouseButton::Left, ButtonState::DoubleTapped)));
    assert_eq!(mouse_button(0x0204), Some((MouseButton::Right, ButtonState::Pressed)));
    assert_eq!(mouse_button(0x0206), Some((MouseButton::Right, ButtonState::DoubleTapped)));
    assert_eq!(mouse_button(0x0208), Some((MouseButton::Middle, ButtonState::Released)));
    assert_eq!(mouse_button(0x0209), Some((MouseButton::Middle, ButtonState::DoubleTapped)));
}

#[test]
fn wheel_messages_give_their_axis() {
    assert_eq!(wheel_axis(0x020A), Some(ScrollAxis::Vertical));
    assert_eq!(wheel_axis(0x020E), Some(ScrollAxis::Horizontal));
    assert_eq!(wheel_axis(0x0201), None);
}

#[test]
fn mouse_coordinates_are_the_low_words() {
    let p = mouse_coords(0x0040_0020);
    assert_eq!((p.x, p.y), (0x20, 0x40));
    let q = mouse_coords(0x7fff_ffff);
    assert_eq!((q.x, q.y), (0xffff, 0x7fff));
}

#[test]
fn modifier_keys_combine() {
    let mut m = ModifierKeys::empty();
    assert_eq!(m.bits(), 0);
    m.insert(ModifierKeys::ctrl());
    assert!(m.contains(ModifierKeys::ctrl()));
    assert!(!m.contains(ModifierKeys::shift()));
    m.insert(ModifierKeys::shift());
    assert!(m.contains(ModifierKeys::shift()));
    assert_eq!(m.bits(), ModifierKeys::ctrl().bits() | ModifierKeys::shift().bits());
}

#[test]
fn mouse_modifiers_read_wparam_and_alt() {
    let none = mouse_modifiers(0, false);
    assert_eq!(none, ModifierKeys::empty());
    let all = mouse_modifiers(MK_CONTROL | MK_SHIFT, true);
    assert!(all.contains(ModifierKeys::ctrl()));
    assert!(all.contains(ModifierKeys::shift()));
    assert!(all.contains(ModifierKeys::alt()));
    let shift_only = mouse_modifiers(MK_SHIFT | 0x0001, false);
    assert_eq!(shift_only, ModifierKeys::shift());
}
