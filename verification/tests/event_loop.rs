use plinth::event_loop::{
    window_message, WindowMessage, UM_DEFER_DESTROY, UM_DEFER_PAINT, UM_DEFER_SHOW, UM_WAKE,
    WM_CLOSE, WM_CREATE, WM_DESTROY, WM_DPICHANGED, WM_ENTERSIZEMOVE, WM_EXITSIZEMOVE,
    WM_GETMINMAXINFO, WM_MOUSELEAVE, WM_MOUSEMOVE, WM_PAINT, WM_SHOWWINDOW, WM_WINDOWPOSCHANGED,
};
use plinth::input::{ButtonState, MouseButton, ScrollAxis};
use windows::Win32::UI::WindowsAndMessaging as wm;

#[test]
fn event_loop_messages_match_the_platform() {
    assert_eq!(UM_WAKE, wm::WM_APP);
    assert_eq!(UM_DEFER_DESTROY, wm::WM_APP + 1);
    assert_eq!(UM_DEFER_SHOW, wm::WM_APP + 2);
    assert_eq!(UM_DEFER_PAINT, wm::WM_APP + 3);
    assert_eq!(WM_CREATE, wm::WM_CREATE);
    assert_eq!(WM_DESTROY, wm::WM_DESTROY);
    assert_eq!(WM_PAINT, wm::WM_PAINT);
    assert_eq!(WM_CLOSE, wm::WM_CLOSE);
    assert_eq!(WM_SHOWWINDOW, wm::WM_SHOWWINDOW);
    assert_eq!(WM_GETMINMAXINFO, wm::WM_GETMINMAXINFO);
    assert_eq!(WM_WINDOWPOSCHANGED, wm::WM_WINDOWPOSCHANGED);
    assert_eq!(WM_MOUSEMOVE, wm::WM_MOUSEMOVE);
    assert_eq!(WM_ENTERSIZEMOVE, wm::WM_ENTERSIZEMOVE);
    assert_eq!(WM_EXITSIZEMOVE, wm::WM_EXITSIZEMOVE);
    assert_eq!(WM_DPICHANGED, wm::WM_DPICHANGED);
    assert_eq!(WM_MOUSELEAVE, 0x02A3);
}

#[test]
fn window_messages_are_routed() {
    assert_eq!(window_message(WM_CREATE), WindowMessage::Create);
    assert_eq!(window_message(UM_WAKE), WindowMessage::Wake);
    assert_eq!(window_message(WM_CLOSE), WindowMessage::Close);
    assert_eq!(window_message(UM_DEFER_DESTROY), WindowMessage::DeferredDestroy);
    assert_eq!(window_message(WM_DESTROY), WindowMessage::Destroy);
    assert_eq!(window_message(UM_DEFER_SHOW), WindowMessage::DeferredShow);
    assert_eq!(window_message(WM_SHOWWINDOW), WindowMessage::Show);
    assert_eq!(window_message(WM_ENTERSIZEMOVE), WindowMessage::EnterSizeMove);
    assert_eq!(window_message(WM_EXITSIZEMOVE), WindowMessage::ExitSizeMove);
    assert_eq!(window_message(WM_DPICHANGED), WindowMessage::DpiChanged);
    assert_eq!(window_message(WM_GETMINMAXINFO), WindowMessage::GetMinMaxInfo);
    assert_eq!(window_message(WM_WINDOWPOSCHANGED), WindowMessage::PosChanged);
    assert_eq!(window_message(UM_DEFER_PAINT), WindowMessage::DeferredPaint);
    assert_eq!(window_message(WM_PAINT), WindowMessage::Paint);
    assert_eq!(window_message(WM_MOUSEMOVE), WindowMessage::MouseMove);
    assert_eq!(window_message(WM_MOUSELEAVE), WindowMessage::MouseLeave);
}

#[test]
fn input_messages_are_routed_with_their_details() {
    assert_eq!(window_message(0x020A), WindowMessage::Wheel(ScrollAxis::Vertical));
    assert_eq!(window_message(0x020E), WindowMessage::Wheel(ScrollAxis::Horizontal));
    assert_eq!(
        window_message(0x0201),
        WindowMessage::MouseButton(MouseButton::Left, ButtonState::Pressed)
    );
    assert_eq!(
        window_message(0x0209),
        WindowMessage::MouseButton(MouseButton::Middle, ButtonState::DoubleTapped)
    );
}

#[test]
fn other_messages_go_to_the_default_procedure() {
    assert_eq!(window_message(0x0005), WindowMessage::Default);
    assert_eq!(window_message(0x8004), WindowMessage::Default);
    assert_eq!(window_message(0x020B), WindowMessage::Default);
}
