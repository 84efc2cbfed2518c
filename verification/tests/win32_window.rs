use plinth::input::{ButtonState, MouseButton};
use plinth::vsync::FrameId;
use plinth::win32_window::{
    encode_redraw_request, extract_redraw_request, message_kind, mouse_coords, wheel_delta,
    HandlerCall, MessageKind, ProcState, RedrawRequest, UM_COMPOSITION_RATE, UM_DESTROY_WINDOW,
    UM_REDRAW_REQUEST, UM_VSYNC,
};
use windows::Win32::UI::WindowsAndMessaging as wm;

#[test]
fn message_constants_match_the_platform() {
    assert_eq!(plinth::win32_window::WM_APP, wm::WM_APP);
    assert_eq!(plinth::win32_window::WM_CLOSE, wm::WM_CLOSE);
    assert_eq!(plinth::win32_window::WM_DESTROY, wm::WM_DESTROY);
    assert_eq!(plinth::win32_window::WM_PAINT, wm::WM_PAINT);
    assert_eq!(plinth::win32_window::WM_SHOWWINDOW, wm::WM_SHOWWINDOW);
    assert_eq!(plinth::win32_window::WM_WINDOWPOSCHANGED, wm::WM_WINDOWPOSCHANGED);
    assert_eq!(plinth::win32_window::WM_MOUSEMOVE, wm::WM_MOUSEMOVE);
    assert_eq!(plinth::win32_window::WM_MOUSEWHEEL, wm::WM_MOUSEWHEEL);
    assert_eq!(plinth::win32_window::WM_MOUSEHWHEEL, wm::WM_MOUSEHWHEEL);
    assert_eq!(plinth::win32_window::WM_MOUSELEAVE, 0x02A3);
    assert_eq!(plinth::win32_window::WM_ENTERSIZEMOVE, wm::WM_ENTERSIZEMOVE);
    assert_eq!(plinth::win32_window::WM_EXITSIZEMOVE, wm::WM_EXITSIZEMOVE);
    assert_eq!(plinth::win32_window::WM_LBUTTONDOWN, wm::WM_LBUTTONDOWN);
    assert_eq!(plinth::win32_window::WM_MBUTTONUP, wm::WM_MBUTTONUP);
    assert_eq!(plinth::input::WM_MBUTTONDBLCLK, wm::WM_MBUTTONDBLCLK);
    assert_eq!(plinth::input::WM_RBUTTONDBLCLK, wm::WM_RBUTTONDBLCLK);
}

#[test]
fn private_messages_follow_wm_app() {
    assert_eq!(UM_DESTROY_WINDOW, wm::WM_APP);
    assert_eq!(UM_REDRAW_REQUEST, wm::WM_APP + 1);
    assert_eq!(UM_VSYNC, wm::WM_APP + 2);
    assert_eq!(UM_COMPOSITION_RATE, wm::WM_APP + 3);
}

#[test]
fn messages_are_sorted_into_kinds() {
    assert_eq!(message_kind(wm::WM_CLOSE), MessageKind::Close);
    assert_eq!(message_kind(UM_DESTROY_WINDOW), MessageKind::DestroyRequest);
    assert_eq!(message_kind(UM_VSYNC), MessageKind::Vsync);
    assert_eq!(message_kind(wm::WM_MOUSEHWHEEL), MessageKind::Wheel(true));
    assert_eq!(
        message_kind(wm::WM_RBUTTONUP),
        MessageKind::MouseButton(MouseButton::Right, ButtonState::Released)
    );
    assert_eq!(message_kind(wm::WM_NCCREATE), MessageKind::Default);
}

#[test]
fn mouse_coordinates_are_signed_words() {
    assert_eq!(mouse_coords(0x0040_0020), (0x20, 0x40));
    assert_eq!(mouse_coords(0xffff_fffe), (-2, -1));
    assert_eq!(wheel_delta(120 << 16), 120);
    assert_eq!(wheel_delta(0xff88_0000), -120);
}

#[test]
fn redraw_requests_round_trip() {
    let requests = [
        RedrawRequest::Idle,
        RedrawRequest::Once,
        RedrawRequest::AtFrame(FrameId(77)),
        RedrawRequest::AtFrameRate(59.94f64.to_bits()),
    ];
    for r in requests {
        let (lp, wp) = encode_redraw_request(r);
        assert_eq!(extract_redraw_request(wp, lp), r);
    }
    assert_eq!(encode_redraw_request(RedrawRequest::AtFrame(FrameId(5))), (2, 5));
}

#[test]
fn resizes_inside_the_size_move_loop_begin_and_end_once() {
    let mut s = ProcState::new();
    assert_eq!(s.pos_changed(100, 50), vec![HandlerCall::Resize(100, 50)]);
    assert_eq!(s.enter_size_move(), 1);
    assert_eq!(s.pos_changed(100, 50), vec![]);
    assert_eq!(
        s.pos_changed(120, 50),
        vec![HandlerCall::BeginResize, HandlerCall::Resize(120, 50)]
    );
    assert_eq!(s.pos_changed(130, 60), vec![HandlerCall::Resize(130, 60)]);
    assert_eq!(s.exit_size_move(), Some(HandlerCall::EndResize));
    assert_eq!(s.exit_size_move(), None);
    assert!(s.mouse_move());
    assert!(!s.mouse_move());
}
