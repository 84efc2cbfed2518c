//! Decisions of the window procedure of the render-thread windows: which
//! handler a message goes to, and how the window's resize and pointer state
//! change. Calling the handler and the platform is left to the caller.

use crate::input::{ButtonState, MouseButton};
use crate::vsync::FrameId;
use vstd::prelude::*;

verus! {

/// The first message number free for applications.
pub const WM_APP: u32 = 0x8000;
/// Asks the window to destroy itself.
pub const UM_DESTROY_WINDOW: u32 = 0x8000;
/// Carries a redraw request.
pub const UM_REDRAW_REQUEST: u32 = 0x8001;
/// Carries a vertical-blank notification.
pub const UM_VSYNC: u32 = 0x8002;
/// Carries a change of the composition rate.
pub const UM_COMPOSITION_RATE: u32 = 0x8003;

pub const WM_DESTROY: u32 = 0x0002;
pub const WM_PAINT: u32 = 0x000F;
pub const WM_CLOSE: u32 = 0x0010;
pub const WM_SHOWWINDOW: u32 = 0x0018;
pub const WM_WINDOWPOSCHANGED: u32 = 0x0047;
pub const WM_MOUSEMOVE: u32 = 0x0200;
pub const WM_LBUTTONDOWN: u32 = 0x0201;
pub const WM_LBUTTONUP: u32 = 0x0202;
pub const WM_RBUTTONDOWN: u32 = 0x0204;
pub const WM_RBUTTONUP: u32 = 0x0205;
pub const WM_MBUTTONDOWN: u32 = 0x0207;
pub const WM_MBUTTONUP: u32 = 0x0208;
pub const WM_MOUSEWHEEL: u32 = 0x020A;
pub const WM_MOUSEHWHEEL: u32 = 0x020E;
pub const WM_MOUSELEAVE: u32 = 0x02A3;
pub const WM_ENTERSIZEMOVE: u32 = 0x0231;
pub const WM_EXITSIZEMOVE: u32 = 0x0232;

/// What the window procedure does with a message.
#[derive(Clone, Copy, Debug, PartialEq, Eq, Structural)]
pub enum MessageKind {
    Close,
    DestroyRequest,
    Destroy,
    Show,
    EnterSizeMove,
    ExitSizeMove,
    PosChanged,
    RedrawRequest,
    Vsync,
    CompositionRate,
    Paint,
    MouseMove,
    MouseLeave,
    /// A wheel message; `true` for the horizontal wheel.
    Wheel(bool),
    MouseButton(MouseButton, ButtonState),
    /// Left to the platform's default procedure.
    Default,
}

/// What the window procedure does with message `msg`.
pub open spec fn spec_message_kind(msg: u32) -> MessageKind {
    if msg == WM_CLOSE {
        MessageKind::Close
    } else if msg == UM_DESTROY_WINDOW {
        MessageKind::DestroyRequest
    } else if msg == WM_DESTROY {
        MessageKind::Destroy
    } else if msg == WM_SHOWWINDOW {
        MessageKind::Show
    } else if msg == WM_ENTERSIZEMOVE {
        MessageKind::EnterSizeMove
    } else if msg == WM_EXITSIZEMOVE {
        MessageKind::ExitSizeMove
    } else if msg == WM_WINDOWPOSCHANGED {
        MessageKind::PosChanged
    } else if msg == UM_REDRAW_REQUEST {
        MessageKind::RedrawRequest
    } else if msg == UM_VSYNC {
        MessageKind::Vsync
    } else if msg == UM_COMPOSITION_RATE {
        MessageKind::CompositionRate
    } else if msg == WM_PAINT {
        MessageKind::Paint
    } else if msg == WM_MOUSEMOVE {
        MessageKind::MouseMove
    } else if msg == WM_MOUSELEAVE {
        MessageKind::MouseLeave
    } else if msg == WM_MOUSEWHEEL {
        MessageKind::Wheel(false)
    } else if msg == WM_MOUSEHWHEEL {
        MessageKind::Wheel(true)
    } else if msg == WM_LBUTTONDOWN {
        MessageKind::MouseButton(MouseButton::Left, ButtonState::Pressed)
    } else if msg == WM_LBUTTONUP {
        MessageKind::MouseButton(MouseButton::Left, ButtonState::Released)
    } else if msg == WM_RBUTTONDOWN {
        MessageKind::MouseButton(MouseButton::Right, ButtonState::Pressed)
    } else if msg == WM_RBUTTONUP {
        MessageKind::MouseButton(MouseButton::Right, ButtonState::Released)
    } else if msg == WM_MBUTTONDOWN {
        MessageKind::MouseButton(MouseButton::Middle, ButtonState::Pressed)
    } else if msg == WM_MBUTTONUP {
        MessageKind::MouseButton(MouseButton::Middle, ButtonState::Released)
    } else {
        MessageKind::Default
    }
}

/// Decides what the window procedure does with message `msg`.
pub fn message_kind(msg: u32) -> (r: MessageKind)
    ensures
        r == spec_message_kind(msg),
{
    match msg {
        WM_CLOSE => MessageKind::Close,
        UM_DESTROY_WINDOW => MessageKind::DestroyRequest,
        WM_DESTROY => MessageKind::Destroy,
        WM_SHOWWINDOW => MessageKind::Show,
        WM_ENTERSIZEMOVE => MessageKind::EnterSizeMove,
        WM_EXITSIZEMOVE => MessageKind::ExitSizeMove,
        WM_WINDOWPOSCHANGED => MessageKind::PosChanged,
        UM_REDRAW_REQUEST => MessageKind::RedrawRequest,
        UM_VSYNC => MessageKind::Vsync,
        UM_COMPOSITION_RATE => MessageKind::CompositionRate,
        WM_PAINT => MessageKind::Paint,
        WM_MOUSEMOVE => MessageKind::MouseMove,
        WM_MOUSELEAVE => MessageKind::MouseLeave,
        WM_MOUSEWHEEL => MessageKind::Wheel(false),
        WM_MOUSEHWHEEL => MessageKind::Wheel(true),
        WM_LBUTTONDOWN => MessageKind::MouseButton(MouseButton::Left, ButtonState::Pressed),
        WM_LBUTTONUP => MessageKind::MouseButton(MouseButton::Left, ButtonState::Released),
        WM_RBUTTONDOWN => MessageKind::MouseButton(MouseButton::Right, ButtonState::Pressed),
        WM_RBUTTONUP => MessageKind::MouseButton(MouseButton::Right, ButtonState::Released),
        WM_MBUTTONDOWN => MessageKind::MouseButton(MouseButton::Middle, ButtonState::Pressed),
        WM_MBUTTONUP => MessageKind::MouseButton(MouseButton::Middle, ButtonState::Released),
        _ => MessageKind::Default,
    }
}

/// Only the two wheel messages scroll, each along its own axis: the
/// vertical wheel (`0x020A`) scrolls vertically and the horizontal wheel
/// (`0x020E`) horizontally.
pub proof fn law_wheel_axis(msg: u32)
    ensures
        spec_message_kind(msg) == MessageKind::Wheel(false) <==> msg == 0x020A,
        spec_message_kind(msg) == MessageKind::Wheel(true) <==> msg == 0x020E,
{
}

/// The button messages that the procedure handles decode as the platform
/// numbers them: in threes from `0x0201`, one three per button (left,
/// right, middle), each a press then a release; double clicks are left to
/// the default procedure.
pub proof fn law_button_messages(msg: u32)
    requires
        0x0201 <= msg <= 0x0209,
    ensures
        (msg - 0x0201) % 3 == 2 ==> spec_message_kind(msg) == MessageKind::Default,
        (msg - 0x0201) % 3 != 2 ==> (spec_message_kind(msg) matches MessageKind::MouseButton(
            b,
            st,
        ) && {
            &&& b == MouseButton::Left <==> (msg - 0x0201) / 3 == 0
            &&& b == MouseButton::Right <==> (msg - 0x0201) / 3 == 1
            &&& b == MouseButton::Middle <==> (msg - 0x0201) / 3 == 2
            &&& st == ButtonState::Pressed <==> (msg - 0x0201) % 3 == 0
            &&& st == ButtonState::Released <==> (msg - 0x0201) % 3 == 1
        }),
{
}

/// No two messages get the same handling, but for those left to the
/// platform's default procedure.
pub proof fn law_message_kind_distinct(a: u32, b: u32)
    requires
        a != b,
    ensures
        spec_message_kind(a) == spec_message_kind(b) ==> spec_message_kind(a)
            == MessageKind::Default,
{
}

/// The pointer position packed in a mouse message's `LPARAM`: the low and
/// the next 16 bits, each taken as a signed 16-bit number.
pub fn mouse_coords(lparam: isize) -> (r: (i16, i16))
    ensures
        r.0 == (lparam & 0xffff) as i16,
        r.1 == ((lparam >> 16) & 0xffff) as i16,
{
    let x = (lparam & 0xffff) as i16;
    let y = ((lparam >> 16) & 0xffff) as i16;
    (x, y)
}

/// The wheel rotation of a wheel message's `WPARAM`, in raw units (120 to
/// a notch).
pub fn wheel_delta(wparam: usize) -> (r: i16)
    ensures
        r == (wparam >> 16) as i16,
{
    (wparam >> 16) as i16
}

/// A request for the window to be redrawn.
#[derive(Clone, Copy, Debug, PartialEq, Eq, Structural)]
pub enum RedrawRequest {
    /// No further redraws.
    Idle,
    /// One redraw, as soon as possible.
    Once,
    /// One redraw, at the given frame.
    AtFrame(FrameId),
    /// Redraws at a rate, given as the bits of its `f64`.
    AtFrameRate(u64),
}

/// The message parameters that carry a redraw request: the kind in the
/// `LPARAM`, the frame or the rate's bits in the `WPARAM`.
pub open spec fn redraw_params(request: RedrawRequest) -> (isize, u64) {
    match request {
        RedrawRequest::Idle => (0isize, 0u64),
        RedrawRequest::Once => (1isize, 0u64),
        RedrawRequest::AtFrame(id) => (2isize, id.0),
        RedrawRequest::AtFrameRate(bits) => (3isize, bits),
    }
}

/// The redraw request that message parameters carry.
pub open spec fn redraw_from_params(wparam: u64, lparam: isize) -> RedrawRequest {
    if lparam == 0 {
        RedrawRequest::Idle
    } else if lparam == 1 {
        RedrawRequest::Once
    } else if lparam == 2 {
        RedrawRequest::AtFrame(FrameId(wparam))
    } else {
        RedrawRequest::AtFrameRate(wparam)
    }
}

/// Packs a redraw request into a message's `LPARAM` (the kind) and
/// `WPARAM` (the frame or the rate's bits).
pub fn encode_redraw_request(request: RedrawRequest) -> (r: (isize, u64))
    ensures
        r == redraw_params(request),
{
    match request {
        RedrawRequest::Idle => (0, 0),
        RedrawRequest::Once => (1, 0),
        RedrawRequest::AtFrame(id) => (2, id.0),
        RedrawRequest::AtFrameRate(bits) => (3, bits),
    }
}

/// Unpacks a redraw request from a message's `WPARAM` and `LPARAM`.
pub fn extract_redraw_request(wparam: u64, lparam: isize) -> (r: RedrawRequest)
    requires
        0 <= lparam <= 3,
    ensures
        r == redraw_from_params(wparam, lparam),
{
    match lparam {
        0 => RedrawRequest::Idle,
        1 => RedrawRequest::Once,
        2 => RedrawRequest::AtFrame(FrameId(wparam)),
        _ => RedrawRequest::AtFrameRate(wparam),
    }
}

/// Unpacking a packed redraw request gives it back, and its kind is one
/// that unpacking accepts.
pub proof fn law_redraw_request_round_trip(request: RedrawRequest)
    ensures
        0 <= redraw_params(request).0 <= 3,
        redraw_from_params(redraw_params(request).1, redraw_params(request).0) == request,
{
}

/// What the window procedure tells the window's handler.
#[derive(Clone, Copy, Debug, PartialEq, Eq, Structural)]
pub enum HandlerCall {
    BeginResize,
    Resize(u16, u16),
    EndResize,
}

/// The resize and pointer state of a window, kept by its procedure.
#[derive(Clone, Copy, Debug, PartialEq, Eq, Structural)]
pub struct ProcState {
    pub width: u16,
    pub height: u16,
    pub is_in_size_move: bool,
    pub is_resizing: bool,
    pub pointer_in_window: bool,
}

impl ProcState {
    /// The state of a new window: no size, no resize, no pointer.
    pub fn new() -> (r: Self)
        ensures
            r == (ProcState {
                width: 0,
                height: 0,
                is_in_size_move: false,
                is_resizing: false,
                pointer_in_window: false,
            }),
    {
        ProcState { width: 0,
                height: 0, is_in_size_move: false, is_resizing: false, pointer_in_window: false }
    }

    /// The platform's move-and-resize loop began. The message is answered
    /// with 1.
    pub fn enter_size_move(&mut self) -> (r: isize)
        ensures
            *final(self) == (ProcState { is_in_size_move: true, ..*old(self) }),
            r == 1,
    {
        self.is_in_size_move = true;
        1
    }

    /// The platform's move-and-resize loop ended: when the window was being
    /// resized, the resize ends.
    pub fn exit_size_move(&mut self) -> (r: Option<HandlerCall>)
        ensures
            old(self).is_resizing ==> *final(self) == (ProcState {
                is_in_size_move: false,
                is_resizing: false,
                ..*old(self)
            }) && r == Some(HandlerCall::EndResize),
            !old(self).is_resizing ==> *final(self) == *old(self) && r is None,
    {
        if self.is_resizing {
            self.is_resizing = false;
            self.is_in_size_move = false;
            Some(HandlerCall::EndResize)
        } else {
            None
        }
    }

    /// The window's client area now measures `width` by `height`. A change
    /// of size is reported, preceded by the beginning of a resize when the
    /// move-and-resize loop is running and no resize has begun.
    pub fn pos_changed(&mut self, width: i32, height: i32) -> (r: Vec<HandlerCall>)
        ensures
            ({
                let w = width as u16;
                let h = height as u16;
                let changed = w != old(self).width || h != old(self).height;
                let begins = changed && old(self).is_in_size_move && !old(self).is_resizing;
                &&& final(self).width == w
                &&& final(self).height == h
                &&& final(self).is_resizing == (old(self).is_resizing || begins)
                &&& final(self).is_in_size_move == old(self).is_in_size_move
                &&& final(self).pointer_in_window == old(self).pointer_in_window
                &&& r@ == (if begins {
                    seq![HandlerCall::BeginResize]
                } else {
                    Seq::empty()
                }) + (if changed {
                    seq![HandlerCall::Resize(w, h)]
                } else {
                    Seq::empty()
                })
            }),
    {
        let w = width as u16;
        let h = height as u16;
        let mut calls: Vec<HandlerCall> = Vec::new();
        let changed = w != self.width || h != self.height;
        if changed {
            if self.is_in_size_move && !self.is_resizing {
                calls.push(HandlerCall::BeginResize);
                self.is_resizing = true;
            }
            self.width = w;
            self.height = h;
            calls.push(HandlerCall::Resize(w, h));
        }
        proof {
            let begins = changed && old(self).is_in_size_move && !old(self).is_resizing;
            let a: Seq<HandlerCall> = if begins {
                seq![HandlerCall::BeginResize]
            } else {
                Seq::empty()
            };
            let b: Seq<HandlerCall> = if changed {
                seq![HandlerCall::Resize(w, h)]
            } else {
                Seq::empty()
            };
            assert(calls@ =~= a + b);
        }
        calls
    }

    /// The pointer moved over the window: returns whether the platform must
    /// be asked to report when it leaves, which is the case the first time.
    pub fn mouse_move(&mut self) -> (r: bool)
        ensures
            r == !old(self).pointer_in_window,
            *final(self) == (ProcState { pointer_in_window: true, ..*old(self) }),
    {
        if !self.pointer_in_window {
            self.pointer_in_window = true;
            true
        } else {
            false
        }
    }
}

} // verus!
