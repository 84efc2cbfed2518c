//! The event loop's table of open windows: which window handle occupies
//! which of the fixed number of window slots.

use crate::input::{
    law_mouse_button_distinct, mouse_button, spec_mouse_button, wheel_axis, ButtonState, MouseButton, ScrollAxis,
    WM_LBUTTONDOWN, WM_MBUTTONDBLCLK, WM_MOUSEHWHEEL, WM_MOUSEWHEEL,
};
use crate::power::{MonitorState, PowerPreference, PowerSource};
use crate::window::{SYS_WINDOW_COUNT_MAX, WindowError};
use vstd::prelude::*;

verus! {

/// An event that concerns the whole application.
#[derive(Debug, Clone, Copy, PartialEq, Eq, Structural)]
pub enum AppEvent {
    Start,
    Suspend,
    Resume,
    Stop,
    LowMemory,
    PowerSource(PowerSource),
    MonitorState(MonitorState),
    PowerPreference(PowerPreference),
}

/// The window handles of the event loop's windows; a slot holding 0 is free.
pub struct WindowSlots {
    hwnds: Vec<isize>,
}

impl WindowSlots {
    /// The handles, by slot.
    pub closed spec fn handles(&self) -> Seq<isize> {
        self.hwnds@
    }

    /// All slots free.
    pub fn new() -> (r: Self)
        ensures
            r.handles() == Seq::new(SYS_WINDOW_COUNT_MAX as nat, |i: int| 0isize),
    {
        let mut hwnds: Vec<isize> = Vec::new();
        let mut i: usize = 0;
        while i < SYS_WINDOW_COUNT_MAX
            invariant
                i <= SYS_WINDOW_COUNT_MAX,
                hwnds@ == Seq::new(i as nat, |j: int| 0isize),
            decreases SYS_WINDOW_COUNT_MAX - i,
        {
            hwnds.push(0);
            i = i + 1;
            proof {
                assert(hwnds@ =~= Seq::new(i as nat, |j: int| 0isize));
            }
        }
        WindowSlots { hwnds }
    }

    /// The first slot holding `hwnd`, if any.
    pub fn position(&self, hwnd: isize) -> (r: Option<usize>)
        ensures
            r matches Some(i) ==> i < self.handles().len() && self.handles()[i as int] == hwnd
                && forall|j: int| 0 <= j < i ==> #[trigger] self.handles()[j] != hwnd,
            r is None ==> forall|j: int|
                0 <= j < self.handles().len() ==> #[trigger] self.handles()[j] != hwnd,
    {
        let mut i: usize = 0;
        while i < self.hwnds.len()
            invariant
                i <= self.hwnds@.len(),
                forall|j: int| 0 <= j < i ==> #[trigger] self.hwnds@[j] != hwnd,
            decreases self.hwnds@.len() - i,
        {
            if self.hwnds[i] == hwnd {
                return Some(i);
            }
            i = i + 1;
        }
        None
    }

    /// The slot for a new window: the first free one, or `TooManyWindows`.
    pub fn free_slot(&self) -> (r: Result<usize, WindowError>)
        ensures
            r matches Ok(i) ==> i < self.handles().len() && self.handles()[i as int] == 0
                && forall|j: int| 0 <= j < i ==> #[trigger] self.handles()[j] != 0,
            r is Err ==> r == Err::<usize, WindowError>(WindowError::TooManyWindows) && forall|j: int|
                0 <= j < self.handles().len() ==> #[trigger] self.handles()[j] != 0,
    {
        match self.position(0) {
            Some(i) => Ok(i),
            None => Err(WindowError::TooManyWindows),
        }
    }

    /// Puts `hwnd` in slot `i`.
    pub fn occupy(&mut self, i: usize, hwnd: isize)
        requires
            i < old(self).handles().len(),
        ensures
            final(self).handles() == old(self).handles().update(i as int, hwnd),
    {
        self.hwnds.set(i, hwnd);
    }

    /// Frees slot `i`.
    pub fn release(&mut self, i: usize)
        requires
            i < old(self).handles().len(),
        ensures
            final(self).handles() == old(self).handles().update(i as int, 0),
    {
        self.hwnds.set(i, 0);
    }

    /// The number of occupied slots.
    pub fn count_open(&self) -> (r: u32)
        requires
            self.handles().len() <= u32::MAX,
        ensures
            r == open_count(self.handles()),
    {
        let mut count: u32 = 0;
        let mut i: usize = 0;
        proof {
            assert(self.hwnds@.take(0) =~= Seq::<isize>::empty());
        }
        while i < self.hwnds.len()
            invariant
                self.hwnds@.len() <= u32::MAX,
                i <= self.hwnds@.len(),
                count == open_count(self.hwnds@.take(i as int)),
                count <= i,
            decreases self.hwnds@.len() - i,
        {
            proof {
                assert(self.hwnds@.take(i + 1).drop_last() =~= self.hwnds@.take(i as int));
            }
            if self.hwnds[i] != 0 {
                count = count + 1;
            }
            i = i + 1;
        }
        proof {
            assert(self.hwnds@.take(i as int) =~= self.hwnds@);
        }
        count
    }
}

/// The number of occupied slots among `s`.
pub open spec fn open_count(s: Seq<isize>) -> nat
    decreases s.len(),
{
    if s.len() == 0 {
        0
    } else {
        open_count(s.drop_last()) + if s.last() != 0 {
            1nat
        } else {
            0nat
        }
    }
}

} // verus!

verus! {

/// Asks the window's handler to wake.
pub const UM_WAKE: u32 = 0x8000;
/// Asks for the window to be destroyed, from its own thread.
pub const UM_DEFER_DESTROY: u32 = 0x8001;
/// Asks for the window to be shown or hidden, from its own thread.
pub const UM_DEFER_SHOW: u32 = 0x8002;
/// Asks for the window to be repainted.
pub const UM_DEFER_PAINT: u32 = 0x8003;

/// `WM_CREATE`.
pub const WM_CREATE: u32 = 0x0001;
/// `WM_DESTROY`.
pub const WM_DESTROY: u32 = 0x0002;
/// `WM_PAINT`.
pub const WM_PAINT: u32 = 0x000F;
/// `WM_CLOSE`.
pub const WM_CLOSE: u32 = 0x0010;
/// `WM_SHOWWINDOW`.
pub const WM_SHOWWINDOW: u32 = 0x0018;
/// `WM_GETMINMAXINFO`.
pub const WM_GETMINMAXINFO: u32 = 0x0024;
/// `WM_WINDOWPOSCHANGED`.
pub const WM_WINDOWPOSCHANGED: u32 = 0x0047;
/// `WM_MOUSEMOVE`.
pub const WM_MOUSEMOVE: u32 = 0x0200;
/// `WM_ENTERSIZEMOVE`.
pub const WM_ENTERSIZEMOVE: u32 = 0x0231;
/// `WM_EXITSIZEMOVE`.
pub const WM_EXITSIZEMOVE: u32 = 0x0232;
/// `WM_MOUSELEAVE`.
pub const WM_MOUSELEAVE: u32 = 0x02A3;
/// `WM_DPICHANGED`.
pub const WM_DPICHANGED: u32 = 0x02E0;

/// What the window procedure of the event loop does with a message.
#[derive(Clone, Copy, Debug, PartialEq, Eq, Structural)]
pub enum WindowMessage {
    /// Take a free window slot for the new window, or fail its creation.
    Create,
    Wake,
    Close,
    /// Destroy the window from its own thread.
    DeferredDestroy,
    /// The window is destroyed: free its slot, and quit when none is left.
    Destroy,
    /// Show or hide the window from its own thread.
    DeferredShow,
    Show,
    EnterSizeMove,
    ExitSizeMove,
    DpiChanged,
    GetMinMaxInfo,
    PosChanged,
    DeferredPaint,
    Paint,
    MouseMove,
    MouseLeave,
    Wheel(ScrollAxis),
    MouseButton(MouseButton, ButtonState),
    /// Left to the platform's default procedure.
    Default,
}

/// What the window procedure does with message `msg`.
pub open spec fn spec_window_message(msg: u32) -> WindowMessage {
    if msg == WM_CREATE {
        WindowMessage::Create
    } else if msg == UM_WAKE {
        WindowMessage::Wake
    } else if msg == WM_CLOSE {
        WindowMessage::Close
    } else if msg == UM_DEFER_DESTROY {
        WindowMessage::DeferredDestroy
    } else if msg == WM_DESTROY {
        WindowMessage::Destroy
    } else if msg == UM_DEFER_SHOW {
        WindowMessage::DeferredShow
    } else if msg == WM_SHOWWINDOW {
        WindowMessage::Show
    } else if msg == WM_ENTERSIZEMOVE {
        WindowMessage::EnterSizeMove
    } else if msg == WM_EXITSIZEMOVE {
        WindowMessage::ExitSizeMove
    } else if msg == WM_DPICHANGED {
        WindowMessage::DpiChanged
    } else if msg == WM_GETMINMAXINFO {
        WindowMessage::GetMinMaxInfo
    } else if msg == WM_WINDOWPOSCHANGED {
        WindowMessage::PosChanged
    } else if msg == UM_DEFER_PAINT {
        WindowMessage::DeferredPaint
    } else if msg == WM_PAINT {
        WindowMessage::Paint
    } else if msg == WM_MOUSEMOVE {
        WindowMessage::MouseMove
    } else if msg == WM_MOUSELEAVE {
        WindowMessage::MouseLeave
    } else if msg == WM_MOUSEWHEEL {
        WindowMessage::Wheel(ScrollAxis::Vertical)
    } else if msg == WM_MOUSEHWHEEL {
        WindowMessage::Wheel(ScrollAxis::Horizontal)
    } else if WM_LBUTTONDOWN <= msg <= WM_MBUTTONDBLCLK {
        WindowMessage::MouseButton(spec_mouse_button(msg).0, spec_mouse_button(msg).1)
    } else {
        WindowMessage::Default
    }
}

/// Input reaches the loop decoded as the platform numbers it: the vertical
/// wheel (`0x020A`) and the horizontal wheel (`0x020E`) scroll along their
/// own axes and nothing else scrolls; the messages `0x0201` to `0x0209`
/// are button messages, in threes per button (left, right, middle), each
/// three a press, a release and a double click.
pub proof fn law_window_message_input(msg: u32)
    ensures
        spec_window_message(msg) == WindowMessage::Wheel(ScrollAxis::Vertical) <==> msg == 0x020A,
        spec_window_message(msg) == WindowMessage::Wheel(ScrollAxis::Horizontal) <==> msg
            == 0x020E,
        spec_window_message(msg) is MouseButton <==> 0x0201 <= msg <= 0x0209,
        spec_window_message(msg) matches WindowMessage::MouseButton(b, st) ==> {
            &&& b == MouseButton::Left <==> (msg - 0x0201) / 3 == 0
            &&& b == MouseButton::Right <==> (msg - 0x0201) / 3 == 1
            &&& b == MouseButton::Middle <==> (msg - 0x0201) / 3 == 2
            &&& st == ButtonState::Pressed <==> (msg - 0x0201) % 3 == 0
            &&& st == ButtonState::Released <==> (msg - 0x0201) % 3 == 1
            &&& st == ButtonState::DoubleTapped <==> (msg - 0x0201) % 3 == 2
        },
{
    if 0x0201 <= msg <= 0x0209 {
        crate::input::law_mouse_button_table(msg);
    }
}

/// No two messages are routed to the same handling, but for those left to
/// the platform's default procedure.
pub proof fn law_window_message_distinct(a: u32, b: u32)
    requires
        a != b,
    ensures
        spec_window_message(a) == spec_window_message(b) ==> spec_window_message(a)
            == WindowMessage::Default,
{
    if 0x0201 <= a <= 0x0209 && 0x0201 <= b <= 0x0209 {
        law_mouse_button_distinct(a, b);
    }
}

/// Decides what the window procedure does with message `msg`.
pub fn window_message(msg: u32) -> (r: WindowMessage)
    ensures
        r == spec_window_message(msg),
{
    if msg == WM_CREATE {
        WindowMessage::Create
    } else if msg == UM_WAKE {
        WindowMessage::Wake
    } else if msg == WM_CLOSE {
        WindowMessage::Close
    } else if msg == UM_DEFER_DESTROY {
        WindowMessage::DeferredDestroy
    } else if msg == WM_DESTROY {
        WindowMessage::Destroy
    } else if msg == UM_DEFER_SHOW {
        WindowMessage::DeferredShow
    } else if msg == WM_SHOWWINDOW {
        WindowMessage::Show
    } else if msg == WM_ENTERSIZEMOVE {
        WindowMessage::EnterSizeMove
    } else if msg == WM_EXITSIZEMOVE {
        WindowMessage::ExitSizeMove
    } else if msg == WM_DPICHANGED {
        WindowMessage::DpiChanged
    } else if msg == WM_GETMINMAXINFO {
        WindowMessage::GetMinMaxInfo
    } else if msg == WM_WINDOWPOSCHANGED {
        WindowMessage::PosChanged
    } else if msg == UM_DEFER_PAINT {
        WindowMessage::DeferredPaint
    } else if msg == WM_PAINT {
        WindowMessage::Paint
    } else if msg == WM_MOUSEMOVE {
        WindowMessage::MouseMove
    } else if msg == WM_MOUSELEAVE {
        WindowMessage::MouseLeave
    } else if msg == WM_MOUSEWHEEL || msg == WM_MOUSEHWHEEL {
        match wheel_axis(msg) {
            Some(axis) => WindowMessage::Wheel(axis),
            None => WindowMessage::Default,
        }
    } else if WM_LBUTTONDOWN <= msg && msg <= WM_MBUTTONDBLCLK {
        match mouse_button(msg) {
            Some((button, state)) => WindowMessage::MouseButton(button, state),
            None => WindowMessage::Default,
        }
    } else {
        WindowMessage::Default
    }
}

} // verus!
