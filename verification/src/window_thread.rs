//! The decisions of a window's event thread: what each event does to the
//! thread's state, and what the thread must then do with the window's
//! handler, its swapchain and the state it shares with the window.
//!
//! Sizes, scales and rates in floating point stay with the caller, which
//! performs the actions in the order given.

use vstd::prelude::*;

verus! {

/// Whether the thread waits for events, animates, or has ended.
#[derive(Clone, Copy, Debug, PartialEq, Eq, Structural)]
pub enum ThreadMode {
    /// Waits for events and repaints when asked to.
    Idle,
    /// Repaints every `vblanks_per_frame` vertical blanks; counts the blanks
    /// since the last frame was presented.
    Animating { vblanks_since_last_present: u32 },
    /// The window is destroyed.
    Closed,
}

/// The state of a window's event thread.
#[derive(Clone, Copy, Debug, PartialEq, Eq, Structural)]
pub struct ThreadState {
    pub mode: ThreadMode,
    pub vblanks_per_frame: u32,
    pub is_drag_resizing: bool,
    pub need_repaint: bool,
    pub repaint_now: bool,
}

/// An event that reaches a window's event thread.
#[derive(Clone, Copy, Debug, PartialEq, Eq, Structural)]
pub enum ThreadEvent {
    /// The window was created; comes once, before the thread's loop.
    Create,
    CloseRequest,
    Destroy,
    Visible(bool),
    BeginResize,
    /// The client area now measures `width` by `height`.
    Resize { width: u32, height: u32 },
    EndResize,
    /// A new animation frequency: `Some` of the vertical blanks per frame
    /// that a positive frequency gives at the current refresh rate (at
    /// least one), or `None` for a frequency that is not positive.
    SetAnimationFrequency(Option<u32>),
    Repaint,
    PointerMove,
    PointerLeave,
    MouseButton,
    Scroll,
}

/// What the thread must do after an event, in order.
#[derive(Clone, Copy, Debug, PartialEq, Eq, Structural)]
pub enum ThreadAction {
    /// Tell the handler that the window was asked to close.
    CloseRequest,
    /// Tell the handler that the window is destroyed.
    Destroy,
    /// Tell the handler whether the window is visible.
    Visible(bool),
    /// Tell the handler that a drag resize began.
    BeginResize,
    /// Resize the swapchain, flexibly (with room to grow) during a drag
    /// resize, to exactly this size otherwise.
    ResizeSwapchain { width: u32, height: u32, flexible: bool },
    /// Store the size in the state shared with the window, and whether the
    /// window is visible at that size.
    StoreSize { width: u32, height: u32, is_visible: bool },
    /// Tell the handler the new size.
    Resize { width: u32, height: u32 },
    /// Resize the swapchain to exactly the size stored in the shared state.
    ResizeSwapchainToStoredSize,
    /// Tell the handler that the drag resize ended.
    EndResize,
    /// Pass the pointer's move on to the handler.
    PointerMove,
    /// Tell the handler that the pointer left.
    PointerLeave,
    /// Pass the mouse button on to the handler.
    MouseButton,
    /// Pass the scroll on to the handler.
    Scroll,
}

/// The state that an event leaves.
pub open spec fn next_state(s: ThreadState, event: ThreadEvent) -> ThreadState {
    match event {
        ThreadEvent::Destroy => ThreadState { mode: ThreadMode::Closed, ..s },
        ThreadEvent::BeginResize => ThreadState { is_drag_resizing: true, ..s },
        ThreadEvent::EndResize => ThreadState { is_drag_resizing: false, ..s },
        ThreadEvent::SetAnimationFrequency(Some(n)) => ThreadState {
            vblanks_per_frame: n,
            mode: ThreadMode::Animating { vblanks_since_last_present: n },
            ..s
        },
        ThreadEvent::SetAnimationFrequency(None) => ThreadState { mode: ThreadMode::Idle, ..s },
        ThreadEvent::Repaint => ThreadState { need_repaint: true, repaint_now: true, ..s },
        _ => s,
    }
}

/// What the thread must do after an event.
pub open spec fn actions(s: ThreadState, event: ThreadEvent) -> Seq<ThreadAction> {
    match event {
        ThreadEvent::CloseRequest => seq![ThreadAction::CloseRequest],
        ThreadEvent::Destroy => seq![ThreadAction::Destroy],
        ThreadEvent::Visible(v) => seq![ThreadAction::Visible(v)],
        ThreadEvent::BeginResize => seq![ThreadAction::BeginResize],
        ThreadEvent::Resize { width, height } => seq![
            ThreadAction::ResizeSwapchain { width, height, flexible: s.is_drag_resizing },
            ThreadAction::StoreSize { width, height, is_visible: width > 0 && height > 0 },
            ThreadAction::Resize { width, height },
        ],
        ThreadEvent::EndResize => seq![
            ThreadAction::ResizeSwapchainToStoredSize,
            ThreadAction::EndResize,
        ],
        ThreadEvent::PointerMove => seq![ThreadAction::PointerMove],
        ThreadEvent::PointerLeave => seq![ThreadAction::PointerLeave],
        ThreadEvent::MouseButton => seq![ThreadAction::MouseButton],
        ThreadEvent::Scroll => seq![ThreadAction::Scroll],
        _ => Seq::empty(),
    }
}

/// Every event that the window's handler must hear of reaches it, once:
/// input (pointer moves and leaves, buttons, scrolls), close requests,
/// destruction, visibility and the start and end of a resize each give
/// exactly the one matching action; a resize resizes the swapchain (to fit
/// loosely while the user drags), records the size (visible when neither
/// side is zero) and then tells the handler. Nothing else is done for them.
pub proof fn law_events_reach_handler(s: ThreadState, event: ThreadEvent)
    ensures
        event is PointerMove ==> actions(s, event) == seq![ThreadAction::PointerMove],
        event is PointerLeave ==> actions(s, event) == seq![ThreadAction::PointerLeave],
        event is MouseButton ==> actions(s, event) == seq![ThreadAction::MouseButton],
        event is Scroll ==> actions(s, event) == seq![ThreadAction::Scroll],
        event is CloseRequest ==> actions(s, event) == seq![ThreadAction::CloseRequest],
        event is Destroy ==> actions(s, event) == seq![ThreadAction::Destroy],
        event is BeginResize ==> actions(s, event) == seq![ThreadAction::BeginResize],
        event matches ThreadEvent::Visible(v) ==> actions(s, event) == seq![
            ThreadAction::Visible(v),
        ],
        event matches ThreadEvent::Resize { width, height } ==> actions(s, event) == seq![
            ThreadAction::ResizeSwapchain { width, height, flexible: s.is_drag_resizing },
            ThreadAction::StoreSize { width, height, is_visible: width != 0 && height != 0 },
            ThreadAction::Resize { width, height },
        ],
        event is EndResize ==> actions(s, event) == seq![
            ThreadAction::ResizeSwapchainToStoredSize,
            ThreadAction::EndResize,
        ],
        event is Create || event is SetAnimationFrequency || event is Repaint ==> actions(
            s,
            event,
        ).len() == 0,
{
}

/// What each event does to the thread's state: destruction closes it; a
/// drag resize sets the drag flag until it ends; a repaint request asks for
/// a repaint at once; an animation frequency of `n` blanks starts animating
/// with the first blank repainting, and none makes the thread idle. No
/// other event changes the state.
pub proof fn law_event_state(s: ThreadState, event: ThreadEvent)
    ensures
        event is Destroy ==> next_state(s, event).mode == ThreadMode::Closed,
        event is BeginResize ==> next_state(s, event).is_drag_resizing,
        event is EndResize ==> !next_state(s, event).is_drag_resizing,
        event is Repaint ==> next_state(s, event).need_repaint && next_state(s, event).repaint_now,
        event matches ThreadEvent::SetAnimationFrequency(Some(n)) ==> {
            &&& next_state(s, event).vblanks_per_frame == n
            &&& next_state(s, event).mode == ThreadMode::Animating {
                vblanks_since_last_present: n,
            }
        },
        event matches ThreadEvent::SetAnimationFrequency(None) ==> next_state(s, event).mode
            == ThreadMode::Idle,
        !(event is Destroy || event is BeginResize || event is EndResize || event is Repaint
            || event is SetAnimationFrequency) ==> next_state(s, event) == s,
        next_state(s, event).mode != s.mode ==> event is Destroy || event is SetAnimationFrequency,
        next_state(s, event).is_drag_resizing != s.is_drag_resizing ==> event is BeginResize
            || event is EndResize,
{
}

impl ThreadState {
    /// The state of a new window's thread: idle, nothing to repaint.
    pub fn new() -> (r: Self)
        ensures
            r == (ThreadState {
                mode: ThreadMode::Idle,
                vblanks_per_frame: 0,
                is_drag_resizing: false,
                need_repaint: false,
                repaint_now: false,
            }),
    {
        ThreadState {
            mode: ThreadMode::Idle,
            vblanks_per_frame: 0,
            is_drag_resizing: false,
            need_repaint: false,
            repaint_now: false,
        }
    }

    /// Handles an event: changes the state, and returns whether the thread
    /// goes on (it ends once the window is destroyed) and what it must do.
    /// The window is created once, before the thread handles events.
    pub fn on_event(&mut self, event: ThreadEvent) -> (r: (bool, Vec<ThreadAction>))
        requires
            !(event is Create),
            event matches ThreadEvent::SetAnimationFrequency(Some(n)) ==> n >= 1,
        ensures
            *final(self) == next_state(*old(self), event),
            r.0 == !(event is Destroy),
            r.1@ == actions(*old(self), event),
            event is PointerMove ==> r.1@ == seq![ThreadAction::PointerMove],
            event is PointerLeave ==> r.1@ == seq![ThreadAction::PointerLeave],
            event is MouseButton ==> r.1@ == seq![ThreadAction::MouseButton],
            event is Scroll ==> r.1@ == seq![ThreadAction::Scroll],
    {
        let mut out: Vec<ThreadAction> = Vec::new();
        let mut go_on = true;
        match event {
            ThreadEvent::Create => {},
            ThreadEvent::CloseRequest => out.push(ThreadAction::CloseRequest),
            ThreadEvent::Destroy => {
                out.push(ThreadAction::Destroy);
                self.mode = ThreadMode::Closed;
                go_on = false;
            },
            ThreadEvent::Visible(v) => out.push(ThreadAction::Visible(v)),
            ThreadEvent::BeginResize => {
                self.is_drag_resizing = true;
                out.push(ThreadAction::BeginResize);
            },
            ThreadEvent::Resize { width, height } => {
                out.push(
                    ThreadAction::ResizeSwapchain {
                        width,
                        height,
                        flexible: self.is_drag_resizing,
                    },
                );
                out.push(
                    ThreadAction::StoreSize { width, height, is_visible: width > 0 && height > 0 },
                );
                out.push(ThreadAction::Resize { width, height });
            },
            ThreadEvent::EndResize => {
                self.is_drag_resizing = false;
                out.push(ThreadAction::ResizeSwapchainToStoredSize);
                out.push(ThreadAction::EndResize);
            },
            ThreadEvent::SetAnimationFrequency(Some(n)) => {
                self.vblanks_per_frame = n;
                // The first vertical blank repaints.
                self.mode = ThreadMode::Animating { vblanks_since_last_present: n };
            },
            ThreadEvent::SetAnimationFrequency(None) => {
                self.mode = ThreadMode::Idle;
            },
            ThreadEvent::Repaint => {
                self.need_repaint = true;
                self.repaint_now = true;
            },
            ThreadEvent::PointerMove => out.push(ThreadAction::PointerMove),
            ThreadEvent::PointerLeave => out.push(ThreadAction::PointerLeave),
            ThreadEvent::MouseButton => out.push(ThreadAction::MouseButton),
            ThreadEvent::Scroll => out.push(ThreadAction::Scroll),
        }
        proof {
            assert(out@ =~= actions(*old(self), event));
        }
        (go_on, out)
    }

    /// A vertical blank passed while animating: counts it, and once a
    /// frame's worth of blanks has passed, starts counting again and asks
    /// for a repaint. Returns whether to repaint now.
    pub fn on_vblank(&mut self) -> (r: bool)
        requires
            old(self).mode matches ThreadMode::Animating { vblanks_since_last_present: c } && c
                < u32::MAX,
        ensures
            ({
                let c = old(self).mode->vblanks_since_last_present + 1;
                let frame = c >= old(self).vblanks_per_frame;
                &&& *final(self) == (ThreadState {
                    mode: ThreadMode::Animating {
                        vblanks_since_last_present: if frame {
                            0
                        } else {
                            c as u32
                        },
                    },
                    need_repaint: old(self).need_repaint || frame,
                    ..*old(self)
                })
                &&& r == final(self).need_repaint
            }),
    {
        match self.mode {
            ThreadMode::Animating { vblanks_since_last_present } => {
                let c = vblanks_since_last_present + 1;
                if c >= self.vblanks_per_frame {
                    self.mode = ThreadMode::Animating { vblanks_since_last_present: 0 };
                    self.need_repaint = true;
                } else {
                    self.mode = ThreadMode::Animating { vblanks_since_last_present: c };
                }
            },
            _ => {},
        }
        self.need_repaint
    }

    /// A frame was presented: nothing is left to repaint.
    pub fn repainted(&mut self)
        ensures
            *final(self) == (ThreadState { need_repaint: false, repaint_now: false, ..*old(self) }),
    {
        self.need_repaint = false;
        self.repaint_now = false;
    }
}

} // verus!
