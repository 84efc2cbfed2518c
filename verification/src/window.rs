//! Window attributes and the per-window state machine that turns platform
//! notifications into window events.

use vstd::prelude::*;
use vstd::string::StringSliceAdditionalSpecFns;

verus! {

/// The largest number of windows that may be open at once.
pub const SYS_WINDOW_COUNT_MAX: usize = 8;
/// The largest window coordinate.
pub const SYS_WINDOW_COORD_MAX: i16 = 8192;
/// The smallest window coordinate.
pub const SYS_WINDOW_COORD_MIN: i16 = 100;
/// The longest window title, in bytes of UTF-8.
pub const SYS_WINDOW_TITLE_LENGTH_MAX: usize = 255;
/// The value that lets the platform choose a window's position or size.
pub const CW_USEDEFAULT: i32 = -2147483648;
/// The DPI at which one window unit is one pixel.
pub const DEFAULT_DPI: u16 = 96;

/// An axis of a two-dimensional quantity.
#[derive(Clone, Copy, Debug, PartialEq, Eq, Structural)]
pub enum Axis {
    X,
    Y,
    XY,
}

/// The unit of lengths before DPI scaling is applied.
pub struct LogicalPixel;

/// The unit of lengths on the screen, after DPI scaling.
pub struct PhysicalPixel;

/// A window size in window units.
#[derive(Clone, Copy, Debug, Default, PartialEq, Eq, Structural)]
pub struct WindowExtent {
    pub width: i16,
    pub height: i16,
}

impl WindowExtent {
    /// A size from its width and height.
    pub fn new(width: i16, height: i16) -> (r: Self)
        ensures
            r == (WindowExtent { width, height }),
    {
        WindowExtent { width, height }
    }

    /// The largest size.
    pub fn max() -> (r: Self)
        ensures
            r == (WindowExtent { width: i16::MAX, height: i16::MAX }),
    {
        WindowExtent { width: i16::MAX, height: i16::MAX }
    }
}

/// A window position in window units.
#[derive(Clone, Copy, Debug, Default, PartialEq, Eq, Structural)]
pub struct WindowPoint {
    pub x: i16,
    pub y: i16,
}

/// Why a window is being painted.
#[derive(Debug, Clone, Copy, PartialEq, Eq, Structural)]
pub enum PaintReason {
    /// The application asked for a repaint.
    Requested,
    /// The window is animating.
    Animating,
    /// The platform asked for a repaint; it must be done synchronously.
    Commanded,
}

/// The rank of a paint reason: later reasons take precedence.
pub open spec fn reason_rank(r: PaintReason) -> int {
    match r {
        PaintReason::Requested => 0,
        PaintReason::Animating => 1,
        PaintReason::Commanded => 2,
    }
}

/// The reason of higher rank.
pub open spec fn spec_reason_max(a: PaintReason, b: PaintReason) -> PaintReason {
    if reason_rank(a) >= reason_rank(b) {
        a
    } else {
        b
    }
}

/// Paint reasons take precedence in the order they are declared:
/// `Requested`, then `Animating`, then `Commanded`. The higher of two
/// reasons is one of them, does not depend on their order, and is
/// `Commanded` when either is; `Requested` never wins over another reason.
pub proof fn law_reason_precedence(a: PaintReason, b: PaintReason)
    ensures
        spec_reason_max(a, b) == a || spec_reason_max(a, b) == b,
        spec_reason_max(a, b) == spec_reason_max(b, a),
        a == PaintReason::Commanded || b == PaintReason::Commanded ==> spec_reason_max(a, b)
            == PaintReason::Commanded,
        spec_reason_max(a, PaintReason::Requested) == a,
        spec_reason_max(PaintReason::Animating, PaintReason::Requested) == PaintReason::Animating,
{
}

fn reason_max(a: PaintReason, b: PaintReason) -> (r: PaintReason)
    ensures
        r == spec_reason_max(a, b),
{
    let ra: u8 = match a {
        PaintReason::Requested => 0,
        PaintReason::Animating => 1,
        PaintReason::Commanded => 2,
    };
    let rb: u8 = match b {
        PaintReason::Requested => 0,
        PaintReason::Animating => 1,
        PaintReason::Commanded => 2,
    };
    if ra >= rb {
        a
    } else {
        b
    }
}

/// Whether bit `k` of `bits` is one.
pub open spec fn flag_bit(bits: u8, k: u8) -> bool {
    (bits >> k) & 1u8 == 1u8
}

proof fn lemma_set_flag(bits: u8, k: u8, value: bool, j: u8)
    requires
        k < 8,
        j < 8,
    ensures
        flag_bit(
            if value {
                bits | (1u8 << k)
            } else {
                bits & !(1u8 << k)
            },
            j,
        ) == (if j == k {
            value
        } else {
            flag_bit(bits, j)
        }),
{
    if value {
        assert(((bits | (1u8 << k)) >> j) & 1u8 == 1u8 <==> (j == k || (bits >> j) & 1u8 == 1u8))
            by (bit_vector)
            requires
                k < 8u8,
                j < 8u8,
        ;
    } else {
        assert(((bits & !(1u8 << k)) >> j) & 1u8 == 1u8 <==> (j != k && (bits >> j) & 1u8
            == 1u8)) by (bit_vector)
            requires
                k < 8u8,
                j < 8u8,
        ;
    }
}

/// The window is visible.
pub const IS_VISIBLE: u8 = 0;
/// The window can be resized by the user.
pub const IS_RESIZABLE: u8 = 1;
/// The window has keyboard focus.
pub const HAS_FOCUS: u8 = 2;
/// The pointer is over the window.
pub const HAS_POINTER: u8 = 3;
/// The window has been resized since the resize loop began.
pub const IS_RESIZING: u8 = 4;
/// The window is in the platform's move-and-resize loop. Kept per window, so
/// that another window's resize does not begin or end this one's.
pub const IN_DRAG_RESIZE: u8 = 5;

/// A set of window flags, each named by its bit.
#[derive(Debug, Clone, Copy, PartialEq, Eq, Structural)]
pub struct WindowFlags {
    bits: u8,
}

impl WindowFlags {
    /// Whether flag `k` is set.
    pub closed spec fn has(&self, k: u8) -> bool {
        flag_bit(self.bits, k)
    }

    /// No flag set.
    pub fn empty() -> (r: Self)
        ensures
            forall|k: u8| k < 8 ==> !#[trigger] r.has(k),
    {
        proof {
            assert forall|k: u8| k < 8 implies !#[trigger] flag_bit(0u8, k) by {
                assert((0u8 >> k) & 1u8 == 0u8) by (bit_vector);
            }
        }
        WindowFlags { bits: 0 }
    }

    /// Returns whether flag `k` is set.
    pub fn contains(&self, k: u8) -> (r: bool)
        requires
            k < 8,
        ensures
            r == self.has(k),
    {
        (self.bits >> k) & 1 == 1
    }

    /// Sets flag `k` to `value`, leaving the others as they were.
    pub fn set(&mut self, k: u8, value: bool)
        requires
            k < 8,
        ensures
            forall|j: u8| j < 8 ==> #[trigger] final(self).has(j) == (if j == k {
                value
            } else {
                old(self).has(j)
            }),
    {
        let ghost before = self.bits;
        if value {
            self.bits = self.bits | (1u8 << k);
        } else {
            self.bits = self.bits & !(1u8 << k);
        }
        proof {
            assert forall|j: u8| j < 8 implies #[trigger] flag_bit(self.bits, j) == (if j == k {
                value
            } else {
                flag_bit(before, j)
            }) by {
                lemma_set_flag(before, k, value, j);
            }
        }
    }
}

/// An event that a window's state machine reports to the application.
#[derive(Debug, Clone, Copy, PartialEq, Eq, Structural)]
pub enum WindowEvent {
    /// The platform's resize loop made the window start (true) or stop
    /// (false) resizing.
    DragResize(bool),
    /// The window's size changed.
    Resize(WindowExtent),
    /// The window's DPI changed to the given value; its size is now the one
    /// given.
    DpiChange(u16, WindowExtent),
    /// The window was shown.
    Shown,
    /// The window was hidden.
    Hidden,
    /// The window moved.
    Move(WindowPoint),
    /// The window must be repainted.
    Repaint(PaintReason),
    /// The pointer entered the window.
    PointerEntered(WindowPoint),
    /// The pointer moved over the window.
    PointerMoved(WindowPoint),
    /// The pointer left the window.
    PointerLeft,
}

/// What is known of a window between platform notifications.
pub struct WindowState {
    pub title: String,
    pub size: WindowExtent,
    pub min_size: WindowExtent,
    pub max_size: WindowExtent,
    pub position: WindowPoint,
    pub dpi: u16,
    pub flags: WindowFlags,
    pub paint_reason: Option<PaintReason>,
}

/// Whether every flag but `k` is the same in `a` and `b`.
pub open spec fn others_same(a: WindowFlags, b: WindowFlags, k: u8) -> bool {
    forall|j: u8| j < 8 && j != k ==> #[trigger] a.has(j) == b.has(j)
}

/// Whether two states differ at most in their flags and paint reason.
pub open spec fn same_shape(a: &WindowState, b: &WindowState) -> bool {
    &&& a.title == b.title
    &&& a.size == b.size
    &&& a.min_size == b.min_size
    &&& a.max_size == b.max_size
    &&& a.position == b.position
    &&& a.dpi == b.dpi
}

impl WindowState {
    /// The state of a window as created.
    pub fn new(
        title: String,
        size: WindowExtent,
        position: WindowPoint,
        min_size: WindowExtent,
        max_size: WindowExtent,
        dpi: u32,
        is_visible: bool,
        is_resizable: bool,
    ) -> (r: Self)
        requires
            0 < dpi <= u16::MAX,
        ensures
            r.title == title,
            r.size == size,
            r.position == position,
            r.min_size == min_size,
            r.max_size == max_size,
            r.dpi == dpi,
            r.paint_reason is None,
            forall|k: u8| k < 8 ==> #[trigger] r.flags.has(k) == ((k == IS_VISIBLE && is_visible)
                || (k == IS_RESIZABLE && is_resizable)),
    {
        let mut flags = WindowFlags::empty();
        if is_visible {
            flags.set(IS_VISIBLE, true);
        }
        if is_resizable {
            flags.set(IS_RESIZABLE, true);
        }
        WindowState {
            title,
            size,
            min_size,
            max_size,
            position,
            dpi: dpi as u16,
            flags,
            paint_reason: None,
        }
    }

    /// The window was shown or hidden.
    pub fn show(&mut self, is_visible: bool) -> (r: WindowEvent)
        ensures
            same_shape(final(self), old(self)),
            final(self).paint_reason == old(self).paint_reason,
            final(self).flags.has(IS_VISIBLE) == is_visible,
            others_same(final(self).flags, old(self).flags, IS_VISIBLE),
            r == (if is_visible {
                WindowEvent::Shown
            } else {
                WindowEvent::Hidden
            }),
    {
        self.flags.set(IS_VISIBLE, is_visible);
        if is_visible {
            WindowEvent::Shown
        } else {
            WindowEvent::Hidden
        }
    }

    /// The platform's move-and-resize loop began. May happen more than once
    /// before it ends, so it is idempotent.
    pub fn modal_loop_enter(&mut self)
        ensures
            same_shape(final(self), old(self)),
            final(self).paint_reason == old(self).paint_reason,
            final(self).flags.has(IN_DRAG_RESIZE),
            others_same(final(self).flags, old(self).flags, IN_DRAG_RESIZE),
    {
        self.flags.set(IN_DRAG_RESIZE, true);
    }

    /// The platform's move-and-resize loop ended. Reports the end of a
    /// resize when the window was resized during the loop.
    pub fn modal_loop_leave(&mut self) -> (r: Option<WindowEvent>)
        ensures
            same_shape(final(self), old(self)),
            final(self).paint_reason == old(self).paint_reason,
            !final(self).flags.has(IN_DRAG_RESIZE),
            !final(self).flags.has(IS_RESIZING),
            forall|j: u8|
                j < 8 && j != IN_DRAG_RESIZE && j != IS_RESIZING ==> #[trigger] final(self).flags.has(j)
                    == old(self).flags.has(j),
            r == (if old(self).flags.has(IS_RESIZING) {
                Some(WindowEvent::DragResize(false))
            } else {
                None
            }),
    {
        self.flags.set(IN_DRAG_RESIZE, false);
        let ended = self.flags.contains(IS_RESIZING);
        self.flags.set(IS_RESIZING, false);
        if ended {
            Some(WindowEvent::DragResize(false))
        } else {
            None
        }
    }

    /// The window's DPI changed; `size` is the size that the platform
    /// suggests for it.
    pub fn dpi_changed(&mut self, dpi: u16, size: WindowExtent) -> (r: WindowEvent)
        ensures
            final(self).dpi == dpi,
            final(self).size == size,
            final(self).paint_reason == Some(PaintReason::Commanded),
            final(self).flags == old(self).flags,
            final(self).title == old(self).title,
            final(self).min_size == old(self).min_size,
            final(self).max_size == old(self).max_size,
            final(self).position == old(self).position,
            r == WindowEvent::DpiChange(dpi, size),
    {
        self.dpi = dpi;
        self.size = size;
        self.paint_reason = Some(PaintReason::Commanded);
        WindowEvent::DpiChange(dpi, size)
    }

    /// The window's position or size changed to the given rectangle.
    /// Reports the start of a drag resize, the resize and the move, in that
    /// order, as far as they happened.
    pub fn pos_changed(&mut self, x: i32, y: i32, cx: i32, cy: i32) -> (r: Vec<WindowEvent>)
        requires
            i16::MIN <= x <= i16::MAX,
            i16::MIN <= y <= i16::MAX,
            i16::MIN <= cx <= i16::MAX,
            i16::MIN <= cy <= i16::MAX,
        ensures
            ({
                let size = WindowExtent { width: cx as i16, height: cy as i16 };
                let pos = WindowPoint { x: x as i16, y: y as i16 };
                let resized = size != old(self).size;
                let moved = pos != old(self).position;
                &&& final(self).size == size
                &&& final(self).position == pos
                &&& final(self).paint_reason == (if resized {
                    Some(PaintReason::Commanded)
                } else {
                    old(self).paint_reason
                })
                &&& r@ == (if resized && old(self).flags.has(IN_DRAG_RESIZE) {
                    seq![WindowEvent::DragResize(true)]
                } else {
                    Seq::empty()
                }) + (if resized {
                    seq![WindowEvent::Resize(size)]
                } else {
                    Seq::empty()
                }) + (if moved {
                    seq![WindowEvent::Move(pos)]
                } else {
                    Seq::empty()
                })
            }),
            final(self).flags.has(IS_RESIZING),
            others_same(final(self).flags, old(self).flags, IS_RESIZING),
            final(self).title == old(self).title,
            final(self).min_size == old(self).min_size,
            final(self).max_size == old(self).max_size,
            final(self).dpi == old(self).dpi,
    {
        let x = x as i16;
        let y = y as i16;
        let width = cx as i16;
        let height = cy as i16;
        let resized = width != self.size.width || height != self.size.height;
        let is_start = resized && self.flags.contains(IN_DRAG_RESIZE);
        self.size = WindowExtent::new(width, height);
        self.flags.set(IS_RESIZING, true);
        if resized {
            self.paint_reason = Some(PaintReason::Commanded);
        }
        let moved = x != self.position.x || y != self.position.y;
        self.position = WindowPoint { x, y };
        let mut events: Vec<WindowEvent> = Vec::new();
        if resized {
            if is_start {
                events.push(WindowEvent::DragResize(true));
            }
            events.push(WindowEvent::Resize(self.size));
        }
        if moved {
            events.push(WindowEvent::Move(self.position));
        }
        proof {
            let size = WindowExtent { width: cx as i16, height: cy as i16 };
            let pos = WindowPoint { x: x as i16, y: y as i16 };
            let a: Seq<WindowEvent> = if resized && old(self).flags.has(IN_DRAG_RESIZE) {
                seq![WindowEvent::DragResize(true)]
            } else {
                Seq::empty()
            };
            let b: Seq<WindowEvent> = if resized {
                seq![WindowEvent::Resize(size)]
            } else {
                Seq::empty()
            };
            let c: Seq<WindowEvent> = if moved {
                seq![WindowEvent::Move(pos)]
            } else {
                Seq::empty()
            };
            assert(events@ =~= a + b + c);
        }
        events
    }

    /// The application asked for a repaint; an earlier reason of higher
    /// rank is kept.
    pub fn paint_defer(&mut self)
        ensures
            same_shape(final(self), old(self)),
            final(self).flags == old(self).flags,
            final(self).paint_reason == Some(
                match old(self).paint_reason {
                    Some(reason) => spec_reason_max(reason, PaintReason::Requested),
                    None => PaintReason::Requested,
                },
            ),
            old(self).paint_reason matches Some(reason) ==> final(self).paint_reason == Some(
                reason,
            ),
    {
        self.paint_reason = match self.paint_reason {
            Some(reason) => Some(reason_max(reason, PaintReason::Requested)),
            None => Some(PaintReason::Requested),
        };
    }

    /// The platform paints the window: reports the pending reason, or
    /// `Commanded` when none is pending, and clears it.
    pub fn paint(&mut self) -> (r: WindowEvent)
        ensures
            same_shape(final(self), old(self)),
            final(self).flags == old(self).flags,
            final(self).paint_reason is None,
            r == WindowEvent::Repaint(
                match old(self).paint_reason {
                    Some(reason) => reason,
                    None => PaintReason::Commanded,
                },
            ),
    {
        let reason = match self.paint_reason.take() {
            Some(reason) => reason,
            None => PaintReason::Commanded,
        };
        WindowEvent::Repaint(reason)
    }

    /// The pointer moved over the window. Reports that it entered first when
    /// it was not over the window before.
    pub fn mouse_move(&mut self, position: WindowPoint) -> (r: Vec<WindowEvent>)
        ensures
            same_shape(final(self), old(self)),
            final(self).paint_reason == old(self).paint_reason,
            final(self).flags.has(HAS_POINTER),
            others_same(final(self).flags, old(self).flags, HAS_POINTER),
            r@ == (if old(self).flags.has(HAS_POINTER) {
                seq![WindowEvent::PointerMoved(position)]
            } else {
                seq![WindowEvent::PointerEntered(position), WindowEvent::PointerMoved(position)]
            }),
    {
        let has_pointer = self.flags.contains(HAS_POINTER);
        self.flags.set(HAS_POINTER, true);
        let mut events: Vec<WindowEvent> = Vec::new();
        if !has_pointer {
            events.push(WindowEvent::PointerEntered(position));
        }
        events.push(WindowEvent::PointerMoved(position));
        proof {
            if has_pointer {
                assert(events@ =~= seq![WindowEvent::PointerMoved(position)]);
            } else {
                assert(events@ =~= seq![
                    WindowEvent::PointerEntered(position),
                    WindowEvent::PointerMoved(position),
                ]);
            }
        }
        events
    }

    /// The pointer left the window.
    pub fn mouse_leave(&mut self) -> (r: WindowEvent)
        ensures
            same_shape(final(self), old(self)),
            final(self).paint_reason == old(self).paint_reason,
            !final(self).flags.has(HAS_POINTER),
            others_same(final(self).flags, old(self).flags, HAS_POINTER),
            r == WindowEvent::PointerLeft,
    {
        self.flags.set(HAS_POINTER, false);
        WindowEvent::PointerLeft
    }

    /// Whether the window is visible.
    pub fn is_visible(&self) -> (r: bool)
        ensures
            r == self.flags.has(IS_VISIBLE),
    {
        self.flags.contains(IS_VISIBLE)
    }

    /// Whether the window can be resized by the user.
    pub fn is_resizable(&self) -> (r: bool)
        ensures
            r == self.flags.has(IS_RESIZABLE),
    {
        self.flags.contains(IS_RESIZABLE)
    }

    /// Whether the window has keyboard focus.
    pub fn has_focus(&self) -> (r: bool)
        ensures
            r == self.flags.has(HAS_FOCUS),
    {
        self.flags.contains(HAS_FOCUS)
    }

    /// Whether the pointer is over the window.
    pub fn has_pointer(&self) -> (r: bool)
        ensures
            r == self.flags.has(HAS_POINTER),
    {
        self.flags.contains(HAS_POINTER)
    }

    /// The tracking limits of the window: its own minimum and maximum sizes,
    /// widened to the platform's minimum (`sys_min_x`, `sys_min_y`) and
    /// narrowed to the platform's maximum (`sys_max_x`, `sys_max_y`).
    pub fn min_max_info(&self, sys_min_x: i32, sys_min_y: i32, sys_max_x: i32, sys_max_y: i32) -> (r: (
        i32,
        i32,
        i32,
        i32,
    ))
        ensures
            r.0 == vstd::math::max(self.min_size.width as int, sys_min_x as int),
            r.1 == vstd::math::max(self.min_size.height as int, sys_min_y as int),
            r.2 == vstd::math::min(self.max_size.width as int, sys_max_x as int),
            r.3 == vstd::math::min(self.max_size.height as int, sys_max_y as int),
    {
        let min_w = self.min_size.width as i32;
        let min_h = self.min_size.height as i32;
        let max_w = self.max_size.width as i32;
        let max_h = self.max_size.height as i32;
        let min_x = if min_w >= sys_min_x {
            min_w
        } else {
            sys_min_x
        };
        let min_y = if min_h >= sys_min_y {
            min_h
        } else {
            sys_min_y
        };
        let max_x = if max_w <= sys_max_x {
            max_w
        } else {
            sys_max_x
        };
        let max_y = if max_h <= sys_max_y {
            max_h
        } else {
            sys_max_y
        };
        (min_x, min_y, max_x, max_y)
    }
}


/// Why a window could not be created.
#[derive(Debug, Clone, Copy, PartialEq, Eq, Structural)]
pub enum WindowError {
    /// Windows cannot be created when the event loop is quitting.
    ExitingEventLoop,
    /// The maximum number of windows is open.
    TooManyWindows,
    /// The title is longer than the platform accepts.
    TitleTooLong,
}

/// The number of bytes of a string's UTF-8 encoding, as `str::len` gives
/// it.
pub open spec fn utf8_len(s: Seq<char>) -> usize {
    vstd::utf8::encode_utf8(s).len() as usize
}

/// How a window should be created.
pub struct WindowAttributes {
    pub title: String,
    pub size: Option<WindowExtent>,
    pub min_size: Option<WindowExtent>,
    pub max_size: Option<WindowExtent>,
    pub position: Option<WindowPoint>,
    pub is_visible: bool,
    pub is_resizable: bool,
}

/// The values that window creation hands to the platform.
#[derive(Debug, Clone, Copy, PartialEq, Eq, Structural)]
pub struct CreateParams {
    pub x: i32,
    pub y: i32,
    pub width: i32,
    pub height: i32,
    pub min_size: WindowExtent,
    pub max_size: WindowExtent,
    pub is_visible: bool,
    pub is_resizable: bool,
}

impl WindowAttributes {
    /// Attributes of a visible, resizable window with an empty title, whose
    /// size and position the platform chooses.
    pub fn default() -> (r: Self)
        ensures
            r.title@ == Seq::<char>::empty(),
            r.size is None,
            r.min_size is None,
            r.max_size is None,
            r.position is None,
            r.is_visible,
            r.is_resizable,
    {
        WindowAttributes {
            title: String::new(),
            size: None,
            min_size: None,
            max_size: None,
            position: None,
            is_visible: true,
            is_resizable: true,
        }
    }

    /// The same attributes with another title.
    pub fn with_title(self, title: String) -> (r: Self)
        ensures
            r == (WindowAttributes { title, ..self }),
    {
        WindowAttributes { title, ..self }
    }

    /// The same attributes with a size.
    pub fn with_size(self, size: WindowExtent) -> (r: Self)
        ensures
            r == (WindowAttributes { size: Some(size), ..self }),
    {
        WindowAttributes { size: Some(size), ..self }
    }

    /// The same attributes with a minimum size.
    pub fn with_min_size(self, min_size: WindowExtent) -> (r: Self)
        ensures
            r == (WindowAttributes { min_size: Some(min_size), ..self }),
    {
        WindowAttributes { min_size: Some(min_size), ..self }
    }

    /// The same attributes with a maximum size.
    pub fn with_max_size(self, max_size: WindowExtent) -> (r: Self)
        ensures
            r == (WindowAttributes { max_size: Some(max_size), ..self }),
    {
        WindowAttributes { max_size: Some(max_size), ..self }
    }

    /// The same attributes with a position.
    pub fn with_position(self, position: WindowPoint) -> (r: Self)
        ensures
            r == (WindowAttributes { position: Some(position), ..self }),
    {
        WindowAttributes { position: Some(position), ..self }
    }

    /// The same attributes with another visibility.
    pub fn with_visibility(self, is_visible: bool) -> (r: Self)
        ensures
            r == (WindowAttributes { is_visible, ..self }),
    {
        WindowAttributes { is_visible, ..self }
    }

    /// The same attributes with another resizability.
    pub fn with_resizability(self, is_resizable: bool) -> (r: Self)
        ensures
            r == (WindowAttributes { is_resizable, ..self }),
    {
        WindowAttributes { is_resizable, ..self }
    }

    /// What window creation hands to the platform: the position and size,
    /// or `CW_USEDEFAULT` where none is given; the minimum size, or zero;
    /// the maximum size, or the largest. Fails when the title is longer
    /// than `max_title_len` bytes.
    pub fn create_params(&self, max_title_len: usize) -> (r: Result<CreateParams, WindowError>)
        ensures
            utf8_len(self.title@) > max_title_len <==> r == Err::<CreateParams, WindowError>(
                WindowError::TitleTooLong,
            ),
            utf8_len(self.title@) <= max_title_len <==> r is Ok,
            r matches Ok(p) ==> {
                &&& p.x == (match self.position {
                    Some(pt) => pt.x as i32,
                    None => CW_USEDEFAULT,
                })
                &&& p.y == (match self.position {
                    Some(pt) => pt.y as i32,
                    None => CW_USEDEFAULT,
                })
                &&& p.width == (match self.size {
                    Some(sz) => sz.width as i32,
                    None => CW_USEDEFAULT,
                })
                &&& p.height == (match self.size {
                    Some(sz) => sz.height as i32,
                    None => CW_USEDEFAULT,
                })
                &&& p.min_size == (match self.min_size {
                    Some(m) => m,
                    None => WindowExtent { width: 0, height: 0 },
                })
                &&& p.max_size == (match self.max_size {
                    Some(m) => m,
                    None => WindowExtent { width: i16::MAX, height: i16::MAX },
                })
                &&& p.is_visible == self.is_visible
                &&& p.is_resizable == self.is_resizable
            },
    {
        let t = self.title.as_str();
        let len = t.len();
        proof {
            assert(t@ == self.title@);
            assert(len == t.spec_bytes().len() as usize);
            assert(t.spec_bytes() == vstd::utf8::encode_utf8(t@));
        }
        if len > max_title_len {
            return Err(WindowError::TitleTooLong);
        }
        let min_size = match self.min_size {
            Some(m) => m,
            None => WindowExtent { width: 0, height: 0 },
        };
        let max_size = match self.max_size {
            Some(m) => m,
            None => WindowExtent::max(),
        };
        let (width, height) = match self.size {
            Some(s) => (s.width as i32, s.height as i32),
            None => (CW_USEDEFAULT, CW_USEDEFAULT),
        };
        let (x, y) = match self.position {
            Some(p) => (p.x as i32, p.y as i32),
            None => (CW_USEDEFAULT, CW_USEDEFAULT),
        };
        Ok(
            CreateParams {
                x,
                y,
                width,
                height,
                min_size,
                max_size,
                is_visible: self.is_visible,
                is_resizable: self.is_resizable,
            },
        )
    }
}

} // verus!
