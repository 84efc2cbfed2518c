//! Scheduling of vertical-blank notifications for client windows.
//!
//! Windows ask to be notified either at one specific frame, or at a rate no
//! lower than the one they request. The schedule keeps one entry per window,
//! ordered by window handle, and decides on every vertical blank which
//! windows are due. Reading the clock, computing intervals from refresh
//! rates and posting the notifications are left to the caller.

use vstd::prelude::*;

verus! {

/// The largest number of windows that the schedule can track.
pub const MAX_WINDOWS: usize = 8;

#[verifier::external_type_specification]
#[verifier::external_body]
#[verifier::reject_recursive_types(T)]
pub struct ExArrayVec<T, const CAP: usize>(arrayvec::ArrayVec<T, CAP>);

/// The items held by a schedule's list: window handle, kind (0 for a single
/// frame, 1 for a rate), target or next frame, interval, requested rate.
pub uninterp spec fn entries(v: arrayvec::ArrayVec<(isize, u8, u64, u16, u64), 8>) -> Seq<
    (isize, u8, u64, u16, u64),
>;

/// `ArrayVec::new`: an empty list.
#[verifier::external_body]
fn av_new() -> (r: arrayvec::ArrayVec<(isize, u8, u64, u16, u64), 8>)
    ensures
        entries(r) == Seq::<(isize, u8, u64, u16, u64)>::empty(),
{
    arrayvec::ArrayVec::new()
}

/// `ArrayVec::len`: the number of items.
#[verifier::external_body]
fn av_len(v: &arrayvec::ArrayVec<(isize, u8, u64, u16, u64), 8>) -> (r: usize)
    ensures
        r == entries(*v).len(),
        r <= 8,
{
    v.len()
}

/// Indexing through `ArrayVec`'s slice: the item at `index`.
#[verifier::external_body]
fn av_get(v: &arrayvec::ArrayVec<(isize, u8, u64, u16, u64), 8>, index: usize) -> (r: (
    isize,
    u8,
    u64,
    u16,
    u64,
))
    requires
        index < entries(*v).len(),
    ensures
        r == entries(*v)[index as int],
{
    v[index]
}

/// Assignment through `ArrayVec`'s mutable slice: replaces the item at
/// `index`.
#[verifier::external_body]
fn av_set(
    v: &mut arrayvec::ArrayVec<(isize, u8, u64, u16, u64), 8>,
    index: usize,
    item: (isize, u8, u64, u16, u64),
)
    requires
        index < entries(*old(v)).len(),
    ensures
        entries(*final(v)) == entries(*old(v)).update(index as int, item),
{
    v[index] = item;
}

/// `ArrayVec::insert`: shifts the items from `index` on one place up and
/// puts `item` at `index`.
#[verifier::external_body]
fn av_insert(
    v: &mut arrayvec::ArrayVec<(isize, u8, u64, u16, u64), 8>,
    index: usize,
    item: (isize, u8, u64, u16, u64),
)
    requires
        index <= entries(*old(v)).len(),
        entries(*old(v)).len() < 8,
    ensures
        entries(*final(v)) == entries(*old(v)).insert(index as int, item),
{
    v.insert(index, item);
}

/// `ArrayVec::remove`: takes out the item at `index`, shifting the later
/// items one place down.
#[verifier::external_body]
fn av_remove(v: &mut arrayvec::ArrayVec<(isize, u8, u64, u16, u64), 8>, index: usize) -> (r: (
    isize,
    u8,
    u64,
    u16,
    u64,
))
    requires
        index < entries(*old(v)).len(),
    ensures
        r == entries(*old(v))[index as int],
        entries(*final(v)) == entries(*old(v)).remove(index as int),
{
    v.remove(index)
}

/// The number of a vertical blank, counted from when the schedule started.
#[derive(Clone, Copy, Debug, Default, PartialEq, Eq, PartialOrd, Ord, Structural)]
pub struct FrameId(pub u64);

/// When a window wants to be notified.
#[derive(Clone, Copy, Debug, PartialEq, Eq, Structural)]
pub enum Mode {
    /// Once, at the given frame or as soon as possible after it.
    AtFrame(FrameId),
    /// Every `interval` frames. `requested` is the requested rate, kept
    /// as the bits of its `f64` so that the interval can be recomputed when
    /// the refresh rate changes; `next` is the next frame that is due.
    ForFps { interval: u16, requested: u64, next: FrameId },
}

/// A window and when it wants to be notified.
#[derive(Clone, Copy, Debug, PartialEq, Eq, Structural)]
pub struct Client {
    pub hwnd: isize,
    pub mode: Mode,
}

/// A change that a window asks of the schedule.
#[derive(Clone, Copy, Debug, PartialEq, Eq, Structural)]
pub enum VsyncRequest {
    /// Stop notifying the window.
    Idle(isize),
    /// Notify the window once, at the given frame.
    AtFrame(isize, FrameId),
    /// Notify the window at a rate: the requested rate as the bits of its
    /// `f64`, and the interval in frames that the current refresh rate gives
    /// for it.
    AtFrameRate(isize, u64, u16),
}

/// A notification that is due: the client's position in the schedule once
/// the frame is dispatched (none for a client notified once, which leaves
/// the schedule), its window, and for a rate the interval from which the
/// delivered rate is computed.
#[derive(Clone, Copy, Debug, PartialEq, Eq, Structural)]
pub struct Delivery {
    pub index: Option<usize>,
    pub hwnd: isize,
    pub interval: Option<u16>,
}

/// How a stored item reads as a client.
pub open spec fn decode(e: (isize, u8, u64, u16, u64)) -> Client {
    Client {
        hwnd: e.0,
        mode: if e.1 == 0 {
            Mode::AtFrame(FrameId(e.2))
        } else {
            Mode::ForFps { interval: e.3, requested: e.4, next: FrameId(e.2) }
        },
    }
}

fn encode(c: Client) -> (r: (isize, u8, u64, u16, u64))
    ensures
        decode(r) == c,
{
    match c.mode {
        Mode::AtFrame(f) => (c.hwnd, 0, f.0, 0, 0),
        Mode::ForFps { interval, requested, next } => (c.hwnd, 1, next.0, interval, requested),
    }
}

fn decode_exec(e: (isize, u8, u64, u16, u64)) -> (r: Client)
    ensures
        r == decode(e),
{
    if e.1 == 0 {
        Client { hwnd: e.0, mode: Mode::AtFrame(FrameId(e.2)) }
    } else {
        Client {
            hwnd: e.0,
            mode: Mode::ForFps { interval: e.3, requested: e.4, next: FrameId(e.2) },
        }
    }
}

/// Whether the clients are in strictly ascending order of window handle.
pub open spec fn sorted(s: Seq<Client>) -> bool {
    forall|a: int, b: int| 0 <= a < b < s.len() ==> #[trigger] s[a].hwnd < #[trigger] s[b].hwnd
}

/// The number of clients before the first one whose window handle is not
/// below `hwnd`.
pub open spec fn lower_bound(s: Seq<Client>, hwnd: isize) -> nat
    decreases s.len(),
{
    if s.len() == 0 {
        0
    } else if s[0].hwnd < hwnd {
        1 + lower_bound(s.drop_first(), hwnd)
    } else {
        0
    }
}

/// In sorted clients, `lower_bound` splits the clients below `hwnd` from the
/// others.
pub proof fn lemma_lower_bound(s: Seq<Client>, hwnd: isize)
    requires
        sorted(s),
    ensures
        lower_bound(s, hwnd) <= s.len(),
        forall|j: int| 0 <= j < lower_bound(s, hwnd) ==> #[trigger] s[j].hwnd < hwnd,
        forall|j: int| lower_bound(s, hwnd) <= j < s.len() ==> #[trigger] s[j].hwnd >= hwnd,
    decreases s.len(),
{
    if s.len() > 0 {
        let t = s.drop_first();
        assert(sorted(t)) by {
            assert forall|a: int, b: int| 0 <= a < b < t.len() implies #[trigger] t[a].hwnd
                < #[trigger] t[b].hwnd by {
                assert(s[a + 1].hwnd < s[b + 1].hwnd);
            }
        }
        lemma_lower_bound(t, hwnd);
        if s[0].hwnd < hwnd {
            assert forall|j: int| 0 <= j < lower_bound(s, hwnd) implies #[trigger] s[j].hwnd
                < hwnd by {
                if j > 0 {
                    assert(s[j] == t[j - 1]);
                }
            }
            assert forall|j: int| lower_bound(s, hwnd) <= j < s.len() implies #[trigger] s[j].hwnd
                >= hwnd by {
                assert(s[j] == t[j - 1]);
            }
        } else {
            assert forall|j: int| 0 <= j < s.len() implies #[trigger] s[j].hwnd >= hwnd by {
                if j > 0 {
                    assert(s[0].hwnd < s[j].hwnd);
                }
            }
        }
    }
}

/// Whether the client of window `hwnd` is in the clients.
pub open spec fn has_client(s: Seq<Client>, hwnd: isize) -> bool {
    lower_bound(s, hwnd) < s.len() && s[lower_bound(s, hwnd) as int].hwnd == hwnd
}

/// What a request makes of the clients.
pub open spec fn spec_apply(s: Seq<Client>, request: VsyncRequest) -> Seq<Client> {
    match request {
        VsyncRequest::Idle(hwnd) => {
            if has_client(s, hwnd) {
                s.remove(lower_bound(s, hwnd) as int)
            } else {
                s
            }
        },
        VsyncRequest::AtFrame(hwnd, frame) => {
            let c = Client { hwnd, mode: Mode::AtFrame(frame) };
            if has_client(s, hwnd) {
                s.update(lower_bound(s, hwnd) as int, c)
            } else {
                s.insert(lower_bound(s, hwnd) as int, c)
            }
        },
        VsyncRequest::AtFrameRate(hwnd, requested, interval) => {
            let c = Client {
                hwnd,
                mode: Mode::ForFps { interval, requested, next: FrameId(0) },
            };
            if has_client(s, hwnd) {
                s.update(lower_bound(s, hwnd) as int, c)
            } else {
                s.insert(lower_bound(s, hwnd) as int, c)
            }
        },
    }
}

/// The window that a request is about.
pub open spec fn request_hwnd(request: VsyncRequest) -> isize {
    match request {
        VsyncRequest::Idle(hwnd) => hwnd,
        VsyncRequest::AtFrame(hwnd, _) => hwnd,
        VsyncRequest::AtFrameRate(hwnd, _, _) => hwnd,
    }
}

/// Frames to skip so that a client running late catches up with `current`:
/// `ceil((current - next) / interval)` intervals, none when the client is
/// not late or its interval is zero.
pub open spec fn catch_up(next: u64, current: u64, interval: u16) -> int {
    if current <= next || interval == 0 {
        0
    } else {
        ((current - next) + interval - 1) / (interval as int)
    }
}

/// Whether a client is due at frame `current`, and what its mode becomes.
pub open spec fn spec_advance(mode: Mode, current: u64) -> (bool, Mode) {
    match mode {
        Mode::AtFrame(target) => (target.0 <= current, mode),
        Mode::ForFps { interval, requested, next } => {
            let due = current >= next.0;
            let skipped = next.0 + interval * catch_up(next.0, current, interval);
            let n = if due {
                skipped + interval
            } else {
                skipped
            };
            (due, Mode::ForFps { interval, requested, next: FrameId(n as u64) })
        },
    }
}

/// Whether a client stays in the schedule after frame `current`: every
/// client stays but one waiting for a single frame that is due, which is
/// notified once and leaves.
pub open spec fn stays(mode: Mode, current: u64) -> bool {
    !(mode is AtFrame && spec_advance(mode, current).0)
}

/// The clients once frame `current` is dispatched: those that stay, each
/// moved on to its next due frame, in their order.
pub open spec fn advanced(s: Seq<Client>, current: u64) -> Seq<Client>
    decreases s.len(),
{
    if s.len() == 0 {
        Seq::empty()
    } else {
        let prev = advanced(s.drop_last(), current);
        let c = s.last();
        if stays(c.mode, current) {
            prev.push(Client { hwnd: c.hwnd, mode: spec_advance(c.mode, current).1 })
        } else {
            prev
        }
    }
}

/// The interval that a notification of a client carries: its interval when
/// it is notified at a rate.
pub open spec fn interval_of(mode: Mode) -> Option<u16> {
    match mode {
        Mode::AtFrame(_) => None,
        Mode::ForFps { interval, .. } => Some(interval),
    }
}

/// The notifications due at frame `current`, in the order of the clients.
pub open spec fn due_deliveries(s: Seq<Client>, current: u64) -> Seq<Delivery>
    decreases s.len(),
{
    if s.len() == 0 {
        Seq::empty()
    } else {
        let prev = due_deliveries(s.drop_last(), current);
        let c = s.last();
        if spec_advance(c.mode, current).0 {
            prev.push(
                Delivery {
                    index: if stays(c.mode, current) {
                        Some(advanced(s.drop_last(), current).len() as usize)
                    } else {
                        None
                    },
                    hwnd: c.hwnd,
                    interval: interval_of(c.mode),
                },
            )
        } else {
            prev
        }
    }
}

proof fn lemma_advanced_from(s: Seq<Client>, current: u64)
    ensures
        advanced(s, current).len() <= s.len(),
        forall|k: int|
            0 <= k < advanced(s, current).len() ==> exists|j: int|
                0 <= j < s.len() && stays(s[j].mode, current) && #[trigger] advanced(s, current)[k]
                    == (Client { hwnd: s[j].hwnd, mode: spec_advance(s[j].mode, current).1 }),
    decreases s.len(),
{
    if s.len() > 0 {
        let t = s.drop_last();
        lemma_advanced_from(t, current);
        let a = advanced(s, current);
        let b = advanced(t, current);
        assert forall|k: int| 0 <= k < a.len() implies exists|j: int|
            0 <= j < s.len() && stays(s[j].mode, current) && #[trigger] a[k] == (Client {
                hwnd: s[j].hwnd,
                mode: spec_advance(s[j].mode, current).1,
            }) by {
            if k < b.len() {
                assert(a[k] == b[k]);
                let j = choose|j: int|
                    0 <= j < t.len() && stays(t[j].mode, current) && #[trigger] b[k] == (Client {
                        hwnd: t[j].hwnd,
                        mode: spec_advance(t[j].mode, current).1,
                    });
                assert(t[j] == s[j]);
            } else {
                let j = s.len() - 1;
                assert(a[k] == (Client { hwnd: s[j].hwnd, mode: spec_advance(s[j].mode, current).1 }));
            }
        }
    }
}

proof fn lemma_advanced_below(s: Seq<Client>, current: u64, x: isize)
    requires
        forall|j: int| 0 <= j < s.len() ==> #[trigger] s[j].hwnd < x,
    ensures
        forall|k: int| 0 <= k < advanced(s, current).len() ==> #[trigger] advanced(s, current)[k].hwnd < x,
{
    lemma_advanced_from(s, current);
    assert forall|k: int| 0 <= k < advanced(s, current).len() implies #[trigger] advanced(
        s,
        current,
    )[k].hwnd < x by {
        let j = choose|j: int|
            0 <= j < s.len() && stays(s[j].mode, current) && #[trigger] advanced(s, current)[k]
                == (Client { hwnd: s[j].hwnd, mode: spec_advance(s[j].mode, current).1 });
    }
}

proof fn lemma_advanced_sorted(s: Seq<Client>, current: u64)
    requires
        sorted(s),
    ensures
        sorted(advanced(s, current)),
    decreases s.len(),
{
    if s.len() > 0 {
        let t = s.drop_last();
        assert(sorted(t)) by {
            assert forall|a: int, b: int| 0 <= a < b < t.len() implies #[trigger] t[a].hwnd
                < #[trigger] t[b].hwnd by {
                assert(s[a].hwnd < s[b].hwnd);
            }
        }
        lemma_advanced_sorted(t, current);
        let x = s.last().hwnd;
        assert forall|j: int| 0 <= j < t.len() implies #[trigger] t[j].hwnd < x by {
            assert(s[j].hwnd < s[s.len() - 1].hwnd);
        }
        lemma_advanced_below(t, current, x);
    }
}

/// The clients once those at the given positions, which ascend, are
/// removed, the last position first.
pub open spec fn remove_positions(s: Seq<Client>, positions: Seq<usize>) -> Seq<Client>
    decreases positions.len(),
{
    if positions.len() == 0 {
        s
    } else {
        remove_positions(s.remove(positions.last() as int), positions.drop_last())
    }
}

/// Whether removing the clients at `positions`, the last position first,
/// from `len` clients finds a client at each position.
pub open spec fn removals_fit(len: nat, positions: Seq<usize>) -> bool
    decreases positions.len(),
{
    positions.len() == 0 || (positions.last() < len && removals_fit(
        (len - 1) as nat,
        positions.drop_last(),
    ))
}

/// Returns whether removing the clients at `positions`, the last position
/// first, from `len` clients finds a client at each position.
pub fn removals_fit_in(len: usize, positions: &Vec<usize>) -> (r: bool)
    ensures
        r == removals_fit(len as nat, positions@),
{
    let ghost p = positions@;
    let mut k: usize = positions.len();
    let mut l: usize = len;
    proof {
        assert(p.take(k as int) =~= p);
    }
    while k > 0
        invariant
            p == positions@,
            k <= p.len(),
            removals_fit(len as nat, p) == removals_fit(l as nat, p.take(k as int)),
        decreases k,
    {
        let index = positions[k - 1];
        proof {
            assert(p.take(k as int).last() == index);
            assert(p.take(k as int).drop_last() =~= p.take(k - 1));
        }
        if index >= l {
            return false;
        }
        l = l - 1;
        k = k - 1;
    }
    true
}

/// Frames this far from the end of the counter can be advanced without
/// overflow.
pub open spec fn frame_in_range(f: u64) -> bool {
    f <= u64::MAX - 2 * 65535
}

proof fn lemma_sorted_remove(s: Seq<Client>, i: int)
    requires
        sorted(s),
        0 <= i < s.len(),
    ensures
        sorted(s.remove(i)),
{
    let t = s.remove(i);
    assert forall|a: int, b: int| 0 <= a < b < t.len() implies #[trigger] t[a].hwnd
        < #[trigger] t[b].hwnd by {
        let a0 = if a < i { a } else { a + 1 };
        let b0 = if b < i { b } else { b + 1 };
        assert(s[a0].hwnd < s[b0].hwnd);
    }
}

proof fn lemma_sorted_place(s: Seq<Client>, c: Client)
    requires
        sorted(s),
    ensures
        has_client(s, c.hwnd) ==> sorted(s.update(lower_bound(s, c.hwnd) as int, c)),
        !has_client(s, c.hwnd) ==> sorted(s.insert(lower_bound(s, c.hwnd) as int, c)),
{
    lemma_lower_bound(s, c.hwnd);
    let i = lower_bound(s, c.hwnd) as int;
    if has_client(s, c.hwnd) {
        let t = s.update(i, c);
        assert forall|a: int, b: int| 0 <= a < b < t.len() implies #[trigger] t[a].hwnd
            < #[trigger] t[b].hwnd by {
            assert(s[a].hwnd < s[b].hwnd);
        }
    } else {
        let t = s.insert(i, c);
        assert forall|a: int, b: int| 0 <= a < b < t.len() implies #[trigger] t[a].hwnd
            < #[trigger] t[b].hwnd by {
            if b < i {
                assert(s[a].hwnd < s[b].hwnd);
            } else if b == i {
                assert(s[a].hwnd < c.hwnd);
            } else if a == i {
                assert(s[b - 1].hwnd >= c.hwnd);
                if i < s.len() {
                    assert(s[i].hwnd != c.hwnd);
                    assert(s[i].hwnd > c.hwnd);
                    if b - 1 > i {
                        assert(s[i].hwnd < s[b - 1].hwnd);
                    }
                }
            } else if a < i {
                assert(s[a].hwnd < c.hwnd);
                assert(s[b - 1].hwnd >= c.hwnd);
            } else {
                assert(s[a - 1].hwnd < s[b - 1].hwnd);
            }
        }
    }
}

/// Decides whether a client is due at frame `current`, and what its mode
/// becomes.
fn advance(mode: Mode, current: u64) -> (r: (bool, Mode))
    requires
        frame_in_range(current),
    ensures
        r == spec_advance(mode, current),
{
    match mode {
        Mode::AtFrame(target) => (target.0 <= current, mode),
        Mode::ForFps { interval, requested, next } => {
            let due = current >= next.0;
            let diff: u64 = if current > next.0 {
                current - next.0
            } else {
                0
            };
            let iv = interval as u64;
            let skip: u64 = if iv == 0 {
                0
            } else {
                (diff + iv - 1) / iv
            };
            proof {
                if iv > 0 {
                    assert(iv * skip <= diff + iv - 1) by (nonlinear_arith)
                        requires
                            iv > 0,
                            skip == (diff + iv - 1) / (iv as int),
                    ;
                    if diff == 0 {
                        assert(skip == 0) by (nonlinear_arith)
                            requires
                                iv > 0,
                                skip == (iv - 1) / (iv as int),
                        ;
                    }
                }
                assert(skip == catch_up(next.0, current, interval));
                if iv > 0 && diff > 0 {
                    assert(next.0 + iv * skip <= current + iv - 1);
                } else {
                    assert(iv == 0 || skip == 0);
                    assert(iv * skip == 0) by (nonlinear_arith)
                        requires
                            iv == 0 || skip == 0,
                    ;
                }
            }
            let skipped = next.0 + iv * skip;
            let n = if due {
                skipped + iv
            } else {
                skipped
            };
            (due, Mode::ForFps { interval, requested, next: FrameId(n) })
        },
    }
}

/// The mode of window `hwnd`'s client, if it has one.
pub open spec fn client_mode(s: Seq<Client>, hwnd: isize) -> Option<Mode> {
    if has_client(s, hwnd) {
        Some(s[lower_bound(s, hwnd) as int].mode)
    } else {
        None
    }
}

/// The mode that a request gives its window: none for `Idle`.
pub open spec fn requested_mode(request: VsyncRequest) -> Option<Mode> {
    match request {
        VsyncRequest::Idle(_) => None,
        VsyncRequest::AtFrame(_, frame) => Some(Mode::AtFrame(frame)),
        VsyncRequest::AtFrameRate(_, requested, interval) => Some(
            Mode::ForFps { interval, requested, next: FrameId(0) },
        ),
    }
}

proof fn lemma_witness(t: Seq<Client>, j: int, hwnd: isize)
    requires
        sorted(t),
        0 <= j < t.len(),
        t[j].hwnd == hwnd,
    ensures
        has_client(t, hwnd),
        lower_bound(t, hwnd) == j,
{
    lemma_lower_bound(t, hwnd);
    let lb = lower_bound(t, hwnd) as int;
    if lb < j {
        assert(t[lb].hwnd < t[j].hwnd);
    }
}

proof fn lemma_absent(t: Seq<Client>, hwnd: isize)
    requires
        sorted(t),
        forall|j: int| 0 <= j < t.len() ==> #[trigger] t[j].hwnd != hwnd,
    ensures
        !has_client(t, hwnd),
{
}

proof fn lemma_apply_sorted(s: Seq<Client>, request: VsyncRequest)
    requires
        sorted(s),
    ensures
        sorted(spec_apply(s, request)),
{
    let h0 = request_hwnd(request);
    lemma_lower_bound(s, h0);
    match request {
        VsyncRequest::Idle(_) => {
            if has_client(s, h0) {
                lemma_sorted_remove(s, lower_bound(s, h0) as int);
            }
        },
        VsyncRequest::AtFrame(_, frame) => {
            lemma_sorted_place(s, Client { hwnd: h0, mode: Mode::AtFrame(frame) });
        },
        VsyncRequest::AtFrameRate(_, requested, interval) => {
            lemma_sorted_place(
                s,
                Client { hwnd: h0, mode: Mode::ForFps { interval, requested, next: FrameId(0) } },
            );
        },
    }
}

proof fn lemma_apply_self(s: Seq<Client>, request: VsyncRequest)
    requires
        sorted(s),
    ensures
        client_mode(spec_apply(s, request), request_hwnd(request)) == requested_mode(request),
{
    let h0 = request_hwnd(request);
    let t = spec_apply(s, request);
    lemma_apply_sorted(s, request);
    lemma_lower_bound(s, h0);
    let i = lower_bound(s, h0) as int;
    if request is Idle {
        if has_client(s, h0) {
            assert(t == s.remove(i));
            assert forall|j: int| 0 <= j < t.len() implies #[trigger] t[j].hwnd != h0 by {
                if j < i {
                    assert(s[j].hwnd < s[i].hwnd);
                } else {
                    assert(t[j] == s[j + 1]);
                    assert(s[i].hwnd < s[j + 1].hwnd);
                }
            }
            lemma_absent(t, h0);
        }
    } else {
        assert(t[i].hwnd == h0);
        lemma_witness(t, i, h0);
    }
}

proof fn lemma_apply_other_present(s: Seq<Client>, request: VsyncRequest, hwnd: isize)
    requires
        sorted(s),
        hwnd != request_hwnd(request),
        has_client(s, hwnd),
    ensures
        client_mode(spec_apply(s, request), hwnd) == client_mode(s, hwnd),
{
    let h0 = request_hwnd(request);
    let t = spec_apply(s, request);
    lemma_apply_sorted(s, request);
    lemma_lower_bound(s, h0);
    lemma_lower_bound(s, hwnd);
    let i = lower_bound(s, h0) as int;
    let present = has_client(s, h0);
    let k = lower_bound(s, hwnd) as int;
    if request is Idle {
        if present {
            assert(k != i);
            let k2 = if k > i {
                k - 1
            } else {
                k
            };
            assert(t[k2] == s[k]);
            lemma_witness(t, k2, hwnd);
        } else {
            lemma_witness(t, k, hwnd);
        }
    } else {
        if present {
            assert(k != i);
            assert(t[k] == s[k]);
            lemma_witness(t, k, hwnd);
        } else {
            let k2 = if k >= i {
                k + 1
            } else {
                k
            };
            assert(t[k2] == s[k]);
            lemma_witness(t, k2, hwnd);
        }
    }
}

proof fn lemma_apply_other_absent(s: Seq<Client>, request: VsyncRequest, hwnd: isize)
    requires
        sorted(s),
        hwnd != request_hwnd(request),
        !has_client(s, hwnd),
    ensures
        !has_client(spec_apply(s, request), hwnd),
{
    let h0 = request_hwnd(request);
    let t = spec_apply(s, request);
    lemma_apply_sorted(s, request);
    lemma_lower_bound(s, h0);
    let i = lower_bound(s, h0) as int;
    let present = has_client(s, h0);
    assert forall|j: int| 0 <= j < s.len() implies #[trigger] s[j].hwnd != hwnd by {
        if s[j].hwnd == hwnd {
            lemma_witness(s, j, hwnd);
        }
    }
    assert forall|j: int| 0 <= j < t.len() implies #[trigger] t[j].hwnd != hwnd by {
        if request is Idle {
            if present && j >= i {
                assert(t[j] == s[j + 1]);
            }
        } else if present {
            if j != i {
                assert(t[j] == s[j]);
            }
        } else {
            if j > i {
                assert(t[j] == s[j - 1]);
            } else if j < i {
                assert(t[j] == s[j]);
            }
        }
    }
    lemma_absent(t, hwnd);
}

/// After a request, the requesting window's client has exactly the mode it
/// asked for (none after `Idle`), every other window keeps its mode, and
/// the clients stay in order.
pub proof fn law_request_effect(s: Seq<Client>, request: VsyncRequest, hwnd: isize)
    requires
        sorted(s),
    ensures
        sorted(spec_apply(s, request)),
        client_mode(spec_apply(s, request), hwnd) == (if hwnd == request_hwnd(request) {
            requested_mode(request)
        } else {
            client_mode(s, hwnd)
        }),
{
    lemma_apply_sorted(s, request);
    if hwnd == request_hwnd(request) {
        lemma_apply_self(s, request);
    } else if has_client(s, hwnd) {
        lemma_apply_other_present(s, request, hwnd);
    } else {
        lemma_apply_other_absent(s, request, hwnd);
    }
}

/// The clients once the requests are applied, in order.
pub open spec fn spec_apply_all(s: Seq<Client>, requests: Seq<VsyncRequest>) -> Seq<Client>
    decreases requests.len(),
{
    if requests.len() == 0 {
        s
    } else {
        spec_apply(spec_apply_all(s, requests.drop_last()), requests.last())
    }
}

/// Whether the schedule has room for a request: it cancels, or its window
/// is already a client, or a client can still be added.
pub open spec fn has_room(s: Seq<Client>, request: VsyncRequest) -> bool {
    request is Idle || has_client(s, request_hwnd(request)) || s.len() < MAX_WINDOWS
}

/// A client with another interval, when it is notified at a rate; a client
/// waiting for one frame is left as it is.
pub open spec fn with_interval(c: Client, interval: u16) -> Client {
    Client {
        hwnd: c.hwnd,
        mode: match c.mode {
            Mode::ForFps { interval: _, requested, next } => Mode::ForFps {
                interval,
                requested,
                next,
            },
            m => m,
        },
    }
}

/// The positions, ascending, at which a notification could not be posted.
pub open spec fn failed_positions(posted: Seq<bool>) -> Seq<usize>
    decreases posted.len(),
{
    if posted.len() == 0 {
        Seq::empty()
    } else if posted.last() {
        failed_positions(posted.drop_last())
    } else {
        failed_positions(posted.drop_last()).push((posted.len() - 1) as usize)
    }
}

/// The mode that the last of the requests about window `hwnd` asks for
/// (none for `Idle`), or `otherwise` when no request is about it.
pub open spec fn last_requested_mode(
    requests: Seq<VsyncRequest>,
    hwnd: isize,
    otherwise: Option<Mode>,
) -> Option<Mode>
    decreases requests.len(),
{
    if requests.len() == 0 {
        otherwise
    } else if request_hwnd(requests.last()) == hwnd {
        requested_mode(requests.last())
    } else {
        last_requested_mode(requests.drop_last(), hwnd, otherwise)
    }
}

/// Applying any list of requests, one after the other, keeps the clients
/// in order, and leaves each window with the mode that the last request
/// about it asked for: no client after `Idle`, and its earlier mode when no
/// request is about it.
pub proof fn law_requests_effect(s: Seq<Client>, requests: Seq<VsyncRequest>, hwnd: isize)
    requires
        sorted(s),
    ensures
        sorted(spec_apply_all(s, requests)),
        client_mode(spec_apply_all(s, requests), hwnd) == last_requested_mode(
            requests,
            hwnd,
            client_mode(s, hwnd),
        ),
    decreases requests.len(),
{
    if requests.len() > 0 {
        law_requests_effect(s, requests.drop_last(), hwnd);
        law_request_effect(spec_apply_all(s, requests.drop_last()), requests.last(), hwnd);
    }
}

/// In sorted clients, a window is a client exactly when some client has
/// its handle.
proof fn lemma_has_client_exists(s: Seq<Client>, hwnd: isize)
    requires
        sorted(s),
    ensures
        has_client(s, hwnd) <==> exists|j: int| 0 <= j < s.len() && #[trigger] s[j].hwnd == hwnd,
{
    lemma_lower_bound(s, hwnd);
    let lb = lower_bound(s, hwnd) as int;
    if has_client(s, hwnd) {
        assert(s[lb].hwnd == hwnd);
    }
    if exists|j: int| 0 <= j < s.len() && #[trigger] s[j].hwnd == hwnd {
        let j = choose|j: int| 0 <= j < s.len() && #[trigger] s[j].hwnd == hwnd;
        assert(lb <= j);
        if j > lb {
            assert(s[lb].hwnd < s[j].hwnd);
        }
    }
}

/// Over one tick of the vertical-blank thread (the pending requests applied
/// in the order they came, then the clients dispatched at frame `current`),
/// the clients stay sorted by window, and a window whose last pending
/// request was `Idle` (or that asked for nothing and was no client) is no
/// client afterwards.
pub proof fn law_tick(s: Seq<Client>, requests: Seq<VsyncRequest>, current: u64, hwnd: isize)
    requires
        sorted(s),
    ensures
        sorted(advanced(spec_apply_all(s, requests), current)),
        last_requested_mode(requests, hwnd, client_mode(s, hwnd)) is None ==> !has_client(
            advanced(spec_apply_all(s, requests), current),
            hwnd,
        ),
{
    let t = spec_apply_all(s, requests);
    let u = advanced(t, current);
    law_requests_effect(s, requests, hwnd);
    lemma_advanced_sorted(t, current);
    if last_requested_mode(requests, hwnd, client_mode(s, hwnd)) is None {
        assert(!has_client(t, hwnd));
        lemma_has_client_exists(t, hwnd);
        lemma_has_client_exists(u, hwnd);
        lemma_advanced_from(t, current);
        if has_client(u, hwnd) {
            let k = choose|k: int| 0 <= k < u.len() && #[trigger] u[k].hwnd == hwnd;
            let j = choose|j: int|
                0 <= j < t.len() && stays(t[j].mode, current) && #[trigger] u[k] == (Client {
                    hwnd: t[j].hwnd,
                    mode: spec_advance(t[j].mode, current).1,
                });
            assert(t[j].hwnd == hwnd);
        }
    }
}

/// A client notified at a rate never moves its next frame backward, moves
/// it by whole intervals, and with an interval of at least one frame leaves
/// it past the current frame.
pub proof fn law_advance_on_grid(interval: u16, requested: u64, next: FrameId, current: u64)
    requires
        frame_in_range(current),
    ensures
        ({
            let m = spec_advance(Mode::ForFps { interval, requested, next }, current).1;
            &&& m matches Mode::ForFps { next: n, .. } && {
                &&& n.0 >= next.0
                &&& interval >= 1 ==> (n.0 - next.0) % (interval as int) == 0
                &&& interval >= 1 ==> n.0 > current
            }
        }),
{
    let k = catch_up(next.0, current, interval);
    let due = current >= next.0;
    let skipped = next.0 + interval * k;
    let n = if due {
        skipped + interval
    } else {
        skipped
    };
    assert(k >= 0) by (nonlinear_arith)
        requires
            k == catch_up(next.0, current, interval),
    {
    }
    assert(interval * k >= 0) by (nonlinear_arith)
        requires
            k >= 0,
    ;
    if interval >= 1 {
        let kk = if due {
            k + 1
        } else {
            k
        };
        assert(n - next.0 == interval * kk) by (nonlinear_arith)
            requires
                kk == (if due {
                    k + 1
                } else {
                    k
                }),
                n == (if due {
                    skipped + interval
                } else {
                    skipped
                }),
                skipped == next.0 + interval * k,
        ;
        assert((interval * kk) % (interval as int) == 0) by (nonlinear_arith)
            requires
                interval >= 1,
        ;
        if current > next.0 {
            let d = current - next.0;
            assert(d <= interval * k <= d + interval - 1) by (nonlinear_arith)
                requires
                    interval >= 1,
                    d >= 1,
                    k == (d + interval - 1) / (interval as int),
            ;
        }
        assert(n <= u64::MAX);
    } else {
        assert(k == 0);
    }
}

/// The notification of the client at position `i` at frame `current`.
pub open spec fn delivery_of(s: Seq<Client>, i: int, current: u64) -> Delivery {
    Delivery {
        index: if stays(s[i].mode, current) {
            Some(advanced(s.take(i), current).len() as usize)
        } else {
            None
        },
        hwnd: s[i].hwnd,
        interval: interval_of(s[i].mode),
    }
}

/// The notifications of a frame are those of the clients due at it, each
/// once. In particular a client waiting for a frame that has already
/// passed is notified at once.
pub proof fn law_deliveries_are_due_clients(s: Seq<Client>, current: u64)
    requires
        sorted(s),
    ensures
        forall|i: int|
            0 <= i < s.len() ==> (spec_advance(s[i].mode, current).0 <==> due_deliveries(
                s,
                current,
            ).contains(#[trigger] delivery_of(s, i, current))),
        forall|k: int|
            0 <= k < due_deliveries(s, current).len() ==> exists|i: int|
                0 <= i < s.len() && spec_advance(s[i].mode, current).0 && #[trigger] due_deliveries(
                    s,
                    current,
                )[k] == delivery_of(s, i, current),
    decreases s.len(),
{
    if s.len() > 0 {
        let t = s.drop_last();
        let n = s.len() - 1;
        assert(sorted(t)) by {
            assert forall|a: int, b: int| 0 <= a < b < t.len() implies #[trigger] t[a].hwnd
                < #[trigger] t[b].hwnd by {
                assert(s[a].hwnd < s[b].hwnd);
            }
        }
        law_deliveries_are_due_clients(t, current);
        let prev = due_deliveries(t, current);
        let cur = due_deliveries(s, current);
        assert(s.take(n) =~= t);
        assert forall|i: int| 0 <= i < n implies #[trigger] delivery_of(s, i, current)
            == delivery_of(t, i, current) by {
            assert(s[i] == t[i]);
            assert(s.take(i) =~= t.take(i));
        }
        assert forall|k: int| 0 <= k < prev.len() implies #[trigger] prev[k].hwnd != s[n].hwnd by {
            let i = choose|i: int|
                0 <= i < t.len() && spec_advance(t[i].mode, current).0 && #[trigger] prev[k]
                    == delivery_of(t, i, current);
            assert(s[i].hwnd < s[n].hwnd);
        }
        assert forall|i: int|
            0 <= i < s.len() implies (spec_advance(s[i].mode, current).0 <==> cur.contains(
                #[trigger] delivery_of(s, i, current),
            )) by {
            if i < n {
                assert(s[i].hwnd < s[n].hwnd);
                if cur.contains(delivery_of(s, i, current)) {
                    let k = choose|k: int| 0 <= k < cur.len() && cur[k] == delivery_of(s, i, current);
                    if k < prev.len() {
                        assert(prev[k] == cur[k]);
                    } else {
                        assert(cur[k].hwnd == s[n].hwnd);
                    }
                }
                if prev.contains(delivery_of(t, i, current)) {
                    let k = choose|k: int| 0 <= k < prev.len() && prev[k] == delivery_of(t, i, current);
                    assert(cur[k] == prev[k]);
                }
            } else {
                if spec_advance(s[i].mode, current).0 {
                    assert(cur[prev.len() as int] == delivery_of(s, i, current));
                } else if cur.contains(delivery_of(s, i, current)) {
                    let k = choose|k: int| 0 <= k < cur.len() && cur[k] == delivery_of(s, i, current);
                    assert(prev[k] == cur[k]);
                }
            }
        }
        assert forall|k: int| 0 <= k < cur.len() implies exists|i: int|
            0 <= i < s.len() && spec_advance(s[i].mode, current).0 && #[trigger] cur[k]
                == delivery_of(s, i, current) by {
            if k < prev.len() {
                assert(cur[k] == prev[k]);
                let i = choose|i: int|
                    0 <= i < t.len() && spec_advance(t[i].mode, current).0 && #[trigger] prev[k]
                        == delivery_of(t, i, current);
                assert(s[i] == t[i]);
                assert(delivery_of(s, i, current) == delivery_of(t, i, current));
            } else {
                assert(cur[k] == delivery_of(s, n as int, current));
            }
        }
    }
}

/// A request for a single frame is answered once: at the first frame
/// dispatched that is not before it, the window is notified without a
/// rate, and no client of the window is left in the schedule.
pub proof fn law_one_shot(s: Seq<Client>, current: u64, i: int)
    requires
        sorted(s),
        0 <= i < s.len(),
        s[i].mode is AtFrame,
        s[i].mode->AtFrame_0.0 <= current,
    ensures
        due_deliveries(s, current).contains(
            Delivery { index: None, hwnd: s[i].hwnd, interval: None },
        ),
        forall|k: int|
            0 <= k < advanced(s, current).len() ==> #[trigger] advanced(s, current)[k].hwnd
                != s[i].hwnd,
{
    law_deliveries_are_due_clients(s, current);
    assert(delivery_of(s, i, current) == Delivery { index: None, hwnd: s[i].hwnd, interval: None });
    lemma_advanced_from(s, current);
    assert forall|k: int| 0 <= k < advanced(s, current).len() implies #[trigger] advanced(
        s,
        current,
    )[k].hwnd != s[i].hwnd by {
        let j = choose|j: int|
            0 <= j < s.len() && stays(s[j].mode, current) && #[trigger] advanced(s, current)[k]
                == (Client { hwnd: s[j].hwnd, mode: spec_advance(s[j].mode, current).1 });
        assert(j != i);
        if j < i {
            assert(s[j].hwnd < s[i].hwnd);
        } else {
            assert(s[i].hwnd < s[j].hwnd);
        }
    }
}

/// The windows that want vertical-blank notifications, in ascending order
/// of window handle.
pub struct VsyncSchedule {
    clients: arrayvec::ArrayVec<(isize, u8, u64, u16, u64), 8>,
}

impl VsyncSchedule {
    /// The clients, in ascending order of window handle.
    pub closed spec fn clients(&self) -> Seq<Client> {
        entries(self.clients).map_values(|e: (isize, u8, u64, u16, u64)| decode(e))
    }

    /// The schedule's invariant: at most `MAX_WINDOWS` clients, in strictly
    /// ascending order of window handle.
    pub open spec fn wf(&self) -> bool {
        &&& self.clients().len() <= MAX_WINDOWS
        &&& sorted(self.clients())
    }

    /// An empty schedule.
    pub fn new() -> (r: Self)
        ensures
            r.wf(),
            r.clients() == Seq::<Client>::empty(),
    {
        let r = VsyncSchedule { clients: av_new() };
        assert(r.clients() =~= Seq::<Client>::empty());
        r
    }

    /// The number of clients.
    pub fn len(&self) -> (r: usize)
        ensures
            r == self.clients().len(),
    {
        av_len(&self.clients)
    }

    /// The client at position `index`.
    pub fn client(&self, index: usize) -> (r: Client)
        requires
            index < self.clients().len(),
        ensures
            r == self.clients()[index as int],
    {
        decode_exec(av_get(&self.clients, index))
    }

    /// Looks for the client of window `hwnd`: `Ok` with its position, or
    /// `Err` with the position at which it would be inserted.
    pub fn find(&self, hwnd: isize) -> (r: Result<usize, usize>)
        requires
            self.wf(),
        ensures
            has_client(self.clients(), hwnd) <==> r is Ok,
            r matches Ok(i) ==> i == lower_bound(self.clients(), hwnd),
            r matches Err(i) ==> i == lower_bound(self.clients(), hwnd),
    {
        let ghost s = self.clients();
        proof {
            lemma_lower_bound(s, hwnd);
        }
        let mut lo: usize = 0;
        let mut hi: usize = av_len(&self.clients);
        while lo < hi
            invariant
                s == self.clients(),
                sorted(s),
                0 <= lo <= hi <= s.len(),
                forall|j: int| 0 <= j < lo ==> #[trigger] s[j].hwnd < hwnd,
                forall|j: int| hi <= j < s.len() ==> #[trigger] s[j].hwnd >= hwnd,
            decreases hi - lo,
        {
            let mid = lo + (hi - lo) / 2;
            let e = av_get(&self.clients, mid);
            proof {
                assert(s[mid as int] == decode(e));
            }
            if e.0 < hwnd {
                proof {
                    assert forall|j: int| 0 <= j < mid + 1 implies #[trigger] s[j].hwnd < hwnd by {
                        if j < mid {
                            assert(s[j].hwnd < s[mid as int].hwnd);
                        }
                    }
                }
                lo = mid + 1;
            } else {
                proof {
                    assert forall|j: int| mid <= j < s.len() implies #[trigger] s[j].hwnd >= hwnd by {
                        if j > mid {
                            assert(s[mid as int].hwnd < s[j].hwnd);
                        }
                    }
                }
                hi = mid;
            }
        }
        proof {
            let lb = lower_bound(s, hwnd) as int;
            if lb < lo {
                assert(s[lb].hwnd >= hwnd);
            }
            if lb > lo {
                assert(s[lo as int].hwnd < hwnd);
            }
            assert(lb == lo);
        }
        if lo < av_len(&self.clients) && av_get(&self.clients, lo).0 == hwnd {
            Ok(lo)
        } else {
            Err(lo)
        }
    }

    /// Puts `c` in place of the client of its window, or inserts it in order.
    fn upsert(&mut self, c: Client)
        requires
            old(self).wf(),
            has_client(old(self).clients(), c.hwnd) || old(self).clients().len() < MAX_WINDOWS,
        ensures
            final(self).wf(),
            has_client(old(self).clients(), c.hwnd) ==> final(self).clients() == old(
                self,
            ).clients().update(lower_bound(old(self).clients(), c.hwnd) as int, c),
            !has_client(old(self).clients(), c.hwnd) ==> final(self).clients() == old(
                self,
            ).clients().insert(lower_bound(old(self).clients(), c.hwnd) as int, c),
    {
        let ghost s = self.clients();
        proof {
            lemma_lower_bound(s, c.hwnd);
            lemma_sorted_place(s, c);
        }
        match self.find(c.hwnd) {
            Ok(i) => {
                av_set(&mut self.clients, i, encode(c));
                assert(self.clients() =~= s.update(i as int, c));
            },
            Err(i) => {
                av_insert(&mut self.clients, i, encode(c));
                assert(self.clients() =~= s.insert(i as int, c));
            },
        }
    }

    /// Applies a window's request to the schedule.
    pub fn apply_request(&mut self, request: VsyncRequest)
        requires
            old(self).wf(),
            request is Idle || has_client(old(self).clients(), request_hwnd(request)) || old(
                self,
            ).clients().len() < MAX_WINDOWS,
        ensures
            final(self).wf(),
            final(self).clients() == spec_apply(old(self).clients(), request),
    {
        let ghost s = self.clients();
        match request {
            VsyncRequest::Idle(hwnd) => {
                match self.find(hwnd) {
                    Ok(i) => {
                        av_remove(&mut self.clients, i);
                        proof {
                            lemma_sorted_remove(s, i as int);
                        }
                        assert(self.clients() =~= s.remove(i as int));
                    },
                    Err(_) => {},
                }
            },
            VsyncRequest::AtFrame(hwnd, frame) => {
                self.upsert(Client { hwnd, mode: Mode::AtFrame(frame) });
            },
            VsyncRequest::AtFrameRate(hwnd, requested, interval) => {
                self.upsert(
                    Client { hwnd, mode: Mode::ForFps { interval, requested, next: FrameId(0) } },
                );
            },
        }
    }

    /// Applies the requests in the order given. Stops at the first request
    /// for which there is no room, and returns its position; the requests
    /// before it are applied.
    pub fn apply_requests(&mut self, requests: &Vec<VsyncRequest>) -> (r: Result<(), usize>)
        requires
            old(self).wf(),
        ensures
            final(self).wf(),
            r is Ok ==> final(self).clients() == spec_apply_all(old(self).clients(), requests@),
            r is Ok ==> forall|k: int|
                0 <= k < requests.len() ==> has_room(
                    #[trigger] spec_apply_all(old(self).clients(), requests@.take(k)),
                    requests@[k],
                ),
            r matches Err(k) ==> {
                &&& k < requests.len()
                &&& final(self).clients() == spec_apply_all(
                    old(self).clients(),
                    requests@.take(k as int),
                )
                &&& !has_room(final(self).clients(), requests@[k as int])
                &&& forall|j: int|
                    0 <= j < k ==> has_room(
                        #[trigger] spec_apply_all(old(self).clients(), requests@.take(j)),
                        requests@[j],
                    )
            },
    {
        let ghost s = self.clients();
        let mut i: usize = 0;
        proof {
            assert(requests@.take(0) =~= Seq::<VsyncRequest>::empty());
        }
        while i < requests.len()
            invariant
                self.wf(),
                s == old(self).clients(),
                i <= requests.len(),
                self.clients() == spec_apply_all(s, requests@.take(i as int)),
                forall|j: int|
                    0 <= j < i ==> has_room(
                        #[trigger] spec_apply_all(s, requests@.take(j)),
                        requests@[j],
                    ),
            decreases requests.len() - i,
        {
            let request = requests[i];
            let room = match request {
                VsyncRequest::Idle(_) => true,
                VsyncRequest::AtFrame(hwnd, _) => self.find(hwnd).is_ok() || self.len()
                    < MAX_WINDOWS,
                VsyncRequest::AtFrameRate(hwnd, _, _) => self.find(hwnd).is_ok() || self.len()
                    < MAX_WINDOWS,
            };
            if !room {
                assert(!has_room(self.clients(), requests@[i as int]));
                return Err(i);
            }
            self.apply_request(request);
            proof {
                let t = requests@.take(i + 1);
                assert(t.drop_last() =~= requests@.take(i as int));
                assert(t.last() == requests@[i as int]);
            }
            i = i + 1;
        }
        proof {
            assert(requests@.take(requests.len() as int) =~= requests@);
        }
        Ok(())
    }

    /// After the composition rate changed and each client was told so:
    /// `posted[i]` says whether the client at position `i` was reached, and
    /// `intervals[i]` is its interval at the new rate. A client that was
    /// reached and is notified at a rate takes its new interval; the others
    /// are left as they are. Returns the positions of the clients that were
    /// not reached, ascending.
    pub fn rate_changed(&mut self, posted: &Vec<bool>, intervals: &Vec<u16>) -> (r: Vec<usize>)
        requires
            old(self).wf(),
            posted.len() == old(self).clients().len(),
            intervals.len() == old(self).clients().len(),
        ensures
            final(self).wf(),
            final(self).clients().len() == old(self).clients().len(),
            forall|i: int|
                0 <= i < old(self).clients().len() ==> #[trigger] final(self).clients()[i] == if posted@[i] {
                    with_interval(old(self).clients()[i], intervals@[i])
                } else {
                    old(self).clients()[i]
                },
            r@ == failed_positions(posted@),
    {
        let ghost s = self.clients();
        let mut failed: Vec<usize> = Vec::new();
        let mut i: usize = 0;
        proof {
            assert(posted@.take(0) =~= Seq::<bool>::empty());
        }
        while i < posted.len()
            invariant
                self.wf(),
                s == old(self).clients(),
                posted.len() == s.len(),
                intervals.len() == s.len(),
                i <= s.len(),
                self.clients().len() == s.len(),
                forall|j: int|
                    0 <= j < s.len() ==> #[trigger] self.clients()[j] == if j < i && posted@[j] {
                        with_interval(s[j], intervals@[j])
                    } else {
                        s[j]
                    },
                failed@ == failed_positions(posted@.take(i as int)),
            decreases s.len() - i,
        {
            let ghost before = self.clients();
            if posted[i] {
                self.set_interval(i, intervals[i]);
                proof {
                    assert forall|j: int| 0 <= j < s.len() implies #[trigger] self.clients()[j]
                        == if j < i + 1 && posted@[j] {
                        with_interval(s[j], intervals@[j])
                    } else {
                        s[j]
                    } by {
                        if j != i {
                            assert(self.clients()[j] == before[j]);
                        }
                    }
                }
            } else {
                failed.push(i);
            }
            proof {
                let t = posted@.take(i + 1);
                assert(t.drop_last() =~= posted@.take(i as int));
                assert(t.last() == posted@[i as int]);
            }
            i = i + 1;
        }
        proof {
            assert(posted@.take(posted.len() as int) =~= posted@);
        }
        failed
    }

    /// Gives the client at `index` a new interval, when it is notified at a
    /// rate; a client waiting for one frame is left as it is.
    pub fn set_interval(&mut self, index: usize, interval: u16)
        requires
            old(self).wf(),
            index < old(self).clients().len(),
        ensures
            final(self).wf(),
            final(self).clients() == old(self).clients().update(
                index as int,
                Client {
                    hwnd: old(self).clients()[index as int].hwnd,
                    mode: match old(self).clients()[index as int].mode {
                        Mode::ForFps { interval: _, requested, next } => Mode::ForFps {
                            interval,
                            requested,
                            next,
                        },
                        m => m,
                    },
                },
            ),
    {
        let ghost s = self.clients();
        let c = decode_exec(av_get(&self.clients, index));
        let mode = match c.mode {
            Mode::ForFps { interval: _, requested, next } => Mode::ForFps {
                interval,
                requested,
                next,
            },
            m => m,
        };
        let n = Client { hwnd: c.hwnd, mode };
        av_set(&mut self.clients, index, encode(n));
        proof {
            let t = s.update(index as int, n);
            assert(self.clients() =~= t);
            assert forall|a: int, b: int| 0 <= a < b < t.len() implies #[trigger] t[a].hwnd
                < #[trigger] t[b].hwnd by {
                assert(s[a].hwnd < s[b].hwnd);
            }
        }
    }

    /// Decides which clients are due at frame `current`: moves every client
    /// notified at a rate to its next due frame, removes every client
    /// notified once that is due, and returns the due notifications in the
    /// order of the clients.
    pub fn dispatch(&mut self, current: FrameId) -> (r: Vec<Delivery>)
        requires
            old(self).wf(),
            frame_in_range(current.0),
        ensures
            final(self).wf(),
            final(self).clients() == advanced(old(self).clients(), current.0),
            r@ == due_deliveries(old(self).clients(), current.0),
    {
        let ghost s = self.clients();
        let n = av_len(&self.clients);
        let mut out: Vec<Delivery> = Vec::new();
        let mut i: usize = 0;
        let mut w: usize = 0;
        proof {
            assert(s.take(0) =~= Seq::<Client>::empty());
            assert(s.skip(0) =~= s);
            assert(self.clients() =~= advanced(s.take(0), current.0) + s.skip(0));
        }
        while i < n
            invariant
                n == s.len(),
                sorted(s),
                frame_in_range(current.0),
                0 <= i <= n,
                w <= i,
                w == advanced(s.take(i as int), current.0).len(),
                self.clients() == advanced(s.take(i as int), current.0) + s.skip(i as int),
                out@ == due_deliveries(s.take(i as int), current.0),
            decreases n - i,
        {
            let ghost a = advanced(s.take(i as int), current.0);
            let ghost before = self.clients();
            proof {
                assert(s.skip(i as int).len() == n - i);
                assert(before.len() == w + (n - i));
                assert(entries(self.clients).len() == before.len());
                assert(before[w as int] == s.skip(i as int)[0]);
                assert(before[w as int] == s[i as int]);
            }
            let c = decode_exec(av_get(&self.clients, w));
            let (due, mode) = advance(c.mode, current.0);
            let once = match c.mode {
                Mode::AtFrame(_) => true,
                Mode::ForFps { .. } => false,
            };
            let interval = match c.mode {
                Mode::AtFrame(_) => None,
                Mode::ForFps { interval, .. } => Some(interval),
            };
            proof {
                assert(s.take(i + 1).drop_last() =~= s.take(i as int));
                assert(s.take(i + 1).last() == s[i as int]);
                assert(s.skip(i as int).drop_first() =~= s.skip(i + 1));
            }
            if due && once {
                av_remove(&mut self.clients, w);
                out.push(Delivery { index: None, hwnd: c.hwnd, interval });
                proof {
                    assert(self.clients() =~= before.remove(w as int));
                    assert(advanced(s.take(i + 1), current.0) == a);
                    assert(self.clients() =~= a + s.skip(i + 1));
                }
            } else {
                av_set(&mut self.clients, w, encode(Client { hwnd: c.hwnd, mode }));
                if due {
                    out.push(Delivery { index: Some(w), hwnd: c.hwnd, interval });
                }
                proof {
                    assert(self.clients() =~= before.update(w as int, Client { hwnd: c.hwnd, mode }));
                    assert(advanced(s.take(i + 1), current.0) == a.push(
                        Client { hwnd: c.hwnd, mode },
                    ));
                    assert(self.clients() =~= a.push(Client { hwnd: c.hwnd, mode }) + s.skip(
                        i + 1,
                    ));
                }
                w = w + 1;
            }
            proof {
                assert(out@ == due_deliveries(s.take(i + 1), current.0));
            }
            i = i + 1;
        }
        proof {
            assert(s.take(n as int) =~= s);
            assert(s.skip(n as int) =~= Seq::<Client>::empty());
            assert(self.clients() =~= advanced(s, current.0));
            lemma_advanced_sorted(s, current.0);
            lemma_advanced_from(s, current.0);
        }
        out
    }

    /// Removes the clients at the given positions, which ascend, the last
    /// position first.
    pub fn remove_failed(&mut self, failed: &Vec<usize>)
        requires
            old(self).wf(),
            removals_fit(old(self).clients().len(), failed@),
        ensures
            final(self).wf(),
            final(self).clients() == remove_positions(old(self).clients(), failed@),
    {
        let ghost s = self.clients();
        let ghost p = failed@;
        let mut k: usize = failed.len();
        proof {
            assert(p.take(k as int) =~= p);
        }
        while k > 0
            invariant
                self.wf(),
                p == failed@,
                0 <= k <= p.len(),
                removals_fit(self.clients().len(), p.take(k as int)),
                remove_positions(self.clients(), p.take(k as int)) == remove_positions(s, p),
            decreases k,
        {
            let index = failed[k - 1];
            let ghost before = self.clients();
            proof {
                assert(p.take(k as int).drop_last() =~= p.take(k - 1));
                assert(p.take(k as int).last() == index);
            }
            av_remove(&mut self.clients, index);
            proof {
                assert(self.clients() =~= before.remove(index as int));
                lemma_sorted_remove(before, index as int);
            }
            k = k - 1;
        }
        proof {
            assert(p.take(0) =~= Seq::<usize>::empty());
        }
    }
}

} // verus!
