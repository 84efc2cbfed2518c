//! The render thread's bookkeeping: which window owns which output, and
//! when the vertical-blank clock must run.

use vstd::prelude::*;

verus! {

/// The identifier of a window's output on the render thread.
#[derive(Clone, Copy, Debug, PartialEq, Eq, Structural)]
pub struct WindowId(pub u64);

/// The render thread's answer to a window's request.
#[derive(Clone, Copy, Debug, PartialEq, Eq, Structural)]
pub enum Response {
    NewWindow(WindowId),
    ResizeWindow,
    Repaint,
}

/// What the vertical-blank clock must be told.
#[derive(Clone, Copy, Debug, PartialEq, Eq, Structural)]
pub enum ClockControl {
    Start,
    Stop,
}

/// A window's output: its swapchain, and whether it is drawn on every
/// vertical blank.
pub struct Output<S> {
    pub swapchain: S,
    pub is_vsync_enabled: bool,
}

/// The outputs of the windows that the render thread draws to. Identifiers
/// of destroyed windows are reused, the most recently freed first.
pub struct OutputTable<S> {
    windows: Vec<Option<Output<S>>>,
    free_windows: Vec<u32>,
    num_vsync: usize,
}

/// Whether a slot holds an output drawn on every vertical blank.
pub open spec fn vsync_on<S>(slot: Option<Output<S>>) -> bool {
    match slot {
        Some(o) => o.is_vsync_enabled,
        None => false,
    }
}

impl<S> OutputTable<S> {
    /// The outputs, by window identifier.
    pub closed spec fn slots(&self) -> Seq<Option<Output<S>>> {
        self.windows@
    }

    /// The identifiers free for reuse, the next one last.
    pub closed spec fn free_ids(&self) -> Seq<u32> {
        self.free_windows@
    }

    /// The number of enables of vertical-blank drawing not yet matched by a
    /// disable or a destruction.
    pub closed spec fn vsync_count(&self) -> usize {
        self.num_vsync
    }

    /// The table's invariant: every free identifier names an empty slot.
    pub closed spec fn wf(&self) -> bool {
        &&& self.windows@.len() <= u32::MAX
        &&& self.free_windows@.no_duplicates()
        &&& forall|k: int|
            0 <= k < self.free_windows@.len() ==> #[trigger] self.free_windows@[k]
                < self.windows@.len() && self.windows@[self.free_windows@[k] as int] is None
    }

    /// An empty table.
    pub fn new() -> (r: Self)
        ensures
            r.wf(),
            r.slots().len() == 0,
            r.free_ids().len() == 0,
            r.vsync_count() == 0,
    {
        OutputTable { windows: Vec::new(), free_windows: Vec::new(), num_vsync: 0 }
    }

    /// Adds a window's output, with vertical-blank drawing off, under the
    /// most recently freed identifier or a new one.
    pub fn new_window(&mut self, swapchain: S) -> (r: WindowId)
        requires
            old(self).wf(),
            old(self).free_ids().len() > 0 || old(self).slots().len() < u32::MAX,
        ensures
            final(self).wf(),
            final(self).vsync_count() == old(self).vsync_count(),
            old(self).free_ids().len() > 0 ==> {
                &&& r.0 == old(self).free_ids().last()
                &&& final(self).free_ids() == old(self).free_ids().drop_last()
                &&& final(self).slots() == old(self).slots().update(
                    r.0 as int,
                    Some(Output { swapchain, is_vsync_enabled: false }),
                )
            },
            old(self).free_ids().len() == 0 ==> {
                &&& r.0 == old(self).slots().len()
                &&& final(self).free_ids() == old(self).free_ids()
                &&& final(self).slots() == old(self).slots().push(
                    Some(Output { swapchain, is_vsync_enabled: false }),
                )
            },
    {
        let output = Output { swapchain, is_vsync_enabled: false };
        match self.free_windows.pop() {
            Some(id) => {
                proof {
                    assert(old(self).free_windows@.last() == id);
                }
                self.windows.set(id as usize, Some(output));
                proof {
                    let fl = self.free_windows@;
                    assert forall|k: int| 0 <= k < fl.len() implies #[trigger] fl[k]
                        < self.windows@.len() && self.windows@[fl[k] as int] is None by {
                        let ofl = old(self).free_windows@;
                        assert(fl[k] == ofl[k]);
                        assert(ofl[ofl.len() - 1] == id);
                        assert(k != ofl.len() - 1);
                    }
                }
                WindowId(id as u64)
            },
            None => {
                let id = self.windows.len();
                self.windows.push(Some(output));
                WindowId(id as u64)
            },
        }
    }

    /// Removes a window's output, if it still has one, and frees its
    /// identifier.
    pub fn destroy_window(&mut self, id: WindowId) -> (r: Option<Output<S>>)
        requires
            old(self).wf(),
            id.0 < old(self).slots().len(),
            vsync_on(old(self).slots()[id.0 as int]) ==> old(self).vsync_count() > 0,
        ensures
            final(self).wf(),
            r == old(self).slots()[id.0 as int],
            final(self).slots() == old(self).slots().update(id.0 as int, None),
            r is Some ==> final(self).free_ids() == old(self).free_ids().push(id.0 as u32),
            r is None ==> final(self).free_ids() == old(self).free_ids(),
            final(self).vsync_count() == (if vsync_on(r) {
                (old(self).vsync_count() - 1) as usize
            } else {
                old(self).vsync_count()
            }),
    {
        let index = id.0 as usize;
        assert(index == id.0);
        let mut taken: Option<Output<S>> = None;
        std::mem::swap(&mut taken, &mut self.windows[index]);
        proof {
            assert(self.windows@ =~= old(self).windows@.update(index as int, None));
        }
        match taken {
            Some(output) => {
                if output.is_vsync_enabled {
                    self.num_vsync = self.num_vsync - 1;
                }
                let ghost ofl = self.free_windows@;
                self.free_windows.push(id.0 as u32);
                proof {
                    assert forall|k: int| 0 <= k < ofl.len() implies #[trigger] ofl[k] != id.0
                        as u32 by {
                        assert(old(self).windows@[ofl[k] as int] is None);
                    }
                    let fl = self.free_windows@;
                    assert forall|k: int| 0 <= k < fl.len() implies #[trigger] fl[k]
                        < self.windows@.len() && self.windows@[fl[k] as int] is None by {
                        if k < ofl.len() {
                            assert(fl[k] == ofl[k]);
                        }
                    }
                    assert forall|a: int, b: int|
                        0 <= a < fl.len() && 0 <= b < fl.len() && a != b implies fl[a]
                        != fl[b] by {
                        if a < ofl.len() && b < ofl.len() {
                            assert(ofl.no_duplicates());
                        }
                    }
                }
                Some(output)
            },
            None => None,
        }
    }

    /// The output of window `id`.
    pub fn output(&self, id: WindowId) -> (r: &Output<S>)
        requires
            id.0 < self.slots().len(),
            self.slots()[id.0 as int] is Some,
        ensures
            *r == self.slots()[id.0 as int]->0,
    {
        let n = self.windows.len();
        let index = id.0 as usize;
        assert(index == id.0);
        self.windows[index].as_ref().unwrap()
    }

    /// Turns vertical-blank drawing on for window `id`. The clock is started
    /// when this is the first enable not yet matched.
    pub fn enable_vsync(&mut self, id: WindowId) -> (r: Option<ClockControl>)
        requires
            old(self).wf(),
            id.0 < old(self).slots().len(),
            old(self).slots()[id.0 as int] is Some,
            old(self).vsync_count() < usize::MAX,
        ensures
            final(self).wf(),
            final(self).free_ids() == old(self).free_ids(),
            final(self).vsync_count() == old(self).vsync_count() + 1,
            final(self).slots() == old(self).slots().update(
                id.0 as int,
                Some(
                    Output {
                        swapchain: old(self).slots()[id.0 as int]->0.swapchain,
                        is_vsync_enabled: true,
                    },
                ),
            ),
            r == (if final(self).vsync_count() == 1 {
                Some(ClockControl::Start)
            } else {
                None
            }),
    {
        self.set_vsync(id, true);
        self.num_vsync = self.num_vsync + 1;
        if self.num_vsync == 1 {
            Some(ClockControl::Start)
        } else {
            None
        }
    }

    /// Turns vertical-blank drawing off for window `id`. The clock is
    /// stopped when no enable remains unmatched.
    pub fn disable_vsync(&mut self, id: WindowId) -> (r: Option<ClockControl>)
        requires
            old(self).wf(),
            id.0 < old(self).slots().len(),
            old(self).slots()[id.0 as int] is Some,
        ensures
            final(self).wf(),
            final(self).free_ids() == old(self).free_ids(),
            final(self).vsync_count() == (if old(self).vsync_count() > 0 {
                old(self).vsync_count() - 1
            } else {
                0
            }),
            final(self).slots() == old(self).slots().update(
                id.0 as int,
                Some(
                    Output {
                        swapchain: old(self).slots()[id.0 as int]->0.swapchain,
                        is_vsync_enabled: false,
                    },
                ),
            ),
            r == (if final(self).vsync_count() == 0 {
                Some(ClockControl::Stop)
            } else {
                None
            }),
    {
        self.set_vsync(id, false);
        self.num_vsync = self.num_vsync.saturating_sub(1);
        if self.num_vsync == 0 {
            Some(ClockControl::Stop)
        } else {
            None
        }
    }

    fn set_vsync(&mut self, id: WindowId, enabled: bool)
        requires
            old(self).wf(),
            id.0 < old(self).slots().len(),
            old(self).slots()[id.0 as int] is Some,
        ensures
            final(self).wf(),
            final(self).free_ids() == old(self).free_ids(),
            final(self).vsync_count() == old(self).vsync_count(),
            final(self).slots() == old(self).slots().update(
                id.0 as int,
                Some(
                    Output {
                        swapchain: old(self).slots()[id.0 as int]->0.swapchain,
                        is_vsync_enabled: enabled,
                    },
                ),
            ),
    {
        let index = id.0 as usize;
        let mut taken: Option<Output<S>> = None;
        std::mem::swap(&mut taken, &mut self.windows[index]);
        match taken {
            Some(output) => {
                let updated = Some(Output { swapchain: output.swapchain, is_vsync_enabled: enabled });
                self.windows.set(index, updated);
                proof {
                    let fl = self.free_windows@;
                    assert forall|k: int| 0 <= k < fl.len() implies #[trigger] fl[k]
                        < self.windows@.len() && self.windows@[fl[k] as int] is None by {
                        assert(old(self).windows@[fl[k] as int] is None);
                    }
                }
            },
            None => {
                proof {
                    assert(false);
                }
            },
        }
    }

    /// The identifiers of the windows drawn on every vertical blank, in
    /// ascending order.
    pub fn vsync_windows(&self) -> (r: Vec<WindowId>)
        requires
            self.wf(),
        ensures
            forall|k: int|
                0 <= k < r@.len() ==> #[trigger] r@[k].0 < self.slots().len() && vsync_on(self.slots()[r@[k].0 as int]),
            forall|a: int, b: int| 0 <= a < b < r@.len() ==> #[trigger] r@[a].0 < #[trigger] r@[b].0,
            forall|i: int|
                0 <= i < self.slots().len() && vsync_on(#[trigger] self.slots()[i]) ==> exists|k: int|
                    0 <= k < r@.len() && #[trigger] r@[k].0 == i,
    {
        let mut r: Vec<WindowId> = Vec::new();
        let mut i: usize = 0;
        while i < self.windows.len()
            invariant
                i <= self.windows@.len(),
                forall|k: int|
                    0 <= k < r@.len() ==> #[trigger] r@[k].0 < i && vsync_on(self.windows@[r@[k].0 as int]),
                forall|a: int, b: int| 0 <= a < b < r@.len() ==> #[trigger] r@[a].0 < #[trigger] r@[b].0,
                forall|j: int|
                    0 <= j < i && vsync_on(#[trigger] self.windows@[j]) ==> exists|k: int|
                        0 <= k < r@.len() && #[trigger] r@[k].0 == j,
            decreases self.windows@.len() - i,
        {
            let enabled = match &self.windows[i] {
                Some(o) => o.is_vsync_enabled,
                None => false,
            };
            if enabled {
                let ghost before = r@;
                r.push(WindowId(i as u64));
                proof {
                    assert(r@[before.len() as int].0 == i);
                    assert forall|j: int|
                        0 <= j < i + 1 && vsync_on(#[trigger] self.windows@[j]) implies exists|k: int|
                            0 <= k < r@.len() && #[trigger] r@[k].0 == j by {
                        if j < i {
                            let k = choose|k: int| 0 <= k < before.len() && #[trigger] before[k].0 == j;
                            assert(r@[k].0 == j);
                        }
                    }
                }
            }
            i = i + 1;
        }
        r
    }
}


/// A message to the vertical-blank clock thread.
#[derive(Clone, Copy, Debug, PartialEq, Eq, Structural)]
pub enum ClockMessage {
    Start,
    Stop,
    Exit,
}

/// What the clock thread does after a tick.
#[derive(Clone, Copy, Debug, PartialEq, Eq, Structural)]
pub enum ClockDecision {
    /// Keep ticking.
    Continue,
    /// Stop ticking until a `Start` arrives.
    Pause,
    /// Leave the thread.
    Exit,
}

/// The starts minus the stops among the messages.
pub open spec fn start_stop_balance(msgs: Seq<ClockMessage>) -> int
    decreases msgs.len(),
{
    if msgs.len() == 0 {
        0
    } else {
        start_stop_balance(msgs.drop_last()) + match msgs.last() {
            ClockMessage::Start => 1int,
            ClockMessage::Stop => -1int,
            ClockMessage::Exit => 0int,
        }
    }
}

proof fn lemma_balance_bounds(msgs: Seq<ClockMessage>)
    ensures
        -(msgs.len() as int) <= start_stop_balance(msgs) <= msgs.len(),
    decreases msgs.len(),
{
    if msgs.len() > 0 {
        lemma_balance_bounds(msgs.drop_last());
    }
}

/// The balance of the messages is the number of starts less the number of
/// stops; so after a tick without `Exit` the clock pauses exactly when
/// more stops than starts arrived.
pub proof fn law_balance_counts(msgs: Seq<ClockMessage>)
    ensures
        start_stop_balance(msgs) == msgs.filter(|m: ClockMessage| m == ClockMessage::Start).len()
            - msgs.filter(|m: ClockMessage| m == ClockMessage::Stop).len(),
    decreases msgs.len(),
{
    reveal(Seq::filter);
    if msgs.len() > 0 {
        law_balance_counts(msgs.drop_last());
    }
}

/// What the clock thread does after a tick, given the messages that arrived
/// during it: leave when one asks it to, pause when there were more stops
/// than starts, and keep ticking otherwise.
pub fn decide_after_tick(msgs: &Vec<ClockMessage>) -> (r: ClockDecision)
    requires
        msgs@.len() <= i32::MAX,
    ensures
        r == (if msgs@.contains(ClockMessage::Exit) {
            ClockDecision::Exit
        } else if start_stop_balance(msgs@) < 0 {
            ClockDecision::Pause
        } else {
            ClockDecision::Continue
        }),
{
    let mut start_stop: i32 = 0;
    let mut exit = false;
    let mut i: usize = 0;
    while i < msgs.len()
        invariant
            msgs@.len() <= i32::MAX,
            i <= msgs@.len(),
            start_stop == start_stop_balance(msgs@.take(i as int)),
            exit == msgs@.take(i as int).contains(ClockMessage::Exit),
        decreases msgs@.len() - i,
    {
        proof {
            lemma_balance_bounds(msgs@.take(i as int));
            assert(msgs@.take(i + 1).drop_last() =~= msgs@.take(i as int));
            assert(msgs@.take(i + 1).last() == msgs@[i as int]);
        }
        match msgs[i] {
            ClockMessage::Start => start_stop = start_stop + 1,
            ClockMessage::Stop => start_stop = start_stop - 1,
            ClockMessage::Exit => exit = true,
        }
        proof {
            let t = msgs@.take(i + 1);
            if exit {
                if msgs@[i as int] == ClockMessage::Exit {
                    assert(t[i as int] == ClockMessage::Exit);
                } else {
                    let k = choose|k: int| 0 <= k < i && msgs@.take(i as int)[k] == ClockMessage::Exit;
                    assert(t[k] == ClockMessage::Exit);
                }
            } else {
                assert forall|k: int| 0 <= k < t.len() implies t[k] != ClockMessage::Exit by {
                    if k < i {
                        assert(msgs@.take(i as int)[k] == t[k]);
                    }
                }
            }
        }
        i = i + 1;
    }
    proof {
        assert(msgs@.take(msgs@.len() as int) =~= msgs@);
    }
    if exit {
        ClockDecision::Exit
    } else if start_stop < 0 {
        ClockDecision::Pause
    } else {
        ClockDecision::Continue
    }
}

/// What the paused clock thread does on a message: resume on `Start`, leave
/// on `Exit`, keep waiting on `Stop`.
pub fn decide_while_paused(msg: ClockMessage) -> (r: Option<ClockDecision>)
    ensures
        r == (match msg {
            ClockMessage::Start => Some(ClockDecision::Continue),
            ClockMessage::Exit => Some(ClockDecision::Exit),
            ClockMessage::Stop => None,
        }),
{
    match msg {
        ClockMessage::Start => Some(ClockDecision::Continue),
        ClockMessage::Exit => Some(ClockDecision::Exit),
        ClockMessage::Stop => None,
    }
}

/// A message from a window thread to the application.
#[derive(Clone, Copy, Debug, PartialEq, Eq, Structural)]
pub enum AppMessage {
    WindowCreated,
    WindowClosed,
}

/// The application's count of open windows after a message, and whether
/// the application stops because none is left.
pub fn count_windows(num_windows: i32, msg: AppMessage) -> (r: (i32, bool))
    requires
        i32::MIN < num_windows < i32::MAX,
    ensures
        r.0 == num_windows + (match msg {
            AppMessage::WindowCreated => 1int,
            AppMessage::WindowClosed => -1int,
        }),
        r.1 == (r.0 == 0),
{
    let n = match msg {
        AppMessage::WindowCreated => num_windows + 1,
        AppMessage::WindowClosed => num_windows - 1,
    };
    (n, n == 0)
}

} // verus!
