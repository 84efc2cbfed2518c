//! A fixed-capacity pool of values addressed by generational handles.
//!
//! A handle names a slot and the generation the slot had when the value was
//! inserted. Removing a value bumps the slot's generation, so handles to the
//! removed value stop resolving. A slot whose generation has reached
//! `u16::MAX` is retired instead of being reused, so a generation is never
//! handed out twice for the same slot.

use core::marker::PhantomData;
use vstd::prelude::*;

verus! {

/// The generation at which a slot is retired, and the end-of-list marker of
/// the free list.
pub const SENTINEL: u16 = 65535;

/// A reference to a value in a [`HandlePool`].
#[derive(Debug)]
pub struct Handle<T> {
    index: u16,
    generation: u16,
    _marker: PhantomData<T>,
}

impl<T> Handle<T> {
    /// The slot that this handle names.
    pub closed spec fn slot_index(&self) -> u16 {
        self.index
    }

    /// The generation that this handle expects its slot to have.
    pub closed spec fn slot_generation(&self) -> u16 {
        self.generation
    }

    /// Reinterprets the handle as a handle of another type, keeping its slot
    /// and generation.
    pub fn retype<U>(self) -> (r: Handle<U>)
        ensures
            r.slot_index() == self.slot_index(),
            r.slot_generation() == self.slot_generation(),
    {
        Handle { index: self.index, generation: self.generation, _marker: PhantomData }
    }
}

impl<T> Clone for Handle<T> {
    fn clone(&self) -> (r: Self)
        ensures
            r.slot_index() == self.slot_index(),
            r.slot_generation() == self.slot_generation(),
    {
        Handle { index: self.index, generation: self.generation, _marker: PhantomData }
    }
}

impl<T> Copy for Handle<T> {

}

impl<T> PartialEq for Handle<T> {
    fn eq(&self, other: &Self) -> (r: bool) {
        self.index == other.index && self.generation == other.generation
    }
}

impl<T> Eq for Handle<T> {

}

impl<T> vstd::std_specs::cmp::PartialEqSpecImpl for Handle<T> {
    open spec fn obeys_eq_spec() -> bool {
        true
    }

    open spec fn eq_spec(&self, other: &Self) -> bool {
        self.slot_index() == other.slot_index() && self.slot_generation()
            == other.slot_generation()
    }
}

struct Slot<T> {
    is_free: bool,
    generation: u16,
    index_or_next: u16,
    value: Option<T>,
}

/// The number of live slots among the first `i` of `s`.
spec fn live_before<T>(s: Seq<Slot<T>>, i: int) -> nat
    decreases i,
{
    if i <= 0 {
        0
    } else {
        live_before(s, i - 1) + (if s[i - 1].is_free {
            0nat
        } else {
            1nat
        })
    }
}

proof fn lemma_live_before_shift<T>(s: Seq<Slot<T>>, i: int)
    requires
        1 <= i <= s.len(),
    ensures
        live_before(s, i) == (if s[0].is_free {
            0nat
        } else {
            1nat
        }) + live_before(s.subrange(1, s.len() as int), i - 1),
    decreases i,
{
    let t = s.subrange(1, s.len() as int);
    if i > 1 {
        lemma_live_before_shift(s, i - 1);
        assert(t[i - 2] == s[i - 1]);
    } else {
        assert(live_before(s, 0) == 0);
        assert(live_before(t, 0) == 0);
    }
}

proof fn lemma_live_before_step<T>(s: Seq<Slot<T>>, i: int, j: int)
    requires
        0 <= i < j <= s.len(),
        !s[i].is_free,
    ensures
        live_before(s, i) < live_before(s, j),
    decreases j - i,
{
    if j > i + 1 {
        lemma_live_before_step(s, i, j - 1);
    }
}

/// Appends the handle and the value, for mutation, of `slot` (slot `index`
/// of the pool) when it is live.
fn push_live<'a, T, H>(slot: &'a mut Slot<T>, index: u16, out: &mut Vec<(Handle<H>, &'a mut T)>)
    requires
        old(slot).is_free <==> old(slot).value is None,
    ensures
        old(slot).is_free ==> final(out)@ == old(out)@ && *final(slot) == *old(slot),
        !old(slot).is_free ==> {
            let e = final(out)@.last();
            &&& final(out)@.len() == old(out)@.len() + 1
            &&& final(out)@.drop_last() == old(out)@
            &&& e.0.index == index
            &&& e.0.generation == old(slot).generation
            &&& *e.1 == old(slot).value->0
            &&& *final(slot) == (Slot { value: Some(*final(e.1)), ..*old(slot) })
        },
{
    if !slot.is_free {
        let generation = slot.generation;
        match slot.value.as_mut() {
            Some(v) => {
                out.push((Handle { index, generation, _marker: PhantomData }, v));
                proof {
                    assert(out@.drop_last() =~= old(out)@);
                }
            },
            None => {},
        }
    }
}

/// Appends, for each live slot of `slots` in order, its handle (slot `k`
/// of `slots` being slot `start + k` of the pool) and its value for
/// mutation.
#[verifier::rlimit(40)]
fn collect_mut<'a, T, H>(slots: &'a mut [Slot<T>], start: usize, out: &mut Vec<(Handle<H>, &'a mut T)>)
    requires
        start + old(slots)@.len() <= 65535,
        forall|k: int|
            0 <= k < old(slots)@.len() ==> (#[trigger] old(slots)@[k].is_free <==> old(slots)@[k].value is None),
    ensures
        final(slots)@.len() == old(slots)@.len(),
        final(out)@.len() == old(out)@.len() + live_before(old(slots)@, old(slots)@.len() as int),
        forall|k: int| 0 <= k < old(out)@.len() ==> #[trigger] final(out)@[k] == old(out)@[k],
        forall|i: int|
            0 <= i < old(slots)@.len() && old(slots)@[i].is_free ==> #[trigger] final(slots)@[i]
                == old(slots)@[i],
        forall|i: int|
            #![trigger final(slots)@[i]]
            #![trigger live_before(old(slots)@, i)]
            0 <= i < old(slots)@.len() && !old(slots)@[i].is_free ==> {
                let e = final(out)@[(old(out)@.len() + live_before(old(slots)@, i)) as int];
                &&& e.0.index == start + i
                &&& e.0.generation == old(slots)@[i].generation
                &&& *e.1 == old(slots)@[i].value->0
                &&& final(slots)@[i] == (Slot { value: Some(*final(e.1)), ..old(slots)@[i] })
            },
    decreases old(slots)@.len(),
{
    if slots.len() == 0 {
        return;
    }
    let ghost s0 = slots@;
    let ghost o0 = out@;
    proof {
        assert forall|i: int| 1 <= i <= s0.len() implies #[trigger] live_before(s0, i) == (if s0[0].is_free {
            0nat
        } else {
            1nat
        }) + live_before(s0.subrange(1, s0.len() as int), i - 1) by {
            lemma_live_before_shift(s0, i);
        }
        assert(live_before(s0, 0) == 0);
    }
    let (head, tail) = slots.split_at_mut(1);
    match head.first_mut() {
        Some(slot) => {
            push_live(slot, start as u16, out);
        },
        None => {},
    }
    collect_mut(tail, start + 1, out);
}

/// A pool of at most `CAPACITY` values of type `T`, addressed by handles of
/// type `Handle<H>`.
pub struct HandlePool<T, const CAPACITY: usize, H = T> {
    slots: Vec<Slot<T>>,
    free_head: Option<u16>,
    high_water_mark: usize,
    /// The free list, from its head to its end.
    free_list: Ghost<Seq<u16>>,
    _handle_type: PhantomData<H>,
}

impl<T, H, const CAPACITY: usize> HandlePool<T, CAPACITY, H> {
    /// The order in which free slots will be handed out by `insert`.
    pub closed spec fn free_slots(&self) -> Seq<u16> {
        self.free_list@
    }

    /// Whether slot `i` holds a value.
    pub closed spec fn is_live(&self, i: u16) -> bool {
        i < self.slots@.len() && !self.slots@[i as int].is_free
    }

    /// The current generation of slot `i`.
    pub closed spec fn generation(&self, i: u16) -> u16 {
        self.slots@[i as int].generation
    }

    /// The value held by slot `i`.
    pub closed spec fn slot_value(&self, i: u16) -> T {
        self.slots@[i as int].value->0
    }

    /// Whether slot `i` has been retired: it is free, and will never be
    /// handed out again.
    pub closed spec fn retired(&self, i: u16) -> bool {
        &&& i < self.slots@.len()
        &&& self.slots@[i as int].is_free
        &&& !self.free_list@.contains(i)
    }

    /// The values of the pool: slot index to (generation, value).
    pub open spec fn live(&self) -> Map<u16, (u16, T)> {
        Map::new(|i: u16| self.is_live(i), |i: u16| (self.generation(i), self.slot_value(i)))
    }

    /// Whether `h` currently resolves to a value.
    pub open spec fn valid(&self, h: Handle<H>) -> bool {
        self.is_live(h.slot_index()) && self.generation(h.slot_index()) == h.slot_generation()
    }

    /// The value that a valid handle resolves to.
    pub open spec fn value_of(&self, h: Handle<H>) -> T {
        self.slot_value(h.slot_index())
    }

    /// Whether `h` can never resolve again: its slot has moved on to a later
    /// generation, or has been retired at the handle's generation.
    pub open spec fn expired(&self, h: Handle<H>) -> bool {
        &&& h.slot_index() < CAPACITY
        &&& (self.generation(h.slot_index()) > h.slot_generation() || (self.generation(
            h.slot_index(),
        ) == h.slot_generation() && self.retired(h.slot_index())))
    }

    /// The number of live slots below slot `i`: the position of slot `i`'s
    /// value among the pool's values.
    pub closed spec fn live_rank(&self, i: int) -> nat {
        live_before(self.slots@, i)
    }

    /// The pool's internal invariant.
    pub closed spec fn wf(&self) -> bool {
        let fl = self.free_list@;
        &&& 0 < CAPACITY < 65535
        &&& self.slots@.len() == CAPACITY
        &&& self.high_water_mark <= CAPACITY
        &&& forall|i: int|
            self.high_water_mark <= i < CAPACITY ==> #[trigger] self.slots@[i].is_free
                && fl.contains(i as u16)
        &&& fl.no_duplicates()
        &&& forall|k: int| 0 <= k < fl.len() ==> #[trigger] fl[k] < CAPACITY
        &&& forall|k: int| 0 <= k < fl.len() ==> #[trigger] self.slots@[fl[k] as int].is_free
        &&& forall|k: int|
            0 <= k < fl.len() - 1 ==> #[trigger] self.slots@[fl[k] as int].index_or_next == fl[k
                + 1]
        &&& fl.len() > 0 ==> self.slots@[fl.last() as int].index_or_next == SENTINEL
        &&& self.free_head == (if fl.len() == 0 {
            None
        } else {
            Some(fl[0])
        })
        &&& forall|i: int|
            0 <= i < CAPACITY ==> (#[trigger] self.slots@[i].is_free <==> self.slots@[i].value is None)
        &&& forall|i: int|
            0 <= i < CAPACITY && #[trigger] self.slots@[i].is_free && !fl.contains(i as u16)
                ==> self.slots@[i].generation == SENTINEL
    }

    /// Creates an empty pool whose slots will be handed out in ascending
    /// order.
    pub fn new() -> (r: Self)
        requires
            0 < CAPACITY < 65535,
        ensures
            r.wf(),
            r.live() == Map::<u16, (u16, T)>::empty(),
            r.free_slots() == Seq::new(CAPACITY as nat, |k: int| k as u16),
            forall|i: u16| i < CAPACITY ==> #[trigger] r.generation(i) == 0,
    {
        let mut slots: Vec<Slot<T>> = Vec::new();
        let mut i: usize = 0;
        while i < CAPACITY
            invariant
                0 < CAPACITY < 65535,
                i <= CAPACITY,
                slots@.len() == i,
                forall|j: int|
                    0 <= j < i ==> #[trigger] slots@[j].is_free && slots@[j].generation == 0
                        && slots@[j].value is None,
                forall|j: int|
                    0 <= j < i ==> #[trigger] slots@[j].index_or_next == (if j + 1 == CAPACITY {
                        SENTINEL as int
                    } else {
                        j + 1
                    }),
            decreases CAPACITY - i,
        {
            let next: u16 = if i + 1 == CAPACITY {
                SENTINEL
            } else {
                (i + 1) as u16
            };
            slots.push(Slot { is_free: true, generation: 0, index_or_next: next, value: None });
            i = i + 1;
        }
        let ghost fl = Seq::new(CAPACITY as nat, |k: int| k as u16);
        let r = HandlePool {
            slots,
            free_head: Some(0),
            high_water_mark: 0,
            free_list: Ghost(fl),
            _handle_type: PhantomData,
        };
        proof {
            assert forall|i: int| 0 <= i < CAPACITY implies #[trigger] fl.contains(i as u16) by {
                assert(fl[i] == i as u16);
            }
            assert forall|a: int, b: int|
                0 <= a < fl.len() && 0 <= b < fl.len() && a != b implies fl[a] != fl[b] by {}
            assert(r.live() =~= Map::<u16, (u16, T)>::empty());
            assert forall|i: u16| i < CAPACITY implies #[trigger] r.generation(i) == 0 by {
                assert(r.slots@[i as int].is_free);
            }
        }
        r
    }

    /// Returns the slot when it is live at the handle's generation.
    fn check(slot: &Slot<T>, handle: Handle<H>) -> (r: Option<&Slot<T>>)
        ensures
            r is Some <==> (!slot.is_free && slot.generation == handle.slot_generation()),
            r matches Some(s) ==> *s == *slot,
    {
        if !slot.is_free && slot.generation == handle.generation {
            Some(slot)
        } else {
            None
        }
    }

    /// Returns the value that `handle` resolves to, if any.
    pub fn get(&self, handle: Handle<H>) -> (r: Option<&T>)
        requires
            self.wf(),
        ensures
            r is Some <==> self.valid(handle),
            r matches Some(v) ==> *v == self.value_of(handle),
    {
        let index = handle.index as usize;
        if index >= self.slots.len() {
            return None;
        }
        let slot = match Self::check(&self.slots[index], handle) {
            Some(s) => s,
            None => return None,
        };
        slot.value.as_ref()
    }

    /// Returns the slot, for mutation, when it is live at the handle's
    /// generation.
    fn check_mut(slot: &mut Slot<T>, handle: Handle<H>) -> (r: Option<&mut Slot<T>>)
        ensures
            r is Some <==> (!old(slot).is_free && old(slot).generation == handle.slot_generation()),
            r matches Some(s) ==> *s == *old(slot) && *final(slot) == *final(s),
            r is None ==> *final(slot) == *old(slot),
    {
        if !slot.is_free && slot.generation == handle.generation {
            Some(slot)
        } else {
            None
        }
    }

    /// Returns the value that `handle` resolves to, for mutation, if any.
    pub fn get_mut(&mut self, handle: Handle<H>) -> (r: Option<&mut T>)
        requires
            old(self).wf(),
        ensures
            forall|g: Handle<H>| old(self).expired(g) ==> #[trigger] final(self).expired(g),
            r is Some <==> old(self).valid(handle),
            r matches Some(v) ==> {
                &&& *v == old(self).value_of(handle)
                &&& final(self).live() == old(self).live().insert(
                    handle.slot_index(),
                    (handle.slot_generation(), *final(v)),
                )
            },
            r is None ==> final(self).live() == old(self).live(),
            final(self).wf(),
            final(self).free_slots() == old(self).free_slots(),
            forall|i: u16|
                i < CAPACITY ==> #[trigger] final(self).generation(i) == old(self).generation(i)
                    && final(self).retired(i) == old(self).retired(i),
    {
        let index = handle.index as usize;
        if index >= self.slots.len() {
            return None;
        }
        if self.slots[index].is_free || self.slots[index].generation != handle.generation {
            return None;
        }
        match Self::check_mut(&mut self.slots[index], handle) {
            Some(slot) => slot.value.as_mut(),
            None => None,
        }
    }

    /// Stores `value` in the next free slot and returns a handle to it, or
    /// returns `None` when no slot can be handed out.
    #[verifier::spinoff_prover]
    pub fn insert(&mut self, value: T) -> (r: Option<(Handle<H>, &mut T)>)
        requires
            old(self).wf(),
        ensures
            forall|g: Handle<H>| old(self).expired(g) ==> #[trigger] final(self).expired(g),
            final(self).wf(),
            r is Some <==> old(self).free_slots().len() > 0,
            r is None ==> final(self).live() == old(self).live() && final(self).free_slots()
                == old(self).free_slots(),
            r matches Some((h, v)) ==> {
                &&& h.slot_index() == old(self).free_slots()[0]
                &&& h.slot_generation() == old(self).generation(h.slot_index())
                &&& !old(self).live().contains_key(h.slot_index())
                &&& *v == value
                &&& final(self).live() == old(self).live().insert(
                    h.slot_index(),
                    (h.slot_generation(), *final(v)),
                )
                &&& final(self).free_slots() == old(self).free_slots().drop_first()
            },
            forall|i: u16|
                i < CAPACITY ==> #[trigger] final(self).generation(i) == old(self).generation(i)
                    && final(self).retired(i) == old(self).retired(i),
    {
        let index = match self.free_head {
            Some(i) => i,
            None => return None,
        };
        let ghost fl = self.free_list@;
        let ghost old_slots = self.slots@;
        let idx = index as usize;
        let next = self.slots[idx].index_or_next;
        let generation = self.slots[idx].generation;
        self.slots[idx] = Slot {
            is_free: false,
            generation,
            index_or_next: SENTINEL,
            value: Some(value),
        };
        self.free_head = if next == SENTINEL {
            None
        } else {
            Some(next)
        };
        self.free_list = Ghost(fl.drop_first());
        if self.high_water_mark < idx + 1 {
            self.high_water_mark = idx + 1;
        }
        proof {
            let nfl = fl.drop_first();
            assert(fl[0] == index);
            assert forall|k: int| 0 <= k < nfl.len() implies #[trigger] nfl[k] != index by {
                assert(fl[k + 1] != fl[0]);
            }
            assert forall|i: int|
                self.high_water_mark <= i < CAPACITY implies #[trigger] self.slots@[i].is_free
                && nfl.contains(i as u16) by {
                assert(old(self).high_water_mark <= i);
                assert(old(self).wf());
                assert(old(self).slots@[i].is_free);
                assert(fl.contains(i as u16));
                let k = choose|k: int| 0 <= k < fl.len() && fl[k] == i as u16;
                assert(k != 0);
                assert(nfl[k - 1] == i as u16);
            }
            assert forall|i: int|
                0 <= i < CAPACITY && #[trigger] self.slots@[i].is_free && !nfl.contains(
                    i as u16,
                ) implies self.slots@[i].generation == SENTINEL by {
                assert(i != idx);
                if fl.contains(i as u16) {
                    let k = choose|k: int| 0 <= k < fl.len() && fl[k] == i as u16;
                    assert(k != 0);
                    assert(nfl[k - 1] == i as u16);
                }
            }
            if nfl.len() > 0 {
                assert(fl[1] < CAPACITY);
                assert(old_slots[fl[0] as int].index_or_next == fl[1]);
            }
            assert forall|i: u16| i < CAPACITY implies #[trigger] self.retired(i)
                == old(self).retired(i) && self.generation(i) == old(self).generation(i) by {
                if i != index {
                    if fl.contains(i) {
                        let k = choose|k: int| 0 <= k < fl.len() && fl[k] == i;
                        assert(nfl[k - 1] == i);
                    }
                    if nfl.contains(i) {
                        let k = choose|k: int| 0 <= k < nfl.len() && nfl[k] == i;
                        assert(fl[k + 1] == i);
                    }
                }
            }
            assert(self.live() =~= old(self).live().insert(index, (generation, value)));
        }
        let handle = Handle { index, generation, _marker: PhantomData };
        match self.get_mut(handle) {
            Some(v) => Some((handle, v)),
            None => None,
        }
    }

    /// Removes the value that `handle` resolves to and returns it, or returns
    /// `None` when the handle does not resolve. The slot is reused by later
    /// inserts unless its generation has reached `SENTINEL`.
    pub fn remove(&mut self, handle: Handle<H>) -> (r: Option<T>)
        requires
            old(self).wf(),
        ensures
            forall|g: Handle<H>| old(self).expired(g) ==> #[trigger] final(self).expired(g),
            final(self).wf(),
            r is Some <==> old(self).valid(handle),
            !old(self).valid(handle) ==> {
                &&& final(self).live() == old(self).live()
                &&& final(self).free_slots() == old(self).free_slots()
                &&& forall|i: u16|
                    i < CAPACITY ==> #[trigger] final(self).generation(i) == old(self).generation(
                        i,
                    ) && final(self).retired(i) == old(self).retired(i)
            },
            old(self).valid(handle) ==> {
                let i = handle.slot_index();
                &&& r == Some(old(self).value_of(handle))
                &&& final(self).live() == old(self).live().remove(i)
                &&& final(self).expired(handle)
                &&& old(self).generation(i) < SENTINEL ==> final(self).generation(i)
                    == old(self).generation(i) + 1 && final(self).free_slots() == seq![i]
                    + old(self).free_slots()
                &&& old(self).generation(i) == SENTINEL ==> final(self).generation(i) == SENTINEL
                    && final(self).free_slots() == old(self).free_slots()
                &&& forall|j: u16|
                    j < CAPACITY && j != i ==> #[trigger] final(self).generation(j)
                        == old(self).generation(j) && final(self).retired(j) == old(self).retired(
                        j,
                    )
            },
    {
        let index = handle.index as usize;
        if index >= self.slots.len() {
            return None;
        }
        if self.slots[index].is_free || self.slots[index].generation != handle.generation {
            return None;
        }
        let ghost fl = self.free_list@;
        let ghost old_slots = self.slots@;
        let generation = self.slots[index].generation;
        let mut taken = if generation < SENTINEL {
            let next = match self.free_head {
                Some(h) => h,
                None => SENTINEL,
            };
            Slot { is_free: true, generation: generation + 1, index_or_next: next, value: None }
        } else {
            Slot { is_free: true, generation, index_or_next: SENTINEL, value: None }
        };
        std::mem::swap(&mut self.slots[index], &mut taken);
        if generation < SENTINEL {
            self.free_head = Some(handle.index);
            self.free_list = Ghost(seq![handle.index] + fl);
        }
        proof {
            let nfl = self.free_list@;
            assert(!fl.contains(handle.index)) by {
                if fl.contains(handle.index) {
                    let k = choose|k: int| 0 <= k < fl.len() && fl[k] == handle.index;
                    assert(old_slots[fl[k] as int].is_free);
                }
            }
            if generation < SENTINEL {
                assert forall|k: int| 0 <= k < fl.len() implies #[trigger] nfl[k + 1] == fl[k] by {}
                assert forall|i: u16| #[trigger] fl.contains(i) implies nfl.contains(i) by {
                    let k = choose|k: int| 0 <= k < fl.len() && fl[k] == i;
                    assert(nfl[k + 1] == i);
                }
                assert forall|i: u16| #[trigger] nfl.contains(i) && i != handle.index implies fl.contains(i) by {
                    let k = choose|k: int| 0 <= k < nfl.len() && nfl[k] == i;
                    assert(k != 0);
                    assert(fl[k - 1] == i);
                }
                assert(nfl.contains(handle.index)) by {
                    assert(nfl[0] == handle.index);
                }
                assert forall|a: int, b: int|
                    0 <= a < nfl.len() && 0 <= b < nfl.len() && a != b implies nfl[a]
                    != nfl[b] by {
                    if a > 0 && b > 0 {
                        assert(fl[a - 1] != fl[b - 1]);
                    } else if a == 0 {
                        assert(fl.contains(nfl[b]));
                    } else {
                        assert(fl.contains(nfl[a]));
                    }
                }
                assert forall|i: int|
                    self.high_water_mark <= i < CAPACITY implies #[trigger] self.slots@[i].is_free
                    && nfl.contains(i as u16) by {
                    assert(old_slots[i].is_free && fl.contains(i as u16));
                }
                assert(nfl.no_duplicates());
                if fl.len() > 0 {
                    assert(nfl.last() == fl.last());
                }
            }
            assert(self.live() =~= old(self).live().remove(handle.index));
        }
        taken.value
    }

    /// Lists the values of the pool with their handles, in ascending slot
    /// order.
    pub fn iter(&self) -> (r: Vec<(Handle<H>, &T)>)
        requires
            self.wf(),
        ensures
            forall|k: int|
                0 <= k < r@.len() ==> self.valid(#[trigger] r@[k].0) && *r@[k].1 == self.value_of(
                    r@[k].0,
                ),
            forall|a: int, b: int|
                0 <= a < b < r@.len() ==> #[trigger] r@[a].0.slot_index() < #[trigger] r@[b].0.slot_index(),
            forall|i: u16|
                #[trigger] self.is_live(i) ==> exists|k: int|
                    0 <= k < r@.len() && #[trigger] r@[k].0.slot_index() == i,
    {
        let mut r: Vec<(Handle<H>, &T)> = Vec::new();
        let mut i: usize = 0;
        while i < self.high_water_mark
            invariant
                self.wf(),
                i <= self.high_water_mark,
                forall|k: int|
                    0 <= k < r@.len() ==> self.valid(#[trigger] r@[k].0) && *r@[k].1
                        == self.value_of(r@[k].0) && r@[k].0.slot_index() < i,
                forall|a: int, b: int|
                    0 <= a < b < r@.len() ==> #[trigger] r@[a].0.slot_index() < #[trigger] r@[b].0.slot_index(),
                forall|j: u16|
                    j < i && #[trigger] self.is_live(j) ==> exists|k: int|
                        0 <= k < r@.len() && #[trigger] r@[k].0.slot_index() == j,
            decreases self.high_water_mark - i,
        {
            let slot = &self.slots[i];
            if !slot.is_free {
                match &slot.value {
                    Some(v) => {
                        let h = Handle { index: i as u16, generation: slot.generation, _marker: PhantomData };
                        let ghost before = r@;
                        r.push((h, v));
                        proof {
                            assert(r@[before.len() as int].0.slot_index() == i as u16);
                            assert forall|j: u16|
                                j < i + 1 && #[trigger] self.is_live(j) implies exists|k: int|
                                    0 <= k < r@.len() && #[trigger] r@[k].0.slot_index() == j by {
                                if j < i {
                                    let k = choose|k: int| 0 <= k < before.len() && #[trigger] before[k].0.slot_index() == j;
                                    assert(r@[k].0.slot_index() == j);
                                }
                            }
                        }
                    },
                    None => {},
                }
            }
            i = i + 1;
        }
        proof {
            assert forall|j: u16| #[trigger] self.is_live(j) implies exists|k: int|
                0 <= k < r@.len() && #[trigger] r@[k].0.slot_index() == j by {
                if j as int >= self.high_water_mark {
                    assert(self.slots@[j as int].is_free);
                }
            }
        }
        r
    }

    /// Every value of the pool with its handle, for mutation, in ascending
    /// order of slot.
    pub fn iter_mut(&mut self) -> (r: Vec<(Handle<H>, &mut T)>)
        requires
            old(self).wf(),
        ensures
            final(self).wf(),
            r@.len() == old(self).live_rank(CAPACITY as int),
            forall|i: u16|
                #[trigger] old(self).is_live(i) ==> {
                    let e = r@[old(self).live_rank(i as int) as int];
                    &&& e.0.slot_index() == i
                    &&& e.0.slot_generation() == old(self).generation(i)
                    &&& *e.1 == old(self).slot_value(i)
                    &&& final(self).slot_value(i) == *final(e.1)
                },
            forall|i: u16|
                i < CAPACITY ==> #[trigger] final(self).is_live(i) == old(self).is_live(i)
                    && final(self).generation(i) == old(self).generation(i)
                    && final(self).retired(i) == old(self).retired(i),
            final(self).free_slots() == old(self).free_slots(),
            forall|g: Handle<H>| old(self).expired(g) ==> #[trigger] final(self).expired(g),
    {
        let ghost s0 = self.slots@;
        proof {
            assert forall|i: u16| #[trigger] old(self).is_live(i) implies old(self).live_rank(
                i as int,
            ) < old(self).live_rank(CAPACITY as int) by {
                lemma_live_before_step(s0, i as int, CAPACITY as int);
            }
        }
        let mut out: Vec<(Handle<H>, &mut T)> = Vec::new();
        collect_mut(self.slots.as_mut_slice(), 0, &mut out);
        out
    }

    /// A handle that has expired never resolves: after a value is removed,
    /// no handle to it finds a value again.
    pub proof fn law_expired_never_resolves(&self, h: Handle<H>)
        requires
            self.wf(),
            self.expired(h),
        ensures
            !self.valid(h),
    {
    }

    /// A value put into slot `h.slot_index()` at generation
    /// `h.slot_generation()`, as `insert` does, is what `h` resolves to.
    pub proof fn law_inserted_value_resolves(before: Self, after: Self, h: Handle<H>, value: T)
        requires
            after.live() == before.live().insert(h.slot_index(), (h.slot_generation(), value)),
        ensures
            after.valid(h),
            after.value_of(h) == value,
    {
        assert(after.live().contains_key(h.slot_index()));
        assert(after.live()[h.slot_index()] == (h.slot_generation(), value));
    }
}

} // verus!
