//! The registry: every timer under its id.

use crate::time::{secs_of, Moment};
use crate::timer::{
    record_ok, records, restored, Timer, TimerRecord, TimerType, TimerView, POOL_SIZE,
};
use std::collections::hash_map::Entry;
use std::collections::HashMap;
use vstd::prelude::*;

verus! {

broadcast use vstd::std_specs::hash::group_hash_axioms;

/// The timers of the application, each under its id.
pub struct TimerState {
    pub timers: HashMap<u8, Timer>,
}

impl View for TimerState {
    type V = Map<u8, TimerView>;

    open spec fn view(&self) -> Map<u8, TimerView> {
        self.timers@.map_values(|t: Timer| t@)
    }
}

/// Every timer is in one of its three states, stands under its own id, and
/// has an id of its kind's pool.
pub open spec fn registry_wf(m: Map<u8, TimerView>) -> bool {
    forall|id: u8| #[trigger]
        m.contains_key(id) ==> m[id].wf() && m[id].id == id && m[id].category.owns(id)
}

/// Whether `id` is the lowest id of `kind`'s pool that no timer has.
pub open spec fn lowest_free(m: Map<u8, TimerView>, kind: TimerType, id: u8) -> bool {
    &&& kind.owns(id)
    &&& !m.contains_key(id)
    &&& forall|j: u8| kind.first_id() <= j < id ==> m.contains_key(j)
}

/// Whether every id of `kind`'s pool has a timer.
pub open spec fn pool_full(m: Map<u8, TimerView>, kind: TimerType) -> bool {
    forall|j: u8| kind.owns(j) ==> m.contains_key(j)
}

/// Whether a listing under `filter` shows the timer under `id`: the timer
/// exists, and is of the kind that the filter names, if it names one.
pub open spec fn listed(m: Map<u8, TimerView>, filter: Option<TimerType>, id: u8) -> bool {
    m.contains_key(id) && (filter is Some ==> m[id].category == filter->0)
}

/// The order of a listing: by the whole seconds of the stored duration, and
/// by id where those are equal.
pub open spec fn comes_before(m: Map<u8, TimerView>, a: u8, b: u8) -> bool {
    secs_of(m[a].duration) < secs_of(m[b].duration) || (secs_of(m[a].duration) == secs_of(
        m[b].duration,
    ) && a < b)
}

/// Whether `out` is the listing of `m` under `filter`: every timer that the
/// filter lets through, once, under its id, in the order of
/// [`comes_before`]. There is one such sequence.
pub open spec fn is_listing(
    m: Map<u8, TimerView>,
    filter: Option<TimerType>,
    out: Seq<(u8, TimerView)>,
) -> bool {
    &&& forall|i: int|
        0 <= i < out.len() ==> listed(m, filter, (#[trigger] out[i]).0) && out[i].1 == m[out[i].0]
    &&& forall|id: u8|
        listed(m, filter, id) ==> exists|i: int| 0 <= i < out.len() && (#[trigger] out[i]).0 == id
    &&& forall|i: int, j: int|
        0 <= i < j < out.len() ==> comes_before(m, (#[trigger] out[i]).0, (#[trigger] out[j]).0)
}

/// The entries of a listing as mathematical values.
pub open spec fn entries_view(out: Seq<(u8, Timer)>) -> Seq<(u8, TimerView)> {
    out.map_values(|e: (u8, Timer)| (e.0, e.1@))
}

/// Whether `out` is what is written for the registry `m` at `now`: the
/// record of every timer, once, under its id, by rising id.
pub open spec fn is_snapshot(m: Map<u8, TimerView>, now: nat, out: Seq<(u8, TimerRecord)>) -> bool {
    &&& forall|i: int|
        0 <= i < out.len() ==> m.contains_key((#[trigger] out[i]).0) && records(
            out[i].1,
            m[out[i].0],
            now,
        )
    &&& forall|id: u8|
        m.contains_key(id) ==> exists|i: int| 0 <= i < out.len() && (#[trigger] out[i]).0 == id
    &&& forall|i: int, j: int|
        0 <= i < j < out.len() ==> (#[trigger] out[i]).0 < (#[trigger] out[j]).0
}

/// Whether a registry can be made of `entries`: each record has the flags of
/// one of the three states, stands under its own id, and has an id of its
/// kind's pool; no id comes twice.
pub open spec fn acceptable(entries: Seq<(u8, TimerRecord)>) -> bool {
    &&& forall|i: int|
        0 <= i < entries.len() ==> {
            let (key, record) = #[trigger] entries[i];
            record_ok(record) && record.id == key && record._type.owns(key)
        }
    &&& forall|i: int, j: int|
        0 <= i < j < entries.len() ==> (#[trigger] entries[i]).0 != (#[trigger] entries[j]).0
}

/// Whether `m` holds the timers that `entries`, read at `now`, stand for,
/// and no others.
pub open spec fn holds_restored(m: Map<u8, TimerView>, entries: Seq<(u8, TimerRecord)>, now: nat) -> bool {
    &&& forall|i: int|
        0 <= i < entries.len() ==> m.contains_key((#[trigger] entries[i]).0) && m[entries[i].0]
            == restored(entries[i].1, now)
    &&& forall|id: u8|
        m.contains_key(id) ==> exists|i: int|
            0 <= i < entries.len() && (#[trigger] entries[i]).0 == id
}

/// Whether any timer is active.
pub open spec fn any_active(m: Map<u8, TimerView>) -> bool {
    exists|id: u8| m.contains_key(id) && (#[trigger] m[id]).active
}

/// Entries are not acceptable where the one at `i` has bad flags, stands
/// under another id than its own or outside its kind's pool, or under an id
/// that an earlier entry has.
proof fn lemma_rejected(entries: Seq<(u8, TimerRecord)>, i: int, now: nat, m: Map<u8, TimerView>)
    requires
        0 <= i < entries.len(),
        holds_restored(m, entries.take(i), now),
        !record_ok(entries[i].1) || entries[i].1.id != entries[i].0 || !entries[i].1._type.owns(
            entries[i].0,
        ) || m.contains_key(entries[i].0),
    ensures
        !acceptable(entries),
{
    if m.contains_key(entries[i].0) {
        let done = entries.take(i);
        let a = choose|a: int| 0 <= a < done.len() && (#[trigger] done[a]).0 == entries[i].0;
        assert(entries[a].0 == entries[i].0);
    }
}

impl TimerState {
    /// A registry without timers.
    pub fn new() -> (r: TimerState)
        ensures
            r@ == Map::<u8, TimerView>::empty(),
            registry_wf(r@),
    {
        let r = TimerState { timers: HashMap::new() };
        assert(r@ =~= Map::<u8, TimerView>::empty());
        r
    }

    /// Puts `timer` under its id, in place of what stood there.
    pub fn add_timer(&mut self, timer: Timer)
        ensures
            final(self)@ == old(self)@.insert(timer@.id, timer@),
            registry_wf(old(self)@) && timer@.wf() && timer@.category.owns(timer@.id)
                ==> registry_wf(final(self)@),
    {
        let id = timer.id();
        self.timers.insert(id, timer);
        assert(self@ =~= old(self)@.insert(timer@.id, timer@));
    }

    /// Takes the timer under `id` out, unless it is active: an active timer
    /// stays, and the answer is `false`. Where no timer stands under `id`
    /// nothing changes and the answer is `true`.
    pub fn remove_timer(&mut self, id: u8) -> (allowed: bool)
        ensures
            allowed == !(old(self)@.contains_key(id) && old(self)@[id].active),
            allowed ==> final(self)@ == old(self)@.remove(id),
            !allowed ==> final(self)@ == old(self)@,
            registry_wf(old(self)@) ==> registry_wf(final(self)@),
    {
        let held = match self.timers.get(&id) {
            Some(timer) => timer.active(),
            None => false,
        };
        if held {
            return false;
        }
        self.timers.remove(&id);
        assert(self@ =~= old(self)@.remove(id));
        true
    }

    /// The timer under `id`, to read and to change. What the caller leaves
    /// in it is what the registry then holds under `id`.
    pub fn get_timer(&mut self, id: u8) -> (r: Option<&mut Timer>)
        ensures
            match r {
                Some(timer) => {
                    &&& old(self)@.contains_key(id)
                    &&& timer@ == old(self)@[id]
                    &&& final(self)@ == old(self)@.insert(id, final(timer)@)
                },
                None => !old(self)@.contains_key(id) && final(self)@ == old(self)@,
            },
    {
        match self.timers.entry(id) {
            Entry::Occupied(slot) => {
                Some(slot.into_mut())
            },
            Entry::Vacant(_) => None,
        }
    }

    /// The timers with their ids: all of them, or those of the kind that
    /// `filter` names. They come by the whole seconds of their stored
    /// duration, shortest first, and by id where those are equal.
    pub fn list(&self, filter: Option<TimerType>) -> (out: Vec<(u8, Timer)>)
        ensures
            is_listing(self@, filter, entries_view(out@)),
    {
        let mut out: Vec<(u8, Timer)> = Vec::new();
        let mut n: u16 = 0;
        while n < 256
            invariant
                n <= 256,
                forall|i: int|
                    0 <= i < out.len() ==> (#[trigger] out[i]).0 < n && listed(
                        self@,
                        filter,
                        out[i].0,
                    ) && out[i].1@ == self@[out[i].0],
                forall|id: u8|
                    id < n && listed(self@, filter, id) ==> exists|i: int|
                        0 <= i < out.len() && (#[trigger] out[i]).0 == id,
                forall|i: int, j: int|
                    0 <= i < j < out.len() ==> comes_before(
                        self@,
                        (#[trigger] out[i]).0,
                        (#[trigger] out[j]).0,
                    ),
            decreases 256 - n,
        {
            let id: u8 = n as u8;
            match self.timers.get(&id) {
                Some(timer) => {
                    let shown = match filter {
                        Some(kind) => timer.timer_type() == kind,
                        None => true,
                    };
                    if shown {
                        let key: u128 = timer.duration().as_secs();
                        let mut at: usize = 0;
                        while at < out.len() && out[at].1.duration().as_secs() <= key
                            invariant
                                at <= out.len(),
                                key == secs_of(self@[id].duration),
                                forall|i: int|
                                    0 <= i < out.len() ==> (#[trigger] out[i]).1@
                                        == self@[out[i].0],
                                forall|i: int|
                                    0 <= i < at ==> secs_of(
                                        self@[(#[trigger] out[i]).0].duration,
                                    ) <= key,
                            decreases out.len() - at,
                        {
                            at = at + 1;
                        }
                        let ghost before = out@;
                        out.insert(at, (id, timer.clone()));
                        proof {
                            assert forall|i: int, j: int| 0 <= i < j < out.len() implies comes_before(
                                self@,
                                (#[trigger] out[i]).0,
                                (#[trigger] out[j]).0,
                            ) by {
                                if j < at {
                                    assert(out[i] == before[i] && out[j] == before[j]);
                                } else if j == at {
                                    assert(out[i] == before[i]);
                                } else if i < at {
                                    assert(out[i] == before[i] && out[j] == before[j - 1]);
                                } else if i == at {
                                    assert(out[j] == before[j - 1]);
                                    if at < j - 1 {
                                        assert(comes_before(self@, before[at as int].0, before[j - 1].0));
                                    }
                                } else {
                                    assert(out[i] == before[i - 1] && out[j] == before[j - 1]);
                                }
                            }
                            assert forall|other: u8|
                                other < n + 1 && listed(self@, filter, other) implies exists|i: int|
                                0 <= i < out.len() && (#[trigger] out[i]).0 == other by {
                                if other == id {
                                    assert(out[at as int].0 == id);
                                } else {
                                    let i = choose|i: int|
                                        0 <= i < before.len() && (#[trigger] before[i]).0 == other;
                                    if i < at {
                                        assert(out[i].0 == other);
                                    } else {
                                        assert(out[i + 1].0 == other);
                                    }
                                }
                            }
                            assert forall|i: int| 0 <= i < out.len() implies (#[trigger] out[i]).0 < n
                                + 1 && listed(self@, filter, out[i].0) && out[i].1@
                                == self@[out[i].0] by {
                                if i < at {
                                    assert(out[i] == before[i]);
                                } else if i > at {
                                    assert(out[i] == before[i - 1]);
                                }
                            }
                        }
                    }
                },
                None => {},
            }
            n = n + 1;
        }
        proof {
            let shown = entries_view(out@);
            assert forall|id: u8| listed(self@, filter, id) implies exists|i: int|
                0 <= i < shown.len() && (#[trigger] shown[i]).0 == id by {
                let i = choose|i: int| 0 <= i < out.len() && (#[trigger] out[i]).0 == id;
                assert(shown[i].0 == id);
            }
        }
        out
    }

    /// What is written for the registry at `now`: each timer's record under
    /// its id, by rising id.
    pub fn snapshot(&self, now: Moment) -> (out: Vec<(u8, TimerRecord)>)
        ensures
            is_snapshot(self@, now@, out@),
    {
        let mut out: Vec<(u8, TimerRecord)> = Vec::new();
        let mut n: u16 = 0;
        while n < 256
            invariant
                n <= 256,
                forall|i: int|
                    0 <= i < out.len() ==> (#[trigger] out[i]).0 < n && self@.contains_key(
                        out[i].0,
                    ) && records(out[i].1, self@[out[i].0], now@),
                forall|id: u8|
                    id < n && self@.contains_key(id) ==> exists|i: int|
                        0 <= i < out.len() && (#[trigger] out[i]).0 == id,
                forall|i: int, j: int|
                    0 <= i < j < out.len() ==> (#[trigger] out[i]).0 < (#[trigger] out[j]).0,
            decreases 256 - n,
        {
            let id: u8 = n as u8;
            match self.timers.get(&id) {
                Some(timer) => {
                    let ghost before = out@;
                    out.push((id, timer.to_record(now)));
                    proof {
                        assert forall|other: u8|
                            other < n + 1 && self@.contains_key(other) implies exists|i: int|
                            0 <= i < out.len() && (#[trigger] out[i]).0 == other by {
                            if other == id {
                                assert(out[out.len() - 1].0 == id);
                            } else {
                                let i = choose|i: int|
                                    0 <= i < before.len() && (#[trigger] before[i]).0 == other;
                                assert(out[i].0 == other);
                            }
                        }
                    }
                },
                None => {},
            }
            n = n + 1;
        }
        out
    }

    /// The registry that `entries`, read at `now`, stand for. Where they are
    /// not [`acceptable`] the registry is empty.
    pub fn restore(entries: &Vec<(u8, TimerRecord)>, now: Moment) -> (r: TimerState)
        ensures
            registry_wf(r@),
            acceptable(entries@) ==> holds_restored(r@, entries@, now@),
            !acceptable(entries@) ==> r@ == Map::<u8, TimerView>::empty(),
    {
        let mut state = TimerState::new();
        let mut i: usize = 0;
        while i < entries.len()
            invariant
                i <= entries.len(),
                registry_wf(state@),
                acceptable(entries@.take(i as int)),
                holds_restored(state@, entries@.take(i as int), now@),
            decreases entries.len() - i,
        {
            let key: u8 = entries[i].0;
            let record = &entries[i].1;
            let start: u8 = record._type.pool_start();
            let fits = record.id == key && start <= key && key < start + POOL_SIZE;
            let free = !state.timers.contains_key(&key);
            let made = Timer::from_record(record, now);
            let ghost done = entries@.take(i as int);
            let ghost next = entries@.take(i + 1);
            match made {
                Some(timer) => {
                    if fits && free {
                        let ghost before = state@;
                        state.add_timer(timer);
                        proof {
                            assert(next =~= done.push(entries@[i as int]));
                            assert forall|a: int, b: int| 0 <= a < b < next.len() implies (
                            #[trigger] next[a]).0 != (#[trigger] next[b]).0 by {
                                if b == i {
                                    assert(before.contains_key(done[a].0));
                                }
                            }
                            assert forall|a: int| 0 <= a < next.len() implies state@.contains_key(
                                (#[trigger] next[a]).0,
                            ) && state@[next[a].0] == restored(next[a].1, now@) by {
                                if a < i {
                                    assert(before.contains_key(done[a].0));
                                }
                            }
                            assert forall|id: u8| state@.contains_key(id) implies exists|a: int|
                                0 <= a < next.len() && (#[trigger] next[a]).0 == id by {
                                if id == key {
                                    assert(next[i as int].0 == id);
                                } else {
                                    let a = choose|a: int|
                                        0 <= a < done.len() && (#[trigger] done[a]).0 == id;
                                    assert(next[a].0 == id);
                                }
                            }
                        }
                    } else {
                        proof {
                            lemma_rejected(entries@, i as int, now@, state@);
                        }
                        return TimerState::new();
                    }
                },
                None => {
                    proof {
                        lemma_rejected(entries@, i as int, now@, state@);
                    }
                    return TimerState::new();
                },
            }
            i = i + 1;
        }
        proof {
            assert(entries@.take(entries.len() as int) =~= entries@);
        }
        state
    }

    /// Whether any timer is active.
    pub fn has_active(&self) -> (r: bool)
        ensures
            r == any_active(self@),
    {
        let mut n: u16 = 0;
        while n < 256
            invariant
                n <= 256,
                forall|j: u8| j < n && self@.contains_key(j) ==> !(#[trigger] self@[j]).active,
            decreases 256 - n,
        {
            let id: u8 = n as u8;
            match self.timers.get(&id) {
                Some(timer) => {
                    if timer.active() {
                        assert(self@.contains_key(id) && self@[id].active);
                        return true;
                    }
                },
                None => {},
            }
            n = n + 1;
        }
        false
    }

    /// The lowest id of `timer_type`'s pool that no timer has, if there is
    /// one. The registry stays as it is.
    pub fn find_available_id(&mut self, timer_type: &TimerType) -> (r: Option<u8>)
        ensures
            *final(self) == *old(self),
            match r {
                Some(id) => lowest_free(old(self)@, *timer_type, id),
                None => pool_full(old(self)@, *timer_type),
            },
    {
        let start: u8 = timer_type.pool_start();
        let mut id: u8 = start;
        while id < start + POOL_SIZE
            invariant
                *self == *old(self),
                start == timer_type.first_id(),
                start <= id <= start + POOL_SIZE,
                forall|j: u8| start <= j < id ==> self@.contains_key(j),
            decreases start + POOL_SIZE - id,
        {
            if !self.timers.contains_key(&id) {
                return Some(id);
            }
            id = id + 1;
        }
        None
    }
}

} // verus!
