//! The operations that the application offers on its registry. Each takes
//! the registry, which the caller holds under its lock, and the current
//! moment where the clock matters, and says in its result what the caller
//! has to do next: store the registry, show a notice, close the window.

use crate::functions::{is_expiry_notice, Notification};
use crate::time::Moment;
use crate::timer::registry::{
    acceptable, any_active, entries_view, holds_restored, is_listing, is_snapshot, lowest_free,
    pool_full, registry_wf,
};
use crate::timer::{Timer, TimerRecord, TimerState, TimerType, TimerView};
use vstd::prelude::*;

verus! {

/// Why an operation did not do what it was asked.
#[derive(Clone, Copy, Debug, PartialEq, Eq, Structural)]
pub enum TimerError {
    /// Every id of the kind's pool has a timer.
    PoolExhausted,
    /// The timer is active and cannot be deleted.
    Refused,
}

/// What a query for a timer's time left gives.
#[derive(Debug)]
pub struct Remaining {
    /// The whole milliseconds left; zero where no timer stands under the id.
    pub remaining_ms: u128,
    /// The notice to show, where this query found that the timer has run out.
    pub notice: Option<Notification>,
    /// Whether the application may close a window that is hidden: the
    /// reading is zero and no timer is active any more.
    pub may_close: bool,
}

/// Whether `r` answers a query at `now` for the timer under `id`, asked of
/// the registry `before`.
pub open spec fn is_remaining(r: Remaining, before: Map<u8, TimerView>, id: u8, now: nat) -> bool {
    if before.contains_key(id) {
        &&& r.remaining_ms == before[id].remaining(now)
        &&& r.notice is Some <==> before[id].expires_at(now)
        &&& r.notice is Some ==> is_expiry_notice(
            r.notice->0,
            before[id].name,
            before[id].initial_duration,
        )
        &&& r.may_close == (before[id].remaining(now) == 0 && !any_active(
            before.insert(id, before[id].polled(now)),
        ))
    } else {
        r.remaining_ms == 0 && r.notice is None && !r.may_close
    }
}

/// The registry that the application starts with: no timers. The caller
/// puts it under its lock.
pub fn init_state() -> (r: TimerState)
    ensures
        r@ == Map::<u8, TimerView>::empty(),
        registry_wf(r@),
{
    TimerState::new()
}

/// The registry that a stored document, read at `now`, stands for.
/// `entries` are the document's timers, each under its key. `None` is for
/// a document that could not be read at all. Such a document, and one whose
/// entries are not [`acceptable`], give the empty registry.
pub fn load_timers(entries: Option<Vec<(u8, TimerRecord)>>, now: Moment) -> (r: TimerState)
    ensures
        registry_wf(r@),
        match entries {
            Some(entries) => {
                &&& acceptable(entries@) ==> holds_restored(r@, entries@, now@)
                &&& !acceptable(entries@) ==> r@ == Map::<u8, TimerView>::empty()
            },
            None => r@ == Map::<u8, TimerView>::empty(),
        },
{
    match entries {
        Some(entries) => TimerState::restore(&entries, now),
        None => TimerState::new(),
    }
}

/// What the caller writes to the stored document at `now`: a record of each
/// timer under its id, by rising id.
pub fn save_timers(state: &TimerState, now: Moment) -> (out: Vec<(u8, TimerRecord)>)
    ensures
        is_snapshot(state@, now@, out@),
{
    state.snapshot(now)
}

/// The timers with their ids, all or those of one kind, by the whole
/// seconds of their stored duration and then by id.
pub fn get_timers(state: &TimerState, _type: Option<TimerType>) -> (out: Vec<(u8, Timer)>)
    ensures
        is_listing(state@, _type, entries_view(out@)),
{
    state.list(_type)
}

/// Makes an idle timer of `seconds` seconds under the lowest free id of the
/// kind's pool and gives that id. Where the pool is full the registry stays
/// as it is. After an `Ok` the caller stores the registry.
pub fn create_timer(state: &mut TimerState, _type: TimerType, seconds: u64, name: String) -> (r:
    Result<u8, TimerError>)
    ensures
        match r {
            Ok(id) => {
                &&& lowest_free(old(state)@, _type, id)
                &&& final(state)@ == old(state)@.insert(
                    id,
                    TimerView::fresh(seconds, _type, id, name@),
                )
            },
            Err(e) => {
                &&& e == TimerError::PoolExhausted
                &&& pool_full(old(state)@, _type)
                &&& final(state)@ == old(state)@
            },
        },
        registry_wf(old(state)@) ==> registry_wf(final(state)@),
{
    match state.find_available_id(&_type) {
        Some(id) => {
            let timer = Timer::new(seconds, _type, id, name);
            state.add_timer(timer);
            Ok(id)
        },
        None => Err(TimerError::PoolExhausted),
    }
}

/// Deletes the timer under `id`, unless it is active: then the registry
/// stays as it is. Where no timer stands under `id` there is nothing to
/// delete and the answer is `Ok`. After an `Ok` the caller stores the
/// registry.
pub fn del_timer(state: &mut TimerState, id: u8) -> (r: Result<(), TimerError>)
    ensures
        match r {
            Ok(_) => {
                &&& !(old(state)@.contains_key(id) && old(state)@[id].active)
                &&& final(state)@ == old(state)@.remove(id)
            },
            Err(e) => {
                &&& e == TimerError::Refused
                &&& old(state)@.contains_key(id) && old(state)@[id].active
                &&& final(state)@ == old(state)@
            },
        },
        registry_wf(old(state)@) ==> registry_wf(final(state)@),
{
    if state.remove_timer(id) {
        Ok(())
    } else {
        Err(TimerError::Refused)
    }
}

/// Starts the timer under `id` at `now`. `None` where no timer stands under
/// `id`; else `Some(true)`.
pub fn start_timer(state: &mut TimerState, id: u8, now: Moment) -> (r: Option<bool>)
    ensures
        match r {
            Some(started) => {
                &&& started
                &&& old(state)@.contains_key(id)
                &&& final(state)@ == old(state)@.insert(id, old(state)@[id].started(now@))
            },
            None => !old(state)@.contains_key(id) && final(state)@ == old(state)@,
        },
        registry_wf(old(state)@) ==> registry_wf(final(state)@),
{
    match state.get_timer(id) {
        Some(timer) => {
            timer.start_at(now);
            Some(true)
        },
        None => None,
    }
}

/// Toggles the pause of the timer under `id` at `now` and tells whether the
/// timer then stands still. `false` where no timer stands under `id`.
pub fn timer_play_pause(state: &mut TimerState, id: u8, now: Moment) -> (r: bool)
    ensures
        old(state)@.contains_key(id) ==> {
            &&& final(state)@ == old(state)@.insert(id, old(state)@[id].toggled(now@))
            &&& r == old(state)@[id].toggled(now@).paused
        },
        !old(state)@.contains_key(id) ==> !r && final(state)@ == old(state)@,
        registry_wf(old(state)@) ==> registry_wf(final(state)@),
{
    match state.get_timer(id) {
        Some(timer) => {
            timer.toggle_pause_at(now);
            timer.paused()
        },
        None => false,
    }
}

/// Puts the timer under `id` back to idle with its initial duration. `None`
/// where no timer stands under `id`; else `Some(false)`: the timer is no
/// longer active.
pub fn reset_timer(state: &mut TimerState, id: u8) -> (r: Option<bool>)
    ensures
        match r {
            Some(active) => {
                &&& !active
                &&& old(state)@.contains_key(id)
                &&& final(state)@ == old(state)@.insert(id, old(state)@[id].rewound())
            },
            None => !old(state)@.contains_key(id) && final(state)@ == old(state)@,
        },
        registry_wf(old(state)@) ==> registry_wf(final(state)@),
{
    match state.get_timer(id) {
        Some(timer) => {
            timer.reset();
            Some(false)
        },
        None => None,
    }
}

/// The time left at `now` on the timer under `id`, in whole milliseconds.
/// A timer that has run out is put back to idle by the query that finds it
/// so, and only that query carries the notice. Where the reading is zero and
/// no timer is active after the query, the answer says that a hidden window
/// may close.
pub fn get_remaining_ms(state: &mut TimerState, id: u8, now: Moment) -> (r: Remaining)
    ensures
        is_remaining(r, old(state)@, id, now@),
        old(state)@.contains_key(id) ==> final(state)@ == old(state)@.insert(
            id,
            old(state)@[id].polled(now@),
        ),
        !old(state)@.contains_key(id) ==> final(state)@ == old(state)@,
        registry_wf(old(state)@) ==> registry_wf(final(state)@),
{
    let reading = match state.get_timer(id) {
        Some(timer) => timer.remaining_ms_at(now),
        None => {
            return Remaining { remaining_ms: 0, notice: None, may_close: false };
        },
    };
    let mut may_close = false;
    if reading.remaining_ms == 0 {
        may_close = !state.has_active();
    }
    Remaining { remaining_ms: reading.remaining_ms, notice: reading.notice, may_close }
}

} // verus!
