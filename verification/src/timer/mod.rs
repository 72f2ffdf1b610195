//! Countdown timers and the registry that holds them.
//!
//! A timer is idle, running or paused. While it runs, the time left is its
//! deadline minus now; otherwise it is the stored duration. Running out is
//! noticed by the query that first sees no whole millisecond left: that
//! query puts the timer back to idle and hands out the notice to show.

pub mod commands;
pub mod registry;
pub mod theorems;
pub mod timestamp;

pub use registry::TimerState;

use crate::functions::{expiry_notice, is_expiry_notice, Notification};
use crate::time::{millis_of, minus_or_zero, now, plus_or_max, Moment, Span, NANOS_PER_SEC};
use crate::timer::timestamp::{deserialize, serialize, stamp, unstamp};
use vstd::prelude::*;

verus! {

/// The ids that one kind of timer can take: each kind has this many.
pub const POOL_SIZE: u8 = 10;

/// What a timer starts with beyond its whole seconds, in nanoseconds.
pub const HEAD_START_NANOS: u32 = 100;

/// The kind of a timer. Each kind has its own pool of ids.
#[derive(Clone, Copy, Debug, PartialEq, Eq, Structural)]
pub enum TimerType {
    /// The timers of the timer page.
    Default,
    /// Timers that belong to tests.
    Test,
}

impl TimerType {
    /// The lowest id of this kind's pool.
    pub open spec fn first_id(self) -> nat {
        match self {
            TimerType::Default => 0,
            TimerType::Test => 10,
        }
    }

    /// Whether `id` lies in this kind's pool.
    pub open spec fn owns(self, id: u8) -> bool {
        self.first_id() <= id < self.first_id() + POOL_SIZE
    }

    /// The lowest id of this kind's pool.
    pub fn pool_start(&self) -> (r: u8)
        ensures
            r == self.first_id(),
    {
        match self {
            TimerType::Default => 0,
            TimerType::Test => 10,
        }
    }
}

/// One countdown.
#[derive(Debug)]
pub struct Timer {
    _type: TimerType,
    id: u8,
    name: String,
    end_time: Option<Moment>,
    duration: Span,
    initial_duration: Span,
    active: bool,
    paused: bool,
}

/// What a [`Timer`] holds, as mathematical values: times in nanoseconds.
pub struct TimerView {
    pub category: TimerType,
    pub id: u8,
    pub name: Seq<char>,
    pub end_time: Option<nat>,
    pub duration: nat,
    pub initial_duration: nat,
    pub active: bool,
    pub paused: bool,
}

impl TimerView {
    /// Not started, or put back: nothing counts down and no deadline is set.
    pub open spec fn is_idle(self) -> bool {
        !self.active && self.paused && self.end_time is None
    }

    /// Started and halted: `duration` holds what was left at the halt.
    pub open spec fn is_paused(self) -> bool {
        self.active && self.paused && self.end_time is None
    }

    /// Counting down towards the deadline.
    pub open spec fn is_running(self) -> bool {
        self.active && !self.paused && self.end_time is Some
    }

    /// A timer is in exactly one of the three states.
    pub open spec fn wf(self) -> bool {
        self.is_idle() || self.is_paused() || self.is_running()
    }

    /// The timer as `new` makes it.
    pub open spec fn fresh(seconds: u64, category: TimerType, id: u8, name: Seq<char>) -> TimerView {
        TimerView {
            category,
            id,
            name,
            end_time: None,
            duration: (seconds * NANOS_PER_SEC + HEAD_START_NANOS) as nat,
            initial_duration: (seconds * NANOS_PER_SEC + HEAD_START_NANOS) as nat,
            active: false,
            paused: true,
        }
    }

    /// The timer after a start at `now`.
    pub open spec fn started(self, now: nat) -> TimerView {
        TimerView {
            end_time: Some(plus_or_max(now, self.duration)),
            active: true,
            paused: false,
            ..self
        }
    }

    /// The timer after its pause was toggled at `now`: a running timer halts
    /// and keeps what was left, a halted one runs on from `now`, an idle one
    /// stays as it is.
    pub open spec fn toggled(self, now: nat) -> TimerView {
        if !self.active {
            self
        } else if self.paused {
            TimerView { end_time: Some(plus_or_max(now, self.duration)), paused: false, ..self }
        } else {
            TimerView {
                duration: match self.end_time {
                    Some(end) => minus_or_zero(end, now),
                    None => self.duration,
                },
                end_time: None,
                paused: true,
                ..self
            }
        }
    }

    /// The timer put back to idle with its initial duration.
    pub open spec fn rewound(self) -> TimerView {
        TimerView {
            end_time: None,
            duration: self.initial_duration,
            active: false,
            paused: true,
            ..self
        }
    }

    /// Whether the timer counts down towards a deadline.
    pub open spec fn counts_down(self) -> bool {
        !self.paused && self.active && self.end_time is Some
    }

    /// The nanoseconds left at `now`.
    pub open spec fn left(self, now: nat) -> nat {
        if self.paused {
            self.duration
        } else if self.active && self.end_time is Some {
            minus_or_zero(self.end_time->0, now)
        } else {
            self.initial_duration
        }
    }

    /// The whole milliseconds left at `now`.
    pub open spec fn remaining(self, now: nat) -> nat {
        millis_of(self.left(now))
    }

    /// Whether a query at `now` finds that the timer has run out: it counts
    /// down and no whole millisecond is left.
    pub open spec fn expires_at(self, now: nat) -> bool {
        self.counts_down() && self.remaining(now) == 0
    }

    /// The timer after a query at `now`.
    pub open spec fn polled(self, now: nat) -> TimerView {
        if self.expires_at(now) {
            self.rewound()
        } else {
            self
        }
    }
}

impl View for Timer {
    type V = TimerView;

    closed spec fn view(&self) -> TimerView {
        TimerView {
            category: self._type,
            id: self.id,
            name: self.name@,
            end_time: match self.end_time {
                Some(end) => Some(end@),
                None => None,
            },
            duration: self.duration@,
            initial_duration: self.initial_duration@,
            active: self.active,
            paused: self.paused,
        }
    }
}

/// A timer as it is written to the stored document. In place of the
/// deadline stand the milliseconds since it: see [`timestamp`].
#[derive(Debug)]
pub struct TimerRecord {
    pub _type: TimerType,
    pub id: u8,
    pub name: String,
    pub end_time: u64,
    pub duration: Span,
    pub initial_duration: Span,
    pub active: bool,
    pub paused: bool,
}

/// Whether `record` is what is written for the timer `t` at `now`.
pub open spec fn records(record: TimerRecord, t: TimerView, now: nat) -> bool {
    &&& record._type == t.category
    &&& record.id == t.id
    &&& record.name@ == t.name
    &&& record.end_time == stamp(t.end_time, now)
    &&& record.duration@ == t.duration
    &&& record.initial_duration@ == t.initial_duration
    &&& record.active == t.active
    &&& record.paused == t.paused
}

/// Whether the flags of `record` are those of an idle, a paused or a
/// running timer.
pub open spec fn record_ok(record: TimerRecord) -> bool {
    record.paused || record.active
}

/// The timer that `record`, read at `now`, stands for: a running timer gets
/// the deadline that the record's milliseconds give, any other gets none.
pub open spec fn restored(record: TimerRecord, now: nat) -> TimerView {
    TimerView {
        category: record._type,
        id: record.id,
        name: record.name@,
        end_time: if record.active && !record.paused {
            Some(unstamp(record.end_time, now))
        } else {
            None
        },
        duration: record.duration@,
        initial_duration: record.initial_duration@,
        active: record.active,
        paused: record.paused,
    }
}

/// What a query for the time left gives.
#[derive(Debug)]
pub struct Reading {
    /// The whole milliseconds left.
    pub remaining_ms: u128,
    /// The notice to show, where this query found that the timer has run out.
    pub notice: Option<Notification>,
}

/// Whether `r` is what a query at `now` gives for a timer that was `before`.
pub open spec fn is_reading(r: Reading, before: TimerView, now: nat) -> bool {
    &&& r.remaining_ms == before.remaining(now)
    &&& r.notice is Some <==> before.expires_at(now)
    &&& r.notice is Some ==> is_expiry_notice(r.notice->0, before.name, before.initial_duration)
}

impl Clone for Timer {
    fn clone(&self) -> (r: Timer)
        ensures
            r@ == self@,
    {
        Timer {
            _type: self._type,
            id: self.id,
            name: self.name.clone(),
            end_time: self.end_time,
            duration: self.duration,
            initial_duration: self.initial_duration,
            active: self.active,
            paused: self.paused,
        }
    }
}

impl Timer {
    /// The timer's id.
    pub fn id(&self) -> (r: u8)
        ensures
            r == self@.id,
    {
        self.id
    }

    /// The kind of the timer.
    pub fn timer_type(&self) -> (r: TimerType)
        ensures
            r == self@.category,
    {
        self._type
    }

    /// The timer's label.
    pub fn name(&self) -> (r: &str)
        ensures
            r@ == self@.name,
    {
        self.name.as_str()
    }

    /// The deadline, which is set while the timer runs.
    pub fn end_time(&self) -> (r: Option<Moment>)
        ensures
            r is Some <==> self@.end_time is Some,
            r is Some ==> r->0@ == self@.end_time->0,
    {
        self.end_time
    }

    /// The stored time left: what counts while the timer does not run.
    pub fn duration(&self) -> (r: Span)
        ensures
            r@ == self@.duration,
    {
        self.duration
    }

    /// The duration that a reset gives back.
    pub fn initial_duration(&self) -> (r: Span)
        ensures
            r@ == self@.initial_duration,
    {
        self.initial_duration
    }

    /// Whether the timer was started and not yet put back.
    pub fn active(&self) -> (r: bool)
        ensures
            r == self@.active,
    {
        self.active
    }

    /// Whether the countdown stands still.
    pub fn paused(&self) -> (r: bool)
        ensures
            r == self@.paused,
    {
        self.paused
    }

    /// What is written for the timer at `now`.
    pub fn to_record(&self, now: Moment) -> (r: TimerRecord)
        ensures
            records(r, self@, now@),
    {
        TimerRecord {
            _type: self._type,
            id: self.id,
            name: self.name.clone(),
            end_time: serialize(self.end_time, now),
            duration: self.duration,
            initial_duration: self.initial_duration,
            active: self.active,
            paused: self.paused,
        }
    }

    /// The timer that `record`, read at `now`, stands for, where its flags
    /// are those of one of the three states.
    pub fn from_record(record: &TimerRecord, now: Moment) -> (r: Option<Timer>)
        ensures
            r is Some <==> record_ok(*record),
            r is Some ==> r->0@ == restored(*record, now@) && r->0@.wf(),
    {
        if !record.paused && !record.active {
            return None;
        }
        let end_time = if record.active && !record.paused {
            deserialize(record.end_time, now)
        } else {
            None
        };
        Some(
            Timer {
                _type: record._type,
                id: record.id,
                name: record.name.clone(),
                end_time,
                duration: record.duration,
                initial_duration: record.initial_duration,
                active: record.active,
                paused: record.paused,
            },
        )
    }

    /// An idle timer of `seconds` seconds and a head start of
    /// [`HEAD_START_NANOS`].
    pub fn new(seconds: u64, _type: TimerType, id: u8, name: String) -> (r: Timer)
        ensures
            r@ == TimerView::fresh(seconds, _type, id, name@),
            r@.wf(),
    {
        Timer {
            _type,
            id,
            name,
            end_time: None,
            duration: Span::new(seconds, HEAD_START_NANOS),
            initial_duration: Span::new(seconds, HEAD_START_NANOS),
            active: false,
            paused: true,
        }
    }

    /// Starts the countdown at `now`: the deadline is `now` plus the stored
    /// duration, held at the end of the clock's range.
    pub fn start_at(&mut self, now: Moment)
        ensures
            final(self)@ == old(self)@.started(now@),
            final(self)@.is_running(),
    {
        self.end_time = Some(now.after(self.duration));
        self.active = true;
        self.paused = false;
    }

    /// Starts the countdown at the moment the system clock gives.
    pub fn start(&mut self)
        ensures
            exists|now: nat| final(self)@ == #[trigger] old(self)@.started(now),
            final(self)@.is_running(),
    {
        self.start_at(now());
    }

    /// Halts a running timer at `now`, or lets a halted one run on from
    /// `now`. An idle timer has nothing to halt and stays as it is.
    pub fn toggle_pause_at(&mut self, now: Moment)
        ensures
            final(self)@ == old(self)@.toggled(now@),
            old(self)@.wf() ==> final(self)@.wf(),
            old(self)@.is_running() ==> final(self)@.is_paused(),
            old(self)@.is_paused() ==> final(self)@.is_running(),
    {
        if !self.active {
            return ;
        }
        if self.paused {
            self.end_time = Some(now.after(self.duration));
        } else {
            if let Some(end_time) = self.end_time {
                self.duration = end_time.saturating_since(now);
            }
            self.end_time = None;
        }
        self.paused = !self.paused;
    }

    /// Toggles the pause at the moment the system clock gives.
    pub fn toggle_pause(&mut self)
        ensures
            exists|now: nat| final(self)@ == #[trigger] old(self)@.toggled(now),
            old(self)@.wf() ==> final(self)@.wf(),
            old(self)@.is_running() ==> final(self)@.is_paused(),
            old(self)@.is_paused() ==> final(self)@.is_running(),
    {
        self.toggle_pause_at(now());
    }

    /// Puts the timer back to idle with its initial duration.
    pub fn reset(&mut self)
        ensures
            final(self)@ == old(self)@.rewound(),
            final(self)@.is_idle(),
            final(self)@.duration == old(self)@.initial_duration,
    {
        self.end_time = None;
        self.duration = self.initial_duration;
        self.active = false;
        self.paused = true;
    }

    /// The time left at `now`, in whole milliseconds. Where the timer counts
    /// down and no whole millisecond is left, it is put back to idle and the
    /// reading carries the notice to show; the reading is then zero. No other
    /// query changes the timer or carries a notice.
    pub fn remaining_ms_at(&mut self, now: Moment) -> (r: Reading)
        ensures
            is_reading(r, old(self)@, now@),
            final(self)@ == old(self)@.polled(now@),
            old(self)@.wf() ==> final(self)@.wf(),
    {
        if self.paused {
            return Reading { remaining_ms: self.duration.as_millis(), notice: None };
        }
        if self.active {
            if let Some(end_time) = self.end_time {
                let remaining_ms: u128 = end_time.saturating_since(now).as_millis();
                let mut notice: Option<Notification> = None;
                if remaining_ms == 0 {
                    self.reset();
                    notice = Some(expiry_notice(self.name.as_str(), self.initial_duration));
                }
                return Reading { remaining_ms, notice };
            }
        }
        Reading { remaining_ms: self.initial_duration.as_millis(), notice: None }
    }

    /// The time left at the moment the system clock gives.
    pub fn remaining_ms(&mut self) -> (r: Reading)
        ensures
            exists|now: nat|
                is_reading(r, old(self)@, now) && final(self)@ == #[trigger] old(self)@.polled(now),
            old(self)@.wf() ==> final(self)@.wf(),
    {
        self.remaining_ms_at(now())
    }
}

} // verus!
