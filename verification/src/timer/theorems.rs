//! What follows from the contracts of the timers and the registry, proved
//! over the same spec functions that those contracts use.

use crate::time::{millis_of, NANOS_PER_MILLI};
use crate::timer::registry::{
    acceptable, comes_before, is_listing, is_snapshot, listed, lowest_free, pool_full,
    registry_wf,
};
use crate::timer::timestamp::{stamp, unstamp};
use crate::timer::{record_ok, records, restored, TimerRecord, TimerType, TimerView, POOL_SIZE};
use vstd::prelude::*;

verus! {

/// A query that follows a start within a tenth of a second reads the
/// stored duration, less at most a hundred milliseconds. The start must not
/// have pushed the deadline against the end of the clock's range.
pub proof fn theorem_query_right_after_start(t: TimerView, start: nat, query: nat)
    requires
        start <= query <= start + 100 * NANOS_PER_MILLI,
        start + t.duration <= u128::MAX,
    ensures
        t.started(start).remaining(query) <= millis_of(t.duration),
        millis_of(t.duration) <= t.started(start).remaining(query) + 100,
{
    let d = t.duration as int;
    let e = (query - start) as int;
    let m = NANOS_PER_MILLI as int;
    if d > e {
        assert((d - e) / m <= d / m) by (nonlinear_arith)
            requires
                0 <= e,
                0 <= d - e,
                m > 0,
        ;
        assert(d / m <= (d - e) / m + 100) by (nonlinear_arith)
            requires
                0 <= e <= 100 * m,
                0 <= d - e,
                m > 0,
        ;
    } else {
        assert(d / m <= 100) by (nonlinear_arith)
            requires
                0 <= d <= 100 * m,
                m > 0,
        ;
    }
}

/// A timer that is started and halted `delta` later holds its stored
/// duration less `delta`; run on at any later moment and halted `delta`
/// after that, it holds the duration less twice `delta`. Neither run must
/// have pushed the deadline against the end of the clock's range.
pub proof fn theorem_pause_keeps_what_is_left(t: TimerView, start: nat, delta: nat, again: nat)
    requires
        start + t.duration <= u128::MAX,
        again + t.duration <= u128::MAX,
        2 * delta <= t.duration,
    ensures
        ({
            let once = t.started(start).toggled(start + delta);
            let twice = once.toggled(again).toggled(again + delta);
            &&& once.is_paused()
            &&& once.duration == t.duration - delta
            &&& once.remaining(again) == millis_of((t.duration - delta) as nat)
            &&& twice.is_paused()
            &&& twice.duration == t.duration - 2 * delta
            &&& twice.initial_duration == t.initial_duration
        }),
{
}

/// A reset gives an idle timer with the initial duration, from any state.
pub proof fn theorem_reset_restores(t: TimerView)
    ensures
        t.rewound().is_idle(),
        t.rewound().duration == t.initial_duration,
        t.rewound().initial_duration == t.initial_duration,
        t.rewound().rewound() == t.rewound(),
{
}

/// A running timer whose deadline has come has run out.
pub proof fn theorem_deadline_runs_out(t: TimerView, now: nat)
    requires
        t.is_running(),
        t.end_time->0 <= now,
    ensures
        t.expires_at(now),
{
}

/// Running out is seen once. The query that finds the timer run out reads
/// zero and leaves it idle; every later query, whenever it comes, reads the
/// whole initial duration, finds nothing run out and changes nothing.
pub proof fn theorem_runs_out_once(t: TimerView, now: nat, later: nat)
    requires
        t.expires_at(now),
    ensures
        t.remaining(now) == 0,
        t.polled(now).is_idle(),
        !t.polled(now).expires_at(later),
        t.polled(now).remaining(later) == millis_of(t.initial_duration),
        t.polled(now).polled(later) == t.polled(now),
{
}

/// Every transition keeps a timer in one of its three states.
pub proof fn theorem_states_are_kept(t: TimerView, now: nat)
    requires
        t.wf(),
    ensures
        t.started(now).is_running(),
        t.toggled(now).wf(),
        t.rewound().is_idle(),
        t.polled(now).wf(),
        t.is_idle() ==> t.toggled(now) == t,
        t.is_running() ==> t.toggled(now).is_paused(),
        t.is_paused() ==> t.toggled(now).is_running(),
{
}

/// Whether `after` is `before` with one timer more, under the lowest free id
/// of `kind`'s pool.
pub open spec fn created_in(
    before: Map<u8, TimerView>,
    after: Map<u8, TimerView>,
    kind: TimerType,
) -> bool {
    exists|id: u8| #[trigger] lowest_free(before, kind, id) && after == before.insert(id, after[id])
}

proof fn lemma_pool_fills(states: Seq<Map<u8, TimerView>>, kind: TimerType, k: nat)
    requires
        k < states.len(),
        forall|i: int| 0 <= i < k ==> created_in(#[trigger] states[i], states[i + 1], kind),
    ensures
        forall|j: u8| kind.first_id() <= j < kind.first_id() + k ==> states[k as int].contains_key(j),
        k <= POOL_SIZE,
    decreases k,
{
    if k > 0 {
        lemma_pool_fills(states, kind, (k - 1) as nat);
        let before = states[k - 1];
        let after = states[k as int];
        assert(created_in(states[k - 1], states[k - 1 + 1], kind));
        let id = choose|id: u8| #[trigger]
            lowest_free(before, kind, id) && after == before.insert(id, after[id]);
        assert(id >= kind.first_id() + (k - 1)) by {
            if id < kind.first_id() + (k - 1) {
                assert(before.contains_key(id));
            }
        }
        assert forall|j: u8| kind.first_id() <= j < kind.first_id() + k implies after.contains_key(
            j,
        ) by {
            if j < id {
                assert(before.contains_key(j));
            }
        }
    }
}

/// Ten timers made one after the other in one kind fill its pool: an
/// eleventh cannot be made. (`create_timer` then fails with
/// `PoolExhausted` and leaves the registry as it is.)
pub proof fn theorem_ten_fill_the_pool(states: Seq<Map<u8, TimerView>>, kind: TimerType)
    requires
        states.len() == POOL_SIZE + 1,
        forall|i: int| 0 <= i < POOL_SIZE ==> created_in(#[trigger] states[i], states[i + 1], kind),
    ensures
        pool_full(states[POOL_SIZE as int], kind),
        forall|id: u8| !lowest_free(states[POOL_SIZE as int], kind, id),
{
    lemma_pool_fills(states, kind, POOL_SIZE as nat);
}

/// No id belongs to the pools of two kinds.
pub proof fn theorem_pools_are_disjoint(a: TimerType, b: TimerType, id: u8)
    requires
        a.owns(id),
        b.owns(id),
    ensures
        a == b,
{
}

/// The ids of `kind`'s pool.
pub open spec fn pool(kind: TimerType) -> Set<u8> {
    Set::new(|id: u8| kind.owns(id))
}

/// The ids of the timers of `kind` in `m`.
pub open spec fn ids_of_kind(m: Map<u8, TimerView>, kind: TimerType) -> Set<u8> {
    Set::new(|id: u8| m.contains_key(id) && m[id].category == kind)
}

/// A well-formed registry holds at most ten timers of each kind.
pub proof fn theorem_at_most_ten_of_a_kind(m: Map<u8, TimerView>, kind: TimerType)
    requires
        registry_wf(m),
    ensures
        ids_of_kind(m, kind).finite(),
        ids_of_kind(m, kind).len() <= POOL_SIZE,
{
    let f: u8 = kind.first_id() as u8;
    let ten: Set<u8> = set![
        f,
        (f + 1) as u8,
        (f + 2) as u8,
        (f + 3) as u8,
        (f + 4) as u8,
        (f + 5) as u8,
        (f + 6) as u8,
        (f + 7) as u8,
        (f + 8) as u8,
        (f + 9) as u8,
    ];
    assert(pool(kind) =~= ten);
    assert(ten.finite() && ten.len() == 10);
    assert(ids_of_kind(m, kind).subset_of(pool(kind))) by {
        assert forall|id: u8| ids_of_kind(m, kind).contains(id) implies pool(kind).contains(id) by {
            assert(m.contains_key(id));
        }
    }
    vstd::set_lib::lemma_len_subset(ids_of_kind(m, kind), pool(kind));
}

/// What is written for a timer in one of its three states can be read
/// back. A timer that does not run comes back as it was. A running timer
/// comes back with the deadline that its milliseconds give at the reading,
/// which is not after the reading: the first query finds it run out.
pub proof fn theorem_written_timer_comes_back(
    t: TimerView,
    record: TimerRecord,
    written: nat,
    read: nat,
)
    requires
        t.wf(),
        records(record, t, written),
    ensures
        record_ok(record),
        restored(record, read).wf(),
        !t.is_running() ==> restored(record, read) == t,
        t.is_running() ==> restored(record, read) == (TimerView {
            end_time: Some(unstamp(stamp(t.end_time, written) as u64, read)),
            ..t
        }) && restored(record, read).expires_at(read),
{
}

/// What is written for a well-formed registry is acceptable when it is read
/// back.
pub proof fn theorem_written_registry_is_acceptable(
    m: Map<u8, TimerView>,
    now: nat,
    written: Seq<(u8, TimerRecord)>,
)
    requires
        registry_wf(m),
        is_snapshot(m, now, written),
    ensures
        acceptable(written),
{
    assert forall|i: int| 0 <= i < written.len() implies {
        let (key, record) = #[trigger] written[i];
        record_ok(record) && record.id == key && record._type.owns(key)
    } by {
        assert(m.contains_key(written[i].0));
    }
}

/// What is written after a timer was deleted holds every other timer and
/// nothing under the deleted id.
pub proof fn theorem_deleted_timer_is_not_written(
    m: Map<u8, TimerView>,
    id: u8,
    now: nat,
    written: Seq<(u8, TimerRecord)>,
)
    requires
        is_snapshot(m.remove(id), now, written),
    ensures
        forall|i: int| 0 <= i < written.len() ==> (#[trigger] written[i]).0 != id,
        forall|other: u8|
            m.contains_key(other) && other != id ==> exists|i: int|
                0 <= i < written.len() && (#[trigger] written[i]).0 == other,
{
    assert forall|other: u8| m.contains_key(other) && other != id implies exists|i: int|
        0 <= i < written.len() && (#[trigger] written[i]).0 == other by {
        assert(m.remove(id).contains_key(other));
    }
}

/// Whether the entries of `s` come in the order of a listing of `m`.
pub open spec fn in_listing_order(m: Map<u8, TimerView>, s: Seq<(u8, TimerView)>) -> bool {
    forall|i: int, j: int|
        0 <= i < j < s.len() ==> comes_before(m, (#[trigger] s[i]).0, (#[trigger] s[j]).0)
}

/// A registry has one listing under a filter.
pub proof fn theorem_listing_is_unique(
    m: Map<u8, TimerView>,
    filter: Option<TimerType>,
    a: Seq<(u8, TimerView)>,
    b: Seq<(u8, TimerView)>,
)
    requires
        is_listing(m, filter, a),
        is_listing(m, filter, b),
    ensures
        a == b,
    decreases a.len(),
{
    if a.len() == 0 {
        if b.len() > 0 {
            assert(listed(m, filter, b[0].0));
        }
        assert(a =~= b);
    } else if b.len() == 0 {
        assert(listed(m, filter, a[0].0));
    } else {
        let x = a.last().0;
        let y = b.last().0;
        assert(listed(m, filter, x));
        assert(listed(m, filter, y));
        let ib = choose|i: int| 0 <= i < b.len() && (#[trigger] b[i]).0 == x;
        let ia = choose|i: int| 0 <= i < a.len() && (#[trigger] a[i]).0 == y;
        assert(x == y) by {
            if ib < b.len() - 1 {
                assert(comes_before(m, b[ib].0, b[b.len() - 1].0));
            }
            if ia < a.len() - 1 {
                assert(comes_before(m, a[ia].0, a[a.len() - 1].0));
            }
        }
        let rest = m.remove(x);
        let a0 = a.drop_last();
        let b0 = b.drop_last();
        lemma_listing_without_last(m, filter, a);
        lemma_listing_without_last(m, filter, b);
        theorem_listing_is_unique(rest, filter, a0, b0);
        assert(a.last() == b.last());
        assert(a =~= a0.push(a.last()));
        assert(b =~= b0.push(b.last()));
    }
}

proof fn lemma_listing_without_last(
    m: Map<u8, TimerView>,
    filter: Option<TimerType>,
    a: Seq<(u8, TimerView)>,
)
    requires
        is_listing(m, filter, a),
        a.len() > 0,
    ensures
        is_listing(m.remove(a.last().0), filter, a.drop_last()),
{
    let x = a.last().0;
    let rest = m.remove(x);
    let a0 = a.drop_last();
    assert forall|i: int| 0 <= i < a0.len() implies listed(rest, filter, (#[trigger] a0[i]).0)
        && a0[i].1 == rest[a0[i].0] by {
        assert(a0[i] == a[i]);
        assert(comes_before(m, a[i].0, a[a.len() - 1].0));
    }
    assert forall|id: u8| listed(rest, filter, id) implies exists|i: int|
        0 <= i < a0.len() && (#[trigger] a0[i]).0 == id by {
        assert(listed(m, filter, id));
        let i = choose|i: int| 0 <= i < a.len() && (#[trigger] a[i]).0 == id;
        assert(a0[i].0 == id);
    }
    assert forall|i: int, j: int| 0 <= i < j < a0.len() implies comes_before(
        rest,
        (#[trigger] a0[i]).0,
        (#[trigger] a0[j]).0,
    ) by {
        assert(a0[i] == a[i] && a0[j] == a[j]);
        assert(comes_before(m, a[i].0, a[j].0));
        assert(comes_before(m, a[i].0, a[a.len() - 1].0));
        assert(comes_before(m, a[j].0, a[a.len() - 1].0));
    }
}

proof fn lemma_filter_keeps_order(
    m: Map<u8, TimerView>,
    s: Seq<(u8, TimerView)>,
    keep: spec_fn((u8, TimerView)) -> bool,
)
    requires
        in_listing_order(m, s),
    ensures
        in_listing_order(m, s.filter(keep)),
        forall|i: int| 0 <= i < s.filter(keep).len() ==> s.contains(#[trigger] s.filter(keep)[i]),
    decreases s.len(),
{
    reveal(Seq::filter);
    if s.len() > 0 {
        let head = s.drop_last();
        assert forall|i: int, j: int| 0 <= i < j < head.len() implies comes_before(
            m,
            (#[trigger] head[i]).0,
            (#[trigger] head[j]).0,
        ) by {
            assert(head[i] == s[i] && head[j] == s[j]);
        }
        lemma_filter_keeps_order(m, head, keep);
        let kept = head.filter(keep);
        let out = s.filter(keep);
        assert forall|i: int| 0 <= i < out.len() implies s.contains(#[trigger] out[i]) by {
            if i < kept.len() {
                assert(out[i] == kept[i]);
                assert(head.contains(kept[i]));
                let a = choose|a: int| 0 <= a < head.len() && head[a] == kept[i];
                assert(s[a] == out[i]);
            } else {
                assert(out[i] == s[s.len() - 1]);
            }
        }
        assert forall|i: int, j: int| 0 <= i < j < out.len() implies comes_before(
            m,
            (#[trigger] out[i]).0,
            (#[trigger] out[j]).0,
        ) by {
            assert(out[i] == kept[i]);
            if j < kept.len() {
                assert(out[j] == kept[j]);
            } else {
                assert(out[j] == s[s.len() - 1]);
                assert(head.contains(kept[i]));
                let a = choose|a: int| 0 <= a < head.len() && head[a] == kept[i];
                assert(s[a] == out[i]);
                assert(comes_before(m, s[a].0, s[s.len() - 1].0));
            }
        }
    }
}

/// The listing of one kind is the listing of all timers with the other
/// kinds left out: the same entries, in the same order.
pub proof fn theorem_filter_keeps_order(
    m: Map<u8, TimerView>,
    kind: TimerType,
    all: Seq<(u8, TimerView)>,
    some: Seq<(u8, TimerView)>,
)
    requires
        is_listing(m, None, all),
        is_listing(m, Some(kind), some),
    ensures
        some == all.filter(|e: (u8, TimerView)| e.1.category == kind),
{
    let keep = |e: (u8, TimerView)| e.1.category == kind;
    let kept = all.filter(keep);
    lemma_filter_keeps_order(m, all, keep);
    broadcast use vstd::seq_lib::group_filter_ensures;
    assert forall|i: int| 0 <= i < kept.len() implies listed(m, Some(kind), (#[trigger] kept[i]).0)
        && kept[i].1 == m[kept[i].0] by {
        assert(all.contains(kept[i]));
        let a = choose|a: int| 0 <= a < all.len() && all[a] == kept[i];
        assert(listed(m, None, all[a].0));
        assert(keep(kept[i]));
    }
    assert forall|id: u8| listed(m, Some(kind), id) implies exists|i: int|
        0 <= i < kept.len() && (#[trigger] kept[i]).0 == id by {
        assert(listed(m, None, id));
        let a = choose|a: int| 0 <= a < all.len() && (#[trigger] all[a]).0 == id;
        assert(keep(all[a]));
        assert(kept.contains(all[a]));
        let i = choose|i: int| 0 <= i < kept.len() && kept[i] == all[a];
        assert(kept[i].0 == id);
    }
    theorem_listing_is_unique(m, Some(kind), some, kept);
}

} // verus!
