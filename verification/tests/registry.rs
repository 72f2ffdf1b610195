use study_app::time::{Moment, Span};
use study_app::timer::commands::{
    create_timer, del_timer, get_remaining_ms, get_timers, init_state, reset_timer, start_timer,
    timer_play_pause, TimerError,
};
use study_app::timer::{Timer, TimerState, TimerType, POOL_SIZE};

const SEC: u128 = 1_000_000_000;

fn at(nanos: u128) -> Moment {
    Moment { nanos }
}

fn ids(listing: &Vec<(u8, Timer)>) -> Vec<u8> {
    listing.iter().map(|e| e.0).collect()
}

#[test]
fn empty_registry_has_nothing() {
    let mut state = TimerState::new();
    assert!(state.timers.is_empty());
    assert!(!state.has_active());
    assert!(state.list(None).is_empty());
    assert!(state.get_timer(0).is_none());
    assert!(init_state().timers.is_empty());
}

#[test]
fn ids_come_lowest_first_within_the_pool() {
    let mut state = init_state();
    assert_eq!(POOL_SIZE, 10);
    assert_eq!(state.find_available_id(&TimerType::Default), Some(0));
    assert_eq!(state.find_available_id(&TimerType::Test), Some(10));
    assert_eq!(create_timer(&mut state, TimerType::Default, 1, "a".to_string()), Ok(0));
    assert_eq!(create_timer(&mut state, TimerType::Test, 1, "b".to_string()), Ok(10));
    assert_eq!(create_timer(&mut state, TimerType::Default, 1, "c".to_string()), Ok(1));
    assert_eq!(create_timer(&mut state, TimerType::Test, 1, "d".to_string()), Ok(11));
    assert_eq!(del_timer(&mut state, 0), Ok(()));
    assert_eq!(state.find_available_id(&TimerType::Default), Some(0));
    assert_eq!(create_timer(&mut state, TimerType::Default, 1, "e".to_string()), Ok(0));
    assert_eq!(create_timer(&mut state, TimerType::Default, 1, "f".to_string()), Ok(2));
}

#[test]
fn created_ids_stay_in_their_pool_and_are_new() {
    let mut state = init_state();
    for n in 0..10u8 {
        let before: Vec<u8> = state.timers.keys().copied().collect();
        let id = create_timer(&mut state, TimerType::Test, 5, format!("t{}", n)).unwrap();
        assert!(10 <= id && id < 20);
        assert!(!before.contains(&id));
        let t = state.timers.get(&id).unwrap();
        assert_eq!(t.id(), id);
        assert_eq!(t.timer_type(), TimerType::Test);
        assert_eq!(t.duration(), Span { nanos: 5 * SEC + 100 });
        assert!(!t.active() && t.paused());
    }
}

#[test]
fn eleventh_timer_of_a_kind_is_refused() {
    let mut state = init_state();
    for n in 0..10u8 {
        assert_eq!(create_timer(&mut state, TimerType::Default, 60, "x".to_string()), Ok(n));
    }
    assert_eq!(state.timers.len(), 10);
    assert_eq!(
        create_timer(&mut state, TimerType::Default, 60, "late".to_string()),
        Err(TimerError::PoolExhausted)
    );
    assert_eq!(state.timers.len(), 10);
    assert_eq!(state.find_available_id(&TimerType::Default), None);
    for id in 10..20u8 {
        assert!(!state.timers.contains_key(&id));
    }
    assert_eq!(create_timer(&mut state, TimerType::Test, 60, "other".to_string()), Ok(10));
}

#[test]
fn active_timer_cannot_be_deleted() {
    let mut state = init_state();
    create_timer(&mut state, TimerType::Default, 60, "a".to_string()).unwrap();
    create_timer(&mut state, TimerType::Default, 60, "b".to_string()).unwrap();
    assert_eq!(start_timer(&mut state, 0, at(0)), Some(true));
    assert_eq!(del_timer(&mut state, 0), Err(TimerError::Refused));
    assert_eq!(state.timers.len(), 2);
    assert!(state.timers.get(&0).unwrap().active());

    assert_eq!(del_timer(&mut state, 1), Ok(()));
    assert_eq!(state.timers.len(), 1);
    assert!(state.timers.contains_key(&0));
    assert!(!state.timers.contains_key(&1));

    // a paused timer is still active
    assert!(timer_play_pause(&mut state, 0, at(SEC)));
    assert_eq!(del_timer(&mut state, 0), Err(TimerError::Refused));
    assert_eq!(reset_timer(&mut state, 0), Some(false));
    assert_eq!(del_timer(&mut state, 0), Ok(()));
    assert!(state.timers.is_empty());
}

#[test]
fn deleting_what_is_not_there_changes_nothing() {
    let mut state = init_state();
    create_timer(&mut state, TimerType::Default, 60, "a".to_string()).unwrap();
    assert_eq!(del_timer(&mut state, 7), Ok(()));
    assert_eq!(state.timers.len(), 1);
}

#[test]
fn remove_timer_answers_whether_it_was_allowed() {
    let mut state = TimerState::new();
    state.add_timer(Timer::new(5, TimerType::Default, 4, "a".to_string()));
    state.get_timer(4).unwrap().start_at(at(0));
    assert!(!state.remove_timer(4));
    assert!(state.timers.contains_key(&4));
    state.get_timer(4).unwrap().reset();
    assert!(state.remove_timer(4));
    assert!(state.timers.is_empty());
    assert!(state.remove_timer(4));
}

#[test]
fn add_timer_replaces_what_stood_under_the_id() {
    let mut state = TimerState::new();
    state.add_timer(Timer::new(5, TimerType::Default, 4, "old".to_string()));
    state.add_timer(Timer::new(9, TimerType::Default, 4, "new".to_string()));
    assert_eq!(state.timers.len(), 1);
    assert_eq!(state.timers.get(&4).unwrap().name(), "new");
}

#[test]
fn get_timer_changes_reach_the_registry() {
    let mut state = TimerState::new();
    state.add_timer(Timer::new(5, TimerType::Default, 2, "a".to_string()));
    state.get_timer(2).unwrap().start_at(at(SEC));
    assert!(state.timers.get(&2).unwrap().active());
    assert!(state.has_active());
    assert!(state.get_timer(3).is_none());
}

#[test]
fn commands_on_missing_ids() {
    let mut state = init_state();
    assert_eq!(start_timer(&mut state, 3, at(0)), None);
    assert_eq!(reset_timer(&mut state, 3), None);
    assert!(!timer_play_pause(&mut state, 3, at(0)));
    let r = get_remaining_ms(&mut state, 3, at(0));
    assert_eq!(r.remaining_ms, 0);
    assert!(r.notice.is_none());
    assert!(!r.may_close);
    assert!(state.timers.is_empty());
}

#[test]
fn play_pause_tells_the_paused_flag() {
    let mut state = init_state();
    create_timer(&mut state, TimerType::Default, 60, "a".to_string()).unwrap();
    // an idle timer stays paused
    assert!(timer_play_pause(&mut state, 0, at(0)));
    assert!(!state.timers.get(&0).unwrap().active());
    start_timer(&mut state, 0, at(0));
    assert!(timer_play_pause(&mut state, 0, at(20 * SEC)));
    assert_eq!(state.timers.get(&0).unwrap().duration(), Span { nanos: 40 * SEC + 100 });
    assert!(!timer_play_pause(&mut state, 0, at(50 * SEC)));
    assert_eq!(state.timers.get(&0).unwrap().end_time(), Some(at(90 * SEC + 100)));
}

#[test]
fn listing_is_sorted_by_whole_seconds_then_id() {
    let mut state = init_state();
    create_timer(&mut state, TimerType::Default, 300, "a".to_string()).unwrap(); // 0
    create_timer(&mut state, TimerType::Test, 20, "b".to_string()).unwrap(); // 10
    create_timer(&mut state, TimerType::Default, 20, "c".to_string()).unwrap(); // 1
    create_timer(&mut state, TimerType::Default, 5, "d".to_string()).unwrap(); // 2
    create_timer(&mut state, TimerType::Test, 900, "e".to_string()).unwrap(); // 11
    create_timer(&mut state, TimerType::Test, 0, "f".to_string()).unwrap(); // 12

    let all = get_timers(&state, None);
    assert_eq!(ids(&all), vec![12, 2, 1, 10, 0, 11]);
    for pair in all.windows(2) {
        assert!(pair[0].1.duration().as_secs() <= pair[1].1.duration().as_secs());
    }
    for (id, t) in all.iter() {
        assert_eq!(t.id(), *id);
        assert_eq!(t.name(), state.timers.get(id).unwrap().name());
    }

    let defaults = get_timers(&state, Some(TimerType::Default));
    assert_eq!(ids(&defaults), vec![2, 1, 0]);
    assert!(defaults.iter().all(|e| e.1.timer_type() == TimerType::Default));
    let tests = get_timers(&state, Some(TimerType::Test));
    assert_eq!(ids(&tests), vec![12, 10, 11]);

    let kept: Vec<u8> =
        all.iter().filter(|e| e.1.timer_type() == TimerType::Test).map(|e| e.0).collect();
    assert_eq!(ids(&tests), kept);
}

#[test]
fn listing_goes_by_stored_duration_not_sub_seconds() {
    let mut state = init_state();
    create_timer(&mut state, TimerType::Default, 100, "a".to_string()).unwrap();
    create_timer(&mut state, TimerType::Default, 50, "b".to_string()).unwrap();
    start_timer(&mut state, 0, at(0));
    // 0 is paused with 49.5 s left: 49 whole seconds, before the 50 of 1
    timer_play_pause(&mut state, 0, at(50 * SEC + 500_000_000));
    assert_eq!(ids(&get_timers(&state, None)), vec![0, 1]);
    // put back to its 100 s it comes last again
    reset_timer(&mut state, 0);
    assert_eq!(ids(&state.list(None)), vec![1, 0]);
}

#[test]
fn has_active_follows_the_timers() {
    let mut state = init_state();
    create_timer(&mut state, TimerType::Default, 10, "a".to_string()).unwrap();
    create_timer(&mut state, TimerType::Test, 10, "b".to_string()).unwrap();
    assert!(!state.has_active());
    start_timer(&mut state, 10, at(0));
    assert!(state.has_active());
    reset_timer(&mut state, 10);
    assert!(!state.has_active());
}

#[test]
fn window_may_close_when_the_last_timer_runs_out() {
    let mut state = init_state();
    create_timer(&mut state, TimerType::Default, 10, "a".to_string()).unwrap();
    create_timer(&mut state, TimerType::Default, 99, "b".to_string()).unwrap();
    start_timer(&mut state, 0, at(0));
    start_timer(&mut state, 1, at(0));

    let r = get_remaining_ms(&mut state, 0, at(10 * SEC));
    assert_eq!(r.remaining_ms, 0);
    assert!(r.notice.is_some());
    assert!(!r.may_close); // 1 is still active

    let r = get_remaining_ms(&mut state, 1, at(50 * SEC));
    assert_eq!(r.remaining_ms, 49_000);
    assert!(!r.may_close);

    let r = get_remaining_ms(&mut state, 1, at(99 * SEC));
    assert_eq!(r.remaining_ms, 0);
    assert_eq!(r.notice.unwrap().title, "Time's Up - b");
    assert!(r.may_close);
    assert!(!state.has_active());
}
