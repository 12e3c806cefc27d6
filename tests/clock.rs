use traffic_sim_svc::clock::{extrapolate, ClockAnchor, ClockError, ClockStore};
use traffic_sim_svc::datetime::{MAX_DATETIME_MILLIS, MIN_DATETIME_MILLIS};
use traffic_sim_svc::messages::TimeManagement;
use traffic_sim_svc::time_state::TimeState;

fn message(state: TimeState, sim_time: Option<i64>, speed: Option<u32>) -> TimeManagement {
    let mut m = TimeManagement::with_state(state);
    m.simulation_time = sim_time;
    m.simulation_speed = speed;
    m
}

fn anchor(wall: i64, sim: i64, speed: u32) -> ClockAnchor {
    ClockAnchor {
        wallclock_at_update: wall,
        sim_time_at_update: sim,
        speed,
        state: TimeState::Started,
    }
}

#[test]
fn new_store_holds_initial_anchor() {
    let s = ClockStore::new(5_000);
    assert_eq!(
        s.snapshot(),
        ClockAnchor {
            wallclock_at_update: 5_000,
            sim_time_at_update: 5_000,
            speed: 0,
            state: TimeState::Initialization,
        }
    );
    assert_eq!(s.get_state(), TimeState::Initialization);
    assert_eq!(s.get_speed(), 0);
    assert_eq!(s.get_time(9_000), Some(5_000));
}

#[test]
fn double_speed_after_half_second() {
    let mut s = ClockStore::new(0);
    let r = s.apply_message(&message(TimeState::Started, Some(1_000), Some(2_000)), 0);
    assert_eq!(r, Ok(()));
    assert_eq!(s.get_time(500), Some(2_000));
}

#[test]
fn first_paused_message_without_fields() {
    let mut s = ClockStore::new(1_700_000_000_000);
    let r = s.apply_message(&message(TimeState::Paused, None, None), 1_700_000_000_250);
    assert_eq!(r, Ok(()));
    assert_eq!(s.get_speed(), 1_000);
    assert_eq!(s.get_state(), TimeState::Paused);
    assert_eq!(s.snapshot().sim_time_at_update, 1_700_000_000_000);
    assert_eq!(s.snapshot().wallclock_at_update, 1_700_000_000_250);
}

#[test]
fn missing_speed_keeps_previous_speed() {
    let mut s = ClockStore::new(0);
    s.apply_message(&message(TimeState::Started, Some(0), Some(3_500)), 0).unwrap();
    s.apply_message(&message(TimeState::Paused, None, None), 10).unwrap();
    assert_eq!(s.get_speed(), 3_500);
    s.apply_message(&message(TimeState::Started, None, Some(0)), 20).unwrap();
    s.apply_message(&message(TimeState::Stopped, None, None), 30).unwrap();
    assert_eq!(s.get_speed(), 0);
}

#[test]
fn missing_sim_time_keeps_sim_anchor() {
    let mut s = ClockStore::new(0);
    s.apply_message(&message(TimeState::Started, Some(42_000), Some(1_000)), 100).unwrap();
    s.apply_message(&message(TimeState::Reset, None, Some(2_000)), 900).unwrap();
    let a = s.snapshot();
    assert_eq!(a.sim_time_at_update, 42_000);
    assert_eq!(a.wallclock_at_update, 900);
    assert_eq!(a.state, TimeState::Reset);
    assert_eq!(s.get_time(1_000), Some(42_200));
}

#[test]
fn extrapolation_rounds_to_nearest() {
    // 333 ms at speed 1.5 is 499.5 ms, which rounds up.
    assert_eq!(extrapolate(&anchor(0, 10_000, 1_500), 333), Some(10_500));
    // 1 ms at speed 0.4 is 0.4 ms, which rounds down.
    assert_eq!(extrapolate(&anchor(0, 10_000, 400), 1), Some(10_000));
    // 7 ms at speed 0.25 is 1.75 ms.
    assert_eq!(extrapolate(&anchor(100, 0, 250), 107), Some(2));
}

#[test]
fn extrapolation_before_anchor_rounds_away_from_zero() {
    assert_eq!(extrapolate(&anchor(1_000, 5_000, 1_000), 999), Some(4_999));
    assert_eq!(extrapolate(&anchor(1_000, 5_000, 500), 999), Some(4_999));
    assert_eq!(extrapolate(&anchor(1_000, 5_000, 400), 999), Some(5_000));
}

#[test]
fn extrapolation_at_zero_speed_stands_still() {
    assert_eq!(extrapolate(&anchor(0, 77, 0), 1_000_000), Some(77));
}

#[test]
fn extrapolation_past_representable_range() {
    assert_eq!(
        extrapolate(&anchor(0, MAX_DATETIME_MILLIS, 1_000), 0),
        Some(MAX_DATETIME_MILLIS)
    );
    assert_eq!(extrapolate(&anchor(0, MAX_DATETIME_MILLIS, 1_000), 1), None);
    assert_eq!(
        extrapolate(&anchor(0, MIN_DATETIME_MILLIS, 1_000), 0),
        Some(MIN_DATETIME_MILLIS)
    );
    assert_eq!(extrapolate(&anchor(0, MIN_DATETIME_MILLIS, 1_000), -1), None);
    assert_eq!(extrapolate(&anchor(i64::MIN, i64::MAX, u32::MAX), i64::MAX), None);
}

#[test]
fn out_of_range_sim_time_is_refused() {
    let mut s = ClockStore::new(0);
    s.apply_message(&message(TimeState::Started, Some(10), Some(2_000)), 5).unwrap();
    let before = s.snapshot();
    let r = s.apply_message(
        &message(TimeState::Stopped, Some(MAX_DATETIME_MILLIS + 1), None),
        50,
    );
    assert_eq!(r, Err(ClockError::SimulationTimeOutOfRange));
    let r = s.apply_message(
        &message(TimeState::Stopped, Some(MIN_DATETIME_MILLIS - 1), None),
        50,
    );
    assert_eq!(r, Err(ClockError::SimulationTimeOutOfRange));
    assert_eq!(s.snapshot(), before);
    assert_eq!(
        s.apply_message(&message(TimeState::Stopped, Some(MAX_DATETIME_MILLIS), None), 60),
        Ok(())
    );
    assert_eq!(
        s.apply_message(&message(TimeState::Stopped, Some(MIN_DATETIME_MILLIS), None), 70),
        Ok(())
    );
    assert_eq!(s.snapshot().sim_time_at_update, MIN_DATETIME_MILLIS);
}

#[test]
fn update_replaces_whole_anchor() {
    let mut s = ClockStore::new(0);
    for i in 0..100i64 {
        let a = ClockAnchor {
            wallclock_at_update: i,
            sim_time_at_update: 1_000 * i,
            speed: (i as u32) * 10,
            state: if i % 2 == 0 { TimeState::Started } else { TimeState::Paused },
        };
        s.update(a);
        assert_eq!(s.snapshot(), a);
    }
}

#[test]
fn any_state_may_follow_any_other() {
    let states = [
        TimeState::Reset,
        TimeState::Started,
        TimeState::Initialization,
        TimeState::Stopped,
        TimeState::Paused,
        TimeState::Started,
    ];
    let mut s = ClockStore::new(0);
    for (i, st) in states.iter().enumerate() {
        s.apply_message(&message(*st, None, None), i as i64).unwrap();
        assert_eq!(s.get_state(), *st);
    }
}
