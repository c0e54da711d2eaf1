use majsoul_max_rs::schedule::{UpdateCheckSchedule, REEVALUATION_INTERVAL_NANOS};
use majsoul_max_rs::settings::UpdateCheckMode;
use std::time::{Duration, SystemTime, UNIX_EPOCH};

const SECOND: u64 = 1_000_000_000;

// A monotonic reading to schedule from.
const START: u64 = 1_000_000 * SECOND;

fn wall_now() -> u64 {
    SystemTime::now().duration_since(UNIX_EPOCH).unwrap().as_nanos() as u64
}

fn ago(seconds: u64) -> u64 {
    wall_now() - seconds * SECOND
}

#[test]
fn startup_and_disabled_modes_have_no_periodic_deadline() {
    let now = START;
    for mode in [UpdateCheckMode::Startup, UpdateCheckMode::Disabled] {
        let mut schedule = UpdateCheckSchedule::new(mode, 1, None, now);
        assert_eq!(schedule.next_check(), None);
        assert!(!schedule.is_due(wall_now()));
        assert!(!schedule.take_due(now + 3600 * SECOND, wall_now()));
    }
}

#[test]
fn a_fresh_periodic_schedule_is_due_immediately() {
    let now = START;
    let mut schedule = UpdateCheckSchedule::new(UpdateCheckMode::Periodic, 60, None, now);
    assert_eq!(schedule.next_check(), Some(now));
    assert!(schedule.is_due(wall_now()));
    assert!(schedule.take_due(now, wall_now()));
}

#[test]
fn a_recent_check_waits_out_the_remaining_interval() {
    let now = START;
    let mut schedule =
        UpdateCheckSchedule::new(UpdateCheckMode::Periodic, 60, Some(ago(20 * 60)), now);
    let deadline = schedule.next_check().unwrap();
    let remaining = Duration::from_nanos(deadline.saturating_sub(now));
    assert!(
        (Duration::from_secs(39 * 60)..Duration::from_secs(41 * 60)).contains(&remaining),
        "remaining was {remaining:?}"
    );
    assert!(!schedule.is_due(wall_now()));
    assert!(!schedule.take_due(now, wall_now()));
}

#[test]
fn an_elapsed_interval_is_due_even_after_a_restart() {
    let now = START;
    let schedule =
        UpdateCheckSchedule::new(UpdateCheckMode::Periodic, 60, Some(ago(2 * 60 * 60)), now);
    assert_eq!(schedule.next_check(), Some(now));
    assert!(schedule.is_due(wall_now()));
}

#[test]
fn the_deadline_never_exceeds_the_hourly_reevaluation() {
    let now = START;
    let schedule =
        UpdateCheckSchedule::new(UpdateCheckMode::Periodic, 24 * 60, Some(ago(60)), now);
    let wait = schedule.next_check().unwrap().saturating_sub(now);
    assert!(wait <= REEVALUATION_INTERVAL_NANOS);
    assert!(wait > 59 * 60 * SECOND);
}

#[test]
fn changing_modes_or_intervals_reschedules_and_disabling_cancels() {
    let start = START;
    let mut schedule = UpdateCheckSchedule::new(UpdateCheckMode::Startup, 60, None, start);
    let now = start + 10 * SECOND;
    let recent = Some(wall_now());
    assert!(schedule.configure(UpdateCheckMode::Periodic, 5, recent, now));
    assert!(!schedule.is_due(wall_now()));
    assert!(!schedule.configure(UpdateCheckMode::Periodic, 5, recent, start));
    assert!(schedule.configure(UpdateCheckMode::Periodic, 1, None, now));
    assert!(schedule.is_due(wall_now()));
    assert!(schedule.configure(UpdateCheckMode::Disabled, 1, None, now));
    assert_eq!(schedule.next_check(), None);
    assert!(!schedule.is_due(wall_now()));
}

#[test]
fn a_late_tick_does_not_produce_a_burst_of_checks() {
    let start = START;
    let mut schedule =
        UpdateCheckSchedule::new(UpdateCheckMode::Periodic, 1, Some(ago(60 * 60)), start);
    let resumed = start + 3600 * SECOND;
    assert!(schedule.take_due(resumed, wall_now()));
    // The second wake waits at least one interval, so the same instant is not due again.
    assert!(!schedule.take_due(resumed, wall_now()));
}

#[test]
fn exact_deadlines_follow_the_last_check() {
    let wall = 10_000 * SECOND;
    let now = START;
    // Checked 25 minutes ago with a 60 minute interval: 35 minutes to go.
    let s = UpdateCheckSchedule::new_at(
        UpdateCheckMode::Periodic,
        60,
        Some(wall - 25 * 60 * SECOND),
        now,
        wall,
    );
    assert_eq!(s.next_check(), Some(now + 35 * 60 * SECOND));
    // A zero interval counts as one minute.
    let s = UpdateCheckSchedule::new_at(UpdateCheckMode::Periodic, 0, Some(wall), now, wall);
    assert_eq!(s.next_check(), Some(now + 60 * SECOND));
    // A last check later than the clock is looked at again at once, and is
    // not due.
    let s = UpdateCheckSchedule::new_at(
        UpdateCheckMode::Periodic,
        30,
        Some(wall + SECOND),
        now,
        wall,
    );
    assert_eq!(s.next_check(), Some(now));
    assert!(!s.is_due(wall));
}

#[test]
fn an_early_wake_changes_nothing() {
    let wall = 10_000 * SECOND;
    let mut s = UpdateCheckSchedule::new_at(
        UpdateCheckMode::Periodic,
        60,
        Some(wall - 10 * 60 * SECOND),
        START,
        wall,
    );
    let deadline = s.next_check().unwrap();
    assert!(!s.take_due(deadline - 1, wall));
    assert_eq!(s.next_check(), Some(deadline));
}

#[test]
fn reconfiguring_with_the_same_values_keeps_the_deadline() {
    let wall = 10_000 * SECOND;
    let mut s = UpdateCheckSchedule::new_at(UpdateCheckMode::Periodic, 0, Some(wall), START, wall);
    let deadline = s.next_check();
    // An interval of 0 counts as 1, so 1 is the same configuration.
    assert!(!s.configure_at(UpdateCheckMode::Periodic, 1, Some(wall), START + 999 * SECOND, wall));
    assert_eq!(s.next_check(), deadline);
    assert!(s.configure_at(UpdateCheckMode::Startup, 1, Some(wall), START, wall));
    assert_eq!(s.next_check(), None);
}
