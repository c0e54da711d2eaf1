//! The periodic update-check deadline owned by the GUI event loop.
//!
//! Times are integers: `now` arguments are readings of a monotonic clock and
//! `wall` arguments (like the persisted last-check time) are wall-clock
//! readings, both in nanoseconds. A check that became due while the program
//! was closed is caught up on the next launch, and a sleeping event loop never
//! waits longer than one hour before it reconsiders.

use crate::settings::UpdateCheckMode;
use vstd::prelude::*;

verus! {

/// How often a waiting event loop reconsiders the schedule: one hour.
pub const REEVALUATION_INTERVAL_NANOS: u64 = 3_600_000_000_000;

pub const NANOS_PER_MINUTE: u64 = 60_000_000_000;

/// The length of the configured interval.
pub open spec fn interval_nanos(minutes: nat) -> nat {
    minutes * (NANOS_PER_MINUTE as nat)
}

pub open spec fn min_nat(a: nat, b: nat) -> nat {
    if a <= b {
        a
    } else {
        b
    }
}

/// How long is left of the interval at wall time `wall`: zero when no check
/// is recorded, when the interval has passed, or when the recorded check lies
/// in the future.
pub open spec fn remaining(minutes: nat, last_check: Option<u64>, wall: nat) -> nat {
    match last_check {
        Some(last) => if wall >= last && wall - last < interval_nanos(minutes) {
            (interval_nanos(minutes) - (wall - last)) as nat
        } else {
            0
        },
        None => 0,
    }
}

/// The next wake-up: only a periodic schedule has one, at the end of the
/// interval but at most one hour from `now`.
pub open spec fn deadline(
    mode: UpdateCheckMode,
    minutes: nat,
    last_check: Option<u64>,
    now: nat,
    wall: nat,
) -> Option<nat> {
    if mode == UpdateCheckMode::Periodic {
        Some(now + min_nat(remaining(minutes, last_check, wall), REEVALUATION_INTERVAL_NANOS as nat))
    } else {
        None
    }
}

/// Whether a check is due at wall time `wall`: the schedule is periodic and
/// either no check is recorded or the whole interval has passed since it.
pub open spec fn due(mode: UpdateCheckMode, minutes: nat, last_check: Option<u64>, wall: nat) -> bool {
    &&& mode == UpdateCheckMode::Periodic
    &&& match last_check {
        None => true,
        Some(last) => wall >= last && wall - last >= interval_nanos(minutes),
    }
}

/// Every schedule has an interval of at least one minute, and a deadline
/// exactly when it is periodic.
pub open spec fn consistent(s: ScheduleView) -> bool {
    &&& s.interval_minutes >= 1
    &&& (s.next_check is Some <==> s.mode == UpdateCheckMode::Periodic)
}

pub struct ScheduleView {
    pub mode: UpdateCheckMode,
    pub interval_minutes: nat,
    pub last_check: Option<u64>,
    pub next_check: Option<nat>,
}

/// The next wake-up and the answer of a wake at `now`, `wall`.
pub open spec fn take_due_outcome(s: ScheduleView, now: nat, wall: nat) -> (Option<nat>, bool) {
    match s.next_check {
        None => (s.next_check, false),
        Some(next) => if now < next {
            (s.next_check, false)
        } else if due(s.mode, s.interval_minutes, s.last_check, wall) {
            (
                Some(now + min_nat(interval_nanos(s.interval_minutes), REEVALUATION_INTERVAL_NANOS as nat)),
                true,
            )
        } else {
            (deadline(s.mode, s.interval_minutes, s.last_check, now, wall), false)
        },
    }
}

/// The schedule `new` makes for `mode`, `interval_minutes` and `last_check`
/// at `now`, `wall`.
pub open spec fn spec_new(
    mode: UpdateCheckMode,
    interval_minutes: u16,
    last_check: Option<u64>,
    now: nat,
    wall: nat,
) -> ScheduleView {
    ScheduleView {
        mode,
        interval_minutes: normalized_minutes(interval_minutes),
        last_check,
        next_check: deadline(mode, normalized_minutes(interval_minutes), last_check, now, wall),
    }
}

/// Whether `configure` finds the same mode, interval (0 counting as 1) and
/// last check that `s` holds.
pub open spec fn same_configuration(
    s: ScheduleView,
    mode: UpdateCheckMode,
    interval_minutes: u16,
    last_check: Option<u64>,
) -> bool {
    s.mode == mode && s.interval_minutes == normalized_minutes(interval_minutes) && s.last_check
        == last_check
}

/// What `configure` makes of `s`, and whether it changed anything: the same
/// configuration leaves the schedule as it is; any other is rebuilt as `new`
/// would build it.
pub open spec fn spec_configure(
    s: ScheduleView,
    mode: UpdateCheckMode,
    interval_minutes: u16,
    last_check: Option<u64>,
    now: nat,
    wall: nat,
) -> (ScheduleView, bool) {
    if same_configuration(s, mode, interval_minutes, last_check) {
        (s, false)
    } else {
        (spec_new(mode, interval_minutes, last_check, now, wall), true)
    }
}

/// A deadline set at `t0` lies between `t0` and one hour after it.
pub open spec fn within_hour(next_check: Option<nat>, t0: nat) -> bool {
    match next_check {
        Some(d) => t0 <= d <= t0 + REEVALUATION_INTERVAL_NANOS,
        None => true,
    }
}

pub open spec fn normalized_minutes(minutes: u16) -> nat {
    if minutes == 0 {
        1
    } else {
        minutes as nat
    }
}

/// The wall clock, in nanoseconds since the Unix epoch (std's `SystemTime::now`).
/// A clock set before the epoch reads as zero and one past the year 2554 as
/// `u64::MAX`. Nothing is promised of the value: it is the time.
#[verifier::external_body]
fn wall_clock_nanos() -> u64 {
    match std::time::SystemTime::now().duration_since(std::time::UNIX_EPOCH) {
        Ok(elapsed) => u64::try_from(elapsed.as_nanos()).unwrap_or(u64::MAX),
        Err(_) => 0,
    }
}

/// A deadline owned by the GUI event loop; no timer task survives window exit.
#[derive(Debug)]
pub struct UpdateCheckSchedule {
    mode: UpdateCheckMode,
    interval_minutes: u16,
    last_check: Option<u64>,
    next_check: Option<u64>,
}

impl View for UpdateCheckSchedule {
    type V = ScheduleView;

    closed spec fn view(&self) -> ScheduleView {
        ScheduleView {
            mode: self.mode,
            interval_minutes: self.interval_minutes as nat,
            last_check: self.last_check,
            next_check: match self.next_check {
                Some(n) => Some(n as nat),
                None => None,
            },
        }
    }
}

impl UpdateCheckSchedule {
    #[verifier::type_invariant]
    spec fn inv(self) -> bool {
        &&& self.interval_minutes >= 1
        &&& (self.next_check is Some <==> self.mode == UpdateCheckMode::Periodic)
    }

    fn interval(minutes: u16) -> (r: u64)
        ensures
            r == interval_nanos(minutes as nat),
    {
        minutes as u64 * NANOS_PER_MINUTE
    }

    fn compute_deadline(
        mode: UpdateCheckMode,
        minutes: u16,
        last_check: Option<u64>,
        now: u64,
        wall: u64,
    ) -> (r: Option<u64>)
        requires
            now <= u64::MAX - REEVALUATION_INTERVAL_NANOS,
        ensures
            match deadline(mode, minutes as nat, last_check, now as nat, wall as nat) {
                Some(d) => r == Some(d as u64),
                None => r is None,
            },
    {
        if mode == UpdateCheckMode::Periodic {
            let interval = Self::interval(minutes);
            let until: u64 = match last_check {
                Some(last) => if wall >= last && wall - last < interval {
                    interval - (wall - last)
                } else {
                    0
                },
                None => 0,
            };
            let wait = if until <= REEVALUATION_INTERVAL_NANOS {
                until
            } else {
                REEVALUATION_INTERVAL_NANOS
            };
            Some(now + wait)
        } else {
            None
        }
    }

    /// A schedule whose deadline is computed at wall time `wall`.
    pub fn new_at(
        mode: UpdateCheckMode,
        interval_minutes: u16,
        last_check: Option<u64>,
        now: u64,
        wall: u64,
    ) -> (s: Self)
        requires
            now <= u64::MAX - REEVALUATION_INTERVAL_NANOS,
        ensures
            s@ == spec_new(mode, interval_minutes, last_check, now as nat, wall as nat),
            consistent(s@),
            within_hour(s@.next_check, now as nat),
    {
        let minutes = if interval_minutes == 0 {
            1
        } else {
            interval_minutes
        };
        let next_check = Self::compute_deadline(mode, minutes, last_check, now, wall);
        let s = UpdateCheckSchedule { mode, interval_minutes: minutes, last_check, next_check };
        proof {
            use_type_invariant(&s);
        }
        s
    }

    /// A schedule for the saved mode, interval (raised to at least one minute)
    /// and last check time; its deadline is computed from the wall clock.
    pub fn new(
        mode: UpdateCheckMode,
        interval_minutes: u16,
        last_check: Option<u64>,
        now: u64,
    ) -> (s: Self)
        requires
            now <= u64::MAX - REEVALUATION_INTERVAL_NANOS,
        ensures
            (exists|wall: u64| s@ == spec_new(mode, interval_minutes, last_check, now as nat, wall as nat)),
            consistent(s@),
            within_hour(s@.next_check, now as nat),
    {
        let wall = wall_clock_nanos();
        let s = Self::new_at(mode, interval_minutes, last_check, now, wall);
        proof {
            use_type_invariant(&s);
        }
        s
    }

    /// Reschedules at wall time `wall` when the mode, interval or last-check
    /// time differs from the current one, and says whether it did.
    pub fn configure_at(
        &mut self,
        mode: UpdateCheckMode,
        interval_minutes: u16,
        last_check: Option<u64>,
        now: u64,
        wall: u64,
    ) -> (changed: bool)
        requires
            now <= u64::MAX - REEVALUATION_INTERVAL_NANOS,
        ensures
            (final(self)@, changed) == spec_configure(
                old(self)@,
                mode,
                interval_minutes,
                last_check,
                now as nat,
                wall as nat,
            ),
            consistent(final(self)@),
            changed ==> within_hour(final(self)@.next_check, now as nat),
    {
        let minutes = if interval_minutes == 0 {
            1
        } else {
            interval_minutes
        };
        proof {
            use_type_invariant(&*self);
        }
        if self.mode == mode && self.interval_minutes == minutes && self.last_check == last_check {
            return false;
        }
        *self = Self::new_at(mode, minutes, last_check, now, wall);
        true
    }

    /// Reschedules from the wall clock when the saved mode, interval or
    /// last-check time changes, and says whether it did.
    pub fn configure(
        &mut self,
        mode: UpdateCheckMode,
        interval_minutes: u16,
        last_check: Option<u64>,
        now: u64,
    ) -> (changed: bool)
        requires
            now <= u64::MAX - REEVALUATION_INTERVAL_NANOS,
        ensures
            changed == !same_configuration(old(self)@, mode, interval_minutes, last_check),
            (exists|wall: u64|
                (#[trigger] spec_configure(
                    old(self)@,
                    mode,
                    interval_minutes,
                    last_check,
                    now as nat,
                    wall as nat,
                )) == (final(self)@, changed)),
            consistent(final(self)@),
            changed ==> within_hour(final(self)@.next_check, now as nat),
    {
        let wall = wall_clock_nanos();
        proof {
            use_type_invariant(&*self);
        }
        self.configure_at(mode, interval_minutes, last_check, now, wall)
    }

    /// The instant at which the event loop should next call `take_due`.
    pub fn next_check(&self) -> (r: Option<u64>)
        ensures
            match self@.next_check {
                Some(n) => r == Some(n as u64),
                None => r is None,
            },
            consistent(self@),
    {
        proof {
            use_type_invariant(self);
        }
        self.next_check
    }

    /// Whether the configured interval has elapsed since the last recorded
    /// check. With no recorded check, a periodic schedule is due immediately.
    pub fn is_due(&self, wall: u64) -> (r: bool)
        ensures
            r == due(self@.mode, self@.interval_minutes, self@.last_check, wall as nat),
            consistent(self@),
    {
        proof {
            use_type_invariant(self);
        }
        if self.mode != UpdateCheckMode::Periodic {
            return false;
        }
        match self.last_check {
            None => true,
            Some(last) => wall >= last && wall - last >= Self::interval(self.interval_minutes),
        }
    }

    /// Wakes the schedule at `now`, `wall`: before the deadline nothing
    /// happens; at or after it the schedule is recomputed from the last
    /// recorded check, and when a check is due the answer is `true` and the
    /// next wake is one interval (at most an hour) away, so that a late tick
    /// does not produce a burst of checks.
    pub fn take_due(&mut self, now: u64, wall: u64) -> (r: bool)
        requires
            now <= u64::MAX - REEVALUATION_INTERVAL_NANOS,
        ensures
            final(self)@.mode == old(self)@.mode,
            final(self)@.interval_minutes == old(self)@.interval_minutes,
            final(self)@.last_check == old(self)@.last_check,
            consistent(final(self)@),
            (final(self)@.next_check, r) == take_due_outcome(old(self)@, now as nat, wall as nat),
            (old(self)@.next_check matches Some(n) && now >= n) ==> within_hour(
                final(self)@.next_check,
                now as nat,
            ),
            !(old(self)@.next_check matches Some(n) && now >= n) ==> final(self)@ == old(self)@,
    {
        proof {
            use_type_invariant(&*self);
        }
        match self.next_check {
            None => {
                return false;
            },
            Some(next) => {
                if now < next {
                    return false;
                }
            },
        }
        let due = self.is_due(wall);
        let next_check = if due {
            let interval = Self::interval(self.interval_minutes);
            let wait = if interval <= REEVALUATION_INTERVAL_NANOS {
                interval
            } else {
                REEVALUATION_INTERVAL_NANOS
            };
            Some(now + wait)
        } else {
            Self::compute_deadline(self.mode, self.interval_minutes, self.last_check, now, wall)
        };
        *self = UpdateCheckSchedule {
            mode: self.mode,
            interval_minutes: self.interval_minutes,
            last_check: self.last_check,
            next_check,
        };
        due
    }
}

/// A schedule that is not periodic is never due and has no deadline.
pub proof fn law_only_periodic_schedules_wake(
    mode: UpdateCheckMode,
    minutes: nat,
    last_check: Option<u64>,
    now: nat,
    wall: nat,
)
    requires
        mode != UpdateCheckMode::Periodic,
    ensures
        !due(mode, minutes, last_check, wall),
        deadline(mode, minutes, last_check, now, wall) is None,
{
}

/// A deadline never lies before `now` nor more than one hour after it.
pub proof fn law_deadline_within_reevaluation(
    mode: UpdateCheckMode,
    minutes: nat,
    last_check: Option<u64>,
    now: nat,
    wall: nat,
)
    ensures
        match deadline(mode, minutes, last_check, now, wall) {
            Some(d) => now <= d <= now + REEVALUATION_INTERVAL_NANOS,
            None => true,
        },
{
}

/// A periodic schedule with no recorded check, or whose interval has passed
/// since the recorded one, is due and wakes at once.
pub proof fn law_elapsed_interval_is_due_at_once(
    minutes: nat,
    last_check: Option<u64>,
    now: nat,
    wall: nat,
)
    requires
        match last_check {
            None => true,
            Some(last) => wall >= last + interval_nanos(minutes),
        },
    ensures
        due(UpdateCheckMode::Periodic, minutes, last_check, wall),
        deadline(UpdateCheckMode::Periodic, minutes, last_check, now, wall) == Some(now),
{
}

/// A periodic schedule whose last check lies less than one interval back is
/// not due, and wakes when the interval ends or after an hour, whichever
/// comes first.
pub proof fn law_recent_check_waits_out_the_interval(
    minutes: nat,
    last: u64,
    now: nat,
    wall: nat,
)
    requires
        last <= wall < last + interval_nanos(minutes),
    ensures
        !due(UpdateCheckMode::Periodic, minutes, Some(last), wall),
        deadline(UpdateCheckMode::Periodic, minutes, Some(last), now, wall) == Some(
            now + min_nat(
                (last + interval_nanos(minutes) - wall) as nat,
                REEVALUATION_INTERVAL_NANOS as nat,
            ),
        ),
{
}

/// A wake that reported a due check leaves the next deadline strictly after
/// `now`: waking again at the same instant reports nothing.
pub proof fn law_no_burst_of_checks(s: ScheduleView, now: nat, wall: nat, wall2: nat)
    requires
        s.interval_minutes >= 1,
        take_due_outcome(s, now, wall).1,
    ensures
        take_due_outcome(
            (ScheduleView { next_check: take_due_outcome(s, now, wall).0, ..s }),
            now,
            wall2,
        ) == (take_due_outcome(s, now, wall).0, false),
{
    assert(interval_nanos(s.interval_minutes) >= NANOS_PER_MINUTE) by (nonlinear_arith)
        requires
            s.interval_minutes >= 1,
    ;
}

/// A wake before the deadline changes nothing and reports nothing.
pub proof fn law_early_wake_changes_nothing(s: ScheduleView, now: nat, wall: nat)
    requires
        s.next_check is Some,
        now < s.next_check->0,
    ensures
        take_due_outcome(s, now, wall) == (s.next_check, false),
{
}

/// Configuring a schedule with the mode, interval (0 counting as 1) and
/// last check it already holds changes nothing, whatever the time.
pub proof fn law_configure_with_the_same_values_is_idle(
    s: ScheduleView,
    mode: UpdateCheckMode,
    interval_minutes: u16,
    last_check: Option<u64>,
    now: nat,
    wall: nat,
)
    requires
        same_configuration(s, mode, interval_minutes, last_check),
    ensures
        spec_configure(s, mode, interval_minutes, last_check, now, wall) == (s, false),
{
}

/// Configuring a schedule with any other values rebuilds it as `new` would
/// at that time; a mode that is not periodic cancels the deadline.
pub proof fn law_configure_rebuilds_and_disabling_cancels(
    s: ScheduleView,
    mode: UpdateCheckMode,
    interval_minutes: u16,
    last_check: Option<u64>,
    now: nat,
    wall: nat,
)
    requires
        !same_configuration(s, mode, interval_minutes, last_check),
    ensures
        spec_configure(s, mode, interval_minutes, last_check, now, wall) == (
            spec_new(mode, interval_minutes, last_check, now, wall),
            true,
        ),
        mode != UpdateCheckMode::Periodic ==> spec_configure(
            s,
            mode,
            interval_minutes,
            last_check,
            now,
            wall,
        ).0.next_check is None,
{
}

/// Every step that sets a deadline sets it within the hour after the time it
/// was given, and only a periodic schedule has one: `new` and a `configure`
/// that changes something build the deadline of `spec_new`, and a wake at
/// or past the deadline recomputes it; every other step keeps the deadline
/// it had. So over any history the deadline lies within an hour of the
/// step that last set it.
pub proof fn law_every_deadline_is_within_the_hour(
    s: ScheduleView,
    mode: UpdateCheckMode,
    interval_minutes: u16,
    last_check: Option<u64>,
    now: nat,
    wall: nat,
)
    requires
        consistent(s),
    ensures
        within_hour(spec_new(mode, interval_minutes, last_check, now, wall).next_check, now),
        consistent(spec_new(mode, interval_minutes, last_check, now, wall)),
        (s.next_check matches Some(n) && now >= n) ==> within_hour(
            take_due_outcome(s, now, wall).0,
            now,
        ),
        !(s.next_check matches Some(n) && now >= n) ==> take_due_outcome(s, now, wall).0
            == s.next_check,
        (take_due_outcome(s, now, wall).0 is Some <==> s.mode == UpdateCheckMode::Periodic),
{
}

} // verus!
