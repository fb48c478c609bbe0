//! The limit checker: the accounting of time and the rules by which a
//! sample of a group's counters is held against its limits.

use vstd::prelude::*;
use crate::counters::GroupCounters;
use crate::limits::{EnabledOsLimits, ResourceLimits, TerminationReason, LOAD_SCALE};
use crate::time::{clock_elapsed, clock_start, Duration};

verus! {

/// The clock reading and the user time of the sample from which the next
/// interval is measured.
#[derive(Copy, Clone, Debug, PartialEq, Eq, Structural)]
pub struct Anchor {
    pub at: Duration,
    pub user_time: Duration,
}

/// What a limit checker knows: the view of a [`LimitChecker`].
pub struct CheckerState {
    pub limits: ResourceLimits,
    pub os_limits: EnabledOsLimits,
    /// Time accounted since creation or the last reset, pauses left out.
    pub wall_time: Duration,
    /// User time accounted since creation or the last reset, pauses left out.
    pub user_time: Duration,
    /// Accounted time that the group spent below the load threshold.
    pub idle_time: Duration,
    /// Where the next interval starts.
    pub anchor: Anchor,
    /// Whether time accounting is stopped.
    pub paused: bool,
}

/// Whether a group that used `user` nanoseconds of CPU over `wall`
/// nanoseconds ran below a load of `threshold` millionths. Over an empty
/// interval no load is below any threshold.
pub open spec fn load_below(user: nat, wall: nat, threshold: u32) -> bool {
    user * (LOAD_SCALE as nat) < (threshold as nat) * wall
}

impl CheckerState {
    /// The state of a checker that was just made: nothing accounted, the
    /// first interval starting at clock reading zero with no user time.
    pub open spec fn initial(limits: ResourceLimits, os_limits: EnabledOsLimits) -> CheckerState {
        CheckerState {
            limits,
            os_limits,
            wall_time: Duration::of(0),
            user_time: Duration::of(0),
            idle_time: Duration::of(0),
            anchor: Anchor { at: Duration::of(0), user_time: Duration::of(0) },
            paused: false,
        }
    }

    /// The clock time between the anchor and `now`; zero where the clock
    /// went back.
    pub open spec fn wall_step(self, now: Duration) -> Duration {
        now.minus(self.anchor.at)
    }

    /// The user time that the group gained since the anchor; zero without
    /// timers, or where the counter went back.
    pub open spec fn user_step(self, counters: GroupCounters) -> Duration {
        match counters.timers {
            Some(t) => t.total_user_time.minus(self.anchor.user_time),
            None => Duration::of(0),
        }
    }

    /// The anchor moved to the clock reading `now`, the user time of the
    /// last sample kept: no sample comes with a message.
    pub open spec fn anchor_at(self, now: Duration) -> Anchor {
        Anchor { at: now, user_time: self.anchor.user_time }
    }

    /// Whether the interval that ends with this sample counts as idle: an
    /// idle limit is set, the platform provides timers, and the load over
    /// the interval is below the limit's threshold.
    pub open spec fn step_is_idle(self, now: Duration, counters: GroupCounters) -> bool {
        &&& self.limits.idle_time matches Some(idle)
        &&& counters.timers is Some
        &&& load_below(self.user_step(counters)@, self.wall_step(now)@, idle.cpu_load_threshold)
    }

    /// The anchor after a sample: at `now`, with the sampled user time, or
    /// the earlier user time where the platform provides no timers.
    pub open spec fn next_anchor(self, now: Duration, counters: GroupCounters) -> Anchor {
        Anchor {
            at: now,
            user_time: match counters.timers {
                Some(t) => t.total_user_time,
                None => self.anchor.user_time,
            },
        }
    }

    /// The state after the sample `counters`, taken at clock reading `now`,
    /// has been accounted. While paused only the anchor moves.
    pub open spec fn advance(self, now: Duration, counters: GroupCounters) -> CheckerState {
        if self.paused {
            CheckerState { anchor: self.next_anchor(now, counters), ..self }
        } else {
            CheckerState {
                wall_time: self.wall_time.plus(self.wall_step(now)),
                user_time: self.user_time.plus(self.user_step(counters)),
                idle_time: if self.step_is_idle(now, counters) {
                    self.idle_time.plus(self.wall_step(now))
                } else {
                    self.idle_time
                },
                anchor: self.next_anchor(now, counters),
                ..self
            }
        }
    }

    /// The first time limit that the accounted times exceed, in the order
    /// wall clock, idle, user. None while paused.
    pub open spec fn time_breach(self) -> Option<TerminationReason> {
        if self.paused {
            None
        } else if self.limits.wall_clock_time matches Some(l) && self.wall_time@ > l@ {
            Some(TerminationReason::WallClockTimeLimitExceeded)
        } else if self.limits.idle_time matches Some(idle) && self.idle_time@
            > idle.total_idle_time@ {
            Some(TerminationReason::IdleTimeLimitExceeded)
        } else if self.limits.total_user_time matches Some(l) && self.user_time@ > l@ {
            Some(TerminationReason::UserTimeLimitExceeded)
        } else {
            None
        }
    }

    pub open spec fn write_exceeded(self, counters: GroupCounters) -> bool {
        &&& self.limits.total_bytes_written matches Some(l)
        &&& counters.io matches Some(io)
        &&& io.total_bytes_written > l
    }

    pub open spec fn memory_exceeded(self, counters: GroupCounters) -> bool {
        &&& !self.os_limits.memory
        &&& self.limits.max_memory_usage matches Some(l)
        &&& counters.memory matches Some(m)
        &&& m.peak > l
    }

    pub open spec fn processes_exceeded(self, counters: GroupCounters) -> bool {
        &&& self.limits.total_processes_created matches Some(l)
        &&& counters.pid_counters matches Some(p)
        &&& p.total_processes > l
    }

    pub open spec fn active_processes_exceeded(self, counters: GroupCounters) -> bool {
        &&& !self.os_limits.active_process
        &&& self.limits.active_processes matches Some(l)
        &&& counters.pid_counters matches Some(p)
        &&& p.active_processes > l
    }

    pub open spec fn connections_exceeded(self, counters: GroupCounters) -> bool {
        &&& self.limits.active_network_connections matches Some(l)
        &&& counters.network matches Some(n)
        &&& n.active_connections > l
    }

    /// The first limit on a sampled counter that `counters` exceeds, in the
    /// order bytes written, memory, processes created, active processes,
    /// network connections. A cap that the operating system enforces, and a
    /// counter that the platform does not provide, exceed nothing.
    pub open spec fn counter_breach(self, counters: GroupCounters) -> Option<TerminationReason> {
        if self.write_exceeded(counters) {
            Some(TerminationReason::WriteLimitExceeded)
        } else if self.memory_exceeded(counters) {
            Some(TerminationReason::MemoryLimitExceeded)
        } else if self.processes_exceeded(counters) {
            Some(TerminationReason::ProcessLimitExceeded)
        } else if self.active_processes_exceeded(counters) {
            Some(TerminationReason::ActiveProcessLimitExceeded)
        } else if self.connections_exceeded(counters) {
            Some(TerminationReason::ActiveNetworkConnectionLimitExceeded)
        } else {
            None
        }
    }

    /// The first limit that is exceeded: the time limits come before the
    /// limits on sampled counters.
    pub open spec fn breach(self, counters: GroupCounters) -> Option<TerminationReason> {
        match self.time_breach() {
            Some(r) => Some(r),
            None => self.counter_breach(counters),
        }
    }

    /// The verdict on a sample: the rules held against the state after the
    /// sample was accounted.
    pub open spec fn verdict(self, now: Duration, counters: GroupCounters) -> Option<
        TerminationReason,
    > {
        self.advance(now, counters).breach(counters)
    }

    /// The state after a reset at clock reading `now`: all accumulators at
    /// zero, and time counted from `now` on.
    pub open spec fn reset_time(self, now: Duration) -> CheckerState {
        CheckerState {
            wall_time: Duration::of(0),
            user_time: Duration::of(0),
            idle_time: Duration::of(0),
            anchor: self.anchor_at(now),
            ..self
        }
    }

    /// The state after accounting was stopped at clock reading `now`: the
    /// time up to `now` is added to the wall time, and nothing after it
    /// until accounting is resumed. Idle time is judged at samples only, so
    /// the interval that the stop cuts short adds none. Stopping what is
    /// stopped changes nothing.
    pub open spec fn stop_time_accounting(self, now: Duration) -> CheckerState {
        if self.paused {
            self
        } else {
            CheckerState {
                wall_time: self.wall_time.plus(self.wall_step(now)),
                anchor: self.anchor_at(now),
                paused: true,
                ..self
            }
        }
    }

    /// The state after accounting was resumed at clock reading `now`: time
    /// is counted from `now` on. Resuming what was not stopped changes
    /// nothing.
    pub open spec fn resume_time_accounting(self, now: Duration) -> CheckerState {
        if self.paused {
            CheckerState { paused: false, anchor: self.anchor_at(now), ..self }
        } else {
            self
        }
    }

    /// Whether the accounted user time covers all that the group had used
    /// at the last sample. It does from creation on, until accounting is
    /// paused or reset.
    pub open spec fn covers_user_time(self) -> bool {
        self.user_time@ >= self.anchor.user_time@
    }
}

/// Holds a group's counters against its limits, sample by sample.
pub struct LimitChecker {
    origin: std::time::Instant,
    limits: ResourceLimits,
    os_limits: EnabledOsLimits,
    wall_time: Duration,
    user_time: Duration,
    idle_time: Duration,
    anchor: Anchor,
    paused: bool,
}

impl View for LimitChecker {
    type V = CheckerState;

    closed spec fn view(&self) -> CheckerState {
        CheckerState {
            limits: self.limits,
            os_limits: self.os_limits,
            wall_time: self.wall_time,
            user_time: self.user_time,
            idle_time: self.idle_time,
            anchor: self.anchor,
            paused: self.paused,
        }
    }
}

/// Whether `user` nanoseconds of CPU over `wall` nanoseconds is a load
/// below `threshold` millionths.
fn is_load_below(user: Duration, wall: Duration, threshold: u32) -> (r: bool)
    ensures
        r == load_below(user@, wall@, threshold),
{
    let scaled_user: u128 = {
        assert(user.nanos * LOAD_SCALE <= u128::MAX) by (nonlinear_arith)
            requires
                user.nanos <= u64::MAX,
                LOAD_SCALE == 1_000_000,
        ;
        (user.nanos as u128) * (LOAD_SCALE as u128)
    };
    let scaled_wall: u128 = {
        assert(threshold * wall.nanos <= u128::MAX) by (nonlinear_arith)
            requires
                wall.nanos <= u64::MAX,
                threshold <= u32::MAX,
        ;
        (threshold as u128) * (wall.nanos as u128)
    };
    scaled_user < scaled_wall
}

impl LimitChecker {
    /// A checker for `limits` whose clock starts now. `os_limits` names the
    /// caps that the operating system enforces: the checker leaves them out.
    pub fn new(limits: ResourceLimits, os_limits: EnabledOsLimits) -> (checker: LimitChecker)
        ensures
            checker@ == CheckerState::initial(limits, os_limits),
    {
        LimitChecker {
            origin: clock_start(),
            limits,
            os_limits,
            wall_time: Duration::zero(),
            user_time: Duration::zero(),
            idle_time: Duration::zero(),
            anchor: Anchor { at: Duration::zero(), user_time: Duration::zero() },
            paused: false,
        }
    }

    pub fn limits(&self) -> (limits: ResourceLimits)
        ensures
            limits == self@.limits,
    {
        self.limits
    }

    pub fn wall_time(&self) -> (d: Duration)
        ensures
            d == self@.wall_time,
    {
        self.wall_time
    }

    pub fn user_time(&self) -> (d: Duration)
        ensures
            d == self@.user_time,
    {
        self.user_time
    }

    pub fn idle_time(&self) -> (d: Duration)
        ensures
            d == self@.idle_time,
    {
        self.idle_time
    }

    /// The time on the checker's clock: what has passed since it was made.
    pub(crate) fn now(&self) -> (now: Duration) {
        Duration::from_wide_nanos(clock_elapsed(&self.origin))
    }

    fn time_breach(&self) -> (r: Option<TerminationReason>)
        ensures
            r == self@.time_breach(),
    {
        if self.paused {
            return None;
        }
        if let Some(l) = self.limits.wall_clock_time {
            if self.wall_time.nanos > l.nanos {
                return Some(TerminationReason::WallClockTimeLimitExceeded);
            }
        }
        if let Some(idle) = self.limits.idle_time {
            if self.idle_time.nanos > idle.total_idle_time.nanos {
                return Some(TerminationReason::IdleTimeLimitExceeded);
            }
        }
        if let Some(l) = self.limits.total_user_time {
            if self.user_time.nanos > l.nanos {
                return Some(TerminationReason::UserTimeLimitExceeded);
            }
        }
        None
    }

    fn counter_breach(&self, counters: &GroupCounters) -> (r: Option<TerminationReason>)
        ensures
            r == self@.counter_breach(*counters),
    {
        if let (Some(l), Some(io)) = (self.limits.total_bytes_written, counters.io) {
            if io.total_bytes_written > l {
                return Some(TerminationReason::WriteLimitExceeded);
            }
        }
        if !self.os_limits.memory {
            if let (Some(l), Some(m)) = (self.limits.max_memory_usage, counters.memory) {
                if m.peak > l {
                    return Some(TerminationReason::MemoryLimitExceeded);
                }
            }
        }
        if let (Some(l), Some(p)) = (self.limits.total_processes_created, counters.pid_counters) {
            if p.total_processes > l {
                return Some(TerminationReason::ProcessLimitExceeded);
            }
        }
        if !self.os_limits.active_process {
            if let (Some(l), Some(p)) = (self.limits.active_processes, counters.pid_counters) {
                if p.active_processes > l {
                    return Some(TerminationReason::ActiveProcessLimitExceeded);
                }
            }
        }
        if let (Some(l), Some(n)) = (self.limits.active_network_connections, counters.network) {
            if n.active_connections > l {
                return Some(TerminationReason::ActiveNetworkConnectionLimitExceeded);
            }
        }
        None
    }

    /// Accounts the sample `counters`, taken at `now` on the checker's
    /// clock, and names the first limit that is then exceeded.
    pub fn check_at(&mut self, now: Duration, counters: &GroupCounters) -> (r: Option<
        TerminationReason,
    >)
        ensures
            final(self)@ == old(self)@.advance(now, *counters),
            r == old(self)@.verdict(now, *counters),
    {
        let wall_step: Duration = now.saturating_sub(self.anchor.at);
        let user_step: Duration = match counters.timers {
            Some(t) => t.total_user_time.saturating_sub(self.anchor.user_time),
            None => Duration::zero(),
        };
        let baseline: Duration = match counters.timers {
            Some(t) => t.total_user_time,
            None => self.anchor.user_time,
        };
        if !self.paused {
            let idle: bool = match (self.limits.idle_time, counters.timers) {
                (Some(limit), Some(_)) => is_load_below(
                    user_step,
                    wall_step,
                    limit.cpu_load_threshold,
                ),
                _ => false,
            };
            self.wall_time = self.wall_time.saturating_add(wall_step);
            self.user_time = self.user_time.saturating_add(user_step);
            if idle {
                self.idle_time = self.idle_time.saturating_add(wall_step);
            }
        }
        self.anchor = Anchor { at: now, user_time: baseline };
        match self.time_breach() {
            Some(r) => Some(r),
            None => self.counter_breach(counters),
        }
    }

    /// Accounts the sample `counters` as taken now, and names the first
    /// limit that is then exceeded. The outcome is that of
    /// [`LimitChecker::check_at`] at some reading of the clock.
    pub fn check(&mut self, counters: &GroupCounters) -> (r: Option<TerminationReason>)
        ensures
            exists|now: Duration|
                {
                    &&& final(self)@ == #[trigger] old(self)@.advance(now, *counters)
                    &&& r == old(self)@.verdict(now, *counters)
                },
    {
        let now: Duration = self.now();
        self.check_at(now, counters)
    }

    /// Sets all accumulators to zero and counts time from `now` on, a
    /// reading of the checker's clock.
    pub fn reset_time_at(&mut self, now: Duration)
        ensures
            final(self)@ == old(self)@.reset_time(now),
    {
        self.wall_time = Duration::zero();
        self.user_time = Duration::zero();
        self.idle_time = Duration::zero();
        self.anchor = Anchor { at: now, user_time: self.anchor.user_time };
    }

    /// Sets all accumulators to zero and counts time from this moment on.
    /// The outcome is that of [`LimitChecker::reset_time_at`] at some
    /// reading of the clock.
    pub fn reset_time(&mut self)
        ensures
            exists|now: Duration| final(self)@ == #[trigger] old(self)@.reset_time(now),
    {
        let now: Duration = self.now();
        self.reset_time_at(now)
    }

    /// Freezes the accumulators at `now`, a reading of the checker's clock:
    /// the time up to `now` is added to the wall time, and until
    /// accounting is resumed a check adds nothing and reports no time
    /// limit.
    pub fn stop_time_accounting_at(&mut self, now: Duration)
        ensures
            final(self)@ == old(self)@.stop_time_accounting(now),
    {
        if !self.paused {
            self.wall_time = self.wall_time.saturating_add(now.saturating_sub(self.anchor.at));
            self.anchor = Anchor { at: now, user_time: self.anchor.user_time };
            self.paused = true;
        }
    }

    /// Freezes the accumulators at this moment. The outcome is that of
    /// [`LimitChecker::stop_time_accounting_at`] at some reading of the
    /// clock.
    pub fn stop_time_accounting(&mut self)
        ensures
            exists|now: Duration|
                final(self)@ == #[trigger] old(self)@.stop_time_accounting(now),
    {
        let now: Duration = self.now();
        self.stop_time_accounting_at(now)
    }

    /// Unfreezes the accumulators at `now`, a reading of the checker's
    /// clock: time is counted from `now` on.
    pub fn resume_time_accounting_at(&mut self, now: Duration)
        ensures
            final(self)@ == old(self)@.resume_time_accounting(now),
    {
        if self.paused {
            self.paused = false;
            self.anchor = Anchor { at: now, user_time: self.anchor.user_time };
        }
    }

    /// Unfreezes the accumulators at this moment. The outcome is that of
    /// [`LimitChecker::resume_time_accounting_at`] at some reading of the
    /// clock.
    pub fn resume_time_accounting(&mut self)
        ensures
            exists|now: Duration|
                final(self)@ == #[trigger] old(self)@.resume_time_accounting(now),
    {
        let now: Duration = self.now();
        self.resume_time_accounting_at(now)
    }
}

/// A sample together with the clock reading at which it was taken.
pub struct TimedSample {
    pub at: Duration,
    pub counters: GroupCounters,
}

impl CheckerState {
    /// The state after the samples were accounted one after the other.
    pub open spec fn advance_all(self, samples: Seq<TimedSample>) -> CheckerState
        decreases samples.len(),
    {
        if samples.len() == 0 {
            self
        } else {
            self.advance(samples[0].at, samples[0].counters).advance_all(samples.drop_first())
        }
    }

    /// Whether `counters` is within every limit that the checker enforces on
    /// a sampled counter, and the accounted times within every time limit.
    pub open spec fn within_limits(self, counters: GroupCounters) -> bool {
        &&& self.paused || match self.limits.wall_clock_time {
            Some(l) => self.wall_time@ <= l@,
            None => true,
        }
        &&& self.paused || match self.limits.idle_time {
            Some(idle) => self.idle_time@ <= idle.total_idle_time@,
            None => true,
        }
        &&& self.paused || match self.limits.total_user_time {
            Some(l) => self.user_time@ <= l@,
            None => true,
        }
        &&& match (self.limits.total_bytes_written, counters.io) {
            (Some(l), Some(io)) => io.total_bytes_written <= l,
            _ => true,
        }
        &&& self.os_limits.memory || match (self.limits.max_memory_usage, counters.memory) {
            (Some(l), Some(m)) => m.peak <= l,
            _ => true,
        }
        &&& match (self.limits.total_processes_created, counters.pid_counters) {
            (Some(l), Some(p)) => p.total_processes <= l,
            _ => true,
        }
        &&& self.os_limits.active_process || match (
            self.limits.active_processes,
            counters.pid_counters,
        ) {
            (Some(l), Some(p)) => p.active_processes <= l,
            _ => true,
        }
        &&& match (self.limits.active_network_connections, counters.network) {
            (Some(l), Some(n)) => n.active_connections <= l,
            _ => true,
        }
    }
}

/// A check that names no limit has found the sample within every limit that
/// the checker enforces, and a check that names one has found it exceeded.
pub proof fn law_silent_check_means_within_limits(
    state: CheckerState,
    now: Duration,
    counters: GroupCounters,
)
    ensures
        state.verdict(now, counters) is None <==> state.advance(now, counters).within_limits(
            counters,
        ),
{
}

/// While the accounted user time covers what the group has used, a check
/// that names no limit has seen a sampled user time within the limit on it,
/// and the next accounted user time covers the sample again.
pub proof fn law_user_time_limit_holds_of_sample(
    state: CheckerState,
    now: Duration,
    counters: GroupCounters,
)
    requires
        state.covers_user_time(),
        !state.paused,
    ensures
        state.advance(now, counters).covers_user_time(),
        state.verdict(now, counters) is None ==> match (
            state.limits.total_user_time,
            counters.timers,
        ) {
            (Some(l), Some(t)) => t.total_user_time@ <= l@,
            _ => true,
        },
{
}

/// A checker that was just made covers the group's user time.
pub proof fn law_new_checker_covers_user_time(limits: ResourceLimits, os_limits: EnabledOsLimits)
    ensures
        CheckerState::initial(limits, os_limits).covers_user_time(),
{
}

/// A check at the very reading of a reset, on a sample that shows no more
/// user time than the last one, names no time limit: its verdict is that of
/// the sampled counters alone.
pub proof fn law_check_after_reset(state: CheckerState, now: Duration, counters: GroupCounters)
    requires
        state.user_step(counters)@ == 0,
    ensures
        state.reset_time(now).verdict(now, counters) == state.counter_breach(counters),
        state.reset_time(now).verdict(now, counters) != Some(
            TerminationReason::WallClockTimeLimitExceeded,
        ),
        state.reset_time(now).verdict(now, counters) != Some(
            TerminationReason::IdleTimeLimitExceeded,
        ),
        state.reset_time(now).verdict(now, counters) != Some(
            TerminationReason::UserTimeLimitExceeded,
        ),
{
}

/// After a reset the wall time is counted from the reading of the reset:
/// the first check after it accounts the time that has passed since, and
/// the user time that the group gained since the last sample.
pub proof fn law_reset_counts_from_its_reading(
    state: CheckerState,
    at: Duration,
    now: Duration,
    counters: GroupCounters,
)
    requires
        !state.paused,
    ensures
        state.reset_time(at).advance(now, counters).wall_time == now.minus(at),
        state.reset_time(at).advance(now, counters).user_time == state.user_step(counters),
{
}

/// While accounting is stopped, samples leave the accumulators as they are.
pub proof fn law_paused_samples_add_nothing(state: CheckerState, samples: Seq<TimedSample>)
    requires
        state.paused,
    ensures
        state.advance_all(samples).paused,
        state.advance_all(samples).wall_time == state.wall_time,
        state.advance_all(samples).user_time == state.user_time,
        state.advance_all(samples).idle_time == state.idle_time,
        state.advance_all(samples).limits == state.limits,
        state.advance_all(samples).os_limits == state.os_limits,
    decreases samples.len(),
{
    if samples.len() > 0 {
        law_paused_samples_add_nothing(
            state.advance(samples[0].at, samples[0].counters),
            samples.drop_first(),
        );
    }
}

/// A pause is left out whole, and nothing else is. Stopping at `stopped_at`
/// adds the time up to then; the samples during the pause add nothing,
/// however many and however late; right after resuming at `resumed_at`
/// the accounted times are what they were at the stop; and the first check
/// after it adds the time that has passed since `resumed_at`, and the user
/// time that the group gained since the last sample.
pub proof fn law_pause_is_left_out(
    state: CheckerState,
    stopped_at: Duration,
    during: Seq<TimedSample>,
    resumed_at: Duration,
    after: TimedSample,
)
    requires
        !state.paused,
    ensures
        ({
            let stopped = state.stop_time_accounting(stopped_at);
            let resumed = stopped.advance_all(during).resume_time_accounting(resumed_at);
            let next = resumed.advance(after.at, after.counters);
            &&& stopped.wall_time == state.wall_time.plus(stopped_at.minus(state.anchor.at))
            &&& stopped.user_time == state.user_time
            &&& stopped.idle_time == state.idle_time
            &&& !resumed.paused
            &&& resumed.wall_time == stopped.wall_time
            &&& resumed.user_time == stopped.user_time
            &&& resumed.idle_time == stopped.idle_time
            &&& next.wall_time == stopped.wall_time.plus(after.at.minus(resumed_at))
            &&& next.user_time == stopped.user_time.plus(resumed.user_step(after.counters))
        }),
{
    law_paused_samples_add_nothing(state.stop_time_accounting(stopped_at), during);
}

/// Without any limit no check ever names one.
pub proof fn law_no_limits_no_verdict(state: CheckerState, now: Duration, counters: GroupCounters)
    requires
        state.limits == crate::limits::no_limits(),
    ensures
        state.verdict(now, counters) is None,
        state.advance(now, counters).limits == crate::limits::no_limits(),
{
}

/// A limit of zero processes is exceeded by the first sample that shows a
/// process: the check names a limit, and names this one unless a limit that
/// is looked at earlier is exceeded too.
pub proof fn law_zero_process_limit_fires(
    state: CheckerState,
    now: Duration,
    counters: GroupCounters,
)
    requires
        state.limits.total_processes_created == Some(0usize),
        counters.pid_counters matches Some(p) && p.total_processes > 0,
    ensures
        state.verdict(now, counters) is Some,
        ({
            let next = state.advance(now, counters);
            (next.time_breach() is None && !next.write_exceeded(counters)
                && !next.memory_exceeded(counters)) ==> state.verdict(now, counters) == Some(
                TerminationReason::ProcessLimitExceeded,
            )
        }),
{
}

/// While accounting runs, the accounted wall time never goes down, and it
/// is at least the interval that the last sample closed.
pub proof fn law_wall_time_grows(state: CheckerState, now: Duration, counters: GroupCounters)
    requires
        !state.paused,
    ensures
        state.advance(now, counters).wall_time@ >= state.wall_time@,
        state.advance(now, counters).wall_time@ >= state.wall_step(now)@,
{
}

/// Once the accounted wall time would pass the limit on it, the check names
/// that limit whatever the counters say.
pub proof fn law_wall_clock_limit_fires(
    state: CheckerState,
    now: Duration,
    counters: GroupCounters,
)
    requires
        !state.paused,
        state.limits.wall_clock_time matches Some(l) && state.wall_time.plus(
            state.wall_step(now),
        )@ > l@,
    ensures
        state.verdict(now, counters) == Some(TerminationReason::WallClockTimeLimitExceeded),
{
}

} // verus!
