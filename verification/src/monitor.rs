//! The supervisor of one process: what it decides at each tick, and the
//! report it ends with.

use vstd::prelude::*;
use std::sync::mpsc::Receiver;
use crate::counters::{
    ExitStatus, GroupCounters, GroupIo, GroupMemory, GroupNetwork, GroupPidCounters, GroupTimers,
};
use crate::limit_checker::{CheckerState, LimitChecker};
use crate::limits::TerminationReason;
use crate::message::{try_receive, RunnerMessage, TimedMessage, MAX_MESSAGES_PER_TICK};
use crate::time::{clock_elapsed, clock_start, Duration};

verus! {

/// Summary information about a process's execution.
#[derive(Clone, Debug, PartialEq, Eq)]
pub struct Report {
    pub wall_clock_time: Duration,
    pub memory: Option<GroupMemory>,
    pub io: Option<GroupIo>,
    pub timers: Option<GroupTimers>,
    pub pid_counters: Option<GroupPidCounters>,
    pub network: Option<GroupNetwork>,
    pub exit_status: ExitStatus,
    pub termination_reason: Option<TerminationReason>,
}

/// What the supervisor asks its caller to do to the process or its group.
#[derive(Copy, Clone, Debug, PartialEq, Eq, Structural)]
pub enum MonitorAction {
    /// End every process of the group.
    TerminateGroup,
    /// Suspend the supervised process.
    SuspendProcess,
    /// Let the supervised process run again.
    ResumeProcess,
}

impl MonitorAction {
    /// Whether the action is still due for a process whose exit status is
    /// now `exit_status`: the end of the group always, suspending and
    /// resuming only while the process is running.
    pub open spec fn spec_applies_to(self, exit_status: Option<ExitStatus>) -> bool {
        self == MonitorAction::TerminateGroup || exit_status is None
    }

    /// Whether the action is still due for a process whose exit status is
    /// now `exit_status`. A process may exit between the sample of a tick
    /// and the moment an action of that tick is carried out.
    pub fn applies_to(&self, exit_status: &Option<ExitStatus>) -> (r: bool)
        ensures
            r == self.spec_applies_to(*exit_status),
    {
        match self {
            MonitorAction::TerminateGroup => true,
            _ => exit_status.is_none(),
        }
    }
}

/// How a tick ended.
#[derive(Debug, PartialEq, Eq)]
pub enum TickOutcome {
    /// The process is done: this is its report, and the supervisor's work
    /// is over.
    Report(Report),
    /// The process goes on. The actions are to be carried out in order,
    /// and the next tick follows after the monitor interval.
    Continue(Vec<MonitorAction>),
}

/// The view of a [`TickOutcome`].
pub enum Outcome {
    Report(Report),
    Continue(Seq<MonitorAction>),
}

impl View for TickOutcome {
    type V = Outcome;

    open spec fn view(&self) -> Outcome {
        match self {
            TickOutcome::Report(r) => Outcome::Report(*r),
            TickOutcome::Continue(actions) => Outcome::Continue(actions@),
        }
    }
}

/// What a supervisor knows: the view of a [`ProcessMonitor`].
pub struct MonitorState {
    pub checker: CheckerState,
    /// The first reason for which the group was ended, if it was.
    pub term_reason: Option<TerminationReason>,
    pub monitor_interval: Duration,
    pub wait_for_children: bool,
}

impl MonitorState {
    /// The state with `reason` recorded, unless a reason was recorded
    /// before: the first one stays.
    pub open spec fn record(self, reason: Option<TerminationReason>) -> MonitorState {
        MonitorState {
            term_reason: if self.term_reason is Some {
                self.term_reason
            } else {
                reason
            },
            ..self
        }
    }

    /// Whether the supervisor waits for descendants of the process that
    /// the sample shows alive.
    pub open spec fn awaits_children(self, counters: GroupCounters) -> bool {
        &&& self.wait_for_children
        &&& counters.pid_counters matches Some(p)
        &&& p.active_processes != 0
    }

    /// Whether the report can be made: the process has exited, and no
    /// descendant is waited for.
    pub open spec fn report_ready(
        self,
        exit_status: Option<ExitStatus>,
        counters: GroupCounters,
    ) -> bool {
        exit_status is Some && !self.awaits_children(counters)
    }

    /// The state after the report was made: where no reason was recorded
    /// yet, the sample went through one last check, and what that check
    /// named is recorded.
    pub open spec fn after_report(self, now: Duration, counters: GroupCounters) -> MonitorState {
        if self.term_reason is None {
            MonitorState {
                checker: self.checker.advance(now, counters),
                term_reason: self.checker.verdict(now, counters),
                ..self
            }
        } else {
            self
        }
    }

    /// The report on a process that ended with `exit_status`, made at
    /// `elapsed` on the supervisor's clock from the sample `counters`.
    pub open spec fn report(
        self,
        now: Duration,
        elapsed: Duration,
        exit_status: ExitStatus,
        counters: GroupCounters,
    ) -> Report {
        Report {
            wall_clock_time: elapsed,
            memory: counters.memory,
            io: counters.io,
            timers: counters.timers,
            pid_counters: counters.pid_counters,
            network: counters.network,
            exit_status,
            termination_reason: self.after_report(now, counters).term_reason,
        }
    }

    /// The state after the limits were held against a sample: the sample is
    /// accounted and what the check named is recorded.
    pub open spec fn enforce(self, now: Duration, counters: GroupCounters) -> MonitorState {
        MonitorState { checker: self.checker.advance(now, counters), ..self }.record(
            self.checker.verdict(now, counters),
        )
    }

    /// What holding the limits against a sample asks for: the end of the
    /// group where a limit is exceeded.
    pub open spec fn enforce_action(self, now: Duration, counters: GroupCounters) -> Option<
        MonitorAction,
    > {
        if self.checker.verdict(now, counters) is Some {
            Some(MonitorAction::TerminateGroup)
        } else {
            None
        }
    }

    /// The state after one message, handled at `now` on the checker's
    /// clock. The messages on the time accounting take effect at `now`.
    pub open spec fn apply_message(self, msg: RunnerMessage, now: Duration) -> MonitorState {
        match msg {
            RunnerMessage::Terminate => self.record(Some(TerminationReason::TerminatedByRunner)),
            RunnerMessage::Suspend => self,
            RunnerMessage::Resume => self,
            RunnerMessage::ResetTime => MonitorState {
                checker: self.checker.reset_time(now),
                ..self
            },
            RunnerMessage::StopTimeAccounting => MonitorState {
                checker: self.checker.stop_time_accounting(now),
                ..self
            },
            RunnerMessage::ResumeTimeAccounting => MonitorState {
                checker: self.checker.resume_time_accounting(now),
                ..self
            },
        }
    }

    /// The states after each of `msgs` in turn, each handled at its own
    /// reading of the clock.
    pub open spec fn apply_messages(self, msgs: Seq<TimedMessage>) -> MonitorState
        decreases msgs.len(),
    {
        if msgs.len() == 0 {
            self
        } else {
            self.apply_messages(msgs.drop_last()).apply_message(msgs.last().msg, msgs.last().at)
        }
    }

    /// The state after a tick that made no report: the limits are held
    /// against the sample, then the messages are taken in.
    pub open spec fn carry_on(
        self,
        now: Duration,
        counters: GroupCounters,
        msgs: Seq<TimedMessage>,
    ) -> MonitorState {
        self.enforce(now, counters).apply_messages(msgs)
    }

    /// The state after a tick.
    pub open spec fn tick(
        self,
        now: Duration,
        exit_status: Option<ExitStatus>,
        counters: GroupCounters,
        msgs: Seq<TimedMessage>,
    ) -> MonitorState {
        if self.report_ready(exit_status, counters) {
            self.after_report(now, counters)
        } else {
            self.carry_on(now, counters, msgs)
        }
    }

    /// How a tick ends: with the report where it can be made, else with the
    /// actions that the limits and the messages ask for, in that order.
    pub open spec fn tick_outcome(
        self,
        now: Duration,
        elapsed: Duration,
        exit_status: Option<ExitStatus>,
        counters: GroupCounters,
        msgs: Seq<TimedMessage>,
    ) -> Outcome {
        if self.report_ready(exit_status, counters) {
            Outcome::Report(self.report(now, elapsed, exit_status->0, counters))
        } else {
            Outcome::Continue(
                one_or_none(self.enforce_action(now, counters)) + actions_of_messages(
                    msgs,
                    exit_status is None,
                ),
            )
        }
    }
}

/// What one message asks the caller to do: the end of the group for
/// `Terminate`; for `Suspend` and `Resume` the matching action while the
/// process is running, and nothing once it has exited; nothing for the
/// messages that only concern the time accounting.
pub open spec fn action_of_message(msg: RunnerMessage, running: bool) -> Option<MonitorAction> {
    match msg {
        RunnerMessage::Terminate => Some(MonitorAction::TerminateGroup),
        RunnerMessage::Suspend => if running {
            Some(MonitorAction::SuspendProcess)
        } else {
            None
        },
        RunnerMessage::Resume => if running {
            Some(MonitorAction::ResumeProcess)
        } else {
            None
        },
        _ => None,
    }
}

/// The actions that `msgs` ask for, in the order of the messages.
pub open spec fn actions_of_messages(msgs: Seq<TimedMessage>, running: bool) -> Seq<
    MonitorAction,
>
    decreases msgs.len(),
{
    if msgs.len() == 0 {
        Seq::empty()
    } else {
        actions_of_messages(msgs.drop_last(), running) + one_or_none(
            action_of_message(msgs.last().msg, running),
        )
    }
}

/// An action that may be absent, as a sequence of one or none.
pub open spec fn one_or_none(action: Option<MonitorAction>) -> Seq<MonitorAction> {
    match action {
        Some(a) => seq![a],
        None => Seq::empty(),
    }
}

/// The supervisor of one process. It owns the limit checker and the
/// receiving end of the message channel; the process and its group stay
/// with the caller, who samples them for each tick and carries out what
/// the tick asks for.
pub struct ProcessMonitor {
    limit_checker: LimitChecker,
    creation_time: std::time::Instant,
    term_reason: Option<TerminationReason>,
    msg_receiver: Receiver<RunnerMessage>,
    monitor_interval: Duration,
    wait_for_children: bool,
}

impl View for ProcessMonitor {
    type V = MonitorState;

    closed spec fn view(&self) -> MonitorState {
        MonitorState {
            checker: self.limit_checker@,
            term_reason: self.term_reason,
            monitor_interval: self.monitor_interval,
            wait_for_children: self.wait_for_children,
        }
    }
}

impl ProcessMonitor {
    /// A supervisor for a process that was just spawned: its clock starts
    /// now and no reason is recorded.
    pub fn new(
        limit_checker: LimitChecker,
        msg_receiver: Receiver<RunnerMessage>,
        monitor_interval: Duration,
        wait_for_children: bool,
    ) -> (monitor: ProcessMonitor)
        ensures
            monitor@ == (MonitorState {
                checker: limit_checker@,
                term_reason: None,
                monitor_interval,
                wait_for_children,
            }),
    {
        ProcessMonitor {
            limit_checker,
            creation_time: clock_start(),
            term_reason: None,
            msg_receiver,
            monitor_interval,
            wait_for_children,
        }
    }

    /// The pause between two ticks.
    pub fn monitor_interval(&self) -> (interval: Duration)
        ensures
            interval == self@.monitor_interval,
    {
        self.monitor_interval
    }

    /// The first reason for which the group was ended, if it was.
    pub fn termination_reason(&self) -> (reason: Option<TerminationReason>)
        ensures
            reason == self@.term_reason,
    {
        self.term_reason
    }

    /// The time since the supervisor was made.
    fn elapsed(&self) -> (elapsed: Duration) {
        Duration::from_wide_nanos(clock_elapsed(&self.creation_time))
    }

    fn record(&mut self, reason: Option<TerminationReason>)
        ensures
            final(self)@ == old(self)@.record(reason),
    {
        if self.term_reason.is_none() {
            self.term_reason = reason;
        }
    }

    /// Makes the report if it can be made: the process has exited, and
    /// either descendants are not waited for or the sample shows none
    /// alive. Where no reason was recorded before, the sample goes through
    /// one last check at `now` on the checker's clock. Else nothing changes.
    pub fn get_report_at(
        &mut self,
        now: Duration,
        elapsed: Duration,
        exit_status: Option<ExitStatus>,
        counters: &GroupCounters,
    ) -> (report: Option<Report>)
        ensures
            old(self)@.report_ready(exit_status, *counters) ==> {
                &&& final(self)@ == old(self)@.after_report(now, *counters)
                &&& report == Some(old(self)@.report(now, elapsed, exit_status->0, *counters))
            },
            !old(self)@.report_ready(exit_status, *counters) ==> {
                &&& final(self)@ == old(self)@
                &&& report is None
            },
    {
        let exit_status: ExitStatus = match exit_status {
            Some(status) => status,
            None => {
                return None;
            },
        };
        if self.wait_for_children {
            if let Some(p) = counters.pid_counters {
                if p.active_processes != 0 {
                    return None;
                }
            }
        }
        if self.term_reason.is_none() {
            self.term_reason = self.limit_checker.check_at(now, counters);
        }
        Some(
            Report {
                wall_clock_time: elapsed,
                memory: counters.memory,
                io: counters.io,
                timers: counters.timers,
                pid_counters: counters.pid_counters,
                network: counters.network,
                exit_status,
                termination_reason: self.term_reason,
            },
        )
    }

    /// Makes the report, as [`ProcessMonitor::get_report_at`] does, at the
    /// present readings of both clocks.
    pub fn get_report(&mut self, exit_status: Option<ExitStatus>, counters: &GroupCounters) -> (report:
        Option<Report>)
        ensures
            !old(self)@.report_ready(exit_status, *counters) ==> {
                &&& final(self)@ == old(self)@
                &&& report is None
            },
            old(self)@.report_ready(exit_status, *counters) ==> exists|
                now: Duration,
                elapsed: Duration,
            |
                {
                    &&& final(self)@ == #[trigger] old(self)@.after_report(now, *counters)
                    &&& report == Some(
                        #[trigger] old(self)@.report(now, elapsed, exit_status->0, *counters),
                    )
                },
    {
        let now: Duration = self.limit_checker.now();
        let elapsed: Duration = self.elapsed();
        self.get_report_at(now, elapsed, exit_status, counters)
    }

    /// Holds the limits against a sample taken at `now` on the checker's
    /// clock. Where one is exceeded the group is to be ended, and the limit
    /// is recorded as the reason unless one was recorded before.
    pub fn enforce_limits_at(&mut self, now: Duration, counters: &GroupCounters) -> (action: Option<
        MonitorAction,
    >)
        ensures
            final(self)@ == old(self)@.enforce(now, *counters),
            action == old(self)@.enforce_action(now, *counters),
    {
        match self.limit_checker.check_at(now, counters) {
            Some(reason) => {
                self.record(Some(reason));
                Some(MonitorAction::TerminateGroup)
            },
            None => None,
        }
    }

    /// Takes in one message at `now`, a reading of the checker's clock:
    /// changes the state as the message says and returns what the caller
    /// is to do for it. `running` says whether the process had not exited
    /// at the last sample.
    pub fn apply_message(&mut self, msg: RunnerMessage, now: Duration, running: bool) -> (action:
        Option<MonitorAction>)
        ensures
            final(self)@ == old(self)@.apply_message(msg, now),
            action == action_of_message(msg, running),
    {
        match msg {
            RunnerMessage::Terminate => {
                self.record(Some(TerminationReason::TerminatedByRunner));
                Some(MonitorAction::TerminateGroup)
            },
            RunnerMessage::Suspend => {
                if running {
                    Some(MonitorAction::SuspendProcess)
                } else {
                    None
                }
            },
            RunnerMessage::Resume => {
                if running {
                    Some(MonitorAction::ResumeProcess)
                } else {
                    None
                }
            },
            RunnerMessage::ResetTime => {
                self.limit_checker.reset_time_at(now);
                None
            },
            RunnerMessage::StopTimeAccounting => {
                self.limit_checker.stop_time_accounting_at(now);
                None
            },
            RunnerMessage::ResumeTimeAccounting => {
                self.limit_checker.resume_time_accounting_at(now);
                None
            },
        }
    }

    /// Takes messages off the channel, at most ten, reads the clock for
    /// each, and appends to `actions` what they ask for. Returns the
    /// messages taken, in order, with their readings.
    fn drain_messages(&mut self, running: bool, actions: &mut Vec<MonitorAction>) -> (taken: Ghost<
        Seq<TimedMessage>,
    >)
        ensures
            taken@.len() <= MAX_MESSAGES_PER_TICK,
            final(self)@ == old(self)@.apply_messages(taken@),
            final(actions)@ == old(actions)@ + actions_of_messages(taken@, running),
    {
        let ghost mut taken: Seq<TimedMessage> = Seq::empty();
        let mut count: usize = 0;
        while count < MAX_MESSAGES_PER_TICK
            invariant
                count <= MAX_MESSAGES_PER_TICK,
                taken.len() == count,
                self@ == old(self)@.apply_messages(taken),
                actions@ == old(actions)@ + actions_of_messages(taken, running),
            decreases MAX_MESSAGES_PER_TICK - count,
        {
            let msg: RunnerMessage = match try_receive(&self.msg_receiver) {
                Some(msg) => msg,
                None => {
                    break ;
                },
            };
            let ghost before = taken;
            let ghost actions_before = actions@;
            let at: Duration = self.limit_checker.now();
            let action: Option<MonitorAction> = self.apply_message(msg, at, running);
            if let Some(a) = action {
                actions.push(a);
            }
            proof {
                taken = taken.push(TimedMessage { msg, at });
                assert(taken.drop_last() == before);
                assert(taken.last() == TimedMessage { msg, at });
                assert(actions@ == actions_before + one_or_none(action));
                assert(actions@ == old(actions)@ + actions_of_messages(taken, running));
            }
            count = count + 1;
        }
        Ghost(taken)
    }

    /// Takes the queued messages off the channel, at most ten of them in
    /// the order in which they were sent, each taking effect at the moment
    /// it is handled, and returns what they ask for in that order.
    /// `running` says whether the process had not exited at the last
    /// sample.
    pub fn handle_messages(&mut self, running: bool) -> (actions: Vec<MonitorAction>)
        ensures
            exists|msgs: Seq<TimedMessage>|
                {
                    &&& msgs.len() <= MAX_MESSAGES_PER_TICK
                    &&& final(self)@ == #[trigger] old(self)@.apply_messages(msgs)
                    &&& actions@ == actions_of_messages(msgs, running)
                },
    {
        let mut actions: Vec<MonitorAction> = Vec::new();
        let Ghost(taken) = self.drain_messages(running, &mut actions);
        assert(actions@ == actions_of_messages(taken, running));
        actions
    }

    /// One tick of the supervisor on a sample of the process and its
    /// group: the report if it can be made; else the limits are held
    /// against the sample, the queued messages are taken in, and the
    /// actions that both ask for are returned in that order.
    pub fn tick(&mut self, exit_status: Option<ExitStatus>, counters: &GroupCounters) -> (outcome:
        TickOutcome)
        ensures
            exists|now: Duration, elapsed: Duration, msgs: Seq<TimedMessage>|
                {
                    &&& msgs.len() <= MAX_MESSAGES_PER_TICK
                    &&& final(self)@ == #[trigger] old(self)@.tick(
                        now,
                        exit_status,
                        *counters,
                        msgs,
                    )
                    &&& outcome@ == #[trigger] old(self)@.tick_outcome(
                        now,
                        elapsed,
                        exit_status,
                        *counters,
                        msgs,
                    )
                },
    {
        let now: Duration = self.limit_checker.now();
        let elapsed: Duration = self.elapsed();
        let running: bool = exit_status.is_none();
        match self.get_report_at(now, elapsed, exit_status, counters) {
            Some(report) => {
                proof {
                    let msgs: Seq<TimedMessage> = Seq::empty();
                    assert(self@ == old(self)@.tick(now, exit_status, *counters, msgs));
                    assert(TickOutcome::Report(report)@ == old(self)@.tick_outcome(
                        now,
                        elapsed,
                        exit_status,
                        *counters,
                        msgs,
                    ));
                }
                TickOutcome::Report(report)
            },
            None => {
                let mut actions: Vec<MonitorAction> = Vec::new();
                if let Some(a) = self.enforce_limits_at(now, counters) {
                    actions.push(a);
                }
                let Ghost(taken) = self.drain_messages(running, &mut actions);
                proof {
                    assert(self@ == old(self)@.tick(now, exit_status, *counters, taken));
                    assert(TickOutcome::Continue(actions)@ == old(self)@.tick_outcome(
                        now,
                        elapsed,
                        exit_status,
                        *counters,
                        taken,
                    ));
                }
                TickOutcome::Continue(actions)
            },
        }
    }
}

/// The counters that a report shows.
pub open spec fn report_counters(report: Report) -> GroupCounters {
    GroupCounters {
        memory: report.memory,
        io: report.io,
        timers: report.timers,
        pid_counters: report.pid_counters,
        network: report.network,
    }
}

/// Messages never replace a recorded reason, and never touch the limits.
pub proof fn law_messages_keep_reason(state: MonitorState, msgs: Seq<TimedMessage>)
    ensures
        state.term_reason is Some ==> state.apply_messages(msgs).term_reason == state.term_reason,
        state.apply_messages(msgs).checker.limits == state.checker.limits,
        state.apply_messages(msgs).checker.os_limits == state.checker.os_limits,
        state.apply_messages(msgs).wait_for_children == state.wait_for_children,
        state.apply_messages(msgs).monitor_interval == state.monitor_interval,
    decreases msgs.len(),
{
    if msgs.len() > 0 {
        law_messages_keep_reason(state, msgs.drop_last());
    }
}

/// A supervisor records at most one reason: once one is recorded, no tick
/// replaces it, whatever the sample and the messages.
pub proof fn law_first_reason_stays(
    state: MonitorState,
    now: Duration,
    elapsed: Duration,
    exit_status: Option<ExitStatus>,
    counters: GroupCounters,
    msgs: Seq<TimedMessage>,
)
    requires
        state.term_reason is Some,
    ensures
        state.tick(now, exit_status, counters, msgs).term_reason == state.term_reason,
        state.report_ready(exit_status, counters) ==> state.report(
            now,
            elapsed,
            exit_status->0,
            counters,
        ).termination_reason == state.term_reason,
{
    law_messages_keep_reason(state.enforce(now, counters), msgs);
}

/// A report without a reason, from a supervisor that had recorded none,
/// shows counters within every limit that the checker enforces: the last
/// check held them against the limits and found nothing exceeded.
pub proof fn law_clean_report_within_limits(
    state: MonitorState,
    now: Duration,
    elapsed: Duration,
    exit_status: ExitStatus,
    counters: GroupCounters,
)
    requires
        state.report_ready(Some(exit_status), counters),
    ensures
        ({
            let report = state.report(now, elapsed, exit_status, counters);
            &&& report_counters(report) == counters
            &&& report.wall_clock_time == elapsed
            &&& report.termination_reason is None ==> {
                &&& state.term_reason is None
                &&& state.after_report(now, counters).checker.within_limits(
                    report_counters(report),
                )
            }
        }),
{
    crate::limit_checker::law_silent_check_means_within_limits(state.checker, now, counters);
}

/// A second request to end the group changes nothing that the first has
/// not changed, whenever the two are handled.
pub proof fn law_terminate_twice(state: MonitorState, first: Duration, second: Duration)
    ensures
        state.apply_message(RunnerMessage::Terminate, first).apply_message(
            RunnerMessage::Terminate,
            second,
        ) == state.apply_message(RunnerMessage::Terminate, first),
{
}

/// Whether `msgs` holds a request to end the group.
pub open spec fn asks_to_terminate(msgs: Seq<TimedMessage>) -> bool {
    exists|i: int| 0 <= i < msgs.len() && msgs[i].msg == RunnerMessage::Terminate
}

/// Messages among which none asks to end the group record no reason and
/// ask for no end of the group.
pub proof fn law_harmless_messages(state: MonitorState, msgs: Seq<TimedMessage>, running: bool)
    requires
        !asks_to_terminate(msgs),
    ensures
        state.apply_messages(msgs).term_reason == state.term_reason,
        !actions_of_messages(msgs, running).contains(MonitorAction::TerminateGroup),
    decreases msgs.len(),
{
    if msgs.len() > 0 {
        let front = msgs.drop_last();
        assert(!asks_to_terminate(front)) by {
            if asks_to_terminate(front) {
                let i = choose|i: int|
                    0 <= i < front.len() && front[i].msg == RunnerMessage::Terminate;
                assert(msgs[i].msg == RunnerMessage::Terminate);
            }
        }
        law_harmless_messages(state, front, running);
        assert(msgs[msgs.len() - 1].msg != RunnerMessage::Terminate);
        let head = actions_of_messages(front, running);
        let tail = one_or_none(action_of_message(msgs.last().msg, running));
        assert(!tail.contains(MonitorAction::TerminateGroup)) by {
            if tail.contains(MonitorAction::TerminateGroup) {
                let j = choose|j: int| 0 <= j < tail.len() && tail[j] == MonitorAction::TerminateGroup;
                assert(tail[j] == MonitorAction::TerminateGroup);
            }
        }
        assert(!(head + tail).contains(MonitorAction::TerminateGroup)) by {
            if (head + tail).contains(MonitorAction::TerminateGroup) {
                let j = choose|j: int|
                    0 <= j < (head + tail).len() && (head + tail)[j]
                        == MonitorAction::TerminateGroup;
                if j < head.len() {
                    assert(head[j] == MonitorAction::TerminateGroup);
                    assert(head.contains(MonitorAction::TerminateGroup));
                } else {
                    assert(tail[j - head.len()] == MonitorAction::TerminateGroup);
                    assert(tail.contains(MonitorAction::TerminateGroup));
                }
            }
        }
    } else {
        assert(actions_of_messages(msgs, running) =~= Seq::empty());
    }
}

/// Without any limit the supervisor never ends the group by itself: unless
/// a message asks for it, a tick records no reason and asks for no end of
/// the group, and the report, when it comes, names no reason.
pub proof fn law_no_limits_natural_exit(
    state: MonitorState,
    now: Duration,
    elapsed: Duration,
    exit_status: Option<ExitStatus>,
    counters: GroupCounters,
    msgs: Seq<TimedMessage>,
)
    requires
        state.checker.limits == crate::limits::no_limits(),
        state.term_reason is None,
        !asks_to_terminate(msgs),
    ensures
        state.tick(now, exit_status, counters, msgs).checker.limits == crate::limits::no_limits(),
        state.tick(now, exit_status, counters, msgs).term_reason is None,
        match state.tick_outcome(now, elapsed, exit_status, counters, msgs) {
            Outcome::Report(report) => report.termination_reason is None,
            Outcome::Continue(actions) => !actions.contains(MonitorAction::TerminateGroup),
        },
{
    crate::limit_checker::law_no_limits_no_verdict(state.checker, now, counters);
    law_messages_keep_reason(state.enforce(now, counters), msgs);
    law_harmless_messages(state.enforce(now, counters), msgs, exit_status is None);
    if !state.report_ready(exit_status, counters) {
        let head = one_or_none(state.enforce_action(now, counters));
        let tail = actions_of_messages(msgs, exit_status is None);
        assert(head =~= Seq::empty());
        assert(head + tail =~= tail);
    }
}

/// Waiting for descendants does not suspend the limits: while the sample
/// shows one alive, each tick goes on to hold the limits against it, so
/// once the accounted wall time passes its limit the tick asks first for
/// the end of the group and records that limit, unless a reason was
/// recorded before.
pub proof fn law_waiting_does_not_suspend_limits(
    state: MonitorState,
    now: Duration,
    elapsed: Duration,
    exit_status: Option<ExitStatus>,
    counters: GroupCounters,
    msgs: Seq<TimedMessage>,
)
    requires
        state.awaits_children(counters),
        !state.checker.paused,
        state.checker.limits.wall_clock_time matches Some(l) && state.checker.wall_time.plus(
            state.checker.wall_step(now),
        )@ > l@,
    ensures
        state.tick_outcome(now, elapsed, exit_status, counters, msgs) matches Outcome::Continue(
            actions,
        ) && actions.len() > 0 && actions[0] == MonitorAction::TerminateGroup,
        state.tick(now, exit_status, counters, msgs).term_reason == if state.term_reason is Some {
            state.term_reason
        } else {
            Some(TerminationReason::WallClockTimeLimitExceeded)
        },
{
    crate::limit_checker::law_wall_clock_limit_fires(state.checker, now, counters);
    law_messages_keep_reason(state.enforce(now, counters), msgs);
}

} // verus!
