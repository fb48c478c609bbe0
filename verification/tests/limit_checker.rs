use spawner::counters::{
    GroupCounters, GroupIo, GroupMemory, GroupNetwork, GroupPidCounters, GroupTimers,
};
use spawner::limit_checker::LimitChecker;
use spawner::limits::{
    EnabledOsLimits, IdleTimeLimit, OsLimit, ResourceLimits, TerminationReason,
};
use spawner::time::Duration;

fn ms(n: u64) -> Duration {
    Duration::from_millis(n)
}

fn user_space() -> EnabledOsLimits {
    EnabledOsLimits { memory: false, active_process: false }
}

fn nothing() -> GroupCounters {
    GroupCounters { memory: None, io: None, timers: None, pid_counters: None, network: None }
}

fn user_time(n: u64) -> GroupCounters {
    GroupCounters {
        timers: Some(GroupTimers { total_user_time: ms(n), total_kernel_time: ms(0) }),
        ..nothing()
    }
}

fn pids(total: usize, active: usize) -> GroupCounters {
    GroupCounters {
        pid_counters: Some(GroupPidCounters { total_processes: total, active_processes: active }),
        ..nothing()
    }
}

#[test]
fn default_limits_are_all_unset() {
    let limits = ResourceLimits::default();
    assert_eq!(limits.idle_time, None);
    assert_eq!(limits.wall_clock_time, None);
    assert_eq!(limits.total_user_time, None);
    assert_eq!(limits.max_memory_usage, None);
    assert_eq!(limits.total_bytes_written, None);
    assert_eq!(limits.total_processes_created, None);
    assert_eq!(limits.active_processes, None);
    assert_eq!(limits.active_network_connections, None);
}

#[test]
fn default_limits_never_fire() {
    let mut checker = LimitChecker::new(ResourceLimits::default(), user_space());
    let heavy = GroupCounters {
        memory: Some(GroupMemory { peak: u64::MAX }),
        io: Some(GroupIo { total_bytes_written: u64::MAX }),
        timers: Some(GroupTimers { total_user_time: ms(1_000_000), total_kernel_time: ms(5) }),
        pid_counters: Some(GroupPidCounters {
            total_processes: usize::MAX,
            active_processes: usize::MAX,
        }),
        network: Some(GroupNetwork { active_connections: usize::MAX }),
    };
    for step in 1..50u64 {
        assert_eq!(checker.check_at(ms(step * 1000), &heavy), None);
    }
    assert_eq!(checker.check(&heavy), None);
}

#[test]
fn wall_clock_limit_is_strict() {
    let limits = ResourceLimits { wall_clock_time: Some(ms(100)), ..ResourceLimits::default() };
    let mut checker = LimitChecker::new(limits, user_space());
    assert_eq!(checker.check_at(ms(99), &nothing()), None);
    assert_eq!(checker.check_at(ms(100), &nothing()), None);
    assert_eq!(checker.wall_time(), ms(100));
    assert_eq!(
        checker.check_at(Duration::from_nanos(100_000_001), &nothing()),
        Some(TerminationReason::WallClockTimeLimitExceeded)
    );
}

#[test]
fn user_time_limit_is_strict() {
    let limits = ResourceLimits { total_user_time: Some(ms(50)), ..ResourceLimits::default() };
    let mut checker = LimitChecker::new(limits, user_space());
    assert_eq!(checker.check_at(ms(10), &user_time(50)), None);
    assert_eq!(checker.user_time(), ms(50));
    assert_eq!(
        checker.check_at(ms(20), &user_time(51)),
        Some(TerminationReason::UserTimeLimitExceeded)
    );
    assert_eq!(checker.user_time(), ms(51));
}

#[test]
fn write_limit() {
    let limits = ResourceLimits { total_bytes_written: Some(1024), ..ResourceLimits::default() };
    let mut checker = LimitChecker::new(limits, user_space());
    let at = |n: u64| GroupCounters { io: Some(GroupIo { total_bytes_written: n }), ..nothing() };
    assert_eq!(checker.check_at(ms(1), &at(1024)), None);
    assert_eq!(checker.check_at(ms(2), &at(1025)), Some(TerminationReason::WriteLimitExceeded));
}

#[test]
fn memory_limit_in_user_space() {
    let limits = ResourceLimits { max_memory_usage: Some(64 << 20), ..ResourceLimits::default() };
    let mut checker = LimitChecker::new(limits, user_space());
    let at = |n: u64| GroupCounters { memory: Some(GroupMemory { peak: n }), ..nothing() };
    assert_eq!(checker.check_at(ms(1), &at(64 << 20)), None);
    assert_eq!(
        checker.check_at(ms(2), &at((64 << 20) + 1)),
        Some(TerminationReason::MemoryLimitExceeded)
    );
}

#[test]
fn memory_limit_left_to_the_operating_system() {
    let limits = ResourceLimits { max_memory_usage: Some(64 << 20), ..ResourceLimits::default() };
    let os = EnabledOsLimits { memory: true, active_process: false };
    let mut checker = LimitChecker::new(limits, os);
    let over = GroupCounters { memory: Some(GroupMemory { peak: 256 << 20 }), ..nothing() };
    assert_eq!(checker.check_at(ms(1), &over), None);
}

#[test]
fn active_process_limit_left_to_the_operating_system() {
    let limits = ResourceLimits { active_processes: Some(1), ..ResourceLimits::default() };
    let mut mine = LimitChecker::new(limits, user_space());
    assert_eq!(mine.check_at(ms(1), &pids(5, 1)), None);
    assert_eq!(
        mine.check_at(ms(2), &pids(5, 2)),
        Some(TerminationReason::ActiveProcessLimitExceeded)
    );
    let os = EnabledOsLimits { memory: false, active_process: true };
    let mut theirs = LimitChecker::new(limits, os);
    assert_eq!(theirs.check_at(ms(1), &pids(5, 2)), None);
}

#[test]
fn zero_process_limit_fires_on_the_first_process() {
    let limits = ResourceLimits { total_processes_created: Some(0), ..ResourceLimits::default() };
    let mut checker = LimitChecker::new(limits, user_space());
    assert_eq!(checker.check_at(ms(1), &pids(0, 0)), None);
    assert_eq!(
        checker.check_at(ms(2), &pids(1, 1)),
        Some(TerminationReason::ProcessLimitExceeded)
    );
}

#[test]
fn network_limit() {
    let limits =
        ResourceLimits { active_network_connections: Some(2), ..ResourceLimits::default() };
    let mut checker = LimitChecker::new(limits, user_space());
    let at =
        |n: usize| GroupCounters { network: Some(GroupNetwork { active_connections: n }), ..nothing() };
    assert_eq!(checker.check_at(ms(1), &at(2)), None);
    assert_eq!(
        checker.check_at(ms(2), &at(3)),
        Some(TerminationReason::ActiveNetworkConnectionLimitExceeded)
    );
    assert_eq!(checker.check_at(ms(3), &nothing()), None);
}

#[test]
fn a_counter_that_the_platform_lacks_exceeds_nothing() {
    let limits = ResourceLimits {
        total_user_time: Some(ms(0)),
        max_memory_usage: Some(0),
        total_bytes_written: Some(0),
        total_processes_created: Some(0),
        active_processes: Some(0),
        active_network_connections: Some(0),
        ..ResourceLimits::default()
    };
    let mut checker = LimitChecker::new(limits, user_space());
    assert_eq!(checker.check_at(ms(5), &nothing()), None);
}

#[test]
fn the_order_of_the_rules_breaks_ties() {
    let limits = ResourceLimits {
        idle_time: Some(IdleTimeLimit { total_idle_time: ms(0), cpu_load_threshold: 1_000_000 }),
        wall_clock_time: Some(ms(0)),
        total_user_time: Some(ms(0)),
        max_memory_usage: Some(0),
        total_bytes_written: Some(0),
        total_processes_created: Some(0),
        active_processes: Some(0),
        active_network_connections: Some(0),
    };
    let all = GroupCounters {
        memory: Some(GroupMemory { peak: 1 }),
        io: Some(GroupIo { total_bytes_written: 1 }),
        timers: Some(GroupTimers { total_user_time: ms(1), total_kernel_time: ms(0) }),
        pid_counters: Some(GroupPidCounters { total_processes: 1, active_processes: 1 }),
        network: Some(GroupNetwork { active_connections: 1 }),
    };
    let verdict = |limits: ResourceLimits| {
        let mut checker = LimitChecker::new(limits, user_space());
        checker.check_at(ms(10), &all)
    };
    assert_eq!(verdict(limits), Some(TerminationReason::WallClockTimeLimitExceeded));
    let limits = ResourceLimits { wall_clock_time: None, ..limits };
    assert_eq!(verdict(limits), Some(TerminationReason::IdleTimeLimitExceeded));
    let limits = ResourceLimits { idle_time: None, ..limits };
    assert_eq!(verdict(limits), Some(TerminationReason::UserTimeLimitExceeded));
    let limits = ResourceLimits { total_user_time: None, ..limits };
    assert_eq!(verdict(limits), Some(TerminationReason::WriteLimitExceeded));
    let limits = ResourceLimits { total_bytes_written: None, ..limits };
    assert_eq!(verdict(limits), Some(TerminationReason::MemoryLimitExceeded));
    let limits = ResourceLimits { max_memory_usage: None, ..limits };
    assert_eq!(verdict(limits), Some(TerminationReason::ProcessLimitExceeded));
    let limits = ResourceLimits { total_processes_created: None, ..limits };
    assert_eq!(verdict(limits), Some(TerminationReason::ActiveProcessLimitExceeded));
    let limits = ResourceLimits { active_processes: None, ..limits };
    assert_eq!(verdict(limits), Some(TerminationReason::ActiveNetworkConnectionLimitExceeded));
    let limits = ResourceLimits { active_network_connections: None, ..limits };
    assert_eq!(verdict(limits), None);
}

#[test]
fn idle_time_adds_up_over_quiet_intervals_and_is_not_reset_by_busy_ones() {
    let idle = IdleTimeLimit { total_idle_time: ms(200), cpu_load_threshold: 50_000 };
    let limits = ResourceLimits { idle_time: Some(idle), ..ResourceLimits::default() };
    let mut checker = LimitChecker::new(limits, user_space());
    // 100 ms with no CPU use at all.
    assert_eq!(checker.check_at(ms(100), &user_time(0)), None);
    assert_eq!(checker.idle_time(), ms(100));
    // 100 ms fully busy: the load is 1.0, nothing is added, nothing is lost.
    assert_eq!(checker.check_at(ms(200), &user_time(100)), None);
    assert_eq!(checker.idle_time(), ms(100));
    // 100 ms at a load of exactly 0.05: not below the threshold.
    assert_eq!(checker.check_at(ms(300), &user_time(105)), None);
    assert_eq!(checker.idle_time(), ms(100));
    // 100 ms at a load of 0.04: idle. The total is now the limit, not over it.
    assert_eq!(checker.check_at(ms(400), &user_time(109)), None);
    assert_eq!(checker.idle_time(), ms(200));
    // One more quiet millisecond takes it over.
    assert_eq!(
        checker.check_at(ms(401), &user_time(109)),
        Some(TerminationReason::IdleTimeLimitExceeded)
    );
    assert_eq!(checker.idle_time(), ms(201));
}

#[test]
fn idle_time_needs_timers() {
    let idle = IdleTimeLimit { total_idle_time: ms(10), cpu_load_threshold: 50_000 };
    let limits = ResourceLimits { idle_time: Some(idle), ..ResourceLimits::default() };
    let mut checker = LimitChecker::new(limits, user_space());
    assert_eq!(checker.check_at(ms(1000), &nothing()), None);
    assert_eq!(checker.idle_time(), ms(0));
    assert_eq!(checker.wall_time(), ms(1000));
}

#[test]
fn a_clock_or_a_counter_that_goes_back_adds_nothing() {
    let mut checker = LimitChecker::new(ResourceLimits::default(), user_space());
    assert_eq!(checker.check_at(ms(100), &user_time(40)), None);
    assert_eq!(checker.check_at(ms(60), &user_time(30)), None);
    assert_eq!(checker.wall_time(), ms(100));
    assert_eq!(checker.user_time(), ms(40));
    assert_eq!(checker.check_at(ms(70), &user_time(35)), None);
    assert_eq!(checker.wall_time(), ms(110));
    assert_eq!(checker.user_time(), ms(45));
}

#[test]
fn reset_then_immediate_check_names_no_time_limit() {
    let limits = ResourceLimits {
        wall_clock_time: Some(ms(0)),
        total_user_time: Some(ms(0)),
        idle_time: Some(IdleTimeLimit { total_idle_time: ms(0), cpu_load_threshold: 1_000_000 }),
        total_bytes_written: Some(10),
        ..ResourceLimits::default()
    };
    let mut checker = LimitChecker::new(limits, user_space());
    assert_eq!(
        checker.check_at(ms(500), &user_time(100)),
        Some(TerminationReason::WallClockTimeLimitExceeded)
    );
    checker.reset_time_at(ms(500));
    assert_eq!(checker.wall_time(), ms(0));
    assert_eq!(checker.user_time(), ms(0));
    assert_eq!(checker.idle_time(), ms(0));
    assert_eq!(checker.check_at(ms(500), &user_time(100)), None);
    checker.reset_time_at(ms(900));
    let wrote = GroupCounters { io: Some(GroupIo { total_bytes_written: 11 }), ..user_time(100) };
    assert_eq!(checker.check_at(ms(900), &wrote), Some(TerminationReason::WriteLimitExceeded));
}

#[test]
fn after_a_reset_time_is_counted_from_the_reset() {
    let limits = ResourceLimits { wall_clock_time: Some(ms(100)), ..ResourceLimits::default() };
    let mut checker = LimitChecker::new(limits, user_space());
    checker.reset_time_at(ms(0));
    assert_eq!(
        checker.check_at(ms(150), &nothing()),
        Some(TerminationReason::WallClockTimeLimitExceeded)
    );
    assert_eq!(checker.wall_time(), ms(150));
    checker.reset_time_at(ms(1_000));
    assert_eq!(checker.check_at(ms(1_050), &nothing()), None);
    assert_eq!(checker.wall_time(), ms(50));
    assert_eq!(checker.check_at(ms(1_100), &nothing()), None);
    assert_eq!(
        checker.check_at(ms(1_101), &nothing()),
        Some(TerminationReason::WallClockTimeLimitExceeded)
    );
}

#[test]
fn a_reset_keeps_the_user_time_of_the_last_sample_as_its_baseline() {
    let limits = ResourceLimits { total_user_time: Some(ms(10)), ..ResourceLimits::default() };
    let mut checker = LimitChecker::new(limits, user_space());
    assert_eq!(checker.check_at(ms(100), &user_time(8)), None);
    checker.reset_time_at(ms(120));
    assert_eq!(checker.user_time(), ms(0));
    // What the group used between the last sample and the reset is counted.
    assert_eq!(checker.check_at(ms(130), &user_time(15)), None);
    assert_eq!(checker.user_time(), ms(7));
    assert_eq!(
        checker.check_at(ms(140), &user_time(19)),
        Some(TerminationReason::UserTimeLimitExceeded)
    );
    assert_eq!(checker.user_time(), ms(11));
}

#[test]
fn a_pause_is_left_out_and_nothing_else() {
    let limits = ResourceLimits {
        wall_clock_time: Some(ms(100)),
        total_user_time: Some(ms(100)),
        ..ResourceLimits::default()
    };
    let mut checker = LimitChecker::new(limits, user_space());
    assert_eq!(checker.check_at(ms(40), &user_time(30)), None);
    checker.stop_time_accounting_at(ms(50));
    assert_eq!(checker.wall_time(), ms(50));
    assert_eq!(checker.user_time(), ms(30));
    assert_eq!(checker.check_at(ms(10_000), &user_time(5_000)), None);
    assert_eq!(checker.check_at(ms(20_000), &user_time(9_000)), None);
    assert_eq!(checker.wall_time(), ms(50));
    assert_eq!(checker.user_time(), ms(30));
    checker.resume_time_accounting_at(ms(20_003));
    assert_eq!(checker.wall_time(), ms(50));
    assert_eq!(checker.user_time(), ms(30));
    assert_eq!(checker.check_at(ms(20_005), &user_time(9_001)), None);
    assert_eq!(checker.wall_time(), ms(52));
    assert_eq!(checker.user_time(), ms(31));
    assert_eq!(checker.check_at(ms(20_025), &user_time(9_011)), None);
    assert_eq!(checker.wall_time(), ms(72));
    assert_eq!(checker.user_time(), ms(41));
    assert_eq!(checker.check_at(ms(20_053), &user_time(9_011)), None);
    assert_eq!(checker.wall_time(), ms(100));
    assert_eq!(
        checker.check_at(ms(20_054), &user_time(9_011)),
        Some(TerminationReason::WallClockTimeLimitExceeded)
    );
}

#[test]
fn the_first_check_after_a_resume_counts_the_time_since_the_resume() {
    let limits = ResourceLimits { wall_clock_time: Some(ms(100)), ..ResourceLimits::default() };
    let mut checker = LimitChecker::new(limits, user_space());
    checker.stop_time_accounting_at(ms(0));
    checker.resume_time_accounting_at(ms(0));
    assert_eq!(
        checker.check_at(ms(150), &nothing()),
        Some(TerminationReason::WallClockTimeLimitExceeded)
    );
    assert_eq!(checker.wall_time(), ms(150));

    let mut checker = LimitChecker::new(ResourceLimits::default(), user_space());
    assert_eq!(checker.check_at(ms(10), &nothing()), None);
    checker.stop_time_accounting_at(ms(25));
    let at_the_stop = checker.wall_time();
    assert_eq!(at_the_stop, ms(25));
    checker.resume_time_accounting_at(ms(7_000));
    assert_eq!(checker.wall_time(), at_the_stop);
    assert_eq!(checker.check_at(ms(9_500), &nothing()), None);
    assert_eq!(checker.wall_time(), ms(25 + 2_500));
}

#[test]
fn stopping_what_is_stopped_changes_nothing() {
    let mut checker = LimitChecker::new(ResourceLimits::default(), user_space());
    checker.stop_time_accounting_at(ms(10));
    checker.stop_time_accounting_at(ms(500));
    assert_eq!(checker.wall_time(), ms(10));
    checker.resume_time_accounting_at(ms(600));
    assert_eq!(checker.check_at(ms(601), &nothing()), None);
    assert_eq!(checker.wall_time(), ms(11));
}

#[test]
fn a_paused_checker_names_no_time_limit_but_still_holds_the_counters() {
    let limits = ResourceLimits {
        wall_clock_time: Some(ms(10)),
        total_processes_created: Some(1),
        ..ResourceLimits::default()
    };
    let mut checker = LimitChecker::new(limits, user_space());
    assert_eq!(
        checker.check_at(ms(11), &nothing()),
        Some(TerminationReason::WallClockTimeLimitExceeded)
    );
    checker.stop_time_accounting_at(ms(11));
    assert_eq!(checker.check_at(ms(12), &nothing()), None);
    assert_eq!(checker.check_at(ms(13), &pids(2, 1)), Some(TerminationReason::ProcessLimitExceeded));
}

#[test]
fn resuming_what_was_not_stopped_changes_nothing() {
    let mut checker = LimitChecker::new(ResourceLimits::default(), user_space());
    assert_eq!(checker.check_at(ms(10), &nothing()), None);
    checker.resume_time_accounting_at(ms(20));
    assert_eq!(checker.check_at(ms(25), &nothing()), None);
    assert_eq!(checker.wall_time(), ms(25));
}

#[test]
fn the_steps_on_the_clock_of_the_checker() {
    let limits = ResourceLimits { wall_clock_time: Some(ms(0)), ..ResourceLimits::default() };
    let mut checker = LimitChecker::new(limits, user_space());
    checker.stop_time_accounting();
    let at_the_stop = checker.wall_time();
    assert_eq!(checker.check(&nothing()), None);
    assert_eq!(checker.wall_time(), at_the_stop);
    checker.resume_time_accounting();
    assert_eq!(checker.wall_time(), at_the_stop);
    checker.reset_time();
    assert_eq!(checker.wall_time(), ms(0));
    assert_eq!(checker.user_time(), ms(0));
    assert_eq!(checker.idle_time(), ms(0));
}

#[test]
fn accumulators_stop_at_the_largest_span() {
    let mut checker = LimitChecker::new(ResourceLimits::default(), user_space());
    let end = Duration::from_nanos(u64::MAX);
    assert_eq!(checker.check_at(end, &nothing()), None);
    assert_eq!(checker.check_at(ms(0), &nothing()), None);
    assert_eq!(checker.check_at(end, &nothing()), None);
    assert_eq!(checker.wall_time(), end);
}

#[test]
fn a_checker_keeps_its_limits() {
    let limits = ResourceLimits { total_bytes_written: Some(7), ..ResourceLimits::default() };
    let checker = LimitChecker::new(limits, user_space());
    assert_eq!(checker.limits(), limits);
}

#[test]
fn os_limit_values() {
    let limits = ResourceLimits {
        max_memory_usage: Some(4096),
        active_processes: Some(3),
        ..ResourceLimits::default()
    };
    assert_eq!(limits.os_limit(OsLimit::Memory), Some(4096));
    assert_eq!(limits.os_limit(OsLimit::ActiveProcess), Some(3));
    assert_eq!(ResourceLimits::default().os_limit(OsLimit::Memory), None);
    assert_eq!(ResourceLimits::default().os_limit(OsLimit::ActiveProcess), None);
}

#[test]
fn enabled_os_limits_from_answers() {
    let none = EnabledOsLimits::from_answers(None, None);
    assert_eq!(none, EnabledOsLimits { memory: false, active_process: false });
    let refused = EnabledOsLimits::from_answers(Some(false), Some(false));
    assert_eq!(refused, EnabledOsLimits { memory: false, active_process: false });
    let mixed = EnabledOsLimits::from_answers(Some(true), None);
    assert_eq!(mixed, EnabledOsLimits { memory: true, active_process: false });
    let both = EnabledOsLimits::from_answers(Some(true), Some(true));
    assert_eq!(both, EnabledOsLimits { memory: true, active_process: true });
}

#[test]
fn the_accounted_wall_time_never_goes_down() {
    let mut checker = LimitChecker::new(ResourceLimits::default(), user_space());
    let mut last = checker.wall_time();
    for now in [5, 3, 3, 40, 39, 41, 0, 100] {
        assert_eq!(checker.check_at(ms(now), &nothing()), None);
        assert!(checker.wall_time().as_nanos() >= last.as_nanos());
        last = checker.wall_time();
    }
    assert_eq!(last, ms(5 + 37 + 2 + 100));
}
