//! The limits that a supervised process group runs under, and the reasons
//! for which the supervisor ends it.

use vstd::prelude::*;
use crate::time::Duration;

verus! {

/// Why a process group was ended by the supervisor.
#[derive(Copy, Clone, Debug, PartialEq, Eq, Structural)]
pub enum TerminationReason {
    WallClockTimeLimitExceeded,
    IdleTimeLimitExceeded,
    UserTimeLimitExceeded,
    WriteLimitExceeded,
    MemoryLimitExceeded,
    ProcessLimitExceeded,
    ActiveProcessLimitExceeded,
    ActiveNetworkConnectionLimitExceeded,
    TerminatedByRunner,
}

/// Millionths in a CPU load of one.
pub const LOAD_SCALE: u64 = 1_000_000;

/// The idle-time cap: how long a group may spend below a CPU load.
///
/// The load threshold is a fraction in millionths: 50_000 stands for a load
/// of 0.05.
#[derive(Copy, Clone, Debug, PartialEq, Eq, Structural)]
pub struct IdleTimeLimit {
    pub total_idle_time: Duration,
    pub cpu_load_threshold: u32,
}

/// The limits that are imposed on a process group. A limit that is `None`
/// is never enforced.
#[derive(Copy, Clone, Debug, PartialEq, Eq, Structural)]
pub struct ResourceLimits {
    pub idle_time: Option<IdleTimeLimit>,
    /// The maximum allowed amount of time for a process group.
    pub wall_clock_time: Option<Duration>,
    /// The maximum allowed amount of user-mode execution time for a process group.
    pub total_user_time: Option<Duration>,
    /// The maximum allowed memory usage, in bytes.
    pub max_memory_usage: Option<u64>,
    /// The maximum allowed amount of bytes written by a process group.
    pub total_bytes_written: Option<u64>,
    /// The maximum allowed number of processes created.
    pub total_processes_created: Option<usize>,
    /// The maximum allowed number of active processes.
    pub active_processes: Option<usize>,
    /// The maximum allowed number of active network connections.
    pub active_network_connections: Option<usize>,
}

/// A cap that the operating system may be asked to enforce by itself.
#[derive(Copy, Clone, Debug, PartialEq, Eq, Structural)]
pub enum OsLimit {
    Memory,
    ActiveProcess,
}

/// Which caps the operating system has accepted and enforces by itself.
#[derive(Copy, Clone, Debug, PartialEq, Eq, Structural)]
pub struct EnabledOsLimits {
    pub memory: bool,
    pub active_process: bool,
}

/// The limits of which none is set.
pub open spec fn no_limits() -> ResourceLimits {
    ResourceLimits {
        idle_time: None,
        wall_clock_time: None,
        total_user_time: None,
        max_memory_usage: None,
        total_bytes_written: None,
        total_processes_created: None,
        active_processes: None,
        active_network_connections: None,
    }
}

impl Default for ResourceLimits {
    fn default() -> (limits: ResourceLimits)
        ensures
            limits == no_limits(),
    {
        ResourceLimits {
            idle_time: None,
            wall_clock_time: None,
            total_user_time: None,
            max_memory_usage: None,
            total_bytes_written: None,
            total_processes_created: None,
            active_processes: None,
            active_network_connections: None,
        }
    }
}

impl ResourceLimits {
    /// The value to hand to the operating system for `which`: the cap that
    /// is set for it, if any.
    pub open spec fn spec_os_limit(self, which: OsLimit) -> Option<u64> {
        match which {
            OsLimit::Memory => self.max_memory_usage,
            OsLimit::ActiveProcess => match self.active_processes {
                Some(n) => Some(n as u64),
                None => None,
            },
        }
    }

    /// The value with which the operating system is asked to enforce
    /// `which`, or `None` where the cap is not set and nothing is asked.
    pub fn os_limit(&self, which: OsLimit) -> (value: Option<u64>)
        ensures
            value == self.spec_os_limit(which),
    {
        match which {
            OsLimit::Memory => self.max_memory_usage,
            OsLimit::ActiveProcess => match self.active_processes {
                Some(n) => Some(n as u64),
                None => None,
            },
        }
    }
}

impl EnabledOsLimits {
    /// The caps in force after the operating system has answered: a cap is
    /// enforced by it only where it was asked and said yes.
    pub fn from_answers(memory: Option<bool>, active_process: Option<bool>) -> (enabled:
        EnabledOsLimits)
        ensures
            enabled.memory == (memory == Some(true)),
            enabled.active_process == (active_process == Some(true)),
    {
        EnabledOsLimits {
            memory: match memory {
                Some(b) => b,
                None => false,
            },
            active_process: match active_process {
                Some(b) => b,
                None => false,
            },
        }
    }
}

} // verus!
