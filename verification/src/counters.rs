//! What a process group reports of itself at one sample.

use vstd::prelude::*;
use crate::time::Duration;

verus! {

/// Memory use of a group.
#[derive(Copy, Clone, Debug, PartialEq, Eq, Structural)]
pub struct GroupMemory {
    /// The high-water mark, in bytes.
    pub peak: u64,
}

/// I/O volume of a group.
#[derive(Copy, Clone, Debug, PartialEq, Eq, Structural)]
pub struct GroupIo {
    pub total_bytes_written: u64,
}

/// CPU time consumed by a group.
#[derive(Copy, Clone, Debug, PartialEq, Eq, Structural)]
pub struct GroupTimers {
    pub total_user_time: Duration,
    pub total_kernel_time: Duration,
}

/// Process counts of a group.
#[derive(Copy, Clone, Debug, PartialEq, Eq, Structural)]
pub struct GroupPidCounters {
    /// Processes created over the group's lifetime.
    pub total_processes: usize,
    /// Processes alive at the sample.
    pub active_processes: usize,
}

/// Network use of a group.
#[derive(Copy, Clone, Debug, PartialEq, Eq, Structural)]
pub struct GroupNetwork {
    pub active_connections: usize,
}

/// One sample of a group. A counter that the platform cannot provide is
/// `None`.
#[derive(Copy, Clone, Debug, PartialEq, Eq, Structural)]
pub struct GroupCounters {
    pub memory: Option<GroupMemory>,
    pub io: Option<GroupIo>,
    pub timers: Option<GroupTimers>,
    pub pid_counters: Option<GroupPidCounters>,
    pub network: Option<GroupNetwork>,
}

/// How a process ended.
#[derive(Clone, Debug, PartialEq, Eq)]
pub enum ExitStatus {
    /// It returned with this exit code.
    Finished(i32),
    /// It was ended abnormally; the text names the signal or the fault.
    Crashed(String),
}

} // verus!
