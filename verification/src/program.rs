//! The description of a program to supervise.

use vstd::prelude::*;
use crate::limits::{no_limits, ResourceLimits};
use crate::message::{new_channel, MessageChannel};
use crate::time::Duration;

verus! {

/// An action that is performed when the process terminates.
pub trait OnTerminate {
    fn on_terminate(&mut self);
}

/// A program to supervise and how to supervise it. `I` describes the
/// process to start, `G` is the group to start it in, `S` the three
/// standard streams it gets, and `H` the hook to run when it is over.
pub struct SpawnedProgram<I, G, S, H> {
    pub info: I,
    pub group: Option<G>,
    pub stdio: Option<S>,
    pub resource_limits: Option<ResourceLimits>,
    pub monitor_interval: Duration,
    pub on_terminate: Option<H>,
    pub wait_for_children: bool,
    pub msg_channel: MessageChannel,
}

impl<I, G, S, H: OnTerminate> SpawnedProgram<I, G, S, H> {
    /// A description with the defaults: a new group, null streams, no
    /// limits, a monitor interval of one millisecond, no hook, no waiting
    /// for descendants, and a channel of its own.
    pub fn new(info: I) -> (program: Self)
        ensures
            program.info == info,
            program.group is None,
            program.stdio is None,
            program.resource_limits is None,
            program.monitor_interval@ == 1_000_000,
            program.on_terminate is None,
            !program.wait_for_children,
    {
        SpawnedProgram {
            info,
            group: None,
            stdio: None,
            resource_limits: None,
            monitor_interval: Duration::from_millis(1),
            on_terminate: None,
            wait_for_children: false,
            msg_channel: new_channel(),
        }
    }

    /// Starts the process in `group`.
    pub fn group(&mut self, group: G) -> (program: &mut Self)
        ensures
            *final(self) == *final(program),
            *program == (SpawnedProgram { group: Some(group), ..*old(self) }),
    {
        self.group = Some(group);
        self
    }

    /// Supervises under `resource_limits`.
    pub fn resource_limits(&mut self, resource_limits: ResourceLimits) -> (program: &mut Self)
        ensures
            *final(self) == *final(program),
            *program == (SpawnedProgram {
                resource_limits: Some(resource_limits),
                ..*old(self)
            }),
    {
        self.resource_limits = Some(resource_limits);
        self
    }

    /// Pauses for `monitor_interval` between two ticks.
    pub fn monitor_interval(&mut self, monitor_interval: Duration) -> (program: &mut Self)
        ensures
            *final(self) == *final(program),
            *program == (SpawnedProgram { monitor_interval, ..*old(self) }),
    {
        self.monitor_interval = monitor_interval;
        self
    }

    /// Runs `on_terminate` when the supervisor is done.
    pub fn on_terminate(&mut self, on_terminate: H) -> (program: &mut Self)
        ensures
            *final(self) == *final(program),
            *program == (SpawnedProgram { on_terminate: Some(on_terminate), ..*old(self) }),
    {
        self.on_terminate = Some(on_terminate);
        self
    }

    /// Gives the process `stdio` as its standard streams.
    pub fn stdio(&mut self, stdio: S) -> (program: &mut Self)
        ensures
            *final(self) == *final(program),
            *program == (SpawnedProgram { stdio: Some(stdio), ..*old(self) }),
    {
        self.stdio = Some(stdio);
        self
    }

    /// Says whether the report waits for the descendants of the process.
    pub fn wait_for_children(&mut self, wait: bool) -> (program: &mut Self)
        ensures
            *final(self) == *final(program),
            *program == (SpawnedProgram { wait_for_children: wait, ..*old(self) }),
    {
        self.wait_for_children = wait;
        self
    }

    /// Takes control messages from `channel`.
    pub fn msg_channel(&mut self, channel: MessageChannel) -> (program: &mut Self)
        ensures
            *final(self) == *final(program),
            *program == (SpawnedProgram { msg_channel: channel, ..*old(self) }),
    {
        self.msg_channel = channel;
        self
    }

    /// The limits to supervise under: those that were set, else none.
    pub fn effective_limits(&self) -> (limits: ResourceLimits)
        ensures
            limits == match self.resource_limits {
                Some(l) => l,
                None => no_limits(),
            },
    {
        match self.resource_limits {
            Some(l) => l,
            None => ResourceLimits::default(),
        }
    }
}

/// Runs the hook, if one is installed, and removes it: a second call finds
/// none, so a hook runs at most once.
pub fn run_on_terminate<H: OnTerminate>(hook: &mut Option<H>)
    ensures
        *final(hook) is None,
{
    if let Some(mut handler) = hook.take() {
        handler.on_terminate();
    }
}

} // verus!
