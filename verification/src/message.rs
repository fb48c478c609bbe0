//! Control messages, and the channel on which a supervisor takes them.

use vstd::prelude::*;
use std::sync::mpsc::{Receiver, Sender};
use crate::time::Duration;

verus! {

/// What a caller can ask of a running supervisor.
#[derive(Copy, Clone, Debug, PartialEq, Eq, Structural)]
pub enum RunnerMessage {
    Terminate,
    Suspend,
    Resume,
    StopTimeAccounting,
    ResumeTimeAccounting,
    ResetTime,
}

/// A message together with the reading of the checker's clock at which it
/// was handled.
#[derive(Copy, Clone, Debug, PartialEq, Eq, Structural)]
pub struct TimedMessage {
    pub msg: RunnerMessage,
    pub at: Duration,
}

/// `std::sync::mpsc::Sender`, the sending half of a channel. Nothing is
/// known of what a value holds.
#[verifier::external_type_specification]
#[verifier::external_body]
#[verifier::reject_recursive_types(T)]
pub struct ExSender<T>(Sender<T>);

/// `std::sync::mpsc::Receiver`, the receiving half of a channel. Nothing is
/// known of what a value holds.
#[verifier::external_type_specification]
#[verifier::external_body]
#[verifier::reject_recursive_types(T)]
pub struct ExReceiver<T>(Receiver<T>);

/// Both halves of the channel on which one supervisor takes its messages.
pub type MessageChannel = (Sender<RunnerMessage>, Receiver<RunnerMessage>);

/// The most messages that a supervisor takes from its channel in one tick.
pub const MAX_MESSAGES_PER_TICK: usize = 10;

/// Takes the next message off the channel without waiting, with
/// `std::sync::mpsc::Receiver::try_recv`: `None` where none is queued or
/// every sender is gone. What is queued depends on the senders, so nothing
/// is claimed of the result.
#[verifier::external_body]
pub(crate) fn try_receive(receiver: &Receiver<RunnerMessage>) -> (msg: Option<RunnerMessage>) {
    receiver.try_recv().ok()
}

/// Makes a channel with `std::sync::mpsc::channel`.
#[verifier::external_body]
pub(crate) fn new_channel() -> (channel: MessageChannel) {
    std::sync::mpsc::channel()
}

} // verus!
