//! The command bridge: a bounded lock-free channel carrying commands from
//! the IPC threads into the audio callback.
//!
//! The channel itself is `crossbeam_channel`; it is shared across threads,
//! so nothing useful can be promised about what a particular call observes,
//! and the engine is verified to cope with every possible answer: any
//! command value, or none.

use vstd::prelude::*;
use crate::protocol::EngineCommand;

verus! {

/// Capacity of the command bridge, and the per-callback drain bound.
pub const BRIDGE_CAPACITY: usize = 256;

#[verifier::external_type_specification]
#[verifier::external_body]
#[verifier::reject_recursive_types(T)]
pub struct ExSender<T>(crossbeam_channel::Sender<T>);

#[verifier::external_type_specification]
#[verifier::external_body]
#[verifier::reject_recursive_types(T)]
pub struct ExReceiver<T>(crossbeam_channel::Receiver<T>);

/// Relies on crossbeam_channel::bounded: a fixed-capacity channel whose two
/// endpoints share one queue.  It panics only for capacities near `usize`
/// overflow, far above `BRIDGE_CAPACITY`.
#[verifier::external_body]
pub(crate) fn bridge_channel() -> (r: (
    crossbeam_channel::Sender<EngineCommand>,
    crossbeam_channel::Receiver<EngineCommand>,
)) {
    crossbeam_channel::bounded(BRIDGE_CAPACITY)
}

/// Relies on crossbeam_channel::Sender::try_send: non-blocking; the command
/// is enqueued exactly when the call returns `Ok`, and is dropped when the
/// channel is full or disconnected.
#[verifier::external_body]
pub fn bridge_try_send(
    sender: &crossbeam_channel::Sender<EngineCommand>,
    cmd: EngineCommand,
) -> (accepted: bool) {
    sender.try_send(cmd).is_ok()
}

/// Relies on crossbeam_channel::Receiver::try_recv: non-blocking; yields one
/// queued command or nothing.  Which command arrives depends on the other
/// threads, so the caller must handle every value.
#[verifier::external_body]
pub(crate) fn bridge_try_recv(
    receiver: &crossbeam_channel::Receiver<EngineCommand>,
) -> (cmd: Option<EngineCommand>) {
    match receiver.try_recv() {
        Ok(c) => Some(c),
        Err(_) => None,
    }
}

/// Relies on crossbeam_channel::Sender::clone: another handle feeding the
/// same queue.
#[verifier::external_body]
pub(crate) fn clone_sender(
    sender: &crossbeam_channel::Sender<EngineCommand>,
) -> (r: crossbeam_channel::Sender<EngineCommand>) {
    sender.clone()
}

} // verus!
