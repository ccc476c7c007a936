//! Trusted boundary around the `futures` channel primitives.
//!
//! All cross-task communication of the core goes through the bounded
//! multi-producer/single-consumer channels and the single-use reply slots of
//! the `futures` crate. The declarations below make those types known to the
//! verifier, and the small wrappers make the calls whose outcome depends on
//! the concurrently running background tasks. Nothing is promised of those
//! outcomes: the verified callers state what holds whatever came back.

use vstd::prelude::*;

use crate::service::Event;
use crate::service::ToDatabase;

verus! {

#[verifier::external_type_specification]
#[verifier::external_body]
#[verifier::reject_recursive_types(T)]
pub struct ExMpscReceiver<T>(futures::channel::mpsc::Receiver<T>);

#[verifier::external_type_specification]
#[verifier::external_body]
#[verifier::reject_recursive_types(T)]
pub struct ExMpscSender<T>(futures::channel::mpsc::Sender<T>);

#[verifier::external_type_specification]
#[verifier::external_body]
pub struct ExMpscSendError(futures::channel::mpsc::SendError);

#[verifier::external_type_specification]
#[verifier::external_body]
#[verifier::reject_recursive_types(T)]
pub struct ExOneshotSender<T>(futures::channel::oneshot::Sender<T>);

#[verifier::external_type_specification]
#[verifier::external_body]
#[verifier::reject_recursive_types(T)]
pub struct ExOneshotReceiver<T>(futures::channel::oneshot::Receiver<T>);

#[verifier::external_type_specification]
#[verifier::external_body]
pub struct ExCanceled(futures::channel::oneshot::Canceled);

#[verifier::external_type_specification]
#[verifier::external_body]
pub struct ExThreadPool(futures::executor::ThreadPool);

/// Relies on `futures::stream::StreamExt::next` run under
/// `futures::executor::block_on`: waits until the channel delivers the oldest
/// queued event, and returns `None` exactly when every sender has been
/// dropped and the queue is drained. Which event arrives, if any, depends on
/// the concurrently running producer tasks, so nothing is promised of the
/// result.
#[verifier::external_body]
pub(crate) fn recv_event(events_in: &mut futures::channel::mpsc::Receiver<Event>) -> Option<Event> {
    futures::executor::block_on(futures::stream::StreamExt::next(events_in))
}

/// Relies on `futures::channel::mpsc::Sender::clone` and
/// `futures::sink::SinkExt::send` run under `futures::executor::block_on`:
/// delivers the request into the database request channel, waiting while the
/// channel is full, and returns an error exactly when the receiving half has
/// been dropped. Whether that has happened depends on the concurrently
/// running database task, so nothing is promised of the result.
#[verifier::external_body]
pub(crate) fn send_to_database(
    to_database: &futures::channel::mpsc::Sender<ToDatabase>,
    request: ToDatabase,
) -> Result<(), futures::channel::mpsc::SendError> {
    let mut sender = to_database.clone();
    futures::executor::block_on(futures::sink::SinkExt::send(&mut sender, request))
}

/// Relies on `futures::channel::oneshot::channel`: creates a fresh single-use
/// reply slot; the sender half can answer at most once, and the receiver half
/// resolves either to that answer or to `Canceled`.
#[verifier::external_body]
pub(crate) fn new_reply_slot() -> (
    futures::channel::oneshot::Sender<Option<[u8; 32]>>,
    futures::channel::oneshot::Receiver<Option<[u8; 32]>>,
) {
    futures::channel::oneshot::channel()
}

/// Relies on the `Future` impl of `futures::channel::oneshot::Receiver` run
/// under `futures::executor::block_on`: waits until the sender half answers
/// (then `Ok` with that answer) or is dropped without answering (then
/// `Err(Canceled)`). Which of the two happens depends on the concurrently
/// running database task, so nothing is promised of the result.
#[verifier::external_body]
pub(crate) fn await_reply(
    reply: futures::channel::oneshot::Receiver<Option<[u8; 32]>>,
) -> Result<Option<[u8; 32]>, futures::channel::oneshot::Canceled> {
    futures::executor::block_on(reply)
}

} // verus!
