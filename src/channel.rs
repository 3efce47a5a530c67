//! The bounded frame channel between an acquisition worker and its
//! controller, and the timestamp type that frames carry.

use vstd::prelude::*;

verus! {

/// A capture time, as `std::time::Instant`; carried through, never inspected.
#[verifier::external_type_specification]
#[verifier::external_body]
pub struct ExInstant(std::time::Instant);

/// The sending half of a `crossbeam_channel` channel.
#[verifier::external_type_specification]
#[verifier::external_body]
#[verifier::reject_recursive_types(T)]
pub struct ExSender<T>(crossbeam_channel::Sender<T>);

/// The receiving half of a `crossbeam_channel` channel.
#[verifier::external_type_specification]
#[verifier::external_body]
#[verifier::reject_recursive_types(T)]
pub struct ExReceiver<T>(crossbeam_channel::Receiver<T>);

/// Relies on `crossbeam_channel::bounded`: a fresh channel holding at most
/// `cap` messages. It panics only when `cap` is too large to allocate, so the
/// capacity is kept small.
#[verifier::external_body]
pub(crate) fn bounded_channel<T>(cap: usize) -> (crossbeam_channel::Sender<T>, crossbeam_channel::Receiver<T>)
    requires
        0 < cap <= 4096,
{
    crossbeam_channel::bounded(cap)
}

/// Relies on `crossbeam_channel::Sender::send`: blocks while the channel is
/// full; fails only when every receiver is gone, and then hands the message
/// back inside `SendError`.
#[verifier::external_body]
pub(crate) fn send_message<T>(tx: &crossbeam_channel::Sender<T>, msg: T) -> (r: Result<(), T>)
    ensures
        r matches Err(m) ==> m == msg,
{
    tx.send(msg).map_err(|e| e.0)
}

/// Relies on `crossbeam_channel::Receiver::try_recv`: takes the oldest queued
/// message if there is one, without blocking. Whether one is queued depends
/// on the other thread, so nothing is promised of the outcome.
#[verifier::external_body]
pub(crate) fn try_receive<T>(rx: &crossbeam_channel::Receiver<T>) -> (r: Option<T>)
{
    rx.try_recv().ok()
}

} // verus!
