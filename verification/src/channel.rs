//! Trusted declarations for the standard in-process channels the task
//! protocol and the event buffer are built on.
//!
//! A channel's content depends on what other threads have done, so nothing
//! is assumed about the values moving through it: every contract in this
//! crate that involves a channel states what holds whatever arrives.

use vstd::prelude::*;

verus! {

#[verifier::external_type_specification]
#[verifier::external_body]
#[verifier::reject_recursive_types(T)]
pub struct ExSender<T>(std::sync::mpsc::Sender<T>);

#[verifier::external_type_specification]
#[verifier::external_body]
#[verifier::reject_recursive_types(T)]
pub struct ExReceiver<T>(std::sync::mpsc::Receiver<T>);

/// Relies on std::sync::mpsc::Sender::clone: another sending end of the
/// same channel. Which channel a sender belongs to is not modelled, so
/// nothing is assumed of the result.
pub assume_specification<T>[ <std::sync::mpsc::Sender<T> as std::clone::Clone>::clone ](
    s: &std::sync::mpsc::Sender<T>,
) -> std::sync::mpsc::Sender<T>;

/// Relies on std::sync::mpsc::channel: returns the sending and receiving
/// end of one fresh channel.
#[verifier::external_body]
pub(crate) fn new_channel<T>() -> (std::sync::mpsc::Sender<T>, std::sync::mpsc::Receiver<T>) {
    std::sync::mpsc::channel()
}

/// Relies on std::sync::mpsc::Sender::send: true when the value was
/// accepted, false when the receiving end is gone (the value is then
/// dropped). Whether it succeeds depends on the other end, so nothing more
/// is assumed.
#[verifier::external_body]
pub(crate) fn channel_send<T>(s: &std::sync::mpsc::Sender<T>, t: T) -> bool {
    s.send(t).is_ok()
}

/// Relies on std::sync::mpsc::Receiver::try_recv: a pending value, or
/// nothing when the channel is empty or disconnected. Which value arrives
/// depends on the senders, so nothing is assumed about it.
#[verifier::external_body]
pub(crate) fn channel_try_recv<T>(r: &std::sync::mpsc::Receiver<T>) -> Option<T> {
    r.try_recv().ok()
}

} // verus!
