//! Small helpers: sending through a sender that may be missing, and putting
//! a pair in order.

use futures::channel::mpsc::{Sender, TrySendError};
use std::cmp::Ordering;
use vstd::prelude::*;
use vstd::std_specs::cmp::PartialOrdSpec;

verus! {

/// The sending half of a bounded channel, as `futures` has it. Nothing of
/// what it holds is visible here.
#[verifier::external_type_specification]
#[verifier::external_body]
#[verifier::reject_recursive_types(T)]
pub struct ExSender<T>(Sender<T>);

/// The error with which a sender of `futures` hands a message back.
#[verifier::external_type_specification]
#[verifier::external_body]
#[verifier::reject_recursive_types(T)]
pub struct ExTrySendError<T>(TrySendError<T>);

/// Calls `Sender::try_send` of `futures`, which tries to put a message into
/// the channel without waiting, and hands it back inside the error where
/// the channel is full or its receiver is gone. Which of these happens
/// depends on the channel and on the other end, so nothing is claimed of
/// the result.
#[verifier::external_body]
fn channel_try_send<T>(sender: &mut Sender<T>, message: T) -> (r: Result<(), TrySendError<T>>) {
    sender.try_send(message)
}

/// Why a message could not be sent.
#[derive(Debug)]
#[verifier::reject_recursive_types(T)]
pub enum SendError<T> {
    /// There is no sender yet.
    NoSender,
    /// The channel did not take the message.
    InnerError(TrySendError<T>),
}

/// What a sender's answer is worth to the caller of `try_send`: success
/// stays success, and the channel's error is handed on as `InnerError`.
pub fn send_outcome<T>(answer: Result<(), TrySendError<T>>) -> (r: Result<(), SendError<T>>)
    ensures
        match answer {
            Ok(_) => r is Ok,
            Err(error) => r == Err::<(), SendError<T>>(SendError::InnerError(error)),
        },
{
    match answer {
        Ok(()) => Ok(()),
        Err(error) => Err(SendError::InnerError(error)),
    }
}

/// Sending through a sender that may not be there yet.
pub trait SenderOption<T> {
    /// Whether there is no sender.
    spec fn lacks_sender(&self) -> bool;

    /// Sends `t` without waiting. Without a sender the answer is
    /// `NoSender`; with one it is the channel's: success, or the channel's
    /// error as `InnerError`.
    fn try_send(&mut self, t: T) -> (r: Result<(), SendError<T>>)
        ensures
            final(self).lacks_sender() == old(self).lacks_sender(),
            old(self).lacks_sender() ==> r matches Err(SendError::NoSender),
            !old(self).lacks_sender() ==> r is Ok || r matches Err(SendError::InnerError(_)),
    ;
}

impl<T> SenderOption<T> for Option<Sender<T>> {
    open spec fn lacks_sender(&self) -> bool {
        *self is None
    }

    fn try_send(&mut self, t: T) -> (r: Result<(), SendError<T>>) {
        match self {
            Some(sender) => {
                let answer = channel_try_send(sender, t);
                send_outcome(answer)
            },
            None => Err(SendError::NoSender),
        }
    }
}

/// Whether `a` is strictly below `b` in the partial order of `T`.
pub open spec fn strictly_below<T: PartialOrd>(a: T, b: T) -> bool {
    a.partial_cmp_spec(&b) == Some(Ordering::Less)
}

/// The pair with its smaller component first. A pair whose components are
/// equal or unordered comes back swapped.
pub open spec fn ordered_pair<T: PartialOrd>(pair: (T, T)) -> (T, T) {
    if strictly_below(pair.0, pair.1) {
        pair
    } else {
        (pair.1, pair.0)
    }
}

/// Puts the two components of a pair in ascending order.
pub fn ordered<T: PartialOrd>(pair: (T, T)) -> (r: (T, T))
    ensures
        r == pair || r == (pair.1, pair.0),
        T::obeys_partial_cmp_spec() ==> r == ordered_pair(pair),
{
    let (a, b) = pair;
    if a < b {
        (a, b)
    } else {
        (b, a)
    }
}

} // verus!
