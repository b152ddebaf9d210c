//! Sender handles into a worker's inbound conduit.
//!
//! The conduits themselves are the asynchronous channels of
//! `std::sync::mpsc`. What happens inside one of them is not modelled: a
//! handle only records, as ghost state, what was handed to the conduit
//! through it.

use std::sync::mpsc::{Receiver, RecvError, SendError, Sender};
use vstd::prelude::*;

verus! {

/// `std::sync::mpsc::Sender`, the producing end of a conduit. Opaque.
#[verifier::external_type_specification]
#[verifier::external_body]
#[verifier::reject_recursive_types(T)]
pub struct ExSender<T>(Sender<T>);

/// `std::sync::mpsc::Receiver`, the consuming end of a conduit. Opaque.
#[verifier::external_type_specification]
#[verifier::external_body]
#[verifier::reject_recursive_types(T)]
pub struct ExReceiver<T>(Receiver<T>);

/// `std::sync::mpsc::SendError`, which hands back a message that found no
/// receiver. Opaque.
#[verifier::external_type_specification]
#[verifier::external_body]
#[verifier::reject_recursive_types(T)]
pub struct ExSendError<T>(SendError<T>);

/// `std::sync::mpsc::RecvError`: every sender is gone and nothing is left to
/// read. Opaque.
#[verifier::external_type_specification]
#[verifier::external_body]
pub struct ExRecvError(RecvError);

/// `std::sync::mpsc::channel` allocates a fresh asynchronous conduit and
/// returns its two ends. Nothing is claimed of them.
pub assume_specification<T>[ std::sync::mpsc::channel::<T> ]() -> (ends: (Sender<T>, Receiver<T>))
;

/// `Sender::send` never blocks. It fails, handing the message back, when the
/// receiver is gone. Which of the two happens depends on the other end, so
/// nothing is claimed of the result.
pub assume_specification<T>[ Sender::<T>::send ](tx: &Sender<T>, t: T) -> (r: Result<
    (),
    SendError<T>,
>)
;

/// `Receiver::recv` blocks until a message arrives, or fails once every
/// sender is gone. Whether and when it returns depends on the other end, so
/// nothing is claimed of the result.
pub assume_specification<T>[ Receiver::<T>::recv ](rx: &Receiver<T>) -> (r: Result<T, RecvError>)
;

/// `Sender::clone` makes one more producing end of the same conduit.
pub assume_specification<T>[ <Sender<T> as Clone>::clone ](tx: &Sender<T>) -> (dup: Sender<T>)
;

/// A sender handle into one worker's inbound conduit, carrying messages of
/// type `M`.
#[verifier::reject_recursive_types(M)]
pub struct Chan<M> {
    tx: Sender<M>,
    log: Ghost<Seq<M>>,
}

impl<M> Chan<M> {
    /// Everything that was handed to the conduit through this handle, oldest
    /// first, whether or not a receiver was still listening.
    pub closed spec fn sent(&self) -> Seq<M> {
        self.log@
    }

    /// Wraps the producing end of a conduit. Nothing has been sent through
    /// the new handle yet.
    pub fn new(tx: Sender<M>) -> (chan: Self)
        ensures
            chan.sent() == Seq::<M>::empty(),
    {
        Chan { tx, log: Ghost(Seq::empty()) }
    }

    /// Hands `msg` to the conduit without blocking. The result says whether
    /// the conduit took it: `false` means that the receiver is gone and the
    /// message was dropped.
    pub fn send(&mut self, msg: M) -> (accepted: bool)
        ensures
            final(self).sent() == old(self).sent().push(msg),
    {
        proof {
            self.log@ = self.log@.push(msg);
        }
        match self.tx.send(msg) {
            Ok(_) => true,
            Err(_) => false,
        }
    }
}

impl<M> Clone for Chan<M> {
    /// One more handle into the same conduit, for another producer. The new
    /// handle keeps its own record, which starts empty.
    fn clone(&self) -> (dup: Self)
        ensures
            dup.sent() == Seq::<M>::empty(),
    {
        Chan { tx: self.tx.clone(), log: Ghost(Seq::empty()) }
    }
}

} // verus!
