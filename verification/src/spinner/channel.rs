use vstd::prelude::*;

verus! {

// crossbeam's channel endpoints and error types, declared so that they can
// stand in fields and signatures. Their values are opaque to the verifier.
#[verifier::external_type_specification]
#[verifier::external_body]
#[verifier::reject_recursive_types(T)]
pub struct ExSender<T>(crossbeam::channel::Sender<T>);

#[verifier::external_type_specification]
#[verifier::external_body]
#[verifier::reject_recursive_types(T)]
pub struct ExReceiver<T>(crossbeam::channel::Receiver<T>);

#[verifier::external_type_specification]
#[verifier::external_body]
#[verifier::reject_recursive_types(T)]
pub struct ExTrySendError<T>(crossbeam::channel::TrySendError<T>);

#[verifier::external_type_specification]
#[verifier::external_body]
pub struct ExTryRecvError(crossbeam::channel::TryRecvError);

/// Relies on crossbeam::channel::unbounded: a fresh channel of unlimited
/// capacity, handed back as its sender and receiver endpoints.
pub assume_specification<T>[ crossbeam::channel::unbounded::<T> ]() -> (crossbeam::channel::Sender<
    T,
>, crossbeam::channel::Receiver<T>);

/// Relies on crossbeam::channel::Sender::try_send: never blocks; on an
/// unbounded channel it fails only once all receivers are gone.
pub assume_specification<T>[ crossbeam::channel::Sender::<T>::try_send ](
    s: &crossbeam::channel::Sender<T>,
    msg: T,
) -> Result<(), crossbeam::channel::TrySendError<T>>;

/// Relies on crossbeam::channel::Receiver::try_recv: never blocks; returns
/// a pending message or fails when the channel is empty or disconnected.
pub assume_specification<T>[ crossbeam::channel::Receiver::<T>::try_recv ](
    r: &crossbeam::channel::Receiver<T>,
) -> Result<T, crossbeam::channel::TryRecvError>;

/// Relies on crossbeam's Clone for Sender: the clone is an endpoint of the
/// same channel.
pub assume_specification<T>[ <crossbeam::channel::Sender<T> as Clone>::clone ](
    s: &crossbeam::channel::Sender<T>,
) -> (r: crossbeam::channel::Sender<T>)
    ensures
        r == *s,
;

/// Relies on crossbeam's Clone for Receiver: the clone is an endpoint of
/// the same channel.
pub assume_specification<T>[ <crossbeam::channel::Receiver<T> as Clone>::clone ](
    s: &crossbeam::channel::Receiver<T>,
) -> (r: crossbeam::channel::Receiver<T>)
    ensures
        r == *s,
;

/// A multi-producer, non-blocking message queue of unlimited capacity.
/// Messages are delivered in the order they were accepted. A clone shares
/// the same queue.
#[verifier::reject_recursive_types(T)]
pub struct Channel<T> {
    sender: crossbeam::channel::Sender<T>,
    receiver: crossbeam::channel::Receiver<T>,
}

impl<T> Channel<T> where T: Send + 'static + Clone {
    /// A fresh, empty channel.
    pub fn new() -> Self {
        let (tx, rx) = crossbeam::channel::unbounded();
        Channel { sender: tx, receiver: rx }
    }

    /// Enqueues `message` without blocking; fails only once the channel is
    /// closed.
    pub fn try_send(&self, message: T) -> Result<(), crossbeam::channel::TrySendError<T>> {
        self.sender.try_send(message)
    }

    /// Dequeues the oldest pending message without blocking; fails when
    /// none is pending.
    pub fn try_receive(&self) -> Result<T, crossbeam::channel::TryRecvError> {
        self.receiver.try_recv()
    }
}

impl<T> Clone for Channel<T> {
    /// The clone holds endpoints of the same channel.
    fn clone(&self) -> (r: Self)
        ensures
            r == *self,
    {
        Channel { sender: self.sender.clone(), receiver: self.receiver.clone() }
    }
}

} // verus!
