//! Adapter implementing the capability contract over the channels of the
//! crossbeam_channel crate. Each handle of the third-party library is held
//! in an opaque newtype; every operation forwards to the library's
//! non-blocking call and classifies its outcome in the contract's error
//! taxonomy.

use vstd::prelude::*;
use core::marker::PhantomData;
use crate::common::Bounded;
use crate::common::Capacity;
use crate::common::Channel;
use crate::common::Pair;
use crate::common::Receiver;
use crate::common::RecvError;
use crate::common::RecvErrorKind;
use crate::common::SendError;
use crate::common::SendErrorKind;
use crate::common::Sender;
use crate::common::Unbounded;

verus! {

/// A sending handle over a crossbeam_channel channel.
#[verifier::external_body]
#[verifier::reject_recursive_types(T)]
pub struct CrossbeamSender<T>(crossbeam_channel::Sender<T>);

/// A receiving handle over a crossbeam_channel channel.
#[verifier::external_body]
#[verifier::reject_recursive_types(T)]
pub struct CrossbeamReceiver<T>(crossbeam_channel::Receiver<T>);

/// Relies on crossbeam_channel::unbounded: a fresh channel of unlimited
/// capacity, returned as one connected sender/receiver pair.
#[verifier::external_body]
fn channel_unbounded<T>() -> (CrossbeamSender<T>, CrossbeamReceiver<T>) {
    let (s, r) = crossbeam_channel::unbounded();
    (CrossbeamSender(s), CrossbeamReceiver(r))
}

/// Relies on crossbeam_channel::bounded: a fresh channel of the given
/// capacity, returned as one connected sender/receiver pair.
#[verifier::external_body]
fn channel_bounded<T>(cap: usize) -> (CrossbeamSender<T>, CrossbeamReceiver<T>) {
    let (s, r) = crossbeam_channel::bounded(cap);
    (CrossbeamSender(s), CrossbeamReceiver(r))
}

/// Relies on crossbeam_channel::Sender::try_send: it never blocks; the
/// message comes back unchanged inside `Full` when a bounded channel is at
/// capacity and inside `Disconnected` when no receiver is live.
#[verifier::external_body]
fn forward_try_send<T>(s: &CrossbeamSender<T>, item: T) -> (r: Result<(), SendError<T>>)
    ensures
        r matches Err(e) ==> e.item == item && (e.kind == SendErrorKind::Full || e.kind
            == SendErrorKind::Disconnected),
{
    s.0.try_send(item).map_err(|err| match err {
        crossbeam_channel::TrySendError::Full(item) => SendError { kind: SendErrorKind::Full, item },
        crossbeam_channel::TrySendError::Disconnected(item) => SendError {
            kind: SendErrorKind::Disconnected,
            item,
        },
    })
}

/// Relies on crossbeam_channel::Receiver::try_recv: it never blocks; an
/// empty channel reports `Empty` while a sender is live and `Disconnected`
/// once none is.
#[verifier::external_body]
fn forward_try_recv<T>(rx: &CrossbeamReceiver<T>) -> (r: Result<T, RecvError>)
    ensures
        r matches Err(e) ==> e.kind == RecvErrorKind::Empty || e.kind
            == RecvErrorKind::Disconnected,
{
    rx.0.try_recv().map_err(|err| match err {
        crossbeam_channel::TryRecvError::Empty => RecvError { kind: RecvErrorKind::Empty },
        crossbeam_channel::TryRecvError::Disconnected => RecvError {
            kind: RecvErrorKind::Disconnected,
        },
    })
}

/// Relies on crossbeam_channel::Sender::capacity: the bound the channel
/// was created with, or `None` if unbounded.
#[verifier::external_body]
fn sender_capacity<T>(s: &CrossbeamSender<T>) -> Option<usize> {
    s.0.capacity()
}

/// Relies on crossbeam_channel::Receiver::capacity: the bound the channel
/// was created with, or `None` if unbounded.
#[verifier::external_body]
fn receiver_capacity<T>(rx: &CrossbeamReceiver<T>) -> Option<usize> {
    rx.0.capacity()
}

/// Relies on crossbeam_channel::Sender::is_full: a point-in-time snapshot.
#[verifier::external_body]
fn sender_is_full<T>(s: &CrossbeamSender<T>) -> bool {
    s.0.is_full()
}

/// Relies on crossbeam_channel::Receiver::is_empty: a point-in-time
/// snapshot.
#[verifier::external_body]
fn receiver_is_empty<T>(rx: &CrossbeamReceiver<T>) -> bool {
    rx.0.is_empty()
}

/// Relies on crossbeam_channel::Sender::clone: the clone sends into the
/// same channel and adds one live sender.
#[verifier::external_body]
fn sender_clone<T>(s: &CrossbeamSender<T>) -> CrossbeamSender<T> {
    CrossbeamSender(s.0.clone())
}

/// Relies on crossbeam_channel::Receiver::clone: the clone receives from
/// the same channel and adds one live receiver.
#[verifier::external_body]
fn receiver_clone<T>(rx: &CrossbeamReceiver<T>) -> CrossbeamReceiver<T> {
    CrossbeamReceiver(rx.0.clone())
}

impl<T> Clone for CrossbeamSender<T> {
    fn clone(&self) -> Self {
        sender_clone(self)
    }
}

impl<T> Clone for CrossbeamReceiver<T> {
    fn clone(&self) -> Self {
        receiver_clone(self)
    }
}

impl<T> Capacity for CrossbeamSender<T> {
    fn capacity(&self) -> Option<usize> {
        sender_capacity(self)
    }
}

impl<T> Sender for CrossbeamSender<T> {
    type Item = T;

    fn is_full(&self) -> bool {
        sender_is_full(self)
    }

    fn send(&mut self, item: T) -> (r: Result<(), SendError<T>>)
        ensures
            r matches Err(e) ==> e.kind == SendErrorKind::Full || e.kind
                == SendErrorKind::Disconnected,
    {
        forward_try_send(self, item)
    }
}

impl<T> Capacity for CrossbeamReceiver<T> {
    fn capacity(&self) -> Option<usize> {
        receiver_capacity(self)
    }
}

impl<T> Receiver for CrossbeamReceiver<T> {
    type Item = T;

    fn is_empty(&self) -> bool {
        receiver_is_empty(self)
    }

    fn recv(&mut self) -> (r: Result<T, RecvError>)
        ensures
            r matches Err(e) ==> e.kind == RecvErrorKind::Empty || e.kind
                == RecvErrorKind::Disconnected,
    {
        forward_try_recv(self)
    }
}

/// The crossbeam_channel backend of the capability contract.
pub struct Crossbeam<T>(PhantomData<T>);

impl<T> Channel for Crossbeam<T> {
    type Item = T;

    type Sender = CrossbeamSender<T>;

    type Receiver = CrossbeamReceiver<T>;
}

impl<T> Unbounded for Crossbeam<T> {
    fn unbounded() -> Pair<Self> {
        channel_unbounded()
    }
}

impl<T> Bounded for Crossbeam<T> {
    fn bounded(capacity: usize) -> Pair<Self> {
        channel_bounded(capacity)
    }
}

} // verus!
