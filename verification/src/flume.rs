//! Adapter implementing the capability contract over the channels of the
//! flume crate. Each handle of the third-party library is held in an
//! opaque newtype; every operation forwards to the library's non-blocking
//! call and classifies its outcome in the contract's error taxonomy.

use vstd::prelude::*;
use core::marker::PhantomData;
use crate::common::Bounded;
use crate::common::Capacity;
use crate::common::Channel;
use crate::common::Connectivity;
use crate::common::Pair;
use crate::common::Receiver;
use crate::common::RecvError;
use crate::common::RecvErrorKind;
use crate::common::SendError;
use crate::common::SendErrorKind;
use crate::common::Sender;
use crate::common::Unbounded;

verus! {

/// A sending handle over a flume channel.
#[verifier::external_body]
#[verifier::reject_recursive_types(T)]
pub struct FlumeSender<T>(::flume::Sender<T>);

/// A receiving handle over a flume channel.
#[verifier::external_body]
#[verifier::reject_recursive_types(T)]
pub struct FlumeReceiver<T>(::flume::Receiver<T>);

/// Relies on flume::unbounded: a fresh channel of unlimited capacity,
/// returned as one connected sender/receiver pair.
#[verifier::external_body]
fn channel_unbounded<T>() -> (FlumeSender<T>, FlumeReceiver<T>) {
    let (s, r) = ::flume::unbounded();
    (FlumeSender(s), FlumeReceiver(r))
}

/// Relies on flume::bounded: a fresh channel of the given capacity,
/// returned as one connected sender/receiver pair.
#[verifier::external_body]
fn channel_bounded<T>(cap: usize) -> (FlumeSender<T>, FlumeReceiver<T>) {
    let (s, r) = ::flume::bounded(cap);
    (FlumeSender(s), FlumeReceiver(r))
}

/// Relies on flume::Sender::try_send: it never blocks; the message comes
/// back unchanged inside `Full` when a bounded channel is at capacity and
/// inside `Disconnected` when no receiver is live.
#[verifier::external_body]
fn forward_try_send<T>(s: &FlumeSender<T>, item: T) -> (r: Result<(), SendError<T>>)
    ensures
        r matches Err(e) ==> e.item == item && (e.kind == SendErrorKind::Full || e.kind
            == SendErrorKind::Disconnected),
{
    s.0.try_send(item).map_err(|err| match err {
        ::flume::TrySendError::Full(item) => SendError { kind: SendErrorKind::Full, item },
        ::flume::TrySendError::Disconnected(item) => SendError {
            kind: SendErrorKind::Disconnected,
            item,
        },
    })
}

/// Relies on flume::Receiver::try_recv: it never blocks; an empty channel
/// reports `Empty` while a sender is live and `Disconnected` once none is.
#[verifier::external_body]
fn forward_try_recv<T>(rx: &FlumeReceiver<T>) -> (r: Result<T, RecvError>)
    ensures
        r matches Err(e) ==> e.kind == RecvErrorKind::Empty || e.kind
            == RecvErrorKind::Disconnected,
{
    rx.0.try_recv().map_err(|err| match err {
        ::flume::TryRecvError::Empty => RecvError { kind: RecvErrorKind::Empty },
        ::flume::TryRecvError::Disconnected => RecvError { kind: RecvErrorKind::Disconnected },
    })
}

/// Relies on flume::Sender::is_disconnected: a point-in-time snapshot of
/// whether every receiver is gone.
#[verifier::external_body]
fn sender_is_disconnected<T>(s: &FlumeSender<T>) -> bool {
    s.0.is_disconnected()
}

/// Relies on flume::Receiver::is_disconnected: a point-in-time snapshot of
/// whether every sender is gone.
#[verifier::external_body]
fn receiver_is_disconnected<T>(rx: &FlumeReceiver<T>) -> bool {
    rx.0.is_disconnected()
}

/// Relies on flume::Sender::capacity: the bound the channel was created
/// with, or `None` if unbounded.
#[verifier::external_body]
fn sender_capacity<T>(s: &FlumeSender<T>) -> Option<usize> {
    s.0.capacity()
}

/// Relies on flume::Receiver::capacity: the bound the channel was created
/// with, or `None` if unbounded.
#[verifier::external_body]
fn receiver_capacity<T>(rx: &FlumeReceiver<T>) -> Option<usize> {
    rx.0.capacity()
}

/// Relies on flume::Sender::is_full: a point-in-time snapshot.
#[verifier::external_body]
fn sender_is_full<T>(s: &FlumeSender<T>) -> bool {
    s.0.is_full()
}

/// Relies on flume::Receiver::is_empty: a point-in-time snapshot.
#[verifier::external_body]
fn receiver_is_empty<T>(rx: &FlumeReceiver<T>) -> bool {
    rx.0.is_empty()
}

/// Relies on flume::Sender::clone: the clone sends into the same channel
/// and adds one live sender.
#[verifier::external_body]
fn sender_clone<T>(s: &FlumeSender<T>) -> FlumeSender<T> {
    FlumeSender(s.0.clone())
}

/// Relies on flume::Receiver::clone: the clone receives from the same
/// channel and adds one live receiver.
#[verifier::external_body]
fn receiver_clone<T>(rx: &FlumeReceiver<T>) -> FlumeReceiver<T> {
    FlumeReceiver(rx.0.clone())
}

impl<T> Clone for FlumeSender<T> {
    fn clone(&self) -> Self {
        sender_clone(self)
    }
}

impl<T> Clone for FlumeReceiver<T> {
    fn clone(&self) -> Self {
        receiver_clone(self)
    }
}

impl<T> Connectivity for FlumeSender<T> {
    fn is_connected(&self) -> bool {
        !sender_is_disconnected(self)
    }
}

impl<T> Capacity for FlumeSender<T> {
    fn capacity(&self) -> Option<usize> {
        sender_capacity(self)
    }
}

impl<T> Sender for FlumeSender<T> {
    type Item = T;

    fn is_full(&self) -> bool {
        sender_is_full(self)
    }

    fn send(&mut self, item: T) -> (r: Result<(), SendError<T>>)
        ensures
            r matches Err(e) ==> e.kind == SendErrorKind::Full || e.kind
                == SendErrorKind::Disconnected,
    {
        forward_try_send(self, item)
    }
}

impl<T> Connectivity for FlumeReceiver<T> {
    fn is_connected(&self) -> bool {
        !receiver_is_disconnected(self)
    }
}

impl<T> Capacity for FlumeReceiver<T> {
    fn capacity(&self) -> Option<usize> {
        receiver_capacity(self)
    }
}

impl<T> Receiver for FlumeReceiver<T> {
    type Item = T;

    fn is_empty(&self) -> bool {
        receiver_is_empty(self)
    }

    fn recv(&mut self) -> (r: Result<T, RecvError>)
        ensures
            r matches Err(e) ==> e.kind == RecvErrorKind::Empty || e.kind
                == RecvErrorKind::Disconnected,
    {
        forward_try_recv(self)
    }
}

/// The flume backend of the capability contract.
pub struct Flume<T>(PhantomData<T>);

impl<T> Channel for Flume<T> {
    type Item = T;

    type Sender = FlumeSender<T>;

    type Receiver = FlumeReceiver<T>;
}

impl<T> Bounded for Flume<T> {
    fn bounded(capacity: usize) -> Pair<Self> {
        channel_bounded(capacity)
    }
}

impl<T> Unbounded for Flume<T> {
    fn unbounded() -> Pair<Self> {
        channel_unbounded()
    }
}

} // verus!
