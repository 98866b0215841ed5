//! The shared concurrent channel backend.
//!
//! Handles may be cloned, dropped and used from arbitrary threads. The
//! shared state is one reference-counted allocation holding a lock-free
//! FIFO queue (a fixed-capacity ring buffer when bounded, a segment queue
//! when unbounded) and the two atomic live-handle counts, adjusted with
//! sequentially-consistent ordering on every clone and drop.
//!
//! Connectivity, fullness and emptiness are point-in-time snapshots of
//! concurrent state, so no contract pins them; what is verified is the
//! shape of every outcome: a refused send always returns the rejected
//! item with its classification, an unbounded send is never refused as
//! `Full`, and the capacity bound reported is exactly the one the channel
//! was constructed with.

use vstd::prelude::*;
use std::sync::Arc;
use std::sync::atomic::AtomicUsize;
use std::sync::atomic::Ordering;
use crossbeam_queue::ArrayQueue;
use crossbeam_queue::SegQueue;
use crate::common::Bounded;
use crate::common::Capacity;
use crate::common::Channel;
use crate::common::Connectivity;
use crate::common::Pair;
use crate::common::Receiver;
use crate::common::RecvError;
use crate::common::RecvErrorKind;
use crate::common::SendError;
use crate::common::SendErrorKind;
use crate::common::Sender;
use crate::common::Unbounded;

verus! {

#[verifier::external_type_specification]
#[verifier::external_body]
#[verifier::reject_recursive_types(T)]
pub struct ExArrayQueue<T>(ArrayQueue<T>);

#[verifier::external_type_specification]
#[verifier::external_body]
#[verifier::reject_recursive_types(T)]
pub struct ExSegQueue<T>(SegQueue<T>);

/// Relies on crossbeam_queue::ArrayQueue::new: allocates a bounded
/// lock-free queue. It panics when the capacity is zero or when the next
/// power of two above it overflows the index type; a capacity in
/// `1..=usize::MAX / 2` avoids both.
pub assume_specification<T>[ ArrayQueue::<T>::new ](cap: usize) -> ArrayQueue<T>
    requires
        0 < cap <= usize::MAX / 2,
;

/// Relies on crossbeam_queue::ArrayQueue::push: it never blocks, and on a
/// full queue the value comes back unchanged in `Err`.
pub assume_specification<T>[ ArrayQueue::<T>::push ](q: &ArrayQueue<T>, value: T) -> (r: Result<
    (),
    T,
>)
    ensures
        r matches Err(v) ==> v == value,
;

/// Relies on crossbeam_queue::ArrayQueue::pop: it never blocks; the result
/// depends on concurrent activity, so nothing is pinned.
pub assume_specification<T>[ ArrayQueue::<T>::pop ](q: &ArrayQueue<T>) -> Option<T>;

/// Relies on crossbeam_queue::ArrayQueue::is_full: a point-in-time snapshot.
#[verifier::external_body]
fn array_queue_is_full<T>(q: &ArrayQueue<T>) -> bool {
    q.is_full()
}

/// Relies on crossbeam_queue::ArrayQueue::is_empty: a point-in-time snapshot.
#[verifier::external_body]
fn array_queue_is_empty<T>(q: &ArrayQueue<T>) -> bool {
    q.is_empty()
}

/// Relies on crossbeam_queue::SegQueue::new: allocates an empty unbounded
/// lock-free queue.
pub assume_specification<T>[ SegQueue::<T>::new ]() -> SegQueue<T>;

/// Relies on crossbeam_queue::SegQueue::push: it never blocks and always
/// accepts the value.
pub assume_specification<T>[ SegQueue::<T>::push ](q: &SegQueue<T>, value: T);

/// Relies on crossbeam_queue::SegQueue::pop: it never blocks; the result
/// depends on concurrent activity, so nothing is pinned.
pub assume_specification<T>[ SegQueue::<T>::pop ](q: &SegQueue<T>) -> Option<T>;

/// Relies on crossbeam_queue::SegQueue::is_empty: a point-in-time snapshot.
#[verifier::external_body]
fn seg_queue_is_empty<T>(q: &SegQueue<T>) -> bool {
    q.is_empty()
}

/// Relies on Arc::clone: the clone references the same allocation, so it
/// dereferences to the same value.
#[verifier::external_body]
fn arc_clone<T>(a: &Arc<T>) -> (r: Arc<T>)
    ensures
        r == *a,
{
    Arc::clone(a)
}

/// Relies on AtomicUsize::fetch_add with sequentially-consistent ordering:
/// wrapping increment, visible to every subsequent load; it never panics.
#[verifier::external_body]
fn counter_inc(c: &AtomicUsize)
    no_unwind
{
    c.fetch_add(1, Ordering::SeqCst);
}

/// Relies on AtomicUsize::fetch_sub with sequentially-consistent ordering:
/// wrapping decrement, visible to every subsequent load; it never panics.
#[verifier::external_body]
fn counter_dec(c: &AtomicUsize)
    opens_invariants none
    no_unwind
{
    c.fetch_sub(1, Ordering::SeqCst);
}

/// Relies on AtomicUsize::new.
#[verifier::external_body]
fn counter_new(v: usize) -> AtomicUsize {
    AtomicUsize::new(v)
}

/// Relies on AtomicUsize::load with sequentially-consistent ordering: a
/// point-in-time snapshot of concurrently mutated state.
#[verifier::external_body]
fn counter_get(c: &AtomicUsize) -> usize {
    c.load(Ordering::SeqCst)
}

#[verifier::reject_recursive_types(T)]
enum SharedQueue<T> {
    Bounded(ArrayQueue<T>),
    Unbounded(SegQueue<T>),
}

/// The state shared by every handle of one channel: the lock-free queue,
/// the bound it was constructed with, and the atomic live-handle counts.
#[verifier::reject_recursive_types(T)]
pub struct Mpmc<T> {
    queue: SharedQueue<T>,
    bound: Option<usize>,
    recv_count: AtomicUsize,
    send_count: AtomicUsize,
}

impl<T> Mpmc<T> {
    #[verifier::type_invariant]
    spec fn wf(self) -> bool {
        self.bound is Some <==> self.queue is Bounded
    }
}

/// A sending handle of the shared concurrent channel.
#[verifier::reject_recursive_types(T)]
pub struct MpmcSender<T>(Arc<Mpmc<T>>);

/// A receiving handle of the shared concurrent channel.
#[verifier::reject_recursive_types(T)]
pub struct MpmcReceiver<T>(Arc<Mpmc<T>>);

impl<T> MpmcSender<T> {
    /// The bound the channel was constructed with, or `None` if unbounded.
    pub closed spec fn spec_capacity(&self) -> Option<usize> {
        self.0.bound
    }
}

impl<T> MpmcReceiver<T> {
    /// The bound the channel was constructed with, or `None` if unbounded.
    pub closed spec fn spec_capacity(&self) -> Option<usize> {
        self.0.bound
    }
}

impl<T> Clone for MpmcSender<T> {
    /// The clone references the same channel and adds one live sender.
    fn clone(&self) -> (r: Self)
        ensures
            r.spec_capacity() == self.spec_capacity(),
    {
        let arc = arc_clone(&self.0);
        counter_inc(&arc.send_count);
        MpmcSender(arc)
    }
}

impl<T> Drop for MpmcSender<T> {
    /// Destroying a sender removes one live sender.
    fn drop(&mut self)
        opens_invariants none
        no_unwind
    {
        counter_dec(&self.0.send_count);
    }
}

impl<T> Connectivity for MpmcSender<T> {
    /// Snapshot: whether any receiver handle was live at the instant of
    /// the internal load.
    fn is_connected(&self) -> bool {
        counter_get(&self.0.recv_count) > 0
    }
}

impl<T> Capacity for MpmcSender<T> {
    fn capacity(&self) -> (r: Option<usize>)
        ensures
            r == self.spec_capacity(),
    {
        self.0.bound
    }
}

impl<T> Sender for MpmcSender<T> {
    type Item = T;

    /// Snapshot: an unbounded channel is never full; a bounded one is
    /// full iff the ring buffer was at capacity at the instant of the
    /// internal check.
    fn is_full(&self) -> (r: bool)
        ensures
            self.spec_capacity() is None ==> r == false,
    {
        proof {
            use_type_invariant(&*self.0);
        }
        match &self.0.queue {
            SharedQueue::Bounded(q) => array_queue_is_full(q),
            SharedQueue::Unbounded(_) => false,
        }
    }

    /// Checks connectivity first, then attempts the non-blocking push:
    /// a refusal is classified `Disconnected` before `Full`, the rejected
    /// item always comes back unchanged, and an unbounded send is never
    /// refused as `Full`.
    fn send(&mut self, item: T) -> (r: Result<(), SendError<T>>)
        ensures
            *final(self) == *old(self),
            r matches Err(e) ==> e.kind == SendErrorKind::Disconnected || e.kind
                == SendErrorKind::Full,
            old(self).spec_capacity() is None ==> (r matches Err(e) ==> e.kind
                == SendErrorKind::Disconnected),
    {
        proof {
            use_type_invariant(&*self.0);
        }
        if counter_get(&self.0.recv_count) == 0 {
            return Err(SendError { kind: SendErrorKind::Disconnected, item });
        }
        match &self.0.queue {
            SharedQueue::Bounded(q) => match q.push(item) {
                Ok(u) => Ok(u),
                Err(v) => Err(SendError { kind: SendErrorKind::Full, item: v }),
            },
            SharedQueue::Unbounded(q) => {
                q.push(item);
                Ok(())
            },
        }
    }
}

impl<T> Clone for MpmcReceiver<T> {
    /// The clone references the same channel and adds one live receiver.
    fn clone(&self) -> (r: Self)
        ensures
            r.spec_capacity() == self.spec_capacity(),
    {
        let arc = arc_clone(&self.0);
        counter_inc(&arc.recv_count);
        MpmcReceiver(arc)
    }
}

impl<T> Drop for MpmcReceiver<T> {
    /// Destroying a receiver removes one live receiver.
    fn drop(&mut self)
        opens_invariants none
        no_unwind
    {
        counter_dec(&self.0.recv_count);
    }
}

impl<T> Connectivity for MpmcReceiver<T> {
    /// Snapshot: whether any sender handle was live at the instant of
    /// the internal load.
    fn is_connected(&self) -> bool {
        counter_get(&self.0.send_count) > 0
    }
}

impl<T> Capacity for MpmcReceiver<T> {
    fn capacity(&self) -> (r: Option<usize>)
        ensures
            r == self.spec_capacity(),
    {
        self.0.bound
    }
}

impl<T> Receiver for MpmcReceiver<T> {
    type Item = T;

    /// Snapshot: whether the queue held no items at the instant of the
    /// internal check.
    fn is_empty(&self) -> bool {
        match &self.0.queue {
            SharedQueue::Bounded(q) => array_queue_is_empty(q),
            SharedQueue::Unbounded(q) => seg_queue_is_empty(q),
        }
    }

    /// Attempts the non-blocking pop first, so enqueued items drain even
    /// after every sender is gone; only an empty pop consults
    /// connectivity, classifying `Disconnected` when no sender was live
    /// and `Empty` otherwise.
    fn recv(&mut self) -> (r: Result<T, RecvError>)
        ensures
            *final(self) == *old(self),
            r matches Err(e) ==> e.kind == RecvErrorKind::Empty || e.kind
                == RecvErrorKind::Disconnected,
    {
        let popped = match &self.0.queue {
            SharedQueue::Bounded(q) => q.pop(),
            SharedQueue::Unbounded(q) => q.pop(),
        };
        match popped {
            Some(v) => Ok(v),
            None => {
                if counter_get(&self.0.send_count) == 0 {
                    Err(RecvError { kind: RecvErrorKind::Disconnected })
                } else {
                    Err(RecvError { kind: RecvErrorKind::Empty })
                }
            },
        }
    }
}

impl<T> Channel for Mpmc<T> {
    type Item = T;

    type Sender = MpmcSender<T>;

    type Receiver = MpmcReceiver<T>;
}

impl<T> Bounded for Mpmc<T> {
    /// Fresh shared state over a ring buffer of exactly `capacity` slots,
    /// with one live sender and one live receiver.
    fn bounded(capacity: usize) -> (r: Pair<Self>)
        ensures
            r.0.spec_capacity() == Some(capacity),
            r.1.spec_capacity() == Some(capacity),
    {
        let state = Arc::new(
            Mpmc {
                queue: SharedQueue::Bounded(ArrayQueue::new(capacity)),
                bound: Some(capacity),
                recv_count: counter_new(1),
                send_count: counter_new(1),
            },
        );
        (MpmcSender(arc_clone(&state)), MpmcReceiver(state))
    }
}

impl<T> Unbounded for Mpmc<T> {
    /// Fresh shared state over an unbounded segment queue, with one live
    /// sender and one live receiver.
    fn unbounded() -> (r: Pair<Self>)
        ensures
            r.0.spec_capacity() is None,
            r.1.spec_capacity() is None,
    {
        let state = Arc::new(
            Mpmc {
                queue: SharedQueue::Unbounded(SegQueue::new()),
                bound: None,
                recv_count: counter_new(1),
                send_count: counter_new(1),
            },
        );
        (MpmcSender(arc_clone(&state)), MpmcReceiver(state))
    }
}

} // verus!
