//! The single-execution-context channel backend.
//!
//! All channel state lives in one owned value: a FIFO queue, an optional
//! capacity bound and the two live-handle counts. Because the state is a
//! plain value confined to one logical thread of control, it is mutated
//! directly, with no synchronization; handle bookkeeping is explicit, so
//! that every creation and destruction of a sender or receiver adjusts its
//! count exactly once.
//!
//! Every operation is specified against [`ChannelModel`], the mathematical
//! model of the channel, and the connection-lifecycle and FIFO laws are
//! proved over that model.

use vstd::prelude::*;
use std::collections::VecDeque;
use crate::common::RecvError;
use crate::common::RecvErrorKind;
use crate::common::SendError;
use crate::common::SendErrorKind;

verus! {

broadcast use vstd::std_specs::vecdeque::group_vec_dequeue_axioms;

/// The mathematical model of a channel: the queued items in FIFO order,
/// the optional capacity bound, and the live sender and receiver counts.
#[verifier::ext_equal]
pub ghost struct ChannelModel<T> {
    pub queue: Seq<T>,
    pub capacity: Option<usize>,
    pub send_count: nat,
    pub recv_count: nat,
}

impl<T> ChannelModel<T> {
    /// The state invariant: a bounded queue never exceeds its bound.
    pub open spec fn wf(self) -> bool {
        self.capacity matches Some(c) ==> self.queue.len() <= c
    }

    /// The model of a freshly constructed channel: empty queue, one live
    /// sender and one live receiver.
    pub open spec fn initial(capacity: Option<usize>) -> ChannelModel<T> {
        ChannelModel { queue: Seq::empty(), capacity, send_count: 1, recv_count: 1 }
    }
}

/// What one `send` does to the model. Connectivity is checked before
/// capacity, so a disconnected-and-full channel reports `Disconnected`;
/// a refused send leaves the model unchanged.
pub open spec fn spec_send<T>(m: ChannelModel<T>, item: T) -> (ChannelModel<T>, Result<
    (),
    SendErrorKind,
>) {
    if m.recv_count == 0 {
        (m, Err(SendErrorKind::Disconnected))
    } else if m.capacity matches Some(c) && m.queue.len() >= c {
        (m, Err(SendErrorKind::Full))
    } else {
        (ChannelModel { queue: m.queue.push(item), ..m }, Ok(()))
    }
}

/// What one `recv` does to the model. Queue content is checked before
/// connectivity, so already-enqueued items drain before `Disconnected`
/// is ever reported; a failed receive leaves the model unchanged.
pub open spec fn spec_recv<T>(m: ChannelModel<T>) -> (ChannelModel<T>, Result<
    T,
    RecvErrorKind,
>) {
    if m.queue.len() > 0 {
        (ChannelModel { queue: m.queue.drop_first(), ..m }, Ok(m.queue[0]))
    } else if m.send_count == 0 {
        (m, Err(RecvErrorKind::Disconnected))
    } else {
        (m, Err(RecvErrorKind::Empty))
    }
}

/// Cloning a sender handle: one more live sender.
pub open spec fn spec_clone_sender<T>(m: ChannelModel<T>) -> ChannelModel<T> {
    ChannelModel { send_count: m.send_count + 1, ..m }
}

/// Destroying a sender handle: one fewer live sender.
pub open spec fn spec_drop_sender<T>(m: ChannelModel<T>) -> ChannelModel<T> {
    ChannelModel { send_count: (m.send_count - 1) as nat, ..m }
}

/// Cloning a receiver handle: one more live receiver.
pub open spec fn spec_clone_receiver<T>(m: ChannelModel<T>) -> ChannelModel<T> {
    ChannelModel { recv_count: m.recv_count + 1, ..m }
}

/// Destroying a receiver handle: one fewer live receiver.
pub open spec fn spec_drop_receiver<T>(m: ChannelModel<T>) -> ChannelModel<T> {
    ChannelModel { recv_count: (m.recv_count - 1) as nat, ..m }
}

/// A single-execution-context MPMC channel, owned as one value. The
/// sender and receiver handles this backend accounts for are not separate
/// objects: creation and destruction of each is recorded through the
/// explicit `clone_*` and `drop_*` operations, so the value itself is the
/// channel state every handle shares.
pub struct Mpmc<T> {
    queue: VecDeque<T>,
    capacity: Option<usize>,
    recv_count: usize,
    send_count: usize,
}

impl<T> View for Mpmc<T> {
    type V = ChannelModel<T>;

    closed spec fn view(&self) -> ChannelModel<T> {
        ChannelModel {
            queue: self.queue@,
            capacity: self.capacity,
            send_count: self.send_count as nat,
            recv_count: self.recv_count as nat,
        }
    }
}

impl<T> Mpmc<T> {
    /// Constructs a bounded channel with one live sender and one live
    /// receiver. Sends beyond `capacity` queued items are refused.
    pub fn bounded(capacity: usize) -> (r: Mpmc<T>)
        ensures
            r@ == ChannelModel::<T>::initial(Some(capacity)),
            r@.wf(),
    {
        Mpmc {
            queue: VecDeque::with_capacity(capacity),
            capacity: Some(capacity),
            recv_count: 1,
            send_count: 1,
        }
    }

    /// Constructs an unbounded channel with one live sender and one live
    /// receiver.
    pub fn unbounded() -> (r: Mpmc<T>)
        ensures
            r@ == ChannelModel::<T>::initial(None),
            r@.wf(),
    {
        Mpmc { queue: VecDeque::new(), capacity: None, recv_count: 1, send_count: 1 }
    }

    /// True iff at least one receiver handle is live, so a sender is
    /// still connected.
    pub fn sender_is_connected(&self) -> (r: bool)
        ensures
            r == (self@.recv_count > 0),
    {
        self.recv_count > 0
    }

    /// True iff at least one sender handle is live, so a receiver is
    /// still connected.
    pub fn receiver_is_connected(&self) -> (r: bool)
        ensures
            r == (self@.send_count > 0),
    {
        self.send_count > 0
    }

    /// The number of live sender handles.
    pub fn send_count(&self) -> (r: usize)
        ensures
            r as nat == self@.send_count,
    {
        self.send_count
    }

    /// The number of live receiver handles.
    pub fn recv_count(&self) -> (r: usize)
        ensures
            r as nat == self@.recv_count,
    {
        self.recv_count
    }

    /// The capacity bound, or `None` for an unbounded channel.
    pub fn capacity(&self) -> (r: Option<usize>)
        ensures
            r == self@.capacity,
    {
        self.capacity
    }

    /// True iff the channel is bounded and the queue is at its bound.
    pub fn is_full(&self) -> (r: bool)
        ensures
            r == (self@.capacity matches Some(c) && self@.queue.len() >= c),
    {
        match self.capacity {
            Some(t) => self.queue.len() >= t,
            None => false,
        }
    }

    /// True iff the queue currently holds no items.
    pub fn is_empty(&self) -> (r: bool)
        ensures
            r == (self@.queue.len() == 0),
    {
        self.queue.len() == 0
    }

    /// Appends `item` at the tail, or returns it with the refusal
    /// classified: `Disconnected` when no receiver handle is live
    /// (checked first), `Full` when bounded and at capacity.
    pub fn send(&mut self, item: T) -> (r: Result<(), SendError<T>>)
        ensures
            final(self)@ == spec_send(old(self)@, item).0,
            r is Ok <==> spec_send(old(self)@, item).1 is Ok,
            r matches Err(e) ==> e.item == item && spec_send(old(self)@, item).1 == Err::<
                (),
                SendErrorKind,
            >(e.kind),
            old(self)@.wf() ==> final(self)@.wf(),
    {
        if self.recv_count == 0 {
            return Err(SendError { item, kind: SendErrorKind::Disconnected });
        }
        match self.capacity {
            Some(t) => {
                if self.queue.len() >= t {
                    return Err(SendError { item, kind: SendErrorKind::Full });
                }
            },
            None => {},
        }
        self.queue.push_back(item);
        Ok(())
    }

    /// Removes and returns the head item if the queue is non-empty —
    /// draining enqueued items takes priority over reporting
    /// disconnection. On an empty queue, fails with `Disconnected` when
    /// no sender handle is live, else with `Empty`.
    pub fn recv(&mut self) -> (r: Result<T, RecvError>)
        ensures
            final(self)@ == spec_recv(old(self)@).0,
            r matches Ok(v) ==> spec_recv(old(self)@).1 == Ok::<T, RecvErrorKind>(v),
            r matches Err(e) ==> spec_recv(old(self)@).1 == Err::<T, RecvErrorKind>(e.kind),
            old(self)@.wf() ==> final(self)@.wf(),
    {
        match self.queue.pop_front() {
            Some(v) => Ok(v),
            None => {
                if self.send_count == 0 {
                    Err(RecvError { kind: RecvErrorKind::Disconnected })
                } else {
                    Err(RecvError { kind: RecvErrorKind::Empty })
                }
            },
        }
    }

    /// Records the cloning of a live sender handle.
    pub fn clone_sender(&mut self)
        requires
            old(self)@.send_count > 0,
            old(self)@.send_count < usize::MAX,
        ensures
            final(self)@ == spec_clone_sender(old(self)@),
    {
        self.send_count = self.send_count + 1;
    }

    /// Records the destruction of a live sender handle.
    pub fn drop_sender(&mut self)
        requires
            old(self)@.send_count > 0,
        ensures
            final(self)@ == spec_drop_sender(old(self)@),
    {
        self.send_count = self.send_count - 1;
    }

    /// Records the cloning of a live receiver handle.
    pub fn clone_receiver(&mut self)
        requires
            old(self)@.recv_count > 0,
            old(self)@.recv_count < usize::MAX,
        ensures
            final(self)@ == spec_clone_receiver(old(self)@),
    {
        self.recv_count = self.recv_count + 1;
    }

    /// Records the destruction of a live receiver handle.
    pub fn drop_receiver(&mut self)
        requires
            old(self)@.recv_count > 0,
        ensures
            final(self)@ == spec_drop_receiver(old(self)@),
    {
        self.recv_count = self.recv_count - 1;
    }
}

/// The model after sending each of `items` in turn.
pub open spec fn spec_send_all<T>(m: ChannelModel<T>, items: Seq<T>) -> ChannelModel<T>
    decreases items.len(),
{
    if items.len() == 0 {
        m
    } else {
        spec_send_all(spec_send(m, items[0]).0, items.drop_first())
    }
}

/// Whether every send of `items` in turn succeeds.
pub open spec fn spec_send_all_ok<T>(m: ChannelModel<T>, items: Seq<T>) -> bool
    decreases items.len(),
{
    if items.len() == 0 {
        true
    } else {
        spec_send(m, items[0]).1 is Ok && spec_send_all_ok(
            spec_send(m, items[0]).0,
            items.drop_first(),
        )
    }
}

/// The items returned by receiving until the queue is empty, in removal
/// order.
pub open spec fn spec_drain<T>(m: ChannelModel<T>) -> Seq<T>
    decreases m.queue.len(),
{
    if m.queue.len() == 0 {
        Seq::empty()
    } else {
        seq![m.queue[0]] + spec_drain(spec_recv(m).0)
    }
}

/// The model after receiving until the queue is empty.
pub open spec fn spec_drain_state<T>(m: ChannelModel<T>) -> ChannelModel<T>
    decreases m.queue.len(),
{
    if m.queue.len() == 0 {
        m
    } else {
        spec_drain_state(spec_recv(m).0)
    }
}

/// On a connected channel with room for all of `items`, sending them in
/// turn succeeds every time and appends them at the tail in order.
pub proof fn lemma_send_all<T>(m: ChannelModel<T>, items: Seq<T>)
    requires
        m.recv_count > 0,
        m.capacity matches Some(c) ==> m.queue.len() + items.len() <= c,
    ensures
        spec_send_all_ok(m, items),
        spec_send_all(m, items) == (ChannelModel { queue: m.queue + items, ..m }),
    decreases items.len(),
{
    if items.len() == 0 {
        assert(spec_send_all(m, items) =~= (ChannelModel { queue: m.queue + items, ..m }));
    } else {
        let m1 = spec_send(m, items[0]).0;
        lemma_send_all(m1, items.drop_first());
        assert(m.queue.push(items[0]) + items.drop_first() =~= m.queue + items);
    }
}

/// Receiving until the queue is empty returns exactly the queued items,
/// in queue order, and leaves everything but the queue unchanged.
pub proof fn lemma_drain<T>(m: ChannelModel<T>)
    ensures
        spec_drain(m) == m.queue,
        spec_drain_state(m) == (ChannelModel { queue: Seq::empty(), ..m }),
    decreases m.queue.len(),
{
    if m.queue.len() == 0 {
        assert(spec_drain(m) =~= m.queue);
        assert(spec_drain_state(m) =~= (ChannelModel { queue: Seq::empty(), ..m }));
    } else {
        lemma_drain(spec_recv(m).0);
        assert(seq![m.queue[0]] + m.queue.drop_first() =~= m.queue);
    }
}

/// FIFO law: on an empty, connected, unbounded channel, sending any
/// sequence of items succeeds every time, and consecutive receives then
/// return exactly those items in the same order.
pub proof fn lemma_fifo<T>(m: ChannelModel<T>, items: Seq<T>)
    requires
        m.recv_count > 0,
        m.capacity is None,
        m.queue.len() == 0,
    ensures
        spec_send_all_ok(m, items),
        spec_drain(spec_send_all(m, items)) == items,
{
    lemma_send_all(m, items);
    lemma_drain(spec_send_all(m, items));
    assert(m.queue + items =~= items);
}

/// Capacity law: on an empty, connected channel bounded at `c`, `c`
/// sends succeed; the next send fails with `Full` and changes nothing;
/// one receive then frees room for exactly one more successful send.
pub proof fn lemma_capacity<T>(m: ChannelModel<T>, items: Seq<T>, c: usize, extra: T)
    requires
        m.recv_count > 0,
        m.capacity == Some(c),
        m.queue.len() == 0,
        items.len() == c,
    ensures
        spec_send_all_ok(m, items),
        spec_send(spec_send_all(m, items), extra).1 == Err::<(), SendErrorKind>(
            SendErrorKind::Full,
        ),
        spec_send(spec_send_all(m, items), extra).0 == spec_send_all(m, items),
        c > 0 ==> spec_send(spec_recv(spec_send_all(m, items)).0, extra).1 is Ok,
        c > 0 ==> spec_send(
            spec_send(spec_recv(spec_send_all(m, items)).0, extra).0,
            extra,
        ).1 == Err::<(), SendErrorKind>(SendErrorKind::Full),
{
    lemma_send_all(m, items);
    assert(m.queue + items =~= items);
}

/// Sender disconnection: once no sender handle is live, receives still
/// drain the enqueued items in order; with the queue exhausted, every
/// subsequent receive fails with `Disconnected` and changes nothing.
pub proof fn lemma_sender_disconnection<T>(m: ChannelModel<T>)
    requires
        m.send_count == 0,
    ensures
        spec_drain(m) == m.queue,
        spec_recv(spec_drain_state(m)).1 == Err::<T, RecvErrorKind>(RecvErrorKind::Disconnected),
        spec_recv(spec_drain_state(m)).0 == spec_drain_state(m),
{
    lemma_drain(m);
}

/// Receiver disconnection: once no receiver handle is live, every send
/// fails with `Disconnected` and changes nothing.
pub proof fn lemma_receiver_disconnection<T>(m: ChannelModel<T>, item: T)
    requires
        m.recv_count == 0,
    ensures
        spec_send(m, item).1 == Err::<(), SendErrorKind>(SendErrorKind::Disconnected),
        spec_send(m, item).0 == m,
{
}

/// Clone independence: cloning a handle and then destroying the original
/// restores the model exactly, so the side that was cloned still counts
/// as connected.
pub proof fn lemma_clone_independence<T>(m: ChannelModel<T>)
    requires
        m.send_count > 0,
        m.recv_count > 0,
    ensures
        spec_drop_sender(spec_clone_sender(m)) == m,
        spec_drop_sender(spec_clone_sender(m)).send_count > 0,
        spec_drop_receiver(spec_clone_receiver(m)) == m,
        spec_drop_receiver(spec_clone_receiver(m)).recv_count > 0,
{
    assert(spec_drop_sender(spec_clone_sender(m)) =~= m);
    assert(spec_drop_receiver(spec_clone_receiver(m)) =~= m);
}

} // verus!
