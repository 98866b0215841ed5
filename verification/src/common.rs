//! The capability contract shared by every channel backend: error
//! classification for the fallible operations, and the traits that a
//! conforming sender, receiver and channel constructor implement.

use vstd::prelude::*;

verus! {

/// Why a `send` was refused: the queue is at its bound (`Full`, transient)
/// or no receiver handle exists any more (`Disconnected`, permanent).
#[derive(Debug, Clone, Copy, PartialEq, Eq, Structural)]
pub enum SendErrorKind {
    Full,
    Disconnected,
}

impl SendErrorKind {
    /// A short human-readable description of the error kind.
    pub fn message(&self) -> (r: String)
        ensures
            *self == SendErrorKind::Full ==> r@ == "channel is full"@,
            *self == SendErrorKind::Disconnected ==> r@ == "channel is disconnected"@,
    {
        match self {
            SendErrorKind::Full => "channel is full".to_string(),
            SendErrorKind::Disconnected => "channel is disconnected".to_string(),
        }
    }
}

/// A refused send: the classification together with the rejected item,
/// whose ownership returns to the caller so that no value is silently lost.
#[derive(Debug)]
pub struct SendError<T> {
    pub kind: SendErrorKind,
    pub item: T,
}

/// Why a `recv` returned nothing: the queue currently holds no items
/// (`Empty`, transient) or it is exhausted and no sender handle exists
/// any more (`Disconnected`, permanent).
#[derive(Debug, Clone, Copy, PartialEq, Eq, Structural)]
pub enum RecvErrorKind {
    Empty,
    Disconnected,
}

/// A failed receive. It carries only the classification: nothing was
/// removed from the queue, so there is nothing to hand back.
#[derive(Debug)]
pub struct RecvError {
    pub kind: RecvErrorKind,
}

impl RecvError {
    /// A short human-readable description of the error.
    pub fn message(&self) -> (r: String)
        ensures
            self.kind == RecvErrorKind::Empty ==> r@ == "channel is empty"@,
            self.kind == RecvErrorKind::Disconnected ==> r@ == "channel is disconnected"@,
    {
        match self.kind {
            RecvErrorKind::Empty => "channel is empty".to_string(),
            RecvErrorKind::Disconnected => "channel is disconnected".to_string(),
        }
    }
}

/// Whether the opposite side of the channel still has at least one live
/// handle. For concurrent backends the answer is a point-in-time snapshot.
pub trait Connectivity {
    fn is_connected(&self) -> bool;
}

/// The channel's bound, or `None` for an unbounded channel.
pub trait Capacity {
    fn capacity(&self) -> Option<usize>;
}

/// The sending half of the capability contract. `send` never blocks: it
/// either appends the item or classifies the refusal, and a refused send
/// always returns the rejected item unchanged.
pub trait Sender {
    type Item;

    fn is_full(&self) -> bool;

    fn send(&mut self, item: Self::Item) -> (r: Result<(), SendError<Self::Item>>)
        ensures
            r matches Err(e) ==> e.item == item,
    ;
}

/// The receiving half of the capability contract. `recv` never blocks: it
/// either removes the head item or classifies the failure.
pub trait Receiver {
    type Item;

    fn is_empty(&self) -> bool;

    fn recv(&mut self) -> Result<Self::Item, RecvError>;
}

/// A channel backend: the pair of handle types that move one item type.
pub trait Channel {
    type Item;

    type Sender: Sender<Item = Self::Item>;

    type Receiver: Receiver<Item = Self::Item>;
}

/// The freshly constructed handle pair of a backend.
pub type Pair<C> = (<C as Channel>::Sender, <C as Channel>::Receiver);

/// Construction of a bounded channel. The bound must be positive and small
/// enough for the backing queues, which reject a zero or near-address-space
/// capacity by panicking.
pub trait Bounded: Channel {
    fn bounded(capacity: usize) -> Pair<Self>
        requires
            0 < capacity <= usize::MAX / 2,
    ;
}

/// Construction of an unbounded channel.
pub trait Unbounded: Channel {
    fn unbounded() -> Pair<Self>;
}

} // verus!
