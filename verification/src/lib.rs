//! A backend-agnostic multi-producer/multi-consumer channel abstraction.
//!
//! The capability contract (connectivity, capacity, non-blocking send and
//! receive, channel-pair construction) lives in [`common`] and is re-exported
//! at the crate root. Two self-contained backends implement it:
//! [`local`], a single-execution-context channel over plain state, and
//! [`shared`], a cross-thread channel over lock-free queues and atomic
//! reference counts. Adapters over the third-party channel libraries
//! crossbeam_channel and flume implement the same contract.

mod common;

pub use common::Bounded;
pub use common::Capacity;
pub use common::Channel;
pub use common::Connectivity;
pub use common::Pair;
pub use common::Receiver;
pub use common::RecvError;
pub use common::RecvErrorKind;
pub use common::SendError;
pub use common::SendErrorKind;
pub use common::Sender;
pub use common::Unbounded;

pub mod local;
pub mod shared;

mod crossbeam;

pub use crate::crossbeam::Crossbeam;
pub use crate::crossbeam::CrossbeamReceiver;
pub use crate::crossbeam::CrossbeamSender;

mod flume;

pub use crate::flume::Flume;
pub use crate::flume::FlumeReceiver;
pub use crate::flume::FlumeSender;
