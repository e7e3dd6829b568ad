//! A dual-core shared-memory channel controller.
//!
//! Two peers (`Core::C1` and `Core::C2`) exchange short messages over a small
//! set of channels. Each direction of traffic — a (core, channel) pair — owns a
//! single occupancy flag; the sender flips it `Free -> Occupied` when it posts a
//! payload, and the receiver flips it back `Occupied -> Free` when it has
//! consumed the payload. Per-core notification masks decide whether a flag
//! transition additionally latches a wake-up notification for an observer.
//!
//! Two transfer disciplines are layered on top of these primitives: a simplex
//! (one-way streaming) discipline and a half-duplex (request/response
//! ping-pong) discipline. All operations here are non-blocking: an operation
//! that would have to wait for the peer reports that to the caller, who decides
//! how long to wait and when to retry.

pub mod types;
pub mod store;
pub mod controller;
pub mod laws;

pub use types::Core;
pub use types::IpccChannel;
pub use types::IpccMode;
pub use types::Occupancy;
pub use types::MaskKind;
pub use types::IpccError;
pub use types::Notification;
pub use controller::Ipcc;
pub use controller::IpccView;
