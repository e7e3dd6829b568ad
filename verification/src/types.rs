//! Identities and plain values of the protocol: cores, channels, occupancy
//! states, notification-mask kinds, errors, and the index functions that lay
//! the per-direction and per-mask state out in fixed-size tables.

use vstd::prelude::*;

verus! {

/// The core that performs an operation. Exactly two participants exist; the
/// identity of each is fixed for the lifetime of the system.
#[derive(Clone, Copy, PartialEq, Eq, Structural, Debug)]
pub enum Core {
    C1,
    C2,
}

/// One of the six communication channels shared by both cores. Channels are
/// independent: nothing relates traffic on one channel to traffic on another.
#[derive(Clone, Copy, PartialEq, Eq, Structural, Debug)]
pub enum IpccChannel {
    C1,
    C2,
    C3,
    C4,
    C5,
    C6,
}

/// The transfer discipline chosen per call site: simplex streams payloads in a
/// single direction; half-duplex alternates a request with a response over one
/// occupancy flag (ping-pong).
#[derive(Clone, Copy, PartialEq, Eq, Structural, Debug)]
pub enum IpccMode {
    Simplex,
    HalfDuplex,
}

/// The occupancy state of one direction. `Free`: no pending payload, the
/// sender may post. `Occupied`: a payload is posted and not yet consumed.
#[derive(Clone, Copy, PartialEq, Eq, Structural, Debug)]
pub enum Occupancy {
    Free,
    Occupied,
}

/// The two notification kinds an observer can unmask per channel: a wake-up
/// when the channel becomes free, or one when it becomes occupied.
#[derive(Clone, Copy, PartialEq, Eq, Structural, Debug)]
pub enum MaskKind {
    OnFree,
    OnOccupied,
}

/// A recoverable failure reported to the caller. `InvalidState`: the operation
/// was attempted against the wrong occupancy phase. `ChannelBusy`: a
/// non-blocking send was rejected because the direction is occupied.
#[derive(Clone, Copy, PartialEq, Eq, Structural, Debug)]
pub enum IpccError {
    InvalidState,
    ChannelBusy,
}

/// A latched wake-up signal: the named core's mask for `(channel, kind)` was
/// unmasked at the moment the matching transition happened. A notification
/// carries no data; it only says which transition to go look at.
#[derive(Clone, Copy, PartialEq, Eq, Structural, Debug)]
pub struct Notification {
    pub core: Core,
    pub channel: IpccChannel,
    pub kind: MaskKind,
}

/// Number of channels per direction.
pub const NUM_CHANNELS: usize = 6;

/// Number of directions: one per (core, channel) pair.
pub const NUM_DIRECTIONS: usize = 12;

/// Number of mask bits: one per (core, channel, kind) triple.
pub const NUM_MASKS: usize = 24;

/// The other participant.
pub open spec fn spec_peer(core: Core) -> Core {
    match core {
        Core::C1 => Core::C2,
        Core::C2 => Core::C1,
    }
}

pub open spec fn core_idx(core: Core) -> int {
    match core {
        Core::C1 => 0,
        Core::C2 => 1,
    }
}

pub open spec fn channel_idx(channel: IpccChannel) -> int {
    match channel {
        IpccChannel::C1 => 0,
        IpccChannel::C2 => 1,
        IpccChannel::C3 => 2,
        IpccChannel::C4 => 3,
        IpccChannel::C5 => 4,
        IpccChannel::C6 => 5,
    }
}

/// Position of a direction's occupancy flag in the flag table.
pub open spec fn dir_idx(core: Core, channel: IpccChannel) -> int {
    core_idx(core) * (NUM_CHANNELS as int) + channel_idx(channel)
}

pub open spec fn kind_idx(kind: MaskKind) -> int {
    match kind {
        MaskKind::OnFree => 0,
        MaskKind::OnOccupied => 1,
    }
}

/// Position of an observer's mask bit in the mask table.
pub open spec fn mask_idx(core: Core, channel: IpccChannel, kind: MaskKind) -> int {
    core_idx(core) * 2 * (NUM_CHANNELS as int) + channel_idx(channel) * 2 + kind_idx(kind)
}

/// The other participant.
pub fn peer(core: Core) -> (r: Core)
    ensures
        r == spec_peer(core),
{
    match core {
        Core::C1 => Core::C2,
        Core::C2 => Core::C1,
    }
}

/// Table position of the occupancy flag for direction `(core, channel)`.
pub fn dir_index(core: Core, channel: IpccChannel) -> (i: usize)
    ensures
        i == dir_idx(core, channel),
        i < NUM_DIRECTIONS,
{
    let c: usize = match core {
        Core::C1 => 0,
        Core::C2 => 1,
    };
    let ch: usize = match channel {
        IpccChannel::C1 => 0,
        IpccChannel::C2 => 1,
        IpccChannel::C3 => 2,
        IpccChannel::C4 => 3,
        IpccChannel::C5 => 4,
        IpccChannel::C6 => 5,
    };
    c * NUM_CHANNELS + ch
}

/// Table position of the mask bit for `(core, channel, kind)`.
pub fn mask_index(core: Core, channel: IpccChannel, kind: MaskKind) -> (i: usize)
    ensures
        i == mask_idx(core, channel, kind),
        i < NUM_MASKS,
{
    let c: usize = match core {
        Core::C1 => 0,
        Core::C2 => 1,
    };
    let ch: usize = match channel {
        IpccChannel::C1 => 0,
        IpccChannel::C2 => 1,
        IpccChannel::C3 => 2,
        IpccChannel::C4 => 3,
        IpccChannel::C5 => 4,
        IpccChannel::C6 => 5,
    };
    let k: usize = match kind {
        MaskKind::OnFree => 0,
        MaskKind::OnOccupied => 1,
    };
    c * 2 * NUM_CHANNELS + ch * 2 + k
}

/// Distinct directions have distinct flag-table positions.
pub proof fn lemma_dir_idx_injective(c1: Core, ch1: IpccChannel, c2: Core, ch2: IpccChannel)
    ensures
        dir_idx(c1, ch1) == dir_idx(c2, ch2) ==> c1 == c2 && ch1 == ch2,
{
}

/// Distinct (core, channel, kind) triples have distinct mask-table positions.
pub proof fn lemma_mask_idx_injective(
    c1: Core,
    ch1: IpccChannel,
    k1: MaskKind,
    c2: Core,
    ch2: IpccChannel,
    k2: MaskKind,
)
    ensures
        mask_idx(c1, ch1, k1) == mask_idx(c2, ch2, k2) ==> c1 == c2 && ch1 == ch2 && k1 == k2,
{
}

} // verus!
