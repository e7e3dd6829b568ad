//! The channel controller: one flag store, one mask store, one payload slot
//! per direction, and the queue of latched notifications. The two transfer
//! disciplines (simplex and half-duplex) are methods here, each specified
//! against a spec-level transition function on the controller's view.
//!
//! Every operation is non-blocking. Where the protocol would have a caller
//! wait for the peer (a busy channel, a missing request), the operation
//! returns an error and mutates nothing; the caller unmasks the matching
//! notification and retries once woken. How long to wait is the caller's
//! decision, not the controller's.

use vstd::prelude::*;

use crate::types::Core;
use crate::types::IpccChannel;
use crate::types::IpccError;
use crate::types::IpccMode;
use crate::types::MaskKind;
use crate::types::Notification;
use crate::types::Occupancy;
use crate::types::NUM_DIRECTIONS;
use crate::types::NUM_MASKS;
use crate::types::dir_idx;
use crate::types::dir_index;
use crate::types::mask_idx;
use crate::types::spec_peer;
use crate::types::peer;
use crate::store::FlagStore;
use crate::store::MaskStore;

verus! {

/// The mathematical model of a controller: the occupancy flag and payload
/// slot of each direction (indexed by `dir_idx`), the notification mask bits
/// (indexed by `mask_idx`, `true` = unmasked), and the latched notifications
/// not yet collected, oldest first.
#[verifier::ext_equal]
pub struct IpccView {
    pub flags: Seq<Occupancy>,
    pub masks: Seq<bool>,
    pub payloads: Seq<u32>,
    pub pending: Seq<Notification>,
}

impl IpccView {
    pub open spec fn wf(self) -> bool {
        &&& self.flags.len() == NUM_DIRECTIONS as int
        &&& self.masks.len() == NUM_MASKS as int
        &&& self.payloads.len() == NUM_DIRECTIONS as int
    }

    /// Occupancy of the direction "traffic out of `core` on `channel`".
    pub open spec fn flag(self, core: Core, channel: IpccChannel) -> Occupancy {
        self.flags[dir_idx(core, channel)]
    }

    /// Whether `core` has enabled the `kind` notification for `channel`.
    pub open spec fn unmasked(self, core: Core, channel: IpccChannel, kind: MaskKind) -> bool {
        self.masks[mask_idx(core, channel, kind)]
    }

    /// Contents of the payload slot of direction `(core, channel)`.
    pub open spec fn payload(self, core: Core, channel: IpccChannel) -> u32 {
        self.payloads[dir_idx(core, channel)]
    }

    /// Latch a notification for `core` if its mask for `(channel, kind)` is
    /// unmasked at this moment; masks only gate the notification, never the
    /// flag transition itself.
    pub open spec fn latch(self, core: Core, channel: IpccChannel, kind: MaskKind) -> IpccView {
        if self.unmasked(core, channel, kind) {
            IpccView { pending: self.pending.push(Notification { core, channel, kind }), ..self }
        } else {
            self
        }
    }

    /// Post a payload on direction `(core, channel)`: the payload slot is
    /// committed before the flag flips to `Occupied`, and the transition
    /// latches an on-occupied notification for the receiving peer.
    pub open spec fn post(self, core: Core, channel: IpccChannel, data: u32) -> IpccView {
        (IpccView {
            flags: self.flags.update(dir_idx(core, channel), Occupancy::Occupied),
            payloads: self.payloads.update(dir_idx(core, channel), data),
            ..self
        }).latch(spec_peer(core), channel, MaskKind::OnOccupied)
    }

    /// Release direction `(core, channel)` back to `Free`; the transition
    /// latches an on-free notification for the direction's sending core.
    pub open spec fn clear(self, core: Core, channel: IpccChannel) -> IpccView {
        (IpccView {
            flags: self.flags.update(dir_idx(core, channel), Occupancy::Free),
            ..self
        }).latch(core, channel, MaskKind::OnFree)
    }

    /// Set one mask bit; nothing else changes.
    pub open spec fn with_mask(
        self,
        core: Core,
        channel: IpccChannel,
        kind: MaskKind,
        enabled: bool,
    ) -> IpccView {
        IpccView { masks: self.masks.update(mask_idx(core, channel, kind), enabled), ..self }
    }
}

/// Effect of a non-blocking simplex send by `core` on `channel`: post the
/// payload if the direction is free, otherwise change nothing.
pub open spec fn spec_send_simplex(
    v: IpccView,
    core: Core,
    channel: IpccChannel,
    data: u32,
) -> IpccView {
    if v.flag(core, channel) is Free {
        v.post(core, channel, data)
    } else {
        v
    }
}

/// Effect of the receiving side of a simplex transfer finishing: if the
/// watched direction (out of the peer of `core`) is occupied, it is released;
/// a finish against a free direction mutates nothing.
pub open spec fn spec_finish_receive_simplex(
    v: IpccView,
    core: Core,
    channel: IpccChannel,
) -> IpccView {
    if v.flag(spec_peer(core), channel) is Occupied {
        v.clear(spec_peer(core), channel)
    } else {
        v
    }
}

/// Result of a simplex finish: the posted payload, or `InvalidState` when no
/// payload is pending.
pub open spec fn spec_finish_receive_simplex_result(
    v: IpccView,
    core: Core,
    channel: IpccChannel,
) -> Result<u32, IpccError> {
    if v.flag(spec_peer(core), channel) is Occupied {
        Ok(v.payload(spec_peer(core), channel))
    } else {
        Err(IpccError::InvalidState)
    }
}

/// Effect of a half-duplex request by `core` on `channel`: if the direction is
/// free, post the request and unmask on-free so the requester is woken by the
/// response; if a request is still in flight, change nothing.
pub open spec fn spec_send_half_duplex(
    v: IpccView,
    core: Core,
    channel: IpccChannel,
    data: u32,
) -> IpccView {
    if v.flag(core, channel) is Occupied {
        v
    } else {
        v.post(core, channel, data).with_mask(core, channel, MaskKind::OnFree, true)
    }
}

/// Effect of a half-duplex response by `core` (the responder) on `channel`:
/// if a request is pending on the peer-owned direction, overwrite the shared
/// slot with the response, release the direction, and unmask on-occupied to
/// arm the next request cycle; if no request is pending, change nothing.
pub open spec fn spec_send_response_half_duplex(
    v: IpccView,
    core: Core,
    channel: IpccChannel,
    data: u32,
) -> IpccView {
    if v.flag(spec_peer(core), channel) is Free {
        v
    } else {
        (IpccView {
            payloads: v.payloads.update(dir_idx(spec_peer(core), channel), data),
            ..v
        }).clear(spec_peer(core), channel).with_mask(core, channel, MaskKind::OnOccupied, true)
    }
}

/// An inter-processor channel controller. It owns the shared flag and mask
/// tables, one payload slot per direction, and the latched notifications.
pub struct Ipcc {
    flags: FlagStore,
    masks: MaskStore,
    payloads: Vec<u32>,
    pending: Vec<Notification>,
}

impl View for Ipcc {
    type V = IpccView;

    closed spec fn view(&self) -> IpccView {
        IpccView {
            flags: self.flags@,
            masks: self.masks@,
            payloads: self.payloads@,
            pending: self.pending@,
        }
    }
}

impl Ipcc {
    pub open spec fn wf(&self) -> bool {
        self@.wf()
    }

    /// A freshly initialised controller: every direction `Free`, every
    /// notification masked, every payload slot zeroed, nothing latched.
    pub fn new() -> (s: Self)
        ensures
            s.wf(),
            forall|c: Core, ch: IpccChannel| #[trigger] s@.flag(c, ch) is Free,
            forall|c: Core, ch: IpccChannel, k: MaskKind| !(#[trigger] s@.unmasked(c, ch, k)),
            forall|c: Core, ch: IpccChannel| #[trigger] s@.payload(c, ch) == 0u32,
            s@.pending == Seq::<Notification>::empty(),
    {
        let mut payloads: Vec<u32> = Vec::new();
        while payloads.len() < NUM_DIRECTIONS
            invariant
                payloads@.len() <= NUM_DIRECTIONS as int,
                forall|i: int| 0 <= i < payloads@.len() ==> payloads@[i] == 0u32,
            decreases NUM_DIRECTIONS - payloads.len(),
        {
            payloads.push(0u32);
        }
        Ipcc { flags: FlagStore::new(), masks: MaskStore::new(), payloads, pending: Vec::new() }
    }

    /// Whether the direction "traffic out of `core` on `channel`" is free,
    /// i.e. not currently carrying a pending payload. A pure read with no side
    /// effects, used both as public API and internally by the disciplines.
    pub fn channel_is_free(&self, core: Core, channel: IpccChannel) -> (r: bool)
        requires
            self.wf(),
        ensures
            r == (self@.flag(core, channel) is Free),
    {
        let f = self.flags.read(core, channel);
        f == Occupancy::Free
    }

    /// Latch a notification for `core` if its `(channel, kind)` mask is
    /// currently unmasked.
    fn latch_notification(&mut self, core: Core, channel: IpccChannel, kind: MaskKind)
        requires
            old(self).wf(),
        ensures
            final(self).wf(),
            final(self)@ == old(self)@.latch(core, channel, kind),
    {
        if self.masks.is_unmasked(core, channel, kind) {
            self.pending.push(Notification { core, channel, kind });
        }
    }

    /// Commit `data` to the direction's slot, then flip the flag to
    /// `Occupied`. The slot is written strictly before the flag, so the peer
    /// never observes `Occupied` with an unstable payload.
    fn post_payload(&mut self, core: Core, channel: IpccChannel, data: u32)
        requires
            old(self).wf(),
        ensures
            final(self).wf(),
            final(self)@ == old(self)@.post(core, channel, data),
    {
        let i = dir_index(core, channel);
        self.payloads[i] = data;
        self.flags.set_occupied(core, channel);
        let p = peer(core);
        self.latch_notification(p, channel, MaskKind::OnOccupied);
    }

    /// Flip the direction's flag back to `Free`, handing the slot back to the
    /// sending core, which is notified if it unmasked on-free.
    fn release_direction(&mut self, core: Core, channel: IpccChannel)
        requires
            old(self).wf(),
        ensures
            final(self).wf(),
            final(self)@ == old(self)@.clear(core, channel),
    {
        self.flags.set_free(core, channel);
        self.latch_notification(core, channel, MaskKind::OnFree);
    }

    /// Send a message out of `core` using simplex mode. Non-blocking: if the
    /// direction is still occupied the send is rejected with `ChannelBusy` and
    /// nothing — payload slot, flag, masks, notifications — changes; the
    /// caller should unmask on-free and retry once notified.
    pub fn send_simplex(&mut self, core: Core, channel: IpccChannel, data: u32) -> (r: Result<
        (),
        IpccError,
    >)
        requires
            old(self).wf(),
        ensures
            final(self).wf(),
            final(self)@ == spec_send_simplex(old(self)@, core, channel, data),
            r == (if old(self)@.flag(core, channel) is Free {
                Result::<(), IpccError>::Ok(())
            } else {
                Result::<(), IpccError>::Err(IpccError::ChannelBusy)
            }),
    {
        if self.channel_is_free(core, channel) {
            self.post_payload(core, channel, data);
            Ok(())
        } else {
            Err(IpccError::ChannelBusy)
        }
    }

    /// Prepare `core` to receive a simplex message: unmask its on-occupied
    /// notification for `channel`. Reads no data and touches no flag.
    pub fn receive_simplex(&mut self, core: Core, channel: IpccChannel)
        requires
            old(self).wf(),
        ensures
            final(self).wf(),
            final(self)@ == old(self)@.with_mask(core, channel, MaskKind::OnOccupied, true),
    {
        self.masks.unmask(core, channel, MaskKind::OnOccupied);
    }

    /// Complete a simplex receive on `core`: if the peer has posted a payload,
    /// copy it out and release the direction back to `Free` (waking the sender
    /// if it unmasked on-free). Calling this while the direction is `Free` is
    /// a programming error: it yields `InvalidState` and mutates nothing.
    pub fn finish_receive_simplex(&mut self, core: Core, channel: IpccChannel) -> (r: Result<
        u32,
        IpccError,
    >)
        requires
            old(self).wf(),
        ensures
            final(self).wf(),
            final(self)@ == spec_finish_receive_simplex(old(self)@, core, channel),
            r == spec_finish_receive_simplex_result(old(self)@, core, channel),
    {
        let sender = peer(core);
        if self.channel_is_free(sender, channel) {
            Err(IpccError::InvalidState)
        } else {
            let i = dir_index(sender, channel);
            let data = self.payloads[i];
            self.release_direction(sender, channel);
            Ok(data)
        }
    }

    /// Issue a half-duplex request out of `core`. The protocol is a strict
    /// ping-pong: if the previous exchange is still in flight the call reports
    /// `ChannelBusy` and mutates nothing (the caller waits for on-free and
    /// retries). Otherwise the request is posted, the direction flips to
    /// `Occupied`, and on-free is unmasked so the requester is woken when the
    /// response lands.
    pub fn send_half_duplex(&mut self, core: Core, channel: IpccChannel, data: u32) -> (r: Result<
        (),
        IpccError,
    >)
        requires
            old(self).wf(),
        ensures
            final(self).wf(),
            final(self)@ == spec_send_half_duplex(old(self)@, core, channel, data),
            r == (if old(self)@.flag(core, channel) is Occupied {
                Result::<(), IpccError>::Err(IpccError::ChannelBusy)
            } else {
                Result::<(), IpccError>::Ok(())
            }),
    {
        if self.channel_is_free(core, channel) {
            self.post_payload(core, channel, data);
            self.masks.unmask(core, channel, MaskKind::OnFree);
            Ok(())
        } else {
            Err(IpccError::ChannelBusy)
        }
    }

    /// Answer a pending half-duplex request; `core` is the responder. If no
    /// request is pending on the peer-owned direction the call reports
    /// `InvalidState` and mutates nothing (the caller waits for on-occupied).
    /// Otherwise the response overwrites the shared slot, the direction flips
    /// back to `Free` (waking the requester if it unmasked on-free), and
    /// on-occupied is unmasked again to arm the next request.
    pub fn send_response_half_duplex(
        &mut self,
        core: Core,
        channel: IpccChannel,
        data: u32,
    ) -> (r: Result<(), IpccError>)
        requires
            old(self).wf(),
        ensures
            final(self).wf(),
            final(self)@ == spec_send_response_half_duplex(old(self)@, core, channel, data),
            r == (if old(self)@.flag(spec_peer(core), channel) is Free {
                Result::<(), IpccError>::Err(IpccError::InvalidState)
            } else {
                Result::<(), IpccError>::Ok(())
            }),
    {
        let owner = peer(core);
        if self.channel_is_free(owner, channel) {
            Err(IpccError::InvalidState)
        } else {
            let i = dir_index(owner, channel);
            self.payloads[i] = data;
            self.release_direction(owner, channel);
            self.masks.unmask(core, channel, MaskKind::OnOccupied);
            Ok(())
        }
    }

    /// Arm `core` for a half-duplex exchange on `channel`: unmask on-occupied
    /// (to see a request arrive) and on-free (to see a response arrive). Masks
    /// only; the data moves through `send_half_duplex`,
    /// `send_response_half_duplex` and `read_response_half_duplex`.
    pub fn receive_half_duplex(&mut self, core: Core, channel: IpccChannel)
        requires
            old(self).wf(),
        ensures
            final(self).wf(),
            final(self)@ == old(self)@.with_mask(core, channel, MaskKind::OnOccupied, true)
                .with_mask(core, channel, MaskKind::OnFree, true),
    {
        self.masks.unmask(core, channel, MaskKind::OnOccupied);
        self.masks.unmask(core, channel, MaskKind::OnFree);
    }

    /// Read the response to a half-duplex request issued by `core`: legal once
    /// the direction has returned to `Free` (the responder has posted its
    /// answer into the shared slot). While the request is still pending the
    /// call reports `InvalidState`. A pure read with no side effects.
    pub fn read_response_half_duplex(&self, core: Core, channel: IpccChannel) -> (r: Result<
        u32,
        IpccError,
    >)
        requires
            self.wf(),
        ensures
            r == (if self@.flag(core, channel) is Occupied {
                Result::<u32, IpccError>::Err(IpccError::InvalidState)
            } else {
                Result::<u32, IpccError>::Ok(self@.payload(core, channel))
            }),
    {
        if self.channel_is_free(core, channel) {
            let i = dir_index(core, channel);
            Ok(self.payloads[i])
        } else {
            Err(IpccError::InvalidState)
        }
    }

    /// Route a send to the discipline selected per call site.
    pub fn send(&mut self, mode: IpccMode, core: Core, channel: IpccChannel, data: u32) -> (r:
        Result<(), IpccError>)
        requires
            old(self).wf(),
        ensures
            final(self).wf(),
            final(self)@ == (match mode {
                IpccMode::Simplex => spec_send_simplex(old(self)@, core, channel, data),
                IpccMode::HalfDuplex => spec_send_half_duplex(old(self)@, core, channel, data),
            }),
            r == (if old(self)@.flag(core, channel) is Free {
                Result::<(), IpccError>::Ok(())
            } else {
                Result::<(), IpccError>::Err(IpccError::ChannelBusy)
            }),
    {
        match mode {
            IpccMode::Simplex => self.send_simplex(core, channel, data),
            IpccMode::HalfDuplex => self.send_half_duplex(core, channel, data),
        }
    }

    /// Route a receive preparation to the discipline selected per call site.
    pub fn receive(&mut self, mode: IpccMode, core: Core, channel: IpccChannel)
        requires
            old(self).wf(),
        ensures
            final(self).wf(),
            final(self)@ == (match mode {
                IpccMode::Simplex => old(self)@.with_mask(core, channel, MaskKind::OnOccupied, true),
                IpccMode::HalfDuplex => old(self)@.with_mask(
                    core,
                    channel,
                    MaskKind::OnOccupied,
                    true,
                ).with_mask(core, channel, MaskKind::OnFree, true),
            }),
    {
        match mode {
            IpccMode::Simplex => self.receive_simplex(core, channel),
            IpccMode::HalfDuplex => self.receive_half_duplex(core, channel),
        }
    }

    /// Disable the `kind` notification for `core` on `channel`. Idempotent;
    /// never touches a flag, a payload slot, another core's masks, or the
    /// latched notifications.
    pub fn mask(&mut self, core: Core, channel: IpccChannel, kind: MaskKind)
        requires
            old(self).wf(),
        ensures
            final(self).wf(),
            final(self)@ == old(self)@.with_mask(core, channel, kind, false),
    {
        self.masks.mask(core, channel, kind);
    }

    /// Enable the `kind` notification for `core` on `channel`. Idempotent;
    /// never touches a flag, a payload slot, another core's masks, or the
    /// latched notifications.
    pub fn unmask(&mut self, core: Core, channel: IpccChannel, kind: MaskKind)
        requires
            old(self).wf(),
        ensures
            final(self).wf(),
            final(self)@ == old(self)@.with_mask(core, channel, kind, true),
    {
        self.masks.unmask(core, channel, kind);
    }

    /// Whether `core` has the `kind` notification for `channel` enabled. A
    /// pure read with no side effects.
    pub fn is_unmasked(&self, core: Core, channel: IpccChannel, kind: MaskKind) -> (r: bool)
        requires
            self.wf(),
        ensures
            r == self@.unmasked(core, channel, kind),
    {
        self.masks.is_unmasked(core, channel, kind)
    }

    /// Collect one latched notification, newest first; `None` when nothing is
    /// latched. Collecting never touches flags, payload slots or masks.
    pub fn pop_notification(&mut self) -> (r: Option<Notification>)
        requires
            old(self).wf(),
        ensures
            final(self).wf(),
            old(self)@.pending.len() == 0 ==> r is None && final(self)@ == old(self)@,
            old(self)@.pending.len() > 0 ==> r == Some(old(self)@.pending.last())
                && final(self)@ == (IpccView {
                pending: old(self)@.pending.drop_last(),
                ..old(self)@
            }),
    {
        self.pending.pop()
    }
}

} // verus!
