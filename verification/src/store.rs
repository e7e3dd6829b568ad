//! The two shared tables the protocol synchronises through: the flag store
//! (one occupancy bit per direction) and the mask store (two notification-mask
//! bits per core and channel). These expose only single-bit reads and writes;
//! there is no read-modify-write, so every caller must say explicitly which
//! half of the ownership-transfer rule it performs.

use vstd::prelude::*;

use crate::types::Core;
use crate::types::IpccChannel;
use crate::types::MaskKind;
use crate::types::Occupancy;
use crate::types::NUM_DIRECTIONS;
use crate::types::NUM_MASKS;
use crate::types::dir_idx;
use crate::types::dir_index;
use crate::types::mask_idx;
use crate::types::mask_index;

verus! {

/// The per-direction occupancy flags. Viewed as a sequence of `NUM_DIRECTIONS`
/// occupancy states, indexed by `dir_idx`.
pub struct FlagStore {
    bits: Vec<Occupancy>,
}

impl View for FlagStore {
    type V = Seq<Occupancy>;

    closed spec fn view(&self) -> Seq<Occupancy> {
        self.bits@
    }
}

impl FlagStore {
    pub open spec fn wf(&self) -> bool {
        self@.len() == NUM_DIRECTIONS as int
    }

    /// A cleared store: every direction starts `Free`.
    pub fn new() -> (s: Self)
        ensures
            s.wf(),
            forall|i: int| 0 <= i < NUM_DIRECTIONS as int ==> s@[i] == Occupancy::Free,
    {
        let mut bits: Vec<Occupancy> = Vec::new();
        while bits.len() < NUM_DIRECTIONS
            invariant
                bits@.len() <= NUM_DIRECTIONS as int,
                forall|i: int| 0 <= i < bits@.len() ==> bits@[i] == Occupancy::Free,
            decreases NUM_DIRECTIONS - bits.len(),
        {
            bits.push(Occupancy::Free);
        }
        FlagStore { bits }
    }

    /// Read one direction's occupancy. Both cores may read any flag.
    pub fn read(&self, core: Core, channel: IpccChannel) -> (r: Occupancy)
        requires
            self.wf(),
        ensures
            r == self@[dir_idx(core, channel)],
    {
        let i = dir_index(core, channel);
        self.bits[i]
    }

    /// Mark a direction occupied. Only the direction's sending core may do
    /// this, and only after posting the payload.
    pub fn set_occupied(&mut self, core: Core, channel: IpccChannel)
        requires
            old(self).wf(),
        ensures
            final(self).wf(),
            final(self)@ == old(self)@.update(dir_idx(core, channel), Occupancy::Occupied),
    {
        let i = dir_index(core, channel);
        self.bits[i] = Occupancy::Occupied;
    }

    /// Mark a direction free. Only the direction's receiving core may do this,
    /// and only after consuming the payload.
    pub fn set_free(&mut self, core: Core, channel: IpccChannel)
        requires
            old(self).wf(),
        ensures
            final(self).wf(),
            final(self)@ == old(self)@.update(dir_idx(core, channel), Occupancy::Free),
    {
        let i = dir_index(core, channel);
        self.bits[i] = Occupancy::Free;
    }
}

/// The per-core notification masks. Viewed as a sequence of `NUM_MASKS`
/// booleans indexed by `mask_idx`; `true` means unmasked (a matching flag
/// transition latches a notification for that core).
///
/// Masks are local to the observing core and purely advisory: they never gate
/// an occupancy transition, only whether the transition raises a wake-up.
pub struct MaskStore {
    bits: Vec<bool>,
}

impl View for MaskStore {
    type V = Seq<bool>;

    closed spec fn view(&self) -> Seq<bool> {
        self.bits@
    }
}

impl MaskStore {
    pub open spec fn wf(&self) -> bool {
        self@.len() == NUM_MASKS as int
    }

    /// A cleared store: every notification starts masked (disabled).
    pub fn new() -> (s: Self)
        ensures
            s.wf(),
            forall|i: int| 0 <= i < NUM_MASKS as int ==> s@[i] == false,
    {
        let mut bits: Vec<bool> = Vec::new();
        while bits.len() < NUM_MASKS
            invariant
                bits@.len() <= NUM_MASKS as int,
                forall|i: int| 0 <= i < bits@.len() ==> bits@[i] == false,
            decreases NUM_MASKS - bits.len(),
        {
            bits.push(false);
        }
        MaskStore { bits }
    }

    /// Disable the notification for `(core, channel, kind)`. Idempotent.
    pub fn mask(&mut self, core: Core, channel: IpccChannel, kind: MaskKind)
        requires
            old(self).wf(),
        ensures
            final(self).wf(),
            final(self)@ == old(self)@.update(mask_idx(core, channel, kind), false),
    {
        let i = mask_index(core, channel, kind);
        self.bits[i] = false;
    }

    /// Enable the notification for `(core, channel, kind)`. Idempotent.
    pub fn unmask(&mut self, core: Core, channel: IpccChannel, kind: MaskKind)
        requires
            old(self).wf(),
        ensures
            final(self).wf(),
            final(self)@ == old(self)@.update(mask_idx(core, channel, kind), true),
    {
        let i = mask_index(core, channel, kind);
        self.bits[i] = true;
    }

    /// Whether the notification for `(core, channel, kind)` is enabled.
    pub fn is_unmasked(&self, core: Core, channel: IpccChannel, kind: MaskKind) -> (r: bool)
        requires
            self.wf(),
        ensures
            r == self@[mask_idx(core, channel, kind)],
    {
        let i = mask_index(core, channel, kind);
        self.bits[i]
    }
}

} // verus!
