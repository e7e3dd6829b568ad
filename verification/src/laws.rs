//! The protocol's global guarantees, stated and proved over the spec-level
//! transition functions that the controller's contracts use: strict
//! alternation of occupancy transitions, the simplex round trip, the
//! half-duplex cycle with no residual lock-out, and mask isolation.

use vstd::prelude::*;

use crate::types::Core;
use crate::types::IpccChannel;
use crate::types::IpccError;
use crate::types::MaskKind;
use crate::types::Occupancy;
use crate::types::spec_peer;
use crate::types::lemma_dir_idx_injective;
use crate::types::lemma_mask_idx_injective;
use crate::controller::IpccView;
use crate::controller::spec_send_simplex;
use crate::controller::spec_finish_receive_simplex;
use crate::controller::spec_finish_receive_simplex_result;
use crate::controller::spec_send_half_duplex;
use crate::controller::spec_send_response_half_duplex;

verus! {

/// Occupancy is two-valued, so consecutive transitions on one direction
/// strictly alternate: a transition away from `a` and then away from `b` must
/// go `Free -> Occupied -> Free` or `Occupied -> Free -> Occupied`; two
/// consecutive transitions can never be in the same direction.
pub proof fn lemma_transitions_alternate(a: Occupancy, b: Occupancy, c: Occupancy)
    requires
        a != b,
        b != c,
    ensures
        c == a,
        (a is Free && b is Occupied && c is Free) || (a is Occupied && b is Free && c is Occupied),
{
}

/// A simplex send changes no direction's occupancy except, when it succeeds,
/// the sender's own, and only by the transition `Free -> Occupied`. This is
/// the sender's half of the ownership-transfer rule: no operation ever
/// re-posts an occupied direction.
pub proof fn lemma_send_simplex_flips(
    v: IpccView,
    core: Core,
    channel: IpccChannel,
    data: u32,
    oc: Core,
    och: IpccChannel,
)
    requires
        v.wf(),
    ensures
        ({
            let w = spec_send_simplex(v, core, channel, data);
            w.flag(oc, och) != v.flag(oc, och) ==> oc == core && och == channel && v.flag(
                oc,
                och,
            ) is Free && w.flag(oc, och) is Occupied
        }),
{
    lemma_dir_idx_injective(core, channel, oc, och);
}

/// Finishing a simplex receive changes no direction's occupancy except, when
/// a payload was pending, the watched one, and only by `Occupied -> Free`.
/// This is the receiver's half of the ownership-transfer rule: no operation
/// ever re-frees a free direction.
pub proof fn lemma_finish_receive_simplex_flips(
    v: IpccView,
    core: Core,
    channel: IpccChannel,
    oc: Core,
    och: IpccChannel,
)
    requires
        v.wf(),
    ensures
        ({
            let w = spec_finish_receive_simplex(v, core, channel);
            w.flag(oc, och) != v.flag(oc, och) ==> oc == spec_peer(core) && och == channel
                && v.flag(oc, och) is Occupied && w.flag(oc, och) is Free
        }),
{
    lemma_dir_idx_injective(spec_peer(core), channel, oc, och);
}

/// A half-duplex request changes no direction's occupancy except, when it is
/// accepted, the requester's own, and only by `Free -> Occupied`.
pub proof fn lemma_send_half_duplex_flips(
    v: IpccView,
    core: Core,
    channel: IpccChannel,
    data: u32,
    oc: Core,
    och: IpccChannel,
)
    requires
        v.wf(),
    ensures
        ({
            let w = spec_send_half_duplex(v, core, channel, data);
            w.flag(oc, och) != v.flag(oc, och) ==> oc == core && och == channel && v.flag(
                oc,
                och,
            ) is Free && w.flag(oc, och) is Occupied
        }),
{
    lemma_dir_idx_injective(core, channel, oc, och);
}

/// A half-duplex response changes no direction's occupancy except, when a
/// request was pending, the requester-owned one, and only by
/// `Occupied -> Free`.
pub proof fn lemma_send_response_half_duplex_flips(
    v: IpccView,
    core: Core,
    channel: IpccChannel,
    data: u32,
    oc: Core,
    och: IpccChannel,
)
    requires
        v.wf(),
    ensures
        ({
            let w = spec_send_response_half_duplex(v, core, channel, data);
            w.flag(oc, och) != v.flag(oc, och) ==> oc == spec_peer(core) && och == channel
                && v.flag(oc, och) is Occupied && w.flag(oc, och) is Free
        }),
{
    lemma_dir_idx_injective(spec_peer(core), channel, oc, och);
}

/// Round trip: for every payload, a simplex send on a free direction followed
/// by the peer's finish-receive yields exactly that payload, and the direction
/// is back to `Free`.
pub proof fn lemma_simplex_round_trip(v: IpccView, core: Core, channel: IpccChannel, data: u32)
    requires
        v.wf(),
        v.flag(core, channel) is Free,
    ensures
        ({
            let v1 = spec_send_simplex(v, core, channel, data);
            let v2 = spec_finish_receive_simplex(v1, spec_peer(core), channel);
            &&& v1.flag(core, channel) is Occupied
            &&& spec_finish_receive_simplex_result(v1, spec_peer(core), channel) == Result::<
                u32,
                IpccError,
            >::Ok(data)
            &&& v2.flag(core, channel) is Free
        }),
{
}

/// Half-duplex cycle: a request on a free direction is accepted, the response
/// completes the cycle (the requester's follow-up read sees the response
/// payload and the direction is `Free` again), and a second request is then
/// accepted immediately — the first exchange leaves no residual lock-out.
pub proof fn lemma_half_duplex_cycle(
    v: IpccView,
    core: Core,
    channel: IpccChannel,
    p1: u32,
    p2: u32,
    p3: u32,
)
    requires
        v.wf(),
        v.flag(core, channel) is Free,
    ensures
        ({
            let v1 = spec_send_half_duplex(v, core, channel, p1);
            let v2 = spec_send_response_half_duplex(v1, spec_peer(core), channel, p2);
            let v3 = spec_send_half_duplex(v2, core, channel, p3);
            &&& v1.flag(core, channel) is Occupied
            &&& v1.payload(core, channel) == p1
            &&& v2.flag(core, channel) is Free
            &&& v2.payload(core, channel) == p2
            &&& v3.flag(core, channel) is Occupied
            &&& v3.payload(core, channel) == p3
        }),
{
}

/// Mask isolation: setting one core's mask bit for a channel never affects
/// the other core's masks for any channel or kind, nor any occupancy flag,
/// payload slot, or latched notification.
pub proof fn lemma_mask_isolation(
    v: IpccView,
    core: Core,
    channel: IpccChannel,
    kind: MaskKind,
    enabled: bool,
    oc: Core,
    och: IpccChannel,
    ok: MaskKind,
)
    requires
        v.wf(),
        oc != core,
    ensures
        ({
            let w = v.with_mask(core, channel, kind, enabled);
            &&& w.unmasked(oc, och, ok) == v.unmasked(oc, och, ok)
            &&& w.flags == v.flags
            &&& w.payloads == v.payloads
            &&& w.pending == v.pending
        }),
{
    lemma_mask_idx_injective(core, channel, kind, oc, och, ok);
}

/// Masking and unmasking are idempotent: setting the same mask bit to the
/// same value twice is the same as setting it once.
pub proof fn lemma_with_mask_idempotent(
    v: IpccView,
    core: Core,
    channel: IpccChannel,
    kind: MaskKind,
    enabled: bool,
)
    requires
        v.wf(),
    ensures
        v.with_mask(core, channel, kind, enabled).with_mask(core, channel, kind, enabled)
            == v.with_mask(core, channel, kind, enabled),
{
    let once = v.with_mask(core, channel, kind, enabled);
    let twice = once.with_mask(core, channel, kind, enabled);
    assert(twice.masks =~= once.masks);
    assert(twice =~= once);
}

} // verus!
