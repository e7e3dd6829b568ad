use ipcc::Core;
use ipcc::Ipcc;
use ipcc::IpccChannel;
use ipcc::IpccError;
use ipcc::IpccMode;
use ipcc::MaskKind;
use ipcc::Notification;

#[test]
fn new_controller_all_free_all_masked() {
    let mut ipcc = Ipcc::new();
    let cores = [Core::C1, Core::C2];
    let channels = [
        IpccChannel::C1,
        IpccChannel::C2,
        IpccChannel::C3,
        IpccChannel::C4,
        IpccChannel::C5,
        IpccChannel::C6,
    ];
    for &core in cores.iter() {
        for &channel in channels.iter() {
            assert!(ipcc.channel_is_free(core, channel));
            assert!(!ipcc.is_unmasked(core, channel, MaskKind::OnFree));
            assert!(!ipcc.is_unmasked(core, channel, MaskKind::OnOccupied));
        }
    }
    assert_eq!(ipcc.pop_notification(), None);
}

#[test]
fn simplex_round_trip_on_channel_three() {
    let mut ipcc = Ipcc::new();
    assert_eq!(ipcc.send_simplex(Core::C1, IpccChannel::C3, 0x42), Ok(()));
    assert!(!ipcc.channel_is_free(Core::C1, IpccChannel::C3));
    assert_eq!(ipcc.finish_receive_simplex(Core::C2, IpccChannel::C3), Ok(0x42));
    assert!(ipcc.channel_is_free(Core::C1, IpccChannel::C3));
}

#[test]
fn finish_receive_on_free_direction_is_invalid_state() {
    let mut ipcc = Ipcc::new();
    assert_eq!(
        ipcc.finish_receive_simplex(Core::C2, IpccChannel::C1),
        Err(IpccError::InvalidState)
    );
    // No mutation happened: the direction is still free and a send still works.
    assert!(ipcc.channel_is_free(Core::C1, IpccChannel::C1));
    assert_eq!(ipcc.pop_notification(), None);
    assert_eq!(ipcc.send_simplex(Core::C1, IpccChannel::C1, 5), Ok(()));
}

#[test]
fn send_on_occupied_direction_is_channel_busy() {
    let mut ipcc = Ipcc::new();
    assert_eq!(ipcc.send_simplex(Core::C1, IpccChannel::C2, 7), Ok(()));
    assert_eq!(
        ipcc.send_simplex(Core::C1, IpccChannel::C2, 9),
        Err(IpccError::ChannelBusy)
    );
    // The rejected send left the pending payload and the flag untouched.
    assert!(!ipcc.channel_is_free(Core::C1, IpccChannel::C2));
    assert_eq!(ipcc.finish_receive_simplex(Core::C2, IpccChannel::C2), Ok(7));
}

#[test]
fn half_duplex_request_response_cycle() {
    let mut ipcc = Ipcc::new();
    // Core 1 posts a request; the direction is occupied and the requester has
    // armed its on-free wake-up for the response.
    assert_eq!(ipcc.send_half_duplex(Core::C1, IpccChannel::C1, 1), Ok(()));
    assert!(!ipcc.channel_is_free(Core::C1, IpccChannel::C1));
    assert!(ipcc.is_unmasked(Core::C1, IpccChannel::C1, MaskKind::OnFree));
    // The response is not there yet.
    assert_eq!(
        ipcc.read_response_half_duplex(Core::C1, IpccChannel::C1),
        Err(IpccError::InvalidState)
    );
    // Core 2 answers; the direction returns to free and the responder re-arms
    // its on-occupied wake-up for the next request.
    assert_eq!(ipcc.send_response_half_duplex(Core::C2, IpccChannel::C1, 0), Ok(()));
    assert!(ipcc.channel_is_free(Core::C1, IpccChannel::C1));
    assert!(ipcc.is_unmasked(Core::C2, IpccChannel::C1, MaskKind::OnOccupied));
    // Core 1 reads the response.
    assert_eq!(ipcc.read_response_half_duplex(Core::C1, IpccChannel::C1), Ok(0));
}

#[test]
fn half_duplex_second_request_not_locked_out() {
    let mut ipcc = Ipcc::new();
    assert_eq!(ipcc.send_half_duplex(Core::C1, IpccChannel::C4, 10), Ok(()));
    assert_eq!(ipcc.send_response_half_duplex(Core::C2, IpccChannel::C4, 20), Ok(()));
    // The completed exchange leaves no residual lock-out: a second request is
    // accepted immediately.
    assert_eq!(ipcc.send_half_duplex(Core::C1, IpccChannel::C4, 30), Ok(()));
}

#[test]
fn half_duplex_request_while_in_flight_is_channel_busy() {
    let mut ipcc = Ipcc::new();
    assert_eq!(ipcc.send_half_duplex(Core::C1, IpccChannel::C5, 1), Ok(()));
    assert_eq!(
        ipcc.send_half_duplex(Core::C1, IpccChannel::C5, 2),
        Err(IpccError::ChannelBusy)
    );
}

#[test]
fn half_duplex_response_without_request_is_invalid_state() {
    let mut ipcc = Ipcc::new();
    assert_eq!(
        ipcc.send_response_half_duplex(Core::C2, IpccChannel::C6, 0),
        Err(IpccError::InvalidState)
    );
    // Nothing changed: the responder's masks were not touched either.
    assert!(!ipcc.is_unmasked(Core::C2, IpccChannel::C6, MaskKind::OnOccupied));
}

#[test]
fn mask_isolation_between_cores() {
    let mut ipcc = Ipcc::new();
    ipcc.unmask(Core::C1, IpccChannel::C2, MaskKind::OnFree);
    assert!(ipcc.is_unmasked(Core::C1, IpccChannel::C2, MaskKind::OnFree));
    // Core 2's notification state for the same channel is untouched.
    assert!(!ipcc.is_unmasked(Core::C2, IpccChannel::C2, MaskKind::OnFree));
    assert!(!ipcc.is_unmasked(Core::C2, IpccChannel::C2, MaskKind::OnOccupied));
    assert_eq!(ipcc.pop_notification(), None);
}

#[test]
fn mask_and_unmask_are_idempotent() {
    let mut ipcc = Ipcc::new();
    ipcc.unmask(Core::C1, IpccChannel::C3, MaskKind::OnOccupied);
    ipcc.unmask(Core::C1, IpccChannel::C3, MaskKind::OnOccupied);
    assert!(ipcc.is_unmasked(Core::C1, IpccChannel::C3, MaskKind::OnOccupied));
    ipcc.mask(Core::C1, IpccChannel::C3, MaskKind::OnOccupied);
    ipcc.mask(Core::C1, IpccChannel::C3, MaskKind::OnOccupied);
    assert!(!ipcc.is_unmasked(Core::C1, IpccChannel::C3, MaskKind::OnOccupied));
}

#[test]
fn unmasked_receiver_is_notified_on_post() {
    let mut ipcc = Ipcc::new();
    ipcc.receive_simplex(Core::C2, IpccChannel::C4);
    assert!(ipcc.is_unmasked(Core::C2, IpccChannel::C4, MaskKind::OnOccupied));
    assert_eq!(ipcc.send_simplex(Core::C1, IpccChannel::C4, 11), Ok(()));
    assert_eq!(
        ipcc.pop_notification(),
        Some(Notification { core: Core::C2, channel: IpccChannel::C4, kind: MaskKind::OnOccupied })
    );
    assert_eq!(ipcc.pop_notification(), None);
}

#[test]
fn masked_receiver_is_not_notified() {
    let mut ipcc = Ipcc::new();
    assert_eq!(ipcc.send_simplex(Core::C1, IpccChannel::C4, 11), Ok(()));
    assert_eq!(ipcc.pop_notification(), None);
}

#[test]
fn sender_is_notified_on_free_when_unmasked() {
    let mut ipcc = Ipcc::new();
    assert_eq!(ipcc.send_simplex(Core::C1, IpccChannel::C5, 3), Ok(()));
    ipcc.unmask(Core::C1, IpccChannel::C5, MaskKind::OnFree);
    assert_eq!(ipcc.finish_receive_simplex(Core::C2, IpccChannel::C5), Ok(3));
    assert_eq!(
        ipcc.pop_notification(),
        Some(Notification { core: Core::C1, channel: IpccChannel::C5, kind: MaskKind::OnFree })
    );
}

#[test]
fn send_routes_by_mode() {
    let mut ipcc = Ipcc::new();
    // Simplex routing: plain post, no mask change for the sender.
    assert_eq!(ipcc.send(IpccMode::Simplex, Core::C1, IpccChannel::C1, 21), Ok(()));
    assert!(!ipcc.is_unmasked(Core::C1, IpccChannel::C1, MaskKind::OnFree));
    assert_eq!(ipcc.finish_receive_simplex(Core::C2, IpccChannel::C1), Ok(21));
    // Half-duplex routing: the request also arms the requester's on-free mask.
    assert_eq!(ipcc.send(IpccMode::HalfDuplex, Core::C1, IpccChannel::C2, 22), Ok(()));
    assert!(ipcc.is_unmasked(Core::C1, IpccChannel::C2, MaskKind::OnFree));
}

#[test]
fn receive_routes_by_mode() {
    let mut ipcc = Ipcc::new();
    ipcc.receive(IpccMode::Simplex, Core::C2, IpccChannel::C3);
    assert!(ipcc.is_unmasked(Core::C2, IpccChannel::C3, MaskKind::OnOccupied));
    assert!(!ipcc.is_unmasked(Core::C2, IpccChannel::C3, MaskKind::OnFree));
    ipcc.receive(IpccMode::HalfDuplex, Core::C2, IpccChannel::C4);
    assert!(ipcc.is_unmasked(Core::C2, IpccChannel::C4, MaskKind::OnOccupied));
    assert!(ipcc.is_unmasked(Core::C2, IpccChannel::C4, MaskKind::OnFree));
}

#[test]
fn directions_are_independent_per_core_and_channel() {
    let mut ipcc = Ipcc::new();
    // Occupying core 1's direction on a channel leaves core 2's direction on
    // the same channel, and every other channel, free.
    assert_eq!(ipcc.send_simplex(Core::C1, IpccChannel::C6, 1), Ok(()));
    assert!(ipcc.channel_is_free(Core::C2, IpccChannel::C6));
    assert!(ipcc.channel_is_free(Core::C1, IpccChannel::C5));
    // Both directions of one channel can carry a payload at once.
    assert_eq!(ipcc.send_simplex(Core::C2, IpccChannel::C6, 2), Ok(()));
    assert_eq!(ipcc.finish_receive_simplex(Core::C2, IpccChannel::C6), Ok(1));
    assert_eq!(ipcc.finish_receive_simplex(Core::C1, IpccChannel::C6), Ok(2));
}

#[test]
fn occupancy_transitions_alternate() {
    let mut ipcc = Ipcc::new();
    // Free -> Occupied -> Free -> Occupied: each phase only admits its own
    // transition, so observed transitions strictly alternate.
    assert_eq!(ipcc.send_simplex(Core::C1, IpccChannel::C1, 1), Ok(()));
    assert_eq!(ipcc.send_simplex(Core::C1, IpccChannel::C1, 2), Err(IpccError::ChannelBusy));
    assert_eq!(ipcc.finish_receive_simplex(Core::C2, IpccChannel::C1), Ok(1));
    assert_eq!(
        ipcc.finish_receive_simplex(Core::C2, IpccChannel::C1),
        Err(IpccError::InvalidState)
    );
    assert_eq!(ipcc.send_simplex(Core::C1, IpccChannel::C1, 3), Ok(()));
}
