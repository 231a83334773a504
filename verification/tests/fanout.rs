use sus_core::dispatch::{resolve_destinations, OutgoingPacket, PacketDestination};
use sus_core::player::PeerAddr;
use sus_core::protocol::{ConnectAckPacket, DeliveryType, ServerToClient, GAME_STATE_STREAM};

fn addr(n: u16) -> PeerAddr {
    PeerAddr { ip: 0x0a00_0001, port: n }
}

#[test]
fn broadcast_to_all_except_excludes_exactly_the_sender() {
    // A roster containing the excluded address exactly once resolves to
    // roster size minus one sends, none addressed to it.
    let roster = vec![addr(1), addr(2), addr(3), addr(4)];
    let excluded = addr(3);
    let sends = resolve_destinations(&roster, &PacketDestination::BroadcastToAllExcept(excluded));
    assert_eq!(sends.len(), roster.len() - 1);
    assert!(sends.iter().all(|a| *a != excluded));
    assert_eq!(sends, vec![addr(1), addr(2), addr(4)]);
}

#[test]
fn broadcast_to_all_except_uses_address_equality() {
    // Exclusion compares by value: an equal address built separately is
    // still excluded.
    let roster = vec![addr(1), addr(2)];
    let same_as_two = PeerAddr { ip: 0x0a00_0001, port: 2 };
    let sends = resolve_destinations(&roster, &PacketDestination::BroadcastToAllExcept(same_as_two));
    assert_eq!(sends, vec![addr(1)]);
}

#[test]
fn single_resolves_to_one_send() {
    let roster = vec![addr(1), addr(2)];
    let sends = resolve_destinations(&roster, &PacketDestination::Single(addr(9)));
    assert_eq!(sends, vec![addr(9)]);
}

#[test]
fn broadcast_to_all_resolves_to_whole_roster() {
    let roster = vec![addr(1), addr(2), addr(3)];
    let sends = resolve_destinations(&roster, &PacketDestination::BroadcastToAll);
    assert_eq!(sends, roster);
}

#[test]
fn broadcast_to_set_resolves_to_the_set() {
    let roster = vec![addr(1), addr(2), addr(3)];
    let picked = vec![addr(3), addr(1)];
    let sends = resolve_destinations(&roster, &PacketDestination::BroadcastToSet(picked.clone()));
    assert_eq!(sends, picked);
}

#[test]
fn outgoing_packet_keeps_its_fields() {
    let p = OutgoingPacket::new(
        PacketDestination::Single(addr(1)),
        ServerToClient::ConnectAck(ConnectAckPacket { id: 3 }),
        DeliveryType::ReliableOrdered,
        Some(GAME_STATE_STREAM),
    );
    assert!(matches!(p.destination, PacketDestination::Single(a) if a == addr(1)));
    assert!(matches!(p.packet, ServerToClient::ConnectAck(ConnectAckPacket { id: 3 })));
    assert!(matches!(p.delivery_type, DeliveryType::ReliableOrdered));
    assert_eq!(p.stream_id, Some(GAME_STATE_STREAM));
}
