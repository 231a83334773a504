use sus_core::dispatch::{resolve_destinations, PacketDestination};
use sus_core::movement::Position;
use sus_core::player::PeerAddr;
use sus_core::protocol::{
    ClientToServer, ConnectPacket, DeliveryType, PlayerInputPacket, ServerToClient,
    GAME_STATE_STREAM,
};
use sus_core::server::{ServerState, MAX_PLAYERS};

fn addr(n: u16) -> PeerAddr {
    PeerAddr { ip: 0x7f00_0001, port: 9000 + n }
}

#[test]
fn end_to_end_two_clients_connect() {
    // A server at capacity 16 with no players yet.
    let mut server = ServerState::new(MAX_PLAYERS);

    // First client connects with version 0 and name "Brian".
    let out = server.handle_connect(addr(1), &ConnectPacket::new("Brian"));
    assert_eq!(out.len(), 3);

    match &out[0].packet {
        ServerToClient::ConnectAck(ack) => assert_eq!(ack.id, 0),
        other => panic!("expected ConnectAck, got {:?}", other),
    }
    assert!(matches!(out[0].destination, PacketDestination::Single(a) if a == addr(1)));
    assert!(matches!(out[0].delivery_type, DeliveryType::ReliableOrdered));
    assert_eq!(out[0].stream_id, Some(GAME_STATE_STREAM));

    match &out[1].packet {
        ServerToClient::FullGameState(fgs) => assert!(fgs.players.is_empty()),
        other => panic!("expected FullGameState, got {:?}", other),
    }
    assert!(matches!(out[1].destination, PacketDestination::Single(a) if a == addr(1)));

    // The NewPlayer broadcast resolves to no sends: no other peers exist.
    let roster: Vec<PeerAddr> = vec![addr(1)];
    match &out[2].destination {
        PacketDestination::BroadcastToAllExcept(x) => {
            assert_eq!(*x, addr(1));
            let sends = resolve_destinations(&roster, &out[2].destination);
            assert!(sends.is_empty());
        },
        other => panic!("expected BroadcastToAllExcept, got {:?}", other),
    }

    // Second client connects.
    let out2 = server.handle_connect(addr(2), &ConnectPacket::new("Pat"));
    assert_eq!(out2.len(), 3);

    match &out2[0].packet {
        ServerToClient::ConnectAck(ack) => assert_eq!(ack.id, 1),
        other => panic!("expected ConnectAck, got {:?}", other),
    }
    match &out2[1].packet {
        ServerToClient::FullGameState(fgs) => {
            assert_eq!(fgs.players.len(), 1);
            assert_eq!(fgs.players[0].id, 0);
            assert_eq!(fgs.players[0].name, "Brian");
        },
        other => panic!("expected FullGameState, got {:?}", other),
    }
    // The first client, and only it, receives the NewPlayer broadcast.
    match &out2[2].packet {
        ServerToClient::NewPlayer(np) => {
            assert_eq!(np.id, 1);
            assert_eq!(np.name, "Pat");
        },
        other => panic!("expected NewPlayer, got {:?}", other),
    }
    let roster: Vec<PeerAddr> = vec![addr(1), addr(2)];
    let sends = resolve_destinations(&roster, &out2[2].destination);
    assert_eq!(sends, vec![addr(1)]);
}

#[test]
fn connect_rejected_at_capacity() {
    let mut server = ServerState::new(2);
    assert_eq!(server.handle_connect(addr(1), &ConnectPacket::new("a")).len(), 3);
    assert_eq!(server.handle_connect(addr(2), &ConnectPacket::new("b")).len(), 3);
    // Full: the third connect gets no reply and no player slot.
    let out = server.handle_connect(addr(3), &ConnectPacket::new("c"));
    assert!(out.is_empty());
    assert_eq!(server.players.len(), 2);
}

#[test]
fn connect_rejected_on_version_mismatch() {
    let mut server = ServerState::new(MAX_PLAYERS);
    let mut connect = ConnectPacket::new("future");
    connect.version = 1;
    let out = server.handle_connect(addr(1), &connect);
    assert!(out.is_empty());
    assert!(server.players.is_empty());
}

#[test]
fn connect_rejected_for_registered_address() {
    let mut server = ServerState::new(MAX_PLAYERS);
    assert_eq!(server.handle_connect(addr(1), &ConnectPacket::new("a")).len(), 3);
    let out = server.handle_connect(addr(1), &ConnectPacket::new("again"));
    assert!(out.is_empty());
    assert_eq!(server.players.len(), 1);
}

#[test]
fn fresh_input_moves_player_on_tick() {
    let mut server = ServerState::new(MAX_PLAYERS);
    server.handle_connect(addr(1), &ConnectPacket::new("mover"));

    // Counter 1 is sequentially greater than the initial 0, so it applies.
    server.handle_input(addr(1), PlayerInputPacket::new(1, 300, -70));
    server.tick();

    let p = &server.players[0];
    assert_eq!(p.position, Position { x: 300, y: -70 });
    assert_eq!(p.last_input_counter.0, 1);
    assert_eq!(p.position_history.0, vec![Position { x: 0, y: 0 }]);
    assert!(p.unprocessed_inputs.0.is_empty());
}

#[test]
fn stale_input_is_discarded_without_movement() {
    let mut server = ServerState::new(MAX_PLAYERS);
    server.handle_connect(addr(1), &ConnectPacket::new("mover"));
    server.handle_input(addr(1), PlayerInputPacket::new(5, 100, 100));
    server.tick();
    let pos_after = server.players[0].position;
    assert_eq!(server.players[0].last_input_counter.0, 5);

    // A replayed input with an already-applied counter must change nothing.
    server.handle_input(addr(1), PlayerInputPacket::new(5, 9999, 9999));
    server.tick();
    assert_eq!(server.players[0].position, pos_after);
    assert_eq!(server.players[0].last_input_counter.0, 5);
    // The stale entry was still consumed from the queue.
    assert!(server.players[0].unprocessed_inputs.0.is_empty());

    // The very first input a client sends carries counter 0, which is not
    // sequentially greater than the initial counter 0: it is dropped too.
    let mut server2 = ServerState::new(MAX_PLAYERS);
    server2.handle_connect(addr(2), &ConnectPacket::new("zero"));
    server2.handle_input(addr(2), PlayerInputPacket::new(0, 50, 50));
    server2.tick();
    assert_eq!(server2.players[0].position, Position { x: 0, y: 0 });
}

#[test]
fn at_most_one_input_applied_per_tick() {
    let mut server = ServerState::new(MAX_PLAYERS);
    server.handle_connect(addr(1), &ConnectPacket::new("burst"));
    server.handle_input(addr(1), PlayerInputPacket::new(1, 10, 0));
    server.handle_input(addr(1), PlayerInputPacket::new(2, 10, 0));
    server.handle_input(addr(1), PlayerInputPacket::new(3, 10, 0));

    server.tick();
    assert_eq!(server.players[0].position, Position { x: 10, y: 0 });
    assert_eq!(server.players[0].unprocessed_inputs.0.len(), 2);

    server.tick();
    assert_eq!(server.players[0].position, Position { x: 20, y: 0 });

    server.tick();
    assert_eq!(server.players[0].position, Position { x: 30, y: 0 });
    assert_eq!(server.players[0].last_input_counter.0, 3);
}

#[test]
fn input_from_unknown_address_is_dropped() {
    let mut server = ServerState::new(MAX_PLAYERS);
    server.handle_connect(addr(1), &ConnectPacket::new("known"));
    server.handle_input(addr(9), PlayerInputPacket::new(1, 100, 100));
    server.tick();
    assert_eq!(server.players[0].position, Position { x: 0, y: 0 });
}

#[test]
fn handle_message_routes_connect_and_input() {
    let mut server = ServerState::new(MAX_PLAYERS);
    let out = server.handle_message(addr(1), &ClientToServer::Connect(ConnectPacket::new("via")));
    assert_eq!(out.len(), 3);
    let out = server.handle_message(
        addr(1),
        &ClientToServer::PlayerInput(PlayerInputPacket::new(1, 4, 4)),
    );
    assert!(out.is_empty());
    assert_eq!(server.players[0].unprocessed_inputs.0.len(), 1);
}

#[test]
fn snapshots_are_personalized_and_clear_history() {
    let mut server = ServerState::new(MAX_PLAYERS);
    server.handle_connect(addr(1), &ConnectPacket::new("a"));
    server.handle_connect(addr(2), &ConnectPacket::new("b"));

    // Only player a has an applied input.
    server.handle_input(addr(1), PlayerInputPacket::new(7, 12, 0));
    server.tick();

    let out = server.snapshots();
    assert_eq!(out.len(), 2);

    for (i, pkt) in out.iter().enumerate() {
        let expected_addr = if i == 0 { addr(1) } else { addr(2) };
        assert!(matches!(pkt.destination, PacketDestination::Single(a) if a == expected_addr));
        assert!(matches!(pkt.delivery_type, DeliveryType::UnreliableSequenced));
        assert_eq!(pkt.stream_id, Some(GAME_STATE_STREAM));
        match &pkt.packet {
            ServerToClient::LobbyTick(lt) => {
                // The ack counter is receiver-specific.
                assert_eq!(lt.last_input_counter, if i == 0 { 7 } else { 0 });
                // Every snapshot carries the whole roster.
                assert_eq!(lt.players.len(), 2);
                assert_eq!(lt.players[0].id, 0);
                assert_eq!(lt.players[0].pos, Position { x: 12, y: 0 });
                assert_eq!(lt.players[0].pos_history, vec![Position { x: 0, y: 0 }]);
                assert_eq!(lt.players[1].id, 1);
                assert_eq!(lt.players[1].pos, Position { x: 0, y: 0 });
                assert!(lt.players[1].pos_history.is_empty());
            },
            other => panic!("expected LobbyTick, got {:?}", other),
        }
    }

    // Histories are cleared right after being serialized into a snapshot.
    assert!(server.players[0].position_history.0.is_empty());
    assert!(server.players[1].position_history.0.is_empty());
}

#[test]
fn disconnect_removes_player_and_frees_routing() {
    let mut server = ServerState::new(MAX_PLAYERS);
    server.handle_connect(addr(1), &ConnectPacket::new("a"));
    server.handle_connect(addr(2), &ConnectPacket::new("b"));

    server.handle_disconnect(addr(1));
    assert_eq!(server.players.len(), 1);
    assert_eq!(server.players[0].name.0, "b");

    // Ids are never reused: a reconnect gets a fresh id.
    let out = server.handle_connect(addr(1), &ConnectPacket::new("a2"));
    match &out[0].packet {
        ServerToClient::ConnectAck(ack) => assert_eq!(ack.id, 2),
        other => panic!("expected ConnectAck, got {:?}", other),
    }

    // Disconnecting an unknown address is a no-op.
    server.handle_disconnect(addr(9));
    assert_eq!(server.players.len(), 2);
}
