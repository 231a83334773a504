use sus_core::client::{connect_message, ClientState};
use sus_core::game::PlayerInput;
use sus_core::movement::Position;
use sus_core::protocol::{
    ClientToServer, ConnectAckPacket, DeliveryType, FullGameStatePacket, LobbyPlayer,
    LobbyTickPacket, NewPlayerPacket, PlayerInputPacket, INPUT_STREAM,
};

fn input_right() -> PlayerInput {
    PlayerInput { up: false, down: false, left: false, right: true }
}

#[test]
fn connect_message_carries_version_and_name() {
    let out = connect_message("Brian");
    match &out.packet {
        ClientToServer::Connect(cp) => {
            assert_eq!(cp.version, 0);
            assert_eq!(cp.name, "Brian");
        },
        other => panic!("expected Connect, got {:?}", other),
    }
    assert!(matches!(out.delivery_type, DeliveryType::ReliableOrdered));
    assert_eq!(out.stream_id, None);
}

#[test]
fn send_input_queues_and_advances_counter() {
    let mut client = ClientState::new();
    let out = client.send_input_to_server(&input_right());
    match &out.packet {
        ClientToServer::PlayerInput(p) => {
            assert_eq!(p.counter, 0);
            assert_eq!(p.x, i16::MAX);
            assert_eq!(p.y, 0);
        },
        other => panic!("expected PlayerInput, got {:?}", other),
    }
    assert!(matches!(out.delivery_type, DeliveryType::UnreliableSequenced));
    assert_eq!(out.stream_id, Some(INPUT_STREAM));
    assert_eq!(client.input_counter.0, 1);
    assert_eq!(client.unprocessed_inputs.0.len(), 1);
}

#[test]
fn input_counter_wraps_around() {
    let mut client = ClientState::new();
    client.input_counter.0 = u16::MAX;
    let out = client.send_input_to_server(&input_right());
    match &out.packet {
        ClientToServer::PlayerInput(p) => assert_eq!(p.counter, u16::MAX),
        other => panic!("expected PlayerInput, got {:?}", other),
    }
    assert_eq!(client.input_counter.0, 0);
}

#[test]
fn input_packets_held_back_until_connected() {
    let mut client = ClientState::new();
    let input_out = client.send_input_to_server(&input_right());
    assert!(!client.should_send(&input_out));
    // Critical traffic is not gated.
    assert!(client.should_send(&connect_message("Brian")));

    client.handle_connect_ack(&ConnectAckPacket { id: 0 }, "Brian");
    assert!(client.should_send(&input_out));
}

#[test]
fn connect_ack_materializes_own_player() {
    let mut client = ClientState::new();
    client.handle_connect_ack(&ConnectAckPacket { id: 4 }, "Brian");
    assert!(client.connected);
    assert_eq!(client.my_player_id.0, Some(4));
    assert_eq!(client.players.len(), 1);
    assert_eq!(client.players[0].id.0, 4);
    assert_eq!(client.players[0].name.0, "Brian");
    assert_eq!(client.players[0].position, Position { x: 0, y: 0 });
}

#[test]
fn full_game_state_materializes_roster() {
    let mut client = ClientState::new();
    client.handle_connect_ack(&ConnectAckPacket { id: 2 }, "me");
    client.handle_full_game_state(&FullGameStatePacket::new(vec![
        NewPlayerPacket::new("a".to_string(), 0),
        NewPlayerPacket::new("b".to_string(), 1),
        // An id the client already knows is not spawned twice.
        NewPlayerPacket::new("me-again".to_string(), 2),
    ]));
    assert_eq!(client.players.len(), 3);
    assert_eq!(client.players[0].name.0, "me");
    assert_eq!(client.players[1].name.0, "a");
    assert_eq!(client.players[2].name.0, "b");
}

#[test]
fn new_player_announcement_spawns_once() {
    let mut client = ClientState::new();
    client.new_player_joined(&NewPlayerPacket::new("peer".to_string(), 7));
    client.new_player_joined(&NewPlayerPacket::new("peer".to_string(), 7));
    assert_eq!(client.players.len(), 1);
    assert_eq!(client.players[0].id.0, 7);
}

#[test]
fn prediction_moves_own_player_immediately() {
    let mut client = ClientState::new();
    client.handle_connect_ack(&ConnectAckPacket { id: 0 }, "me");
    client.new_player_joined(&NewPlayerPacket::new("peer".to_string(), 1));

    client.update_game(&input_right());
    assert_eq!(client.players[0].position, Position { x: i16::MAX as i64, y: 0 });
    // Remote players are never predicted.
    assert_eq!(client.players[1].position, Position { x: 0, y: 0 });
}

#[test]
fn lobby_tick_sets_positions_and_replays_unacknowledged() {
    let mut client = ClientState::new();
    client.handle_connect_ack(&ConnectAckPacket { id: 0 }, "me");
    client.new_player_joined(&NewPlayerPacket::new("peer".to_string(), 1));

    // Predict and queue three inputs: counters 0, 1, 2, each one full step
    // to the right.
    for _ in 0..3 {
        client.update_game(&input_right());
        client.send_input_to_server(&input_right());
    }
    let step = i16::MAX as i64;
    assert_eq!(client.players[0].position, Position { x: 3 * step, y: 0 });

    // The server has applied counter 1 and reports our authoritative
    // position after counters 0 (dropped: not sequentially fresh) and 1.
    let tick = LobbyTickPacket {
        last_input_counter: 1,
        players: vec![
            LobbyPlayer { id: 0, pos: Position { x: step, y: 0 }, pos_history: vec![] },
            LobbyPlayer { id: 1, pos: Position { x: -5, y: 9 }, pos_history: vec![] },
        ],
    };
    client.handle_lobby_tick(&tick);

    // Counters 0 and 1 are trimmed; counter 2 is replayed on top of the
    // authoritative correction.
    assert_eq!(client.unprocessed_inputs.0.len(), 1);
    assert_eq!(client.unprocessed_inputs.0[0].counter, 2);
    assert_eq!(client.players[0].position, Position { x: 2 * step, y: 0 });
    // Remote players show the last known server state, unreplayed.
    assert_eq!(client.players[1].position, Position { x: -5, y: 9 });
}

#[test]
fn reconciliation_matches_continuous_prediction() {
    // Continuous prediction of all inputs from the starting position...
    let start = Position { x: 100, y: 200 };
    let inputs: Vec<PlayerInputPacket> = (0..8u16)
        .map(|i| PlayerInputPacket::new(i, (i as i16) * 10, 5 - (i as i16)))
        .collect();
    let mut predicted = start;
    for p in &inputs {
        predicted = predicted.step(p.x, p.y);
    }

    // ...equals resetting to the authoritative position after the first k
    // inputs and replaying the rest, for every split point.
    for k in 0..=inputs.len() {
        let mut authoritative = start;
        for p in &inputs[..k] {
            authoritative = authoritative.step(p.x, p.y);
        }
        let mut reconciled = authoritative;
        for p in &inputs[k..] {
            reconciled = reconciled.step(p.x, p.y);
        }
        assert_eq!(reconciled, predicted, "split at {}", k);
    }
}

#[test]
fn lobby_tick_for_unknown_player_changes_nothing() {
    let mut client = ClientState::new();
    client.handle_connect_ack(&ConnectAckPacket { id: 0 }, "me");
    let tick = LobbyTickPacket {
        last_input_counter: 0,
        players: vec![LobbyPlayer { id: 42, pos: Position { x: 1, y: 1 }, pos_history: vec![] }],
    };
    client.handle_lobby_tick(&tick);
    assert_eq!(client.players[0].position, Position { x: 0, y: 0 });
}
