//! The message catalog exchanged between client and server, and the
//! delivery-channel tags (reliability class and logical stream) that each
//! message family is sent with.

use vstd::prelude::*;
use crate::movement::Position;

verus! {

/// Protocol version carried in every `Connect`; a server rejects a client
/// whose version differs.
pub const GAME_VERSION: u32 = 0;

/// Logical stream for player input traffic.
pub const INPUT_STREAM: u8 = 0;

/// Logical stream for game-state traffic (acks, rosters, snapshots).
pub const GAME_STATE_STREAM: u8 = 1;

/// Logical stream reserved for chat traffic.
pub const CHAT_STREAM: u8 = 2;

/// Logical stream reserved for voice traffic.
pub const VOICE_STREAM: u8 = 3;

/// Reliability/ordering contract a message is handed to the transport with.
#[derive(Debug, Copy, Clone, PartialEq, Eq, Structural)]
pub enum DeliveryType {
    ReliableOrdered,
    ReliableSequenced,
    ReliableUnordered,
    Unreliable,
    UnreliableSequenced,
}

/// Server-to-client message catalog.
#[derive(Debug, Clone)]
pub enum ServerToClient {
    ConnectAck(ConnectAckPacket),
    NewPlayer(NewPlayerPacket),
    FullGameState(FullGameStatePacket),
    LobbyTick(LobbyTickPacket),
}

/// Client-to-server message catalog.
#[derive(Debug, Clone)]
pub enum ClientToServer {
    Connect(ConnectPacket),
    PlayerInput(PlayerInputPacket),
}

/// Reply to a successful connect, carrying the id the server assigned.
#[derive(Debug, Clone, Copy, PartialEq, Eq, Structural)]
pub struct ConnectAckPacket {
    pub id: u16,
}

/// Broadcast when a peer joins, and listed in `FullGameStatePacket`.
#[derive(Debug, Clone)]
pub struct NewPlayerPacket {
    pub name: String,
    pub id: u16,
}

impl NewPlayerPacket {
    pub fn new(name: String, id: u16) -> (r: Self)
        ensures
            r.name == name,
            r.id == id,
    {
        Self { name, id }
    }
}

/// Sent once to a newly connected client so it can materialize every player
/// that joined before it. Players cannot join a session in progress, so the
/// lobby roster is all it needs.
#[derive(Debug, Clone)]
pub struct FullGameStatePacket {
    pub players: Vec<NewPlayerPacket>,
}

impl FullGameStatePacket {
    pub fn new(players: Vec<NewPlayerPacket>) -> (r: Self)
        ensures
            r.players == players,
    {
        Self { players }
    }
}

/// Sent from the server to every player after every lobby network tick.
/// `last_input_counter` is specific to the receiving player: it is the
/// highest input counter the server has applied for that player.
#[derive(Debug, Clone)]
pub struct LobbyTickPacket {
    pub last_input_counter: u16,
    pub players: Vec<LobbyPlayer>,
}

/// One roster entry of a `LobbyTickPacket`: a player's current authoritative
/// position and the positions it passed through since the last snapshot.
#[derive(Debug, Clone)]
pub struct LobbyPlayer {
    pub id: u16,
    pub pos: Position,
    pub pos_history: Vec<Position>,
}

/// First message a client sends; nothing else is accepted from an address
/// before it.
#[derive(Debug, Clone)]
pub struct ConnectPacket {
    pub version: u32,
    pub name: String,
}

impl ConnectPacket {
    pub fn new(name: &str) -> (r: Self)
        ensures
            r.version == GAME_VERSION,
            r.name@ == name@,
    {
        Self { version: GAME_VERSION, name: name.to_owned() }
    }
}

/// One discrete input sample: the client-local wrapping counter and the
/// signed 16-bit normalized axis values.
#[derive(Debug, Clone, Copy, PartialEq, Eq, Structural)]
pub struct PlayerInputPacket {
    pub counter: u16,
    pub x: i16,
    pub y: i16,
}

impl PlayerInputPacket {
    pub fn new(counter: u16, x: i16, y: i16) -> (r: Self)
        ensures
            r == (PlayerInputPacket { counter, x, y }),
    {
        Self { counter, x, y }
    }
}

} // verus!
