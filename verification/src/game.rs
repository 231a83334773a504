//! Session-level game state and the local input sample: which phase the
//! session is in, the lobby roster entry for a player, and the four-key
//! movement input with its normalized signed axis values.

use vstd::prelude::*;
use crate::protocol::PlayerInputPacket;

verus! {

/// Phase of the session.
#[derive(Debug, Clone, Copy, PartialEq, Eq, Structural, Hash)]
pub enum GameState {
    Lobby,
    IntroScreen,
    Main,
    End,
}

impl Default for GameState {
    /// A session starts in the lobby.
    fn default() -> (r: Self)
        ensures
            r == GameState::Lobby,
    {
        GameState::Lobby
    }
}

/// How long a lobby stays open before the session moves on.
pub const LOBBY_COUNTDOWN_MILLIS: u64 = 50000;

/// The lobby-timer decision: once the lobby has been open longer than the
/// countdown and the session is still in the lobby, move to the intro
/// screen; otherwise stay put.
pub fn update_lobby_timer(state: &GameState, elapsed_millis: u64) -> (next: Option<GameState>)
    ensures
        next == if elapsed_millis > LOBBY_COUNTDOWN_MILLIS && *state == GameState::Lobby {
            Some(GameState::IntroScreen)
        } else {
            None::<GameState>
        },
{
    if elapsed_millis > LOBBY_COUNTDOWN_MILLIS && *state == GameState::Lobby {
        Some(GameState::IntroScreen)
    } else {
        None
    }
}

/// Role of a player.
#[derive(Debug, Clone, Copy, PartialEq, Eq, Structural)]
pub enum PlayerType {
    Crew,
    Impostor,
}

/// Whether a player is still in the game.
#[derive(Debug, Clone, Copy, PartialEq, Eq, Structural)]
pub enum PlayerState {
    Alive,
    Dead,
}

/// One player as session-level state sees it.
#[derive(Debug)]
pub struct Player {
    pub id: u16,
    pub name: String,
    pub pos: (i32, i32),
    pub player_type: PlayerType,
    pub state: PlayerState,
}

impl Player {
    /// A freshly joined player: crew, alive, at the origin.
    pub fn new(name: &str, id: u16) -> (r: Self)
        ensures
            r.id == id,
            r.name@ == name@,
            r.pos == (0i32, 0i32),
            r.player_type == PlayerType::Crew,
            r.state == PlayerState::Alive,
    {
        Self {
            id,
            name: name.to_owned(),
            pos: (0, 0),
            player_type: PlayerType::Crew,
            state: PlayerState::Alive,
        }
    }
}

/// A whole session: its players and its phase.
#[derive(Debug)]
pub struct Game {
    pub players: Vec<Player>,
    pub game_state: GameState,
}

impl Game {
    /// A fresh session: no players, in the lobby.
    pub fn new() -> (r: Self)
        ensures
            r.players@.len() == 0,
            r.game_state == GameState::Lobby,
    {
        Self { players: Vec::new(), game_state: GameState::Lobby }
    }
}

/// One of the four movement keys.
#[derive(Debug, Clone, Copy, PartialEq, Eq, Structural)]
pub enum MoveKey {
    Up,
    Down,
    Left,
    Right,
}

/// The local movement input as currently held keys. Opposite keys cancel
/// out; a single held key deflects its axis fully.
#[derive(Debug, Clone, Copy, PartialEq, Eq, Structural)]
pub struct PlayerInput {
    pub up: bool,
    pub down: bool,
    pub left: bool,
    pub right: bool,
}

impl Default for PlayerInput {
    /// No key held.
    fn default() -> (r: Self)
        ensures
            r == (PlayerInput { up: false, down: false, left: false, right: false }),
    {
        PlayerInput { up: false, down: false, left: false, right: false }
    }
}

impl PlayerInput {
    /// Normalized signed horizontal axis: left is full negative deflection,
    /// right full positive, both or neither zero.
    pub open spec fn x_axis(self) -> i16 {
        match (self.left, self.right) {
            (true, true) => 0,
            (true, false) => i16::MIN,
            (false, true) => i16::MAX,
            (false, false) => 0,
        }
    }

    /// Normalized signed vertical axis: up is full positive deflection,
    /// down full negative, both or neither zero.
    pub open spec fn y_axis(self) -> i16 {
        match (self.up, self.down) {
            (true, true) => 0,
            (true, false) => i16::MAX,
            (false, true) => i16::MIN,
            (false, false) => 0,
        }
    }

    pub fn x(&self) -> (r: i16)
        ensures
            r == self.x_axis(),
    {
        match (self.left, self.right) {
            (true, true) => 0,
            (true, false) => i16::MIN,
            (false, true) => i16::MAX,
            (false, false) => 0,
        }
    }

    pub fn y(&self) -> (r: i16)
        ensures
            r == self.y_axis(),
    {
        match (self.up, self.down) {
            (true, true) => 0,
            (true, false) => i16::MAX,
            (false, true) => i16::MIN,
            (false, false) => 0,
        }
    }

    /// The input sample for this tick: the current axis values under the
    /// given counter.
    pub fn to_player_input_packet(&self, counter: u16) -> (r: PlayerInputPacket)
        ensures
            r == (PlayerInputPacket { counter, x: self.x_axis(), y: self.y_axis() }),
    {
        PlayerInputPacket { counter, x: self.x(), y: self.y() }
    }

    /// Record a movement key going down or up.
    pub fn apply_key(&mut self, key: MoveKey, pressed: bool)
        ensures
            final(self).up == if key == MoveKey::Up {
                pressed
            } else {
                old(self).up
            },
            final(self).down == if key == MoveKey::Down {
                pressed
            } else {
                old(self).down
            },
            final(self).left == if key == MoveKey::Left {
                pressed
            } else {
                old(self).left
            },
            final(self).right == if key == MoveKey::Right {
                pressed
            } else {
                old(self).right
            },
    {
        match key {
            MoveKey::Up => self.up = pressed,
            MoveKey::Down => self.down = pressed,
            MoveKey::Left => self.left = pressed,
            MoveKey::Right => self.right = pressed,
        }
    }
}

} // verus!
