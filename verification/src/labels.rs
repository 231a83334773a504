//! Marker types naming the scheduler's system sets: the network step, the
//! lobby simulation step, the main game logic and the render step. The
//! scheduler that orders systems by these labels lives outside this
//! library; the markers are shared so both sides name the same sets.

use vstd::prelude::*;

verus! {

/// The network receive/send systems.
#[derive(Debug, Clone, Copy, PartialEq, Eq, Structural, Hash)]
pub struct Network;

/// The lobby simulation systems.
#[derive(Debug, Clone, Copy, PartialEq, Eq, Structural, Hash)]
pub struct Lobby;

/// The main per-tick game logic.
#[derive(Debug, Clone, Copy, PartialEq, Eq, Structural, Hash)]
pub struct MainLogic;

/// The render systems.
#[derive(Debug, Clone, Copy, PartialEq, Eq, Structural, Hash)]
pub struct Render;

/// The individual phases of the network step, in tick order: drain inbound
/// events, route player input, send queued packets.
#[derive(Debug, Clone, Copy, PartialEq, Eq, Structural, Hash)]
pub enum NetworkSystem {
    Receive,
    PlayerInput,
    SendPackets,
}

} // verus!
