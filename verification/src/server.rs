//! Server authoritative state: the lobby roster and the fixed-tick
//! simulation over it. Per tick the server consumes at most one queued
//! input per player (bounded catch-up), applies it only if its counter is
//! sequentially fresh, records position history, and emits one personalized
//! snapshot per player.

use vstd::prelude::*;
use crate::dispatch::{OutgoingPacket, PacketDestination};
use crate::movement::{stepped, Position};
use crate::player::{
    LastInputCounter, PeerAddr, PlayerId, PlayerName, PlayerNetworkAddr, PositionHistory,
    UnprocessedInputs,
};
use crate::protocol::{
    ClientToServer, ConnectAckPacket, ConnectPacket, DeliveryType, FullGameStatePacket,
    LobbyPlayer, LobbyTickPacket, NewPlayerPacket, PlayerInputPacket, ServerToClient,
    GAME_STATE_STREAM, GAME_VERSION,
};
use crate::seq_cmp::{seq_ge, seq_gt, SequenceCmp};
use std::collections::VecDeque;

verus! {

broadcast use vstd::std_specs::vecdeque::group_vec_dequeue_axioms;

/// Maximum number of players a lobby accepts; a connect beyond this is
/// dropped without a reply.
pub const MAX_PLAYERS: usize = 16;

/// Source of newly assigned player ids: a simple incrementing counter,
/// never reused within a session.
#[derive(Debug, Clone, Copy, PartialEq, Eq, Structural)]
pub struct PlayerIdCounter(pub u16);

/// Everything the server holds for one connected player.
#[derive(Debug)]
pub struct ServerPlayerBundle {
    pub id: PlayerId,
    pub name: PlayerName,
    pub network_addr: PlayerNetworkAddr,
    pub unprocessed_inputs: UnprocessedInputs,
    pub position_history: PositionHistory,
    pub last_input_counter: LastInputCounter,
    pub position: Position,
}

/// `entry` names exactly the player `p`: same id, same name.
pub open spec fn listing_entry_of(entry: NewPlayerPacket, p: ServerPlayerBundle) -> bool {
    &&& entry.id == p.id.0
    &&& entry.name@ == p.name.0@
}

/// `entries` lists exactly the given roster, in roster order: one
/// name-and-id entry per player.
pub open spec fn roster_listing(entries: Seq<NewPlayerPacket>, players: Seq<ServerPlayerBundle>) -> bool {
    &&& entries.len() == players.len()
    &&& forall|i: int|
        0 <= i < players.len() ==> #[trigger] listing_entry_of(entries[i], players[i])
}

/// `entry` is exactly the snapshot of player `p`: its id, its current
/// position, and the positions it passed through since the last snapshot.
pub open spec fn lobby_entry_of(entry: LobbyPlayer, p: ServerPlayerBundle) -> bool {
    &&& entry.id == p.id.0
    &&& entry.pos == p.position
    &&& entry.pos_history@ == p.position_history.0@
}

/// `entries` is exactly the given roster's snapshot, in roster order.
pub open spec fn lobby_roster_of(entries: Seq<LobbyPlayer>, players: Seq<ServerPlayerBundle>) -> bool {
    &&& entries.len() == players.len()
    &&& forall|i: int|
        0 <= i < players.len() ==> #[trigger] lobby_entry_of(entries[i], players[i])
}

/// `q` is `p` with its position history cleared and everything else kept.
pub open spec fn cleared_player(p: ServerPlayerBundle, q: ServerPlayerBundle) -> bool {
    &&& q.id == p.id
    &&& q.name == p.name
    &&& q.network_addr == p.network_addr
    &&& q.unprocessed_inputs.0@ == p.unprocessed_inputs.0@
    &&& q.last_input_counter == p.last_input_counter
    &&& q.position == p.position
    &&& q.position_history.0@.len() == 0
}

/// How one authoritative tick transforms one player: the front queue entry
/// (if any) is consumed; it moves the player and advances the applied
/// counter only when its counter is sequentially greater than the last
/// applied one. A stale or replayed input is discarded without touching
/// position or counter.
pub open spec fn ticked_player(p: ServerPlayerBundle, q: ServerPlayerBundle) -> bool {
    &&& q.id == p.id
    &&& q.name == p.name
    &&& q.network_addr == p.network_addr
    &&& if p.unprocessed_inputs.0@.len() == 0 {
        &&& q.unprocessed_inputs.0@ == p.unprocessed_inputs.0@
        &&& q.last_input_counter == p.last_input_counter
        &&& q.position == p.position
        &&& q.position_history.0@ == p.position_history.0@
    } else {
        let input = p.unprocessed_inputs.0@[0];
        &&& q.unprocessed_inputs.0@ == p.unprocessed_inputs.0@.skip(1)
        &&& if seq_gt(input.counter, p.last_input_counter.0) {
            &&& q.last_input_counter.0 == input.counter
            &&& q.position == stepped(p.position, input.x, input.y)
            &&& q.position_history.0@ == p.position_history.0@.push(p.position)
        } else {
            &&& q.last_input_counter == p.last_input_counter
            &&& q.position == p.position
            &&& q.position_history.0@ == p.position_history.0@
        }
    }
}

/// Stale input rejection: consuming an input whose counter the player's
/// last applied counter is already sequentially greater than or equal to
/// changes neither the player's position nor its counter — replaying an
/// old input never moves the player.
pub proof fn lemma_stale_input_rejected(p: ServerPlayerBundle, q: ServerPlayerBundle)
    requires
        ticked_player(p, q),
        p.unprocessed_inputs.0@.len() > 0,
        seq_ge(p.last_input_counter.0, p.unprocessed_inputs.0@[0].counter),
    ensures
        q.position == p.position,
        q.last_input_counter == p.last_input_counter,
{
    crate::seq_cmp::lemma_sequence_trichotomy(
        p.unprocessed_inputs.0@[0].counter,
        p.last_input_counter.0,
    );
}

impl ServerPlayerBundle {
    /// One player's share of the authoritative tick: pop at most one input
    /// from the front of the queue and apply it only if fresh.
    pub fn consume_one_input(&mut self)
        ensures
            ticked_player(*old(self), *final(self)),
    {
        let popped = self.unprocessed_inputs.0.pop_front();
        if let Some(input) = popped {
            if input.counter.sequentially_greater_than(self.last_input_counter.0) {
                self.last_input_counter.0 = input.counter;
                self.position_history.0.push(self.position);
                self.position = self.position.step(input.x, input.y);
            }
        }
    }
}

/// The authoritative lobby: the roster of connected players, the id
/// counter, and the configured capacity.
#[derive(Debug)]
pub struct ServerState {
    pub players: Vec<ServerPlayerBundle>,
    pub player_id_counter: PlayerIdCounter,
    pub max_players: usize,
}

impl ServerState {
    /// Well-formedness: player ids are unique and below the id counter
    /// (so the next assigned id is fresh), and peer addresses are unique
    /// (an address routes to at most one player).
    pub open spec fn wf(self) -> bool {
        &&& forall|i: int, j: int|
            #![trigger self.players@[i].id, self.players@[j].id]
            0 <= i < j < self.players@.len() ==> self.players@[i].id.0 != self.players@[j].id.0
        &&& forall|i: int, j: int|
            #![trigger self.players@[i].network_addr, self.players@[j].network_addr]
            0 <= i < j < self.players@.len() ==> self.players@[i].network_addr.0
                != self.players@[j].network_addr.0
        &&& forall|i: int|
            0 <= i < self.players@.len() ==> #[trigger] self.players@[i].id.0
                < self.player_id_counter.0
    }

    /// Whether some connected player is routed at `addr`.
    pub open spec fn has_addr(self, addr: PeerAddr) -> bool {
        exists|i: int|
            0 <= i < self.players@.len() && #[trigger] self.players@[i].network_addr.0 == addr
    }

    /// The roster index of the player routed at `addr`.
    pub open spec fn addr_index(self, addr: PeerAddr) -> int {
        choose|i: int|
            0 <= i < self.players@.len() && #[trigger] self.players@[i].network_addr.0 == addr
    }

    /// An empty lobby with the given capacity.
    pub fn new(max_players: usize) -> (r: Self)
        ensures
            r.wf(),
            r.players@.len() == 0,
            r.player_id_counter.0 == 0,
            r.max_players == max_players,
    {
        ServerState { players: Vec::new(), player_id_counter: PlayerIdCounter(0), max_players }
    }

    /// Find the roster index of the player routed at `addr`, if any.
    fn find_by_addr(&self, addr: PeerAddr) -> (r: Option<usize>)
        ensures
            match r {
                Some(i) => i < self.players@.len() && self.players@[i as int].network_addr.0
                    == addr,
                None => !self.has_addr(addr),
            },
    {
        let mut i: usize = 0;
        while i < self.players.len()
            invariant
                i <= self.players@.len(),
                forall|j: int|
                    0 <= j < i ==> #[trigger] self.players@[j].network_addr.0 != addr,
            decreases self.players@.len() - i,
        {
            let a = self.players[i].network_addr.0;
            if a.ip == addr.ip && a.port == addr.port {
                return Some(i);
            }
            i = i + 1;
        }
        None
    }

    /// The full effect of one received input sample from `addr`: appended
    /// to the routed player's queue in arrival order, or silently dropped
    /// when the address is not acknowledged.
    pub open spec fn input_outcome(
        pre: ServerState,
        post: ServerState,
        addr: PeerAddr,
        input: PlayerInputPacket,
    ) -> bool {
        &&& post.player_id_counter == pre.player_id_counter
        &&& post.max_players == pre.max_players
        &&& post.players@.len() == pre.players@.len()
        &&& !pre.has_addr(addr) ==> post.players@ == pre.players@
        &&& pre.has_addr(addr) ==> {
            let k = pre.addr_index(addr);
            &&& forall|i: int|
                0 <= i < pre.players@.len() && i != k ==> post.players@[i] == pre.players@[i]
            &&& post.players@[k].id == pre.players@[k].id
            &&& post.players@[k].name == pre.players@[k].name
            &&& post.players@[k].network_addr == pre.players@[k].network_addr
            &&& post.players@[k].last_input_counter == pre.players@[k].last_input_counter
            &&& post.players@[k].position == pre.players@[k].position
            &&& post.players@[k].position_history == pre.players@[k].position_history
            &&& post.players@[k].unprocessed_inputs.0@ == pre.players@[k].unprocessed_inputs.0@.push(
                input,
            )
        }
    }

    /// Receive one input sample from the peer at `addr`; see
    /// `input_outcome`.
    pub fn handle_input(&mut self, addr: PeerAddr, input: PlayerInputPacket)
        requires
            old(self).wf(),
        ensures
            final(self).wf(),
            Self::input_outcome(*old(self), *final(self), addr, input),
    {
        let found = self.find_by_addr(addr);
        if let Some(i) = found {
            proof {
                assert(old(self).has_addr(addr));
                let k = old(self).addr_index(addr);
                assert(old(self).players@[k].network_addr.0 == addr);
                assert(k == i as int);
            }
            let p = &mut self.players[i];
            p.unprocessed_inputs.0.push_back(input);
        }
    }

    /// Drop the player routed at `addr` from the roster, keeping everyone
    /// else in order. Both a transport disconnect and a peer timeout are
    /// handled this way, so the routing tables cannot grow without bound.
    pub fn handle_disconnect(&mut self, addr: PeerAddr)
        requires
            old(self).wf(),
        ensures
            final(self).wf(),
            final(self).player_id_counter == old(self).player_id_counter,
            final(self).max_players == old(self).max_players,
            !old(self).has_addr(addr) ==> final(self).players@ == old(self).players@,
            old(self).has_addr(addr) ==> final(self).players@ == old(self).players@.remove(
                old(self).addr_index(addr),
            ),
            !final(self).has_addr(addr),
    {
        let found = self.find_by_addr(addr);
        if let Some(i) = found {
            proof {
                assert(old(self).has_addr(addr));
                let k = old(self).addr_index(addr);
                assert(old(self).players@[k].network_addr.0 == addr);
                assert(k == i as int);
            }
            let _ = self.players.remove(i);
            proof {
                assert forall|i2: int|
                    0 <= i2 < self.players@.len() implies #[trigger] self.players@[i2].network_addr.0
                    != addr by {
                    if i2 < i as int {
                        assert(self.players@[i2] == old(self).players@[i2]);
                    } else {
                        assert(self.players@[i2] == old(self).players@[i2 + 1]);
                    }
                }
            }
        }
    }

    /// The authoritative tick over the whole roster: each player consumes
    /// at most one queued input. Applying an input whose counter the player
    /// has already caught up with changes neither position nor counter.
    pub fn tick(&mut self)
        requires
            old(self).wf(),
        ensures
            final(self).wf(),
            final(self).player_id_counter == old(self).player_id_counter,
            final(self).max_players == old(self).max_players,
            final(self).players@.len() == old(self).players@.len(),
            forall|i: int|
                0 <= i < old(self).players@.len() ==> ticked_player(
                    old(self).players@[i],
                    #[trigger] final(self).players@[i],
                ),
    {
        let mut i: usize = 0;
        while i < self.players.len()
            invariant
                old(self).wf(),
                i <= self.players@.len(),
                self.players@.len() == old(self).players@.len(),
                self.player_id_counter == old(self).player_id_counter,
                self.max_players == old(self).max_players,
                forall|j: int|
                    0 <= j < i ==> ticked_player(
                        old(self).players@[j],
                        #[trigger] self.players@[j],
                    ),
                forall|j: int|
                    i <= j < self.players@.len() ==> #[trigger] self.players@[j] == old(
                        self,
                    ).players@[j],
            decreases self.players@.len() - i,
        {
            let p = &mut self.players[i];
            p.consume_one_input();
            i = i + 1;
        }
        proof {
            assert forall|i2: int, j2: int|
                0 <= i2 < j2 < self.players@.len() implies self.players@[i2].id.0
                != self.players@[j2].id.0 by {
                assert(ticked_player(old(self).players@[i2], self.players@[i2]));
                assert(ticked_player(old(self).players@[j2], self.players@[j2]));
            }
            assert forall|i2: int, j2: int|
                0 <= i2 < j2 < self.players@.len() implies self.players@[i2].network_addr.0
                != self.players@[j2].network_addr.0 by {
                assert(ticked_player(old(self).players@[i2], self.players@[i2]));
                assert(ticked_player(old(self).players@[j2], self.players@[j2]));
            }
            assert forall|i2: int|
                0 <= i2 < self.players@.len() implies #[trigger] self.players@[i2].id.0
                < self.player_id_counter.0 by {
                assert(ticked_player(old(self).players@[i2], self.players@[i2]));
            }
        }
    }

    /// A connect attempt succeeds exactly when the version matches, the
    /// lobby is below capacity, the address is not yet registered, and the
    /// id space is not exhausted.
    pub open spec fn accepts_connect(self, addr: PeerAddr, version: u32) -> bool {
        &&& version == GAME_VERSION
        &&& self.players@.len() < self.max_players
        &&& !self.has_addr(addr)
        &&& self.player_id_counter.0 < u16::MAX
    }

    /// The full effect of one `Connect` from `addr`: either it is rejected
    /// (state untouched, no reply), exactly when some admission condition
    /// fails, or the player is registered under the next fresh id at the
    /// spawn point and exactly three replies go out — a `ConnectAck` and a
    /// `FullGameState` of everyone who joined earlier, both to the new
    /// peer only, and a `NewPlayer` broadcast to everyone else.
    pub open spec fn connect_outcome(
        pre: ServerState,
        post: ServerState,
        addr: PeerAddr,
        connect: ConnectPacket,
        out: Seq<OutgoingPacket>,
    ) -> bool {
        &&& post.max_players == pre.max_players
        &&& !pre.accepts_connect(addr, connect.version) ==> {
            &&& post.players@ == pre.players@
            &&& post.player_id_counter == pre.player_id_counter
            &&& out.len() == 0
        }
        &&& pre.accepts_connect(addr, connect.version) ==> {
            let new_id = pre.player_id_counter.0;
            &&& post.player_id_counter.0 == new_id + 1
            &&& post.players@.len() == pre.players@.len() + 1
            &&& forall|i: int|
                0 <= i < pre.players@.len() ==> #[trigger] post.players@[i] == pre.players@[i]
            &&& post.players@.last().id.0 == new_id
            &&& post.players@.last().name.0@ == connect.name@
            &&& post.players@.last().network_addr.0 == addr
            &&& post.players@.last().unprocessed_inputs.0@.len() == 0
            &&& post.players@.last().position_history.0@.len() == 0
            &&& post.players@.last().last_input_counter.0 == 0
            &&& post.players@.last().position == (Position { x: 0i64, y: 0i64 })
            &&& out.len() == 3
            &&& out[0].destination == PacketDestination::Single(addr)
            &&& out[0].packet == ServerToClient::ConnectAck(ConnectAckPacket { id: new_id })
            &&& out[0].delivery_type == DeliveryType::ReliableOrdered
            &&& out[0].stream_id == Some(GAME_STATE_STREAM)
            &&& out[1].destination == PacketDestination::Single(addr)
            &&& (out[1].packet matches ServerToClient::FullGameState(fgs) && roster_listing(
                fgs.players@,
                pre.players@,
            ))
            &&& out[1].delivery_type == DeliveryType::ReliableOrdered
            &&& out[1].stream_id == Some(GAME_STATE_STREAM)
            &&& out[2].destination == PacketDestination::BroadcastToAllExcept(addr)
            &&& (out[2].packet matches ServerToClient::NewPlayer(np) && np.id == new_id
                && np.name@ == connect.name@)
            &&& out[2].delivery_type == DeliveryType::ReliableOrdered
            &&& out[2].stream_id == Some(GAME_STATE_STREAM)
        }
    }

    /// Handle a `Connect` from the peer at `addr`; see `connect_outcome`.
    /// A rejected peer gets no reply and must independently time out and
    /// may retry: implicit rejection keeps the protocol surface small, at
    /// the cost of slower failure feedback than an explicit rejection
    /// message would give.
    pub fn handle_connect(&mut self, addr: PeerAddr, connect: &ConnectPacket) -> (out: Vec<
        OutgoingPacket,
    >)
        requires
            old(self).wf(),
        ensures
            final(self).wf(),
            Self::connect_outcome(*old(self), *final(self), addr, *connect, out@),
    {
        if connect.version != GAME_VERSION {
            return Vec::new();
        }
        if self.players.len() >= self.max_players {
            return Vec::new();
        }
        if self.player_id_counter.0 == u16::MAX {
            return Vec::new();
        }
        let found = self.find_by_addr(addr);
        if let Some(i) = found {
            proof {
                assert(self.players@[i as int].network_addr.0 == addr);
                assert(self.has_addr(addr));
            }
            return Vec::new();
        }
        let new_id = self.player_id_counter.0;
        self.player_id_counter.0 = new_id + 1;

        // Roster listing of everyone who joined before this player.
        let mut listing: Vec<NewPlayerPacket> = Vec::new();
        let mut i: usize = 0;
        while i < self.players.len()
            invariant
                i <= self.players@.len(),
                self.players@ == old(self).players@,
                listing@.len() == i,
                forall|j: int|
                    0 <= j < i ==> #[trigger] listing_entry_of(
                        listing@[j],
                        old(self).players@[j],
                    ),
            decreases self.players@.len() - i,
        {
            let entry_name = self.players[i].name.0.clone();
            let entry_id = self.players[i].id.0;
            listing.push(NewPlayerPacket::new(entry_name, entry_id));
            i = i + 1;
        }

        self.players.push(
            ServerPlayerBundle {
                id: PlayerId(new_id),
                name: PlayerName(connect.name.clone()),
                network_addr: PlayerNetworkAddr(addr),
                unprocessed_inputs: UnprocessedInputs(VecDeque::new()),
                position_history: PositionHistory(Vec::new()),
                last_input_counter: LastInputCounter(0),
                position: Position::origin(),
            },
        );

        let mut out: Vec<OutgoingPacket> = Vec::new();
        out.push(
            OutgoingPacket::new(
                PacketDestination::Single(addr),
                ServerToClient::ConnectAck(ConnectAckPacket { id: new_id }),
                DeliveryType::ReliableOrdered,
                Some(GAME_STATE_STREAM),
            ),
        );
        out.push(
            OutgoingPacket::new(
                PacketDestination::Single(addr),
                ServerToClient::FullGameState(FullGameStatePacket::new(listing)),
                DeliveryType::ReliableOrdered,
                Some(GAME_STATE_STREAM),
            ),
        );
        let broadcast_name = connect.name.clone();
        out.push(
            OutgoingPacket::new(
                PacketDestination::BroadcastToAllExcept(addr),
                ServerToClient::NewPlayer(NewPlayerPacket::new(broadcast_name, new_id)),
                DeliveryType::ReliableOrdered,
                Some(GAME_STATE_STREAM),
            ),
        );
        proof {
            assert forall|i2: int, j2: int|
                0 <= i2 < j2 < self.players@.len() implies self.players@[i2].network_addr.0
                != self.players@[j2].network_addr.0 by {
                if j2 == self.players@.len() - 1 {
                    assert(old(self).players@[i2].network_addr.0 != addr);
                }
            }
        }
        out
    }

    /// Route one decoded inbound message from the peer at `addr`: a
    /// `Connect` goes through connect handling (and may produce replies), a
    /// `PlayerInput` is queued for that player if the address is known.
    pub fn handle_message(&mut self, addr: PeerAddr, msg: &ClientToServer) -> (out: Vec<
        OutgoingPacket,
    >)
        requires
            old(self).wf(),
        ensures
            final(self).wf(),
            msg matches ClientToServer::Connect(cp) ==> Self::connect_outcome(
                *old(self),
                *final(self),
                addr,
                *cp,
                out@,
            ),
            msg matches ClientToServer::PlayerInput(input) ==> Self::input_outcome(
                *old(self),
                *final(self),
                addr,
                *input,
            ) && out@.len() == 0,
    {
        match msg {
            ClientToServer::Connect(connect_packet) => self.handle_connect(addr, connect_packet),
            ClientToServer::PlayerInput(input) => {
                self.handle_input(addr, *input);
                Vec::new()
            },
        }
    }

    /// Build one personalized `LobbyTick` snapshot per connected player —
    /// each carrying that player's own last applied input counter and the
    /// whole roster's positions and histories as of this tick — addressed
    /// to that player only, then clear every player's position history so
    /// snapshot memory stays bounded.
    pub fn snapshots(&mut self) -> (out: Vec<OutgoingPacket>)
        requires
            old(self).wf(),
        ensures
            final(self).wf(),
            final(self).player_id_counter == old(self).player_id_counter,
            final(self).max_players == old(self).max_players,
            final(self).players@.len() == old(self).players@.len(),
            forall|i: int|
                0 <= i < old(self).players@.len() ==> cleared_player(
                    old(self).players@[i],
                    #[trigger] final(self).players@[i],
                ),
            out@.len() == old(self).players@.len(),
            forall|i: int|
                0 <= i < old(self).players@.len() ==> {
                    &&& (#[trigger] out@[i].destination) == PacketDestination::Single(
                        old(self).players@[i].network_addr.0,
                    )
                    &&& out@[i].delivery_type == DeliveryType::UnreliableSequenced
                    &&& out@[i].stream_id == Some(GAME_STATE_STREAM)
                    &&& (out@[i].packet matches ServerToClient::LobbyTick(lt)
                        && lt.last_input_counter == old(self).players@[i].last_input_counter.0
                        && lobby_roster_of(lt.players@, old(self).players@))
                },
    {
        // The shared roster snapshot, taken before any history is cleared.
        let mut roster: Vec<LobbyPlayer> = Vec::new();
        let mut i: usize = 0;
        while i < self.players.len()
            invariant
                i <= self.players@.len(),
                self.players@ == old(self).players@,
                roster@.len() == i,
                forall|j: int|
                    0 <= j < i ==> #[trigger] lobby_entry_of(roster@[j], old(self).players@[j]),
            decreases self.players@.len() - i,
        {
            let entry = LobbyPlayer {
                id: self.players[i].id.0,
                pos: self.players[i].position,
                pos_history: copy_positions(&self.players[i].position_history.0),
            };
            roster.push(entry);
            i = i + 1;
        }

        proof {
            assert(lobby_roster_of(roster@, old(self).players@));
        }
        let mut out: Vec<OutgoingPacket> = Vec::new();
        let mut i: usize = 0;
        while i < self.players.len()
            invariant
                i <= self.players@.len(),
                self.players@.len() == old(self).players@.len(),
                self.player_id_counter == old(self).player_id_counter,
                self.max_players == old(self).max_players,
                lobby_roster_of(roster@, old(self).players@),
                forall|j: int|
                    i <= j < self.players@.len() ==> #[trigger] self.players@[j] == old(
                        self,
                    ).players@[j],
                forall|j: int|
                    0 <= j < i ==> cleared_player(
                        old(self).players@[j],
                        #[trigger] self.players@[j],
                    ),
                out@.len() == i,
                forall|j: int|
                    0 <= j < i ==> {
                        &&& (#[trigger] out@[j].destination) == PacketDestination::Single(
                            old(self).players@[j].network_addr.0,
                        )
                        &&& out@[j].delivery_type == DeliveryType::UnreliableSequenced
                        &&& out@[j].stream_id == Some(GAME_STATE_STREAM)
                        &&& (out@[j].packet matches ServerToClient::LobbyTick(lt)
                            && lt.last_input_counter == old(
                            self,
                        ).players@[j].last_input_counter.0 && lobby_roster_of(
                            lt.players@,
                            old(self).players@,
                        ))
                    },
            decreases self.players@.len() - i,
        {
            let last = self.players[i].last_input_counter.0;
            let addr = self.players[i].network_addr.0;
            let snapshot_players = clone_lobby_roster(&roster);
            proof {
                assert(lobby_roster_of(snapshot_players@, old(self).players@));
            }
            let packet = ServerToClient::LobbyTick(
                LobbyTickPacket { last_input_counter: last, players: snapshot_players },
            );
            out.push(
                OutgoingPacket::new(
                    PacketDestination::Single(addr),
                    packet,
                    DeliveryType::UnreliableSequenced,
                    Some(GAME_STATE_STREAM),
                ),
            );
            let p = &mut self.players[i];
            p.position_history.0.clear();
            i = i + 1;
        }
        proof {
            assert forall|i2: int, j2: int|
                0 <= i2 < j2 < self.players@.len() implies self.players@[i2].id.0
                != self.players@[j2].id.0 && self.players@[i2].network_addr.0
                != self.players@[j2].network_addr.0 by {
                assert(cleared_player(old(self).players@[i2], self.players@[i2]));
                assert(cleared_player(old(self).players@[j2], self.players@[j2]));
            }
            assert forall|i2: int|
                0 <= i2 < self.players@.len() implies #[trigger] self.players@[i2].id.0
                < self.player_id_counter.0 by {
                assert(cleared_player(old(self).players@[i2], self.players@[i2]));
            }
        }
        out
    }
}

/// Element-for-element copy of a position list.
fn copy_positions(src: &Vec<Position>) -> (r: Vec<Position>)
    ensures
        r@ == src@,
{
    let mut r: Vec<Position> = Vec::new();
    let mut i: usize = 0;
    while i < src.len()
        invariant
            i <= src@.len(),
            r@ == src@.take(i as int),
        decreases src@.len() - i,
    {
        r.push(src[i]);
        assert(src@.take(i as int + 1) =~= src@.take(i as int).push(src@[i as int]));
        i = i + 1;
    }
    assert(src@.take(src@.len() as int) =~= src@);
    r
}

/// Two roster snapshot entries carry the same id, position and history.
spec fn same_lobby_entry(a: LobbyPlayer, b: LobbyPlayer) -> bool {
    &&& a.id == b.id
    &&& a.pos == b.pos
    &&& a.pos_history@ == b.pos_history@
}

/// Copy of a roster snapshot: the copy is a snapshot of exactly the rosters
/// the source is a snapshot of.
fn clone_lobby_roster(src: &Vec<LobbyPlayer>) -> (r: Vec<LobbyPlayer>)
    ensures
        r@.len() == src@.len(),
        forall|players: Seq<ServerPlayerBundle>|
            lobby_roster_of(src@, players) ==> #[trigger] lobby_roster_of(r@, players),
{
    let mut r: Vec<LobbyPlayer> = Vec::new();
    let mut i: usize = 0;
    while i < src.len()
        invariant
            i <= src@.len(),
            r@.len() == i,
            forall|j: int| 0 <= j < i ==> #[trigger] same_lobby_entry(r@[j], src@[j]),
        decreases src@.len() - i,
    {
        let entry = LobbyPlayer {
            id: src[i].id,
            pos: src[i].pos,
            pos_history: copy_positions(&src[i].pos_history),
        };
        r.push(entry);
        i = i + 1;
    }
    proof {
        assert forall|players: Seq<ServerPlayerBundle>|
            lobby_roster_of(src@, players) implies #[trigger] lobby_roster_of(r@, players) by {
            assert forall|k: int|
                0 <= k < players.len() implies #[trigger] lobby_entry_of(r@[k], players[k]) by {
                assert(same_lobby_entry(r@[k], src@[k]));
                assert(lobby_entry_of(src@[k], players[k]));
            }
        }
    }
    r
}

} // verus!
