//! Client-side session state: prediction and reconciliation. Local input is
//! applied immediately and queued; when a server snapshot arrives the
//! acknowledged queue prefix is trimmed, every player's displayed position
//! is set from the snapshot, and the remaining unacknowledged inputs are
//! replayed in order on top of the authoritative correction.

use vstd::prelude::*;
use crate::movement::{applied_inputs, replay_inputs, stepped, Position};
use crate::player::{trimmed, MyPlayerId, PlayerId, PlayerName, UnprocessedInputs};
use crate::protocol::{
    ClientToServer, ConnectAckPacket, ConnectPacket, DeliveryType, FullGameStatePacket,
    LobbyPlayer, LobbyTickPacket, NewPlayerPacket, PlayerInputPacket, GAME_VERSION, INPUT_STREAM,
};
use crate::game::PlayerInput;
use std::collections::VecDeque;

verus! {

broadcast use vstd::std_specs::vecdeque::group_vec_dequeue_axioms;

/// Marker for the roster entry that is this client's own player.
#[derive(Debug, Clone, Copy)]
pub struct MyPlayer;

/// Client-local wrapping counter assigned to each input sample sent.
#[derive(Debug, Clone, Copy, PartialEq, Eq, Structural)]
pub struct InputCounter(pub u16);

/// Everything the client holds for one player it knows about.
#[derive(Debug)]
pub struct ClientPlayerBundle {
    pub id: PlayerId,
    pub name: PlayerName,
    pub position: Position,
}

/// One outgoing logical message from the client, with the delivery class
/// and stream it must be sent under.
#[derive(Debug, Clone)]
pub struct OutgoingPacket {
    pub packet: ClientToServer,
    pub delivery_type: DeliveryType,
    pub stream_id: Option<u8>,
}

impl OutgoingPacket {
    pub fn new(packet: ClientToServer, delivery_type: DeliveryType, stream_id: Option<u8>) -> (r:
        Self)
        ensures
            r.packet == packet,
            r.delivery_type == delivery_type,
            r.stream_id == stream_id,
    {
        Self { packet, delivery_type, stream_id }
    }
}

/// The connect message a client sends on startup: reliable-ordered, with
/// this build's protocol version and the chosen display name.
pub fn connect_message(my_name: &str) -> (out: OutgoingPacket)
    ensures
        out.packet matches ClientToServer::Connect(cp) && cp.version == GAME_VERSION && cp.name@
            == my_name@,
        out.delivery_type == DeliveryType::ReliableOrdered,
        out.stream_id is None,
{
    OutgoingPacket::new(
        ClientToServer::Connect(ConnectPacket::new(my_name)),
        DeliveryType::ReliableOrdered,
        None,
    )
}

/// Whether some known player carries this id.
pub open spec fn has_player_id(ps: Seq<ClientPlayerBundle>, id: u16) -> bool {
    exists|i: int| 0 <= i < ps.len() && (#[trigger] ps[i]).id.0 == id
}

/// The roster index of the player carrying this id.
pub open spec fn id_index(ps: Seq<ClientPlayerBundle>, id: u16) -> int {
    choose|i: int| 0 <= i < ps.len() && (#[trigger] ps[i]).id.0 == id
}

/// A player as a plain value: id, name, position.
pub open spec fn roster_view(ps: Seq<ClientPlayerBundle>) -> Seq<(u16, Seq<char>, Position)> {
    ps.map_values(|p: ClientPlayerBundle| (p.id.0, p.name.0@, p.position))
}

/// A new-player listing entry as a plain value: id and name.
pub open spec fn listing_view(es: Seq<NewPlayerPacket>) -> Seq<(u16, Seq<char>)> {
    es.map_values(|e: NewPlayerPacket| (e.id, e.name@))
}

/// Whether a roster (as plain values) already carries this id.
pub open spec fn view_has_id(ps: Seq<(u16, Seq<char>, Position)>, id: u16) -> bool {
    exists|i: int| 0 <= i < ps.len() && (#[trigger] ps[i]).0 == id
}

/// Materializing one announced player: a player under a known id is left
/// alone; a new id is appended at the spawn point.
pub open spec fn spawned_one(ps: Seq<(u16, Seq<char>, Position)>, e: (u16, Seq<char>)) -> Seq<
    (u16, Seq<char>, Position),
> {
    if view_has_id(ps, e.0) {
        ps
    } else {
        ps.push((e.0, e.1, Position { x: 0i64, y: 0i64 }))
    }
}

/// Materializing a whole listing, in listing order.
pub open spec fn spawned_all(
    ps: Seq<(u16, Seq<char>, Position)>,
    es: Seq<(u16, Seq<char>)>,
) -> Seq<(u16, Seq<char>, Position)>
    decreases es.len(),
{
    if es.len() == 0 {
        ps
    } else {
        spawned_all(spawned_one(ps, es[0]), es.skip(1))
    }
}

proof fn lemma_spawned_all_concat(
    ps: Seq<(u16, Seq<char>, Position)>,
    a: Seq<(u16, Seq<char>)>,
    b: Seq<(u16, Seq<char>)>,
)
    ensures
        spawned_all(ps, a + b) == spawned_all(spawned_all(ps, a), b),
    decreases a.len(),
{
    if a.len() == 0 {
        assert(a + b =~= b);
    } else {
        assert((a + b).skip(1) =~= a.skip(1) + b);
        assert((a + b)[0] == a[0]);
        lemma_spawned_all_concat(spawned_one(ps, a[0]), a.skip(1), b);
    }
}

proof fn lemma_spawned_all_step(ps: Seq<(u16, Seq<char>, Position)>, es: Seq<(u16, Seq<char>)>, j: int)
    requires
        0 <= j < es.len(),
    ensures
        spawned_all(ps, es.take(j + 1)) == spawned_one(spawned_all(ps, es.take(j)), es[j]),
{
    assert(es.take(j) + seq![es[j]] =~= es.take(j + 1));
    lemma_spawned_all_concat(ps, es.take(j), seq![es[j]]);
    let mid = spawned_all(ps, es.take(j));
    assert(seq![es[j]].skip(1) =~= Seq::<(u16, Seq<char>)>::empty());
    assert(spawned_all(mid, seq![es[j]]) == spawned_all(spawned_one(mid, es[j]), seq![
        es[j],
    ].skip(1)));
    assert(spawned_all(spawned_one(mid, es[j]), Seq::<(u16, Seq<char>)>::empty()) == spawned_one(
        mid,
        es[j],
    ));
}

proof fn lemma_has_id_view(ps: Seq<ClientPlayerBundle>, id: u16)
    ensures
        has_player_id(ps, id) == view_has_id(roster_view(ps), id),
{
    if has_player_id(ps, id) {
        let i = choose|i: int| 0 <= i < ps.len() && (#[trigger] ps[i]).id.0 == id;
        assert(roster_view(ps)[i].0 == id);
    }
    if view_has_id(roster_view(ps), id) {
        let i = choose|i: int|
            0 <= i < roster_view(ps).len() && (#[trigger] roster_view(ps)[i]).0 == id;
        assert(ps[i].id.0 == id);
    }
}

/// The position a player with this id is left at after walking a snapshot
/// roster in order: each matching entry overwrites, entries for other ids
/// leave it alone.
pub open spec fn applied_snapshot(entries: Seq<LobbyPlayer>, id: u16, p0: Position) -> Position
    decreases entries.len(),
{
    if entries.len() == 0 {
        p0
    } else {
        applied_snapshot(
            entries.skip(1),
            id,
            if entries[0].id == id {
                entries[0].pos
            } else {
                p0
            },
        )
    }
}

proof fn lemma_applied_snapshot_concat(
    a: Seq<LobbyPlayer>,
    b: Seq<LobbyPlayer>,
    id: u16,
    p0: Position,
)
    ensures
        applied_snapshot(a + b, id, p0) == applied_snapshot(b, id, applied_snapshot(a, id, p0)),
    decreases a.len(),
{
    if a.len() == 0 {
        assert(a + b =~= b);
    } else {
        assert((a + b).skip(1) =~= a.skip(1) + b);
        assert((a + b)[0] == a[0]);
        lemma_applied_snapshot_concat(
            a.skip(1),
            b,
            id,
            if a[0].id == id {
                a[0].pos
            } else {
                p0
            },
        );
    }
}

proof fn lemma_applied_snapshot_step(s: Seq<LobbyPlayer>, j: int, id: u16, p0: Position)
    requires
        0 <= j < s.len(),
    ensures
        applied_snapshot(s.take(j + 1), id, p0) == if s[j].id == id {
            s[j].pos
        } else {
            applied_snapshot(s.take(j), id, p0)
        },
{
    assert(s.take(j) + seq![s[j]] =~= s.take(j + 1));
    lemma_applied_snapshot_concat(s.take(j), seq![s[j]], id, p0);
    let prev = applied_snapshot(s.take(j), id, p0);
    assert(seq![s[j]].skip(1) =~= Seq::<LobbyPlayer>::empty());
    assert(applied_snapshot(seq![s[j]], id, prev) == applied_snapshot(
        seq![s[j]].skip(1),
        id,
        if s[j].id == id {
            s[j].pos
        } else {
            prev
        },
    ));
}

/// Everything the client tracks for the session.
#[derive(Debug)]
pub struct ClientState {
    /// Set once the server's `ConnectAck` has arrived; input packets are
    /// not sent before it.
    pub connected: bool,
    pub my_player_id: MyPlayerId,
    pub input_counter: InputCounter,
    pub unprocessed_inputs: UnprocessedInputs,
    pub players: Vec<ClientPlayerBundle>,
}

impl ClientState {
    /// Well-formedness: known player ids are unique.
    pub open spec fn wf(self) -> bool {
        forall|i: int, j: int|
            #![trigger self.players@[i].id, self.players@[j].id]
            0 <= i < j < self.players@.len() ==> self.players@[i].id.0 != self.players@[j].id.0
    }

    /// A client that has not heard from the server yet.
    pub fn new() -> (r: Self)
        ensures
            r.wf(),
            !r.connected,
            r.my_player_id.0 is None,
            r.input_counter.0 == 0,
            r.unprocessed_inputs.0@.len() == 0,
            r.players@.len() == 0,
    {
        ClientState {
            connected: false,
            my_player_id: MyPlayerId(None),
            input_counter: InputCounter(0),
            unprocessed_inputs: UnprocessedInputs(VecDeque::new()),
            players: Vec::new(),
        }
    }

    /// Find the roster index of the player carrying `id`, if any.
    fn find_by_id(&self, id: u16) -> (r: Option<usize>)
        ensures
            match r {
                Some(i) => i < self.players@.len() && self.players@[i as int].id.0 == id,
                None => !has_player_id(self.players@, id),
            },
    {
        let mut i: usize = 0;
        while i < self.players.len()
            invariant
                i <= self.players@.len(),
                forall|j: int| 0 <= j < i ==> (#[trigger] self.players@[j]).id.0 != id,
            decreases self.players@.len() - i,
        {
            if self.players[i].id.0 == id {
                return Some(i);
            }
            i = i + 1;
        }
        None
    }

    /// Materialize one announced player: ignored when the id is already
    /// known (ids are unique for the session), otherwise spawned at the
    /// spawn point under the announced name.
    fn spawn_player(&mut self, id: u16, name: String)
        requires
            old(self).wf(),
        ensures
            final(self).wf(),
            final(self).connected == old(self).connected,
            final(self).my_player_id == old(self).my_player_id,
            final(self).input_counter == old(self).input_counter,
            final(self).unprocessed_inputs.0@ == old(self).unprocessed_inputs.0@,
            roster_view(final(self).players@) == spawned_one(
                roster_view(old(self).players@),
                (id, name@),
            ),
    {
        let ghost name_view = name@;
        let found = self.find_by_id(id);
        proof {
            lemma_has_id_view(self.players@, id);
        }
        if found.is_none() {
            self.players.push(
                ClientPlayerBundle { id: PlayerId(id), name: PlayerName(name), position: Position::origin() },
            );
            proof {
                assert(roster_view(self.players@) =~= roster_view(old(self).players@).push(
                    (id, name_view, Position { x: 0i64, y: 0i64 }),
                ));
            }
        } else {
            let i = found.unwrap();
            proof {
                assert(self.players@[i as int].id.0 == id);
                assert(has_player_id(self.players@, id));
            }
        }
    }

    /// A peer joined: materialize it from the broadcast announcement.
    pub fn new_player_joined(&mut self, pkt: &NewPlayerPacket)
        requires
            old(self).wf(),
        ensures
            final(self).wf(),
            final(self).connected == old(self).connected,
            final(self).my_player_id == old(self).my_player_id,
            final(self).input_counter == old(self).input_counter,
            final(self).unprocessed_inputs.0@ == old(self).unprocessed_inputs.0@,
            roster_view(final(self).players@) == spawned_one(
                roster_view(old(self).players@),
                (pkt.id, pkt.name@),
            ),
    {
        let name = pkt.name.clone();
        self.spawn_player(pkt.id, name);
    }

    /// The server accepted us: record the assigned id, mark the session
    /// connected, and materialize our own player under our chosen name.
    pub fn handle_connect_ack(&mut self, ack: &ConnectAckPacket, my_name: &str)
        requires
            old(self).wf(),
        ensures
            final(self).wf(),
            final(self).connected,
            final(self).my_player_id.0 == Some(ack.id),
            final(self).input_counter == old(self).input_counter,
            final(self).unprocessed_inputs.0@ == old(self).unprocessed_inputs.0@,
            roster_view(final(self).players@) == spawned_one(
                roster_view(old(self).players@),
                (ack.id, my_name@),
            ),
    {
        self.connected = true;
        self.my_player_id = MyPlayerId(Some(ack.id));
        let name = my_name.to_owned();
        self.spawn_player(ack.id, name);
    }

    /// The one-time roster download for a newly connected client:
    /// materialize every listed player, in listing order.
    pub fn handle_full_game_state(&mut self, pkt: &FullGameStatePacket)
        requires
            old(self).wf(),
        ensures
            final(self).wf(),
            final(self).connected == old(self).connected,
            final(self).my_player_id == old(self).my_player_id,
            final(self).input_counter == old(self).input_counter,
            final(self).unprocessed_inputs.0@ == old(self).unprocessed_inputs.0@,
            roster_view(final(self).players@) == spawned_all(
                roster_view(old(self).players@),
                listing_view(pkt.players@),
            ),
    {
        let mut j: usize = 0;
        while j < pkt.players.len()
            invariant
                j <= pkt.players@.len(),
                self.wf(),
                self.connected == old(self).connected,
                self.my_player_id == old(self).my_player_id,
                self.input_counter == old(self).input_counter,
                self.unprocessed_inputs.0@ == old(self).unprocessed_inputs.0@,
                roster_view(self.players@) == spawned_all(
                    roster_view(old(self).players@),
                    listing_view(pkt.players@).take(j as int),
                ),
            decreases pkt.players@.len() - j,
        {
            proof {
                lemma_spawned_all_step(
                    roster_view(old(self).players@),
                    listing_view(pkt.players@),
                    j as int,
                );
            }
            let entry_name = pkt.players[j].name.clone();
            let entry_id = pkt.players[j].id;
            self.spawn_player(entry_id, entry_name);
            j = j + 1;
        }
        proof {
            assert(listing_view(pkt.players@).take(pkt.players@.len() as int) =~= listing_view(
                pkt.players@,
            ));
        }
    }

    /// Capture this tick's local input: stamp it with the next counter,
    /// queue it as unacknowledged, advance the counter (wrapping), and hand
    /// back the input message to send — unreliable-sequenced on the input
    /// stream, since only the latest sample matters.
    pub fn send_input_to_server(&mut self, input: &PlayerInput) -> (out: OutgoingPacket)
        requires
            old(self).wf(),
        ensures
            final(self).wf(),
            final(self).connected == old(self).connected,
            final(self).my_player_id == old(self).my_player_id,
            final(self).players@ == old(self).players@,
            final(self).input_counter.0 == vstd::wrapping::u16_specs::wrapping_add(
                old(self).input_counter.0,
                1,
            ),
            final(self).unprocessed_inputs.0@ == old(self).unprocessed_inputs.0@.push(
                PlayerInputPacket {
                    counter: old(self).input_counter.0,
                    x: input.x_axis(),
                    y: input.y_axis(),
                },
            ),
            out.packet == ClientToServer::PlayerInput(
                PlayerInputPacket {
                    counter: old(self).input_counter.0,
                    x: input.x_axis(),
                    y: input.y_axis(),
                },
            ),
            out.delivery_type == DeliveryType::UnreliableSequenced,
            out.stream_id == Some(INPUT_STREAM),
    {
        let input_packet = input.to_player_input_packet(self.input_counter.0);
        self.unprocessed_inputs.0.push_back(input_packet);
        self.input_counter.0 = self.input_counter.0.wrapping_add(1);
        proof {
            assert forall|i: int, j: int|
                0 <= i < j < self.players@.len() implies self.players@[i].id.0
                != self.players@[j].id.0 by {
                assert(self.players@[i] == old(self).players@[i]);
                assert(self.players@[j] == old(self).players@[j]);
            }
        }
        OutgoingPacket::new(
            ClientToServer::PlayerInput(input_packet),
            DeliveryType::UnreliableSequenced,
            Some(INPUT_STREAM),
        )
    }

    /// Input packets are held back until the server has acknowledged the
    /// connection; everything else may be sent at once.
    pub fn should_send(&self, out: &OutgoingPacket) -> (r: bool)
        ensures
            r == (self.connected || !(out.packet matches ClientToServer::PlayerInput(_))),
    {
        self.connected || !matches!(out.packet, ClientToServer::PlayerInput(_))
    }

    /// Prediction: integrate the current local input into our own player's
    /// displayed position immediately, without waiting for the server.
    pub fn update_game(&mut self, input: &PlayerInput)
        requires
            old(self).wf(),
        ensures
            final(self).wf(),
            final(self).connected == old(self).connected,
            final(self).my_player_id == old(self).my_player_id,
            final(self).input_counter == old(self).input_counter,
            final(self).unprocessed_inputs.0@ == old(self).unprocessed_inputs.0@,
            final(self).players@.len() == old(self).players@.len(),
            forall|i: int|
                0 <= i < old(self).players@.len() ==> (#[trigger] final(self).players@[i]).id
                    == old(self).players@[i].id && final(self).players@[i].name == old(
                    self,
                ).players@[i].name,
            match old(self).my_player_id.0 {
                None => final(self).players@ == old(self).players@,
                Some(mid) => if has_player_id(old(self).players@, mid) {
                    let k = id_index(old(self).players@, mid);
                    &&& forall|i: int|
                        0 <= i < old(self).players@.len() && i != k
                            ==> #[trigger] final(self).players@[i] == old(self).players@[i]
                    &&& final(self).players@[k].position == stepped(
                        old(self).players@[k].position,
                        input.x_axis(),
                        input.y_axis(),
                    )
                } else {
                    final(self).players@ == old(self).players@
                },
            },
    {
        let my = self.my_player_id.0;
        if let Some(mid) = my {
            let found = self.find_by_id(mid);
            if let Some(k) = found {
                proof {
                    assert(has_player_id(self.players@, mid));
                    let ki = id_index(old(self).players@, mid);
                    assert(old(self).players@[ki].id.0 == mid);
                    assert(ki == k as int);
                }
                let dx = input.x();
                let dy = input.y();
                let p = &mut self.players[k];
                p.position = p.position.step(dx, dy);
            }
        }
    }

    /// Reconciliation on a server snapshot: trim the acknowledged prefix
    /// off the unacknowledged-input queue, set every known player's
    /// displayed position from the snapshot roster, then replay the still
    /// unacknowledged inputs onto our own player's corrected position.
    pub fn handle_lobby_tick(&mut self, tick: &LobbyTickPacket)
        requires
            old(self).wf(),
        ensures
            final(self).wf(),
            final(self).connected == old(self).connected,
            final(self).my_player_id == old(self).my_player_id,
            final(self).input_counter == old(self).input_counter,
            final(self).unprocessed_inputs.0@ == trimmed(
                old(self).unprocessed_inputs.0@,
                tick.last_input_counter,
            ),
            final(self).players@.len() == old(self).players@.len(),
            forall|i: int|
                0 <= i < old(self).players@.len() ==> (#[trigger] final(self).players@[i]).id
                    == old(self).players@[i].id && final(self).players@[i].name == old(
                    self,
                ).players@[i].name,
            forall|i: int|
                0 <= i < old(self).players@.len() ==> (#[trigger] final(self).players@[i]).position
                    == {
                    let corrected = applied_snapshot(
                        tick.players@,
                        old(self).players@[i].id.0,
                        old(self).players@[i].position,
                    );
                    if old(self).my_player_id.0 == Some(old(self).players@[i].id.0) {
                        applied_inputs(
                            corrected,
                            trimmed(old(self).unprocessed_inputs.0@, tick.last_input_counter),
                        )
                    } else {
                        corrected
                    }
                },
    {
        self.unprocessed_inputs.clear_acknowledged_inputs(tick.last_input_counter);

        let mut j: usize = 0;
        while j < tick.players.len()
            invariant
                j <= tick.players@.len(),
                old(self).wf(),
                self.connected == old(self).connected,
                self.my_player_id == old(self).my_player_id,
                self.input_counter == old(self).input_counter,
                self.unprocessed_inputs.0@ == trimmed(
                    old(self).unprocessed_inputs.0@,
                    tick.last_input_counter,
                ),
                self.players@.len() == old(self).players@.len(),
                forall|i: int|
                    0 <= i < old(self).players@.len() ==> (#[trigger] self.players@[i]).id == old(
                        self,
                    ).players@[i].id && self.players@[i].name == old(self).players@[i].name,
                forall|i: int|
                    0 <= i < old(self).players@.len() ==> (#[trigger] self.players@[i]).position
                        == applied_snapshot(
                        tick.players@.take(j as int),
                        old(self).players@[i].id.0,
                        old(self).players@[i].position,
                    ),
            decreases tick.players@.len() - j,
        {
            let entry_id = tick.players[j].id;
            let entry_pos = tick.players[j].pos;
            let found = self.find_by_id(entry_id);
            proof {
                assert forall|i: int| 0 <= i < old(self).players@.len() implies applied_snapshot(
                    tick.players@.take(j as int + 1),
                    old(self).players@[i].id.0,
                    old(self).players@[i].position,
                ) == if tick.players@[j as int].id == old(self).players@[i].id.0 {
                    tick.players@[j as int].pos
                } else {
                    applied_snapshot(
                        tick.players@.take(j as int),
                        old(self).players@[i].id.0,
                        old(self).players@[i].position,
                    )
                } by {
                    lemma_applied_snapshot_step(
                        tick.players@,
                        j as int,
                        old(self).players@[i].id.0,
                        old(self).players@[i].position,
                    );
                }
            }
            if let Some(k) = found {
                proof {
                    assert(self.players@[k as int].id == old(self).players@[k as int].id);
                    assert(old(self).players@[k as int].id.0 == entry_id);
                    assert forall|i: int|
                        0 <= i < old(self).players@.len() && i != k as int implies old(
                        self,
                    ).players@[i].id.0 != entry_id by {
                        if i < k as int {
                            assert(old(self).players@[i].id.0 != old(
                                self,
                            ).players@[k as int].id.0);
                        } else {
                            assert(old(self).players@[k as int].id.0 != old(
                                self,
                            ).players@[i].id.0);
                        }
                    }
                }
                let p = &mut self.players[k];
                p.position = entry_pos;
            } else {
                proof {
                    assert forall|i: int|
                        0 <= i < old(self).players@.len() implies old(self).players@[i].id.0
                        != entry_id by {
                        assert(self.players@[i].id == old(self).players@[i].id);
                        assert(!has_player_id(self.players@, entry_id));
                    }
                }
            }
            j = j + 1;
        }
        proof {
            assert(tick.players@.take(tick.players@.len() as int) =~= tick.players@);
        }

        // Replay every still-unacknowledged input onto our own player's
        // authoritative position, re-integrating each one exactly as
        // prediction did.
        let my = self.my_player_id.0;
        if let Some(mid) = my {
            let found = self.find_by_id(mid);
            if let Some(k) = found {
                proof {
                    let ki = id_index(old(self).players@, mid);
                    assert(old(self).players@[ki].id.0 == mid);
                    assert(ki == k as int);
                }
                let start = self.players[k].position;
                let corrected = replay_inputs(start, &self.unprocessed_inputs.0);
                let p = &mut self.players[k];
                p.position = corrected;
                proof {
                    assert forall|i: int|
                        0 <= i < old(self).players@.len() && i != k as int implies old(
                        self,
                    ).my_player_id.0 != Some(old(self).players@[i].id.0) by {
                        assert(old(self).players@[i].id.0 != mid);
                    }
                }
            } else {
                proof {
                    assert forall|i: int|
                        0 <= i < self.players@.len() implies (#[trigger] self.players@[i]).id.0
                        != mid by {
                        assert(!has_player_id(self.players@, mid));
                    }
                }
            }
        }
    }
}

} // verus!
