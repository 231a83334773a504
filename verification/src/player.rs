//! Per-player components: identity, name, routing address, the last input
//! counter the server applied, and the queue of input samples that have been
//! sent (client) or received (server) but not yet consumed.

use vstd::prelude::*;
use crate::movement::Position;
use crate::protocol::PlayerInputPacket;
use crate::seq_cmp::{seq_ge, SequenceCmp};
use std::collections::VecDeque;

verus! {

broadcast use vstd::std_specs::vecdeque::group_vec_dequeue_axioms;

/// Stable identity for a connected player: unique, assigned by the server,
/// never reused within a session.
#[derive(Debug, Clone, Copy, PartialEq, Eq, Structural, Hash)]
pub struct PlayerId(pub u16);

/// The id the server assigned to this client, once the `ConnectAck` arrived.
#[derive(Debug, Clone, Copy)]
pub struct MyPlayerId(pub Option<u16>);

/// Routing address for a peer. Two peers are the same peer exactly when
/// their addresses are equal.
#[derive(Debug, Clone, Copy, PartialEq, Eq, Structural, Hash)]
pub struct PeerAddr {
    pub ip: u32,
    pub port: u16,
}

/// Routing address component of a server-side player.
#[derive(Debug, Clone, Copy, PartialEq, Eq, Structural)]
pub struct PlayerNetworkAddr(pub PeerAddr);

/// Display name, set from the connect message and immutable thereafter.
#[derive(Debug, Clone)]
pub struct PlayerName(pub String);

/// Highest input counter the server has applied for a player, under the
/// cyclic ordering. Never regresses.
#[derive(Debug, Clone, Copy, PartialEq, Eq, Structural)]
pub struct LastInputCounter(pub u16);

/// Positions a player passed through since the last snapshot was sent;
/// cleared as soon as it has been put into a snapshot.
#[derive(Debug, Clone)]
pub struct PositionHistory(pub Vec<Position>);

/// The longest suffix of `s` left after removing acknowledged entries from
/// the front: entries whose counter the ack is sequentially greater than or
/// equal to.
pub open spec fn trimmed(s: Seq<PlayerInputPacket>, ack: u16) -> Seq<PlayerInputPacket>
    decreases s.len(),
{
    if s.len() > 0 && seq_ge(ack, s[0].counter) {
        trimmed(s.skip(1), ack)
    } else {
        s
    }
}

/// Input samples in send order that the other side has not yet consumed:
/// on the client, inputs the server has not acknowledged; on the server,
/// inputs received for a player but not yet applied.
#[derive(Debug, Clone)]
pub struct UnprocessedInputs(pub VecDeque<PlayerInputPacket>);

impl Default for UnprocessedInputs {
    /// An empty queue.
    fn default() -> (r: Self)
        ensures
            r.0@ == Seq::<PlayerInputPacket>::empty(),
    {
        UnprocessedInputs(VecDeque::new())
    }
}

impl UnprocessedInputs {
    /// Pop entries from the front of the queue as long as the front entry's
    /// counter is sequentially acknowledged by `input_ack`; the first entry
    /// the ack does not cover stops the trimming.
    pub fn clear_acknowledged_inputs(&mut self, input_ack: u16)
        ensures
            final(self).0@ == trimmed(old(self).0@, input_ack),
    {
        loop
            invariant
                trimmed(self.0@, input_ack) == trimmed(old(self).0@, input_ack),
            ensures
                self.0@.len() == 0 || !seq_ge(input_ack, self.0@[0].counter),
                trimmed(self.0@, input_ack) == trimmed(old(self).0@, input_ack),
            decreases self.0@.len(),
        {
            if self.0.len() == 0 {
                break;
            }
            let front_counter = self.0[0].counter;
            if input_ack.sequentially_greater_than_or_equal_to(front_counter) {
                let _ = self.0.pop_front();
            } else {
                break;
            }
        }
    }
}

} // verus!
