//! Dispatch fan-out: translating one outgoing logical message plus a
//! destination selector into the exact list of peers that must each receive
//! one transport packet. The payload is serialized once by the caller and
//! reused for every resolved destination.

use vstd::prelude::*;
use crate::player::PeerAddr;
use crate::protocol::{DeliveryType, ServerToClient};

verus! {

/// Destination selector for an outgoing message.
#[derive(Debug, Clone)]
pub enum PacketDestination {
    Single(PeerAddr),
    BroadcastToAll,
    BroadcastToAllExcept(PeerAddr),
    BroadcastToSet(Vec<PeerAddr>),
}

/// One outgoing logical message, queued by the simulation and turned into
/// transport packets by the send step.
#[derive(Debug, Clone)]
pub struct OutgoingPacket {
    pub destination: PacketDestination,
    pub packet: ServerToClient,
    pub delivery_type: DeliveryType,
    pub stream_id: Option<u8>,
}

impl OutgoingPacket {
    pub fn new(
        destination: PacketDestination,
        packet: ServerToClient,
        delivery_type: DeliveryType,
        stream_id: Option<u8>,
    ) -> (r: Self)
        ensures
            r.destination == destination,
            r.packet == packet,
            r.delivery_type == delivery_type,
            r.stream_id == stream_id,
    {
        Self { destination, packet, delivery_type, stream_id }
    }
}

/// The roster with every occurrence of `x` left out; broadcast-to-all-except
/// resolves to exactly this, comparing addresses by value.
pub open spec fn excluding(roster: Seq<PeerAddr>, x: PeerAddr) -> Seq<PeerAddr> {
    roster.filter(|a: PeerAddr| a != x)
}

/// How many times address `x` occurs in the roster.
pub open spec fn occurrences(roster: Seq<PeerAddr>, x: PeerAddr) -> nat {
    roster.filter(|a: PeerAddr| a == x).len()
}

proof fn lemma_excluding_step(s: Seq<PeerAddr>, i: int, x: PeerAddr)
    requires
        0 <= i < s.len(),
    ensures
        excluding(s.take(i + 1), x) == if s[i] != x {
            excluding(s.take(i), x).push(s[i])
        } else {
            excluding(s.take(i), x)
        },
{
    reveal(Seq::filter);
    assert(s.take(i + 1).drop_last() =~= s.take(i));
    assert(s.take(i + 1).last() == s[i]);
}

/// Resolve a destination selector against the current roster of connected
/// peer addresses into the list of peers to send one packet each to.
pub fn resolve_destinations(roster: &Vec<PeerAddr>, destination: &PacketDestination) -> (r: Vec<
    PeerAddr,
>)
    ensures
        match destination {
            PacketDestination::Single(addr) => r@ == seq![*addr],
            PacketDestination::BroadcastToAll => r@ == roster@,
            PacketDestination::BroadcastToAllExcept(excluded) => r@ == excluding(
                roster@,
                *excluded,
            ),
            PacketDestination::BroadcastToSet(addrs) => r@ == addrs@,
        },
{
    match destination {
        PacketDestination::Single(addr) => {
            let mut r: Vec<PeerAddr> = Vec::new();
            r.push(*addr);
            assert(r@ =~= seq![*addr]);
            r
        },
        PacketDestination::BroadcastToAll => copy_addrs(roster),
        PacketDestination::BroadcastToAllExcept(excluded) => {
            let mut r: Vec<PeerAddr> = Vec::new();
            let mut i: usize = 0;
            while i < roster.len()
                invariant
                    i <= roster.len(),
                    r@ == excluding(roster@.take(i as int), *excluded),
                decreases roster.len() - i,
            {
                proof {
                    lemma_excluding_step(roster@, i as int, *excluded);
                }
                let a = roster[i];
                if !(a.ip == excluded.ip && a.port == excluded.port) {
                    r.push(a);
                }
                i = i + 1;
            }
            assert(roster@.take(roster@.len() as int) =~= roster@);
            r
        },
        PacketDestination::BroadcastToSet(addrs) => copy_addrs(addrs),
    }
}

fn copy_addrs(addrs: &Vec<PeerAddr>) -> (r: Vec<PeerAddr>)
    ensures
        r@ == addrs@,
{
    let mut r: Vec<PeerAddr> = Vec::new();
    let mut i: usize = 0;
    while i < addrs.len()
        invariant
            i <= addrs.len(),
            r@ == addrs@.take(i as int),
        decreases addrs.len() - i,
    {
        r.push(addrs[i]);
        assert(r@ =~= addrs@.take(i as int).push(addrs@[i as int]));
        assert(addrs@.take(i as int + 1) =~= addrs@.take(i as int).push(addrs@[i as int]));
        i = i + 1;
    }
    assert(addrs@.take(addrs@.len() as int) =~= addrs@);
    r
}

proof fn lemma_excluding_occurrences(s: Seq<PeerAddr>, x: PeerAddr)
    ensures
        excluding(s, x).len() + occurrences(s, x) == s.len(),
    decreases s.len(),
{
    reveal(Seq::filter);
    if s.len() != 0 {
        lemma_excluding_occurrences(s.drop_last(), x);
    }
}

/// Fan-out completeness: when the roster contains the excluded address
/// exactly once, broadcast-to-all-except resolves to exactly one send per
/// other roster entry — one fewer than the roster size, none of them
/// addressed to the excluded peer.
pub proof fn lemma_fan_out_completeness(roster: Seq<PeerAddr>, x: PeerAddr)
    requires
        occurrences(roster, x) == 1,
    ensures
        excluding(roster, x).len() == roster.len() - 1,
        forall|i: int|
            0 <= i < excluding(roster, x).len() ==> #[trigger] excluding(roster, x)[i] != x,
{
    broadcast use vstd::prelude::Seq::lemma_filter_pred;

    lemma_excluding_occurrences(roster, x);
}

} // verus!
