//! Position integration: how one input sample moves a player, and how a
//! sequence of input samples moves it. Server tick, client prediction and
//! client replay all integrate inputs through this one function, which is
//! what makes reconciliation deterministic.
//!
//! Coordinates are fixed-point: one unit is one axis unit of a single input
//! sample, so a full-deflection input moves a player by `i16::MAX` units per
//! tick. Addition wraps, so integrating is total — a flood of replayed
//! inputs can never panic the simulation.

use vstd::prelude::*;
use crate::protocol::PlayerInputPacket;
use std::collections::VecDeque;

verus! {

broadcast use vstd::std_specs::vecdeque::group_vec_dequeue_axioms;

/// A 2D location, authoritative on the server and predicted on the client.
#[derive(Debug, Clone, Copy, PartialEq, Eq, Structural)]
pub struct Position {
    pub x: i64,
    pub y: i64,
}

/// Where a position ends up after integrating one input sample.
pub open spec fn stepped(p: Position, dx: i16, dy: i16) -> Position {
    Position {
        x: vstd::wrapping::i64_specs::wrapping_add(p.x, dx as i64),
        y: vstd::wrapping::i64_specs::wrapping_add(p.y, dy as i64),
    }
}

/// Where a position ends up after integrating a sequence of input samples
/// in order, oldest first.
pub open spec fn applied_inputs(p: Position, inputs: Seq<PlayerInputPacket>) -> Position
    decreases inputs.len(),
{
    if inputs.len() == 0 {
        p
    } else {
        applied_inputs(stepped(p, inputs[0].x, inputs[0].y), inputs.skip(1))
    }
}

impl Position {
    /// The spawn point: both axes at zero.
    pub fn origin() -> (r: Self)
        ensures
            r == (Position { x: 0i64, y: 0i64 }),
    {
        Position { x: 0, y: 0 }
    }

    /// Integrate one input sample into this position.
    pub fn step(self, dx: i16, dy: i16) -> (r: Self)
        ensures
            r == stepped(self, dx, dy),
    {
        Position { x: self.x.wrapping_add(dx as i64), y: self.y.wrapping_add(dy as i64) }
    }
}

/// Integrating a concatenation of two input sequences is integrating the
/// first and then the second.
pub proof fn lemma_applied_inputs_concat(
    p: Position,
    a: Seq<PlayerInputPacket>,
    b: Seq<PlayerInputPacket>,
)
    ensures
        applied_inputs(p, a + b) == applied_inputs(applied_inputs(p, a), b),
    decreases a.len(),
{
    if a.len() == 0 {
        assert(a + b =~= b);
    } else {
        assert((a + b).skip(1) =~= a.skip(1) + b);
        lemma_applied_inputs_concat(stepped(p, a[0].x, a[0].y), a.skip(1), b);
    }
}

/// Integrating one more input steps the position reached by the inputs
/// before it.
proof fn lemma_applied_inputs_take_step(p: Position, s: Seq<PlayerInputPacket>, j: int)
    requires
        0 <= j < s.len(),
    ensures
        applied_inputs(p, s.take(j + 1)) == stepped(applied_inputs(p, s.take(j)), s[j].x, s[j].y),
{
    assert(s.take(j) + seq![s[j]] =~= s.take(j + 1));
    lemma_applied_inputs_concat(p, s.take(j), seq![s[j]]);
    let q = applied_inputs(p, s.take(j));
    assert(seq![s[j]].skip(1) =~= Seq::<PlayerInputPacket>::empty());
    assert(applied_inputs(q, seq![s[j]]) == applied_inputs(
        stepped(q, s[j].x, s[j].y),
        seq![s[j]].skip(1),
    ));
    assert(applied_inputs(stepped(q, s[j].x, s[j].y), Seq::<PlayerInputPacket>::empty()) == stepped(
        q,
        s[j].x,
        s[j].y,
    ));
}

/// Integrate every queued input sample into `p`, in queue order — exactly
/// what the client does when it replays unacknowledged inputs after an
/// authoritative correction.
pub fn replay_inputs(p: Position, inputs: &VecDeque<PlayerInputPacket>) -> (r: Position)
    ensures
        r == applied_inputs(p, inputs@),
{
    let mut r = p;
    let mut j: usize = 0;
    while j < inputs.len()
        invariant
            j <= inputs@.len(),
            r == applied_inputs(p, inputs@.take(j as int)),
        decreases inputs@.len() - j,
    {
        proof {
            lemma_applied_inputs_take_step(p, inputs@, j as int);
        }
        let input = inputs[j];
        r = r.step(input.x, input.y);
        j = j + 1;
    }
    proof {
        assert(inputs@.take(inputs@.len() as int) =~= inputs@);
    }
    r
}

/// Reconciliation converges: resetting to the authoritative position the
/// server reached after the first `k` inputs and then replaying the
/// remaining inputs lands exactly where continuous prediction of all the
/// inputs from the original starting position would have landed, provided
/// the server integrated those first `k` inputs identically.
pub proof fn lemma_reconciliation_convergence(
    start: Position,
    inputs: Seq<PlayerInputPacket>,
    k: int,
)
    requires
        0 <= k <= inputs.len(),
    ensures
        applied_inputs(applied_inputs(start, inputs.take(k)), inputs.skip(k)) == applied_inputs(
            start,
            inputs,
        ),
{
    assert(inputs.take(k) + inputs.skip(k) =~= inputs);
    lemma_applied_inputs_concat(start, inputs.take(k), inputs.skip(k));
}

} // verus!
