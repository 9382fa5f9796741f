//! The discipline of the shared outbound handle: one send at a time.
//!
//! Every session forwards through the same handle. A session begins a send only when the lane
//! grants it, and the lane grants nothing while a send is in flight, whichever session made it
//! and wherever it goes. Sends are thereby totally ordered.

use vstd::prelude::*;

verus! {

/// What a session asks of the lane.
#[derive(Clone, Copy, Debug, PartialEq, Eq, Structural)]
pub enum LaneOp {
    /// The session with this number wants to begin a send.
    Begin(u64),
    /// The session with this number has finished its send.
    Finish(u64),
}

/// Whether a lane held by `holder` grants `op`: it grants a begin when nothing is in flight.
pub open spec fn grants(holder: Option<u64>, op: LaneOp) -> bool {
    op is Begin && holder is None
}

/// Whether `op` releases a lane held by `holder`: only the holder's own finish does.
pub open spec fn releases(holder: Option<u64>, op: LaneOp) -> bool {
    op matches LaneOp::Finish(session) && holder == Some(session)
}

/// Who holds the lane after `op`, if `holder` held it before.
pub open spec fn holder_after_op(holder: Option<u64>, op: LaneOp) -> Option<u64> {
    match op {
        LaneOp::Begin(session) => if holder is None {
            Some(session)
        } else {
            holder
        },
        LaneOp::Finish(session) => if holder == Some(session) {
            None
        } else {
            holder
        },
    }
}

/// The lane through which all sends of the gateway pass.
#[derive(Debug, PartialEq, Eq)]
pub struct ForwardingLane {
    holder: Option<u64>,
}

impl ForwardingLane {
    /// The session whose send is in flight, if any. There is never more than one.
    pub closed spec fn holder(&self) -> Option<u64> {
        self.holder
    }

    /// A lane with nothing in flight.
    pub fn new() -> (lane: ForwardingLane)
        ensures
            lane.holder() is None,
    {
        ForwardingLane { holder: None }
    }

    /// The session whose send is in flight, if any.
    pub fn in_flight(&self) -> (holder: Option<u64>)
        ensures
            holder == self.holder(),
    {
        self.holder
    }

    /// Asks to begin a send for `session`. The lane grants it exactly when nothing is in
    /// flight, and `session` then holds the lane. A refused request changes nothing.
    pub fn begin(&mut self, session: u64) -> (granted: bool)
        ensures
            granted == grants(old(self).holder(), LaneOp::Begin(session)),
            final(self).holder() == holder_after_op(old(self).holder(), LaneOp::Begin(session)),
    {
        match self.holder {
            None => {
                self.holder = Some(session);
                true
            },
            Some(_) => false,
        }
    }

    /// Reports that `session` has finished its send. The lane is released exactly when
    /// `session` holds it. A report by any other session changes nothing.
    pub fn finish(&mut self, session: u64) -> (released: bool)
        ensures
            released == releases(old(self).holder(), LaneOp::Finish(session)),
            final(self).holder() == holder_after_op(old(self).holder(), LaneOp::Finish(session)),
    {
        match self.holder {
            Some(holder) => {
                if holder == session {
                    self.holder = None;
                    true
                } else {
                    false
                }
            },
            None => false,
        }
    }
}

/// Who holds a lane that started with nothing in flight and has taken `ops` in this order.
pub open spec fn holder_after(ops: Seq<LaneOp>) -> Option<u64>
    decreases ops.len(),
{
    if ops.len() == 0 {
        None
    } else {
        holder_after_op(holder_after(ops.drop_last()), ops.last())
    }
}

/// Whether the lane grants the request at `i` of `ops`: a send begins there.
pub open spec fn granted_at(ops: Seq<LaneOp>, i: int) -> bool {
    grants(holder_after(ops.take(i)), ops[i])
}

/// Whether the request at `i` of `ops` releases the lane: a send ends there.
pub open spec fn released_at(ops: Seq<LaneOp>, i: int) -> bool {
    releases(holder_after(ops.take(i)), ops[i])
}

/// Taking one more request moves the lane by one step.
pub proof fn lemma_holder_after_next(ops: Seq<LaneOp>, i: int)
    requires
        0 <= i < ops.len(),
    ensures
        holder_after(ops.take(i + 1)) == holder_after_op(holder_after(ops.take(i)), ops[i]),
{
    let longer = ops.take(i + 1);
    assert(longer.drop_last() =~= ops.take(i));
    assert(longer.last() == ops[i]);
}

/// A send that has begun stays in flight until its own session finishes it.
pub proof fn lemma_held_until_released(ops: Seq<LaneOp>, i: int, j: int)
    requires
        0 <= i < j <= ops.len(),
        granted_at(ops, i),
        forall|k: int| i < k < j ==> !#[trigger] released_at(ops, k),
    ensures
        ops[i] matches LaneOp::Begin(session) && holder_after(ops.take(j)) == Some(session),
    decreases j - i,
{
    if j == i + 1 {
        lemma_holder_after_next(ops, i);
    } else {
        lemma_held_until_released(ops, i, j - 1);
        lemma_holder_after_next(ops, j - 1);
        assert(!released_at(ops, j - 1));
    }
}

/// Sends never overlap: whatever the sessions ask of the lane and in whatever order, between
/// any two sends that begin, the first one has ended.
pub proof fn lemma_sends_never_overlap(ops: Seq<LaneOp>, i: int, j: int)
    requires
        0 <= i < j < ops.len(),
        granted_at(ops, i),
        granted_at(ops, j),
    ensures
        exists|k: int| i < k < j && #[trigger] released_at(ops, k),
{
    if forall|k: int| i < k < j ==> !#[trigger] released_at(ops, k) {
        lemma_held_until_released(ops, i, j);
    }
}

/// A send ends only through the session that began it.
pub proof fn lemma_only_holder_releases(ops: Seq<LaneOp>, i: int, k: int)
    requires
        0 <= i < k < ops.len(),
        granted_at(ops, i),
        released_at(ops, k),
        forall|m: int| i < m < k ==> !#[trigger] released_at(ops, m),
    ensures
        ops[i] matches LaneOp::Begin(session) && ops[k] == LaneOp::Finish(session),
{
    lemma_held_until_released(ops, i, k);
}

} // verus!
