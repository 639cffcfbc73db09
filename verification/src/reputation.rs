//! The reputation rules: a saturating score accumulator clamped into a
//! fixed range, and a bounded event log that evicts its oldest entry
//! when full. The score is a flat clamp of cumulative deltas, not a
//! time-weighted average; that choice reproduces the accrual rule the
//! marketplace actually applies.

use vstd::prelude::*;

verus! {

/// Most reputation events kept per agent; the oldest leaves first.
pub const MAX_REPUTATION_EVENTS: usize = 100;

/// Upper bound of the reputation score scale.
pub const MAX_REPUTATION_SCORE: u64 = 10000;

/// Why an agent's score changed.
#[derive(Clone, Copy, Debug, PartialEq, Eq, Structural)]
pub enum ReputationReason {
    /// A service was completed successfully.
    ServiceCompleted,
    /// A positive review was received.
    PositiveReview,
    /// A negative review was received.
    NegativeReview,
    /// A dispute was resolved in the agent's favour.
    DisputeResolved,
    /// A penalty was applied after a dispute.
    DisputePenalty,
}

/// One immutable record of a score delta, its cause, and an optional
/// reference to the transaction that caused it.
#[derive(Clone, Copy, Debug, PartialEq, Eq)]
pub struct ReputationEvent {
    /// When the change was applied.
    pub timestamp: i64,
    /// The signed delta that was applied.
    pub change: i64,
    /// The cause of the change.
    pub reason: ReputationReason,
    /// The transaction the change refers to, if any.
    pub service_id: Option<u64>,
}

/// The bounded event log of one agent, oldest first.
#[derive(Debug)]
pub struct ReputationHistory {
    /// The identity the log belongs to; set once, never changed.
    pub agent_id: u64,
    /// Up to `MAX_REPUTATION_EVENTS` events, oldest first.
    pub events: Vec<ReputationEvent>,
}

/// The score after one change: the sum, clamped into
/// `[0, MAX_REPUTATION_SCORE]`. A delta that would leave the range is
/// truncated to the nearer bound, never rejected.
pub open spec fn clamped_score(score: int, change: int) -> int {
    if score + change < 0 {
        0
    } else if score + change > MAX_REPUTATION_SCORE {
        MAX_REPUTATION_SCORE as int
    } else {
        score + change
    }
}

/// The log contents after appending one event: when the log is full,
/// the single oldest entry is evicted first.
pub open spec fn ledger_append(events: Seq<ReputationEvent>, e: ReputationEvent) -> Seq<
    ReputationEvent,
> {
    if events.len() >= MAX_REPUTATION_EVENTS {
        events.subrange(1, events.len() as int).push(e)
    } else {
        events.push(e)
    }
}

/// Saturation law: one applied change always lands in
/// `[0, MAX_REPUTATION_SCORE]`, whatever the delta's magnitude or sign,
/// so any sequence of applied changes keeps the stored score in bounds.
pub proof fn lemma_score_saturation(score: int, change: int)
    ensures
        0 <= clamped_score(score, change) <= MAX_REPUTATION_SCORE,
{
}

/// The score after a whole sequence of changes, applied oldest first,
/// each one clamped as it lands.
pub open spec fn folded_score(start: int, deltas: Seq<int>) -> int
    decreases deltas.len(),
{
    if deltas.len() == 0 {
        start
    } else {
        folded_score(clamped_score(start, deltas[0]), deltas.drop_first())
    }
}

/// Saturation law over sequences: after any non-empty sequence of
/// changes, the score lies in `[0, MAX_REPUTATION_SCORE]`, regardless
/// of the deltas' magnitudes or signs and of the starting point.
pub proof fn lemma_sequence_saturation(start: int, deltas: Seq<int>)
    requires
        deltas.len() > 0,
    ensures
        0 <= folded_score(start, deltas) <= MAX_REPUTATION_SCORE,
    decreases deltas.len(),
{
    if deltas.len() == 1 {
        assert(deltas.drop_first().len() == 0);
        assert(folded_score(clamped_score(start, deltas[0]), deltas.drop_first())
            == clamped_score(start, deltas[0]));
    } else {
        lemma_sequence_saturation(clamped_score(start, deltas[0]), deltas.drop_first());
    }
}

/// Eviction law: appending to a full log keeps the length at the cap,
/// drops exactly the oldest entry, shifts the rest down by one place in
/// their original order, and puts the new event last.
pub proof fn lemma_fifo_eviction(events: Seq<ReputationEvent>, e: ReputationEvent)
    requires
        events.len() == MAX_REPUTATION_EVENTS,
    ensures
        ledger_append(events, e).len() == MAX_REPUTATION_EVENTS,
        ledger_append(events, e)[0] == events[1],
        ledger_append(events, e)[MAX_REPUTATION_EVENTS - 1] == e,
        forall|i: int|
            0 <= i < MAX_REPUTATION_EVENTS - 1 ==> ledger_append(events, e)[i] == events[i + 1],
{
}

/// Applies one signed delta to a stored score, saturating at both
/// bounds of the scale.
pub fn apply_score_change(score: u64, change: i64) -> (new_score: u64)
    requires
        score <= MAX_REPUTATION_SCORE,
    ensures
        new_score == clamped_score(score as int, change as int),
        new_score <= MAX_REPUTATION_SCORE,
{
    if change >= 0 {
        if change >= MAX_REPUTATION_SCORE as i64 {
            MAX_REPUTATION_SCORE
        } else {
            let raised = score + (change as u64);
            if raised > MAX_REPUTATION_SCORE {
                MAX_REPUTATION_SCORE
            } else {
                raised
            }
        }
    } else {
        if change < -(MAX_REPUTATION_SCORE as i64) {
            0
        } else {
            let cut = (-change) as u64;
            if score >= cut {
                score - cut
            } else {
                0
            }
        }
    }
}

/// Appends one event to a bounded log, evicting the oldest entry when
/// the log is already full.
pub fn push_event(events: &mut Vec<ReputationEvent>, e: ReputationEvent)
    requires
        old(events)@.len() <= MAX_REPUTATION_EVENTS,
    ensures
        final(events)@ == ledger_append(old(events)@, e),
        final(events)@.len() <= MAX_REPUTATION_EVENTS,
{
    events.push(e);
    if events.len() > MAX_REPUTATION_EVENTS {
        events.remove(0);
        proof {
            assert(events@ =~= ledger_append(old(events)@, e));
        }
    }
}

} // verus!
