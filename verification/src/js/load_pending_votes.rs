//! The withdrawal slots that wait for an investor's vote.

use vstd::prelude::*;

verus! {

/// What the node reports of a withdrawal slot: whether it has an active
/// withdrawal request, and whether the investor voted in the current round
/// (only read where a request is active).
#[derive(Debug, Clone, Copy, PartialEq, Eq)]
pub struct SlotVoteState {
    pub has_active_request: bool,
    pub did_vote_in_current_round: bool,
}

/// Whether a slot waits for the investor's vote.
pub open spec fn is_pending(slot: SlotVoteState) -> bool {
    slot.has_active_request && !slot.did_vote_in_current_round
}

/// The number of slots in `slots` that wait for the investor's vote.
pub open spec fn pending_count(slots: Seq<SlotVoteState>) -> nat
    decreases slots.len(),
{
    if slots.len() == 0 {
        0
    } else {
        pending_count(slots.drop_last()) + if is_pending(slots.last()) {
            1nat
        } else {
            0nat
        }
    }
}

/// The count of slots with an active withdrawal request for which the
/// investor has not voted yet.
pub fn pending_vote_slot_count(slots: &[SlotVoteState]) -> (r: u32)
    requires
        pending_count(slots@) <= u32::MAX,
    ensures
        r == pending_count(slots@),
{
    let mut pending_vote_count: u32 = 0;
    let mut i: usize = 0;
    while i < slots.len()
        invariant
            i <= slots.len(),
            pending_vote_count == pending_count(slots@.subrange(0, i as int)),
            pending_count(slots@) <= u32::MAX,
        decreases slots.len() - i,
    {
        proof {
            assert(slots@.subrange(0, i + 1).drop_last() =~= slots@.subrange(0, i as int));
            lemma_pending_count_prefix_le(slots@, i + 1);
        }
        let slot = slots[i];
        if slot.has_active_request {
            if !slot.did_vote_in_current_round {
                pending_vote_count = pending_vote_count + 1;
            }
        }
        i = i + 1;
    }
    assert(slots@.subrange(0, slots.len() as int) =~= slots@);
    pending_vote_count
}

/// A prefix has no more pending slots than the whole.
proof fn lemma_pending_count_prefix_le(slots: Seq<SlotVoteState>, n: int)
    requires
        0 <= n <= slots.len(),
    ensures
        pending_count(slots.subrange(0, n)) <= pending_count(slots),
    decreases slots.len() - n,
{
    if n < slots.len() {
        lemma_pending_count_prefix_le(slots, n + 1);
        assert(slots.subrange(0, n + 1).drop_last() =~= slots.subrange(0, n));
    } else {
        assert(slots.subrange(0, n) =~= slots);
    }
}

} // verus!
