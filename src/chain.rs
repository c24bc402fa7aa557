//! The per-node slot state machine: a filler takes the next free slot, and the
//! third fill resets the chain under a fresh id.
use vstd::prelude::*;
use crate::key::Key;
use crate::accounts::{ChainView, ReferralChain, SlotFilled, UserAccount, UserAccountView};

verus! {

pub open spec fn empty_slots() -> Seq<Option<Key>> {
    seq![None, None, None]
}

/// Whether the next fill of `c` takes its third slot and so completes it.
pub open spec fn fill_completes(c: ChainView) -> bool {
    c.filled_slots == 2
}

/// `c` after `filler` takes its next free slot; taking the third slot resets
/// the chain to empty slots under `new_id`. A chain with no free slot is left
/// as it is.
pub open spec fn chain_after_fill(c: ChainView, filler: Key, new_id: u32) -> ChainView {
    if c.filled_slots >= 3 {
        c
    } else if fill_completes(c) {
        ChainView { id: new_id, slots: empty_slots(), filled_slots: 0 }
    } else {
        ChainView {
            id: c.id,
            slots: c.slots.update(c.filled_slots as int, Some(filler)),
            filled_slots: (c.filled_slots + 1) as u8,
        }
    }
}

/// The notification for `filler` taking the next slot of `owner`'s chain `c`.
pub open spec fn fill_event(c: ChainView, filler: Key, owner: Key) -> SlotFilled {
    SlotFilled { slot_idx: c.filled_slots, chain_id: c.id, user: filler, owner }
}

/// The node `n` with its chain replaced by `c`.
pub open spec fn with_chain(n: UserAccountView, c: ChainView) -> UserAccountView {
    UserAccountView { chain: c, ..n }
}

/// Moves `chain` one step: the notification is appended to `events`, and the
/// result says whether the chain completed (and was reset under `new_id`).
pub fn fill_next_slot(
    chain: &mut ReferralChain,
    filler: Key,
    owner: Key,
    new_id: u32,
    events: &mut Vec<SlotFilled>,
) -> (completed: bool)
    ensures
        final(chain)@ == chain_after_fill(old(chain)@, filler, new_id),
        completed == fill_completes(old(chain)@),
        final(events)@ == if old(chain).filled_slots < 3 {
            old(events)@.push(fill_event(old(chain)@, filler, owner))
        } else {
            old(events)@
        },
{
    let slot_idx = chain.filled_slots;
    if slot_idx >= 3 {
        return false;
    }
    events.push(SlotFilled { slot_idx, chain_id: chain.id, user: filler, owner });
    if slot_idx == 2 {
        chain.id = new_id;
        chain.slots = [None, None, None];
        chain.filled_slots = 0;
        assert(chain.slots@ =~= empty_slots());
        true
    } else {
        chain.slots.set(slot_idx as usize, Some(filler));
        chain.filled_slots = slot_idx + 1;
        false
    }
}

/// Fills the next slot of `referrer` (whose account is `referrer_key`) with
/// `user_key`, resetting the chain under `next_chain_id` when the fill
/// completes it. Returns whether it completed, with the referrer's key.
pub fn process_referrer_chain(
    user_key: &Key,
    referrer: &mut UserAccount,
    referrer_key: &Key,
    next_chain_id: u32,
    events: &mut Vec<SlotFilled>,
) -> (r: (bool, Key))
    ensures
        final(referrer)@ == with_chain(
            old(referrer)@,
            chain_after_fill(old(referrer)@.chain, *user_key, next_chain_id),
        ),
        r.0 == fill_completes(old(referrer)@.chain),
        r.1 == *referrer_key,
        final(events)@ == if old(referrer).chain.filled_slots < 3 {
            old(events)@.push(fill_event(old(referrer)@.chain, *user_key, *referrer_key))
        } else {
            old(events)@
        },
{
    let completed = fill_next_slot(&mut referrer.chain, *user_key, *referrer_key, next_chain_id, events);
    (completed, *referrer_key)
}

} // verus!
