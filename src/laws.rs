//! Properties of the settlement core, proved over the same models that the
//! operations' contracts use.
use vstd::prelude::*;
use crate::key::Key;
use crate::accounts::{AccountSnapshot, ChainView, UserAccountView, MAX_UPLINE_DEPTH};
use crate::addresses::Addresses;
use crate::accounts::UplineEntry;
use crate::cascade::{CascadeView, UplineUpdateView, cascade_from, cascade_step, has_trio, run_cascade};
use crate::chain::{chain_after_fill, fill_completes, fill_event, with_chain};
use crate::registration::{
    FIXED_REMAINING_ACCOUNTS, RegisterWithSolDeposit, after_ids_issued, deposit_checks, new_node, pool_of,
    sol_registration, upline_window,
};
use crate::settlement::{Action, PoolDataView, pool_tokens, slot_effect};
use crate::valuation::{
    DEFAULT_SOL_PRICE, DEFAULT_SOL_PRICE_DECIMALS, FALLBACK_TOKEN_AMOUNT, PoolReading, PriceReading,
    is_stale, minimum_deposit, minimum_lamports, read_pool, token_amount, tokens_for_accounts,
};

verus! {

/// One fill keeps a well-formed chain well formed: the fill count stays
/// below 3, a fill that does not complete the chain adds one to it under the
/// same id, and a completing fill resets it under `new_id`, which is larger
/// than the old id whenever ids are issued in increasing order.
pub proof fn lemma_fill_keeps_chain_wf(c: ChainView, filler: Key, new_id: u32)
    requires
        c.wf(),
    ensures
        chain_after_fill(c, filler, new_id).wf(),
        !fill_completes(c) ==> chain_after_fill(c, filler, new_id).id == c.id
            && chain_after_fill(c, filler, new_id).filled_slots == c.filled_slots + 1,
        fill_completes(c) ==> chain_after_fill(c, filler, new_id).filled_slots == 0
            && chain_after_fill(c, filler, new_id).id == new_id,
        fill_completes(c) && new_id > c.id ==> chain_after_fill(c, filler, new_id).id > c.id,
{
}

/// The chain after the first `k` of a sequence of fills, the `j`-th fill
/// being by `fillers[j]` with `ids[j]` as the id for a reset.
pub open spec fn chain_after_fills(c: ChainView, fillers: Seq<Key>, ids: Seq<u32>, k: nat) -> ChainView
    decreases k,
{
    if k == 0 {
        c
    } else {
        let prev = chain_after_fills(c, fillers, ids, (k - 1) as nat);
        chain_after_fill(prev, fillers[k - 1], ids[k - 1])
    }
}

/// Over any sequence of fills whose reset ids come from an increasing
/// counter above the chain's id, the chain stays well formed (its fill count
/// never reaches 3), its id only moves at a reset, and each reset strictly
/// increases it.
pub proof fn lemma_fill_sequence(c: ChainView, fillers: Seq<Key>, ids: Seq<u32>, k: nat)
    requires
        c.wf(),
        fillers.len() == ids.len(),
        k <= ids.len(),
        forall|j: int| 0 <= j < ids.len() ==> ids[j] > c.id,
        forall|i: int, j: int| 0 <= i < j < ids.len() ==> ids[i] < ids[j],
    ensures
        chain_after_fills(c, fillers, ids, k).wf(),
        k < ids.len() ==> chain_after_fills(c, fillers, ids, k).id < ids[k as int],
        k < ids.len() && fill_completes(chain_after_fills(c, fillers, ids, k)) ==> chain_after_fills(
            c,
            fillers,
            ids,
            k + 1,
        ).id > chain_after_fills(c, fillers, ids, k).id,
        k < ids.len() && !fill_completes(chain_after_fills(c, fillers, ids, k)) ==> chain_after_fills(
            c,
            fillers,
            ids,
            k + 1,
        ).id == chain_after_fills(c, fillers, ids, k).id,
    decreases k,
{
    if k > 0 {
        lemma_fill_sequence(c, fillers, ids, (k - 1) as nat);
        let prev = chain_after_fills(c, fillers, ids, (k - 1) as nat);
        lemma_fill_keeps_chain_wf(prev, fillers[k - 1], ids[k - 1]);
    }
    let cur = chain_after_fills(c, fillers, ids, k);
    if k < ids.len() {
        lemma_fill_keeps_chain_wf(cur, fillers[k as int], ids[k as int]);
        assert(chain_after_fills(c, fillers, ids, k + 1) == chain_after_fill(cur, fillers[k as int], ids[k as int]));
    }
}

/// Escrow lives exactly between a node's second and third fill: settling the
/// next slot of a node whose escrow is consistent keeps it consistent; the
/// second fill records the reserved deposit and tokens; the third pays them
/// out and leaves both at zero.
pub proof fn lemma_escrow_window(
    n: UserAccountView,
    amount: u64,
    tokens: u64,
    wrapped_open: bool,
    wallet: Key,
    token_account: Key,
    filler: Key,
    new_id: u32,
)
    requires
        n.chain.wf(),
        n.escrow_consistent(),
    ensures
        ({
            let m = with_chain(
                slot_effect(n, amount, tokens, wrapped_open, wallet, token_account).0,
                chain_after_fill(n.chain, filler, new_id),
            );
            &&& m.chain.wf()
            &&& m.escrow_consistent()
            &&& n.chain.filled_slots == 0 ==> m.reserved_sol == 0 && m.reserved_tokens == 0
            &&& n.chain.filled_slots == 1 ==> m.reserved_sol == amount && m.reserved_tokens == tokens
            &&& n.chain.filled_slots == 2 ==> m.reserved_sol == 0 && m.reserved_tokens == 0
        }),
{
    lemma_fill_keeps_chain_wf(n.chain, filler, new_id);
}

proof fn lemma_cascade_from_bounded(
    c: CascadeView,
    ups: Seq<AccountSnapshot>,
    base: int,
    i: int,
    pool: PoolDataView,
    token_mint: Key,
    ids: Addresses,
)
    requires
        0 <= base <= ups.len(),
        0 <= i,
        i <= MAX_UPLINE_DEPTH,
        i <= (ups.len() - base) / 3,
    ensures
        cascade_from(c, ups, base, i, pool, token_mint, ids) matches Ok(d) ==> {
            &&& c.updates.len() <= d.updates.len()
            &&& d.updates.len() - c.updates.len() <= MAX_UPLINE_DEPTH - i
            &&& d.updates.len() - c.updates.len() <= (ups.len() - base) / 3 - i
            &&& d.updates.subrange(0, c.updates.len() as int) == c.updates
            &&& forall|k: int| c.updates.len() <= k < d.updates.len() ==> #[trigger] d.updates[k].index == i + k - c.updates.len()
            &&& forall|k: int| c.updates.len() <= k < d.updates.len() - 1 ==> #[trigger] d.updates[k].node.chain.filled_slots == 0
        },
    decreases MAX_UPLINE_DEPTH - i,
{
    if c.deposit == 0 || i >= MAX_UPLINE_DEPTH || c.expected is None {
        assert(c.updates.subrange(0, c.updates.len() as int) =~= c.updates);
    } else if !has_trio(ups, base, i) {
    } else {
        match cascade_step(c, ups, base, i, pool, token_mint, ids) {
            Err(e) => {},
            Ok(next) => {
                let c2 = next.0;
                assert(c2.updates.len() == c.updates.len() + 1);
                assert(c2.updates.subrange(0, c.updates.len() as int) =~= c.updates);
                let n = ups[base + 3 * i].node.unwrap()@;
                if next.1 {
                    lemma_cascade_from_bounded(c2, ups, base, i + 1, pool, token_mint, ids);
                    if let Ok(d) = cascade_from(c2, ups, base, i + 1, pool, token_mint, ids) {
                        assert(d.updates.subrange(0, c.updates.len() as int) =~= d.updates.subrange(
                            0,
                            c2.updates.len() as int,
                        ).subrange(0, c.updates.len() as int));
                        assert(d.updates[c.updates.len() as int] == c2.updates[c.updates.len() as int]);
                    }
                } else {
                    assert(c2.updates.subrange(0, c.updates.len() as int) =~= c.updates);
                }
            },
        }
    }
}

/// The cascade visits at most `min(trios supplied, MAX_UPLINE_DEPTH)`
/// ancestors, in list order from the nearest, and every ancestor it visits
/// before the last one had its chain completed (reset to an empty chain):
/// it stops at the first ancestor whose chain does not complete.
pub proof fn lemma_cascade_termination(
    c: CascadeView,
    ups: Seq<AccountSnapshot>,
    base: int,
    pool: PoolDataView,
    token_mint: Key,
    ids: Addresses,
)
    requires
        0 <= base <= ups.len(),
    ensures
        run_cascade(c, ups, base, pool, token_mint, ids) matches Ok(d) ==> {
            &&& c.updates.len() <= d.updates.len()
            &&& d.updates.len() - c.updates.len() <= MAX_UPLINE_DEPTH
            &&& d.updates.len() - c.updates.len() <= (ups.len() - base) / 3
            &&& d.updates.subrange(0, c.updates.len() as int) == c.updates
            &&& forall|k: int| c.updates.len() <= k < d.updates.len() ==> #[trigger] d.updates[k].index == k - c.updates.len()
            &&& forall|k: int| c.updates.len() <= k < d.updates.len() - 1 ==> #[trigger] d.updates[k].node.chain.filled_slots == 0
        },
{
    lemma_cascade_from_bounded(c, ups, base, 0, pool, token_mint, ids);
}

/// Valuation never fails: with a zero LP supply or reserve, or a share
/// product beyond `i128`, it gives the fixed fallback, as it does when a
/// vault account does not decode; and every result is at least one unit.
pub proof fn lemma_valuation_fallback(r: PoolReading, sol: u64)
    ensures
        r.a_vault_lp_supply == 0 || r.b_vault_lp_supply == 0 || r.total_token_a_amount == 0
            || r.total_token_b_amount == 0 ==> token_amount(r, sol) == FALLBACK_TOKEN_AMOUNT,
        r.total_token_a_amount * r.a_vault_lp_amount > i128::MAX || r.total_token_b_amount * r.b_vault_lp_amount
            > i128::MAX ==> token_amount(r, sol) == FALLBACK_TOKEN_AMOUNT,
        token_amount(r, sol) >= 1,
{
}

/// Vault data that does not decode gives the fixed fallback.
pub proof fn lemma_unreadable_pool_fallback(
    a_vault_lp: Seq<u8>,
    b_vault_lp: Seq<u8>,
    a_vault_lp_mint: Seq<u8>,
    b_vault_lp_mint: Seq<u8>,
    a_token_vault: Seq<u8>,
    b_token_vault: Seq<u8>,
    sol: u64,
)
    requires
        read_pool(a_vault_lp, b_vault_lp, a_vault_lp_mint, b_vault_lp_mint, a_token_vault, b_token_vault) is None,
    ensures
        tokens_for_accounts(a_vault_lp, b_vault_lp, a_vault_lp_mint, b_vault_lp_mint, a_token_vault, b_token_vault, sol)
            == FALLBACK_TOKEN_AMOUNT,
{
}

/// A reading older than the staleness bound always gives the minimum at the
/// default price, whatever price and decimals the feed reported.
pub proof fn lemma_stale_price_ignored(r1: PriceReading, r2: PriceReading)
    requires
        r1.current_timestamp - r1.feed_timestamp > 86400,
        r2.current_timestamp - r2.feed_timestamp > 86400,
    ensures
        is_stale(r1),
        minimum_deposit(r1) == minimum_lamports(DEFAULT_SOL_PRICE as int, DEFAULT_SOL_PRICE_DECIMALS as nat),
        minimum_deposit(r1) == minimum_deposit(r2),
{
}

/// Every node record held in the accounts is well formed, with a chain id
/// below `next_chain_id`.
pub open spec fn snapshot_nodes_wf(ups: Seq<AccountSnapshot>, next_chain_id: u32) -> bool {
    forall|j: int| 0 <= j < ups.len() && (#[trigger] ups[j]).node is Some ==> {
        &&& ups[j].node.unwrap()@.wf()
        &&& ups[j].node.unwrap()@.chain.id < next_chain_id
    }
}

/// Every record written back by a cascade is well formed, with a chain id
/// below `next_chain_id`.
pub open spec fn updates_wf(updates: Seq<UplineUpdateView>, next_chain_id: u32) -> bool {
    forall|k: int| 0 <= k < updates.len() ==> {
        &&& (#[trigger] updates[k]).node.wf()
        &&& updates[k].node.chain.id < next_chain_id
    }
}

proof fn lemma_cascade_from_wf(
    c: CascadeView,
    ups: Seq<AccountSnapshot>,
    base: int,
    i: int,
    pool: PoolDataView,
    token_mint: Key,
    ids: Addresses,
)
    requires
        0 <= base,
        0 <= i <= MAX_UPLINE_DEPTH,
        snapshot_nodes_wf(ups, c.next_chain_id),
        updates_wf(c.updates, c.next_chain_id),
    ensures
        cascade_from(c, ups, base, i, pool, token_mint, ids) matches Ok(d) ==> {
            &&& d.next_chain_id >= c.next_chain_id
            &&& updates_wf(d.updates, d.next_chain_id)
        },
    decreases MAX_UPLINE_DEPTH - i,
{
    if c.deposit == 0 || i >= MAX_UPLINE_DEPTH || c.expected is None {
    } else if !has_trio(ups, base, i) {
    } else {
        match cascade_step(c, ups, base, i, pool, token_mint, ids) {
            Err(e) => {},
            Ok(next) => {
                let c2 = next.0;
                let n = ups[base + 3 * i].node.unwrap()@;
                let wallet = ups[base + 3 * i + 1];
                let token = ups[base + 3 * i + 2];
                assert(ups[base + 3 * i].node is Some);
                assert(n.wf() && n.chain.id < c.next_chain_id);
                lemma_escrow_window(
                    n,
                    c.deposit,
                    pool_tokens(pool, c.deposit),
                    c.wrapped_open,
                    wallet.key,
                    token.key,
                    c.filler,
                    c.next_chain_id,
                );
                assert(updates_wf(c2.updates, c2.next_chain_id)) by {
                    assert forall|k: int| 0 <= k < c2.updates.len() implies {
                        &&& (#[trigger] c2.updates[k]).node.wf()
                        &&& c2.updates[k].node.chain.id < c2.next_chain_id
                    } by {
                        if k < c.updates.len() {
                            assert(c2.updates[k] == c.updates[k]);
                        }
                    }
                }
                if next.1 {
                    lemma_cascade_from_wf(c2, ups, base, i + 1, pool, token_mint, ids);
                }
            },
        }
    }
}

/// A registration under a referrer keeps the records and counters sound:
/// the counters only move forward (the new node takes the current ids, and
/// no id is issued twice); the referrer, the new node and every ancestor
/// record written back stay well formed (fill count below 3, escrow held
/// only at two filled slots, bounded upline window); and every chain id
/// stays below the chain counter, so each later reset raises a chain's id.
pub proof fn lemma_registration_sound(
    a: RegisterWithSolDeposit,
    remaining: Seq<AccountSnapshot>,
    price: Option<PriceReading>,
    deposit: u64,
    ids: Addresses,
)
    requires
        a.referrer@.wf(),
        a.referrer@.chain.id < a.state.next_chain_id,
        snapshot_nodes_wf(remaining, a.state.next_chain_id),
    ensures
        sol_registration(a, remaining, price, deposit, ids) matches Ok(v) ==> {
            &&& v.state.next_upline_id == a.state.next_upline_id + 1
            &&& v.state.next_chain_id > a.state.next_chain_id
            &&& v.user.upline.id == a.state.next_upline_id
            &&& v.user.chain.id == a.state.next_chain_id
            &&& v.user.wf()
            &&& v.referrer.wf()
            &&& v.referrer.chain.id < v.state.next_chain_id
            &&& updates_wf(v.uplines, v.state.next_chain_id)
        },
{
    if let Ok(_) = deposit_checks(a, remaining, price, deposit, ids) {
        let st = after_ids_issued(a.state);
        let r = a.referrer@;
        let pool = pool_of(a, remaining);
        lemma_escrow_window(
            r,
            deposit,
            pool_tokens(pool, deposit),
            true,
            a.referrer_wallet,
            a.referrer_token_account.key,
            a.user_wallet,
            st.next_chain_id,
        );
        let user = new_node(
            a.user_wallet,
            Some(a.referrer_key),
            a.state.next_upline_id,
            (r.upline.depth + 1) as u8,
            upline_window(r.upline.upline, UplineEntry { pda: a.referrer_key, wallet: a.referrer_wallet }),
            a.state.next_chain_id,
        );
        assert(user.chain.wf());
        if fill_completes(r.chain) {
            let effect = slot_effect(r, deposit, pool_tokens(pool, deposit), true, a.referrer_wallet, a.referrer_token_account.key);
            let start = CascadeView {
                next_chain_id: (st.next_chain_id + 1) as u32,
                deposit,
                filler: a.referrer_key,
                expected: r.referrer,
                wrapped_open: true,
                updates: Seq::empty(),
                actions: seq![Action::WrapSol { amount: deposit }] + effect.1,
                events: if r.chain.filled_slots < 3 {
                    seq![fill_event(r.chain, a.user_wallet, a.referrer_key)]
                } else {
                    Seq::empty()
                },
            };
            let base = FIXED_REMAINING_ACCOUNTS as int;
            if !(deposit > 0 && (remaining.len() - base) % 3 != 0) {
                lemma_cascade_from_wf(start, remaining, base, 0, pool, a.token_mint, ids);
            }
        }
    }
}

} // verus!
