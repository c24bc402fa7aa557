//! The upline cascade: once a node's chain completes, the deposit moves up
//! through its ancestors, one level per completed chain, within a depth bound.
use vstd::prelude::*;
use crate::key::Key;
use crate::accounts::{AccountSnapshot, ErrorCode, SlotFilled, UserAccount, UserAccountView, MAX_UPLINE_DEPTH};
use crate::addresses::{Addresses, token_account_ok, verify_token_account, verify_wallet_is_system_account};
use crate::chain::{chain_after_fill, fill_completes, fill_event, fill_next_slot, with_chain};
use crate::settlement::{Action, PoolData, PoolDataView, apply_slot_effect, pool_tokens, slot_effect};

verus! {

/// An ancestor's node record as the cascade left it; `index` is the position
/// of its trio in the ancestor list.
#[derive(Clone, Debug)]
pub struct UplineUpdate {
    pub index: usize,
    pub key: Key,
    pub node: UserAccount,
}

pub ghost struct UplineUpdateView {
    pub index: usize,
    pub key: Key,
    pub node: UserAccountView,
}

impl View for UplineUpdate {
    type V = UplineUpdateView;

    open spec fn view(&self) -> UplineUpdateView {
        UplineUpdateView { index: self.index, key: self.key, node: self.node@ }
    }
}

/// The running state of a cascade.
#[derive(Clone, Debug)]
pub struct Cascade {
    /// The id that the next completed chain is reset under.
    pub next_chain_id: u32,
    /// The part of the deposit not yet forwarded or reserved.
    pub deposit: u64,
    /// The identity that fills the next ancestor's slot: the node whose
    /// chain completed last.
    pub filler: Key,
    /// The referrer of that node: whether another ancestor is needed.
    pub expected: Option<Key>,
    /// Whether the depositor's wrapped-SOL account is still open.
    pub wrapped_open: bool,
    pub updates: Vec<UplineUpdate>,
    pub actions: Vec<Action>,
    pub events: Vec<SlotFilled>,
}

pub ghost struct CascadeView {
    pub next_chain_id: u32,
    pub deposit: u64,
    pub filler: Key,
    pub expected: Option<Key>,
    pub wrapped_open: bool,
    pub updates: Seq<UplineUpdateView>,
    pub actions: Seq<Action>,
    pub events: Seq<SlotFilled>,
}

impl View for Cascade {
    type V = CascadeView;

    open spec fn view(&self) -> CascadeView {
        CascadeView {
            next_chain_id: self.next_chain_id,
            deposit: self.deposit,
            filler: self.filler,
            expected: self.expected,
            wrapped_open: self.wrapped_open,
            updates: self.updates@.map_values(|u: UplineUpdate| u@),
            actions: self.actions@,
            events: self.events@,
        }
    }
}

/// Whether the accounts from `base` on hold a full trio at position `i`.
pub open spec fn has_trio(ups: Seq<AccountSnapshot>, base: int, i: int) -> bool {
    base + 3 * i + 3 <= ups.len()
}

/// One level of the cascade, at the trio `i` (node account, wallet, token
/// account). The wallet must belong to the system program and the node
/// account to this program, hold a registered node with a free slot and,
/// where the fill pays out escrow, a valid token account of the wallet.
/// The node then gets the effect of its next slot for the unspent deposit,
/// and its chain moves. Returns the new state and whether the node's chain
/// completed.
pub open spec fn cascade_step(
    c: CascadeView,
    ups: Seq<AccountSnapshot>,
    base: int,
    i: int,
    pool: PoolDataView,
    token_mint: Key,
    ids: Addresses,
) -> Result<(CascadeView, bool), ErrorCode> {
    let node_acc = ups[base + 3 * i];
    let wallet = ups[base + 3 * i + 1];
    let token = ups[base + 3 * i + 2];
    if wallet.owner != ids.system_program {
        Err(ErrorCode::PaymentWalletInvalid)
    } else if node_acc.owner != ids.program_id {
        Err(ErrorCode::InvalidSlotOwner)
    } else if node_acc.node is None {
        Err(ErrorCode::InvalidAccountData)
    } else {
        let n = node_acc.node.unwrap()@;
        let s = n.chain.filled_slots;
        let completed = fill_completes(n.chain);
        if !n.is_registered {
            Err(ErrorCode::SlotNotRegistered)
        } else if s >= 3 {
            Err(ErrorCode::ChainFull)
        } else if s == 2 && !token_account_ok(token.owner, token.data@, wallet.key, token_mint, ids) {
            Err(ErrorCode::TokenAccountInvalid)
        } else if completed && c.next_chain_id == u32::MAX {
            Err(ErrorCode::CounterOverflow)
        } else {
            let effect = slot_effect(n, c.deposit, pool_tokens(pool, c.deposit), c.wrapped_open, wallet.key, token.key);
            let node_after = with_chain(effect.0, chain_after_fill(n.chain, c.filler, c.next_chain_id));
            Ok((
                CascadeView {
                    next_chain_id: if completed { (c.next_chain_id + 1) as u32 } else { c.next_chain_id },
                    deposit: if s < 2 { 0 } else { c.deposit },
                    filler: if completed { node_acc.key } else { c.filler },
                    expected: n.referrer,
                    wrapped_open: c.wrapped_open && s != 1,
                    updates: c.updates.push(UplineUpdateView { index: i as usize, key: node_acc.key, node: node_after }),
                    actions: c.actions + effect.1,
                    events: c.events.push(fill_event(n.chain, c.filler, node_acc.key)),
                },
                completed,
            ))
        }
    }
}

/// The cascade from level `i` on. It stops, without error, once the deposit
/// is spent, at the depth bound, or at a node with no referrer; it needs the
/// trio of every further level (`MissingUplineAccount`); and it moves on
/// only past a node whose chain completed.
pub open spec fn cascade_from(
    c: CascadeView,
    ups: Seq<AccountSnapshot>,
    base: int,
    i: int,
    pool: PoolDataView,
    token_mint: Key,
    ids: Addresses,
) -> Result<CascadeView, ErrorCode>
    decreases MAX_UPLINE_DEPTH - i,
{
    if c.deposit == 0 || i >= MAX_UPLINE_DEPTH || c.expected is None {
        Ok(c)
    } else if !has_trio(ups, base, i) {
        Err(ErrorCode::MissingUplineAccount)
    } else {
        match cascade_step(c, ups, base, i, pool, token_mint, ids) {
            Err(e) => Err(e),
            Ok(next) => if next.1 {
                cascade_from(next.0, ups, base, i + 1, pool, token_mint, ids)
            } else {
                Ok(next.0)
            },
        }
    }
}

/// What follows the cascade: an unspent deposit goes to the pool, and the
/// wrapped-SOL account is closed if still open.
pub open spec fn cascade_finish(c: CascadeView) -> Seq<Action> {
    (if c.deposit > 0 && c.wrapped_open {
        seq![Action::DepositToPool { amount: c.deposit }]
    } else {
        Seq::empty()
    }) + (if c.wrapped_open { seq![Action::UnwrapSol] } else { Seq::empty() })
}

/// The whole cascade over the ancestor list `ups[base..]` (trios, nearest
/// ancestor first), whose length must be a multiple of 3 when a deposit is
/// left.
pub open spec fn run_cascade(
    c: CascadeView,
    ups: Seq<AccountSnapshot>,
    base: int,
    pool: PoolDataView,
    token_mint: Key,
    ids: Addresses,
) -> Result<CascadeView, ErrorCode> {
    if c.deposit > 0 && (ups.len() - base) % 3 != 0 {
        Err(ErrorCode::MissingUplineAccount)
    } else {
        match cascade_from(c, ups, base, 0, pool, token_mint, ids) {
            Err(e) => Err(e),
            Ok(d) => Ok(CascadeView { actions: d.actions + cascade_finish(d), ..d }),
        }
    }
}

fn step(
    c: &mut Cascade,
    uplines: &Vec<AccountSnapshot>,
    base: usize,
    i: usize,
    pool: &PoolData,
    token_mint: &Key,
    ids: &Addresses,
) -> (r: Result<bool, ErrorCode>)
    requires
        i < MAX_UPLINE_DEPTH,
        has_trio(uplines@, base as int, i as int),
    ensures
        match cascade_step(old(c)@, uplines@, base as int, i as int, pool@, *token_mint, *ids) {
            Ok(next) => r == Ok::<bool, ErrorCode>(next.1) && final(c)@ == next.0,
            Err(e) => r == Err::<bool, ErrorCode>(e),
        },
{
    let n = uplines.len();
    let k = base + 3 * i;
    let node_acc = &uplines[k];
    let wallet = &uplines[k + 1];
    let token = &uplines[k + 2];
    verify_wallet_is_system_account(&wallet.owner, ids)?;
    if node_acc.owner != ids.program_id {
        return Err(ErrorCode::InvalidSlotOwner);
    }
    let mut node = match &node_acc.node {
        Some(n) => n.duplicate(),
        None => {
            return Err(ErrorCode::InvalidAccountData);
        },
    };
    if !node.is_registered {
        return Err(ErrorCode::SlotNotRegistered);
    }
    let s = node.chain.filled_slots;
    if s >= 3 {
        return Err(ErrorCode::ChainFull);
    }
    if s == 2 {
        verify_token_account(token, &wallet.key, token_mint, ids)?;
    }
    let completed = s == 2;
    if completed && c.next_chain_id == u32::MAX {
        return Err(ErrorCode::CounterOverflow);
    }
    let ghost n0 = node@;
    let ghost c0 = c@;
    apply_slot_effect(&mut node, c.deposit, pool, c.wrapped_open, wallet.key, token.key, &mut c.actions);
    let filler = c.filler;
    fill_next_slot(&mut node.chain, filler, node_acc.key, c.next_chain_id, &mut c.events);
    if completed {
        c.next_chain_id = c.next_chain_id + 1;
        c.filler = node_acc.key;
    }
    if s < 2 {
        c.deposit = 0;
    }
    if s == 1 {
        c.wrapped_open = false;
    }
    c.expected = node.referrer;
    let ghost node_after = node@;
    c.updates.push(UplineUpdate { index: i, key: node_acc.key, node });
    proof {
        let effect = slot_effect(n0, c0.deposit, pool_tokens(pool@, c0.deposit), c0.wrapped_open, wallet.key, token.key);
        assert(node_after == with_chain(effect.0, chain_after_fill(n0.chain, c0.filler, c0.next_chain_id)));
        assert(c@.updates =~= c0.updates.push(UplineUpdateView { index: i, key: node_acc.key, node: node_after }));
    }
    Ok(completed)
}

/// Runs the cascade from its start state `c` over the ancestor trios in
/// `uplines[base..]`, then settles what is left of the deposit.
pub fn process_upline_cascade(
    c: &mut Cascade,
    uplines: &Vec<AccountSnapshot>,
    base: usize,
    pool: &PoolData,
    token_mint: &Key,
    ids: &Addresses,
) -> (r: Result<(), ErrorCode>)
    requires
        base <= uplines@.len(),
    ensures
        match run_cascade(old(c)@, uplines@, base as int, pool@, *token_mint, *ids) {
            Ok(d) => r is Ok && final(c)@ == d,
            Err(e) => r == Err::<(), ErrorCode>(e),
        },
{
    if c.deposit > 0 && (uplines.len() - base) % 3 != 0 {
        return Err(ErrorCode::MissingUplineAccount);
    }
    let mut i: usize = 0;
    while c.deposit > 0 && i < MAX_UPLINE_DEPTH && c.expected.is_some()
        invariant_except_break
            i <= MAX_UPLINE_DEPTH,
            cascade_from(old(c)@, uplines@, base as int, 0, pool@, *token_mint, *ids) == cascade_from(
                c@,
                uplines@,
                base as int,
                i as int,
                pool@,
                *token_mint,
                *ids,
            ),
        invariant
            !(old(c).deposit > 0 && (uplines@.len() - base) % 3 != 0),
            base <= uplines@.len(),
        ensures
            cascade_from(old(c)@, uplines@, base as int, 0, pool@, *token_mint, *ids) == Ok::<CascadeView, ErrorCode>(c@),
        decreases MAX_UPLINE_DEPTH - i,
    {
        if uplines.len() < base || uplines.len() - base < 3 * i + 3 {
            return Err(ErrorCode::MissingUplineAccount);
        }
        let ghost before = c@;
        let completed = match step(c, uplines, base, i, pool, token_mint, ids) {
            Ok(b) => b,
            Err(e) => {
                assert(cascade_from(before, uplines@, base as int, i as int, pool@, *token_mint, *ids) == Err::<CascadeView, ErrorCode>(e));
                return Err(e);
            },
        };
        if !completed {
            break;
        }
        i = i + 1;
    }
    let ghost d = c@;
    if c.deposit > 0 && c.wrapped_open {
        c.actions.push(Action::DepositToPool { amount: c.deposit });
    }
    let ghost mid = c.actions@;
    if c.wrapped_open {
        c.actions.push(Action::UnwrapSol);
    }
    proof {
        assert(mid =~= d.actions + (if d.deposit > 0 && d.wrapped_open {
            seq![Action::DepositToPool { amount: d.deposit }]
        } else {
            Seq::<Action>::empty()
        }));
        assert(c.actions@ =~= d.actions + cascade_finish(d));
    }
    Ok(())
}

} // verus!
