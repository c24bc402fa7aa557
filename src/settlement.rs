//! The settlement dispatcher: the financial effect of filling slot 0, 1 or 2
//! of a node, stated as the transfers it asks for.
use vstd::prelude::*;
use crate::key::Key;
use crate::accounts::{UserAccount, UserAccountView};
use crate::valuation::{get_donut_tokens_amount, tokens_for_accounts};

verus! {

/// A transfer that settlement asks the token service to carry out. An
/// operation's actions are carried out in order, all or none.
#[derive(PartialEq, Eq, Structural, Clone, Copy, Debug)]
pub enum Action {
    /// Move `amount` lamports from the depositor's wallet into their
    /// wrapped-SOL account, and sync that account.
    WrapSol { amount: u64 },
    /// Deposit `amount` from the depositor's wrapped-SOL account into the
    /// shared liquidity pool.
    DepositToPool { amount: u64 },
    /// Close the depositor's wrapped-SOL account, returning its balance to
    /// their wallet.
    UnwrapSol,
    /// Move `amount` lamports from the depositor's wallet into the program's
    /// SOL vault.
    ReserveSol { amount: u64 },
    /// Mint `amount` tokens into the program's token vault.
    MintTokens { amount: u64 },
    /// Pay `amount` lamports from the program's SOL vault to `wallet`.
    PaySol { wallet: Key, amount: u64 },
    /// Transfer `amount` tokens from the program's token vault to `token_account`.
    TransferTokens { token_account: Key, amount: u64 },
}

/// Raw data of the six vault accounts that price the token.
#[derive(Clone, Debug)]
pub struct PoolData {
    pub a_vault_lp: Vec<u8>,
    pub b_vault_lp: Vec<u8>,
    pub a_vault_lp_mint: Vec<u8>,
    pub b_vault_lp_mint: Vec<u8>,
    pub a_token_vault: Vec<u8>,
    pub b_token_vault: Vec<u8>,
}

pub ghost struct PoolDataView {
    pub a_vault_lp: Seq<u8>,
    pub b_vault_lp: Seq<u8>,
    pub a_vault_lp_mint: Seq<u8>,
    pub b_vault_lp_mint: Seq<u8>,
    pub a_token_vault: Seq<u8>,
    pub b_token_vault: Seq<u8>,
}

impl View for PoolData {
    type V = PoolDataView;

    open spec fn view(&self) -> PoolDataView {
        PoolDataView {
            a_vault_lp: self.a_vault_lp@,
            b_vault_lp: self.b_vault_lp@,
            a_vault_lp_mint: self.a_vault_lp_mint@,
            b_vault_lp_mint: self.b_vault_lp_mint@,
            a_token_vault: self.a_token_vault@,
            b_token_vault: self.b_token_vault@,
        }
    }
}

/// Tokens worth `amount` lamports at the pool held in `p`.
pub open spec fn pool_tokens(p: PoolDataView, amount: u64) -> u64 {
    tokens_for_accounts(p.a_vault_lp, p.b_vault_lp, p.a_vault_lp_mint, p.b_vault_lp_mint,
        p.a_token_vault, p.b_token_vault, amount)
}

/// Tokens worth `amount` lamports at the pool held in `pool`.
pub fn tokens_for_deposit(pool: &PoolData, amount: u64) -> (r: u64)
    ensures
        r == pool_tokens(pool@, amount),
{
    get_donut_tokens_amount(pool.a_vault_lp.as_slice(), pool.b_vault_lp.as_slice(),
        pool.a_vault_lp_mint.as_slice(), pool.b_vault_lp_mint.as_slice(),
        pool.a_token_vault.as_slice(), pool.b_token_vault.as_slice(), amount)
}

/// Payout of the escrow held by `n`: its SOL to `wallet`, its tokens to
/// `token_account`, each only where non-zero.
pub open spec fn payouts(n: UserAccountView, wallet: Key, token_account: Key) -> Seq<Action> {
    (if n.reserved_sol > 0 {
        seq![Action::PaySol { wallet, amount: n.reserved_sol }]
    } else {
        Seq::empty()
    }) + (if n.reserved_tokens > 0 {
        seq![Action::TransferTokens { token_account, amount: n.reserved_tokens }]
    } else {
        Seq::empty()
    })
}

/// The effect of filling the next slot of `n` with a deposit of `amount`
/// (worth `tokens` tokens): the node afterwards, before its chain moves, and
/// the actions asked for.
/// - slot 0: the deposit goes to the pool;
/// - slot 1: the wrapped-SOL account is closed (if `wrapped_open`), the
///   deposit is reserved in the SOL vault and `tokens` are minted into the
///   token vault, both recorded as the node's escrow;
/// - slot 2: the escrow is paid out to the node's wallet and token account,
///   and zeroed.
/// A node with no free slot is left unchanged.
pub open spec fn slot_effect(
    n: UserAccountView,
    amount: u64,
    tokens: u64,
    wrapped_open: bool,
    wallet: Key,
    token_account: Key,
) -> (UserAccountView, Seq<Action>) {
    let s = n.chain.filled_slots;
    if s == 0 {
        (n, seq![Action::DepositToPool { amount }])
    } else if s == 1 {
        (
            UserAccountView { reserved_sol: amount, reserved_tokens: tokens, ..n },
            (if wrapped_open { seq![Action::UnwrapSol] } else { Seq::empty() }) + seq![
                Action::ReserveSol { amount },
                Action::MintTokens { amount: tokens },
            ],
        )
    } else if s == 2 {
        (UserAccountView { reserved_sol: 0, reserved_tokens: 0, ..n }, payouts(n, wallet, token_account))
    } else {
        (n, Seq::empty())
    }
}

/// Applies the effect of filling the next slot of `node` with `amount`,
/// appending the actions it asks for to `actions`. The token quantity is
/// priced from `pool` only when slot 1 is filled.
pub fn apply_slot_effect(
    node: &mut UserAccount,
    amount: u64,
    pool: &PoolData,
    wrapped_open: bool,
    wallet: Key,
    token_account: Key,
    actions: &mut Vec<Action>,
)
    ensures
        final(node)@ == slot_effect(old(node)@, amount, pool_tokens(pool@, amount), wrapped_open, wallet, token_account).0,
        final(actions)@ == old(actions)@ + slot_effect(
            old(node)@,
            amount,
            pool_tokens(pool@, amount),
            wrapped_open,
            wallet,
            token_account,
        ).1,
{
    let s = node.chain.filled_slots;
    if s == 0 {
        actions.push(Action::DepositToPool { amount });
        assert(actions@ =~= old(actions)@ + seq![Action::DepositToPool { amount }]);
    } else if s == 1 {
        if wrapped_open {
            actions.push(Action::UnwrapSol);
        }
        actions.push(Action::ReserveSol { amount });
        node.reserved_sol = amount;
        let tokens = tokens_for_deposit(pool, amount);
        actions.push(Action::MintTokens { amount: tokens });
        node.reserved_tokens = tokens;
        assert(actions@ =~= old(actions)@ + slot_effect(old(node)@, amount, tokens, wrapped_open, wallet, token_account).1);
    } else if s == 2 {
        let ghost before = actions@;
        if node.reserved_sol > 0 {
            actions.push(Action::PaySol { wallet, amount: node.reserved_sol });
            node.reserved_sol = 0;
        }
        let ghost mid = actions@;
        if node.reserved_tokens > 0 {
            actions.push(Action::TransferTokens { token_account, amount: node.reserved_tokens });
            node.reserved_tokens = 0;
        }
        assert(mid =~= before + (if old(node).reserved_sol > 0 {
            seq![Action::PaySol { wallet, amount: old(node).reserved_sol }]
        } else {
            Seq::<Action>::empty()
        }));
        assert(actions@ =~= old(actions)@ + payouts(old(node)@, wallet, token_account));
    } else {
        assert(actions@ =~= old(actions)@ + Seq::<Action>::empty());
    }
}

} // verus!
