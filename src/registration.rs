//! The operations of the program: initializing the counters, registering the
//! first participant, and registering a participant under a referrer with a
//! deposit that is settled through the referrer and its ancestors.
use vstd::prelude::*;
use crate::key::Key;
use crate::accounts::{
    AccountSnapshot, ChainView, ErrorCode, ProgramState, ReferralChain, ReferralUpline, SlotFilled,
    UplineEntry, UplineView, UserAccount, UserAccountView, MAX_UPLINE_DEPTH,
};
use crate::addresses::{
    Addresses, check_ata, check_chainlink, check_fixed, check_vault_a, token_account_ok,
    verify_all_fixed_addresses, verify_ata_strict, verify_chainlink_addresses, verify_token_account,
    verify_vault_a_addresses, verify_wallet_is_system_account,
};
use crate::cascade::{Cascade, CascadeView, UplineUpdate, UplineUpdateView, process_upline_cascade, run_cascade};
use crate::chain::{chain_after_fill, empty_slots, fill_completes, fill_event, process_referrer_chain, with_chain};
use crate::settlement::{Action, PoolData, PoolDataView, apply_slot_effect, pool_tokens, slot_effect};
use crate::valuation::{PriceReading, calculate_minimum_sol_deposit, minimum_deposit};

verus! {

/// Accounts read by `initialize`.
#[derive(PartialEq, Eq, Structural, Clone, Copy, Debug)]
pub struct Initialize {
    pub state: ProgramState,
    pub owner: Key,
}

/// Sets up the counters once: fails if the state already has an owner.
pub fn initialize(accounts: &Initialize, ids: &Addresses) -> (r: Result<ProgramState, ErrorCode>)
    ensures
        r == (if accounts.state.owner != Key::spec_zero() {
            Err(ErrorCode::AlreadyInitialized)
        } else {
            Ok(ProgramState {
                owner: accounts.owner,
                multisig_treasury: ids.multisig_treasury,
                next_upline_id: 1,
                next_chain_id: 1,
            })
        }),
{
    if accounts.state.owner != Key::zero() {
        return Err(ErrorCode::AlreadyInitialized);
    }
    Ok(ProgramState {
        owner: accounts.owner,
        multisig_treasury: ids.multisig_treasury,
        next_upline_id: 1,
        next_chain_id: 1,
    })
}

/// A freshly registered node: empty chain `chain_id`, no escrow.
pub open spec fn new_node(
    wallet: Key,
    referrer: Option<Key>,
    upline_id: u32,
    depth: u8,
    upline: Seq<UplineEntry>,
    chain_id: u32,
) -> UserAccountView {
    UserAccountView {
        is_registered: true,
        referrer,
        owner_wallet: wallet,
        upline: UplineView { id: upline_id, depth, upline },
        chain: ChainView { id: chain_id, slots: empty_slots(), filled_slots: 0 },
        reserved_sol: 0,
        reserved_tokens: 0,
    }
}

fn make_node(
    wallet: Key,
    referrer: Option<Key>,
    upline_id: u32,
    depth: u8,
    upline: Vec<UplineEntry>,
    chain_id: u32,
) -> (r: UserAccount)
    ensures
        r@ == new_node(wallet, referrer, upline_id, depth, upline@, chain_id),
{
    let r = UserAccount {
        is_registered: true,
        referrer,
        owner_wallet: wallet,
        upline: ReferralUpline { id: upline_id, depth, upline },
        chain: ReferralChain { id: chain_id, slots: [None, None, None], filled_slots: 0 },
        reserved_sol: 0,
        reserved_tokens: 0,
    };
    assert(r.chain.slots@ =~= empty_slots());
    r
}

/// The state with both counters moved past the ids just issued.
pub open spec fn after_ids_issued(s: ProgramState) -> ProgramState {
    ProgramState {
        next_upline_id: (s.next_upline_id + 1) as u32,
        next_chain_id: (s.next_chain_id + 1) as u32,
        ..s
    }
}

/// Accounts read by `register_without_referrer`.
#[derive(PartialEq, Eq, Structural, Clone, Copy, Debug)]
pub struct RegisterWithoutReferrerDeposit {
    pub state: ProgramState,
    /// The signer, who must be the treasury.
    pub owner: Key,
    pub user_wallet: Key,
    /// The new node's account.
    pub user_key: Key,
    pub pool: Key,
    pub b_vault_lp: Key,
    pub token_mint: Key,
    pub wsol_mint: Key,
}

/// The outcome of registering a participant without a referrer.
#[derive(Clone, Debug)]
pub struct RootRegistration {
    pub state: ProgramState,
    pub user: UserAccount,
    pub actions: Vec<Action>,
    pub events: Vec<SlotFilled>,
}

pub ghost struct RootRegistrationView {
    pub state: ProgramState,
    pub user: UserAccountView,
    pub actions: Seq<Action>,
    pub events: Seq<SlotFilled>,
}

impl View for RootRegistration {
    type V = RootRegistrationView;

    open spec fn view(&self) -> RootRegistrationView {
        RootRegistrationView { state: self.state, user: self.user@, actions: self.actions@, events: self.events@ }
    }
}

/// Registering a participant with no referrer: only the treasury may do it;
/// the node gets fresh ids and an empty upline, and the whole deposit is
/// wrapped and goes to the pool.
pub open spec fn root_registration(a: RegisterWithoutReferrerDeposit, deposit: u64, ids: Addresses) -> Result<RootRegistrationView, ErrorCode> {
    if a.owner != ids.multisig_treasury {
        Err(ErrorCode::NotAuthorized)
    } else {
        match check_fixed(a.pool, a.b_vault_lp, a.token_mint, a.wsol_mint, ids) {
            Err(e) => Err(e),
            Ok(_) => if a.state.next_upline_id == u32::MAX || a.state.next_chain_id == u32::MAX {
                Err(ErrorCode::CounterOverflow)
            } else {
                Ok(RootRegistrationView {
                    state: after_ids_issued(a.state),
                    user: new_node(a.user_wallet, None, a.state.next_upline_id, 1, Seq::empty(), a.state.next_chain_id),
                    actions: seq![Action::WrapSol { amount: deposit }, Action::DepositToPool { amount: deposit }],
                    events: seq![SlotFilled { slot_idx: 0, chain_id: a.state.next_chain_id, user: a.user_wallet, owner: a.user_key }],
                })
            },
        }
    }
}

pub fn register_without_referrer(
    accounts: &RegisterWithoutReferrerDeposit,
    deposit_amount: u64,
    ids: &Addresses,
) -> (r: Result<RootRegistration, ErrorCode>)
    ensures
        match root_registration(*accounts, deposit_amount, *ids) {
            Ok(v) => r matches Ok(g) && g@ == v,
            Err(e) => r matches Err(f) && f == e,
        },
{
    if accounts.owner != ids.multisig_treasury {
        return Err(ErrorCode::NotAuthorized);
    }
    match verify_all_fixed_addresses(&accounts.pool, &accounts.b_vault_lp, &accounts.token_mint, &accounts.wsol_mint, ids) {
        Ok(()) => {},
        Err(e) => {
            return Err(e);
        },
    }
    let state = accounts.state;
    if state.next_upline_id == u32::MAX || state.next_chain_id == u32::MAX {
        return Err(ErrorCode::CounterOverflow);
    }
    let new_state = ProgramState {
        next_upline_id: state.next_upline_id + 1,
        next_chain_id: state.next_chain_id + 1,
        ..state
    };
    let user = make_node(accounts.user_wallet, None, state.next_upline_id, 1, Vec::new(), state.next_chain_id);
    let mut actions: Vec<Action> = Vec::new();
    actions.push(Action::WrapSol { amount: deposit_amount });
    actions.push(Action::DepositToPool { amount: deposit_amount });
    let mut events: Vec<SlotFilled> = Vec::new();
    events.push(SlotFilled { slot_idx: 0, chain_id: state.next_chain_id, user: accounts.user_wallet, owner: accounts.user_key });
    let r = RootRegistration { state: new_state, user, actions, events };
    assert(r@.actions =~= seq![Action::WrapSol { amount: deposit_amount }, Action::DepositToPool { amount: deposit_amount }]);
    assert(r@.events =~= seq![SlotFilled { slot_idx: 0, chain_id: state.next_chain_id, user: accounts.user_wallet, owner: accounts.user_key }]);
    assert(r@.user.upline.upline =~= Seq::<UplineEntry>::empty());
    Ok(r)
}

/// The upline window of a referrer's new child: the referrer's window with
/// the referrer appended, keeping only the `MAX_UPLINE_DEPTH` newest entries.
pub open spec fn upline_window(prev: Seq<UplineEntry>, entry: UplineEntry) -> Seq<UplineEntry> {
    if prev.len() >= MAX_UPLINE_DEPTH {
        prev.subrange(prev.len() - (MAX_UPLINE_DEPTH - 1), prev.len() as int).push(entry)
    } else {
        prev.push(entry)
    }
}

pub fn build_upline(prev: &Vec<UplineEntry>, entry: UplineEntry) -> (r: Vec<UplineEntry>)
    ensures
        r@ == upline_window(prev@, entry),
{
    let n = prev.len();
    let start: usize = if n >= MAX_UPLINE_DEPTH { n - (MAX_UPLINE_DEPTH - 1) } else { 0 };
    let mut out: Vec<UplineEntry> = Vec::new();
    let mut i: usize = start;
    while i < n
        invariant
            n == prev@.len(),
            start <= i <= n,
            out@ == prev@.subrange(start as int, i as int),
        decreases n - i,
    {
        out.push(prev[i]);
        i = i + 1;
        assert(out@ =~= prev@.subrange(start as int, i as int));
    }
    out.push(entry);
    assert(prev@.subrange(0, n as int) =~= prev@);
    out
}

/// Accounts read by `register_with_sol_deposit`.
#[derive(Clone, Debug)]
pub struct RegisterWithSolDeposit {
    pub state: ProgramState,
    pub user_wallet: Key,
    /// The referrer's node account, and its record.
    pub referrer_key: Key,
    pub referrer: UserAccount,
    /// The wallet that receives the referrer's SOL payouts, and the program that owns it.
    pub referrer_wallet: Key,
    pub referrer_wallet_owner: Key,
    pub pool: Key,
    pub b_vault_lp: AccountSnapshot,
    pub b_token_vault: AccountSnapshot,
    pub b_vault_lp_mint: AccountSnapshot,
    pub token_mint: Key,
    pub wsol_mint: Key,
    /// The token account that receives the referrer's token payouts.
    pub referrer_token_account: AccountSnapshot,
}

/// The outcome of registering a participant under a referrer.
#[derive(Clone, Debug)]
pub struct Registration {
    pub state: ProgramState,
    pub referrer: UserAccount,
    pub user: UserAccount,
    /// The ancestors the cascade reached, nearest first.
    pub uplines: Vec<UplineUpdate>,
    pub actions: Vec<Action>,
    pub events: Vec<SlotFilled>,
}

pub ghost struct RegistrationView {
    pub state: ProgramState,
    pub referrer: UserAccountView,
    pub user: UserAccountView,
    pub uplines: Seq<UplineUpdateView>,
    pub actions: Seq<Action>,
    pub events: Seq<SlotFilled>,
}

impl View for Registration {
    type V = RegistrationView;

    open spec fn view(&self) -> RegistrationView {
        RegistrationView {
            state: self.state,
            referrer: self.referrer@,
            user: self.user@,
            uplines: self.uplines@.map_values(|u: UplineUpdate| u@),
            actions: self.actions@,
            events: self.events@,
        }
    }
}

/// Number of leading accounts in the extra account list: the three vault-A
/// accounts, then the price feed and the oracle program.
pub const FIXED_REMAINING_ACCOUNTS: usize = 5;

/// The vault data that prices the token: vault A from the extra accounts,
/// vault B from the named accounts.
pub open spec fn pool_of(a: RegisterWithSolDeposit, remaining: Seq<AccountSnapshot>) -> PoolDataView {
    PoolDataView {
        a_vault_lp: remaining[0].data@,
        b_vault_lp: a.b_vault_lp.data@,
        a_vault_lp_mint: remaining[1].data@,
        b_vault_lp_mint: a.b_vault_lp_mint.data@,
        a_token_vault: remaining[2].data@,
        b_token_vault: a.b_token_vault.data@,
    }
}

/// Checks before a referrer's slot 2 is filled: a non-zero SOL escrow needs
/// a plain wallet, the payout needs a valid token account, and the chain
/// reset needs a fresh id.
pub open spec fn payout_checks(a: RegisterWithSolDeposit, ids: Addresses) -> Result<(), ErrorCode> {
    let r = a.referrer@;
    if r.chain.filled_slots != 2 {
        Ok(())
    } else if r.reserved_sol > 0 && a.referrer_wallet_owner != ids.system_program {
        Err(ErrorCode::PaymentWalletInvalid)
    } else if !token_account_ok(a.referrer_token_account.owner, a.referrer_token_account.data@, a.referrer_wallet, a.token_mint, ids) {
        Err(ErrorCode::TokenAccountInvalid)
    } else if a.state.next_chain_id + 1 >= u32::MAX {
        Err(ErrorCode::CounterOverflow)
    } else {
        Ok(())
    }
}

/// Everything that must hold before a deposit under a referrer is settled,
/// checked in this order: a registered referrer, the five leading extra
/// accounts, the allow-listed vault, pool, mint and oracle addresses, a
/// readable price, a deposit of at least the minimum, the referrer's token
/// account, fresh ids and room in the depth counter, and the payout checks.
pub open spec fn deposit_checks(
    a: RegisterWithSolDeposit,
    remaining: Seq<AccountSnapshot>,
    price: Option<PriceReading>,
    deposit: u64,
    ids: Addresses,
) -> Result<(), ErrorCode> {
    if !a.referrer.is_registered {
        Err(ErrorCode::ReferrerNotRegistered)
    } else if remaining.len() < FIXED_REMAINING_ACCOUNTS {
        Err(ErrorCode::MissingVaultAAccounts)
    } else {
        match check_vault_a(remaining[0].key, remaining[1].key, remaining[2].key, ids) {
            Err(e) => Err(e),
            Ok(_) => match check_fixed(a.pool, a.b_vault_lp.key, a.token_mint, a.wsol_mint, ids) {
                Err(e) => Err(e),
                Ok(_) => match check_chainlink(remaining[4].key, remaining[3].key, ids) {
                    Err(e) => Err(e),
                    Ok(_) => match price {
                        None => Err(ErrorCode::PriceFeedReadFailed),
                        Some(p) => if deposit < minimum_deposit(p) {
                            Err(ErrorCode::InsufficientDeposit)
                        } else {
                            match check_ata(a.referrer_token_account.owner, a.referrer_token_account.data@, a.referrer_wallet, a.token_mint, ids) {
                                Err(e) => Err(e),
                                Ok(_) => if a.state.next_upline_id == u32::MAX || a.state.next_chain_id == u32::MAX {
                                    Err(ErrorCode::CounterOverflow)
                                } else if a.referrer.upline.depth == u8::MAX {
                                    Err(ErrorCode::InvalidUplineDepth)
                                } else {
                                    payout_checks(a, ids)
                                },
                            }
                        },
                    },
                },
            },
        }
    }
}

/// Settling a checked deposit: the new node takes fresh ids and the
/// referrer's upline window plus the referrer; the deposit is wrapped; the
/// referrer gets the effect of its next slot and its chain moves; a
/// completed chain starts the cascade at the referrer's own referrer, with
/// the whole deposit unspent.
pub open spec fn settle_deposit(
    a: RegisterWithSolDeposit,
    remaining: Seq<AccountSnapshot>,
    deposit: u64,
    ids: Addresses,
) -> Result<RegistrationView, ErrorCode> {
    let st = after_ids_issued(a.state);
    let r = a.referrer@;
    let user = new_node(
        a.user_wallet,
        Some(a.referrer_key),
        a.state.next_upline_id,
        (r.upline.depth + 1) as u8,
        upline_window(r.upline.upline, UplineEntry { pda: a.referrer_key, wallet: a.referrer_wallet }),
        a.state.next_chain_id,
    );
    let pool = pool_of(a, remaining);
    let effect = slot_effect(r, deposit, pool_tokens(pool, deposit), true, a.referrer_wallet, a.referrer_token_account.key);
    let referrer_after = with_chain(effect.0, chain_after_fill(r.chain, a.user_wallet, st.next_chain_id));
    let events = if r.chain.filled_slots < 3 {
        seq![fill_event(r.chain, a.user_wallet, a.referrer_key)]
    } else {
        Seq::empty()
    };
    let actions = seq![Action::WrapSol { amount: deposit }] + effect.1;
    if fill_completes(r.chain) {
        let start = CascadeView {
            next_chain_id: (st.next_chain_id + 1) as u32,
            deposit,
            filler: a.referrer_key,
            expected: r.referrer,
            wrapped_open: true,
            updates: Seq::empty(),
            actions,
            events,
        };
        match run_cascade(start, remaining, FIXED_REMAINING_ACCOUNTS as int, pool, a.token_mint, ids) {
            Err(e) => Err(e),
            Ok(c) => Ok(RegistrationView {
                state: ProgramState { next_chain_id: c.next_chain_id, ..st },
                referrer: referrer_after,
                user,
                uplines: c.updates,
                actions: c.actions,
                events: c.events,
            }),
        }
    } else {
        Ok(RegistrationView { state: st, referrer: referrer_after, user, uplines: Seq::empty(), actions, events })
    }
}

/// Registering a participant under a referrer with a deposit.
pub open spec fn sol_registration(
    a: RegisterWithSolDeposit,
    remaining: Seq<AccountSnapshot>,
    price: Option<PriceReading>,
    deposit: u64,
    ids: Addresses,
) -> Result<RegistrationView, ErrorCode> {
    match deposit_checks(a, remaining, price, deposit, ids) {
        Err(e) => Err(e),
        Ok(_) => settle_deposit(a, remaining, deposit, ids),
    }
}

fn copy_bytes(v: &Vec<u8>) -> (r: Vec<u8>)
    ensures
        r@ == v@,
{
    let r = v.clone();
    assert(r@ =~= v@);
    r
}

/// Registers a participant under `accounts.referrer` with a deposit of
/// `deposit_amount` lamports. `remaining` holds vault A's three accounts,
/// the price feed, the oracle program, then the referrer's ancestors as
/// trios (node account, wallet, token account), nearest first; `price` is
/// the feed's reading, or `None` where it could not be read.
pub fn register_with_sol_deposit(
    accounts: &RegisterWithSolDeposit,
    remaining: &Vec<AccountSnapshot>,
    price: Option<PriceReading>,
    deposit_amount: u64,
    ids: &Addresses,
) -> (r: Result<Registration, ErrorCode>)
    ensures
        match sol_registration(*accounts, remaining@, price, deposit_amount, *ids) {
            Ok(v) => r matches Ok(g) && g@ == v,
            Err(e) => r matches Err(f) && f == e,
        },
{
    if !accounts.referrer.is_registered {
        return Err(ErrorCode::ReferrerNotRegistered);
    }
    if remaining.len() < FIXED_REMAINING_ACCOUNTS {
        return Err(ErrorCode::MissingVaultAAccounts);
    }
    match verify_vault_a_addresses(&remaining[0].key, &remaining[1].key, &remaining[2].key, ids) {
        Ok(()) => {},
        Err(e) => {
            return Err(e);
        },
    }
    match verify_all_fixed_addresses(&accounts.pool, &accounts.b_vault_lp.key, &accounts.token_mint, &accounts.wsol_mint, ids) {
        Ok(()) => {},
        Err(e) => {
            return Err(e);
        },
    }
    match verify_chainlink_addresses(&remaining[4].key, &remaining[3].key, ids) {
        Ok(()) => {},
        Err(e) => {
            return Err(e);
        },
    }
    let reading = match price {
        Some(p) => p,
        None => {
            return Err(ErrorCode::PriceFeedReadFailed);
        },
    };
    let minimum_deposit = calculate_minimum_sol_deposit(&reading);
    if deposit_amount < minimum_deposit {
        return Err(ErrorCode::InsufficientDeposit);
    }
    match verify_ata_strict(&accounts.referrer_token_account, &accounts.referrer_wallet, &accounts.token_mint, ids) {
        Ok(()) => {},
        Err(e) => {
            return Err(e);
        },
    }
    let state = accounts.state;
    if state.next_upline_id == u32::MAX || state.next_chain_id == u32::MAX {
        return Err(ErrorCode::CounterOverflow);
    }
    if accounts.referrer.upline.depth == u8::MAX {
        return Err(ErrorCode::InvalidUplineDepth);
    }
    let mut referrer = accounts.referrer.duplicate();
    let slot_idx = referrer.chain.filled_slots;
    if slot_idx == 2 {
        if referrer.reserved_sol > 0 {
            match verify_wallet_is_system_account(&accounts.referrer_wallet_owner, ids) {
                Ok(()) => {},
                Err(e) => {
                    return Err(e);
                },
            }
        }
        match verify_token_account(&accounts.referrer_token_account, &accounts.referrer_wallet, &accounts.token_mint, ids) {
            Ok(()) => {},
            Err(e) => {
                return Err(e);
            },
        }
        if state.next_chain_id + 1 >= u32::MAX {
            return Err(ErrorCode::CounterOverflow);
        }
    }
    let ghost r0 = referrer@;
    let mut actions: Vec<Action> = Vec::new();
    actions.push(Action::WrapSol { amount: deposit_amount });
    let entry = UplineEntry { pda: accounts.referrer_key, wallet: accounts.referrer_wallet };
    let upline = build_upline(&referrer.upline.upline, entry);
    let mut new_state = ProgramState {
        next_upline_id: state.next_upline_id + 1,
        next_chain_id: state.next_chain_id + 1,
        ..state
    };
    let user = make_node(
        accounts.user_wallet,
        Some(accounts.referrer_key),
        state.next_upline_id,
        referrer.upline.depth + 1,
        upline,
        state.next_chain_id,
    );
    let pool = PoolData {
        a_vault_lp: copy_bytes(&remaining[0].data),
        b_vault_lp: copy_bytes(&accounts.b_vault_lp.data),
        a_vault_lp_mint: copy_bytes(&remaining[1].data),
        b_vault_lp_mint: copy_bytes(&accounts.b_vault_lp_mint.data),
        a_token_vault: copy_bytes(&remaining[2].data),
        b_token_vault: copy_bytes(&accounts.b_token_vault.data),
    };
    assert(pool@ == pool_of(*accounts, remaining@));
    apply_slot_effect(
        &mut referrer,
        deposit_amount,
        &pool,
        true,
        accounts.referrer_wallet,
        accounts.referrer_token_account.key,
        &mut actions,
    );
    let mut events: Vec<SlotFilled> = Vec::new();
    let (completed, referrer_key) = process_referrer_chain(
        &accounts.user_wallet,
        &mut referrer,
        &accounts.referrer_key,
        new_state.next_chain_id,
        &mut events,
    );
    proof {
        assert(events@ =~= (if r0.chain.filled_slots < 3 {
            seq![fill_event(r0.chain, accounts.user_wallet, accounts.referrer_key)]
        } else {
            Seq::<SlotFilled>::empty()
        }));
    }
    if completed {
        new_state.next_chain_id = new_state.next_chain_id + 1;
        let mut c = Cascade {
            next_chain_id: new_state.next_chain_id,
            deposit: deposit_amount,
            filler: referrer_key,
            expected: accounts.referrer.referrer,
            wrapped_open: true,
            updates: Vec::new(),
            actions,
            events,
        };
        assert(c@.updates =~= Seq::<UplineUpdateView>::empty());
        match process_upline_cascade(&mut c, remaining, FIXED_REMAINING_ACCOUNTS, &pool, &accounts.token_mint, ids) {
            Ok(()) => {},
            Err(e) => {
                return Err(e);
            },
        }
        new_state.next_chain_id = c.next_chain_id;
        let out = Registration { state: new_state, referrer, user, uplines: c.updates, actions: c.actions, events: c.events };
        Ok(out)
    } else {
        let out = Registration { state: new_state, referrer, user, uplines: Vec::new(), actions, events };
        assert(out@.uplines =~= Seq::<UplineUpdateView>::empty());
        Ok(out)
    }
}

} // verus!
