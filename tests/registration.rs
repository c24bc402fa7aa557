use matrix_system::accounts::{
    AccountSnapshot, ErrorCode, ProgramState, ReferralChain, ReferralUpline, SlotFilled, UplineEntry, UserAccount,
};
use matrix_system::addresses::Addresses;
use matrix_system::key::Key;
use matrix_system::registration::{
    build_upline, initialize, register_with_sol_deposit, register_without_referrer, Initialize,
    RegisterWithSolDeposit, RegisterWithoutReferrerDeposit,
};
use matrix_system::settlement::Action;
use matrix_system::valuation::PriceReading;

fn k(b: u8) -> Key {
    Key::from_bytes(&[b; 32])
}

fn ids() -> Addresses {
    Addresses {
        program_id: k(200),
        system_program: Key::from_bytes(&[0u8; 32]),
        token_program: k(201),
        a_vault_lp: k(210),
        a_vault_lp_mint: k(211),
        a_token_vault: k(212),
        pool: k(213),
        b_vault_lp: k(214),
        token_mint: k(215),
        wsol_mint: k(216),
        chainlink_program: k(217),
        sol_usd_feed: k(218),
        multisig_treasury: k(219),
    }
}

fn token_account_bytes(mint: u8, owner: u8, amount: u64) -> Vec<u8> {
    let mut d = vec![0u8; 165];
    d[0..32].copy_from_slice(&[mint; 32]);
    d[32..64].copy_from_slice(&[owner; 32]);
    d[64..72].copy_from_slice(&amount.to_le_bytes());
    d[108] = 1;
    d
}

fn mint_bytes(supply: u64) -> Vec<u8> {
    let mut d = vec![0u8; 82];
    d[36..44].copy_from_slice(&supply.to_le_bytes());
    d[45] = 1;
    d
}

fn snapshot(key: Key, owner: Key, data: Vec<u8>) -> AccountSnapshot {
    AccountSnapshot { key, owner, data, node: None }
}

fn node(wallet: u8, referrer: Option<Key>, chain_id: u32, filled: u8, sol: u64, tokens: u64) -> UserAccount {
    let mut slots = [None, None, None];
    for s in slots.iter_mut().take(filled as usize) {
        *s = Some(k(99));
    }
    UserAccount {
        is_registered: true,
        referrer,
        owner_wallet: k(wallet),
        upline: ReferralUpline { id: 1, depth: 1, upline: vec![] },
        chain: ReferralChain { id: chain_id, slots, filled_slots: filled },
        reserved_sol: sol,
        reserved_tokens: tokens,
    }
}

fn state() -> ProgramState {
    ProgramState { owner: k(1), multisig_treasury: k(219), next_upline_id: 40, next_chain_id: 50 }
}

/// Price 150 USD per SOL, fresh: the minimum deposit is 66_666_666 lamports.
fn fresh_price() -> Option<PriceReading> {
    Some(PriceReading { price: 150_00000000, decimals: 8, current_timestamp: 1_000_000, feed_timestamp: 999_000 })
}

const MIN_DEPOSIT: u64 = 66_666_666;

fn accounts(referrer: UserAccount) -> RegisterWithSolDeposit {
    RegisterWithSolDeposit {
        state: state(),
        user_wallet: k(10),
        referrer_key: k(20),
        referrer,
        referrer_wallet: k(21),
        referrer_wallet_owner: Key::from_bytes(&[0u8; 32]),
        pool: k(213),
        b_vault_lp: snapshot(k(214), k(201), token_account_bytes(5, 6, 1000)),
        b_token_vault: snapshot(k(230), k(201), token_account_bytes(5, 6, 50_000_000_000)),
        b_vault_lp_mint: snapshot(k(231), k(201), mint_bytes(1000)),
        token_mint: k(215),
        wsol_mint: k(216),
        referrer_token_account: snapshot(k(22), k(201), token_account_bytes(215, 21, 0)),
    }
}

fn fixed_remaining() -> Vec<AccountSnapshot> {
    vec![
        snapshot(k(210), k(201), token_account_bytes(5, 6, 1000)),
        snapshot(k(211), k(201), mint_bytes(1000)),
        snapshot(k(212), k(201), token_account_bytes(5, 6, 5_000_000_000_000)),
        snapshot(k(218), k(202), vec![]),
        snapshot(k(217), k(203), vec![]),
    ]
}

/// The trio of an ancestor whose node account is `k(key)` and wallet `k(wallet)`.
fn trio(key: u8, wallet: u8, n: UserAccount) -> Vec<AccountSnapshot> {
    vec![
        AccountSnapshot { key: k(key), owner: k(200), data: vec![1, 2, 3], node: Some(n) },
        snapshot(k(wallet), Key::from_bytes(&[0u8; 32]), vec![]),
        snapshot(k(key + 100), k(201), token_account_bytes(215, wallet, 0)),
    ]
}

#[test]
fn slot_zero_deposit_goes_to_pool() {
    let a = accounts(node(21, None, 7, 0, 0, 0));
    let r = register_with_sol_deposit(&a, &fixed_remaining(), fresh_price(), MIN_DEPOSIT, &ids()).unwrap();
    assert_eq!(r.referrer.chain.filled_slots, 1);
    assert_eq!(r.referrer.chain.slots[0], Some(k(10)));
    assert_eq!(r.referrer.chain.id, 7);
    assert_eq!(r.referrer.reserved_sol, 0);
    assert_eq!(r.referrer.reserved_tokens, 0);
    assert_eq!(r.actions, vec![Action::WrapSol { amount: MIN_DEPOSIT }, Action::DepositToPool { amount: MIN_DEPOSIT }]);
    assert_eq!(r.events, vec![SlotFilled { slot_idx: 0, chain_id: 7, user: k(10), owner: k(20) }]);
    assert!(r.uplines.is_empty());
}

#[test]
fn new_node_gets_fresh_ids_and_upline() {
    let a = accounts(node(21, None, 7, 0, 0, 0));
    let r = register_with_sol_deposit(&a, &fixed_remaining(), fresh_price(), MIN_DEPOSIT, &ids()).unwrap();
    assert_eq!(r.state.next_upline_id, 41);
    assert_eq!(r.state.next_chain_id, 51);
    assert!(r.user.is_registered);
    assert_eq!(r.user.referrer, Some(k(20)));
    assert_eq!(r.user.owner_wallet, k(10));
    assert_eq!(r.user.upline.id, 40);
    assert_eq!(r.user.upline.depth, 2);
    assert_eq!(r.user.upline.upline, vec![UplineEntry { pda: k(20), wallet: k(21) }]);
    assert_eq!(r.user.chain.id, 50);
    assert_eq!(r.user.chain.filled_slots, 0);
}

#[test]
fn slot_one_deposit_is_escrowed() {
    let a = accounts(node(21, None, 7, 1, 0, 0));
    let r = register_with_sol_deposit(&a, &fixed_remaining(), fresh_price(), 1_000_000_000, &ids()).unwrap();
    assert_eq!(r.referrer.chain.filled_slots, 2);
    assert_eq!(r.referrer.reserved_sol, 1_000_000_000);
    assert_eq!(r.referrer.reserved_tokens, 103_359_173_100);
    assert_eq!(
        r.actions,
        vec![
            Action::WrapSol { amount: 1_000_000_000 },
            Action::UnwrapSol,
            Action::ReserveSol { amount: 1_000_000_000 },
            Action::MintTokens { amount: 103_359_173_100 },
        ]
    );
    assert!(!r.actions.iter().any(|x| matches!(x, Action::PaySol { .. } | Action::TransferTokens { .. })));
    assert_eq!(r.events, vec![SlotFilled { slot_idx: 1, chain_id: 7, user: k(10), owner: k(20) }]);
}

#[test]
fn slot_two_pays_escrow_and_cascades_full_deposit() {
    let grand = node(31, None, 9, 0, 0, 0);
    let a = accounts(node(21, Some(k(30)), 7, 2, 500, 700));
    let mut remaining = fixed_remaining();
    remaining.extend(trio(30, 31, grand));
    let r = register_with_sol_deposit(&a, &remaining, fresh_price(), MIN_DEPOSIT, &ids()).unwrap();
    assert_eq!(r.referrer.chain.filled_slots, 0);
    assert_eq!(r.referrer.chain.id, 51);
    assert_eq!(r.referrer.chain.slots, [None, None, None]);
    assert_eq!(r.referrer.reserved_sol, 0);
    assert_eq!(r.referrer.reserved_tokens, 0);
    assert_eq!(
        r.actions,
        vec![
            Action::WrapSol { amount: MIN_DEPOSIT },
            Action::PaySol { wallet: k(21), amount: 500 },
            Action::TransferTokens { token_account: k(22), amount: 700 },
            Action::DepositToPool { amount: MIN_DEPOSIT },
            Action::UnwrapSol,
        ]
    );
    assert_eq!(
        r.events,
        vec![
            SlotFilled { slot_idx: 2, chain_id: 7, user: k(10), owner: k(20) },
            SlotFilled { slot_idx: 0, chain_id: 9, user: k(20), owner: k(30) },
        ]
    );
    assert_eq!(r.uplines.len(), 1);
    assert_eq!(r.uplines[0].index, 0);
    assert_eq!(r.uplines[0].key, k(30));
    assert_eq!(r.uplines[0].node.chain.filled_slots, 1);
    assert_eq!(r.uplines[0].node.chain.slots[0], Some(k(20)));
    assert_eq!(r.state.next_chain_id, 52);
}

#[test]
fn completed_chain_at_root_sends_deposit_to_pool() {
    let a = accounts(node(21, None, 7, 2, 0, 0));
    let r = register_with_sol_deposit(&a, &fixed_remaining(), fresh_price(), MIN_DEPOSIT, &ids()).unwrap();
    assert_eq!(
        r.actions,
        vec![Action::WrapSol { amount: MIN_DEPOSIT }, Action::DepositToPool { amount: MIN_DEPOSIT }, Action::UnwrapSol]
    );
    assert!(r.uplines.is_empty());
}

#[test]
fn missing_ancestor_trio_aborts() {
    let a = accounts(node(21, Some(k(30)), 7, 2, 500, 700));
    let before = a.clone();
    let r = register_with_sol_deposit(&a, &fixed_remaining(), fresh_price(), MIN_DEPOSIT, &ids());
    assert_eq!(r.err(), Some(ErrorCode::MissingUplineAccount));
    assert_eq!(a.referrer.chain.filled_slots, before.referrer.chain.filled_slots);
    assert_eq!(a.referrer.reserved_sol, 500);
    assert_eq!(a.state, before.state);
}

#[test]
fn ancestor_list_not_in_trios_aborts() {
    let a = accounts(node(21, Some(k(30)), 7, 2, 0, 0));
    let mut remaining = fixed_remaining();
    remaining.extend(trio(30, 31, node(31, None, 9, 0, 0, 0)));
    remaining.pop();
    let r = register_with_sol_deposit(&a, &remaining, fresh_price(), MIN_DEPOSIT, &ids());
    assert_eq!(r.err(), Some(ErrorCode::MissingUplineAccount));
}

#[test]
fn cascade_continues_through_completed_chains_and_stops_at_first_open_one() {
    let a = accounts(node(21, Some(k(30)), 7, 2, 0, 0));
    let mut remaining = fixed_remaining();
    remaining.extend(trio(30, 31, node(31, Some(k(40)), 9, 2, 11, 12)));
    remaining.extend(trio(40, 41, node(41, Some(k(50)), 10, 1, 0, 0)));
    remaining.extend(trio(50, 51, node(51, None, 11, 0, 0, 0)));
    let r = register_with_sol_deposit(&a, &remaining, fresh_price(), 1_000_000_000, &ids()).unwrap();
    assert_eq!(r.uplines.len(), 2);
    assert_eq!(r.uplines[0].node.chain.filled_slots, 0);
    assert_eq!(r.uplines[0].node.reserved_sol, 0);
    assert_eq!(r.uplines[1].node.chain.filled_slots, 2);
    assert_eq!(r.uplines[1].node.reserved_sol, 1_000_000_000);
    assert_eq!(r.uplines[1].node.reserved_tokens, 103_359_173_100);
    assert_eq!(
        r.actions,
        vec![
            Action::WrapSol { amount: 1_000_000_000 },
            Action::PaySol { wallet: k(31), amount: 11 },
            Action::TransferTokens { token_account: k(130), amount: 12 },
            Action::UnwrapSol,
            Action::ReserveSol { amount: 1_000_000_000 },
            Action::MintTokens { amount: 103_359_173_100 },
        ]
    );
    assert_eq!(r.events.len(), 3);
    assert_eq!(r.events[2], SlotFilled { slot_idx: 1, chain_id: 10, user: k(30), owner: k(40) });
    assert_eq!(r.state.next_chain_id, 53);
}

#[test]
fn cascade_stops_at_depth_bound() {
    let a = accounts(node(21, Some(k(30)), 7, 2, 0, 0));
    let mut remaining = fixed_remaining();
    for level in 0..7u8 {
        let key = 30 + 10 * level;
        remaining.extend(trio(key, key + 1, node(key + 1, Some(k(key + 10)), 100 + level as u32, 2, 0, 0)));
    }
    let r = register_with_sol_deposit(&a, &remaining, fresh_price(), MIN_DEPOSIT, &ids()).unwrap();
    assert_eq!(r.uplines.len(), 6);
    assert_eq!(r.uplines[5].index, 5);
    assert_eq!(
        r.actions,
        vec![Action::WrapSol { amount: MIN_DEPOSIT }, Action::DepositToPool { amount: MIN_DEPOSIT }, Action::UnwrapSol]
    );
    assert_eq!(r.state.next_chain_id, 51 + 7);
}

#[test]
fn unregistered_referrer_is_rejected() {
    let mut n = node(21, None, 7, 0, 0, 0);
    n.is_registered = false;
    let r = register_with_sol_deposit(&accounts(n), &fixed_remaining(), fresh_price(), MIN_DEPOSIT, &ids());
    assert_eq!(r.err(), Some(ErrorCode::ReferrerNotRegistered));
}

#[test]
fn too_few_extra_accounts_is_rejected() {
    let mut rem = fixed_remaining();
    rem.pop();
    let r = register_with_sol_deposit(&accounts(node(21, None, 7, 0, 0, 0)), &rem, fresh_price(), MIN_DEPOSIT, &ids());
    assert_eq!(r.err(), Some(ErrorCode::MissingVaultAAccounts));
}

#[test]
fn wrong_vault_and_oracle_addresses_are_rejected() {
    let a = accounts(node(21, None, 7, 0, 0, 0));
    let cases = [
        (0usize, ErrorCode::InvalidVaultALpAddress),
        (1, ErrorCode::InvalidVaultALpMintAddress),
        (2, ErrorCode::InvalidTokenAVaultAddress),
        (3, ErrorCode::InvalidPriceFeed),
        (4, ErrorCode::InvalidChainlinkProgram),
    ];
    for (i, e) in cases {
        let mut rem = fixed_remaining();
        rem[i].key = k(77);
        let r = register_with_sol_deposit(&a, &rem, fresh_price(), MIN_DEPOSIT, &ids());
        assert_eq!(r.err(), Some(e));
    }
}

#[test]
fn wrong_pool_or_mint_is_rejected() {
    let mut a = accounts(node(21, None, 7, 0, 0, 0));
    a.pool = k(77);
    let r = register_with_sol_deposit(&a, &fixed_remaining(), fresh_price(), MIN_DEPOSIT, &ids());
    assert_eq!(r.err(), Some(ErrorCode::InvalidPoolAddress));
    let mut a = accounts(node(21, None, 7, 0, 0, 0));
    a.b_vault_lp.key = k(77);
    let r = register_with_sol_deposit(&a, &fixed_remaining(), fresh_price(), MIN_DEPOSIT, &ids());
    assert_eq!(r.err(), Some(ErrorCode::InvalidVaultAddress));
    let mut a = accounts(node(21, None, 7, 0, 0, 0));
    a.wsol_mint = k(77);
    let r = register_with_sol_deposit(&a, &fixed_remaining(), fresh_price(), MIN_DEPOSIT, &ids());
    assert_eq!(r.err(), Some(ErrorCode::InvalidTokenMintAddress));
}

#[test]
fn unreadable_price_is_rejected() {
    let r = register_with_sol_deposit(&accounts(node(21, None, 7, 0, 0, 0)), &fixed_remaining(), None, MIN_DEPOSIT, &ids());
    assert_eq!(r.err(), Some(ErrorCode::PriceFeedReadFailed));
}

#[test]
fn deposit_below_minimum_is_rejected() {
    let r = register_with_sol_deposit(&accounts(node(21, None, 7, 0, 0, 0)), &fixed_remaining(), fresh_price(), MIN_DEPOSIT - 1, &ids());
    assert_eq!(r.err(), Some(ErrorCode::InsufficientDeposit));
}

#[test]
fn referrer_token_account_checks() {
    let mut a = accounts(node(21, None, 7, 0, 0, 0));
    a.referrer_token_account.owner = k(77);
    let r = register_with_sol_deposit(&a, &fixed_remaining(), fresh_price(), MIN_DEPOSIT, &ids());
    assert_eq!(r.err(), Some(ErrorCode::InvalidTokenAccount));
    let mut a = accounts(node(21, None, 7, 0, 0, 0));
    a.referrer_token_account.data = token_account_bytes(215, 77, 0);
    let r = register_with_sol_deposit(&a, &fixed_remaining(), fresh_price(), MIN_DEPOSIT, &ids());
    assert_eq!(r.err(), Some(ErrorCode::InvalidWalletForATA));
    let mut a = accounts(node(21, None, 7, 0, 0, 0));
    a.referrer_token_account.data = token_account_bytes(77, 21, 0);
    let r = register_with_sol_deposit(&a, &fixed_remaining(), fresh_price(), MIN_DEPOSIT, &ids());
    assert_eq!(r.err(), Some(ErrorCode::InvalidTokenMintAddress));
}

#[test]
fn payout_to_a_program_owned_wallet_is_rejected() {
    let mut a = accounts(node(21, None, 7, 2, 5, 0));
    a.referrer_wallet_owner = k(77);
    let r = register_with_sol_deposit(&a, &fixed_remaining(), fresh_price(), MIN_DEPOSIT, &ids());
    assert_eq!(r.err(), Some(ErrorCode::PaymentWalletInvalid));
}

#[test]
fn exhausted_counters_are_rejected() {
    let mut a = accounts(node(21, None, 7, 0, 0, 0));
    a.state.next_chain_id = u32::MAX;
    let r = register_with_sol_deposit(&a, &fixed_remaining(), fresh_price(), MIN_DEPOSIT, &ids());
    assert_eq!(r.err(), Some(ErrorCode::CounterOverflow));
    let mut a = accounts(node(21, None, 7, 2, 0, 0));
    a.state.next_chain_id = u32::MAX - 1;
    let r = register_with_sol_deposit(&a, &fixed_remaining(), fresh_price(), MIN_DEPOSIT, &ids());
    assert_eq!(r.err(), Some(ErrorCode::CounterOverflow));
}

#[test]
fn full_depth_counter_is_rejected() {
    let mut n = node(21, None, 7, 0, 0, 0);
    n.upline.depth = u8::MAX;
    let r = register_with_sol_deposit(&accounts(n), &fixed_remaining(), fresh_price(), MIN_DEPOSIT, &ids());
    assert_eq!(r.err(), Some(ErrorCode::InvalidUplineDepth));
}

#[test]
fn ancestor_checks() {
    let a = accounts(node(21, Some(k(30)), 7, 2, 0, 0));
    let base = || {
        let mut rem = fixed_remaining();
        rem.extend(trio(30, 31, node(31, None, 9, 2, 3, 4)));
        rem
    };
    let mut rem = base();
    rem[6].owner = k(77);
    assert_eq!(register_with_sol_deposit(&a, &rem, fresh_price(), MIN_DEPOSIT, &ids()).err(), Some(ErrorCode::PaymentWalletInvalid));
    let mut rem = base();
    rem[5].owner = k(77);
    assert_eq!(register_with_sol_deposit(&a, &rem, fresh_price(), MIN_DEPOSIT, &ids()).err(), Some(ErrorCode::InvalidSlotOwner));
    let mut rem = base();
    rem[5].node = None;
    assert_eq!(register_with_sol_deposit(&a, &rem, fresh_price(), MIN_DEPOSIT, &ids()).err(), Some(ErrorCode::InvalidAccountData));
    let mut rem = base();
    rem[5].node.as_mut().unwrap().is_registered = false;
    assert_eq!(register_with_sol_deposit(&a, &rem, fresh_price(), MIN_DEPOSIT, &ids()).err(), Some(ErrorCode::SlotNotRegistered));
    let mut rem = base();
    rem[5].node.as_mut().unwrap().chain.filled_slots = 3;
    assert_eq!(register_with_sol_deposit(&a, &rem, fresh_price(), MIN_DEPOSIT, &ids()).err(), Some(ErrorCode::ChainFull));
    let mut rem = base();
    rem[7].data = token_account_bytes(215, 77, 0);
    assert_eq!(register_with_sol_deposit(&a, &rem, fresh_price(), MIN_DEPOSIT, &ids()).err(), Some(ErrorCode::TokenAccountInvalid));
}

#[test]
fn upline_window_slides_at_the_depth_bound() {
    let full: Vec<UplineEntry> = (1..=6u8).map(|i| UplineEntry { pda: k(i), wallet: k(i + 50) }).collect();
    let e = UplineEntry { pda: k(9), wallet: k(59) };
    let w = build_upline(&full, e);
    assert_eq!(w.len(), 6);
    assert_eq!(w[0].pda, k(2));
    assert_eq!(w[5], e);
    let short = vec![UplineEntry { pda: k(1), wallet: k(51) }];
    assert_eq!(build_upline(&short, e), vec![short[0], e]);
}

#[test]
fn initialize_sets_counters_once() {
    let fresh = ProgramState { owner: Key::from_bytes(&[0u8; 32]), multisig_treasury: k(0), next_upline_id: 0, next_chain_id: 0 };
    let s = initialize(&Initialize { state: fresh, owner: k(5) }, &ids()).unwrap();
    assert_eq!(s, ProgramState { owner: k(5), multisig_treasury: k(219), next_upline_id: 1, next_chain_id: 1 });
    assert_eq!(initialize(&Initialize { state: s, owner: k(6) }, &ids()).err(), Some(ErrorCode::AlreadyInitialized));
}

#[test]
fn root_registration_by_treasury() {
    let a = RegisterWithoutReferrerDeposit {
        state: state(),
        owner: k(219),
        user_wallet: k(10),
        user_key: k(11),
        pool: k(213),
        b_vault_lp: k(214),
        token_mint: k(215),
        wsol_mint: k(216),
    };
    let r = register_without_referrer(&a, 5000, &ids()).unwrap();
    assert_eq!(r.state.next_upline_id, 41);
    assert_eq!(r.state.next_chain_id, 51);
    assert_eq!(r.user.referrer, None);
    assert_eq!(r.user.upline.depth, 1);
    assert_eq!(r.user.chain.id, 50);
    assert_eq!(r.actions, vec![Action::WrapSol { amount: 5000 }, Action::DepositToPool { amount: 5000 }]);
    assert_eq!(r.events, vec![SlotFilled { slot_idx: 0, chain_id: 50, user: k(10), owner: k(11) }]);
    let mut b = a;
    b.owner = k(1);
    assert_eq!(register_without_referrer(&b, 5000, &ids()).err(), Some(ErrorCode::NotAuthorized));
}
