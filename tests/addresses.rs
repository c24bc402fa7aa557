use matrix_system::accounts::{AccountSnapshot, ErrorCode};
use matrix_system::addresses::{
    verify_address_strict, verify_all_fixed_addresses, verify_ata_strict, verify_chainlink_addresses,
    verify_token_account, verify_vault_a_addresses, verify_wallet_is_system_account, Addresses,
};
use matrix_system::key::Key;

fn k(b: u8) -> Key {
    Key::from_bytes(&[b; 32])
}

fn ids() -> Addresses {
    Addresses {
        program_id: k(200),
        system_program: k(0),
        token_program: k(201),
        a_vault_lp: k(210),
        a_vault_lp_mint: k(211),
        a_token_vault: k(212),
        pool: k(213),
        b_vault_lp: k(214),
        token_mint: k(215),
        wsol_mint: k(216),
        chainlink_program: k(217),
        sol_usd_feed: k(218),
        multisig_treasury: k(219),
    }
}

fn token_account(owner_program: u8, mint: u8, holder: u8) -> AccountSnapshot {
    let mut d = vec![0u8; 165];
    d[0..32].copy_from_slice(&[mint; 32]);
    d[32..64].copy_from_slice(&[holder; 32]);
    d[108] = 1;
    AccountSnapshot { key: k(50), owner: k(owner_program), data: d, node: None }
}

#[test]
fn strict_address_check() {
    assert_eq!(verify_address_strict(&k(1), &k(1), ErrorCode::InvalidPoolAddress), Ok(()));
    assert_eq!(verify_address_strict(&k(1), &k(2), ErrorCode::InvalidPoolAddress), Err(ErrorCode::InvalidPoolAddress));
}

#[test]
fn fixed_address_checks_report_the_first_mismatch() {
    let i = ids();
    assert_eq!(verify_vault_a_addresses(&k(210), &k(211), &k(212), &i), Ok(()));
    assert_eq!(verify_vault_a_addresses(&k(210), &k(1), &k(1), &i), Err(ErrorCode::InvalidVaultALpMintAddress));
    assert_eq!(verify_all_fixed_addresses(&k(213), &k(214), &k(215), &k(216), &i), Ok(()));
    assert_eq!(verify_all_fixed_addresses(&k(213), &k(214), &k(1), &k(216), &i), Err(ErrorCode::InvalidTokenMintAddress));
    assert_eq!(verify_chainlink_addresses(&k(217), &k(218), &i), Ok(()));
    assert_eq!(verify_chainlink_addresses(&k(217), &k(1), &i), Err(ErrorCode::InvalidPriceFeed));
}

#[test]
fn wallet_must_be_a_system_account() {
    assert_eq!(verify_wallet_is_system_account(&k(0), &ids()), Ok(()));
    assert_eq!(verify_wallet_is_system_account(&k(201), &ids()), Err(ErrorCode::PaymentWalletInvalid));
}

#[test]
fn token_account_checks() {
    let i = ids();
    assert_eq!(verify_token_account(&token_account(201, 215, 7), &k(7), &k(215), &i), Ok(()));
    assert_eq!(verify_token_account(&token_account(200, 215, 7), &k(7), &k(215), &i), Err(ErrorCode::TokenAccountInvalid));
    assert_eq!(verify_token_account(&token_account(201, 1, 7), &k(7), &k(215), &i), Err(ErrorCode::TokenAccountInvalid));
    assert_eq!(verify_ata_strict(&token_account(201, 215, 7), &k(7), &k(215), &i), Ok(()));
    assert_eq!(verify_ata_strict(&token_account(201, 215, 8), &k(7), &k(215), &i), Err(ErrorCode::InvalidWalletForATA));
    let mut broken = token_account(201, 215, 7);
    broken.data.truncate(100);
    assert_eq!(verify_ata_strict(&broken, &k(7), &k(215), &i), Err(ErrorCode::InvalidTokenAccount));
}
