//! Identity checks: fixed, allow-listed addresses and account ownership.
use vstd::prelude::*;
use crate::key::Key;
use crate::accounts::{AccountSnapshot, ErrorCode};
use crate::token_data::{read_token_account, token_account_info};

verus! {

/// The identities the settlement core checks accounts against: this
/// program, the system and token programs, and the allow-listed pool, vault,
/// mint, oracle and treasury addresses.
#[derive(PartialEq, Eq, Structural, Clone, Copy, Debug)]
pub struct Addresses {
    pub program_id: Key,
    pub system_program: Key,
    pub token_program: Key,
    pub a_vault_lp: Key,
    pub a_vault_lp_mint: Key,
    pub a_token_vault: Key,
    pub pool: Key,
    pub b_vault_lp: Key,
    pub token_mint: Key,
    pub wsol_mint: Key,
    pub chainlink_program: Key,
    pub sol_usd_feed: Key,
    pub multisig_treasury: Key,
}

pub open spec fn check_address(provided: Key, expected: Key, error_code: ErrorCode) -> Result<(), ErrorCode> {
    if provided == expected {
        Ok(())
    } else {
        Err(error_code)
    }
}

/// Fails with `error_code` unless `provided` is `expected`.
pub fn verify_address_strict(provided: &Key, expected: &Key, error_code: ErrorCode) -> (r: Result<(), ErrorCode>)
    ensures
        r == check_address(*provided, *expected, error_code),
{
    if *provided != *expected {
        return Err(error_code);
    }
    Ok(())
}

pub open spec fn check_vault_a(a_vault_lp: Key, a_vault_lp_mint: Key, a_token_vault: Key, ids: Addresses) -> Result<(), ErrorCode> {
    if a_vault_lp != ids.a_vault_lp {
        Err(ErrorCode::InvalidVaultALpAddress)
    } else if a_vault_lp_mint != ids.a_vault_lp_mint {
        Err(ErrorCode::InvalidVaultALpMintAddress)
    } else if a_token_vault != ids.a_token_vault {
        Err(ErrorCode::InvalidTokenAVaultAddress)
    } else {
        Ok(())
    }
}

/// Checks the three vault-A accounts, in order.
pub fn verify_vault_a_addresses(a_vault_lp: &Key, a_vault_lp_mint: &Key, a_token_vault: &Key, ids: &Addresses) -> (r: Result<(), ErrorCode>)
    ensures
        r == check_vault_a(*a_vault_lp, *a_vault_lp_mint, *a_token_vault, *ids),
{
    verify_address_strict(a_vault_lp, &ids.a_vault_lp, ErrorCode::InvalidVaultALpAddress)?;
    verify_address_strict(a_vault_lp_mint, &ids.a_vault_lp_mint, ErrorCode::InvalidVaultALpMintAddress)?;
    verify_address_strict(a_token_vault, &ids.a_token_vault, ErrorCode::InvalidTokenAVaultAddress)?;
    Ok(())
}

pub open spec fn check_fixed(pool: Key, b_vault_lp: Key, token_mint: Key, wsol_mint: Key, ids: Addresses) -> Result<(), ErrorCode> {
    if pool != ids.pool {
        Err(ErrorCode::InvalidPoolAddress)
    } else if b_vault_lp != ids.b_vault_lp {
        Err(ErrorCode::InvalidVaultAddress)
    } else if token_mint != ids.token_mint {
        Err(ErrorCode::InvalidTokenMintAddress)
    } else if wsol_mint != ids.wsol_mint {
        Err(ErrorCode::InvalidTokenMintAddress)
    } else {
        Ok(())
    }
}

/// Checks the pool, vault-B LP, token mint and wrapped-SOL mint, in order.
pub fn verify_all_fixed_addresses(pool: &Key, b_vault_lp: &Key, token_mint: &Key, wsol_mint: &Key, ids: &Addresses) -> (r: Result<(), ErrorCode>)
    ensures
        r == check_fixed(*pool, *b_vault_lp, *token_mint, *wsol_mint, *ids),
{
    verify_address_strict(pool, &ids.pool, ErrorCode::InvalidPoolAddress)?;
    verify_address_strict(b_vault_lp, &ids.b_vault_lp, ErrorCode::InvalidVaultAddress)?;
    verify_address_strict(token_mint, &ids.token_mint, ErrorCode::InvalidTokenMintAddress)?;
    verify_address_strict(wsol_mint, &ids.wsol_mint, ErrorCode::InvalidTokenMintAddress)?;
    Ok(())
}

pub open spec fn check_chainlink(chainlink_program: Key, chainlink_feed: Key, ids: Addresses) -> Result<(), ErrorCode> {
    if chainlink_program != ids.chainlink_program {
        Err(ErrorCode::InvalidChainlinkProgram)
    } else if chainlink_feed != ids.sol_usd_feed {
        Err(ErrorCode::InvalidPriceFeed)
    } else {
        Ok(())
    }
}

/// Checks the oracle program and the SOL/USD feed, in order.
pub fn verify_chainlink_addresses(chainlink_program: &Key, chainlink_feed: &Key, ids: &Addresses) -> (r: Result<(), ErrorCode>)
    ensures
        r == check_chainlink(*chainlink_program, *chainlink_feed, *ids),
{
    verify_address_strict(chainlink_program, &ids.chainlink_program, ErrorCode::InvalidChainlinkProgram)?;
    verify_address_strict(chainlink_feed, &ids.sol_usd_feed, ErrorCode::InvalidPriceFeed)?;
    Ok(())
}

/// Fails unless the wallet is a plain account of the system program.
pub fn verify_wallet_is_system_account(wallet_owner: &Key, ids: &Addresses) -> (r: Result<(), ErrorCode>)
    ensures
        r == check_address(*wallet_owner, ids.system_program, ErrorCode::PaymentWalletInvalid),
{
    verify_address_strict(wallet_owner, &ids.system_program, ErrorCode::PaymentWalletInvalid)
}

/// The strict check of a token account handed in for a wallet: owned by the
/// token program and decodable, else `InvalidTokenAccount`; then held by
/// `owner` (`InvalidWalletForATA`) and of `expected_mint`
/// (`InvalidTokenMintAddress`).
pub open spec fn check_ata(owner_program: Key, data: Seq<u8>, owner: Key, expected_mint: Key, ids: Addresses) -> Result<(), ErrorCode> {
    if owner_program != ids.token_program {
        Err(ErrorCode::InvalidTokenAccount)
    } else {
        match token_account_info(data) {
            None => Err(ErrorCode::InvalidTokenAccount),
            Some(t) => if t.owner != owner {
                Err(ErrorCode::InvalidWalletForATA)
            } else if t.mint != expected_mint {
                Err(ErrorCode::InvalidTokenMintAddress)
            } else {
                Ok(())
            },
        }
    }
}

pub fn verify_ata_strict(token_account: &AccountSnapshot, owner: &Key, expected_mint: &Key, ids: &Addresses) -> (r: Result<(), ErrorCode>)
    ensures
        r == check_ata(token_account.owner, token_account.data@, *owner, *expected_mint, *ids),
{
    if token_account.owner != ids.token_program {
        return Err(ErrorCode::InvalidTokenAccount);
    }
    match read_token_account(token_account.data.as_slice()) {
        Some(t) => {
            if t.owner != *owner {
                return Err(ErrorCode::InvalidWalletForATA);
            }
            if t.mint != *expected_mint {
                return Err(ErrorCode::InvalidTokenMintAddress);
            }
        },
        None => {
            return Err(ErrorCode::InvalidTokenAccount);
        },
    }
    Ok(())
}

/// A token account fit to receive a payout to `wallet`: owned by the token
/// program, decodable, held by `wallet` and of `token_mint`. Any failure is
/// `TokenAccountInvalid`.
pub open spec fn token_account_ok(owner_program: Key, data: Seq<u8>, wallet: Key, token_mint: Key, ids: Addresses) -> bool {
    &&& owner_program == ids.token_program
    &&& token_account_info(data) matches Some(t)
    &&& t.owner == wallet
    &&& t.mint == token_mint
}

pub fn verify_token_account(token_account: &AccountSnapshot, wallet: &Key, token_mint: &Key, ids: &Addresses) -> (r: Result<(), ErrorCode>)
    ensures
        r == (if token_account_ok(token_account.owner, token_account.data@, *wallet, *token_mint, *ids) {
            Ok(())
        } else {
            Err(ErrorCode::TokenAccountInvalid)
        }),
{
    if token_account.owner != ids.token_program {
        return Err(ErrorCode::TokenAccountInvalid);
    }
    let t = match read_token_account(token_account.data.as_slice()) {
        Some(t) => t,
        None => {
            return Err(ErrorCode::TokenAccountInvalid);
        },
    };
    if t.owner != *wallet {
        return Err(ErrorCode::TokenAccountInvalid);
    }
    if t.mint != *token_mint {
        return Err(ErrorCode::TokenAccountInvalid);
    }
    Ok(())
}

} // verus!
