//! Token-program account records (token accounts and mints), read through the
//! token program's own decoder.
use vstd::prelude::*;
use spl_token::solana_program::program_pack::Pack;
use spl_token::state::{Account as SplAccount, Mint as SplMint};
use crate::key::{Key, key_at, le_u64};

verus! {

/// Whether the four bytes at `at` are a valid option tag (`0` or `1`, little-endian).
pub open spec fn option_tag_valid(d: Seq<u8>, at: int) -> bool {
    &&& d[at] == 0 || d[at] == 1
    &&& d[at + 1] == 0
    &&& d[at + 2] == 0
    &&& d[at + 3] == 0
}

/// A token-account record that decodes: 165 bytes laid out as mint (0..32),
/// owner (32..64), amount (64..72), delegate option (72..108), state (108),
/// native option (109..121), delegated amount (121..129) and close-authority
/// option (129..165), with the state initialized (1) or frozen (2).
pub open spec fn token_account_layout(d: Seq<u8>) -> bool {
    &&& d.len() == 165
    &&& option_tag_valid(d, 72)
    &&& d[108] == 1 || d[108] == 2
    &&& option_tag_valid(d, 109)
    &&& option_tag_valid(d, 129)
}

/// A mint record that decodes: 82 bytes laid out as mint-authority option
/// (0..36), supply (36..44), decimals (44), initialized flag (45, must be 1)
/// and freeze-authority option (46..82).
pub open spec fn mint_layout(d: Seq<u8>) -> bool {
    &&& d.len() == 82
    &&& option_tag_valid(d, 0)
    &&& d[45] == 1
    &&& option_tag_valid(d, 46)
}

/// Raw fields of a decoded token account.
pub struct TokenAccountBytes {
    pub mint: [u8; 32],
    pub owner: [u8; 32],
    pub amount: u64,
}

/// Relies on `spl_token::state::Account::unpack` (through
/// `Pack::unpack_unchecked` and `Account::unpack_from_slice`): it succeeds
/// exactly on the layouts of `token_account_layout`, and then reads mint,
/// owner and amount from their fixed offsets.
#[verifier::external_body]
fn unpack_token_account(data: &[u8]) -> (r: Option<TokenAccountBytes>)
    ensures
        r is Some <==> token_account_layout(data@),
        r matches Some(f) ==> {
            &&& f.mint@ == data@.subrange(0, 32)
            &&& f.owner@ == data@.subrange(32, 64)
            &&& f.amount == le_u64(data@, 64)
        },
{
    match SplAccount::unpack(data) {
        Ok(a) => Some(TokenAccountBytes { mint: a.mint.to_bytes(), owner: a.owner.to_bytes(), amount: a.amount }),
        Err(_) => None,
    }
}

/// Relies on `spl_token::state::Mint::unpack` (through
/// `Pack::unpack_unchecked` and `Mint::unpack_from_slice`): it succeeds
/// exactly on the layouts of `mint_layout`, and then reads the supply from
/// bytes 36..44.
#[verifier::external_body]
fn unpack_mint_supply(data: &[u8]) -> (r: Option<u64>)
    ensures
        r is Some <==> mint_layout(data@),
        r matches Some(s) ==> s == le_u64(data@, 36),
{
    match SplMint::unpack(data) {
        Ok(m) => Some(m.supply),
        Err(_) => None,
    }
}

/// What the settlement core reads of a token account.
#[derive(PartialEq, Eq, Structural, Clone, Copy, Debug)]
pub struct TokenAccountInfo {
    pub mint: Key,
    pub owner: Key,
    pub amount: u64,
}

/// The token account held in `d`, if it decodes.
pub open spec fn token_account_info(d: Seq<u8>) -> Option<TokenAccountInfo> {
    if token_account_layout(d) {
        Some(TokenAccountInfo { mint: key_at(d, 0), owner: key_at(d, 32), amount: le_u64(d, 64) as u64 })
    } else {
        None
    }
}

/// The supply recorded in the mint held in `d`, if it decodes.
pub open spec fn mint_supply(d: Seq<u8>) -> Option<u64> {
    if mint_layout(d) {
        Some(le_u64(d, 36) as u64)
    } else {
        None
    }
}

/// Decodes a token account.
pub fn read_token_account(data: &[u8]) -> (r: Option<TokenAccountInfo>)
    ensures
        r == token_account_info(data@),
{
    match unpack_token_account(data) {
        Some(f) => {
            let mint = Key::from_bytes(&f.mint);
            let owner = Key::from_bytes(&f.owner);
            assert(key_at(f.mint@, 0) == key_at(data@, 0));
            assert(key_at(f.owner@, 0) == key_at(data@, 32));
            Some(TokenAccountInfo { mint, owner, amount: f.amount })
        },
        None => None,
    }
}

/// Decodes the supply of a mint.
pub fn read_mint_supply(data: &[u8]) -> (r: Option<u64>)
    ensures
        r == mint_supply(data@),
{
    unpack_mint_supply(data)
}

} // verus!
