//! Deposit valuation: the USD-pegged minimum deposit from a price reading, and
//! the token quantity worth a native amount at the pool's reserve ratio.
use vstd::prelude::*;
use vstd::arithmetic::div_mod::{lemma_div_is_ordered, lemma_fundamental_div_mod_converse};
use crate::token_data::{mint_supply, read_mint_supply, read_token_account, token_account_info};

verus! {

/// The USD floor of a deposit: 10 USD with 8 decimals.
pub const MINIMUM_USD_DEPOSIT: u64 = 10_00000000;

/// Price readings older than this many seconds are replaced by the default price.
pub const MAX_PRICE_FEED_AGE: i64 = 86400;

/// The price used for a stale reading: 100 USD per SOL, with 8 decimals.
pub const DEFAULT_SOL_PRICE: i128 = 100_00000000;

/// The decimals of `DEFAULT_SOL_PRICE`.
pub const DEFAULT_SOL_PRICE_DECIMALS: u32 = 8;

/// Token quantity returned whenever the pool data cannot be used: 100 whole tokens.
pub const FALLBACK_TOKEN_AMOUNT: u64 = 100 * 1_000_000_000;

/// The pool fee, in basis points of `FEE_DENOMINATOR` (3.25%).
pub const FEE_BPS: i128 = 325;

pub const FEE_DENOMINATOR: i128 = 10000;

/// Fixed-point scale of the intermediate ratios.
pub const PRECISION_FACTOR: i128 = 1_000_000_000;

/// A price-feed reading together with the current time.
#[derive(PartialEq, Eq, Structural, Clone, Copy, Debug)]
pub struct PriceReading {
    /// USD per SOL, in units of `10^-decimals`.
    pub price: i128,
    pub decimals: u32,
    pub current_timestamp: i64,
    pub feed_timestamp: i64,
}

pub open spec fn pow10(n: nat) -> nat
    decreases n,
{
    if n == 0 {
        1
    } else {
        10 * pow10((n - 1) as nat)
    }
}

/// Whether the reading is older than `MAX_PRICE_FEED_AGE`.
pub open spec fn is_stale(r: PriceReading) -> bool {
    r.current_timestamp - r.feed_timestamp > MAX_PRICE_FEED_AGE
}

/// The price that the minimum is computed from: the feed's, or the default
/// price when the reading is stale.
pub open spec fn effective_price(r: PriceReading) -> i128 {
    if is_stale(r) {
        DEFAULT_SOL_PRICE
    } else {
        r.price
    }
}

/// The decimals of `effective_price(r)`.
pub open spec fn effective_decimals(r: PriceReading) -> u32 {
    if is_stale(r) {
        DEFAULT_SOL_PRICE_DECIMALS
    } else {
        r.decimals
    }
}

/// Lamports worth `MINIMUM_USD_DEPOSIT` at `price` USD per SOL (in units of
/// `10^-decimals`): `10 * 10^decimals * 10^9 / price`, rounded down and
/// saturated to `u64`. A zero price needs every lamport; a negative one none.
pub open spec fn minimum_lamports(price: int, decimals: nat) -> u64 {
    if price < 0 {
        0
    } else if price == 0 {
        u64::MAX
    } else if pow10(decimals + 10) as int / price > u64::MAX {
        u64::MAX
    } else {
        (pow10(decimals + 10) as int / price) as u64
    }
}

/// The minimum deposit, in lamports, for a price reading.
pub open spec fn minimum_deposit(r: PriceReading) -> u64 {
    minimum_lamports(effective_price(r) as int, effective_decimals(r) as nat)
}

proof fn lemma_pow10_monotone(a: nat, b: nat)
    requires
        a <= b,
    ensures
        pow10(a) <= pow10(b),
    decreases b,
{
    if a < b {
        lemma_pow10_monotone(a, (b - 1) as nat);
    }
}

/// `10 * r` split by `p`: returns `(d, m)` with `10 * r == d * p + m` and `m < p`.
fn times_ten_divmod(r: u128, p: u128) -> (res: (u128, u128))
    requires
        0 < p <= i128::MAX,
        r < p,
    ensures
        10 * r == res.0 * p + res.1,
        res.1 < p,
        res.0 <= 10,
{
    let mut d: u128 = 0;
    let mut acc: u128 = 0;
    let mut t: u128 = 0;
    while t < 10
        invariant
            0 < p <= i128::MAX,
            r < p,
            t <= 10,
            t * r == d * p + acc,
            acc < p,
            d <= t,
        decreases 10 - t,
    {
        assert((t + 1) * r == t * r + r) by (nonlinear_arith);
        if acc >= p - r {
            acc = acc - (p - r);
            d = d + 1;
            assert(d * p == (d - 1) * p + p) by (nonlinear_arith);
        } else {
            acc = acc + r;
        }
        t = t + 1;
    }
    (d, acc)
}

/// `min(u64::MAX, 10^k / p)` for a positive `p`, by long division.
fn saturating_pow10_div(k: u64, p: u128) -> (r: u64)
    requires
        0 < p <= i128::MAX,
    ensures
        r == (if pow10(k as nat) as int / (p as int) > u64::MAX { u64::MAX as int } else { pow10(k as nat) as int / (p as int) }),
{
    let mut q: u128;
    let mut rem: u128;
    if p == 1 {
        q = 1;
        rem = 0;
    } else {
        q = 0;
        rem = 1;
    }
    assert(pow10(0) == 1);
    let mut j: u64 = 0;
    while j < k
        invariant
            0 < p <= i128::MAX,
            j <= k,
            pow10(j as nat) == q * p + rem,
            rem < p,
            q <= u64::MAX,
        decreases k - j,
    {
        let (d, m) = times_ten_divmod(rem, p);
        assert(pow10((j + 1) as nat) == 10 * pow10(j as nat));
        assert(10 * (q * p + rem) == (10 * q + d) * p + m) by (nonlinear_arith)
            requires
                10 * rem == d * p + m,
        ;
        q = 10 * q + d;
        rem = m;
        j = j + 1;
        if q > u64::MAX as u128 {
            proof {
                lemma_fundamental_div_mod_converse(pow10(j as nat) as int, p as int, q as int, rem as int);
                lemma_pow10_monotone(j as nat, k as nat);
                lemma_div_is_ordered(pow10(j as nat) as int, pow10(k as nat) as int, p as int);
            }
            return u64::MAX;
        }
    }
    proof {
        lemma_fundamental_div_mod_converse(pow10(k as nat) as int, p as int, q as int, rem as int);
    }
    q as u64
}

/// Lamports worth `MINIMUM_USD_DEPOSIT` at the given price.
pub fn minimum_lamports_at(price: i128, decimals: u32) -> (r: u64)
    ensures
        r == minimum_lamports(price as int, decimals as nat),
{
    if price < 0 {
        0
    } else if price == 0 {
        u64::MAX
    } else {
        saturating_pow10_div(decimals as u64 + 10, price as u128)
    }
}

/// The minimum deposit for a price reading: a reading older than
/// `MAX_PRICE_FEED_AGE` is replaced by `DEFAULT_SOL_PRICE`.
pub fn calculate_minimum_sol_deposit(reading: &PriceReading) -> (r: u64)
    ensures
        r == minimum_deposit(*reading),
{
    let age: i128 = reading.current_timestamp as i128 - reading.feed_timestamp as i128;
    if age > MAX_PRICE_FEED_AGE as i128 {
        minimum_lamports_at(DEFAULT_SOL_PRICE, DEFAULT_SOL_PRICE_DECIMALS)
    } else {
        minimum_lamports_at(reading.price, reading.decimals)
    }
}

/// Reserve figures of the two paired vaults, as read from their accounts.
#[derive(PartialEq, Eq, Structural, Clone, Copy, Debug)]
pub struct PoolReading {
    pub a_vault_lp_amount: u64,
    pub b_vault_lp_amount: u64,
    pub a_vault_lp_supply: u64,
    pub b_vault_lp_supply: u64,
    pub total_token_a_amount: u64,
    pub total_token_b_amount: u64,
}

/// `FEE_DENOMINATOR / (FEE_DENOMINATOR - FEE_BPS)`, scaled by `PRECISION_FACTOR`.
pub open spec fn fee_multiplier() -> int {
    (FEE_DENOMINATOR * PRECISION_FACTOR) / (FEE_DENOMINATOR - FEE_BPS)
}

/// Tokens worth `sol` lamports at the pool's reserve ratio. Each vault's
/// share of the underlying token is `total * lp_amount / lp_supply`; the
/// ratio of the shares, scaled by `PRECISION_FACTOR` and raised by the fee
/// multiplier, is applied to `sol`. Every intermediate product must fit in
/// `i128`; a zero supply, reserve or share, an overflow, or a result beyond
/// `u64` gives `FALLBACK_TOKEN_AMOUNT`, and a positive product that rounds
/// down to zero tokens gives the smallest unit.
pub open spec fn token_amount(r: PoolReading, sol: u64) -> u64 {
    if r.a_vault_lp_supply == 0 || r.b_vault_lp_supply == 0 || r.total_token_a_amount == 0
        || r.total_token_b_amount == 0 {
        FALLBACK_TOKEN_AMOUNT
    } else {
        let na = r.total_token_a_amount * r.a_vault_lp_amount;
        let nb = r.total_token_b_amount * r.b_vault_lp_amount;
        if na > i128::MAX || nb > i128::MAX {
            FALLBACK_TOKEN_AMOUNT
        } else {
            let share_a = na / (r.a_vault_lp_supply as int);
            let share_b = nb / (r.b_vault_lp_supply as int);
            if share_a == 0 || share_b == 0 {
                FALLBACK_TOKEN_AMOUNT
            } else if share_a * PRECISION_FACTOR > i128::MAX {
                FALLBACK_TOKEN_AMOUNT
            } else {
                let basic_ratio = (share_a * PRECISION_FACTOR) / share_b;
                if basic_ratio * fee_multiplier() > i128::MAX {
                    FALLBACK_TOKEN_AMOUNT
                } else {
                    let adjusted = (basic_ratio * fee_multiplier()) / (PRECISION_FACTOR as int);
                    let scaled = sol * adjusted;
                    if scaled > i128::MAX {
                        FALLBACK_TOKEN_AMOUNT
                    } else {
                        let tokens = scaled / (PRECISION_FACTOR as int);
                        if tokens > u64::MAX {
                            FALLBACK_TOKEN_AMOUNT
                        } else if tokens == 0 {
                            if scaled > 0 {
                                1
                            } else {
                                FALLBACK_TOKEN_AMOUNT
                            }
                        } else {
                            tokens as u64
                        }
                    }
                }
            }
        }
    }
}

/// `x * y`, or `None` where it leaves `i128`.
fn mul_i128(x: i128, y: i128) -> (r: Option<i128>)
    ensures
        r == (if i128::MIN <= x * y <= i128::MAX { Some((x * y) as i128) } else { None::<i128> }),
{
    x.checked_mul(y)
}

/// Tokens worth `sol_amount` lamports at the reserve ratio of `reading`.
pub fn token_amount_for_reading(reading: &PoolReading, sol_amount: u64) -> (r: u64)
    ensures
        r == token_amount(*reading, sol_amount),
{
    if reading.a_vault_lp_supply == 0 || reading.b_vault_lp_supply == 0
        || reading.total_token_a_amount == 0 || reading.total_token_b_amount == 0 {
        return FALLBACK_TOKEN_AMOUNT;
    }
    let na = match mul_i128(reading.total_token_a_amount as i128, reading.a_vault_lp_amount as i128) {
        Some(v) => v,
        None => return FALLBACK_TOKEN_AMOUNT,
    };
    let share_a: i128 = na / (reading.a_vault_lp_supply as i128);
    let nb = match mul_i128(reading.total_token_b_amount as i128, reading.b_vault_lp_amount as i128) {
        Some(v) => v,
        None => return FALLBACK_TOKEN_AMOUNT,
    };
    let share_b: i128 = nb / (reading.b_vault_lp_supply as i128);
    if share_a == 0 || share_b == 0 {
        return FALLBACK_TOKEN_AMOUNT;
    }
    let nr = match mul_i128(share_a, PRECISION_FACTOR) {
        Some(v) => v,
        None => return FALLBACK_TOKEN_AMOUNT,
    };
    let basic_ratio: i128 = nr / share_b;
    let multiplier: i128 = (FEE_DENOMINATOR * PRECISION_FACTOR) / (FEE_DENOMINATOR - FEE_BPS);
    let nf = match mul_i128(basic_ratio, multiplier) {
        Some(v) => v,
        None => return FALLBACK_TOKEN_AMOUNT,
    };
    let adjusted: i128 = nf / PRECISION_FACTOR;
    let scaled = match mul_i128(sol_amount as i128, adjusted) {
        Some(v) => v,
        None => return FALLBACK_TOKEN_AMOUNT,
    };
    let tokens: i128 = scaled / PRECISION_FACTOR;
    if tokens > u64::MAX as i128 {
        return FALLBACK_TOKEN_AMOUNT;
    }
    if tokens == 0 {
        if scaled > 0 {
            return 1;
        }
        return FALLBACK_TOKEN_AMOUNT;
    }
    tokens as u64
}

/// The reserve figures held in the six vault accounts, if every one decodes:
/// token accounts for the two LP positions and the two token vaults, mints
/// for the two LP supplies.
pub open spec fn read_pool(
    a_vault_lp: Seq<u8>,
    b_vault_lp: Seq<u8>,
    a_vault_lp_mint: Seq<u8>,
    b_vault_lp_mint: Seq<u8>,
    a_token_vault: Seq<u8>,
    b_token_vault: Seq<u8>,
) -> Option<PoolReading> {
    if token_account_info(a_vault_lp) is Some && token_account_info(b_vault_lp) is Some
        && mint_supply(a_vault_lp_mint) is Some && mint_supply(b_vault_lp_mint) is Some
        && token_account_info(a_token_vault) is Some && token_account_info(b_token_vault) is Some {
        Some(PoolReading {
            a_vault_lp_amount: token_account_info(a_vault_lp).unwrap().amount,
            b_vault_lp_amount: token_account_info(b_vault_lp).unwrap().amount,
            a_vault_lp_supply: mint_supply(a_vault_lp_mint).unwrap(),
            b_vault_lp_supply: mint_supply(b_vault_lp_mint).unwrap(),
            total_token_a_amount: token_account_info(a_token_vault).unwrap().amount,
            total_token_b_amount: token_account_info(b_token_vault).unwrap().amount,
        })
    } else {
        None
    }
}

/// Tokens worth `sol` at the reserves held in the six vault accounts, or
/// `FALLBACK_TOKEN_AMOUNT` when one of them does not decode.
pub open spec fn tokens_for_accounts(
    a_vault_lp: Seq<u8>,
    b_vault_lp: Seq<u8>,
    a_vault_lp_mint: Seq<u8>,
    b_vault_lp_mint: Seq<u8>,
    a_token_vault: Seq<u8>,
    b_token_vault: Seq<u8>,
    sol: u64,
) -> u64 {
    match read_pool(a_vault_lp, b_vault_lp, a_vault_lp_mint, b_vault_lp_mint, a_token_vault, b_token_vault) {
        Some(r) => token_amount(r, sol),
        None => FALLBACK_TOKEN_AMOUNT,
    }
}

/// Tokens worth `sol_amount` lamports, from the raw data of the six vault
/// accounts. Never fails: unusable data gives `FALLBACK_TOKEN_AMOUNT`.
pub fn get_donut_tokens_amount(
    a_vault_lp: &[u8],
    b_vault_lp: &[u8],
    a_vault_lp_mint: &[u8],
    b_vault_lp_mint: &[u8],
    a_token_vault: &[u8],
    b_token_vault: &[u8],
    sol_amount: u64,
) -> (r: u64)
    ensures
        r == tokens_for_accounts(a_vault_lp@, b_vault_lp@, a_vault_lp_mint@, b_vault_lp_mint@,
            a_token_vault@, b_token_vault@, sol_amount),
{
    let a_lp = match read_token_account(a_vault_lp) {
        Some(a) => a,
        None => return FALLBACK_TOKEN_AMOUNT,
    };
    let b_lp = match read_token_account(b_vault_lp) {
        Some(a) => a,
        None => return FALLBACK_TOKEN_AMOUNT,
    };
    let a_supply = match read_mint_supply(a_vault_lp_mint) {
        Some(s) => s,
        None => return FALLBACK_TOKEN_AMOUNT,
    };
    let b_supply = match read_mint_supply(b_vault_lp_mint) {
        Some(s) => s,
        None => return FALLBACK_TOKEN_AMOUNT,
    };
    let a_vault = match read_token_account(a_token_vault) {
        Some(a) => a,
        None => return FALLBACK_TOKEN_AMOUNT,
    };
    let b_vault = match read_token_account(b_token_vault) {
        Some(a) => a,
        None => return FALLBACK_TOKEN_AMOUNT,
    };
    let reading = PoolReading {
        a_vault_lp_amount: a_lp.amount,
        b_vault_lp_amount: b_lp.amount,
        a_vault_lp_supply: a_supply,
        b_vault_lp_supply: b_supply,
        total_token_a_amount: a_vault.amount,
        total_token_b_amount: b_vault.amount,
    };
    token_amount_for_reading(&reading, sol_amount)
}

} // verus!
