//! Stored records: the global counters, each participant's node, and the
//! notification emitted when a slot fills.
use vstd::prelude::*;
use crate::key::Key;

verus! {

/// Ancestors kept in a node's sliding upline window.
pub const MAX_UPLINE_DEPTH: usize = 6;

/// Process-wide counters from which upline and chain ids are drawn.
#[derive(PartialEq, Eq, Structural, Clone, Copy, Debug)]
pub struct ProgramState {
    pub owner: Key,
    pub multisig_treasury: Key,
    pub next_upline_id: u32,
    pub next_chain_id: u32,
}

/// One ancestor in an upline window: its node account and its wallet.
#[derive(PartialEq, Eq, Structural, Clone, Copy, Debug)]
pub struct UplineEntry {
    pub pda: Key,
    pub wallet: Key,
}

/// The sliding window of a node's nearest ancestors, oldest first.
#[derive(Clone, Debug)]
pub struct ReferralUpline {
    pub id: u32,
    pub depth: u8,
    pub upline: Vec<UplineEntry>,
}

pub ghost struct UplineView {
    pub id: u32,
    pub depth: u8,
    pub upline: Seq<UplineEntry>,
}

impl View for ReferralUpline {
    type V = UplineView;

    open spec fn view(&self) -> UplineView {
        UplineView { id: self.id, depth: self.depth, upline: self.upline@ }
    }
}

/// A node's three child slots under the current chain id.
#[derive(Clone, Copy, Debug)]
pub struct ReferralChain {
    pub id: u32,
    pub slots: [Option<Key>; 3],
    pub filled_slots: u8,
}

pub ghost struct ChainView {
    pub id: u32,
    pub slots: Seq<Option<Key>>,
    pub filled_slots: u8,
}

impl View for ReferralChain {
    type V = ChainView;

    open spec fn view(&self) -> ChainView {
        ChainView { id: self.id, slots: self.slots@, filled_slots: self.filled_slots }
    }
}

impl ChainView {
    /// `filled_slots` counts the occupied slots, which form a prefix, and is
    /// below 3 (a chain that fills its third slot resets at once).
    pub open spec fn wf(self) -> bool {
        &&& self.slots.len() == 3
        &&& self.filled_slots < 3
        &&& forall|i: int| 0 <= i < 3 ==> (self.slots[i] is Some <==> i < self.filled_slots)
    }
}

/// A registered participant.
#[derive(Clone, Debug)]
pub struct UserAccount {
    pub is_registered: bool,
    pub referrer: Option<Key>,
    pub owner_wallet: Key,
    pub upline: ReferralUpline,
    pub chain: ReferralChain,
    pub reserved_sol: u64,
    pub reserved_tokens: u64,
}

pub ghost struct UserAccountView {
    pub is_registered: bool,
    pub referrer: Option<Key>,
    pub owner_wallet: Key,
    pub upline: UplineView,
    pub chain: ChainView,
    pub reserved_sol: u64,
    pub reserved_tokens: u64,
}

impl View for UserAccount {
    type V = UserAccountView;

    open spec fn view(&self) -> UserAccountView {
        UserAccountView {
            is_registered: self.is_registered,
            referrer: self.referrer,
            owner_wallet: self.owner_wallet,
            upline: self.upline@,
            chain: self.chain@,
            reserved_sol: self.reserved_sol,
            reserved_tokens: self.reserved_tokens,
        }
    }
}

impl UserAccountView {
    /// Escrow is held only between the second and the third slot fill.
    pub open spec fn escrow_consistent(self) -> bool {
        (self.reserved_sol != 0 || self.reserved_tokens != 0) ==> self.chain.filled_slots == 2
    }

    /// The node's upline window never exceeds the depth bound.
    pub open spec fn wf(self) -> bool {
        &&& self.chain.wf()
        &&& self.upline.upline.len() <= MAX_UPLINE_DEPTH
        &&& self.escrow_consistent()
    }
}

impl UserAccount {
    /// A copy of this record.
    pub fn duplicate(&self) -> (r: UserAccount)
        ensures
            r@ == self@,
    {
        let mut upline: Vec<UplineEntry> = Vec::new();
        let n = self.upline.upline.len();
        for i in 0..n
            invariant
                n == self.upline.upline@.len(),
                upline@ == self.upline.upline@.subrange(0, i as int),
        {
            upline.push(self.upline.upline[i]);
            assert(upline@ =~= self.upline.upline@.subrange(0, i + 1));
        }
        assert(upline@ =~= self.upline.upline@);
        UserAccount {
            is_registered: self.is_registered,
            referrer: self.referrer,
            owner_wallet: self.owner_wallet,
            upline: ReferralUpline { id: self.upline.id, depth: self.upline.depth, upline },
            chain: self.chain,
            reserved_sol: self.reserved_sol,
            reserved_tokens: self.reserved_tokens,
        }
    }
}

/// Notification that `user` took slot `slot_idx` of `owner`'s chain `chain_id`.
#[derive(PartialEq, Eq, Structural, Clone, Copy, Debug)]
pub struct SlotFilled {
    pub slot_idx: u8,
    pub chain_id: u32,
    pub user: Key,
    pub owner: Key,
}

/// Every way in which an operation of the settlement core can fail.
#[derive(PartialEq, Eq, Structural, Clone, Copy, Debug)]
pub enum ErrorCode {
    AlreadyInitialized,
    InvalidStateAccount,
    InvalidStateSize,
    InvalidVaultALpAddress,
    InvalidVaultALpMintAddress,
    InvalidTokenAVaultAddress,
    ReferrerNotRegistered,
    InvalidUpline,
    InvalidUplineDepth,
    NotAuthorized,
    ChainFull,
    InvalidSlotOwner,
    SlotNotRegistered,
    InvalidSlotReferrer,
    CannotLoadUplineAccount,
    InvalidAccountDiscriminator,
    InsufficientDeposit,
    DepositToPoolFailed,
    SolReserveFailed,
    ReferrerPaymentFailed,
    WrapSolFailed,
    UnwrapSolFailed,
    TokenMintFailed,
    TokenTransferFailed,
    InvalidPoolAddress,
    InvalidVaultAddress,
    InvalidTokenMintAddress,
    InvalidTokenAccount,
    InvalidWalletForATA,
    UplineEntryCreationFailed,
    MissingUplineAccount,
    PaymentWalletInvalid,
    TokenAccountInvalid,
    MissingVaultAAccounts,
    PriceFeedReadFailed,
    PriceFeedTooOld,
    InvalidChainlinkProgram,
    InvalidPriceFeed,
    /// An ancestor's node account does not hold a node record.
    InvalidAccountData,
    /// A global id counter has no fresh id left.
    CounterOverflow,
}

/// An account handed to an operation: its address, the program that owns
/// it, its raw data and, where that data holds a node record, the record.
#[derive(Clone, Debug)]
pub struct AccountSnapshot {
    pub key: Key,
    pub owner: Key,
    pub data: Vec<u8>,
    pub node: Option<UserAccount>,
}

} // verus!
