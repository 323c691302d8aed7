//! The accounts that an operation reads and writes, as plain values, and the
//! errors an operation can end with.
use crate::address::Address;
use vstd::prelude::*;

verus! {

/// A token holding account outside the protocol's control (the buyer's).
#[derive(Clone, Copy, Debug, PartialEq, Eq)]
pub struct TokenAccount {
    pub key: Address,
    pub mint: Address,
    /// The wallet that may move the units held here.
    pub owner: Address,
    pub amount: u64,
}

/// The buyer's wallet: it pays for account creation and receives the
/// reclaimed holding costs.
#[derive(Clone, Copy, Debug, PartialEq, Eq)]
pub struct PaymentAccount {
    pub key: Address,
    pub lamports: u64,
    /// Whether the wallet signed the transaction.
    pub is_signer: bool,
}

/// The token's mint: its identity and the number of units issued.
#[derive(Clone, Copy, Debug, PartialEq, Eq)]
pub struct MintAccount {
    pub key: Address,
    pub supply: u64,
}

/// The token state of an escrow slot while it exists.
#[derive(Clone, Copy, Debug, PartialEq, Eq)]
pub struct Holding {
    pub mint: Address,
    pub owner: Address,
    pub amount: u64,
}

/// The escrow slot at its derived address; `holding` is `None` while the slot
/// does not exist.
#[derive(Clone, Copy, Debug, PartialEq, Eq)]
pub struct EscrowAccount {
    pub key: Address,
    pub lamports: u64,
    pub holding: Option<Holding>,
}

/// The persistent record of one in-flight redemption.
#[derive(Clone, Copy, Debug, PartialEq, Eq)]
pub struct RedemptionInfo {
    /// The buyer's token account, which receives the token on return.
    pub customer_token_account: Address,
    /// The buyer's wallet, which paid for creation and receives the refunds.
    pub customer_payment_account: Address,
    /// The bump seed of the escrow slot's derived address.
    pub escrow_bump: u8,
    /// The bump seed of this record's derived address.
    pub redemption_bump: u8,
}

/// The redemption record at its derived address; `info` is `None` while the
/// record does not exist.
#[derive(Clone, Copy, Debug, PartialEq, Eq)]
pub struct RecordAccount {
    pub key: Address,
    pub lamports: u64,
    pub info: Option<RedemptionInfo>,
}

/// The accounts that an operation on one token is given, in their current state.
#[derive(Clone, Copy, Debug, PartialEq, Eq)]
pub struct RedemptionAccounts {
    pub redemption_info: RecordAccount,
    pub customer_token_account: TokenAccount,
    pub customer_payment_account: PaymentAccount,
    pub token_mint_account: MintAccount,
    pub baxus_escrow_account: EscrowAccount,
}

/// The accounts of an Initialize.
pub type InitializeRedemption = RedemptionAccounts;

/// The accounts of a Return.
pub type ReturnAssetToken = RedemptionAccounts;

/// The accounts of a Burn.
pub type BurnAssetToken = RedemptionAccounts;

/// Why an operation failed; a failed operation changes nothing.
#[derive(Clone, Copy, Debug, PartialEq, Eq)]
pub enum RedemptionError {
    /// No bump seed gives a program address for the seeds.
    NoProgramAddress,
    /// An account is not at the address derived for it.
    SeedsMismatch,
    /// A token account belongs to another mint.
    MintMismatch,
    /// The paying wallet did not sign.
    NotSigner,
    /// A token account is not owned by the expected wallet.
    OwnerMismatch,
    /// The buyer's accounts are not the ones the record holds.
    RecordMismatch,
    /// The record or the escrow slot already exists.
    AlreadyInUse,
    /// The record or the escrow slot does not exist.
    NotInitialized,
    /// A token account does not hold exactly the one unit expected.
    InsufficientHolding,
    /// The paying wallet cannot fund the accounts to be created.
    InsufficientFunds,
    /// A balance or the supply would leave the range of `u64`.
    BalanceOverflow,
}

/// The three kinds of failure.
#[derive(Clone, Copy, Debug, PartialEq, Eq)]
pub enum ErrorKind {
    /// Wrong account, mint, derived address or signature.
    Authorization,
    /// A record or slot in the wrong lifecycle state, or an unexpected balance.
    ResourceState,
    /// Not enough funds, or a balance out of range.
    ResourceExhaustion,
}

pub open spec fn error_kind(e: RedemptionError) -> ErrorKind {
    match e {
        RedemptionError::NoProgramAddress => ErrorKind::Authorization,
        RedemptionError::SeedsMismatch => ErrorKind::Authorization,
        RedemptionError::MintMismatch => ErrorKind::Authorization,
        RedemptionError::NotSigner => ErrorKind::Authorization,
        RedemptionError::OwnerMismatch => ErrorKind::Authorization,
        RedemptionError::RecordMismatch => ErrorKind::Authorization,
        RedemptionError::AlreadyInUse => ErrorKind::ResourceState,
        RedemptionError::NotInitialized => ErrorKind::ResourceState,
        RedemptionError::InsufficientHolding => ErrorKind::ResourceState,
        RedemptionError::InsufficientFunds => ErrorKind::ResourceExhaustion,
        RedemptionError::BalanceOverflow => ErrorKind::ResourceExhaustion,
    }
}

impl RedemptionError {
    pub fn kind(&self) -> (r: ErrorKind)
        ensures
            r == error_kind(*self),
    {
        match self {
            RedemptionError::NoProgramAddress => ErrorKind::Authorization,
            RedemptionError::SeedsMismatch => ErrorKind::Authorization,
            RedemptionError::MintMismatch => ErrorKind::Authorization,
            RedemptionError::NotSigner => ErrorKind::Authorization,
            RedemptionError::OwnerMismatch => ErrorKind::Authorization,
            RedemptionError::RecordMismatch => ErrorKind::Authorization,
            RedemptionError::AlreadyInUse => ErrorKind::ResourceState,
            RedemptionError::NotInitialized => ErrorKind::ResourceState,
            RedemptionError::InsufficientHolding => ErrorKind::ResourceState,
            RedemptionError::InsufficientFunds => ErrorKind::ResourceExhaustion,
            RedemptionError::BalanceOverflow => ErrorKind::ResourceExhaustion,
        }
    }
}

} // verus!
