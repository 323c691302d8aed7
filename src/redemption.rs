//! The redemption state machine: Initialize creates the record and the escrow
//! slot and moves the token in; Return or Burn resolves it and closes both.
//! Each operation checks everything before it changes anything, so a failed
//! operation leaves the accounts as they were.
use crate::accounts::{
    EscrowAccount, Holding, MintAccount, PaymentAccount, RecordAccount, RedemptionAccounts,
    RedemptionError, RedemptionInfo, TokenAccount,
};
use crate::address::{
    derived_address, escrow_seeds, find_escrow_address, find_record_address, is_escrow_address,
    is_program_address, is_record_address, record_seeds, Address,
};
use vstd::prelude::*;

verus! {

/// The balance of an account after creation tops it up to its rent.
pub open spec fn funded_balance(current: u64, rent: u64) -> u64 {
    if current < rent {
        rent
    } else {
        current
    }
}

/// What the payer is charged to bring an account up to its rent.
pub open spec fn creation_cost(current: u64, rent: u64) -> int {
    if current < rent {
        rent - current
    } else {
        0
    }
}

/// The outcome of Initialize: the accounts afterwards, or the first check that fails.
pub open spec fn initialize_outcome(
    pre: RedemptionAccounts,
    program_id: Seq<u8>,
    escrow_rent: u64,
    record_rent: u64,
) -> Result<RedemptionAccounts, RedemptionError> {
    let mint = pre.token_mint_account.key@;
    let rec = derived_address(record_seeds(mint), program_id);
    let esc = derived_address(escrow_seeds(mint), program_id);
    let record = pre.redemption_info;
    let escrow = pre.baxus_escrow_account;
    let buyer = pre.customer_token_account;
    let payer = pre.customer_payment_account;
    let cost = creation_cost(record.lamports, record_rent) + creation_cost(
        escrow.lamports,
        escrow_rent,
    );
    if rec is None {
        Err(RedemptionError::NoProgramAddress)
    } else if rec.unwrap().0 != record.key@ {
        Err(RedemptionError::SeedsMismatch)
    } else if record.info is Some {
        Err(RedemptionError::AlreadyInUse)
    } else if buyer.mint@ != mint {
        Err(RedemptionError::MintMismatch)
    } else if !payer.is_signer {
        Err(RedemptionError::NotSigner)
    } else if esc is None {
        Err(RedemptionError::NoProgramAddress)
    } else if esc.unwrap().0 != escrow.key@ {
        Err(RedemptionError::SeedsMismatch)
    } else if escrow.holding is Some {
        Err(RedemptionError::AlreadyInUse)
    } else if cost > payer.lamports {
        Err(RedemptionError::InsufficientFunds)
    } else if buyer.owner@ != payer.key@ {
        Err(RedemptionError::OwnerMismatch)
    } else if buyer.amount != 1 {
        Err(RedemptionError::InsufficientHolding)
    } else {
        Ok(
            RedemptionAccounts {
                redemption_info: RecordAccount {
                    key: record.key,
                    lamports: funded_balance(record.lamports, record_rent),
                    info: Some(
                        RedemptionInfo {
                            customer_token_account: buyer.key,
                            customer_payment_account: payer.key,
                            escrow_bump: esc.unwrap().1,
                            redemption_bump: rec.unwrap().1,
                        },
                    ),
                },
                customer_token_account: TokenAccount { amount: 0, ..buyer },
                customer_payment_account: PaymentAccount {
                    lamports: (payer.lamports - cost) as u64,
                    ..payer
                },
                token_mint_account: pre.token_mint_account,
                baxus_escrow_account: EscrowAccount {
                    key: escrow.key,
                    lamports: funded_balance(escrow.lamports, escrow_rent),
                    holding: Some(Holding { mint: pre.token_mint_account.key, owner: escrow.key, amount: 1 }),
                },
            },
        )
    }
}

/// A redemption in flight: the record exists at the canonical address derived
/// from the mint, the escrow slot at its own, the record holds both canonical
/// bumps, and the slot holds exactly one unit of the mint, owned by itself.
pub open spec fn is_active(a: RedemptionAccounts, program_id: Seq<u8>) -> bool {
    let mint = a.token_mint_account.key@;
    match a.redemption_info.info {
        Some(info) => {
            &&& derived_address(record_seeds(mint), program_id) == Some(
                (a.redemption_info.key@, info.redemption_bump),
            )
            &&& derived_address(escrow_seeds(mint), program_id) == Some(
                (a.baxus_escrow_account.key@, info.escrow_bump),
            )
            &&& match a.baxus_escrow_account.holding {
                Some(h) => h.mint@ == mint && h.owner@ == a.baxus_escrow_account.key@ && h.amount
                    == 1,
                None => false,
            }
        },
        None => false,
    }
}

/// The charge for creating an account of the given rent, and its balance after.
fn fund(current: u64, rent: u64) -> (r: (u64, u64))
    ensures
        r.0 == creation_cost(current, rent),
        r.1 == funded_balance(current, rent),
{
    if current < rent {
        (rent - current, rent)
    } else {
        (0, current)
    }
}

/// Initialize: creates the redemption record and the escrow slot of the mint,
/// both funded by the buyer's wallet, and moves the buyer's one unit into the
/// slot. The rents are the balances that the two new accounts must hold.
pub fn initialize_redemption(
    a: &mut RedemptionAccounts,
    program_id: &Address,
    escrow_rent: u64,
    record_rent: u64,
) -> (r: Result<(), RedemptionError>)
    ensures
        match initialize_outcome(*old(a), program_id@, escrow_rent, record_rent) {
            Ok(post) => r is Ok && *final(a) == post,
            Err(e) => r == Err::<(), RedemptionError>(e) && *final(a) == *old(a),
        },
        r is Ok ==> is_active(*final(a), program_id@),
        r is Ok ==> final(a).customer_token_account.amount == 0,
{
    let mint = a.token_mint_account.key;
    let (record_key, record_bump) = match find_record_address(&mint, program_id) {
        Some(found) => found,
        None => return Err(RedemptionError::NoProgramAddress),
    };
    if !record_key.same_as(&a.redemption_info.key) {
        return Err(RedemptionError::SeedsMismatch);
    }
    if a.redemption_info.info.is_some() {
        return Err(RedemptionError::AlreadyInUse);
    }
    if !a.customer_token_account.mint.same_as(&mint) {
        return Err(RedemptionError::MintMismatch);
    }
    if !a.customer_payment_account.is_signer {
        return Err(RedemptionError::NotSigner);
    }
    let (escrow_key, escrow_bump) = match find_escrow_address(&mint, program_id) {
        Some(found) => found,
        None => return Err(RedemptionError::NoProgramAddress),
    };
    if !escrow_key.same_as(&a.baxus_escrow_account.key) {
        return Err(RedemptionError::SeedsMismatch);
    }
    if a.baxus_escrow_account.holding.is_some() {
        return Err(RedemptionError::AlreadyInUse);
    }
    let (record_cost, record_balance) = fund(a.redemption_info.lamports, record_rent);
    let (escrow_cost, escrow_balance) = fund(a.baxus_escrow_account.lamports, escrow_rent);
    let payer_lamports = a.customer_payment_account.lamports;
    if record_cost > payer_lamports || escrow_cost > payer_lamports - record_cost {
        return Err(RedemptionError::InsufficientFunds);
    }
    if !a.customer_token_account.owner.same_as(&a.customer_payment_account.key) {
        return Err(RedemptionError::OwnerMismatch);
    }
    if a.customer_token_account.amount != 1 {
        return Err(RedemptionError::InsufficientHolding);
    }
    a.customer_payment_account.lamports = payer_lamports - record_cost - escrow_cost;
    a.redemption_info.lamports = record_balance;
    a.redemption_info.info = Some(
        RedemptionInfo {
            customer_token_account: a.customer_token_account.key,
            customer_payment_account: a.customer_payment_account.key,
            escrow_bump,
            redemption_bump: record_bump,
        },
    );
    a.baxus_escrow_account.lamports = escrow_balance;
    a.baxus_escrow_account.holding = Some(
        Holding { mint, owner: a.baxus_escrow_account.key, amount: 1 },
    );
    a.customer_token_account.amount = 0;
    Ok(())
}

/// The checks that Return and Burn share: the record exists at the address
/// derived with its stored bump, the buyer's token account is owned by the
/// buyer's wallet, both are the ones the record names, and the escrow slot
/// exists at the address derived with its stored bump. On success, the slot's
/// holding.
pub open spec fn resolution_check(pre: RedemptionAccounts, program_id: Seq<u8>) -> Result<
    Holding,
    RedemptionError,
> {
    let mint = pre.token_mint_account.key@;
    let record = pre.redemption_info;
    let escrow = pre.baxus_escrow_account;
    let buyer = pre.customer_token_account;
    let payer = pre.customer_payment_account;
    match record.info {
        None => Err(RedemptionError::NotInitialized),
        Some(info) => {
            if !is_program_address(record.key@, record_seeds(mint), info.redemption_bump, program_id) {
                Err(RedemptionError::SeedsMismatch)
            } else if buyer.owner@ != payer.key@ {
                Err(RedemptionError::OwnerMismatch)
            } else if info.customer_token_account@ != buyer.key@ {
                Err(RedemptionError::RecordMismatch)
            } else if info.customer_payment_account@ != payer.key@ {
                Err(RedemptionError::RecordMismatch)
            } else if !is_program_address(escrow.key@, escrow_seeds(mint), info.escrow_bump, program_id) {
                Err(RedemptionError::SeedsMismatch)
            } else {
                match escrow.holding {
                    None => Err(RedemptionError::NotInitialized),
                    Some(h) => Ok(h),
                }
            }
        },
    }
}

/// Whether the buyer's wallet can take back the balances of both closed accounts.
pub open spec fn refund_fits(pre: RedemptionAccounts) -> bool {
    pre.customer_payment_account.lamports + pre.baxus_escrow_account.lamports
        + pre.redemption_info.lamports <= u64::MAX
}

/// The accounts with the escrow slot and the record closed and their balances
/// sent to the buyer's wallet.
pub open spec fn closed(pre: RedemptionAccounts) -> RedemptionAccounts {
    RedemptionAccounts {
        redemption_info: RecordAccount { lamports: 0, info: None, ..pre.redemption_info },
        customer_payment_account: PaymentAccount {
            lamports: (pre.customer_payment_account.lamports + pre.baxus_escrow_account.lamports
                + pre.redemption_info.lamports) as u64,
            ..pre.customer_payment_account
        },
        baxus_escrow_account: EscrowAccount {
            lamports: 0,
            holding: None,
            ..pre.baxus_escrow_account
        },
        ..pre
    }
}

/// The outcome of Return: the accounts afterwards, or the first check that fails.
pub open spec fn return_outcome(pre: RedemptionAccounts, program_id: Seq<u8>) -> Result<
    RedemptionAccounts,
    RedemptionError,
> {
    let buyer = pre.customer_token_account;
    match resolution_check(pre, program_id) {
        Err(e) => Err(e),
        Ok(h) => {
            if h.mint@ != buyer.mint@ {
                Err(RedemptionError::MintMismatch)
            } else if h.owner@ != pre.baxus_escrow_account.key@ {
                Err(RedemptionError::OwnerMismatch)
            } else if h.amount != 1 {
                Err(RedemptionError::InsufficientHolding)
            } else if buyer.amount == u64::MAX || !refund_fits(pre) {
                Err(RedemptionError::BalanceOverflow)
            } else {
                Ok(
                    RedemptionAccounts {
                        customer_token_account: TokenAccount {
                            amount: (buyer.amount + 1) as u64,
                            ..buyer
                        },
                        ..closed(pre)
                    },
                )
            }
        },
    }
}

/// The outcome of Burn: the accounts afterwards, or the first check that fails.
pub open spec fn burn_outcome(pre: RedemptionAccounts, program_id: Seq<u8>) -> Result<
    RedemptionAccounts,
    RedemptionError,
> {
    let mint = pre.token_mint_account;
    match resolution_check(pre, program_id) {
        Err(e) => Err(e),
        Ok(h) => {
            if h.mint@ != mint.key@ {
                Err(RedemptionError::MintMismatch)
            } else if h.owner@ != pre.baxus_escrow_account.key@ {
                Err(RedemptionError::OwnerMismatch)
            } else if h.amount != 1 {
                Err(RedemptionError::InsufficientHolding)
            } else if mint.supply == 0 || !refund_fits(pre) {
                Err(RedemptionError::BalanceOverflow)
            } else {
                Ok(
                    RedemptionAccounts {
                        token_mint_account: MintAccount { supply: (mint.supply - 1) as u64, ..mint },
                        ..closed(pre)
                    },
                )
            }
        },
    }
}

/// Runs the checks that Return and Burn share.
fn check_resolution(a: &RedemptionAccounts, program_id: &Address) -> (r: Result<
    Holding,
    RedemptionError,
>)
    ensures
        r == resolution_check(*a, program_id@),
{
    let mint = a.token_mint_account.key;
    let info = match a.redemption_info.info {
        Some(info) => info,
        None => return Err(RedemptionError::NotInitialized),
    };
    if !is_record_address(&a.redemption_info.key, &mint, info.redemption_bump, program_id) {
        return Err(RedemptionError::SeedsMismatch);
    }
    if !a.customer_token_account.owner.same_as(&a.customer_payment_account.key) {
        return Err(RedemptionError::OwnerMismatch);
    }
    if !info.customer_token_account.same_as(&a.customer_token_account.key) {
        return Err(RedemptionError::RecordMismatch);
    }
    if !info.customer_payment_account.same_as(&a.customer_payment_account.key) {
        return Err(RedemptionError::RecordMismatch);
    }
    if !is_escrow_address(&a.baxus_escrow_account.key, &mint, info.escrow_bump, program_id) {
        return Err(RedemptionError::SeedsMismatch);
    }
    match a.baxus_escrow_account.holding {
        Some(h) => Ok(h),
        None => Err(RedemptionError::NotInitialized),
    }
}

/// Whether the refund of both closed accounts fits the buyer's wallet.
fn refund_fits_exec(a: &RedemptionAccounts) -> (r: bool)
    ensures
        r == refund_fits(*a),
{
    let payer = a.customer_payment_account.lamports;
    let escrow = a.baxus_escrow_account.lamports;
    let record = a.redemption_info.lamports;
    escrow <= u64::MAX - payer && record <= u64::MAX - payer - escrow
}

/// Closes the escrow slot and the record, sending their balances to the
/// buyer's wallet.
fn close_both(a: &mut RedemptionAccounts)
    requires
        refund_fits(*old(a)),
    ensures
        *final(a) == closed(*old(a)),
{
    a.customer_payment_account.lamports = a.customer_payment_account.lamports
        + a.baxus_escrow_account.lamports + a.redemption_info.lamports;
    a.baxus_escrow_account.lamports = 0;
    a.baxus_escrow_account.holding = None;
    a.redemption_info.lamports = 0;
    a.redemption_info.info = None;
}

/// Return: moves the unit from the escrow slot back to the buyer's token
/// account, signing with the slot's derived authority, then closes the slot and
/// the record and refunds their balances to the buyer's wallet.
pub fn return_asset_token(a: &mut RedemptionAccounts, program_id: &Address) -> (r: Result<
    (),
    RedemptionError,
>)
    ensures
        match return_outcome(*old(a), program_id@) {
            Ok(post) => r is Ok && *final(a) == post,
            Err(e) => r == Err::<(), RedemptionError>(e) && *final(a) == *old(a),
        },
{
    let h = match check_resolution(a, program_id) {
        Ok(h) => h,
        Err(e) => return Err(e),
    };
    if !h.mint.same_as(&a.customer_token_account.mint) {
        return Err(RedemptionError::MintMismatch);
    }
    if !h.owner.same_as(&a.baxus_escrow_account.key) {
        return Err(RedemptionError::OwnerMismatch);
    }
    if h.amount != 1 {
        return Err(RedemptionError::InsufficientHolding);
    }
    if a.customer_token_account.amount == u64::MAX || !refund_fits_exec(a) {
        return Err(RedemptionError::BalanceOverflow);
    }
    a.customer_token_account.amount = a.customer_token_account.amount + 1;
    close_both(a);
    Ok(())
}

/// Burn: destroys the unit held in the escrow slot, signing with the slot's
/// derived authority, then closes the slot and the record and refunds their
/// balances to the buyer's wallet. The buyer's token account is only checked.
pub fn burn_asset_token(a: &mut RedemptionAccounts, program_id: &Address) -> (r: Result<
    (),
    RedemptionError,
>)
    ensures
        match burn_outcome(*old(a), program_id@) {
            Ok(post) => r is Ok && *final(a) == post,
            Err(e) => r == Err::<(), RedemptionError>(e) && *final(a) == *old(a),
        },
{
    let h = match check_resolution(a, program_id) {
        Ok(h) => h,
        Err(e) => return Err(e),
    };
    if !h.mint.same_as(&a.token_mint_account.key) {
        return Err(RedemptionError::MintMismatch);
    }
    if !h.owner.same_as(&a.baxus_escrow_account.key) {
        return Err(RedemptionError::OwnerMismatch);
    }
    if h.amount != 1 {
        return Err(RedemptionError::InsufficientHolding);
    }
    if a.token_mint_account.supply == 0 || !refund_fits_exec(a) {
        return Err(RedemptionError::BalanceOverflow);
    }
    a.token_mint_account.supply = a.token_mint_account.supply - 1;
    close_both(a);
    Ok(())
}

} // verus!
