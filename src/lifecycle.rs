//! The lifecycle of one token's redemption: Uninitialized, then Active after
//! Initialize, then Terminal after Return or Burn. A failed operation leaves
//! the accounts unchanged (see the operations' contracts), so each law below
//! about an error also says that retrying meets the same error.
use crate::accounts::{error_kind, ErrorKind, RedemptionAccounts, RedemptionError};
use crate::address::{bump_from, derived_address, program_address, with_bump};
use crate::redemption::{burn_outcome, initialize_outcome, is_active, refund_fits, return_outcome};
use vstd::prelude::*;

verus! {

/// The buyer's accounts given to Return or Burn are the ones the record names,
/// and the token account is owned by the wallet.
pub open spec fn matches_record(a: RedemptionAccounts) -> bool {
    match a.redemption_info.info {
        Some(info) => {
            &&& info.customer_token_account@ == a.customer_token_account.key@
            &&& info.customer_payment_account@ == a.customer_payment_account.key@
            &&& a.customer_token_account.owner@ == a.customer_payment_account.key@
        },
        None => false,
    }
}

/// The redemption was resolved (or never started): no record exists.
pub open spec fn is_terminal(a: RedemptionAccounts) -> bool {
    a.redemption_info.info is None && a.baxus_escrow_account.holding is None
}

/// The record exists exactly when the escrow slot does.
pub open spec fn is_paired(a: RedemptionAccounts) -> bool {
    (a.redemption_info.info is Some) == (a.baxus_escrow_account.holding is Some)
}

/// Every successful operation leaves the record and the escrow slot paired:
/// Initialize creates both, Return and Burn remove both.
pub proof fn operations_keep_record_and_slot_paired(
    a: RedemptionAccounts,
    program_id: Seq<u8>,
    escrow_rent: u64,
    record_rent: u64,
)
    ensures
        initialize_outcome(a, program_id, escrow_rent, record_rent) is Ok ==> is_paired(
            initialize_outcome(a, program_id, escrow_rent, record_rent).unwrap(),
        ),
        return_outcome(a, program_id) is Ok ==> is_paired(return_outcome(a, program_id).unwrap()),
        burn_outcome(a, program_id) is Ok ==> is_paired(burn_outcome(a, program_id).unwrap()),
{
}

/// A bump found by the downward search yields a program address.
proof fn lemma_found_bump_is_valid(seeds: Seq<Seq<u8>>, program_id: Seq<u8>, b: int)
    requires
        bump_from(seeds, program_id, b) is Some,
    ensures
        program_address(with_bump(seeds, bump_from(seeds, program_id, b).unwrap()), program_id) is Some,
    decreases b,
{
    if b >= 1 && b <= 255 && program_address(with_bump(seeds, b as u8), program_id) is None {
        lemma_found_bump_is_valid(seeds, program_id, b - 1);
    }
}

/// The canonical address is the program address under the canonical bump.
proof fn lemma_derived_is_program_address(seeds: Seq<Seq<u8>>, program_id: Seq<u8>)
    requires
        derived_address(seeds, program_id) is Some,
    ensures
        program_address(
            with_bump(seeds, derived_address(seeds, program_id).unwrap().1),
            program_id,
        ) == Some(derived_address(seeds, program_id).unwrap().0),
{
    lemma_found_bump_is_valid(seeds, program_id, 255);
}

/// After a successful Initialize the redemption is active: one record, one
/// escrow slot holding exactly one unit, and the buyer holding none.
pub proof fn initialize_makes_active(
    a: RedemptionAccounts,
    program_id: Seq<u8>,
    escrow_rent: u64,
    record_rent: u64,
)
    requires
        initialize_outcome(a, program_id, escrow_rent, record_rent) is Ok,
    ensures
        ({
            let post = initialize_outcome(a, program_id, escrow_rent, record_rent).unwrap();
            &&& is_active(post, program_id)
            &&& post.baxus_escrow_account.holding.unwrap().amount == 1
            &&& post.customer_token_account.amount == 0
        }),
{
}

/// Initialize on an active redemption fails with a resource-state error, so a
/// second Initialize right after a successful one fails and changes nothing.
pub proof fn initialize_on_active_fails(
    a: RedemptionAccounts,
    program_id: Seq<u8>,
    escrow_rent: u64,
    record_rent: u64,
)
    requires
        is_active(a, program_id),
    ensures
        initialize_outcome(a, program_id, escrow_rent, record_rent) == Err::<
            RedemptionAccounts,
            RedemptionError,
        >(RedemptionError::AlreadyInUse),
        error_kind(RedemptionError::AlreadyInUse) == ErrorKind::ResourceState,
{
}

/// Two Initializes in direct succession: the second fails, whatever rents it is
/// given, with a resource-state error.
pub proof fn initialize_twice_fails(
    a: RedemptionAccounts,
    program_id: Seq<u8>,
    escrow_rent: u64,
    record_rent: u64,
    escrow_rent2: u64,
    record_rent2: u64,
)
    requires
        initialize_outcome(a, program_id, escrow_rent, record_rent) is Ok,
    ensures
        initialize_outcome(
            initialize_outcome(a, program_id, escrow_rent, record_rent).unwrap(),
            program_id,
            escrow_rent2,
            record_rent2,
        ) == Err::<RedemptionAccounts, RedemptionError>(RedemptionError::AlreadyInUse),
{
    let post = initialize_outcome(a, program_id, escrow_rent, record_rent).unwrap();
    initialize_makes_active(a, program_id, escrow_rent, record_rent);
    initialize_on_active_fails(post, program_id, escrow_rent2, record_rent2);
}

/// On an active redemption whose buyer token account is of the token's mint,
/// Return succeeds exactly when the buyer's accounts match the record (barring
/// balances that would leave `u64`); it then closes the record and the slot,
/// gives the buyer one more unit and refunds both balances to the wallet.
pub proof fn return_succeeds_iff_matching(a: RedemptionAccounts, program_id: Seq<u8>)
    requires
        is_active(a, program_id),
        a.customer_token_account.mint@ == a.token_mint_account.key@,
        a.customer_token_account.amount < u64::MAX,
        refund_fits(a),
    ensures
        return_outcome(a, program_id) is Ok <==> matches_record(a),
        return_outcome(a, program_id) is Ok ==> ({
            let post = return_outcome(a, program_id).unwrap();
            &&& is_terminal(post)
            &&& post.customer_token_account.amount == a.customer_token_account.amount + 1
            &&& post.customer_payment_account.lamports == a.customer_payment_account.lamports
                + a.baxus_escrow_account.lamports + a.redemption_info.lamports
            &&& post.token_mint_account == a.token_mint_account
        }),
{
    let mint = a.token_mint_account.key@;
    lemma_derived_is_program_address(crate::address::record_seeds(mint), program_id);
    lemma_derived_is_program_address(crate::address::escrow_seeds(mint), program_id);
}

/// On an active redemption with a positive supply, Burn succeeds exactly when
/// the buyer's accounts match the record (barring balances that would leave
/// `u64`); it then closes the record and the slot, lowers the supply by one,
/// leaves the buyer's token account as it was and refunds both balances.
pub proof fn burn_succeeds_iff_matching(a: RedemptionAccounts, program_id: Seq<u8>)
    requires
        is_active(a, program_id),
        a.token_mint_account.supply >= 1,
        refund_fits(a),
    ensures
        burn_outcome(a, program_id) is Ok <==> matches_record(a),
        burn_outcome(a, program_id) is Ok ==> ({
            let post = burn_outcome(a, program_id).unwrap();
            &&& is_terminal(post)
            &&& post.token_mint_account.supply == a.token_mint_account.supply - 1
            &&& post.customer_token_account == a.customer_token_account
            &&& post.customer_payment_account.lamports == a.customer_payment_account.lamports
                + a.baxus_escrow_account.lamports + a.redemption_info.lamports
        }),
{
    let mint = a.token_mint_account.key@;
    lemma_derived_is_program_address(crate::address::record_seeds(mint), program_id);
    lemma_derived_is_program_address(crate::address::escrow_seeds(mint), program_id);
}

/// Return and Burn on a terminal redemption fail with a resource-state error;
/// as a failure changes nothing, every retry fails the same way.
pub proof fn resolve_on_terminal_fails(a: RedemptionAccounts, program_id: Seq<u8>)
    requires
        is_terminal(a),
    ensures
        return_outcome(a, program_id) == Err::<RedemptionAccounts, RedemptionError>(
            RedemptionError::NotInitialized,
        ),
        burn_outcome(a, program_id) == Err::<RedemptionAccounts, RedemptionError>(
            RedemptionError::NotInitialized,
        ),
        error_kind(RedemptionError::NotInitialized) == ErrorKind::ResourceState,
{
}

/// A resolved redemption stays resolved: after a successful Return or Burn, a
/// further Return or Burn fails with a resource-state error.
pub proof fn resolution_is_final(a: RedemptionAccounts, program_id: Seq<u8>)
    ensures
        return_outcome(a, program_id) is Ok ==> is_terminal(return_outcome(a, program_id).unwrap()),
        burn_outcome(a, program_id) is Ok ==> is_terminal(burn_outcome(a, program_id).unwrap()),
        return_outcome(a, program_id) is Ok ==> ({
            let post = return_outcome(a, program_id).unwrap();
            &&& return_outcome(post, program_id) == Err::<RedemptionAccounts, RedemptionError>(
                RedemptionError::NotInitialized,
            )
            &&& burn_outcome(post, program_id) == Err::<RedemptionAccounts, RedemptionError>(
                RedemptionError::NotInitialized,
            )
        }),
        burn_outcome(a, program_id) is Ok ==> ({
            let post = burn_outcome(a, program_id).unwrap();
            &&& return_outcome(post, program_id) == Err::<RedemptionAccounts, RedemptionError>(
                RedemptionError::NotInitialized,
            )
            &&& burn_outcome(post, program_id) == Err::<RedemptionAccounts, RedemptionError>(
                RedemptionError::NotInitialized,
            )
        }),
{
}

} // verus!
