use anchor_lang::prelude::Pubkey;
use baxus_redemption::accounts::{
    ErrorKind, EscrowAccount, Holding, MintAccount, PaymentAccount, RecordAccount,
    RedemptionAccounts, RedemptionError, TokenAccount,
};
use baxus_redemption::address::{
    find_escrow_address, find_record_address, is_escrow_address, is_record_address, Address,
};
use baxus_redemption::redemption::{burn_asset_token, initialize_redemption, return_asset_token};

const ESCROW_RENT: u64 = 2_039_280;
const RECORD_RENT: u64 = 1_844_400;
const WALLET: u64 = 10_000_000;

fn program_id() -> Address {
    Address::new([7u8; 32])
}

fn mint() -> Address {
    Address::new([1u8; 32])
}

fn buyer_key() -> Address {
    Address::new([2u8; 32])
}

fn wallet_key() -> Address {
    Address::new([3u8; 32])
}

/// A buyer holding the token's one unit, before any redemption.
fn fresh() -> RedemptionAccounts {
    let (record_key, _) = find_record_address(&mint(), &program_id()).unwrap();
    let (escrow_key, _) = find_escrow_address(&mint(), &program_id()).unwrap();
    RedemptionAccounts {
        redemption_info: RecordAccount { key: record_key, lamports: 0, info: None },
        customer_token_account: TokenAccount {
            key: buyer_key(),
            mint: mint(),
            owner: wallet_key(),
            amount: 1,
        },
        customer_payment_account: PaymentAccount {
            key: wallet_key(),
            lamports: WALLET,
            is_signer: true,
        },
        token_mint_account: MintAccount { key: mint(), supply: 1 },
        baxus_escrow_account: EscrowAccount { key: escrow_key, lamports: 0, holding: None },
    }
}

fn initialized() -> RedemptionAccounts {
    let mut a = fresh();
    initialize_redemption(&mut a, &program_id(), ESCROW_RENT, RECORD_RENT).unwrap();
    a
}

#[test]
fn derived_addresses_agree_with_pubkey() {
    let pid = Pubkey::new_from_array([7u8; 32]);
    let m = Pubkey::new_from_array([1u8; 32]);
    let (record, record_bump) =
        Pubkey::find_program_address(&[m.as_ref(), b"redemption".as_ref()], &pid);
    let (escrow, escrow_bump) = Pubkey::find_program_address(&[m.as_ref()], &pid);
    assert_eq!(
        find_record_address(&mint(), &program_id()),
        Some((Address::new(record.to_bytes()), record_bump))
    );
    assert_eq!(
        find_escrow_address(&mint(), &program_id()),
        Some((Address::new(escrow.to_bytes()), escrow_bump))
    );
}

#[test]
fn derived_addresses_differ_by_role_and_mint() {
    let (record, _) = find_record_address(&mint(), &program_id()).unwrap();
    let (escrow, _) = find_escrow_address(&mint(), &program_id()).unwrap();
    let (other, _) = find_escrow_address(&buyer_key(), &program_id()).unwrap();
    assert_ne!(record, escrow);
    assert_ne!(escrow, other);
    assert_ne!(escrow, mint());
    assert_ne!(record, mint());
}

#[test]
fn stored_bump_reproduces_address() {
    let (record, record_bump) = find_record_address(&mint(), &program_id()).unwrap();
    let (escrow, escrow_bump) = find_escrow_address(&mint(), &program_id()).unwrap();
    assert!(is_record_address(&record, &mint(), record_bump, &program_id()));
    assert!(is_escrow_address(&escrow, &mint(), escrow_bump, &program_id()));
    assert!(!is_escrow_address(&record, &mint(), escrow_bump, &program_id()));
    assert!(!is_record_address(&escrow, &mint(), record_bump, &program_id()));
}

#[test]
fn initialize_creates_record_and_slot() {
    let before = fresh();
    let a = initialized();
    let info = a.redemption_info.info.unwrap();
    assert_eq!(info.customer_token_account, buyer_key());
    assert_eq!(info.customer_payment_account, wallet_key());
    let (_, record_bump) = find_record_address(&mint(), &program_id()).unwrap();
    let (_, escrow_bump) = find_escrow_address(&mint(), &program_id()).unwrap();
    assert_eq!(info.redemption_bump, record_bump);
    assert_eq!(info.escrow_bump, escrow_bump);
    assert_eq!(
        a.baxus_escrow_account.holding,
        Some(Holding { mint: mint(), owner: before.baxus_escrow_account.key, amount: 1 })
    );
    assert_eq!(a.customer_token_account.amount, 0);
    assert_eq!(a.redemption_info.lamports, RECORD_RENT);
    assert_eq!(a.baxus_escrow_account.lamports, ESCROW_RENT);
    assert_eq!(a.customer_payment_account.lamports, WALLET - ESCROW_RENT - RECORD_RENT);
    assert_eq!(a.token_mint_account.supply, 1);
}

#[test]
fn initialize_tops_up_prefunded_accounts() {
    let mut a = fresh();
    a.redemption_info.lamports = 1_000_000;
    a.baxus_escrow_account.lamports = 3_000_000;
    initialize_redemption(&mut a, &program_id(), ESCROW_RENT, RECORD_RENT).unwrap();
    assert_eq!(a.redemption_info.lamports, RECORD_RENT);
    assert_eq!(a.baxus_escrow_account.lamports, 3_000_000);
    assert_eq!(a.customer_payment_account.lamports, WALLET - (RECORD_RENT - 1_000_000));
}

#[test]
fn initialize_twice_fails_and_changes_nothing() {
    let mut a = initialized();
    let after_first = a;
    let r = initialize_redemption(&mut a, &program_id(), ESCROW_RENT, RECORD_RENT);
    assert_eq!(r, Err(RedemptionError::AlreadyInUse));
    assert_eq!(RedemptionError::AlreadyInUse.kind(), ErrorKind::ResourceState);
    assert_eq!(a, after_first);
}

#[test]
fn initialize_then_return() {
    let mut a = initialized();
    let wallet_before = a.customer_payment_account.lamports;
    return_asset_token(&mut a, &program_id()).unwrap();
    assert_eq!(a.redemption_info.info, None);
    assert_eq!(a.baxus_escrow_account.holding, None);
    assert_eq!(a.customer_token_account.amount, 1);
    assert_eq!(a.customer_payment_account.lamports, wallet_before + ESCROW_RENT + RECORD_RENT);
    assert_eq!(a.customer_payment_account.lamports, WALLET);
    assert_eq!(a.token_mint_account.supply, 1);
}

#[test]
fn initialize_then_burn() {
    let mut a = initialized();
    burn_asset_token(&mut a, &program_id()).unwrap();
    assert_eq!(a.redemption_info.info, None);
    assert_eq!(a.baxus_escrow_account.holding, None);
    assert_eq!(a.customer_token_account.amount, 0);
    assert_eq!(a.token_mint_account.supply, 0);
    assert_eq!(a.customer_payment_account.lamports, WALLET);
}

#[test]
fn resolving_twice_fails_the_same_way() {
    let mut a = initialized();
    return_asset_token(&mut a, &program_id()).unwrap();
    let resolved = a;
    for _ in 0..3 {
        assert_eq!(return_asset_token(&mut a, &program_id()), Err(RedemptionError::NotInitialized));
        assert_eq!(burn_asset_token(&mut a, &program_id()), Err(RedemptionError::NotInitialized));
        assert_eq!(a, resolved);
    }
    let mut b = initialized();
    burn_asset_token(&mut b, &program_id()).unwrap();
    let burned = b;
    assert_eq!(burn_asset_token(&mut b, &program_id()), Err(RedemptionError::NotInitialized));
    assert_eq!(return_asset_token(&mut b, &program_id()), Err(RedemptionError::NotInitialized));
    assert_eq!(b, burned);
    assert_eq!(RedemptionError::NotInitialized.kind(), ErrorKind::ResourceState);
}

#[test]
fn return_with_another_wallet_fails() {
    let mut a = initialized();
    a.customer_payment_account.key = Address::new([9u8; 32]);
    a.customer_token_account.owner = Address::new([9u8; 32]);
    let before = a;
    assert_eq!(return_asset_token(&mut a, &program_id()), Err(RedemptionError::RecordMismatch));
    assert_eq!(a, before);
}

#[test]
fn burn_with_another_token_account_fails() {
    let mut a = initialized();
    a.customer_token_account.key = Address::new([8u8; 32]);
    let before = a;
    assert_eq!(burn_asset_token(&mut a, &program_id()), Err(RedemptionError::RecordMismatch));
    assert_eq!(RedemptionError::RecordMismatch.kind(), ErrorKind::Authorization);
    assert_eq!(a, before);
}

#[test]
fn return_with_token_account_of_another_owner_fails() {
    let mut a = initialized();
    a.customer_token_account.owner = Address::new([9u8; 32]);
    let before = a;
    assert_eq!(return_asset_token(&mut a, &program_id()), Err(RedemptionError::OwnerMismatch));
    assert_eq!(a, before);
}

#[test]
fn return_with_wrong_escrow_fails() {
    let mut a = initialized();
    a.baxus_escrow_account.key = Address::new([4u8; 32]);
    let before = a;
    assert_eq!(return_asset_token(&mut a, &program_id()), Err(RedemptionError::SeedsMismatch));
    assert_eq!(a, before);
}

#[test]
fn initialize_with_wrong_record_address_fails() {
    let mut a = fresh();
    a.redemption_info.key = a.baxus_escrow_account.key;
    let before = a;
    let r = initialize_redemption(&mut a, &program_id(), ESCROW_RENT, RECORD_RENT);
    assert_eq!(r, Err(RedemptionError::SeedsMismatch));
    assert_eq!(a, before);
}

#[test]
fn initialize_with_token_of_another_mint_fails() {
    let mut a = fresh();
    a.customer_token_account.mint = Address::new([5u8; 32]);
    let r = initialize_redemption(&mut a, &program_id(), ESCROW_RENT, RECORD_RENT);
    assert_eq!(r, Err(RedemptionError::MintMismatch));
    assert_eq!(RedemptionError::MintMismatch.kind(), ErrorKind::Authorization);
}

#[test]
fn initialize_without_signature_fails() {
    let mut a = fresh();
    a.customer_payment_account.is_signer = false;
    let r = initialize_redemption(&mut a, &program_id(), ESCROW_RENT, RECORD_RENT);
    assert_eq!(r, Err(RedemptionError::NotSigner));
}

#[test]
fn initialize_by_another_wallet_fails() {
    let mut a = fresh();
    a.customer_token_account.owner = Address::new([6u8; 32]);
    let r = initialize_redemption(&mut a, &program_id(), ESCROW_RENT, RECORD_RENT);
    assert_eq!(r, Err(RedemptionError::OwnerMismatch));
}

#[test]
fn initialize_without_the_unit_fails() {
    let mut a = fresh();
    a.customer_token_account.amount = 0;
    let before = a;
    let r = initialize_redemption(&mut a, &program_id(), ESCROW_RENT, RECORD_RENT);
    assert_eq!(r, Err(RedemptionError::InsufficientHolding));
    assert_eq!(a, before);
    let mut b = fresh();
    b.customer_token_account.amount = 2;
    let r = initialize_redemption(&mut b, &program_id(), ESCROW_RENT, RECORD_RENT);
    assert_eq!(r, Err(RedemptionError::InsufficientHolding));
    assert_eq!(RedemptionError::InsufficientHolding.kind(), ErrorKind::ResourceState);
}

#[test]
fn initialize_with_existing_escrow_fails() {
    let mut a = fresh();
    a.baxus_escrow_account.holding =
        Some(Holding { mint: mint(), owner: a.baxus_escrow_account.key, amount: 0 });
    let r = initialize_redemption(&mut a, &program_id(), ESCROW_RENT, RECORD_RENT);
    assert_eq!(r, Err(RedemptionError::AlreadyInUse));
}

#[test]
fn initialize_without_funds_fails() {
    let mut a = fresh();
    a.customer_payment_account.lamports = ESCROW_RENT + RECORD_RENT - 1;
    let before = a;
    let r = initialize_redemption(&mut a, &program_id(), ESCROW_RENT, RECORD_RENT);
    assert_eq!(r, Err(RedemptionError::InsufficientFunds));
    assert_eq!(RedemptionError::InsufficientFunds.kind(), ErrorKind::ResourceExhaustion);
    assert_eq!(a, before);
    let mut b = fresh();
    b.customer_payment_account.lamports = ESCROW_RENT + RECORD_RENT;
    assert_eq!(initialize_redemption(&mut b, &program_id(), ESCROW_RENT, RECORD_RENT), Ok(()));
    assert_eq!(b.customer_payment_account.lamports, 0);
}

#[test]
fn resolving_with_overflowing_refund_fails() {
    let mut a = initialized();
    a.customer_payment_account.lamports = u64::MAX - 1;
    let before = a;
    assert_eq!(return_asset_token(&mut a, &program_id()), Err(RedemptionError::BalanceOverflow));
    assert_eq!(burn_asset_token(&mut a, &program_id()), Err(RedemptionError::BalanceOverflow));
    assert_eq!(RedemptionError::BalanceOverflow.kind(), ErrorKind::ResourceExhaustion);
    assert_eq!(a, before);
}

#[test]
fn burn_from_slot_of_another_mint_fails() {
    let mut a = initialized();
    a.baxus_escrow_account.holding = Some(Holding {
        mint: Address::new([5u8; 32]),
        owner: a.baxus_escrow_account.key,
        amount: 1,
    });
    assert_eq!(burn_asset_token(&mut a, &program_id()), Err(RedemptionError::MintMismatch));
}

#[test]
fn resolving_a_slot_without_the_unit_fails() {
    let mut a = initialized();
    a.baxus_escrow_account.holding =
        Some(Holding { mint: mint(), owner: a.baxus_escrow_account.key, amount: 0 });
    assert_eq!(return_asset_token(&mut a, &program_id()), Err(RedemptionError::InsufficientHolding));
    assert_eq!(burn_asset_token(&mut a, &program_id()), Err(RedemptionError::InsufficientHolding));
}

#[test]
fn address_comparison_and_seed() {
    let a = Address::new([1u8; 32]);
    let mut bytes = [1u8; 32];
    bytes[31] = 2;
    let b = Address::new(bytes);
    assert!(a.same_as(&a));
    assert!(!a.same_as(&b));
    assert_eq!(b.to_seed(), bytes.to_vec());
}
