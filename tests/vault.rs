use anchor_escrow::address::Address;
use anchor_escrow::errors::{LedgerError, ProgramError, VaultError};
use anchor_escrow::state::derive_vault;
use anchor_escrow::vault::{deposit, withdraw, VaultAction};

fn addr(n: u8) -> Address {
    Address::new([n; 32])
}

fn program() -> Address {
    addr(0x22)
}

const MIN_BALANCE: u64 = 890_880;

fn accounts(signer_lamports: u64, vault_lamports: u64) -> VaultAction {
    let signer = addr(1);
    let (vault_key, _) = derive_vault(&signer, &program()).unwrap();
    VaultAction { signer, signer_lamports, vault_key, vault_lamports }
}

#[test]
fn deposit_fills_empty_vault() {
    let mut v = accounts(5_000_000, 0);
    assert_eq!(deposit(&mut v, &program(), 1_000_000, MIN_BALANCE), Ok(()));
    assert_eq!(v.vault_lamports, 1_000_000);
    assert_eq!(v.signer_lamports, 4_000_000);
}

#[test]
fn deposit_rejects_existing_vault() {
    let mut v = accounts(5_000_000, 1);
    let r = deposit(&mut v, &program(), 1_000_000, MIN_BALANCE);
    assert_eq!(r, Err(ProgramError::Vault(VaultError::VaultAlreadyExists)));
    assert_eq!((v.signer_lamports, v.vault_lamports), (5_000_000, 1));
}

#[test]
fn deposit_rejects_amount_at_minimum() {
    let mut v = accounts(5_000_000, 0);
    let r = deposit(&mut v, &program(), MIN_BALANCE, MIN_BALANCE);
    assert_eq!(r, Err(ProgramError::Vault(VaultError::InvalidAmount)));
    assert_eq!(deposit(&mut v, &program(), MIN_BALANCE + 1, MIN_BALANCE), Ok(()));
}

#[test]
fn deposit_rejects_short_signer() {
    let mut v = accounts(1_000_000, 0);
    let r = deposit(&mut v, &program(), 1_000_001, MIN_BALANCE);
    assert_eq!(r, Err(ProgramError::Ledger(LedgerError::InsufficientFunds)));
}

#[test]
fn deposit_rejects_foreign_vault() {
    let mut v = accounts(5_000_000, 0);
    v.vault_key = addr(9);
    let r = deposit(&mut v, &program(), 1_000_000, MIN_BALANCE);
    assert_eq!(r, Err(ProgramError::Ledger(LedgerError::ConstraintSeeds)));
}

#[test]
fn withdraw_drains_vault() {
    let mut v = accounts(4_000_000, 1_000_000);
    assert_eq!(withdraw(&mut v, &program()), Ok(()));
    assert_eq!(v.vault_lamports, 0);
    assert_eq!(v.signer_lamports, 5_000_000);
}

#[test]
fn withdraw_rejects_empty_vault() {
    let mut v = accounts(4_000_000, 0);
    let r = withdraw(&mut v, &program());
    assert_eq!(r, Err(ProgramError::Vault(VaultError::InvalidAmount)));
    assert_eq!(v.signer_lamports, 4_000_000);
}

#[test]
fn withdraw_rejects_other_signer() {
    let mut v = accounts(4_000_000, 1_000_000);
    v.signer = addr(2);
    let r = withdraw(&mut v, &program());
    assert_eq!(r, Err(ProgramError::Ledger(LedgerError::ConstraintSeeds)));
    assert_eq!(v.vault_lamports, 1_000_000);
}
