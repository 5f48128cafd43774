use anchor_escrow::address::Address;
use anchor_escrow::errors::{EscrowError, LedgerError, ProgramError};
use anchor_escrow::make::Make;
use anchor_escrow::refund::Refund;
use anchor_escrow::state::{derive_escrow, Mint, TokenAccount};
use anchor_escrow::take::Take;
use anchor_escrow::{make, refund, take};

fn addr(n: u8) -> Address {
    Address::new([n; 32])
}

fn program() -> Address {
    addr(0x22)
}

const MAKER: u8 = 1;
const TAKER: u8 = 2;
const MINT_A: u8 = 10;
const MINT_B: u8 = 11;

fn holding(mint: u8, owner: Address, amount: u64) -> TokenAccount {
    TokenAccount { mint: addr(mint), owner, amount }
}

fn make_accounts(seed: u64, maker_a: u64) -> Make {
    let maker = addr(MAKER);
    let (escrow_key, _) = derive_escrow(&maker, seed, &program()).unwrap();
    Make {
        maker,
        escrow_key,
        escrow: None,
        mint_a: Mint { key: addr(MINT_A), decimals: 6 },
        mint_b: Mint { key: addr(MINT_B), decimals: 9 },
        maker_ata_a: holding(MINT_A, maker, maker_a),
        vault: None,
    }
}

fn take_accounts(m: &Make, taker_b: u64) -> Take {
    Take {
        taker: addr(TAKER),
        maker: m.maker,
        escrow_key: m.escrow_key,
        escrow: m.escrow,
        mint_a: m.mint_a,
        mint_b: m.mint_b,
        vault: m.vault,
        taker_ata_a: None,
        taker_ata_b: holding(MINT_B, addr(TAKER), taker_b),
        maker_ata_b: None,
        maker_lamports: 1_000,
        escrow_lamports: 20,
        vault_lamports: 30,
    }
}

fn refund_accounts(m: &Make, signer: Address) -> Refund {
    Refund {
        maker: signer,
        escrow_key: m.escrow_key,
        escrow: m.escrow,
        mint_a: m.mint_a,
        vault: m.vault,
        maker_ata_a: Some(m.maker_ata_a),
        maker_lamports: 1_000,
        escrow_lamports: 20,
        vault_lamports: 30,
    }
}

fn made(seed: u64, deposit: u64, receive: u64) -> Make {
    let mut m = make_accounts(seed, 1000);
    assert!(make(&mut m, &program(), seed, deposit, receive).is_ok());
    m
}

fn same(a: &Address, b: &Address) -> bool {
    a.bytes == b.bytes
}

#[test]
fn derivation_is_deterministic_and_keyed() {
    let maker = addr(MAKER);
    let (a1, b1) = derive_escrow(&maker, 1, &program()).unwrap();
    let (a2, b2) = derive_escrow(&maker, 1, &program()).unwrap();
    let (a3, _) = derive_escrow(&maker, 2, &program()).unwrap();
    let (a4, _) = derive_escrow(&addr(TAKER), 1, &program()).unwrap();
    assert!(same(&a1, &a2));
    assert_eq!(b1, b2);
    assert!(!same(&a1, &a3));
    assert!(!same(&a1, &a4));
    assert!(!same(&a1, &maker));
    assert!(!same(&a1, &program()));
}

#[test]
fn make_records_offer_and_fills_vault() {
    let m = made(7, 100, 50);
    let e = m.escrow.unwrap();
    assert_eq!(e.seed, 7);
    assert_eq!(e.receive, 50);
    assert!(same(&e.maker, &m.maker));
    assert!(same(&e.mint_a, &addr(MINT_A)));
    assert!(same(&e.mint_b, &addr(MINT_B)));
    let (_, bump) = derive_escrow(&m.maker, 7, &program()).unwrap();
    assert_eq!(e.bump, bump);
    let v = m.vault.unwrap();
    assert_eq!(v.amount, 100);
    assert!(same(&v.owner, &m.escrow_key));
    assert!(same(&v.mint, &addr(MINT_A)));
    assert_eq!(m.maker_ata_a.amount, 900);
}

#[test]
fn make_rejects_zero_deposit() {
    let mut m = make_accounts(1, 1000);
    let r = make(&mut m, &program(), 1, 0, 50);
    assert_eq!(r, Err(ProgramError::Escrow(EscrowError::InvalidAmount)));
    assert!(m.escrow.is_none());
    assert!(m.vault.is_none());
    assert_eq!(m.maker_ata_a.amount, 1000);
}

#[test]
fn make_rejects_zero_receive() {
    let mut m = make_accounts(1, 1000);
    let r = make(&mut m, &program(), 1, 100, 0);
    assert_eq!(r, Err(ProgramError::Escrow(EscrowError::InvalidAmount)));
    assert!(m.escrow.is_none());
    assert!(m.vault.is_none());
}

#[test]
fn make_rejects_existing_record() {
    let mut m = made(1, 100, 50);
    let r = make(&mut m, &program(), 1, 100, 50);
    assert_eq!(r, Err(ProgramError::Ledger(LedgerError::AccountInUse)));
    assert_eq!(m.vault.unwrap().amount, 100);
}

#[test]
fn make_rejects_address_of_other_seed() {
    let mut m = make_accounts(1, 1000);
    let r = make(&mut m, &program(), 2, 100, 50);
    assert_eq!(r, Err(ProgramError::Ledger(LedgerError::ConstraintSeeds)));
    assert!(m.escrow.is_none());
}

#[test]
fn make_rejects_short_balance() {
    let mut m = make_accounts(1, 99);
    let r = make(&mut m, &program(), 1, 100, 50);
    assert_eq!(r, Err(ProgramError::Ledger(LedgerError::InsufficientFunds)));
    assert!(m.escrow.is_none());
    assert!(m.vault.is_none());
    assert_eq!(m.maker_ata_a.amount, 99);
}

#[test]
fn scenario_take_settles_offer() {
    let m = made(1, 100, 50);
    let mut t = take_accounts(&m, 80);
    assert!(take(&mut t, &program()).is_ok());
    assert_eq!(t.taker_ata_a.unwrap().amount, 100);
    assert_eq!(t.maker_ata_b.unwrap().amount, 50);
    assert_eq!(t.taker_ata_b.amount, 30);
    assert_eq!(t.maker_lamports, 1_050);
    assert_eq!((t.escrow_lamports, t.vault_lamports), (0, 0));
    assert!(t.escrow.is_none());
    assert!(t.vault.is_none());
    let r = take(&mut t, &program());
    assert_eq!(r, Err(ProgramError::Ledger(LedgerError::AccountNotFound)));
    let mut again = refund_accounts(&m, m.maker);
    again.escrow = t.escrow;
    again.vault = t.vault;
    let r = refund(&mut again, &program());
    assert_eq!(r, Err(ProgramError::Ledger(LedgerError::AccountNotFound)));
}

#[test]
fn scenario_refund_then_take_fails() {
    let m = made(1, 100, 50);
    let mut r = refund_accounts(&m, m.maker);
    assert!(refund(&mut r, &program()).is_ok());
    assert_eq!(r.maker_ata_a.unwrap().amount, 1000);
    assert_eq!(r.maker_lamports, 1_050);
    assert_eq!((r.escrow_lamports, r.vault_lamports), (0, 0));
    assert!(r.escrow.is_none());
    assert!(r.vault.is_none());
    let mut t = take_accounts(&m, 80);
    t.escrow = r.escrow;
    t.vault = r.vault;
    let res = take(&mut t, &program());
    assert_eq!(res, Err(ProgramError::Ledger(LedgerError::AccountNotFound)));
    assert_eq!(t.taker_ata_b.amount, 80);
}

#[test]
fn take_adds_to_existing_holdings() {
    let m = made(3, 100, 50);
    let mut t = take_accounts(&m, 50);
    t.taker_ata_a = Some(holding(MINT_A, addr(TAKER), 5));
    t.maker_ata_b = Some(holding(MINT_B, addr(MAKER), 7));
    assert!(take(&mut t, &program()).is_ok());
    assert_eq!(t.taker_ata_a.unwrap().amount, 105);
    assert_eq!(t.maker_ata_b.unwrap().amount, 57);
    assert_eq!(t.taker_ata_b.amount, 0);
}

#[test]
fn take_rejects_wrong_maker() {
    let m = made(1, 100, 50);
    let mut t = take_accounts(&m, 80);
    t.maker = addr(TAKER);
    let before = t;
    let r = take(&mut t, &program());
    assert_eq!(r, Err(ProgramError::Escrow(EscrowError::InvalidMaker)));
    assert_eq!(t.taker_ata_b.amount, before.taker_ata_b.amount);
    assert!(t.escrow.is_some());
    assert_eq!(t.vault.unwrap().amount, 100);
}

#[test]
fn take_rejects_wrong_mint_a() {
    let m = made(1, 100, 50);
    let mut t = take_accounts(&m, 80);
    t.mint_a = Mint { key: addr(12), decimals: 6 };
    let r = take(&mut t, &program());
    assert_eq!(r, Err(ProgramError::Escrow(EscrowError::InvalidMintA)));
    assert_eq!(t.vault.unwrap().amount, 100);
    assert!(t.taker_ata_a.is_none());
}

#[test]
fn take_rejects_wrong_mint_b() {
    let m = made(1, 100, 50);
    let mut t = take_accounts(&m, 80);
    t.mint_b = Mint { key: addr(12), decimals: 9 };
    let r = take(&mut t, &program());
    assert_eq!(r, Err(ProgramError::Escrow(EscrowError::InvalidMintB)));
    assert_eq!(t.taker_ata_b.amount, 80);
    assert!(t.maker_ata_b.is_none());
}

#[test]
fn take_rejects_short_taker() {
    let m = made(1, 100, 50);
    let mut t = take_accounts(&m, 49);
    let r = take(&mut t, &program());
    assert_eq!(r, Err(ProgramError::Ledger(LedgerError::InsufficientFunds)));
    assert_eq!(t.taker_ata_b.amount, 49);
    assert_eq!(t.vault.unwrap().amount, 100);
    assert!(t.escrow.is_some());
}

#[test]
fn take_rejects_taker_holding_of_other_asset() {
    let m = made(1, 100, 50);
    let mut t = take_accounts(&m, 80);
    t.taker_ata_a = Some(holding(MINT_B, addr(TAKER), 0));
    let r = take(&mut t, &program());
    assert_eq!(r, Err(ProgramError::Ledger(LedgerError::MintMismatch)));
}

#[test]
fn take_rejects_overflowing_holding() {
    let m = made(1, 100, 50);
    let mut t = take_accounts(&m, 80);
    t.taker_ata_a = Some(holding(MINT_A, addr(TAKER), u64::MAX));
    let r = take(&mut t, &program());
    assert_eq!(r, Err(ProgramError::Ledger(LedgerError::Overflow)));
    assert_eq!(t.taker_ata_b.amount, 80);
    assert!(t.maker_ata_b.is_none());
}

#[test]
fn take_rejects_foreign_vault_owner() {
    let m = made(1, 100, 50);
    let mut t = take_accounts(&m, 80);
    let mut v = t.vault.unwrap();
    v.owner = addr(TAKER);
    t.vault = Some(v);
    let r = take(&mut t, &program());
    assert_eq!(r, Err(ProgramError::Ledger(LedgerError::OwnerMismatch)));
}

#[test]
fn take_rejects_tampered_bump() {
    let m = made(1, 100, 50);
    let mut t = take_accounts(&m, 80);
    let mut e = t.escrow.unwrap();
    e.bump = e.bump.wrapping_add(1);
    t.escrow = Some(e);
    let r = take(&mut t, &program());
    assert_eq!(r, Err(ProgramError::Ledger(LedgerError::ConstraintSeeds)));
}

#[test]
fn take_rejects_overflowing_reclaim() {
    let m = made(1, 100, 50);
    let mut t = take_accounts(&m, 80);
    t.maker_lamports = u64::MAX - 10;
    let r = take(&mut t, &program());
    assert_eq!(r, Err(ProgramError::Ledger(LedgerError::Overflow)));
    assert_eq!(t.taker_ata_b.amount, 80);
    assert!(t.escrow.is_some());
    assert_eq!(t.vault.unwrap().amount, 100);
}

#[test]
fn refund_rejects_overflowing_reclaim() {
    let m = made(1, 100, 50);
    let mut r = refund_accounts(&m, m.maker);
    r.maker_lamports = u64::MAX - 40;
    let res = refund(&mut r, &program());
    assert_eq!(res, Err(ProgramError::Ledger(LedgerError::Overflow)));
    assert_eq!(r.maker_ata_a.unwrap().amount, 900);
    assert!(r.vault.is_some());
}

#[test]
fn vault_release_rejects_tampered_bump() {
    let m = made(1, 100, 50);
    let mut t = take_accounts(&m, 80);
    t.taker_ata_a = Some(holding(MINT_A, addr(TAKER), 0));
    let mut e = t.escrow.unwrap();
    e.bump = e.bump.wrapping_add(1);
    t.escrow = Some(e);
    let r = t.withdraw_and_close_vault(&program());
    assert_eq!(r, Err(ProgramError::Ledger(LedgerError::ConstraintSeeds)));
    assert_eq!(t.vault.unwrap().amount, 100);
    assert_eq!(t.taker_ata_a.unwrap().amount, 0);
    assert_eq!(t.maker_lamports, 1_000);
}

#[test]
fn vault_release_rejects_other_maker() {
    let m = made(1, 100, 50);
    let mut t = take_accounts(&m, 80);
    t.taker_ata_a = Some(holding(MINT_A, addr(TAKER), 0));
    t.maker = addr(TAKER);
    let r = t.withdraw_and_close_vault(&program());
    assert_eq!(r, Err(ProgramError::Ledger(LedgerError::ConstraintSeeds)));
    assert_eq!(t.vault.unwrap().amount, 100);
}

#[test]
fn vault_release_moves_whole_vault() {
    let m = made(1, 100, 50);
    let mut t = take_accounts(&m, 80);
    t.taker_ata_a = Some(holding(MINT_A, addr(TAKER), 3));
    assert_eq!(t.withdraw_and_close_vault(&program()), Ok(()));
    assert!(t.vault.is_none());
    assert_eq!(t.taker_ata_a.unwrap().amount, 103);
    assert_eq!(t.maker_lamports, 1_030);
    assert_eq!(t.vault_lamports, 0);
}

#[test]
fn refund_rejects_other_signer() {
    let m = made(1, 100, 50);
    let mut r = refund_accounts(&m, addr(TAKER));
    r.maker_ata_a = Some(holding(MINT_A, addr(TAKER), 3));
    let res = refund(&mut r, &program());
    assert_eq!(res, Err(ProgramError::Escrow(EscrowError::InvalidMaker)));
    assert_eq!(r.maker_ata_a.unwrap().amount, 3);
    assert_eq!(r.vault.unwrap().amount, 100);
}

#[test]
fn refund_rejects_wrong_mint_a() {
    let m = made(1, 100, 50);
    let mut r = refund_accounts(&m, m.maker);
    r.mint_a = Mint { key: addr(12), decimals: 6 };
    let res = refund(&mut r, &program());
    assert_eq!(res, Err(ProgramError::Escrow(EscrowError::InvalidMintA)));
}

#[test]
fn refund_opens_missing_holding() {
    let m = made(4, 100, 50);
    let mut r = refund_accounts(&m, m.maker);
    r.maker_ata_a = None;
    assert!(refund(&mut r, &program()).is_ok());
    assert_eq!(r.maker_ata_a.unwrap().amount, 100);
    assert!(r.escrow.is_none());
}

#[test]
fn refund_of_empty_vault_closes() {
    let m = made(1, 100, 50);
    let mut r = refund_accounts(&m, m.maker);
    let mut v = r.vault.unwrap();
    v.amount = 0;
    r.vault = Some(v);
    assert!(refund(&mut r, &program()).is_ok());
    assert_eq!(r.maker_ata_a.unwrap().amount, 900);
    assert!(r.vault.is_none());
}
