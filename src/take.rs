use vstd::prelude::*;
use crate::address::Address;
use crate::errors::{EscrowError, LedgerError, ProgramError};
use crate::ledger::{check_holding, holding_error, init_if_needed, native_transfer, opened, transfer_checked, transfer_error};
use crate::state::{authorize_record, derives_record, Escrow, Mint, TokenAccount};

verus! {

/// The accounts that Take reads and writes.
#[derive(Clone, Copy, Debug)]
pub struct Take {
    /// The taker, who signs and pays for missing holdings.
    pub taker: Address,
    /// The maker named by the caller.
    pub maker: Address,
    /// The address of the record.
    pub escrow_key: Address,
    /// The record account: `None` where it does not exist.
    pub escrow: Option<Escrow>,
    pub mint_a: Mint,
    pub mint_b: Mint,
    /// The offer's custody account.
    pub vault: Option<TokenAccount>,
    /// The taker's holding of asset A, opened by Take where missing.
    pub taker_ata_a: Option<TokenAccount>,
    /// The taker's holding of asset B, which pays the maker.
    pub taker_ata_b: TokenAccount,
    /// The maker's holding of asset B, opened by Take where missing.
    pub maker_ata_b: Option<TokenAccount>,
    /// Native balances of the maker, the record and the vault; closing an
    /// account returns its balance to the maker.
    pub maker_lamports: u64,
    pub escrow_lamports: u64,
    pub vault_lamports: u64,
}

/// Why a record `e` at `key` does not match the maker and assets that the
/// caller names, or its derivation, if it does not.
pub open spec fn offer_mismatch(
    e: Escrow,
    key: Seq<u8>,
    maker: Seq<u8>,
    mint_a: Seq<u8>,
    mint_b: Option<Seq<u8>>,
    program: Seq<u8>,
) -> Option<ProgramError> {
    if e.maker@ != maker {
        Some(ProgramError::Escrow(EscrowError::InvalidMaker))
    } else if e.mint_a@ != mint_a {
        Some(ProgramError::Escrow(EscrowError::InvalidMintA))
    } else if mint_b matches Some(b) && e.mint_b@ != b {
        Some(ProgramError::Escrow(EscrowError::InvalidMintB))
    } else if !derives_record(e, key, maker, program) {
        Some(ProgramError::Ledger(LedgerError::ConstraintSeeds))
    } else {
        None
    }
}

/// Checks a record against the maker and assets that the caller names, and
/// re-derives its address from the stored seed and bump.
pub fn check_offer(
    e: &Escrow,
    key: &Address,
    maker: &Address,
    mint_a: &Address,
    mint_b: Option<&Address>,
    program: &Address,
) -> (r: Result<(), ProgramError>)
    ensures
        match offer_mismatch(*e, key@, maker@, mint_a@, match mint_b { Some(b) => Some(b@), None => None }, program@) {
            Some(err) => r == Err::<(), ProgramError>(err),
            None => r is Ok,
        },
{
    if !e.maker.same(maker) {
        return Err(ProgramError::Escrow(EscrowError::InvalidMaker));
    }
    if !e.mint_a.same(mint_a) {
        return Err(ProgramError::Escrow(EscrowError::InvalidMintA));
    }
    match mint_b {
        Some(b) => {
            if !e.mint_b.same(b) {
                return Err(ProgramError::Escrow(EscrowError::InvalidMintB));
            }
        },
        None => {},
    }
    if !authorize_record(e, key, maker, program) {
        return Err(ProgramError::Ledger(LedgerError::ConstraintSeeds));
    }
    Ok(())
}

/// Why Take is rejected, if it is: missing accounts, then the record's
/// match with the named accounts, then the holdings, then the two legs,
/// then the return of the closed accounts' native balances.
pub open spec fn take_error(ctx: Take, program: Seq<u8>) -> Option<ProgramError> {
    if ctx.escrow is None || ctx.vault is None {
        Some(ProgramError::Ledger(LedgerError::AccountNotFound))
    } else {
        let e = ctx.escrow->Some_0;
        let v = ctx.vault->Some_0;
        let mismatch = offer_mismatch(e, ctx.escrow_key@, ctx.maker@, ctx.mint_a.key@, Some(ctx.mint_b.key@), program);
        let vault_error = holding_error(v, ctx.mint_a.key@, ctx.escrow_key@);
        let ta = opened(ctx.taker_ata_a, ctx.mint_a.key, ctx.taker);
        let mb = opened(ctx.maker_ata_b, ctx.mint_b.key, ctx.maker);
        let pay = transfer_error(ctx.taker_ata_b, mb->Ok_0, ctx.mint_b, ctx.taker@, e.receive, ctx.mint_b.decimals);
        let release = transfer_error(v, ta->Ok_0, ctx.mint_a, ctx.escrow_key@, v.amount, ctx.mint_a.decimals);
        if mismatch is Some {
            mismatch
        } else if vault_error is Some {
            Some(ProgramError::Ledger(vault_error->Some_0))
        } else if ta is Err {
            Some(ProgramError::Ledger(ta->Err_0))
        } else if mb is Err {
            Some(ProgramError::Ledger(mb->Err_0))
        } else if pay is Some {
            Some(ProgramError::Ledger(pay->Some_0))
        } else if release is Some {
            Some(ProgramError::Ledger(release->Some_0))
        } else if ctx.maker_lamports + ctx.vault_lamports + ctx.escrow_lamports > u64::MAX {
            Some(ProgramError::Ledger(LedgerError::Overflow))
        } else {
            None
        }
    }
}

/// The accounts after a successful Take: the taker pays `receive` of asset B
/// to the maker and receives the whole vault; record and vault are closed.
pub open spec fn take_post(ctx: Take) -> Take {
    let e = ctx.escrow->Some_0;
    let v = ctx.vault->Some_0;
    let ta = opened(ctx.taker_ata_a, ctx.mint_a.key, ctx.taker)->Ok_0;
    let mb = opened(ctx.maker_ata_b, ctx.mint_b.key, ctx.maker)->Ok_0;
    Take {
        escrow: None,
        vault: None,
        taker_ata_a: Some(TokenAccount { amount: (ta.amount + v.amount) as u64, ..ta }),
        taker_ata_b: TokenAccount { amount: (ctx.taker_ata_b.amount - e.receive) as u64, ..ctx.taker_ata_b },
        maker_ata_b: Some(TokenAccount { amount: (mb.amount + e.receive) as u64, ..mb }),
        maker_lamports: (ctx.maker_lamports + ctx.vault_lamports + ctx.escrow_lamports) as u64,
        escrow_lamports: 0,
        vault_lamports: 0,
        ..ctx
    }
}

impl Take {
    /// Pays the record's `receive` of asset B from the taker to the maker.
    pub fn transfer_to_maker(&mut self) -> (r: Result<(), ProgramError>)
        ensures
            match (old(self).escrow, old(self).maker_ata_b) {
                (Some(e), Some(mb)) => match transfer_error(old(self).taker_ata_b, mb, old(self).mint_b, old(self).taker@, e.receive, old(self).mint_b.decimals) {
                    Some(err) => r == Err::<(), ProgramError>(ProgramError::Ledger(err)) && *final(self) == *old(self),
                    None => r is Ok && *final(self) == (Take {
                        taker_ata_b: TokenAccount { amount: (old(self).taker_ata_b.amount - e.receive) as u64, ..old(self).taker_ata_b },
                        maker_ata_b: Some(TokenAccount { amount: (mb.amount + e.receive) as u64, ..mb }),
                        ..*old(self)
                    }),
                },
                _ => r == Err::<(), ProgramError>(ProgramError::Ledger(LedgerError::AccountNotFound)) && *final(self) == *old(self),
            },
    {
        match (self.escrow, self.maker_ata_b) {
            (Some(e), Some(mb)) => {
                let mut from = self.taker_ata_b;
                let mut to = mb;
                let mint = self.mint_b;
                match transfer_checked(&mut from, &mut to, &mint, &self.taker, e.receive, mint.decimals) {
                    Ok(()) => {
                        self.taker_ata_b = from;
                        self.maker_ata_b = Some(to);
                        Ok(())
                    },
                    Err(err) => Err(ProgramError::Ledger(err)),
                }
            },
            _ => Err(ProgramError::Ledger(LedgerError::AccountNotFound)),
        }
    }

    /// Moves the vault's whole balance of asset A to the taker and closes the
    /// vault, its native balance going to the maker. The transfer is signed
    /// by the record's address: it is refused with `ConstraintSeeds`, and
    /// nothing changes, unless the stored seed and bump re-derive that
    /// address for the named maker.
    pub fn withdraw_and_close_vault(&mut self, program: &Address) -> (r: Result<(), ProgramError>)
        ensures
            match (old(self).escrow, old(self).vault, old(self).taker_ata_a) {
                (Some(e), Some(v), Some(ta)) => if !derives_record(e, old(self).escrow_key@, old(self).maker@, program@) {
                    r == Err::<(), ProgramError>(ProgramError::Ledger(LedgerError::ConstraintSeeds)) && *final(self) == *old(self)
                } else {
                    match transfer_error(v, ta, old(self).mint_a, old(self).escrow_key@, v.amount, old(self).mint_a.decimals) {
                        Some(err) => r == Err::<(), ProgramError>(ProgramError::Ledger(err)) && *final(self) == *old(self),
                        None => if old(self).maker_lamports + old(self).vault_lamports > u64::MAX {
                            r == Err::<(), ProgramError>(ProgramError::Ledger(LedgerError::Overflow)) && *final(self) == *old(self)
                        } else {
                            r is Ok && *final(self) == (Take {
                                vault: None,
                                taker_ata_a: Some(TokenAccount { amount: (ta.amount + v.amount) as u64, ..ta }),
                                maker_lamports: (old(self).maker_lamports + old(self).vault_lamports) as u64,
                                vault_lamports: 0,
                                ..*old(self)
                            })
                        },
                    }
                },
                _ => r == Err::<(), ProgramError>(ProgramError::Ledger(LedgerError::AccountNotFound)) && *final(self) == *old(self),
            },
    {
        match (self.escrow, self.vault, self.taker_ata_a) {
            (Some(e), Some(v), Some(ta)) => {
                if !authorize_record(&e, &self.escrow_key, &self.maker, program) {
                    return Err(ProgramError::Ledger(LedgerError::ConstraintSeeds));
                }
                let mut from = v;
                let mut to = ta;
                let mint = self.mint_a;
                match transfer_checked(&mut from, &mut to, &mint, &self.escrow_key, v.amount, mint.decimals) {
                    Ok(()) => {},
                    Err(err) => {
                        return Err(ProgramError::Ledger(err));
                    },
                }
                let mut maker_lamports: u64 = self.maker_lamports;
                let mut vault_lamports: u64 = self.vault_lamports;
                let closing: u64 = vault_lamports;
                match native_transfer(&mut vault_lamports, &mut maker_lamports, closing) {
                    Ok(()) => {},
                    Err(err) => {
                        return Err(ProgramError::Ledger(err));
                    },
                }
                self.taker_ata_a = Some(to);
                self.vault = None;
                self.maker_lamports = maker_lamports;
                self.vault_lamports = vault_lamports;
                Ok(())
            },
            _ => Err(ProgramError::Ledger(LedgerError::AccountNotFound)),
        }
    }
}

/// Take: settles an open offer. The taker pays the maker and receives the
/// vault's whole balance; the vault and the record are closed, their native
/// balances going to the maker. All or
/// nothing: on error no account changes.
pub fn handler(ctx: &mut Take, program: &Address) -> (r: Result<(), ProgramError>)
    ensures
        match take_error(*old(ctx), program@) {
            Some(e) => r == Err::<(), ProgramError>(e) && *final(ctx) == *old(ctx),
            None => r is Ok && *final(ctx) == take_post(*old(ctx)),
        },
{
    let (e, v) = match (ctx.escrow, ctx.vault) {
        (Some(e), Some(v)) => (e, v),
        _ => {
            return Err(ProgramError::Ledger(LedgerError::AccountNotFound));
        },
    };
    match check_offer(&e, &ctx.escrow_key, &ctx.maker, &ctx.mint_a.key, Some(&ctx.mint_b.key), program) {
        Ok(()) => {},
        Err(err) => {
            return Err(err);
        },
    }
    match check_holding(&v, &ctx.mint_a.key, &ctx.escrow_key) {
        Ok(()) => {},
        Err(err) => {
            return Err(ProgramError::Ledger(err));
        },
    }
    let ta = match init_if_needed(ctx.taker_ata_a, &ctx.mint_a.key, &ctx.taker) {
        Ok(a) => a,
        Err(err) => {
            return Err(ProgramError::Ledger(err));
        },
    };
    let mb = match init_if_needed(ctx.maker_ata_b, &ctx.mint_b.key, &ctx.maker) {
        Ok(a) => a,
        Err(err) => {
            return Err(ProgramError::Ledger(err));
        },
    };
    let mut work: Take = *ctx;
    work.taker_ata_a = Some(ta);
    work.maker_ata_b = Some(mb);
    match work.transfer_to_maker() {
        Ok(()) => {},
        Err(err) => {
            return Err(err);
        },
    }
    match work.withdraw_and_close_vault(program) {
        Ok(()) => {},
        Err(err) => {
            return Err(err);
        },
    }
    let mut maker_lamports: u64 = work.maker_lamports;
    let mut escrow_lamports: u64 = work.escrow_lamports;
    let closing: u64 = escrow_lamports;
    match native_transfer(&mut escrow_lamports, &mut maker_lamports, closing) {
        Ok(()) => {},
        Err(err) => {
            return Err(ProgramError::Ledger(err));
        },
    }
    work.escrow = None;
    work.maker_lamports = maker_lamports;
    work.escrow_lamports = escrow_lamports;
    *ctx = work;
    Ok(())
}

} // verus!
