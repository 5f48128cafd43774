use vstd::prelude::*;
use crate::address::{Address, program_address_of};
use crate::errors::{EscrowError, LedgerError, ProgramError};
use crate::ledger::{transfer_checked, transfer_error};
use crate::state::{derive_escrow, escrow_seeds, Escrow, Mint, TokenAccount};

verus! {

/// The accounts that Make reads and writes.
#[derive(Clone, Copy, Debug)]
pub struct Make {
    /// The maker, who signs and pays.
    pub maker: Address,
    /// The address at which the record is created.
    pub escrow_key: Address,
    /// The record account: `None` while it does not exist.
    pub escrow: Option<Escrow>,
    pub mint_a: Mint,
    pub mint_b: Mint,
    /// The maker's holding of asset A.
    pub maker_ata_a: TokenAccount,
    /// The custody account of the offer: `None` while it does not exist.
    pub vault: Option<TokenAccount>,
}

/// The record that Make writes.
pub open spec fn offer_record(ctx: Make, seed: u64, receive: u64, bump: u8) -> Escrow {
    Escrow {
        seed,
        maker: ctx.maker,
        mint_a: ctx.mint_a.key,
        mint_b: ctx.mint_b.key,
        receive,
        bump,
    }
}

/// Why Make is rejected, if it is: the amounts first, then the accounts,
/// then the deposit.
pub open spec fn make_error(ctx: Make, program: Seq<u8>, seed: u64, deposit: u64, receive: u64) -> Option<ProgramError> {
    if receive == 0 || deposit == 0 {
        Some(ProgramError::Escrow(EscrowError::InvalidAmount))
    } else if ctx.escrow is Some || ctx.vault is Some {
        Some(ProgramError::Ledger(LedgerError::AccountInUse))
    } else if !(program_address_of(escrow_seeds(ctx.maker@, seed), program) matches Some((a, _))
        && a == ctx.escrow_key@) {
        Some(ProgramError::Ledger(LedgerError::ConstraintSeeds))
    } else {
        match transfer_error(ctx.maker_ata_a, empty_vault(ctx), ctx.mint_a, ctx.maker@, deposit, ctx.mint_a.decimals) {
            Some(e) => Some(ProgramError::Ledger(e)),
            None => None,
        }
    }
}

/// The custody account as the runtime creates it: empty, holding asset A,
/// owned by the record's address.
pub open spec fn empty_vault(ctx: Make) -> TokenAccount {
    TokenAccount { mint: ctx.mint_a.key, owner: ctx.escrow_key, amount: 0 }
}

/// The accounts after a successful Make, with `bump` the record's bump.
pub open spec fn make_post(ctx: Make, seed: u64, deposit: u64, receive: u64, bump: u8) -> Make {
    Make {
        escrow: Some(offer_record(ctx, seed, receive, bump)),
        maker_ata_a: TokenAccount { amount: (ctx.maker_ata_a.amount - deposit) as u64, ..ctx.maker_ata_a },
        vault: Some(TokenAccount { amount: deposit, ..empty_vault(ctx) }),
        ..ctx
    }
}

/// The bump of the record of `ctx.maker` under `seed`.
pub open spec fn escrow_bump(ctx: Make, program: Seq<u8>, seed: u64) -> u8 {
    match program_address_of(escrow_seeds(ctx.maker@, seed), program) {
        Some((_, b)) => b,
        None => 0,
    }
}

impl Make {
    /// Writes the offer into the record account.
    pub fn populate_escrow(&mut self, seed: u64, receive: u64, bump: u8) -> (r: Result<(), ProgramError>)
        ensures
            r is Ok,
            *final(self) == (Make { escrow: Some(offer_record(*old(self), seed, receive, bump)), ..*old(self) }),
    {
        self.escrow = Some(Escrow {
            seed,
            maker: self.maker,
            mint_a: self.mint_a.key,
            mint_b: self.mint_b.key,
            receive,
            bump,
        });
        Ok(())
    }

    /// Moves `amount` of asset A from the maker's holding into the vault.
    pub fn deposit_tokens(&mut self, amount: u64) -> (r: Result<(), ProgramError>)
        ensures
            match old(self).vault {
                None => r == Err::<(), ProgramError>(ProgramError::Ledger(LedgerError::AccountNotFound))
                    && *final(self) == *old(self),
                Some(v) => match transfer_error(old(self).maker_ata_a, v, old(self).mint_a, old(self).maker@, amount, old(self).mint_a.decimals) {
                    Some(e) => r == Err::<(), ProgramError>(ProgramError::Ledger(e)) && *final(self) == *old(self),
                    None => r is Ok && *final(self) == (Make {
                        maker_ata_a: TokenAccount { amount: (old(self).maker_ata_a.amount - amount) as u64, ..old(self).maker_ata_a },
                        vault: Some(TokenAccount { amount: (v.amount + amount) as u64, ..v }),
                        ..*old(self)
                    }),
                },
            },
    {
        match self.vault {
            None => Err(ProgramError::Ledger(LedgerError::AccountNotFound)),
            Some(v) => {
                let mut from = self.maker_ata_a;
                let mut to = v;
                let mint = self.mint_a;
                match transfer_checked(&mut from, &mut to, &mint, &self.maker, amount, mint.decimals) {
                    Ok(()) => {
                        self.maker_ata_a = from;
                        self.vault = Some(to);
                        Ok(())
                    },
                    Err(e) => Err(ProgramError::Ledger(e)),
                }
            },
        }
    }
}

/// Make: opens an offer of `deposit` of asset A for `receive` of asset B,
/// keyed by the maker and `seed`, and moves the deposit into custody.
/// All or nothing: on error no account changes.
pub fn handler(ctx: &mut Make, program: &Address, seed: u64, deposit: u64, receive: u64) -> (r: Result<(), ProgramError>)
    ensures
        match make_error(*old(ctx), program@, seed, deposit, receive) {
            Some(e) => r == Err::<(), ProgramError>(e) && *final(ctx) == *old(ctx),
            None => r is Ok && *final(ctx) == make_post(*old(ctx), seed, deposit, receive, escrow_bump(*old(ctx), program@, seed)),
        },
{
    if receive == 0 || deposit == 0 {
        return Err(ProgramError::Escrow(EscrowError::InvalidAmount));
    }
    if ctx.escrow.is_some() || ctx.vault.is_some() {
        return Err(ProgramError::Ledger(LedgerError::AccountInUse));
    }
    let bump: u8 = match derive_escrow(&ctx.maker, seed, program) {
        Some((a, b)) => {
            if !a.same(&ctx.escrow_key) {
                return Err(ProgramError::Ledger(LedgerError::ConstraintSeeds));
            }
            b
        },
        None => {
            return Err(ProgramError::Ledger(LedgerError::ConstraintSeeds));
        },
    };
    let mut work: Make = *ctx;
    work.vault = Some(TokenAccount { mint: work.mint_a.key, owner: work.escrow_key, amount: 0 });
    match work.populate_escrow(seed, receive, bump) {
        Ok(()) => {},
        Err(e) => {
            return Err(e);
        },
    }
    match work.deposit_tokens(deposit) {
        Ok(()) => {},
        Err(e) => {
            return Err(e);
        },
    }
    *ctx = work;
    Ok(())
}

} // verus!
