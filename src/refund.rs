use vstd::prelude::*;
use crate::address::Address;
use crate::errors::{LedgerError, ProgramError};
use crate::ledger::{check_holding, holding_error, init_if_needed, native_transfer, opened, transfer_checked, transfer_error};
use crate::state::{Escrow, Mint, TokenAccount};
use crate::take::{check_offer, offer_mismatch};

verus! {

/// The accounts that Refund reads and writes.
#[derive(Clone, Copy, Debug)]
pub struct Refund {
    /// The signer, who must be the record's maker.
    pub maker: Address,
    /// The address of the record.
    pub escrow_key: Address,
    /// The record account: `None` where it does not exist.
    pub escrow: Option<Escrow>,
    pub mint_a: Mint,
    /// The offer's custody account.
    pub vault: Option<TokenAccount>,
    /// The maker's holding of asset A, opened by Refund where missing.
    pub maker_ata_a: Option<TokenAccount>,
    /// Native balances of the maker, the record and the vault; closing an
    /// account returns its balance to the maker.
    pub maker_lamports: u64,
    pub escrow_lamports: u64,
    pub vault_lamports: u64,
}

/// Why Refund is rejected, if it is.
pub open spec fn refund_error(ctx: Refund, program: Seq<u8>) -> Option<ProgramError> {
    if ctx.escrow is None || ctx.vault is None {
        Some(ProgramError::Ledger(LedgerError::AccountNotFound))
    } else {
        let e = ctx.escrow->Some_0;
        let v = ctx.vault->Some_0;
        let mismatch = offer_mismatch(e, ctx.escrow_key@, ctx.maker@, ctx.mint_a.key@, None, program);
        let vault_error = holding_error(v, ctx.mint_a.key@, ctx.escrow_key@);
        let ma = opened(ctx.maker_ata_a, ctx.mint_a.key, ctx.maker);
        let release = transfer_error(v, ma->Ok_0, ctx.mint_a, ctx.escrow_key@, v.amount, ctx.mint_a.decimals);
        if mismatch is Some {
            mismatch
        } else if vault_error is Some {
            Some(ProgramError::Ledger(vault_error->Some_0))
        } else if ma is Err {
            Some(ProgramError::Ledger(ma->Err_0))
        } else if v.amount > 0 && release is Some {
            Some(ProgramError::Ledger(release->Some_0))
        } else if ctx.maker_lamports + ctx.vault_lamports + ctx.escrow_lamports > u64::MAX {
            Some(ProgramError::Ledger(LedgerError::Overflow))
        } else {
            None
        }
    }
}

/// The accounts after a successful Refund: the vault's whole balance is back
/// with the maker; record and vault are closed.
pub open spec fn refund_post(ctx: Refund) -> Refund {
    let v = ctx.vault->Some_0;
    let ma = opened(ctx.maker_ata_a, ctx.mint_a.key, ctx.maker)->Ok_0;
    Refund {
        escrow: None,
        vault: None,
        maker_ata_a: Some(TokenAccount { amount: (ma.amount + v.amount) as u64, ..ma }),
        maker_lamports: (ctx.maker_lamports + ctx.vault_lamports + ctx.escrow_lamports) as u64,
        escrow_lamports: 0,
        vault_lamports: 0,
        ..ctx
    }
}

/// Refund: the maker cancels an open offer and takes the deposit back; the
/// vault and the record are closed, their native balances going to the maker. All or nothing: on error no account
/// changes.
pub fn handler(ctx: &mut Refund, program: &Address) -> (r: Result<(), ProgramError>)
    ensures
        match refund_error(*old(ctx), program@) {
            Some(e) => r == Err::<(), ProgramError>(e) && *final(ctx) == *old(ctx),
            None => r is Ok && *final(ctx) == refund_post(*old(ctx)),
        },
{
    let (e, v) = match (ctx.escrow, ctx.vault) {
        (Some(e), Some(v)) => (e, v),
        _ => {
            return Err(ProgramError::Ledger(LedgerError::AccountNotFound));
        },
    };
    match check_offer(&e, &ctx.escrow_key, &ctx.maker, &ctx.mint_a.key, None, program) {
        Ok(()) => {},
        Err(err) => {
            return Err(err);
        },
    }
    match check_holding(&v, &ctx.mint_a.key, &ctx.escrow_key) {
        Ok(()) => {},
        Err(err) => {
            return Err(ProgramError::Ledger(err));
        },
    }
    let mut to = match init_if_needed(ctx.maker_ata_a, &ctx.mint_a.key, &ctx.maker) {
        Ok(a) => a,
        Err(err) => {
            return Err(ProgramError::Ledger(err));
        },
    };
    let mut from = v;
    let vault_amount: u64 = v.amount;
    if vault_amount > 0 {
        let mint = ctx.mint_a;
        match transfer_checked(&mut from, &mut to, &mint, &ctx.escrow_key, vault_amount, mint.decimals) {
            Ok(()) => {},
            Err(err) => {
                return Err(ProgramError::Ledger(err));
            },
        }
    }
    let mut maker_lamports: u64 = ctx.maker_lamports;
    let mut vault_lamports: u64 = ctx.vault_lamports;
    let mut escrow_lamports: u64 = ctx.escrow_lamports;
    let closing_vault: u64 = vault_lamports;
    match native_transfer(&mut vault_lamports, &mut maker_lamports, closing_vault) {
        Ok(()) => {},
        Err(err) => {
            return Err(ProgramError::Ledger(err));
        },
    }
    let closing_escrow: u64 = escrow_lamports;
    match native_transfer(&mut escrow_lamports, &mut maker_lamports, closing_escrow) {
        Ok(()) => {},
        Err(err) => {
            return Err(ProgramError::Ledger(err));
        },
    }
    ctx.maker_ata_a = Some(to);
    ctx.vault = None;
    ctx.escrow = None;
    ctx.maker_lamports = maker_lamports;
    ctx.vault_lamports = vault_lamports;
    ctx.escrow_lamports = escrow_lamports;
    Ok(())
}

} // verus!
