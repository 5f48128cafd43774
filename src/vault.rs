use vstd::prelude::*;
use crate::address::{Address, program_address_of};
use crate::errors::{LedgerError, ProgramError, VaultError};
use crate::ledger::{native_transfer, native_transfer_error};
use crate::state::{derive_vault, vault_seeds};

verus! {

/// The accounts of a vault operation: the owner, who signs, and the
/// owner's custody account, both as native-currency balances.
#[derive(Clone, Copy, Debug)]
pub struct VaultAction {
    pub signer: Address,
    pub signer_lamports: u64,
    /// The address of the custody account.
    pub vault_key: Address,
    pub vault_lamports: u64,
}

/// Whether `ctx.vault_key` is the custody address of `ctx.signer`.
pub open spec fn vault_derived(ctx: VaultAction, program: Seq<u8>) -> bool {
    program_address_of(vault_seeds(ctx.signer@), program) matches Some((a, _)) && a == ctx.vault_key@
}

/// Why Deposit is rejected, if it is; `min_balance` is the least balance the
/// ledger lets an empty account keep.
pub open spec fn deposit_error(ctx: VaultAction, program: Seq<u8>, amount: u64, min_balance: u64) -> Option<ProgramError> {
    if !vault_derived(ctx, program) {
        Some(ProgramError::Ledger(LedgerError::ConstraintSeeds))
    } else if ctx.vault_lamports != 0 {
        Some(ProgramError::Vault(VaultError::VaultAlreadyExists))
    } else if amount <= min_balance {
        Some(ProgramError::Vault(VaultError::InvalidAmount))
    } else if native_transfer_error(ctx.signer_lamports, ctx.vault_lamports, amount) is Some {
        Some(ProgramError::Ledger(native_transfer_error(ctx.signer_lamports, ctx.vault_lamports, amount)->Some_0))
    } else {
        None
    }
}

/// Why Withdraw is rejected, if it is.
pub open spec fn withdraw_error(ctx: VaultAction, program: Seq<u8>) -> Option<ProgramError> {
    if !vault_derived(ctx, program) {
        Some(ProgramError::Ledger(LedgerError::ConstraintSeeds))
    } else if ctx.vault_lamports == 0 {
        Some(ProgramError::Vault(VaultError::InvalidAmount))
    } else if native_transfer_error(ctx.vault_lamports, ctx.signer_lamports, ctx.vault_lamports) is Some {
        Some(ProgramError::Ledger(native_transfer_error(ctx.vault_lamports, ctx.signer_lamports, ctx.vault_lamports)->Some_0))
    } else {
        None
    }
}

/// The accounts after a successful Withdraw: the whole balance is back with
/// the owner.
pub open spec fn withdrawn(ctx: VaultAction) -> VaultAction {
    VaultAction {
        signer_lamports: (ctx.signer_lamports + ctx.vault_lamports) as u64,
        vault_lamports: 0,
        ..ctx
    }
}

/// Checks that `ctx.vault_key` is the custody address of `ctx.signer`.
fn check_vault(ctx: &VaultAction, program: &Address) -> (r: Result<(), ProgramError>)
    ensures
        r is Ok <==> vault_derived(*ctx, program@),
        r is Err ==> r == Err::<(), ProgramError>(ProgramError::Ledger(LedgerError::ConstraintSeeds)),
{
    match derive_vault(&ctx.signer, program) {
        Some((a, _)) => {
            if a.same(&ctx.vault_key) {
                Ok(())
            } else {
                Err(ProgramError::Ledger(LedgerError::ConstraintSeeds))
            }
        },
        None => Err(ProgramError::Ledger(LedgerError::ConstraintSeeds)),
    }
}

/// Deposit: moves `amount` from the owner into the owner's empty custody
/// account. Nothing changes on error.
pub fn deposit(ctx: &mut VaultAction, program: &Address, amount: u64, min_balance: u64) -> (r: Result<(), ProgramError>)
    ensures
        match deposit_error(*old(ctx), program@, amount, min_balance) {
            Some(e) => r == Err::<(), ProgramError>(e) && *final(ctx) == *old(ctx),
            None => r is Ok && *final(ctx) == (VaultAction {
                signer_lamports: (old(ctx).signer_lamports - amount) as u64,
                vault_lamports: amount,
                ..*old(ctx)
            }),
        },
{
    match check_vault(ctx, program) {
        Ok(()) => {},
        Err(e) => {
            return Err(e);
        },
    }
    if ctx.vault_lamports != 0 {
        return Err(ProgramError::Vault(VaultError::VaultAlreadyExists));
    }
    if amount <= min_balance {
        return Err(ProgramError::Vault(VaultError::InvalidAmount));
    }
    match native_transfer(&mut ctx.signer_lamports, &mut ctx.vault_lamports, amount) {
        Ok(()) => Ok(()),
        Err(e) => Err(ProgramError::Ledger(e)),
    }
}

/// Withdraw: moves the custody account's whole balance back to the owner.
/// Nothing changes on error.
pub fn withdraw(ctx: &mut VaultAction, program: &Address) -> (r: Result<(), ProgramError>)
    ensures
        match withdraw_error(*old(ctx), program@) {
            Some(e) => r == Err::<(), ProgramError>(e) && *final(ctx) == *old(ctx),
            None => r is Ok && *final(ctx) == withdrawn(*old(ctx)),
        },
{
    match check_vault(ctx, program) {
        Ok(()) => {},
        Err(e) => {
            return Err(e);
        },
    }
    if ctx.vault_lamports == 0 {
        return Err(ProgramError::Vault(VaultError::InvalidAmount));
    }
    let amount: u64 = ctx.vault_lamports;
    match native_transfer(&mut ctx.vault_lamports, &mut ctx.signer_lamports, amount) {
        Ok(()) => Ok(()),
        Err(e) => Err(ProgramError::Ledger(e)),
    }
}

/// On the owner's own custody account, Deposit into a non-empty vault fails
/// with `VaultAlreadyExists`, and a deposit no larger than the least
/// retainable balance fails with `InvalidAmount`.
pub proof fn deposit_rejects(ctx: VaultAction, program: Seq<u8>, amount: u64, min_balance: u64)
    requires
        vault_derived(ctx, program),
    ensures
        ctx.vault_lamports != 0 ==> deposit_error(ctx, program, amount, min_balance) == Some(
            ProgramError::Vault(VaultError::VaultAlreadyExists),
        ),
        ctx.vault_lamports == 0 && amount <= min_balance ==> deposit_error(ctx, program, amount, min_balance)
            == Some(ProgramError::Vault(VaultError::InvalidAmount)),
{
}

/// On the owner's own custody account, Withdraw from an empty vault fails
/// with `InvalidAmount`; otherwise it succeeds unless the owner's balance
/// would overflow, and then the whole balance moves to the owner.
pub proof fn withdraw_drains(ctx: VaultAction, program: Seq<u8>)
    requires
        vault_derived(ctx, program),
    ensures
        ctx.vault_lamports == 0 ==> withdraw_error(ctx, program) == Some(ProgramError::Vault(VaultError::InvalidAmount)),
        ctx.vault_lamports != 0 && ctx.signer_lamports + ctx.vault_lamports <= u64::MAX ==> withdraw_error(ctx, program) is None
            && withdrawn(ctx).vault_lamports == 0 && withdrawn(ctx).signer_lamports == ctx.signer_lamports
            + ctx.vault_lamports,
{
}

} // verus!
