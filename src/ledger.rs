use vstd::prelude::*;
use crate::address::Address;
use crate::errors::LedgerError;
use crate::state::{Mint, TokenAccount};

verus! {

/// Why `acct` cannot serve as the holding of `mint` by `owner`, if it cannot.
pub open spec fn holding_error(acct: TokenAccount, mint: Seq<u8>, owner: Seq<u8>) -> Option<LedgerError> {
    if acct.mint@ != mint {
        Some(LedgerError::MintMismatch)
    } else if acct.owner@ != owner {
        Some(LedgerError::OwnerMismatch)
    } else {
        None
    }
}

/// Checks that `acct` holds `mint` and belongs to `owner`.
pub fn check_holding(acct: &TokenAccount, mint: &Address, owner: &Address) -> (r: Result<(), LedgerError>)
    ensures
        match holding_error(*acct, mint@, owner@) {
            Some(e) => r == Err::<(), LedgerError>(e),
            None => r is Ok,
        },
{
    if !acct.mint.same(mint) {
        Err(LedgerError::MintMismatch)
    } else if !acct.owner.same(owner) {
        Err(LedgerError::OwnerMismatch)
    } else {
        Ok(())
    }
}

/// The holding of `mint` by `owner` after it is opened where missing:
/// an existing account is checked, a missing one starts empty.
pub open spec fn opened(acct: Option<TokenAccount>, mint: Address, owner: Address) -> Result<TokenAccount, LedgerError> {
    match acct {
        Some(a) => match holding_error(a, mint@, owner@) {
            Some(e) => Err(e),
            None => Ok(a),
        },
        None => Ok(TokenAccount { mint, owner, amount: 0 }),
    }
}

/// The amount an optional holding holds: nothing where it does not exist.
pub open spec fn held(acct: Option<TokenAccount>) -> int {
    match acct {
        Some(a) => a.amount as int,
        None => 0,
    }
}

/// Opens the holding of `mint` by `owner` if it does not exist yet.
pub fn init_if_needed(acct: Option<TokenAccount>, mint: &Address, owner: &Address) -> (r: Result<TokenAccount, LedgerError>)
    ensures
        r == opened(acct, *mint, *owner),
{
    match acct {
        Some(a) => match check_holding(&a, mint, owner) {
            Ok(()) => Ok(a),
            Err(e) => Err(e),
        },
        None => Ok(TokenAccount { mint: *mint, owner: *owner, amount: 0 }),
    }
}

/// Why a checked transfer of `amount` of `mint` from `from` to `to`,
/// authorized by `authority` and naming `decimals`, is refused, if it is.
pub open spec fn transfer_error(
    from: TokenAccount,
    to: TokenAccount,
    mint: Mint,
    authority: Seq<u8>,
    amount: u64,
    decimals: u8,
) -> Option<LedgerError> {
    if from.mint@ != mint.key@ || to.mint@ != mint.key@ {
        Some(LedgerError::MintMismatch)
    } else if from.owner@ != authority {
        Some(LedgerError::OwnerMismatch)
    } else if decimals != mint.decimals {
        Some(LedgerError::DecimalsMismatch)
    } else if from.amount < amount {
        Some(LedgerError::InsufficientFunds)
    } else if to.amount + amount > u64::MAX {
        Some(LedgerError::Overflow)
    } else {
        None
    }
}

/// Moves `amount` of `mint` from `from` to `to`, after checking the asset,
/// the authority, the precision and the balances. Nothing changes on error.
pub fn transfer_checked(
    from: &mut TokenAccount,
    to: &mut TokenAccount,
    mint: &Mint,
    authority: &Address,
    amount: u64,
    decimals: u8,
) -> (r: Result<(), LedgerError>)
    ensures
        match transfer_error(*old(from), *old(to), *mint, authority@, amount, decimals) {
            Some(e) => r == Err::<(), LedgerError>(e) && *final(from) == *old(from) && *final(to)
                == *old(to),
            None => r is Ok && *final(from) == (TokenAccount {
                amount: (old(from).amount - amount) as u64,
                ..*old(from)
            }) && *final(to) == (TokenAccount { amount: (old(to).amount + amount) as u64, ..*old(to) }),
        },
{
    if !from.mint.same(&mint.key) || !to.mint.same(&mint.key) {
        return Err(LedgerError::MintMismatch);
    }
    if !from.owner.same(authority) {
        return Err(LedgerError::OwnerMismatch);
    }
    if decimals != mint.decimals {
        return Err(LedgerError::DecimalsMismatch);
    }
    if from.amount < amount {
        return Err(LedgerError::InsufficientFunds);
    }
    if to.amount > u64::MAX - amount {
        return Err(LedgerError::Overflow);
    }
    from.amount = from.amount - amount;
    to.amount = to.amount + amount;
    Ok(())
}

/// Why a native transfer of `amount` from a balance `from` to a balance
/// `to` is refused, if it is.
pub open spec fn native_transfer_error(from: u64, to: u64, amount: u64) -> Option<LedgerError> {
    if from < amount {
        Some(LedgerError::InsufficientFunds)
    } else if to + amount > u64::MAX {
        Some(LedgerError::Overflow)
    } else {
        None
    }
}

/// Moves `amount` of native currency between two balances.
pub fn native_transfer(from: &mut u64, to: &mut u64, amount: u64) -> (r: Result<(), LedgerError>)
    ensures
        match native_transfer_error(*old(from), *old(to), amount) {
            Some(e) => r == Err::<(), LedgerError>(e) && *final(from) == *old(from) && *final(to)
                == *old(to),
            None => r is Ok && *final(from) == *old(from) - amount && *final(to) == *old(to)
                + amount,
        },
{
    if *from < amount {
        return Err(LedgerError::InsufficientFunds);
    }
    if *to > u64::MAX - amount {
        return Err(LedgerError::Overflow);
    }
    *from = *from - amount;
    *to = *to + amount;
    Ok(())
}

} // verus!
