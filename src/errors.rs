use vstd::prelude::*;

verus! {

/// Errors of the escrow protocol.
#[derive(Clone, Copy, Debug, PartialEq, Eq, Structural)]
pub enum EscrowError {
    InvalidAmount,
    InvalidMaker,
    InvalidMintA,
    InvalidMintB,
}

/// Errors of the vault protocol.
#[derive(Clone, Copy, Debug, PartialEq, Eq, Structural)]
pub enum VaultError {
    VaultAlreadyExists,
    InvalidAmount,
}

/// Failures that the ledger runtime reports on its own account checks and
/// value transfers.
#[derive(Clone, Copy, Debug, PartialEq, Eq, Structural)]
pub enum LedgerError {
    /// An account that the operation reads does not exist.
    AccountNotFound,
    /// An account that the operation creates exists already.
    AccountInUse,
    /// A derived address does not match the seeds and bump it claims.
    ConstraintSeeds,
    /// A token account holds another asset than the one named.
    MintMismatch,
    /// A transfer names another decimal precision than the asset's.
    DecimalsMismatch,
    /// A token account belongs to another owner than the one named.
    OwnerMismatch,
    /// The source of a transfer holds less than the amount.
    InsufficientFunds,
    /// A balance would exceed the largest `u64`.
    Overflow,
}

/// What an operation reports when it is rejected.
#[derive(Clone, Copy, Debug, PartialEq, Eq, Structural)]
pub enum ProgramError {
    Escrow(EscrowError),
    Vault(VaultError),
    Ledger(LedgerError),
}

} // verus!
