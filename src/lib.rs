//! An escrow protocol for a two-party asset swap, and a single-owner vault,
//! over a model of the ledger accounts each operation touches. Addresses of
//! records and custody accounts are derived by the ledger's program-address
//! derivation.
use vstd::prelude::*;

pub mod address;
pub mod errors;
pub mod state;
pub mod ledger;
pub mod make;
pub mod take;
pub mod refund;
pub mod vault;
pub mod record;

use crate::address::{Address, program_address_of};
use crate::errors::{EscrowError, LedgerError, ProgramError};
use crate::ledger::{held, opened};
use crate::make::{make_error, make_post, escrow_bump, Make};
use crate::take::{take_error, take_post, Take};
use crate::refund::{refund_error, refund_post, Refund};
use crate::state::{derives_record, escrow_seeds};
use crate::vault::{deposit, deposit_error, withdraw, withdraw_error, VaultAction};

verus! {

/// Make: opens an offer; see `make::handler`.
pub fn make(ctx: &mut Make, program: &Address, seed: u64, deposit: u64, receive: u64) -> (r: Result<(), ProgramError>)
    ensures
        match make_error(*old(ctx), program@, seed, deposit, receive) {
            Some(e) => r == Err::<(), ProgramError>(e) && *final(ctx) == *old(ctx),
            None => r is Ok && *final(ctx) == make_post(*old(ctx), seed, deposit, receive, escrow_bump(*old(ctx), program@, seed)),
        },
{
    make::handler(ctx, program, seed, deposit, receive)
}

/// Take: settles an offer; see `take::handler`.
pub fn take(ctx: &mut Take, program: &Address) -> (r: Result<(), ProgramError>)
    ensures
        match take_error(*old(ctx), program@) {
            Some(e) => r == Err::<(), ProgramError>(e) && *final(ctx) == *old(ctx),
            None => r is Ok && *final(ctx) == take_post(*old(ctx)),
        },
{
    take::handler(ctx, program)
}

/// Refund: cancels an offer; see `refund::handler`.
pub fn refund(ctx: &mut Refund, program: &Address) -> (r: Result<(), ProgramError>)
    ensures
        match refund_error(*old(ctx), program@) {
            Some(e) => r == Err::<(), ProgramError>(e) && *final(ctx) == *old(ctx),
            None => r is Ok && *final(ctx) == refund_post(*old(ctx)),
        },
{
    refund::handler(ctx, program)
}

/// One invocation of either program: the operation, its accounts and its
/// scalar arguments.
#[allow(inconsistent_fields)]
#[derive(Clone, Copy, Debug)]
pub enum Operation {
    Make { accounts: Make, seed: u64, deposit: u64, receive: u64 },
    Take { accounts: Take },
    Refund { accounts: Refund },
    /// `min_balance` is the least balance the ledger lets an empty account keep.
    Deposit { accounts: VaultAction, amount: u64, min_balance: u64 },
    Withdraw { accounts: VaultAction },
}

/// What `process` does to an operation's accounts: the error, or the
/// accounts after success.
pub open spec fn outcome(op: Operation, program: Seq<u8>) -> Result<Operation, ProgramError> {
    match op {
        Operation::Make { accounts, seed, deposit, receive } => match make_error(accounts, program, seed, deposit, receive) {
            Some(e) => Err(e),
            None => Ok(Operation::Make {
                accounts: make_post(accounts, seed, deposit, receive, escrow_bump(accounts, program, seed)),
                seed,
                deposit,
                receive,
            }),
        },
        Operation::Take { accounts } => match take_error(accounts, program) {
            Some(e) => Err(e),
            None => Ok(Operation::Take { accounts: take_post(accounts) }),
        },
        Operation::Refund { accounts } => match refund_error(accounts, program) {
            Some(e) => Err(e),
            None => Ok(Operation::Refund { accounts: refund_post(accounts) }),
        },
        Operation::Deposit { accounts, amount, min_balance } => match deposit_error(accounts, program, amount, min_balance) {
            Some(e) => Err(e),
            None => Ok(Operation::Deposit {
                accounts: VaultAction {
                    signer_lamports: (accounts.signer_lamports - amount) as u64,
                    vault_lamports: amount,
                    ..accounts
                },
                amount,
                min_balance,
            }),
        },
        Operation::Withdraw { accounts } => match withdraw_error(accounts, program) {
            Some(e) => Err(e),
            None => Ok(Operation::Withdraw {
                accounts: VaultAction {
                    signer_lamports: (accounts.signer_lamports + accounts.vault_lamports) as u64,
                    vault_lamports: 0,
                    ..accounts
                },
            }),
        },
    }
}

/// Runs one operation as a single unit: either every effect is applied to
/// its accounts or, on error, none is.
pub fn process(op: &mut Operation, program: &Address) -> (r: Result<(), ProgramError>)
    ensures
        match outcome(*old(op), program@) {
            Err(e) => r == Err::<(), ProgramError>(e) && *final(op) == *old(op),
            Ok(post) => r is Ok && *final(op) == post,
        },
{
    match *op {
        Operation::Make { accounts, seed, deposit, receive } => {
            let mut a = accounts;
            let r = make(&mut a, program, seed, deposit, receive);
            *op = Operation::Make { accounts: a, seed, deposit, receive };
            r
        },
        Operation::Take { accounts } => {
            let mut a = accounts;
            let r = take(&mut a, program);
            *op = Operation::Take { accounts: a };
            r
        },
        Operation::Refund { accounts } => {
            let mut a = accounts;
            let r = refund(&mut a, program);
            *op = Operation::Refund { accounts: a };
            r
        },
        Operation::Deposit { accounts, amount, min_balance } => {
            let mut a = accounts;
            let r = deposit(&mut a, program, amount, min_balance);
            *op = Operation::Deposit { accounts: a, amount, min_balance };
            r
        },
        Operation::Withdraw { accounts } => {
            let mut a = accounts;
            let r = withdraw(&mut a, program);
            *op = Operation::Withdraw { accounts: a };
            r
        },
    }
}

/// A successful Make leaves the vault holding exactly the deposit and a
/// record whose fields are the arguments, keyed by the maker and seed.
pub proof fn make_opens_offer(ctx: Make, program: Seq<u8>, seed: u64, deposit: u64, receive: u64)
    requires
        make_error(ctx, program, seed, deposit, receive) is None,
    ensures
        ({
            let post = make_post(ctx, seed, deposit, receive, escrow_bump(ctx, program, seed));
            &&& post.vault matches Some(v) && v.amount == deposit && v.mint@ == ctx.mint_a.key@
                && v.owner@ == ctx.escrow_key@
            &&& post.escrow matches Some(e) && e.seed == seed && e.receive == receive
                && e.maker@ == ctx.maker@ && e.mint_a@ == ctx.mint_a.key@ && e.mint_b@ == ctx.mint_b.key@
                && program_address_of(escrow_seeds(ctx.maker@, seed), program) == Some((ctx.escrow_key@, e.bump))
            &&& post.maker_ata_a.amount == ctx.maker_ata_a.amount - deposit
        }),
{
}

/// Make with a zero deposit or a zero requested amount fails with
/// `InvalidAmount`, and creates neither record nor vault.
pub proof fn make_rejects_zero_amounts(ctx: Make, program: Seq<u8>, seed: u64, deposit: u64, receive: u64)
    requires
        deposit == 0 || receive == 0,
    ensures
        make_error(ctx, program, seed, deposit, receive) == Some(ProgramError::Escrow(EscrowError::InvalidAmount)),
{
}

/// A successful Take moves the whole vault to the taker and exactly the
/// requested amount to the maker, closes record and vault with their native
/// balances going to the maker, and after it
/// neither Take nor Refund finds the record.
pub proof fn take_settles_once(ctx: Take, program: Seq<u8>, again: Refund)
    requires
        take_error(ctx, program) is None,
        again.escrow == take_post(ctx).escrow,
    ensures
        ({
            let post = take_post(ctx);
            let ta = opened(ctx.taker_ata_a, ctx.mint_a.key, ctx.taker)->Ok_0;
            let mb = opened(ctx.maker_ata_b, ctx.mint_b.key, ctx.maker)->Ok_0;
            &&& post.taker_ata_a matches Some(a) && a.amount == ta.amount + (ctx.vault->Some_0).amount
            &&& post.maker_ata_b matches Some(b) && b.amount == mb.amount + (ctx.escrow->Some_0).receive
            &&& post.taker_ata_b.amount == ctx.taker_ata_b.amount - (ctx.escrow->Some_0).receive
            &&& post.maker_lamports == ctx.maker_lamports + ctx.vault_lamports + ctx.escrow_lamports
            &&& post.escrow is None && post.vault is None
            &&& take_error(post, program) == Some(ProgramError::Ledger(LedgerError::AccountNotFound))
            &&& refund_error(again, program) == Some(ProgramError::Ledger(LedgerError::AccountNotFound))
        }),
{
}

/// Take succeeds on a record that matches the named maker and assets and
/// whose stored seed and bump derive its address, with the vault and the
/// holdings of the right assets and owners, a taker holding at least the
/// requested amount, and balances that fit in a `u64` afterwards. The
/// taker's asset A grows by the whole vault, the maker's asset B by exactly
/// the requested amount, and record and vault are gone.
pub proof fn take_succeeds(ctx: Take, program: Seq<u8>)
    requires
        ctx.escrow matches Some(e) && e.maker@ == ctx.maker@ && e.mint_a@ == ctx.mint_a.key@ && e.mint_b@
            == ctx.mint_b.key@ && derives_record(e, ctx.escrow_key@, ctx.maker@, program),
        ctx.vault matches Some(v) && v.mint@ == ctx.mint_a.key@ && v.owner@ == ctx.escrow_key@,
        ctx.taker_ata_a matches Some(a) ==> a.mint@ == ctx.mint_a.key@ && a.owner@ == ctx.taker@,
        ctx.maker_ata_b matches Some(b) ==> b.mint@ == ctx.mint_b.key@ && b.owner@ == ctx.maker@,
        ctx.taker_ata_b.mint@ == ctx.mint_b.key@ && ctx.taker_ata_b.owner@ == ctx.taker@,
        ctx.taker_ata_b.amount >= (ctx.escrow->Some_0).receive,
        held(ctx.taker_ata_a) + (ctx.vault->Some_0).amount
            <= u64::MAX,
        held(ctx.maker_ata_b) + (ctx.escrow->Some_0).receive
            <= u64::MAX,
        ctx.maker_lamports + ctx.vault_lamports + ctx.escrow_lamports <= u64::MAX,
    ensures
        take_error(ctx, program) is None,
        ({
            let post = take_post(ctx);
            &&& post.taker_ata_a matches Some(a) && a.amount == held(ctx.taker_ata_a) + (ctx.vault->Some_0).amount
            &&& post.maker_ata_b matches Some(b) && b.amount == held(ctx.maker_ata_b) + (ctx.escrow->Some_0).receive
            &&& post.taker_ata_b.amount == ctx.taker_ata_b.amount - (ctx.escrow->Some_0).receive
            &&& post.escrow is None && post.vault is None
        }),
{
}

/// Refund succeeds on a record whose maker is the signer, whose asset A is
/// the one named and whose stored seed and bump derive its address, with
/// the vault and the maker's holding of the right asset and owner, and
/// balances that fit in a `u64` afterwards. The maker's asset A grows by the
/// whole vault, and record and vault are gone.
pub proof fn refund_succeeds(ctx: Refund, program: Seq<u8>)
    requires
        ctx.escrow matches Some(e) && e.maker@ == ctx.maker@ && e.mint_a@ == ctx.mint_a.key@
            && derives_record(e, ctx.escrow_key@, ctx.maker@, program),
        ctx.vault matches Some(v) && v.mint@ == ctx.mint_a.key@ && v.owner@ == ctx.escrow_key@,
        ctx.maker_ata_a matches Some(a) ==> a.mint@ == ctx.mint_a.key@ && a.owner@ == ctx.maker@,
        held(ctx.maker_ata_a) + (ctx.vault->Some_0).amount
            <= u64::MAX,
        ctx.maker_lamports + ctx.vault_lamports + ctx.escrow_lamports <= u64::MAX,
    ensures
        refund_error(ctx, program) is None,
        ({
            let post = refund_post(ctx);
            &&& post.maker_ata_a matches Some(a) && a.amount == held(ctx.maker_ata_a) + (ctx.vault->Some_0).amount
            &&& post.escrow is None && post.vault is None
        }),
{
}

/// Take against a record whose maker or assets differ from the accounts the
/// caller supplies fails with the matching error.
pub proof fn take_rejects_mismatch(ctx: Take, program: Seq<u8>)
    requires
        ctx.escrow matches Some(e) && (e.maker@ != ctx.maker@ || e.mint_a@ != ctx.mint_a.key@ || e.mint_b@
            != ctx.mint_b.key@),
        ctx.vault is Some,
    ensures
        take_error(ctx, program) == Some(ProgramError::Escrow(
            if (ctx.escrow->Some_0).maker@ != ctx.maker@ {
                EscrowError::InvalidMaker
            } else if (ctx.escrow->Some_0).mint_a@ != ctx.mint_a.key@ {
                EscrowError::InvalidMintA
            } else {
                EscrowError::InvalidMintB
            },
        )),
{
}

/// A successful Refund gives the maker back the whole vault, closes record
/// and vault with their native balances going to the maker, and after it neither Refund nor Take finds the record.
pub proof fn refund_returns_deposit(ctx: Refund, program: Seq<u8>, again: Take)
    requires
        refund_error(ctx, program) is None,
        again.escrow == refund_post(ctx).escrow,
    ensures
        ({
            let post = refund_post(ctx);
            let ma = opened(ctx.maker_ata_a, ctx.mint_a.key, ctx.maker)->Ok_0;
            &&& post.maker_ata_a matches Some(a) && a.amount == ma.amount + (ctx.vault->Some_0).amount
            &&& post.maker_lamports == ctx.maker_lamports + ctx.vault_lamports + ctx.escrow_lamports
            &&& post.escrow is None && post.vault is None
            &&& refund_error(post, program) == Some(ProgramError::Ledger(LedgerError::AccountNotFound))
            &&& take_error(again, program) == Some(ProgramError::Ledger(LedgerError::AccountNotFound))
        }),
{
}

/// A record whose stored seed and bump do not derive its address cannot be
/// settled or cancelled: the re-derived authority fails closed.
pub proof fn tampered_bump_fails_closed(t: Take, r: Refund, program: Seq<u8>)
    requires
        t.escrow matches Some(e) && e.maker@ == t.maker@ && e.mint_a@ == t.mint_a.key@ && e.mint_b@
            == t.mint_b.key@ && !derives_record(e, t.escrow_key@, t.maker@, program),
        t.vault is Some,
        r.escrow matches Some(e) && e.maker@ == r.maker@ && e.mint_a@ == r.mint_a.key@
            && !derives_record(e, r.escrow_key@, r.maker@, program),
        r.vault is Some,
    ensures
        take_error(t, program) == Some(ProgramError::Ledger(LedgerError::ConstraintSeeds)),
        refund_error(r, program) == Some(ProgramError::Ledger(LedgerError::ConstraintSeeds)),
{
}

/// Refund signed by anyone but the record's maker fails with `InvalidMaker`.
pub proof fn refund_rejects_other_signer(ctx: Refund, program: Seq<u8>)
    requires
        ctx.escrow matches Some(e) && e.maker@ != ctx.maker@,
        ctx.vault is Some,
    ensures
        refund_error(ctx, program) == Some(ProgramError::Escrow(EscrowError::InvalidMaker)),
{
}

} // verus!
