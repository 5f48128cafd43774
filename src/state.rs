use vstd::prelude::*;
use crate::address::{Address, program_address_of, le_bytes, find_program_address, u64_le_bytes};

verus! {

/// Namespace tag of escrow record addresses: the bytes of "escrow".
pub open spec fn escrow_tag() -> Seq<u8> {
    seq![101u8, 115u8, 99u8, 114u8, 111u8, 119u8]
}

/// Namespace tag of vault custody addresses: the bytes of "vault".
pub open spec fn vault_tag() -> Seq<u8> {
    seq![118u8, 97u8, 117u8, 108u8, 116u8]
}

/// One outstanding swap offer.
#[derive(Clone, Copy, Debug)]
pub struct Escrow {
    pub seed: u64,
    pub maker: Address,
    pub mint_a: Address,
    pub mint_b: Address,
    pub receive: u64,
    pub bump: u8,
}

/// An asset: its identity and decimal precision.
#[derive(Clone, Copy, Debug)]
pub struct Mint {
    pub key: Address,
    pub decimals: u8,
}

/// A holding of one asset by one owner.
#[derive(Clone, Copy, Debug)]
pub struct TokenAccount {
    pub mint: Address,
    pub owner: Address,
    pub amount: u64,
}

/// The seeds of the escrow record of `maker` under `seed`.
pub open spec fn escrow_seeds(maker: Seq<u8>, seed: u64) -> Seq<Seq<u8>> {
    seq![escrow_tag(), maker, le_bytes(seed as nat, 8)]
}

/// The seeds of the vault of `owner`.
pub open spec fn vault_seeds(owner: Seq<u8>) -> Seq<Seq<u8>> {
    seq![vault_tag(), owner]
}

/// Derives the address and bump of the escrow record of `maker` under `seed`.
pub fn derive_escrow(maker: &Address, seed: u64, program: &Address) -> (r: Option<(Address, u8)>)
    ensures
        match program_address_of(escrow_seeds(maker@, seed), program@) {
            Some((a, b)) => r matches Some((ra, rb)) && ra@ == a && rb == b,
            None => r is None,
        },
{
    let mut seeds: Vec<Vec<u8>> = Vec::new();
    let tag: Vec<u8> = vec![101u8, 115u8, 99u8, 114u8, 111u8, 119u8];
    seeds.push(tag);
    seeds.push(maker.to_seed());
    seeds.push(u64_le_bytes(seed));
    proof {
        assert(tag@ =~= escrow_tag());
        assert(seeds@.map_values(|s: Vec<u8>| s@) =~= escrow_seeds(maker@, seed));
    }
    find_program_address(&seeds, program)
}

/// Whether the record `e`, stored at `key` for `maker`, carries the seed and
/// bump whose derivation gives `key`: the program's authority over the
/// record's custody account.
pub open spec fn derives_record(e: Escrow, key: Seq<u8>, maker: Seq<u8>, program: Seq<u8>) -> bool {
    program_address_of(escrow_seeds(maker, e.seed), program) == Some((key, e.bump))
}

/// The authorisation step before any transfer out of a record's custody
/// account: re-derives the record's address from `maker`, the stored seed
/// and the stored bump, and accepts only if it is `key`.
pub fn authorize_record(e: &Escrow, key: &Address, maker: &Address, program: &Address) -> (r: bool)
    ensures
        r == derives_record(*e, key@, maker@, program@),
{
    match derive_escrow(maker, e.seed, program) {
        Some((a, b)) => a.same(key) && b == e.bump,
        None => false,
    }
}

/// Derives the address and bump of the vault of `owner`.
pub fn derive_vault(owner: &Address, program: &Address) -> (r: Option<(Address, u8)>)
    ensures
        match program_address_of(vault_seeds(owner@), program@) {
            Some((a, b)) => r matches Some((ra, rb)) && ra@ == a && rb == b,
            None => r is None,
        },
{
    let mut seeds: Vec<Vec<u8>> = Vec::new();
    let tag: Vec<u8> = vec![118u8, 97u8, 117u8, 108u8, 116u8];
    seeds.push(tag);
    seeds.push(owner.to_seed());
    proof {
        assert(tag@ =~= vault_tag());
        assert(seeds@.map_values(|s: Vec<u8>| s@) =~= vault_seeds(owner@));
    }
    find_program_address(&seeds, program)
}

} // verus!
