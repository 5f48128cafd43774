use vstd::prelude::*;
use anchor_lang::prelude::Pubkey;

verus! {

/// A 32-byte ledger address: an account, a wallet, a mint or a program.
#[derive(Clone, Copy, Debug)]
pub struct Address {
    pub bytes: [u8; 32],
}

impl View for Address {
    type V = Seq<u8>;

    open spec fn view(&self) -> Seq<u8> {
        self.bytes@
    }
}

impl Address {
    pub fn new(bytes: [u8; 32]) -> (r: Address)
        ensures
            r@ == bytes@,
    {
        Address { bytes }
    }

    /// Byte-wise comparison of two addresses.
    pub fn same(&self, other: &Address) -> (r: bool)
        ensures
            r == (self@ == other@),
    {
        let mut i: usize = 0;
        while i < 32
            invariant
                0 <= i <= 32,
                self@.len() == 32,
                other@.len() == 32,
                forall|j: int| 0 <= j < i ==> self@[j] == other@[j],
            decreases 32 - i,
        {
            if self.bytes[i] != other.bytes[i] {
                return false;
            }
            i = i + 1;
        }
        assert(self@ =~= other@);
        true
    }

    /// The address as a seed for derivation.
    pub fn to_seed(&self) -> (r: Vec<u8>)
        ensures
            r@ == self@,
    {
        let mut r: Vec<u8> = Vec::new();
        let mut i: usize = 0;
        while i < 32
            invariant
                0 <= i <= 32,
                self@.len() == 32,
                r@ == self@.subrange(0, i as int),
            decreases 32 - i,
        {
            r.push(self.bytes[i]);
            i = i + 1;
            assert(r@ =~= self@.subrange(0, i as int));
        }
        assert(self@.subrange(0, 32) =~= self@);
        r
    }
}

/// Little-endian bytes of the low `n` bytes of `x`.
pub open spec fn le_bytes(x: nat, n: nat) -> Seq<u8>
    decreases n,
{
    if n == 0 {
        Seq::empty()
    } else {
        seq![(x % 256) as u8] + le_bytes(x / 256, (n - 1) as nat)
    }
}

/// The eight little-endian bytes of a `u64`, as the ledger encodes it.
pub fn u64_le_bytes(x: u64) -> (r: Vec<u8>)
    ensures
        r@ == le_bytes(x as nat, 8),
{
    let mut r: Vec<u8> = Vec::new();
    let mut v: u64 = x;
    let mut i: usize = 0;
    while i < 8
        invariant
            0 <= i <= 8,
            r@ + le_bytes(v as nat, (8 - i) as nat) == le_bytes(x as nat, 8),
        decreases 8 - i,
    {
        let ghost old_r = r@;
        let ghost old_v = v;
        r.push((v % 256) as u8);
        v = v / 256;
        i = i + 1;
        assert(le_bytes(old_v as nat, (8 - (i - 1)) as nat) == seq![(old_v % 256) as u8]
            + le_bytes(v as nat, (8 - i) as nat));
        assert(r@ + le_bytes(v as nat, (8 - i) as nat) =~= old_r + le_bytes(
            old_v as nat,
            (8 - (i - 1)) as nat,
        ));
    }
    assert(r@ + le_bytes(v as nat, 0) =~= r@);
    r
}

/// The program-derived address and bump that the ledger computes for a list
/// of seeds under a program; `None` where no valid bump exists or the seeds
/// break the ledger's limits.
pub uninterp spec fn program_address_of(seeds: Seq<Seq<u8>>, program: Seq<u8>) -> Option<(Seq<u8>, u8)>;

/// Relies on `Pubkey::try_find_program_address`: a deterministic function of
/// the seeds and the program id, returning the address and its bump seed.
#[verifier::external_body]
pub(crate) fn find_program_address(seeds: &Vec<Vec<u8>>, program: &Address) -> (r: Option<(Address, u8)>)
    ensures
        match program_address_of(seeds@.map_values(|s: Vec<u8>| s@), program@) {
            Some((a, b)) => r matches Some((ra, rb)) && ra@ == a && rb == b,
            None => r is None,
        },
{
    let slices: Vec<&[u8]> = seeds.iter().map(|s| s.as_slice()).collect();
    Pubkey::try_find_program_address(&slices, &Pubkey::new_from_array(program.bytes))
        .map(|(k, b)| (Address { bytes: k.to_bytes() }, b))
}

} // verus!
