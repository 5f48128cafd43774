use vstd::prelude::*;
use crate::address::{le_bytes, u64_le_bytes, Address};
use crate::state::Escrow;

verus! {

/// Length of a stored record: the tag byte, the seed, three addresses, the
/// requested amount and the bump.
pub const RECORD_LEN: usize = 114;

/// Tag byte that opens a stored record.
pub const RECORD_TAG: u8 = 1;

/// The stored layout of a record.
pub open spec fn record_bytes(e: Escrow) -> Seq<u8> {
    seq![1u8] + le_bytes(e.seed as nat, 8) + e.maker@ + e.mint_a@ + e.mint_b@ + le_bytes(e.receive as nat, 8)
        + seq![e.bump]
}

/// `256` to the power `n`.
pub open spec fn pow256(n: nat) -> nat
    decreases n,
{
    if n == 0 {
        1
    } else {
        256 * pow256((n - 1) as nat)
    }
}

proof fn lemma_pow256_mono(m: nat, n: nat)
    requires
        m <= n,
    ensures
        pow256(m) <= pow256(n),
    decreases n - m,
{
    if m < n {
        lemma_pow256_mono(m, (n - 1) as nat);
    }
}

proof fn lemma_le_bytes_len(x: nat, n: nat)
    ensures
        le_bytes(x, n).len() == n,
    decreases n,
{
    if n > 0 {
        lemma_le_bytes_len(x / 256, (n - 1) as nat);
    }
}

/// Below `256^n`, distinct values have distinct `n`-byte encodings.
proof fn lemma_le_bytes_injective(x: nat, y: nat, n: nat)
    requires
        x < pow256(n),
        y < pow256(n),
        le_bytes(x, n) == le_bytes(y, n),
    ensures
        x == y,
    decreases n,
{
    if n > 0 {
        let n1: nat = (n - 1) as nat;
        lemma_le_bytes_len(x / 256, n1);
        lemma_le_bytes_len(y / 256, n1);
        assert(le_bytes(x, n) == seq![(x % 256) as u8] + le_bytes(x / 256, n1));
        assert(le_bytes(y, n) == seq![(y % 256) as u8] + le_bytes(y / 256, n1));
        assert((seq![(x % 256) as u8] + le_bytes(x / 256, n1))[0] == (x % 256) as u8);
        assert((seq![(y % 256) as u8] + le_bytes(y / 256, n1))[0] == (y % 256) as u8);
        assert((x % 256) as u8 == (y % 256) as u8);
        assert(x % 256 == y % 256);
        assert(le_bytes(x / 256, n1) =~= le_bytes(x, n).subrange(1, n as int));
        assert(le_bytes(y / 256, n1) =~= le_bytes(y, n).subrange(1, n as int));
        assert(x / 256 < pow256(n1) && y / 256 < pow256(n1)) by (nonlinear_arith)
            requires
                x < 256 * pow256(n1),
                y < 256 * pow256(n1),
        ;
        lemma_le_bytes_injective(x / 256, y / 256, n1);
        assert(x == y) by (nonlinear_arith)
            requires
                x / 256 == y / 256,
                x % 256 == y % 256,
        ;
    }
}

proof fn lemma_u64_bound()
    ensures
        pow256(8) == 0x1_0000_0000_0000_0000,
        pow256(7) == 0x100_0000_0000_0000,
{
    reveal_with_fuel(pow256, 9);
}

/// Reads the `u64` stored little-endian at `at`.
pub fn read_u64_le(data: &[u8], at: usize) -> (r: u64)
    requires
        at + 8 <= data@.len() <= usize::MAX,
    ensures
        le_bytes(r as nat, 8) == data@.subrange(at as int, at + 8),
{
    proof {
        lemma_u64_bound();
    }
    let mut v: u64 = 0;
    let mut i: usize = 8;
    assert(le_bytes(0, 0) =~= data@.subrange(at + 8, at + 8));
    while i > 0
        invariant
            0 <= i <= 8,
            at + 8 <= data@.len() <= usize::MAX,
            v < pow256((8 - i) as nat),
            le_bytes(v as nat, (8 - i) as nat) == data@.subrange(at + i, at + 8),
            pow256(7) == 0x100_0000_0000_0000,
        decreases i,
    {
        let b: u8 = data[at + i - 1];
        let ghost k: nat = (8 - i) as nat;
        proof {
            lemma_pow256_mono(k, 7);
            assert(v * 256 + b < 0x1_0000_0000_0000_0000) by (nonlinear_arith)
                requires
                    v < 0x100_0000_0000_0000,
                    b < 256,
            ;
        }
        let ghost old_v: u64 = v;
        v = v * 256 + b as u64;
        i = i - 1;
        proof {
            assert((v as nat) % 256 == b as nat && (v as nat) / 256 == old_v as nat) by (nonlinear_arith)
                requires
                    v == old_v * 256 + b,
                    b < 256,
            ;
            assert(v < pow256(k + 1)) by (nonlinear_arith)
                requires
                    v == old_v * 256 + b,
                    b < 256,
                    old_v < pow256(k),
                    pow256(k + 1) == 256 * pow256(k),
            ;
            assert(le_bytes(v as nat, k + 1) =~= data@.subrange(at + i, at + 8));
        }
    }
    v
}

/// Reads the address stored at `at`.
pub fn read_address(data: &[u8], at: usize) -> (r: Address)
    requires
        at + 32 <= data@.len() <= usize::MAX,
    ensures
        r@ == data@.subrange(at as int, at + 32),
{
    let mut bytes: [u8; 32] = [0u8; 32];
    let mut j: usize = 0;
    while j < 32
        invariant
            0 <= j <= 32,
            at + 32 <= data@.len() <= usize::MAX,
            bytes@.len() == 32,
            bytes@.subrange(0, j as int) == data@.subrange(at as int, at + j),
        decreases 32 - j,
    {
        bytes[j] = data[at + j];
        j = j + 1;
        assert(bytes@.subrange(0, j as int) =~= data@.subrange(at as int, at + j));
    }
    assert(bytes@ =~= bytes@.subrange(0, 32));
    Address::new(bytes)
}

/// Appends `src` to `dst`.
fn push_bytes(dst: &mut Vec<u8>, src: &Vec<u8>)
    ensures
        final(dst)@ == old(dst)@ + src@,
{
    let mut j: usize = 0;
    while j < src.len()
        invariant
            0 <= j <= src@.len(),
            dst@ == old(dst)@ + src@.subrange(0, j as int),
        decreases src@.len() - j,
    {
        dst.push(src[j]);
        j = j + 1;
        assert(dst@ =~= old(dst)@ + src@.subrange(0, j as int));
    }
    assert(src@.subrange(0, src@.len() as int) =~= src@);
}

impl Escrow {
    /// The record in its stored layout.
    pub fn to_bytes(&self) -> (r: Vec<u8>)
        ensures
            r@ == record_bytes(*self),
            r@.len() == RECORD_LEN,
    {
        let mut r: Vec<u8> = Vec::new();
        r.push(RECORD_TAG);
        push_bytes(&mut r, &u64_le_bytes(self.seed));
        push_bytes(&mut r, &self.maker.to_seed());
        push_bytes(&mut r, &self.mint_a.to_seed());
        push_bytes(&mut r, &self.mint_b.to_seed());
        push_bytes(&mut r, &u64_le_bytes(self.receive));
        r.push(self.bump);
        assert(r@ =~= record_bytes(*self));
        proof {
            lemma_le_bytes_len(self.seed as nat, 8);
            lemma_le_bytes_len(self.receive as nat, 8);
        }
        r
    }

    /// The record stored in `data`: `None` unless `data` has a record's
    /// length and opens with the record tag.
    pub fn from_bytes(data: &[u8]) -> (r: Option<Escrow>)
        ensures
            r is Some <==> (data@.len() == RECORD_LEN && data@[0] == RECORD_TAG),
            r matches Some(e) ==> record_bytes(e) == data@,
    {
        if data.len() != RECORD_LEN || data[0] != RECORD_TAG {
            return None;
        }
        let seed: u64 = read_u64_le(data, 1);
        let maker = read_address(data, 9);
        let mint_a = read_address(data, 41);
        let mint_b = read_address(data, 73);
        let receive: u64 = read_u64_le(data, 105);
        let bump: u8 = data[113];
        let e = Escrow { seed, maker, mint_a, mint_b, receive, bump };
        assert(record_bytes(e) =~= data@.subrange(0, 1) + data@.subrange(1, 9) + data@.subrange(9, 41)
            + data@.subrange(41, 73) + data@.subrange(73, 105) + data@.subrange(105, 113) + data@.subrange(113, 114));
        assert(record_bytes(e) =~= data@);
        Some(e)
    }
}

/// A written record has the stored length and tag, so reading it back
/// succeeds; and a record read back from the layout of `e` has the fields
/// of `e`.
pub proof fn record_round_trip(e: Escrow, f: Escrow)
    requires
        record_bytes(e) == record_bytes(f),
    ensures
        record_bytes(e).len() == RECORD_LEN,
        record_bytes(e)[0] == RECORD_TAG,
        e.seed == f.seed,
        e.maker@ == f.maker@,
        e.mint_a@ == f.mint_a@,
        e.mint_b@ == f.mint_b@,
        e.receive == f.receive,
        e.bump == f.bump,
{
    lemma_u64_bound();
    lemma_le_bytes_len(e.seed as nat, 8);
    lemma_le_bytes_len(f.seed as nat, 8);
    lemma_le_bytes_len(e.receive as nat, 8);
    lemma_le_bytes_len(f.receive as nat, 8);
    let re = record_bytes(e);
    let rf = record_bytes(f);
    assert(re.len() == 114);
    assert(re[0] == 1u8);
    assert(re.subrange(1, 9) =~= le_bytes(e.seed as nat, 8));
    assert(rf.subrange(1, 9) =~= le_bytes(f.seed as nat, 8));
    assert(re.subrange(9, 41) =~= e.maker@);
    assert(rf.subrange(9, 41) =~= f.maker@);
    assert(re.subrange(41, 73) =~= e.mint_a@);
    assert(rf.subrange(41, 73) =~= f.mint_a@);
    assert(re.subrange(73, 105) =~= e.mint_b@);
    assert(rf.subrange(73, 105) =~= f.mint_b@);
    assert(re.subrange(105, 113) =~= le_bytes(e.receive as nat, 8));
    assert(rf.subrange(105, 113) =~= le_bytes(f.receive as nat, 8));
    assert(re[113] == e.bump && rf[113] == f.bump);
    lemma_le_bytes_injective(e.seed as nat, f.seed as nat, 8);
    lemma_le_bytes_injective(e.receive as nat, f.receive as nat, 8);
}

} // verus!
