//! Account addresses as 32 plain bytes, and the byte layouts the program
//! derives from plain values.
use vstd::prelude::*;

use anchor_lang::solana_program::pubkey::Pubkey;

verus! {

/// A 32-byte account address.
#[derive(Clone, Copy, Debug, PartialEq, Eq)]
pub struct Address {
    pub bytes: [u8; 32],
}

impl Address {
    /// Whether two addresses hold the same bytes.
    pub fn same_as(&self, other: &Address) -> (r: bool)
        ensures
            r == (self.bytes@ == other.bytes@),
    {
        let mut i: usize = 0;
        while i < 32
            invariant
                0 <= i <= 32,
                self.bytes@.len() == 32,
                other.bytes@.len() == 32,
                forall|j: int| 0 <= j < i ==> self.bytes@[j] == other.bytes@[j],
            decreases 32 - i,
        {
            if self.bytes[i] != other.bytes[i] {
                return false;
            }
            i = i + 1;
        }
        assert(self.bytes@ =~= other.bytes@);
        true
    }

    /// The bytes of the address as a vector.
    pub fn to_vec(&self) -> (r: Vec<u8>)
        ensures
            r@ == self.bytes@,
    {
        let mut out: Vec<u8> = Vec::new();
        let mut i: usize = 0;
        while i < 32
            invariant
                0 <= i <= 32,
                self.bytes@.len() == 32,
                out@ == self.bytes@.subrange(0, i as int),
            decreases 32 - i,
        {
            out.push(self.bytes[i]);
            i = i + 1;
            assert(out@ =~= self.bytes@.subrange(0, i as int));
        }
        assert(out@ =~= self.bytes@);
        out
    }
}

/// The `n` low bytes of `v`, least significant first.
pub open spec fn le_bytes(v: nat, n: nat) -> Seq<u8>
    decreases n,
{
    if n == 0 {
        Seq::empty()
    } else {
        seq![(v % 256) as u8].add(le_bytes(v / 256, (n - 1) as nat))
    }
}

/// The eight bytes of a `u64`, little-endian.
pub open spec fn u64_le(v: u64) -> Seq<u8> {
    le_bytes(v as nat, 8)
}

/// The eight bytes of an `i64` in two's complement, little-endian.
pub open spec fn i64_le(v: i64) -> Seq<u8> {
    if v >= 0 {
        le_bytes(v as nat, 8)
    } else {
        le_bytes((v + 0x1_0000_0000_0000_0000int) as nat, 8)
    }
}

/// Appends the eight little-endian bytes of `v` to `out`.
pub fn push_u64_le(out: &mut Vec<u8>, v: u64)
    ensures
        final(out)@ == old(out)@ + u64_le(v),
{
    let mut cur: u64 = v;
    let mut k: usize = 0;
    while k < 8
        invariant
            0 <= k <= 8,
            out@ + le_bytes(cur as nat, (8 - k) as nat) == old(out)@ + u64_le(v),
        decreases 8 - k,
    {
        let ghost before = out@;
        let ghost rest = le_bytes(cur as nat / 256, (8 - k - 1) as nat);
        assert(le_bytes(cur as nat, (8 - k) as nat) == seq![(cur as nat % 256) as u8] + rest);
        out.push((cur % 256) as u8);
        assert(out@ == before + seq![(cur as nat % 256) as u8]);
        assert(out@ + rest =~= before + (seq![(cur as nat % 256) as u8] + rest));
        cur = cur / 256;
        k = k + 1;
    }
    assert(le_bytes(cur as nat, 0) =~= Seq::<u8>::empty());
    assert(out@ + Seq::<u8>::empty() =~= out@);
}

/// Appends the eight little-endian two's-complement bytes of `v` to `out`.
pub fn push_i64_le(out: &mut Vec<u8>, v: i64)
    ensures
        final(out)@ == old(out)@ + i64_le(v),
{
    let u: u64 = if v >= 0 {
        v as u64
    } else {
        (v as i128 + 0x1_0000_0000_0000_0000i128) as u64
    };
    push_u64_le(out, u);
}

/// The address derived by the runtime from `seeds` for the program
/// `program_id`, with its bump: the first bump from 255 down for which the
/// seeds give an address off the curve.
pub uninterp spec fn program_address_of(seeds: Seq<Seq<u8>>, program_id: Seq<u8>) -> Option<(Seq<u8>, u8)>;

/// The bytes of a derived address and its bump.
pub open spec fn derived_view(r: Option<(Address, u8)>) -> Option<(Seq<u8>, u8)> {
    match r {
        Some(p) => Some((p.0.bytes@, p.1)),
        None => None,
    }
}

/// Relies on `Pubkey::try_find_program_address`: the derived address of
/// `seeds` for `program_id` and its bump, or `None` where the seeds are
/// invalid or no bump gives an address.
#[verifier::external_body]
pub(crate) fn find_program_address(seeds: &Vec<Vec<u8>>, program_id: &Address) -> (r: Option<(Address, u8)>)
    ensures
        derived_view(r) == program_address_of(seeds.deep_view(), program_id.bytes@),
{
    let refs: Vec<&[u8]> = seeds.iter().map(|s| s.as_slice()).collect();
    Pubkey::try_find_program_address(&refs, &Pubkey::new_from_array(program_id.bytes))
        .map(|(key, bump)| (Address { bytes: key.to_bytes() }, bump))
}

} // verus!
