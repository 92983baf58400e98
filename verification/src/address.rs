//! Program-derived addresses: finding the address and bump seed for a list
//! of seeds, and the seeds with which a program signs for that address.

use vstd::prelude::*;

use crate::error::ToolError;
use crate::keys::{keys_equal, Pubkey};

verus! {

/// The address and bump seed that `Pubkey::try_find_program_address` finds
/// for `seeds` under `program_id` (a SHA-256 search over bump seeds from 255
/// down), or none where no bump seed gives an address off the curve.
pub uninterp spec fn program_address(seeds: Seq<Seq<u8>>, program_id: Seq<u8>) -> Option<(Seq<u8>, u8)>;

/// Whether the seeds leave room for the bump seed within the runtime's limits
/// (at most 16 seeds, bump seed included, of at most 32 bytes each).
pub open spec fn seeds_within_limits(seeds: Seq<Seq<u8>>) -> bool {
    seeds.len() < 16 && forall|i: int| 0 <= i < seeds.len() ==> (#[trigger] seeds[i]).len() <= 32
}

/// `Pubkey::try_find_program_address`: its result is the named
/// [`program_address`] of the seeds and the program id, and the source shows
/// that it finds nothing where the seeds exceed the runtime's limits. Which
/// address and bump seed it finds is left unsaid: that is a SHA-256 search.
#[verifier::external_body]
pub(crate) fn try_find_program_address(seeds: &[Vec<u8>], program_id: &Pubkey) -> (found: Option<(Pubkey, u8)>)
    ensures
        found.deep_view() == program_address(seeds.deep_view(), program_id@),
        !seeds_within_limits(seeds.deep_view()) ==> found is None,
{
    let seeds: Vec<&[u8]> = seeds.iter().map(|s| s.as_slice()).collect();
    solana_program::pubkey::Pubkey::try_find_program_address(&seeds, &(*program_id).into()).map(|(k, b)| (k.to_bytes(), b))
}

/// The bump seed of the program-derived address for `seeds`, where that
/// address is `expected`; `InvalidSeeds` where it is another address.
pub open spec fn spec_check_program_address(
    seeds: Seq<Seq<u8>>,
    program_id: Seq<u8>,
    expected: Seq<u8>,
) -> Result<u8, ToolError> {
    let (address, bump) = program_address(seeds, program_id).unwrap();
    if address == expected {
        Ok(bump)
    } else {
        Err(ToolError::InvalidSeeds)
    }
}

/// Derives the program address for the seeds and checks that it is
/// `expected`, returning its bump seed.
pub(crate) fn check_program_address(seeds: &[Vec<u8>], program_id: &Pubkey, expected: &Pubkey) -> (r: Result<
    u8,
    ToolError,
>)
    requires
        program_address(seeds.deep_view(), program_id@) is Some,
    ensures
        r == spec_check_program_address(seeds.deep_view(), program_id@, expected@),
{
    match try_find_program_address(seeds, program_id) {
        Some((address, bump)) => {
            assert(address.deep_view() =~= address@);
            if keys_equal(&address, expected) {
                Ok(bump)
            } else {
                Err(ToolError::InvalidSeeds)
            }
        },
        None => {
            assert(false);
            Err(ToolError::InvalidSeeds)
        },
    }
}

/// Copies a byte vector.
fn copy_bytes(v: &Vec<u8>) -> (out: Vec<u8>)
    ensures
        out@ == v@,
        out.deep_view() == v.deep_view(),
{
    let mut out: Vec<u8> = Vec::new();
    let mut i: usize = 0;
    while i < v.len()
        invariant
            0 <= i <= v@.len(),
            out@ == v@.subrange(0, i as int),
        decreases v@.len() - i,
    {
        out.push(v[i]);
        i = i + 1;
    }
    assert(out@ =~= v@);
    assert(out.deep_view() =~= v.deep_view());
    out
}

/// The seeds with which the program signs for its derived address: the
/// address seeds followed by the one-byte bump seed.
pub open spec fn spec_signer_seeds(seeds: Seq<Seq<u8>>, bump: u8) -> Seq<Seq<u8>> {
    seeds.push(seq![bump])
}

/// Builds the seeds with which the program signs for its derived address.
pub fn signer_seeds(seeds: &[Vec<u8>], bump: u8) -> (out: Vec<Vec<u8>>)
    ensures
        out.deep_view() == spec_signer_seeds(seeds.deep_view(), bump),
{
    let mut out: Vec<Vec<u8>> = Vec::new();
    let mut i: usize = 0;
    while i < seeds.len()
        invariant
            0 <= i <= seeds@.len(),
            out@.len() == i,
            out.deep_view() == seeds.deep_view().subrange(0, i as int),
        decreases seeds@.len() - i,
    {
        let seed = copy_bytes(&seeds[i]);
        let ghost before = out@;
        let ghost before_deep = out.deep_view();
        out.push(seed);
        assert(out@ == before.push(seed));
        assert forall|j: int| 0 <= j < i + 1 implies #[trigger] out.deep_view()[j] == seeds.deep_view()[j] by {
            if j < i {
                assert(out@[j] == before[j]);
                assert(before_deep[j] == seeds.deep_view().subrange(0, i as int)[j]);
            } else {
                assert(out@[j] == seed);
            }
        }
        assert(out.deep_view() =~= seeds.deep_view().subrange(0, i + 1));
        i = i + 1;
    }
    let mut last: Vec<u8> = Vec::new();
    last.push(bump);
    assert(last.deep_view() =~= seq![bump]);
    assert(seeds.deep_view().subrange(0, seeds@.len() as int) =~= seeds.deep_view());
    let ghost before = out@;
    let ghost before_deep = out.deep_view();
    out.push(last);
    assert(out@ == before.push(last));
    assert forall|j: int| 0 <= j < out@.len() implies #[trigger] out.deep_view()[j] == spec_signer_seeds(seeds.deep_view(), bump)[j] by {
        if j < seeds@.len() {
            assert(out@[j] == before[j]);
            assert(before_deep[j] == seeds.deep_view()[j]);
        } else {
            assert(out@[j] == last);
        }
    }
    assert(out.deep_view() =~= spec_signer_seeds(seeds.deep_view(), bump));
    out
}

} // verus!
