use vstd::prelude::*;

verus! {

/// A 32-byte account address or identity (a public key).
#[derive(Clone, Copy, Debug)]
pub struct Address {
    pub bytes: [u8; 32],
}

impl View for Address {
    type V = Seq<u8>;

    open spec fn view(&self) -> Seq<u8> {
        self.bytes@
    }
}

impl Address {
    /// The all-zero address.
    pub fn zero() -> (r: Address)
        ensures
            r@ == Seq::new(32, |i: int| 0u8),
    {
        let r = Address {
            bytes: [
                0, 0, 0, 0, 0, 0, 0, 0, 0, 0, 0, 0, 0, 0, 0, 0,
                0, 0, 0, 0, 0, 0, 0, 0, 0, 0, 0, 0, 0, 0, 0, 0,
            ],
        };
        assert(r@ =~= Seq::new(32, |i: int| 0u8));
        r
    }

    /// The address's bytes, in order.
    pub fn to_vec(&self) -> (r: Vec<u8>)
        ensures
            r@ == self@,
            r@.len() == 32,
    {
        vstd::slice::slice_to_vec(vstd::array::array_as_slice(&self.bytes))
    }
}

/// The program address and bump that a list of seeds and a program id give,
/// or none.
pub uninterp spec fn program_address(seeds: Seq<Seq<u8>>, program_id: Seq<u8>) -> Option<(Seq<u8>, u8)>;

/// The view of a found address and bump.
pub open spec fn found_view(r: Option<(Address, u8)>) -> Option<(Seq<u8>, u8)> {
    match r {
        Some((a, bump)) => Some((a@, bump)),
        None => None,
    }
}

/// The views of a list of seeds.
pub open spec fn seeds_view(seeds: Seq<Vec<u8>>) -> Seq<Seq<u8>> {
    seeds.map_values(|s: Vec<u8>| s@)
}

/// Whether a list of seeds breaks the runtime's limits: more than fifteen
/// seeds (the bump is one more), or a seed over thirty-two bytes.
pub open spec fn seeds_over_limit(seeds: Seq<Seq<u8>>) -> bool {
    seeds.len() >= 16 || exists|i: int| 0 <= i < seeds.len() && seeds[i].len() > 32
}

/// Relies on `Pubkey::try_find_program_address` (solana-program, through
/// anchor-lang): the result depends on the seeds and the program id alone,
/// and is none where the seeds break the limits that
/// `Pubkey::create_program_address` checks.
#[verifier::external_body]
pub(crate) fn find_program_address(seeds: &Vec<Vec<u8>>, program_id: &Address) -> (r: Option<(Address, u8)>)
    ensures
        found_view(r) == program_address(seeds_view(seeds@), program_id@),
        seeds_over_limit(seeds_view(seeds@)) ==> r is None,
{
    let parts: Vec<&[u8]> = seeds.iter().map(|s| s.as_slice()).collect();
    let program = anchor_lang::solana_program::pubkey::Pubkey::new_from_array(program_id.bytes);
    anchor_lang::solana_program::pubkey::Pubkey::try_find_program_address(&parts, &program)
        .map(|(key, bump)| (Address { bytes: key.to_bytes() }, bump))
}

} // verus!
