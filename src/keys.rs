use vstd::prelude::*;
use anchor_lang::solana_program::pubkey::Pubkey;

verus! {

/// The bytes of the token program's id.
pub open spec fn token_program_key() -> Seq<u8> {
    seq![
        6, 221, 246, 225, 215, 101, 161, 147, 217, 203, 225, 70, 206, 235, 121, 172,
        28, 180, 133, 237, 95, 91, 55, 145, 58, 140, 245, 133, 126, 255, 0, 169,
    ]
}

/// The bytes of the token metadata program's id.
pub open spec fn metadata_program_key() -> Seq<u8> {
    seq![
        11, 112, 101, 177, 227, 209, 124, 69, 56, 157, 82, 127, 107, 4, 195, 205,
        88, 184, 108, 115, 26, 160, 253, 181, 73, 182, 209, 188, 3, 248, 41, 70,
    ]
}

/// The bytes of the associated token account program's id.
pub open spec fn associated_token_program_key() -> Seq<u8> {
    seq![
        140, 151, 37, 143, 78, 36, 137, 241, 187, 61, 16, 41, 20, 142, 13, 131,
        11, 90, 19, 153, 218, 255, 16, 132, 4, 142, 123, 216, 219, 233, 248, 89,
    ]
}

/// The bytes of the rent sysvar's id.
pub open spec fn rent_sysvar_key() -> Seq<u8> {
    seq![
        6, 167, 213, 23, 25, 44, 92, 81, 33, 140, 201, 76, 61, 74, 241, 127,
        88, 218, 238, 8, 155, 161, 253, 68, 227, 219, 217, 138, 0, 0, 0, 0,
    ]
}

/// The bytes of the system program's id: all zero.
pub open spec fn system_program_key() -> Seq<u8> {
    Seq::new(32, |i: int| 0u8)
}

/// The address that a program derives from the seeds, if one exists.
pub uninterp spec fn program_address_of(seeds: Seq<Seq<u8>>, program: Seq<u8>) -> Option<Seq<u8>>;

/// The bytes that the seeds hold, one sequence per seed.
pub open spec fn seeds_view(seeds: Seq<Vec<u8>>) -> Seq<Seq<u8>> {
    seeds.map_values(|s: Vec<u8>| s@)
}

/// The view of a key that may be missing.
pub open spec fn opt_key_view(k: Option<[u8; 32]>) -> Option<Seq<u8>> {
    match k {
        Some(k) => Some(k@),
        None => None,
    }
}

/// Relies on `spl_token::ID`, the token program's declared id.
#[verifier::external_body]
pub(crate) fn token_program_id() -> (r: [u8; 32])
    ensures
        r@ == token_program_key(),
{
    anchor_spl::token::ID.to_bytes()
}

/// Relies on `mpl_token_metadata::ID`, the metadata program's declared id.
#[verifier::external_body]
pub(crate) fn metadata_program_id() -> (r: [u8; 32])
    ensures
        r@ == metadata_program_key(),
{
    mpl_token_metadata::ID.to_bytes()
}

/// Relies on `spl_associated_token_account::ID`, that program's declared id.
#[verifier::external_body]
pub(crate) fn associated_token_program_id() -> (r: [u8; 32])
    ensures
        r@ == associated_token_program_key(),
{
    anchor_spl::associated_token::ID.to_bytes()
}

/// Relies on `solana_program::sysvar::rent::ID`, the rent sysvar's declared id.
#[verifier::external_body]
pub(crate) fn rent_sysvar_id() -> (r: [u8; 32])
    ensures
        r@ == rent_sysvar_key(),
{
    anchor_lang::solana_program::sysvar::rent::ID.to_bytes()
}

/// Relies on `solana_program::system_program::ID`, the system program's declared id.
#[verifier::external_body]
pub(crate) fn system_program_id() -> (r: [u8; 32])
    ensures
        r@ == system_program_key(),
{
    anchor_lang::system_program::ID.to_bytes()
}

/// Relies on `Pubkey::try_find_program_address`: the first off-curve address
/// that the seeds, a bump seed and the program hash to, or `None` where no
/// bump seed gives one. The result depends on the seeds and the program alone.
#[verifier::external_body]
pub(crate) fn find_program_address(seeds: &Vec<Vec<u8>>, program: &[u8; 32]) -> (r: Option<[u8; 32]>)
    ensures
        opt_key_view(r) == program_address_of(seeds_view(seeds@), program@),
{
    let parts: Vec<&[u8]> = seeds.iter().map(|s| s.as_slice()).collect();
    Pubkey::try_find_program_address(&parts, &Pubkey::new_from_array(*program)).map(|(k, _)| k.to_bytes())
}

/// Whether two keys are the same.
pub fn keys_equal(a: &[u8; 32], b: &[u8; 32]) -> (r: bool)
    ensures
        r == (a@ == b@),
{
    let mut i: usize = 0;
    while i < 32
        invariant
            0 <= i <= 32,
            a@.len() == 32,
            b@.len() == 32,
            forall|j: int| 0 <= j < i ==> a@[j] == b@[j],
        decreases 32 - i,
    {
        if a[i] != b[i] {
            return false;
        }
        i = i + 1;
    }
    proof {
        assert(a@ =~= b@);
    }
    true
}

} // verus!
