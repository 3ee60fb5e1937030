use vstd::prelude::*;

use crate::accounts::{MetadataModel, MetadataView};
use crate::ident::Identity;
use mpl_token_metadata::state::TokenMetadataAccount;

verus! {

/// What the program-address derivation returns for a program id and a seed
/// list: the derived address and bump seed, or nothing when no bump yields a
/// valid address.
pub uninterp spec fn pda_of(program: Seq<u8>, seeds: Seq<Seq<u8>>) -> Option<(Seq<u8>, u8)>;

/// Relies on solana_program::pubkey::Pubkey::try_find_program_address: the
/// derived address and bump seed are a function of the seeds and the program
/// id alone, and the call returns None rather than aborting when no bump
/// yields a valid address.
#[verifier::external_body]
pub(crate) fn try_find_program_address(seeds: &Vec<Vec<u8>>, program_id: &Identity) -> (r: Option<
    (Identity, u8),
>)
    ensures
        r is Some <==> pda_of(program_id@, seeds@.map_values(|s: Vec<u8>| s@)) is Some,
        r matches Some(p) ==> pda_of(program_id@, seeds@.map_values(|s: Vec<u8>| s@)) == Some(
            (p.0@, p.1),
        ),
{
    let seed_slices: Vec<&[u8]> = seeds.iter().map(|s| s.as_slice()).collect();
    let program = solana_program::pubkey::Pubkey::new_from_array(program_id.bytes);
    solana_program::pubkey::Pubkey::try_find_program_address(&seed_slices, &program).map(
        |p: (solana_program::pubkey::Pubkey, u8)| (Identity { bytes: p.0.to_bytes() }, p.1),
    )
}

/// Whether a key is the canonical instructions-sysvar id, a fixed constant of
/// the runtime.
pub uninterp spec fn is_instructions_sysvar_key(key: Seq<u8>) -> bool;

/// Relies on solana_program::sysvar::instructions::check_id: true exactly when
/// the key equals the canonical instructions-sysvar id, a comparison against a
/// fixed constant, so the result depends on the key alone.
#[verifier::external_body]
pub(crate) fn check_instructions_sysvar(key: &Identity) -> (r: bool)
    ensures
        r == is_instructions_sysvar_key(key@),
{
    let k = solana_program::pubkey::Pubkey::new_from_array(key.bytes);
    solana_program::sysvar::instructions::check_id(&k)
}

/// What metadata-record bytes parse to: the fields this program reads, or
/// nothing when the bytes are not a well-formed metadata record.
pub uninterp spec fn metadata_of(bytes: Seq<u8>) -> Option<MetadataModel>;

/// Relies on mpl_token_metadata::state::Metadata::safe_deserialize (through
/// the TokenMetadataAccount trait): whether account bytes parse as a metadata
/// record, and the fields read out of them, depend on the bytes alone.
#[verifier::external_body]
pub(crate) fn parse_metadata(bytes: &Vec<u8>) -> (r: Option<MetadataView>)
    ensures
        r is Some <==> metadata_of(bytes@) is Some,
        r matches Some(m) ==> metadata_of(bytes@) == Some(m@),
{
    match mpl_token_metadata::state::Metadata::safe_deserialize(bytes.as_slice()) {
        Ok(m) => Some(MetadataView {
            update_authority: Identity { bytes: m.update_authority.to_bytes() },
            mint: Identity { bytes: m.mint.to_bytes() },
            name: m.data.name.into_bytes(),
            symbol: m.data.symbol.into_bytes(),
            uri: m.data.uri.into_bytes(),
            seller_fee_basis_points: m.data.seller_fee_basis_points,
        }),
        Err(_) => None,
    }
}

/// Whether account bytes parse as a second-version master edition record.
pub uninterp spec fn master_edition_bytes_ok(bytes: Seq<u8>) -> bool;

/// Relies on mpl_token_metadata::state::MasterEditionV2::safe_deserialize
/// (through the TokenMetadataAccount trait): whether account bytes parse as a
/// second-version master edition record depends on the bytes alone.
#[verifier::external_body]
pub(crate) fn parse_master_edition_v2(bytes: &Vec<u8>) -> (r: bool)
    ensures
        r == master_edition_bytes_ok(bytes@),
{
    mpl_token_metadata::state::MasterEditionV2::safe_deserialize(bytes.as_slice()).is_ok()
}

} // verus!
