use vstd::prelude::*;

use crate::chain::{pda_of, try_find_program_address};
use crate::ident::Identity;

verus! {

/// The seed tag of every toggle record address: the bytes of "nightfury".
pub open spec fn record_seed() -> Seq<u8> {
    seq![110u8, 105u8, 103u8, 104u8, 116u8, 102u8, 117u8, 114u8, 121u8]
}

/// The seed tag of every trigger sub-identity: the bytes of "thread_authority".
pub open spec fn thread_authority_seed() -> Seq<u8> {
    seq![
        116u8,
        104u8,
        114u8,
        101u8,
        97u8,
        100u8,
        95u8,
        97u8,
        117u8,
        116u8,
        104u8,
        111u8,
        114u8,
        105u8,
        116u8,
        121u8,
    ]
}

/// The seed list a toggle record address is derived from.
pub open spec fn record_seeds(mint: Seq<u8>, authority: Seq<u8>) -> Seq<Seq<u8>> {
    seq![record_seed(), mint, authority]
}

/// The seed list a trigger sub-identity is derived from.
pub open spec fn thread_authority_seeds(record_key: Seq<u8>) -> Seq<Seq<u8>> {
    seq![thread_authority_seed(), record_key]
}

fn record_seed_bytes() -> (r: Vec<u8>)
    ensures
        r@ == record_seed(),
{
    let mut v: Vec<u8> = Vec::new();
    v.push(110);
    v.push(105);
    v.push(103);
    v.push(104);
    v.push(116);
    v.push(102);
    v.push(117);
    v.push(114);
    v.push(121);
    proof {
        assert(v@ =~= record_seed());
    }
    v
}

fn thread_authority_seed_bytes() -> (r: Vec<u8>)
    ensures
        r@ == thread_authority_seed(),
{
    let mut v: Vec<u8> = Vec::new();
    v.push(116);
    v.push(104);
    v.push(114);
    v.push(101);
    v.push(97);
    v.push(100);
    v.push(95);
    v.push(97);
    v.push(117);
    v.push(116);
    v.push(104);
    v.push(111);
    v.push(114);
    v.push(105);
    v.push(116);
    v.push(121);
    proof {
        assert(v@ =~= thread_authority_seed());
    }
    v
}

impl Identity {
    /// The address bytes as a growable vector.
    pub fn to_byte_vec(&self) -> (r: Vec<u8>)
        ensures
            r@ == self@,
    {
        vstd::slice::slice_to_vec(self.bytes.as_slice())
    }
}

/// Derive the address a toggle record for this (mint, authority) pair must sit
/// at, with its bump seed; None when no bump yields a valid address.
pub fn derive_record_address(program_id: &Identity, mint: &Identity, authority: &Identity) -> (r:
    Option<(Identity, u8)>)
    ensures
        r is Some <==> pda_of(program_id@, record_seeds(mint@, authority@)) is Some,
        r matches Some(p) ==> pda_of(program_id@, record_seeds(mint@, authority@)) == Some(
            (p.0@, p.1),
        ),
{
    let mut seeds: Vec<Vec<u8>> = Vec::new();
    seeds.push(record_seed_bytes());
    seeds.push(mint.to_byte_vec());
    seeds.push(authority.to_byte_vec());
    proof {
        assert(seeds@.map_values(|s: Vec<u8>| s@) =~= record_seeds(mint@, authority@));
    }
    try_find_program_address(&seeds, program_id)
}

/// Derive the sub-identity that manages the trigger of the record at
/// `record_key`, with its bump seed.
pub fn derive_thread_authority_address(program_id: &Identity, record_key: &Identity) -> (r: Option<
    (Identity, u8),
>)
    ensures
        r is Some <==> pda_of(program_id@, thread_authority_seeds(record_key@)) is Some,
        r matches Some(p) ==> pda_of(program_id@, thread_authority_seeds(record_key@)) == Some(
            (p.0@, p.1),
        ),
{
    let mut seeds: Vec<Vec<u8>> = Vec::new();
    seeds.push(thread_authority_seed_bytes());
    seeds.push(record_key.to_byte_vec());
    proof {
        assert(seeds@.map_values(|s: Vec<u8>| s@) =~= thread_authority_seeds(record_key@));
    }
    try_find_program_address(&seeds, program_id)
}

/// The derivation is deterministic: one (mint, authority) pair has one record
/// address, so two records that both sit at their derived addresses for the
/// same pair sit at the same address.
pub proof fn lemma_record_address_unique(
    program: Seq<u8>,
    mint: Seq<u8>,
    authority: Seq<u8>,
    k1: (Seq<u8>, u8),
    k2: (Seq<u8>, u8),
)
    requires
        pda_of(program, record_seeds(mint, authority)) == Some(k1),
        pda_of(program, record_seeds(mint, authority)) == Some(k2),
    ensures
        k1 == k2,
{
}

} // verus!
