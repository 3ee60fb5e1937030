use vstd::prelude::*;

use crate::ident::Identity;

verus! {

/// An account as an invocation sees it: its address and the program that owns
/// its data.
#[derive(Clone, Copy, Debug)]
pub struct AccountView {
    pub key: Identity,
    pub owner: Identity,
}

/// The fields of a token account that the validation chain reads.
#[derive(Clone, Copy, Debug)]
pub struct TokenAccountView {
    pub key: Identity,
    pub mint: Identity,
}

/// The fields of a metadata record that this program reads and rewrites. A
/// switch replaces `uri` and must preserve every other field.
#[derive(Clone, Debug)]
pub struct MetadataView {
    pub update_authority: Identity,
    pub mint: Identity,
    pub name: Vec<u8>,
    pub symbol: Vec<u8>,
    pub uri: Vec<u8>,
    pub seller_fee_basis_points: u16,
}

/// The mathematical shape of a metadata record.
pub struct MetadataModel {
    pub update_authority: Seq<u8>,
    pub mint: Seq<u8>,
    pub name: Seq<u8>,
    pub symbol: Seq<u8>,
    pub uri: Seq<u8>,
    pub seller_fee_basis_points: u16,
}

impl View for MetadataView {
    type V = MetadataModel;

    open spec fn view(&self) -> MetadataModel {
        MetadataModel {
            update_authority: self.update_authority@,
            mint: self.mint@,
            name: self.name@,
            symbol: self.symbol@,
            uri: self.uri@,
            seller_fee_basis_points: self.seller_fee_basis_points,
        }
    }
}

/// A capability token: while `active`, `delegate` alone may push metadata
/// updates for the record bound to `mint`, on behalf of `authority`. Created
/// by initialization, destroyed by revocation, checked on every switch.
#[derive(Clone, Copy, Debug)]
pub struct Delegation {
    pub delegate: Identity,
    pub mint: Identity,
    pub authority: Identity,
    pub active: bool,
}

/// The recurring trigger that replays the switch invocation on a cron
/// schedule. `authority` is the derived sub-identity permitted to manage it.
#[derive(Clone, Debug)]
pub struct ThreadView {
    pub key: Identity,
    pub authority: Identity,
    pub id: Vec<u8>,
    pub schedule: Vec<u8>,
    pub active: bool,
}

/// The known program identities of one deployment, injected by the host
/// rather than compiled in, so one build serves many environments.
#[derive(Clone, Copy, Debug)]
pub struct ProgramConfig {
    /// The identity this program is deployed under; the root of all address
    /// derivations.
    pub program_id: Identity,
    /// The genuine token-metadata program.
    pub token_metadata_program: Identity,
    /// The genuine authorization-rules program.
    pub auth_rules_program: Identity,
}

} // verus!
