use vstd::prelude::*;

verus! {

/// The symbolic error kinds a rejected invocation carries. Every precondition
/// check is terminal: the first violation aborts the whole invocation with one
/// of these kinds and no state change.
///
/// `InvalidAuthority` also covers a record or trigger authority account that
/// does not sit at its deterministically derived address.
#[derive(Clone, Copy, Debug, PartialEq, Eq, Structural)]
pub enum NightFuryError {
    InvalidAuthority,
    InvalidMint,
    UriTooLong,
    FailedToBuildUpdateInstruction,
    InvalidInstructionsSysvarId,
    InvalidTokenMetadataProgram,
    InvalidEditionAccount,
    InvalidMetadataAccount,
    InvalidAuthRulesProgram,
    InvalidDelegateInstruction,
}

impl NightFuryError {
    /// The human-readable message attached to this error kind.
    pub fn message(&self) -> (r: &'static str) {
        match self {
            NightFuryError::InvalidAuthority => "Invalid NightFury Authority",
            NightFuryError::InvalidMint => "Invalid NightFury Mint",
            NightFuryError::UriTooLong => "Uri too long",
            NightFuryError::FailedToBuildUpdateInstruction => "Failed to build update instruction",
            NightFuryError::InvalidInstructionsSysvarId => "Invalid Instructions Sysvar Id",
            NightFuryError::InvalidTokenMetadataProgram => "Invalid Token Metadata Program",
            NightFuryError::InvalidEditionAccount => "Invalid Edition Account",
            NightFuryError::InvalidMetadataAccount => "Invalid Metadata Account",
            NightFuryError::InvalidAuthRulesProgram => "Invalid Auth Rules Program",
            NightFuryError::InvalidDelegateInstruction => "Invalid Delegate Instruction",
        }
    }
}

} // verus!
