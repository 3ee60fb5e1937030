use vstd::prelude::*;

use crate::accounts::{AccountView, Delegation, MetadataModel, MetadataView, ProgramConfig};
use crate::chain::{check_instructions_sysvar, is_instructions_sysvar_key, metadata_of,
    parse_metadata};
use crate::errors::NightFuryError;
use crate::ident::Identity;
use crate::state::{NightFury, NightFuryState};

verus! {

/// The accounts a switch invocation supplies.
#[derive(Clone, Debug)]
pub struct Switch {
    /// The mint of the NFT being toggled.
    pub mint: Identity,
    /// The metadata account: its address and owning program.
    pub metadata: AccountView,
    /// The raw contents of the metadata account.
    pub metadata_bytes: Vec<u8>,
    /// The automation identity signing this invocation.
    pub thread: Identity,
    /// The account claimed to be the instructions sysvar.
    pub instructions_sysvar: Identity,
}

/// A metadata record with its URI replaced and every other field preserved.
pub open spec fn with_uri(md: MetadataModel, uri: Seq<u8>) -> MetadataModel {
    MetadataModel { uri, ..md }
}

/// The first check a switch invocation fails, or None when all hold. The
/// checks re-validate the metadata binding exactly as initialization did,
/// demand the genuine instructions sysvar, and accept only the automation
/// identity that the delegation created at initialization still authorizes.
pub open spec fn switch_validate(
    cfg: ProgramConfig,
    record: NightFury,
    sw: Switch,
    delegation: Delegation,
) -> Option<NightFuryError> {
    if sw.metadata.owner@ != cfg.token_metadata_program@ {
        Some(NightFuryError::InvalidMetadataAccount)
    } else {
        match metadata_of(sw.metadata_bytes@) {
            Option::None => Some(NightFuryError::InvalidMetadataAccount),
            Option::Some(md) => if md.mint != sw.mint@ {
                Some(NightFuryError::InvalidMint)
            } else if record.mint@ != sw.mint@ {
                Some(NightFuryError::InvalidMint)
            } else if !is_instructions_sysvar_key(sw.instructions_sysvar@) {
                Some(NightFuryError::InvalidInstructionsSysvarId)
            } else if !(delegation.active && delegation.delegate@ == sw.thread@
                && delegation.delegate@ == record.thread@ && delegation.mint@ == record.mint@) {
                Some(NightFuryError::InvalidDelegateInstruction)
            } else {
                None
            },
        }
    }
}

/// Flip the phase and compute the metadata mutation that publishes the queued
/// URI, authorized solely by the delegated automation identity.
///
/// On success the returned view is the state the metadata service is told to
/// hold: the queued URI in place of the old one, every other field unchanged;
/// the phase flips only with success. Any failed check aborts with no phase
/// change; the scheduler retries on its next firing.
pub fn process_switch(
    cfg: &ProgramConfig,
    record: &mut NightFury,
    sw: &Switch,
    delegation: &Delegation,
) -> (r: Result<MetadataView, NightFuryError>)
    ensures
        r is Err <==> switch_validate(*cfg, *old(record), *sw, *delegation) is Some,
        r matches Err(e) ==> switch_validate(*cfg, *old(record), *sw, *delegation) == Some(e),
        r is Err ==> *final(record) == *old(record),
        r is Ok ==> final(record).state == old(record).state.flipped(),
        r is Ok ==> final(record).authority@ == old(record).authority@,
        r is Ok ==> final(record).mint@ == old(record).mint@,
        r is Ok ==> final(record).day_uri@ == old(record).day_uri@,
        r is Ok ==> final(record).night_uri@ == old(record).night_uri@,
        r is Ok ==> final(record).thread@ == old(record).thread@,
        r is Ok ==> final(record).thread_id@ == old(record).thread_id@,
        r is Ok ==> final(record).bump == old(record).bump,
        r matches Ok(m) ==> (metadata_of(sw.metadata_bytes@) matches Some(md) && m@ == with_uri(
            md,
            old(record).queued_uri(),
        )),
{
    if !(sw.metadata.owner == cfg.token_metadata_program) {
        return Err(NightFuryError::InvalidMetadataAccount);
    }
    let parsed = parse_metadata(&sw.metadata_bytes);
    match parsed {
        Option::None => Err(NightFuryError::InvalidMetadataAccount),
        Option::Some(md) => {
            if !(md.mint == sw.mint) {
                return Err(NightFuryError::InvalidMint);
            }
            if !(record.mint == sw.mint) {
                return Err(NightFuryError::InvalidMint);
            }
            if !check_instructions_sysvar(&sw.instructions_sysvar) {
                return Err(NightFuryError::InvalidInstructionsSysvarId);
            }
            if !(delegation.active && delegation.delegate == sw.thread && delegation.delegate
                == record.thread && delegation.mint == record.mint) {
                return Err(NightFuryError::InvalidDelegateInstruction);
            }
            let new_uri: Vec<u8> = match record.state {
                NightFuryState::Day => record.night_uri.clone(),
                NightFuryState::Night => record.day_uri.clone(),
            };
            record.state = record.state.flip();
            Ok(MetadataView { uri: new_uri, ..md })
        },
    }
}

/// Law: the phase never skips or repeats. Two successful switches over the
/// same URI pair return the record to its starting phase, each publishing the
/// other URI: from Day the first queues the night URI and the second queues
/// the day URI again.
pub proof fn lemma_switch_round_trip(r0: NightFury, r1: NightFury, r2: NightFury)
    requires
        r1.state == r0.state.flipped(),
        r1.day_uri@ == r0.day_uri@,
        r1.night_uri@ == r0.night_uri@,
        r2.state == r1.state.flipped(),
        r2.day_uri@ == r1.day_uri@,
        r2.night_uri@ == r1.night_uri@,
    ensures
        r2.state == r0.state,
        r0.state is Day ==> r0.queued_uri() == r0.night_uri@,
        r0.state is Day ==> r1.queued_uri() == r0.day_uri@,
        r2.queued_uri() == r0.queued_uri(),
{
}

/// Law: once the delegation is revoked, no switch invocation can pass
/// validation, whatever accounts a stale or racing trigger supplies; the
/// record's phase therefore stays unchanged. When every earlier check holds,
/// it is the delegation step that rejects the invocation.
pub proof fn lemma_switch_after_revoke_fails(
    cfg: ProgramConfig,
    record: NightFury,
    sw: Switch,
    delegation: Delegation,
)
    requires
        !delegation.active,
    ensures
        switch_validate(cfg, record, sw, delegation) is Some,
        ({
            &&& sw.metadata.owner@ == cfg.token_metadata_program@
            &&& metadata_of(sw.metadata_bytes@) matches Some(md) && md.mint == sw.mint@
            &&& record.mint@ == sw.mint@
            &&& is_instructions_sysvar_key(sw.instructions_sysvar@)
        }) ==> switch_validate(cfg, record, sw, delegation) == Some(
            NightFuryError::InvalidDelegateInstruction,
        ),
{
}

} // verus!
