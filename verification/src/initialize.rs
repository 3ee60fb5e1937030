use vstd::prelude::*;

use crate::accounts::{AccountView, Delegation, ProgramConfig, ThreadView, TokenAccountView};
use crate::chain::{master_edition_bytes_ok, metadata_of, parse_master_edition_v2, parse_metadata,
    pda_of};
use crate::derive::{derive_record_address, derive_thread_authority_address, record_seeds,
    thread_authority_seeds};
use crate::errors::NightFuryError;
use crate::ident::Identity;
use crate::state::{NightFury, NightFuryState, MAX_URI_LENGTH};

verus! {

/// The accounts an initialization invocation supplies.
#[derive(Clone, Debug)]
pub struct Initialize {
    /// The address the record is being created at, with its claimed bump.
    pub nightfury_key: Identity,
    pub bump: u8,
    /// The mint of the NFT to govern.
    pub mint: Identity,
    /// The owning signer's token account for that mint.
    pub token_account: TokenAccountView,
    /// The metadata account: its address and owning program.
    pub metadata: AccountView,
    /// The raw contents of the metadata account.
    pub metadata_bytes: Vec<u8>,
    /// The master edition account: its address and owning program.
    pub master_edition: AccountView,
    /// The raw contents of the master edition account.
    pub master_edition_bytes: Vec<u8>,
    /// The owning signer.
    pub authority: Identity,
    /// The automation account that will drive the toggle.
    pub thread: Identity,
    /// The sub-identity that will own the trigger, with its claimed bump.
    pub thread_authority_key: Identity,
    pub thread_authority_bump: u8,
    /// The authorization-rules account: its address and owning program.
    pub authorization_rules: AccountView,
    /// The account claimed to be the token-metadata program.
    pub token_metadata_program: Identity,
    /// The account claimed to be the authorization-rules program.
    pub authorization_rules_program: Identity,
}

/// Everything a successful initialization writes: the new record, the
/// delegation naming the automation identity as sole update delegate, and the
/// armed recurring trigger.
#[derive(Clone, Debug)]
pub struct InitializeEffects {
    pub record: NightFury,
    pub delegation: Delegation,
    pub trigger: ThreadView,
}

/// The cron expression a new trigger is armed with: a thirty-second cadence.
pub open spec fn default_cron_schedule() -> Seq<u8> {
    seq![
        42u8,
        47u8,
        51u8,
        48u8,
        32u8,
        42u8,
        32u8,
        42u8,
        32u8,
        42u8,
        32u8,
        42u8,
        32u8,
        42u8,
        32u8,
        42u8,
    ]
}

fn default_cron_bytes() -> (r: Vec<u8>)
    ensures
        r@ == default_cron_schedule(),
{
    let mut v: Vec<u8> = Vec::new();
    v.push(42);
    v.push(47);
    v.push(51);
    v.push(48);
    v.push(32);
    v.push(42);
    v.push(32);
    v.push(42);
    v.push(32);
    v.push(42);
    v.push(32);
    v.push(42);
    v.push(32);
    v.push(42);
    v.push(32);
    v.push(42);
    proof {
        assert(v@ =~= default_cron_schedule());
    }
    v
}

/// The first check an initialization fails, or None when all hold. The two
/// address checks mirror the host's account derivation; the rest run in the
/// order the invocation performs them, so the error kind names the first
/// violated precondition.
pub open spec fn initialize_validate(
    cfg: ProgramConfig,
    ix: Initialize,
    day_uri: Seq<u8>,
    night_uri: Seq<u8>,
) -> Option<NightFuryError> {
    if pda_of(cfg.program_id@, record_seeds(ix.mint@, ix.authority@)) != Some(
        (ix.nightfury_key@, ix.bump),
    ) {
        Some(NightFuryError::InvalidAuthority)
    } else if pda_of(cfg.program_id@, thread_authority_seeds(ix.nightfury_key@)) != Some(
        (ix.thread_authority_key@, ix.thread_authority_bump),
    ) {
        Some(NightFuryError::InvalidAuthority)
    } else if ix.authorization_rules.owner@ != cfg.auth_rules_program@ {
        Some(NightFuryError::InvalidAuthRulesProgram)
    } else if ix.authorization_rules_program@ != cfg.auth_rules_program@ {
        Some(NightFuryError::InvalidAuthRulesProgram)
    } else if ix.metadata.owner@ != cfg.token_metadata_program@ {
        Some(NightFuryError::InvalidMetadataAccount)
    } else {
        match metadata_of(ix.metadata_bytes@) {
            Option::None => Some(NightFuryError::InvalidMetadataAccount),
            Option::Some(md) => if ix.master_edition.owner@ != cfg.token_metadata_program@ {
                Some(NightFuryError::InvalidEditionAccount)
            } else if !master_edition_bytes_ok(ix.master_edition_bytes@) {
                Some(NightFuryError::InvalidEditionAccount)
            } else if ix.token_metadata_program@ != cfg.token_metadata_program@ {
                Some(NightFuryError::InvalidTokenMetadataProgram)
            } else if md.mint != ix.mint@ {
                Some(NightFuryError::InvalidMint)
            } else if ix.mint@ != ix.token_account.mint@ {
                Some(NightFuryError::InvalidMint)
            } else if day_uri.len() > MAX_URI_LENGTH {
                Some(NightFuryError::UriTooLong)
            } else if night_uri.len() > MAX_URI_LENGTH {
                Some(NightFuryError::UriTooLong)
            } else {
                None
            },
        }
    }
}

/// Validate the target NFT and the supplied programs, then produce everything
/// this invocation writes: a record in phase Day holding exactly the supplied
/// URIs, a delegation binding the automation identity, and a trigger armed
/// with the default schedule, owned by the derived sub-identity.
///
/// The host applies the effects only as a whole: a failure anywhere leaves no
/// orphaned record.
pub fn process_initialize(
    cfg: &ProgramConfig,
    ix: &Initialize,
    thread_id: Vec<u8>,
    day_uri: Vec<u8>,
    night_uri: Vec<u8>,
) -> (r: Result<InitializeEffects, NightFuryError>)
    requires
        thread_id@.len() <= u32::MAX,
    ensures
        r is Err <==> initialize_validate(*cfg, *ix, day_uri@, night_uri@) is Some,
        r matches Err(e) ==> initialize_validate(*cfg, *ix, day_uri@, night_uri@) == Some(e),
        r is Ok ==> Some((ix.nightfury_key@, ix.bump)) == pda_of(
            cfg.program_id@,
            record_seeds(ix.mint@, ix.authority@),
        ),
        r matches Ok(out) ==> ({
            &&& out.record.authority@ == ix.authority@
            &&& out.record.mint@ == ix.mint@
            &&& out.record.day_uri@ == day_uri@
            &&& out.record.night_uri@ == night_uri@
            &&& out.record.state == NightFuryState::Day
            &&& out.record.thread@ == ix.thread@
            &&& out.record.thread_id@ == thread_id@
            &&& out.record.bump == ix.bump
            &&& out.record.wf()
        }),
        r matches Ok(out) ==> ({
            &&& out.delegation.delegate@ == ix.thread@
            &&& out.delegation.mint@ == ix.mint@
            &&& out.delegation.authority@ == ix.authority@
            &&& out.delegation.active
        }),
        r matches Ok(out) ==> ({
            &&& out.trigger.key@ == ix.thread@
            &&& out.trigger.authority@ == ix.thread_authority_key@
            &&& out.trigger.id@ == thread_id@
            &&& out.trigger.schedule@ == default_cron_schedule()
            &&& out.trigger.active
        }),
{
    let derived_record = derive_record_address(&cfg.program_id, &ix.mint, &ix.authority);
    let record_key_ok: bool = match derived_record {
        Option::Some(p) => p.0 == ix.nightfury_key && p.1 == ix.bump,
        Option::None => false,
    };
    if !record_key_ok {
        return Err(NightFuryError::InvalidAuthority);
    }
    let derived_sub = derive_thread_authority_address(&cfg.program_id, &ix.nightfury_key);
    let sub_key_ok: bool = match derived_sub {
        Option::Some(p) => p.0 == ix.thread_authority_key && p.1 == ix.thread_authority_bump,
        Option::None => false,
    };
    if !sub_key_ok {
        return Err(NightFuryError::InvalidAuthority);
    }
    if !(ix.authorization_rules.owner == cfg.auth_rules_program) {
        return Err(NightFuryError::InvalidAuthRulesProgram);
    }
    if !(ix.authorization_rules_program == cfg.auth_rules_program) {
        return Err(NightFuryError::InvalidAuthRulesProgram);
    }
    if !(ix.metadata.owner == cfg.token_metadata_program) {
        return Err(NightFuryError::InvalidMetadataAccount);
    }
    let parsed = parse_metadata(&ix.metadata_bytes);
    match parsed {
        Option::None => Err(NightFuryError::InvalidMetadataAccount),
        Option::Some(md) => {
            if !(ix.master_edition.owner == cfg.token_metadata_program) {
                return Err(NightFuryError::InvalidEditionAccount);
            }
            if !parse_master_edition_v2(&ix.master_edition_bytes) {
                return Err(NightFuryError::InvalidEditionAccount);
            }
            if !(ix.token_metadata_program == cfg.token_metadata_program) {
                return Err(NightFuryError::InvalidTokenMetadataProgram);
            }
            if !(md.mint == ix.mint) {
                return Err(NightFuryError::InvalidMint);
            }
            if !(ix.mint == ix.token_account.mint) {
                return Err(NightFuryError::InvalidMint);
            }
            if day_uri.len() > MAX_URI_LENGTH as usize {
                return Err(NightFuryError::UriTooLong);
            }
            if night_uri.len() > MAX_URI_LENGTH as usize {
                return Err(NightFuryError::UriTooLong);
            }
            let trigger_id = thread_id.clone();
            let record = NightFury {
                authority: ix.authority,
                mint: ix.mint,
                day_uri,
                night_uri,
                state: NightFuryState::Day,
                thread: ix.thread,
                thread_id,
                bump: ix.bump,
            };
            let delegation = Delegation {
                delegate: ix.thread,
                mint: ix.mint,
                authority: ix.authority,
                active: true,
            };
            let trigger = ThreadView {
                key: ix.thread,
                authority: ix.thread_authority_key,
                id: trigger_id,
                schedule: default_cron_bytes(),
                active: true,
            };
            Ok(InitializeEffects { record, delegation, trigger })
        },
    }
}

} // verus!
