mod accounts;
mod chain;
mod codec;
mod derive;
mod errors;
mod ident;
mod initialize;
mod revoke;
mod state;
mod store;
mod switch;
mod update;
mod update_day_uri;
mod update_night_uri;

pub use accounts::{
    AccountView, Delegation, MetadataModel, MetadataView, ProgramConfig, ThreadView,
    TokenAccountView,
};
pub use chain::{is_instructions_sysvar_key, master_edition_bytes_ok, metadata_of, pda_of};
pub use codec::{
    decode_record, decoded_record, encode_record, encoded_record, le32, le32_val,
    lemma_codec_canonical, lemma_codec_round_trip, lemma_le32_inverse, lemma_le32_round,
    record_tag, state_byte,
};
pub use derive::{
    derive_record_address, derive_thread_authority_address, lemma_record_address_unique,
    record_seed, record_seeds, thread_authority_seed, thread_authority_seeds,
};
pub use errors::NightFuryError;
pub use ident::Identity;
pub use initialize::{
    default_cron_schedule, initialize_validate, process_initialize, Initialize, InitializeEffects,
};
pub use revoke::{process_revoke, revoke_validate, Revoke};
pub use state::{NightFury, NightFuryState, MAX_URI_LENGTH};
pub use store::RecordStore;
pub use switch::{
    lemma_switch_after_revoke_fails, lemma_switch_round_trip, process_switch, switch_validate,
    with_uri, Switch,
};
pub use update::{process_update, update_validate, Update};
pub use update_day_uri::{process_update_day_uri, update_day_uri_validate, UpdateDayUri};
pub use update_night_uri::{process_update_night_uri, update_night_uri_validate, UpdateNightUri};

use vstd::prelude::*;

verus! {

/// Create a toggle record for an NFT, delegate metadata updates to the
/// automation identity, and arm the recurring trigger.
pub fn initialize(
    cfg: &ProgramConfig,
    ix: &Initialize,
    thread_id: Vec<u8>,
    day_uri: Vec<u8>,
    night_uri: Vec<u8>,
) -> (r: Result<InitializeEffects, NightFuryError>)
    requires
        thread_id@.len() <= u32::MAX,
    ensures
        r is Err <==> initialize_validate(*cfg, *ix, day_uri@, night_uri@) is Some,
        r matches Err(e) ==> initialize_validate(*cfg, *ix, day_uri@, night_uri@) == Some(e),
        r is Ok ==> Some((ix.nightfury_key@, ix.bump)) == pda_of(
            cfg.program_id@,
            record_seeds(ix.mint@, ix.authority@),
        ),
        r matches Ok(out) ==> ({
            &&& out.record.authority@ == ix.authority@
            &&& out.record.mint@ == ix.mint@
            &&& out.record.day_uri@ == day_uri@
            &&& out.record.night_uri@ == night_uri@
            &&& out.record.state == NightFuryState::Day
            &&& out.record.thread@ == ix.thread@
            &&& out.record.thread_id@ == thread_id@
            &&& out.record.bump == ix.bump
            &&& out.record.wf()
            &&& out.delegation.delegate@ == ix.thread@
            &&& out.delegation.mint@ == ix.mint@
            &&& out.delegation.authority@ == ix.authority@
            &&& out.delegation.active
            &&& out.trigger.key@ == ix.thread@
            &&& out.trigger.authority@ == ix.thread_authority_key@
            &&& out.trigger.id@ == thread_id@
            &&& out.trigger.schedule@ == default_cron_schedule()
            &&& out.trigger.active
        }),
{
    process_initialize(cfg, ix, thread_id, day_uri, night_uri)
}

/// Flip the phase and compute the metadata mutation that publishes the queued
/// URI.
pub fn switch(
    cfg: &ProgramConfig,
    record: &mut NightFury,
    sw: &Switch,
    delegation: &Delegation,
) -> (r: Result<MetadataView, NightFuryError>)
    ensures
        r is Err <==> switch_validate(*cfg, *old(record), *sw, *delegation) is Some,
        r matches Err(e) ==> switch_validate(*cfg, *old(record), *sw, *delegation) == Some(e),
        r is Err ==> *final(record) == *old(record),
        r is Ok ==> final(record).state == old(record).state.flipped(),
        r is Ok ==> final(record).authority@ == old(record).authority@,
        r is Ok ==> final(record).mint@ == old(record).mint@,
        r is Ok ==> final(record).day_uri@ == old(record).day_uri@,
        r is Ok ==> final(record).night_uri@ == old(record).night_uri@,
        r is Ok ==> final(record).thread@ == old(record).thread@,
        r is Ok ==> final(record).thread_id@ == old(record).thread_id@,
        r is Ok ==> final(record).bump == old(record).bump,
        r matches Ok(m) ==> (metadata_of(sw.metadata_bytes@) matches Some(md) && m@ == with_uri(
            md,
            old(record).queued_uri(),
        )),
{
    process_switch(cfg, record, sw, delegation)
}

/// Overwrite the day URI, owner-authorized.
pub fn update_day_uri(record: &mut NightFury, ix: &UpdateDayUri, uri: Vec<u8>) -> (r: Result<
    (),
    NightFuryError,
>)
    ensures
        r is Err <==> update_day_uri_validate(*old(record), *ix, uri@) is Some,
        r matches Err(e) ==> update_day_uri_validate(*old(record), *ix, uri@) == Some(e),
        r is Err ==> *final(record) == *old(record),
        r is Ok ==> final(record).day_uri@ == uri@,
        r is Ok ==> final(record).night_uri@ == old(record).night_uri@,
        r is Ok ==> final(record).state == old(record).state,
{
    process_update_day_uri(record, ix, uri)
}

/// Overwrite the night URI, owner-authorized.
pub fn update_night_uri(record: &mut NightFury, ix: &UpdateNightUri, uri: Vec<u8>) -> (r: Result<
    (),
    NightFuryError,
>)
    ensures
        r is Err <==> update_night_uri_validate(*old(record), *ix, uri@) is Some,
        r matches Err(e) ==> update_night_uri_validate(*old(record), *ix, uri@) == Some(e),
        r is Err ==> *final(record) == *old(record),
        r is Ok ==> final(record).night_uri@ == uri@,
        r is Ok ==> final(record).day_uri@ == old(record).day_uri@,
        r is Ok ==> final(record).state == old(record).state,
{
    process_update_night_uri(record, ix, uri)
}

/// Permanently stop the cycle: revoke the delegation, then delete the trigger.
pub fn revoke(
    cfg: &ProgramConfig,
    record: &NightFury,
    rv: &Revoke,
    delegation: &mut Delegation,
    trigger: &mut ThreadView,
) -> (r: Result<(), NightFuryError>)
    ensures
        r is Err <==> revoke_validate(*cfg, *record, *rv, *old(delegation), *old(trigger))
            is Some,
        r matches Err(e) ==> revoke_validate(*cfg, *record, *rv, *old(delegation), *old(trigger))
            == Some(e),
        r is Err ==> *final(delegation) == *old(delegation),
        r is Err ==> *final(trigger) == *old(trigger),
        r is Ok ==> !final(delegation).active,
        r is Ok ==> !final(trigger).active,
{
    process_revoke(cfg, record, rv, delegation, trigger)
}

/// Replace the trigger's cron schedule, owner-authorized.
pub fn update(
    cfg: &ProgramConfig,
    record: &NightFury,
    up: &Update,
    trigger: &mut ThreadView,
    schedule: Vec<u8>,
) -> (r: Result<(), NightFuryError>)
    ensures
        r is Err <==> update_validate(*cfg, *record, *up, *old(trigger)) is Some,
        r matches Err(e) ==> update_validate(*cfg, *record, *up, *old(trigger)) == Some(e),
        r is Err ==> *final(trigger) == *old(trigger),
        r is Ok ==> final(trigger).schedule@ == schedule@,
        r is Ok ==> final(trigger).active == old(trigger).active,
{
    process_update(cfg, record, up, trigger, schedule)
}

} // verus!

