use vstd::prelude::*;

use crate::accounts::{ProgramConfig, ThreadView};
use crate::chain::pda_of;
use crate::derive::{derive_record_address, derive_thread_authority_address, record_seeds,
    thread_authority_seeds};
use crate::errors::NightFuryError;
use crate::ident::Identity;
use crate::state::NightFury;

verus! {

/// The accounts a schedule-update invocation supplies.
#[derive(Clone, Copy, Debug)]
pub struct Update {
    /// The owning signer.
    pub authority: Identity,
    /// The mint bound to the record.
    pub mint: Identity,
    /// The trigger account being re-armed.
    pub thread: Identity,
    /// The address of the record being administered.
    pub nightfury_key: Identity,
}

/// The first check a schedule update fails, or None when all hold: the same
/// structural bindings revocation demands, and a trigger that still exists.
pub open spec fn update_validate(
    cfg: ProgramConfig,
    record: NightFury,
    up: Update,
    trigger: ThreadView,
) -> Option<NightFuryError> {
    if up.authority@ != record.authority@ {
        Some(NightFuryError::InvalidAuthority)
    } else if up.mint@ != record.mint@ {
        Some(NightFuryError::InvalidAuthority)
    } else if up.thread@ != record.thread@ {
        Some(NightFuryError::InvalidAuthority)
    } else if trigger.key@ != record.thread@ {
        Some(NightFuryError::InvalidAuthority)
    } else if pda_of(cfg.program_id@, record_seeds(record.mint@, record.authority@)) != Some(
        (up.nightfury_key@, record.bump),
    ) {
        Some(NightFuryError::InvalidAuthority)
    } else if !(match pda_of(cfg.program_id@, thread_authority_seeds(up.nightfury_key@)) {
        Option::Some(p) => p.0 == trigger.authority@,
        Option::None => false,
    }) {
        Some(NightFuryError::InvalidAuthority)
    } else if !trigger.active {
        Some(NightFuryError::InvalidAuthority)
    } else {
        None
    }
}

/// Replace the trigger's recurrence expression with a new cron schedule,
/// authorized by the owning authority; nothing else about the trigger or the
/// record changes.
pub fn process_update(
    cfg: &ProgramConfig,
    record: &NightFury,
    up: &Update,
    trigger: &mut ThreadView,
    schedule: Vec<u8>,
) -> (r: Result<(), NightFuryError>)
    ensures
        r is Err <==> update_validate(*cfg, *record, *up, *old(trigger)) is Some,
        r matches Err(e) ==> update_validate(*cfg, *record, *up, *old(trigger)) == Some(e),
        r is Err ==> *final(trigger) == *old(trigger),
        r is Ok ==> final(trigger).schedule@ == schedule@,
        r is Ok ==> final(trigger).key@ == old(trigger).key@,
        r is Ok ==> final(trigger).authority@ == old(trigger).authority@,
        r is Ok ==> final(trigger).id@ == old(trigger).id@,
        r is Ok ==> final(trigger).active == old(trigger).active,
{
    if !(up.authority == record.authority) {
        return Err(NightFuryError::InvalidAuthority);
    }
    if !(up.mint == record.mint) {
        return Err(NightFuryError::InvalidAuthority);
    }
    if !(up.thread == record.thread) {
        return Err(NightFuryError::InvalidAuthority);
    }
    if !(trigger.key == record.thread) {
        return Err(NightFuryError::InvalidAuthority);
    }
    let derived_record = derive_record_address(&cfg.program_id, &record.mint, &record.authority);
    let record_key_ok: bool = match derived_record {
        Option::Some(p) => p.0 == up.nightfury_key && p.1 == record.bump,
        Option::None => false,
    };
    if !record_key_ok {
        return Err(NightFuryError::InvalidAuthority);
    }
    let derived_sub = derive_thread_authority_address(&cfg.program_id, &up.nightfury_key);
    let sub_ok: bool = match derived_sub {
        Option::Some(p) => p.0 == trigger.authority,
        Option::None => false,
    };
    if !sub_ok {
        return Err(NightFuryError::InvalidAuthority);
    }
    if !trigger.active {
        return Err(NightFuryError::InvalidAuthority);
    }
    trigger.schedule = schedule;
    Ok(())
}

} // verus!
