use vstd::prelude::*;

use crate::accounts::{Delegation, ProgramConfig, ThreadView};
use crate::chain::pda_of;
use crate::derive::{derive_record_address, derive_thread_authority_address, record_seeds,
    thread_authority_seeds};
use crate::errors::NightFuryError;
use crate::ident::Identity;
use crate::state::NightFury;

verus! {

/// The accounts a revocation invocation supplies.
#[derive(Clone, Copy, Debug)]
pub struct Revoke {
    /// The owning signer.
    pub authority: Identity,
    /// The mint bound to the record.
    pub mint: Identity,
    /// The trigger account being torn down.
    pub thread: Identity,
    /// The address of the record being administered.
    pub nightfury_key: Identity,
}

/// The first check a revocation fails, or None when all hold: the supplied
/// authority, mint and trigger must all match the record's bindings, the
/// record must sit at its derived address, the trigger must be owned by the
/// record's derived sub-identity, and the delegation being revoked must still
/// be the one initialization created.
pub open spec fn revoke_validate(
    cfg: ProgramConfig,
    record: NightFury,
    rv: Revoke,
    delegation: Delegation,
    trigger: ThreadView,
) -> Option<NightFuryError> {
    if rv.authority@ != record.authority@ {
        Some(NightFuryError::InvalidAuthority)
    } else if rv.mint@ != record.mint@ {
        Some(NightFuryError::InvalidAuthority)
    } else if rv.thread@ != record.thread@ {
        Some(NightFuryError::InvalidAuthority)
    } else if trigger.key@ != record.thread@ {
        Some(NightFuryError::InvalidAuthority)
    } else if pda_of(cfg.program_id@, record_seeds(record.mint@, record.authority@)) != Some(
        (rv.nightfury_key@, record.bump),
    ) {
        Some(NightFuryError::InvalidAuthority)
    } else if !(match pda_of(cfg.program_id@, thread_authority_seeds(rv.nightfury_key@)) {
        Option::Some(p) => p.0 == trigger.authority@,
        Option::None => false,
    }) {
        Some(NightFuryError::InvalidAuthority)
    } else if !(delegation.active && delegation.delegate@ == record.thread@ && delegation.mint@
        == record.mint@) {
        Some(NightFuryError::InvalidDelegateInstruction)
    } else {
        None
    }
}

/// Permanently stop the cycle: revoke the automation identity's update
/// capability, then delete the trigger. The delegation is revoked first, so a
/// trigger firing that races the revocation fails the switch validation
/// cleanly instead of mutating metadata on stale authority.
pub fn process_revoke(
    cfg: &ProgramConfig,
    record: &NightFury,
    rv: &Revoke,
    delegation: &mut Delegation,
    trigger: &mut ThreadView,
) -> (r: Result<(), NightFuryError>)
    ensures
        r is Err <==> revoke_validate(*cfg, *record, *rv, *old(delegation), *old(trigger))
            is Some,
        r matches Err(e) ==> revoke_validate(*cfg, *record, *rv, *old(delegation), *old(trigger))
            == Some(e),
        r is Err ==> *final(delegation) == *old(delegation),
        r is Err ==> *final(trigger) == *old(trigger),
        r is Ok ==> !final(delegation).active,
        r is Ok ==> final(delegation).delegate@ == old(delegation).delegate@,
        r is Ok ==> final(delegation).mint@ == old(delegation).mint@,
        r is Ok ==> final(delegation).authority@ == old(delegation).authority@,
        r is Ok ==> !final(trigger).active,
        r is Ok ==> final(trigger).key@ == old(trigger).key@,
        r is Ok ==> final(trigger).authority@ == old(trigger).authority@,
        r is Ok ==> final(trigger).id@ == old(trigger).id@,
        r is Ok ==> final(trigger).schedule@ == old(trigger).schedule@,
{
    if !(rv.authority == record.authority) {
        return Err(NightFuryError::InvalidAuthority);
    }
    if !(rv.mint == record.mint) {
        return Err(NightFuryError::InvalidAuthority);
    }
    if !(rv.thread == record.thread) {
        return Err(NightFuryError::InvalidAuthority);
    }
    if !(trigger.key == record.thread) {
        return Err(NightFuryError::InvalidAuthority);
    }
    let derived_record = derive_record_address(&cfg.program_id, &record.mint, &record.authority);
    let record_key_ok: bool = match derived_record {
        Option::Some(p) => p.0 == rv.nightfury_key && p.1 == record.bump,
        Option::None => false,
    };
    if !record_key_ok {
        return Err(NightFuryError::InvalidAuthority);
    }
    let derived_sub = derive_thread_authority_address(&cfg.program_id, &rv.nightfury_key);
    let sub_ok: bool = match derived_sub {
        Option::Some(p) => p.0 == trigger.authority,
        Option::None => false,
    };
    if !sub_ok {
        return Err(NightFuryError::InvalidAuthority);
    }
    if !(delegation.active && delegation.delegate == record.thread && delegation.mint
        == record.mint) {
        return Err(NightFuryError::InvalidDelegateInstruction);
    }
    delegation.active = false;
    trigger.active = false;
    Ok(())
}

} // verus!
