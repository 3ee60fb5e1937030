use vstd::prelude::*;

use crate::errors::NightFuryError;
use crate::ident::Identity;
use crate::state::{NightFury, MAX_URI_LENGTH};

verus! {

/// The accounts a day-URI update supplies.
#[derive(Clone, Copy, Debug)]
pub struct UpdateDayUri {
    /// The owning signer.
    pub authority: Identity,
}

/// The first check a day-URI update fails, or None when both hold: only the
/// owning authority may edit, and the new URI must fit the bound.
pub open spec fn update_day_uri_validate(
    record: NightFury,
    ix: UpdateDayUri,
    uri: Seq<u8>,
) -> Option<NightFuryError> {
    if ix.authority@ != record.authority@ {
        Some(NightFuryError::InvalidAuthority)
    } else if uri.len() > MAX_URI_LENGTH {
        Some(NightFuryError::UriTooLong)
    } else {
        None
    }
}

/// Overwrite the day URI without touching the phase or pushing a metadata
/// update: the new URI takes effect on the next switch that publishes the day
/// side.
pub fn process_update_day_uri(record: &mut NightFury, ix: &UpdateDayUri, uri: Vec<u8>) -> (r:
    Result<(), NightFuryError>)
    ensures
        r is Err <==> update_day_uri_validate(*old(record), *ix, uri@) is Some,
        r matches Err(e) ==> update_day_uri_validate(*old(record), *ix, uri@) == Some(e),
        r is Err ==> *final(record) == *old(record),
        r is Ok ==> final(record).day_uri@ == uri@,
        r is Ok ==> final(record).authority@ == old(record).authority@,
        r is Ok ==> final(record).mint@ == old(record).mint@,
        r is Ok ==> final(record).night_uri@ == old(record).night_uri@,
        r is Ok ==> final(record).state == old(record).state,
        r is Ok ==> final(record).thread@ == old(record).thread@,
        r is Ok ==> final(record).thread_id@ == old(record).thread_id@,
        r is Ok ==> final(record).bump == old(record).bump,
        old(record).wf() && r is Ok ==> final(record).wf(),
{
    if !(ix.authority == record.authority) {
        return Err(NightFuryError::InvalidAuthority);
    }
    if uri.len() > MAX_URI_LENGTH as usize {
        return Err(NightFuryError::UriTooLong);
    }
    record.day_uri = uri;
    Ok(())
}

} // verus!
