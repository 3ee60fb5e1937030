use vstd::prelude::*;

use crate::ident::Identity;

verus! {

/// The two-valued phase of a toggle. The phase names the URI that will be
/// written by the next switch: in `Day` the night URI is queued, in `Night`
/// the day URI is queued.
#[derive(Clone, Copy, Debug, PartialEq, Eq, Structural)]
pub enum NightFuryState {
    Day,
    Night,
}

impl NightFuryState {
    /// The opposite phase.
    pub open spec fn flipped(self) -> NightFuryState {
        match self {
            NightFuryState::Day => NightFuryState::Night,
            NightFuryState::Night => NightFuryState::Day,
        }
    }

    /// Flip Day to Night and Night to Day.
    pub fn flip(self) -> (r: NightFuryState)
        ensures
            r == self.flipped(),
    {
        match self {
            NightFuryState::Day => NightFuryState::Night,
            NightFuryState::Night => NightFuryState::Day,
        }
    }
}

/// Flipping a phase twice returns to the starting phase.
pub proof fn lemma_flip_involutive(s: NightFuryState)
    ensures
        s.flipped().flipped() == s,
{
}

/// The persistent toggle record: the two candidate URIs, the current phase,
/// and the identities bound to this toggle at creation.
#[derive(Clone, Debug)]
pub struct NightFury {
    /// The party permitted to administer this record.
    pub authority: Identity,
    /// The NFT this record governs; immutable after creation.
    pub mint: Identity,
    /// The URI displayed during the day, at most `MAX_URI_LENGTH` bytes.
    pub day_uri: Vec<u8>,
    /// The URI displayed during the night, at most `MAX_URI_LENGTH` bytes.
    pub night_uri: Vec<u8>,
    /// Which URI will be written by the next switch.
    pub state: NightFuryState,
    /// The recurring-trigger account driving this toggle.
    pub thread: Identity,
    /// The byte tag the trigger account was created under.
    pub thread_id: Vec<u8>,
    /// The bump seed proving the record address derivation.
    pub bump: u8,
}

pub const MAX_URI_LENGTH: u16 = 256;

impl NightFury {
    /// Space reserved for a serialized record.
    pub const LENGTH: usize = 8 + 32 + 256 + 256 + 3 + 1;

    /// Both URIs fit the bound and the trigger tag fits a 32-bit length prefix.
    pub open spec fn wf(self) -> bool {
        &&& self.day_uri@.len() <= MAX_URI_LENGTH
        &&& self.night_uri@.len() <= MAX_URI_LENGTH
        &&& self.thread_id@.len() <= u32::MAX
    }

    /// The URI the next successful switch will publish.
    pub open spec fn queued_uri(self) -> Seq<u8> {
        match self.state {
            NightFuryState::Day => self.night_uri@,
            NightFuryState::Night => self.day_uri@,
        }
    }
}

/// The mathematical shape of a toggle record.
pub struct RecordModel {
    pub authority: Seq<u8>,
    pub mint: Seq<u8>,
    pub day_uri: Seq<u8>,
    pub night_uri: Seq<u8>,
    pub state: NightFuryState,
    pub thread: Seq<u8>,
    pub thread_id: Seq<u8>,
    pub bump: u8,
}

impl RecordModel {
    /// The identities are 32 bytes, the URIs fit the bound, and the trigger
    /// tag fits a 32-bit length prefix.
    pub open spec fn wf(self) -> bool {
        &&& self.authority.len() == 32
        &&& self.mint.len() == 32
        &&& self.thread.len() == 32
        &&& self.day_uri.len() <= MAX_URI_LENGTH
        &&& self.night_uri.len() <= MAX_URI_LENGTH
        &&& self.thread_id.len() <= u32::MAX
    }
}

impl View for NightFury {
    type V = RecordModel;

    open spec fn view(&self) -> RecordModel {
        RecordModel {
            authority: self.authority@,
            mint: self.mint@,
            day_uri: self.day_uri@,
            night_uri: self.night_uri@,
            state: self.state,
            thread: self.thread@,
            thread_id: self.thread_id@,
            bump: self.bump,
        }
    }
}

} // verus!
