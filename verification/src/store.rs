use vstd::prelude::*;

use crate::accounts::ProgramConfig;
use crate::chain::pda_of;
use crate::derive::record_seeds;
use crate::errors::NightFuryError;
use crate::ident::Identity;
use crate::initialize::{initialize_validate, process_initialize, Initialize, InitializeEffects};
use crate::state::NightFury;

verus! {

/// The records of one deployment, keyed by their derived addresses: the
/// explicit model of the host's one-account-per-address discipline. A record
/// sits under exactly the address derived from its (mint, authority) pair, so
/// the pair can never own two records.
pub struct RecordStore {
    /// The program the record addresses are derived under.
    pub program_id: Identity,
    /// The records, each under its address.
    pub entries: Vec<(Identity, NightFury)>,
}

fn clone_record(r: &NightFury) -> (d: NightFury)
    ensures
        d@ == r@,
{
    let d = NightFury {
        authority: r.authority,
        mint: r.mint,
        day_uri: r.day_uri.clone(),
        night_uri: r.night_uri.clone(),
        state: r.state,
        thread: r.thread,
        thread_id: r.thread_id.clone(),
        bump: r.bump,
    };
    proof {
        assert(d.day_uri@ =~= r.day_uri@);
        assert(d.night_uri@ =~= r.night_uri@);
        assert(d.thread_id@ =~= r.thread_id@);
    }
    d
}

impl RecordStore {
    /// Addresses are distinct, every record is well-formed, and every record
    /// sits at the address derived from its own (mint, authority) pair.
    pub open spec fn wf(self) -> bool {
        &&& forall|i: int, j: int|
            0 <= i < j < self.entries@.len() ==> self.entries@[i].0@ != self.entries@[j].0@
        &&& forall|i: int| 0 <= i < self.entries@.len() ==> (#[trigger] self.entries@[i]).1.wf()
        &&& forall|i: int|
            0 <= i < self.entries@.len() ==> pda_of(
                self.program_id@,
                record_seeds((#[trigger] self.entries@[i]).1.mint@, self.entries@[i].1.authority@),
            ) == Some((self.entries@[i].0@, self.entries@[i].1.bump))
    }

    /// Whether a record already sits at this address.
    pub open spec fn contains_key(self, key: Seq<u8>) -> bool {
        exists|i: int| 0 <= i < self.entries@.len() && (#[trigger] self.entries@[i]).0@ == key
    }

    /// An empty store for one deployment.
    pub fn new(program_id: Identity) -> (r: RecordStore)
        ensures
            r.wf(),
            r.program_id@ == program_id@,
            r.entries@.len() == 0,
    {
        RecordStore { program_id, entries: Vec::new() }
    }

    fn contains(&self, key: &Identity) -> (r: bool)
        ensures
            r == self.contains_key(key@),
    {
        let mut i: usize = 0;
        while i < self.entries.len()
            invariant
                i <= self.entries@.len(),
                forall|j: int| 0 <= j < i ==> (#[trigger] self.entries@[j]).0@ != key@,
            decreases self.entries@.len() - i,
        {
            if self.entries[i].0 == *key {
                return true;
            }
            i += 1;
        }
        false
    }

    /// Run the initialization workflow against this store: validate, create
    /// the record at its derived address, and hand back everything the
    /// invocation writes. A record that already sits at that address rejects
    /// the invocation unchanged, so each (mint, authority) pair is initialized
    /// at most once.
    pub fn create(
        &mut self,
        cfg: &ProgramConfig,
        ix: &Initialize,
        thread_id: Vec<u8>,
        day_uri: Vec<u8>,
        night_uri: Vec<u8>,
    ) -> (r: Result<InitializeEffects, NightFuryError>)
        requires
            old(self).wf(),
            old(self).program_id@ == cfg.program_id@,
            thread_id@.len() <= u32::MAX,
        ensures
            final(self).wf(),
            final(self).program_id@ == old(self).program_id@,
            old(self).contains_key(ix.nightfury_key@) ==> (r == Err::<
                InitializeEffects,
                NightFuryError,
            >(NightFuryError::InvalidAuthority) && *final(self) == *old(self)),
            !old(self).contains_key(ix.nightfury_key@) ==> (r is Err <==> initialize_validate(
                *cfg,
                *ix,
                day_uri@,
                night_uri@,
            ) is Some),
            r is Err ==> *final(self) == *old(self),
            r matches Ok(out) ==> ({
                &&& final(self).entries@.len() == old(self).entries@.len() + 1
                &&& final(self).entries@.subrange(0, old(self).entries@.len() as int) == old(
                    self,
                ).entries@
                &&& final(self).entries@.last().0@ == ix.nightfury_key@
                &&& final(self).entries@.last().1@ == out.record@
                &&& final(self).contains_key(ix.nightfury_key@)
                &&& out.record.mint@ == ix.mint@
                &&& out.record.authority@ == ix.authority@
                &&& out.record.day_uri@ == day_uri@
                &&& out.record.night_uri@ == night_uri@
                &&& out.delegation.active
                &&& out.trigger.active
            }),
    {
        if self.contains(&ix.nightfury_key) {
            return Err(NightFuryError::InvalidAuthority);
        }
        match process_initialize(cfg, ix, thread_id, day_uri, night_uri) {
            Ok(out) => {
                let record = clone_record(&out.record);
                self.entries.push((ix.nightfury_key, record));
                proof {
                    let n = old(self).entries@.len() as int;
                    assert(self.entries@.subrange(0, n) =~= old(self).entries@);
                    assert(self.entries@[n].0@ == ix.nightfury_key@);
                    assert(self.contains_key(ix.nightfury_key@));
                }
                Ok(out)
            },
            Err(e) => Err(e),
        }
    }

    /// Look up the record at an address.
    pub fn get(&self, key: &Identity) -> (r: Option<&NightFury>)
        ensures
            r is Some <==> self.contains_key(key@),
            r matches Some(rec) ==> exists|i: int|
                0 <= i < self.entries@.len() && (#[trigger] self.entries@[i]).0@ == key@
                    && self.entries@[i].1 == *rec,
    {
        let mut i: usize = 0;
        while i < self.entries.len()
            invariant
                i <= self.entries@.len(),
                forall|j: int| 0 <= j < i ==> (#[trigger] self.entries@[j]).0@ != key@,
            decreases self.entries@.len() - i,
        {
            if self.entries[i].0 == *key {
                return Some(&self.entries[i].1);
            }
            i += 1;
        }
        None
    }

    /// Law: a well-formed store holds at most one record per (mint, authority)
    /// pair — the address derivation is deterministic, and addresses are
    /// unique, so two entries for the same pair are the same entry.
    pub proof fn lemma_one_record_per_pair(self, i: int, j: int)
        requires
            self.wf(),
            0 <= i < self.entries@.len(),
            0 <= j < self.entries@.len(),
            self.entries@[i].1.mint@ == self.entries@[j].1.mint@,
            self.entries@[i].1.authority@ == self.entries@[j].1.authority@,
        ensures
            i == j,
    {
        if i != j {
            assert(pda_of(
                self.program_id@,
                record_seeds(self.entries@[i].1.mint@, self.entries@[i].1.authority@),
            ) == Some((self.entries@[i].0@, self.entries@[i].1.bump)));
            assert(pda_of(
                self.program_id@,
                record_seeds(self.entries@[j].1.mint@, self.entries@[j].1.authority@),
            ) == Some((self.entries@[j].0@, self.entries@[j].1.bump)));
            assert(self.entries@[i].0@ == self.entries@[j].0@);
            assert(false);
        }
    }
}

} // verus!
