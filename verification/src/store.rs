//! The agreement store: keyed persistence with uniqueness enforcement,
//! a running creation counter, and a log of creation events.
//!
//! The store models the ledger's key-value storage as a sequence of
//! records with pairwise-distinct identifiers, the `AgreementCount`
//! slot as an explicit counter field, and the host's event facility as
//! an append-only event log.

use vstd::prelude::*;

use crate::agreement::{made_record, opt_id_view, AgreementModel, AgreementStatus, RentAgreement};
use crate::validation::{spec_validate, validate, Error};

verus! {

/// The topic tag carried by every creation event.
pub open spec fn created_topic() -> Seq<char> {
    "agreement_created_event"@
}

/// One creation notification: its topic tag and the identifier of the
/// agreement whose creation it announces.
#[derive(Clone, Debug)]
pub struct CreationEvent {
    pub topic: String,
    pub agreement_id: String,
}

/// The mathematical image of a creation event.
pub ghost struct EventModel {
    pub topic: Seq<char>,
    pub agreement_id: Seq<char>,
}

impl View for CreationEvent {
    type V = EventModel;

    open spec fn view(&self) -> EventModel {
        EventModel { topic: self.topic@, agreement_id: self.agreement_id@ }
    }
}

/// Whether some stored record carries the given identifier.
pub open spec fn contains_id(records: Seq<AgreementModel>, id: Seq<char>) -> bool {
    exists|i: int| 0 <= i < records.len() && (#[trigger] records[i]).agreement_id == id
}

/// The first stored record carrying the given identifier, if any.
pub open spec fn lookup(records: Seq<AgreementModel>, id: Seq<char>) -> Option<AgreementModel>
    decreases records.len(),
{
    if records.len() == 0 {
        None
    } else if records[0].agreement_id == id {
        Some(records[0])
    } else {
        lookup(records.drop_first(), id)
    }
}

/// A record a creation is allowed to leave behind: status `Draft` and
/// terms that pass every validation check.
pub open spec fn valid_stored(m: AgreementModel) -> bool {
    &&& m.status == AgreementStatus::Draft
    &&& spec_validate(m.monthly_rent, m.start_date, m.end_date, m.agent_commission_rate)
        == Ok::<(), Error>(())
}

/// The verdict of one creation attempt, given whether the identifier is
/// already taken: validation first, first failure winning, then the
/// uniqueness check.
pub open spec fn creation_outcome_plan(
    already_stored: bool,
    monthly_rent: int,
    start_date: int,
    end_date: int,
    agent_commission_rate: int,
) -> Result<(), Error> {
    match spec_validate(monthly_rent, start_date, end_date, agent_commission_rate) {
        Err(e) => Err(e),
        Ok(_) => if already_stored {
            Err(Error::DuplicateAgreement)
        } else {
            Ok(())
        },
    }
}

/// The verdict of one creation attempt against the given stored records.
pub open spec fn creation_outcome(
    records: Seq<AgreementModel>,
    id: Seq<char>,
    monthly_rent: int,
    start_date: int,
    end_date: int,
    agent_commission_rate: int,
) -> Result<(), Error> {
    creation_outcome_plan(
        contains_id(records, id),
        monthly_rent,
        start_date,
        end_date,
        agent_commission_rate,
    )
}

/// Decides one creation attempt from plain values: whether the
/// identifier is already taken, the counter's current value, and the
/// proposed fields. On success it hands back the record to persist
/// (status `Draft`) and the counter's next value; it mutates nothing.
pub fn plan_creation(
    already_stored: bool,
    counter: u32,
    agreement_id: String,
    landlord: String,
    tenant: String,
    agent: Option<String>,
    monthly_rent: i64,
    security_deposit: i64,
    start_date: i64,
    end_date: i64,
    agent_commission_rate: i32,
) -> (r: Result<(RentAgreement, u32), Error>)
    requires
        counter < u32::MAX,
    ensures
        match r {
            Ok(p) => {
                &&& creation_outcome_plan(
                    already_stored,
                    monthly_rent as int,
                    start_date as int,
                    end_date as int,
                    agent_commission_rate as int,
                ) == Ok::<(), Error>(())
                &&& p.0@ == made_record(
                    agreement_id@,
                    landlord@,
                    tenant@,
                    opt_id_view(agent),
                    monthly_rent as int,
                    security_deposit as int,
                    start_date as int,
                    end_date as int,
                    agent_commission_rate as int,
                )
                &&& p.1 == counter + 1
            },
            Err(e) => creation_outcome_plan(
                already_stored,
                monthly_rent as int,
                start_date as int,
                end_date as int,
                agent_commission_rate as int,
            ) == Err::<(), Error>(e),
        },
{
    match validate(monthly_rent, start_date, end_date, agent_commission_rate) {
        Err(e) => Err(e),
        Ok(_) => {
            if already_stored {
                Err(Error::DuplicateAgreement)
            } else {
                let record = RentAgreement {
                    agreement_id: agreement_id,
                    landlord: landlord,
                    tenant: tenant,
                    agent: agent,
                    monthly_rent: monthly_rent,
                    security_deposit: security_deposit,
                    start_date: start_date,
                    end_date: end_date,
                    agent_commission_rate: agent_commission_rate,
                    status: AgreementStatus::Draft,
                };
                Ok((record, counter + 1))
            }
        },
    }
}

/// Keyed agreement storage with its running creation counter and its
/// event log. Creation is the only mutation: records are never deleted
/// or overwritten.
pub struct AgreementStore {
    agreements: Vec<RentAgreement>,
    counter: u32,
    events: Vec<CreationEvent>,
}

impl AgreementStore {
    /// The stored records, in order of creation.
    pub closed spec fn records(self) -> Seq<AgreementModel> {
        self.agreements@.map_values(|a: RentAgreement| a@)
    }

    /// The running creation counter.
    pub closed spec fn count(self) -> u32 {
        self.counter
    }

    /// The creation events emitted so far, in order of emission.
    pub closed spec fn event_log(self) -> Seq<EventModel> {
        self.events@.map_values(|e: CreationEvent| e@)
    }

    /// The store's invariant: the counter counts the stored records,
    /// identifiers are pairwise distinct, every record passed
    /// validation and sits in status `Draft`, and the event log holds
    /// exactly one creation event per record, in creation order.
    pub open spec fn wf(self) -> bool {
        &&& self.count() == self.records().len()
        &&& self.event_log().len() == self.records().len()
        &&& forall|i: int|
            0 <= i < self.records().len() ==> valid_stored(#[trigger] self.records()[i])
        &&& forall|i: int, j: int|
            #![trigger self.records()[i].agreement_id, self.records()[j].agreement_id]
            0 <= i < self.records().len() && 0 <= j < self.records().len() && i != j
                ==> self.records()[i].agreement_id != self.records()[j].agreement_id
        &&& forall|i: int|
            0 <= i < self.event_log().len() ==> {
                &&& (#[trigger] self.event_log()[i]).topic == created_topic()
                &&& self.event_log()[i].agreement_id == self.records()[i].agreement_id
            }
    }

    /// A fresh store: nothing stored, counter zero, no event emitted.
    pub fn new() -> (s: AgreementStore)
        ensures
            s.wf(),
            s.records() == Seq::<AgreementModel>::empty(),
            s.count() == 0,
            s.event_log() == Seq::<EventModel>::empty(),
    {
        let s = AgreementStore { agreements: Vec::new(), counter: 0, events: Vec::new() };
        proof {
            assert(s.records() =~= Seq::<AgreementModel>::empty());
            assert(s.event_log() =~= Seq::<EventModel>::empty());
        }
        s
    }

    /// Whether an agreement with the given identifier is stored.
    pub fn contains_agreement(&self, agreement_id: &String) -> (b: bool)
        ensures
            b == contains_id(self.records(), agreement_id@),
    {
        let mut i: usize = 0;
        while i < self.agreements.len()
            invariant
                0 <= i <= self.agreements.len(),
                forall|j: int|
                    0 <= j < i ==> (#[trigger] self.records()[j]).agreement_id != agreement_id@,
            decreases self.agreements.len() - i,
        {
            if self.agreements[i].agreement_id == *agreement_id {
                assert(self.records()[i as int].agreement_id == agreement_id@);
                return true;
            }
            i = i + 1;
        }
        false
    }

    /// Persists one already-validated agreement: rejects a taken
    /// identifier with no mutation at all; otherwise stores the record
    /// with status `Draft`, increments the counter by exactly one, and
    /// only then emits one creation event.
    pub fn create(
        &mut self,
        agreement_id: String,
        landlord: String,
        tenant: String,
        agent: Option<String>,
        monthly_rent: i64,
        security_deposit: i64,
        start_date: i64,
        end_date: i64,
        agent_commission_rate: i32,
    ) -> (r: Result<(), Error>)
        requires
            old(self).wf(),
            old(self).count() < u32::MAX,
            spec_validate(
                monthly_rent as int,
                start_date as int,
                end_date as int,
                agent_commission_rate as int,
            ) == Ok::<(), Error>(()),
        ensures
            final(self).wf(),
            r == (if contains_id(old(self).records(), agreement_id@) {
                Err::<(), Error>(Error::DuplicateAgreement)
            } else {
                Ok::<(), Error>(())
            }),
            r is Err ==> *final(self) == *old(self),
            r is Ok ==> final(self).records() == old(self).records().push(
                made_record(
                    agreement_id@,
                    landlord@,
                    tenant@,
                    opt_id_view(agent),
                    monthly_rent as int,
                    security_deposit as int,
                    start_date as int,
                    end_date as int,
                    agent_commission_rate as int,
                ),
            ),
            r is Ok ==> final(self).count() == old(self).count() + 1,
            r is Ok ==> final(self).event_log() == old(self).event_log().push(
                EventModel { topic: created_topic(), agreement_id: agreement_id@ },
            ),
    {
        let already_stored = self.contains_agreement(&agreement_id);
        let event_id = agreement_id.clone();
        match plan_creation(
            already_stored,
            self.counter,
            agreement_id,
            landlord,
            tenant,
            agent,
            monthly_rent,
            security_deposit,
            start_date,
            end_date,
            agent_commission_rate,
        ) {
            Err(e) => Err(e),
            Ok(p) => {
                let (record, next_count) = p;
                let ghost pre = *self;
                let ghost m = record@;
                self.agreements.push(record);
                self.counter = next_count;
                self.events.push(
                    CreationEvent {
                        topic: String::from_str("agreement_created_event"),
                        agreement_id: event_id,
                    },
                );
                proof {
                    assert(self.records() =~= pre.records().push(m));
                    assert(self.event_log() =~= pre.event_log().push(
                        EventModel { topic: created_topic(), agreement_id: m.agreement_id },
                    ));
                    assert forall|i: int, j: int|
                        #![trigger self.records()[i].agreement_id, self.records()[j].agreement_id]
                        0 <= i < self.records().len() && 0 <= j < self.records().len() && i != j
                            implies self.records()[i].agreement_id
                            != self.records()[j].agreement_id by {
                        if i == pre.records().len() {
                            assert(self.records()[j] == pre.records()[j]);
                        } else if j == pre.records().len() {
                            assert(self.records()[i] == pre.records()[i]);
                        }
                    }
                }
                Ok(())
            },
        }
    }

    /// Runs the validator on the proposed terms, then delegates to the
    /// store: the full creation endpoint. On any failure the specific
    /// error is reported and the store is left exactly as it was.
    pub fn create_agreement(
        &mut self,
        agreement_id: String,
        landlord: String,
        tenant: String,
        agent: Option<String>,
        monthly_rent: i64,
        security_deposit: i64,
        start_date: i64,
        end_date: i64,
        agent_commission_rate: i32,
    ) -> (r: Result<(), Error>)
        requires
            old(self).wf(),
            old(self).count() < u32::MAX,
        ensures
            final(self).wf(),
            r == creation_outcome(
                old(self).records(),
                agreement_id@,
                monthly_rent as int,
                start_date as int,
                end_date as int,
                agent_commission_rate as int,
            ),
            r is Err ==> *final(self) == *old(self),
            final(self).count() >= old(self).count(),
            r is Ok ==> final(self).records() == old(self).records().push(
                made_record(
                    agreement_id@,
                    landlord@,
                    tenant@,
                    opt_id_view(agent),
                    monthly_rent as int,
                    security_deposit as int,
                    start_date as int,
                    end_date as int,
                    agent_commission_rate as int,
                ),
            ),
            r is Ok ==> final(self).count() == old(self).count() + 1,
            r is Ok ==> final(self).event_log() == old(self).event_log().push(
                EventModel { topic: created_topic(), agreement_id: agreement_id@ },
            ),
    {
        match validate(monthly_rent, start_date, end_date, agent_commission_rate) {
            Err(e) => Err(e),
            Ok(_) => self.create(
                agreement_id,
                landlord,
                tenant,
                agent,
                monthly_rent,
                security_deposit,
                start_date,
                end_date,
                agent_commission_rate,
            ),
        }
    }

    /// The counter's current value: the number of successful creations.
    pub fn agreement_count(&self) -> (n: u32)
        ensures
            n == self.count(),
    {
        self.counter
    }

    /// The stored agreement under the given identifier, if any.
    pub fn get_agreement(&self, agreement_id: &String) -> (r: Option<&RentAgreement>)
        ensures
            match r {
                Some(a) => lookup(self.records(), agreement_id@) == Some(a@),
                None => lookup(self.records(), agreement_id@) is None,
            },
    {
        let mut i: usize = 0;
        while i < self.agreements.len()
            invariant
                0 <= i <= self.agreements.len(),
                forall|j: int|
                    0 <= j < i ==> (#[trigger] self.records()[j]).agreement_id != agreement_id@,
            decreases self.agreements.len() - i,
        {
            if self.agreements[i].agreement_id == *agreement_id {
                proof {
                    lemma_lookup_first_match(self.records(), agreement_id@, i as int);
                }
                return Some(&self.agreements[i]);
            }
            i = i + 1;
        }
        proof {
            lemma_lookup_none(self.records(), agreement_id@);
        }
        None
    }

    /// The creation events emitted so far, in order of emission.
    pub fn events(&self) -> (r: &Vec<CreationEvent>)
        ensures
            r@.len() == self.event_log().len(),
            forall|i: int| 0 <= i < r@.len() ==> (#[trigger] r@[i])@ == self.event_log()[i],
    {
        &self.events
    }
}

/// `lookup` finds exactly the first match: if nothing before position
/// `i` carries the identifier and position `i` does, the lookup yields
/// that record.
pub proof fn lemma_lookup_first_match(records: Seq<AgreementModel>, id: Seq<char>, i: int)
    requires
        0 <= i < records.len(),
        forall|j: int| 0 <= j < i ==> (#[trigger] records[j]).agreement_id != id,
        records[i].agreement_id == id,
    ensures
        lookup(records, id) == Some(records[i]),
    decreases i,
{
    if i > 0 {
        lemma_lookup_first_match(records.drop_first(), id, i - 1);
    }
}

/// `lookup` misses exactly when no record carries the identifier.
pub proof fn lemma_lookup_none(records: Seq<AgreementModel>, id: Seq<char>)
    requires
        forall|j: int| 0 <= j < records.len() ==> (#[trigger] records[j]).agreement_id != id,
    ensures
        lookup(records, id) is None,
    decreases records.len(),
{
    if records.len() > 0 {
        lemma_lookup_none(records.drop_first(), id);
    }
}

} // verus!
