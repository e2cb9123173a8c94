//! The library's laws: properties of the creation pipeline that relate
//! several operations, stated and proved over the store's model.

use vstd::prelude::*;

use crate::agreement::{made_record, AgreementModel, AgreementStatus};
use crate::store::{
    contains_id, creation_outcome, lemma_lookup_first_match, lookup, AgreementStore,
};
use crate::validation::{spec_validate, Error};

verus! {

/// Idempotent rejection of duplicates: once a creation with some
/// identifier has succeeded and left its record behind, repeating the
/// very same call is rejected with `DuplicateAgreement`. Together with
/// `create_agreement`'s guarantee that a failing call leaves the store
/// untouched, the state after both calls equals the state after the
/// first alone.
pub proof fn lemma_idempotent_duplicate_rejection(
    records: Seq<AgreementModel>,
    id: Seq<char>,
    stored: AgreementModel,
    monthly_rent: int,
    start_date: int,
    end_date: int,
    agent_commission_rate: int,
)
    requires
        creation_outcome(records, id, monthly_rent, start_date, end_date, agent_commission_rate)
            == Ok::<(), Error>(()),
        stored.agreement_id == id,
    ensures
        creation_outcome(
            records.push(stored),
            id,
            monthly_rent,
            start_date,
            end_date,
            agent_commission_rate,
        ) == Err::<(), Error>(Error::DuplicateAgreement),
{
    assert(records.push(stored)[records.len() as int].agreement_id == id);
}

/// Validation precedes persistence: a field set that fails a validation
/// check decides the whole creation attempt with that check's error,
/// whatever is stored. Since `create_agreement` leaves the store
/// untouched on every error, no record is written and the counter keeps
/// its prior value.
pub proof fn lemma_validation_precedes_persistence(
    records: Seq<AgreementModel>,
    id: Seq<char>,
    monthly_rent: int,
    start_date: int,
    end_date: int,
    agent_commission_rate: int,
    e: Error,
)
    requires
        spec_validate(monthly_rent, start_date, end_date, agent_commission_rate)
            == Err::<(), Error>(e),
    ensures
        creation_outcome(records, id, monthly_rent, start_date, end_date, agent_commission_rate)
            == Err::<(), Error>(e),
{
}

/// Counter monotonicity: in every well-formed store the counter equals
/// exactly the number of successfully created agreements. Each
/// successful creation pushes one record and raises the counter by one,
/// and `create_agreement` never lowers it, so after N distinct valid
/// creations on a fresh store the counter is exactly N.
pub proof fn lemma_counter_counts_creations(s: AgreementStore)
    requires
        s.wf(),
    ensures
        s.count() == s.records().len(),
{
}

/// Optional agent round-trip: a creation with a fresh identifier leaves
/// under that identifier exactly the record it made, whose `agent`
/// field is precisely the supplied one — present or absent.
pub proof fn lemma_agent_round_trip(
    records: Seq<AgreementModel>,
    id: Seq<char>,
    landlord: Seq<char>,
    tenant: Seq<char>,
    agent: Option<Seq<char>>,
    monthly_rent: int,
    security_deposit: int,
    start_date: int,
    end_date: int,
    agent_commission_rate: int,
)
    requires
        !contains_id(records, id),
    ensures
        ({
            let stored = made_record(
                id,
                landlord,
                tenant,
                agent,
                monthly_rent,
                security_deposit,
                start_date,
                end_date,
                agent_commission_rate,
            );
            &&& lookup(records.push(stored), id) == Some(stored)
            &&& stored.agent == agent
        }),
{
    let stored = made_record(
        id,
        landlord,
        tenant,
        agent,
        monthly_rent,
        security_deposit,
        start_date,
        end_date,
        agent_commission_rate,
    );
    let extended = records.push(stored);
    assert forall|j: int| 0 <= j < records.len() implies (#[trigger] extended[j]).agreement_id
        != id by {
        assert(extended[j] == records[j]);
    }
    lemma_lookup_first_match(extended, id, records.len() as int);
}

/// Status initialization: in every well-formed store every stored
/// agreement sits in status `Draft`.
pub proof fn lemma_every_record_is_draft(s: AgreementStore, i: int)
    requires
        s.wf(),
        0 <= i < s.records().len(),
    ensures
        s.records()[i].status == AgreementStatus::Draft,
{
}

} // verus!
