//! The persistent data model: a rental agreement binding a landlord and
//! a tenant, optionally brokered by an agent, with financial and date
//! terms and a lifecycle status.

use vstd::prelude::*;

verus! {

/// Lifecycle status of an agreement. Creation establishes `Draft`; no
/// transition out of it belongs to this core.
#[derive(Clone, Copy, Debug, PartialEq, Eq, Structural)]
pub enum AgreementStatus {
    Draft,
}

/// A stored rental agreement. Identities are opaque principal
/// identifiers; their authenticity is a concern of the host, not of
/// this core.
#[derive(Clone, Debug)]
pub struct RentAgreement {
    /// Caller-supplied unique identifier; immutable once stored.
    pub agreement_id: String,
    pub landlord: String,
    pub tenant: String,
    /// Present exactly when a broker is involved.
    pub agent: Option<String>,
    /// Strictly positive once validated.
    pub monthly_rent: i64,
    /// Accepted as given: no sign invariant is enforced.
    pub security_deposit: i64,
    /// Epoch-like timestamp; lies strictly before `end_date` once validated.
    pub start_date: i64,
    pub end_date: i64,
    /// Percentage in 0..=100 once validated.
    pub agent_commission_rate: i32,
    pub status: AgreementStatus,
}

/// The mathematical image of a stored agreement: every field as a plain
/// mathematical value.
pub ghost struct AgreementModel {
    pub agreement_id: Seq<char>,
    pub landlord: Seq<char>,
    pub tenant: Seq<char>,
    pub agent: Option<Seq<char>>,
    pub monthly_rent: int,
    pub security_deposit: int,
    pub start_date: int,
    pub end_date: int,
    pub agent_commission_rate: int,
    pub status: AgreementStatus,
}

/// The view of an optional identity: the identifier's characters, if one
/// is present.
pub open spec fn opt_id_view(agent: Option<String>) -> Option<Seq<char>> {
    match agent {
        Some(a) => Some(a@),
        None => None,
    }
}

impl View for RentAgreement {
    type V = AgreementModel;

    open spec fn view(&self) -> AgreementModel {
        AgreementModel {
            agreement_id: self.agreement_id@,
            landlord: self.landlord@,
            tenant: self.tenant@,
            agent: opt_id_view(self.agent),
            monthly_rent: self.monthly_rent as int,
            security_deposit: self.security_deposit as int,
            start_date: self.start_date as int,
            end_date: self.end_date as int,
            agent_commission_rate: self.agent_commission_rate as int,
            status: self.status,
        }
    }
}

/// The record that a successful creation stores: the supplied fields
/// with status `Draft`.
pub open spec fn made_record(
    agreement_id: Seq<char>,
    landlord: Seq<char>,
    tenant: Seq<char>,
    agent: Option<Seq<char>>,
    monthly_rent: int,
    security_deposit: int,
    start_date: int,
    end_date: int,
    agent_commission_rate: int,
) -> AgreementModel {
    AgreementModel {
        agreement_id: agreement_id,
        landlord: landlord,
        tenant: tenant,
        agent: agent,
        monthly_rent: monthly_rent,
        security_deposit: security_deposit,
        start_date: start_date,
        end_date: end_date,
        agent_commission_rate: agent_commission_rate,
        status: AgreementStatus::Draft,
    }
}

} // verus!
