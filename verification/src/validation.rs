//! The validator: pure structural and business checks on proposed
//! agreement terms, evaluated in a fixed order with the first failure
//! winning.

use vstd::prelude::*;

verus! {

/// The error taxonomy of the creation pipeline. Every failing call
/// reports exactly one of these to the caller.
#[derive(Clone, Copy, Debug, PartialEq, Eq, Structural)]
pub enum Error {
    /// The monthly rent was not strictly positive.
    InvalidRent,
    /// The end date did not lie strictly after the start date.
    InvalidDateRange,
    /// The agent commission rate lay outside 0..=100.
    InvalidCommissionRate,
    /// An agreement with the same identifier is already stored.
    DuplicateAgreement,
}

/// The validator's verdict on a proposed field set: the checks run in a
/// fixed order (rent, then dates, then commission rate) and the first
/// violated one names the error.
pub open spec fn spec_validate(
    monthly_rent: int,
    start_date: int,
    end_date: int,
    agent_commission_rate: int,
) -> Result<(), Error> {
    if monthly_rent <= 0 {
        Err(Error::InvalidRent)
    } else if end_date <= start_date {
        Err(Error::InvalidDateRange)
    } else if agent_commission_rate < 0 || agent_commission_rate > 100 {
        Err(Error::InvalidCommissionRate)
    } else {
        Ok(())
    }
}

/// Checks the proposed terms, short-circuiting on the first violation;
/// no side effects.
pub fn validate(
    monthly_rent: i64,
    start_date: i64,
    end_date: i64,
    agent_commission_rate: i32,
) -> (r: Result<(), Error>)
    ensures
        r == spec_validate(
            monthly_rent as int,
            start_date as int,
            end_date as int,
            agent_commission_rate as int,
        ),
{
    if monthly_rent <= 0 {
        Err(Error::InvalidRent)
    } else if end_date <= start_date {
        Err(Error::InvalidDateRange)
    } else if agent_commission_rate < 0 || agent_commission_rate > 100 {
        Err(Error::InvalidCommissionRate)
    } else {
        Ok(())
    }
}

} // verus!
