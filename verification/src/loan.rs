//! Loans taken out with the service.

use vstd::prelude::*;
use crate::timestamp::Timestamp;

verus! {

/// A loan, as the service reports it.
#[derive(Debug, Clone, PartialEq, Eq)]
pub struct Loan {
    pub id: String,
    pub repayment_amount: i64,
    pub status: String,
    pub kind: String,
    pub due: Timestamp,
}

} // verus!
