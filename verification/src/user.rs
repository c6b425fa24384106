//! Players of the game.

use vstd::prelude::*;
use crate::loan::Loan;
use crate::ship::Ship;
use crate::timestamp::Timestamp;

verus! {

/// A player's account, as the service reports it.
#[derive(Debug, Clone, PartialEq, Eq)]
pub struct User {
    pub id: String,
    pub username: String,
    pub credits: i64,
    pub ships: Vec<Ship>,
    pub loans: Vec<Loan>,
    pub created_at: Timestamp,
    pub updated_at: Timestamp,
    pub email: Option<String>,
    pub picture: Option<String>,
}

} // verus!
