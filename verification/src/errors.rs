//! The error taxonomy of the data-access core.

use vstd::prelude::*;
use vstd::string::StringExecFns;
use crate::text::{dec_digits, u32_to_dec};

verus! {

/// What a repository operation can fail with.
#[derive(Debug, Clone, PartialEq, Eq)]
pub enum FetchError {
    /// A failure surfaced by the underlying engine or driver (syntax error,
    /// constraint violation, connectivity loss, decode mismatch), carried as
    /// its message. A statement that cannot be built at all, such as an
    /// insert with an empty field map, is rejected with this variant too,
    /// since the engine would have refused the malformed statement anyway.
    QueryFailure(String),
    /// A whole-table fetch succeeded but returned zero rows; zero rows is an
    /// error for that operation, never an empty sequence.
    NoRecordsFound(String),
    /// A fetch by id matched no row.
    NoRecordFound(u32),
}

/// The diagnostic message of an error.
pub open spec fn message_of(e: FetchError) -> Seq<char> {
    match e {
        FetchError::QueryFailure(cause) => "Database query failed: "@ + cause@,
        FetchError::NoRecordsFound(table) => "No records found in table "@ + table@,
        FetchError::NoRecordFound(id) => "No record found with id "@ + dec_digits(id as nat),
    }
}

impl FetchError {
    /// The diagnostic message, as a caller would print it.
    pub fn message(&self) -> (m: String)
        ensures
            m@ == message_of(*self),
    {
        match self {
            FetchError::QueryFailure(cause) => {
                let mut m = "Database query failed: ".to_owned();
                m.append(cause.as_str());
                m
            },
            FetchError::NoRecordsFound(table) => {
                let mut m = "No records found in table ".to_owned();
                m.append(table.as_str());
                m
            },
            FetchError::NoRecordFound(id) => {
                let mut m = "No record found with id ".to_owned();
                let digits = u32_to_dec(*id);
                m.append(digits.as_str());
                m
            },
        }
    }
}

} // verus!
