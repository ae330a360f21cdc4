//! Location records, the input that creates them, and the ways an operation fails.

use crate::timestamp::Timestamp;
use vstd::prelude::*;

verus! {

/// A latitude or longitude, held as the bits of its IEEE-754 double. No range
/// is imposed: every value is carried through unchanged.
#[derive(Clone, Copy, Debug, PartialEq, Eq, Structural)]
pub struct Coordinate {
    pub bits: u64,
}

/// What a client sends to create a record.
#[derive(Debug)]
pub struct LocationInput {
    pub source: String,
    pub latitude: Coordinate,
    pub longitude: Coordinate,
}

/// A stored record. The store assigns `id` and `created_at`.
#[derive(Debug)]
pub struct LocationRecord {
    pub id: i64,
    pub source: String,
    pub latitude: Coordinate,
    pub longitude: Coordinate,
    pub created_at: Timestamp,
}

impl Clone for LocationRecord {
    fn clone(&self) -> (r: Self)
        ensures
            r == *self,
    {
        LocationRecord {
            id: self.id,
            source: self.source.clone(),
            latitude: self.latitude,
            longitude: self.longitude,
            created_at: self.created_at,
        }
    }
}

/// A filter field whose text could not be read.
#[derive(Clone, Copy, Debug, PartialEq, Eq, Structural)]
pub enum FilterField {
    From,
    To,
}

/// Why an operation failed.
#[derive(Debug)]
pub enum LocationError {
    /// A source label breaks the label rule.
    InvalidInput,
    /// A non-empty filter field could not be read as its type; the reason.
    MalformedField(FilterField, String),
    /// The store failed; the cause, for the logs only.
    StorageFailure(String),
}

impl LocationError {
    /// The failure lies with the client's request, not with the store.
    pub open spec fn spec_is_client_error(&self) -> bool {
        !(self is StorageFailure)
    }

    /// The HTTP status that reports this failure: 400 for the client's
    /// mistakes, 500 for the store's.
    pub fn status_code(&self) -> (r: u16)
        ensures
            self.spec_is_client_error() ==> r == 400,
            !self.spec_is_client_error() ==> r == 500,
    {
        match self {
            LocationError::StorageFailure(_) => 500,
            _ => 400,
        }
    }
}

} // verus!
