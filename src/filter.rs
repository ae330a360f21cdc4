//! Filters over stored records: reading them from raw request fields, and
//! deciding which records they admit.

use crate::record::{FilterField, LocationError, LocationRecord};
use crate::timestamp::{parsed_timestamp, Timestamp};
use vstd::prelude::*;

verus! {

/// Filter fields as they arrive: each may be missing or empty.
#[derive(Debug)]
pub struct RawFilter {
    pub source: Option<String>,
    pub from: Option<String>,
    pub to: Option<String>,
}

/// Three independent predicates, each absent or present: the exact source, and
/// inclusive lower and upper bounds on the creation time.
#[derive(Debug)]
pub struct LocationFilter {
    pub source: Option<String>,
    pub from: Option<Timestamp>,
    pub to: Option<Timestamp>,
}

/// A missing or empty field is absent; any other text is present.
pub open spec fn spec_empty_string_as_none(raw: Option<String>) -> Option<String> {
    if raw is Some && raw->0@.len() > 0 {
        raw
    } else {
        None
    }
}

/// A raw time field is readable when it is absent or its text parses.
pub open spec fn time_field_readable(raw: Option<String>) -> bool {
    spec_empty_string_as_none(raw) is None || parsed_timestamp(
        spec_empty_string_as_none(raw)->0@,
    ) is Some
}

/// The bound that a readable raw time field gives.
pub open spec fn time_field_value(raw: Option<String>) -> Option<Timestamp> {
    if spec_empty_string_as_none(raw) is None {
        None
    } else {
        parsed_timestamp(spec_empty_string_as_none(raw)->0@)
    }
}

/// Maps a missing or empty field to `None`, so that "not given" is never read
/// as "given and empty".
pub fn empty_string_as_none(raw: Option<String>) -> (r: Option<String>)
    ensures
        r == spec_empty_string_as_none(raw),
{
    match raw {
        Some(s) => {
            if s.as_str().is_empty() {
                None
            } else {
                Some(s)
            }
        },
        None => None,
    }
}

/// Reads an optional time field: absent when missing or empty, otherwise it
/// must parse, or the field is reported as malformed.
pub fn time_field(raw: Option<String>, field: FilterField) -> (r: Result<
    Option<Timestamp>,
    LocationError,
>)
    ensures
        r is Ok <==> time_field_readable(raw),
        r is Ok ==> r->Ok_0 == time_field_value(raw),
        r is Err ==> r->Err_0 is MalformedField && r->Err_0->MalformedField_0 == field,
{
    match empty_string_as_none(raw) {
        None => Ok(None),
        Some(text) => match Timestamp::parse(text.as_str()) {
            Ok(t) => Ok(Some(t)),
            Err(reason) => Err(LocationError::MalformedField(field, reason)),
        },
    }
}

impl LocationFilter {
    /// The record satisfies every present predicate.
    pub open spec fn admits(&self, r: LocationRecord) -> bool {
        &&& (self.source is None || r.source@ == self.source->0@)
        &&& (self.from is None || self.from->0.spec_not_after(r.created_at))
        &&& (self.to is None || r.created_at.spec_not_after(self.to->0))
    }

    /// The filter with no predicate, which admits every record.
    pub fn all() -> (r: LocationFilter)
        ensures
            r.source is None && r.from is None && r.to is None,
    {
        LocationFilter { source: None, from: None, to: None }
    }

    /// Normalizes raw fields: empty or missing fields become absent, and
    /// present time fields must parse (`from` is read first).
    pub fn from_raw(raw: RawFilter) -> (r: Result<LocationFilter, LocationError>)
        ensures
            r is Ok <==> time_field_readable(raw.from) && time_field_readable(raw.to),
            r is Ok ==> r->Ok_0.source == spec_empty_string_as_none(raw.source) && r->Ok_0.from
                == time_field_value(raw.from) && r->Ok_0.to == time_field_value(raw.to),
            r is Err ==> r->Err_0 is MalformedField,
            r is Err && !time_field_readable(raw.from) ==> r->Err_0->MalformedField_0
                == FilterField::From,
            r is Err && time_field_readable(raw.from) ==> r->Err_0->MalformedField_0
                == FilterField::To,
    {
        let source = empty_string_as_none(raw.source);
        let from = match time_field(raw.from, FilterField::From) {
            Ok(t) => t,
            Err(e) => return Err(e),
        };
        let to = match time_field(raw.to, FilterField::To) {
            Ok(t) => t,
            Err(e) => return Err(e),
        };
        Ok(LocationFilter { source, from, to })
    }

    /// Whether the record satisfies every present predicate.
    pub fn matches(&self, r: &LocationRecord) -> (b: bool)
        ensures
            b == self.admits(*r),
    {
        let source_ok = match &self.source {
            Some(s) => *s == r.source,
            None => true,
        };
        let from_ok = match &self.from {
            Some(t) => t.not_after(&r.created_at),
            None => true,
        };
        let to_ok = match &self.to {
            Some(t) => r.created_at.not_after(t),
            None => true,
        };
        source_ok && from_ok && to_ok
    }
}

} // verus!
