//! Request validation, filter construction and an in-memory record store for
//! a service that ingests geographic locations tagged with a source label.

mod filter;
mod label;
mod record;
mod store;
mod timestamp;

pub use filter::{
    empty_string_as_none, spec_empty_string_as_none, time_field, time_field_readable,
    time_field_value, LocationFilter, RawFilter,
};
pub use label::{is_label_char, is_valid_label, label_pattern, LabelValidator, LABEL_PATTERN};
pub use record::{Coordinate, FilterField, LocationError, LocationInput, LocationRecord};
pub use store::{
    check_filter, check_input, filter_source_valid, lemma_ids_distinct, lemma_query_exact,
    lemma_round_trip, lemma_source_query, lemma_time_range_query,
    lemma_unfiltered_query_returns_all, spec_query, store_outcome, LocationStore,
};
pub use timestamp::{parsed_timestamp, Timestamp};
