//! The location service: recording and querying locations in a store that
//! keeps the records in memory, in the order of their creation.

use crate::filter::LocationFilter;
use crate::label::{is_valid_label, LabelValidator};
use crate::record::{LocationError, LocationInput, LocationRecord};
use crate::timestamp::Timestamp;
use vstd::prelude::*;

verus! {

/// The records of `rows` that the filter admits, in their order.
pub open spec fn spec_query(rows: Seq<LocationRecord>, filter: LocationFilter) -> Seq<
    LocationRecord,
>
    decreases rows.len(),
{
    if rows.len() == 0 {
        Seq::empty()
    } else {
        let earlier = spec_query(rows.drop_last(), filter);
        if filter.admits(rows.last()) {
            earlier.push(rows.last())
        } else {
            earlier
        }
    }
}

/// The filter's source, if present, is a valid label.
pub open spec fn filter_source_valid(filter: LocationFilter) -> bool {
    filter.source is None || is_valid_label(filter.source->0@)
}

/// Checks the input of a record operation before the store is touched.
pub fn check_input(v: &LabelValidator, input: &LocationInput) -> (r: Result<(), LocationError>)
    requires
        v.well_formed(),
    ensures
        r is Ok <==> is_valid_label(input.source@),
        r is Err ==> r->Err_0 is InvalidInput,
{
    if v.is_valid(input.source.as_str()) {
        Ok(())
    } else {
        Err(LocationError::InvalidInput)
    }
}

/// Checks a filter before the store is scanned: a present source must be a
/// valid label.
pub fn check_filter(v: &LabelValidator, filter: &LocationFilter) -> (r: Result<(), LocationError>)
    requires
        v.well_formed(),
    ensures
        r is Ok <==> filter_source_valid(*filter),
        r is Err ==> r->Err_0 is InvalidInput,
{
    match &filter.source {
        Some(s) => if v.is_valid(s.as_str()) {
            Ok(())
        } else {
            Err(LocationError::InvalidInput)
        },
        None => Ok(()),
    }
}

/// Turns a store's answer into the operation's outcome: any failure of the
/// store is a storage failure that carries its cause.
pub fn store_outcome<T>(answer: Result<T, String>) -> (r: Result<T, LocationError>)
    ensures
        answer is Ok ==> r is Ok && r->Ok_0 == answer->Ok_0,
        answer is Err ==> r is Err && r->Err_0 == LocationError::StorageFailure(answer->Err_0),
{
    match answer {
        Ok(v) => Ok(v),
        Err(cause) => Err(LocationError::StorageFailure(cause)),
    }
}

/// A store that keeps every record in memory. Records are only appended; the
/// record at position `i` has id `i + 1`.
pub struct LocationStore {
    rows: Vec<LocationRecord>,
}

impl View for LocationStore {
    type V = Seq<LocationRecord>;

    closed spec fn view(&self) -> Seq<LocationRecord> {
        self.rows@
    }
}

impl LocationStore {
    /// Ids follow the order of creation, starting at 1.
    pub open spec fn well_formed(&self) -> bool {
        forall|i: int| 0 <= i < self@.len() ==> (#[trigger] self@[i]).id == i + 1
    }

    pub fn new() -> (r: LocationStore)
        ensures
            r@ == Seq::<LocationRecord>::empty(),
            r.well_formed(),
    {
        LocationStore { rows: Vec::new() }
    }

    /// The number of stored records.
    pub fn len(&self) -> (r: usize)
        ensures
            r == self@.len(),
    {
        self.rows.len()
    }

    /// Records a location at time `now`. An invalid source is refused with no
    /// change; a store whose ids are used up fails with a storage failure.
    /// Otherwise the new record is appended and returned, with an id above
    /// every earlier one.
    pub fn record(&mut self, v: &LabelValidator, input: LocationInput, now: Timestamp) -> (r:
        Result<LocationRecord, LocationError>)
        requires
            old(self).well_formed(),
            v.well_formed(),
        ensures
            final(self).well_formed(),
            r is Ok <==> is_valid_label(input.source@) && old(self)@.len() < i64::MAX,
            !is_valid_label(input.source@) ==> r is Err && r->Err_0 is InvalidInput,
            is_valid_label(input.source@) && r is Err ==> r->Err_0 is StorageFailure,
            r is Err ==> final(self)@ == old(self)@,
            r is Ok ==> {
                let rec = r->Ok_0;
                &&& rec.source == input.source
                &&& rec.latitude == input.latitude
                &&& rec.longitude == input.longitude
                &&& rec.created_at == now
                &&& rec.id == old(self)@.len() + 1
                &&& forall|i: int| 0 <= i < old(self)@.len() ==> #[trigger] old(self)@[i].id < rec.id
                &&& final(self)@ == old(self)@.push(rec)
            },
    {
        match check_input(v, &input) {
            Ok(()) => {},
            Err(e) => return Err(e),
        }
        let n = self.rows.len();
        if n as u64 >= i64::MAX as u64 {
            return Err(LocationError::StorageFailure("record ids are exhausted".to_owned()));
        }
        let rec = LocationRecord {
            id: n as i64 + 1,
            source: input.source,
            latitude: input.latitude,
            longitude: input.longitude,
            created_at: now,
        };
        self.rows.push(rec.clone());
        Ok(rec)
    }

    /// The stored records that the filter admits, in order of creation; a
    /// present source that is not a valid label is refused.
    pub fn query(&self, v: &LabelValidator, filter: &LocationFilter) -> (r: Result<
        Vec<LocationRecord>,
        LocationError,
    >)
        requires
            v.well_formed(),
        ensures
            r is Ok <==> filter_source_valid(*filter),
            r is Err ==> r->Err_0 is InvalidInput,
            r is Ok ==> r->Ok_0@ == spec_query(self@, *filter),
    {
        match check_filter(v, filter) {
            Ok(()) => {},
            Err(e) => return Err(e),
        }
        let mut out: Vec<LocationRecord> = Vec::new();
        let mut i: usize = 0;
        while i < self.rows.len()
            invariant
                i <= self.rows@.len(),
                out@ == spec_query(self.rows@.subrange(0, i as int), *filter),
            decreases self.rows@.len() - i,
        {
            let rec = &self.rows[i];
            proof {
                assert(self.rows@.subrange(0, i + 1).drop_last() =~= self.rows@.subrange(
                    0,
                    i as int,
                ));
            }
            let keep = filter.matches(rec);
            if keep {
                out.push(rec.clone());
            }
            i += 1;
        }
        proof {
            assert(self.rows@.subrange(0, self.rows@.len() as int) =~= self.rows@);
        }
        Ok(out)
    }
}

/// A query returns exactly the stored records that its filter admits.
pub proof fn lemma_query_exact(rows: Seq<LocationRecord>, filter: LocationFilter)
    ensures
        forall|x: LocationRecord| #[trigger]
            spec_query(rows, filter).contains(x) <==> rows.contains(x) && filter.admits(x),
    decreases rows.len(),
{
    if rows.len() > 0 {
        let init = rows.drop_last();
        lemma_query_exact(init, filter);
        assert(rows =~= init.push(rows.last()));
        let earlier = spec_query(init, filter);
        assert forall|x: LocationRecord| #[trigger]
            spec_query(rows, filter).contains(x) <==> rows.contains(x) && filter.admits(x) by {
            if filter.admits(rows.last()) {
                assert(spec_query(rows, filter) == earlier.push(rows.last()));
                if earlier.contains(x) {
                    let k = choose|k: int| 0 <= k < earlier.len() && earlier[k] == x;
                    assert(spec_query(rows, filter)[k] == x);
                }
                if spec_query(rows, filter).contains(x) && x != rows.last() {
                    let k = choose|k: int|
                        0 <= k < spec_query(rows, filter).len() && spec_query(rows, filter)[k]
                            == x;
                    assert(earlier[k] == x);
                }
                assert(spec_query(rows, filter)[earlier.len() as int] == rows.last());
            }
            if rows.contains(x) && x != rows.last() {
                let k = choose|k: int| 0 <= k < rows.len() && rows[k] == x;
                assert(init[k] == x);
            }
            if init.contains(x) {
                let k = choose|k: int| 0 <= k < init.len() && init[k] == x;
                assert(rows[k] == x);
            }
            assert(rows[rows.len() - 1] == rows.last());
        }
    }
}

/// A query whose filter has no predicate returns every stored record, each
/// once, in order of creation.
pub proof fn lemma_unfiltered_query_returns_all(rows: Seq<LocationRecord>, filter: LocationFilter)
    requires
        filter.source is None,
        filter.from is None,
        filter.to is None,
    ensures
        spec_query(rows, filter) == rows,
    decreases rows.len(),
{
    if rows.len() > 0 {
        lemma_unfiltered_query_returns_all(rows.drop_last(), filter);
        assert(rows =~= rows.drop_last().push(rows.last()));
    }
}

/// A query by source alone returns the records with that source and no other.
pub proof fn lemma_source_query(rows: Seq<LocationRecord>, filter: LocationFilter, source: String)
    requires
        filter.source == Some(source),
        filter.from is None,
        filter.to is None,
    ensures
        forall|x: LocationRecord| #[trigger]
            spec_query(rows, filter).contains(x) <==> rows.contains(x) && x.source@ == source@,
{
    lemma_query_exact(rows, filter);
}

/// A query by a time range alone returns the records created within it, both
/// bounds included, and none created outside it.
pub proof fn lemma_time_range_query(
    rows: Seq<LocationRecord>,
    filter: LocationFilter,
    from: Timestamp,
    to: Timestamp,
)
    requires
        filter.source is None,
        filter.from == Some(from),
        filter.to == Some(to),
    ensures
        forall|x: LocationRecord| #[trigger]
            spec_query(rows, filter).contains(x) <==> rows.contains(x) && from.spec_not_after(
                x.created_at,
            ) && x.created_at.spec_not_after(to),
{
    lemma_query_exact(rows, filter);
}

/// A record appended to the store is found again by a query whose bounds are
/// both its creation time.
pub proof fn lemma_round_trip(
    before: Seq<LocationRecord>,
    rec: LocationRecord,
    filter: LocationFilter,
)
    requires
        filter.source is None,
        filter.from == Some(rec.created_at),
        filter.to == Some(rec.created_at),
    ensures
        spec_query(before.push(rec), filter).contains(rec),
{
    lemma_query_exact(before.push(rec), filter);
    assert(before.push(rec)[before.len() as int] == rec);
}

/// In a well-formed store no two records share an id.
pub proof fn lemma_ids_distinct(store: &LocationStore)
    requires
        store.well_formed(),
    ensures
        forall|i: int, j: int|
            0 <= i < store@.len() && 0 <= j < store@.len() && i != j ==> #[trigger] store@[i].id
                != #[trigger] store@[j].id,
{
}

} // verus!
