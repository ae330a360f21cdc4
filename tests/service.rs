use location_service::{
    check_filter, check_input, store_outcome, Coordinate, LabelValidator, LocationError,
    LocationFilter, LocationInput, LocationStore, Timestamp,
};

fn input(source: &str, lat: f64, lon: f64) -> LocationInput {
    LocationInput {
        source: source.to_string(),
        latitude: Coordinate { bits: lat.to_bits() },
        longitude: Coordinate { bits: lon.to_bits() },
    }
}

fn at(second: u32) -> Timestamp {
    Timestamp::new(738887, second, 0)
}

#[test]
fn record_returns_fresh_ids_and_creation_time() {
    let v = LabelValidator::new();
    let mut store = LocationStore::new();
    let a = store.record(&v, input("gps", 51.5, -0.12), at(10)).unwrap();
    let b = store.record(&v, input("gps", 51.6, -0.13), at(20)).unwrap();
    assert_eq!(a.id, 1);
    assert_eq!(b.id, 2);
    assert_eq!(a.source, "gps");
    assert_eq!(f64::from_bits(a.latitude.bits), 51.5);
    assert_eq!(f64::from_bits(a.longitude.bits), -0.12);
    assert_eq!(a.created_at, at(10));
    assert_eq!(b.created_at, at(20));
    assert_eq!(store.len(), 2);
}

#[test]
fn record_keeps_out_of_range_coordinates() {
    let v = LabelValidator::new();
    let mut store = LocationStore::new();
    let r = store.record(&v, input("gps", 123.0, -500.0), at(1)).unwrap();
    assert_eq!(f64::from_bits(r.latitude.bits), 123.0);
    assert_eq!(f64::from_bits(r.longitude.bits), -500.0);
}

#[test]
fn record_with_bad_source_changes_nothing() {
    let v = LabelValidator::new();
    let mut store = LocationStore::new();
    store.record(&v, input("gps", 1.0, 2.0), at(1)).unwrap();
    let r = store.record(&v, input("bad!source", 1.0, 2.0), at(2));
    assert!(matches!(r, Err(LocationError::InvalidInput)));
    assert_eq!(r.unwrap_err().status_code(), 400);
    let all = store.query(&v, &LocationFilter::all()).unwrap();
    assert_eq!(all.len(), 1);
    assert_eq!(all[0].source, "gps");
}

#[test]
fn unfiltered_query_returns_every_row_once() {
    let v = LabelValidator::new();
    let mut store = LocationStore::new();
    for (i, s) in ["gps", "wifi", "gps", "cell"].iter().enumerate() {
        store.record(&v, input(s, i as f64, 0.0), at(i as u32)).unwrap();
    }
    let all = store.query(&v, &LocationFilter::all()).unwrap();
    let ids: Vec<i64> = all.iter().map(|r| r.id).collect();
    assert_eq!(ids, vec![1, 2, 3, 4]);
}

#[test]
fn empty_store_query_is_success() {
    let v = LabelValidator::new();
    let store = LocationStore::new();
    assert!(store.query(&v, &LocationFilter::all()).unwrap().is_empty());
}

#[test]
fn source_query_returns_exactly_that_source() {
    let v = LabelValidator::new();
    let mut store = LocationStore::new();
    for (i, s) in ["gps", "wifi", "gps", "cell", "gps"].iter().enumerate() {
        store.record(&v, input(s, 0.0, 0.0), at(i as u32)).unwrap();
    }
    let f = LocationFilter { source: Some("gps".to_string()), from: None, to: None };
    let rows = store.query(&v, &f).unwrap();
    let ids: Vec<i64> = rows.iter().map(|r| r.id).collect();
    assert_eq!(ids, vec![1, 3, 5]);
    assert!(rows.iter().all(|r| r.source == "gps"));
}

#[test]
fn query_with_bad_source_is_refused() {
    let v = LabelValidator::new();
    let store = LocationStore::new();
    let f = LocationFilter { source: Some("bad!source".to_string()), from: None, to: None };
    assert!(matches!(store.query(&v, &f), Err(LocationError::InvalidInput)));
    assert!(matches!(check_filter(&v, &f), Err(LocationError::InvalidInput)));
    assert!(check_filter(&v, &LocationFilter::all()).is_ok());
}

#[test]
fn time_range_query_includes_both_bounds() {
    let v = LabelValidator::new();
    let mut store = LocationStore::new();
    for s in [5u32, 10, 15, 20, 25] {
        store.record(&v, input("gps", 0.0, 0.0), at(s)).unwrap();
    }
    let f = LocationFilter { source: None, from: Some(at(10)), to: Some(at(20)) };
    let rows = store.query(&v, &f).unwrap();
    let seconds: Vec<u32> = rows.iter().map(|r| r.created_at.second).collect();
    assert_eq!(seconds, vec![10, 15, 20]);
}

#[test]
fn round_trip_on_creation_time() {
    let v = LabelValidator::new();
    let mut store = LocationStore::new();
    let t = Timestamp::parse("2024-01-02T03:04:05").unwrap();
    store.record(&v, input("gps", 0.0, 0.0), at(1)).unwrap();
    let rec = store.record(&v, input("wifi", 3.0, 4.0), t).unwrap();
    let f = LocationFilter { source: None, from: Some(t), to: Some(t) };
    let rows = store.query(&v, &f).unwrap();
    assert_eq!(rows.len(), 1);
    assert_eq!(rows[0].id, rec.id);
    assert_eq!(rows[0].source, "wifi");
}

#[test]
fn many_records_get_distinct_ids() {
    let v = LabelValidator::new();
    let mut store = LocationStore::new();
    let n = 50;
    let mut ids = Vec::new();
    for i in 0..n {
        let name = format!("device {}", i);
        ids.push(store.record(&v, input(&name, i as f64, 0.0), at(7)).unwrap().id);
    }
    ids.sort();
    ids.dedup();
    assert_eq!(ids.len(), n);
    assert_eq!(store.query(&v, &LocationFilter::all()).unwrap().len(), n);
}

#[test]
fn input_check_matches_label_rule() {
    let v = LabelValidator::new();
    assert!(check_input(&v, &input("gps", 0.0, 0.0)).is_ok());
    assert!(matches!(check_input(&v, &input("", 0.0, 0.0)), Err(LocationError::InvalidInput)));
}

#[test]
fn store_failures_are_server_errors() {
    let ok: Result<u8, String> = Ok(3);
    assert_eq!(store_outcome(ok).unwrap(), 3);
    let failed: Result<u8, String> = Err("disk full".to_string());
    match store_outcome(failed) {
        Err(e) => {
            assert_eq!(e.status_code(), 500);
            assert!(matches!(e, LocationError::StorageFailure(ref c) if c == "disk full"));
        }
        Ok(_) => panic!("expected a failure"),
    }
    assert_eq!(LocationError::InvalidInput.status_code(), 400);
}
