use rodalies::extract::RawExtraction;
use rodalies::model::ArrivalRecord;
use rodalies::model::BuildError;
use rodalies::pipeline::build_from_extraction;
use rodalies::reconcile::reconcile;
use rodalies::render::render_table;

fn strings(items: &[&str]) -> Vec<String> {
    items.iter().map(|s| s.to_string()).collect()
}

fn arrivals(pairs: &[(&str, &str)]) -> Vec<ArrivalRecord> {
    pairs
        .iter()
        .map(|(t, s)| ArrivalRecord { time: t.to_string(), station: s.to_string() })
        .collect()
}

fn empty_extraction() -> RawExtraction {
    RawExtraction {
        durations: Vec::new(),
        departure_train_types: Vec::new(),
        departure_stations: Vec::new(),
        departure_times: Vec::new(),
        transfer_times: Vec::new(),
        transfer_durations: Vec::new(),
        canonical_arrival_times: Vec::new(),
        canonical_arrival_stations: Vec::new(),
        expanded_arrival_times: Vec::new(),
        expanded_arrival_stations: Vec::new(),
        site_errors: Vec::new(),
        connection_markers: Vec::new(),
    }
}

#[test]
fn three_full_width_itineraries_build_three_rectangular_rows() {
    // Three itineraries, width 1, all slots filled; one canonical arrival
    // whose time matches nothing, so no splicing takes place.
    let mut raw = empty_extraction();
    raw.durations = strings(&["1h", "1h 5m", "1h 10m"]);
    raw.connection_markers = strings(&["O", "T", "D"]);
    raw.departure_train_types = strings(&["R1", "R2", "R1", "R3", "R2", "R4"]);
    raw.departure_stations = strings(&["A", "B", "A", "B", "A", "B"]);
    raw.departure_times = strings(&["08:00", "08:30", "09:00", "09:30", "10:00", "10:30"]);
    raw.transfer_times = strings(&["08:25", "09:25", "10:25"]);
    raw.transfer_durations = strings(&["5m", "5m", "5m"]);
    raw.canonical_arrival_times = strings(&["23:59"]);
    raw.canonical_arrival_stations = strings(&["Z"]);
    raw.expanded_arrival_times = strings(&["09:10", "10:10", "11:10"]);
    raw.expanded_arrival_stations = strings(&["C", "C", "C"]);

    let set = build_from_extraction(&raw).expect("the shape is consistent");
    assert_eq!(set.width, 1);
    assert_eq!(set.entries.len(), 3);
    assert_eq!(set.entries[0].itinerary.duration, "1h");
    assert_eq!(set.entries[0].itinerary.legs.len(), 2);
    assert_eq!(set.entries[0].itinerary.legs[0].train_type, "R1");
    assert_eq!(set.entries[0].itinerary.legs[1].station, "B");
    assert_eq!(set.entries[0].itinerary.transfer_waits.len(), 1);
    assert_eq!(set.entries[0].itinerary.transfer_waits[0].time, "08:25");
    assert_eq!(set.entries[0].arrival.time, "09:10");
    assert_eq!(set.entries[2].arrival.station, "C");

    let table = render_table(&set);
    assert_eq!(table.header.len(), 11);
    assert_eq!(table.rows.len(), 3);
    for row in &table.rows {
        assert_eq!(row.len(), table.header.len());
    }
    assert_eq!(
        table.rows[0],
        strings(&["1h", "R1", "A", "08:00", "08:25", "B", "5m", "R2", "08:30", "09:10", "C"])
    );
}

#[test]
fn too_short_departure_station_list_reports_its_shape() {
    // Two itineraries under width 1 demand four departure stations; one is
    // there.
    let mut raw = empty_extraction();
    raw.durations = strings(&["1h", "2h"]);
    raw.connection_markers = strings(&["O", "T", "D"]);
    raw.departure_train_types = strings(&["R1", "R2", "R1", "R2"]);
    raw.departure_stations = strings(&["A"]);
    raw.departure_times = strings(&["08:00", "08:30", "09:00", "09:30"]);
    raw.transfer_times = strings(&["08:25", "09:25"]);
    raw.transfer_durations = strings(&["5m", "5m"]);
    raw.expanded_arrival_times = strings(&["09:10", "10:10"]);
    raw.expanded_arrival_stations = strings(&["C", "C"]);
    raw.canonical_arrival_times = strings(&["23:59"]);
    raw.canonical_arrival_stations = strings(&["Z"]);

    let err = build_from_extraction(&raw).expect_err("one departure station for four slots");
    assert_eq!(
        err,
        BuildError::DataShape { field: "departure_station".to_string(), expected: 4, actual: 1 }
    );
}

#[test]
fn no_durations_and_no_site_errors_is_the_empty_result() {
    let raw = empty_extraction();
    let err = build_from_extraction(&raw).expect_err("nothing was found");
    assert_eq!(err, BuildError::EmptyResult);
}

#[test]
fn site_error_text_is_passed_through_verbatim() {
    let mut raw = empty_extraction();
    raw.site_errors = strings(&["No existeix cap connexió"]);
    raw.durations = strings(&["1h"]);
    let err = build_from_extraction(&raw).expect_err("the site reported an error");
    assert_eq!(
        err,
        BuildError::SiteReported { messages: strings(&["No existeix cap connexió"]) }
    );
}

#[test]
fn reconcile_splices_the_matching_canonical_pair_and_collapses_it() {
    // The duplicate-pathway entry at 09:10 matches the canonical arrival;
    // the spliced pair collapses back to one record, and the genuine
    // richer-path arrival at 09:00 stays in place.
    let canonical = arrivals(&[("09:10", "X")]);
    let expanded = arrivals(&[("09:00", "Y"), ("09:10", "X")]);
    let out = reconcile(&canonical, &expanded).expect("a canonical basis exists");
    assert_eq!(out, arrivals(&[("09:00", "Y"), ("09:10", "X")]));
}

#[test]
fn reconcile_of_a_mirrored_list_returns_the_canonical_list() {
    // Equal lengths, equal times position by position: the output is the
    // canonical list itself, its stations included, order preserved.
    let canonical = arrivals(&[("09:10", "X"), ("10:10", "Y")]);
    let expanded = arrivals(&[("09:10", "X via Z"), ("10:10", "Y via Z")]);
    let out = reconcile(&canonical, &expanded).expect("a canonical basis exists");
    assert_eq!(out, canonical);
}

#[test]
fn reconcile_without_canonical_basis_fails() {
    let canonical = arrivals(&[]);
    let expanded = arrivals(&[("09:00", "Y")]);
    let err = reconcile(&canonical, &expanded).expect_err("no canonical basis");
    assert_eq!(
        err,
        BuildError::DataShape {
            field: "canonical_arrival_time".to_string(),
            expected: 1,
            actual: 0
        }
    );
}

#[test]
fn reconcile_keeps_empty_lists_empty() {
    let out = reconcile(&arrivals(&[]), &arrivals(&[])).expect("nothing to reconcile");
    assert_eq!(out, arrivals(&[]));
}

#[test]
fn identical_arrival_times_collapse_to_the_earlier_itinerary() {
    // The page renders the same real trip twice: once canonically, once
    // expanded. Exactly one row survives, the earlier one, carrying the
    // canonical arrival.
    let mut raw = empty_extraction();
    raw.durations = strings(&["1h", "1h 30m"]);
    raw.connection_markers = strings(&["O", "T", "D"]);
    raw.departure_train_types = strings(&["R1", "", "R1", "R9"]);
    raw.departure_stations = strings(&["A", "", "A", "M"]);
    raw.departure_times = strings(&["08:00", "", "08:00", "08:40"]);
    raw.transfer_times = strings(&["", "08:35"]);
    raw.transfer_durations = strings(&["", "5m"]);
    raw.canonical_arrival_times = strings(&["09:10"]);
    raw.canonical_arrival_stations = strings(&["X"]);
    raw.expanded_arrival_times = strings(&["09:10"]);
    raw.expanded_arrival_stations = strings(&["X"]);

    let set = build_from_extraction(&raw).expect("the shape is consistent");
    assert_eq!(set.entries.len(), 1);
    assert_eq!(set.entries[0].itinerary.duration, "1h");
    assert_eq!(set.entries[0].arrival.time, "09:10");
    assert_eq!(set.entries[0].arrival.station, "X");

    let table = render_table(&set);
    assert_eq!(table.rows.len(), 1);
    assert_eq!(table.rows[0].len(), table.header.len());
}

#[test]
fn zero_width_takes_the_arrivals_as_they_stand() {
    // Width zero: no reconciliation at all; one arrival per duration entry,
    // in order.
    let mut raw = empty_extraction();
    raw.durations = strings(&["30m", "35m"]);
    raw.connection_markers = strings(&["O", "D"]);
    raw.departure_train_types = strings(&["R1", "R2"]);
    raw.departure_stations = strings(&["A", "A"]);
    raw.departure_times = strings(&["08:00", "09:00"]);
    raw.expanded_arrival_times = strings(&["08:30", "09:35"]);
    raw.expanded_arrival_stations = strings(&["B", "B"]);

    let set = build_from_extraction(&raw).expect("the shape is consistent");
    assert_eq!(set.width, 0);
    assert_eq!(set.entries.len(), 2);
    assert_eq!(set.entries[0].arrival.time, "08:30");
    assert_eq!(set.entries[1].arrival.time, "09:35");

    let table = render_table(&set);
    assert_eq!(table.header.len(), 6);
    assert_eq!(
        table.header,
        strings(&["Duration", "Train", "Station", "Start", "End", "Station"])
    );
    for row in &table.rows {
        assert_eq!(row.len(), 6);
    }
}

#[test]
fn zero_width_demands_one_arrival_per_itinerary() {
    let mut raw = empty_extraction();
    raw.durations = strings(&["30m", "35m"]);
    raw.connection_markers = strings(&["O", "D"]);
    raw.departure_train_types = strings(&["R1", "R2"]);
    raw.departure_stations = strings(&["A", "A"]);
    raw.departure_times = strings(&["08:00", "09:00"]);
    raw.expanded_arrival_times = strings(&["08:30"]);
    raw.expanded_arrival_stations = strings(&["B"]);

    let err = build_from_extraction(&raw).expect_err("one arrival for two itineraries");
    assert_eq!(
        err,
        BuildError::DataShape {
            field: "expanded_arrival_time".to_string(),
            expected: 2,
            actual: 1
        }
    );
}

#[test]
fn mismatched_arrival_time_and_station_lists_fail() {
    let mut raw = empty_extraction();
    raw.durations = strings(&["30m"]);
    raw.connection_markers = strings(&["O", "D"]);
    raw.departure_train_types = strings(&["R1"]);
    raw.departure_stations = strings(&["A"]);
    raw.departure_times = strings(&["08:00"]);
    raw.canonical_arrival_times = strings(&["08:30"]);
    raw.canonical_arrival_stations = strings(&[]);
    raw.expanded_arrival_times = strings(&["08:30"]);
    raw.expanded_arrival_stations = strings(&["B"]);

    let err = build_from_extraction(&raw).expect_err("a time without a station");
    assert_eq!(
        err,
        BuildError::DataShape {
            field: "canonical_arrival_station".to_string(),
            expected: 1,
            actual: 0
        }
    );
}

#[test]
fn unmatched_splice_count_reports_the_reconciled_total() {
    // Width 1, two itineraries, but canonical and duplicate-pathway times
    // all match pairwise: splicing yields four records for two itineraries.
    let mut raw = empty_extraction();
    raw.durations = strings(&["1h", "2h"]);
    raw.connection_markers = strings(&["O", "T", "D"]);
    raw.departure_train_types = strings(&["R1", "R2", "R1", "R2"]);
    raw.departure_stations = strings(&["A", "B", "A", "B"]);
    raw.departure_times = strings(&["08:00", "08:30", "09:00", "09:30"]);
    raw.transfer_times = strings(&["08:25", "09:25"]);
    raw.transfer_durations = strings(&["5m", "5m"]);
    raw.canonical_arrival_times = strings(&["09:10", "10:10"]);
    raw.canonical_arrival_stations = strings(&["C", "C"]);
    raw.expanded_arrival_times = strings(&["09:10", "10:10"]);
    raw.expanded_arrival_stations = strings(&["C", "C"]);

    let err = build_from_extraction(&raw).expect_err("four spliced records, two itineraries");
    assert_eq!(
        err,
        BuildError::DataShape {
            field: "reconciled_arrival".to_string(),
            expected: 2,
            actual: 4
        }
    );
}

#[test]
fn duplicated_renderings_collapse_to_one_row_each() {
    // Four rendered itineraries: two real trips, each rendered once
    // canonically and once expanded. Splicing aligns one arrival per
    // rendering and the collapse keeps the two canonical rows.
    let mut raw = empty_extraction();
    raw.durations = strings(&["1h", "1h 20m", "2h", "2h 20m"]);
    raw.connection_markers = strings(&["O", "T", "D"]);
    raw.departure_train_types = strings(&["R1", "", "R1", "R9", "R2", "", "R2", "R9"]);
    raw.departure_stations = strings(&["A", "", "A", "M", "A", "", "A", "M"]);
    raw.departure_times = strings(&["08:00", "", "08:00", "08:40", "09:00", "", "09:00", "09:40"]);
    raw.transfer_times = strings(&["", "08:35", "", "09:35"]);
    raw.transfer_durations = strings(&["", "5m", "", "5m"]);
    raw.canonical_arrival_times = strings(&["09:10", "10:10"]);
    raw.canonical_arrival_stations = strings(&["X", "X"]);
    raw.expanded_arrival_times = strings(&["09:10", "10:10"]);
    raw.expanded_arrival_stations = strings(&["X via M", "X via M"]);

    let set = build_from_extraction(&raw).expect("the shape is consistent");
    assert_eq!(set.entries.len(), 2);
    assert_eq!(set.entries[0].itinerary.duration, "1h");
    assert_eq!(set.entries[0].arrival.station, "X");
    assert_eq!(set.entries[1].itinerary.duration, "2h");
    assert_eq!(set.entries[1].arrival.station, "X");
}

#[test]
fn site_error_wins_over_every_other_check() {
    let mut raw = empty_extraction();
    raw.site_errors = strings(&["wrong station pair"]);
    let err = build_from_extraction(&raw).expect_err("the site reported an error");
    assert!(matches!(err, BuildError::SiteReported { .. }));
}
