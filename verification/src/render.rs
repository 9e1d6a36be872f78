//! Row renderer: projects the reconciled itineraries into a rectangular
//! header-plus-rows table.
//!
//! The header holds four leading cells, five cells per transfer slot of the
//! page-wide width, and two trailing cells; each row mirrors that layout
//! cell for cell. An absent field — a leg or wait index beyond what an
//! itinerary carries — is rendered as an empty string cell, never omitted,
//! so every row has exactly the header's cell count whatever the input
//! holds.

use vstd::prelude::*;

use crate::model::Itinerary;
use crate::model::ItineraryView;
use crate::model::ItinerarySet;
use crate::model::MatchedItinerary;
use crate::model::MatchedItineraryView;

verus! {

/// The rendered table: the header cells and one row of cells per surviving
/// itinerary.
#[derive(Debug, Clone, PartialEq, Eq)]
pub struct TableData {
    pub header: Vec<String>,
    pub rows: Vec<Vec<String>>,
}

/// The five header cells repeated for each of the `w` transfer slots.
pub open spec fn header_blocks(w: nat) -> Seq<Seq<char>>
    decreases w,
{
    if w == 0 {
        Seq::empty()
    } else {
        header_blocks((w - 1) as nat) + seq!["Stop"@, "Transfer"@, "Wait"@, "Train"@, "Start"@]
    }
}

/// The header for transfer width `w`.
pub open spec fn spec_header(w: nat) -> Seq<Seq<char>> {
    seq!["Duration"@, "Train"@, "Station"@, "Start"@] + header_blocks(w) + seq!["End"@, "Station"@]
}

/// The train-type cell of leg `j`; empty when the itinerary has no such leg.
pub open spec fn leg_train_cell(it: ItineraryView, j: int) -> Seq<char> {
    if 0 <= j < it.legs.len() {
        it.legs[j].train_type
    } else {
        Seq::empty()
    }
}

/// The station cell of leg `j`; empty when the itinerary has no such leg.
pub open spec fn leg_station_cell(it: ItineraryView, j: int) -> Seq<char> {
    if 0 <= j < it.legs.len() {
        it.legs[j].station
    } else {
        Seq::empty()
    }
}

/// The time cell of leg `j`; empty when the itinerary has no such leg.
pub open spec fn leg_time_cell(it: ItineraryView, j: int) -> Seq<char> {
    if 0 <= j < it.legs.len() {
        it.legs[j].time
    } else {
        Seq::empty()
    }
}

/// The transfer-time cell of wait `k`; empty when the itinerary has no such
/// wait.
pub open spec fn wait_time_cell(it: ItineraryView, k: int) -> Seq<char> {
    if 0 <= k < it.transfer_waits.len() {
        it.transfer_waits[k].time
    } else {
        Seq::empty()
    }
}

/// The wait-duration cell of wait `k`; empty when the itinerary has no such
/// wait.
pub open spec fn wait_duration_cell(it: ItineraryView, k: int) -> Seq<char> {
    if 0 <= k < it.transfer_waits.len() {
        it.transfer_waits[k].duration
    } else {
        Seq::empty()
    }
}

/// The five row cells for each of the `w` transfer slots: the transfer
/// time, the station reached, the wait duration, then the next leg's train
/// and departure time.
pub open spec fn row_blocks(it: ItineraryView, w: nat) -> Seq<Seq<char>>
    decreases w,
{
    if w == 0 {
        Seq::empty()
    } else {
        let k = w - 1;
        row_blocks(it, (w - 1) as nat) + seq![
            wait_time_cell(it, k),
            leg_station_cell(it, k + 1),
            wait_duration_cell(it, k),
            leg_train_cell(it, k + 1),
            leg_time_cell(it, k + 1),
        ]
    }
}

/// One row under width `w`: the duration, the first leg, five cells per
/// transfer slot, and the arrival time and station.
pub open spec fn spec_row(e: MatchedItineraryView, w: nat) -> Seq<Seq<char>> {
    seq![
        e.itinerary.duration,
        leg_train_cell(e.itinerary, 0),
        leg_station_cell(e.itinerary, 0),
        leg_time_cell(e.itinerary, 0),
    ] + row_blocks(e.itinerary, w) + seq![e.arrival.time, e.arrival.station]
}

/// All rows of a table under width `w`, one per entry, in order.
pub open spec fn spec_rows(entries: Seq<MatchedItineraryView>, w: nat) -> Seq<Seq<Seq<char>>> {
    Seq::new(entries.len(), |i: int| spec_row(entries[i], w))
}

/// The repeated header blocks for width `w` hold `5 * w` cells.
pub proof fn lemma_header_blocks_len(w: nat)
    ensures
        header_blocks(w).len() == 5 * w,
    decreases w,
{
    if w > 0 {
        lemma_header_blocks_len((w - 1) as nat);
    }
}

/// The repeated row blocks for width `w` hold `5 * w` cells.
pub proof fn lemma_row_blocks_len(it: ItineraryView, w: nat)
    ensures
        row_blocks(it, w).len() == 5 * w,
    decreases w,
{
    if w > 0 {
        lemma_row_blocks_len(it, (w - 1) as nat);
    }
}

/// The header for width `w` has `6 + 5 * w` cells.
pub proof fn lemma_header_len(w: nat)
    ensures
        spec_header(w).len() == 6 + 5 * w,
{
    lemma_header_blocks_len(w);
}

/// Every row under width `w` has `6 + 5 * w` cells, whatever the entry
/// holds.
pub proof fn lemma_row_len(e: MatchedItineraryView, w: nat)
    ensures
        spec_row(e, w).len() == 6 + 5 * w,
{
    lemma_row_blocks_len(e.itinerary, w);
}

/// The train-type cell of leg `j`, or an empty cell.
fn leg_train(it: &Itinerary, j: usize) -> (r: String)
    ensures
        r@ == leg_train_cell(it@, j as int),
{
    if j < it.legs.len() {
        it.legs[j].train_type.clone()
    } else {
        String::new()
    }
}

/// The station cell of leg `j`, or an empty cell.
fn leg_station(it: &Itinerary, j: usize) -> (r: String)
    ensures
        r@ == leg_station_cell(it@, j as int),
{
    if j < it.legs.len() {
        it.legs[j].station.clone()
    } else {
        String::new()
    }
}

/// The time cell of leg `j`, or an empty cell.
fn leg_time(it: &Itinerary, j: usize) -> (r: String)
    ensures
        r@ == leg_time_cell(it@, j as int),
{
    if j < it.legs.len() {
        it.legs[j].time.clone()
    } else {
        String::new()
    }
}

/// The transfer-time cell of wait `k`, or an empty cell.
fn wait_time(it: &Itinerary, k: usize) -> (r: String)
    ensures
        r@ == wait_time_cell(it@, k as int),
{
    if k < it.transfer_waits.len() {
        it.transfer_waits[k].time.clone()
    } else {
        String::new()
    }
}

/// The wait-duration cell of wait `k`, or an empty cell.
fn wait_duration(it: &Itinerary, k: usize) -> (r: String)
    ensures
        r@ == wait_duration_cell(it@, k as int),
{
    if k < it.transfer_waits.len() {
        it.transfer_waits[k].duration.clone()
    } else {
        String::new()
    }
}

/// Renders one entry's row under width `w`.
fn render_row(e: &MatchedItinerary, w: usize) -> (r: Vec<String>)
    ensures
        r.deep_view() == spec_row(e@, w as nat),
{
    let mut r: Vec<String> = Vec::new();
    r.push(e.itinerary.duration.clone());
    r.push(leg_train(&e.itinerary, 0));
    r.push(leg_station(&e.itinerary, 0));
    r.push(leg_time(&e.itinerary, 0));
    let ghost lead = seq![
        e@.itinerary.duration,
        leg_train_cell(e@.itinerary, 0),
        leg_station_cell(e@.itinerary, 0),
        leg_time_cell(e@.itinerary, 0),
    ];
    proof {
        assert(r.deep_view() =~= lead + row_blocks(e@.itinerary, 0));
    }
    for k in 0..w
        invariant
            lead.len() == 4,
            r.deep_view() =~= lead + row_blocks(e@.itinerary, k as nat),
    {
        let ghost pre = r.deep_view();
        r.push(wait_time(&e.itinerary, k));
        r.push(leg_station(&e.itinerary, k + 1));
        r.push(wait_duration(&e.itinerary, k));
        r.push(leg_train(&e.itinerary, k + 1));
        r.push(leg_time(&e.itinerary, k + 1));
        proof {
            lemma_row_blocks_len(e@.itinerary, k as nat);
            lemma_row_blocks_len(e@.itinerary, (k + 1) as nat);
            assert(r.deep_view() =~= pre + seq![
                wait_time_cell(e@.itinerary, k as int),
                leg_station_cell(e@.itinerary, k + 1),
                wait_duration_cell(e@.itinerary, k as int),
                leg_train_cell(e@.itinerary, k + 1),
                leg_time_cell(e@.itinerary, k + 1),
            ]);
            assert(r.deep_view() =~= lead + row_blocks(e@.itinerary, (k + 1) as nat));
        }
    }
    r.push(e.arrival.time.clone());
    r.push(e.arrival.station.clone());
    proof {
        assert(r.deep_view() =~= spec_row(e@, w as nat));
    }
    r
}

/// Projects the reconciled itineraries into a header and rows. Every row
/// has exactly the header's cell count — `6 + 5 * width` — whatever the
/// entries hold: an absent field is rendered as an empty cell, never
/// omitted.
pub fn render_table(set: &ItinerarySet) -> (t: TableData)
    ensures
        t.header.deep_view() == spec_header(set@.width),
        t.rows.deep_view() == spec_rows(set@.entries, set@.width),
        t.header@.len() == 6 + 5 * set@.width,
        forall|i: int| 0 <= i < t.rows@.len() ==> (#[trigger] t.rows@[i])@.len() == t.header@.len(),
{
    let w = set.width;
    let mut header: Vec<String> = Vec::new();
    header.push("Duration".to_owned());
    header.push("Train".to_owned());
    header.push("Station".to_owned());
    header.push("Start".to_owned());
    let ghost lead = seq!["Duration"@, "Train"@, "Station"@, "Start"@];
    proof {
        assert(header.deep_view() =~= lead + header_blocks(0));
    }
    for k in 0..w
        invariant
            lead.len() == 4,
            header.deep_view() =~= lead + header_blocks(k as nat),
    {
        let ghost pre = header.deep_view();
        header.push("Stop".to_owned());
        header.push("Transfer".to_owned());
        header.push("Wait".to_owned());
        header.push("Train".to_owned());
        header.push("Start".to_owned());
        proof {
            lemma_header_blocks_len(k as nat);
            lemma_header_blocks_len((k + 1) as nat);
            assert(header.deep_view() =~= pre + seq![
                "Stop"@,
                "Transfer"@,
                "Wait"@,
                "Train"@,
                "Start"@,
            ]);
            assert(header.deep_view() =~= lead + header_blocks((k + 1) as nat));
        }
    }
    header.push("End".to_owned());
    header.push("Station".to_owned());
    proof {
        assert(header.deep_view() =~= spec_header(w as nat));
        lemma_header_len(w as nat);
    }
    let mut rows: Vec<Vec<String>> = Vec::new();
    let n = set.entries.len();
    for i in 0..n
        invariant
            n == set.entries.len(),
            header.deep_view() == spec_header(w as nat),
            header@.len() == 6 + 5 * (w as nat),
            rows.deep_view() =~= spec_rows(set@.entries, w as nat).take(i as int),
            forall|p: int|
                0 <= p < rows@.len() ==> (#[trigger] rows@[p])@.len() == header@.len(),
    {
        let row = render_row(&set.entries[i], w);
        proof {
            lemma_row_len(set@.entries[i as int], w as nat);
            assert(spec_rows(set@.entries, w as nat).take(i + 1) =~= spec_rows(
                set@.entries,
                w as nat,
            ).take(i as int) + seq![spec_row(set@.entries[i as int], w as nat)]);
        }
        rows.push(row);
    }
    proof {
        assert(spec_rows(set@.entries, w as nat).take(n as int) =~= spec_rows(
            set@.entries,
            w as nat,
        ));
    }
    TableData { header, rows }
}

} // verus!
