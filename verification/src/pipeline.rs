//! The full pipeline: extraction, segmentation, reconciliation, pairing.
//!
//! `build_itineraries` either returns a fully reconciled set of itineraries
//! — each with exactly one arrival record, aligned positionally — or one
//! terminal error for the page: the site's own error text passed through
//! verbatim, a shape mismatch with enough detail to diagnose without
//! re-fetching, or the empty result. There is no partial or degraded
//! output.

use vstd::prelude::*;

use crate::extract::RawExtraction;
use crate::extract::RawExtractionView;
use crate::extract::extract_fields;
use crate::extract::spec_extract;
use crate::model::ArrivalRecord;
use crate::model::ArrivalRecordView;
use crate::model::BuildError;
use crate::model::BuildErrorView;
use crate::model::Itinerary;
use crate::model::ItineraryView;
use crate::model::ItinerarySet;
use crate::model::ItinerarySetView;
use crate::model::MatchedItinerary;
use crate::model::MatchedItineraryView;
use crate::query::Document;
use crate::reconcile::dedup_after_entries;
use crate::reconcile::dedup_entries;
use crate::reconcile::spec_dedup_entries;
use crate::reconcile::spec_reconcile_ok;
use crate::reconcile::spec_splice;
use crate::reconcile::splice;
use crate::segment::derive_width;
use crate::segment::segment;
use crate::segment::spec_segmented;
use crate::segment::spec_shape_error;
use crate::segment::spec_shape_ok;
use crate::segment::spec_width;

verus! {

/// Time and station lists of equal length paired positionally into arrival
/// records.
pub open spec fn spec_zip_arrivals(
    times: Seq<Seq<char>>,
    stations: Seq<Seq<char>>,
) -> Seq<ArrivalRecordView> {
    Seq::new(times.len(), |i: int| ArrivalRecordView { time: times[i], station: stations[i] })
}

/// Itineraries and arrivals of equal length paired positionally.
pub open spec fn spec_pair(
    its: Seq<ItineraryView>,
    arrivals: Seq<ArrivalRecordView>,
) -> Seq<MatchedItineraryView> {
    Seq::new(its.len(), |i: int| MatchedItineraryView { itinerary: its[i], arrival: arrivals[i] })
}

/// What building from an extraction returns: the checks and stages in
/// order. The site's own error text wins over everything; no duration
/// entries with no site error is the empty result; then the lists must fit
/// the derived width's stride; arrival time and station lists must pair up;
/// and under a positive width the canonical list must not be empty while
/// the duplicate-pathway list is filled, and splicing must yield exactly
/// one arrival per itinerary. With width zero no reconciliation happens at
/// all: the duplicate-pathway arrivals are taken as they stand, one per
/// itinerary.
pub open spec fn build_spec(x: RawExtractionView) -> Result<ItinerarySetView, BuildErrorView> {
    let n = x.durations.len();
    let w = spec_width(x.connection_markers.len());
    if x.site_errors.len() > 0 {
        Err(BuildErrorView::SiteReported { messages: x.site_errors })
    } else if n == 0 {
        Err(BuildErrorView::EmptyResult)
    } else if !spec_shape_ok(x, w) {
        Err(spec_shape_error(x, w))
    } else if x.canonical_arrival_stations.len() != x.canonical_arrival_times.len() {
        Err(
            BuildErrorView::DataShape {
                field: "canonical_arrival_station"@,
                expected: x.canonical_arrival_times.len(),
                actual: x.canonical_arrival_stations.len(),
            },
        )
    } else if x.expanded_arrival_stations.len() != x.expanded_arrival_times.len() {
        Err(
            BuildErrorView::DataShape {
                field: "expanded_arrival_station"@,
                expected: x.expanded_arrival_times.len(),
                actual: x.expanded_arrival_stations.len(),
            },
        )
    } else {
        let its = spec_segmented(x, w);
        let a = spec_zip_arrivals(x.canonical_arrival_times, x.canonical_arrival_stations);
        let b = spec_zip_arrivals(x.expanded_arrival_times, x.expanded_arrival_stations);
        if w == 0 {
            if b.len() != n {
                Err(
                    BuildErrorView::DataShape {
                        field: "expanded_arrival_time"@,
                        expected: n,
                        actual: b.len(),
                    },
                )
            } else {
                Ok(ItinerarySetView { width: w, entries: spec_pair(its, b) })
            }
        } else {
            if !spec_reconcile_ok(a, b) {
                Err(
                    BuildErrorView::DataShape {
                        field: "canonical_arrival_time"@,
                        expected: 1,
                        actual: 0,
                    },
                )
            } else {
                let r = spec_splice(a, b);
                if r.len() != n {
                    Err(
                        BuildErrorView::DataShape {
                            field: "reconciled_arrival"@,
                            expected: n,
                            actual: r.len(),
                        },
                    )
                } else {
                    Ok(
                        ItinerarySetView {
                            width: w,
                            entries: spec_dedup_entries(spec_pair(its, r)),
                        },
                    )
                }
            }
        }
    }
}

/// What building straight from a page returns.
pub open spec fn spec_build_page(page: Seq<char>) -> Result<ItinerarySetView, BuildErrorView> {
    build_spec(spec_extract(page))
}

/// An equal copy of a string list.
fn copy_strings(v: &Vec<String>) -> (r: Vec<String>)
    ensures
        r.deep_view() == v.deep_view(),
{
    let mut out: Vec<String> = Vec::new();
    let n = v.len();
    for i in 0..n
        invariant
            n == v@.len(),
            out.deep_view() =~= v.deep_view().take(i as int),
    {
        let ghost pre = out.deep_view();
        out.push(v[i].clone());
        proof {
            assert(out.deep_view() =~= pre.push(v.deep_view()[i as int]));
            assert(out.deep_view() =~= v.deep_view().take(i + 1));
        }
    }
    proof {
        assert(v.deep_view().take(n as int) =~= v.deep_view());
    }
    out
}

/// Pairs equal-length time and station lists into arrival records.
fn zip_arrivals(times: &Vec<String>, stations: &Vec<String>) -> (r: Vec<ArrivalRecord>)
    requires
        times@.len() == stations@.len(),
    ensures
        r.deep_view() == spec_zip_arrivals(times.deep_view(), stations.deep_view()),
{
    let mut out: Vec<ArrivalRecord> = Vec::new();
    let n = times.len();
    for i in 0..n
        invariant
            n == times@.len(),
            times@.len() == stations@.len(),
            out.deep_view() =~= spec_zip_arrivals(times.deep_view(), stations.deep_view()).take(
                i as int,
            ),
    {
        let ghost pre = out.deep_view();
        out.push(ArrivalRecord { time: times[i].clone(), station: stations[i].clone() });
        proof {
            let zipped = spec_zip_arrivals(times.deep_view(), stations.deep_view());
            assert(out.deep_view() =~= pre.push(zipped[i as int]));
            assert(out.deep_view() =~= zipped.take(i + 1));
        }
    }
    proof {
        assert(spec_zip_arrivals(times.deep_view(), stations.deep_view()).take(n as int)
            =~= spec_zip_arrivals(times.deep_view(), stations.deep_view()));
    }
    out
}

/// Pairs equal-length itinerary and arrival lists positionally.
fn pair_entries(its: Vec<Itinerary>, arrivals: Vec<ArrivalRecord>) -> (r: Vec<MatchedItinerary>)
    requires
        its@.len() == arrivals@.len(),
    ensures
        r.deep_view() == spec_pair(its.deep_view(), arrivals.deep_view()),
{
    let ghost iv = its.deep_view();
    let ghost av = arrivals.deep_view();
    let n = its.len();
    let mut rest_its = its;
    let mut rest_arr = arrivals;
    let mut out: Vec<MatchedItinerary> = Vec::new();
    for i in 0..n
        invariant
            iv.len() == n,
            av.len() == n,
            rest_its.deep_view() =~= iv.skip(i as int),
            rest_arr.deep_view() =~= av.skip(i as int),
            out.deep_view() =~= spec_pair(iv, av).take(i as int),
    {
        proof {
            assert(rest_its.deep_view().len() == n - i);
            assert(rest_arr.deep_view().len() == n - i);
            assert(rest_its@.len() == rest_its.deep_view().len());
            assert(rest_arr@.len() == rest_arr.deep_view().len());
        }
        let ghost pre_its = rest_its@;
        let ghost pre_arr = rest_arr@;
        let ghost pd_its = rest_its.deep_view();
        let ghost pd_arr = rest_arr.deep_view();
        let it = rest_its.remove(0);
        let ar = rest_arr.remove(0);
        proof {
            assert(it.deep_view() == pd_its[0]);
            assert(ar.deep_view() == pd_arr[0]);
            assert(it.deep_view() == iv[i as int]);
            assert(ar.deep_view() == av[i as int]);
            assert forall|j: int| 0 <= j < rest_its.deep_view().len() implies rest_its.deep_view()[j]
                == iv.skip(i + 1)[j] by {
                assert(rest_its@[j] == pre_its[j + 1]);
                assert(rest_its.deep_view()[j] == pre_its[j + 1].deep_view());
                assert(pre_its[j + 1].deep_view() == iv.skip(i as int)[j + 1]);
            }
            assert(rest_its.deep_view() =~= iv.skip(i + 1));
            assert forall|j: int| 0 <= j < rest_arr.deep_view().len() implies rest_arr.deep_view()[j]
                == av.skip(i + 1)[j] by {
                assert(rest_arr@[j] == pre_arr[j + 1]);
                assert(rest_arr.deep_view()[j] == pre_arr[j + 1].deep_view());
                assert(pre_arr[j + 1].deep_view() == av.skip(i as int)[j + 1]);
            }
            assert(rest_arr.deep_view() =~= av.skip(i + 1));
        }
        let ghost pre = out.deep_view();
        out.push(MatchedItinerary { itinerary: it, arrival: ar });
        proof {
            assert(out.deep_view() =~= pre.push(spec_pair(iv, av)[i as int]));
            assert(out.deep_view() =~= spec_pair(iv, av).take(i + 1));
        }
    }
    proof {
        assert(spec_pair(iv, av).take(n as int) =~= spec_pair(iv, av));
    }
    out
}

proof fn lemma_dedup_after_entries_shape(s: Seq<MatchedItineraryView>, prev: Seq<char>, w: nat)
    requires
        forall|i: int|
            0 <= i < s.len() ==> {
                &&& (#[trigger] s[i]).itinerary.legs.len() == w + 1
                &&& s[i].itinerary.transfer_waits.len() == w
            },
    ensures
        forall|i: int|
            0 <= i < dedup_after_entries(s, prev).len() ==> {
                &&& (#[trigger] dedup_after_entries(s, prev)[i]).itinerary.legs.len() == w + 1
                &&& dedup_after_entries(s, prev)[i].itinerary.transfer_waits.len() == w
            },
    decreases s.len(),
{
    if s.len() > 0 {
        let rest = s.drop_first();
        assert forall|i: int| 0 <= i < rest.len() implies {
            &&& (#[trigger] rest[i]).itinerary.legs.len() == w + 1
            &&& rest[i].itinerary.transfer_waits.len() == w
        } by {
            assert(rest[i] == s[i + 1]);
        }
        lemma_dedup_after_entries_shape(rest, s[0].arrival.time, w);
        let d = dedup_after_entries(s, prev);
        let dr = dedup_after_entries(rest, s[0].arrival.time);
        assert forall|i: int| 0 <= i < d.len() implies {
            &&& (#[trigger] d[i]).itinerary.legs.len() == w + 1
            &&& d[i].itinerary.transfer_waits.len() == w
        } by {
            if s[0].arrival.time == prev {
                assert(d =~= dr);
                assert(d[i] == dr[i]);
            } else {
                assert(d == seq![s[0]] + dr);
                if i == 0 {
                    assert(d[i] == s[0]);
                } else {
                    assert(d[i] == dr[i - 1]);
                }
            }
        }
    }
}

/// The collapse pass only drops entries, so every surviving entry keeps the
/// segmenter's shape: `w + 1` legs and `w` transfer waits.
pub proof fn lemma_dedup_entries_shape(s: Seq<MatchedItineraryView>, w: nat)
    requires
        forall|i: int|
            0 <= i < s.len() ==> {
                &&& (#[trigger] s[i]).itinerary.legs.len() == w + 1
                &&& s[i].itinerary.transfer_waits.len() == w
            },
    ensures
        (ItinerarySetView { width: w, entries: spec_dedup_entries(s) }).wf(),
{
    if s.len() > 0 {
        assert(forall|i: int|
            0 <= i < s.drop_first().len() ==> {
                &&& (#[trigger] s.drop_first()[i]).itinerary.legs.len() == w + 1
                &&& s.drop_first()[i].itinerary.transfer_waits.len() == w
            });
        lemma_dedup_after_entries_shape(s.drop_first(), s[0].arrival.time, w);
    }
}

/// Builds the reconciled itinerary set from already extracted field lists,
/// performing every check of [`build_spec`] in order. The returned set is
/// well-formed: every surviving itinerary has exactly `width + 1` legs and
/// `width` transfer waits.
pub fn build_from_extraction(raw: &RawExtraction) -> (r: Result<ItinerarySet, BuildError>)
    ensures
        match r {
            Ok(set) => build_spec(raw@) matches Ok(v) && set@ == v && set@.wf(),
            Err(e) => build_spec(raw@) matches Err(v) && e@ == v,
        },
{
    if raw.site_errors.len() > 0 {
        return Err(BuildError::SiteReported { messages: copy_strings(&raw.site_errors) });
    }
    let n = raw.durations.len();
    if n == 0 {
        return Err(BuildError::EmptyResult);
    }
    let w = derive_width(raw.connection_markers.len());
    let its = match segment(raw, w) {
        Ok(its) => its,
        Err(e) => {
            return Err(e);
        },
    };
    if raw.canonical_arrival_stations.len() != raw.canonical_arrival_times.len() {
        return Err(
            BuildError::DataShape {
                field: "canonical_arrival_station".to_owned(),
                expected: raw.canonical_arrival_times.len(),
                actual: raw.canonical_arrival_stations.len(),
            },
        );
    }
    if raw.expanded_arrival_stations.len() != raw.expanded_arrival_times.len() {
        return Err(
            BuildError::DataShape {
                field: "expanded_arrival_station".to_owned(),
                expected: raw.expanded_arrival_times.len(),
                actual: raw.expanded_arrival_stations.len(),
            },
        );
    }
    let b = zip_arrivals(&raw.expanded_arrival_times, &raw.expanded_arrival_stations);
    if w == 0 {
        if b.len() != n {
            return Err(
                BuildError::DataShape {
                    field: "expanded_arrival_time".to_owned(),
                    expected: n,
                    actual: b.len(),
                },
            );
        }
        let entries = pair_entries(its, b);
        let set = ItinerarySet { width: w, entries };
        proof {
            assert(set@.wf());
        }
        Ok(set)
    } else {
        let a = zip_arrivals(&raw.canonical_arrival_times, &raw.canonical_arrival_stations);
        if a.len() == 0 && b.len() > 0 {
            return Err(
                BuildError::DataShape {
                    field: "canonical_arrival_time".to_owned(),
                    expected: 1,
                    actual: 0,
                },
            );
        }
        let spliced = splice(&a, &b);
        if spliced.len() != n {
            return Err(
                BuildError::DataShape {
                    field: "reconciled_arrival".to_owned(),
                    expected: n,
                    actual: spliced.len(),
                },
            );
        }
        let paired = pair_entries(its, spliced);
        let ghost pv = paired.deep_view();
        let entries = dedup_entries(paired);
        proof {
            assert(forall|i: int|
                0 <= i < pv.len() ==> {
                    &&& (#[trigger] pv[i]).itinerary.legs.len() == w + 1
                    &&& pv[i].itinerary.transfer_waits.len() == w
                });
            lemma_dedup_entries_shape(pv, w as nat);
        }
        Ok(ItinerarySet { width: w, entries })
    }
}

/// Builds the reconciled itinerary set straight from a page: extraction by
/// the schema, then [`build_from_extraction`]. Identical page text always
/// yields an identical, order-stable result.
pub fn build_itineraries(doc: &Document) -> (r: Result<ItinerarySet, BuildError>)
    ensures
        match r {
            Ok(set) => spec_build_page(doc@) matches Ok(v) && set@ == v && set@.wf(),
            Err(e) => spec_build_page(doc@) matches Err(v) && e@ == v,
        },
{
    let raw = extract_fields(doc);
    build_from_extraction(&raw)
}

/// With transfer width zero no splicing happens at all: the built set takes
/// the duplicate-pathway arrivals as they stand, pairs them positionally,
/// and its itinerary count equals the number of duration entries.
pub proof fn lemma_zero_width_takes_arrivals_as_they_stand(x: RawExtractionView)
    requires
        spec_width(x.connection_markers.len()) == 0,
        build_spec(x) is Ok,
    ensures
        build_spec(x)->Ok_0.entries.len() == x.durations.len(),
        forall|i: int|
            0 <= i < x.durations.len()
                ==> (#[trigger] build_spec(x)->Ok_0.entries[i]).arrival == (ArrivalRecordView {
                time: x.expanded_arrival_times[i],
                station: x.expanded_arrival_stations[i],
            }),
{
}

/// Building is idempotent: two results of building the same page text are
/// equal element for element, because the result is a function of the page
/// text alone — no randomness, no clock, no ordering freedom.
pub proof fn lemma_build_page_deterministic(
    page: Seq<char>,
    r1: Result<ItinerarySetView, BuildErrorView>,
    r2: Result<ItinerarySetView, BuildErrorView>,
)
    requires
        r1 == spec_build_page(page),
        r2 == spec_build_page(page),
    ensures
        r1 == r2,
{
}

} // verus!
