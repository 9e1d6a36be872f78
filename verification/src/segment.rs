//! Itinerary segmenter: reshapes the flat per-field extraction lists into
//! per-itinerary leg sequences using the page-wide transfer width.
//!
//! The page renders every itinerary's departure and transfer markup with the
//! same number of slots — the page-wide maximum width — padding itineraries
//! with fewer real transfers rather than omitting slots, so a uniform stride
//! over the flat lists recovers the per-itinerary structure: itinerary `i`
//! owns departure slots `i * (w + 1) ..` and transfer slots `i * w ..`. A
//! slot index beyond a list's length signals a page-format change or a
//! truncated fetch and fails with a shape error carrying the field name, the
//! entry count the shape demands, and the count found.

use vstd::arithmetic::mul::lemma_mul_inequality;
use vstd::prelude::*;

use crate::extract::RawExtraction;
use crate::extract::RawExtractionView;
use crate::model::BuildError;
use crate::model::BuildErrorView;
use crate::model::Itinerary;
use crate::model::ItineraryView;
use crate::model::Leg;
use crate::model::LegView;
use crate::model::TransferWait;
use crate::model::TransferWaitView;

verus! {

/// The page-wide transfer width derived from the connection-marker count:
/// the summary lists one marker per station of the trip, origin and
/// destination included, so the width is the count less two. Fewer than two
/// markers mean no transfer slots at all: width zero.
pub open spec fn spec_width(markers: nat) -> nat {
    if markers >= 2 {
        (markers - 2) as nat
    } else {
        0
    }
}

/// Derives the transfer width from the number of connection markers.
pub fn derive_width(marker_count: usize) -> (w: usize)
    ensures
        w as nat == spec_width(marker_count as nat),
{
    if marker_count >= 2 {
        marker_count - 2
    } else {
        0
    }
}

/// Leg `j` of itinerary `i`: slot `i * (w + 1) + j` of the departure lists.
pub open spec fn leg_at(x: RawExtractionView, w: nat, i: nat, j: nat) -> LegView {
    let idx = (i * (w + 1) + j) as int;
    LegView {
        train_type: x.departure_train_types[idx],
        station: x.departure_stations[idx],
        time: x.departure_times[idx],
    }
}

/// Transfer wait `k` of itinerary `i`: slot `i * w + k` of the transfer
/// lists.
pub open spec fn wait_at(x: RawExtractionView, w: nat, i: nat, k: nat) -> TransferWaitView {
    let idx = (i * w + k) as int;
    TransferWaitView { time: x.transfer_times[idx], duration: x.transfer_durations[idx] }
}

/// Itinerary `i` of the page under width `w`: its duration entry, its
/// `w + 1` legs, and its `w` transfer waits.
pub open spec fn itinerary_at(x: RawExtractionView, w: nat, i: nat) -> ItineraryView {
    ItineraryView {
        duration: x.durations[i as int],
        legs: Seq::new((w + 1) as nat, |j: int| leg_at(x, w, i, j as nat)),
        transfer_waits: Seq::new(w, |k: int| wait_at(x, w, i, k as nat)),
    }
}

/// All itineraries of the page under width `w`, one per duration entry, in
/// document order.
pub open spec fn spec_segmented(x: RawExtractionView, w: nat) -> Seq<ItineraryView> {
    Seq::new(x.durations.len(), |i: int| itinerary_at(x, w, i as nat))
}

/// The shape the flat lists must have for `n` itineraries under width `w`:
/// each departure list holds `n * (w + 1)` slots, each transfer list
/// `n * w`.
pub open spec fn spec_shape_ok(x: RawExtractionView, w: nat) -> bool {
    let n = x.durations.len();
    &&& x.departure_train_types.len() >= n * (w + 1)
    &&& x.departure_stations.len() >= n * (w + 1)
    &&& x.departure_times.len() >= n * (w + 1)
    &&& x.transfer_times.len() >= n * w
    &&& x.transfer_durations.len() >= n * w
}

/// A demanded entry count as it is reported in a shape error: counts beyond
/// the machine's range are clamped to `usize::MAX`.
pub open spec fn clamp_count(n: nat) -> nat {
    if n > usize::MAX as nat {
        usize::MAX as nat
    } else {
        n
    }
}

/// The shape error reported when the lists are too short: the first
/// too-short field in schema order, the demanded count, and the count found.
pub open spec fn spec_shape_error(x: RawExtractionView, w: nat) -> BuildErrorView {
    let n = x.durations.len();
    let legs_needed = n * (w + 1);
    let waits_needed = n * w;
    if x.departure_train_types.len() < legs_needed {
        BuildErrorView::DataShape {
            field: "departure_train_type"@,
            expected: clamp_count(legs_needed),
            actual: x.departure_train_types.len(),
        }
    } else if x.departure_stations.len() < legs_needed {
        BuildErrorView::DataShape {
            field: "departure_station"@,
            expected: clamp_count(legs_needed),
            actual: x.departure_stations.len(),
        }
    } else if x.departure_times.len() < legs_needed {
        BuildErrorView::DataShape {
            field: "departure_time"@,
            expected: clamp_count(legs_needed),
            actual: x.departure_times.len(),
        }
    } else if x.transfer_times.len() < waits_needed {
        BuildErrorView::DataShape {
            field: "transfer_time"@,
            expected: clamp_count(waits_needed),
            actual: x.transfer_times.len(),
        }
    } else {
        BuildErrorView::DataShape {
            field: "transfer_duration"@,
            expected: clamp_count(waits_needed),
            actual: x.transfer_durations.len(),
        }
    }
}

/// Reshapes the flat lists into one itinerary per duration entry, each with
/// `w + 1` legs and `w` transfer waits, all in document order; fails with
/// the first shape mismatch if a list is too short.
pub fn segment(raw: &RawExtraction, w: usize) -> (r: Result<Vec<Itinerary>, BuildError>)
    requires
        w < usize::MAX,
    ensures
        r is Ok <==> spec_shape_ok(raw@, w as nat),
        r matches Ok(its) ==> its.deep_view() == spec_segmented(raw@, w as nat),
        r matches Err(e) ==> e@ == spec_shape_error(raw@, w as nat),
{
    let n = raw.durations.len();
    let slots = w + 1;
    let legs_needed = match n.checked_mul(slots) {
        Some(needed) => needed,
        None => {
            return Err(
                BuildError::DataShape {
                    field: "departure_train_type".to_owned(),
                    expected: usize::MAX,
                    actual: raw.departure_train_types.len(),
                },
            );
        },
    };
    if raw.departure_train_types.len() < legs_needed {
        return Err(
            BuildError::DataShape {
                field: "departure_train_type".to_owned(),
                expected: legs_needed,
                actual: raw.departure_train_types.len(),
            },
        );
    }
    if raw.departure_stations.len() < legs_needed {
        return Err(
            BuildError::DataShape {
                field: "departure_station".to_owned(),
                expected: legs_needed,
                actual: raw.departure_stations.len(),
            },
        );
    }
    if raw.departure_times.len() < legs_needed {
        return Err(
            BuildError::DataShape {
                field: "departure_time".to_owned(),
                expected: legs_needed,
                actual: raw.departure_times.len(),
            },
        );
    }
    let waits_needed = match n.checked_mul(w) {
        Some(needed) => needed,
        None => {
            return Err(
                BuildError::DataShape {
                    field: "transfer_time".to_owned(),
                    expected: usize::MAX,
                    actual: raw.transfer_times.len(),
                },
            );
        },
    };
    if raw.transfer_times.len() < waits_needed {
        return Err(
            BuildError::DataShape {
                field: "transfer_time".to_owned(),
                expected: waits_needed,
                actual: raw.transfer_times.len(),
            },
        );
    }
    if raw.transfer_durations.len() < waits_needed {
        return Err(
            BuildError::DataShape {
                field: "transfer_duration".to_owned(),
                expected: waits_needed,
                actual: raw.transfer_durations.len(),
            },
        );
    }
    let mut its: Vec<Itinerary> = Vec::with_capacity(n);
    for i in 0..n
        invariant
            n == raw.durations.len(),
            slots == w + 1,
            w < usize::MAX,
            legs_needed == n * slots,
            waits_needed == n * w,
            spec_shape_ok(raw@, w as nat),
            raw.departure_train_types.len() >= legs_needed,
            raw.departure_stations.len() >= legs_needed,
            raw.departure_times.len() >= legs_needed,
            raw.transfer_times.len() >= waits_needed,
            raw.transfer_durations.len() >= waits_needed,
            its.deep_view() =~= spec_segmented(raw@, w as nat).take(i as int),
    {
        proof {
            lemma_mul_inequality(i + 1, n as int, slots as int);
            assert((i + 1) * slots == i * slots + slots) by (nonlinear_arith);
            lemma_mul_inequality(i + 1, n as int, w as int);
            assert((i + 1) * w == i * w + w) by (nonlinear_arith);
        }
        let base = i * slots;
        let mut legs: Vec<Leg> = Vec::with_capacity(slots);
        for j in 0..slots
            invariant
                n == raw.durations.len(),
                slots == w + 1,
                i < n,
                base == i * slots,
                base + slots <= legs_needed,
                legs_needed == n * slots,
                raw.departure_train_types.len() >= legs_needed,
                raw.departure_stations.len() >= legs_needed,
                raw.departure_times.len() >= legs_needed,
                legs.deep_view() =~= itinerary_at(raw@, w as nat, i as nat).legs.take(j as int),
        {
            let idx = base + j;
            legs.push(
                Leg {
                    train_type: raw.departure_train_types[idx].clone(),
                    station: raw.departure_stations[idx].clone(),
                    time: raw.departure_times[idx].clone(),
                },
            );
            proof {
                let target = itinerary_at(raw@, w as nat, i as nat).legs;
                assert(target.take(j + 1) =~= target.take(j as int) + seq![target[j as int]]);
            }
        }
        let wbase = i * w;
        let mut waits: Vec<TransferWait> = Vec::with_capacity(w);
        for k in 0..w
            invariant
                n == raw.durations.len(),
                i < n,
                wbase == i * w,
                wbase + w <= waits_needed,
                waits_needed == n * w,
                raw.transfer_times.len() >= waits_needed,
                raw.transfer_durations.len() >= waits_needed,
                waits.deep_view() =~= itinerary_at(raw@, w as nat, i as nat).transfer_waits.take(
                    k as int,
                ),
        {
            let idx = wbase + k;
            waits.push(
                TransferWait {
                    time: raw.transfer_times[idx].clone(),
                    duration: raw.transfer_durations[idx].clone(),
                },
            );
            proof {
                let target = itinerary_at(raw@, w as nat, i as nat).transfer_waits;
                assert(target.take(k + 1) =~= target.take(k as int) + seq![target[k as int]]);
            }
        }
        let it = Itinerary { duration: raw.durations[i].clone(), legs, transfer_waits: waits };
        proof {
            let target = itinerary_at(raw@, w as nat, i as nat);
            assert(it@.legs =~= target.legs);
            assert(it@.transfer_waits =~= target.transfer_waits);
            assert(it@ =~= target);
            assert(spec_segmented(raw@, w as nat).take(i + 1) =~= spec_segmented(
                raw@,
                w as nat,
            ).take(i as int) + seq![target]);
        }
        its.push(it);
    }
    proof {
        assert(spec_segmented(raw@, w as nat).take(n as int) =~= spec_segmented(raw@, w as nat));
    }
    Ok(its)
}

} // verus!
