//! Arrival reconciler: merges the page's two arrival renderings so that
//! exactly one arrival record survives per itinerary.
//!
//! Itineraries with fewer real transfers than the page-wide width render two
//! arrival markers: a canonical one, and a duplicate from the expanded
//! alternate rendering that reaches the same destination at the same clock
//! time. The reconciler walks the duplicate-pathway list in order, splices
//! the matching canonical pair in front of each entry whose time is present
//! in the canonical list and not yet consumed, and then collapses adjacent
//! entries with equal arrival times, keeping the earlier (fewer-transfer)
//! one.
//!
//! Matching uses exact string equality on the trimmed time text and nothing
//! else. That is a deliberate, fragile heuristic kept behind this one narrow
//! interface: two distinct itineraries that genuinely share a clock arrival
//! time are misclassified as duplicates, so a stricter key can replace the
//! comparison here without touching segmentation or rendering.

use vstd::prelude::*;

use crate::model::ArrivalRecord;
use crate::model::ArrivalRecordView;
use crate::model::BuildError;
use crate::model::BuildErrorView;
use crate::model::MatchedItinerary;
use crate::model::MatchedItineraryView;

verus! {

/// The least index at or after `from` of an unconsumed canonical arrival
/// whose time equals `t`.
pub open spec fn first_match(
    a: Seq<ArrivalRecordView>,
    used: Seq<bool>,
    t: Seq<char>,
    from: int,
) -> Option<int>
    decreases a.len() - from,
{
    if from < 0 || from >= a.len() {
        None
    } else if !used[from] && a[from].time == t {
        Some(from)
    } else {
        first_match(a, used, t, from + 1)
    }
}

/// The splicing walk over the remaining duplicate-pathway entries, given
/// which canonical entries are already consumed: a matched canonical pair is
/// inserted immediately before the entry that matched it.
pub open spec fn spec_splice_from(
    a: Seq<ArrivalRecordView>,
    used: Seq<bool>,
    b: Seq<ArrivalRecordView>,
) -> Seq<ArrivalRecordView>
    decreases b.len(),
{
    if b.len() == 0 {
        Seq::empty()
    } else {
        match first_match(a, used, b[0].time, 0) {
            Some(j) => seq![a[j], b[0]] + spec_splice_from(a, used.update(j, true), b.drop_first()),
            None => seq![b[0]] + spec_splice_from(a, used, b.drop_first()),
        }
    }
}

/// The spliced arrival list: the duplicate-pathway list with each matched
/// canonical pair inserted before the entry that matched it, every canonical
/// entry consumed at most once, in order.
pub open spec fn spec_splice(
    a: Seq<ArrivalRecordView>,
    b: Seq<ArrivalRecordView>,
) -> Seq<ArrivalRecordView> {
    spec_splice_from(a, Seq::new(a.len(), |i: int| false), b)
}

/// The arrivals kept after the collapse pass, given the time of the
/// preceding (already handled) entry: an entry is dropped exactly when its
/// time equals its immediate predecessor's.
pub open spec fn dedup_after_arrivals(
    s: Seq<ArrivalRecordView>,
    prev: Seq<char>,
) -> Seq<ArrivalRecordView>
    decreases s.len(),
{
    if s.len() == 0 {
        Seq::empty()
    } else {
        let kept: Seq<ArrivalRecordView> = if s[0].time == prev {
            Seq::empty()
        } else {
            seq![s[0]]
        };
        kept + dedup_after_arrivals(s.drop_first(), s[0].time)
    }
}

/// Adjacent de-duplication over arrivals: of two consecutive entries with
/// equal times the later one is dropped.
pub open spec fn spec_dedup_arrivals(s: Seq<ArrivalRecordView>) -> Seq<ArrivalRecordView> {
    if s.len() == 0 {
        Seq::empty()
    } else {
        seq![s[0]] + dedup_after_arrivals(s.drop_first(), s[0].time)
    }
}

/// The arrivals-with-itineraries kept after the collapse pass, given the
/// arrival time of the preceding entry.
pub open spec fn dedup_after_entries(
    s: Seq<MatchedItineraryView>,
    prev: Seq<char>,
) -> Seq<MatchedItineraryView>
    decreases s.len(),
{
    if s.len() == 0 {
        Seq::empty()
    } else {
        let kept: Seq<MatchedItineraryView> = if s[0].arrival.time == prev {
            Seq::empty()
        } else {
            seq![s[0]]
        };
        kept + dedup_after_entries(s.drop_first(), s[0].arrival.time)
    }
}

/// Adjacent de-duplication over matched itineraries: of two consecutive
/// entries with equal arrival times the later one is dropped — it denotes
/// the same real trip surfaced twice at different transfer depths — keeping
/// only the earlier, fewer-transfer occurrence.
pub open spec fn spec_dedup_entries(s: Seq<MatchedItineraryView>) -> Seq<MatchedItineraryView> {
    if s.len() == 0 {
        Seq::empty()
    } else {
        seq![s[0]] + dedup_after_entries(s.drop_first(), s[0].arrival.time)
    }
}

/// The reconciled arrival list: splice, then collapse.
pub open spec fn spec_reconcile(
    a: Seq<ArrivalRecordView>,
    b: Seq<ArrivalRecordView>,
) -> Seq<ArrivalRecordView> {
    spec_dedup_arrivals(spec_splice(a, b))
}

/// Reconciliation has a canonical basis for correspondence unless the
/// canonical list is empty while the duplicate-pathway list is not.
pub open spec fn spec_reconcile_ok(a: Seq<ArrivalRecordView>, b: Seq<ArrivalRecordView>) -> bool {
    !(a.len() == 0 && b.len() > 0)
}

/// Finds the first unconsumed canonical arrival with time `t`.
fn find_match(a: &Vec<ArrivalRecord>, used: &Vec<bool>, t: &String) -> (r: Option<usize>)
    requires
        used@.len() == a@.len(),
    ensures
        match r {
            Some(j) => j < a@.len() && first_match(a.deep_view(), used@, t@, 0) == Some(j as int),
            None => first_match(a.deep_view(), used@, t@, 0) is None,
        },
{
    let n = a.len();
    for j in 0..n
        invariant
            n == a@.len(),
            used@.len() == a@.len(),
            first_match(a.deep_view(), used@, t@, 0) == first_match(
                a.deep_view(),
                used@,
                t@,
                j as int,
            ),
    {
        if !used[j] && a[j].time == *t {
            return Some(j);
        }
    }
    None
}

/// An equal copy of an arrival record.
fn copy_arrival(a: &ArrivalRecord) -> (r: ArrivalRecord)
    ensures
        r@ == a@,
{
    ArrivalRecord { time: a.time.clone(), station: a.station.clone() }
}

/// Splices each matching canonical (time, station) pair in front of the
/// duplicate-pathway entry it matches, consuming every canonical entry at
/// most once; unmatched entries — genuine richer-path arrivals — stay in
/// place.
pub fn splice(canonical: &Vec<ArrivalRecord>, expanded: &Vec<ArrivalRecord>) -> (r: Vec<
    ArrivalRecord,
>)
    ensures
        r.deep_view() == spec_splice(canonical.deep_view(), expanded.deep_view()),
{
    let ghost a = canonical.deep_view();
    let ghost b = expanded.deep_view();
    let mut used: Vec<bool> = vec![false; canonical.len()];
    proof {
        assert(used@ =~= Seq::new(a.len(), |i: int| false));
        assert(b.skip(0) =~= b);
    }
    let mut out: Vec<ArrivalRecord> = Vec::new();
    let n = expanded.len();
    for p in 0..n
        invariant
            n == expanded@.len(),
            used@.len() == canonical@.len(),
            a == canonical.deep_view(),
            b == expanded.deep_view(),
            spec_splice(a, b) =~= out.deep_view() + spec_splice_from(a, used@, b.skip(p as int)),
    {
        proof {
            assert(b.skip(p as int).drop_first() =~= b.skip(p + 1));
            assert(b.skip(p as int)[0] == b[p as int]);
        }
        match find_match(canonical, &used, &expanded[p].time) {
            Some(j) => {
                out.push(copy_arrival(&canonical[j]));
                out.push(copy_arrival(&expanded[p]));
                used[j] = true;
            },
            None => {
                out.push(copy_arrival(&expanded[p]));
            },
        }
    }
    proof {
        assert(b.skip(n as int) =~= Seq::<ArrivalRecordView>::empty());
        assert(out.deep_view() =~= spec_splice(a, b));
    }
    out
}

/// Collapses adjacent equal-time arrivals, keeping the earlier one.
pub fn dedup_arrivals(list: Vec<ArrivalRecord>) -> (r: Vec<ArrivalRecord>)
    ensures
        r.deep_view() == spec_dedup_arrivals(list.deep_view()),
{
    let ghost b = list.deep_view();
    let n = list.len();
    let mut rest = list;
    let mut out: Vec<ArrivalRecord> = Vec::new();
    let mut prev: Option<String> = None;
    for i in 0..n
        invariant
            n == b.len(),
            rest.deep_view() =~= b.skip(i as int),
            match prev {
                Some(t) => i > 0 && t@ == b[i - 1].time,
                None => i == 0,
            },
            spec_dedup_arrivals(b) =~= out.deep_view() + (if i == 0 {
                spec_dedup_arrivals(b)
            } else {
                dedup_after_arrivals(b.skip(i as int), b[i - 1].time)
            }),
    {
        proof {
            assert(b.skip(i as int)[0] == b[i as int]);
            assert(b.skip(i as int).drop_first() =~= b.skip(i + 1));
        }
        let e = rest.remove(0);
        proof {
            assert(rest.deep_view() =~= b.skip(i + 1));
        }
        let keep = match &prev {
            None => true,
            Some(t) => !(e.time == *t),
        };
        prev = Some(e.time.clone());
        if keep {
            out.push(e);
        }
    }
    proof {
        if n > 0 {
            assert(b.skip(n as int) =~= Seq::<ArrivalRecordView>::empty());
        }
    }
    out
}

/// Collapses adjacent entries with equal arrival times, keeping the earlier
/// (fewer-transfer) one.
pub fn dedup_entries(list: Vec<MatchedItinerary>) -> (r: Vec<MatchedItinerary>)
    ensures
        r.deep_view() == spec_dedup_entries(list.deep_view()),
{
    let ghost b = list.deep_view();
    let n = list.len();
    let mut rest = list;
    let mut out: Vec<MatchedItinerary> = Vec::new();
    let mut prev: Option<String> = None;
    for i in 0..n
        invariant
            n == b.len(),
            rest.deep_view() =~= b.skip(i as int),
            match prev {
                Some(t) => i > 0 && t@ == b[i - 1].arrival.time,
                None => i == 0,
            },
            spec_dedup_entries(b) =~= out.deep_view() + (if i == 0 {
                spec_dedup_entries(b)
            } else {
                dedup_after_entries(b.skip(i as int), b[i - 1].arrival.time)
            }),
    {
        proof {
            assert(b.skip(i as int)[0] == b[i as int]);
            assert(b.skip(i as int).drop_first() =~= b.skip(i + 1));
        }
        let e = rest.remove(0);
        proof {
            assert(rest.deep_view() =~= b.skip(i + 1));
        }
        let keep = match &prev {
            None => true,
            Some(t) => !(e.arrival.time == *t),
        };
        prev = Some(e.arrival.time.clone());
        if keep {
            out.push(e);
        }
    }
    proof {
        if n > 0 {
            assert(b.skip(n as int) =~= Seq::<MatchedItineraryView>::empty());
        }
    }
    out
}

/// Merges the canonical and duplicate-pathway arrival lists into the
/// reconciled arrival list: splice, then adjacent collapse. Fails exactly
/// when the canonical list is empty while the duplicate-pathway list is not
/// — then there is no canonical basis for correspondence.
pub fn reconcile(canonical: &Vec<ArrivalRecord>, expanded: &Vec<ArrivalRecord>) -> (r: Result<
    Vec<ArrivalRecord>,
    BuildError,
>)
    ensures
        r is Ok <==> spec_reconcile_ok(canonical.deep_view(), expanded.deep_view()),
        r matches Ok(v) ==> v.deep_view() == spec_reconcile(
            canonical.deep_view(),
            expanded.deep_view(),
        ),
        r matches Err(e) ==> e@ == (BuildErrorView::DataShape {
            field: "canonical_arrival_time"@,
            expected: 1,
            actual: 0,
        }),
{
    if canonical.len() == 0 && expanded.len() > 0 {
        return Err(
            BuildError::DataShape {
                field: "canonical_arrival_time".to_owned(),
                expected: 1,
                actual: 0,
            },
        );
    }
    Ok(dedup_arrivals(splice(canonical, expanded)))
}

/// Canonical entries consumed up to (excluding) position `k`.
pub open spec fn prefix_used(n: nat, k: int) -> Seq<bool> {
    Seq::new(n, |i: int| i < k)
}

/// The canonical and duplicate-pathway suffixes from position `k` on,
/// interleaved pairwise: canonical entry first.
pub open spec fn interleave_from(
    a: Seq<ArrivalRecordView>,
    b: Seq<ArrivalRecordView>,
    k: int,
) -> Seq<ArrivalRecordView>
    decreases a.len() - k,
{
    if k < 0 || k >= a.len() || k >= b.len() {
        Seq::empty()
    } else {
        seq![a[k], b[k]] + interleave_from(a, b, k + 1)
    }
}

proof fn lemma_first_match_hits(a: Seq<ArrivalRecordView>, k: int, t: Seq<char>, j: int)
    requires
        0 <= j <= k < a.len(),
        a[k].time == t,
    ensures
        first_match(a, prefix_used(a.len(), k), t, j) == Some(k),
    decreases k - j,
{
    let used = prefix_used(a.len(), k);
    if j == k {
        assert(!used[k]);
    } else {
        assert(used[j]);
        lemma_first_match_hits(a, k, t, j + 1);
    }
}

proof fn lemma_splice_is_interleave(a: Seq<ArrivalRecordView>, b: Seq<ArrivalRecordView>, k: int)
    requires
        a.len() == b.len(),
        0 <= k <= a.len(),
        forall|i: int| 0 <= i < b.len() ==> b[i].time == a[i].time,
        forall|i: int, j: int| 0 <= i < j < a.len() ==> a[i].time != a[j].time,
    ensures
        spec_splice_from(a, prefix_used(a.len(), k), b.skip(k)) == interleave_from(a, b, k),
    decreases a.len() - k,
{
    let n = a.len();
    let used = prefix_used(n, k);
    let bk = b.skip(k);
    if k == n {
        assert(bk =~= Seq::<ArrivalRecordView>::empty());
    } else {
        assert(bk[0] == b[k]);
        assert(b[k].time == a[k].time);
        lemma_first_match_hits(a, k, bk[0].time, 0);
        assert(used.update(k, true) =~= prefix_used(n, k + 1));
        assert(bk.drop_first() =~= b.skip(k + 1));
        lemma_splice_is_interleave(a, b, k + 1);
    }
}

proof fn lemma_dedup_after_interleave(a: Seq<ArrivalRecordView>, b: Seq<ArrivalRecordView>, k: int)
    requires
        a.len() == b.len(),
        1 <= k <= a.len(),
        forall|i: int| 0 <= i < b.len() ==> b[i].time == a[i].time,
        forall|i: int, j: int| 0 <= i < j < a.len() ==> a[i].time != a[j].time,
    ensures
        dedup_after_arrivals(interleave_from(a, b, k), a[k - 1].time) == a.skip(k),
    decreases a.len() - k,
{
    let n = a.len();
    if k == n {
        assert(interleave_from(a, b, k) =~= Seq::<ArrivalRecordView>::empty());
        assert(a.skip(k) =~= Seq::<ArrivalRecordView>::empty());
    } else {
        let x = interleave_from(a, b, k);
        assert(x[0] == a[k]);
        assert(a[k].time != a[k - 1].time);
        let y = x.drop_first();
        assert(y =~= seq![b[k]] + interleave_from(a, b, k + 1));
        assert(y[0] == b[k]);
        assert(b[k].time == a[k].time);
        assert(y.drop_first() =~= interleave_from(a, b, k + 1));
        lemma_dedup_after_interleave(a, b, k + 1);
        assert(dedup_after_arrivals(x, a[k - 1].time) == seq![a[k]] + dedup_after_arrivals(
            y,
            a[k].time,
        ));
        assert(dedup_after_arrivals(y, a[k].time) == dedup_after_arrivals(
            interleave_from(a, b, k + 1),
            b[k].time,
        ));
        assert(seq![a[k]] + a.skip(k + 1) =~= a.skip(k));
    }
}

/// When the duplicate-pathway list mirrors the canonical list time-for-time
/// — equal lengths, equal times position by position — and the canonical
/// times are pairwise distinct, reconciliation is a no-op: the output equals
/// the canonical list, order preserved. Each spliced-in canonical pair lands
/// directly before its mirror, and the collapse pass removes exactly the
/// mirrors again.
pub proof fn lemma_mirrored_reconcile_is_canonical(
    a: Seq<ArrivalRecordView>,
    b: Seq<ArrivalRecordView>,
)
    requires
        a.len() == b.len(),
        forall|i: int| 0 <= i < b.len() ==> b[i].time == a[i].time,
        forall|i: int, j: int| 0 <= i < j < a.len() ==> a[i].time != a[j].time,
    ensures
        spec_reconcile(a, b) == a,
{
    let n = a.len();
    assert(Seq::new(n, |i: int| false) =~= prefix_used(n, 0));
    assert(b.skip(0) =~= b);
    lemma_splice_is_interleave(a, b, 0);
    if n == 0 {
        assert(interleave_from(a, b, 0) =~= Seq::<ArrivalRecordView>::empty());
        assert(spec_reconcile(a, b) =~= a);
    } else {
        let x = interleave_from(a, b, 0);
        assert(x[0] == a[0]);
        let y = x.drop_first();
        assert(y =~= seq![b[0]] + interleave_from(a, b, 1));
        assert(y[0] == b[0]);
        assert(b[0].time == a[0].time);
        assert(y.drop_first() =~= interleave_from(a, b, 1));
        lemma_dedup_after_interleave(a, b, 1);
        assert(dedup_after_arrivals(y, a[0].time) == dedup_after_arrivals(
            interleave_from(a, b, 1),
            b[0].time,
        ));
        assert(spec_dedup_arrivals(x) == seq![a[0]] + a.skip(1));
        assert(seq![a[0]] + a.skip(1) =~= a);
    }
}

/// Two entries with identical arrival times collapse to one, and the
/// survivor is the earlier entry.
pub proof fn lemma_identical_arrival_collapse(s: Seq<MatchedItineraryView>)
    requires
        s.len() == 2,
        s[0].arrival.time == s[1].arrival.time,
    ensures
        spec_dedup_entries(s) == seq![s[0]],
{
    let rest = s.drop_first();
    assert(rest[0] == s[1]);
    assert(rest.drop_first() =~= Seq::<MatchedItineraryView>::empty());
    assert(dedup_after_entries(rest.drop_first(), rest[0].arrival.time)
        =~= Seq::<MatchedItineraryView>::empty());
    assert(dedup_after_entries(rest, s[0].arrival.time) =~= Seq::<MatchedItineraryView>::empty());
    assert(spec_dedup_entries(s) =~= seq![s[0]]);
}

} // verus!
