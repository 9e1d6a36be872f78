//! Stations: the list extracted from the search page, and the
//! case-insensitive name search used to pick origin and destination.

use vstd::prelude::*;

use crate::query::Document;
use crate::query::spec_query_attr_present;
use crate::query::spec_query_text;
use crate::text::chars_of;
use crate::text::contains_chars;
use crate::text::contains_seq;

verus! {

/// A station as the site lists it: the internal identifier submitted with a
/// search, and the display name.
#[derive(Debug, Clone, PartialEq, Eq)]
pub struct Station {
    pub id: String,
    pub name: String,
}

/// Mathematical view of a [`Station`].
#[verifier::ext_equal]
pub struct StationView {
    pub id: Seq<char>,
    pub name: Seq<char>,
}

impl View for Station {
    type V = StationView;

    open spec fn view(&self) -> StationView {
        StationView { id: self.id@, name: self.name@ }
    }
}

impl DeepView for Station {
    type V = StationView;

    open spec fn deep_view(&self) -> StationView {
        self.view()
    }
}

/// A string lowered to its lower-case form.
pub uninterp spec fn lower_of(s: Seq<char>) -> Seq<char>;

/// Relies on `str::to_lowercase`: the result depends on the characters
/// alone, and an empty string stays empty.
#[verifier::external_body]
fn to_lowercase(s: &str) -> (r: String)
    ensures
        r@ == lower_of(s@),
        s@.len() == 0 ==> r@.len() == 0,
{
    s.to_lowercase()
}

/// The first `k` id/name pairs, keeping those whose id is non-empty, in
/// order.
pub open spec fn pair_stations_upto(
    ids: Seq<Seq<char>>,
    names: Seq<Seq<char>>,
    k: int,
) -> Seq<StationView>
    decreases k,
{
    if k <= 0 {
        Seq::empty()
    } else {
        let rest = pair_stations_upto(ids, names, k - 1);
        let st = StationView { id: ids[k - 1], name: names[k - 1] };
        if st.id.len() > 0 {
            rest + seq![st]
        } else {
            rest
        }
    }
}

/// Id and name lists paired positionally — the shorter list decides how
/// many pairs there are — keeping the pairs with a non-empty id.
pub open spec fn spec_pair_stations(
    ids: Seq<Seq<char>>,
    names: Seq<Seq<char>>,
) -> Seq<StationView> {
    let k = if ids.len() <= names.len() {
        ids.len()
    } else {
        names.len()
    };
    pair_stations_upto(ids, names, k as int)
}

/// Pairs extracted id and name lists into stations, dropping entries with
/// an empty id — the site's placeholder option carries none.
pub fn pair_stations(ids: &Vec<String>, names: &Vec<String>) -> (r: Vec<Station>)
    ensures
        r.deep_view() == spec_pair_stations(ids.deep_view(), names.deep_view()),
{
    let m = if ids.len() <= names.len() {
        ids.len()
    } else {
        names.len()
    };
    let mut out: Vec<Station> = Vec::new();
    for i in 0..m
        invariant
            m <= ids@.len(),
            m <= names@.len(),
            out.deep_view() =~= pair_stations_upto(ids.deep_view(), names.deep_view(), i as int),
    {
        if !ids[i].as_str().is_empty() {
            let ghost pre = out.deep_view();
            out.push(Station { id: ids[i].clone(), name: names[i].clone() });
            proof {
                assert(out.deep_view() =~= pre.push(
                    StationView {
                        id: ids.deep_view()[i as int],
                        name: names.deep_view()[i as int],
                    },
                ));
            }
        }
        proof {
            assert(out.deep_view() =~= pair_stations_upto(
                ids.deep_view(),
                names.deep_view(),
                i + 1,
            ));
        }
    }
    out
}

/// Reads the station list from the search page: each option's `value`
/// attribute is the station id, its text the display name; options without
/// an id — the placeholder — are dropped.
pub fn stations_from_page(doc: &Document) -> (r: Vec<Station>)
    ensures
        r.deep_view() == spec_pair_stations(
            spec_query_attr_present(doc@, "#origen > option"@, "value"@),
            spec_query_text(doc@, "#origen > option"@),
        ),
{
    let ids = doc.query_attr_present("#origen > option", "value");
    let names = doc.query_text("#origen > option");
    pair_stations(&ids, &names)
}

/// A station's name matches a search text when the lower-cased name
/// contains the lower-cased search text.
pub open spec fn station_matches(st: StationView, search: Seq<char>) -> bool {
    contains_seq(lower_of(st.name), lower_of(search))
}

/// The stations whose names match the search text, in order.
pub open spec fn spec_filter_stations(
    stations: Seq<StationView>,
    search: Seq<char>,
) -> Seq<StationView>
    decreases stations.len(),
{
    if stations.len() == 0 {
        Seq::empty()
    } else {
        let rest = spec_filter_stations(stations.drop_last(), search);
        if station_matches(stations.last(), search) {
            rest + seq![stations.last()]
        } else {
            rest
        }
    }
}

/// Keeps the stations whose lower-cased name contains the lower-cased
/// search text, in order.
pub fn filter_stations(stations: &Vec<Station>, search: &str) -> (r: Vec<Station>)
    ensures
        r.deep_view() == spec_filter_stations(stations.deep_view(), search@),
{
    let lowered = to_lowercase(search);
    let needle = chars_of(lowered.as_str());
    let n = stations.len();
    let mut out: Vec<Station> = Vec::new();
    for i in 0..n
        invariant
            n == stations@.len(),
            needle@ == lower_of(search@),
            out.deep_view() =~= spec_filter_stations(
                stations.deep_view().take(i as int),
                search@,
            ),
    {
        let low_name = to_lowercase(stations[i].name.as_str());
        let hay = chars_of(low_name.as_str());
        if contains_chars(&hay, &needle) {
            let ghost pre = out.deep_view();
            out.push(
                Station { id: stations[i].id.clone(), name: stations[i].name.clone() },
            );
            proof {
                assert(out.deep_view() =~= pre.push(stations.deep_view()[i as int]));
            }
        }
        proof {
            assert(stations.deep_view().take(i + 1).drop_last() =~= stations.deep_view().take(
                i as int,
            ));
            assert(stations.deep_view().take(i + 1).last() == stations.deep_view()[i as int]);
            assert(out.deep_view() =~= spec_filter_stations(
                stations.deep_view().take(i + 1),
                search@,
            ));
        }
    }
    proof {
        assert(stations.deep_view().take(n as int) =~= stations.deep_view());
    }
    out
}

/// Turns a 1-based menu choice into a 0-based list index: `Some(choice - 1)`
/// exactly when `choice` lies in `1 ..= len`.
pub fn choice_to_index(choice: usize, len: usize) -> (r: Option<usize>)
    ensures
        r is Some <==> 1 <= choice <= len,
        r matches Some(i) ==> i == choice - 1,
{
    if 1 <= choice && choice <= len {
        Some(choice - 1)
    } else {
        None
    }
}

} // verus!
