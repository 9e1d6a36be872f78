//! The declarative extraction schema: which selector feeds each field of the
//! raw extraction, decoupling what to extract from how it is reshaped.
//!
//! Every field is an ordered list of trimmed strings spanning the whole page;
//! list position encodes document order. The page's class names and nesting
//! form an unversioned external contract that can break without notice: the
//! pipeline treats them as an unvalidated assumption and checks only shape.
//!
//! Arrival markers come in two renderings: the canonical one, tagged `true`,
//! and the duplicated one inside the expanded alternate rendering's `mask`
//! block. The reconciler merges the two lists.

use vstd::prelude::*;

use crate::query::Document;
use crate::query::spec_query_attr;
use crate::query::spec_query_text;

verus! {

/// The flat per-field extraction lists of one page, in document order.
#[derive(Debug, Clone, PartialEq, Eq)]
pub struct RawExtraction {
    /// Total trip duration, one entry per rendered itinerary.
    pub durations: Vec<String>,
    /// Train-type identifier of each departure slot (image alternative text).
    pub departure_train_types: Vec<String>,
    /// Station of each departure slot.
    pub departure_stations: Vec<String>,
    /// Clock time of each departure slot.
    pub departure_times: Vec<String>,
    /// Clock time of each transfer slot.
    pub transfer_times: Vec<String>,
    /// Wait duration of each transfer slot.
    pub transfer_durations: Vec<String>,
    /// Clock times of the canonical (`true`-tagged) arrival markers.
    pub canonical_arrival_times: Vec<String>,
    /// Stations of the canonical arrival markers.
    pub canonical_arrival_stations: Vec<String>,
    /// Clock times of the expanded-rendering arrival markers.
    pub expanded_arrival_times: Vec<String>,
    /// Stations of the expanded-rendering arrival markers.
    pub expanded_arrival_stations: Vec<String>,
    /// User-facing error text reported by the site itself.
    pub site_errors: Vec<String>,
    /// Connection markers of the page summary; their count derives the
    /// page-wide transfer width.
    pub connection_markers: Vec<String>,
}

/// Mathematical view of a [`RawExtraction`].
#[verifier::ext_equal]
pub struct RawExtractionView {
    pub durations: Seq<Seq<char>>,
    pub departure_train_types: Seq<Seq<char>>,
    pub departure_stations: Seq<Seq<char>>,
    pub departure_times: Seq<Seq<char>>,
    pub transfer_times: Seq<Seq<char>>,
    pub transfer_durations: Seq<Seq<char>>,
    pub canonical_arrival_times: Seq<Seq<char>>,
    pub canonical_arrival_stations: Seq<Seq<char>>,
    pub expanded_arrival_times: Seq<Seq<char>>,
    pub expanded_arrival_stations: Seq<Seq<char>>,
    pub site_errors: Seq<Seq<char>>,
    pub connection_markers: Seq<Seq<char>>,
}

impl View for RawExtraction {
    type V = RawExtractionView;

    open spec fn view(&self) -> RawExtractionView {
        RawExtractionView {
            durations: self.durations.deep_view(),
            departure_train_types: self.departure_train_types.deep_view(),
            departure_stations: self.departure_stations.deep_view(),
            departure_times: self.departure_times.deep_view(),
            transfer_times: self.transfer_times.deep_view(),
            transfer_durations: self.transfer_durations.deep_view(),
            canonical_arrival_times: self.canonical_arrival_times.deep_view(),
            canonical_arrival_stations: self.canonical_arrival_stations.deep_view(),
            expanded_arrival_times: self.expanded_arrival_times.deep_view(),
            expanded_arrival_stations: self.expanded_arrival_stations.deep_view(),
            site_errors: self.site_errors.deep_view(),
            connection_markers: self.connection_markers.deep_view(),
        }
    }
}

impl DeepView for RawExtraction {
    type V = RawExtractionView;

    open spec fn deep_view(&self) -> RawExtractionView {
        self.view()
    }
}

/// What [`extract_fields`] returns on a page: each field list as its
/// selector's trimmed query result.
pub open spec fn spec_extract(page: Seq<char>) -> RawExtractionView {
    RawExtractionView {
        durations: spec_query_text(page, "#acordio_resultats div.resultats-fila > div.durada"@),
        departure_train_types: spec_query_attr(
            page,
            "#acordio_resultats li.sortida div.timeline-badge > img"@,
            "alt"@,
        ),
        departure_stations: spec_query_text(
            page,
            "#acordio_resultats li.sortida div.estacio > h3.timeline-title"@,
        ),
        departure_times: spec_query_text(
            page,
            "#acordio_resultats li.sortida > div.horari > div.hora"@,
        ),
        transfer_times: spec_query_text(
            page,
            "#acordio_resultats li.transbord > div.horari > div.hora"@,
        ),
        transfer_durations: spec_query_text(
            page,
            "#acordio_resultats li.transbord > div.horari > div.temps > span"@,
        ),
        canonical_arrival_times: spec_query_text(
            page,
            "#acordio_resultats li.arribada.true > div.horari > div.hora"@,
        ),
        canonical_arrival_stations: spec_query_text(
            page,
            "#acordio_resultats li.arribada.true div.estacio > h3.timeline-title"@,
        ),
        expanded_arrival_times: spec_query_text(
            page,
            "#acordio_resultats li.arribada > div.mask > div.horari > div.hora"@,
        ),
        expanded_arrival_stations: spec_query_text(
            page,
            "#acordio_resultats li.arribada > div.mask div.estacio > h3.timeline-title"@,
        ),
        site_errors: spec_query_text(page, ".error_contingut > p"@),
        connection_markers: spec_query_text(
            page,
            "div.resum > div.col-sm-12 > div.taula.d60 > div.cel"@,
        ),
    }
}

/// Runs every selector of the schema over the document and collects the
/// field lists that the segmenter and the reconciler work on.
pub fn extract_fields(doc: &Document) -> (r: RawExtraction)
    ensures
        r@ == spec_extract(doc@),
{
    let r = RawExtraction {
        durations: doc.query_text("#acordio_resultats div.resultats-fila > div.durada"),
        departure_train_types: doc.query_attr(
            "#acordio_resultats li.sortida div.timeline-badge > img",
            "alt",
        ),
        departure_stations: doc.query_text(
            "#acordio_resultats li.sortida div.estacio > h3.timeline-title",
        ),
        departure_times: doc.query_text("#acordio_resultats li.sortida > div.horari > div.hora"),
        transfer_times: doc.query_text("#acordio_resultats li.transbord > div.horari > div.hora"),
        transfer_durations: doc.query_text(
            "#acordio_resultats li.transbord > div.horari > div.temps > span",
        ),
        canonical_arrival_times: doc.query_text(
            "#acordio_resultats li.arribada.true > div.horari > div.hora",
        ),
        canonical_arrival_stations: doc.query_text(
            "#acordio_resultats li.arribada.true div.estacio > h3.timeline-title",
        ),
        expanded_arrival_times: doc.query_text(
            "#acordio_resultats li.arribada > div.mask > div.horari > div.hora",
        ),
        expanded_arrival_stations: doc.query_text(
            "#acordio_resultats li.arribada > div.mask div.estacio > h3.timeline-title",
        ),
        site_errors: doc.query_text(".error_contingut > p"),
        connection_markers: doc.query_text("div.resum > div.col-sm-12 > div.taula.d60 > div.cel"),
    };
    proof {
        assert(r@ =~= spec_extract(doc@));
    }
    r
}

} // verus!
