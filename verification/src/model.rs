//! Value types shared by the pipeline stages, with their mathematical views.

use vstd::prelude::*;

verus! {

/// One ride segment of an itinerary: a train-type identifier, the station it
/// departs from, and the clock time of that departure.
#[derive(Debug, Clone, PartialEq, Eq)]
pub struct Leg {
    pub train_type: String,
    pub station: String,
    pub time: String,
}

/// Mathematical view of a [`Leg`]: each text field as a sequence of characters.
#[verifier::ext_equal]
pub struct LegView {
    pub train_type: Seq<char>,
    pub station: Seq<char>,
    pub time: Seq<char>,
}

impl View for Leg {
    type V = LegView;

    open spec fn view(&self) -> LegView {
        LegView { train_type: self.train_type@, station: self.station@, time: self.time@ }
    }
}

impl DeepView for Leg {
    type V = LegView;

    open spec fn deep_view(&self) -> LegView {
        self.view()
    }
}

/// The pause between two consecutive legs: the clock time at which the
/// transfer happens and how long the wait lasts.
#[derive(Debug, Clone, PartialEq, Eq)]
pub struct TransferWait {
    pub time: String,
    pub duration: String,
}

/// Mathematical view of a [`TransferWait`].
#[verifier::ext_equal]
pub struct TransferWaitView {
    pub time: Seq<char>,
    pub duration: Seq<char>,
}

impl View for TransferWait {
    type V = TransferWaitView;

    open spec fn view(&self) -> TransferWaitView {
        TransferWaitView { time: self.time@, duration: self.duration@ }
    }
}

impl DeepView for TransferWait {
    type V = TransferWaitView;

    open spec fn deep_view(&self) -> TransferWaitView {
        self.view()
    }
}

/// One complete trip option: its total duration, its legs in travel order,
/// and the waits between consecutive legs.
#[derive(Debug, Clone, PartialEq, Eq)]
pub struct Itinerary {
    pub duration: String,
    pub legs: Vec<Leg>,
    pub transfer_waits: Vec<TransferWait>,
}

/// Mathematical view of an [`Itinerary`].
#[verifier::ext_equal]
pub struct ItineraryView {
    pub duration: Seq<char>,
    pub legs: Seq<LegView>,
    pub transfer_waits: Seq<TransferWaitView>,
}

impl View for Itinerary {
    type V = ItineraryView;

    open spec fn view(&self) -> ItineraryView {
        ItineraryView {
            duration: self.duration@,
            legs: self.legs.deep_view(),
            transfer_waits: self.transfer_waits.deep_view(),
        }
    }
}

impl DeepView for Itinerary {
    type V = ItineraryView;

    open spec fn deep_view(&self) -> ItineraryView {
        self.view()
    }
}

/// The arrival of one itinerary: the clock time and the station reached.
#[derive(Debug, Clone, PartialEq, Eq)]
pub struct ArrivalRecord {
    pub time: String,
    pub station: String,
}

/// Mathematical view of an [`ArrivalRecord`].
#[verifier::ext_equal]
pub struct ArrivalRecordView {
    pub time: Seq<char>,
    pub station: Seq<char>,
}

impl View for ArrivalRecord {
    type V = ArrivalRecordView;

    open spec fn view(&self) -> ArrivalRecordView {
        ArrivalRecordView { time: self.time@, station: self.station@ }
    }
}

impl DeepView for ArrivalRecord {
    type V = ArrivalRecordView;

    open spec fn deep_view(&self) -> ArrivalRecordView {
        self.view()
    }
}

/// An itinerary together with the arrival record reconciled for it.
#[derive(Debug, Clone, PartialEq, Eq)]
pub struct MatchedItinerary {
    pub itinerary: Itinerary,
    pub arrival: ArrivalRecord,
}

/// Mathematical view of a [`MatchedItinerary`].
#[verifier::ext_equal]
pub struct MatchedItineraryView {
    pub itinerary: ItineraryView,
    pub arrival: ArrivalRecordView,
}

impl View for MatchedItinerary {
    type V = MatchedItineraryView;

    open spec fn view(&self) -> MatchedItineraryView {
        MatchedItineraryView { itinerary: self.itinerary@, arrival: self.arrival@ }
    }
}

impl DeepView for MatchedItinerary {
    type V = MatchedItineraryView;

    open spec fn deep_view(&self) -> MatchedItineraryView {
        self.view()
    }
}

/// The reconciled result of one page: the page-wide transfer width and the
/// surviving itineraries, each with its matched arrival record.
#[derive(Debug, Clone, PartialEq, Eq)]
pub struct ItinerarySet {
    pub width: usize,
    pub entries: Vec<MatchedItinerary>,
}

/// Mathematical view of an [`ItinerarySet`].
#[verifier::ext_equal]
pub struct ItinerarySetView {
    pub width: nat,
    pub entries: Seq<MatchedItineraryView>,
}

impl View for ItinerarySet {
    type V = ItinerarySetView;

    open spec fn view(&self) -> ItinerarySetView {
        ItinerarySetView { width: self.width as nat, entries: self.entries.deep_view() }
    }
}

impl DeepView for ItinerarySet {
    type V = ItinerarySetView;

    open spec fn deep_view(&self) -> ItinerarySetView {
        self.view()
    }
}

impl ItinerarySetView {
    /// Every surviving itinerary has exactly `width + 1` legs and `width`
    /// transfer waits.
    pub open spec fn wf(self) -> bool {
        forall|i: int|
            0 <= i < self.entries.len() ==> {
                &&& (#[trigger] self.entries[i]).itinerary.legs.len() == self.width + 1
                &&& self.entries[i].itinerary.transfer_waits.len() == self.width
            }
    }
}

/// Why no table could be built from a page.
#[derive(Debug, Clone, PartialEq, Eq)]
pub enum BuildError {
    /// The page itself contains user-facing error text; the messages are
    /// passed through verbatim.
    SiteReported { messages: Vec<String> },
    /// An extracted field list is inconsistent with the derived transfer
    /// width or with another list: `field` names the list, `expected` the
    /// entry count the shape demands, `actual` the count found.
    DataShape { field: String, expected: usize, actual: usize },
    /// No itineraries and no site-reported error: a valid query with no
    /// service that day.
    EmptyResult,
}

/// Mathematical view of a [`BuildError`].
#[verifier::ext_equal]
pub enum BuildErrorView {
    SiteReported { messages: Seq<Seq<char>> },
    DataShape { field: Seq<char>, expected: nat, actual: nat },
    EmptyResult,
}

impl View for BuildError {
    type V = BuildErrorView;

    open spec fn view(&self) -> BuildErrorView {
        match self {
            BuildError::SiteReported { messages } => BuildErrorView::SiteReported {
                messages: messages.deep_view(),
            },
            BuildError::DataShape { field, expected, actual } => BuildErrorView::DataShape {
                field: field@,
                expected: *expected as nat,
                actual: *actual as nat,
            },
            BuildError::EmptyResult => BuildErrorView::EmptyResult,
        }
    }
}

impl DeepView for BuildError {
    type V = BuildErrorView;

    open spec fn deep_view(&self) -> BuildErrorView {
        self.view()
    }
}

} // verus!
