//! Reconstruction of structured trip itineraries from the flat text fragments
//! of a scraped timetable results page.
//!
//! The pipeline has four stages, each in its own module and each feeding the
//! next: the document query layer (`query`) extracts ordered, trimmed text
//! lists from the page; the segmenter (`segment`) reshapes those flat lists
//! into per-itinerary leg sequences using the page-wide transfer width; the
//! arrival reconciler (`reconcile`) merges the page's duplicated arrival
//! renderings so that exactly one arrival record survives per itinerary; and
//! the row renderer (`render`) projects the result into a rectangular
//! header-plus-rows table. `pipeline` ties the stages together.
//!
//! The surrounding command-line tool (argument parsing, HTTP fetching,
//! terminal tables) lives outside this crate; `station`, `date`, `request`
//! and `version` hold the computational parts it needs.

pub mod model;
pub mod query;
pub mod extract;
pub mod segment;
pub mod reconcile;
pub mod render;
pub mod pipeline;
pub mod text;
pub mod station;
pub mod date;
pub mod request;
pub mod version;
