//! The timetable request: the form body submitted to search a timetable,
//! built from the origin and destination station ids and the search date.

use vstd::prelude::*;
use vstd::string::StringExecFns;

verus! {

/// The form body of a timetable search: the origin and destination ids and
/// the date, with the fixed search parameters.
pub open spec fn spec_request_body(
    origin: Seq<char>,
    destination: Seq<char>,
    date: Seq<char>,
) -> Seq<char> {
    "origen="@ + origin + "&desti="@ + destination + "&dataViatge="@ + date
        + "&horaIni=00&lang=en&cercaRodalies=true&tornada=false"@
}

/// Builds the form body of a timetable search.
pub fn timetable_request_body(origin: &str, destination: &str, date: &str) -> (r: String)
    ensures
        r@ == spec_request_body(origin@, destination@, date@),
{
    let mut s = "origen=".to_owned();
    s.append(origin);
    s.append("&desti=");
    s.append(destination);
    s.append("&dataViatge=");
    s.append(date);
    s.append("&horaIni=00&lang=en&cercaRodalies=true&tornada=false");
    proof {
        assert(s@ =~= spec_request_body(origin@, destination@, date@));
    }
    s
}

} // verus!
