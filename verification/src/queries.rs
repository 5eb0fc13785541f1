//! The queries by which the feed is read from its database.

use vstd::prelude::*;

verus! {

/// The query for the rows of the calendar: each service, joined with each of
/// its exceptions.
pub const SERVICE_QUERY: &'static str =
    "SELECT s.*, se.service_date, se.exception_type FROM service s LEFT JOIN service_exception se ON se.service_id = s.service_id;";

/// The query for the stop-times of one stop, which is its one parameter.
pub const STOP_QUERY: &'static str =
    "SELECT st.arrival_time, st.departure_time, t.trip_id, s.service_id, t.short_name, t.headsign FROM stop_time st INNER JOIN trip t ON t.trip_id = st.trip_id INNER JOIN service s ON s.service_id = t.service_id INNER JOIN route r ON r.route_id = t.route_id INNER JOIN agency a ON a.agency_id = r.agency_id WHERE st.stop_id = ?1;";

/// The query for the main stations, which is asked while nothing is searched
/// for.
pub const MAIN_STATION_QUERY: &'static str =
    "SELECT MIN(stop_id), name FROM stop WHERE name LIKE '%Hbf' OR name LIKE '%Hauptbahnhof' GROUP BY name;";

/// What stands before the searched text in the query for stations by name.
pub const STATION_QUERY_HEAD: &'static str = "SELECT MIN(stop_id), name FROM stop WHERE name LIKE '%";

/// What stands behind the searched text in the query for stations by name.
pub const STATION_QUERY_TAIL: &'static str = "%' GROUP BY name;";

/// The text of the query for stations: the main stations where `input` is
/// empty, else the stations whose name holds `input`.
pub open spec fn station_query(input: Seq<char>) -> Seq<char> {
    if input.len() == 0 {
        MAIN_STATION_QUERY@
    } else {
        STATION_QUERY_HEAD@ + input + STATION_QUERY_TAIL@
    }
}

/// The query for the stations to choose from: the main stations where
/// `input` is empty, else the stations whose name holds `input`.
pub fn get_station_query(input: &str) -> (query: String)
    ensures
        query@ == station_query(input@),
{
    if input.is_empty() {
        String::from_str(MAIN_STATION_QUERY)
    } else {
        let mut query = String::from_str(STATION_QUERY_HEAD);
        query.append(input);
        query.append(STATION_QUERY_TAIL);
        query
    }
}

} // verus!
