//! The requests that the client makes, and the decisions it takes on the
//! answers. Sending and receiving is left to the caller.

use vstd::prelude::*;
use crate::errors::MvgError;
use crate::models::{TransportType, api_code_of};
use crate::station_id::{contains_station_id, regex_is_match};
use crate::text::{
    all_digits, decimal, decimal_value, i64_to_decimal, joined, lemma_decimal_round_trip,
    lemma_joined_push, lemma_signed_decimal, signed_decimal, u64_to_decimal,
};
use crate::urls::{opt_text, pairs_text, joined_url, url_with_query, join_url, add_query_pairs};

verus! {

/// The user agent that the client sends.
pub const MVG_USER_AGENT: &'static str = "Mozilla/5.0 (Windows NT 10.0; Win64; x64)";

/// The base URL of the ZDM master data API.
pub const MVG_ZDM_BASE: &'static str = "https://www.mvg.de/.rest/zdm/";

/// The base URL of the FIB timetable API.
pub const MVG_FIB_BASE: &'static str = "https://www.mvg.de/api/bgw-pt/v3/";

/// `url` with `pairs` appended to its query, where `url` could be formed.
pub open spec fn then_query(url: Option<Seq<char>>, pairs: Seq<(Seq<char>, Seq<char>)>) -> Option<
    Seq<char>,
> {
    match url {
        Some(u) => url_with_query(u, pairs),
        None => None,
    }
}

/// The query of a station search by name.
pub open spec fn search_pairs(query: Seq<char>) -> Seq<(Seq<char>, Seq<char>)> {
    seq![("query"@, query), ("locationTypes"@, "STATION"@)]
}

/// The value of the `transportTypes` parameter: the codes, comma separated.
pub open spec fn transport_types_text(types: Seq<TransportType>) -> Seq<char> {
    joined(types.map_values(|t: TransportType| api_code_of(t)), ","@)
}

/// The query of a departures request.
pub open spec fn departure_pairs(
    station_id: Seq<char>,
    limit: nat,
    offset_mins: int,
    filters: Option<Seq<TransportType>>,
) -> Seq<(Seq<char>, Seq<char>)> {
    let base = seq![
        ("globalId"@, station_id),
        ("limit"@, decimal(limit)),
        ("offsetInMinutes"@, signed_decimal(offset_mins)),
    ];
    match filters {
        Some(types) => base.push(("transportTypes"@, transport_types_text(types))),
        None => base,
    }
}

/// The query of a nearby-stations request.
pub open spec fn nearby_pairs(latitude: Seq<char>, longitude: Seq<char>) -> Seq<
    (Seq<char>, Seq<char>),
> {
    seq![("latitude"@, latitude), ("longitude"@, longitude)]
}

/// The filter types, where there are any.
pub open spec fn filters_view(filters: Option<Vec<TransportType>>) -> Option<Seq<TransportType>> {
    match filters {
        Some(v) => Some(v@),
        None => None,
    }
}

/// How a station is looked up, with the URL to fetch (`None` where the URL
/// could not be formed).
pub enum StationLookup {
    /// The query is a global identifier: fetch that one station.
    ById(Option<String>),
    /// The query is a name: search for it and take the first result.
    Search(Option<String>),
}

/// What to do with the answer to a station lookup.
#[derive(Debug, Clone, Copy, PartialEq, Eq, Structural)]
pub enum StationReply {
    /// Decode the body as one station; the lookup found it.
    DecodeOne,
    /// Decode the body as a list of stations; the first one, if any, is the result.
    DecodeFirstOfList,
    /// The lookup found no station; the body is not read.
    NoStation,
}

/// The client: the base URLs of the two MVG APIs.
pub struct MvgClient {
    fib_base: String,
    zdm_base: String,
}

impl MvgClient {
    /// The base URL of the timetable API.
    pub closed spec fn fib_base_text(&self) -> Seq<char> {
        self.fib_base@
    }

    /// The base URL of the master data API.
    pub closed spec fn zdm_base_text(&self) -> Seq<char> {
        self.zdm_base@
    }

    pub fn new() -> (c: Self)
        ensures
            c.fib_base_text() == MVG_FIB_BASE@,
            c.zdm_base_text() == MVG_ZDM_BASE@,
    {
        MvgClient {
            fib_base: String::from_str(MVG_FIB_BASE),
            zdm_base: String::from_str(MVG_ZDM_BASE),
        }
    }

    /// Whether `id` holds a global station identifier: text that matches
    /// `de:[0-9]{2,5}:[0-9]+` somewhere.
    pub fn is_valid_station_id(id: &str) -> (r: bool)
        ensures
            r == contains_station_id(id@),
    {
        let pattern = "de:[0-9]{2,5}:[0-9]+";
        match regex_is_match(pattern, id) {
            Ok(found) => found,
            Err(_) => false,
        }
    }

    /// The request that finds a station by global identifier or by name:
    /// a global identifier is fetched from the master data API at
    /// `stations/{query}`; anything else is searched for by name in the
    /// timetable API's `locations`, restricted to stations.
    pub fn station_request(&self, query: &str) -> (r: StationLookup)
        ensures
            contains_station_id(query@) ==> r is ById && opt_text(r->ById_0) == joined_url(
                self.zdm_base_text(),
                "stations/"@ + query@,
            ),
            !contains_station_id(query@) ==> r is Search && opt_text(r->Search_0) == then_query(
                joined_url(self.fib_base_text(), "locations"@),
                search_pairs(query@),
            ),
    {
        if Self::is_valid_station_id(query) {
            let mut path = String::from_str("stations/");
            path.append(query);
            proof {
                reveal_strlit("stations/");
            }
            StationLookup::ById(join_url(self.zdm_base.as_str(), path.as_str()))
        } else {
            match join_url(self.fib_base.as_str(), "locations") {
                Some(url) => {
                    let pairs = vec![
                        (String::from_str("query"), String::from_str(query)),
                        (String::from_str("locationTypes"), String::from_str("STATION")),
                    ];
                    assert(pairs_text(pairs@) =~= search_pairs(query@));
                    StationLookup::Search(add_query_pairs(url.as_str(), &pairs))
                },
                None => StationLookup::Search(None),
            }
        }
    }

    /// The request for the departures at a station: `Err(InvalidStationId)`
    /// unless `station_id` holds a global identifier; otherwise the
    /// timetable API's `departures` with the station, the limit, the offset
    /// in minutes, and the transport types to keep where there are any.
    pub fn departures_request(
        &self,
        station_id: &str,
        limit: usize,
        offset_mins: i32,
        filters: Option<Vec<TransportType>>,
    ) -> (r: Result<Option<String>, MvgError>)
        ensures
            !contains_station_id(station_id@) ==> r is Err && r->Err_0 is InvalidStationId,
            contains_station_id(station_id@) ==> r is Ok && opt_text(r->Ok_0) == then_query(
                joined_url(self.fib_base_text(), "departures"@),
                departure_pairs(station_id@, limit as nat, offset_mins as int, filters_view(filters)),
            ),
    {
        if !Self::is_valid_station_id(station_id) {
            return Err(MvgError::InvalidStationId);
        }
        let url = match join_url(self.fib_base.as_str(), "departures") {
            Some(u) => u,
            None => return Ok(None),
        };
        let mut pairs: Vec<(String, String)> = Vec::new();
        pairs.push((String::from_str("globalId"), String::from_str(station_id)));
        pairs.push((String::from_str("limit"), u64_to_decimal(limit as u64)));
        pairs.push((String::from_str("offsetInMinutes"), i64_to_decimal(offset_mins as i64)));
        match &filters {
            Some(types) => {
                pairs.push((String::from_str("transportTypes"), transport_types_param(types)));
            },
            None => {},
        }
        assert(pairs_text(pairs@) =~= departure_pairs(
            station_id@,
            limit as nat,
            offset_mins as int,
            filters_view(filters),
        ));
        Ok(add_query_pairs(url.as_str(), &pairs))
    }

    /// The request for the stations near a position, given as the decimal
    /// texts of latitude and longitude.
    pub fn nearby_request(&self, latitude: &str, longitude: &str) -> (r: Option<String>)
        ensures
            opt_text(r) == then_query(
                joined_url(self.fib_base_text(), "stations/nearby"@),
                nearby_pairs(latitude@, longitude@),
            ),
    {
        match join_url(self.fib_base.as_str(), "stations/nearby") {
            Some(url) => {
                let pairs = vec![
                    (String::from_str("latitude"), String::from_str(latitude)),
                    (String::from_str("longitude"), String::from_str(longitude)),
                ];
                assert(pairs_text(pairs@) =~= nearby_pairs(latitude@, longitude@));
                add_query_pairs(url.as_str(), &pairs)
            },
            None => None,
        }
    }

    /// The request for the master list of all stations.
    pub fn stations_request(&self) -> (r: Option<String>)
        ensures
            opt_text(r) == joined_url(self.zdm_base_text(), "stations"@),
    {
        join_url(self.zdm_base.as_str(), "stations")
    }

    /// The request for the list of all lines.
    pub fn lines_request(&self) -> (r: Option<String>)
        ensures
            opt_text(r) == joined_url(self.zdm_base_text(), "lines"@),
    {
        join_url(self.zdm_base.as_str(), "lines")
    }

    /// The request for the list of all global station identifiers.
    pub fn station_global_ids_request(&self) -> (r: Option<String>)
        ensures
            opt_text(r) == joined_url(self.zdm_base_text(), "mvgStationGlobalIds"@),
    {
        join_url(self.zdm_base.as_str(), "mvgStationGlobalIds")
    }
}

impl Default for MvgClient {
    fn default() -> (c: Self)
        ensures
            c.fib_base_text() == MVG_FIB_BASE@,
            c.zdm_base_text() == MVG_ZDM_BASE@,
    {
        MvgClient::new()
    }
}

/// The `transportTypes` parameter for the given types.
pub fn transport_types_param(types: &Vec<TransportType>) -> (r: String)
    ensures
        r@ == transport_types_text(types@),
{
    let ghost parts = types@.map_values(|t: TransportType| api_code_of(t));
    let mut s = String::new();
    let n: usize = types.len();
    for i in 0..n
        invariant
            n == types@.len(),
            parts == types@.map_values(|t: TransportType| api_code_of(t)),
            s@ == joined(parts.take(i as int), ","@),
    {
        let code = types[i].api_code();
        if i > 0 {
            s.append(",");
        }
        s.append(code);
        proof {
            assert(parts.take(i + 1).drop_last() =~= parts.take(i as int));
            assert(parts.take(i + 1).last() == parts[i as int]);
            if i == 0 {
                assert(parts.take(0) =~= Seq::<Seq<char>>::empty());
                assert(s@ =~= parts[0]);
            }
        }
    }
    assert(parts.take(n as int) =~= parts);
    s
}

impl StationLookup {
    /// What to do with the answer: a lookup by identifier decodes one
    /// station where the status is a success and finds none otherwise; a
    /// search decodes the list of stations whatever the status.
    pub fn reply(&self, status_success: bool) -> (r: StationReply)
        ensures
            self is ById && status_success ==> r == StationReply::DecodeOne,
            self is ById && !status_success ==> r == StationReply::NoStation,
            self is Search ==> r == StationReply::DecodeFirstOfList,
    {
        match self {
            StationLookup::ById(_) => if status_success {
                StationReply::DecodeOne
            } else {
                StationReply::NoStation
            },
            StationLookup::Search(_) => StationReply::DecodeFirstOfList,
        }
    }
}

/// The first item of a list, if any.
pub fn first_of<T>(items: Vec<T>) -> (r: Option<T>)
    ensures
        items@.len() == 0 ==> r is None,
        items@.len() > 0 ==> r == Some(items@[0]),
{
    let mut items = items;
    if items.len() == 0 {
        None
    } else {
        Some(items.swap_remove(0))
    }
}

/// `Err(NotFound)` unless the status of an answer is a success.
pub fn require_success(status_success: bool) -> (r: Result<(), MvgError>)
    ensures
        status_success <==> r is Ok,
        !status_success ==> r->Err_0 is NotFound,
{
    if status_success {
        Ok(())
    } else {
        Err(MvgError::NotFound)
    }
}


/// A name search sends the whole query text, unchanged, as `query`, and
/// restricts the search to stations.
pub proof fn lemma_search_sends_query(query: Seq<char>)
    ensures
        search_pairs(query).len() == 2,
        search_pairs(query)[0].0 == "query"@,
        search_pairs(query)[0].1 == query,
        search_pairs(query)[1] == ("locationTypes"@, "STATION"@),
{
}

/// A nearby request sends the latitude as given under `latitude` and the
/// longitude as given under `longitude`.
pub proof fn lemma_nearby_sends_position(latitude: Seq<char>, longitude: Seq<char>)
    ensures
        nearby_pairs(latitude, longitude).len() == 2,
        nearby_pairs(latitude, longitude)[0].0 == "latitude"@,
        nearby_pairs(latitude, longitude)[0].1 == latitude,
        nearby_pairs(latitude, longitude)[1].0 == "longitude"@,
        nearby_pairs(latitude, longitude)[1].1 == longitude,
{
}

/// A departures request sends the station identifier unchanged, the limit
/// and the offset as decimal numbers of the same value (the offset with a
/// leading `-` exactly when it is negative), and the transport types only
/// where a filter is given.
pub proof fn lemma_departures_query(
    station_id: Seq<char>,
    limit: nat,
    offset_mins: int,
    filters: Option<Seq<TransportType>>,
)
    ensures
        ({
            let q = departure_pairs(station_id, limit, offset_mins, filters);
            &&& q.len() == if filters is Some { 4int } else { 3int }
            &&& q[0] == ("globalId"@, station_id)
            &&& q[1].0 == "limit"@
            &&& q[1].1.len() >= 1
            &&& all_digits(q[1].1)
            &&& decimal_value(q[1].1) == limit
            &&& q[2].0 == "offsetInMinutes"@
            &&& (offset_mins >= 0 ==> q[2].1.len() >= 1 && all_digits(q[2].1) && decimal_value(
                q[2].1,
            ) == offset_mins)
            &&& (offset_mins < 0 ==> q[2].1.len() >= 2 && q[2].1[0] == '-' && all_digits(
                q[2].1.drop_first(),
            ) && decimal_value(q[2].1.drop_first()) == -offset_mins)
            &&& (filters matches Some(types) ==> q[3] == ("transportTypes"@, transport_types_text(
                types,
            )))
        }),
{
    lemma_decimal_round_trip(limit);
    lemma_signed_decimal(offset_mins);
}

/// The transport-type filter lists the codes of the types in order,
/// separated by commas: nothing for no types, and one more type adds a
/// comma and its code.
pub proof fn lemma_transport_types_text(types: Seq<TransportType>, t: TransportType)
    ensures
        transport_types_text(Seq::empty()) == Seq::<char>::empty(),
        types.len() == 0 ==> transport_types_text(types.push(t)) == api_code_of(t),
        types.len() > 0 ==> transport_types_text(types.push(t)) == transport_types_text(types)
            + ","@ + api_code_of(t),
{
    let f = |x: TransportType| api_code_of(x);
    assert(types.push(t).map_values(f) =~= types.map_values(f).push(api_code_of(t)));
    assert(Seq::<TransportType>::empty().map_values(f) =~= Seq::<Seq<char>>::empty());
    lemma_joined_push(types.map_values(f), ","@, api_code_of(t));
}

} // verus!
