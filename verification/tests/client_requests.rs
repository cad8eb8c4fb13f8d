use mvg::client::{
    first_of, require_success, transport_types_param, MvgClient, StationLookup, StationReply,
    MVG_FIB_BASE, MVG_ZDM_BASE,
};
use mvg::errors::MvgError;
use mvg::models::TransportType;

#[test]
fn global_station_ids_are_recognised() {
    assert!(MvgClient::is_valid_station_id("de:09162:100"));
    assert!(MvgClient::is_valid_station_id("de:09162:2"));
    assert!(MvgClient::is_valid_station_id("de:12:3"));
    assert!(MvgClient::is_valid_station_id("de:12345:67890"));
    // the pattern is not anchored
    assert!(MvgClient::is_valid_station_id("xx de:09162:1 yy"));

}

#[test]
fn names_are_not_station_ids() {
    assert!(!MvgClient::is_valid_station_id("Marienplatz"));
    assert!(!MvgClient::is_valid_station_id("Hauptbahnhof"));
    assert!(!MvgClient::is_valid_station_id(""));
    assert!(!MvgClient::is_valid_station_id("de:1:2"));
    assert!(!MvgClient::is_valid_station_id("de:09162:"));
    assert!(!MvgClient::is_valid_station_id("de:123456:7"));
    assert!(!MvgClient::is_valid_station_id("DE:09162:1"));
    assert!(!MvgClient::is_valid_station_id("at:09162:1"));
}

#[test]
fn station_lookup_by_global_id() {
    let client = MvgClient::new();
    match client.station_request("de:09162:2") {
        StationLookup::ById(url) => {
            assert_eq!(url.as_deref(), Some("https://www.mvg.de/.rest/zdm/stations/de:09162:2"));
        }
        StationLookup::Search(_) => panic!("a global id is looked up directly"),
    }
}

#[test]
fn station_lookup_by_name() {
    let client = MvgClient::new();
    match client.station_request("Marienplatz") {
        StationLookup::Search(url) => {
            assert_eq!(
                url.as_deref(),
                Some("https://www.mvg.de/api/bgw-pt/v3/locations?query=Marienplatz&locationTypes=STATION")
            );
        }
        StationLookup::ById(_) => panic!("a name is searched for"),
    }
    match client.station_request("Sendlinger Tor") {
        StationLookup::Search(url) => {
            assert_eq!(
                url.as_deref(),
                Some("https://www.mvg.de/api/bgw-pt/v3/locations?query=Sendlinger+Tor&locationTypes=STATION")
            );
        }
        StationLookup::ById(_) => panic!("a name is searched for"),
    }
}

#[test]
fn station_replies() {
    let by_id = StationLookup::ById(None);
    let search = StationLookup::Search(None);
    assert_eq!(by_id.reply(true), StationReply::DecodeOne);
    assert_eq!(by_id.reply(false), StationReply::NoStation);
    assert_eq!(search.reply(true), StationReply::DecodeFirstOfList);
    assert_eq!(search.reply(false), StationReply::DecodeFirstOfList);
}

#[test]
fn first_of_a_list() {
    assert_eq!(first_of(vec![3, 1, 2]), Some(3));
    assert_eq!(first_of::<u8>(vec![]), None);
}

#[test]
fn departures_request_url() {
    let client = MvgClient::new();
    let url = client.departures_request("de:09162:1", 5, 0, None).unwrap();
    assert_eq!(
        url.as_deref(),
        Some("https://www.mvg.de/api/bgw-pt/v3/departures?globalId=de%3A09162%3A1&limit=5&offsetInMinutes=0")
    );
}

#[test]
fn departures_request_with_filters_and_offset() {
    let client = MvgClient::new();
    let url = client
        .departures_request(
            "de:09162:6",
            30,
            -10,
            Some(vec![TransportType::Ubahn, TransportType::RegionalBus]),
        )
        .unwrap();
    assert_eq!(
        url.as_deref(),
        Some("https://www.mvg.de/api/bgw-pt/v3/departures?globalId=de%3A09162%3A6&limit=30&offsetInMinutes=-10&transportTypes=UBAHN%2CREGIONALBUS")
    );
}

#[test]
fn departures_request_rejects_names() {
    let client = MvgClient::new();
    let r = client.departures_request("Marienplatz", 5, 0, None);
    assert!(matches!(r, Err(MvgError::InvalidStationId)));
}

#[test]
fn transport_types_are_joined_with_commas() {
    assert_eq!(transport_types_param(&vec![]), "");
    assert_eq!(transport_types_param(&vec![TransportType::Tram]), "TRAM");
    assert_eq!(
        transport_types_param(&vec![TransportType::Sbahn, TransportType::Bus, TransportType::Sev]),
        "SBAHN,BUS,SEV"
    );
}

#[test]
fn nearby_request_url() {
    let client = MvgClient::new();
    assert_eq!(
        client.nearby_request("48.17143", "11.53096").as_deref(),
        Some("https://www.mvg.de/api/bgw-pt/v3/stations/nearby?latitude=48.17143&longitude=11.53096")
    );
}

#[test]
fn master_data_request_urls() {
    let client = MvgClient::new();
    assert_eq!(client.stations_request().as_deref(), Some("https://www.mvg.de/.rest/zdm/stations"));
    assert_eq!(client.lines_request().as_deref(), Some("https://www.mvg.de/.rest/zdm/lines"));
    assert_eq!(
        client.station_global_ids_request().as_deref(),
        Some("https://www.mvg.de/.rest/zdm/mvgStationGlobalIds")
    );
    assert_eq!(MVG_ZDM_BASE, "https://www.mvg.de/.rest/zdm/");
    assert_eq!(MVG_FIB_BASE, "https://www.mvg.de/api/bgw-pt/v3/");
}

#[test]
fn unsuccessful_status_is_not_found() {
    assert!(require_success(true).is_ok());
    assert!(matches!(require_success(false), Err(MvgError::NotFound)));
}

#[test]
fn default_client_uses_the_mvg_bases() {
    let client = MvgClient::default();
    assert_eq!(client.lines_request().as_deref(), Some("https://www.mvg.de/.rest/zdm/lines"));
}
