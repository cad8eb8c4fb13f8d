use mvg::display::{board_relative, delay_display, direction_label, monitor_relative};
use mvg::favorites::{AppConfig, Favorite};
use mvg::models::{Departure, TransportType};
use mvg::monitor::{heads_towards_filter, monitor_data, select_departures, MONITOR_SHOWN};

fn fav(alias: &str, dir: Option<&str>) -> Favorite {
    Favorite {
        alias: alias.to_string(),
        station_name: format!("Station {}", alias),
        station_id: "de:09162:1".to_string(),
        direction_filter: dir.map(|d| d.to_string()),
    }
}

fn dep(label: &str, destination: &str, delay: Option<i32>) -> Departure {
    Departure {
        time_ms: 1_700_000_000_000,
        planned_ms: 1_700_000_000_000,
        delay_in_minutes: delay,
        platform: None,
        realtime: true,
        label: label.to_string(),
        destination: destination.to_string(),
        transport_type: TransportType::Ubahn,
        cancelled: false,
        messages: vec![],
    }
}

fn aliases(c: &AppConfig) -> Vec<String> {
    c.favorites.iter().map(|f| f.alias.clone()).collect()
}

#[test]
fn add_and_remove_favorites() {
    let mut config = AppConfig::default();
    assert!(config.favorites.is_empty());
    config.add_favorite(fav("Work", None));
    config.add_favorite(fav("Home", Some("Messestadt")));
    config.add_favorite(fav("Work", Some("Olympia")));
    assert_eq!(aliases(&config), vec!["Work", "Home", "Work"]);

    assert!(config.remove_favorite("Work"));
    assert_eq!(aliases(&config), vec!["Home"]);
    assert!(!config.remove_favorite("Gym"));
    assert_eq!(aliases(&config), vec!["Home"]);
}

#[test]
fn removing_a_new_alias_undoes_adding_it() {
    let mut config = AppConfig::default();
    config.add_favorite(fav("A", None));
    config.add_favorite(fav("B", None));
    config.add_favorite(fav("C", None));
    assert!(config.remove_favorite("C"));
    assert_eq!(aliases(&config), vec!["A", "B"]);
}

#[test]
fn direction_filter_is_case_insensitive_substring() {
    let f = Some("messe".to_string());
    assert!(heads_towards_filter("Messestadt Ost", &f));
    assert!(heads_towards_filter("MESSESTADT WEST", &f));
    assert!(!heads_towards_filter("Olympia-Einkaufszentrum", &f));
    assert!(heads_towards_filter("anything", &None));
    let umlaut = Some("MÜNCHNER".to_string());
    assert!(heads_towards_filter("Münchner Freiheit", &umlaut));
}

#[test]
fn monitor_shows_first_three_matching() {
    let deps = vec![
        dep("U2", "Messestadt Ost", None),
        dep("U2", "Feldmoching", None),
        dep("U2", "Messestadt Ost", Some(1)),
        dep("U7", "Neuperlach Zentrum", None),
        dep("U2", "Messestadt Ost", Some(2)),
        dep("U2", "Messestadt Ost", Some(3)),
    ];
    let (alias, shown) = monitor_data(&fav("Home", Some("messestadt")), deps);
    assert_eq!(alias, "Home");
    assert_eq!(shown.len(), MONITOR_SHOWN);
    let delays: Vec<Option<i32>> = shown.iter().map(|d| d.delay_in_minutes).collect();
    assert_eq!(delays, vec![None, Some(1), Some(2)]);
}

#[test]
fn monitor_without_filter_takes_first_three() {
    let deps = vec![dep("S1", "A", None), dep("S2", "B", None), dep("S3", "C", None), dep("S4", "D", None)];
    let shown = select_departures(deps, &None, 3);
    let labels: Vec<String> = shown.iter().map(|d| d.label.clone()).collect();
    assert_eq!(labels, vec!["S1", "S2", "S3"]);
}

#[test]
fn monitor_with_few_matches_shows_all_of_them() {
    let deps = vec![dep("S1", "Erding", None), dep("S2", "Petershausen", None)];
    let shown = select_departures(deps, &Some("ERDING".to_string()), 3);
    assert_eq!(shown.len(), 1);
    assert_eq!(shown[0].label, "S1");
    assert!(select_departures(vec![], &None, 3).is_empty());
}

#[test]
fn relative_time_texts() {
    assert_eq!(monitor_relative(0), "Now");
    assert_eq!(monitor_relative(-4), "Now");
    assert_eq!(monitor_relative(7), "7 min");
    assert_eq!(board_relative(0), "now");
    assert_eq!(board_relative(12), "in 12 min");
}

#[test]
fn delay_texts() {
    assert_eq!(delay_display(&dep("U3", "Moosach", Some(4))), ("+4".to_string(), true));
    assert_eq!(delay_display(&dep("U3", "Moosach", None)), ("+0".to_string(), false));
    assert_eq!(delay_display(&dep("U3", "Moosach", Some(-1))), ("+-1".to_string(), false));
}

#[test]
fn direction_labels() {
    assert_eq!(direction_label(&fav("Work", None)), "Any");
    assert_eq!(direction_label(&fav("Work", Some("Klinikum"))), "Klinikum");
}

#[test]
fn empty_direction_filter_matches_everything() {
    let make = || vec![dep("U1", "Olympia", None), dep("U2", "Feldmoching", None), dep("U3", "Moosach", None)];
    let with_empty = monitor_data(&fav("X", Some("")), make());
    let without = monitor_data(&fav("X", None), make());
    let labels = |v: &Vec<Departure>| v.iter().map(|d| d.label.clone()).collect::<Vec<_>>();
    assert_eq!(labels(&with_empty.1), labels(&without.1));
    assert_eq!(with_empty.1.len(), 3);
}

#[test]
fn direction_filter_ignores_ascii_case() {
    let make = || vec![dep("U3", "Moosach", None), dep("U6", "Garching", None), dep("U3", "MOOSACH", Some(1))];
    let lower = monitor_data(&fav("X", Some("moos")), make());
    let upper = monitor_data(&fav("X", Some("MOOS")), make());
    let delays = |v: &Vec<Departure>| v.iter().map(|d| d.delay_in_minutes).collect::<Vec<_>>();
    assert_eq!(delays(&lower.1), delays(&upper.1));
    assert_eq!(delays(&lower.1), vec![None, Some(1)]);
}
