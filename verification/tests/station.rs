use rodalies::query::Document;
use rodalies::station::Station;
use rodalies::station::choice_to_index;
use rodalies::station::filter_stations;
use rodalies::station::pair_stations;
use rodalies::station::stations_from_page;
use rodalies::text::str_contains;

fn station(id: &str, name: &str) -> Station {
    Station { id: id.to_string(), name: name.to_string() }
}

#[test]
fn station_search_ignores_case() {
    let stations = vec![
        station("12", "Sils"),
        station("34", "Barcelona-Sants"),
        station("56", "Girona"),
    ];
    let found = filter_stations(&stations, "SILS");
    assert_eq!(found, vec![station("12", "Sils")]);
    let found = filter_stations(&stations, "sants");
    assert_eq!(found, vec![station("34", "Barcelona-Sants")]);
}

#[test]
fn station_search_matches_accented_names() {
    let stations = vec![station("77", "Barcelona-Passeig de Gràcia"), station("88", "Mataró")];
    let found = filter_stations(&stations, "gràcia");
    assert_eq!(found, vec![station("77", "Barcelona-Passeig de Gràcia")]);
    let found = filter_stations(&stations, "MATARÓ");
    assert_eq!(found, vec![station("88", "Mataró")]);
}

#[test]
fn station_search_keeps_order_and_drops_misses() {
    let stations = vec![
        station("1", "Sant Celoni"),
        station("2", "Girona"),
        station("3", "Sant Cugat"),
    ];
    let found = filter_stations(&stations, "sant");
    assert_eq!(found, vec![station("1", "Sant Celoni"), station("3", "Sant Cugat")]);
    let none = filter_stations(&stations, "madrid");
    assert_eq!(none, Vec::<Station>::new());
}

#[test]
fn substring_search_answers_exactly() {
    assert!(str_contains("barcelona", "celo"));
    assert!(str_contains("barcelona", ""));
    assert!(str_contains("", ""));
    assert!(!str_contains("", "a"));
    assert!(!str_contains("bar", "barcelona"));
    assert!(str_contains("aaab", "aab"));
    assert!(!str_contains("aaab", "abb"));
}

#[test]
fn pairing_drops_entries_without_an_id() {
    let ids = vec!["".to_string(), "12".to_string(), "34".to_string()];
    let names = vec!["Choose".to_string(), "Sils".to_string(), "Girona".to_string()];
    let stations = pair_stations(&ids, &names);
    assert_eq!(stations, vec![station("12", "Sils"), station("34", "Girona")]);
}

#[test]
fn pairing_stops_at_the_shorter_list() {
    let ids = vec!["12".to_string(), "34".to_string()];
    let names = vec!["Sils".to_string()];
    let stations = pair_stations(&ids, &names);
    assert_eq!(stations, vec![station("12", "Sils")]);
}

#[test]
fn the_station_list_comes_from_the_search_page_options() {
    let mut text = String::new();
    text.push_str("<html><body><select id=\"origen\">");
    text.push_str("<option value=\"\">Choose a station</option>");
    text.push_str("<option value=\"12\"> Sils </option>");
    text.push_str("<option value=\"34\">Girona</option>");
    text.push_str("</select></body></html>");
    let doc = Document::from_text(text);
    let stations = stations_from_page(&doc);
    assert_eq!(stations, vec![station("12", "Sils"), station("34", "Girona")]);
}

#[test]
fn menu_choices_are_one_based() {
    assert_eq!(choice_to_index(1, 3), Some(0));
    assert_eq!(choice_to_index(3, 3), Some(2));
    assert_eq!(choice_to_index(0, 3), None);
    assert_eq!(choice_to_index(4, 3), None);
    assert_eq!(choice_to_index(1, 0), None);
}
