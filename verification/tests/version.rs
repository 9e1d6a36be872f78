use rodalies::version::IndexEntry;
use rodalies::version::crate_index_entry;
use rodalies::version::last_line;
use rodalies::version::version_is_latest;

#[test]
fn the_last_line_of_an_index_body_is_taken() {
    assert_eq!(last_line("one"), Some("one".to_string()));
    assert_eq!(last_line("one\ntwo"), Some("two".to_string()));
    assert_eq!(last_line("one\ntwo\n"), Some("two".to_string()));
    assert_eq!(last_line("one\r\ntwo\r\n"), Some("two".to_string()));
    assert_eq!(last_line("\n"), Some("".to_string()));
    assert_eq!(last_line(""), None);
}

#[test]
fn an_index_body_yields_its_newest_entry() {
    let mut body = String::new();
    body.push_str("{\"name\":\"tool\",\"vers\":\"1.0.0\"}\n");
    body.push_str("{\"name\":\"tool\",\"vers\":\"1.1.0\"}\n");
    let entry = crate_index_entry(&body).expect("the last line parses");
    assert_eq!(entry.name, "tool");
    assert_eq!(entry.version, "1.1.0");
}

#[test]
fn a_body_without_json_fields_yields_nothing() {
    assert_eq!(crate_index_entry("not json"), None);
    assert_eq!(crate_index_entry("{\"name\":\"tool\"}"), None);
    assert_eq!(crate_index_entry("{\"name\":3,\"vers\":\"1.0.0\"}"), None);
    assert_eq!(crate_index_entry(""), None);
}

#[test]
fn the_version_check_compares_exact_text() {
    let entry = IndexEntry { name: "tool".to_string(), version: "1.1.0".to_string() };
    assert!(version_is_latest("1.1.0", &entry));
    assert!(!version_is_latest("1.0.0", &entry));
    assert!(!version_is_latest("1.1", &entry));
}
