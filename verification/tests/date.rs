use rodalies::date::format_search_date;
use rodalies::date::parse_u32;

#[test]
fn numeric_arguments_parse_exactly() {
    assert_eq!(parse_u32("0"), Some(0));
    assert_eq!(parse_u32("7"), Some(7));
    assert_eq!(parse_u32("2024"), Some(2024));
    assert_eq!(parse_u32("0031"), Some(31));
    assert_eq!(parse_u32("4294967295"), Some(u32::MAX));
}

#[test]
fn non_numeric_arguments_are_rejected() {
    assert_eq!(parse_u32(""), None);
    assert_eq!(parse_u32("12a"), None);
    assert_eq!(parse_u32("-5"), None);
    assert_eq!(parse_u32("1 2"), None);
    assert_eq!(parse_u32("4294967296"), None);
    assert_eq!(parse_u32("99999999999999999999"), None);
}

#[test]
fn the_search_date_is_zero_padded() {
    assert_eq!(format_search_date(7, 3, 2024), "07/03/2024");
    assert_eq!(format_search_date(15, 11, 2024), "15/11/2024");
    assert_eq!(format_search_date(1, 1, 1), "01/01/1");
    assert_eq!(format_search_date(10, 10, 0), "10/10/0");
    assert_eq!(format_search_date(31, 12, 2999), "31/12/2999");
}
