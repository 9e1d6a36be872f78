use rodalies::request::timetable_request_body;

#[test]
fn the_form_body_carries_the_trip_and_the_fixed_parameters() {
    let body = timetable_request_body("12", "34", "07/03/2024");
    assert_eq!(
        body,
        "origen=12&desti=34&dataViatge=07/03/2024&horaIni=00&lang=en&cercaRodalies=true&tornada=false"
    );
}

#[test]
fn empty_trip_values_still_shape_the_body() {
    let body = timetable_request_body("", "", "");
    assert_eq!(
        body,
        "origen=&desti=&dataViatge=&horaIni=00&lang=en&cercaRodalies=true&tornada=false"
    );
}
