use rodalies::model::BuildError;
use rodalies::pipeline::build_itineraries;
use rodalies::query::Document;
use rodalies::render::render_table;

fn page(results: &str, summary_cells: usize) -> String {
    let mut text = String::new();
    text.push_str("<html><body>");
    text.push_str("<div class=\"resum\"><div class=\"col-sm-12\">");
    text.push_str("<div class=\"taula d60\">");
    for _ in 0..summary_cells {
        text.push_str("<div class=\"cel\">s</div>");
    }
    text.push_str("</div>");
    text.push_str("</div></div>");
    text.push_str("<div id=\"acordio_resultats\">");
    text.push_str(results);
    text.push_str("</div>");
    text.push_str("</body></html>");
    text
}

fn leg(train: &str, station: &str, time: &str) -> String {
    let mut s = String::new();
    s.push_str("<li class=\"sortida\">");
    s.push_str(&format!("<div class=\"timeline-badge\"><img alt=\"{}\"></div>", train));
    s.push_str(&format!(
        "<div class=\"estacio\"><h3 class=\"timeline-title\">{}</h3></div>",
        station
    ));
    s.push_str(&format!("<div class=\"horari\"><div class=\"hora\">{}</div></div>", time));
    s.push_str("</li>");
    s
}

fn transfer(time: &str, wait: &str) -> String {
    let mut s = String::new();
    s.push_str("<li class=\"transbord\"><div class=\"horari\">");
    s.push_str(&format!("<div class=\"hora\">{}</div>", time));
    s.push_str(&format!("<div class=\"temps\"><span>{}</span></div>", wait));
    s.push_str("</div></li>");
    s
}

fn canonical_panel(duration: &str, dep: &str, arr_time: &str, arr_station: &str) -> String {
    let mut s = String::new();
    s.push_str("<div class=\"panel panel-default\">");
    s.push_str(&format!(
        "<div class=\"resultats-fila\"><div class=\"durada\"> {} </div></div>",
        duration
    ));
    s.push_str("<ul>");
    s.push_str(&leg("R1", "Origin", dep));
    s.push_str(&leg("-", "-", "-"));
    s.push_str(&transfer("-", "-"));
    s.push_str("<li class=\"arribada true\">");
    s.push_str(&format!("<div class=\"horari\"><div class=\"hora\">{}</div></div>", arr_time));
    s.push_str(&format!(
        "<div class=\"estacio\"><h3 class=\"timeline-title\">{}</h3></div>",
        arr_station
    ));
    s.push_str("</li>");
    s.push_str("</ul></div>");
    s
}

fn expanded_panel(duration: &str, dep: &str, arr_time: &str, arr_station: &str) -> String {
    let mut s = String::new();
    s.push_str("<div class=\"panel panel-default\">");
    s.push_str(&format!(
        "<div class=\"resultats-fila\"><div class=\"durada\">{}</div></div>",
        duration
    ));
    s.push_str("<ul>");
    s.push_str(&leg("R1", "Origin", dep));
    s.push_str(&leg("R9", "Middle", "08:40"));
    s.push_str(&transfer("08:35", "5m"));
    s.push_str("<li class=\"arribada\"><div class=\"mask\">");
    s.push_str(&format!("<div class=\"horari\"><div class=\"hora\">{}</div></div>", arr_time));
    s.push_str(&format!(
        "<div class=\"estacio\"><h3 class=\"timeline-title\">{}</h3></div>",
        arr_station
    ));
    s.push_str("</div></li>");
    s.push_str("</ul></div>");
    s
}

#[test]
fn a_real_page_builds_collapsed_rectangular_rows() {
    // Two real trips, each rendered twice: canonically and through the
    // expanded pathway. Four rendered itineraries collapse to two rows.
    let results = format!(
        "{}{}{}{}",
        canonical_panel("1h 10m", "08:00", "09:10", "Destination"),
        expanded_panel("1h 10m", "08:00", "09:10", "Destination"),
        canonical_panel("1h 12m", "09:00", "10:12", "Destination"),
        expanded_panel("1h 12m", "09:00", "10:12", "Destination"),
    );
    let doc = Document::from_text(page(&results, 3));
    let set = build_itineraries(&doc).expect("a consistent page");

    assert_eq!(set.width, 1);
    assert_eq!(set.entries.len(), 2);
    // The durations were trimmed by the query layer.
    assert_eq!(set.entries[0].itinerary.duration, "1h 10m");
    assert_eq!(set.entries[1].itinerary.duration, "1h 12m");
    assert_eq!(set.entries[0].arrival.time, "09:10");
    assert_eq!(set.entries[1].arrival.time, "10:12");
    assert_eq!(set.entries[0].itinerary.legs[0].train_type, "R1");
    assert_eq!(set.entries[0].itinerary.legs[0].station, "Origin");

    let table = render_table(&set);
    assert_eq!(table.header.len(), 11);
    assert_eq!(table.rows.len(), 2);
    for row in &table.rows {
        assert_eq!(row.len(), table.header.len());
    }
}

#[test]
fn building_twice_yields_element_wise_equal_results() {
    let results = format!(
        "{}{}",
        canonical_panel("1h 10m", "08:00", "09:10", "Destination"),
        expanded_panel("1h 10m", "08:00", "09:10", "Destination"),
    );
    let doc = Document::from_text(page(&results, 3));
    let first = build_itineraries(&doc).expect("a consistent page");
    let second = build_itineraries(&doc).expect("a consistent page");
    assert_eq!(first, second);
    assert_eq!(first.entries, second.entries);
}

#[test]
fn a_page_with_an_error_block_reports_the_site_error() {
    let mut text = String::new();
    text.push_str("<html><body>");
    text.push_str("<div class=\"error_contingut\"><p>  Invalid station pair  </p></div>");
    text.push_str("</body></html>");
    let doc = Document::from_text(text);
    let err = build_itineraries(&doc).expect_err("the page reports an error");
    // The message text is passed through verbatim, trimmed by the query
    // layer.
    assert_eq!(
        err,
        BuildError::SiteReported { messages: vec!["Invalid station pair".to_string()] }
    );
}

#[test]
fn a_page_without_results_is_the_empty_result() {
    let doc = Document::from_text(page("", 2));
    let err = build_itineraries(&doc).expect_err("no itineraries");
    assert_eq!(err, BuildError::EmptyResult);
}

#[test]
fn queries_trim_and_drop_whitespace_matches() {
    let mut text = String::new();
    text.push_str("<html><body><div class=\"error_contingut\">");
    text.push_str("<p>  first  </p>");
    text.push_str("<p>   </p>");
    text.push_str("<p>second</p>");
    text.push_str("</div></body></html>");
    let doc = Document::from_text(text);
    let errors = doc.query_text(".error_contingut > p");
    assert_eq!(errors, vec!["first".to_string(), "second".to_string()]);
}

#[test]
fn attribute_queries_keep_document_order() {
    let mut text = String::new();
    text.push_str("<html><body><div id=\"acordio_resultats\">");
    text.push_str("<li class=\"sortida\"><div class=\"timeline-badge\"><img alt=\" R2 \"></div></li>");
    text.push_str("<li class=\"sortida\"><div class=\"timeline-badge\"><img></div></li>");
    text.push_str("<li class=\"sortida\"><div class=\"timeline-badge\"><img alt=\"R4\"></div></li>");
    text.push_str("</div></body></html>");
    let doc = Document::from_text(text);
    let alts = doc.query_attr("#acordio_resultats li.sortida div.timeline-badge > img", "alt");
    assert_eq!(alts, vec!["R2".to_string(), "R4".to_string()]);
}
