use unisport_bot::signup::Reply;
use unisport_bot::course::{
    courses_url, fetch, find_columns, find_header, find_value, new_courses, read_date, read_listing,
    read_row, read_span, Cell, Columns, Course, FetchError, Header, Row, RowError,
};

fn listing(head: &[&str], rows: &[Vec<String>]) -> String {
    let mut page = String::from("<html><body><table><thead><tr>");
    for h in head {
        page.push_str(&format!("<th>{h}</th>"));
    }
    page.push_str("</tr><tr><th>zweite</th><th>Kopfzeile</th></tr></thead><tbody>");
    for row in rows {
        page.push_str("<tr>");
        for cell in row {
            page.push_str(&format!("<td>{cell}</td>"));
        }
        page.push_str("</tr>");
    }
    page.push_str("</tbody></table></body></html>");
    page
}

const HEAD: [&str; 7] =
    ["Tag", "Zeitraum", "Zeit", "Bezeichnung", "Ort", "Kursleiter/In", "Anmeldung"];

fn link(href: &str) -> String {
    format!("<a href=\"{href}\">buchen</a>")
}

fn row(date: &str, time: &str, level: &str, href: &str) -> Vec<String> {
    vec![
        "Do".to_string(),
        date.to_string(),
        time.to_string(),
        level.to_string(),
        "Jahnwiese".to_string(),
        "<b>Kim</b> Muster".to_string(),
        link(href),
    ]
}

fn open_link(id: &str) -> String {
    format!("https://isis.verw.uni-koeln.de/cgi/anmeldung.fcgi?Kursid={id}")
}

fn session(id: i64, start_time: i64, end_time: i64, level: &str) -> Course {
    Course {
        id,
        start_time,
        end_time,
        level: level.to_string(),
        location: "Jahnwiese".to_string(),
        trainer: "Kim Muster".to_string(),
    }
}

#[test]
fn listing_gives_the_sessions_in_utc() {
    let page = listing(
        &HEAD,
        &[
            row("24.10.24", "18:00-19:30", "Anfänger", &open_link("245802")),
            row("15.01.25", "18:00-19:30", "Fortgeschrittene", &open_link("7")),
        ],
    );
    let listing = read_listing(&page).unwrap();
    assert_eq!(listing.skipped, 0);
    assert_eq!(
        listing.courses,
        vec![
            session(245802, 1729785600, 1729791000, "Anfänger"),
            session(7, 1736960400, 1736965800, "Fortgeschrittene"),
        ]
    );
}

#[test]
fn columns_are_found_by_label_not_by_position() {
    let head = ["Anmeldung", "Ort", "Zeit", "Kursleiter/In", "Zeitraum", "Bezeichnung"];
    let rows = [vec![
        link(&open_link("42")),
        "Halle 1".to_string(),
        "09:05-10:00".to_string(),
        "Alex".to_string(),
        "01.07.24".to_string(),
        "Alle".to_string(),
    ]];
    let listing = read_listing(&listing(&head, &rows)).unwrap();
    assert_eq!(
        listing.courses,
        vec![Course {
            id: 42,
            start_time: 1719817500,
            end_time: 1719820800,
            level: "Alle".to_string(),
            location: "Halle 1".to_string(),
            trainer: "Alex".to_string(),
        }]
    );
}

#[test]
fn rows_without_open_registration_are_skipped_silently() {
    let closed = "https://unisport.koeln/buchsys/meldungen/keine_anmeldung_kurs.html";
    let page = listing(
        &HEAD,
        &[
            row("24.10.24", "18:00-19:30", "A", closed),
            row("24.10.24", "18:00-19:30", "B", &open_link("5")),
        ],
    );
    let listing = read_listing(&page).unwrap();
    assert_eq!(listing.skipped, 0);
    assert_eq!(listing.courses, vec![session(5, 1729785600, 1729791000, "B")]);
}

#[test]
fn malformed_rows_are_passed_over_and_counted() {
    let page = listing(
        &HEAD,
        &[
            row("24.10", "18:00-19:30", "bad date", &open_link("1")),
            row("24.10.24", "18:00-19:30", "good", &open_link("2")),
            row("24.10.24", "18 Uhr", "bad time", &open_link("3")),
            row("24.10.24", "18:00-19:30", "bad url", "nirgendwo"),
            row("24.10.24", "18:00-19:30", "no id", "https://isis.verw.uni-koeln.de/cgi/a?x=1"),
            row("24.10.24", "18:00-19:30", "bad id", &open_link("abc")),
            row("24.10.24", "25:00-26:30", "bad start", &open_link("6")),
            row("24.10.24", "18:00-19:61", "bad end", &open_link("7")),
            vec!["Do".to_string(), "24.10.24".to_string()],
            row("15.01.25", "18:00-19:30", "also good", &open_link("9")),
        ],
    );
    let listing = read_listing(&page).unwrap();
    assert_eq!(listing.skipped, 8);
    assert_eq!(
        listing.courses,
        vec![
            session(2, 1729785600, 1729791000, "good"),
            session(9, 1736960400, 1736965800, "also good"),
        ]
    );
}

#[test]
fn a_missing_header_voids_the_listing() {
    let cases = [
        ("Anmeldung", Header::Anmeldung),
        ("Zeitraum", Header::Zeitraum),
        ("Zeit", Header::Zeit),
        ("Bezeichnung", Header::Bezeichnung),
        ("Ort", Header::Ort),
        ("Kursleiter/In", Header::KursleiterIn),
    ];
    for (label, header) in cases {
        let head: Vec<&str> =
            HEAD.iter().map(|h| if *h == label { "Umbenannt" } else { *h }).collect();
        let page = listing(&head, &[row("24.10.24", "18:00-19:30", "A", &open_link("1"))]);
        assert_eq!(read_listing(&page), Err(FetchError::MissingHeader(header)));
    }
}

#[test]
fn the_first_missing_header_is_named() {
    let page = listing(&["Tag", "Zeit"], &[]);
    assert_eq!(read_listing(&page), Err(FetchError::MissingHeader(Header::Anmeldung)));
    let page = listing(&["Anmeldung", "Zeit"], &[]);
    assert_eq!(read_listing(&page), Err(FetchError::MissingHeader(Header::Zeitraum)));
}

#[test]
fn a_page_without_a_table_holds_nothing() {
    let listing = read_listing("<html><body><p>Zur Zeit keine Kurse.</p></body></html>").unwrap();
    assert!(listing.courses.is_empty());
    assert_eq!(listing.skipped, 0);
    let listing = read_listing("").unwrap();
    assert!(listing.courses.is_empty());
}

#[test]
fn only_the_first_header_row_counts() {
    let page = "<table><thead><tr><th>Nur</th></tr><tr><th>Anmeldung</th><th>Zeitraum</th>\
                <th>Zeit</th><th>Bezeichnung</th><th>Ort</th><th>Kursleiter/In</th></tr></thead>\
                <tbody></tbody></table>";
    assert_eq!(read_listing(page), Err(FetchError::MissingHeader(Header::Anmeldung)));
}

#[test]
fn times_that_the_clocks_showed_twice_or_never_are_refused() {
    let page = listing(
        &HEAD,
        &[
            row("27.10.24", "02:30-04:00", "twice", &open_link("1")),
            row("31.03.24", "02:30-04:00", "never", &open_link("2")),
            row("27.10.24", "01:30-02:30", "end twice", &open_link("3")),
            row("27.10.24", "03:00-04:00", "fine", &open_link("4")),
        ],
    );
    let listing = read_listing(&page).unwrap();
    assert_eq!(listing.skipped, 3);
    assert_eq!(listing.courses.len(), 1);
    assert_eq!(listing.courses[0].id, 4);
    assert_eq!(listing.courses[0].start_time, 1729994400);
}

#[test]
fn read_date_puts_the_century_in() {
    assert_eq!(read_date("24.10.24"), Some("24.10.2024".to_string()));
    assert_eq!(read_date("24.10.24-31.12.24"), Some("24.10.2024".to_string()));
    assert_eq!(read_date("24.10.24.extra"), Some("24.10.2024".to_string()));
    assert_eq!(read_date("1.2.3"), Some("1.2.203".to_string()));
    assert_eq!(read_date("1.2."), Some("1.2.20".to_string()));
    assert_eq!(read_date(".."), Some("..20".to_string()));
    assert_eq!(read_date("ä.ö.ü"), Some("ä.ö.20ü".to_string()));
    assert_eq!(read_date("2024.10.24"), Some("2024.10.20".to_string()));
}

#[test]
fn read_date_needs_three_parts() {
    assert_eq!(read_date(""), None);
    assert_eq!(read_date("24"), None);
    assert_eq!(read_date("24.10"), None);
    assert_eq!(read_date("24."), None);
    assert_eq!(read_date("24-10-24"), None);
}

#[test]
fn read_span_splits_at_the_first_dash() {
    assert_eq!(read_span("18:00-19:30"), Some(("18:00".to_string(), "19:30".to_string())));
    assert_eq!(read_span("a-b-c"), Some(("a".to_string(), "b-c".to_string())));
    assert_eq!(read_span("-"), Some((String::new(), String::new())));
    assert_eq!(read_span("x-"), Some(("x".to_string(), String::new())));
    assert_eq!(read_span("-y"), Some((String::new(), "y".to_string())));
    assert_eq!(read_span("18:00"), None);
    assert_eq!(read_span(""), None);
    assert_eq!(read_span("18:00–19:30"), None);
}

#[test]
fn find_header_takes_the_last_of_equal_labels() {
    let headers: Vec<String> = ["Ort", "Zeit", "Ort", "x"].iter().map(|s| s.to_string()).collect();
    assert_eq!(find_header(&headers, "Ort"), Some(2));
    assert_eq!(find_header(&headers, "Zeit"), Some(1));
    assert_eq!(find_header(&headers, "x"), Some(3));
    assert_eq!(find_header(&headers, "zeit"), None);
    assert_eq!(find_header(&Vec::new(), "Ort"), None);
}

#[test]
fn find_value_takes_the_last_of_equal_keys() {
    let pairs = vec![
        ("Kursid".to_string(), "1".to_string()),
        ("x".to_string(), "y".to_string()),
        ("Kursid".to_string(), "2".to_string()),
    ];
    assert_eq!(find_value(&pairs, "Kursid"), Some("2".to_string()));
    assert_eq!(find_value(&pairs, "x"), Some("y".to_string()));
    assert_eq!(find_value(&pairs, "kursid"), None);
}

#[test]
fn find_columns_reports_positions() {
    let headers: Vec<String> = HEAD.iter().map(|s| s.to_string()).collect();
    assert_eq!(
        find_columns(&headers),
        Ok(Columns { link: 6, date: 1, time: 2, level: 3, location: 4, trainer: 5 })
    );
}

fn cell(text: &str) -> Cell {
    Cell { text: text.to_string(), link: None }
}

fn link_cell(href: Option<&str>) -> Cell {
    Cell { text: "buchen".to_string(), link: Some(href.map(str::to_string)) }
}

const AT: Columns = Columns { link: 0, date: 1, time: 2, level: 3, location: 4, trainer: 5 };

fn cells(href: Cell) -> Vec<Cell> {
    vec![href, cell("24.10.24"), cell("18:00-19:30"), cell("L"), cell("O"), cell("T")]
}

#[test]
fn read_row_reads_a_session() {
    let r = read_row(&cells(link_cell(Some(&open_link("12")))), &AT);
    assert_eq!(
        r,
        Row::Session(Course {
            id: 12,
            start_time: 1729785600,
            end_time: 1729791000,
            level: "L".to_string(),
            location: "O".to_string(),
            trainer: "T".to_string(),
        })
    );
}

#[test]
fn read_row_uses_the_last_kursid() {
    let href = "https://isis.verw.uni-koeln.de/cgi/anmeldung.fcgi?Kursid=1&a=b&Kursid=-3";
    match read_row(&cells(link_cell(Some(href))), &AT) {
        Row::Session(course) => assert_eq!(course.id, -3),
        other => panic!("{other:?}"),
    }
}

#[test]
fn read_row_names_what_is_wrong() {
    assert_eq!(read_row(&cells(cell("kein Link")), &AT), Row::Malformed(RowError::NoAnchor));
    assert_eq!(read_row(&cells(link_cell(None)), &AT), Row::Malformed(RowError::NoHref));
    assert_eq!(read_row(&cells(link_cell(Some("::"))), &AT), Row::Malformed(RowError::Url));
    assert_eq!(
        read_row(&cells(link_cell(Some("https://a.example/b"))), &AT),
        Row::Malformed(RowError::NoId)
    );
    assert_eq!(
        read_row(&cells(link_cell(Some(&open_link("9223372036854775808")))), &AT),
        Row::Malformed(RowError::BadId)
    );
    assert_eq!(
        read_row(&vec![link_cell(Some(&open_link("1")))], &AT),
        Row::Malformed(RowError::MissingCell)
    );
    assert_eq!(read_row(&Vec::new(), &AT), Row::Malformed(RowError::MissingCell));
    let mut short = cells(link_cell(Some(&open_link("1"))));
    short.pop();
    assert_eq!(read_row(&short, &AT), Row::Malformed(RowError::MissingCell));
    let mut bad = cells(link_cell(Some(&open_link("1"))));
    bad[1] = cell("heute");
    assert_eq!(read_row(&bad, &AT), Row::Malformed(RowError::Date));
    let mut bad = cells(link_cell(Some(&open_link("1"))));
    bad[2] = cell("abends");
    assert_eq!(read_row(&bad, &AT), Row::Malformed(RowError::Time));
    let mut bad = cells(link_cell(Some(&open_link("1"))));
    bad[2] = cell("abends-19:00");
    assert_eq!(read_row(&bad, &AT), Row::Malformed(RowError::StartTime));
    let mut bad = cells(link_cell(Some(&open_link("1"))));
    bad[2] = cell("18:00-spät");
    assert_eq!(read_row(&bad, &AT), Row::Malformed(RowError::EndTime));
}

#[test]
fn read_row_checks_the_date_before_the_link_target() {
    let closed = "https://unisport.koeln/buchsys/meldungen/keine_anmeldung_kurs.html";
    let mut bad = cells(link_cell(Some(closed)));
    assert_eq!(read_row(&bad, &AT), Row::Unavailable);
    bad[1] = cell("heute");
    assert_eq!(read_row(&bad, &AT), Row::Malformed(RowError::Date));
}

#[test]
fn describe_shows_the_clocks_of_berlin() {
    let summer = session(1, 1729785600, 1729791000, "Anfänger");
    assert_eq!(
        summer.describe(),
        Some(
            "Von: 18:00\nBis: 19:30\nBezeichnung: Anfänger\nOrt: Jahnwiese\nKursleiter/In: Kim Muster"
                .to_string()
        )
    );
    let morning = session(1, 1719817500, 1719820800, "x");
    assert_eq!(
        morning.describe().unwrap(),
        "Von: 09:05\nBis: 10:00\nBezeichnung: x\nOrt: Jahnwiese\nKursleiter/In: Kim Muster"
    );
    let midnight = session(1, 1736895600, 1736895660, "x");
    assert!(midnight.describe().unwrap().starts_with("Von: 00:00\nBis: 00:01\n"));
}

#[test]
fn describe_gives_up_outside_the_calendar() {
    assert_eq!(session(1, i64::MAX, 0, "x").describe(), None);
    assert_eq!(session(1, 0, i64::MIN, "x").describe(), None);
}

#[test]
fn new_courses_are_those_not_stored_and_not_found_before() {
    let found =
        vec![session(1, 0, 1, "a"), session(2, 0, 1, "b"), session(1, 5, 6, "c"), session(3, 0, 1, "d")];
    assert_eq!(new_courses(&found, &vec![2]), vec![session(1, 0, 1, "a"), session(3, 0, 1, "d")]);
    assert_eq!(new_courses(&found, &vec![1, 2, 3]), Vec::<Course>::new());
    assert_eq!(new_courses(&Vec::new(), &vec![1]), Vec::<Course>::new());
}

#[test]
fn storing_the_new_courses_makes_a_second_fetch_store_nothing() {
    let found = vec![session(1, 0, 1, "a"), session(2, 0, 1, "b"), session(1, 5, 6, "c")];
    let mut stored = vec![7];
    let first = new_courses(&found, &stored);
    stored.extend(first.iter().map(|c| c.id));
    assert_eq!(stored, vec![7, 1, 2]);
    assert!(new_courses(&found, &stored).is_empty());
}

#[test]
fn listing_address() {
    assert_eq!(
        courses_url(),
        "https://unisport.koeln/e65/e41657/e41692/k_content41702/publicGetData"
    );
}

#[test]
fn fetch_reads_the_page_of_a_good_answer() {
    let page = listing(&HEAD, &[row("24.10.24", "18:00-19:30", "A", &open_link("5"))]);
    let listing = fetch(Reply::Body(page)).unwrap();
    assert_eq!(listing.courses, vec![session(5, 1729785600, 1729791000, "A")]);
}

#[test]
fn fetch_passes_failures_on() {
    assert_eq!(
        fetch(Reply::Status("502 Bad Gateway".to_string())),
        Err(FetchError::ServerStatus("502 Bad Gateway".to_string()))
    );
    assert_eq!(
        fetch(Reply::Failed("timed out".to_string())),
        Err(FetchError::Connection("timed out".to_string()))
    );
    assert_eq!(
        fetch(Reply::Body(listing(&["Zeit"], &[]))),
        Err(FetchError::MissingHeader(Header::Anmeldung))
    );
}

#[test]
fn a_listing_beyond_the_limit_is_refused() {
    let page = "<td>x</td>".repeat(26_850_000);
    assert!(page.len() > 0x1000_0000);
    assert_eq!(read_listing(&page), Err(FetchError::TooLarge));
    assert_eq!(fetch(Reply::Body(page)), Err(FetchError::TooLarge));
}
