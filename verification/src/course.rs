//! Sessions, and reading them from the provider's listing page.
use crate::decimal::{digits, parse_i64, spelled_i64, unsigned_text};
use crate::form::{is_readable, readable, selector_parses, valid_selector};
use crate::participant::pairs;
use crate::signup::Reply;
use crate::text::{chars_of, find_from, position, position_from, same};
use chrono::{DateTime, NaiveDateTime, Timelike};
use chrono_tz::Europe::Berlin;
use scraper::{Html, Selector};
use url::Url;
use vstd::prelude::*;
use vstd::string::*;

verus! {

/// One occurrence of a course. The identifier is the provider's; the times
/// are seconds since 1970-01-01 00:00:00 UTC.
#[derive(Debug, PartialEq, Eq)]
pub struct Course {
    pub id: i64,
    pub start_time: i64,
    pub end_time: i64,
    pub level: String,
    pub location: String,
    pub trainer: String,
}

/// A session as plain values.
pub struct CourseView {
    pub id: i64,
    pub start_time: i64,
    pub end_time: i64,
    pub level: Seq<char>,
    pub location: Seq<char>,
    pub trainer: Seq<char>,
}

impl View for Course {
    type V = CourseView;

    open spec fn view(&self) -> CourseView {
        CourseView {
            id: self.id,
            start_time: self.start_time,
            end_time: self.end_time,
            level: self.level@,
            location: self.location@,
            trainer: self.trainer@,
        }
    }
}

/// A cell of the listing: its text, and the `href` of the first link in it
/// (`None` where it holds no link, `Some(None)` where the link has no
/// `href`).
#[derive(Debug, PartialEq, Eq)]
pub struct Cell {
    pub text: String,
    pub link: Option<Option<String>>,
}

/// A cell as plain text.
pub open spec fn cell_text(cell: Cell) -> (Seq<char>, Option<Option<Seq<char>>>) {
    (
        cell.text@,
        match cell.link {
            None => None,
            Some(None) => Some(None),
            Some(Some(href)) => Some(Some(href@)),
        },
    )
}

/// The cells of a row as plain text.
pub open spec fn row_text(row: Seq<Cell>) -> Seq<(Seq<char>, Option<Option<Seq<char>>>)> {
    Seq::new(row.len(), |i: int| cell_text(row[i]))
}

/// Rows as plain text.
pub open spec fn rows_text(rows: Seq<Vec<Cell>>) -> Seq<Seq<(Seq<char>, Option<Option<Seq<char>>>)>> {
    Seq::new(rows.len(), |i: int| row_text(rows[i]@))
}

/// Strings as plain text.
pub open spec fn texts(items: Seq<String>) -> Seq<Seq<char>> {
    Seq::new(items.len(), |i: int| items[i]@)
}

/// The text of every element of a page that matches a selector, in the
/// HTML library's order.
pub uninterp spec fn selected_texts(html: Seq<char>, css: Seq<char>) -> Seq<Seq<char>>;

/// For every element of a page that matches `row`, in the HTML library's
/// order, the cells below it that match `cell`: the text of each, and the
/// attribute `attr` of the first element below it that matches `link`.
pub uninterp spec fn selected_cells(
    html: Seq<char>,
    row: Seq<char>,
    cell: Seq<char>,
    link: Seq<char>,
    attr: Seq<char>,
) -> Seq<Seq<(Seq<char>, Option<Option<Seq<char>>>)>>;

/// Path and query pairs of an absolute URL, as the URL library reads it;
/// `None` where it refuses the text.
pub uninterp spec fn link_parts(text: Seq<char>) -> Option<(Seq<char>, Seq<(Seq<char>, Seq<char>)>)>;

/// The instant, in seconds since the epoch, of a date and time of day
/// written in the given format and meant on the clocks of Berlin; `None`
/// where the text does not fit the format or names a time that those clocks
/// showed twice or never.
pub uninterp spec fn berlin_instant(text: Seq<char>, format: Seq<char>) -> Option<i64>;

/// Hour and minute on the clocks of Berlin at an instant; `None` where the
/// instant lies outside the calendar library's range.
pub uninterp spec fn berlin_clock(instant: i64) -> Option<(u32, u32)>;

/// `scraper::Html::parse_document`, `Html::select` and `ElementRef::text`,
/// collected. The result depends on the arguments alone; the `requires`
/// keeps the page within what the parser's buffers hold.
#[verifier::external_body]
fn scrape_texts(html: &str, css: &str) -> (r: Vec<String>)
    requires
        readable(html@),
        valid_selector(css@),
    ensures
        texts(r@) == selected_texts(html@, css@),
{
    let css = Selector::parse(css).unwrap();
    Html::parse_document(html).select(&css).map(|e| e.text().collect()).collect()
}

/// `scraper::Html::parse_document`, `Html::select` for the rows, then
/// `ElementRef::select`, `ElementRef::text` and `ElementRef::attr` for the
/// cells of each. The result depends on the arguments alone; the `requires`
/// keeps the page within what the parser's buffers hold.
#[verifier::external_body]
fn scrape_cells(html: &str, row: &str, cell: &str, link: &str, attr: &str) -> (r: Vec<Vec<Cell>>)
    requires
        readable(html@),
        valid_selector(row@),
        valid_selector(cell@),
        valid_selector(link@),
    ensures
        rows_text(r@) == selected_cells(html@, row@, cell@, link@, attr@),
{
    let (row, cell) = (Selector::parse(row).unwrap(), Selector::parse(cell).unwrap());
    let link = Selector::parse(link).unwrap();
    Html::parse_document(html).select(&row).map(|r| r.select(&cell).map(|c| Cell {
        text: c.text().collect(),
        link: c.select(&link).next().map(|a| a.attr(attr).map(str::to_owned)),
    }).collect()).collect()
}

/// `url::Url::parse`, then `Url::path` and `Url::query_pairs`. The result
/// depends on the text alone.
#[verifier::external_body]
fn parse_link(text: &str) -> (r: Option<(String, Vec<(String, String)>)>)
    ensures
        match r {
            Some((path, query)) => link_parts(text@) == Some((path@, pairs(query@))),
            None => link_parts(text@) is None,
        },
{
    let url = Url::parse(text).ok()?;
    Some((url.path().to_owned(), url.query_pairs().into_owned().collect()))
}

/// `chrono::NaiveDateTime::parse_from_str`, `and_local_timezone` with
/// `chrono_tz::Europe::Berlin`, `single` and `DateTime::timestamp`. The
/// result depends on the arguments and the time zone data compiled into the
/// library.
#[verifier::external_body]
fn instant_in_berlin(text: &str, format: &str) -> (r: Option<i64>)
    ensures
        r == berlin_instant(text@, format@),
{
    let local = NaiveDateTime::parse_from_str(text, format).ok()?;
    local.and_local_timezone(Berlin).single().map(|t| t.timestamp())
}

/// `chrono::DateTime::from_timestamp`, `with_timezone` to
/// `chrono_tz::Europe::Berlin`, then `Timelike::hour` and `minute`.
#[verifier::external_body]
fn clock_in_berlin(instant: i64) -> (r: Option<(u32, u32)>)
    ensures
        r == berlin_clock(instant),
{
    let local = DateTime::from_timestamp(instant, 0)?.with_timezone(&Berlin);
    Some((local.hour(), local.minute()))
}

/// The last position at which `name` stands among `items`.
pub open spec fn last_index(items: Seq<Seq<char>>, name: Seq<char>) -> Option<int>
    decreases items.len(),
{
    if items.len() == 0 {
        None
    } else if items.last() == name {
        Some(items.len() - 1)
    } else {
        last_index(items.drop_last(), name)
    }
}

/// The value of the last pair whose key is `key`.
pub open spec fn last_value(items: Seq<(Seq<char>, Seq<char>)>, key: Seq<char>) -> Option<Seq<char>>
    decreases items.len(),
{
    if items.len() == 0 {
        None
    } else if items.last().0 == key {
        Some(items.last().1)
    } else {
        last_value(items.drop_last(), key)
    }
}

/// A column that the listing must have.
#[derive(Clone, Copy, Debug, PartialEq, Eq, Structural)]
pub enum Header {
    Anmeldung,
    Zeitraum,
    Zeit,
    Bezeichnung,
    Ort,
    KursleiterIn,
}

impl Header {
    /// The text of the column's header cell.
    pub open spec fn label(self) -> Seq<char> {
        match self {
            Header::Anmeldung => "Anmeldung"@,
            Header::Zeitraum => "Zeitraum"@,
            Header::Zeit => "Zeit"@,
            Header::Bezeichnung => "Bezeichnung"@,
            Header::Ort => "Ort"@,
            Header::KursleiterIn => "Kursleiter/In"@,
        }
    }

    pub fn text(&self) -> (r: &'static str)
        ensures
            r@ == self.label(),
    {
        match self {
            Header::Anmeldung => "Anmeldung",
            Header::Zeitraum => "Zeitraum",
            Header::Zeit => "Zeit",
            Header::Bezeichnung => "Bezeichnung",
            Header::Ort => "Ort",
            Header::KursleiterIn => "Kursleiter/In",
        }
    }
}

/// Where each column stands in the table.
#[derive(Clone, Copy, Debug, PartialEq, Eq, Structural)]
pub struct Columns {
    pub link: usize,
    pub date: usize,
    pub time: usize,
    pub level: usize,
    pub location: usize,
    pub trainer: usize,
}

/// Why the listing as a whole could not be had.
#[derive(Debug, PartialEq, Eq)]
pub enum FetchError {
    /// The provider could not be reached; the text is the transport's own.
    Connection(String),
    /// The provider answered with a status other than 200; the text is the
    /// status as the transport words it.
    ServerStatus(String),
    /// The page is longer than the HTML library is trusted with.
    TooLarge,
    /// A selector was refused by the HTML library.
    Selector,
    /// The table has no column of that name: the layout has changed.
    MissingHeader(Header),
}

/// Why a row of the listing gives no session.
#[derive(Clone, Copy, Debug, PartialEq, Eq, Structural)]
pub enum RowError {
    /// The registration cell holds no link.
    NoAnchor,
    /// The link in the registration cell has no `href`.
    NoHref,
    /// The row is shorter than the table's header.
    MissingCell,
    /// The date has fewer than three parts.
    Date,
    /// The time of day has no `-` between start and end.
    Time,
    /// The link is no URL.
    Url,
    /// The link names no `Kursid`.
    NoId,
    /// The `Kursid` is no number.
    BadId,
    /// The start is no time that the clocks of Berlin showed once.
    StartTime,
    /// The end is no time that the clocks of Berlin showed once.
    EndTime,
}

/// What a row of the listing holds.
#[derive(Debug, PartialEq, Eq)]
pub enum Row {
    Session(Course),
    /// The link leads to the page that says no registration is open.
    Unavailable,
    Malformed(RowError),
}

/// A row's reading as plain values.
pub enum RowView {
    Session(CourseView),
    Unavailable,
    Malformed(RowError),
}

impl View for Row {
    type V = RowView;

    open spec fn view(&self) -> RowView {
        match self {
            Row::Session(course) => RowView::Session(course@),
            Row::Unavailable => RowView::Unavailable,
            Row::Malformed(e) => RowView::Malformed(*e),
        }
    }
}

/// The date of a cell such as `24.10.24`, with the century put before the
/// year: the text up to the first dot, from there to the second, and from
/// there to the third dot or the end, joined as `DD.MM.20YY`, of which the
/// first ten characters count. `None` where the cell has fewer than two
/// dots.
pub open spec fn date_of(cell: Seq<char>) -> Option<Seq<char>> {
    let first = position(cell, '.');
    let second = position_from(cell, '.', first + 1);
    let third = position_from(cell, '.', second + 1);
    if first >= cell.len() || second >= cell.len() {
        None
    } else {
        let long = cell.subrange(0, first) + "."@ + cell.subrange(first + 1, second) + ".20"@
            + cell.subrange(second + 1, third);
        Some(
            if long.len() > 10 {
                long.subrange(0, 10)
            } else {
                long
            },
        )
    }
}

/// Start and end of a cell such as `18:00-19:30`: the text before the first
/// `-` and the text after it.
pub open spec fn span_of(cell: Seq<char>) -> Option<(Seq<char>, Seq<char>)> {
    let dash = position(cell, '-');
    if dash >= cell.len() {
        None
    } else {
        Some((cell.subrange(0, dash), cell.subrange(dash + 1, cell.len() as int)))
    }
}

/// A date and a time of day as one text, with the seconds added.
pub open spec fn stamp(date: Seq<char>, time_of_day: Seq<char>) -> Seq<char> {
    date + " "@ + time_of_day + ":00"@
}

/// The format in which `stamp` writes.
pub open spec fn stamp_format() -> Seq<char> {
    "%d.%m.%Y %H:%M:%S"@
}

/// The path of the page that says no registration is open.
pub open spec fn closed_path() -> Seq<char> {
    "/buchsys/meldungen/keine_anmeldung_kurs.html"@
}

/// What a row holds. The checks come in this order, and the first that
/// fails decides: the link of the registration cell, the date, the time of
/// day, the URL, whether registration is open at all, the identifier, start
/// and end, and the three labels.
pub open spec fn row_of(cells: Seq<(Seq<char>, Option<Option<Seq<char>>>)>, at: Columns) -> RowView {
    if at.link < cells.len() && cells[at.link as int].1 is None {
        RowView::Malformed(RowError::NoAnchor)
    } else if at.link < cells.len() && cells[at.link as int].1 == Some(None::<Seq<char>>) {
        RowView::Malformed(RowError::NoHref)
    } else if at.date >= cells.len() {
        RowView::Malformed(RowError::MissingCell)
    } else if date_of(cells[at.date as int].0) is None {
        RowView::Malformed(RowError::Date)
    } else if at.time >= cells.len() {
        RowView::Malformed(RowError::MissingCell)
    } else if span_of(cells[at.time as int].0) is None {
        RowView::Malformed(RowError::Time)
    } else if at.link >= cells.len() {
        RowView::Malformed(RowError::MissingCell)
    } else {
        let date = date_of(cells[at.date as int].0)->0;
        let span = span_of(cells[at.time as int].0)->0;
        let href = cells[at.link as int].1->0->0;
        match link_parts(href) {
            None => RowView::Malformed(RowError::Url),
            Some((path, query)) => if path == closed_path() {
                RowView::Unavailable
            } else {
                session_of(cells, at, date, span, last_value(query, "Kursid"@))
            },
        }
    }
}

/// The session of a row whose registration is open.
pub open spec fn session_of(
    cells: Seq<(Seq<char>, Option<Option<Seq<char>>>)>,
    at: Columns,
    date: Seq<char>,
    span: (Seq<char>, Seq<char>),
    id_text: Option<Seq<char>>,
) -> RowView {
    if id_text is None {
        RowView::Malformed(RowError::NoId)
    } else if spelled_i64(id_text->0) is None {
        RowView::Malformed(RowError::BadId)
    } else if berlin_instant(stamp(date, span.0), stamp_format()) is None {
        RowView::Malformed(RowError::StartTime)
    } else if berlin_instant(stamp(date, span.1), stamp_format()) is None {
        RowView::Malformed(RowError::EndTime)
    } else if at.level >= cells.len() || at.location >= cells.len() || at.trainer >= cells.len() {
        RowView::Malformed(RowError::MissingCell)
    } else {
        RowView::Session(
            CourseView {
                id: spelled_i64(id_text->0)->0,
                start_time: berlin_instant(stamp(date, span.0), stamp_format())->0,
                end_time: berlin_instant(stamp(date, span.1), stamp_format())->0,
                level: cells[at.level as int].0,
                location: cells[at.location as int].0,
                trainer: cells[at.trainer as int].0,
            },
        )
    }
}

/// The text of an optional string.
pub open spec fn opt_text(o: Option<String>) -> Option<Seq<char>> {
    match o {
        Some(s) => Some(s@),
        None => None,
    }
}

/// The date of a listing cell, with the century put before the year.
pub fn read_date(cell: &str) -> (r: Option<String>)
    ensures
        opt_text(r) == date_of(cell@),
{
    let cs = chars_of(cell);
    let first = find_from(&cs, '.', 0);
    if first >= cs.len() {
        return None;
    }
    let second = find_from(&cs, '.', first + 1);
    if second >= cs.len() {
        return None;
    }
    let third = find_from(&cs, '.', second + 1);
    let mut long = cell.substring_char(0, first).to_string();
    long.append(".");
    long.append(cell.substring_char(first + 1, second));
    long.append(".20");
    long.append(cell.substring_char(second + 1, third));
    if long.as_str().unicode_len() > 10 {
        Some(long.as_str().substring_char(0, 10).to_string())
    } else {
        Some(long)
    }
}

/// Start and end of a listing cell that holds a span of time.
pub fn read_span(cell: &str) -> (r: Option<(String, String)>)
    ensures
        match r {
            Some((start, end)) => span_of(cell@) == Some((start@, end@)),
            None => span_of(cell@) is None,
        },
{
    let cs = chars_of(cell);
    let dash = find_from(&cs, '-', 0);
    if dash >= cs.len() {
        return None;
    }
    Some(
        (
            cell.substring_char(0, dash).to_string(),
            cell.substring_char(dash + 1, cs.len()).to_string(),
        ),
    )
}

fn stamp_text(date: &str, time_of_day: &str) -> (r: String)
    ensures
        r@ == stamp(date@, time_of_day@),
{
    let mut out = date.to_string();
    out.append(" ");
    out.append(time_of_day);
    out.append(":00");
    out
}

/// The last position of a header of the given text.
pub fn find_header(headers: &Vec<String>, name: &str) -> (r: Option<usize>)
    ensures
        match r {
            Some(i) => last_index(texts(headers@), name@) == Some(i as int),
            None => last_index(texts(headers@), name@) is None,
        },
{
    let mut found: Option<usize> = None;
    let mut i: usize = 0;
    assert(texts(headers@).take(0) =~= Seq::empty());
    while i < headers.len()
        invariant
            i <= headers.len(),
            match found {
                Some(k) => last_index(texts(headers@).take(i as int), name@) == Some(k as int),
                None => last_index(texts(headers@).take(i as int), name@) is None,
            },
        decreases headers.len() - i,
    {
        proof {
            let all = texts(headers@);
            assert(all.take(i + 1).drop_last() =~= all.take(i as int));
            assert(all.take(i + 1).last() == headers@[i as int]@);
        }
        if same(headers[i].as_str(), name) {
            found = Some(i);
        }
        i += 1;
    }
    assert(texts(headers@).take(headers.len() as int) =~= texts(headers@));
    found
}

/// The value of the last pair with the given key.
pub fn find_value(items: &Vec<(String, String)>, key: &str) -> (r: Option<String>)
    ensures
        opt_text(r) == last_value(pairs(items@), key@),
{
    let mut found: Option<String> = None;
    let mut i: usize = 0;
    assert(pairs(items@).take(0) =~= Seq::empty());
    while i < items.len()
        invariant
            i <= items.len(),
            opt_text(found) == last_value(pairs(items@).take(i as int), key@),
        decreases items.len() - i,
    {
        proof {
            let all = pairs(items@);
            assert(all.take(i + 1).drop_last() =~= all.take(i as int));
            assert(all.take(i + 1).last() == all[i as int]);
        }
        if same(items[i].0.as_str(), key) {
            found = Some(items[i].1.clone());
        }
        i += 1;
    }
    assert(pairs(items@).take(items.len() as int) =~= pairs(items@));
    found
}

/// Where the columns stand, or the first that is missing, asked for in the
/// order registration, date, time of day, level, location, instructor.
pub open spec fn columns_of(headers: Seq<Seq<char>>) -> Result<Columns, FetchError> {
    if last_index(headers, Header::Anmeldung.label()) is None {
        Err(FetchError::MissingHeader(Header::Anmeldung))
    } else if last_index(headers, Header::Zeitraum.label()) is None {
        Err(FetchError::MissingHeader(Header::Zeitraum))
    } else if last_index(headers, Header::Zeit.label()) is None {
        Err(FetchError::MissingHeader(Header::Zeit))
    } else if last_index(headers, Header::Bezeichnung.label()) is None {
        Err(FetchError::MissingHeader(Header::Bezeichnung))
    } else if last_index(headers, Header::Ort.label()) is None {
        Err(FetchError::MissingHeader(Header::Ort))
    } else if last_index(headers, Header::KursleiterIn.label()) is None {
        Err(FetchError::MissingHeader(Header::KursleiterIn))
    } else {
        Ok(
            Columns {
                link: last_index(headers, Header::Anmeldung.label())->0 as usize,
                date: last_index(headers, Header::Zeitraum.label())->0 as usize,
                time: last_index(headers, Header::Zeit.label())->0 as usize,
                level: last_index(headers, Header::Bezeichnung.label())->0 as usize,
                location: last_index(headers, Header::Ort.label())->0 as usize,
                trainer: last_index(headers, Header::KursleiterIn.label())->0 as usize,
            },
        )
    }
}

/// Finds the columns by the text of their header cells, wherever they
/// stand.
pub fn find_columns(headers: &Vec<String>) -> (r: Result<Columns, FetchError>)
    ensures
        r == columns_of(texts(headers@)),
{
    let link = match find_header(headers, Header::Anmeldung.text()) {
        Some(i) => i,
        None => {
            return Err(FetchError::MissingHeader(Header::Anmeldung));
        },
    };
    let date = match find_header(headers, Header::Zeitraum.text()) {
        Some(i) => i,
        None => {
            return Err(FetchError::MissingHeader(Header::Zeitraum));
        },
    };
    let time = match find_header(headers, Header::Zeit.text()) {
        Some(i) => i,
        None => {
            return Err(FetchError::MissingHeader(Header::Zeit));
        },
    };
    let level = match find_header(headers, Header::Bezeichnung.text()) {
        Some(i) => i,
        None => {
            return Err(FetchError::MissingHeader(Header::Bezeichnung));
        },
    };
    let location = match find_header(headers, Header::Ort.text()) {
        Some(i) => i,
        None => {
            return Err(FetchError::MissingHeader(Header::Ort));
        },
    };
    let trainer = match find_header(headers, Header::KursleiterIn.text()) {
        Some(i) => i,
        None => {
            return Err(FetchError::MissingHeader(Header::KursleiterIn));
        },
    };
    Ok(Columns { link, date, time, level, location, trainer })
}

/// Reads one row of the listing.
pub fn read_row(cells: &Vec<Cell>, at: &Columns) -> (r: Row)
    ensures
        r@ == row_of(row_text(cells@), *at),
{
    if at.link < cells.len() {
        match &cells[at.link].link {
            None => {
                return Row::Malformed(RowError::NoAnchor);
            },
            Some(None) => {
                return Row::Malformed(RowError::NoHref);
            },
            Some(Some(_)) => {},
        }
    }
    if at.date >= cells.len() {
        return Row::Malformed(RowError::MissingCell);
    }
    let date = match read_date(cells[at.date].text.as_str()) {
        Some(date) => date,
        None => {
            return Row::Malformed(RowError::Date);
        },
    };
    if at.time >= cells.len() {
        return Row::Malformed(RowError::MissingCell);
    }
    let (start, end) = match read_span(cells[at.time].text.as_str()) {
        Some(span) => span,
        None => {
            return Row::Malformed(RowError::Time);
        },
    };
    if at.link >= cells.len() {
        return Row::Malformed(RowError::MissingCell);
    }
    let href = match &cells[at.link].link {
        Some(Some(href)) => href,
        _ => {
            return Row::Malformed(RowError::NoAnchor);
        },
    };
    let (path, query) = match parse_link(href.as_str()) {
        Some(parts) => parts,
        None => {
            return Row::Malformed(RowError::Url);
        },
    };
    if same(path.as_str(), "/buchsys/meldungen/keine_anmeldung_kurs.html") {
        return Row::Unavailable;
    }
    let id_text = match find_value(&query, "Kursid") {
        Some(text) => text,
        None => {
            return Row::Malformed(RowError::NoId);
        },
    };
    let id = match parse_i64(id_text.as_str()) {
        Some(id) => id,
        None => {
            return Row::Malformed(RowError::BadId);
        },
    };
    let format = "%d.%m.%Y %H:%M:%S";
    let start_text = stamp_text(date.as_str(), start.as_str());
    let start_time = match instant_in_berlin(start_text.as_str(), format) {
        Some(t) => t,
        None => {
            return Row::Malformed(RowError::StartTime);
        },
    };
    let end_text = stamp_text(date.as_str(), end.as_str());
    let end_time = match instant_in_berlin(end_text.as_str(), format) {
        Some(t) => t,
        None => {
            return Row::Malformed(RowError::EndTime);
        },
    };
    if at.level >= cells.len() || at.location >= cells.len() || at.trainer >= cells.len() {
        return Row::Malformed(RowError::MissingCell);
    }
    Row::Session(
        Course {
            id,
            start_time,
            end_time,
            level: cells[at.level].text.clone(),
            location: cells[at.location].text.clone(),
            trainer: cells[at.trainer].text.clone(),
        },
    )
}

/// The sessions of a page, and how many of its rows were passed over
/// because they could not be read. Rows whose registration is not open are
/// neither.
#[derive(Debug, PartialEq, Eq)]
pub struct Listing {
    pub courses: Vec<Course>,
    pub skipped: usize,
}

/// Sessions as plain values.
pub open spec fn courses_view(courses: Seq<Course>) -> Seq<CourseView> {
    Seq::new(courses.len(), |i: int| courses[i]@)
}

/// The sessions among the rows, in page order.
pub open spec fn sessions_of(
    rows: Seq<Seq<(Seq<char>, Option<Option<Seq<char>>>)>>,
    at: Columns,
) -> Seq<CourseView>
    decreases rows.len(),
{
    if rows.len() == 0 {
        Seq::empty()
    } else {
        let head = sessions_of(rows.drop_last(), at);
        match row_of(rows.last(), at) {
            RowView::Session(course) => head.push(course),
            _ => head,
        }
    }
}

/// How many of the rows cannot be read.
pub open spec fn malformed_of(
    rows: Seq<Seq<(Seq<char>, Option<Option<Seq<char>>>)>>,
    at: Columns,
) -> nat
    decreases rows.len(),
{
    if rows.len() == 0 {
        0
    } else {
        let head = malformed_of(rows.drop_last(), at);
        match row_of(rows.last(), at) {
            RowView::Malformed(_) => head + 1,
            _ => head,
        }
    }
}

/// The selector of the header cells.
pub open spec fn header_css() -> Seq<char> {
    "thead > tr:first-of-type > th"@
}

/// Whether the HTML library accepts the four selectors of the listing.
pub open spec fn listing_selectors_valid() -> bool {
    &&& valid_selector(header_css())
    &&& valid_selector("tbody > tr"@)
    &&& valid_selector("td"@)
    &&& valid_selector("a"@)
}

/// What a listing page holds: its sessions and the number of rows passed
/// over. A page without header cells holds nothing. A page whose table
/// lacks one of the columns is refused as a whole; a row that cannot be
/// read is passed over and counted, and the rows around it still count.
pub open spec fn listing_of(html: Seq<char>) -> Result<(Seq<CourseView>, nat), FetchError> {
    if !readable(html) {
        Err(FetchError::TooLarge)
    } else if !listing_selectors_valid() {
        Err(FetchError::Selector)
    } else {
        let headers = selected_texts(html, header_css());
        if headers.len() == 0 {
            Ok((Seq::empty(), 0))
        } else {
            match columns_of(headers) {
                Err(e) => Err(e),
                Ok(at) => {
                    let rows = selected_cells(html, "tbody > tr"@, "td"@, "a"@, "href"@);
                    Ok((sessions_of(rows, at), malformed_of(rows, at)))
                },
            }
        }
    }
}

/// What the answer to the request for the listing gives: the listing of
/// its page, or why there is none.
pub open spec fn fetched(reply: Reply) -> Result<(Seq<CourseView>, nat), FetchError> {
    match reply {
        Reply::Body(page) => listing_of(page@),
        Reply::Status(status) => Err(FetchError::ServerStatus(status)),
        Reply::Failed(detail) => Err(FetchError::Connection(detail)),
    }
}

/// The listing as plain values.
pub open spec fn listing_view(r: Result<Listing, FetchError>) -> Result<(Seq<CourseView>, nat), FetchError> {
    match r {
        Ok(listing) => Ok((courses_view(listing.courses@), listing.skipped as nat)),
        Err(e) => Err(e),
    }
}

/// Reads the answer to the request for the listing.
pub fn fetch(reply: Reply) -> (r: Result<Listing, FetchError>)
    ensures
        listing_view(r) == fetched(reply),
{
    match reply {
        Reply::Body(page) => read_listing(page.as_str()),
        Reply::Status(status) => Err(FetchError::ServerStatus(status)),
        Reply::Failed(detail) => Err(FetchError::Connection(detail)),
    }
}

/// Reads the provider's listing page.
pub fn read_listing(html: &str) -> (r: Result<Listing, FetchError>)
    ensures
        listing_view(r) == listing_of(html@),
{
    if !is_readable(html) {
        return Err(FetchError::TooLarge);
    }
    if !selector_parses("thead > tr:first-of-type > th") || !selector_parses("tbody > tr")
        || !selector_parses("td") || !selector_parses("a") {
        return Err(FetchError::Selector);
    }
    let headers = scrape_texts(html, "thead > tr:first-of-type > th");
    if headers.len() == 0 {
        let none: Vec<Course> = Vec::new();
        assert(courses_view(none@) =~= Seq::empty());
        return Ok(Listing { courses: none, skipped: 0 });
    }
    let at = match find_columns(&headers) {
        Ok(at) => at,
        Err(e) => {
            return Err(e);
        },
    };
    let rows = scrape_cells(html, "tbody > tr", "td", "a", "href");
    let mut courses: Vec<Course> = Vec::new();
    let mut skipped: usize = 0;
    let mut i: usize = 0;
    assert(rows_text(rows@).take(0) =~= Seq::empty());
    assert(courses_view(courses@) =~= Seq::empty());
    while i < rows.len()
        invariant
            i <= rows.len(),
            courses_view(courses@) == sessions_of(rows_text(rows@).take(i as int), at),
            skipped == malformed_of(rows_text(rows@).take(i as int), at),
            skipped <= i,
        decreases rows.len() - i,
    {
        proof {
            let all = rows_text(rows@);
            assert(all.take(i + 1).drop_last() =~= all.take(i as int));
            assert(all.take(i + 1).last() == row_text(rows@[i as int]@));
        }
        match read_row(&rows[i], &at) {
            Row::Session(course) => {
                let ghost before = courses_view(courses@);
                courses.push(course);
                assert(courses_view(courses@) =~= before.push(course@));
            },
            Row::Unavailable => {},
            Row::Malformed(_) => {
                skipped += 1;
            },
        }
        i += 1;
    }
    assert(rows_text(rows@).take(rows.len() as int) =~= rows_text(rows@));
    Ok(Listing { courses, skipped })
}

/// A number below one hundred in two digits.
pub open spec fn two_digits(n: u32) -> Seq<char> {
    if n < 10 {
        "0"@ + digits(n as nat)
    } else {
        digits(n as nat)
    }
}

/// Hour and minute as `HH:MM`.
pub open spec fn clock_text(clock: (u32, u32)) -> Seq<char> {
    two_digits(clock.0) + ":"@ + two_digits(clock.1)
}

fn clock_string(clock: (u32, u32)) -> (r: String)
    ensures
        r@ == clock_text(clock),
{
    let mut out = String::new();
    if clock.0 < 10 {
        out.append("0");
    }
    let hour = unsigned_text(clock.0 as u64);
    out.append(hour.as_str());
    let ghost hours = out@;
    assert(hours =~= two_digits(clock.0));
    out.append(":");
    let mut minute_text = String::new();
    if clock.1 < 10 {
        minute_text.append("0");
    }
    let minute = unsigned_text(clock.1 as u64);
    minute_text.append(minute.as_str());
    assert(minute_text@ =~= two_digits(clock.1));
    out.append(minute_text.as_str());
    out
}

impl CourseView {
    /// The session as shown to a person, with its times on the clocks of
    /// Berlin; `None` where a time lies outside the calendar library's
    /// range.
    pub open spec fn description(self) -> Option<Seq<char>> {
        match (berlin_clock(self.start_time), berlin_clock(self.end_time)) {
            (Some(start), Some(end)) => Some(
                "Von: "@ + clock_text(start) + "\nBis: "@ + clock_text(end) + "\nBezeichnung: "@
                    + self.level + "\nOrt: "@ + self.location + "\nKursleiter/In: "@
                    + self.trainer,
            ),
            _ => None,
        }
    }
}

impl Course {
    /// The session as text, with its times on the clocks of Berlin.
    pub fn describe(&self) -> (r: Option<String>)
        ensures
            opt_text(r) == self@.description(),
    {
        let start = match clock_in_berlin(self.start_time) {
            Some(clock) => clock,
            None => {
                return None;
            },
        };
        let end = match clock_in_berlin(self.end_time) {
            Some(clock) => clock,
            None => {
                return None;
            },
        };
        let mut out = "Von: ".to_string();
        let from = clock_string(start);
        out.append(from.as_str());
        out.append("\nBis: ");
        let until = clock_string(end);
        out.append(until.as_str());
        out.append("\nBezeichnung: ");
        out.append(self.level.as_str());
        out.append("\nOrt: ");
        out.append(self.location.as_str());
        out.append("\nKursleiter/In: ");
        out.append(self.trainer.as_str());
        Some(out)
    }

    /// A copy with the same fields.
    pub fn duplicate(&self) -> (r: Course)
        ensures
            r == *self,
    {
        Course {
            id: self.id,
            start_time: self.start_time,
            end_time: self.end_time,
            level: self.level.clone(),
            location: self.location.clone(),
            trainer: self.trainer.clone(),
        }
    }
}

/// The address of the provider's listing.
pub open spec fn listing_address() -> Seq<char> {
    "https://unisport.koeln/e65/e41657/e41692/k_content41702/publicGetData"@
}

pub fn courses_url() -> (r: &'static str)
    ensures
        r@ == listing_address(),
{
    "https://unisport.koeln/e65/e41657/e41692/k_content41702/publicGetData"
}

/// Whether a session of that identifier is among `courses`.
pub open spec fn has_id(courses: Seq<CourseView>, id: i64) -> bool {
    exists|i: int| 0 <= i < courses.len() && #[trigger] courses[i].id == id
}

/// The sessions that are to be stored: each found session whose identifier
/// is neither stored yet nor that of a session found before it.
pub open spec fn unknown(found: Seq<CourseView>, stored: Seq<i64>) -> Seq<CourseView>
    decreases found.len(),
{
    if found.len() == 0 {
        Seq::empty()
    } else {
        let head = unknown(found.drop_last(), stored);
        let course = found.last();
        if stored.contains(course.id) || has_id(found.drop_last(), course.id) {
            head
        } else {
            head.push(course)
        }
    }
}

fn holds(ids: &Vec<i64>, id: i64) -> (r: bool)
    ensures
        r == ids@.contains(id),
{
    let mut i: usize = 0;
    while i < ids.len()
        invariant
            i <= ids.len(),
            forall|j: int| 0 <= j < i ==> ids@[j] != id,
        decreases ids.len() - i,
    {
        if ids[i] == id {
            return true;
        }
        i += 1;
    }
    false
}

fn found_before(found: &Vec<Course>, upto: usize, id: i64) -> (r: bool)
    requires
        upto <= found.len(),
    ensures
        r == has_id(courses_view(found@).take(upto as int), id),
{
    let mut i: usize = 0;
    while i < upto
        invariant
            i <= upto <= found.len(),
            forall|j: int| 0 <= j < i ==> courses_view(found@).take(upto as int)[j].id != id,
        decreases upto - i,
    {
        if found[i].id == id {
            assert(courses_view(found@).take(upto as int)[i as int].id == id);
            return true;
        }
        i += 1;
    }
    false
}

/// Picks the sessions to store among those found, given the identifiers
/// that are stored already. Storing the result once makes a second call
/// with the same listing pick nothing.
pub fn new_courses(found: &Vec<Course>, stored: &Vec<i64>) -> (r: Vec<Course>)
    ensures
        courses_view(r@) == unknown(courses_view(found@), stored@),
{
    let mut out: Vec<Course> = Vec::new();
    let mut i: usize = 0;
    assert(courses_view(found@).take(0) =~= Seq::empty());
    assert(courses_view(out@) =~= Seq::empty());
    while i < found.len()
        invariant
            i <= found.len(),
            courses_view(out@) == unknown(courses_view(found@).take(i as int), stored@),
        decreases found.len() - i,
    {
        proof {
            let all = courses_view(found@);
            assert(all.take(i + 1).drop_last() =~= all.take(i as int));
            assert(all.take(i + 1).last() == found@[i as int]@);
        }
        let id = found[i].id;
        if !holds(stored, id) && !found_before(found, i, id) {
            let ghost before = courses_view(out@);
            let course = found[i].duplicate();
            out.push(course);
            assert(courses_view(out@) =~= before.push(found@[i as int]@));
        }
        i += 1;
    }
    assert(courses_view(found@).take(found.len() as int) =~= courses_view(found@));
    out
}

/// The identifiers of sessions, in order.
pub open spec fn ids(courses: Seq<CourseView>) -> Seq<i64> {
    Seq::new(courses.len(), |i: int| courses[i].id)
}

proof fn lemma_unknown_covers(found: Seq<CourseView>, stored: Seq<i64>)
    ensures
        forall|i: int|
            0 <= i < found.len() ==> stored.contains((#[trigger] found[i]).id) || has_id(
                unknown(found, stored),
                found[i].id,
            ),
        forall|i: int|
            0 <= i < unknown(found, stored).len() ==> has_id(
                found,
                (#[trigger] unknown(found, stored)[i]).id,
            ),
    decreases found.len(),
{
    let picked = unknown(found, stored);
    if found.len() > 0 {
        let head = found.drop_last();
        let last = found.last();
        lemma_unknown_covers(head, stored);
        let before = unknown(head, stored);
        assert forall|i: int| 0 <= i < found.len() implies stored.contains((#[trigger] found[i]).id)
            || has_id(picked, found[i].id) by {
            let id = found[i].id;
            if !stored.contains(id) {
                if i < head.len() {
                    assert(head[i].id == id);
                    let k = choose|k: int| 0 <= k < before.len() && (#[trigger] before[k]).id == id;
                    assert(picked[k].id == id);
                } else if has_id(head, id) {
                    let j = choose|j: int| 0 <= j < head.len() && (#[trigger] head[j]).id == id;
                    let k = choose|k: int| 0 <= k < before.len() && (#[trigger] before[k]).id == id;
                    assert(picked[k].id == id);
                } else {
                    assert(picked[picked.len() - 1].id == id);
                }
            }
        }
        assert forall|i: int| 0 <= i < picked.len() implies has_id(found, (#[trigger] picked[i]).id) by {
            if i < before.len() {
                let j = choose|j: int| 0 <= j < head.len() && (#[trigger] head[j]).id == before[i].id;
                assert(found[j].id == picked[i].id);
            } else {
                assert(found[found.len() - 1].id == picked[i].id);
            }
        }
    }
}

proof fn lemma_nothing_unknown(found: Seq<CourseView>, stored: Seq<i64>)
    requires
        forall|i: int| 0 <= i < found.len() ==> stored.contains((#[trigger] found[i]).id),
    ensures
        unknown(found, stored) == Seq::<CourseView>::empty(),
    decreases found.len(),
{
    if found.len() > 0 {
        assert forall|i: int| 0 <= i < found.drop_last().len() implies stored.contains(
            (#[trigger] found.drop_last()[i]).id,
        ) by {
            assert(found.drop_last()[i] == found[i]);
        }
        lemma_nothing_unknown(found.drop_last(), stored);
        assert(stored.contains(found[found.len() - 1].id));
    }
}

/// Storing is idempotent: once the picked sessions are stored, the same
/// listing has nothing more to store. And what is picked holds no session
/// twice and none that is stored.
pub proof fn lemma_storing_twice_adds_nothing(found: Seq<CourseView>, stored: Seq<i64>)
    ensures
        unknown(found, stored + ids(unknown(found, stored))) == Seq::<CourseView>::empty(),
        forall|i: int|
            0 <= i < unknown(found, stored).len() ==> !stored.contains(
                (#[trigger] unknown(found, stored)[i]).id,
            ),
        forall|i: int, j: int|
            0 <= i < j < unknown(found, stored).len() ==> (#[trigger] unknown(found, stored)[i]).id
                != (#[trigger] unknown(found, stored)[j]).id,
{
    let picked = unknown(found, stored);
    let after = stored + ids(picked);
    lemma_unknown_covers(found, stored);
    assert forall|i: int| 0 <= i < found.len() implies after.contains((#[trigger] found[i]).id) by {
        let id = found[i].id;
        if stored.contains(id) {
            let k = choose|k: int| 0 <= k < stored.len() && stored[k] == id;
            assert(after[k] == id);
        } else {
            let k = choose|k: int| 0 <= k < picked.len() && (#[trigger] picked[k]).id == id;
            assert(after[stored.len() + k] == id);
        }
    }
    lemma_nothing_unknown(found, after);
    lemma_unknown_is_new(found, stored);
}

proof fn lemma_unknown_is_new(found: Seq<CourseView>, stored: Seq<i64>)
    ensures
        forall|i: int|
            0 <= i < unknown(found, stored).len() ==> !stored.contains(
                (#[trigger] unknown(found, stored)[i]).id,
            ),
        forall|i: int, j: int|
            0 <= i < j < unknown(found, stored).len() ==> (#[trigger] unknown(found, stored)[i]).id
                != (#[trigger] unknown(found, stored)[j]).id,
    decreases found.len(),
{
    if found.len() > 0 {
        let head = found.drop_last();
        lemma_unknown_is_new(head, stored);
        lemma_unknown_covers(head, stored);
        let before = unknown(head, stored);
        let picked = unknown(found, stored);
        assert forall|i: int, j: int| 0 <= i < j < picked.len() implies (#[trigger] picked[i]).id != (
        #[trigger] picked[j]).id by {
            if j == before.len() {
                assert(has_id(head, before[i].id));
            }
        }
    }
}

} // verus!
