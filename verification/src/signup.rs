//! Registering one person for one session: the three requests that replay
//! the provider's form, and the reading of its answer.
use crate::decimal::{decimal, signed_text};
use crate::error::SignupError;
use crate::form::{
    can_encode, encodable, form_of, is_readable, kept_params, params_from_form, parse_form,
    readable, request_body, request_body_from_params,
};
use crate::participant::{pairs, Participant};
use crate::text::{contains, occurs, same};
use regex::Regex;
use scraper::Html;
use vstd::prelude::*;
use vstd::string::*;

verus! {

/// What is recorded of a person and a session. No record at all means that
/// the person has not been told of the session.
#[derive(Clone, Copy, Debug, PartialEq, Eq, Structural)]
pub enum Status {
    Notified,
    SignedUp,
    Rejected,
}

/// The record of one person for one session.
#[derive(Clone, Copy, Debug, PartialEq, Eq, Structural)]
pub struct Signup {
    pub participant_id: i64,
    pub course_id: i64,
    pub status: Status,
}

/// A person's answer to the question whether to register them.
#[derive(Clone, Copy, Debug, PartialEq, Eq, Structural)]
pub enum Request {
    Accept,
    Reject,
}

impl Request {
    /// The label of the answer on the keyboard.
    pub open spec fn pretty_text(self) -> Seq<char> {
        match self {
            Request::Accept => "Aber sowas von!"@,
            Request::Reject => "Heute leider nicht."@,
        }
    }

    /// The first answer, in declaration order, whose label is `text`.
    pub open spec fn labelled(text: Seq<char>) -> Option<Request> {
        if text == Request::Accept.pretty_text() {
            Some(Request::Accept)
        } else if text == Request::Reject.pretty_text() {
            Some(Request::Reject)
        } else {
            None
        }
    }

    /// Both answers, in declaration order.
    pub open spec fn every() -> Seq<Request> {
        seq![Request::Accept, Request::Reject]
    }

    pub fn pretty(&self) -> (r: &'static str)
        ensures
            r@ == self.pretty_text(),
    {
        match self {
            Request::Accept => "Aber sowas von!",
            Request::Reject => "Heute leider nicht.",
        }
    }

    pub fn all() -> (r: Vec<Request>)
        ensures
            r@ == Request::every(),
    {
        let r = vec![Request::Accept, Request::Reject];
        assert(r@ =~= Request::every());
        r
    }

    /// The answer that a person picked by its label.
    pub fn from_pretty(text: &str) -> (r: Option<Request>)
        ensures
            r == Request::labelled(text@),
    {
        if same(text, Request::Accept.pretty()) {
            Some(Request::Accept)
        } else if same(text, Request::Reject.pretty()) {
            Some(Request::Reject)
        } else {
            None
        }
    }
}

/// Both answers are found again by their label.
pub proof fn lemma_answer_labels_tell_apart(request: Request)
    ensures
        Request::labelled(request.pretty_text()) == Some(request),
{
    reveal_strlit("Aber sowas von!");
    reveal_strlit("Heute leider nicht.");
    assert("Aber sowas von!"@[0] != "Heute leider nicht."@[0]);
}

/// What the provider's last page says.
#[derive(Clone, Copy, Debug, PartialEq, Eq, Structural)]
pub enum Outcome {
    Booked,
    NoTicket,
    AlreadySignedUp,
    Unknown,
}

/// Whether a regular expression matches somewhere in a text, as the regex
/// library decides it; `None` where the library refuses the expression.
pub uninterp spec fn regex_match(pattern: Seq<char>, text: Seq<char>) -> Option<bool>;

/// A page as the HTML library writes it out again after parsing it.
pub uninterp spec fn normalized_html(page: Seq<char>) -> Seq<char>;

/// `regex::Regex::new`, then `Regex::is_match`. Both depend on their
/// arguments alone; a refused expression gives `None`.
#[verifier::external_body]
fn regex_is_match(pattern: &str, text: &str) -> (r: Option<bool>)
    ensures
        r == regex_match(pattern@, text@),
{
    Some(Regex::new(pattern).ok()?.is_match(text))
}

/// `scraper::Html::parse_document`, then `Html::html`: the page parsed and
/// serialized again, which depends on the page alone. The `requires` keeps
/// the page within what the parser's buffers hold.
#[verifier::external_body]
fn normalize_html(page: &str) -> (r: String)
    requires
        readable(page@),
    ensures
        r@ == normalized_html(page@),
{
    Html::parse_document(page).html()
}

/// The sentence with which the provider confirms a booking.
pub open spec fn success_pattern() -> Seq<char> {
    "Sie haben sich verbindlich für das Angebot Nr. \\d+ angemeldet."@
}

/// The phrases of a page that asks for a ticket bought beforehand.
pub open spec fn asks_for_ticket(page: Seq<char>) -> bool {
    &&& occurs(page, "Für die Buchung dieses Angebots"@)
    &&& occurs(page, "müssen Sie vorher eines folgender Angebote gebucht haben"@)
    &&& occurs(page, "Sportticket"@)
}

/// The phrases of a page that reports an earlier registration.
pub open spec fn reports_duplicate(page: Seq<char>) -> bool {
    &&& occurs(page, "Ihre Buchung konnte leider nicht ausgeführt werden"@)
    &&& occurs(page, "da Sie für diesen Kurs bereits angemeldet sind"@)
}

/// What a page says, given whether the confirming sentence was found in it.
/// The first that applies decides: a confirmation, by that sentence or by
/// the offer to send the confirmation by mail; the request for a ticket; the
/// report of an earlier registration. Any other page is `Unknown`.
pub open spec fn verdict(page: Seq<char>, confirmed: Option<bool>) -> Outcome {
    if confirmed == Some(true) || occurs(
        page,
        "Bitte geben Sie Ihre Emailadresse ein, um Ihre Buchungsbestätigung abzurufen"@,
    ) {
        Outcome::Booked
    } else if asks_for_ticket(page) {
        Outcome::NoTicket
    } else if reports_duplicate(page) {
        Outcome::AlreadySignedUp
    } else {
        Outcome::Unknown
    }
}

/// What the provider's answer to the confirming request says. An answer
/// too long to be read says nothing that is known.
pub open spec fn classified(response: Seq<char>) -> Outcome {
    if readable(response) {
        verdict(
            normalized_html(response),
            regex_match(success_pattern(), normalized_html(response)),
        )
    } else {
        Outcome::Unknown
    }
}

/// Reads a page, given whether the confirming sentence was found in it.
pub fn judge(page: &str, confirmed: Option<bool>) -> (r: Outcome)
    ensures
        r == verdict(page@, confirmed),
{
    let by_sentence = match confirmed {
        Some(found) => found,
        None => false,
    };
    if by_sentence || contains(
        page,
        "Bitte geben Sie Ihre Emailadresse ein, um Ihre Buchungsbestätigung abzurufen",
    ) {
        Outcome::Booked
    } else if contains(page, "Für die Buchung dieses Angebots") && contains(
        page,
        "müssen Sie vorher eines folgender Angebote gebucht haben",
    ) && contains(page, "Sportticket") {
        Outcome::NoTicket
    } else if contains(page, "Ihre Buchung konnte leider nicht ausgeführt werden") && contains(
        page,
        "da Sie für diesen Kurs bereits angemeldet sind",
    ) {
        Outcome::AlreadySignedUp
    } else {
        Outcome::Unknown
    }
}

/// Reads the provider's answer to the confirming request.
pub fn classify(response: &str) -> (r: Outcome)
    ensures
        r == classified(response@),
{
    if !is_readable(response) {
        return Outcome::Unknown;
    }
    let page = normalize_html(response);
    let confirmed = regex_is_match(
        "Sie haben sich verbindlich für das Angebot Nr. \\d+ angemeldet.",
        page.as_str(),
    );
    judge(page.as_str(), confirmed)
}

impl Outcome {
    /// An outcome as the result of a registration: only `Booked` is success.
    pub open spec fn as_result(self) -> Result<(), SignupError> {
        match self {
            Outcome::Booked => Ok(()),
            Outcome::NoTicket => Err(SignupError::NoTicket),
            Outcome::AlreadySignedUp => Err(SignupError::AlreadySignedUp),
            Outcome::Unknown => Err(SignupError::Unknown),
        }
    }

    pub fn into_result(self) -> (r: Result<(), SignupError>)
        ensures
            r == self.as_result(),
    {
        match self {
            Outcome::Booked => Ok(()),
            Outcome::NoTicket => Err(SignupError::NoTicket),
            Outcome::AlreadySignedUp => Err(SignupError::AlreadySignedUp),
            Outcome::Unknown => Err(SignupError::Unknown),
        }
    }
}

/// The address to which both forms are posted.
pub open spec fn endpoint() -> Seq<char> {
    "https://isis.verw.uni-koeln.de/cgi/anmeldung.fcgi"@
}

/// The address of the registration form of a session.
pub open spec fn form_address(course_id: i64) -> Seq<char> {
    endpoint() + "?Kursid="@ + decimal(course_id as int)
}

pub fn signup_url() -> (r: &'static str)
    ensures
        r@ == endpoint(),
{
    "https://isis.verw.uni-koeln.de/cgi/anmeldung.fcgi"
}

pub fn form_url(course_id: i64) -> (r: String)
    ensures
        r@ == form_address(course_id),
{
    let mut out = signup_url().to_string();
    out.append("?Kursid=");
    let id = signed_text(course_id);
    out.append(id.as_str());
    out
}

/// The text of a result, or its error.
pub open spec fn text_of(r: Result<String, SignupError>) -> Result<Seq<char>, SignupError> {
    match r {
        Ok(s) => Ok(s@),
        Err(e) => Err(e),
    }
}

/// The fields of the first request: what the form page holds, without the
/// fields of the person that the provider has seeded, then the person's
/// own.
pub open spec fn first_fields(person: Participant, form: Seq<(Option<Seq<char>>, Option<Seq<char>>)>) -> Seq<
    (Seq<char>, Seq<char>),
> {
    kept_params(form, false) + person.payload()
}

/// The fields of the confirming request: everything that the confirmation
/// page holds, the person's fields included, then the field that confirms.
pub open spec fn second_fields(form: Seq<(Option<Seq<char>>, Option<Seq<char>>)>) -> Seq<
    (Seq<char>, Seq<char>),
> {
    kept_params(form, true).push(("submit"@, "verbindliche Buchung"@))
}

/// The body that submits `fields` read from the first form of `page`: the
/// error of `form_of` where the page gives no form, `Encoding` where a value
/// is not Latin-1 text.
pub open spec fn body_for(
    page: Seq<char>,
    fields: spec_fn(Seq<(Option<Seq<char>>, Option<Seq<char>>)>) -> Seq<(Seq<char>, Seq<char>)>,
) -> Result<Seq<char>, SignupError> {
    match form_of(page) {
        Err(e) => Err(e),
        Ok(form) => if encodable(fields(form)) {
            Ok(request_body(fields(form)))
        } else {
            Err(SignupError::Encoding)
        },
    }
}

/// The body of the first request, from the form page.
pub open spec fn first_body_of(person: Participant, page: Seq<char>) -> Result<Seq<char>, SignupError> {
    body_for(page, |form| first_fields(person, form))
}

/// The body of the confirming request, from the confirmation page.
pub open spec fn second_body_of(page: Seq<char>) -> Result<Seq<char>, SignupError> {
    body_for(page, |form| second_fields(form))
}

/// The body of the first request: the session's hidden fields from the form
/// page and the person's own fields.
pub fn first_body(person: &Participant, page: &str) -> (r: Result<String, SignupError>)
    ensures
        text_of(r) == first_body_of(*person, page@),
{
    let form = match parse_form(page) {
        Ok(form) => form,
        Err(e) => {
            return Err(e);
        },
    };
    let mut params = params_from_form(&form, false);
    let mut own = person.as_payload();
    let ghost head = pairs(params@);
    let ghost tail = pairs(own@);
    params.append(&mut own);
    assert(pairs(params@) =~= head + tail);
    request_body_from_params(params)
}

/// The body of the confirming request: every field of the confirmation
/// page and the field that confirms.
pub fn second_body(page: &str) -> (r: Result<String, SignupError>)
    ensures
        text_of(r) == second_body_of(page@),
{
    let form = match parse_form(page) {
        Ok(form) => form,
        Err(e) => {
            return Err(e);
        },
    };
    let mut params = params_from_form(&form, true);
    let ghost head = pairs(params@);
    params.push(("submit".to_string(), "verbindliche Buchung".to_string()));
    assert(pairs(params@) =~= head.push(("submit"@, "verbindliche Buchung"@)));
    request_body_from_params(params)
}

/// A request to the provider. A `Post` carries a form body and goes out with
/// the headers of `form_headers` and its `Referer`.
#[derive(Debug, PartialEq, Eq)]
pub enum HttpRequest {
    Get { url: String },
    Post { url: String, referer: String, body: String },
}

/// A request as plain text.
pub enum Wire {
    Get { url: Seq<char> },
    Post { url: Seq<char>, referer: Seq<char>, body: Seq<char> },
}

impl View for HttpRequest {
    type V = Wire;

    open spec fn view(&self) -> Wire {
        match self {
            HttpRequest::Get { url } => Wire::Get { url: url@ },
            HttpRequest::Post { url, referer, body } => Wire::Post {
                url: url@,
                referer: referer@,
                body: body@,
            },
        }
    }
}

/// What came back for a request: the body of an answer with status 200, the
/// status of any other answer, or the transport's words where none came.
#[derive(Debug, PartialEq, Eq)]
pub enum Reply {
    Body(String),
    Status(String),
    Failed(String),
}

impl Reply {
    /// What an answer of the provider counts as: its body where the status
    /// is 200, else its status.
    pub open spec fn answered(status: u16, status_line: String, body: String) -> Reply {
        if status == 200 {
            Reply::Body(body)
        } else {
            Reply::Status(status_line)
        }
    }

    /// Sorts an answer by its status. `status_line` is the status as the
    /// transport words it.
    pub fn from_response(status: u16, status_line: String, body: String) -> (r: Reply)
        ensures
            r == Reply::answered(status, status_line, body),
    {
        if status == 200 {
            Reply::Body(body)
        } else {
            Reply::Status(status_line)
        }
    }
}

/// Registration for a session is open where the provider answers the
/// request for its form with a page that holds one.
pub open spec fn signup_open(reply: Reply) -> bool {
    reply matches Reply::Body(page) && form_of(page@) is Ok
}

/// Whether registration is open, from the answer to the request for the
/// session's form.
pub fn is_signup_available(reply: &Reply) -> (r: bool)
    ensures
        r == signup_open(*reply),
{
    match reply {
        Reply::Body(page) => parse_form(page.as_str()).is_ok(),
        _ => false,
    }
}

/// Which answer a replay waits for.
#[derive(Clone, Copy, Debug, PartialEq, Eq, Structural)]
pub enum Stage {
    /// The page with the registration form.
    Form,
    /// The page that asks to confirm.
    Confirmation,
    /// The provider's final word.
    Outcome,
}

/// A registration under way.
#[derive(Clone, Copy, Debug, PartialEq, Eq, Structural)]
pub struct Replay {
    pub course_id: i64,
    pub stage: Stage,
}

/// What to do after an answer: wait, then send the next request, or stop
/// with the result.
#[derive(Debug, PartialEq, Eq)]
pub enum Next {
    Proceed { replay: Replay, pause_seconds: u64, request: HttpRequest },
    Done(Result<(), SignupError>),
}

/// `Next` as plain text.
pub enum NextView {
    Proceed { replay: Replay, pause_seconds: u64, request: Wire },
    Done(Result<(), SignupError>),
}

impl View for Next {
    type V = NextView;

    open spec fn view(&self) -> NextView {
        match self {
            Next::Proceed { replay, pause_seconds, request } => NextView::Proceed {
                replay: *replay,
                pause_seconds: *pause_seconds,
                request: request@,
            },
            Next::Done(result) => NextView::Done(*result),
        }
    }
}

/// The headers that every posted form carries besides its `Referer`.
pub open spec fn fixed_headers() -> Seq<(Seq<char>, Seq<char>)> {
    seq![
        ("Content-Type"@, "application/x-www-form-urlencoded"@),
        ("Host"@, "isis.verw.uni-koeln.de"@),
        ("Origin"@, "https://isis.verw.uni-koeln.de"@),
    ]
}

pub fn form_headers() -> (r: Vec<(String, String)>)
    ensures
        pairs(r@) == fixed_headers(),
{
    let r = vec![
        ("Content-Type".to_string(), "application/x-www-form-urlencoded".to_string()),
        ("Host".to_string(), "isis.verw.uni-koeln.de".to_string()),
        ("Origin".to_string(), "https://isis.verw.uni-koeln.de".to_string()),
    ];
    assert(pairs(r@) =~= fixed_headers());
    r
}

/// Seconds to wait between an answer and the next request.
pub open spec fn pause() -> u64 {
    3
}

impl Replay {
    /// The step after a failed request. Before the final answer the cause
    /// is passed on; a lost final answer is `Unconfirmed`, since the
    /// provider may have booked all the same.
    pub open spec fn after_failure(self, reply: Reply) -> Result<(), SignupError> {
        if self.stage == Stage::Outcome {
            Err(SignupError::Unconfirmed)
        } else {
            match reply {
                Reply::Status(status) => Err(SignupError::ServerStatus(status)),
                Reply::Failed(detail) => Err(SignupError::Connection(detail)),
                Reply::Body(_) => Ok(()),
            }
        }
    }

    /// The step after an answer. A body read from the page leads to the next
    /// post after a pause; a page that cannot be used, or a value that cannot
    /// be encoded, ends the replay, as does every failed request. The final
    /// answer ends it with what the page says.
    pub open spec fn next(self, person: Participant, reply: Reply) -> NextView {
        match reply {
            Reply::Body(page) => match self.stage {
                Stage::Form => match first_body_of(person, page@) {
                    Ok(body) => NextView::Proceed {
                        replay: Replay { course_id: self.course_id, stage: Stage::Confirmation },
                        pause_seconds: pause(),
                        request: Wire::Post {
                            url: endpoint(),
                            referer: form_address(self.course_id),
                            body,
                        },
                    },
                    Err(e) => NextView::Done(Err(e)),
                },
                Stage::Confirmation => match second_body_of(page@) {
                    Ok(body) => NextView::Proceed {
                        replay: Replay { course_id: self.course_id, stage: Stage::Outcome },
                        pause_seconds: pause(),
                        request: Wire::Post { url: endpoint(), referer: endpoint(), body },
                    },
                    Err(e) => NextView::Done(Err(e)),
                },
                Stage::Outcome => NextView::Done(classified(page@).as_result()),
            },
            _ => NextView::Done(self.after_failure(reply)),
        }
    }

    /// Decides what follows an answer.
    pub fn advance(self, person: &Participant, reply: Reply) -> (r: Next)
        ensures
            r@ == self.next(*person, reply),
    {
        match reply {
            Reply::Body(page) => match self.stage {
                Stage::Form => match first_body(person, page.as_str()) {
                    Ok(body) => Next::Proceed {
                        replay: Replay { course_id: self.course_id, stage: Stage::Confirmation },
                        pause_seconds: 3,
                        request: HttpRequest::Post {
                            url: signup_url().to_string(),
                            referer: form_url(self.course_id),
                            body,
                        },
                    },
                    Err(e) => Next::Done(Err(e)),
                },
                Stage::Confirmation => match second_body(page.as_str()) {
                    Ok(body) => Next::Proceed {
                        replay: Replay { course_id: self.course_id, stage: Stage::Outcome },
                        pause_seconds: 3,
                        request: HttpRequest::Post {
                            url: signup_url().to_string(),
                            referer: signup_url().to_string(),
                            body,
                        },
                    },
                    Err(e) => Next::Done(Err(e)),
                },
                Stage::Outcome => Next::Done(classify(page.as_str()).into_result()),
            },
            Reply::Status(status) => match self.stage {
                Stage::Outcome => Next::Done(Err(SignupError::Unconfirmed)),
                _ => Next::Done(Err(SignupError::ServerStatus(status))),
            },
            Reply::Failed(detail) => match self.stage {
                Stage::Outcome => Next::Done(Err(SignupError::Unconfirmed)),
                _ => Next::Done(Err(SignupError::Connection(detail))),
            },
        }
    }
}

/// Begins the registration of a person for a session: the request for the
/// form page, and the replay that waits for it. A person with a field that
/// is not Latin-1 text is turned away with `Encoding` before anything is
/// sent, and only such a person is.
pub fn perform(person: &Participant, course_id: i64) -> (r: Result<(Replay, HttpRequest), SignupError>)
    ensures
        match r {
            Ok((replay, request)) => {
                &&& encodable(person.payload())
                &&& replay == Replay { course_id, stage: Stage::Form }
                &&& request@ == Wire::Get { url: form_address(course_id) }
            },
            Err(e) => e == SignupError::Encoding && !encodable(person.payload()),
        },
{
    let own = person.as_payload();
    if can_encode(&own) {
        Ok((Replay { course_id, stage: Stage::Form }, HttpRequest::Get { url: form_url(course_id) }))
    } else {
        Err(SignupError::Encoding)
    }
}

/// Once the provider has answered the confirming request, the result is
/// what its page says, success or one of the three refusals, and never a
/// failure to connect.
pub proof fn lemma_answer_is_a_verdict(replay: Replay, person: Participant, page: String)
    requires
        replay.stage == Stage::Outcome,
    ensures
        replay.next(person, Reply::Body(page)) matches NextView::Done(result) && (match result {
            Ok(_) => classified(page@) == Outcome::Booked,
            Err(e) => e.is_verdict() && !e.is_connectivity(),
        }),
{
}

/// A value that is not Latin-1 text never leaves: a replay answers a page
/// whose fields cannot all be encoded with `Encoding`, not with a request.
pub proof fn lemma_unencodable_is_not_sent(replay: Replay, person: Participant, page: String)
    requires
        replay.stage != Stage::Outcome,
        form_of(page@) matches Ok(form) && !encodable(
            if replay.stage == Stage::Form {
                first_fields(person, form)
            } else {
                second_fields(form)
            },
        ),
    ensures
        replay.next(person, Reply::Body(page)) == NextView::Done(Err(SignupError::Encoding)),
{
}

} // verus!
