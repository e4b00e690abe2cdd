//! What the bot does on each update: for the person, the state of the
//! conversation and the input, the effects to carry out.
use crate::course::Course;
use crate::effect::{say, Effect};
use crate::error::SignupError;
use crate::gender::Gender;
use crate::keyboards::Keyboard;
use crate::participant::Participant;
use crate::schema::State;
use crate::signup::{Request, Signup, Status};
use crate::text::same;
use crate::text_messages::{InfoName, TextMessage};
use vstd::prelude::*;
use vstd::string::*;

verus! {

/// Why a prompt could not be made.
#[derive(Clone, Copy, Debug, PartialEq, Eq, Structural)]
pub enum DialogueError {
    /// No session of that identifier is stored.
    CourseNotFound(i64),
}

/// The question for the supplementary field of a person.
pub open spec fn info_question(person: Participant) -> TextMessage {
    if person.student() {
        TextMessage::AskStudentId
    } else if person.employed() {
        TextMessage::AskWorkPhone
    } else {
        TextMessage::NothingToAsk
    }
}

/// Moving a conversation to a new state: the prompt of that state, with the
/// keyboard that fits it, then the state itself. The supplementary field of
/// a person without a category is not asked for: the person is told to pick
/// a category first and the state stays. The prompt for a registration needs
/// the session.
pub open spec fn update_script(new_state: State, person: Participant, course: Option<Course>) -> Result<
    Seq<Effect>,
    DialogueError,
> {
    let to = person.id;
    let then = Effect::Expect { chat: to, state: new_state };
    match new_state {
        State::Default => Ok(seq![say(to, TextMessage::Nothing, Keyboard::Remove), then]),
        State::ReceiveGivenName(_) => Ok(
            seq![say(to, TextMessage::AskGivenName, Keyboard::Remove), then],
        ),
        State::ReceiveLastName(_) => Ok(
            seq![say(to, TextMessage::AskLastName, Keyboard::Remove), then],
        ),
        State::ReceiveGender(_) => Ok(seq![say(to, TextMessage::AskGender, Keyboard::Gender), then]),
        State::ReceiveStreet(_) => Ok(seq![say(to, TextMessage::AskStreet, Keyboard::Remove), then]),
        State::ReceiveCity(_) => Ok(seq![say(to, TextMessage::AskCity, Keyboard::Remove), then]),
        State::ReceivePhone(_) => Ok(seq![say(to, TextMessage::AskPhone, Keyboard::Remove), then]),
        State::ReceiveEmail(guided, _) => Ok(
            seq![
                say(to, TextMessage::AskEmail, Keyboard::NoAnswer),
                Effect::ExpectEmail { chat: to, guided },
            ],
        ),
        State::ReceiveStatus(_) => Ok(seq![say(to, TextMessage::AskStatus, Keyboard::Status), then]),
        State::ReceiveStatusInfo(_) => if person.status is Some {
            Ok(seq![say(to, info_question(person), Keyboard::Remove), then])
        } else {
            Ok(seq![say(to, TextMessage::StatusFirst, Keyboard::Remove)])
        },
        State::ReceiveSignupResponse(course_id) => match course {
            Some(course) => Ok(
                seq![say(to, TextMessage::SignupResponse(course), Keyboard::Signup), then],
            ),
            None => Err(DialogueError::CourseNotFound(course_id)),
        },
        State::ReceiveDeleteConfirmation => Ok(
            seq![say(to, TextMessage::AskDeleteConfirmation, Keyboard::Remove), then],
        ),
    }
}

/// The effects of a conversation's move to a state that is no question
/// about a session.
pub open spec fn ask_script(new_state: State, person: Participant) -> Seq<Effect> {
    match update_script(new_state, person, None) {
        Ok(effects) => effects,
        Err(_) => Seq::empty(),
    }
}

fn send(to: i64, text: TextMessage, keyboard: Keyboard) -> (r: Effect)
    ensures
        r == say(to, text, keyboard),
{
    Effect::Send { to, text, keyboard }
}

fn two(first: Effect, second: Effect) -> (r: Vec<Effect>)
    ensures
        r@ == seq![first, second],
{
    let r = vec![first, second];
    assert(r@ =~= seq![first, second]);
    r
}

fn one(first: Effect) -> (r: Vec<Effect>)
    ensures
        r@ == seq![first],
{
    let r = vec![first];
    assert(r@ =~= seq![first]);
    r
}

fn prompt(to: i64, text: TextMessage, keyboard: Keyboard, new_state: State) -> (r: Vec<Effect>)
    ensures
        r@ == seq![say(to, text, keyboard), Effect::Expect { chat: to, state: new_state }],
{
    two(send(to, text, keyboard), Effect::Expect { chat: to, state: new_state })
}

/// Moves a conversation to a new state. `course` is the stored session of
/// the identifier in `ReceiveSignupResponse`, if there is one; for other
/// states it is not looked at.
pub fn update(new_state: State, person: &Participant, course: Option<Course>) -> (r: Result<
    Vec<Effect>,
    DialogueError,
>)
    ensures
        match r {
            Ok(effects) => update_script(new_state, *person, course) == Ok::<
                Seq<Effect>,
                DialogueError,
            >(effects@),
            Err(e) => update_script(new_state, *person, course) == Err::<Seq<Effect>, DialogueError>(
                e,
            ),
        },
{
    let to = person.id;
    match new_state {
        State::Default => Ok(prompt(to, TextMessage::Nothing, Keyboard::Remove, new_state)),
        State::ReceiveGivenName(_) => Ok(
            prompt(to, TextMessage::AskGivenName, Keyboard::Remove, new_state),
        ),
        State::ReceiveLastName(_) => Ok(
            prompt(to, TextMessage::AskLastName, Keyboard::Remove, new_state),
        ),
        State::ReceiveGender(_) => Ok(prompt(to, TextMessage::AskGender, Keyboard::Gender, new_state)),
        State::ReceiveStreet(_) => Ok(prompt(to, TextMessage::AskStreet, Keyboard::Remove, new_state)),
        State::ReceiveCity(_) => Ok(prompt(to, TextMessage::AskCity, Keyboard::Remove, new_state)),
        State::ReceivePhone(_) => Ok(prompt(to, TextMessage::AskPhone, Keyboard::Remove, new_state)),
        State::ReceiveEmail(guided, _) => Ok(
            two(
                send(to, TextMessage::AskEmail, Keyboard::NoAnswer),
                Effect::ExpectEmail { chat: to, guided },
            ),
        ),
        State::ReceiveStatus(_) => Ok(prompt(to, TextMessage::AskStatus, Keyboard::Status, new_state)),
        State::ReceiveStatusInfo(_) => {
            if person.status.is_some() {
                let question = if person.is_student() {
                    TextMessage::AskStudentId
                } else if person.is_employed_at_cgn_uni_related_thing() {
                    TextMessage::AskWorkPhone
                } else {
                    TextMessage::NothingToAsk
                };
                Ok(prompt(to, question, Keyboard::Remove, new_state))
            } else {
                Ok(one(send(to, TextMessage::StatusFirst, Keyboard::Remove)))
            }
        },
        State::ReceiveSignupResponse(course_id) => match course {
            Some(course) => Ok(
                prompt(to, TextMessage::SignupResponse(course), Keyboard::Signup, new_state),
            ),
            None => Err(DialogueError::CourseNotFound(course_id)),
        },
        State::ReceiveDeleteConfirmation => Ok(
            prompt(to, TextMessage::AskDeleteConfirmation, Keyboard::Remove, new_state),
        ),
    }
}

fn ask(new_state: State, person: &Participant) -> (r: Vec<Effect>)
    ensures
        r@ == ask_script(new_state, *person),
{
    match update(new_state, person, None) {
        Ok(effects) => effects,
        Err(_) => Vec::new(),
    }
}

/// After a field was taken: on the guided tour the next question, else the
/// word that the field was changed, and nothing more expected.
pub open spec fn after_field(
    person: Participant,
    state: State,
    next: State,
    changed: TextMessage,
    keyboard: Keyboard,
) -> Seq<Effect> {
    if state.in_dialogue() {
        ask_script(next, person)
    } else {
        seq![say(person.id, changed, keyboard), Effect::Reset(person.id)]
    }
}

fn conclude(person: &Participant, state: State, next: State, changed: TextMessage, keyboard: Keyboard) -> (r:
    Vec<Effect>)
    ensures
        r@ == after_field(*person, state, next, changed, keyboard),
{
    if state.is_in_dialogue() {
        ask(next, person)
    } else {
        two(send(person.id, changed, keyboard), Effect::Reset(person.id))
    }
}

fn saved_then(person: &Participant, mut rest: Vec<Effect>) -> (r: Vec<Effect>)
    ensures
        r@ == seq![Effect::Save(*person)] + rest@,
{
    let mut out = one(Effect::Save(person.duplicate()));
    out.append(&mut rest);
    out
}

/// A profile field that is typed in as free text.
#[derive(Clone, Copy, Debug, PartialEq, Eq, Structural)]
pub enum TextField {
    GivenName,
    LastName,
    Street,
    City,
    Phone,
}

impl TextField {
    /// The state that follows the field on the guided tour.
    pub open spec fn next(self) -> State {
        match self {
            TextField::GivenName => State::ReceiveLastName(true),
            TextField::LastName => State::ReceiveGender(true),
            TextField::Street => State::ReceiveCity(true),
            TextField::City => State::ReceivePhone(true),
            TextField::Phone => State::ReceiveEmail(true, None),
        }
    }

    pub open spec fn changed(self) -> TextMessage {
        match self {
            TextField::GivenName => TextMessage::GivenNameChanged,
            TextField::LastName => TextMessage::LastNameChanged,
            TextField::Street => TextMessage::StreetChanged,
            TextField::City => TextMessage::CityChanged,
            TextField::Phone => TextMessage::PhoneChanged,
        }
    }

    pub open spec fn retry(self) -> TextMessage {
        match self {
            TextField::GivenName => TextMessage::RetryGivenName,
            TextField::LastName => TextMessage::RetryLastName,
            TextField::Street => TextMessage::RetryStreet,
            TextField::City => TextMessage::RetryCity,
            TextField::Phone => TextMessage::RetryPhone,
        }
    }

    /// The person with the field set to a text.
    pub open spec fn set(self, person: Participant, text: String) -> Participant {
        match self {
            TextField::GivenName => Participant { given_name: Some(text), ..person },
            TextField::LastName => Participant { last_name: Some(text), ..person },
            TextField::Street => Participant { street: Some(text), ..person },
            TextField::City => Participant { city: Some(text), ..person },
            TextField::Phone => Participant { phone: Some(text), ..person },
        }
    }
}

/// A message while a free-text field is expected. A text is stored as the
/// field, and the tour goes on or the edit ends; anything that is no text
/// is answered by asking again.
pub open spec fn text_script(field: TextField, person: Participant, state: State, text: Option<String>) -> Seq<
    Effect,
> {
    match text {
        Some(text) => seq![Effect::Save(field.set(person, text))] + after_field(
            field.set(person, text),
            state,
            field.next(),
            field.changed(),
            Keyboard::Keep,
        ),
        None => seq![say(person.id, field.retry(), Keyboard::Keep)],
    }
}

/// Handles a message while a free-text field is expected.
pub fn receive_text(field: TextField, person: Participant, state: State, text: Option<String>) -> (r:
    Vec<Effect>)
    ensures
        r@ == text_script(field, person, state, text),
{
    match text {
        Some(text) => {
            let mut person = person;
            let changed;
            let next;
            match field {
                TextField::GivenName => {
                    person.given_name = Some(text);
                    changed = TextMessage::GivenNameChanged;
                    next = State::ReceiveLastName(true);
                },
                TextField::LastName => {
                    person.last_name = Some(text);
                    changed = TextMessage::LastNameChanged;
                    next = State::ReceiveGender(true);
                },
                TextField::Street => {
                    person.street = Some(text);
                    changed = TextMessage::StreetChanged;
                    next = State::ReceiveCity(true);
                },
                TextField::City => {
                    person.city = Some(text);
                    changed = TextMessage::CityChanged;
                    next = State::ReceivePhone(true);
                },
                TextField::Phone => {
                    person.phone = Some(text);
                    changed = TextMessage::PhoneChanged;
                    next = State::ReceiveEmail(true, None);
                },
            }
            let rest = conclude(&person, state, next, changed, Keyboard::Keep);
            saved_then(&person, rest)
        },
        None => {
            let retry = match field {
                TextField::GivenName => TextMessage::RetryGivenName,
                TextField::LastName => TextMessage::RetryLastName,
                TextField::Street => TextMessage::RetryStreet,
                TextField::City => TextMessage::RetryCity,
                TextField::Phone => TextMessage::RetryPhone,
            };
            one(send(person.id, retry, Keyboard::Keep))
        },
    }
}

pub fn receive_given_name(person: Participant, state: State, text: Option<String>) -> (r: Vec<Effect>)
    ensures
        r@ == text_script(TextField::GivenName, person, state, text),
{
    receive_text(TextField::GivenName, person, state, text)
}

pub fn receive_last_name(person: Participant, state: State, text: Option<String>) -> (r: Vec<Effect>)
    ensures
        r@ == text_script(TextField::LastName, person, state, text),
{
    receive_text(TextField::LastName, person, state, text)
}

pub fn receive_street(person: Participant, state: State, text: Option<String>) -> (r: Vec<Effect>)
    ensures
        r@ == text_script(TextField::Street, person, state, text),
{
    receive_text(TextField::Street, person, state, text)
}

pub fn receive_city(person: Participant, state: State, text: Option<String>) -> (r: Vec<Effect>)
    ensures
        r@ == text_script(TextField::City, person, state, text),
{
    receive_text(TextField::City, person, state, text)
}

pub fn receive_phone(person: Participant, state: State, text: Option<String>) -> (r: Vec<Effect>)
    ensures
        r@ == text_script(TextField::Phone, person, state, text),
{
    receive_text(TextField::Phone, person, state, text)
}

/// The gender that a message picks, if it is a text that is the label of
/// one.
pub open spec fn picked_gender(text: Option<String>) -> Option<Gender> {
    match text {
        Some(text) => Gender::labelled(text@),
        None => None,
    }
}

/// A message while the gender is expected: the label of a gender is stored,
/// anything else is answered with the keyboard again.
pub open spec fn gender_script(person: Participant, state: State, text: Option<String>) -> Seq<Effect> {
    match picked_gender(text) {
        Some(gender) => {
            let chosen = Participant { gender: Some(gender), ..person };
            seq![Effect::Save(chosen)] + after_field(
                chosen,
                state,
                State::ReceiveStreet(true),
                TextMessage::GenderChanged,
                Keyboard::Remove,
            )
        },
        None => seq![say(person.id, TextMessage::RetryGender, Keyboard::Gender)],
    }
}

pub fn receive_gender(person: Participant, state: State, text: Option<String>) -> (r: Vec<Effect>)
    ensures
        r@ == gender_script(person, state, text),
{
    let picked = match &text {
        Some(text) => Gender::from_pretty(text.as_str()),
        None => None,
    };
    match picked {
        Some(gender) => {
            let mut person = person;
            person.gender = Some(gender);
            let rest = conclude(
                &person,
                state,
                State::ReceiveStreet(true),
                TextMessage::GenderChanged,
                Keyboard::Remove,
            );
            saved_then(&person, rest)
        },
        None => one(send(person.id, TextMessage::RetryGender, Keyboard::Gender)),
    }
}

/// Taking the skip button off the question for the mail address, where the
/// conversation remembers which message carries it.
pub open spec fn clear_button(chat: i64, state: State) -> Seq<Effect> {
    match state {
        State::ReceiveEmail(_, Some(message)) => seq![Effect::ClearMarkup { chat, message }],
        _ => Seq::empty(),
    }
}

fn clear(chat: i64, state: State) -> (r: Vec<Effect>)
    ensures
        r@ == clear_button(chat, state),
{
    match state {
        State::ReceiveEmail(_, Some(message)) => one(Effect::ClearMarkup { chat, message }),
        _ => Vec::new(),
    }
}

/// A message while the mail address is expected: a text is stored as the
/// address and the skip button is taken away.
pub open spec fn email_script(person: Participant, state: State, text: Option<String>) -> Seq<Effect> {
    match text {
        Some(text) => {
            let changed = Participant { email: Some(text), ..person };
            seq![Effect::Save(changed)] + clear_button(person.id, state) + after_field(
                changed,
                state,
                State::ReceiveStatus(true),
                TextMessage::EmailChanged,
                Keyboard::Keep,
            )
        },
        None => seq![say(person.id, TextMessage::RetryEmail, Keyboard::NoAnswer)],
    }
}

pub fn receive_email(person: Participant, state: State, text: Option<String>) -> (r: Vec<Effect>)
    ensures
        r@ == email_script(person, state, text),
{
    match text {
        Some(text) => {
            let mut person = person;
            person.email = Some(text);
            let mut out = one(Effect::Save(person.duplicate()));
            let mut button = clear(person.id, state);
            out.append(&mut button);
            let mut rest = conclude(
                &person,
                state,
                State::ReceiveStatus(true),
                TextMessage::EmailChanged,
                Keyboard::Keep,
            );
            out.append(&mut rest);
            out
        },
        None => one(send(person.id, TextMessage::RetryEmail, Keyboard::NoAnswer)),
    }
}

/// What follows the press of the skip button: on the guided tour the
/// question for the category, else nothing more is expected.
pub open spec fn after_skip(person: Participant, state: State) -> Seq<Effect> {
    if state.in_dialogue() {
        ask_script(State::ReceiveStatus(true), person)
    } else {
        seq![Effect::Reset(person.id)]
    }
}

/// The press of the skip button while the mail address is expected: a
/// stored address is deleted, and the person is told which of the two it
/// was.
pub open spec fn email_callback_script(person: Participant, state: State) -> Seq<Effect> {
    let head = seq![Effect::AnswerCallback] + clear_button(person.id, state);
    if person.email is Some {
        let cleared = Participant { email: None, ..person };
        head + seq![
            Effect::Save(cleared),
            say(person.id, TextMessage::EmailDeleted, Keyboard::Keep),
        ] + after_skip(cleared, state)
    } else {
        head + seq![say(person.id, TextMessage::EmailSkipped, Keyboard::Keep)] + after_skip(
            person,
            state,
        )
    }
}

pub fn receive_email_callback(person: Participant, state: State) -> (r: Vec<Effect>)
    ensures
        r@ == email_callback_script(person, state),
{
    let ghost given = person;
    let mut out = one(Effect::AnswerCallback);
    let mut button = clear(person.id, state);
    out.append(&mut button);
    let mut person = person;
    if person.email.is_some() {
        person.email = None;
        out.push(Effect::Save(person.duplicate()));
        out.push(send(person.id, TextMessage::EmailDeleted, Keyboard::Keep));
    } else {
        out.push(send(person.id, TextMessage::EmailSkipped, Keyboard::Keep));
    }
    let mut rest = if state.is_in_dialogue() {
        ask(State::ReceiveStatus(true), &person)
    } else {
        one(Effect::Reset(person.id))
    };
    out.append(&mut rest);
    assert(out@ =~= email_callback_script(given, state));
    out
}

/// The category that a message picks, if it is a text that is the label of
/// one.
pub open spec fn picked_status(text: Option<String>) -> Option<crate::status::Status> {
    match text {
        Some(text) => crate::status::Status::labelled(text@),
        None => None,
    }
}

/// A message while the category is expected: the label of a category is
/// stored, and the supplementary field is asked for next, on the tour and
/// after an edit alike; anything else is answered with the keyboard again.
pub open spec fn status_script(person: Participant, state: State, text: Option<String>) -> Seq<Effect> {
    match picked_status(text) {
        Some(status) => {
            let chosen = Participant { status: Some(status), ..person };
            if state.in_dialogue() {
                seq![Effect::Save(chosen)] + ask_script(State::ReceiveStatusInfo(true), chosen)
            } else {
                seq![
                    Effect::Save(chosen),
                    say(person.id, TextMessage::StatusChanged, Keyboard::Remove),
                ] + ask_script(State::ReceiveStatusInfo(false), chosen)
            }
        },
        None => seq![say(person.id, TextMessage::RetryStatus, Keyboard::Status)],
    }
}

pub fn receive_status(person: Participant, state: State, text: Option<String>) -> (r: Vec<Effect>)
    ensures
        r@ == status_script(person, state, text),
{
    let ghost given = person;
    let picked = match &text {
        Some(text) => crate::status::Status::from_pretty(text.as_str()),
        None => None,
    };
    match picked {
        Some(status) => {
            let mut person = person;
            person.status = Some(status);
            let mut out = one(Effect::Save(person.duplicate()));
            if state.is_in_dialogue() {
                let mut rest = ask(State::ReceiveStatusInfo(true), &person);
                out.append(&mut rest);
            } else {
                out.push(send(person.id, TextMessage::StatusChanged, Keyboard::Remove));
                let mut rest = ask(State::ReceiveStatusInfo(false), &person);
                out.append(&mut rest);
            }
            assert(out@ =~= status_script(given, state, text));
            out
        },
        None => one(send(person.id, TextMessage::RetryStatus, Keyboard::Status)),
    }
}

/// A message while the supplementary field is expected: a text is stored,
/// which ends the tour or the edit; anything else is answered by asking
/// again.
pub open spec fn status_info_script(person: Participant, state: State, text: Option<String>) -> Seq<
    Effect,
> {
    match text {
        Some(text) => seq![
            Effect::Save(Participant { status_info: Some(text), ..person }),
            say(
                person.id,
                if state.in_dialogue() {
                    TextMessage::EnterDataComplete
                } else {
                    TextMessage::InfoChanged(InfoName::of(person))
                },
                Keyboard::Keep,
            ),
            Effect::Reset(person.id),
        ],
        None => seq![say(person.id, TextMessage::RetryInfo(InfoName::of(person)), Keyboard::Keep)],
    }
}

pub fn receive_status_info(person: Participant, state: State, text: Option<String>) -> (r: Vec<Effect>)
    ensures
        r@ == status_info_script(person, state, text),
{
    let name = InfoName::for_participant(&person);
    match text {
        Some(text) => {
            let mut person = person;
            person.status_info = Some(text);
            let word = if state.is_in_dialogue() {
                TextMessage::EnterDataComplete
            } else {
                TextMessage::InfoChanged(name)
            };
            let r = vec![
                Effect::Save(person.duplicate()),
                send(person.id, word, Keyboard::Keep),
                Effect::Reset(person.id),
            ];
            assert(r@ =~= seq![
                Effect::Save(person),
                say(person.id, word, Keyboard::Keep),
                Effect::Reset(person.id),
            ]);
            r
        },
        None => one(send(person.id, TextMessage::RetryInfo(name), Keyboard::Keep)),
    }
}

/// The answer that a message gives to the question whether to register,
/// with the session that the question was about.
pub open spec fn picked_answer(state: State, text: Option<String>) -> Option<(Request, i64)> {
    match (text, state) {
        (Some(text), State::ReceiveSignupResponse(course_id)) => match Request::labelled(text@) {
            Some(request) => Some((request, course_id)),
            None => None,
        },
        _ => None,
    }
}

/// A message while yes or no is expected. Yes has the person registered at
/// the provider, after which `signup_result_script` says how to go on; no is
/// recorded, and nothing more is expected. Anything else is not understood,
/// and yes or no stays expected.
pub open spec fn signup_response_script(person: Participant, state: State, text: Option<String>) -> Seq<
    Effect,
> {
    match picked_answer(state, text) {
        Some((Request::Accept, course_id)) => seq![
            say(person.id, TextMessage::OneMoment, Keyboard::Remove),
            Effect::Replay { participant: person.id, course: course_id },
        ],
        Some((Request::Reject, course_id)) => seq![
            say(person.id, TextMessage::MaybeNextTime, Keyboard::Remove),
            Effect::Record(
                Signup { participant_id: person.id, course_id, status: Status::Rejected },
            ),
            Effect::Reset(person.id),
        ],
        None => seq![say(person.id, TextMessage::NotUnderstood, Keyboard::Keep)],
    }
}

pub fn receive_signup_response(person: &Participant, state: State, text: Option<String>) -> (r: Vec<
    Effect,
>)
    ensures
        r@ == signup_response_script(*person, state, text),
{
    let to = person.id;
    let picked = match (&text, state) {
        (Some(text), State::ReceiveSignupResponse(course_id)) => match Request::from_pretty(
            text.as_str(),
        ) {
            Some(request) => Some((request, course_id)),
            None => None,
        },
        _ => None,
    };
    match picked {
        Some((Request::Accept, course_id)) => two(
            send(to, TextMessage::OneMoment, Keyboard::Remove),
            Effect::Replay { participant: to, course: course_id },
        ),
        Some((Request::Reject, course_id)) => {
            let r = vec![
                send(to, TextMessage::MaybeNextTime, Keyboard::Remove),
                Effect::Record(Signup { participant_id: to, course_id, status: Status::Rejected }),
                Effect::Reset(to),
            ];
            assert(r@ =~= signup_response_script(*person, state, text));
            r
        },
        None => one(send(to, TextMessage::NotUnderstood, Keyboard::Keep)),
    }
}

/// After the provider was asked on a person's yes: a success is recorded
/// and told; a failure is told with its reason and the record stays as it
/// is, so that the person can ask again. Either way nothing more is
/// expected.
pub open spec fn signup_result_script(person_id: i64, course_id: i64, result: Result<(), SignupError>) -> Seq<
    Effect,
> {
    match result {
        Ok(_) => seq![
            Effect::Record(
                Signup { participant_id: person_id, course_id, status: Status::SignedUp },
            ),
            say(person_id, TextMessage::SignedUp, Keyboard::Keep),
            Effect::Reset(person_id),
        ],
        Err(e) => seq![
            say(person_id, TextMessage::SignupFailed(e), Keyboard::Keep),
            Effect::Reset(person_id),
        ],
    }
}

pub fn receive_signup_result(person_id: i64, course_id: i64, result: Result<(), SignupError>) -> (r: Vec<
    Effect,
>)
    ensures
        r@ == signup_result_script(person_id, course_id, result),
{
    match result {
        Ok(_) => {
            let r = vec![
                Effect::Record(
                    Signup { participant_id: person_id, course_id, status: Status::SignedUp },
                ),
                send(person_id, TextMessage::SignedUp, Keyboard::Keep),
                Effect::Reset(person_id),
            ];
            assert(r@ =~= signup_result_script(person_id, course_id, result));
            r
        },
        Err(e) => two(
            send(person_id, TextMessage::SignupFailed(e), Keyboard::Keep),
            Effect::Reset(person_id),
        ),
    }
}

/// The word that confirms a deletion.
pub open spec fn yes_word() -> Seq<char> {
    "JA"@
}

/// A message while the confirmation of a deletion is expected: the word
/// `JA` deletes the person, any other text does not, and either way nothing
/// more is expected; anything that is no text is not understood.
pub open spec fn delete_confirmation_script(person_id: i64, text: Option<String>) -> Seq<Effect> {
    match text {
        Some(text) => if text@ == yes_word() {
            seq![
                Effect::Delete(person_id),
                say(person_id, TextMessage::Deleted, Keyboard::Keep),
                Effect::Reset(person_id),
            ]
        } else {
            seq![say(person_id, TextMessage::NotDeleted, Keyboard::Keep), Effect::Reset(person_id)]
        },
        None => seq![say(person_id, TextMessage::NotUnderstood, Keyboard::Keep)],
    }
}

pub fn receive_delete_confirmation(person_id: i64, text: Option<String>) -> (r: Vec<Effect>)
    ensures
        r@ == delete_confirmation_script(person_id, text),
{
    match &text {
        Some(word) => {
            if same(word.as_str(), "JA") {
                let r = vec![
                    Effect::Delete(person_id),
                    send(person_id, TextMessage::Deleted, Keyboard::Keep),
                    Effect::Reset(person_id),
                ];
                assert(r@ =~= delete_confirmation_script(person_id, text));
                r
            } else {
                two(send(person_id, TextMessage::NotDeleted, Keyboard::Keep), Effect::Reset(person_id))
            }
        },
        None => one(send(person_id, TextMessage::NotUnderstood, Keyboard::Keep)),
    }
}

/// A message when nothing is expected.
pub fn invalid(chat: i64) -> (r: Vec<Effect>)
    ensures
        r@ == seq![say(chat, TextMessage::Unprocessable, Keyboard::Keep)],
{
    one(send(chat, TextMessage::Unprocessable, Keyboard::Keep))
}

/// A button press when none is expected.
pub fn invalid_callback_query(chat: i64) -> (r: Vec<Effect>)
    ensures
        r@ == seq![Effect::AnswerCallback, say(chat, TextMessage::NotUnderstood, Keyboard::Keep)],
{
    two(Effect::AnswerCallback, send(chat, TextMessage::NotUnderstood, Keyboard::Keep))
}

/// A message that ends whatever was going on.
pub open spec fn closing_script(chat: i64, text: TextMessage) -> Seq<Effect> {
    seq![say(chat, text, Keyboard::Remove), Effect::Reset(chat)]
}

pub fn help(chat: i64) -> (r: Vec<Effect>)
    ensures
        r@ == closing_script(chat, TextMessage::Help),
{
    two(send(chat, TextMessage::Help, Keyboard::Remove), Effect::Reset(chat))
}

pub fn start(chat: i64) -> (r: Vec<Effect>)
    ensures
        r@ == closing_script(chat, TextMessage::Start),
{
    two(send(chat, TextMessage::Start, Keyboard::Remove), Effect::Reset(chat))
}

pub fn cancel(chat: i64) -> (r: Vec<Effect>)
    ensures
        r@ == closing_script(chat, TextMessage::Cancel),
{
    two(send(chat, TextMessage::Cancel, Keyboard::Remove), Effect::Reset(chat))
}

pub fn show_data(person: Participant) -> (r: Vec<Effect>)
    ensures
        r@ == closing_script(person.id, TextMessage::ShowData(person)),
{
    let to = person.id;
    two(send(to, TextMessage::ShowData(person), Keyboard::Remove), Effect::Reset(to))
}

/// The command that starts the guided tour: a person who is not stored yet
/// is stored with nothing but their identity, then the first question is
/// asked.
pub open spec fn enter_data_script(chat: i64, known: Option<Participant>) -> Seq<Effect> {
    match known {
        Some(person) => ask_script(State::ReceiveGivenName(true), person),
        None => seq![Effect::Create(Participant::blank(chat))] + ask_script(
            State::ReceiveGivenName(true),
            Participant::blank(chat),
        ),
    }
}

pub fn enter_data(chat: i64, known: Option<Participant>) -> (r: Vec<Effect>)
    ensures
        r@ == enter_data_script(chat, known),
{
    match known {
        Some(person) => ask(State::ReceiveGivenName(true), &person),
        None => {
            let person = Participant::new(chat);
            let mut out = one(Effect::Create(person.duplicate()));
            let mut rest = ask(State::ReceiveGivenName(true), &person);
            out.append(&mut rest);
            out
        },
    }
}

/// The command that asks to be registered for today's session. Without a
/// session today the person is told so. A person who is registered already
/// is told so, and what is expected stays. Anyone else is asked yes or no;
/// where no record exists yet, one is written first, so that the question
/// never stands without a record.
pub open spec fn signup_script(person: Participant, today: Option<Course>, record: Option<Signup>) -> Seq<
    Effect,
> {
    match today {
        None => closing_script(person.id, TextMessage::NoCourseToday),
        Some(course) => {
            let question = seq![
                say(person.id, TextMessage::SignupResponse(course), Keyboard::Signup),
                Effect::Expect { chat: person.id, state: State::ReceiveSignupResponse(course.id) },
            ];
            match record {
                Some(signup) => if signup.status == Status::SignedUp {
                    seq![say(person.id, TextMessage::AlreadySignedUp, Keyboard::Keep)]
                } else {
                    question
                },
                None => seq![
                    Effect::Record(
                        Signup {
                            participant_id: person.id,
                            course_id: course.id,
                            status: Status::Notified,
                        },
                    ),
                ] + question,
            }
        },
    }
}

/// Handles the command; `record` is the person's record for today's
/// session, if there is one.
pub fn signup(person: &Participant, today: Option<Course>, record: Option<Signup>) -> (r: Vec<Effect>)
    ensures
        r@ == signup_script(*person, today, record),
{
    let to = person.id;
    match today {
        None => two(send(to, TextMessage::NoCourseToday, Keyboard::Remove), Effect::Reset(to)),
        Some(course) => {
            let course_id = course.id;
            match record {
                Some(signup) => match signup.status {
                    Status::SignedUp => one(send(to, TextMessage::AlreadySignedUp, Keyboard::Keep)),
                    _ => prompt(
                        to,
                        TextMessage::SignupResponse(course),
                        Keyboard::Signup,
                        State::ReceiveSignupResponse(course_id),
                    ),
                },
                None => {
                    let mut out = one(
                        Effect::Record(
                            Signup {
                                participant_id: to,
                                course_id,
                                status: Status::Notified,
                            },
                        ),
                    );
                    let mut question = prompt(
                        to,
                        TextMessage::SignupResponse(course),
                        Keyboard::Signup,
                        State::ReceiveSignupResponse(course_id),
                    );
                    out.append(&mut question);
                    out
                },
            }
        },
    }
}

pub fn delete(person: &Participant) -> (r: Vec<Effect>)
    ensures
        r@ == ask_script(State::ReceiveDeleteConfirmation, *person),
{
    ask(State::ReceiveDeleteConfirmation, person)
}

pub fn edit_given_name(person: &Participant) -> (r: Vec<Effect>)
    ensures
        r@ == ask_script(State::ReceiveGivenName(false), *person),
{
    ask(State::ReceiveGivenName(false), person)
}

pub fn edit_last_name(person: &Participant) -> (r: Vec<Effect>)
    ensures
        r@ == ask_script(State::ReceiveLastName(false), *person),
{
    ask(State::ReceiveLastName(false), person)
}

pub fn edit_gender(person: &Participant) -> (r: Vec<Effect>)
    ensures
        r@ == ask_script(State::ReceiveGender(false), *person),
{
    ask(State::ReceiveGender(false), person)
}

pub fn edit_street(person: &Participant) -> (r: Vec<Effect>)
    ensures
        r@ == ask_script(State::ReceiveStreet(false), *person),
{
    ask(State::ReceiveStreet(false), person)
}

pub fn edit_city(person: &Participant) -> (r: Vec<Effect>)
    ensures
        r@ == ask_script(State::ReceiveCity(false), *person),
{
    ask(State::ReceiveCity(false), person)
}

pub fn edit_phone(person: &Participant) -> (r: Vec<Effect>)
    ensures
        r@ == ask_script(State::ReceivePhone(false), *person),
{
    ask(State::ReceivePhone(false), person)
}

pub fn edit_email(person: &Participant) -> (r: Vec<Effect>)
    ensures
        r@ == ask_script(State::ReceiveEmail(false, None), *person),
{
    ask(State::ReceiveEmail(false, None), person)
}

pub fn edit_status(person: &Participant) -> (r: Vec<Effect>)
    ensures
        r@ == ask_script(State::ReceiveStatus(false), *person),
{
    ask(State::ReceiveStatus(false), person)
}

pub fn edit_status_info(person: &Participant) -> (r: Vec<Effect>)
    ensures
        r@ == ask_script(State::ReceiveStatusInfo(false), *person),
{
    ask(State::ReceiveStatusInfo(false), person)
}

} // verus!
