use unisport_bot::course::Course;
use unisport_bot::effect::Effect;
use unisport_bot::error::SignupError;
use unisport_bot::gender::Gender;
use unisport_bot::handlers::{
    cancel, delete, edit_city, edit_email, edit_gender, edit_given_name, edit_last_name,
    edit_phone, edit_status, edit_status_info, edit_street, enter_data, help, invalid,
    invalid_callback_query, receive_city, receive_delete_confirmation, receive_email,
    receive_email_callback, receive_gender, receive_given_name, receive_last_name,
    receive_phone, receive_signup_response, receive_signup_result, receive_status,
    receive_status_info, receive_street, show_data, signup, start, update, DialogueError,
};
use unisport_bot::keyboards::Keyboard;
use unisport_bot::participant::Participant;
use unisport_bot::schema::{schema, Command, Handler, Incoming, State};
use unisport_bot::signup::{Signup, Status as SignupStatus};
use unisport_bot::status::Status;
use unisport_bot::text_messages::{help as help_text, InfoName, TextMessage};

fn text(s: &str) -> Option<String> {
    Some(s.to_string())
}

fn say(to: i64, text: TextMessage, keyboard: Keyboard) -> Effect {
    Effect::Send { to, text, keyboard }
}

fn expect(chat: i64, state: State) -> Effect {
    Effect::Expect { chat, state }
}

fn course() -> Course {
    Course {
        id: 42,
        start_time: 1729785600,
        end_time: 1729791000,
        level: "Anfänger".to_string(),
        location: "Jahnwiese".to_string(),
        trainer: "Kim".to_string(),
    }
}

#[test]
fn commands_go_to_their_handler_whatever_is_expected() {
    let states = [
        State::Default,
        State::ReceiveGender(true),
        State::ReceiveEmail(false, Some(5)),
        State::ReceiveSignupResponse(42),
        State::ReceiveDeleteConfirmation,
    ];
    for command in Command::all() {
        for state in states {
            assert_eq!(schema(Incoming::Command(command), state), Handler::Command(command));
        }
    }
}

#[test]
fn messages_go_by_what_is_expected() {
    let cases = [
        (State::Default, Handler::Invalid),
        (State::ReceiveGivenName(true), Handler::ReceiveGivenName),
        (State::ReceiveLastName(false), Handler::ReceiveLastName),
        (State::ReceiveGender(true), Handler::ReceiveGender),
        (State::ReceiveStreet(false), Handler::ReceiveStreet),
        (State::ReceiveCity(true), Handler::ReceiveCity),
        (State::ReceivePhone(false), Handler::ReceivePhone),
        (State::ReceiveEmail(true, None), Handler::ReceiveEmail),
        (State::ReceiveStatus(false), Handler::ReceiveStatus),
        (State::ReceiveStatusInfo(true), Handler::ReceiveStatusInfo),
        (State::ReceiveSignupResponse(1), Handler::ReceiveSignupResponse),
        (State::ReceiveDeleteConfirmation, Handler::ReceiveDeleteConfirmation),
    ];
    for (state, handler) in cases {
        assert_eq!(schema(Incoming::Message, state), handler);
    }
}

#[test]
fn button_presses_count_only_while_the_mail_address_is_expected() {
    assert_eq!(
        schema(Incoming::CallbackQuery, State::ReceiveEmail(true, Some(1))),
        Handler::ReceiveEmailCallback
    );
    assert_eq!(
        schema(Incoming::CallbackQuery, State::ReceiveEmail(false, None)),
        Handler::ReceiveEmailCallback
    );
    for state in [State::Default, State::ReceiveStatus(true), State::ReceiveSignupResponse(3)] {
        assert_eq!(schema(Incoming::CallbackQuery, state), Handler::InvalidCallbackQuery);
    }
}

#[test]
fn guided_tour_flag() {
    assert!(State::ReceiveGivenName(true).is_in_dialogue());
    assert!(!State::ReceiveGivenName(false).is_in_dialogue());
    assert!(State::ReceiveEmail(true, None).is_in_dialogue());
    assert!(!State::ReceiveEmail(false, Some(3)).is_in_dialogue());
    assert!(State::ReceiveStatusInfo(true).is_in_dialogue());
    assert!(!State::Default.is_in_dialogue());
    assert!(!State::ReceiveSignupResponse(1).is_in_dialogue());
    assert!(!State::ReceiveDeleteConfirmation.is_in_dialogue());
    assert!(State::Default.is_idle());
    assert!(!State::ReceiveSignupResponse(1).is_idle());
    assert!(!State::ReceivePhone(false).is_idle());
}

#[test]
fn command_names_and_menu() {
    let names: Vec<&str> = Command::all().iter().map(|c| c.name()).collect();
    assert_eq!(
        names,
        vec![
            "show_data", "signup", "enter_data", "delete", "cancel", "help", "edit_given_name",
            "edit_last_name", "edit_gender", "edit_street", "edit_city", "edit_phone",
            "edit_email", "edit_status", "edit_status_info", "start",
        ]
    );
    assert_eq!(Command::menu_size(), 6);
    assert_eq!(Command::Delete.description(), "Daten löschen");
}

#[test]
fn help_lists_every_command() {
    let text = help_text();
    let lines: Vec<&str> = text.split('\n').collect();
    assert_eq!(lines.len(), 18);
    assert_eq!(lines[0], "Diese Befehle sind verfügbar:");
    assert_eq!(lines[1], "");
    assert_eq!(lines[2], "/show_data — Daten anzeigen/bearbeiten");
    assert_eq!(lines[3], "/signup — Anmeldung starten");
    assert_eq!(lines[16], "/edit_status_info — Matrikelnummer oder dienstliche Telefonnummer ändern");
    assert_eq!(lines[17], "/start — Starttext anzeigen");
    assert_eq!(TextMessage::Help.render(), Some(text));
}

#[test]
fn update_prompts_with_the_fitting_keyboard() {
    let p = Participant::new(7);
    let cases = [
        (State::Default, TextMessage::Nothing, Keyboard::Remove),
        (State::ReceiveGivenName(true), TextMessage::AskGivenName, Keyboard::Remove),
        (State::ReceiveLastName(false), TextMessage::AskLastName, Keyboard::Remove),
        (State::ReceiveGender(true), TextMessage::AskGender, Keyboard::Gender),
        (State::ReceiveStreet(true), TextMessage::AskStreet, Keyboard::Remove),
        (State::ReceiveCity(true), TextMessage::AskCity, Keyboard::Remove),
        (State::ReceivePhone(true), TextMessage::AskPhone, Keyboard::Remove),
        (State::ReceiveStatus(true), TextMessage::AskStatus, Keyboard::Status),
        (State::ReceiveDeleteConfirmation, TextMessage::AskDeleteConfirmation, Keyboard::Remove),
    ];
    for (state, message, keyboard) in cases {
        assert_eq!(update(state, &p, None), Ok(vec![say(7, message, keyboard), expect(7, state)]));
    }
}

#[test]
fn update_to_the_mail_address_remembers_the_question() {
    let p = Participant::new(7);
    assert_eq!(
        update(State::ReceiveEmail(true, None), &p, None),
        Ok(vec![
            say(7, TextMessage::AskEmail, Keyboard::NoAnswer),
            Effect::ExpectEmail { chat: 7, guided: true },
        ])
    );
    assert_eq!(
        update(State::ReceiveEmail(false, Some(9)), &p, None),
        Ok(vec![
            say(7, TextMessage::AskEmail, Keyboard::NoAnswer),
            Effect::ExpectEmail { chat: 7, guided: false },
        ])
    );
}

#[test]
fn update_to_the_supplementary_field_goes_by_category() {
    let mut p = Participant::new(7);
    let state = State::ReceiveStatusInfo(false);
    assert_eq!(
        update(state, &p, None),
        Ok(vec![say(7, TextMessage::StatusFirst, Keyboard::Remove)])
    );
    p.status = Some(Status::StudentDSHSKoeln);
    assert_eq!(
        update(state, &p, None),
        Ok(vec![say(7, TextMessage::AskStudentId, Keyboard::Remove), expect(7, state)])
    );
    p.status = Some(Status::BeschaeftigteUniKlinikKoeln);
    assert_eq!(
        update(state, &p, None),
        Ok(vec![say(7, TextMessage::AskWorkPhone, Keyboard::Remove), expect(7, state)])
    );
    p.status = Some(Status::Gast);
    assert_eq!(
        update(state, &p, None),
        Ok(vec![say(7, TextMessage::NothingToAsk, Keyboard::Remove), expect(7, state)])
    );
}

#[test]
fn update_to_a_question_about_a_session_needs_the_session() {
    let p = Participant::new(7);
    let state = State::ReceiveSignupResponse(42);
    assert_eq!(update(state, &p, None), Err(DialogueError::CourseNotFound(42)));
    assert_eq!(
        update(state, &p, Some(course())),
        Ok(vec![say(7, TextMessage::SignupResponse(course()), Keyboard::Signup), expect(7, state)])
    );
}

#[test]
fn text_fields_on_the_guided_tour_lead_to_the_next_question() {
    let mut after = Participant::new(7);
    after.given_name = Some("Jörg".to_string());
    assert_eq!(
        receive_given_name(Participant::new(7), State::ReceiveGivenName(true), text("Jörg")),
        vec![
            Effect::Save(after.duplicate()),
            say(7, TextMessage::AskLastName, Keyboard::Remove),
            expect(7, State::ReceiveLastName(true)),
        ]
    );
    let mut after = Participant::new(7);
    after.last_name = Some("M".to_string());
    assert_eq!(
        receive_last_name(Participant::new(7), State::ReceiveLastName(true), text("M")),
        vec![
            Effect::Save(after.duplicate()),
            say(7, TextMessage::AskGender, Keyboard::Gender),
            expect(7, State::ReceiveGender(true)),
        ]
    );
    let mut after = Participant::new(7);
    after.street = Some("S 1".to_string());
    assert_eq!(
        receive_street(Participant::new(7), State::ReceiveStreet(true), text("S 1")),
        vec![
            Effect::Save(after.duplicate()),
            say(7, TextMessage::AskCity, Keyboard::Remove),
            expect(7, State::ReceiveCity(true)),
        ]
    );
    let mut after = Participant::new(7);
    after.city = Some("K".to_string());
    assert_eq!(
        receive_city(Participant::new(7), State::ReceiveCity(true), text("K")),
        vec![
            Effect::Save(after.duplicate()),
            say(7, TextMessage::AskPhone, Keyboard::Remove),
            expect(7, State::ReceivePhone(true)),
        ]
    );
    let mut after = Participant::new(7);
    after.phone = Some("1".to_string());
    assert_eq!(
        receive_phone(Participant::new(7), State::ReceivePhone(true), text("1")),
        vec![
            Effect::Save(after.duplicate()),
            say(7, TextMessage::AskEmail, Keyboard::NoAnswer),
            Effect::ExpectEmail { chat: 7, guided: true },
        ]
    );
}

#[test]
fn text_fields_edited_alone_end_with_a_confirmation() {
    let mut after = Participant::new(7);
    after.given_name = Some("x".to_string());
    assert_eq!(
        receive_given_name(Participant::new(7), State::ReceiveGivenName(false), text("x")),
        vec![
            Effect::Save(after.duplicate()),
            say(7, TextMessage::GivenNameChanged, Keyboard::Keep),
            Effect::Reset(7),
        ]
    );
    let mut after = Participant::new(7);
    after.phone = Some("x".to_string());
    assert_eq!(
        receive_phone(Participant::new(7), State::ReceivePhone(false), text("x")),
        vec![
            Effect::Save(after.duplicate()),
            say(7, TextMessage::PhoneChanged, Keyboard::Keep),
            Effect::Reset(7),
        ]
    );
}

#[test]
fn anything_but_text_is_asked_for_again() {
    let p = || Participant::new(7);
    let s = State::ReceiveGivenName(true);
    assert_eq!(receive_given_name(p(), s, None), vec![say(7, TextMessage::RetryGivenName, Keyboard::Keep)]);
    assert_eq!(receive_last_name(p(), s, None), vec![say(7, TextMessage::RetryLastName, Keyboard::Keep)]);
    assert_eq!(receive_street(p(), s, None), vec![say(7, TextMessage::RetryStreet, Keyboard::Keep)]);
    assert_eq!(receive_city(p(), s, None), vec![say(7, TextMessage::RetryCity, Keyboard::Keep)]);
    assert_eq!(receive_phone(p(), s, None), vec![say(7, TextMessage::RetryPhone, Keyboard::Keep)]);
    assert_eq!(receive_email(p(), s, None), vec![say(7, TextMessage::RetryEmail, Keyboard::NoAnswer)]);
    assert_eq!(receive_gender(p(), s, None), vec![say(7, TextMessage::RetryGender, Keyboard::Gender)]);
    assert_eq!(receive_status(p(), s, None), vec![say(7, TextMessage::RetryStatus, Keyboard::Status)]);
    assert_eq!(
        receive_status_info(p(), s, None),
        vec![say(7, TextMessage::RetryInfo(InfoName::Nameless), Keyboard::Keep)]
    );
}

#[test]
fn gender_is_picked_by_label() {
    let mut after = Participant::new(7);
    after.gender = Some(Gender::Female);
    assert_eq!(
        receive_gender(Participant::new(7), State::ReceiveGender(true), text("Weiblich")),
        vec![
            Effect::Save(after.duplicate()),
            say(7, TextMessage::AskStreet, Keyboard::Remove),
            expect(7, State::ReceiveStreet(true)),
        ]
    );
    assert_eq!(
        receive_gender(Participant::new(7), State::ReceiveGender(false), text("Weiblich")),
        vec![
            Effect::Save(after.duplicate()),
            say(7, TextMessage::GenderChanged, Keyboard::Remove),
            Effect::Reset(7),
        ]
    );
    assert_eq!(
        receive_gender(Participant::new(7), State::ReceiveGender(false), text("W")),
        vec![say(7, TextMessage::RetryGender, Keyboard::Gender)]
    );
}

#[test]
fn mail_address_takes_the_skip_button_away() {
    let mut after = Participant::new(7);
    after.email = Some("a@b.c".to_string());
    assert_eq!(
        receive_email(Participant::new(7), State::ReceiveEmail(true, Some(31)), text("a@b.c")),
        vec![
            Effect::Save(after.duplicate()),
            Effect::ClearMarkup { chat: 7, message: 31 },
            say(7, TextMessage::AskStatus, Keyboard::Status),
            expect(7, State::ReceiveStatus(true)),
        ]
    );
    assert_eq!(
        receive_email(Participant::new(7), State::ReceiveEmail(false, Some(31)), text("a@b.c")),
        vec![
            Effect::Save(after.duplicate()),
            Effect::ClearMarkup { chat: 7, message: 31 },
            say(7, TextMessage::EmailChanged, Keyboard::Keep),
            Effect::Reset(7),
        ]
    );
    assert_eq!(
        receive_email(Participant::new(7), State::ReceiveEmail(false, None), text("a@b.c")),
        vec![
            Effect::Save(after.duplicate()),
            say(7, TextMessage::EmailChanged, Keyboard::Keep),
            Effect::Reset(7),
        ]
    );
}

#[test]
fn skip_button_deletes_a_stored_address() {
    let mut with = Participant::new(7);
    with.email = Some("a@b.c".to_string());
    assert_eq!(
        receive_email_callback(with.duplicate(), State::ReceiveEmail(false, Some(3))),
        vec![
            Effect::AnswerCallback,
            Effect::ClearMarkup { chat: 7, message: 3 },
            Effect::Save(Participant::new(7)),
            say(7, TextMessage::EmailDeleted, Keyboard::Keep),
            Effect::Reset(7),
        ]
    );
    assert_eq!(
        receive_email_callback(Participant::new(7), State::ReceiveEmail(true, Some(3))),
        vec![
            Effect::AnswerCallback,
            Effect::ClearMarkup { chat: 7, message: 3 },
            say(7, TextMessage::EmailSkipped, Keyboard::Keep),
            say(7, TextMessage::AskStatus, Keyboard::Status),
            expect(7, State::ReceiveStatus(true)),
        ]
    );
}

#[test]
fn category_is_followed_by_the_supplementary_field() {
    let mut after = Participant::new(7);
    after.status = Some(Status::StudentUniKoeln);
    assert_eq!(
        receive_status(Participant::new(7), State::ReceiveStatus(true), text("Stud. Uni Köln")),
        vec![
            Effect::Save(after.duplicate()),
            say(7, TextMessage::AskStudentId, Keyboard::Remove),
            expect(7, State::ReceiveStatusInfo(true)),
        ]
    );
    assert_eq!(
        receive_status(Participant::new(7), State::ReceiveStatus(false), text("Stud. Uni Köln")),
        vec![
            Effect::Save(after.duplicate()),
            say(7, TextMessage::StatusChanged, Keyboard::Remove),
            say(7, TextMessage::AskStudentId, Keyboard::Remove),
            expect(7, State::ReceiveStatusInfo(false)),
        ]
    );
}

#[test]
fn supplementary_field_ends_the_tour() {
    let mut before = Participant::new(7);
    before.status = Some(Status::BeschaeftigteUniKlinikKoeln);
    let mut after = before.duplicate();
    after.status_info = Some("478".to_string());
    assert_eq!(
        receive_status_info(before.duplicate(), State::ReceiveStatusInfo(true), text("478")),
        vec![
            Effect::Save(after.duplicate()),
            say(7, TextMessage::EnterDataComplete, Keyboard::Keep),
            Effect::Reset(7),
        ]
    );
    assert_eq!(
        receive_status_info(before.duplicate(), State::ReceiveStatusInfo(false), text("478")),
        vec![
            Effect::Save(after.duplicate()),
            say(7, TextMessage::InfoChanged(InfoName::WorkPhone), Keyboard::Keep),
            Effect::Reset(7),
        ]
    );
    assert_eq!(
        receive_status_info(before, State::ReceiveStatusInfo(false), None),
        vec![say(7, TextMessage::RetryInfo(InfoName::WorkPhone), Keyboard::Keep)]
    );
}

#[test]
fn yes_starts_the_registration() {
    let p = Participant::new(7);
    assert_eq!(
        receive_signup_response(&p, State::ReceiveSignupResponse(42), text("Aber sowas von!")),
        vec![
            say(7, TextMessage::OneMoment, Keyboard::Remove),
            Effect::Replay { participant: 7, course: 42 },
        ]
    );
}

#[test]
fn no_is_recorded_without_asking_the_provider() {
    let p = Participant::new(7);
    assert_eq!(
        receive_signup_response(&p, State::ReceiveSignupResponse(42), text("Heute leider nicht.")),
        vec![
            say(7, TextMessage::MaybeNextTime, Keyboard::Remove),
            Effect::Record(Signup { participant_id: 7, course_id: 42, status: SignupStatus::Rejected }),
            Effect::Reset(7),
        ]
    );
}

#[test]
fn other_answers_are_not_understood() {
    let p = Participant::new(7);
    let expected = vec![say(7, TextMessage::NotUnderstood, Keyboard::Keep)];
    assert_eq!(receive_signup_response(&p, State::ReceiveSignupResponse(42), text("ja")), expected);
    assert_eq!(receive_signup_response(&p, State::ReceiveSignupResponse(42), None), expected);
    assert_eq!(receive_signup_response(&p, State::Default, text("Aber sowas von!")), expected);
}

#[test]
fn a_success_is_recorded_and_a_failure_is_told() {
    assert_eq!(
        receive_signup_result(7, 42, Ok(())),
        vec![
            Effect::Record(Signup { participant_id: 7, course_id: 42, status: SignupStatus::SignedUp }),
            say(7, TextMessage::SignedUp, Keyboard::Keep),
            Effect::Reset(7),
        ]
    );
    assert_eq!(
        receive_signup_result(7, 42, Err(SignupError::NoTicket)),
        vec![
            say(7, TextMessage::SignupFailed(SignupError::NoTicket), Keyboard::Keep),
            Effect::Reset(7),
        ]
    );
}

#[test]
fn deletion_needs_the_word() {
    assert_eq!(
        receive_delete_confirmation(7, text("JA")),
        vec![Effect::Delete(7), say(7, TextMessage::Deleted, Keyboard::Keep), Effect::Reset(7)]
    );
    for word in ["ja", "Ja", "JA ", "nein", ""] {
        assert_eq!(
            receive_delete_confirmation(7, text(word)),
            vec![say(7, TextMessage::NotDeleted, Keyboard::Keep), Effect::Reset(7)]
        );
    }
    assert_eq!(
        receive_delete_confirmation(7, None),
        vec![say(7, TextMessage::NotUnderstood, Keyboard::Keep)]
    );
}

#[test]
fn simple_commands() {
    assert_eq!(help(7), vec![say(7, TextMessage::Help, Keyboard::Remove), Effect::Reset(7)]);
    assert_eq!(start(7), vec![say(7, TextMessage::Start, Keyboard::Remove), Effect::Reset(7)]);
    assert_eq!(cancel(7), vec![say(7, TextMessage::Cancel, Keyboard::Remove), Effect::Reset(7)]);
    assert_eq!(invalid(7), vec![say(7, TextMessage::Unprocessable, Keyboard::Keep)]);
    assert_eq!(
        invalid_callback_query(7),
        vec![Effect::AnswerCallback, say(7, TextMessage::NotUnderstood, Keyboard::Keep)]
    );
    assert_eq!(
        show_data(Participant::new(7)),
        vec![say(7, TextMessage::ShowData(Participant::new(7)), Keyboard::Remove), Effect::Reset(7)]
    );
}

#[test]
fn enter_data_stores_an_unknown_person_first() {
    let ask = vec![
        say(7, TextMessage::AskGivenName, Keyboard::Remove),
        expect(7, State::ReceiveGivenName(true)),
    ];
    assert_eq!(enter_data(7, Some(Participant::new(7))), ask);
    let mut with_create = vec![Effect::Create(Participant::new(7))];
    with_create.extend(ask);
    assert_eq!(enter_data(7, None), with_create);
}

#[test]
fn edit_commands_ask_for_one_field() {
    let mut p = Participant::new(7);
    p.status = Some(Status::StudentUniKoeln);
    let plain = |text, state| vec![say(7, text, Keyboard::Remove), expect(7, state)];
    assert_eq!(edit_given_name(&p), plain(TextMessage::AskGivenName, State::ReceiveGivenName(false)));
    assert_eq!(edit_last_name(&p), plain(TextMessage::AskLastName, State::ReceiveLastName(false)));
    assert_eq!(edit_street(&p), plain(TextMessage::AskStreet, State::ReceiveStreet(false)));
    assert_eq!(edit_city(&p), plain(TextMessage::AskCity, State::ReceiveCity(false)));
    assert_eq!(edit_phone(&p), plain(TextMessage::AskPhone, State::ReceivePhone(false)));
    assert_eq!(
        edit_status_info(&p),
        plain(TextMessage::AskStudentId, State::ReceiveStatusInfo(false))
    );
    assert_eq!(
        delete(&p),
        plain(TextMessage::AskDeleteConfirmation, State::ReceiveDeleteConfirmation)
    );
    assert_eq!(
        edit_gender(&p),
        vec![say(7, TextMessage::AskGender, Keyboard::Gender), expect(7, State::ReceiveGender(false))]
    );
    assert_eq!(
        edit_status(&p),
        vec![say(7, TextMessage::AskStatus, Keyboard::Status), expect(7, State::ReceiveStatus(false))]
    );
    assert_eq!(
        edit_email(&p),
        vec![
            say(7, TextMessage::AskEmail, Keyboard::NoAnswer),
            Effect::ExpectEmail { chat: 7, guided: false },
        ]
    );
}

#[test]
fn signup_command_without_a_session_today() {
    assert_eq!(
        signup(&Participant::new(7), None, None),
        vec![say(7, TextMessage::NoCourseToday, Keyboard::Remove), Effect::Reset(7)]
    );
}

#[test]
fn signup_command_writes_the_record_before_it_asks() {
    assert_eq!(
        signup(&Participant::new(7), Some(course()), None),
        vec![
            Effect::Record(Signup { participant_id: 7, course_id: 42, status: SignupStatus::Notified }),
            say(7, TextMessage::SignupResponse(course()), Keyboard::Signup),
            expect(7, State::ReceiveSignupResponse(42)),
        ]
    );
}

#[test]
fn signup_command_with_a_record() {
    let record = |status| Some(Signup { participant_id: 7, course_id: 42, status });
    let ask = vec![
        say(7, TextMessage::SignupResponse(course()), Keyboard::Signup),
        expect(7, State::ReceiveSignupResponse(42)),
    ];
    assert_eq!(signup(&Participant::new(7), Some(course()), record(SignupStatus::Notified)), ask);
    assert_eq!(signup(&Participant::new(7), Some(course()), record(SignupStatus::Rejected)), ask);
    assert_eq!(
        signup(&Participant::new(7), Some(course()), record(SignupStatus::SignedUp)),
        vec![say(7, TextMessage::AlreadySignedUp, Keyboard::Keep)]
    );
}

#[test]
fn messages_with_symbols() {
    assert_eq!(
        TextMessage::SignupResponse(course()).render().unwrap(),
        "Heute ist Frisbee-Zeit! 🥏\n\nVon: 18:00\nBis: 19:30\nBezeichnung: Anfänger\nOrt: Jahnwiese\nKursleiter/In: Kim\n\nSoll ich dich anmelden?"
    );
    let done = TextMessage::EnterDataComplete.render().unwrap();
    assert!(done.starts_with("Super 🎉\n\nDamit habe ich alle Daten, die ich brauche.\n\n"));
    assert!(done.ends_with("Du kannst dann antworten und dich anmelden lassen."));
    let mut far = course();
    far.end_time = i64::MAX;
    assert_eq!(TextMessage::SignupResponse(far).render(), None);
}

#[test]
fn fixed_messages() {
    assert_eq!(TextMessage::Cancel.render().unwrap(), "Aktion abgebrochen.");
    assert_eq!(TextMessage::Nothing.render().unwrap(), "");
    assert_eq!(TextMessage::NothingToAsk.render().unwrap(), "this is ignored later!");
    assert!(TextMessage::Start.render().unwrap().starts_with("Hey!\n\nIch helfe dir dabei"));
    assert_eq!(
        TextMessage::SignupFailed(SignupError::AlreadySignedUp).render().unwrap(),
        "Fehler bei der Anmeldung:\n\nBereits angemeldet."
    );
    assert_eq!(
        TextMessage::InfoChanged(InfoName::StudentId).render().unwrap(),
        "Matrikelnummer geändert."
    );
    assert_eq!(TextMessage::InfoChanged(InfoName::Nameless).render().unwrap(), " geändert.");
    assert_eq!(
        TextMessage::RetryInfo(InfoName::WorkPhone).render().unwrap(),
        "Das habe ich nicht verstanden. Bitte gib deine Dienstliche Telefonnummer ein."
    );
    assert_eq!(
        TextMessage::ShowData(Participant::new(1)).render().unwrap(),
        format!(
            "Ich habe folgende Informationen über dich gespeichert. Nutze die angezeigten Befehle, um deine Daten zu ändern.\n\n{}",
            Participant::new(1).describe()
        )
    );
    assert!(TextMessage::ShowData(Participant::new(1)).is_html());
    assert!(TextMessage::NotDeleted.is_html());
    assert!(!TextMessage::Deleted.is_html());
    assert_eq!(
        TextMessage::SignupResponse(course()).duplicate(),
        TextMessage::SignupResponse(course())
    );
}

#[test]
fn info_name_by_category() {
    let mut p = Participant::new(1);
    assert_eq!(InfoName::for_participant(&p), InfoName::Nameless);
    p.status = Some(Status::StudentAndereHochschulen);
    assert_eq!(InfoName::for_participant(&p), InfoName::StudentId);
    p.status = Some(Status::BeschaeftigteStaatlicherKoelnerHochschulen);
    assert_eq!(InfoName::for_participant(&p), InfoName::WorkPhone);
    assert_eq!(InfoName::StudentId.text(), "Matrikelnummer");
    assert_eq!(InfoName::Nameless.text(), "");
}
