//! Everything the bot says.
use crate::course::{opt_text, Course};
use crate::error::SignupError;
use crate::participant::Participant;
use crate::schema::Command;
use vstd::prelude::*;
use vstd::string::*;

verus! {

/// What the supplementary field of a person is called.
#[derive(Clone, Copy, Debug, PartialEq, Eq, Structural)]
pub enum InfoName {
    /// The student ID.
    StudentId,
    /// The work phone.
    WorkPhone,
    /// The person's category has no supplementary field.
    Nameless,
}

impl InfoName {
    pub open spec fn of(person: Participant) -> InfoName {
        if person.student() {
            InfoName::StudentId
        } else if person.employed() {
            InfoName::WorkPhone
        } else {
            InfoName::Nameless
        }
    }

    pub open spec fn label(self) -> Seq<char> {
        match self {
            InfoName::StudentId => "Matrikelnummer"@,
            InfoName::WorkPhone => "Dienstliche Telefonnummer"@,
            InfoName::Nameless => ""@,
        }
    }

    /// The name of the supplementary field of a person.
    pub fn for_participant(person: &Participant) -> (r: InfoName)
        ensures
            r == InfoName::of(*person),
    {
        if person.is_student() {
            InfoName::StudentId
        } else if person.is_employed_at_cgn_uni_related_thing() {
            InfoName::WorkPhone
        } else {
            InfoName::Nameless
        }
    }

    pub fn text(&self) -> (r: &'static str)
        ensures
            r@ == self.label(),
    {
        match self {
            InfoName::StudentId => "Matrikelnummer",
            InfoName::WorkPhone => "Dienstliche Telefonnummer",
            InfoName::Nameless => "",
        }
    }
}

/// A message to a person.
#[derive(Debug, PartialEq, Eq)]
pub enum TextMessage {
    Start,
    Cancel,
    ShowData(Participant),
    EnterDataComplete,
    SignupResponse(Course),
    Help,
    /// The text sent when nothing is expected next; it is empty.
    Nothing,
    AskGivenName,
    AskLastName,
    AskGender,
    AskStreet,
    AskCity,
    AskPhone,
    AskEmail,
    AskStatus,
    AskStudentId,
    AskWorkPhone,
    /// Sent in place of a question to a person whose category has no
    /// supplementary field.
    NothingToAsk,
    AskDeleteConfirmation,
    StatusFirst,
    GivenNameChanged,
    LastNameChanged,
    GenderChanged,
    StreetChanged,
    CityChanged,
    PhoneChanged,
    EmailChanged,
    EmailDeleted,
    EmailSkipped,
    StatusChanged,
    InfoChanged(InfoName),
    RetryGivenName,
    RetryLastName,
    RetryGender,
    RetryStreet,
    RetryCity,
    RetryPhone,
    RetryEmail,
    RetryStatus,
    RetryInfo(InfoName),
    OneMoment,
    SignedUp,
    SignupFailed(SignupError),
    MaybeNextTime,
    AlreadySignedUp,
    NoCourseToday,
    Deleted,
    NotDeleted,
    NotUnderstood,
    Unprocessable,
}

/// The symbol that the emoji library lists under a shortcode.
pub uninterp spec fn emoji_of(shortcode: Seq<char>) -> Option<Seq<char>>;

/// `emojis::get_by_shortcode`, then `Emoji::as_str`: a lookup in the table
/// compiled into the library.
#[verifier::external_body]
fn emoji(shortcode: &str) -> (r: Option<String>)
    ensures
        opt_text(r) == emoji_of(shortcode@),
{
    emojis::get_by_shortcode(shortcode).map(|e| e.as_str().to_owned())
}

/// One line of the help text per command of `commands[from..]`, each but
/// the first after a line break.
pub open spec fn help_lines(commands: Seq<Command>, upto: int) -> Seq<char>
    decreases upto,
{
    if upto <= 0 {
        Seq::empty()
    } else {
        help_lines(commands, upto - 1) + (if upto > 1 {
            "\n"@
        } else {
            ""@
        }) + "/"@ + commands[upto - 1].name_text() + " — "@ + commands[upto - 1].description_text()
    }
}

/// The help text: a heading, then every command with what it does.
pub open spec fn help_text() -> Seq<char> {
    "Diese Befehle sind verfügbar:\n\n"@ + help_lines(Command::every(), Command::every().len() as int)
}

pub open spec fn start_text() -> Seq<char> {
    "Hey!\n\nIch helfe dir dabei, dich für die Ultimate-Frisbee Kurse des UniSport Köln anzumelden.\n\nUm loszulegen, nutze den /enter_data Befehl.\n\nKeine Sorge! Solltest du bei der Eingabe deiner Daten einen Fehler machen, kannst du deine Daten später ändern.\nFahre dafür zunächst mit der Eingabe deiner Daten fort und nutze dann die in /help angezeigten Befehle, um deine Daten zu ändern.\n\nWarnung: Ich überprüfe deine Daten in keinster Weise auf Echtheit oder Korrektheit, sondern schicke diese so, wie du sie eingibts, an den UniSport weiter."@
}

pub open spec fn show_data_heading() -> Seq<char> {
    "Ich habe folgende Informationen über dich gespeichert. Nutze die angezeigten Befehle, um deine Daten zu ändern.\n\n"@
}

pub open spec fn complete_tail() -> Seq<char> {
    "\n\nDamit habe ich alle Daten, die ich brauche.\n\nWenn du deine Daten ändern willst, nutze die /edit... Befehle. Diese findest du auch, wenn du dir deine Daten mittels /show_data anzeigen lässt.\n\nWenn Trainings anstehen, wirst du von mir benachrichtigt. Du kannst dann antworten und dich anmelden lassen."@
}

impl TextMessage {
    /// The words of a message that needs nothing looked up; empty for the
    /// two that show a symbol, whose words are given by `words`.
    pub open spec fn fixed_text(self) -> Seq<char> {
        match self {
            TextMessage::Start => start_text(),
            TextMessage::Cancel => "Aktion abgebrochen."@,
            TextMessage::Help => help_text(),
            TextMessage::Nothing => ""@,
            TextMessage::AskGivenName => "Bitte gib deinen Vornamen ein."@,
            TextMessage::AskLastName => "Bitte gib deinen Nachnamen ein."@,
            TextMessage::AskGender => "Bitte wähle dein Geschlecht aus."@,
            TextMessage::AskStreet => "Bitte gib deine Straße und deine Hausnummer ein.\n\nBeispiel: Musterstr. 123"@,
            TextMessage::AskCity => "Bitte gib deine Postleitzahl und deinen Ort ein.\n\nBeispiel: 50678 Köln"@,
            TextMessage::AskPhone => "Bitte gib deine Telefonnummer ein."@,
            TextMessage::AskEmail => "Bitte gib deine E-Mail-Adresse ein."@,
            TextMessage::AskStatus => "Bitte wähle deinen Status aus."@,
            TextMessage::AskStudentId => "Bitte gib deine Matrikelnummer ein."@,
            TextMessage::AskWorkPhone => "Bitte gib deine dienstliche Telefonnummer ein."@,
            TextMessage::NothingToAsk => "this is ignored later!"@,
            TextMessage::AskDeleteConfirmation => "Bist du sicher? Antworte mit \"JA\", um deine Daten endgültig zu löschen."@,
            TextMessage::StatusFirst => "Du musst zuerst deinen Status auswählen: /edit_status"@,
            TextMessage::GivenNameChanged => "Vorname geändert."@,
            TextMessage::LastNameChanged => "Nachname geändert."@,
            TextMessage::GenderChanged => "Geschlecht geändert."@,
            TextMessage::StreetChanged => "Straße und Hausnummer geändert."@,
            TextMessage::CityChanged => "Postleitzahl und Ort geändert."@,
            TextMessage::PhoneChanged => "Telefonnummer geändert."@,
            TextMessage::EmailChanged => "E-Mail-Adresse geändert."@,
            TextMessage::EmailDeleted => "E-Mail-Adresse gelöscht."@,
            TextMessage::EmailSkipped => "Eingabe der E-Mail-Adresse übersprungen."@,
            TextMessage::StatusChanged => "Status geändert."@,
            TextMessage::InfoChanged(name) => name.label() + " geändert."@,
            TextMessage::RetryGivenName => "Das habe ich nicht verstanden. Bitte gib deinen Vornamen ein."@,
            TextMessage::RetryLastName => "Das habe ich nicht verstanden. Bitte gib deinen Nachnamen ein."@,
            TextMessage::RetryGender => "Das habe ich nicht verstanden. Bitte wähle dein Geschlecht aus."@,
            TextMessage::RetryStreet => "Das habe ich nicht verstanden. Bitte gib deine Straße und deine Hausnummer ein. Beispiel: Musterstr. 123"@,
            TextMessage::RetryCity => "Das habe ich nicht verstanden. Bitte gib deine Postleitzahl und deinen Ort ein.\n\nBeispiel: 50678 Köln"@,
            TextMessage::RetryPhone => "Das habe ich nicht verstanden. Bitte gib deine Telefonnummer ein."@,
            TextMessage::RetryEmail => "Das habe ich nicht verstanden. Bitte gib deine E-Mail-Adresse ein."@,
            TextMessage::RetryStatus => "Das habe ich nicht verstanden. Bitte wähle deinen Status aus:"@,
            TextMessage::RetryInfo(name) => "Das habe ich nicht verstanden. Bitte gib deine "@
                + name.label() + " ein."@,
            TextMessage::OneMoment => "Ok, einen Moment bitte..."@,
            TextMessage::SignedUp => "Das hat geklappt! Wenn du deine E-Mail-Adresse angegeben hast, findest du gleich eine Bestätigung in deinem Postfach."@,
            TextMessage::SignupFailed(e) => "Fehler bei der Anmeldung:\n\n"@ + e.text(),
            TextMessage::MaybeNextTime => "Ok, dann vielleicht beim nächsten Mal! Solltest du dich umentscheiden, kannst du den /signup Befehl nutzen, um dich doch noch anzumelden."@,
            TextMessage::AlreadySignedUp => "Du bist bereits angemeldet. Um dich abzumelden, musst du beim UniSport anrufen."@,
            TextMessage::NoCourseToday => "Für heute habe ich leider keine Kurse gefunden."@,
            TextMessage::Deleted => "Daten gelöscht.\n\nWenn du dich wieder anmelden möchtest, nutze den /enter_data Befehl."@,
            TextMessage::NotDeleted => "Deine Daten wurden <u>nicht</b> gelöscht."@,
            TextMessage::NotUnderstood => "Das habe ich nicht verstanden. Versuche es mit /help."@,
            TextMessage::Unprocessable => "Diese Nachricht konnte ich nicht verarbeiten."@,
            TextMessage::ShowData(person) => show_data_heading() + person.description(),
            TextMessage::EnterDataComplete => ""@,
            TextMessage::SignupResponse(_) => ""@,
        }
    }

    /// The words of a message; `None` where the emoji library lacks a symbol
    /// that the message shows, or a time of the session cannot be shown.
    pub open spec fn words(self) -> Option<Seq<char>> {
        match self {
            TextMessage::EnterDataComplete => match emoji_of("tada"@) {
                Some(symbol) => Some("Super "@ + symbol + complete_tail()),
                None => None,
            },
            TextMessage::SignupResponse(course) => match emoji_of("flying_disc"@) {
                Some(symbol) => match course@.description() {
                    Some(session) => Some(
                        "Heute ist Frisbee-Zeit! "@ + symbol + "\n\n"@ + session
                            + "\n\nSoll ich dich anmelden?"@,
                    ),
                    None => None,
                },
                None => None,
            },
            _ => Some(self.fixed_text()),
        }
    }

    /// Whether the message is marked up as HTML.
    pub open spec fn marked_up(self) -> bool {
        self is ShowData || self is NotDeleted
    }

    pub fn is_html(&self) -> (r: bool)
        ensures
            r == self.marked_up(),
    {
        match self {
            TextMessage::ShowData(_) | TextMessage::NotDeleted => true,
            _ => false,
        }
    }

    /// The words of the message.
    pub fn render(&self) -> (r: Option<String>)
        ensures
            opt_text(r) == self.words(),
    {
        match self {
            TextMessage::EnterDataComplete => {
                let symbol = match emoji("tada") {
                    Some(symbol) => symbol,
                    None => {
                        return None;
                    },
                };
                let mut out = "Super ".to_string();
                out.append(symbol.as_str());
                out.append(
                    "\n\nDamit habe ich alle Daten, die ich brauche.\n\nWenn du deine Daten ändern willst, nutze die /edit... Befehle. Diese findest du auch, wenn du dir deine Daten mittels /show_data anzeigen lässt.\n\nWenn Trainings anstehen, wirst du von mir benachrichtigt. Du kannst dann antworten und dich anmelden lassen.",
                );
                Some(out)
            },
            TextMessage::SignupResponse(course) => {
                let symbol = match emoji("flying_disc") {
                    Some(symbol) => symbol,
                    None => {
                        return None;
                    },
                };
                let session = match course.describe() {
                    Some(session) => session,
                    None => {
                        return None;
                    },
                };
                let mut out = "Heute ist Frisbee-Zeit! ".to_string();
                out.append(symbol.as_str());
                out.append("\n\n");
                out.append(session.as_str());
                out.append("\n\nSoll ich dich anmelden?");
                Some(out)
            },
            TextMessage::ShowData(person) => {
                let mut out = "Ich habe folgende Informationen über dich gespeichert. Nutze die angezeigten Befehle, um deine Daten zu ändern.\n\n".to_string();
                let profile = person.describe();
                out.append(profile.as_str());
                Some(out)
            },
            TextMessage::Help => Some(help()),
            TextMessage::InfoChanged(name) => {
                let mut out = name.text().to_string();
                out.append(" geändert.");
                Some(out)
            },
            TextMessage::RetryInfo(name) => {
                let mut out = "Das habe ich nicht verstanden. Bitte gib deine ".to_string();
                out.append(name.text());
                out.append(" ein.");
                Some(out)
            },
            TextMessage::SignupFailed(e) => {
                let mut out = "Fehler bei der Anmeldung:\n\n".to_string();
                let reason = e.message();
                out.append(reason.as_str());
                Some(out)
            },
            TextMessage::Start => Some(
                "Hey!\n\nIch helfe dir dabei, dich für die Ultimate-Frisbee Kurse des UniSport Köln anzumelden.\n\nUm loszulegen, nutze den /enter_data Befehl.\n\nKeine Sorge! Solltest du bei der Eingabe deiner Daten einen Fehler machen, kannst du deine Daten später ändern.\nFahre dafür zunächst mit der Eingabe deiner Daten fort und nutze dann die in /help angezeigten Befehle, um deine Daten zu ändern.\n\nWarnung: Ich überprüfe deine Daten in keinster Weise auf Echtheit oder Korrektheit, sondern schicke diese so, wie du sie eingibts, an den UniSport weiter.".to_string(),
            ),
            TextMessage::Cancel => Some("Aktion abgebrochen.".to_string()),
            TextMessage::Nothing => Some("".to_string()),
            TextMessage::AskGivenName => Some("Bitte gib deinen Vornamen ein.".to_string()),
            TextMessage::AskLastName => Some("Bitte gib deinen Nachnamen ein.".to_string()),
            TextMessage::AskGender => Some("Bitte wähle dein Geschlecht aus.".to_string()),
            TextMessage::AskStreet => Some(
                "Bitte gib deine Straße und deine Hausnummer ein.\n\nBeispiel: Musterstr. 123".to_string(),
            ),
            TextMessage::AskCity => Some(
                "Bitte gib deine Postleitzahl und deinen Ort ein.\n\nBeispiel: 50678 Köln".to_string(),
            ),
            TextMessage::AskPhone => Some("Bitte gib deine Telefonnummer ein.".to_string()),
            TextMessage::AskEmail => Some("Bitte gib deine E-Mail-Adresse ein.".to_string()),
            TextMessage::AskStatus => Some("Bitte wähle deinen Status aus.".to_string()),
            TextMessage::AskStudentId => Some("Bitte gib deine Matrikelnummer ein.".to_string()),
            TextMessage::AskWorkPhone => Some(
                "Bitte gib deine dienstliche Telefonnummer ein.".to_string(),
            ),
            TextMessage::NothingToAsk => Some("this is ignored later!".to_string()),
            TextMessage::AskDeleteConfirmation => Some(
                "Bist du sicher? Antworte mit \"JA\", um deine Daten endgültig zu löschen.".to_string(),
            ),
            TextMessage::StatusFirst => Some(
                "Du musst zuerst deinen Status auswählen: /edit_status".to_string(),
            ),
            TextMessage::GivenNameChanged => Some("Vorname geändert.".to_string()),
            TextMessage::LastNameChanged => Some("Nachname geändert.".to_string()),
            TextMessage::GenderChanged => Some("Geschlecht geändert.".to_string()),
            TextMessage::StreetChanged => Some("Straße und Hausnummer geändert.".to_string()),
            TextMessage::CityChanged => Some("Postleitzahl und Ort geändert.".to_string()),
            TextMessage::PhoneChanged => Some("Telefonnummer geändert.".to_string()),
            TextMessage::EmailChanged => Some("E-Mail-Adresse geändert.".to_string()),
            TextMessage::EmailDeleted => Some("E-Mail-Adresse gelöscht.".to_string()),
            TextMessage::EmailSkipped => Some("Eingabe der E-Mail-Adresse übersprungen.".to_string()),
            TextMessage::StatusChanged => Some("Status geändert.".to_string()),
            TextMessage::RetryGivenName => Some(
                "Das habe ich nicht verstanden. Bitte gib deinen Vornamen ein.".to_string(),
            ),
            TextMessage::RetryLastName => Some(
                "Das habe ich nicht verstanden. Bitte gib deinen Nachnamen ein.".to_string(),
            ),
            TextMessage::RetryGender => Some(
                "Das habe ich nicht verstanden. Bitte wähle dein Geschlecht aus.".to_string(),
            ),
            TextMessage::RetryStreet => Some(
                "Das habe ich nicht verstanden. Bitte gib deine Straße und deine Hausnummer ein. Beispiel: Musterstr. 123".to_string(),
            ),
            TextMessage::RetryCity => Some(
                "Das habe ich nicht verstanden. Bitte gib deine Postleitzahl und deinen Ort ein.\n\nBeispiel: 50678 Köln".to_string(),
            ),
            TextMessage::RetryPhone => Some(
                "Das habe ich nicht verstanden. Bitte gib deine Telefonnummer ein.".to_string(),
            ),
            TextMessage::RetryEmail => Some(
                "Das habe ich nicht verstanden. Bitte gib deine E-Mail-Adresse ein.".to_string(),
            ),
            TextMessage::RetryStatus => Some(
                "Das habe ich nicht verstanden. Bitte wähle deinen Status aus:".to_string(),
            ),
            TextMessage::OneMoment => Some("Ok, einen Moment bitte...".to_string()),
            TextMessage::SignedUp => Some(
                "Das hat geklappt! Wenn du deine E-Mail-Adresse angegeben hast, findest du gleich eine Bestätigung in deinem Postfach.".to_string(),
            ),
            TextMessage::MaybeNextTime => Some(
                "Ok, dann vielleicht beim nächsten Mal! Solltest du dich umentscheiden, kannst du den /signup Befehl nutzen, um dich doch noch anzumelden.".to_string(),
            ),
            TextMessage::AlreadySignedUp => Some(
                "Du bist bereits angemeldet. Um dich abzumelden, musst du beim UniSport anrufen.".to_string(),
            ),
            TextMessage::NoCourseToday => Some(
                "Für heute habe ich leider keine Kurse gefunden.".to_string(),
            ),
            TextMessage::Deleted => Some(
                "Daten gelöscht.\n\nWenn du dich wieder anmelden möchtest, nutze den /enter_data Befehl.".to_string(),
            ),
            TextMessage::NotDeleted => Some("Deine Daten wurden <u>nicht</b> gelöscht.".to_string()),
            TextMessage::NotUnderstood => Some(
                "Das habe ich nicht verstanden. Versuche es mit /help.".to_string(),
            ),
            TextMessage::Unprocessable => Some(
                "Diese Nachricht konnte ich nicht verarbeiten.".to_string(),
            ),
        }
    }

    /// A copy with the same content.
    pub fn duplicate(&self) -> (r: TextMessage)
        ensures
            r == *self,
    {
        match self {
            TextMessage::Start => TextMessage::Start,
            TextMessage::Cancel => TextMessage::Cancel,
            TextMessage::ShowData(person) => TextMessage::ShowData(person.duplicate()),
            TextMessage::EnterDataComplete => TextMessage::EnterDataComplete,
            TextMessage::SignupResponse(course) => TextMessage::SignupResponse(course.duplicate()),
            TextMessage::Help => TextMessage::Help,
            TextMessage::Nothing => TextMessage::Nothing,
            TextMessage::AskGivenName => TextMessage::AskGivenName,
            TextMessage::AskLastName => TextMessage::AskLastName,
            TextMessage::AskGender => TextMessage::AskGender,
            TextMessage::AskStreet => TextMessage::AskStreet,
            TextMessage::AskCity => TextMessage::AskCity,
            TextMessage::AskPhone => TextMessage::AskPhone,
            TextMessage::AskEmail => TextMessage::AskEmail,
            TextMessage::AskStatus => TextMessage::AskStatus,
            TextMessage::AskStudentId => TextMessage::AskStudentId,
            TextMessage::AskWorkPhone => TextMessage::AskWorkPhone,
            TextMessage::NothingToAsk => TextMessage::NothingToAsk,
            TextMessage::AskDeleteConfirmation => TextMessage::AskDeleteConfirmation,
            TextMessage::StatusFirst => TextMessage::StatusFirst,
            TextMessage::GivenNameChanged => TextMessage::GivenNameChanged,
            TextMessage::LastNameChanged => TextMessage::LastNameChanged,
            TextMessage::GenderChanged => TextMessage::GenderChanged,
            TextMessage::StreetChanged => TextMessage::StreetChanged,
            TextMessage::CityChanged => TextMessage::CityChanged,
            TextMessage::PhoneChanged => TextMessage::PhoneChanged,
            TextMessage::EmailChanged => TextMessage::EmailChanged,
            TextMessage::EmailDeleted => TextMessage::EmailDeleted,
            TextMessage::EmailSkipped => TextMessage::EmailSkipped,
            TextMessage::StatusChanged => TextMessage::StatusChanged,
            TextMessage::InfoChanged(name) => TextMessage::InfoChanged(*name),
            TextMessage::RetryGivenName => TextMessage::RetryGivenName,
            TextMessage::RetryLastName => TextMessage::RetryLastName,
            TextMessage::RetryGender => TextMessage::RetryGender,
            TextMessage::RetryStreet => TextMessage::RetryStreet,
            TextMessage::RetryCity => TextMessage::RetryCity,
            TextMessage::RetryPhone => TextMessage::RetryPhone,
            TextMessage::RetryEmail => TextMessage::RetryEmail,
            TextMessage::RetryStatus => TextMessage::RetryStatus,
            TextMessage::RetryInfo(name) => TextMessage::RetryInfo(*name),
            TextMessage::OneMoment => TextMessage::OneMoment,
            TextMessage::SignedUp => TextMessage::SignedUp,
            TextMessage::SignupFailed(e) => TextMessage::SignupFailed(e.duplicate()),
            TextMessage::MaybeNextTime => TextMessage::MaybeNextTime,
            TextMessage::AlreadySignedUp => TextMessage::AlreadySignedUp,
            TextMessage::NoCourseToday => TextMessage::NoCourseToday,
            TextMessage::Deleted => TextMessage::Deleted,
            TextMessage::NotDeleted => TextMessage::NotDeleted,
            TextMessage::NotUnderstood => TextMessage::NotUnderstood,
            TextMessage::Unprocessable => TextMessage::Unprocessable,
        }
    }
}

/// The help text: a heading, then every command with what it does.
pub fn help() -> (r: String)
    ensures
        r@ == help_text(),
{
    let commands = Command::all();
    let mut lines = String::new();
    let mut i: usize = 0;
    while i < commands.len()
        invariant
            i <= commands.len(),
            commands@ == Command::every(),
            lines@ == help_lines(Command::every(), i as int),
        decreases commands.len() - i,
    {
        if i > 0 {
            lines.append("\n");
        } else {
            proof {
                reveal_strlit("");
                assert(lines@ + ""@ =~= lines@);
            }
        }
        lines.append("/");
        lines.append(commands[i].name());
        lines.append(" — ");
        lines.append(commands[i].description());
        i += 1;
    }
    let mut out = "Diese Befehle sind verfügbar:\n\n".to_string();
    out.append(lines.as_str());
    out
}

} // verus!
