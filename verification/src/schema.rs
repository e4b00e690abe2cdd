//! What the conversation with a person expects next, the commands a person
//! can give, and which handler an incoming update goes to.
use vstd::prelude::*;

verus! {

/// What input, if any, is expected from a person. The flag of the states
/// that receive a profile field says whether the person is on the guided
/// tour through all fields (`true`) or edits that one field (`false`).
#[derive(Clone, Copy, Debug, PartialEq, Eq, Structural)]
pub enum State {
    Default,
    ReceiveGivenName(bool),
    ReceiveLastName(bool),
    ReceiveGender(bool),
    ReceiveStreet(bool),
    ReceiveCity(bool),
    ReceivePhone(bool),
    /// With the identifier of the message that carries the button to skip.
    ReceiveEmail(bool, Option<i32>),
    ReceiveStatus(bool),
    ReceiveStatusInfo(bool),
    /// Awaiting yes or no to the session of that identifier.
    ReceiveSignupResponse(i64),
    ReceiveDeleteConfirmation,
}

impl State {
    /// On the guided tour through all fields.
    pub open spec fn in_dialogue(self) -> bool {
        match self {
            State::ReceiveGivenName(guided)
            | State::ReceiveLastName(guided)
            | State::ReceiveGender(guided)
            | State::ReceiveStreet(guided)
            | State::ReceiveCity(guided)
            | State::ReceivePhone(guided)
            | State::ReceiveEmail(guided, _)
            | State::ReceiveStatus(guided)
            | State::ReceiveStatusInfo(guided) => guided,
            State::Default | State::ReceiveSignupResponse(_) | State::ReceiveDeleteConfirmation => false,
        }
    }

    /// Nothing is expected: the person may be sent a prompt.
    pub open spec fn idle(self) -> bool {
        self == State::Default
    }

    pub fn is_in_dialogue(&self) -> (r: bool)
        ensures
            r == self.in_dialogue(),
    {
        match self {
            State::ReceiveGivenName(guided)
            | State::ReceiveLastName(guided)
            | State::ReceiveGender(guided)
            | State::ReceiveStreet(guided)
            | State::ReceiveCity(guided)
            | State::ReceivePhone(guided)
            | State::ReceiveEmail(guided, _)
            | State::ReceiveStatus(guided)
            | State::ReceiveStatusInfo(guided) => *guided,
            State::Default | State::ReceiveSignupResponse(_) | State::ReceiveDeleteConfirmation => false,
        }
    }

    pub fn is_idle(&self) -> (r: bool)
        ensures
            r == self.idle(),
    {
        match self {
            State::Default => true,
            _ => false,
        }
    }
}

/// The commands of the bot.
#[derive(Clone, Copy, Debug, PartialEq, Eq, Structural)]
pub enum Command {
    ShowData,
    Signup,
    EnterData,
    Delete,
    Cancel,
    Help,
    EditGivenName,
    EditLastName,
    EditGender,
    EditStreet,
    EditCity,
    EditPhone,
    EditEmail,
    EditStatus,
    EditStatusInfo,
    Start,
}

impl Command {
    /// The command as a person types it, without the slash.
    pub open spec fn name_text(self) -> Seq<char> {
        match self {
            Command::ShowData => "show_data"@,
            Command::Signup => "signup"@,
            Command::EnterData => "enter_data"@,
            Command::Delete => "delete"@,
            Command::Cancel => "cancel"@,
            Command::Help => "help"@,
            Command::EditGivenName => "edit_given_name"@,
            Command::EditLastName => "edit_last_name"@,
            Command::EditGender => "edit_gender"@,
            Command::EditStreet => "edit_street"@,
            Command::EditCity => "edit_city"@,
            Command::EditPhone => "edit_phone"@,
            Command::EditEmail => "edit_email"@,
            Command::EditStatus => "edit_status"@,
            Command::EditStatusInfo => "edit_status_info"@,
            Command::Start => "start"@,
        }
    }

    /// What the command does, in the words of the help text.
    pub open spec fn description_text(self) -> Seq<char> {
        match self {
            Command::ShowData => "Daten anzeigen/bearbeiten"@,
            Command::Signup => "Anmeldung starten"@,
            Command::EnterData => "Daten eingeben"@,
            Command::Delete => "Daten löschen"@,
            Command::Cancel => "Aktuelle Aktion abbrechen"@,
            Command::Help => "Hilfe anzeigen"@,
            Command::EditGivenName => "Vorname ändern"@,
            Command::EditLastName => "Nachname ändern"@,
            Command::EditGender => "Geschlecht ändern"@,
            Command::EditStreet => "Straße ändern"@,
            Command::EditCity => "Stadt ändern"@,
            Command::EditPhone => "Telefonnummer ändern"@,
            Command::EditEmail => "E-Mail-Adresse ändern"@,
            Command::EditStatus => "Status ändern"@,
            Command::EditStatusInfo => "Matrikelnummer oder dienstliche Telefonnummer ändern"@,
            Command::Start => "Starttext anzeigen"@,
        }
    }

    /// All commands, in declaration order.
    pub open spec fn every() -> Seq<Command> {
        seq![
            Command::ShowData,
            Command::Signup,
            Command::EnterData,
            Command::Delete,
            Command::Cancel,
            Command::Help,
            Command::EditGivenName,
            Command::EditLastName,
            Command::EditGender,
            Command::EditStreet,
            Command::EditCity,
            Command::EditPhone,
            Command::EditEmail,
            Command::EditStatus,
            Command::EditStatusInfo,
            Command::Start,
        ]
    }

    pub fn name(&self) -> (r: &'static str)
        ensures
            r@ == self.name_text(),
    {
        match self {
            Command::ShowData => "show_data",
            Command::Signup => "signup",
            Command::EnterData => "enter_data",
            Command::Delete => "delete",
            Command::Cancel => "cancel",
            Command::Help => "help",
            Command::EditGivenName => "edit_given_name",
            Command::EditLastName => "edit_last_name",
            Command::EditGender => "edit_gender",
            Command::EditStreet => "edit_street",
            Command::EditCity => "edit_city",
            Command::EditPhone => "edit_phone",
            Command::EditEmail => "edit_email",
            Command::EditStatus => "edit_status",
            Command::EditStatusInfo => "edit_status_info",
            Command::Start => "start",
        }
    }

    pub fn description(&self) -> (r: &'static str)
        ensures
            r@ == self.description_text(),
    {
        match self {
            Command::ShowData => "Daten anzeigen/bearbeiten",
            Command::Signup => "Anmeldung starten",
            Command::EnterData => "Daten eingeben",
            Command::Delete => "Daten löschen",
            Command::Cancel => "Aktuelle Aktion abbrechen",
            Command::Help => "Hilfe anzeigen",
            Command::EditGivenName => "Vorname ändern",
            Command::EditLastName => "Nachname ändern",
            Command::EditGender => "Geschlecht ändern",
            Command::EditStreet => "Straße ändern",
            Command::EditCity => "Stadt ändern",
            Command::EditPhone => "Telefonnummer ändern",
            Command::EditEmail => "E-Mail-Adresse ändern",
            Command::EditStatus => "Status ändern",
            Command::EditStatusInfo => "Matrikelnummer oder dienstliche Telefonnummer ändern",
            Command::Start => "Starttext anzeigen",
        }
    }

    pub fn all() -> (r: Vec<Command>)
        ensures
            r@ == Command::every(),
    {
        let r = vec![
            Command::ShowData,
            Command::Signup,
            Command::EnterData,
            Command::Delete,
            Command::Cancel,
            Command::Help,
            Command::EditGivenName,
            Command::EditLastName,
            Command::EditGender,
            Command::EditStreet,
            Command::EditCity,
            Command::EditPhone,
            Command::EditEmail,
            Command::EditStatus,
            Command::EditStatusInfo,
            Command::Start,
        ];
        assert(r@ =~= Command::every());
        r
    }

    /// How many commands the chat platform's menu shows: the first ones, in
    /// declaration order.
    pub fn menu_size() -> (r: usize)
        ensures
            r == 6,
    {
        6
    }
}

/// What came in from the chat platform.
#[derive(Clone, Copy, Debug, PartialEq, Eq, Structural)]
pub enum Incoming {
    /// A message that is a command.
    Command(Command),
    /// Any other message.
    Message,
    /// The press of an inline button.
    CallbackQuery,
}

/// The handlers of the bot.
#[derive(Clone, Copy, Debug, PartialEq, Eq, Structural)]
pub enum Handler {
    Command(Command),
    ReceiveGivenName,
    ReceiveLastName,
    ReceiveGender,
    ReceiveStreet,
    ReceiveCity,
    ReceivePhone,
    ReceiveEmail,
    ReceiveStatus,
    ReceiveStatusInfo,
    ReceiveSignupResponse,
    ReceiveDeleteConfirmation,
    Invalid,
    ReceiveEmailCallback,
    InvalidCallbackQuery,
}

/// The handler of an update. A command goes to its own handler whatever is
/// expected; any other message goes by what is expected, and to `Invalid`
/// where nothing is; a button press counts only while the mail address is
/// expected.
pub open spec fn handler_of(incoming: Incoming, state: State) -> Handler {
    match incoming {
        Incoming::Command(command) => Handler::Command(command),
        Incoming::Message => match state {
            State::Default => Handler::Invalid,
            State::ReceiveGivenName(_) => Handler::ReceiveGivenName,
            State::ReceiveLastName(_) => Handler::ReceiveLastName,
            State::ReceiveGender(_) => Handler::ReceiveGender,
            State::ReceiveStreet(_) => Handler::ReceiveStreet,
            State::ReceiveCity(_) => Handler::ReceiveCity,
            State::ReceivePhone(_) => Handler::ReceivePhone,
            State::ReceiveEmail(_, _) => Handler::ReceiveEmail,
            State::ReceiveStatus(_) => Handler::ReceiveStatus,
            State::ReceiveStatusInfo(_) => Handler::ReceiveStatusInfo,
            State::ReceiveSignupResponse(_) => Handler::ReceiveSignupResponse,
            State::ReceiveDeleteConfirmation => Handler::ReceiveDeleteConfirmation,
        },
        Incoming::CallbackQuery => match state {
            State::ReceiveEmail(_, _) => Handler::ReceiveEmailCallback,
            _ => Handler::InvalidCallbackQuery,
        },
    }
}

/// Picks the handler of an update.
pub fn schema(incoming: Incoming, state: State) -> (r: Handler)
    ensures
        r == handler_of(incoming, state),
{
    match incoming {
        Incoming::Command(command) => Handler::Command(command),
        Incoming::Message => match state {
            State::Default => Handler::Invalid,
            State::ReceiveGivenName(_) => Handler::ReceiveGivenName,
            State::ReceiveLastName(_) => Handler::ReceiveLastName,
            State::ReceiveGender(_) => Handler::ReceiveGender,
            State::ReceiveStreet(_) => Handler::ReceiveStreet,
            State::ReceiveCity(_) => Handler::ReceiveCity,
            State::ReceivePhone(_) => Handler::ReceivePhone,
            State::ReceiveEmail(_, _) => Handler::ReceiveEmail,
            State::ReceiveStatus(_) => Handler::ReceiveStatus,
            State::ReceiveStatusInfo(_) => Handler::ReceiveStatusInfo,
            State::ReceiveSignupResponse(_) => Handler::ReceiveSignupResponse,
            State::ReceiveDeleteConfirmation => Handler::ReceiveDeleteConfirmation,
        },
        Incoming::CallbackQuery => match state {
            State::ReceiveEmail(_, _) => Handler::ReceiveEmailCallback,
            _ => Handler::InvalidCallbackQuery,
        },
    }
}

} // verus!
