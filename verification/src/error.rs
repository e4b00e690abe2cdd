//! Why a registration did not go through.
use vstd::prelude::*;
use vstd::string::*;

verus! {

/// The reasons for which registering a person for a session fails.
#[derive(Debug, PartialEq, Eq)]
pub enum SignupError {
    /// The provider could not be reached; the text is the transport's own.
    Connection(String),
    /// The provider answered with a status other than 200; the text is the
    /// status as the transport words it.
    ServerStatus(String),
    /// The answer to the confirming request did not arrive.
    Unconfirmed,
    /// The page is longer than the HTML library is trusted with.
    TooLarge,
    /// A selector was refused by the HTML library.
    Selector,
    /// The page holds no form: the provider's layout has changed.
    NoForm,
    /// A field value holds a character that ISO-8859-1 lacks.
    Encoding,
    /// The provider asks for a ticket that the person lacks, or rejects the
    /// data.
    NoTicket,
    /// The person is registered for the session already.
    AlreadySignedUp,
    /// The provider's answer matches no known phrase.
    Unknown,
}

/// The kinds of failure, by what can be done about them.
#[derive(Clone, Copy, Debug, PartialEq, Eq, Structural)]
pub enum ErrorKind {
    /// The provider was not reached or its answer was lost: the caller may
    /// try again later.
    Connectivity,
    /// A page is not what it used to be: someone has to look at it.
    ProviderShapeChanged,
    /// The person's data cannot be sent as it is.
    EncodingViolation,
    /// The provider has answered and refused: asking again would submit the
    /// same registration once more.
    Refusal,
}

impl SignupError {
    /// The reason, in the words shown to the person.
    pub open spec fn text(self) -> Seq<char> {
        match self {
            SignupError::Connection(detail) => "Verbindungsfehler: "@ + detail@,
            SignupError::ServerStatus(status) => "Server hat mit Code "@ + status@
                + " geantwortet"@,
            SignupError::Unconfirmed => "Verbindungsfehler"@,
            SignupError::TooLarge => "page too large"@,
            SignupError::Selector => "scraper error"@,
            SignupError::NoForm => "no form found"@,
            SignupError::Encoding => "unrepresentable character"@,
            SignupError::NoTicket => "Kein Sportticket oder fehlerhafte Daten."@,
            SignupError::AlreadySignedUp => "Bereits angemeldet."@,
            SignupError::Unknown => "Unbekannter Fehler."@,
        }
    }

    /// What kind of failure this is.
    pub open spec fn kind_of(self) -> ErrorKind {
        match self {
            SignupError::Connection(_) | SignupError::ServerStatus(_) | SignupError::Unconfirmed => {
                ErrorKind::Connectivity
            },
            SignupError::TooLarge | SignupError::Selector | SignupError::NoForm => {
                ErrorKind::ProviderShapeChanged
            },
            SignupError::Encoding => ErrorKind::EncodingViolation,
            SignupError::NoTicket | SignupError::AlreadySignedUp | SignupError::Unknown => {
                ErrorKind::Refusal
            },
        }
    }

    pub fn kind(&self) -> (r: ErrorKind)
        ensures
            r == self.kind_of(),
            self.is_connectivity() <==> r == ErrorKind::Connectivity,
            self.is_verdict() <==> r == ErrorKind::Refusal,
    {
        match self {
            SignupError::Connection(_) | SignupError::ServerStatus(_) | SignupError::Unconfirmed => {
                ErrorKind::Connectivity
            },
            SignupError::TooLarge | SignupError::Selector | SignupError::NoForm => {
                ErrorKind::ProviderShapeChanged
            },
            SignupError::Encoding => ErrorKind::EncodingViolation,
            SignupError::NoTicket | SignupError::AlreadySignedUp | SignupError::Unknown => {
                ErrorKind::Refusal
            },
        }
    }

    /// Whether the caller may try the registration again later: only where
    /// the provider was not reached.
    pub fn is_retryable(&self) -> (r: bool)
        ensures
            r == (self.kind_of() == ErrorKind::Connectivity),
    {
        match self.kind() {
            ErrorKind::Connectivity => true,
            _ => false,
        }
    }

    /// The provider answered and said no: nothing is gained by asking again.
    pub open spec fn is_verdict(self) -> bool {
        self is NoTicket || self is AlreadySignedUp || self is Unknown
    }

    /// The provider was not reached, or its answer was lost.
    pub open spec fn is_connectivity(self) -> bool {
        self is Connection || self is ServerStatus || self is Unconfirmed
    }

    /// A copy with the same content.
    pub fn duplicate(&self) -> (r: SignupError)
        ensures
            r == *self,
    {
        match self {
            SignupError::Connection(detail) => SignupError::Connection(detail.clone()),
            SignupError::ServerStatus(status) => SignupError::ServerStatus(status.clone()),
            SignupError::Unconfirmed => SignupError::Unconfirmed,
            SignupError::TooLarge => SignupError::TooLarge,
            SignupError::Selector => SignupError::Selector,
            SignupError::NoForm => SignupError::NoForm,
            SignupError::Encoding => SignupError::Encoding,
            SignupError::NoTicket => SignupError::NoTicket,
            SignupError::AlreadySignedUp => SignupError::AlreadySignedUp,
            SignupError::Unknown => SignupError::Unknown,
        }
    }

    pub fn message(&self) -> (r: String)
        ensures
            r@ == self.text(),
    {
        match self {
            SignupError::Connection(detail) => {
                let mut out = "Verbindungsfehler: ".to_string();
                out.append(detail.as_str());
                out
            },
            SignupError::ServerStatus(status) => {
                let mut out = "Server hat mit Code ".to_string();
                out.append(status.as_str());
                out.append(" geantwortet");
                out
            },
            SignupError::Unconfirmed => "Verbindungsfehler".to_string(),
            SignupError::TooLarge => "page too large".to_string(),
            SignupError::Selector => "scraper error".to_string(),
            SignupError::NoForm => "no form found".to_string(),
            SignupError::Encoding => "unrepresentable character".to_string(),
            SignupError::NoTicket => "Kein Sportticket oder fehlerhafte Daten.".to_string(),
            SignupError::AlreadySignedUp => "Bereits angemeldet.".to_string(),
            SignupError::Unknown => "Unbekannter Fehler.".to_string(),
        }
    }
}

} // verus!
