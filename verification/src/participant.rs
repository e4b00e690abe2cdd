//! A person and the profile that is sent to the provider on their behalf.
use crate::gender::Gender;
use crate::status::Status;
use vstd::prelude::*;
use vstd::string::*;

verus! {

/// The text of an optional field; an absent field reads as empty.
pub open spec fn text_or_empty(field: Option<String>) -> Seq<char> {
    match field {
        Some(s) => s@,
        None => Seq::empty(),
    }
}

/// The text of an optional field, or the marker shown for an absent one.
pub open spec fn text_or_blank(field: Option<String>) -> Seq<char> {
    match field {
        Some(s) => s@,
        None => "<i>leer</i>"@,
    }
}

/// Name and value of each pair, as plain text.
pub open spec fn pairs(fields: Seq<(String, String)>) -> Seq<(Seq<char>, Seq<char>)> {
    Seq::new(fields.len(), |i: int| (fields[i].0@, fields[i].1@))
}

#[derive(Debug, PartialEq, Eq)]
pub struct Participant {
    pub id: i64,
    pub given_name: Option<String>,
    pub last_name: Option<String>,
    pub gender: Option<Gender>,
    pub street: Option<String>,
    pub city: Option<String>,
    pub phone: Option<String>,
    pub email: Option<String>,
    pub status: Option<Status>,
    pub status_info: Option<String>,
    pub signup_always: bool,
}

fn owned_or_empty(field: &Option<String>) -> (r: String)
    ensures
        r@ == text_or_empty(*field),
{
    match field {
        Some(s) => s.clone(),
        None => String::new(),
    }
}

fn owned_option(field: &Option<String>) -> (r: Option<String>)
    ensures
        r == *field,
{
    match field {
        Some(s) => Some(s.clone()),
        None => None,
    }
}

fn field(name: &str, value: String) -> (r: (String, String))
    ensures
        r.0@ == name@,
        r.1 == value,
{
    (name.to_string(), value)
}

impl Participant {
    /// The provider's code of the gender, empty where none is stated.
    pub open spec fn gender_code(self) -> Seq<char> {
        match self.gender {
            Some(g) => g.payload(),
            None => Seq::empty(),
        }
    }

    /// The provider's code of the category, empty where none is stated.
    pub open spec fn status_code(self) -> Seq<char> {
        match self.status {
            Some(s) => s.payload(),
            None => Seq::empty(),
        }
    }

    /// The person's fields under the provider's field names, in the order
    /// in which they are sent. The supplementary value goes out twice: as
    /// student ID and as institute.
    pub open spec fn payload(self) -> Seq<(Seq<char>, Seq<char>)> {
        seq![
            ("Geschlecht"@, self.gender_code()),
            ("Vorname"@, text_or_empty(self.given_name)),
            ("Name"@, text_or_empty(self.last_name)),
            ("Strasse"@, text_or_empty(self.street)),
            ("Ort"@, text_or_empty(self.city)),
            ("Statusorig"@, self.status_code()),
            ("Matnr"@, text_or_empty(self.status_info)),
            ("Institut"@, text_or_empty(self.status_info)),
            ("Mail"@, text_or_empty(self.email)),
            ("Tel"@, text_or_empty(self.phone)),
        ]
    }

    pub open spec fn student(self) -> bool {
        self.status matches Some(s) && s.student()
    }

    pub open spec fn employed(self) -> bool {
        self.status matches Some(s) && s.employed()
    }

    /// What the supplementary field is called for this person's category.
    pub open spec fn info_name(self) -> Option<Seq<char>> {
        if self.student() {
            Some("Matrikelnummer"@)
        } else if self.employed() {
            Some("Dienstliche Telefonnummer"@)
        } else {
            None
        }
    }

    /// The line on the supplementary field: none for guests and where no
    /// category is stated.
    pub open spec fn info_line(self) -> Seq<char> {
        match self.status {
            None => Seq::empty(),
            Some(Status::Gast) => Seq::empty(),
            Some(_) => "\n"@ + (match self.info_name() {
                Some(n) => n,
                None => Seq::empty(),
            }) + ": "@ + text_or_blank(self.status_info) + " (/edit_status_info)"@,
        }
    }

    /// The profile as shown to the person, each line with the command that
    /// edits it.
    pub open spec fn description(self) -> Seq<char> {
        "Vorname: "@ + text_or_blank(self.given_name) + " (/edit_given_name)\nNachname: "@
            + text_or_blank(self.last_name) + " (/edit_last_name)\nGeschlecht: "@ + (
        match self.gender {
            Some(g) => g.pretty_text(),
            None => "<i>leer</i>"@,
        }) + " (/edit_gender)\nStraße: "@ + text_or_blank(self.street) + " (/edit_street)\nOrt: "@
            + text_or_blank(self.city) + " (/edit_city)\nTelefonnummer: "@ + text_or_blank(
            self.phone,
        ) + " (/edit_phone)\nE-Mail-Adresse: "@ + text_or_blank(self.email)
            + " (/edit_email)\nStatus: "@ + (match self.status {
            Some(s) => s.pretty_text(),
            None => "<i>leer</i>"@,
        }) + " (/edit_status)"@ + self.info_line()
    }

    /// A person of whom only the identity is known.
    pub open spec fn blank(id: i64) -> Participant {
        Participant {
            id,
            given_name: None,
            last_name: None,
            gender: None,
            street: None,
            city: None,
            phone: None,
            email: None,
            status: None,
            status_info: None,
            signup_always: false,
        }
    }

    /// A person of whom only the identity is known.
    pub fn new(id: i64) -> (r: Participant)
        ensures
            r == Participant::blank(id),
    {
        Participant {
            id,
            given_name: None,
            last_name: None,
            gender: None,
            street: None,
            city: None,
            phone: None,
            email: None,
            status: None,
            status_info: None,
            signup_always: false,
        }
    }

    /// A copy with the same fields.
    pub fn duplicate(&self) -> (r: Participant)
        ensures
            r == *self,
    {
        Participant {
            id: self.id,
            given_name: owned_option(&self.given_name),
            last_name: owned_option(&self.last_name),
            gender: self.gender,
            street: owned_option(&self.street),
            city: owned_option(&self.city),
            phone: owned_option(&self.phone),
            email: owned_option(&self.email),
            status: self.status,
            status_info: owned_option(&self.status_info),
            signup_always: self.signup_always,
        }
    }

    pub fn as_payload(&self) -> (r: Vec<(String, String)>)
        ensures
            pairs(r@) == self.payload(),
    {
        let gender = match self.gender {
            Some(g) => g.as_payload().to_string(),
            None => String::new(),
        };
        let status = match self.status {
            Some(s) => s.as_payload().to_string(),
            None => String::new(),
        };
        let r = vec![
            field("Geschlecht", gender),
            field("Vorname", owned_or_empty(&self.given_name)),
            field("Name", owned_or_empty(&self.last_name)),
            field("Strasse", owned_or_empty(&self.street)),
            field("Ort", owned_or_empty(&self.city)),
            field("Statusorig", status),
            field("Matnr", owned_or_empty(&self.status_info)),
            field("Institut", owned_or_empty(&self.status_info)),
            field("Mail", owned_or_empty(&self.email)),
            field("Tel", owned_or_empty(&self.phone)),
        ];
        assert(pairs(r@) =~= self.payload());
        r
    }

    pub fn is_student(&self) -> (r: bool)
        ensures
            r == self.student(),
    {
        match self.status {
            Some(s) => s.is_student(),
            None => false,
        }
    }

    pub fn is_employed_at_cgn_uni_related_thing(&self) -> (r: bool)
        ensures
            r == self.employed(),
    {
        match self.status {
            Some(s) => s.is_employed_at_cgn_uni_related_thing(),
            None => false,
        }
    }

    pub fn status_info_name(&self) -> (r: Option<String>)
        ensures
            match r {
                Some(name) => self.info_name() == Some(name@),
                None => self.info_name() is None,
            },
    {
        if self.is_student() {
            Some("Matrikelnummer".to_string())
        } else if self.is_employed_at_cgn_uni_related_thing() {
            Some("Dienstliche Telefonnummer".to_string())
        } else {
            None
        }
    }

    /// The profile as text, each line with the command that edits it.
    pub fn describe(&self) -> (r: String)
        ensures
            r@ == self.description(),
    {
        let blank = "<i>leer</i>";
        let mut out = "Vorname: ".to_string();
        out.append(shown(&self.given_name));
        out.append(" (/edit_given_name)\nNachname: ");
        out.append(shown(&self.last_name));
        out.append(" (/edit_last_name)\nGeschlecht: ");
        out.append(
            match self.gender {
                Some(g) => g.pretty(),
                None => blank,
            },
        );
        out.append(" (/edit_gender)\nStraße: ");
        out.append(shown(&self.street));
        out.append(" (/edit_street)\nOrt: ");
        out.append(shown(&self.city));
        out.append(" (/edit_city)\nTelefonnummer: ");
        out.append(shown(&self.phone));
        out.append(" (/edit_phone)\nE-Mail-Adresse: ");
        out.append(shown(&self.email));
        out.append(" (/edit_email)\nStatus: ");
        out.append(
            match self.status {
                Some(s) => s.pretty(),
                None => blank,
            },
        );
        out.append(" (/edit_status)");
        let line = self.info_line_text();
        out.append(line.as_str());
        out
    }

    fn info_line_text(&self) -> (r: String)
        ensures
            r@ == self.info_line(),
    {
        match self.status {
            None => String::new(),
            Some(Status::Gast) => String::new(),
            Some(_) => {
                let mut out = "\n".to_string();
                match self.status_info_name() {
                    Some(name) => {
                        out.append(name.as_str());
                    },
                    None => {
                        assert(out@ + Seq::<char>::empty() =~= out@);
                    },
                }
                out.append(": ");
                out.append(shown(&self.status_info));
                out.append(" (/edit_status_info)");
                out
            },
        }
    }
}

fn shown(field: &Option<String>) -> (r: &str)
    ensures
        r@ == text_or_blank(*field),
{
    match field {
        Some(s) => s.as_str(),
        None => "<i>leer</i>",
    }
}

} // verus!
