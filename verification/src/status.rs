//! The category under which a person takes part, as the provider lists them.
use crate::text::same;
use vstd::prelude::*;

verus! {

#[derive(Clone, Copy, Debug, PartialEq, Eq, Structural)]
pub enum Status {
    StudentUniKoeln,
    StudentDSHSKoeln,
    StudentTHKoeln,
    StudentMacromediaKoeln,
    StudentKunsthochschuleFuerMedien,
    StudentHochschuleFuerMedienKommunikationUndWirtschaft,
    StudentHochschuleFuerMusikKoeln,
    StudentAndereHochschulen,
    BeschaeftigteStaatlicherKoelnerHochschulen,
    BeschaeftigteUniKlinikKoeln,
    BeschaeftigteKoelnerStudierendenwerk,
    MitgliedKoelnAlumni,
    AzubiUniKoeln,
    AzubiUniKlinik,
    AzubiKoelnerStudierendenwerk,
    Gast,
}

impl Status {
    /// The code that the provider's form expects.
    pub open spec fn payload(self) -> Seq<char> {
        match self {
            Status::StudentUniKoeln => "S-UNI"@,
            Status::StudentDSHSKoeln => "S-DSHS"@,
            Status::StudentTHKoeln => "S-TH"@,
            Status::StudentMacromediaKoeln => "S-MAC"@,
            Status::StudentKunsthochschuleFuerMedien => "S-KHSM"@,
            Status::StudentHochschuleFuerMedienKommunikationUndWirtschaft => "S-HMKW"@,
            Status::StudentHochschuleFuerMusikKoeln => "S-MH"@,
            Status::StudentAndereHochschulen => "S-aH"@,
            Status::BeschaeftigteStaatlicherKoelnerHochschulen => "B-SFH"@,
            Status::BeschaeftigteUniKlinikKoeln => "B-UK"@,
            Status::BeschaeftigteKoelnerStudierendenwerk => "B-KStW"@,
            Status::MitgliedKoelnAlumni => "Alumni"@,
            Status::AzubiUniKoeln => "A-Uni"@,
            Status::AzubiUniKlinik => "A-UK"@,
            Status::AzubiKoelnerStudierendenwerk => "A-KSTW"@,
            Status::Gast => "Extern"@,
        }
    }

    /// The label shown to a person.
    pub open spec fn pretty_text(self) -> Seq<char> {
        match self {
            Status::StudentUniKoeln => "Stud. Uni Köln"@,
            Status::StudentDSHSKoeln => "Stud. DSHS Köln"@,
            Status::StudentTHKoeln => "Stud. TH Köln"@,
            Status::StudentMacromediaKoeln => "Stud. Macromedia Köln"@,
            Status::StudentKunsthochschuleFuerMedien => "Stud. KHM Köln"@,
            Status::StudentHochschuleFuerMedienKommunikationUndWirtschaft => "Stud. HMKW Köln"@,
            Status::StudentHochschuleFuerMusikKoeln => "Stud. HfMT Köln"@,
            Status::StudentAndereHochschulen => "Stud. anderer Hochschulen"@,
            Status::BeschaeftigteStaatlicherKoelnerHochschulen => "Beschäft. staatl. Kölner Hochschulen"@,
            Status::BeschaeftigteUniKlinikKoeln => "Beschäft. UniKlinik Köln"@,
            Status::BeschaeftigteKoelnerStudierendenwerk => "Beschäft. Kölner Studierendenwerk"@,
            Status::MitgliedKoelnAlumni => "Mitglied von KölnAlumni"@,
            Status::AzubiUniKoeln => "Azubi Uni Köln"@,
            Status::AzubiUniKlinik => "Azubi UniKlinik Köln"@,
            Status::AzubiKoelnerStudierendenwerk => "Azubi Kölner Studierendenwerk"@,
            Status::Gast => "Gast"@,
        }
    }

    /// Enrolled at a university: the supplementary field is the student ID.
    pub open spec fn student(self) -> bool {
        ||| self == Status::StudentUniKoeln
        ||| self == Status::StudentDSHSKoeln
        ||| self == Status::StudentTHKoeln
        ||| self == Status::StudentMacromediaKoeln
        ||| self == Status::StudentKunsthochschuleFuerMedien
        ||| self == Status::StudentHochschuleFuerMedienKommunikationUndWirtschaft
        ||| self == Status::StudentHochschuleFuerMusikKoeln
        ||| self == Status::StudentAndereHochschulen
    }

    /// Employed by one of the Cologne institutions: the supplementary field
    /// is the work phone.
    pub open spec fn employed(self) -> bool {
        ||| self == Status::BeschaeftigteStaatlicherKoelnerHochschulen
        ||| self == Status::BeschaeftigteUniKlinikKoeln
        ||| self == Status::BeschaeftigteKoelnerStudierendenwerk
    }

    /// All categories, in declaration order.
    pub open spec fn every() -> Seq<Status> {
        seq![
            Status::StudentUniKoeln,
            Status::StudentDSHSKoeln,
            Status::StudentTHKoeln,
            Status::StudentMacromediaKoeln,
            Status::StudentKunsthochschuleFuerMedien,
            Status::StudentHochschuleFuerMedienKommunikationUndWirtschaft,
            Status::StudentHochschuleFuerMusikKoeln,
            Status::StudentAndereHochschulen,
            Status::BeschaeftigteStaatlicherKoelnerHochschulen,
            Status::BeschaeftigteUniKlinikKoeln,
            Status::BeschaeftigteKoelnerStudierendenwerk,
            Status::MitgliedKoelnAlumni,
            Status::AzubiUniKoeln,
            Status::AzubiUniKlinik,
            Status::AzubiKoelnerStudierendenwerk,
            Status::Gast,
        ]
    }

    /// The first category among `among[from..]` whose label is `text`.
    pub open spec fn labelled_from(among: Seq<Status>, text: Seq<char>, from: int) -> Option<Status>
        decreases among.len() - from,
    {
        if from < 0 || from >= among.len() {
            None
        } else if among[from].pretty_text() == text {
            Some(among[from])
        } else {
            Status::labelled_from(among, text, from + 1)
        }
    }

    /// The first category among `among[from..]` whose code is `text`.
    pub open spec fn coded_from(among: Seq<Status>, text: Seq<char>, from: int) -> Option<Status>
        decreases among.len() - from,
    {
        if from < 0 || from >= among.len() {
            None
        } else if among[from].payload() == text {
            Some(among[from])
        } else {
            Status::coded_from(among, text, from + 1)
        }
    }

    /// The first category, in declaration order, whose code is `text`.
    pub open spec fn coded(text: Seq<char>) -> Option<Status> {
        Status::coded_from(Status::every(), text, 0)
    }

    /// The first category, in declaration order, whose label is `text`.
    pub open spec fn labelled(text: Seq<char>) -> Option<Status> {
        Status::labelled_from(Status::every(), text, 0)
    }

    pub fn as_payload(&self) -> (r: &'static str)
        ensures
            r@ == self.payload(),
    {
        match self {
            Status::StudentUniKoeln => "S-UNI",
            Status::StudentDSHSKoeln => "S-DSHS",
            Status::StudentTHKoeln => "S-TH",
            Status::StudentMacromediaKoeln => "S-MAC",
            Status::StudentKunsthochschuleFuerMedien => "S-KHSM",
            Status::StudentHochschuleFuerMedienKommunikationUndWirtschaft => "S-HMKW",
            Status::StudentHochschuleFuerMusikKoeln => "S-MH",
            Status::StudentAndereHochschulen => "S-aH",
            Status::BeschaeftigteStaatlicherKoelnerHochschulen => "B-SFH",
            Status::BeschaeftigteUniKlinikKoeln => "B-UK",
            Status::BeschaeftigteKoelnerStudierendenwerk => "B-KStW",
            Status::MitgliedKoelnAlumni => "Alumni",
            Status::AzubiUniKoeln => "A-Uni",
            Status::AzubiUniKlinik => "A-UK",
            Status::AzubiKoelnerStudierendenwerk => "A-KSTW",
            Status::Gast => "Extern",
        }
    }

    pub fn pretty(&self) -> (r: &'static str)
        ensures
            r@ == self.pretty_text(),
    {
        match self {
            Status::StudentUniKoeln => "Stud. Uni Köln",
            Status::StudentDSHSKoeln => "Stud. DSHS Köln",
            Status::StudentTHKoeln => "Stud. TH Köln",
            Status::StudentMacromediaKoeln => "Stud. Macromedia Köln",
            Status::StudentKunsthochschuleFuerMedien => "Stud. KHM Köln",
            Status::StudentHochschuleFuerMedienKommunikationUndWirtschaft => "Stud. HMKW Köln",
            Status::StudentHochschuleFuerMusikKoeln => "Stud. HfMT Köln",
            Status::StudentAndereHochschulen => "Stud. anderer Hochschulen",
            Status::BeschaeftigteStaatlicherKoelnerHochschulen => "Beschäft. staatl. Kölner Hochschulen",
            Status::BeschaeftigteUniKlinikKoeln => "Beschäft. UniKlinik Köln",
            Status::BeschaeftigteKoelnerStudierendenwerk => "Beschäft. Kölner Studierendenwerk",
            Status::MitgliedKoelnAlumni => "Mitglied von KölnAlumni",
            Status::AzubiUniKoeln => "Azubi Uni Köln",
            Status::AzubiUniKlinik => "Azubi UniKlinik Köln",
            Status::AzubiKoelnerStudierendenwerk => "Azubi Kölner Studierendenwerk",
            Status::Gast => "Gast",
        }
    }

    pub fn is_student(&self) -> (r: bool)
        ensures
            r == self.student(),
    {
        match self {
            Status::StudentUniKoeln
            | Status::StudentDSHSKoeln
            | Status::StudentTHKoeln
            | Status::StudentMacromediaKoeln
            | Status::StudentKunsthochschuleFuerMedien
            | Status::StudentHochschuleFuerMedienKommunikationUndWirtschaft
            | Status::StudentHochschuleFuerMusikKoeln
            | Status::StudentAndereHochschulen => true,
            _ => false,
        }
    }

    pub fn is_employed_at_cgn_uni_related_thing(&self) -> (r: bool)
        ensures
            r == self.employed(),
    {
        match self {
            Status::BeschaeftigteStaatlicherKoelnerHochschulen
            | Status::BeschaeftigteUniKlinikKoeln
            | Status::BeschaeftigteKoelnerStudierendenwerk => true,
            _ => false,
        }
    }

    pub fn all() -> (r: Vec<Status>)
        ensures
            r@ == Status::every(),
    {
        let r = vec![
            Status::StudentUniKoeln,
            Status::StudentDSHSKoeln,
            Status::StudentTHKoeln,
            Status::StudentMacromediaKoeln,
            Status::StudentKunsthochschuleFuerMedien,
            Status::StudentHochschuleFuerMedienKommunikationUndWirtschaft,
            Status::StudentHochschuleFuerMusikKoeln,
            Status::StudentAndereHochschulen,
            Status::BeschaeftigteStaatlicherKoelnerHochschulen,
            Status::BeschaeftigteUniKlinikKoeln,
            Status::BeschaeftigteKoelnerStudierendenwerk,
            Status::MitgliedKoelnAlumni,
            Status::AzubiUniKoeln,
            Status::AzubiUniKlinik,
            Status::AzubiKoelnerStudierendenwerk,
            Status::Gast,
        ];
        assert(r@ =~= Status::every());
        r
    }

    /// The category that a code of the provider stands for.
    pub fn from_payload(text: &str) -> (r: Option<Status>)
        ensures
            r == Status::coded(text@),
    {
        let among = Status::all();
        let mut i: usize = 0;
        while i < among.len()
            invariant
                i <= among.len(),
                among@ == Status::every(),
                Status::coded(text@) == Status::coded_from(among@, text@, i as int),
            decreases among.len() - i,
        {
            if same(among[i].as_payload(), text) {
                return Some(among[i]);
            }
            i += 1;
        }
        None
    }

    /// The category that a person picked by its label.
    pub fn from_pretty(text: &str) -> (r: Option<Status>)
        ensures
            r == Status::labelled(text@),
    {
        let among = Status::all();
        let mut i: usize = 0;
        while i < among.len()
            invariant
                i <= among.len(),
                among@ == Status::every(),
                Status::labelled(text@) == Status::labelled_from(among@, text@, i as int),
            decreases among.len() - i,
        {
            if same(among[i].pretty(), text) {
                return Some(among[i]);
            }
            i += 1;
        }
        None
    }
}

/// No two categories share a label.
pub proof fn lemma_status_labels_differ(a: Status, b: Status)
    requires
        a != b,
    ensures
        a.pretty_text() != b.pretty_text(),
{
    reveal_strlit("Stud. Uni Köln");
    reveal_strlit("Stud. DSHS Köln");
    reveal_strlit("Stud. TH Köln");
    reveal_strlit("Stud. Macromedia Köln");
    reveal_strlit("Stud. KHM Köln");
    reveal_strlit("Stud. HMKW Köln");
    reveal_strlit("Stud. HfMT Köln");
    reveal_strlit("Stud. anderer Hochschulen");
    reveal_strlit("Beschäft. staatl. Kölner Hochschulen");
    reveal_strlit("Beschäft. UniKlinik Köln");
    reveal_strlit("Beschäft. Kölner Studierendenwerk");
    reveal_strlit("Mitglied von KölnAlumni");
    reveal_strlit("Azubi Uni Köln");
    reveal_strlit("Azubi UniKlinik Köln");
    reveal_strlit("Azubi Kölner Studierendenwerk");
    reveal_strlit("Gast");
    let x = a.pretty_text();
    let y = b.pretty_text();
    if x.len() == y.len() {
        assert(x[0] != y[0] || x[6] != y[6] || x[7] != y[7]);
    }
}

/// No two categories share a code.
pub proof fn lemma_status_codes_differ(a: Status, b: Status)
    requires
        a != b,
    ensures
        a.payload() != b.payload(),
{
    reveal_strlit("S-UNI");
    reveal_strlit("S-DSHS");
    reveal_strlit("S-TH");
    reveal_strlit("S-MAC");
    reveal_strlit("S-KHSM");
    reveal_strlit("S-HMKW");
    reveal_strlit("S-MH");
    reveal_strlit("S-aH");
    reveal_strlit("B-SFH");
    reveal_strlit("B-UK");
    reveal_strlit("B-KStW");
    reveal_strlit("Alumni");
    reveal_strlit("A-Uni");
    reveal_strlit("A-UK");
    reveal_strlit("A-KSTW");
    reveal_strlit("Extern");
    let x = a.payload();
    let y = b.payload();
    if x.len() == y.len() {
        assert(x[0] != y[0] || x[2] != y[2]);
    }
}

proof fn lemma_listed(status: Status) -> (k: int)
    ensures
        0 <= k < Status::every().len(),
        Status::every()[k] == status,
{
    match status {
        Status::StudentUniKoeln => 0,
        Status::StudentDSHSKoeln => 1,
        Status::StudentTHKoeln => 2,
        Status::StudentMacromediaKoeln => 3,
        Status::StudentKunsthochschuleFuerMedien => 4,
        Status::StudentHochschuleFuerMedienKommunikationUndWirtschaft => 5,
        Status::StudentHochschuleFuerMusikKoeln => 6,
        Status::StudentAndereHochschulen => 7,
        Status::BeschaeftigteStaatlicherKoelnerHochschulen => 8,
        Status::BeschaeftigteUniKlinikKoeln => 9,
        Status::BeschaeftigteKoelnerStudierendenwerk => 10,
        Status::MitgliedKoelnAlumni => 11,
        Status::AzubiUniKoeln => 12,
        Status::AzubiUniKlinik => 13,
        Status::AzubiKoelnerStudierendenwerk => 14,
        Status::Gast => 15,
    }
}

proof fn lemma_coded_from(among: Seq<Status>, status: Status, at: int, from: int)
    requires
        0 <= from <= at < among.len(),
        among[at] == status,
    ensures
        Status::coded_from(among, status.payload(), from) == Some(status),
    decreases at - from,
{
    if among[from] != status {
        lemma_status_codes_differ(among[from], status);
        lemma_coded_from(among, status, at, from + 1);
    }
}

/// Every category is found again by its code.
pub proof fn lemma_status_codes_tell_apart(status: Status)
    ensures
        Status::coded(status.payload()) == Some(status),
{
    let k = lemma_listed(status);
    lemma_coded_from(Status::every(), status, k, 0);
}

/// Every category is found again by its label.
pub proof fn lemma_status_labels_tell_apart(status: Status)
    ensures
        Status::labelled(status.pretty_text()) == Some(status),
{
    let k = lemma_listed(status);
    lemma_found_from(Status::every(), status, k, 0);
}

proof fn lemma_found_from(among: Seq<Status>, status: Status, at: int, from: int)
    requires
        0 <= from <= at < among.len(),
        among[at] == status,
    ensures
        Status::labelled_from(among, status.pretty_text(), from) == Some(status),
    decreases at - from,
{
    if among[from] != status {
        lemma_status_labels_differ(among[from], status);
        lemma_found_from(among, status, at, from + 1);
    }
}

} // verus!
