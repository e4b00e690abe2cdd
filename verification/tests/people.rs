use unisport_bot::cli::{select_mode, Mode};
use unisport_bot::gender::Gender;
use unisport_bot::keyboards::{
    gender_keyboard, no_answer_keyboard, signup_keyboard, status_keyboard,
};
use unisport_bot::message_effect::MessageEffect;
use unisport_bot::participant::Participant;
use unisport_bot::status::Status;

fn pair(name: &str, value: &str) -> (String, String) {
    (name.to_string(), value.to_string())
}

#[test]
fn gender_codes_and_labels() {
    assert_eq!(Gender::Male.as_payload(), "M");
    assert_eq!(Gender::Female.as_payload(), "W");
    assert_eq!(Gender::Diverse.as_payload(), "D");
    assert_eq!(Gender::Male.pretty(), "Männlich");
    assert_eq!(Gender::Female.pretty(), "Weiblich");
    assert_eq!(Gender::Diverse.pretty(), "Divers");
    assert_eq!(Gender::all(), vec![Gender::Male, Gender::Female, Gender::Diverse]);
}

#[test]
fn gender_by_label() {
    for gender in Gender::all() {
        assert_eq!(Gender::from_pretty(gender.pretty()), Some(gender));
    }
    assert_eq!(Gender::from_pretty("männlich"), None);
    assert_eq!(Gender::from_pretty("M"), None);
    assert_eq!(Gender::from_pretty(""), None);
}

#[test]
fn status_codes() {
    let expected = [
        "S-UNI", "S-DSHS", "S-TH", "S-MAC", "S-KHSM", "S-HMKW", "S-MH", "S-aH", "B-SFH", "B-UK",
        "B-KStW", "Alumni", "A-Uni", "A-UK", "A-KSTW", "Extern",
    ];
    let all = Status::all();
    assert_eq!(all.len(), 16);
    for (status, code) in all.iter().zip(expected) {
        assert_eq!(status.as_payload(), code);
    }
}

#[test]
fn status_labels() {
    let expected = [
        "Stud. Uni Köln",
        "Stud. DSHS Köln",
        "Stud. TH Köln",
        "Stud. Macromedia Köln",
        "Stud. KHM Köln",
        "Stud. HMKW Köln",
        "Stud. HfMT Köln",
        "Stud. anderer Hochschulen",
        "Beschäft. staatl. Kölner Hochschulen",
        "Beschäft. UniKlinik Köln",
        "Beschäft. Kölner Studierendenwerk",
        "Mitglied von KölnAlumni",
        "Azubi Uni Köln",
        "Azubi UniKlinik Köln",
        "Azubi Kölner Studierendenwerk",
        "Gast",
    ];
    for (status, label) in Status::all().iter().zip(expected) {
        assert_eq!(status.pretty(), label);
        assert_eq!(Status::from_pretty(label), Some(*status));
    }
    assert_eq!(Status::from_pretty("Student"), None);
    assert_eq!(Status::from_pretty("S-UNI"), None);
}

#[test]
fn students_and_employees() {
    let all = Status::all();
    for (i, status) in all.iter().enumerate() {
        assert_eq!(status.is_student(), i < 8, "{status:?}");
        assert_eq!(status.is_employed_at_cgn_uni_related_thing(), (8..11).contains(&i), "{status:?}");
    }
}

fn full() -> Participant {
    Participant {
        id: 7,
        given_name: Some("Jörg".to_string()),
        last_name: Some("Müller".to_string()),
        gender: Some(Gender::Diverse),
        street: Some("Musterstr. 123".to_string()),
        city: Some("50678 Köln".to_string()),
        phone: Some("0221".to_string()),
        email: Some("j@example.org".to_string()),
        status: Some(Status::BeschaeftigteUniKlinikKoeln),
        status_info: Some("0221-478".to_string()),
        signup_always: true,
    }
}

#[test]
fn payload_of_a_full_profile() {
    assert_eq!(
        full().as_payload(),
        vec![
            pair("Geschlecht", "D"),
            pair("Vorname", "Jörg"),
            pair("Name", "Müller"),
            pair("Strasse", "Musterstr. 123"),
            pair("Ort", "50678 Köln"),
            pair("Statusorig", "B-UK"),
            pair("Matnr", "0221-478"),
            pair("Institut", "0221-478"),
            pair("Mail", "j@example.org"),
            pair("Tel", "0221"),
        ]
    );
}

#[test]
fn payload_of_an_empty_profile() {
    let names = [
        "Geschlecht", "Vorname", "Name", "Strasse", "Ort", "Statusorig", "Matnr", "Institut",
        "Mail", "Tel",
    ];
    let expected: Vec<(String, String)> = names.iter().map(|n| pair(n, "")).collect();
    assert_eq!(Participant::new(3).as_payload(), expected);
}

#[test]
fn new_participant_knows_only_the_identity() {
    let p = Participant::new(99);
    assert_eq!(p.id, 99);
    assert_eq!(p.given_name, None);
    assert_eq!(p.status, None);
    assert_eq!(p.gender, None);
    assert!(!p.signup_always);
    assert_eq!(p.duplicate(), p);
    assert_eq!(full().duplicate(), full());
}

#[test]
fn supplementary_field_by_category() {
    let mut p = Participant::new(1);
    assert!(!p.is_student());
    assert!(!p.is_employed_at_cgn_uni_related_thing());
    assert_eq!(p.status_info_name(), None);
    p.status = Some(Status::StudentTHKoeln);
    assert!(p.is_student());
    assert!(!p.is_employed_at_cgn_uni_related_thing());
    assert_eq!(p.status_info_name(), Some("Matrikelnummer".to_string()));
    p.status = Some(Status::BeschaeftigteKoelnerStudierendenwerk);
    assert!(!p.is_student());
    assert!(p.is_employed_at_cgn_uni_related_thing());
    assert_eq!(p.status_info_name(), Some("Dienstliche Telefonnummer".to_string()));
    p.status = Some(Status::Gast);
    assert_eq!(p.status_info_name(), None);
    p.status = Some(Status::AzubiUniKoeln);
    assert_eq!(p.status_info_name(), None);
}

#[test]
fn description_of_a_full_profile() {
    assert_eq!(
        full().describe(),
        "Vorname: Jörg (/edit_given_name)\n\
Nachname: Müller (/edit_last_name)\n\
Geschlecht: Divers (/edit_gender)\n\
Straße: Musterstr. 123 (/edit_street)\n\
Ort: 50678 Köln (/edit_city)\n\
Telefonnummer: 0221 (/edit_phone)\n\
E-Mail-Adresse: j@example.org (/edit_email)\n\
Status: Beschäft. UniKlinik Köln (/edit_status)\n\
Dienstliche Telefonnummer: 0221-478 (/edit_status_info)"
    );
}

#[test]
fn description_of_an_empty_profile() {
    assert_eq!(
        Participant::new(1).describe(),
        "Vorname: <i>leer</i> (/edit_given_name)\n\
Nachname: <i>leer</i> (/edit_last_name)\n\
Geschlecht: <i>leer</i> (/edit_gender)\n\
Straße: <i>leer</i> (/edit_street)\n\
Ort: <i>leer</i> (/edit_city)\n\
Telefonnummer: <i>leer</i> (/edit_phone)\n\
E-Mail-Adresse: <i>leer</i> (/edit_email)\n\
Status: <i>leer</i> (/edit_status)"
    );
}

#[test]
fn description_of_the_supplementary_line() {
    let mut p = Participant::new(1);
    p.status = Some(Status::Gast);
    p.status_info = Some("x".to_string());
    assert!(p.describe().ends_with("Status: Gast (/edit_status)"));
    p.status = Some(Status::StudentUniKoeln);
    assert!(p.describe().ends_with("(/edit_status)\nMatrikelnummer: x (/edit_status_info)"));
    p.status_info = None;
    assert!(p.describe().ends_with("\nMatrikelnummer: <i>leer</i> (/edit_status_info)"));
    p.status = Some(Status::MitgliedKoelnAlumni);
    assert!(p.describe().ends_with("(/edit_status)\n: <i>leer</i> (/edit_status_info)"));
}

#[test]
fn keyboards_have_one_button_per_row() {
    assert_eq!(
        gender_keyboard(),
        vec![vec!["Männlich".to_string()], vec!["Weiblich".to_string()], vec!["Divers".to_string()]]
    );
    assert_eq!(
        signup_keyboard(),
        vec![vec!["Aber sowas von!".to_string()], vec!["Heute leider nicht.".to_string()]]
    );
    let statuses = status_keyboard();
    assert_eq!(statuses.len(), 16);
    assert_eq!(statuses[0], vec!["Stud. Uni Köln".to_string()]);
    assert_eq!(statuses[15], vec!["Gast".to_string()]);
    assert!(statuses.iter().all(|row| row.len() == 1));
    assert_eq!(
        no_answer_keyboard(),
        vec![vec![("Keine Angabe.".to_string(), "no answer".to_string())]]
    );
}

#[test]
fn message_effect_ids() {
    assert_eq!(MessageEffect::Heart.id(), "5159385139981059251");
    assert_eq!(MessageEffect::Celebration.id(), "5046509860389126442");
    assert_eq!(MessageEffect::Fire.id(), "5104841245755180586");
    assert_eq!(MessageEffect::ThumbsUp.id(), "5107584321108051014");
    assert_eq!(MessageEffect::ThumbsDown.id(), "5104858069142078462");
    assert_eq!(MessageEffect::Poop.id(), "5046589136895476101");
}

#[test]
fn mode_by_argument() {
    assert_eq!(select_mode(None), Some(Mode::Bot));
    assert_eq!(select_mode(Some("bot")), Some(Mode::Bot));
    assert_eq!(select_mode(Some("scraper")), Some(Mode::Scraper));
    assert_eq!(select_mode(Some("Scraper")), None);
    assert_eq!(select_mode(Some("")), None);
    assert_eq!(select_mode(Some("--help")), None);
}

#[test]
fn gender_by_code() {
    for gender in Gender::all() {
        assert_eq!(Gender::from_payload(gender.as_payload()), Some(gender));
    }
    assert_eq!(Gender::from_payload("m"), None);
    assert_eq!(Gender::from_payload("Männlich"), None);
    assert_eq!(Gender::from_payload(""), None);
}

#[test]
fn status_by_code() {
    for status in Status::all() {
        assert_eq!(Status::from_payload(status.as_payload()), Some(status));
    }
    assert_eq!(Status::from_payload("S-UNI"), Some(Status::StudentUniKoeln));
    assert_eq!(Status::from_payload("Extern"), Some(Status::Gast));
    assert_eq!(Status::from_payload("s-uni"), None);
    assert_eq!(Status::from_payload("Gast"), None);
    assert_eq!(Status::from_payload(""), None);
}
