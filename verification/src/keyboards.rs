//! The keyboards offered with a message, as rows of button labels.
use crate::gender::Gender;
use crate::signup::Request;
use crate::status::Status;
use vstd::prelude::*;
use vstd::string::*;

verus! {

/// Which keyboard goes with a message.
#[derive(Clone, Copy, Debug, PartialEq, Eq, Structural)]
pub enum Keyboard {
    /// Whatever keyboard the person sees stays.
    Keep,
    /// The reply keyboard is taken away.
    Remove,
    /// One button per gender.
    Gender,
    /// One button per category.
    Status,
    /// Yes and no to a registration.
    Signup,
    /// The inline button that skips the mail address.
    NoAnswer,
}

/// Labels as plain text.
pub open spec fn labels(rows: Seq<Vec<String>>) -> Seq<Seq<Seq<char>>> {
    Seq::new(rows.len(), |i: int| Seq::new(rows[i]@.len(), |j: int| rows[i]@[j]@))
}

/// One row per gender, with its label.
pub open spec fn gender_rows() -> Seq<Seq<Seq<char>>> {
    Seq::new(Gender::every().len(), |i: int| seq![Gender::every()[i].pretty_text()])
}

/// One row per category, with its label.
pub open spec fn status_rows() -> Seq<Seq<Seq<char>>> {
    Seq::new(Status::every().len(), |i: int| seq![Status::every()[i].pretty_text()])
}

/// One row per answer, with its label.
pub open spec fn signup_rows() -> Seq<Seq<Seq<char>>> {
    Seq::new(Request::every().len(), |i: int| seq![Request::every()[i].pretty_text()])
}

fn single(label: &str) -> (r: Vec<String>)
    ensures
        r@.len() == 1,
        r@[0]@ == label@,
{
    vec![label.to_string()]
}

/// The reply keyboard of the genders; it is resized and shown once.
pub fn gender_keyboard() -> (r: Vec<Vec<String>>)
    ensures
        labels(r@) == gender_rows(),
{
    let all = Gender::all();
    let mut rows: Vec<Vec<String>> = Vec::new();
    let mut i: usize = 0;
    while i < all.len()
        invariant
            i <= all.len(),
            all@ == Gender::every(),
            rows@.len() == i,
            forall|k: int| 0 <= k < i ==> (#[trigger] rows@[k])@.len() == 1 && rows@[k]@[0]@ == all@[k].pretty_text(),
        decreases all.len() - i,
    {
        rows.push(single(all[i].pretty()));
        i += 1;
    }
    assert(labels(rows@) =~~= gender_rows());
    rows
}

/// The reply keyboard of the categories; it is shown once.
pub fn status_keyboard() -> (r: Vec<Vec<String>>)
    ensures
        labels(r@) == status_rows(),
{
    let all = Status::all();
    let mut rows: Vec<Vec<String>> = Vec::new();
    let mut i: usize = 0;
    while i < all.len()
        invariant
            i <= all.len(),
            all@ == Status::every(),
            rows@.len() == i,
            forall|k: int| 0 <= k < i ==> (#[trigger] rows@[k])@.len() == 1 && rows@[k]@[0]@ == all@[k].pretty_text(),
        decreases all.len() - i,
    {
        rows.push(single(all[i].pretty()));
        i += 1;
    }
    assert(labels(rows@) =~~= status_rows());
    rows
}

/// The reply keyboard with yes and no; it is resized and shown once.
pub fn signup_keyboard() -> (r: Vec<Vec<String>>)
    ensures
        labels(r@) == signup_rows(),
{
    let all = Request::all();
    let mut rows: Vec<Vec<String>> = Vec::new();
    let mut i: usize = 0;
    while i < all.len()
        invariant
            i <= all.len(),
            all@ == Request::every(),
            rows@.len() == i,
            forall|k: int| 0 <= k < i ==> (#[trigger] rows@[k])@.len() == 1 && rows@[k]@[0]@ == all@[k].pretty_text(),
        decreases all.len() - i,
    {
        rows.push(single(all[i].pretty()));
        i += 1;
    }
    assert(labels(rows@) =~~= signup_rows());
    rows
}

/// The label of the inline button that skips the mail address.
pub open spec fn no_answer_label() -> Seq<char> {
    "Keine Angabe."@
}

/// What pressing that button sends back.
pub open spec fn no_answer_data() -> Seq<char> {
    "no answer"@
}

/// The inline keyboard that skips the mail address: rows of buttons, each
/// a label and the data that a press sends back.
pub fn no_answer_keyboard() -> (r: Vec<Vec<(String, String)>>)
    ensures
        r@.len() == 1,
        r@[0]@.len() == 1,
        r@[0]@[0].0@ == no_answer_label(),
        r@[0]@[0].1@ == no_answer_data(),
{
    vec![vec![("Keine Angabe.".to_string(), "no answer".to_string())]]
}

} // verus!
