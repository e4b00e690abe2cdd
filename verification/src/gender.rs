//! The gender that a person states, and how the provider's form spells it.
use crate::text::same;
use vstd::prelude::*;

verus! {

#[derive(Clone, Copy, Debug, PartialEq, Eq, Structural)]
pub enum Gender {
    Male,
    Female,
    Diverse,
}

impl Gender {
    /// The code that the provider's form expects.
    pub open spec fn payload(self) -> Seq<char> {
        match self {
            Gender::Male => "M"@,
            Gender::Female => "W"@,
            Gender::Diverse => "D"@,
        }
    }

    /// The label shown to a person.
    pub open spec fn pretty_text(self) -> Seq<char> {
        match self {
            Gender::Male => "Männlich"@,
            Gender::Female => "Weiblich"@,
            Gender::Diverse => "Divers"@,
        }
    }

    /// The first gender, in declaration order, whose label is `text`.
    pub open spec fn labelled(text: Seq<char>) -> Option<Gender> {
        if text == Gender::Male.pretty_text() {
            Some(Gender::Male)
        } else if text == Gender::Female.pretty_text() {
            Some(Gender::Female)
        } else if text == Gender::Diverse.pretty_text() {
            Some(Gender::Diverse)
        } else {
            None
        }
    }

    /// The first gender, in declaration order, whose code is `text`.
    pub open spec fn coded(text: Seq<char>) -> Option<Gender> {
        if text == Gender::Male.payload() {
            Some(Gender::Male)
        } else if text == Gender::Female.payload() {
            Some(Gender::Female)
        } else if text == Gender::Diverse.payload() {
            Some(Gender::Diverse)
        } else {
            None
        }
    }

    /// All genders, in declaration order.
    pub open spec fn every() -> Seq<Gender> {
        seq![Gender::Male, Gender::Female, Gender::Diverse]
    }

    pub fn as_payload(&self) -> (r: &'static str)
        ensures
            r@ == self.payload(),
    {
        match self {
            Gender::Male => "M",
            Gender::Female => "W",
            Gender::Diverse => "D",
        }
    }

    pub fn pretty(&self) -> (r: &'static str)
        ensures
            r@ == self.pretty_text(),
    {
        match self {
            Gender::Male => "Männlich",
            Gender::Female => "Weiblich",
            Gender::Diverse => "Divers",
        }
    }

    pub fn all() -> (r: Vec<Gender>)
        ensures
            r@ == Gender::every(),
    {
        let r = vec![Gender::Male, Gender::Female, Gender::Diverse];
        assert(r@ =~= Gender::every());
        r
    }

    /// The gender that a code of the provider stands for.
    pub fn from_payload(text: &str) -> (r: Option<Gender>)
        ensures
            r == Gender::coded(text@),
    {
        if same(text, Gender::Male.as_payload()) {
            Some(Gender::Male)
        } else if same(text, Gender::Female.as_payload()) {
            Some(Gender::Female)
        } else if same(text, Gender::Diverse.as_payload()) {
            Some(Gender::Diverse)
        } else {
            None
        }
    }

    /// The gender that a person picked by its label.
    pub fn from_pretty(text: &str) -> (r: Option<Gender>)
        ensures
            r == Gender::labelled(text@),
    {
        if same(text, Gender::Male.pretty()) {
            Some(Gender::Male)
        } else if same(text, Gender::Female.pretty()) {
            Some(Gender::Female)
        } else if same(text, Gender::Diverse.pretty()) {
            Some(Gender::Diverse)
        } else {
            None
        }
    }
}

/// Every gender is found again by its code.
pub proof fn lemma_gender_codes_tell_apart(gender: Gender)
    ensures
        Gender::coded(gender.payload()) == Some(gender),
{
    reveal_strlit("M");
    reveal_strlit("W");
    reveal_strlit("D");
    assert("M"@[0] != "W"@[0] && "M"@[0] != "D"@[0] && "W"@[0] != "D"@[0]);
}

/// Every gender is found again by its label.
pub proof fn lemma_gender_labels_tell_apart(gender: Gender)
    ensures
        Gender::labelled(gender.pretty_text()) == Some(gender),
{
    reveal_strlit("Männlich");
    reveal_strlit("Weiblich");
    reveal_strlit("Divers");
    assert("Männlich"@[0] != "Weiblich"@[0]);
}

} // verus!
