//! Which of its two jobs the program does.
use crate::text::same;
use vstd::prelude::*;

verus! {

#[derive(Clone, Copy, Debug, PartialEq, Eq, Structural)]
pub enum Mode {
    /// Talk to the people.
    Bot,
    /// Read the listing and tell the people of today's session.
    Scraper,
}

/// The job that the first argument names: `bot`, which is also the job
/// where there is no argument, or `scraper`. Any other word names none.
pub open spec fn mode_of(argument: Option<Seq<char>>) -> Option<Mode> {
    match argument {
        None => Some(Mode::Bot),
        Some(word) => if word == "bot"@ {
            Some(Mode::Bot)
        } else if word == "scraper"@ {
            Some(Mode::Scraper)
        } else {
            None
        },
    }
}

pub fn select_mode(argument: Option<&str>) -> (r: Option<Mode>)
    ensures
        r == mode_of(
            match argument {
                Some(word) => Some(word@),
                None => None,
            },
        ),
{
    match argument {
        None => Some(Mode::Bot),
        Some(word) => if same(word, "bot") {
            Some(Mode::Bot)
        } else if same(word, "scraper") {
            Some(Mode::Scraper)
        } else {
            None
        },
    }
}

} // verus!
