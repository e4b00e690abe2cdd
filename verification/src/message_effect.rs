use vstd::prelude::*;

verus! {

/// An animated effect that the chat platform can attach to a message.
#[derive(Clone, Copy, Debug, PartialEq, Eq, Structural)]
pub enum MessageEffect {
    Heart,
    Celebration,
    Fire,
    ThumbsUp,
    ThumbsDown,
    Poop,
}

impl MessageEffect {
    /// The platform's identifier of the effect, as decimal text.
    pub open spec fn id_text(self) -> Seq<char> {
        match self {
            MessageEffect::Heart => "5159385139981059251"@,
            MessageEffect::Celebration => "5046509860389126442"@,
            MessageEffect::Fire => "5104841245755180586"@,
            MessageEffect::ThumbsUp => "5107584321108051014"@,
            MessageEffect::ThumbsDown => "5104858069142078462"@,
            MessageEffect::Poop => "5046589136895476101"@,
        }
    }

    pub fn id(&self) -> (r: &'static str)
        ensures
            r@ == self.id_text(),
    {
        match self {
            MessageEffect::Heart => "5159385139981059251",
            MessageEffect::Celebration => "5046509860389126442",
            MessageEffect::Fire => "5104841245755180586",
            MessageEffect::ThumbsUp => "5107584321108051014",
            MessageEffect::ThumbsDown => "5104858069142078462",
            MessageEffect::Poop => "5046589136895476101",
        }
    }
}

} // verus!
