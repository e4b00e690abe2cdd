//! What a handler or the scheduler asks the surrounding program to do.
use crate::keyboards::Keyboard;
use crate::participant::Participant;
use crate::schema::State;
use crate::signup::Signup;
use crate::text_messages::TextMessage;
use vstd::prelude::*;

verus! {

/// One thing to do. A list of effects is carried out front to back; where
/// one fails, those after it are left undone.
#[derive(Debug, PartialEq, Eq)]
pub enum Effect {
    /// Acknowledge the press of an inline button.
    AnswerCallback,
    /// Take the inline keyboard off a message.
    ClearMarkup { chat: i64, message: i32 },
    /// Store a new person.
    Create(Participant),
    /// Store the fields of a known person.
    Save(Participant),
    /// Remove a person, and with them their registration records.
    Delete(i64),
    /// Write a registration record: a new one where the pair has none, else
    /// the status of the one it has.
    Record(Signup),
    /// Send a message.
    Send { to: i64, text: TextMessage, keyboard: Keyboard },
    /// Set what the conversation expects next.
    Expect { chat: i64, state: State },
    /// Expect the mail address, remembering the message sent just before.
    ExpectEmail { chat: i64, guided: bool },
    /// Expect nothing from now on.
    Reset(i64),
    /// Drop what is known of a conversation.
    Forget(i64),
    /// Register a person for a session at the provider and report how it
    /// went.
    Replay { participant: i64, course: i64 },
    /// Read what a conversation expects and report it.
    ReadState(i64),
    /// Wait for so many milliseconds.
    Pause(u64),
}

impl Effect {
    /// The person that the effect reaches out to or writes about.
    pub open spec fn concerns(self) -> Option<i64> {
        match self {
            Effect::AnswerCallback => None,
            Effect::ClearMarkup { chat, .. } => Some(chat),
            Effect::Create(person) => Some(person.id),
            Effect::Save(person) => Some(person.id),
            Effect::Delete(id) => Some(id),
            Effect::Record(signup) => Some(signup.participant_id),
            Effect::Send { to, .. } => Some(to),
            Effect::Expect { chat, .. } => Some(chat),
            Effect::ExpectEmail { chat, .. } => Some(chat),
            Effect::Reset(chat) => Some(chat),
            Effect::Forget(chat) => Some(chat),
            Effect::Replay { participant, .. } => Some(participant),
            Effect::ReadState(chat) => Some(chat),
            Effect::Pause(_) => None,
        }
    }
}

/// A message with a keyboard.
pub open spec fn say(to: i64, text: TextMessage, keyboard: Keyboard) -> Effect {
    Effect::Send { to, text, keyboard }
}

} // verus!
