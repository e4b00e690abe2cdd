//! Telling people of a session: who is asked, who is registered without
//! asking, and what becomes of a person whom no message reaches.
use crate::course::Course;
use crate::effect::{say, Effect};
use crate::error::SignupError;
use crate::keyboards::Keyboard;
use crate::participant::Participant;
use crate::schema::State;
use crate::signup::{Signup, Status};
use crate::text::{contains, occurs};
use crate::text_messages::TextMessage;
use vstd::prelude::*;

verus! {

/// How the sending of a message ended.
#[derive(Clone, Copy, Debug, PartialEq, Eq, Structural)]
pub enum Delivery {
    Delivered,
    /// The person has blocked the bot: no message will reach them again.
    Blocked,
    /// Any other failure; a later attempt may succeed.
    Failed,
}

/// The words by which the chat platform says that the person has blocked
/// the bot.
pub open spec fn blocked_phrase() -> Seq<char> {
    "bot was blocked by the user"@
}

/// How a sending ended, from the words of its error, if it had one.
pub open spec fn delivery_of(error: Option<Seq<char>>) -> Delivery {
    match error {
        None => Delivery::Delivered,
        Some(words) => if occurs(words, blocked_phrase()) {
            Delivery::Blocked
        } else {
            Delivery::Failed
        },
    }
}

/// Tells a permanent failure from a passing one by the words of the error.
pub fn classify_delivery(error: Option<&str>) -> (r: Delivery)
    ensures
        r == delivery_of(
            match error {
                Some(words) => Some(words@),
                None => None,
            },
        ),
{
    match error {
        None => Delivery::Delivered,
        Some(words) => if contains(words, "bot was blocked by the user") {
            Delivery::Blocked
        } else {
            Delivery::Failed
        },
    }
}

/// What became of a person in a run.
#[derive(Clone, Copy, Debug, PartialEq, Eq, Structural)]
pub enum Fate {
    /// Passed over: the conversation expects something from the person.
    Busy,
    /// Passed over: nothing is known of a conversation with the person.
    NoState,
    /// Registered without asking.
    AutoSignedUp,
    /// Registering without asking failed at the provider.
    AutoFailed,
    /// Asked, and recorded as notified.
    Notified,
    /// Has blocked the bot and was removed.
    Removed,
    /// The message did not get through; the person is asked on a later run.
    Undelivered,
    /// A store could not be read or written.
    Broken,
}

/// What a run waits for about the person at hand.
#[derive(Clone, Copy, Debug, PartialEq, Eq, Structural)]
pub enum Phase {
    /// For what the conversation expects.
    Asking,
    /// For the provider's answer.
    Replaying,
    /// For the delivery of the question.
    Sending,
    /// For word that the last effects were carried out; the fate is what
    /// becomes of the person if they were.
    Closing(Fate),
    /// For nothing: everyone was seen to.
    Done,
}

/// What the surrounding program reports back to a run.
#[derive(Debug, PartialEq, Eq)]
pub enum Event {
    /// What the conversation expects, or that none is known.
    Talk(Option<State>),
    /// How the registration at the provider went.
    Replayed(Result<(), SignupError>),
    /// How the sending of the question ended.
    Sent(Delivery),
    /// All effects were carried out.
    Completed,
    /// An effect failed; those after it were left undone.
    Broken,
}

/// One run over the people who have not been told of a session.
#[derive(Debug, PartialEq, Eq)]
pub struct Run {
    pub course: Course,
    pub queue: Vec<Participant>,
    /// The position in the queue of the person at hand.
    pub at: usize,
    pub phase: Phase,
    /// What became of each person before `at`, by identifier.
    pub fates: Vec<(i64, Fate)>,
}

/// A run as plain values.
pub struct RunView {
    pub course: Course,
    pub queue: Seq<Participant>,
    pub at: int,
    pub phase: Phase,
    pub fates: Seq<(i64, Fate)>,
}

impl View for Run {
    type V = RunView;

    open spec fn view(&self) -> RunView {
        RunView {
            course: self.course,
            queue: self.queue@,
            at: self.at as int,
            phase: self.phase,
            fates: self.fates@,
        }
    }
}

/// The pause after a delivered question, in milliseconds.
pub open spec fn pace() -> u64 {
    200
}

impl RunView {
    /// The run is in order: it stands at a person of the queue, or is done
    /// and stands behind the last; the fate of everyone before is known.
    pub open spec fn wf(self) -> bool {
        &&& 0 <= self.at <= self.queue.len()
        &&& self.fates.len() == self.at
        &&& (self.phase == Phase::Done <==> self.at == self.queue.len())
        &&& forall|k: int| 0 <= k < self.at ==> (#[trigger] self.fates[k]).0 == self.queue[k].id
    }

    /// The person at hand.
    pub open spec fn person(self) -> Participant {
        self.queue[self.at]
    }

    pub open spec fn record(self, status: Status) -> Effect {
        Effect::Record(
            Signup { participant_id: self.person().id, course_id: self.course.id, status },
        )
    }

    /// The person at hand is done with: their fate is noted and the run
    /// turns to the next person, asking what their conversation expects, or
    /// is done.
    pub open spec fn settle(self, fate: Fate) -> (RunView, Seq<Effect>) {
        let fates = self.fates.push((self.person().id, fate));
        if self.at + 1 < self.queue.len() {
            (
                RunView { at: self.at + 1, phase: Phase::Asking, fates, ..self },
                seq![Effect::ReadState(self.queue[self.at + 1].id)],
            )
        } else {
            (RunView { at: self.at + 1, phase: Phase::Done, fates, ..self }, Seq::empty())
        }
    }

    /// The run after an event, and the effects to carry out.
    ///
    /// First, only a person from whom nothing is expected goes on: one
    /// in the middle of something is not interrupted, and one without a
    /// known conversation is passed over. Who goes on is registered without
    /// asking if they wish so, after a record that they were notified; else
    /// they are asked.
    ///
    /// A delivered question is recorded, and only then is the conversation
    /// set to expect the answer; a pause follows. A person who has blocked
    /// the bot is removed, and the conversation with them forgotten. Any
    /// other failure leaves everything as it was.
    ///
    /// An event that the phase does not wait for counts as `Broken`.
    pub open spec fn next(self, event: Event) -> (RunView, Seq<Effect>) {
        let to = self.person().id;
        match self.phase {
            Phase::Done => (self, Seq::empty()),
            Phase::Asking => match event {
                Event::Talk(Some(state)) => if !state.idle() {
                    self.settle(Fate::Busy)
                } else if self.person().signup_always {
                    (
                        RunView { phase: Phase::Replaying, ..self },
                        seq![
                            self.record(Status::Notified),
                            Effect::Replay { participant: to, course: self.course.id },
                        ],
                    )
                } else {
                    (
                        RunView { phase: Phase::Sending, ..self },
                        seq![say(to, TextMessage::SignupResponse(self.course), Keyboard::Signup)],
                    )
                },
                Event::Talk(None) => self.settle(Fate::NoState),
                _ => self.settle(Fate::Broken),
            },
            Phase::Replaying => match event {
                Event::Replayed(Ok(_)) => (
                    RunView { phase: Phase::Closing(Fate::AutoSignedUp), ..self },
                    seq![self.record(Status::SignedUp)],
                ),
                Event::Replayed(Err(_)) => self.settle(Fate::AutoFailed),
                _ => self.settle(Fate::Broken),
            },
            Phase::Sending => match event {
                Event::Sent(Delivery::Delivered) => (
                    RunView { phase: Phase::Closing(Fate::Notified), ..self },
                    seq![
                        self.record(Status::Notified),
                        Effect::Expect {
                            chat: to,
                            state: State::ReceiveSignupResponse(self.course.id),
                        },
                        Effect::Pause(pace()),
                    ],
                ),
                Event::Sent(Delivery::Blocked) => (
                    RunView { phase: Phase::Closing(Fate::Removed), ..self },
                    seq![Effect::Delete(to), Effect::Forget(to)],
                ),
                Event::Sent(Delivery::Failed) => self.settle(Fate::Undelivered),
                _ => self.settle(Fate::Broken),
            },
            Phase::Closing(fate) => match event {
                Event::Completed => self.settle(fate),
                _ => self.settle(Fate::Broken),
            },
        }
    }

    /// A run at its beginning.
    pub open spec fn begin(course: Course, queue: Seq<Participant>) -> (RunView, Seq<Effect>) {
        if queue.len() == 0 {
            (RunView { course, queue, at: 0, phase: Phase::Done, fates: Seq::empty() }, Seq::empty())
        } else {
            (
                RunView { course, queue, at: 0, phase: Phase::Asking, fates: Seq::empty() },
                seq![Effect::ReadState(queue[0].id)],
            )
        }
    }
}

/// How many steps a phase is away from being done with its person, at
/// most.
pub open spec fn steps_left(phase: Phase) -> int {
    match phase {
        Phase::Asking => 3,
        Phase::Replaying => 2,
        Phase::Sending => 2,
        Phase::Closing(_) => 1,
        Phase::Done => 0,
    }
}

impl RunView {
    /// A bound on the steps that the run still takes: three for each person
    /// not yet at hand, and those of the person at hand.
    pub open spec fn distance(self) -> int {
        if self.phase == Phase::Done {
            0
        } else {
            3 * (self.queue.len() - self.at - 1) + steps_left(self.phase)
        }
    }
}

/// Every step brings a run nearer to its end, whatever it is told: it takes
/// at most three steps for each person, one after the other, and through
/// all of them the queue and the session stay what they were.
pub proof fn lemma_step_makes_progress(run: RunView, event: Event)
    requires
        run.wf(),
        run.phase != Phase::Done,
    ensures
        run.next(event).0.wf(),
        0 <= run.next(event).0.distance() < run.distance(),
        run.next(event).0.queue == run.queue,
        run.next(event).0.course == run.course,
        run.distance() <= 3 * run.queue.len(),
{
}

impl Run {
    /// Begins a run for a session over the people who have no record for
    /// it, in the order given.
    pub fn start(course: Course, queue: Vec<Participant>) -> (r: (Run, Vec<Effect>))
        ensures
            (r.0@, r.1@) == RunView::begin(course, queue@),
            r.0@.wf(),
    {
        if queue.len() == 0 {
            (Run { course, queue, at: 0, phase: Phase::Done, fates: Vec::new() }, Vec::new())
        } else {
            let first = queue[0].id;
            let effects = vec![Effect::ReadState(first)];
            assert(effects@ =~= seq![Effect::ReadState(first)]);
            (Run { course, queue, at: 0, phase: Phase::Asking, fates: Vec::new() }, effects)
        }
    }

    /// Whether everyone was seen to.
    pub fn is_done(&self) -> (r: bool)
        ensures
            r == (self.phase == Phase::Done),
    {
        match self.phase {
            Phase::Done => true,
            _ => false,
        }
    }

    fn settle(&mut self, fate: Fate) -> (effects: Vec<Effect>)
        requires
            old(self)@.wf(),
            old(self).phase != Phase::Done,
        ensures
            (final(self)@, effects@) == old(self)@.settle(fate),
            final(self)@.wf(),
    {
        assert(self.at < self.queue.len());
        let id = self.queue[self.at].id;
        self.fates.push((id, fate));
        assert(self.at < self.queue.len());
        self.at = self.at + 1;
        if self.at < self.queue.len() {
            self.phase = Phase::Asking;
            let next = self.queue[self.at].id;
            let effects = vec![Effect::ReadState(next)];
            assert(effects@ =~= seq![Effect::ReadState(next)]);
            effects
        } else {
            self.phase = Phase::Done;
            Vec::new()
        }
    }

    fn record(&self, status: Status) -> (r: Effect)
        requires
            self@.wf(),
            self.phase != Phase::Done,
        ensures
            r == self@.record(status),
    {
        Effect::Record(
            Signup { participant_id: self.queue[self.at].id, course_id: self.course.id, status },
        )
    }

    /// Takes an event and says what to do next.
    pub fn step(&mut self, event: Event) -> (effects: Vec<Effect>)
        requires
            old(self)@.wf(),
        ensures
            (final(self)@, effects@) == old(self)@.next(event),
            final(self)@.wf(),
    {
        match self.phase {
            Phase::Done => Vec::new(),
            Phase::Asking => match event {
                Event::Talk(Some(state)) => {
                    if !state.is_idle() {
                        self.settle(Fate::Busy)
                    } else if self.queue[self.at].signup_always {
                        let to = self.queue[self.at].id;
                        let effects = vec![
                            self.record(Status::Notified),
                            Effect::Replay { participant: to, course: self.course.id },
                        ];
                        self.phase = Phase::Replaying;
                        assert(effects@ =~= old(self)@.next(event).1);
                        effects
                    } else {
                        let to = self.queue[self.at].id;
                        let effects = vec![
                            Effect::Send {
                                to,
                                text: TextMessage::SignupResponse(self.course.duplicate()),
                                keyboard: Keyboard::Signup,
                            },
                        ];
                        self.phase = Phase::Sending;
                        assert(effects@ =~= old(self)@.next(event).1);
                        effects
                    }
                },
                Event::Talk(None) => self.settle(Fate::NoState),
                _ => self.settle(Fate::Broken),
            },
            Phase::Replaying => match event {
                Event::Replayed(Ok(_)) => {
                    let effects = vec![self.record(Status::SignedUp)];
                    self.phase = Phase::Closing(Fate::AutoSignedUp);
                    assert(effects@ =~= old(self)@.next(event).1);
                    effects
                },
                Event::Replayed(Err(_)) => self.settle(Fate::AutoFailed),
                _ => self.settle(Fate::Broken),
            },
            Phase::Sending => match event {
                Event::Sent(Delivery::Delivered) => {
                    let to = self.queue[self.at].id;
                    let effects = vec![
                        self.record(Status::Notified),
                        Effect::Expect { chat: to, state: State::ReceiveSignupResponse(self.course.id) },
                        Effect::Pause(200),
                    ];
                    self.phase = Phase::Closing(Fate::Notified);
                    assert(effects@ =~= old(self)@.next(event).1);
                    effects
                },
                Event::Sent(Delivery::Blocked) => {
                    let to = self.queue[self.at].id;
                    let effects = vec![Effect::Delete(to), Effect::Forget(to)];
                    self.phase = Phase::Closing(Fate::Removed);
                    assert(effects@ =~= old(self)@.next(event).1);
                    effects
                },
                Event::Sent(Delivery::Failed) => self.settle(Fate::Undelivered),
                _ => self.settle(Fate::Broken),
            },
            Phase::Closing(fate) => match event {
                Event::Completed => self.settle(fate),
                _ => self.settle(Fate::Broken),
            },
        }
    }
}

} // verus!
