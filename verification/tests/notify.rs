use std::collections::{HashMap, HashSet};
use unisport_bot::course::Course;
use unisport_bot::effect::Effect;
use unisport_bot::error::SignupError;
use unisport_bot::handlers::{receive_signup_response, receive_signup_result};
use unisport_bot::keyboards::Keyboard;
use unisport_bot::participant::Participant;
use unisport_bot::scheduler::{classify_delivery, Delivery, Event, Fate, Phase, Run};
use unisport_bot::schema::State;
use unisport_bot::signup::{Signup, Status};
use unisport_bot::text_messages::TextMessage;

fn course(id: i64) -> Course {
    Course {
        id,
        start_time: 1729785600,
        end_time: 1729791000,
        level: "Anfänger".to_string(),
        location: "Jahnwiese".to_string(),
        trainer: "Kim".to_string(),
    }
}

fn person(id: i64) -> Participant {
    Participant::new(id)
}

fn eager(id: i64) -> Participant {
    let mut p = Participant::new(id);
    p.signup_always = true;
    p
}

/// The stores and the outside world of a test.
struct Stores {
    people: Vec<Participant>,
    rows: Vec<Signup>,
    talks: HashMap<i64, State>,
    blocked: HashSet<i64>,
    unreachable: HashSet<i64>,
    provider: HashMap<i64, Result<(), SignupError>>,
    sent: Vec<i64>,
    paused: u64,
    awaited_without_notified_record: bool,
}

impl Stores {
    fn new(people: Vec<Participant>) -> Stores {
        let talks = people.iter().map(|p| (p.id, State::Default)).collect();
        Stores {
            people,
            rows: Vec::new(),
            talks,
            blocked: HashSet::new(),
            unreachable: HashSet::new(),
            provider: HashMap::new(),
            sent: Vec::new(),
            paused: 0,
            awaited_without_notified_record: false,
        }
    }

    fn uninformed(&self, course: i64) -> Vec<Participant> {
        self.people
            .iter()
            .filter(|p| !self.rows.iter().any(|r| r.participant_id == p.id && r.course_id == course))
            .map(|p| p.duplicate())
            .collect()
    }

    fn rows_of(&self, person: i64) -> Vec<Signup> {
        self.rows.iter().filter(|r| r.participant_id == person).copied().collect()
    }

    /// Carries out the effects and says what is to be reported back.
    fn carry_out(&mut self, effects: Vec<Effect>) -> Event {
        let mut report = Event::Completed;
        for effect in effects {
            match effect {
                Effect::ReadState(chat) => report = Event::Talk(self.talks.get(&chat).copied()),
                Effect::Send { to, .. } => {
                    self.sent.push(to);
                    let error = if self.blocked.contains(&to) {
                        Some("Forbidden: bot was blocked by the user")
                    } else if self.unreachable.contains(&to) {
                        Some("A network error: timed out")
                    } else {
                        None
                    };
                    report = Event::Sent(classify_delivery(error));
                }
                Effect::Replay { participant, .. } => {
                    let result = match self.provider.get(&participant) {
                        Some(Ok(())) | None => Ok(()),
                        Some(Err(e)) => Err(e.duplicate()),
                    };
                    report = Event::Replayed(result);
                }
                Effect::Record(signup) => {
                    match self.rows.iter_mut().find(|r| {
                        r.participant_id == signup.participant_id && r.course_id == signup.course_id
                    }) {
                        Some(row) => row.status = signup.status,
                        None => self.rows.push(signup),
                    }
                }
                Effect::Expect { chat, state } => {
                    if let State::ReceiveSignupResponse(course) = state {
                        let notified =
                            Signup { participant_id: chat, course_id: course, status: Status::Notified };
                        if !self.rows.contains(&notified) {
                            self.awaited_without_notified_record = true;
                        }
                    }
                    self.talks.insert(chat, state);
                }
                Effect::Reset(chat) => {
                    self.talks.insert(chat, State::Default);
                }
                Effect::Forget(chat) => {
                    self.talks.remove(&chat);
                }
                Effect::Delete(person) => {
                    self.people.retain(|p| p.id != person);
                    self.rows.retain(|r| r.participant_id != person);
                }
                Effect::Pause(ms) => self.paused += ms,
                _ => {}
            }
        }
        report
    }

    fn run(&mut self, course: Course) -> Vec<(i64, Fate)> {
        let queue = self.uninformed(course.id);
        let (mut run, mut effects) = Run::start(course, queue);
        let mut steps = 0;
        while !run.is_done() {
            let event = self.carry_out(effects);
            effects = run.step(event);
            steps += 1;
            assert!(steps < 1000);
        }
        assert!(effects.is_empty());
        assert_eq!(run.phase, Phase::Done);
        assert_eq!(run.at, run.queue.len());
        run.fates
    }
}

#[test]
fn delivery_is_told_by_the_words_of_the_error() {
    assert_eq!(classify_delivery(None), Delivery::Delivered);
    assert_eq!(
        classify_delivery(Some("A Telegram's error: Forbidden: bot was blocked by the user")),
        Delivery::Blocked
    );
    assert_eq!(classify_delivery(Some("bot was blocked by the user")), Delivery::Blocked);
    assert_eq!(classify_delivery(Some("Bot was blocked by the user")), Delivery::Failed);
    assert_eq!(classify_delivery(Some("A network error: timed out")), Delivery::Failed);
    assert_eq!(classify_delivery(Some("")), Delivery::Failed);
}

#[test]
fn a_run_over_nobody_is_done_at_once() {
    let (run, effects) = Run::start(course(42), Vec::new());
    assert!(run.is_done());
    assert!(effects.is_empty());
    assert!(run.fates.is_empty());
}

#[test]
fn a_run_first_asks_what_the_conversation_expects() {
    let (run, effects) = Run::start(course(42), vec![person(7), person(8)]);
    assert_eq!(run.phase, Phase::Asking);
    assert_eq!(effects, vec![Effect::ReadState(7)]);
}

#[test]
fn an_idle_person_is_asked_and_recorded_then_awaited() {
    let (mut run, _) = Run::start(course(42), vec![person(7)]);
    assert_eq!(
        run.step(Event::Talk(Some(State::Default))),
        vec![Effect::Send {
            to: 7,
            text: TextMessage::SignupResponse(course(42)),
            keyboard: Keyboard::Signup
        }]
    );
    assert_eq!(run.phase, Phase::Sending);
    assert_eq!(
        run.step(Event::Sent(Delivery::Delivered)),
        vec![
            Effect::Record(Signup { participant_id: 7, course_id: 42, status: Status::Notified }),
            Effect::Expect { chat: 7, state: State::ReceiveSignupResponse(42) },
            Effect::Pause(200),
        ]
    );
    assert_eq!(run.phase, Phase::Closing(Fate::Notified));
    assert!(run.step(Event::Completed).is_empty());
    assert!(run.is_done());
    assert_eq!(run.fates, vec![(7, Fate::Notified)]);
}

#[test]
fn busy_and_unknown_people_are_passed_over() {
    let busy = [
        State::ReceiveGivenName(true),
        State::ReceiveEmail(false, Some(1)),
        State::ReceiveSignupResponse(41),
        State::ReceiveDeleteConfirmation,
    ];
    for state in busy {
        let (mut run, _) = Run::start(course(42), vec![person(7), person(8)]);
        assert_eq!(run.step(Event::Talk(Some(state))), vec![Effect::ReadState(8)]);
        assert_eq!(run.fates, vec![(7, Fate::Busy)]);
        assert_eq!(run.phase, Phase::Asking);
        assert_eq!(run.at, 1);
    }
    let (mut run, _) = Run::start(course(42), vec![eager(7), person(8)]);
    assert_eq!(run.step(Event::Talk(None)), vec![Effect::ReadState(8)]);
    assert_eq!(run.fates, vec![(7, Fate::NoState)]);
}

#[test]
fn an_eager_person_is_registered_without_asking() {
    let (mut run, _) = Run::start(course(42), vec![eager(7), person(8)]);
    assert_eq!(
        run.step(Event::Talk(Some(State::Default))),
        vec![
            Effect::Record(Signup { participant_id: 7, course_id: 42, status: Status::Notified }),
            Effect::Replay { participant: 7, course: 42 },
        ]
    );
    assert_eq!(run.phase, Phase::Replaying);
    assert_eq!(
        run.step(Event::Replayed(Ok(()))),
        vec![Effect::Record(Signup { participant_id: 7, course_id: 42, status: Status::SignedUp })]
    );
    assert_eq!(run.step(Event::Completed), vec![Effect::ReadState(8)]);
    assert_eq!(run.fates, vec![(7, Fate::AutoSignedUp)]);
}

#[test]
fn a_failed_registration_without_asking_leaves_the_record_notified() {
    let mut stores = Stores::new(vec![eager(7), person(8)]);
    stores.provider.insert(7, Err(SignupError::NoTicket));
    let fates = stores.run(course(42));
    assert_eq!(fates, vec![(7, Fate::AutoFailed), (8, Fate::Notified)]);
    assert_eq!(
        stores.rows,
        vec![
            Signup { participant_id: 7, course_id: 42, status: Status::Notified },
            Signup { participant_id: 8, course_id: 42, status: Status::Notified },
        ]
    );
    assert_eq!(stores.sent, vec![8]);
    assert_eq!(stores.talks[&7], State::Default);
}

#[test]
fn a_passing_failure_leaves_everything_as_it_was() {
    let mut stores = Stores::new(vec![person(7), person(8)]);
    stores.unreachable.insert(7);
    let fates = stores.run(course(42));
    assert_eq!(fates, vec![(7, Fate::Undelivered), (8, Fate::Notified)]);
    assert!(stores.rows_of(7).is_empty());
    assert_eq!(stores.talks[&7], State::Default);
    assert_eq!(stores.people.len(), 2);
    assert_eq!(stores.paused, 200);
    stores.unreachable.clear();
    assert_eq!(stores.run(course(42)), vec![(7, Fate::Notified)]);
}

#[test]
fn unexpected_events_count_as_broken() {
    let (mut run, _) = Run::start(course(42), vec![person(7), person(8), person(9)]);
    assert_eq!(run.step(Event::Completed), vec![Effect::ReadState(8)]);
    run.step(Event::Talk(Some(State::Default)));
    assert_eq!(run.step(Event::Broken), vec![Effect::ReadState(9)]);
    run.step(Event::Talk(Some(State::Default)));
    run.step(Event::Sent(Delivery::Delivered));
    assert!(run.step(Event::Broken).is_empty());
    assert_eq!(run.fates, vec![(7, Fate::Broken), (8, Fate::Broken), (9, Fate::Broken)]);
    assert!(run.is_done());
    assert!(run.step(Event::Completed).is_empty());
    assert_eq!(run.fates.len(), 3);
}

#[test]
fn people_with_a_record_are_never_asked_again() {
    let mut stores = Stores::new(vec![person(1), person(2), person(3)]);
    stores.rows.push(Signup { participant_id: 2, course_id: 42, status: Status::Rejected });
    stores.rows.push(Signup { participant_id: 2, course_id: 41, status: Status::SignedUp });
    let fates = stores.run(course(42));
    assert_eq!(fates, vec![(1, Fate::Notified), (3, Fate::Notified)]);
    assert_eq!(stores.sent, vec![1, 3]);
    assert_eq!(
        stores.rows_of(2),
        vec![
            Signup { participant_id: 2, course_id: 42, status: Status::Rejected },
            Signup { participant_id: 2, course_id: 41, status: Status::SignedUp },
        ]
    );
    for p in [1, 3] {
        stores.talks.insert(p, State::Default);
    }
    assert!(stores.run(course(42)).is_empty());
    assert_eq!(stores.sent, vec![1, 3]);
    assert_eq!(stores.rows.len(), 4);
}

#[test]
fn awaiting_is_set_only_after_the_notified_record() {
    let mut stores = Stores::new((1..=5).map(person).collect());
    stores.blocked.insert(2);
    stores.unreachable.insert(4);
    stores.run(course(42));
    assert!(!stores.awaited_without_notified_record);
    for (chat, state) in &stores.talks {
        if let State::ReceiveSignupResponse(c) = state {
            assert!(stores.rows.contains(&Signup {
                participant_id: *chat,
                course_id: *c,
                status: Status::Notified
            }));
        }
    }
    assert_eq!(stores.talks[&1], State::ReceiveSignupResponse(42));
    assert_eq!(stores.talks[&4], State::Default);
}

#[test]
fn a_person_who_blocked_the_bot_is_purged() {
    let mut stores = Stores::new(vec![person(1), person(7), person(9)]);
    stores.rows.push(Signup { participant_id: 7, course_id: 40, status: Status::SignedUp });
    stores.rows.push(Signup { participant_id: 7, course_id: 41, status: Status::Rejected });
    stores.blocked.insert(7);
    let fates = stores.run(course(42));
    assert_eq!(fates, vec![(1, Fate::Notified), (7, Fate::Removed), (9, Fate::Notified)]);
    assert!(stores.people.iter().all(|p| p.id != 7));
    assert!(stores.rows_of(7).is_empty());
    assert!(!stores.talks.contains_key(&7));
    assert_eq!(stores.sent.iter().filter(|to| **to == 7).count(), 1);
    assert_eq!(stores.sent, vec![1, 7, 9]);
    assert_eq!(stores.paused, 400);
}

#[test]
fn scenario_notify_accept_sign_up() {
    let mut stores = Stores::new(vec![person(7)]);
    let fates = stores.run(course(42));
    assert_eq!(fates, vec![(7, Fate::Notified)]);
    assert_eq!(stores.sent, vec![7]);
    assert_eq!(
        stores.rows,
        vec![Signup { participant_id: 7, course_id: 42, status: Status::Notified }]
    );
    assert_eq!(stores.talks[&7], State::ReceiveSignupResponse(42));

    let effects =
        receive_signup_response(&person(7), stores.talks[&7], Some("Aber sowas von!".to_string()));
    let report = stores.carry_out(effects);
    assert_eq!(report, Event::Replayed(Ok(())));
    assert_eq!(stores.talks[&7], State::ReceiveSignupResponse(42));
    let effects = receive_signup_result(7, 42, Ok(()));
    stores.carry_out(effects);
    assert_eq!(
        stores.rows,
        vec![Signup { participant_id: 7, course_id: 42, status: Status::SignedUp }]
    );
    assert_eq!(stores.talks[&7], State::Default);
    assert!(!stores.awaited_without_notified_record);
}

#[test]
fn scenario_notify_decline() {
    let mut stores = Stores::new(vec![person(7)]);
    stores.run(course(42));
    let effects = receive_signup_response(
        &person(7),
        stores.talks[&7],
        Some("Heute leider nicht.".to_string()),
    );
    assert_eq!(stores.carry_out(effects), Event::Sent(Delivery::Delivered));
    assert_eq!(
        stores.rows,
        vec![Signup { participant_id: 7, course_id: 42, status: Status::Rejected }]
    );
    assert_eq!(stores.talks[&7], State::Default);
    assert!(stores.run(course(42)).is_empty());
}

#[test]
fn scenario_accept_but_the_provider_refuses() {
    let mut stores = Stores::new(vec![person(7)]);
    stores.run(course(42));
    stores.provider.insert(7, Err(SignupError::AlreadySignedUp));
    let effects =
        receive_signup_response(&person(7), stores.talks[&7], Some("Aber sowas von!".to_string()));
    let report = stores.carry_out(effects);
    assert_eq!(report, Event::Replayed(Err(SignupError::AlreadySignedUp)));
    stores.carry_out(receive_signup_result(7, 42, Err(SignupError::AlreadySignedUp)));
    assert_eq!(
        stores.rows,
        vec![Signup { participant_id: 7, course_id: 42, status: Status::Notified }]
    );
    assert_eq!(stores.talks[&7], State::Default);
}
