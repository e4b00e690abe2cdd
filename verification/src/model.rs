//! What the effects do to the stores, and what therefore holds of the
//! stores whatever happens.
use crate::course::Course;
use crate::effect::Effect;
use crate::error::SignupError;
use crate::handlers::{
    delete_confirmation_script, signup_response_script, signup_result_script, signup_script,
};
use crate::participant::Participant;
use crate::scheduler::{Delivery, Event, Phase, RunView};
use crate::schema::State;
use crate::signup::{Signup, Status};
use vstd::prelude::*;

verus! {

/// The stores: the people, their registration records, and what the
/// conversation with each expects.
pub struct World {
    pub people: Set<i64>,
    pub rows: Seq<Signup>,
    pub talks: Map<i64, State>,
}

/// The record is that of the person for the session.
pub open spec fn about(row: Signup, person: i64, course: i64) -> bool {
    row.participant_id == person && row.course_id == course
}

/// The person has a record for the session.
pub open spec fn has_row(rows: Seq<Signup>, person: i64, course: i64) -> bool {
    exists|i: int| 0 <= i < rows.len() && about(#[trigger] rows[i], person, course)
}

/// No person has two records for one session.
pub open spec fn one_row_per_pair(rows: Seq<Signup>) -> bool {
    forall|i: int, j: int|
        0 <= i < j < rows.len() ==> !about(
            #[trigger] rows[i],
            (#[trigger] rows[j]).participant_id,
            rows[j].course_id,
        )
}

/// The records after one is written: the record of the pair is replaced
/// where there is one, else the new one is added.
pub open spec fn recorded(rows: Seq<Signup>, signup: Signup) -> Seq<Signup> {
    if has_row(rows, signup.participant_id, signup.course_id) {
        Seq::new(
            rows.len(),
            |i: int|
                if about(rows[i], signup.participant_id, signup.course_id) {
                    signup
                } else {
                    rows[i]
                },
        )
    } else {
        rows.push(signup)
    }
}

/// The records without those of a person.
pub open spec fn without(rows: Seq<Signup>, person: i64) -> Seq<Signup>
    decreases rows.len(),
{
    if rows.len() == 0 {
        Seq::empty()
    } else if rows.last().participant_id == person {
        without(rows.drop_last(), person)
    } else {
        without(rows.drop_last(), person).push(rows.last())
    }
}

/// The people who have no record for a session.
pub open spec fn uninformed(world: World, course: i64) -> Set<i64> {
    Set::new(|person: i64| world.people.contains(person) && !has_row(world.rows, person, course))
}

/// The stores after an effect was carried out; `sent` is the identifier of
/// the message sent last.
pub open spec fn apply(world: World, effect: Effect, sent: i32) -> World {
    match effect {
        Effect::Create(person) => World { people: world.people.insert(person.id), ..world },
        Effect::Delete(person) => World {
            people: world.people.remove(person),
            rows: without(world.rows, person),
            ..world
        },
        Effect::Record(signup) => World { rows: recorded(world.rows, signup), ..world },
        Effect::Expect { chat, state } => World { talks: world.talks.insert(chat, state), ..world },
        Effect::ExpectEmail { chat, guided } => World {
            talks: world.talks.insert(chat, State::ReceiveEmail(guided, Some(sent))),
            ..world
        },
        Effect::Reset(chat) => World { talks: world.talks.insert(chat, State::Default), ..world },
        Effect::Forget(chat) => World { talks: world.talks.remove(chat), ..world },
        _ => world,
    }
}

/// The stores after the effects were carried out, front to back.
pub open spec fn apply_all(world: World, effects: Seq<Effect>, sent: i32) -> World
    decreases effects.len(),
{
    if effects.len() == 0 {
        world
    } else {
        apply_all(apply(world, effects[0], sent), effects.skip(1), sent)
    }
}

/// The conversation with the person expects yes or no to some session.
pub open spec fn awaits_answer(world: World, person: i64) -> bool {
    world.talks.contains_key(person) && world.talks[person] is ReceiveSignupResponse
}

/// The stores agree: a conversation expects yes or no to a session only
/// where the person has a record for that session, and nobody has two
/// records for one session.
pub open spec fn consistent(world: World) -> bool {
    &&& forall|person: i64|
        #![trigger world.talks[person]]
        world.talks.contains_key(person) ==> (world.talks[person] matches State::ReceiveSignupResponse(
            course,
        ) ==> has_row(world.rows, person, course))
    &&& one_row_per_pair(world.rows)
}

/// The stores agree before the effects, between any two of them, and after
/// them.
pub open spec fn consistent_throughout(world: World, effects: Seq<Effect>, sent: i32) -> bool
    decreases effects.len(),
{
    &&& consistent(world)
    &&& effects.len() > 0 ==> consistent_throughout(
        apply(world, effects[0], sent),
        effects.skip(1),
        sent,
    )
}

/// A record that is written is there afterwards, with the status written;
/// nobody gets a second record by it, and nobody else gains or loses one.
pub proof fn lemma_recorded(rows: Seq<Signup>, signup: Signup)
    ensures
        has_row(recorded(rows, signup), signup.participant_id, signup.course_id),
        recorded(rows, signup).contains(signup),
        one_row_per_pair(rows) ==> one_row_per_pair(recorded(rows, signup)),
        forall|person: i64, course: i64|
            has_row(rows, person, course) ==> has_row(recorded(rows, signup), person, course),
        forall|person: i64, course: i64|
            has_row(recorded(rows, signup), person, course) ==> has_row(rows, person, course)
                || about(signup, person, course),
        has_row(rows, signup.participant_id, signup.course_id) ==> recorded(rows, signup).len()
            == rows.len(),
{
    let after = recorded(rows, signup);
    if has_row(rows, signup.participant_id, signup.course_id) {
        let k = choose|k: int|
            0 <= k < rows.len() && about(#[trigger] rows[k], signup.participant_id, signup.course_id);
        assert(about(after[k], signup.participant_id, signup.course_id));
        assert(after[k] == signup);
    } else {
        assert(after[rows.len() as int] == signup);
        assert(about(after[rows.len() as int], signup.participant_id, signup.course_id));
    }
    assert forall|person: i64, course: i64| has_row(rows, person, course) implies has_row(
        after,
        person,
        course,
    ) by {
        let k = choose|k: int| 0 <= k < rows.len() && about(#[trigger] rows[k], person, course);
        assert(about(after[k], person, course));
    }
    assert forall|person: i64, course: i64| has_row(after, person, course) implies has_row(
        rows,
        person,
        course,
    ) || about(signup, person, course) by {
        let k = choose|k: int| 0 <= k < after.len() && about(#[trigger] after[k], person, course);
        if k < rows.len() && !about(signup, person, course) {
            assert(about(rows[k], person, course));
        }
    }
    if one_row_per_pair(rows) {
        assert forall|i: int, j: int| 0 <= i < j < after.len() implies !about(
            #[trigger] after[i],
            (#[trigger] after[j]).participant_id,
            after[j].course_id,
        ) by {
            if has_row(rows, signup.participant_id, signup.course_id) {
                assert(!about(rows[i], rows[j].participant_id, rows[j].course_id));
            } else if j < rows.len() {
                assert(!about(rows[i], rows[j].participant_id, rows[j].course_id));
            } else {
                assert(!about(rows[i], signup.participant_id, signup.course_id));
            }
        }
    }
}

/// Removing a person's records removes all of them and no others.
pub proof fn lemma_without(rows: Seq<Signup>, person: i64)
    ensures
        forall|i: int|
            0 <= i < without(rows, person).len() ==> (#[trigger] without(
                rows,
                person,
            )[i]).participant_id != person && rows.contains(without(rows, person)[i]),
        forall|other: i64, course: i64|
            other != person && has_row(rows, other, course) ==> has_row(
                without(rows, person),
                other,
                course,
            ),
        forall|course: i64| !has_row(without(rows, person), person, course),
        one_row_per_pair(rows) ==> one_row_per_pair(without(rows, person)),
    decreases rows.len(),
{
    let after = without(rows, person);
    if rows.len() > 0 {
        let head = rows.drop_last();
        let last = rows.last();
        lemma_without(head, person);
        assert forall|i: int| 0 <= i < after.len() implies (#[trigger] after[i]).participant_id
            != person && rows.contains(after[i]) by {
            if i < without(head, person).len() {
                let r = without(head, person)[i];
                assert(head.contains(r));
                let k = choose|k: int| 0 <= k < head.len() && head[k] == r;
                assert(rows[k] == r);
            } else {
                assert(rows[rows.len() - 1] == last);
            }
        }
        assert forall|other: i64, course: i64|
            other != person && has_row(rows, other, course) implies has_row(
            after,
            other,
            course,
        ) by {
            let k = choose|k: int| 0 <= k < rows.len() && about(#[trigger] rows[k], other, course);
            if k < head.len() {
                assert(about(head[k], other, course));
                assert(has_row(head, other, course));
                let m = choose|m: int|
                    0 <= m < without(head, person).len() && about(
                        #[trigger] without(head, person)[m],
                        other,
                        course,
                    );
                assert(about(after[m], other, course));
            } else {
                assert(about(after[after.len() - 1], other, course));
            }
        }
        if one_row_per_pair(rows) {
            assert(one_row_per_pair(head)) by {
                assert forall|i: int, j: int| 0 <= i < j < head.len() implies !about(
                    #[trigger] head[i],
                    (#[trigger] head[j]).participant_id,
                    head[j].course_id,
                ) by {
                    assert(!about(rows[i], rows[j].participant_id, rows[j].course_id));
                }
            }
            assert forall|i: int, j: int| 0 <= i < j < after.len() implies !about(
                #[trigger] after[i],
                (#[trigger] after[j]).participant_id,
                after[j].course_id,
            ) by {
                if j == without(head, person).len() {
                    let r = without(head, person)[i];
                    assert(head.contains(r));
                    let k = choose|k: int| 0 <= k < head.len() && head[k] == r;
                    assert(!about(rows[k], rows[rows.len() - 1].participant_id, rows[rows.len() - 1].course_id));
                }
            }
        }
    }
    assert forall|course: i64| !has_row(after, person, course) by {
        if has_row(after, person, course) {
            let k = choose|k: int| 0 <= k < after.len() && about(#[trigger] after[k], person, course);
            assert(after[k].participant_id != person);
        }
    }
}

/// An effect that cannot set the stores at odds: it removes nobody and
/// does not make a conversation expect yes or no.
pub open spec fn harmless(effect: Effect) -> bool {
    &&& !(effect is Delete)
    &&& !(effect matches Effect::Expect { state, .. } && state is ReceiveSignupResponse)
}

proof fn lemma_step_harmless(world: World, effect: Effect, sent: i32)
    requires
        consistent(world),
        harmless(effect),
    ensures
        consistent(apply(world, effect, sent)),
{
    let after = apply(world, effect, sent);
    match effect {
        Effect::Record(signup) => {
            lemma_recorded(world.rows, signup);
        },
        _ => {},
    }
    assert forall|person: i64|
        #![trigger after.talks[person]]
        after.talks.contains_key(person) implies (after.talks[person] matches State::ReceiveSignupResponse(
        course,
    ) ==> has_row(after.rows, person, course)) by {
        if after.talks[person] is ReceiveSignupResponse {
            assert(world.talks.contains_key(person) && world.talks[person] == after.talks[person]);
        }
    }
}

proof fn lemma_step_expect_answer(world: World, chat: i64, course: i64, sent: i32)
    requires
        consistent(world),
        has_row(world.rows, chat, course),
    ensures
        consistent(
            apply(world, Effect::Expect { chat, state: State::ReceiveSignupResponse(course) }, sent),
        ),
{
    let after = apply(
        world,
        Effect::Expect { chat, state: State::ReceiveSignupResponse(course) },
        sent,
    );
    assert forall|person: i64|
        #![trigger after.talks[person]]
        after.talks.contains_key(person) implies (after.talks[person] matches State::ReceiveSignupResponse(
        c,
    ) ==> has_row(after.rows, person, c)) by {
        if person != chat && after.talks[person] is ReceiveSignupResponse {
            assert(world.talks.contains_key(person) && world.talks[person] == after.talks[person]);
        }
    }
}

proof fn lemma_step_delete(world: World, person: i64, sent: i32)
    requires
        consistent(world),
        !awaits_answer(world, person),
    ensures
        consistent(apply(world, Effect::Delete(person), sent)),
        !apply(world, Effect::Delete(person), sent).people.contains(person),
        forall|course: i64| !has_row(apply(world, Effect::Delete(person), sent).rows, person, course),
{
    let after = apply(world, Effect::Delete(person), sent);
    lemma_without(world.rows, person);
    assert forall|other: i64|
        #![trigger after.talks[other]]
        after.talks.contains_key(other) implies (after.talks[other] matches State::ReceiveSignupResponse(
        c,
    ) ==> has_row(after.rows, other, c)) by {
        match after.talks[other] {
            State::ReceiveSignupResponse(c) => {
                assert(world.talks.contains_key(other) && world.talks[other] == after.talks[other]);
                assert(other != person);
                assert(has_row(world.rows, other, c));
            },
            _ => {},
        }
    }
}

proof fn lemma_throughout_one(world: World, first: Effect, rest: Seq<Effect>, sent: i32)
    requires
        consistent(world),
        consistent_throughout(apply(world, first, sent), rest, sent),
    ensures
        consistent_throughout(world, seq![first] + rest, sent),
{
    let all = seq![first] + rest;
    assert(all[0] == first);
    assert(all.skip(1) =~= rest);
}

/// Effects that remove nobody and make no conversation expect yes or no
/// leave the stores in agreement, at every point.
pub proof fn lemma_harmless_effects(world: World, effects: Seq<Effect>, sent: i32)
    requires
        consistent(world),
        forall|i: int| 0 <= i < effects.len() ==> harmless(#[trigger] effects[i]),
    ensures
        consistent_throughout(world, effects, sent),
        consistent(apply_all(world, effects, sent)),
    decreases effects.len(),
{
    if effects.len() > 0 {
        lemma_step_harmless(world, effects[0], sent);
        assert forall|i: int| 0 <= i < effects.skip(1).len() implies harmless(
            #[trigger] effects.skip(1)[i],
        ) by {
            assert(effects.skip(1)[i] == effects[i + 1]);
        }
        lemma_harmless_effects(apply(world, effects[0], sent), effects.skip(1), sent);
    }
}

/// The queue holds nobody twice.
pub open spec fn distinct(queue: Seq<Participant>) -> bool {
    forall|i: int, j: int| 0 <= i < j < queue.len() ==> (#[trigger] queue[i]).id != (#[trigger] queue[j]).id
}

/// A run over the people without a record for a session leaves everyone
/// with a record alone: no step sends them anything, writes a record of
/// them or touches the conversation with them.
pub proof fn lemma_informed_are_left_alone(world: World, run: RunView, event: Event, person: i64)
    requires
        run.wf(),
        forall|k: int|
            0 <= k < run.queue.len() ==> uninformed(world, run.course.id).contains(
                (#[trigger] run.queue[k]).id,
            ),
        has_row(world.rows, person, run.course.id),
    ensures
        forall|i: int|
            0 <= i < run.next(event).1.len() ==> (#[trigger] run.next(event).1[i]).concerns() != Some(
                person,
            ),
        run.next(event).0.queue == run.queue,
        run.next(event).0.course == run.course,
        run.next(event).0.wf(),
{
    if run.phase != Phase::Done {
        assert(uninformed(world, run.course.id).contains(run.queue[run.at].id));
        if run.at + 1 < run.queue.len() {
            assert(uninformed(world, run.course.id).contains(run.queue[run.at + 1].id));
        }
    }
}

/// The same holds of the beginning of a run.
pub proof fn lemma_informed_are_left_alone_at_first(
    world: World,
    course: Course,
    queue: Seq<Participant>,
    person: i64,
)
    requires
        forall|k: int|
            0 <= k < queue.len() ==> uninformed(world, course.id).contains((#[trigger] queue[k]).id),
        has_row(world.rows, person, course.id),
    ensures
        forall|i: int|
            0 <= i < RunView::begin(course, queue).1.len() ==> (#[trigger] RunView::begin(
                course,
                queue,
            ).1[i]).concerns() != Some(person),
        RunView::begin(course, queue).0.wf(),
{
    if queue.len() > 0 {
        assert(uninformed(world, course.id).contains(queue[0].id));
    }
}

/// Whatever a run is told, what it has carried out leaves the stores in
/// agreement at every point, provided that the conversation with a person
/// whose question is on its way expects no answer to an earlier one, which
/// is what the run was told of them. In particular the conversation is set to expect yes
/// or no only after the record that the person was notified is written.
pub proof fn lemma_run_keeps_stores_consistent(world: World, run: RunView, event: Event, sent: i32)
    requires
        consistent(world),
        run.wf(),
        run.phase == Phase::Sending ==> !awaits_answer(world, run.person().id),
    ensures
        consistent_throughout(world, run.next(event).1, sent),
        (run.phase == Phase::Sending && event matches Event::Sent(Delivery::Delivered)) ==> {
            let effects = run.next(event).1;
            &&& effects.len() == 3
            &&& effects[1] == Effect::Expect {
                chat: run.person().id,
                state: State::ReceiveSignupResponse(run.course.id),
            }
            &&& apply(world, effects[0], sent).rows.contains(
                Signup {
                    participant_id: run.person().id,
                    course_id: run.course.id,
                    status: Status::Notified,
                },
            )
        },
{
    let effects = run.next(event).1;
    let to = run.person().id;
    if run.phase == Phase::Sending && event matches Event::Sent(Delivery::Delivered) {
        let record = run.record(Status::Notified);
        let expect = Effect::Expect { chat: to, state: State::ReceiveSignupResponse(run.course.id) };
        let w1 = apply(world, record, sent);
        lemma_recorded(
            world.rows,
            Signup { participant_id: to, course_id: run.course.id, status: Status::Notified },
        );
        lemma_step_harmless(world, record, sent);
        lemma_step_expect_answer(w1, to, run.course.id, sent);
        let w2 = apply(w1, expect, sent);
        lemma_harmless_effects(w2, seq![Effect::Pause(crate::scheduler::pace())], sent);
        lemma_throughout_one(w1, expect, seq![Effect::Pause(crate::scheduler::pace())], sent);
        lemma_throughout_one(
            world,
            record,
            seq![expect] + seq![Effect::Pause(crate::scheduler::pace())],
            sent,
        );
        assert(effects =~= seq![record] + (seq![expect] + seq![
            Effect::Pause(crate::scheduler::pace()),
        ]));
    } else if run.phase == Phase::Sending && event matches Event::Sent(Delivery::Blocked) {
        lemma_step_delete(world, to, sent);
        let w1 = apply(world, Effect::Delete(to), sent);
        lemma_harmless_effects(w1, seq![Effect::Forget(to)], sent);
        lemma_throughout_one(world, Effect::Delete(to), seq![Effect::Forget(to)], sent);
        assert(effects =~= seq![Effect::Delete(to)] + seq![Effect::Forget(to)]);
    } else {
        assert forall|i: int| 0 <= i < effects.len() implies harmless(#[trigger] effects[i]) by {}
        lemma_harmless_effects(world, effects, sent);
    }
}

/// After a person has blocked the bot, nothing of them is left: not the
/// person, not a record of theirs, not the conversation with them.
pub proof fn lemma_blocked_person_is_purged(world: World, run: RunView, sent: i32)
    requires
        run.wf(),
        run.phase == Phase::Sending,
    ensures
        ({
            let (after, effects) = run.next(Event::Sent(Delivery::Blocked));
            let left = apply_all(world, effects, sent);
            &&& after.phase == Phase::Closing(crate::scheduler::Fate::Removed)
            &&& !left.people.contains(run.person().id)
            &&& forall|course: i64| !has_row(left.rows, run.person().id, course)
            &&& !left.talks.contains_key(run.person().id)
        }),
{
    let to = run.person().id;
    let effects = run.next(Event::Sent(Delivery::Blocked)).1;
    assert(effects =~= seq![Effect::Delete(to), Effect::Forget(to)]);
    let w1 = apply(world, Effect::Delete(to), sent);
    let w2 = apply(w1, Effect::Forget(to), sent);
    lemma_without(world.rows, to);
    assert(effects.skip(1) =~= seq![Effect::Forget(to)]);
    assert(effects.skip(1).skip(1) =~= Seq::<Effect>::empty());
    assert(apply_all(w2, effects.skip(1).skip(1), sent) == w2);
    assert(apply_all(w1, effects.skip(1), sent) == w2);
    assert(apply_all(world, effects, sent) == w2);
}

/// A run never comes back to a person: once it has seen to someone, or
/// waits only for word that its last effects for them were carried out, no
/// later effect concerns them. So a person who has blocked the bot is sent
/// nothing more in the same run.
pub proof fn lemma_settled_are_left_alone(run: RunView, event: Event, k: int)
    requires
        run.wf(),
        distinct(run.queue),
        0 <= k < run.at || (k == run.at && run.phase is Closing),
    ensures
        forall|i: int|
            0 <= i < run.next(event).1.len() ==> (#[trigger] run.next(event).1[i]).concerns() != Some(
                run.queue[k].id,
            ),
        run.next(event).0.wf(),
        run.next(event).0.queue == run.queue,
        run.next(event).0.at >= run.at,
        k < run.next(event).0.at || run.next(event).0.phase is Closing,
{
    if run.phase != Phase::Done {
        if k < run.at {
            assert(run.queue[k].id != run.queue[run.at].id);
        }
        if run.at + 1 < run.queue.len() {
            assert(run.queue[k].id != run.queue[run.at + 1].id);
        }
    }
}

/// Everything a run asks for while it is told the events, one after the
/// other.
pub open spec fn trace(run: RunView, events: Seq<Event>) -> Seq<Effect>
    decreases events.len(),
{
    if events.len() == 0 {
        Seq::empty()
    } else {
        run.next(events[0]).1 + trace(run.next(events[0]).0, events.skip(1))
    }
}

/// Whatever a run is told from its beginning on, nothing it asks for
/// concerns a person who had a record for the session when the queue was
/// made up: no such person is sent a question, and none gets a record
/// written.
pub proof fn lemma_run_leaves_informed_alone(
    world: World,
    run: RunView,
    events: Seq<Event>,
    person: i64,
)
    requires
        run.wf(),
        forall|k: int|
            0 <= k < run.queue.len() ==> uninformed(world, run.course.id).contains(
                (#[trigger] run.queue[k]).id,
            ),
        has_row(world.rows, person, run.course.id),
    ensures
        forall|i: int|
            0 <= i < trace(run, events).len() ==> (#[trigger] trace(run, events)[i]).concerns()
                != Some(person),
    decreases events.len(),
{
    if events.len() > 0 {
        lemma_informed_are_left_alone(world, run, events[0], person);
        lemma_run_leaves_informed_alone(world, run.next(events[0]).0, events.skip(1), person);
    }
}

/// Whatever a run is told, it never comes back to a person it is done
/// with.
pub proof fn lemma_run_leaves_settled_alone(run: RunView, events: Seq<Event>, k: int)
    requires
        run.wf(),
        distinct(run.queue),
        0 <= k < run.at || (k == run.at && run.phase is Closing),
    ensures
        forall|i: int|
            0 <= i < trace(run, events).len() ==> (#[trigger] trace(run, events)[i]).concerns()
                != Some(run.queue[k].id),
    decreases events.len(),
{
    if events.len() > 0 {
        lemma_settled_are_left_alone(run, events[0], k);
        lemma_run_leaves_settled_alone(run.next(events[0]).0, events.skip(1), k);
    }
}

/// A person who has blocked the bot is removed, and whatever the run is
/// told afterwards, it sends them nothing more and asks for nothing else
/// that concerns them.
pub proof fn lemma_blocked_person_is_left_alone(run: RunView, events: Seq<Event>)
    requires
        run.wf(),
        distinct(run.queue),
        run.phase == Phase::Sending,
    ensures
        run.next(Event::Sent(Delivery::Blocked)).1 == seq![
            Effect::Delete(run.person().id),
            Effect::Forget(run.person().id),
        ],
        forall|i: int|
            0 <= i < trace(run.next(Event::Sent(Delivery::Blocked)).0, events).len() ==> (#[trigger] trace(
                run.next(Event::Sent(Delivery::Blocked)).0,
                events,
            )[i]).concerns() != Some(run.person().id),
{
    lemma_run_leaves_settled_alone(run.next(Event::Sent(Delivery::Blocked)).0, events, run.at);
}

/// The command that asks to be registered keeps the stores in agreement,
/// given that `record` is what the stores hold of the person and today's
/// session.
pub proof fn lemma_signup_command_keeps_order(
    world: World,
    person: Participant,
    today: Option<Course>,
    record: Option<Signup>,
    sent: i32,
)
    requires
        consistent(world),
        (today is Some && record is Some) ==> has_row(world.rows, person.id, today->0.id),
    ensures
        consistent_throughout(world, signup_script(person, today, record), sent),
{
    let effects = signup_script(person, today, record);
    match today {
        None => {
            assert forall|i: int| 0 <= i < effects.len() implies harmless(#[trigger] effects[i]) by {}
            lemma_harmless_effects(world, effects, sent);
        },
        Some(course) => {
            let ask = crate::effect::say(
                person.id,
                crate::text_messages::TextMessage::SignupResponse(course),
                crate::keyboards::Keyboard::Signup,
            );
            let expect = Effect::Expect {
                chat: person.id,
                state: State::ReceiveSignupResponse(course.id),
            };
            match record {
                Some(signup) => {
                    if signup.status == Status::SignedUp {
                        assert forall|i: int| 0 <= i < effects.len() implies harmless(
                            #[trigger] effects[i],
                        ) by {}
                        lemma_harmless_effects(world, effects, sent);
                    } else {
                        lemma_step_harmless(world, ask, sent);
                        let w1 = apply(world, ask, sent);
                        lemma_step_expect_answer(w1, person.id, course.id, sent);
                        lemma_harmless_effects(apply(w1, expect, sent), Seq::empty(), sent);
                        lemma_throughout_one(w1, expect, Seq::empty(), sent);
                        lemma_throughout_one(world, ask, seq![expect] + Seq::<Effect>::empty(), sent);
                        assert(effects =~= seq![ask] + (seq![expect] + Seq::<Effect>::empty()));
                    }
                },
                None => {
                    let write = Effect::Record(
                        Signup {
                            participant_id: person.id,
                            course_id: course.id,
                            status: Status::Notified,
                        },
                    );
                    lemma_recorded(
                        world.rows,
                        Signup {
                            participant_id: person.id,
                            course_id: course.id,
                            status: Status::Notified,
                        },
                    );
                    lemma_step_harmless(world, write, sent);
                    let w0 = apply(world, write, sent);
                    lemma_step_harmless(w0, ask, sent);
                    let w1 = apply(w0, ask, sent);
                    lemma_step_expect_answer(w1, person.id, course.id, sent);
                    lemma_harmless_effects(apply(w1, expect, sent), Seq::empty(), sent);
                    lemma_throughout_one(w1, expect, Seq::empty(), sent);
                    lemma_throughout_one(w0, ask, seq![expect] + Seq::<Effect>::empty(), sent);
                    lemma_throughout_one(
                        world,
                        write,
                        seq![ask] + (seq![expect] + Seq::<Effect>::empty()),
                        sent,
                    );
                    assert(effects =~= seq![write] + (seq![ask] + (seq![expect] + Seq::<
                        Effect,
                    >::empty())));
                },
            }
        },
    }
}

/// Yes, no and what follows the provider's answer keep the stores in
/// agreement.
pub proof fn lemma_answers_keep_order(
    world: World,
    person: Participant,
    state: State,
    text: Option<String>,
    course: i64,
    result: Result<(), SignupError>,
    sent: i32,
)
    requires
        consistent(world),
    ensures
        consistent_throughout(world, signup_response_script(person, state, text), sent),
        consistent_throughout(world, signup_result_script(person.id, course, result), sent),
{
    let first = signup_response_script(person, state, text);
    assert forall|i: int| 0 <= i < first.len() implies harmless(#[trigger] first[i]) by {}
    lemma_harmless_effects(world, first, sent);
    let second = signup_result_script(person.id, course, result);
    assert forall|i: int| 0 <= i < second.len() implies harmless(#[trigger] second[i]) by {}
    lemma_harmless_effects(world, second, sent);
}

/// Deleting a person on their word keeps the stores in agreement, given
/// that the conversation expects that word and not yes or no.
pub proof fn lemma_deletion_keeps_order(world: World, person: i64, text: Option<String>, sent: i32)
    requires
        consistent(world),
        !awaits_answer(world, person),
    ensures
        consistent_throughout(world, delete_confirmation_script(person, text), sent),
{
    let effects = delete_confirmation_script(person, text);
    if text matches Some(word) && word@ == crate::handlers::yes_word() {
        lemma_step_delete(world, person, sent);
        let w1 = apply(world, Effect::Delete(person), sent);
        let rest = effects.skip(1);
        assert forall|i: int| 0 <= i < rest.len() implies harmless(#[trigger] rest[i]) by {
            assert(rest[i] == effects[i + 1]);
        }
        lemma_harmless_effects(w1, rest, sent);
        lemma_throughout_one(world, Effect::Delete(person), rest, sent);
        assert(effects =~= seq![Effect::Delete(person)] + rest);
    } else {
        assert forall|i: int| 0 <= i < effects.len() implies harmless(#[trigger] effects[i]) by {}
        lemma_harmless_effects(world, effects, sent);
    }
}

} // verus!
