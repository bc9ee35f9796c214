//! The network bring-up sequencer.
//!
//! Bring-up is an ordered, one-shot procedure: initialise the radio, join the
//! network, wait for the address, then start serving. Every step waits on the
//! outside world, so the sequencer is a state machine: the firmware performs
//! the action it is handed and reports what came of it as an event.

use crate::server::POOL_SIZE;
use vstd::assert_by_contradiction;
use vstd::prelude::*;

verus! {

/// Seconds to wait before a failed join is tried again, and before the
/// address is polled again. The delay is fixed: it never grows.
pub const RETRY_DELAY_SECS: u64 = 1;

/// How far bring-up has come.
#[derive(Clone, Copy, Debug, PartialEq, Eq, Structural)]
pub enum Phase {
    /// The radio is being initialised.
    RadioInit,
    /// A join attempt is under way.
    Joining,
    /// The link is joined and the address has been asked for.
    AwaitingAddress,
    /// Bring-up is complete and the worker pool has been started.
    Serving,
    /// The radio could not be initialised. Nothing follows.
    Halted,
}

/// What the firmware reports back.
#[derive(Clone, Copy, Debug, PartialEq, Eq, Structural)]
pub enum Event {
    /// The radio is initialised and its firmware loaded.
    RadioReady,
    /// The radio could not be initialised.
    RadioFailed,
    /// The join attempt succeeded.
    JoinSucceeded,
    /// The join attempt failed with this status code.
    JoinFailed { status: u32 },
    /// The network layer was asked whether it has its address.
    AddressPolled { configured: bool },
}

/// What the firmware is to do next.
#[derive(Clone, Copy, Debug, PartialEq, Eq, Structural)]
pub enum Action {
    /// Power the radio on, load its firmware and set its power saving.
    InitRadio { power_saving: bool },
    /// Wait `delay_secs`, then attempt to join.
    Join { delay_secs: u64 },
    /// Wait `delay_secs`, then ask whether the address is configured.
    PollAddress { delay_secs: u64 },
    /// Start `workers` HTTP workers, then signal that the node is ready.
    Serve { workers: usize },
    /// Stop: bring-up cannot go on.
    Halt,
    /// The event answers nothing that is awaited in this phase: do nothing.
    Ignore,
}

/// The transition table: the phase and the action that follow `event` in
/// `phase`.
pub open spec fn next(phase: Phase, event: Event) -> (Phase, Action) {
    match (phase, event) {
        (Phase::RadioInit, Event::RadioReady) => (Phase::Joining, Action::Join { delay_secs: 0 }),
        (Phase::RadioInit, Event::RadioFailed) => (Phase::Halted, Action::Halt),
        (Phase::Joining, Event::JoinSucceeded) => (
            Phase::AwaitingAddress,
            Action::PollAddress { delay_secs: 0 },
        ),
        (Phase::Joining, Event::JoinFailed { status }) => (
            Phase::Joining,
            Action::Join { delay_secs: RETRY_DELAY_SECS },
        ),
        (Phase::AwaitingAddress, Event::AddressPolled { configured }) => if configured {
            (Phase::Serving, Action::Serve { workers: POOL_SIZE })
        } else {
            (Phase::AwaitingAddress, Action::PollAddress { delay_secs: RETRY_DELAY_SECS })
        },
        _ => (phase, Action::Ignore),
    }
}

/// Where bring-up starts: the radio is to be initialised, with its power
/// saving off.
pub fn begin() -> (start: (Phase, Action))
    ensures
        start == (Phase::RadioInit, Action::InitRadio { power_saving: false }),
{
    (Phase::RadioInit, Action::InitRadio { power_saving: false })
}

/// Takes one event and gives the next phase and the action to perform.
pub fn advance(phase: Phase, event: Event) -> (step: (Phase, Action))
    ensures
        step == next(phase, event),
{
    match phase {
        Phase::RadioInit => match event {
            Event::RadioReady => (Phase::Joining, Action::Join { delay_secs: 0 }),
            Event::RadioFailed => (Phase::Halted, Action::Halt),
            _ => (phase, Action::Ignore),
        },
        Phase::Joining => match event {
            Event::JoinSucceeded => (Phase::AwaitingAddress, Action::PollAddress { delay_secs: 0 }),
            Event::JoinFailed { status: _ } => (
                Phase::Joining,
                Action::Join { delay_secs: RETRY_DELAY_SECS },
            ),
            _ => (phase, Action::Ignore),
        },
        Phase::AwaitingAddress => match event {
            Event::AddressPolled { configured: true } => (
                Phase::Serving,
                Action::Serve { workers: POOL_SIZE },
            ),
            Event::AddressPolled { configured: false } => (
                Phase::AwaitingAddress,
                Action::PollAddress { delay_secs: RETRY_DELAY_SECS },
            ),
            _ => (phase, Action::Ignore),
        },
        Phase::Serving => (phase, Action::Ignore),
        Phase::Halted => (phase, Action::Ignore),
    }
}

/// The phase reached from `phase` by `events`, and the actions handed out on
/// the way, one for each event.
pub open spec fn run(phase: Phase, events: Seq<Event>) -> (Phase, Seq<Action>)
    decreases events.len(),
{
    if events.len() == 0 {
        (phase, Seq::empty())
    } else {
        let (reached, actions) = run(phase, events.drop_last());
        let (after, action) = next(reached, events.last());
        (after, actions.push(action))
    }
}

/// How many join attempts `actions` hold.
pub open spec fn join_attempts(actions: Seq<Action>) -> nat
    decreases actions.len(),
{
    if actions.len() == 0 {
        0
    } else {
        join_attempts(actions.drop_last()) + if actions.last() is Join {
            1nat
        } else {
            0nat
        }
    }
}

/// One failed join for each status of `statuses`.
pub open spec fn join_failures(statuses: Seq<u32>) -> Seq<Event> {
    Seq::new(statuses.len(), |i: int| Event::JoinFailed { status: statuses[i] })
}

/// Running two sequences of events one after the other is running their
/// concatenation.
pub proof fn lemma_run_split(phase: Phase, first: Seq<Event>, rest: Seq<Event>)
    ensures
        run(phase, first + rest) == ({
            let (middle, head) = run(phase, first);
            let (reached, tail) = run(middle, rest);
            (reached, head + tail)
        }),
    decreases rest.len(),
{
    let (middle, head) = run(phase, first);
    if rest.len() == 0 {
        assert(first + rest =~= first);
        assert(head + Seq::<Action>::empty() =~= head);
    } else {
        lemma_run_split(phase, first, rest.drop_last());
        assert((first + rest).drop_last() =~= first + rest.drop_last());
        assert((first + rest).last() == rest.last());
        let (before, tail) = run(middle, rest.drop_last());
        let (after, action) = next(before, rest.last());
        assert((head + tail).push(action) =~= head + tail.push(action));
    }
}

/// The join attempts of two sequences of actions add up.
pub proof fn lemma_join_attempts_split(first: Seq<Action>, rest: Seq<Action>)
    ensures
        join_attempts(first + rest) == join_attempts(first) + join_attempts(rest),
    decreases rest.len(),
{
    if rest.len() == 0 {
        assert(first + rest =~= first);
    } else {
        lemma_join_attempts_split(first, rest.drop_last());
        assert((first + rest).drop_last() =~= first + rest.drop_last());
        assert((first + rest).last() == rest.last());
    }
}

/// While joins fail, the sequencer stays where it is: each failure is
/// answered by one more attempt after the fixed delay, whatever the status.
pub proof fn lemma_failures_keep_joining(statuses: Seq<u32>)
    ensures
        run(Phase::Joining, join_failures(statuses)).0 == Phase::Joining,
        run(Phase::Joining, join_failures(statuses)).1 == Seq::new(
            statuses.len(),
            |k: int| Action::Join { delay_secs: RETRY_DELAY_SECS },
        ),
        join_attempts(run(Phase::Joining, join_failures(statuses)).1) == statuses.len(),
    decreases statuses.len(),
{
    let events = join_failures(statuses);
    if statuses.len() > 0 {
        lemma_failures_keep_joining(statuses.drop_last());
        assert(events.drop_last() =~= join_failures(statuses.drop_last()));
        let earlier = run(Phase::Joining, events.drop_last()).1;
        let retry = Action::Join { delay_secs: RETRY_DELAY_SECS };
        assert(earlier.push(retry) =~= Seq::new(statuses.len(), |k: int| retry));
        assert(run(Phase::Joining, events).1 == earlier.push(retry));
        assert(earlier.push(retry).drop_last() =~= earlier);
    } else {
        assert(run(Phase::Joining, events).1 =~= Seq::new(
            statuses.len(),
            |k: int| Action::Join { delay_secs: RETRY_DELAY_SECS },
        ));
    }
}

/// The events of a bring-up in which the radio comes up, the joins fail with
/// `statuses` one after the other, and the next join succeeds.
pub open spec fn joined_after(statuses: Seq<u32>) -> Seq<Event> {
    seq![Event::RadioReady] + join_failures(statuses) + seq![Event::JoinSucceeded]
}

/// After `N` failed joins and one success the sequencer has asked for
/// exactly `N + 1` joins: the first at once, each further one after the fixed
/// delay. It leaves the joining phase with the success and not before, and
/// then asks for the address.
pub proof fn lemma_join_retry(statuses: Seq<u32>)
    ensures
        run(Phase::RadioInit, joined_after(statuses)).0 == Phase::AwaitingAddress,
        run(Phase::RadioInit, joined_after(statuses)).1 == seq![Action::Join { delay_secs: 0 }]
            + Seq::new(statuses.len(), |k: int| Action::Join { delay_secs: RETRY_DELAY_SECS })
            + seq![Action::PollAddress { delay_secs: 0 }],
        join_attempts(run(Phase::RadioInit, joined_after(statuses)).1) == statuses.len() + 1,
        forall|k: int|
            1 <= k <= statuses.len() + 1 ==> (#[trigger] run(
                Phase::RadioInit,
                joined_after(statuses).take(k),
            )).0 == Phase::Joining,
{
    let up = seq![Event::RadioReady];
    let failures = join_failures(statuses);
    let success = seq![Event::JoinSucceeded];
    let retries = Seq::new(statuses.len(), |k: int| Action::Join { delay_secs: RETRY_DELAY_SECS });
    let first = seq![Action::Join { delay_secs: 0 }];
    let poll = seq![Action::PollAddress { delay_secs: 0 }];

    lemma_run_one(Phase::RadioInit, Event::RadioReady);
    lemma_run_one(Phase::Joining, Event::JoinSucceeded);
    lemma_failures_keep_joining(statuses);
    lemma_run_split(Phase::RadioInit, up, failures);
    lemma_run_split(Phase::RadioInit, up + failures, success);

    lemma_join_attempts_split(first, retries);
    lemma_join_attempts_split(first + retries, poll);
    lemma_join_attempts_one(Action::Join { delay_secs: 0 });
    lemma_join_attempts_one(Action::PollAddress { delay_secs: 0 });

    assert forall|k: int| 1 <= k <= statuses.len() + 1 implies (#[trigger] run(
        Phase::RadioInit,
        joined_after(statuses).take(k),
    )).0 == Phase::Joining by {
        let fewer = statuses.take(k - 1);
        assert(joined_after(statuses).take(k) =~= up + join_failures(fewer));
        lemma_failures_keep_joining(fewer);
        lemma_run_split(Phase::RadioInit, up, join_failures(fewer));
    }
}

/// A single event gives the one step of the transition table.
pub proof fn lemma_run_one(phase: Phase, event: Event)
    ensures
        run(phase, seq![event]) == (next(phase, event).0, seq![next(phase, event).1]),
{
    let events = seq![event];
    assert(events.drop_last() =~= Seq::<Event>::empty());
    assert(run(phase, events.drop_last()) == (phase, Seq::<Action>::empty()));
    assert(Seq::<Action>::empty().push(next(phase, event).1) =~= seq![next(phase, event).1]);
}

proof fn lemma_join_attempts_one(action: Action)
    ensures
        join_attempts(seq![action]) == if action is Join {
            1nat
        } else {
            0nat
        },
{
    let actions = seq![action];
    assert(actions.drop_last() =~= Seq::<Action>::empty());
    assert(join_attempts(actions.drop_last()) == 0);
}

/// `events` hold, in this order though not side by side, the radio coming
/// up, a join that succeeded and a poll that found the address configured.
pub open spec fn brought_up(events: Seq<Event>) -> bool {
    exists|i: int, j: int, k: int|
        0 <= i < j < k < events.len() && #[trigger] events[i] == Event::RadioReady
            && #[trigger] events[j] == Event::JoinSucceeded && #[trigger] events[k]
            == (Event::AddressPolled { configured: true })
}

/// `events` hold the radio coming up and, later, a join that succeeded.
pub open spec fn joined(events: Seq<Event>) -> bool {
    exists|i: int, j: int|
        0 <= i < j < events.len() && #[trigger] events[i] == Event::RadioReady
            && #[trigger] events[j] == Event::JoinSucceeded
}

/// `events` hold the radio coming up.
pub open spec fn radio_up(events: Seq<Event>) -> bool {
    exists|i: int| 0 <= i < events.len() && #[trigger] events[i] == Event::RadioReady
}

/// No phase is reached before its time: the sequencer joins only once the
/// radio is up, asks for the address only once a join has succeeded, and
/// serves only once the address is configured as well. It halts only on a
/// radio that failed.
pub proof fn lemma_phases_in_order(events: Seq<Event>)
    ensures
        run(Phase::RadioInit, events).0 == Phase::Joining ==> radio_up(events),
        run(Phase::RadioInit, events).0 == Phase::AwaitingAddress ==> joined(events),
        run(Phase::RadioInit, events).0 == Phase::Serving ==> brought_up(events),
        run(Phase::RadioInit, events).0 == Phase::Halted ==> events.contains(Event::RadioFailed),
    decreases events.len(),
{
    if events.len() > 0 {
        let earlier = events.drop_last();
        let last = events.len() - 1;
        lemma_phases_in_order(earlier);
        let before = run(Phase::RadioInit, earlier).0;
        let after = run(Phase::RadioInit, events).0;
        assert(after == next(before, events.last()).0);
        assert(forall|i: int| 0 <= i < earlier.len() ==> earlier[i] == events[i]);
        if after == Phase::Joining {
            if before == Phase::Joining {
                let i = choose|i: int| 0 <= i < earlier.len() && earlier[i] == Event::RadioReady;
                assert(events[i] == Event::RadioReady);
            } else {
                assert(events[last] == Event::RadioReady);
            }
        }
        if after == Phase::AwaitingAddress {
            if before == Phase::AwaitingAddress {
                let (i, j) = choose|i: int, j: int|
                    0 <= i < j < earlier.len() && earlier[i] == Event::RadioReady && earlier[j]
                        == Event::JoinSucceeded;
                assert(events[i] == Event::RadioReady && events[j] == Event::JoinSucceeded);
            } else {
                let i = choose|i: int| 0 <= i < earlier.len() && earlier[i] == Event::RadioReady;
                assert(events[i] == Event::RadioReady && events[last] == Event::JoinSucceeded);
            }
        }
        if after == Phase::Serving {
            if before == Phase::Serving {
                let (i, j, k) = choose|i: int, j: int, k: int|
                    0 <= i < j < k < earlier.len() && earlier[i] == Event::RadioReady && earlier[j]
                        == Event::JoinSucceeded && earlier[k] == (Event::AddressPolled {
                        configured: true,
                    });
                assert(events[i] == Event::RadioReady && events[j] == Event::JoinSucceeded
                    && events[k] == (Event::AddressPolled { configured: true }));
            } else {
                let (i, j) = choose|i: int, j: int|
                    0 <= i < j < earlier.len() && earlier[i] == Event::RadioReady && earlier[j]
                        == Event::JoinSucceeded;
                assert(events[i] == Event::RadioReady && events[j] == Event::JoinSucceeded
                    && events[last] == (Event::AddressPolled { configured: true }));
            }
        }
        if after == Phase::Halted {
            if before == Phase::Halted {
                let i = choose|i: int| 0 <= i < earlier.len() && earlier[i] == Event::RadioFailed;
                assert(events[i] == Event::RadioFailed);
            } else {
                assert(events[last] == Event::RadioFailed);
            }
        }
    }
}

/// The worker pool is started at most once, and by nothing but the poll
/// that finds the address configured: every `Serve` among the actions
/// answers such a poll, and the events before it hold the radio coming up
/// and a join that succeeded.
pub proof fn lemma_serve_after_bring_up(events: Seq<Event>, at: int)
    requires
        0 <= at < events.len(),
        run(Phase::RadioInit, events).1[at] is Serve,
    ensures
        run(Phase::RadioInit, events).1[at] == (Action::Serve { workers: POOL_SIZE }),
        events[at] == (Event::AddressPolled { configured: true }),
        joined(events.take(at)),
        brought_up(events.take(at + 1)),
        forall|other: int|
            0 <= other < events.len() && other != at ==> !(#[trigger] run(
                Phase::RadioInit,
                events,
            ).1[other] is Serve),
{
    lemma_run_prefix(Phase::RadioInit, events, at);
    lemma_phases_in_order(events.take(at));
    lemma_phases_in_order(events.take(at + 1));
    assert forall|other: int| 0 <= other < events.len() && other != at implies !(#[trigger] run(
        Phase::RadioInit,
        events,
    ).1[other] is Serve) by {
        lemma_run_prefix(Phase::RadioInit, events, other);
        assert_by_contradiction!(!(run(Phase::RadioInit, events).1[other] is Serve), {
            let (first, second) = if other < at {
                (other, at)
            } else {
                (at, other)
            };
            let between = events.take(second).skip(first + 1);
            assert(events.take(first + 1) + between =~= events.take(second));
            lemma_run_split(Phase::RadioInit, events.take(first + 1), between);
            lemma_serving_stays(Phase::Serving, between);
        });
    }
}

/// The action at `at` is the step that the event at `at` causes in the phase
/// reached by the events before it.
pub proof fn lemma_run_prefix(phase: Phase, events: Seq<Event>, at: int)
    requires
        0 <= at < events.len(),
    ensures
        run(phase, events).1.len() == events.len(),
        run(phase, events).1[at] == next(run(phase, events.take(at)).0, events[at]).1,
        run(phase, events.take(at + 1)).0 == next(run(phase, events.take(at)).0, events[at]).0,
    decreases events.len(),
{
    lemma_run_len(phase, events);
    let upto = events.take(at + 1);
    assert(upto.drop_last() =~= events.take(at));
    assert(upto.last() == events[at]);
    if at == events.len() - 1 {
        assert(events.take(at + 1) =~= events);
        assert(events.drop_last() =~= events.take(at));
    } else {
        let earlier = events.drop_last();
        lemma_run_prefix(phase, earlier, at);
        lemma_run_len(phase, earlier);
        assert(earlier.take(at) =~= events.take(at));
    }
}

/// One action is handed out for each event.
pub proof fn lemma_run_len(phase: Phase, events: Seq<Event>)
    ensures
        run(phase, events).1.len() == events.len(),
    decreases events.len(),
{
    if events.len() > 0 {
        lemma_run_len(phase, events.drop_last());
    }
}

/// Serving and halted are final: no event leads out of them.
pub proof fn lemma_serving_stays(phase: Phase, events: Seq<Event>)
    requires
        phase == Phase::Serving || phase == Phase::Halted,
    ensures
        run(phase, events).0 == phase,
    decreases events.len(),
{
    if events.len() > 0 {
        lemma_serving_stays(phase, events.drop_last());
    }
}

/// Runs a recorded sequence of events from `phase`, as a simulation of the
/// firmware does, and gives the phase reached and the actions handed out.
pub fn replay(phase: Phase, events: &[Event]) -> (outcome: (Phase, Vec<Action>))
    ensures
        (outcome.0, outcome.1@) == run(phase, events@),
{
    let mut reached = phase;
    let mut actions: Vec<Action> = Vec::new();
    let mut i: usize = 0;
    while i < events.len()
        invariant
            i <= events.len(),
            (reached, actions@) == run(phase, events@.take(i as int)),
        decreases events.len() - i,
    {
        proof {
            let upto = events@.take(i + 1);
            assert(upto.drop_last() =~= events@.take(i as int));
            assert(upto.last() == events@[i as int]);
        }
        let (after, action) = advance(reached, events[i]);
        reached = after;
        actions.push(action);
        i += 1;
    }
    proof {
        assert(events@.take(i as int) =~= events@);
    }
    (reached, actions)
}

} // verus!
