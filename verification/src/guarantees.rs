//! What holds of every run of the relay engine, proved over [`spec_run`].

use vstd::prelude::*;
use crate::speaker::{
    closes, finishes, joined, received, relayed, relaying, spawns, spec_accepted, spec_run,
    spec_step, waits, written, Action, Event, Outcome, State,
};

verus! {

/// What the actions answered so far have to be like for the engine to be in
/// `state`.
pub open spec fn consistent(state: State, actions: Seq<Action>) -> bool {
    match state {
        State::Idle => actions.len() == 0,
        State::Spawning => {
            &&& counted(actions, 1, 0, 0, 0)
            &&& actions.len() > 0
            &&& actions.last() is Spawn
        },
        State::Reading => {
            &&& counted(actions, 1, 0, 0, 0)
            &&& actions.len() > 0
            &&& actions.last() is NextChunk
        },
        State::Writing => {
            &&& counted(actions, 1, 0, 0, 0)
            &&& actions.len() > 0
            &&& actions.last() is Write
        },
        State::Closing(_) => {
            &&& counted(actions, 1, 1, 0, 0)
            &&& actions.len() > 0
            &&& actions.last() is CloseInput
        },
        State::Waiting(_) => {
            &&& counted(actions, 1, 1, 1, 0)
            &&& actions.len() > 0
            &&& actions.last() is Wait
        },
        State::Done(outcome) => {
            &&& if outcome is SpawnFailure {
                counted(actions, 1, 0, 0, 1)
            } else {
                counted(actions, 1, 1, 1, 1)
            }
            &&& actions.len() > 0
            &&& actions.last() == Action::Finish(outcome)
        },
    }
}

/// How often `actions` start the player, close its input, wait for its exit
/// and report an outcome.
pub open spec fn counted(
    actions: Seq<Action>,
    started: nat,
    closed: nat,
    waited: nat,
    finished: nat,
) -> bool {
    &&& spawns(actions) == started
    &&& closes(actions) == closed
    &&& waits(actions) == waited
    &&& finishes(actions) == finished
}

/// One more event leads a run to what [`spec_step`] says of the state reached
/// so far.
pub proof fn lemma_run_push(start: State, events: Seq<Event>, event: Event)
    ensures
        spec_run(start, events.push(event)) == match spec_step(spec_run(start, events).0, event) {
            Some((next, action)) => (next, spec_run(start, events).1.push(action)),
            None => spec_run(start, events),
        },
{
    let longer = events.push(event);
    assert(longer.drop_last() =~= events);
    assert(longer.last() == event);
}

proof fn lemma_counts_push(actions: Seq<Action>, action: Action)
    ensures
        spawns(actions.push(action)) == spawns(actions) + if action is Spawn { 1nat } else { 0nat },
        closes(actions.push(action)) == closes(actions) + if action is CloseInput { 1nat } else { 0nat },
        waits(actions.push(action)) == waits(actions) + if action is Wait { 1nat } else { 0nat },
        finishes(actions.push(action)) == finishes(actions) + if action is Finish { 1nat } else { 0nat },
{
    let longer = actions.push(action);
    assert(longer.drop_last() =~= actions);
    assert(longer.last() == action);
}

proof fn lemma_counts_empty(actions: Seq<Action>)
    ensures
        actions.len() == 0 ==> spawns(actions) == 0 && closes(actions) == 0 && waits(actions) == 0
            && finishes(actions) == 0,
{
}

/// Every run from [`State::Idle`] keeps the state and the actions answered
/// consistent with each other, whatever events arrive and in whatever order.
pub proof fn lemma_run_consistent(events: Seq<Event>)
    ensures
        consistent(spec_run(State::Idle, events).0, spec_run(State::Idle, events).1),
    decreases events.len(),
{
    if events.len() > 0 {
        let before = events.drop_last();
        lemma_run_consistent(before);
        let (reached, answered) = spec_run(State::Idle, before);
        lemma_counts_empty(answered);
        match spec_step(reached, events.last()) {
            Some((next, action)) => {
                lemma_counts_push(answered, action);
                assert(answered.push(action).last() == action);
            },
            None => {},
        }
    }
}

/// The player's input is closed at most once, it is waited for at most once,
/// the player is started at most once and at most one outcome is reported:
/// in every run, under any combination of events.
pub proof fn lemma_at_most_once(events: Seq<Event>)
    ensures
        spawns(spec_run(State::Idle, events).1) <= 1,
        closes(spec_run(State::Idle, events).1) <= 1,
        waits(spec_run(State::Idle, events).1) <= 1,
        finishes(spec_run(State::Idle, events).1) <= 1,
{
    lemma_run_consistent(events);
    lemma_counts_empty(spec_run(State::Idle, events).1);
}

/// A run that is over has released the player it started: unless the start
/// itself failed, the input was closed exactly once and the exit awaited
/// exactly once. Where the start failed, neither was ever asked for. The last
/// action reports the outcome that the state holds.
pub proof fn lemma_released_when_done(events: Seq<Event>, outcome: Outcome)
    requires
        spec_run(State::Idle, events).0 == State::Done(outcome),
    ensures
        outcome is SpawnFailure ==> closes(spec_run(State::Idle, events).1) == 0 && waits(
            spec_run(State::Idle, events).1,
        ) == 0,
        !(outcome is SpawnFailure) ==> closes(spec_run(State::Idle, events).1) == 1 && waits(
            spec_run(State::Idle, events).1,
        ) == 1,
        spec_run(State::Idle, events).1.len() > 0,
        spec_run(State::Idle, events).1.last() == Action::Finish(outcome),
{
    lemma_run_consistent(events);
}

proof fn lemma_written_push(actions: Seq<Action>, action: Action)
    ensures
        written(actions.push(action)) == match action {
            Action::Write(bytes) => written(actions) + bytes@,
            _ => written(actions),
        },
{
    let longer = actions.push(action);
    assert(longer.drop_last() =~= actions);
    assert(longer.last() == action);
}

proof fn lemma_received_push(events: Seq<Event>, event: Event)
    ensures
        received(events.push(event)) == match event {
            Event::Chunk(bytes) => received(events) + bytes@,
            _ => received(events),
        },
{
    let longer = events.push(event);
    assert(longer.drop_last() =~= events);
    assert(longer.last() == event);
}

/// The engine passes on what it is given and nothing else: in every run, from
/// any state, the bytes of the writes it asks for are the bytes of the chunks
/// it accepted, in the order in which they arrived.
pub proof fn lemma_written_is_received(start: State, events: Seq<Event>)
    ensures
        written(spec_run(start, events).1) == received(spec_accepted(start, events)),
    decreases events.len(),
{
    if events.len() > 0 {
        let before = events.drop_last();
        lemma_written_is_received(start, before);
        let (reached, answered) = spec_run(start, before);
        match spec_step(reached, events.last()) {
            Some((next, action)) => {
                lemma_written_push(answered, action);
                lemma_received_push(spec_accepted(start, before), events.last());
            },
            None => {},
        }
    }
}

/// In every run, an [`Action::Wait`] directly follows an
/// [`Action::CloseInput`]: the exit is never awaited while the input is open.
pub proof fn lemma_close_before_wait(events: Seq<Event>, i: int)
    requires
        0 <= i < spec_run(State::Idle, events).1.len(),
        spec_run(State::Idle, events).1[i] is Wait,
    ensures
        i > 0,
        spec_run(State::Idle, events).1[i - 1] is CloseInput,
    decreases events.len(),
{
    if events.len() > 0 {
        let before = events.drop_last();
        let (reached, answered) = spec_run(State::Idle, before);
        lemma_run_consistent(before);
        if i < answered.len() {
            lemma_close_before_wait(before, i);
        }
    }
}

proof fn lemma_nothing_closed(actions: Seq<Action>, i: int)
    requires
        closes(actions) == 0,
        0 <= i < actions.len(),
    ensures
        !(actions[i] is CloseInput),
    decreases actions.len(),
{
    if i < actions.len() - 1 {
        lemma_nothing_closed(actions.drop_last(), i);
    }
}

/// In every run, no [`Action::Write`] follows an [`Action::CloseInput`]:
/// nothing is written to an input that was closed.
pub proof fn lemma_no_write_after_close(events: Seq<Event>, i: int, j: int)
    requires
        0 <= i < j < spec_run(State::Idle, events).1.len(),
        spec_run(State::Idle, events).1[i] is CloseInput,
    ensures
        !(spec_run(State::Idle, events).1[j] is Write),
    decreases events.len(),
{
    if events.len() > 0 {
        let before = events.drop_last();
        let (reached, answered) = spec_run(State::Idle, before);
        lemma_run_consistent(before);
        if j < answered.len() {
            lemma_no_write_after_close(before, i, j);
        } else if spec_run(State::Idle, events).1[j] is Write {
            lemma_nothing_closed(answered, i);
        }
    }
}

/// In every run, a write is followed by the request for the next chunk or
/// by the closing of the input, never by another write: a chunk is written
/// in full before the next one is asked for.
pub proof fn lemma_one_write_at_a_time(events: Seq<Event>, i: int)
    requires
        0 <= i,
        i + 1 < spec_run(State::Idle, events).1.len(),
        spec_run(State::Idle, events).1[i] is Write,
    ensures
        spec_run(State::Idle, events).1[i + 1] is NextChunk || spec_run(
            State::Idle,
            events,
        ).1[i + 1] is CloseInput,
    decreases events.len(),
{
    if events.len() > 0 {
        let before = events.drop_last();
        let (reached, answered) = spec_run(State::Idle, before);
        lemma_run_consistent(before);
        if i + 1 < answered.len() {
            lemma_one_write_at_a_time(before, i);
        }
    }
}

proof fn lemma_counts_after_spawn(actions: Seq<Action>)
    ensures
        spawns(seq![Action::Spawn] + actions) == spawns(actions) + 1,
        closes(seq![Action::Spawn] + actions) == closes(actions),
        waits(seq![Action::Spawn] + actions) == waits(actions),
        finishes(seq![Action::Spawn] + actions) == finishes(actions),
    decreases actions.len(),
{
    let first = seq![Action::Spawn];
    if actions.len() == 0 {
        assert(first + actions =~= Seq::<Action>::empty().push(Action::Spawn));
        lemma_counts_push(Seq::<Action>::empty(), Action::Spawn);
    } else {
        lemma_counts_after_spawn(actions.drop_last());
        assert(first + actions =~= (first + actions.drop_last()).push(actions.last()));
        lemma_counts_push(first + actions.drop_last(), actions.last());
    }
}

/// A run of an engine that has taken its start is the rest of a run from
/// [`State::Idle`]: the same state is reached, and the actions are the same
/// behind the one that starts the player. What holds of every run from
/// [`State::Idle`] so holds of the engine that [`crate::api::accept`] and
/// [`crate::speaker::Relay::started`] hand out.
pub proof fn lemma_run_after_start(events: Seq<Event>)
    ensures
        spec_run(State::Idle, seq![Event::Start] + events).0 == spec_run(
            State::Spawning,
            events,
        ).0,
        spec_run(State::Idle, seq![Event::Start] + events).1 == seq![Action::Spawn] + spec_run(
            State::Spawning,
            events,
        ).1,
    decreases events.len(),
{
    let first = seq![Event::Start];
    if events.len() == 0 {
        assert(first + events =~= Seq::<Event>::empty().push(Event::Start));
        lemma_run_push(State::Idle, Seq::<Event>::empty(), Event::Start);
        assert(seq![Action::Spawn] + Seq::<Action>::empty() =~= Seq::<Action>::empty().push(
            Action::Spawn,
        ));
    } else {
        let before = events.drop_last();
        lemma_run_after_start(before);
        assert(first + events =~= (first + before).push(events.last()));
        lemma_run_push(State::Idle, first + before, events.last());
        let (reached, answered) = spec_run(State::Spawning, before);
        match spec_step(reached, events.last()) {
            Some((next, action)) => {
                assert((seq![Action::Spawn] + answered).push(action) =~= seq![Action::Spawn]
                    + answered.push(action));
            },
            None => {},
        }
    }
}

/// The engine that has taken its start never asks for a second player, and
/// closes the input and waits for the exit at most once each and reports at
/// most one outcome, whatever events arrive. Once it is over, the player it
/// started has been released as [`lemma_released_when_done`] says.
pub proof fn lemma_at_most_once_after_start(events: Seq<Event>)
    ensures
        spawns(spec_run(State::Spawning, events).1) == 0,
        closes(spec_run(State::Spawning, events).1) <= 1,
        waits(spec_run(State::Spawning, events).1) <= 1,
        finishes(spec_run(State::Spawning, events).1) <= 1,
        spec_run(State::Spawning, events).0 matches State::Done(outcome) ==> {
            &&& finishes(spec_run(State::Spawning, events).1) == 1
            &&& spec_run(State::Spawning, events).1.len() > 0
            &&& spec_run(State::Spawning, events).1.last() == Action::Finish(outcome)
            &&& if outcome is SpawnFailure {
                closes(spec_run(State::Spawning, events).1) == 0 && waits(
                    spec_run(State::Spawning, events).1,
                ) == 0
            } else {
                closes(spec_run(State::Spawning, events).1) == 1 && waits(
                    spec_run(State::Spawning, events).1,
                ) == 1
            }
        },
{
    let whole = seq![Event::Start] + events;
    let actions = spec_run(State::Spawning, events).1;
    lemma_run_after_start(events);
    lemma_run_consistent(whole);
    lemma_counts_after_spawn(actions);
    lemma_counts_empty(spec_run(State::Idle, whole).1);
    if spec_run(State::Spawning, events).0 is Done {
        let all = seq![Action::Spawn] + actions;
        assert(all.last() is Finish);
        assert(actions.len() > 0);
        assert(all.last() == actions.last());
    }
}

/// Whether `event` reports how performing `action` went.
pub open spec fn answers(event: Event, action: Action) -> bool {
    match action {
        Action::Spawn => event is Spawned || event is SpawnFailed,
        Action::NextChunk => event is Chunk || event is StreamFailed || event is StreamEnded,
        Action::Write(_) => event is Written || event is WriteFailed,
        Action::CloseInput => event is InputClosed,
        Action::Wait => event is Exited,
        Action::Finish(_) => false,
    }
}

/// After each step the engine expects exactly the events that answer the
/// action it has just given: a caller that performs every action and reports
/// its result is never refused, and once the outcome is reported nothing
/// more is taken.
pub proof fn lemma_expects_the_answer(
    state: State,
    event: Event,
    next: State,
    action: Action,
    answer: Event,
)
    requires
        spec_step(state, event) == Some((next, action)),
    ensures
        spec_step(next, answer) is Some <==> answers(answer, action),
{
}

/// The events that open a run up to the first request for a chunk.
pub open spec fn opened() -> Seq<Event> {
    seq![Event::Start, Event::Spawned]
}

/// The actions answered to [`opened`].
pub open spec fn opening() -> Seq<Action> {
    seq![Action::Spawn, Action::NextChunk]
}

/// Chunks that arrive one by one, each written in full, are written in the
/// order of their arrival, and leave the engine asking for the next one.
pub proof fn lemma_relaying(chunks: Seq<Vec<u8>>)
    ensures
        spec_run(State::Idle, opened() + relayed(chunks)) == (
            State::Reading,
            opening() + relaying(chunks),
        ),
        written(opening() + relaying(chunks)) == joined(chunks),
    decreases chunks.len(),
{
    if chunks.len() == 0 {
        let none = Seq::<Event>::empty();
        assert(opened() + relayed(chunks) =~= none.push(Event::Start).push(Event::Spawned));
        lemma_run_push(State::Idle, none, Event::Start);
        lemma_run_push(State::Idle, none.push(Event::Start), Event::Spawned);
        let silent = Seq::<Action>::empty();
        assert(opening() + relaying(chunks) =~= silent.push(Action::Spawn).push(Action::NextChunk));
        lemma_written_push(silent, Action::Spawn);
        lemma_written_push(silent.push(Action::Spawn), Action::NextChunk);
    } else {
        let before = chunks.drop_last();
        let chunk = chunks.last();
        lemma_relaying(before);
        let events = opened() + relayed(before);
        let actions = opening() + relaying(before);
        assert(opened() + relayed(chunks) =~= events.push(Event::Chunk(chunk)).push(Event::Written));
        lemma_run_push(State::Idle, events, Event::Chunk(chunk));
        lemma_run_push(State::Idle, events.push(Event::Chunk(chunk)), Event::Written);
        assert(opening() + relaying(chunks) =~= actions.push(Action::Write(chunk)).push(
            Action::NextChunk,
        ));
        lemma_written_push(actions, Action::Write(chunk));
        lemma_written_push(actions.push(Action::Write(chunk)), Action::NextChunk);
    }
}

/// How a run ends once relaying is over: the input is closed, the exit is
/// awaited, the outcome is reported.
pub open spec fn releasing(outcome: Outcome) -> Seq<Action> {
    seq![Action::CloseInput, Action::Wait, Action::Finish(outcome)]
}

/// The release of the player is owed on every way out of relaying: from any
/// run that stands at the request for a chunk, the end of the stream or its
/// failure is answered by closing the input, then by waiting for the exit,
/// then by the outcome. A failure of the stream is the outcome whatever the
/// exit status; after a clean end the exit status decides. Nothing is
/// written on the way.
pub proof fn lemma_release(events: Seq<Event>, actions: Seq<Action>, ending: Event, ok: bool)
    requires
        spec_run(State::Idle, events) == (State::Reading, actions),
        ending is StreamEnded || ending is StreamFailed,
    ensures
        ({
            let outcome = match ending {
                Event::StreamFailed(status) => Outcome::ClientStreamFailure(status),
                _ => if ok {
                    Outcome::Success
                } else {
                    Outcome::NonZeroExit
                },
            };
            &&& spec_run(State::Idle, events + seq![ending, Event::InputClosed, Event::Exited(ok)]) == (
                State::Done(outcome),
                actions + releasing(outcome),
            )
            &&& written(actions + releasing(outcome)) == written(actions)
        }),
{
    let outcome = match ending {
        Event::StreamFailed(status) => Outcome::ClientStreamFailure(status),
        _ => if ok {
            Outcome::Success
        } else {
            Outcome::NonZeroExit
        },
    };
    let first = events.push(ending);
    let second = first.push(Event::InputClosed);
    assert(events + seq![ending, Event::InputClosed, Event::Exited(ok)] =~= second.push(
        Event::Exited(ok),
    ));
    lemma_run_push(State::Idle, events, ending);
    lemma_run_push(State::Idle, first, Event::InputClosed);
    lemma_run_push(State::Idle, second, Event::Exited(ok));
    let closing = actions.push(Action::CloseInput);
    let waiting = closing.push(Action::Wait);
    assert(actions + releasing(outcome) =~= waiting.push(Action::Finish(outcome)));
    lemma_written_push(actions, Action::CloseInput);
    lemma_written_push(closing, Action::Wait);
    lemma_written_push(waiting, Action::Finish(outcome));
}

/// A stream that ends without an error, every chunk of it written: the
/// outcome is [`Outcome::Success`] where the player exits successfully and
/// [`Outcome::NonZeroExit`] where it does not. Either way the player's input
/// received the bytes of the chunks, joined in the order of their arrival,
/// and was closed once, and the exit was awaited once.
pub proof fn lemma_stream_relayed(chunks: Seq<Vec<u8>>, exited_ok: bool)
    ensures
        ({
            let events = opened() + relayed(chunks) + seq![
                Event::StreamEnded,
                Event::InputClosed,
                Event::Exited(exited_ok),
            ];
            let outcome = if exited_ok {
                Outcome::Success
            } else {
                Outcome::NonZeroExit
            };
            let (state, actions) = spec_run(State::Idle, events);
            &&& state == State::Done(outcome)
            &&& actions == opening() + relaying(chunks) + releasing(outcome)
            &&& written(actions) == joined(chunks)
            &&& closes(actions) == 1
            &&& waits(actions) == 1
        }),
{
    lemma_relaying(chunks);
    lemma_release(opened() + relayed(chunks), opening() + relaying(chunks), Event::StreamEnded, exited_ok);
    let events = opened() + relayed(chunks) + seq![
        Event::StreamEnded,
        Event::InputClosed,
        Event::Exited(exited_ok),
    ];
    lemma_run_consistent(events);
}

/// A stream that fails after some chunks were relayed: the outcome is
/// [`Outcome::ClientStreamFailure`] with the stream's status code, whatever
/// the player's exit status. The input is still closed once and the exit
/// awaited once, and the chunks that arrived before the failure were written.
pub proof fn lemma_stream_failure(chunks: Seq<Vec<u8>>, status: u16, exited_ok: bool)
    ensures
        ({
            let events = opened() + relayed(chunks) + seq![
                Event::StreamFailed(status),
                Event::InputClosed,
                Event::Exited(exited_ok),
            ];
            let outcome = Outcome::ClientStreamFailure(status);
            let (state, actions) = spec_run(State::Idle, events);
            &&& state == State::Done(outcome)
            &&& actions == opening() + relaying(chunks) + releasing(outcome)
            &&& written(actions) == joined(chunks)
            &&& closes(actions) == 1
            &&& waits(actions) == 1
        }),
{
    lemma_relaying(chunks);
    lemma_release(
        opened() + relayed(chunks),
        opening() + relaying(chunks),
        Event::StreamFailed(status),
        exited_ok,
    );
    let events = opened() + relayed(chunks) + seq![
        Event::StreamFailed(status),
        Event::InputClosed,
        Event::Exited(exited_ok),
    ];
    lemma_run_consistent(events);
}

/// A write that fails after some chunks were relayed: the outcome is
/// [`Outcome::PipeWriteFailure`] with the write's diagnostic, whatever the
/// player's exit status, and no further chunk is asked for. The input is
/// still closed once and the exit awaited once.
pub proof fn lemma_write_failure(
    chunks: Seq<Vec<u8>>,
    refused: Vec<u8>,
    detail: String,
    exited_ok: bool,
)
    ensures
        ({
            let events = opened() + relayed(chunks) + seq![
                Event::Chunk(refused),
                Event::WriteFailed(detail),
                Event::InputClosed,
                Event::Exited(exited_ok),
            ];
            let outcome = Outcome::PipeWriteFailure(detail);
            let (state, actions) = spec_run(State::Idle, events);
            &&& state == State::Done(outcome)
            &&& actions == opening() + relaying(chunks) + seq![Action::Write(refused)] + releasing(
                outcome,
            )
            &&& closes(actions) == 1
            &&& waits(actions) == 1
        }),
{
    lemma_relaying(chunks);
    let relayed_so_far = opened() + relayed(chunks);
    let answered = opening() + relaying(chunks);
    let outcome = Outcome::PipeWriteFailure(detail);
    let e1 = relayed_so_far.push(Event::Chunk(refused));
    let e2 = e1.push(Event::WriteFailed(detail));
    let e3 = e2.push(Event::InputClosed);
    let events = opened() + relayed(chunks) + seq![
        Event::Chunk(refused),
        Event::WriteFailed(detail),
        Event::InputClosed,
        Event::Exited(exited_ok),
    ];
    assert(events =~= e3.push(Event::Exited(exited_ok)));
    lemma_run_push(State::Idle, relayed_so_far, Event::Chunk(refused));
    lemma_run_push(State::Idle, e1, Event::WriteFailed(detail));
    lemma_run_push(State::Idle, e2, Event::InputClosed);
    lemma_run_push(State::Idle, e3, Event::Exited(exited_ok));
    assert(answered + seq![Action::Write(refused)] + releasing(outcome) =~= answered.push(
        Action::Write(refused),
    ).push(Action::CloseInput).push(Action::Wait).push(Action::Finish(outcome)));
    lemma_run_consistent(events);
}

/// A player that cannot be started: the outcome is
/// [`Outcome::SpawnFailure`] with the diagnostic, nothing is asked of the
/// stream, and neither closing nor waiting is ever asked for.
pub proof fn lemma_spawn_failure(detail: String)
    ensures
        ({
            let events = seq![Event::Start, Event::SpawnFailed(detail)];
            let outcome = Outcome::SpawnFailure(detail);
            let (state, actions) = spec_run(State::Idle, events);
            &&& state == State::Done(outcome)
            &&& actions == seq![Action::Spawn, Action::Finish(outcome)]
            &&& closes(actions) == 0
            &&& waits(actions) == 0
        }),
{
    let none = Seq::<Event>::empty();
    let events = seq![Event::Start, Event::SpawnFailed(detail)];
    let outcome = Outcome::SpawnFailure(detail);
    assert(events =~= none.push(Event::Start).push(Event::SpawnFailed(detail)));
    lemma_run_push(State::Idle, none, Event::Start);
    lemma_run_push(State::Idle, none.push(Event::Start), Event::SpawnFailed(detail));
    assert(seq![Action::Spawn, Action::Finish(outcome)] =~= Seq::<Action>::empty().push(
        Action::Spawn,
    ).push(Action::Finish(outcome)));
    lemma_run_consistent(events);
}

} // verus!
