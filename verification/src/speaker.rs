//! The relay engine: a state machine that moves an inbound stream of byte
//! chunks into the input pipe of a player process.
//!
//! The engine performs no I/O. Its caller hands it an [`Event`] for what just
//! happened and performs the [`Action`] that [`Relay::step`] answers with,
//! until that action is [`Action::Finish`].

use vstd::prelude::*;

verus! {

/// The program that plays the audio.
pub const PLAYER_PROGRAM: &'static str = "aplay";

/// The arguments of the player: raw input, mu-law samples, one channel,
/// 8000 samples a second, no messages.
pub open spec fn spec_player_arguments() -> Seq<&'static str> {
    seq!["-t", "raw", "-f", "MU_LAW", "-c", "1", "-r", "8000", "-q"]
}

/// The arguments to start [`PLAYER_PROGRAM`] with.
pub fn player_arguments() -> (r: Vec<&'static str>)
    ensures
        r@ == spec_player_arguments(),
{
    let arguments: Vec<&'static str> = vec!["-t", "raw", "-f", "MU_LAW", "-c", "1", "-r", "8000", "-q"];
    assert(arguments@ =~= spec_player_arguments());
    arguments
}

/// The final result of one playback request.
#[derive(Clone, Debug, PartialEq, Eq)]
pub enum Outcome {
    /// Every chunk was written and the player exited successfully.
    Success,
    /// The inbound stream failed; the payload is the status code that the
    /// stream's own error reports.
    ClientStreamFailure(u16),
    /// A write to the player's input failed; the payload is the diagnostic.
    PipeWriteFailure(String),
    /// The player could not be started; the payload is the diagnostic.
    SpawnFailure(String),
    /// The player was fed in full and exited with a failure status.
    NonZeroExit,
}

/// A failure found while relaying, kept until the player has been released.
#[derive(Clone, Debug, PartialEq, Eq)]
pub enum Failure {
    /// The inbound stream failed with this status code.
    ClientStream(u16),
    /// A write to the player's input failed with this diagnostic.
    PipeWrite(String),
}

/// Where the engine stands.
#[derive(Clone, Debug, PartialEq, Eq)]
pub enum State {
    /// Nothing has happened yet.
    Idle,
    /// The player is being started.
    Spawning,
    /// Relaying: the next chunk has been asked for.
    Reading,
    /// Relaying: a chunk is being written.
    Writing,
    /// The player's input is being closed.
    Closing(Option<Failure>),
    /// The player's exit is awaited.
    Waiting(Option<Failure>),
    /// The request is over.
    Done(Outcome),
}

/// What the caller reports to the engine.
#[derive(Clone, Debug, PartialEq, Eq)]
pub enum Event {
    /// A request with an accepted media type has arrived.
    Start,
    /// The player was started.
    Spawned,
    /// The player could not be started.
    SpawnFailed(String),
    /// The inbound stream yielded a chunk.
    Chunk(Vec<u8>),
    /// The inbound stream yielded an error with this status code.
    StreamFailed(u16),
    /// The inbound stream is exhausted.
    StreamEnded,
    /// The chunk was written in full.
    Written,
    /// The write failed.
    WriteFailed(String),
    /// The player's input was closed.
    InputClosed,
    /// The player exited; `true` for a successful exit status.
    Exited(bool),
}

/// What the engine asks of its caller.
#[derive(Clone, Debug, PartialEq, Eq)]
pub enum Action {
    /// Start the player.
    Spawn,
    /// Ask the inbound stream for its next chunk.
    NextChunk,
    /// Write these bytes, all of them, to the player's input.
    Write(Vec<u8>),
    /// Signal the end of input to the player.
    CloseInput,
    /// Wait for the player to exit.
    Wait,
    /// Report the outcome; nothing is left to do.
    Finish(Outcome),
}

/// The outcome that a kept failure stands for.
pub open spec fn spec_failure_outcome(failure: Failure) -> Outcome {
    match failure {
        Failure::ClientStream(status) => Outcome::ClientStreamFailure(status),
        Failure::PipeWrite(detail) => Outcome::PipeWriteFailure(detail),
    }
}

/// The final outcome, from what relaying left pending and the player's exit:
/// a pending failure wins over the exit status.
pub open spec fn spec_conclude(pending: Option<Failure>, exited_ok: bool) -> Outcome {
    match pending {
        Some(failure) => spec_failure_outcome(failure),
        None => if exited_ok {
            Outcome::Success
        } else {
            Outcome::NonZeroExit
        },
    }
}

/// The transition relation: the next state and the action for an event that
/// the state expects, `None` for any other event.
pub open spec fn spec_step(state: State, event: Event) -> Option<(State, Action)> {
    match (state, event) {
        (State::Idle, Event::Start) => Some((State::Spawning, Action::Spawn)),
        (State::Spawning, Event::Spawned) => Some((State::Reading, Action::NextChunk)),
        (State::Spawning, Event::SpawnFailed(detail)) => Some(
            (State::Done(Outcome::SpawnFailure(detail)), Action::Finish(Outcome::SpawnFailure(detail))),
        ),
        (State::Reading, Event::Chunk(bytes)) => Some((State::Writing, Action::Write(bytes))),
        (State::Reading, Event::StreamFailed(status)) => Some(
            (State::Closing(Some(Failure::ClientStream(status))), Action::CloseInput),
        ),
        (State::Reading, Event::StreamEnded) => Some((State::Closing(None), Action::CloseInput)),
        (State::Writing, Event::Written) => Some((State::Reading, Action::NextChunk)),
        (State::Writing, Event::WriteFailed(detail)) => Some(
            (State::Closing(Some(Failure::PipeWrite(detail))), Action::CloseInput),
        ),
        (State::Closing(pending), Event::InputClosed) => Some((State::Waiting(pending), Action::Wait)),
        (State::Waiting(pending), Event::Exited(ok)) => Some(
            (State::Done(spec_conclude(pending, ok)), Action::Finish(spec_conclude(pending, ok))),
        ),
        _ => None,
    }
}

/// A run of the engine: the state that `events`, taken in order from `start`,
/// lead to, and the actions answered on the way. An event that the state it
/// meets does not expect changes nothing and is answered by no action.
pub open spec fn spec_run(start: State, events: Seq<Event>) -> (State, Seq<Action>)
    decreases events.len(),
{
    if events.len() == 0 {
        (start, Seq::empty())
    } else {
        let (reached, answered) = spec_run(start, events.drop_last());
        match spec_step(reached, events.last()) {
            Some((next, action)) => (next, answered.push(action)),
            None => (reached, answered),
        }
    }
}

/// How many of `actions` are [`Action::Spawn`].
pub open spec fn spawns(actions: Seq<Action>) -> nat
    decreases actions.len(),
{
    if actions.len() == 0 {
        0
    } else if actions.last() is Spawn {
        spawns(actions.drop_last()) + 1
    } else {
        spawns(actions.drop_last())
    }
}

/// How many of `actions` are [`Action::CloseInput`].
pub open spec fn closes(actions: Seq<Action>) -> nat
    decreases actions.len(),
{
    if actions.len() == 0 {
        0
    } else if actions.last() is CloseInput {
        closes(actions.drop_last()) + 1
    } else {
        closes(actions.drop_last())
    }
}

/// How many of `actions` are [`Action::Wait`].
pub open spec fn waits(actions: Seq<Action>) -> nat
    decreases actions.len(),
{
    if actions.len() == 0 {
        0
    } else if actions.last() is Wait {
        waits(actions.drop_last()) + 1
    } else {
        waits(actions.drop_last())
    }
}

/// How many of `actions` are [`Action::Finish`].
pub open spec fn finishes(actions: Seq<Action>) -> nat
    decreases actions.len(),
{
    if actions.len() == 0 {
        0
    } else if actions.last() is Finish {
        finishes(actions.drop_last()) + 1
    } else {
        finishes(actions.drop_last())
    }
}

/// The bytes that `actions` send to the player's input: the payloads of the
/// [`Action::Write`]s among them, joined in order.
pub open spec fn written(actions: Seq<Action>) -> Seq<u8>
    decreases actions.len(),
{
    if actions.len() == 0 {
        Seq::empty()
    } else {
        match actions.last() {
            Action::Write(bytes) => written(actions.drop_last()) + bytes@,
            _ => written(actions.drop_last()),
        }
    }
}

/// The bytes that `events` bring in: the payloads of the [`Event::Chunk`]s
/// among them, joined in order.
pub open spec fn received(events: Seq<Event>) -> Seq<u8>
    decreases events.len(),
{
    if events.len() == 0 {
        Seq::empty()
    } else {
        match events.last() {
            Event::Chunk(bytes) => received(events.drop_last()) + bytes@,
            _ => received(events.drop_last()),
        }
    }
}

/// The bytes of `chunks`, joined in order.
pub open spec fn joined(chunks: Seq<Vec<u8>>) -> Seq<u8>
    decreases chunks.len(),
{
    if chunks.len() == 0 {
        Seq::empty()
    } else {
        joined(chunks.drop_last()) + chunks.last()@
    }
}

/// The events of `spec_run(start, events)` that the state they met expected,
/// in order.
pub open spec fn spec_accepted(start: State, events: Seq<Event>) -> Seq<Event>
    decreases events.len(),
{
    if events.len() == 0 {
        Seq::empty()
    } else if spec_step(spec_run(start, events.drop_last()).0, events.last()) is Some {
        spec_accepted(start, events.drop_last()).push(events.last())
    } else {
        spec_accepted(start, events.drop_last())
    }
}

/// The events by which each of `chunks` arrives and is written in full
/// before the next one arrives.
pub open spec fn relayed(chunks: Seq<Vec<u8>>) -> Seq<Event>
    decreases chunks.len(),
{
    if chunks.len() == 0 {
        Seq::empty()
    } else {
        relayed(chunks.drop_last()).push(Event::Chunk(chunks.last())).push(Event::Written)
    }
}

/// The actions that relaying `chunks` takes: each chunk is written, then the
/// next one is asked for.
pub open spec fn relaying(chunks: Seq<Vec<u8>>) -> Seq<Action>
    decreases chunks.len(),
{
    if chunks.len() == 0 {
        Seq::empty()
    } else {
        relaying(chunks.drop_last()).push(Action::Write(chunks.last())).push(Action::NextChunk)
    }
}

impl Outcome {
    /// A copy of this outcome.
    pub fn duplicate(&self) -> (r: Outcome)
        ensures
            r == *self,
    {
        match self {
            Outcome::Success => Outcome::Success,
            Outcome::ClientStreamFailure(status) => Outcome::ClientStreamFailure(*status),
            Outcome::PipeWriteFailure(detail) => Outcome::PipeWriteFailure(detail.clone()),
            Outcome::SpawnFailure(detail) => Outcome::SpawnFailure(detail.clone()),
            Outcome::NonZeroExit => Outcome::NonZeroExit,
        }
    }
}

/// Combines what relaying left pending with the player's exit status.
pub fn conclude(pending: Option<Failure>, exited_ok: bool) -> (r: Outcome)
    ensures
        r == spec_conclude(pending, exited_ok),
{
    match pending {
        Some(Failure::ClientStream(status)) => Outcome::ClientStreamFailure(status),
        Some(Failure::PipeWrite(detail)) => Outcome::PipeWriteFailure(detail),
        None => if exited_ok {
            Outcome::Success
        } else {
            Outcome::NonZeroExit
        },
    }
}

/// The engine of one playback request.
#[derive(Debug, PartialEq, Eq)]
pub struct Relay {
    state: State,
}

impl View for Relay {
    type V = State;

    closed spec fn view(&self) -> State {
        self.state
    }
}

impl Relay {
    /// A fresh engine, in [`State::Idle`].
    pub fn new() -> (r: Relay)
        ensures
            r@ == State::Idle,
    {
        Relay { state: State::Idle }
    }

    /// An engine that has taken [`Event::Start`], with the action it answers
    /// with.
    pub fn started() -> (r: (Relay, Action))
        ensures
            spec_step(State::Idle, Event::Start) == Some((r.0@, r.1)),
    {
        (Relay { state: State::Spawning }, Action::Spawn)
    }

    /// The state the engine is in.
    pub fn state(&self) -> (r: &State)
        ensures
            *r == self@,
    {
        &self.state
    }

    /// Takes one event and answers with the action to perform next.
    ///
    /// An event that the current state expects moves the engine on as
    /// [`spec_step`] says. Any other event is handed back unchanged and
    /// leaves the engine where it was.
    pub fn step(&mut self, event: Event) -> (r: Result<Action, Event>)
        ensures
            match spec_step(old(self)@, event) {
                Some((next, action)) => final(self)@ == next && r == Ok::<Action, Event>(action),
                None => final(self)@ == old(self)@ && r == Err::<Action, Event>(event),
            },
    {
        let mut current = State::Idle;
        core::mem::swap(&mut self.state, &mut current);
        let (next, answer) = match (current, event) {
            (State::Idle, Event::Start) => (State::Spawning, Ok(Action::Spawn)),
            (State::Spawning, Event::Spawned) => (State::Reading, Ok(Action::NextChunk)),
            (State::Spawning, Event::SpawnFailed(detail)) => {
                let outcome = Outcome::SpawnFailure(detail);
                let reported = outcome.duplicate();
                (State::Done(outcome), Ok(Action::Finish(reported)))
            },
            (State::Reading, Event::Chunk(bytes)) => (State::Writing, Ok(Action::Write(bytes))),
            (State::Reading, Event::StreamFailed(status)) => (
                State::Closing(Some(Failure::ClientStream(status))),
                Ok(Action::CloseInput),
            ),
            (State::Reading, Event::StreamEnded) => (State::Closing(None), Ok(Action::CloseInput)),
            (State::Writing, Event::Written) => (State::Reading, Ok(Action::NextChunk)),
            (State::Writing, Event::WriteFailed(detail)) => (
                State::Closing(Some(Failure::PipeWrite(detail))),
                Ok(Action::CloseInput),
            ),
            (State::Closing(pending), Event::InputClosed) => (State::Waiting(pending), Ok(Action::Wait)),
            (State::Waiting(pending), Event::Exited(ok)) => {
                let outcome = conclude(pending, ok);
                let reported = outcome.duplicate();
                (State::Done(outcome), Ok(Action::Finish(reported)))
            },
            (unchanged, other) => (unchanged, Err(other)),
        };
        self.state = next;
        answer
    }

    /// Takes a recorded sequence of events, one after the other, and answers
    /// with the actions that [`Relay::step`] gave for those it accepted.
    pub fn replay(&mut self, events: Vec<Event>) -> (r: Vec<Action>)
        ensures
            (final(self)@, r@) == spec_run(old(self)@, events@),
    {
        let mut actions: Vec<Action> = Vec::new();
        let ghost start = self@;
        for event in iter: events
            invariant
                iter.seq() == events@,
                (self@, actions@) == spec_run(start, events@.take(iter.index() as int)),
        {
            proof {
                let k = iter.index() as int;
                assert(events@.take(k + 1).drop_last() =~= events@.take(k));
                assert(events@.take(k + 1).last() == event);
            }
            match self.step(event) {
                Ok(action) => {
                    actions.push(action);
                },
                Err(_) => {},
            }
        }
        proof {
            assert(events@.take(events@.len() as int) =~= events@);
        }
        actions
    }
}

} // verus!
