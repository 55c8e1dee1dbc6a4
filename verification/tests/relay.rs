use speaker_relay::api::{accept, translate, Reply};
use speaker_relay::speaker::{
    conclude, player_arguments, Action, Event, Failure, Outcome, Relay, State, PLAYER_PROGRAM,
};

/// What a mock player and a mock stream saw during one request.
struct Journal {
    spawned: usize,
    closed: usize,
    waited: usize,
    chunks_asked: usize,
    input: Vec<u8>,
    operations: Vec<&'static str>,
}

/// A scripted environment: what the spawn, the stream, the writes and the
/// exit will do.
struct Script {
    spawn: Result<(), String>,
    stream: Vec<Result<Vec<u8>, u16>>,
    failing_write: Option<(usize, String)>,
    exit_ok: bool,
}

/// Runs an engine against a script, performing each action on the journal.
fn drive(relay: &mut Relay, first: Action, script: Script) -> (Outcome, Journal) {
    let mut journal = Journal {
        spawned: 0,
        closed: 0,
        waited: 0,
        chunks_asked: 0,
        input: Vec::new(),
        operations: Vec::new(),
    };
    let mut stream = script.stream.into_iter();
    let mut writes = 0usize;
    let mut action = first;
    loop {
        let event = match action {
            Action::Spawn => {
                journal.spawned += 1;
                journal.operations.push("spawn");
                match &script.spawn {
                    Ok(()) => Event::Spawned,
                    Err(detail) => Event::SpawnFailed(detail.clone()),
                }
            }
            Action::NextChunk => {
                journal.chunks_asked += 1;
                journal.operations.push("next");
                match stream.next() {
                    Some(Ok(bytes)) => Event::Chunk(bytes),
                    Some(Err(status)) => Event::StreamFailed(status),
                    None => Event::StreamEnded,
                }
            }
            Action::Write(bytes) => {
                assert_eq!(journal.closed, 0, "a write after the input was closed");
                journal.operations.push("write");
                let index = writes;
                writes += 1;
                match &script.failing_write {
                    Some((at, detail)) if *at == index => Event::WriteFailed(detail.clone()),
                    _ => {
                        journal.input.extend_from_slice(&bytes);
                        Event::Written
                    }
                }
            }
            Action::CloseInput => {
                journal.closed += 1;
                journal.operations.push("close");
                Event::InputClosed
            }
            Action::Wait => {
                assert_eq!(journal.closed, 1, "waiting on an open input");
                journal.waited += 1;
                journal.operations.push("wait");
                Event::Exited(script.exit_ok)
            }
            Action::Finish(outcome) => {
                assert_eq!(relay.state(), &State::Done(outcome.duplicate()));
                return (outcome, journal);
            }
        };
        action = relay.step(event).expect("the engine refused an event it had asked for");
    }
}

fn play(script: Script) -> (Outcome, Journal) {
    let mut relay = Relay::new();
    let first = relay.step(Event::Start).expect("a fresh engine takes the start");
    drive(&mut relay, first, script)
}

fn chunks(parts: &[&[u8]]) -> Vec<Result<Vec<u8>, u16>> {
    parts.iter().map(|part| Ok(part.to_vec())).collect()
}

#[test]
fn fresh_engine_is_idle() {
    let relay = Relay::new();
    assert_eq!(relay.state(), &State::Idle);
}

#[test]
fn start_asks_for_the_player() {
    let mut relay = Relay::new();
    assert_eq!(relay.step(Event::Start), Ok(Action::Spawn));
    assert_eq!(relay.state(), &State::Spawning);
}

#[test]
fn each_transition_answers_with_its_action() {
    let mut relay = Relay::new();
    assert_eq!(relay.step(Event::Start), Ok(Action::Spawn));
    assert_eq!(relay.step(Event::Spawned), Ok(Action::NextChunk));
    assert_eq!(relay.state(), &State::Reading);
    assert_eq!(relay.step(Event::Chunk(vec![1, 2, 3])), Ok(Action::Write(vec![1, 2, 3])));
    assert_eq!(relay.state(), &State::Writing);
    assert_eq!(relay.step(Event::Written), Ok(Action::NextChunk));
    assert_eq!(relay.state(), &State::Reading);
    assert_eq!(relay.step(Event::StreamEnded), Ok(Action::CloseInput));
    assert_eq!(relay.state(), &State::Closing(None));
    assert_eq!(relay.step(Event::InputClosed), Ok(Action::Wait));
    assert_eq!(relay.state(), &State::Waiting(None));
    assert_eq!(relay.step(Event::Exited(true)), Ok(Action::Finish(Outcome::Success)));
    assert_eq!(relay.state(), &State::Done(Outcome::Success));
}

#[test]
fn three_chunks_reach_the_player_in_order() {
    let (outcome, journal) = play(Script {
        spawn: Ok(()),
        stream: chunks(&[&[0x7F, 0x7F], &[0x00], &[0xFF]]),
        failing_write: None,
        exit_ok: true,
    });
    assert_eq!(outcome, Outcome::Success);
    assert_eq!(journal.input, vec![0x7F, 0x7F, 0x00, 0xFF]);
    assert_eq!(journal.spawned, 1);
    assert_eq!(journal.closed, 1);
    assert_eq!(journal.waited, 1);
    assert_eq!(
        journal.operations,
        vec!["spawn", "next", "write", "next", "write", "next", "write", "next", "close", "wait"]
    );
    let translation = translate(&outcome);
    assert_eq!(translation.reply, Reply::NoContent);
    assert_eq!(translation.reply.status(), 204);
    assert_eq!(translation.warning, None);
}

#[test]
fn audio_basic_request_is_played_end_to_end() {
    let (mut relay, first) = accept(Some("audio/basic")).expect("audio/basic is supported");
    assert_eq!(first, Action::Spawn);
    let (outcome, journal) = drive(
        &mut relay,
        first,
        Script {
            spawn: Ok(()),
            stream: chunks(&[&[0x7F, 0x7F], &[0x00], &[0xFF]]),
            failing_write: None,
            exit_ok: true,
        },
    );
    assert_eq!(translate(&outcome).reply.status(), 204);
    assert_eq!(journal.input, vec![0x7F, 0x7F, 0x00, 0xFF]);
}

#[test]
fn text_plain_request_never_starts_a_player() {
    assert_eq!(accept(Some("text/plain")), Err(Reply::UnsupportedMediaType));
    assert_eq!(Reply::UnsupportedMediaType.status(), 415);
}

#[test]
fn stream_error_after_one_chunk_still_releases_the_player() {
    let (outcome, journal) = play(Script {
        spawn: Ok(()),
        stream: vec![Ok(vec![1, 2, 3]), Err(400), Ok(vec![4, 5, 6])],
        failing_write: None,
        exit_ok: true,
    });
    assert_eq!(outcome, Outcome::ClientStreamFailure(400));
    assert_eq!(journal.input, vec![1, 2, 3]);
    assert_eq!(journal.closed, 1);
    assert_eq!(journal.waited, 1);
    assert_eq!(journal.operations, vec!["spawn", "next", "write", "next", "close", "wait"]);
    let translation = translate(&outcome);
    assert_eq!(translation.reply, Reply::ClientError(400));
    assert_eq!(translation.reply.status(), 400);
    assert_eq!(translation.warning, None);
}

#[test]
fn stream_error_wins_over_a_failed_exit() {
    let (outcome, journal) = play(Script {
        spawn: Ok(()),
        stream: vec![Err(408)],
        failing_write: None,
        exit_ok: false,
    });
    assert_eq!(outcome, Outcome::ClientStreamFailure(408));
    assert_eq!(journal.closed, 1);
    assert_eq!(journal.waited, 1);
    assert!(journal.input.is_empty());
}

#[test]
fn spawn_failure_never_closes_or_waits() {
    let (outcome, journal) = play(Script {
        spawn: Err(String::from("No such file or directory")),
        stream: chunks(&[&[1], &[2]]),
        failing_write: None,
        exit_ok: true,
    });
    assert_eq!(outcome, Outcome::SpawnFailure(String::from("No such file or directory")));
    assert_eq!(journal.spawned, 1);
    assert_eq!(journal.closed, 0);
    assert_eq!(journal.waited, 0);
    assert_eq!(journal.chunks_asked, 0);
    assert_eq!(journal.operations, vec!["spawn"]);
}

#[test]
fn failed_exit_after_a_full_relay_is_non_zero_exit() {
    let (outcome, journal) = play(Script {
        spawn: Ok(()),
        stream: chunks(&[&[9, 8], &[7]]),
        failing_write: None,
        exit_ok: false,
    });
    assert_eq!(outcome, Outcome::NonZeroExit);
    assert_eq!(journal.input, vec![9, 8, 7]);
    assert_eq!(journal.closed, 1);
    assert_eq!(journal.waited, 1);
}

#[test]
fn write_failure_stops_the_relay_and_releases_the_player() {
    let (outcome, journal) = play(Script {
        spawn: Ok(()),
        stream: chunks(&[&[1], &[2], &[3]]),
        failing_write: Some((1, String::from("Broken pipe"))),
        exit_ok: true,
    });
    assert_eq!(outcome, Outcome::PipeWriteFailure(String::from("Broken pipe")));
    assert_eq!(journal.input, vec![1]);
    assert_eq!(journal.chunks_asked, 2);
    assert_eq!(journal.closed, 1);
    assert_eq!(journal.waited, 1);
    assert_eq!(
        journal.operations,
        vec!["spawn", "next", "write", "next", "write", "close", "wait"]
    );
}

#[test]
fn write_failure_wins_over_a_failed_exit() {
    let (outcome, _) = play(Script {
        spawn: Ok(()),
        stream: chunks(&[&[1]]),
        failing_write: Some((0, String::from("Broken pipe"))),
        exit_ok: false,
    });
    assert_eq!(outcome, Outcome::PipeWriteFailure(String::from("Broken pipe")));
}

#[test]
fn empty_stream_is_a_success() {
    let (outcome, journal) = play(Script {
        spawn: Ok(()),
        stream: Vec::new(),
        failing_write: None,
        exit_ok: true,
    });
    assert_eq!(outcome, Outcome::Success);
    assert!(journal.input.is_empty());
    assert_eq!(journal.operations, vec!["spawn", "next", "close", "wait"]);
}

#[test]
fn empty_chunk_is_written_like_any_other() {
    let mut relay = Relay::new();
    relay.step(Event::Start).unwrap();
    relay.step(Event::Spawned).unwrap();
    assert_eq!(relay.step(Event::Chunk(Vec::new())), Ok(Action::Write(Vec::new())));
}

#[test]
fn unexpected_event_is_handed_back() {
    let mut relay = Relay::new();
    assert_eq!(relay.step(Event::Spawned), Err(Event::Spawned));
    assert_eq!(relay.state(), &State::Idle);
    assert_eq!(relay.step(Event::Chunk(vec![1])), Err(Event::Chunk(vec![1])));
    assert_eq!(relay.step(Event::Start), Ok(Action::Spawn));
    assert_eq!(relay.step(Event::Start), Err(Event::Start));
    assert_eq!(relay.state(), &State::Spawning);
    assert_eq!(relay.step(Event::Spawned), Ok(Action::NextChunk));
    assert_eq!(relay.step(Event::Written), Err(Event::Written));
    assert_eq!(relay.step(Event::InputClosed), Err(Event::InputClosed));
    assert_eq!(relay.step(Event::Exited(true)), Err(Event::Exited(true)));
    assert_eq!(relay.state(), &State::Reading);
    assert_eq!(relay.step(Event::Chunk(vec![5])), Ok(Action::Write(vec![5])));
    assert_eq!(relay.step(Event::Chunk(vec![6])), Err(Event::Chunk(vec![6])));
    assert_eq!(relay.step(Event::StreamEnded), Err(Event::StreamEnded));
    assert_eq!(relay.step(Event::StreamFailed(400)), Err(Event::StreamFailed(400)));
    assert_eq!(relay.state(), &State::Writing);
}

#[test]
fn nothing_moves_a_finished_engine() {
    let mut relay = Relay::new();
    relay.step(Event::Start).unwrap();
    let detail = String::from("denied");
    assert_eq!(
        relay.step(Event::SpawnFailed(detail.clone())),
        Ok(Action::Finish(Outcome::SpawnFailure(detail.clone())))
    );
    let events = vec![
        Event::Start,
        Event::Spawned,
        Event::SpawnFailed(String::from("again")),
        Event::Chunk(vec![1]),
        Event::StreamFailed(500),
        Event::StreamEnded,
        Event::Written,
        Event::WriteFailed(String::from("x")),
        Event::InputClosed,
        Event::Exited(false),
    ];
    assert_eq!(relay.replay(events), Vec::new());
    assert_eq!(relay.state(), &State::Done(Outcome::SpawnFailure(detail)));
}

#[test]
fn close_is_asked_at_most_once_whatever_arrives() {
    let alphabet = || {
        vec![
            Event::Start,
            Event::Spawned,
            Event::SpawnFailed(String::from("s")),
            Event::Chunk(vec![1, 2]),
            Event::StreamFailed(400),
            Event::StreamEnded,
            Event::Written,
            Event::WriteFailed(String::from("w")),
            Event::InputClosed,
            Event::Exited(true),
            Event::Exited(false),
        ]
    };
    let n = alphabet().len();
    let mut seed: u64 = 0x2545_F491_4F6C_DD1D;
    for _ in 0..2000 {
        let mut events = Vec::new();
        for _ in 0..24 {
            seed ^= seed << 13;
            seed ^= seed >> 7;
            seed ^= seed << 17;
            events.push(alphabet().swap_remove((seed % n as u64) as usize));
        }
        let mut relay = Relay::new();
        let actions = relay.replay(events);
        let count = |wanted: &Action| actions.iter().filter(|a| *a == wanted).count();
        let closes = count(&Action::CloseInput);
        let waits = count(&Action::Wait);
        assert!(count(&Action::Spawn) <= 1);
        assert!(closes <= 1);
        assert!(waits <= 1);
        assert!(waits <= closes);
        if let State::Done(outcome) = relay.state() {
            let released = if matches!(outcome, Outcome::SpawnFailure(_)) { 0 } else { 1 };
            assert_eq!(closes, released);
            assert_eq!(waits, released);
            assert_eq!(actions.last(), Some(&Action::Finish(outcome.duplicate())));
        }
        if let Some(closed_at) = actions.iter().position(|a| *a == Action::CloseInput) {
            assert!(actions[closed_at..].iter().all(|a| !matches!(a, Action::Write(_))));
        }
    }
}

#[test]
fn replay_gives_the_actions_of_the_steps() {
    let mut relay = Relay::new();
    let actions = relay.replay(vec![
        Event::Start,
        Event::Written,
        Event::Spawned,
        Event::Chunk(vec![0x7F, 0x7F]),
        Event::Written,
        Event::Chunk(vec![0x00]),
        Event::Chunk(vec![0x55]),
        Event::Written,
        Event::StreamEnded,
        Event::InputClosed,
        Event::Exited(false),
    ]);
    assert_eq!(
        actions,
        vec![
            Action::Spawn,
            Action::NextChunk,
            Action::Write(vec![0x7F, 0x7F]),
            Action::NextChunk,
            Action::Write(vec![0x00]),
            Action::NextChunk,
            Action::CloseInput,
            Action::Wait,
            Action::Finish(Outcome::NonZeroExit),
        ]
    );
    assert_eq!(relay.state(), &State::Done(Outcome::NonZeroExit));
}

#[test]
fn conclude_prefers_the_pending_failure() {
    assert_eq!(conclude(None, true), Outcome::Success);
    assert_eq!(conclude(None, false), Outcome::NonZeroExit);
    assert_eq!(conclude(Some(Failure::ClientStream(499)), true), Outcome::ClientStreamFailure(499));
    assert_eq!(conclude(Some(Failure::ClientStream(499)), false), Outcome::ClientStreamFailure(499));
    assert_eq!(
        conclude(Some(Failure::PipeWrite(String::from("EPIPE"))), true),
        Outcome::PipeWriteFailure(String::from("EPIPE"))
    );
    assert_eq!(
        conclude(Some(Failure::PipeWrite(String::from("EPIPE"))), false),
        Outcome::PipeWriteFailure(String::from("EPIPE"))
    );
}

#[test]
fn duplicate_copies_every_outcome() {
    let outcomes = vec![
        Outcome::Success,
        Outcome::ClientStreamFailure(400),
        Outcome::PipeWriteFailure(String::from("a")),
        Outcome::SpawnFailure(String::from("b")),
        Outcome::NonZeroExit,
    ];
    for outcome in &outcomes {
        assert_eq!(&outcome.duplicate(), outcome);
    }
}

#[test]
fn player_is_aplay_for_raw_mono_mu_law_at_8000_hz() {
    assert_eq!(PLAYER_PROGRAM, "aplay");
    assert_eq!(
        player_arguments(),
        vec!["-t", "raw", "-f", "MU_LAW", "-c", "1", "-r", "8000", "-q"]
    );
}

#[test]
fn started_engine_runs_like_a_fresh_one_after_its_start() {
    let events = || {
        vec![
            Event::Start,
            Event::Spawned,
            Event::Chunk(vec![1, 2]),
            Event::InputClosed,
            Event::Written,
            Event::StreamFailed(400),
            Event::StreamEnded,
            Event::InputClosed,
            Event::InputClosed,
            Event::Exited(false),
            Event::Exited(true),
        ]
    };
    let (mut started, first) = Relay::started();
    assert_eq!(first, Action::Spawn);
    let rest = started.replay(events());
    let mut fresh = Relay::new();
    let mut whole = vec![Event::Start];
    whole.extend(events());
    let all = fresh.replay(whole);
    assert_eq!(started.state(), fresh.state());
    let mut expected = vec![Action::Spawn];
    expected.extend(rest.iter().cloned());
    assert_eq!(all, expected);
    assert_eq!(rest.iter().filter(|a| **a == Action::Spawn).count(), 0);
    assert_eq!(rest.iter().filter(|a| **a == Action::CloseInput).count(), 1);
    assert_eq!(rest.iter().filter(|a| **a == Action::Wait).count(), 1);
    assert_eq!(rest.last(), Some(&Action::Finish(Outcome::ClientStreamFailure(400))));
}
