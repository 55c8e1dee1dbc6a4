use speaker_relay::api::{
    accept, accept_by, accept_essence, translate, Reply, Translation, INTERNAL_SERVER_ERROR,
    NO_CONTENT, UNSUPPORTED_MEDIA_TYPE,
};
use speaker_relay::media::MediaVerdict;
use speaker_relay::speaker::{Action, Outcome, State};

#[test]
fn status_codes_are_the_http_ones() {
    assert_eq!(NO_CONTENT, 204);
    assert_eq!(UNSUPPORTED_MEDIA_TYPE, 415);
    assert_eq!(INTERNAL_SERVER_ERROR, 500);
    assert_eq!(Reply::NoContent.status(), 204);
    assert_eq!(Reply::UnsupportedMediaType.status(), 415);
    assert_eq!(Reply::InternalServerError.status(), 500);
    assert_eq!(Reply::ClientError(400).status(), 400);
    assert_eq!(Reply::ClientError(413).status(), 413);
}

#[test]
fn success_is_no_content_without_a_warning() {
    assert_eq!(
        translate(&Outcome::Success),
        Translation { reply: Reply::NoContent, warning: None }
    );
}

#[test]
fn client_failure_passes_its_status_through_unlogged() {
    assert_eq!(
        translate(&Outcome::ClientStreamFailure(400)),
        Translation { reply: Reply::ClientError(400), warning: None }
    );
    assert_eq!(
        translate(&Outcome::ClientStreamFailure(500)),
        Translation { reply: Reply::ClientError(500), warning: None }
    );
}

#[test]
fn internal_failures_share_one_reply_and_log_their_detail() {
    assert_eq!(
        translate(&Outcome::SpawnFailure(String::from("No such file or directory"))),
        Translation {
            reply: Reply::InternalServerError,
            warning: Some(String::from("Audio playback error: No such file or directory")),
        }
    );
    assert_eq!(
        translate(&Outcome::PipeWriteFailure(String::from("Broken pipe"))),
        Translation {
            reply: Reply::InternalServerError,
            warning: Some(String::from("Audio playback error: Broken pipe")),
        }
    );
    assert_eq!(
        translate(&Outcome::NonZeroExit),
        Translation {
            reply: Reply::InternalServerError,
            warning: Some(String::from("Audio playback error: audio playback failed")),
        }
    );
}

#[test]
fn accepted_verdict_starts_an_engine() {
    let (relay, action) = accept_by(MediaVerdict::Accepted).expect("accepted");
    assert_eq!(relay.state(), &State::Spawning);
    assert_eq!(action, Action::Spawn);
}

#[test]
fn rejected_verdict_is_unsupported_media_type() {
    assert_eq!(accept_by(MediaVerdict::Rejected), Err(Reply::UnsupportedMediaType));
}

#[test]
fn essence_decides_the_acceptance() {
    assert!(accept_essence(Some("audio/basic")).is_ok());
    assert!(accept_essence(Some("Audio/Basic")).is_ok());
    assert_eq!(accept_essence(Some("audio/basic ")), Err(Reply::UnsupportedMediaType));
    assert_eq!(accept_essence(Some("audio/mpeg")), Err(Reply::UnsupportedMediaType));
    assert_eq!(accept_essence(None), Err(Reply::UnsupportedMediaType));
}

#[test]
fn declared_content_type_decides_the_acceptance() {
    for declared in [
        "audio/basic",
        "AUDIO/BASIC",
        "audio/Basic; rate=8000",
        "audio/basic;channels=1",
        "Audio/basic; charset=\"utf-8\"",
    ] {
        let (relay, action) = accept(Some(declared)).expect(declared);
        assert_eq!(relay.state(), &State::Spawning);
        assert_eq!(action, Action::Spawn);
    }
    for declared in [
        "text/plain",
        "audio/mpeg",
        "audio/basic+xml",
        "audio/basicx",
        "audio",
        "",
        "audio/basic; rate",
        "application/json; charset=utf-8",
        "*/*",
    ] {
        assert_eq!(accept(Some(declared)), Err(Reply::UnsupportedMediaType), "{}", declared);
    }
    assert_eq!(accept(None), Err(Reply::UnsupportedMediaType));
}
