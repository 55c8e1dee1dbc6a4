//! The playback endpoint's decisions: whether a request is let in, and how
//! the outcome of its playback is answered.

use vstd::prelude::*;
use vstd::string::*;
use crate::media::{spec_validate, spec_verdict, validate, verdict, MediaVerdict};
use crate::speaker::{Action, Outcome, Relay, State};

verus! {

/// The status code of [`Reply::NoContent`].
pub const NO_CONTENT: u16 = 204;

/// The status code of [`Reply::UnsupportedMediaType`].
pub const UNSUPPORTED_MEDIA_TYPE: u16 = 415;

/// The status code of [`Reply::InternalServerError`].
pub const INTERNAL_SERVER_ERROR: u16 = 500;

/// How a playback request is answered. No reply tells the kinds of internal
/// failure apart.
#[derive(Clone, Copy, Debug, PartialEq, Eq, Structural)]
pub enum Reply {
    /// The payload was played.
    NoContent,
    /// The declared media type is not the supported one.
    UnsupportedMediaType,
    /// The inbound stream failed: its own error is the reply, under the
    /// status code that it reports.
    ClientError(u16),
    /// Playback failed on this side.
    InternalServerError,
}

/// A reply together with the warning to log for it, if any.
#[derive(Debug, PartialEq, Eq)]
pub struct Translation {
    /// The reply to send.
    pub reply: Reply,
    /// The warning to log.
    pub warning: Option<String>,
}

/// The status code of a reply.
pub open spec fn spec_status(reply: Reply) -> u16 {
    match reply {
        Reply::NoContent => NO_CONTENT,
        Reply::UnsupportedMediaType => UNSUPPORTED_MEDIA_TYPE,
        Reply::ClientError(status) => status,
        Reply::InternalServerError => INTERNAL_SERVER_ERROR,
    }
}

/// The reply to an outcome.
pub open spec fn spec_reply(outcome: Outcome) -> Reply {
    match outcome {
        Outcome::Success => Reply::NoContent,
        Outcome::ClientStreamFailure(status) => Reply::ClientError(status),
        Outcome::PipeWriteFailure(_) => Reply::InternalServerError,
        Outcome::SpawnFailure(_) => Reply::InternalServerError,
        Outcome::NonZeroExit => Reply::InternalServerError,
    }
}

/// The diagnostic of an outcome that is this side's failure; `None` for a
/// success and for a failure of the client's stream.
pub open spec fn spec_diagnostic(outcome: Outcome) -> Option<Seq<char>> {
    match outcome {
        Outcome::Success => None,
        Outcome::ClientStreamFailure(_) => None,
        Outcome::PipeWriteFailure(detail) => Some(detail@),
        Outcome::SpawnFailure(detail) => Some(detail@),
        Outcome::NonZeroExit => Some("audio playback failed"@),
    }
}

/// The warning to log for an outcome: its diagnostic behind a fixed prefix.
pub open spec fn spec_warning(outcome: Outcome) -> Option<Seq<char>> {
    match spec_diagnostic(outcome) {
        Some(detail) => Some("Audio playback error: "@ + detail),
        None => None,
    }
}

impl Reply {
    /// The status code to answer with.
    pub fn status(&self) -> (r: u16)
        ensures
            r == spec_status(*self),
    {
        match self {
            Reply::NoContent => NO_CONTENT,
            Reply::UnsupportedMediaType => UNSUPPORTED_MEDIA_TYPE,
            Reply::ClientError(status) => *status,
            Reply::InternalServerError => INTERNAL_SERVER_ERROR,
        }
    }
}

fn warning_for(detail: &str) -> (r: String)
    ensures
        r@ == "Audio playback error: "@ + detail@,
{
    String::from_str("Audio playback error: ").concat(detail)
}

/// Maps the outcome of a playback to the reply and to the warning to log.
///
/// A success is answered with "no content" and a failure of the client's
/// stream with that stream's own error; neither is logged. Every other
/// failure is answered with the one generic server error, and its diagnostic
/// goes to the log only.
pub fn translate(outcome: &Outcome) -> (r: Translation)
    ensures
        r.reply == spec_reply(*outcome),
        r.warning is Some == spec_warning(*outcome) is Some,
        r.warning matches Some(text) ==> Some(text@) == spec_warning(*outcome),
{
    match outcome {
        Outcome::Success => Translation { reply: Reply::NoContent, warning: None },
        Outcome::ClientStreamFailure(status) => Translation {
            reply: Reply::ClientError(*status),
            warning: None,
        },
        Outcome::PipeWriteFailure(detail) => Translation {
            reply: Reply::InternalServerError,
            warning: Some(warning_for(detail.as_str())),
        },
        Outcome::SpawnFailure(detail) => Translation {
            reply: Reply::InternalServerError,
            warning: Some(warning_for(detail.as_str())),
        },
        Outcome::NonZeroExit => Translation {
            reply: Reply::InternalServerError,
            warning: Some(warning_for("audio playback failed")),
        },
    }
}

/// Lets a request in or turns it away, by the verdict on its media type.
///
/// An accepted request gets an engine that has taken its start, and
/// the action to start the player. A rejected one gets the "unsupported media
/// type" reply and no engine, so nothing can be asked of a player or of the
/// request's payload.
pub fn accept_by(verdict: MediaVerdict) -> (r: Result<(Relay, Action), Reply>)
    ensures
        match verdict {
            MediaVerdict::Accepted => r matches Ok((relay, action)) && relay@ == State::Spawning
                && action == Action::Spawn,
            MediaVerdict::Rejected => r == Err::<(Relay, Action), Reply>(Reply::UnsupportedMediaType),
        },
{
    match verdict {
        MediaVerdict::Accepted => Ok(Relay::started()),
        MediaVerdict::Rejected => Err(Reply::UnsupportedMediaType),
    }
}

/// Lets a request in by the essence of its content type, `None` standing for
/// a content type that is absent or malformed: see [`accept_by`].
pub fn accept_essence(essence: Option<&str>) -> (r: Result<(Relay, Action), Reply>)
    ensures
        match spec_verdict(
            match essence {
                Some(e) => Some(e@),
                None => None,
            },
        ) {
            MediaVerdict::Accepted => r matches Ok((relay, action)) && relay@ == State::Spawning
                && action == Action::Spawn,
            MediaVerdict::Rejected => r == Err::<(Relay, Action), Reply>(Reply::UnsupportedMediaType),
        },
{
    accept_by(verdict(essence))
}

/// Lets a request in by the content type that it declares, `None` standing
/// for a request without one: see [`accept_by`]. Where the essence is not
/// `audio/basic`, in any ASCII case and with any parameters, the request is
/// turned away.
pub fn accept(declared: Option<&str>) -> (r: Result<(Relay, Action), Reply>)
    ensures
        match spec_validate(
            match declared {
                Some(d) => Some(d@),
                None => None,
            },
        ) {
            MediaVerdict::Accepted => r matches Ok((relay, action)) && relay@ == State::Spawning
                && action == Action::Spawn,
            MediaVerdict::Rejected => r == Err::<(Relay, Action), Reply>(Reply::UnsupportedMediaType),
        },
{
    accept_by(validate(declared))
}

} // verus!
