//! What the service answers: the status, the error message, the `sent`
//! field, and which caching headers go with it.

use crate::check::LevelOutcome;
use vstd::prelude::*;

verus! {

/// The errors that a reply can carry.
#[derive(Clone, Copy, Debug, PartialEq, Eq, Structural)]
pub enum ErrorKind {
    /// The path did not name a level.
    InvalidLevelId,
    /// The upstream service could not be asked or understood.
    UnknownError,
    /// A websocket request named no level, or level 0.
    InvalidLevelIds,
    /// A websocket request named more levels than are checked at a time.
    TooManyLevels,
    /// A websocket message was not a request.
    InvalidRequest,
}

/// The text of each error.
pub open spec fn error_text(kind: ErrorKind) -> Seq<char> {
    match kind {
        ErrorKind::InvalidLevelId => "Invalid level_id"@,
        ErrorKind::UnknownError => "Unknown Error"@,
        ErrorKind::InvalidLevelIds => "Invalid level ID(s)"@,
        ErrorKind::TooManyLevels => "You cannot check more than 50 levels at a time!"@,
        ErrorKind::InvalidRequest => "Invalid request"@,
    }
}

impl ErrorKind {
    /// The text of the error, as the reply carries it.
    pub fn message(&self) -> (text: &'static str)
        ensures
            text@ == error_text(*self),
    {
        match self {
            ErrorKind::InvalidLevelId => "Invalid level_id",
            ErrorKind::UnknownError => "Unknown Error",
            ErrorKind::InvalidLevelIds => "Invalid level ID(s)",
            ErrorKind::TooManyLevels => "You cannot check more than 50 levels at a time!",
            ErrorKind::InvalidRequest => "Invalid request",
        }
    }
}

/// Which caching headers go with a reply.
#[derive(Clone, Copy, Debug, PartialEq, Eq, Structural)]
pub enum CachePolicy {
    /// Those for a sent level (kept long).
    SentLevel,
    /// Those for a level not sent (kept briefly).
    NotSentLevel,
    /// None.
    Uncached,
}

/// The reply to a check of one level.
#[derive(Clone, Copy, Debug, PartialEq, Eq, Structural)]
pub struct LevelReply {
    /// The HTTP status.
    pub status: u16,
    /// The error, where there is one.
    pub error: Option<ErrorKind>,
    /// Whether the level has been sent, where that is known.
    pub sent: Option<bool>,
    /// The caching headers.
    pub cache: CachePolicy,
}

/// The reply for each way a check can end.
pub open spec fn reply_of(outcome: LevelOutcome) -> LevelReply {
    match outcome {
        LevelOutcome::Sent => LevelReply {
            status: 200,
            error: None,
            sent: Some(true),
            cache: CachePolicy::SentLevel,
        },
        LevelOutcome::NotSent => LevelReply {
            status: 200,
            error: None,
            sent: Some(false),
            cache: CachePolicy::NotSentLevel,
        },
        LevelOutcome::UpstreamError => LevelReply {
            status: 500,
            error: Some(ErrorKind::UnknownError),
            sent: None,
            cache: CachePolicy::Uncached,
        },
        LevelOutcome::InvalidId => LevelReply {
            status: 400,
            error: Some(ErrorKind::InvalidLevelId),
            sent: None,
            cache: CachePolicy::Uncached,
        },
    }
}

/// The reply for the way a check ended, as `reply_of` says.
pub fn level_reply(outcome: LevelOutcome) -> (reply: LevelReply)
    ensures
        reply == reply_of(outcome),
{
    match outcome {
        LevelOutcome::Sent => LevelReply {
            status: 200,
            error: None,
            sent: Some(true),
            cache: CachePolicy::SentLevel,
        },
        LevelOutcome::NotSent => LevelReply {
            status: 200,
            error: None,
            sent: Some(false),
            cache: CachePolicy::NotSentLevel,
        },
        LevelOutcome::UpstreamError => LevelReply {
            status: 500,
            error: Some(ErrorKind::UnknownError),
            sent: None,
            cache: CachePolicy::Uncached,
        },
        LevelOutcome::InvalidId => LevelReply {
            status: 400,
            error: Some(ErrorKind::InvalidLevelId),
            sent: None,
            cache: CachePolicy::Uncached,
        },
    }
}

} // verus!
