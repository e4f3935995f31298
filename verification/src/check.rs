//! Answering "has this level been sent?": the identifier in the request, the
//! order in which the caches, the database and the upstream service are
//! consulted, and the reply.

use crate::cache::{CacheView, LevelCache};
use crate::text::{chars_of, parse_digits, parse_signed, trim, trim_bounds};
use crate::upstream::{has_sends, lists_sends, read_sends, upstream_sends};
use vstd::prelude::*;

verus! {

/// The level that a request names: its text, trimmed, read as an `i32`,
/// and greater than zero; `None` otherwise.
pub open spec fn level_id_of(raw: Seq<char>) -> Option<u32> {
    let parsed = parse_signed(trim(raw), i32::MIN as int, i32::MAX as int);
    if parsed is Some && parsed->0 > 0 {
        Some(parsed->0 as u32)
    } else {
        None
    }
}

/// Reads the level that a request names, as `level_id_of` says.
pub fn parse_level_id(raw: &str) -> (id: Option<u32>)
    ensures
        id == level_id_of(raw@),
{
    let v = chars_of(raw);
    let (a, b) = trim_bounds(&v);
    let ghost t = trim(raw@);
    assert(t == v@.subrange(a as int, b as int));
    if a == b {
        return None;
    }
    if v[a] == '-' {
        return None;
    }
    let start: usize = if v[a] == '+' {
        a + 1
    } else {
        a
    };
    assert(v@.subrange(a + 1, b as int) =~= t.drop_first());
    match parse_digits(&v, start, b, 0x7fff_ffff) {
        Some(x) => {
            if x > 0 {
                Some(x as u32)
            } else {
                None
            }
        },
        None => None,
    }
}

/// How a check of a level ended.
#[derive(Clone, Copy, Debug, PartialEq, Eq, Structural)]
pub enum LevelOutcome {
    /// The level has been sent.
    Sent,
    /// The level has not been sent (as far as is known now).
    NotSent,
    /// The upstream service could not be asked, or its answer not read.
    UpstreamError,
    /// The request did not name a level.
    InvalidId,
}

/// What is to be done next in a check of a level.
#[derive(Clone, Copy, Debug, PartialEq, Eq, Structural)]
pub enum CheckAction {
    /// Answer the request.
    Reply(LevelOutcome),
    /// Ask the database whether it holds the level, and hand the answer to
    /// `LevelCache::after_database`.
    QueryDatabase(u32),
    /// Ask the upstream service about the level, and hand the body of its
    /// answer to `LevelCache::after_upstream`.
    FetchUpstream(u32),
    /// Store the level in the database as sent, then answer `Sent`.
    StoreSent(u32),
}

/// The first step of a check: the permanent cache answers, or the database
/// is to be asked.
pub open spec fn start_action(v: CacheView, id: u32) -> CheckAction {
    if v.sent.contains(id) {
        CheckAction::Reply(LevelOutcome::Sent)
    } else {
        CheckAction::QueryDatabase(id)
    }
}

/// The step after the database was asked: a level that it holds is sent;
/// else a level that the temporary cache holds is not sent; else the
/// upstream service is to be asked.
pub open spec fn database_action(v: CacheView, id: u32, stored: bool) -> CheckAction {
    if stored {
        CheckAction::Reply(LevelOutcome::Sent)
    } else if v.not_sent.contains_key(id) {
        CheckAction::Reply(LevelOutcome::NotSent)
    } else {
        CheckAction::FetchUpstream(id)
    }
}

/// The step after the upstream service answered, given what was read of the
/// answer (`None`: nothing could be).
pub open spec fn upstream_action(id: u32, sends: Option<Option<usize>>) -> CheckAction {
    match sends {
        None => CheckAction::Reply(LevelOutcome::UpstreamError),
        Some(s) => if has_sends(s) {
            CheckAction::StoreSent(id)
        } else {
            CheckAction::Reply(LevelOutcome::NotSent)
        },
    }
}

/// What the upstream answer does to the caches: a sent level enters the
/// permanent cache and leaves the temporary one; a level not sent enters the
/// temporary one, stamped with `now`; an unreadable answer changes nothing.
pub open spec fn upstream_effect(v: CacheView, id: u32, sends: Option<Option<usize>>, now: i64) -> CacheView {
    match sends {
        None => v,
        Some(s) => if has_sends(s) {
            CacheView { sent: v.sent.insert(id), not_sent: v.not_sent.remove(id) }
        } else {
            CacheView { sent: v.sent, not_sent: v.not_sent.insert(id, now) }
        },
    }
}

/// What is read of an upstream answer: `None` where no body came back.
pub open spec fn sends_of(body: Option<Seq<u8>>) -> Option<Option<usize>> {
    match body {
        None => None,
        Some(b) => upstream_sends(b),
    }
}

impl LevelCache {
    /// Starts the check of the level that the request names: an invalid
    /// identifier is answered at once, else as `start_action` says.
    pub fn check_level(&self, raw_id: &str) -> (action: CheckAction)
        ensures
            action == (match level_id_of(raw_id@) {
                None => CheckAction::Reply(LevelOutcome::InvalidId),
                Some(id) => start_action(self@, id),
            }),
    {
        match parse_level_id(raw_id) {
            None => CheckAction::Reply(LevelOutcome::InvalidId),
            Some(id) => self.begin_check(id),
        }
    }

    /// Starts the check of a level, as `start_action` says.
    pub fn begin_check(&self, id: u32) -> (action: CheckAction)
        ensures
            action == start_action(self@, id),
    {
        if self.is_level_sent(id) {
            CheckAction::Reply(LevelOutcome::Sent)
        } else {
            CheckAction::QueryDatabase(id)
        }
    }

    /// Goes on once the database has said whether it holds the level.
    pub fn after_database(&self, id: u32, stored: bool) -> (action: CheckAction)
        ensures
            action == database_action(self@, id, stored),
    {
        if stored {
            CheckAction::Reply(LevelOutcome::Sent)
        } else if self.is_not_sent_cached(id) {
            CheckAction::Reply(LevelOutcome::NotSent)
        } else {
            CheckAction::FetchUpstream(id)
        }
    }

    /// Goes on once the upstream service has answered, given what was read
    /// of its answer, at time `now`.
    pub fn apply_upstream(&mut self, id: u32, sends: Option<Option<usize>>, now: i64) -> (action:
        CheckAction)
        ensures
            action == upstream_action(id, sends),
            final(self)@ == upstream_effect(old(self)@, id, sends, now),
    {
        match sends {
            None => CheckAction::Reply(LevelOutcome::UpstreamError),
            Some(s) => {
                if lists_sends(s) {
                    self.add_sent_level(id);
                    self.remove_not_sent_level(id);
                    CheckAction::StoreSent(id)
                } else {
                    self.add_not_sent_level(id, now);
                    CheckAction::Reply(LevelOutcome::NotSent)
                }
            },
        }
    }

    /// Goes on once the upstream service has answered with `body` (`None`:
    /// the request failed or its body could not be read), at time `now`.
    pub fn after_upstream(&mut self, id: u32, body: Option<Vec<u8>>, now: i64) -> (action:
        CheckAction)
        ensures
            ({
                let sends = sends_of(
                    match body {
                        Some(b) => Some(b@),
                        None => None,
                    },
                );
                &&& action == upstream_action(id, sends)
                &&& final(self)@ == upstream_effect(old(self)@, id, sends, now)
            }),
    {
        let sends = match body {
            Some(b) => read_sends(b.as_slice()),
            None => None,
        };
        self.apply_upstream(id, sends, now)
    }
}

} // verus!
