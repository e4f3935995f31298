//! The websocket interface: each text message is a request, answered by
//! status, statistics, or the state of several levels at once.

use crate::reply::ErrorKind;
use vstd::prelude::*;

verus! {

/// The most levels that one websocket request may ask about.
pub const MAX_LEVELS_PER_REQUEST: usize = 50;

/// A websocket request.
#[derive(Debug)]
pub enum WsRequest {
    /// Is the service up?
    Status,
    /// The statistics of the service.
    Stats,
    /// Have these levels been sent?
    Level { ids: Vec<u32> },
}

/// How a websocket message is to be answered.
#[derive(Clone, Copy, Debug, PartialEq, Eq, Structural)]
pub enum WsAction {
    /// With a reply that carries no error.
    ReplyStatus,
    /// With the statistics (as `get_stats` gives them).
    ReplyStats,
    /// By checking each level that the request names, in order.
    CheckLevels,
    /// With this error, and no levels.
    RejectLevels(ErrorKind),
    /// With the error that the message is no request.
    RejectRequest,
}

/// Why the levels of a request are refused, if they are: none at all, or
/// level 0, comes first; then more than `MAX_LEVELS_PER_REQUEST`.
pub open spec fn level_ids_error(ids: Seq<u32>) -> Option<ErrorKind> {
    if ids.len() == 0 || ids.contains(0) {
        Some(ErrorKind::InvalidLevelIds)
    } else if ids.len() > MAX_LEVELS_PER_REQUEST {
        Some(ErrorKind::TooManyLevels)
    } else {
        None
    }
}

/// Decides `level_ids_error`.
pub fn validate_level_ids(ids: &Vec<u32>) -> (error: Option<ErrorKind>)
    ensures
        error == level_ids_error(ids@),
{
    if ids.len() == 0 {
        return Some(ErrorKind::InvalidLevelIds);
    }
    let mut i: usize = 0;
    while i < ids.len()
        invariant
            i <= ids@.len(),
            forall|j: int| 0 <= j < i ==> ids@[j] != 0,
        decreases ids@.len() - i,
    {
        if ids[i] == 0 {
            assert(ids@.contains(0)) by {
                assert(ids@[i as int] == 0);
            }
            return Some(ErrorKind::InvalidLevelIds);
        }
        i = i + 1;
    }
    assert(!ids@.contains(0));
    if ids.len() > MAX_LEVELS_PER_REQUEST {
        Some(ErrorKind::TooManyLevels)
    } else {
        None
    }
}

/// How a request is answered (`None`: the message was no request).
pub open spec fn ws_action_of(request: Option<WsRequest>) -> WsAction {
    match request {
        None => WsAction::RejectRequest,
        Some(WsRequest::Status) => WsAction::ReplyStatus,
        Some(WsRequest::Stats) => WsAction::ReplyStats,
        Some(WsRequest::Level { ids }) => match level_ids_error(ids@) {
            Some(e) => WsAction::RejectLevels(e),
            None => WsAction::CheckLevels,
        },
    }
}

/// Decides how a websocket message is answered, as `ws_action_of` says.
pub fn handle_ws(request: &Option<WsRequest>) -> (action: WsAction)
    ensures
        action == ws_action_of(*request),
{
    match request {
        None => WsAction::RejectRequest,
        Some(WsRequest::Status) => WsAction::ReplyStatus,
        Some(WsRequest::Stats) => WsAction::ReplyStats,
        Some(WsRequest::Level { ids }) => match validate_level_ids(ids) {
            Some(e) => WsAction::RejectLevels(e),
            None => WsAction::CheckLevels,
        },
    }
}

} // verus!
