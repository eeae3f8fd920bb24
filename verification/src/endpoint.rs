//! What each endpoint answers: the status code for every way in which a
//! request can end.

use vstd::prelude::*;
use crate::group::GroupOutcome;
use crate::sequence::Status;

verus! {

/// The three speaker endpoints.
#[derive(Clone, Copy, Debug, PartialEq, Eq, Structural)]
pub enum Endpoint {
    /// Group the rooms.
    Group,
    /// Group the rooms and play the goodnight profile.
    Sleep,
    /// Group the rooms and play a named playlist.
    Playlist,
}

/// How a request ended.
#[derive(Clone, Copy, Debug, PartialEq, Eq, Structural)]
pub enum Finding {
    /// Everything that the endpoint does was done.
    Done,
    /// Discovery, topology or a required step of the join failed.
    GroupingFailed,
    /// The first room could not be resolved, or none was given.
    NoCoordinator,
    /// The coordinator's playlists could not be read.
    PlaylistLookupFailed,
    /// No playlist has the requested title.
    PlaylistMissing,
    /// A required step of the playback profile failed.
    PlaybackFailed,
    /// The sleep timer that follows the playlist profile failed.
    SleepTimerFailed,
}

pub const OK: u16 = 200;

pub const BAD_REQUEST: u16 = 400;

pub const NOT_FOUND: u16 = 404;

pub const INTERNAL_ERROR: u16 = 500;

pub const UNAVAILABLE: u16 = 503;

/// The status code that `endpoint` answers with on `finding`.
///
/// Grouping alone succeeds even without a coordinator. The sleep endpoint
/// calls that a bad request and the playlist endpoint a missing resource.
/// A failed goodnight profile makes the service unavailable; every other
/// failure is an internal error, but for a playlist that does not exist.
pub open spec fn status_for(endpoint: Endpoint, finding: Finding) -> u16 {
    match finding {
        Finding::Done => OK,
        Finding::GroupingFailed => INTERNAL_ERROR,
        Finding::NoCoordinator => match endpoint {
            Endpoint::Group => OK,
            Endpoint::Sleep => BAD_REQUEST,
            Endpoint::Playlist => NOT_FOUND,
        },
        Finding::PlaylistLookupFailed => INTERNAL_ERROR,
        Finding::PlaylistMissing => NOT_FOUND,
        Finding::PlaybackFailed => match endpoint {
            Endpoint::Sleep => UNAVAILABLE,
            _ => INTERNAL_ERROR,
        },
        Finding::SleepTimerFailed => INTERNAL_ERROR,
    }
}

/// What the end of a grouping run means for the request: nothing yet when
/// the group stands, since the endpoint may go on to play.
pub open spec fn grouping_finding(outcome: GroupOutcome) -> Option<Finding> {
    match outcome {
        GroupOutcome::Grouped => None,
        GroupOutcome::NoCoordinator => Some(Finding::NoCoordinator),
        GroupOutcome::Failed => Some(Finding::GroupingFailed),
    }
}

/// What the status of a playback profile means for the request. In the
/// playlist profile the timer is the step after the sixth and is reported
/// apart from the rest.
pub open spec fn playback_finding(endpoint: Endpoint, status: Status) -> Option<Finding> {
    match status {
        Status::Pending(_) => None,
        Status::Completed => Some(Finding::Done),
        Status::Aborted(i) => if endpoint == Endpoint::Playlist && i >= 6 {
            Some(Finding::SleepTimerFailed)
        } else {
            Some(Finding::PlaybackFailed)
        },
    }
}

/// The status code that `endpoint` answers with on `finding`.
pub fn status_code(endpoint: Endpoint, finding: Finding) -> (code: u16)
    ensures
        code == status_for(endpoint, finding),
{
    match finding {
        Finding::Done => OK,
        Finding::GroupingFailed => INTERNAL_ERROR,
        Finding::NoCoordinator => match endpoint {
            Endpoint::Group => OK,
            Endpoint::Sleep => BAD_REQUEST,
            Endpoint::Playlist => NOT_FOUND,
        },
        Finding::PlaylistLookupFailed => INTERNAL_ERROR,
        Finding::PlaylistMissing => NOT_FOUND,
        Finding::PlaybackFailed => match endpoint {
            Endpoint::Sleep => UNAVAILABLE,
            _ => INTERNAL_ERROR,
        },
        Finding::SleepTimerFailed => INTERNAL_ERROR,
    }
}

/// What the end of a grouping run means for the request.
pub fn after_grouping(outcome: GroupOutcome) -> (finding: Option<Finding>)
    ensures
        finding == grouping_finding(outcome),
{
    match outcome {
        GroupOutcome::Grouped => None,
        GroupOutcome::NoCoordinator => Some(Finding::NoCoordinator),
        GroupOutcome::Failed => Some(Finding::GroupingFailed),
    }
}

/// What the end of a playback profile means for the request.
pub fn after_playback(endpoint: Endpoint, status: Status) -> (finding: Option<Finding>)
    ensures
        finding == playback_finding(endpoint, status),
{
    match status {
        Status::Pending(_) => None,
        Status::Completed => Some(Finding::Done),
        Status::Aborted(i) => {
            let timer = match endpoint {
                Endpoint::Playlist => i >= 6,
                _ => false,
            };
            if timer {
                Some(Finding::SleepTimerFailed)
            } else {
                Some(Finding::PlaybackFailed)
            }
        },
    }
}

} // verus!
