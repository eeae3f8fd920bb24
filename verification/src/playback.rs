//! The two playback profiles that run on a group's coordinator, and the
//! choice of a stored playlist by its title.

use vstd::prelude::*;
use crate::names::{eq_ignore_case, same_name};
use crate::sequence::{
    best_effort, best_effort_step, lemma_status_meaning, fatal_at, required, required_step,
    status_after, Command, RepeatMode, Status, Step, Target,
};

verus! {

/// The longest sleep timer that is ever applied, in seconds: two hours.
pub const MAX_SLEEP_TIMER_SECS: u16 = 7200;

/// A stored queue of the coordinator.
#[derive(Debug)]
pub struct Playlist {
    /// The title that the playlist is shown under.
    pub title: String,
    /// The address that enqueues it.
    pub uri: String,
}

/// A playlist as plain values.
pub struct PlaylistView {
    pub title: Seq<char>,
    pub uri: Seq<char>,
}

impl View for Playlist {
    type V = PlaylistView;

    open spec fn view(&self) -> PlaylistView {
        PlaylistView { title: self.title@, uri: self.uri@ }
    }
}

/// The query flags of a playlist request; each may be absent.
#[derive(Clone, Copy, Debug, PartialEq, Eq, Structural)]
pub struct PlaylistQuery {
    pub shuffle: Option<bool>,
    pub repeat: Option<bool>,
    pub sleep_timer: Option<u16>,
}

/// The address of the stored queue that the goodnight profile plays.
pub open spec fn sleep_queue_text() -> Seq<char> {
    "file:///jffs/settings/savedqueues.rsq#23"@
}

/// A requested sleep timer brought into the applied range: values above
/// two hours become two hours.
pub open spec fn clamped(seconds: u16) -> u64 {
    if seconds > MAX_SLEEP_TIMER_SECS {
        MAX_SLEEP_TIMER_SECS as u64
    } else {
        seconds as u64
    }
}

/// The step that applies a sleep timer, if one was asked for.
pub open spec fn timer_steps(sleep_timer: Option<u16>) -> Seq<Step> {
    match sleep_timer {
        Some(seconds) => seq![
            required(Target::Coordinator, Command::SetSleepTimer(clamped(seconds))),
        ],
        None => Seq::empty(),
    }
}

/// The goodnight profile: stop, clear the queue if that works, enqueue the
/// sleep queue, repeat all, shuffle, apply the timer if there is one, play.
pub open spec fn goodnight_steps(sleep_timer: Option<u16>) -> Seq<Step> {
    seq![
        required(Target::Coordinator, Command::Stop),
        best_effort(Target::Coordinator, Command::ClearQueue),
        required(Target::Coordinator, Command::Enqueue),
        required(Target::Coordinator, Command::SetRepeatMode(RepeatMode::All)),
        required(Target::Coordinator, Command::SetShuffle(true)),
    ] + timer_steps(sleep_timer) + seq![required(Target::Coordinator, Command::Play)]
}

/// The repeat mode of a playlist request: all when the flag is set, off
/// when it is not set or absent.
pub open spec fn repeat_for(repeat: Option<bool>) -> RepeatMode {
    if repeat == Some(true) {
        RepeatMode::All
    } else {
        RepeatMode::Off
    }
}

/// The shuffle setting of a playlist request: off unless the flag is set.
pub open spec fn shuffle_for(shuffle: Option<bool>) -> bool {
    shuffle == Some(true)
}

/// The playlist profile: stop and clear the queue if that works, enqueue
/// the chosen playlist, set repeat and shuffle as asked, play, and last
/// apply the timer if there is one.
pub open spec fn playlist_steps(query: PlaylistQuery) -> Seq<Step> {
    seq![
        best_effort(Target::Coordinator, Command::Stop),
        best_effort(Target::Coordinator, Command::ClearQueue),
        required(Target::Coordinator, Command::Enqueue),
        required(Target::Coordinator, Command::SetRepeatMode(repeat_for(query.repeat))),
        required(Target::Coordinator, Command::SetShuffle(shuffle_for(query.shuffle))),
        required(Target::Coordinator, Command::Play),
    ] + timer_steps(query.sleep_timer)
}

/// `i` is the first playlist whose title is `title`, ignoring ASCII case.
pub open spec fn first_titled(playlists: Seq<Playlist>, title: Seq<char>, i: int) -> bool {
    &&& 0 <= i < playlists.len()
    &&& same_name(playlists[i].title@, title)
    &&& forall|j: int| 0 <= j < i ==> !same_name(#[trigger] playlists[j].title@, title)
}

/// No playlist has the title `title`, ignoring ASCII case.
pub open spec fn none_titled(playlists: Seq<Playlist>, title: Seq<char>) -> bool {
    forall|j: int| 0 <= j < playlists.len() ==> !same_name(#[trigger] playlists[j].title@, title)
}

/// The address of the stored queue that the goodnight profile plays.
pub fn sleep_queue_uri() -> (uri: &'static str)
    ensures
        uri@ == sleep_queue_text(),
{
    "file:///jffs/settings/savedqueues.rsq#23"
}

/// Brings a requested sleep timer into the range from nothing to two hours.
pub fn clamp_sleep_timer(seconds: u16) -> (applied: u64)
    ensures
        applied == clamped(seconds),
        applied <= 7200,
        seconds <= 7200 ==> applied == seconds,
        seconds > 7200 ==> applied == 7200,
{
    if seconds > MAX_SLEEP_TIMER_SECS {
        7200u64
    } else {
        seconds.into()
    }
}

/// The repeat mode of a playlist request.
pub fn repeat_mode(repeat: Option<bool>) -> (mode: RepeatMode)
    ensures
        mode == repeat_for(repeat),
{
    match repeat {
        Some(true) => RepeatMode::All,
        _ => RepeatMode::Off,
    }
}

/// Lays out the goodnight profile.
pub fn goodnight_plan(sleep_timer: Option<u16>) -> (steps: Vec<Step>)
    ensures
        steps@ == goodnight_steps(sleep_timer),
{
    let mut steps: Vec<Step> = Vec::new();
    steps.push(required_step(Target::Coordinator, Command::Stop));
    steps.push(best_effort_step(Target::Coordinator, Command::ClearQueue));
    steps.push(required_step(Target::Coordinator, Command::Enqueue));
    steps.push(required_step(Target::Coordinator, Command::SetRepeatMode(RepeatMode::All)));
    steps.push(required_step(Target::Coordinator, Command::SetShuffle(true)));
    match sleep_timer {
        Some(seconds) => {
            let applied = clamp_sleep_timer(seconds);
            steps.push(required_step(Target::Coordinator, Command::SetSleepTimer(applied)));
        },
        None => {},
    }
    steps.push(required_step(Target::Coordinator, Command::Play));
    assert(steps@ =~= goodnight_steps(sleep_timer));
    steps
}

/// Lays out the playlist profile for the flags of `query`.
pub fn playlist_plan(query: PlaylistQuery) -> (steps: Vec<Step>)
    ensures
        steps@ == playlist_steps(query),
{
    let shuffle = match query.shuffle {
        Some(true) => true,
        _ => false,
    };
    let mut steps: Vec<Step> = Vec::new();
    steps.push(best_effort_step(Target::Coordinator, Command::Stop));
    steps.push(best_effort_step(Target::Coordinator, Command::ClearQueue));
    steps.push(required_step(Target::Coordinator, Command::Enqueue));
    steps.push(
        required_step(Target::Coordinator, Command::SetRepeatMode(repeat_mode(query.repeat))),
    );
    steps.push(required_step(Target::Coordinator, Command::SetShuffle(shuffle)));
    steps.push(required_step(Target::Coordinator, Command::Play));
    match query.sleep_timer {
        Some(seconds) => {
            let applied = clamp_sleep_timer(seconds);
            steps.push(required_step(Target::Coordinator, Command::SetSleepTimer(applied)));
        },
        None => {},
    }
    assert(steps@ =~= playlist_steps(query));
    steps
}

/// The position of the first playlist with the title `title`, ignoring
/// ASCII case; none if no playlist has it.
pub fn playlist_position(playlists: &Vec<Playlist>, title: &str) -> (position: Option<usize>)
    ensures
        match position {
            Some(i) => first_titled(playlists@, title@, i as int),
            None => none_titled(playlists@, title@),
        },
{
    let mut i: usize = 0;
    while i < playlists.len()
        invariant
            i <= playlists.len(),
            forall|j: int| 0 <= j < i ==> !same_name(#[trigger] playlists@[j].title@, title@),
        decreases playlists.len() - i,
    {
        if eq_ignore_case(playlists[i].title.as_str(), title) {
            return Some(i);
        }
        i += 1;
    }
    None
}

/// Picks the first playlist with the title `title`, ignoring ASCII case.
pub fn find_playlist(playlists: Vec<Playlist>, title: &str) -> (found: Option<Playlist>)
    ensures
        match found {
            Some(playlist) => exists|i: int|
                first_titled(playlists@, title@, i) && playlist == #[trigger] playlists@[i],
            None => none_titled(playlists@, title@),
        },
{
    let mut rest = playlists;
    match playlist_position(&rest, title) {
        Some(i) => {
            let playlist = rest.remove(i);
            assert(first_titled(playlists@, title@, i as int) && playlist == playlists@[i as int]);
            Some(playlist)
        },
        None => None,
    }
}

/// The repeat mode of the playlist profile is all exactly when the flag is
/// present and set, and off otherwise; the plan carries it in its fourth
/// step.
pub proof fn lemma_repeat_defaults_to_off(query: PlaylistQuery)
    ensures
        query.repeat == Some(true) ==> repeat_for(query.repeat) == RepeatMode::All,
        query.repeat != Some(true) ==> repeat_for(query.repeat) == RepeatMode::Off,
        playlist_steps(query)[3] == required(
            Target::Coordinator,
            Command::SetRepeatMode(repeat_for(query.repeat)),
        ),
{
}

/// Every sleep timer that either profile applies lies between nothing and
/// two hours, and is the requested value wherever that lies in the range.
pub proof fn lemma_sleep_timer_in_range(seconds: u16)
    ensures
        0 <= clamped(seconds) <= 7200,
        seconds <= 7200 ==> clamped(seconds) == seconds,
        seconds > 7200 ==> clamped(seconds) == 7200,
        timer_steps(Some(seconds)) =~= seq![
            required(Target::Coordinator, Command::SetSleepTimer(clamped(seconds))),
        ],
{
}

/// In the goodnight profile a failure to clear the queue is absorbed: when
/// every other step succeeds the profile completes.
pub proof fn lemma_goodnight_tolerates_clear_failure(
    sleep_timer: Option<u16>,
    results: Seq<bool>,
)
    requires
        results.len() == goodnight_steps(sleep_timer).len(),
        forall|j: int| 0 <= j < results.len() && j != 1 ==> results[j],
    ensures
        status_after(goodnight_steps(sleep_timer), results) == Status::Completed,
{
    let steps = goodnight_steps(sleep_timer);
    lemma_status_meaning(steps, results);
    assert forall|j: int| 0 <= j < steps.len() implies !fatal_at(steps, results, j) by {}
}

/// In the goodnight profile a failure to stop ends the run at once, and
/// nothing else is attempted.
pub proof fn lemma_goodnight_stop_is_required(sleep_timer: Option<u16>, results: Seq<bool>)
    requires
        results.len() >= 1,
        !results[0],
    ensures
        status_after(goodnight_steps(sleep_timer), results) == Status::Aborted(0),
{
    let steps = goodnight_steps(sleep_timer);
    lemma_status_meaning(steps, results);
    assert(fatal_at(steps, results, 0));
}

} // verus!
