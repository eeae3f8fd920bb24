use home_api::endpoint::{
    after_grouping, after_playback, status_code, Endpoint, Finding, BAD_REQUEST, INTERNAL_ERROR,
    NOT_FOUND, OK, UNAVAILABLE,
};
use home_api::group::GroupOutcome;
use home_api::playback::{
    clamp_sleep_timer, find_playlist, goodnight_plan, playlist_plan, playlist_position,
    repeat_mode, sleep_queue_uri, Playlist, PlaylistQuery, MAX_SLEEP_TIMER_SECS,
};
use home_api::sequence::{
    best_effort_step, replay, required_step, Command, RepeatMode, Status, Target,
};

fn playlist(title: &str, uri: &str) -> Playlist {
    Playlist { title: title.to_string(), uri: uri.to_string() }
}

#[test]
fn sleep_timer_is_clamped() {
    assert_eq!(clamp_sleep_timer(0), 0);
    assert_eq!(clamp_sleep_timer(1), 1);
    assert_eq!(clamp_sleep_timer(7199), 7199);
    assert_eq!(clamp_sleep_timer(7200), 7200);
    assert_eq!(clamp_sleep_timer(7201), 7200);
    assert_eq!(clamp_sleep_timer(u16::MAX), 7200);
    assert_eq!(MAX_SLEEP_TIMER_SECS, 2 * 60 * 60);
}

#[test]
fn repeat_defaults_to_off() {
    assert_eq!(repeat_mode(None), RepeatMode::Off);
    assert_eq!(repeat_mode(Some(false)), RepeatMode::Off);
    assert_eq!(repeat_mode(Some(true)), RepeatMode::All);
}

#[test]
fn goodnight_profile_without_timer() {
    let c = Target::Coordinator;
    let expected = vec![
        required_step(c, Command::Stop),
        best_effort_step(c, Command::ClearQueue),
        required_step(c, Command::Enqueue),
        required_step(c, Command::SetRepeatMode(RepeatMode::All)),
        required_step(c, Command::SetShuffle(true)),
        required_step(c, Command::Play),
    ];
    assert_eq!(goodnight_plan(None), expected);
    assert_eq!(sleep_queue_uri(), "file:///jffs/settings/savedqueues.rsq#23");
}

#[test]
fn goodnight_profile_with_timer() {
    let c = Target::Coordinator;
    let plan = goodnight_plan(Some(9000));
    assert_eq!(plan.len(), 7);
    assert_eq!(plan[5], required_step(c, Command::SetSleepTimer(7200)));
    assert_eq!(plan[6], required_step(c, Command::Play));
    assert_eq!(goodnight_plan(Some(0))[5], required_step(c, Command::SetSleepTimer(0)));
    assert_eq!(goodnight_plan(Some(600))[5], required_step(c, Command::SetSleepTimer(600)));
}

#[test]
fn goodnight_failures() {
    let plan = goodnight_plan(Some(60));
    let mut results = vec![true; 7];
    results[1] = false;
    assert_eq!(replay(&plan, &results), Status::Completed);
    results[0] = false;
    assert_eq!(replay(&plan, &results), Status::Aborted(0));
    results[0] = true;
    results[5] = false;
    assert_eq!(replay(&plan, &results), Status::Aborted(5));
}

#[test]
fn playlist_profile_follows_the_flags() {
    let c = Target::Coordinator;
    let plain = playlist_plan(PlaylistQuery { shuffle: None, repeat: None, sleep_timer: None });
    let expected = vec![
        best_effort_step(c, Command::Stop),
        best_effort_step(c, Command::ClearQueue),
        required_step(c, Command::Enqueue),
        required_step(c, Command::SetRepeatMode(RepeatMode::Off)),
        required_step(c, Command::SetShuffle(false)),
        required_step(c, Command::Play),
    ];
    assert_eq!(plain, expected);

    let full = playlist_plan(PlaylistQuery {
        shuffle: Some(true),
        repeat: Some(true),
        sleep_timer: Some(65535),
    });
    assert_eq!(full.len(), 7);
    assert_eq!(full[3], required_step(c, Command::SetRepeatMode(RepeatMode::All)));
    assert_eq!(full[4], required_step(c, Command::SetShuffle(true)));
    assert_eq!(full[5], required_step(c, Command::Play));
    assert_eq!(full[6], required_step(c, Command::SetSleepTimer(7200)));

    let off = playlist_plan(PlaylistQuery {
        shuffle: Some(false),
        repeat: Some(false),
        sleep_timer: Some(0),
    });
    assert_eq!(off[3], required_step(c, Command::SetRepeatMode(RepeatMode::Off)));
    assert_eq!(off[4], required_step(c, Command::SetShuffle(false)));
    assert_eq!(off[6], required_step(c, Command::SetSleepTimer(0)));
}

#[test]
fn playlist_profile_failures() {
    let plan = playlist_plan(PlaylistQuery { shuffle: None, repeat: None, sleep_timer: Some(30) });
    let mut results = vec![true; 7];
    results[0] = false;
    results[1] = false;
    assert_eq!(replay(&plan, &results), Status::Completed);
    results[6] = false;
    assert_eq!(replay(&plan, &results), Status::Aborted(6));
    assert_eq!(
        after_playback(Endpoint::Playlist, Status::Aborted(6)),
        Some(Finding::SleepTimerFailed)
    );
    results[2] = false;
    assert_eq!(replay(&plan, &results), Status::Aborted(2));
    assert_eq!(
        after_playback(Endpoint::Playlist, Status::Aborted(2)),
        Some(Finding::PlaybackFailed)
    );
}

#[test]
fn playlist_is_found_by_title() {
    let lists = vec![
        playlist("Morning", "file:///a#1"),
        playlist("sleep", "file:///a#2"),
        playlist("SLEEP", "file:///a#3"),
    ];
    assert_eq!(playlist_position(&lists, "Sleep"), Some(1));
    assert_eq!(playlist_position(&lists, "morning"), Some(0));
    assert_eq!(playlist_position(&lists, "Evening"), None);
    let found = find_playlist(lists, "Sleep").unwrap();
    assert_eq!(found.title, "sleep");
    assert_eq!(found.uri, "file:///a#2");
    assert!(find_playlist(vec![playlist("Morning", "x")], "Sleep").is_none());
    assert!(find_playlist(Vec::new(), "Sleep").is_none());
}

#[test]
fn status_codes_by_endpoint() {
    assert_eq!(status_code(Endpoint::Group, Finding::Done), 200);
    assert_eq!(status_code(Endpoint::Group, Finding::NoCoordinator), 200);
    assert_eq!(status_code(Endpoint::Group, Finding::GroupingFailed), 500);
    assert_eq!(status_code(Endpoint::Sleep, Finding::Done), 200);
    assert_eq!(status_code(Endpoint::Sleep, Finding::NoCoordinator), 400);
    assert_eq!(status_code(Endpoint::Sleep, Finding::GroupingFailed), 500);
    assert_eq!(status_code(Endpoint::Sleep, Finding::PlaybackFailed), 503);
    assert_eq!(status_code(Endpoint::Playlist, Finding::Done), 200);
    assert_eq!(status_code(Endpoint::Playlist, Finding::NoCoordinator), 404);
    assert_eq!(status_code(Endpoint::Playlist, Finding::PlaylistMissing), 404);
    assert_eq!(status_code(Endpoint::Playlist, Finding::PlaylistLookupFailed), 500);
    assert_eq!(status_code(Endpoint::Playlist, Finding::PlaybackFailed), 500);
    assert_eq!(status_code(Endpoint::Playlist, Finding::SleepTimerFailed), 500);
    assert_eq!(status_code(Endpoint::Playlist, Finding::GroupingFailed), 500);
    assert_eq!((OK, BAD_REQUEST, NOT_FOUND, INTERNAL_ERROR, UNAVAILABLE), (200, 400, 404, 500, 503));
}

#[test]
fn findings_after_each_stage() {
    assert_eq!(after_grouping(GroupOutcome::Grouped), None);
    assert_eq!(after_grouping(GroupOutcome::NoCoordinator), Some(Finding::NoCoordinator));
    assert_eq!(after_grouping(GroupOutcome::Failed), Some(Finding::GroupingFailed));
    assert_eq!(after_playback(Endpoint::Sleep, Status::Pending(2)), None);
    assert_eq!(after_playback(Endpoint::Sleep, Status::Completed), Some(Finding::Done));
    assert_eq!(after_playback(Endpoint::Sleep, Status::Aborted(6)), Some(Finding::PlaybackFailed));
    assert_eq!(after_playback(Endpoint::Sleep, Status::Aborted(0)), Some(Finding::PlaybackFailed));
}
