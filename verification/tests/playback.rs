use gif_maker::frame::Frame;
use gif_maker::playback::{PlaybackAction, PlaybackEvent, PlaybackState};
use gif_maker::project::Project;

fn project_of(durations: &[u32]) -> Project {
    let mut project = Project::new();
    for (position, duration) in durations.iter().enumerate() {
        let name = format!("frame{}", position);
        let path = format!("{}.png", position);
        project.add_frame(Frame { name, path, duration: *duration });
    }
    project
}

#[test]
fn playback_begins_idle() {
    let project = project_of(&[100]);
    let playback = project.play();
    assert_eq!(playback.state(), PlaybackState::Idle);
    assert!(!playback.is_finished());
}

#[test]
fn empty_project_ends_at_once_without_a_surface() {
    let project = Project::new();
    let mut playback = project.play();
    let actions = playback.step(PlaybackEvent::Started);
    assert_eq!(actions, vec![PlaybackAction::ReportNothingToPlay]);
    assert_eq!(playback.state(), PlaybackState::Empty);
    assert!(playback.is_finished());
    assert!(!actions.contains(&PlaybackAction::OpenSurface));
}

#[test]
fn empty_project_stays_ended_whatever_is_reported() {
    let project = Project::new();
    let mut playback = project.play();
    playback.step(PlaybackEvent::Started);
    for event in [
        PlaybackEvent::Started,
        PlaybackEvent::ImageLoaded,
        PlaybackEvent::LoadFailed,
        PlaybackEvent::TimedOut,
        PlaybackEvent::Cancelled,
    ] {
        assert_eq!(playback.step(event), vec![]);
        assert_eq!(playback.state(), PlaybackState::Empty);
    }
}

#[test]
fn start_opens_the_surface_and_loads_the_first_frame() {
    let project = project_of(&[100, 200]);
    let mut playback = project.play();
    let actions = playback.step(PlaybackEvent::Started);
    assert_eq!(
        actions,
        vec![PlaybackAction::OpenSurface, PlaybackAction::LoadImage { index: 0 }]
    );
    assert_eq!(playback.state(), PlaybackState::Displaying(0));
}

#[test]
fn loaded_image_is_rendered_and_waited_on_for_its_duration() {
    let project = project_of(&[100, 200]);
    let mut playback = project.play();
    playback.step(PlaybackEvent::Started);
    let actions = playback.step(PlaybackEvent::ImageLoaded);
    assert_eq!(
        actions,
        vec![PlaybackAction::Render { index: 0 }, PlaybackAction::Wait { timeout_ms: 100 }]
    );
    assert_eq!(playback.state(), PlaybackState::Waiting(0));
}

#[test]
fn timeout_goes_on_to_the_next_frame() {
    let project = project_of(&[100, 200]);
    let mut playback = project.play();
    playback.step(PlaybackEvent::Started);
    playback.step(PlaybackEvent::ImageLoaded);
    let actions = playback.step(PlaybackEvent::TimedOut);
    assert_eq!(actions, vec![PlaybackAction::LoadImage { index: 1 }]);
    assert_eq!(playback.state(), PlaybackState::Displaying(1));
    let actions = playback.step(PlaybackEvent::ImageLoaded);
    assert_eq!(
        actions,
        vec![PlaybackAction::Render { index: 1 }, PlaybackAction::Wait { timeout_ms: 200 }]
    );
}

#[test]
fn playback_wraps_around_after_the_last_frame() {
    let project = project_of(&[100, 200]);
    let mut playback = project.play();
    playback.step(PlaybackEvent::Started);
    playback.step(PlaybackEvent::ImageLoaded);
    playback.step(PlaybackEvent::TimedOut);
    playback.step(PlaybackEvent::ImageLoaded);
    let actions = playback.step(PlaybackEvent::TimedOut);
    assert_eq!(actions, vec![PlaybackAction::LoadImage { index: 0 }]);
    assert_eq!(playback.state(), PlaybackState::Displaying(0));
}

#[test]
fn single_frame_is_played_again_and_again() {
    let project = project_of(&[40]);
    let mut playback = project.play();
    playback.step(PlaybackEvent::Started);
    for _ in 0..5 {
        assert_eq!(playback.state(), PlaybackState::Displaying(0));
        playback.step(PlaybackEvent::ImageLoaded);
        assert_eq!(playback.state(), PlaybackState::Waiting(0));
        let actions = playback.step(PlaybackEvent::TimedOut);
        assert_eq!(actions, vec![PlaybackAction::LoadImage { index: 0 }]);
    }
}

#[test]
fn unreadable_second_frame_is_skipped_and_the_others_are_rendered() {
    let project = project_of(&[100, 200, 300]);
    let mut playback = project.play();
    let mut asked = playback.step(PlaybackEvent::Started);
    asked.extend(playback.step(PlaybackEvent::ImageLoaded));
    asked.extend(playback.step(PlaybackEvent::TimedOut));
    assert_eq!(playback.state(), PlaybackState::Displaying(1));

    let on_failure = playback.step(PlaybackEvent::LoadFailed);
    assert_eq!(
        on_failure,
        vec![
            PlaybackAction::ReportLoadFailure { index: 1 },
            PlaybackAction::LoadImage { index: 2 },
        ]
    );
    assert_eq!(playback.state(), PlaybackState::Displaying(2));
    assert!(!playback.is_finished());
    asked.extend(on_failure);

    asked.extend(playback.step(PlaybackEvent::ImageLoaded));
    assert_eq!(playback.state(), PlaybackState::Waiting(2));

    assert!(asked.contains(&PlaybackAction::Render { index: 0 }));
    assert!(!asked.contains(&PlaybackAction::Render { index: 1 }));
    assert!(asked.contains(&PlaybackAction::Render { index: 2 }));
    assert!(!asked.contains(&PlaybackAction::CloseSurface));
    assert!(!asked.iter().any(|action| matches!(action, PlaybackAction::Wait { timeout_ms: 200 })));
    assert_eq!(
        asked.iter().filter(|action| **action == PlaybackAction::OpenSurface).count(),
        1
    );
}

#[test]
fn failed_load_of_the_last_frame_wraps_around() {
    let project = project_of(&[100, 200]);
    let mut playback = project.play();
    playback.step(PlaybackEvent::Started);
    playback.step(PlaybackEvent::ImageLoaded);
    playback.step(PlaybackEvent::TimedOut);
    let actions = playback.step(PlaybackEvent::LoadFailed);
    assert_eq!(
        actions,
        vec![
            PlaybackAction::ReportLoadFailure { index: 1 },
            PlaybackAction::LoadImage { index: 0 },
        ]
    );
    assert_eq!(playback.state(), PlaybackState::Displaying(0));
}

#[test]
fn cancellation_during_wait_stops_without_advancing() {
    let project = project_of(&[100, 200, 300]);
    let mut playback = project.play();
    playback.step(PlaybackEvent::Started);
    playback.step(PlaybackEvent::ImageLoaded);
    playback.step(PlaybackEvent::TimedOut);
    playback.step(PlaybackEvent::ImageLoaded);
    assert_eq!(playback.state(), PlaybackState::Waiting(1));

    let actions = playback.step(PlaybackEvent::Cancelled);
    assert_eq!(actions, vec![PlaybackAction::CloseSurface]);
    assert_eq!(playback.state(), PlaybackState::Stopped);
    assert!(playback.is_finished());
}

#[test]
fn nothing_follows_a_cancellation() {
    let project = project_of(&[100, 200]);
    let mut playback = project.play();
    playback.step(PlaybackEvent::Started);
    playback.step(PlaybackEvent::ImageLoaded);
    playback.step(PlaybackEvent::Cancelled);
    for event in [
        PlaybackEvent::Started,
        PlaybackEvent::ImageLoaded,
        PlaybackEvent::LoadFailed,
        PlaybackEvent::TimedOut,
        PlaybackEvent::Cancelled,
    ] {
        assert_eq!(playback.step(event), vec![]);
        assert_eq!(playback.state(), PlaybackState::Stopped);
    }
}

#[test]
fn zero_duration_asks_for_a_wait_of_zero() {
    let project = project_of(&[0, 50]);
    let mut playback = project.play();
    playback.step(PlaybackEvent::Started);
    let actions = playback.step(PlaybackEvent::ImageLoaded);
    assert_eq!(
        actions,
        vec![PlaybackAction::Render { index: 0 }, PlaybackAction::Wait { timeout_ms: 0 }]
    );
    let actions = playback.step(PlaybackEvent::TimedOut);
    assert_eq!(actions, vec![PlaybackAction::LoadImage { index: 1 }]);
}

#[test]
fn zero_duration_frame_can_still_be_cancelled() {
    let project = project_of(&[0]);
    let mut playback = project.play();
    playback.step(PlaybackEvent::Started);
    playback.step(PlaybackEvent::ImageLoaded);
    assert_eq!(playback.step(PlaybackEvent::Cancelled), vec![PlaybackAction::CloseSurface]);
    assert_eq!(playback.state(), PlaybackState::Stopped);
}

#[test]
fn longest_duration_is_handed_on_unchanged() {
    let project = project_of(&[u32::MAX]);
    let mut playback = project.play();
    playback.step(PlaybackEvent::Started);
    let actions = playback.step(PlaybackEvent::ImageLoaded);
    assert_eq!(actions[1], PlaybackAction::Wait { timeout_ms: u32::MAX });
}

#[test]
fn events_that_do_not_belong_to_the_state_change_nothing() {
    let project = project_of(&[100, 200]);
    let mut playback = project.play();
    for event in [
        PlaybackEvent::ImageLoaded,
        PlaybackEvent::LoadFailed,
        PlaybackEvent::TimedOut,
        PlaybackEvent::Cancelled,
    ] {
        assert_eq!(playback.step(event), vec![]);
        assert_eq!(playback.state(), PlaybackState::Idle);
    }
    playback.step(PlaybackEvent::Started);
    for event in [PlaybackEvent::Started, PlaybackEvent::TimedOut, PlaybackEvent::Cancelled] {
        assert_eq!(playback.step(event), vec![]);
        assert_eq!(playback.state(), PlaybackState::Displaying(0));
    }
    playback.step(PlaybackEvent::ImageLoaded);
    for event in [PlaybackEvent::Started, PlaybackEvent::ImageLoaded, PlaybackEvent::LoadFailed] {
        assert_eq!(playback.step(event), vec![]);
        assert_eq!(playback.state(), PlaybackState::Waiting(0));
    }
}

#[test]
fn surface_is_opened_once_and_closed_once() {
    let project = project_of(&[10, 20, 30]);
    let mut playback = project.play();
    let mut asked = playback.step(PlaybackEvent::Started);
    for round in 0..7 {
        if round % 3 == 1 {
            asked.extend(playback.step(PlaybackEvent::LoadFailed));
        } else {
            asked.extend(playback.step(PlaybackEvent::ImageLoaded));
            asked.extend(playback.step(PlaybackEvent::TimedOut));
        }
    }
    asked.extend(playback.step(PlaybackEvent::ImageLoaded));
    asked.extend(playback.step(PlaybackEvent::Cancelled));
    asked.extend(playback.step(PlaybackEvent::Cancelled));
    let opened = asked.iter().filter(|action| **action == PlaybackAction::OpenSurface).count();
    let closed = asked.iter().filter(|action| **action == PlaybackAction::CloseSurface).count();
    assert_eq!(opened, 1);
    assert_eq!(closed, 1);
    assert_eq!(asked.first(), Some(&PlaybackAction::OpenSurface));
    assert_eq!(asked.last(), Some(&PlaybackAction::CloseSurface));
}

#[test]
fn playback_where_every_load_fails_keeps_going_round() {
    let project = project_of(&[10, 20]);
    let mut playback = project.play();
    playback.step(PlaybackEvent::Started);
    let mut loaded = Vec::new();
    for _ in 0..4 {
        let actions = playback.step(PlaybackEvent::LoadFailed);
        if let PlaybackAction::LoadImage { index } = actions[1] {
            loaded.push(index);
        }
    }
    assert_eq!(loaded, vec![1, 0, 1, 0]);
    assert!(!playback.is_finished());
}
