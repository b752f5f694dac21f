use gtkspot::playback::{
    elapsed_millis, icon_after, progress, PlayPauseIcon, PlayerEvent, EVENT_INTERVAL_MILLIS,
    TRACK_LOAD_DELAY_MILLIS,
};
use gtkspot::search::{found_tracks, SEARCH_LIMIT, SEARCH_OFFSET};

#[test]
fn icons_follow_state() {
    assert_eq!(icon_after(PlayerEvent::Playing), Some(PlayPauseIcon::Pause));
    assert_eq!(icon_after(PlayerEvent::Paused), Some(PlayPauseIcon::Play));
    assert_eq!(icon_after(PlayerEvent::Stopped), None);
    assert_eq!(icon_after(PlayerEvent::FinishedTrack), None);
}

#[test]
fn elapsed_in_millis() {
    assert_eq!(elapsed_millis(0, 0), 0);
    assert_eq!(elapsed_millis(61, 250), 61_250);
    // the seconds in milliseconds are cut to their low 32 bits
    assert_eq!(elapsed_millis(4_294_968, 5), 709);
}

#[test]
fn progress_only_while_playing() {
    assert_eq!(progress(PlayerEvent::Playing, 200_000, 3, 500), Some(3_500));
    assert_eq!(progress(PlayerEvent::Playing, 0, 3, 500), None);
    assert_eq!(progress(PlayerEvent::Paused, 200_000, 3, 500), None);
    assert_eq!(progress(PlayerEvent::Stopped, 200_000, 3, 500), None);
}

#[test]
fn timings() {
    assert_eq!(TRACK_LOAD_DELAY_MILLIS, 2000);
    assert_eq!(EVENT_INTERVAL_MILLIS, 16);
}

#[test]
fn search_results_pass_through() {
    assert_eq!(SEARCH_LIMIT, 50);
    assert_eq!(SEARCH_OFFSET, 0);
    let (tracks, total) = found_tracks(Some((vec!["a", "b"], 17)));
    assert_eq!(tracks, vec!["a", "b"]);
    assert_eq!(total, 17);
    let (tracks, total) = found_tracks::<&str>(None);
    assert!(tracks.is_empty());
    assert_eq!(total, 0);
}

use gtkspot::playback::icon_after_events;

#[test]
fn last_switching_event_decides_icon() {
    assert_eq!(icon_after_events(&vec![]), None);
    assert_eq!(icon_after_events(&vec![PlayerEvent::Stopped, PlayerEvent::FinishedTrack]), None);
    assert_eq!(
        icon_after_events(&vec![PlayerEvent::Playing, PlayerEvent::Paused, PlayerEvent::Stopped]),
        Some(PlayPauseIcon::Play)
    );
    assert_eq!(
        icon_after_events(&vec![PlayerEvent::Paused, PlayerEvent::Playing]),
        Some(PlayPauseIcon::Pause)
    );
}
