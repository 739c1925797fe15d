use spotify_mini_player::handlers::event_loop::{
    subscribe_to_event_loop, unsubscribe_to_event_loop, update, EventLoopHandle, Update,
};
use spotify_mini_player::state::playback_context::PlaybackContext;
use spotify_mini_player::state::simplified_item::SimplifiedItem;
use spotify_mini_player::state::AppState;

fn playing(progress_ms: u64, duration_ms: u64) -> AppState {
    AppState {
        prev: None,
        curr: Some(SimplifiedItem {
            context_uri: None,
            id: None,
            name: None,
            image_url: None,
            album: None,
            artists: Vec::new(),
            saved: false,
            duration_ms,
            progress_ms,
        }),
        next: None,
        shuffle: false,
        progress_ms,
        playing: true,
        last_playback_call: 10_000,
        last_seek_update: 10_000,
        device_id: None,
    }
}

#[test]
fn progress_advances_by_the_time_that_passed() {
    let mut state = playing(1_000, 60_000);
    assert_eq!(update(&mut state, true, 10_250), Update::Publish);
    assert_eq!(state.progress_ms, 1_250);
    assert_eq!(state.curr.as_ref().unwrap().progress_ms, 1_250);
    assert_eq!(state.last_seek_update, 10_250);
    assert_eq!(state.last_playback_call, 10_000);
}

#[test]
fn advances_add_up() {
    let mut stepwise = playing(0, 60_000);
    let mut at_once = playing(0, 60_000);
    for now in [10_001u64, 10_001, 10_007, 10_100, 10_100, 12_345, 14_999] {
        assert_eq!(update(&mut stepwise, true, now), Update::Publish);
    }
    assert_eq!(update(&mut at_once, true, 14_999), Update::Publish);
    assert_eq!(stepwise, at_once);
    assert_eq!(stepwise.progress_ms, 4_999);
}

#[test]
fn progress_never_falls_between_fetches() {
    let mut state = playing(500, 60_000);
    let mut last = state.progress_ms;
    for now in [10_000u64, 10_003, 10_002, 10_010, 9_000, 10_011] {
        update(&mut state, true, now);
        assert!(state.progress_ms >= last);
        last = state.progress_ms;
    }
    assert_eq!(state.progress_ms, 511);
}

#[test]
fn no_time_no_advance() {
    let mut state = playing(1_000, 60_000);
    let before = state.clone();
    assert_eq!(update(&mut state, true, 10_000), Update::Publish);
    assert_eq!(state, before);
    assert_eq!(update(&mut state, true, 9_999), Update::Publish);
    assert_eq!(state, before);
}

#[test]
fn paused_playback_does_not_advance() {
    let mut state = playing(1_000, 60_000);
    state.playing = false;
    let before = state.clone();
    assert_eq!(update(&mut state, true, 10_500), Update::Publish);
    assert_eq!(state, before);
}

#[test]
fn nothing_advances_without_an_item() {
    let mut state = AppState::default();
    state.playing = true;
    let before = state.clone();
    assert_eq!(update(&mut state, true, 300), Update::Publish);
    assert_eq!(state, before);
}

#[test]
fn stale_playback_is_fetched() {
    let mut state = playing(1_000, 60_000);
    let before = state.clone();
    assert_eq!(update(&mut state, true, 14_999), Update::Publish);
    let mut state = before.clone();
    assert_eq!(update(&mut state, true, 15_000), Update::Fetch);
    assert_eq!(state, before);
    assert_eq!(update(&mut state, true, 1_000_000), Update::Fetch);
    assert_eq!(state, before);
}

#[test]
fn finished_item_is_fetched() {
    let mut state = playing(60_000, 60_000);
    let before = state.clone();
    assert_eq!(update(&mut state, true, 10_001), Update::Fetch);
    assert_eq!(state, before);
    let mut state = playing(59_999, 60_000);
    assert_eq!(update(&mut state, true, 10_001), Update::Publish);
    assert_eq!(state.progress_ms, 60_000);
    assert_eq!(update(&mut state, true, 10_002), Update::Fetch);
    assert_eq!(state.progress_ms, 60_000);
}

#[test]
fn progress_may_pass_the_end_by_one_advance() {
    let mut state = playing(59_990, 60_000);
    assert_eq!(update(&mut state, true, 10_050), Update::Publish);
    assert_eq!(state.progress_ms, 60_040);
    assert_eq!(update(&mut state, true, 10_051), Update::Fetch);
    assert_eq!(state.progress_ms, 60_040);
}

#[test]
fn without_token_nothing_is_fetched() {
    let mut state = playing(1_000, 60_000);
    let before = state.clone();
    assert_eq!(update(&mut state, false, 20_000), Update::Publish);
    assert_eq!(state, before);
    let mut idle = AppState::default();
    assert_eq!(update(&mut idle, false, 5_000), Update::Publish);
    assert_eq!(idle, AppState::default());
    assert_eq!(update(&mut idle, true, 5_000), Update::Fetch);
    assert_eq!(update(&mut idle, true, 4_999), Update::Publish);
}

#[test]
fn progress_stops_at_the_largest_value() {
    let mut state = playing(u64::MAX - 5, u64::MAX);
    state.last_playback_call = 100;
    state.last_seek_update = 0;
    assert_eq!(update(&mut state, true, 100), Update::Publish);
    assert_eq!(state.progress_ms, u64::MAX);
    assert_eq!(state.curr.as_ref().unwrap().progress_ms, u64::MAX);
    assert_eq!(state.last_seek_update, 100);
}

#[test]
fn fetch_overwrites_the_advanced_progress() {
    let mut state = playing(1_000, 60_000);
    update(&mut state, true, 12_000);
    assert_eq!(state.progress_ms, 3_000);
    let context = PlaybackContext {
        device_id: None,
        shuffle_state: false,
        context_uri: None,
        progress_ms: Some(2_900),
        is_playing: true,
        item: None,
    };
    let query = AppState::playback_query(true).unwrap();
    state.get_current_playback(query, Ok(Some(context)), false, 15_000).unwrap();
    assert_eq!(state.progress_ms, 2_900);
    assert_eq!(state.curr.as_ref().unwrap().progress_ms, 2_900);
    assert_eq!(state.last_playback_call, 15_000);
    assert_eq!(state.last_seek_update, 12_000);
}

#[test]
fn new_loop_replaces_the_old_one() {
    let mut handle: EventLoopHandle<&str> = EventLoopHandle(None);
    assert_eq!(subscribe_to_event_loop(&mut handle, "first"), None);
    assert_eq!(handle.0, Some("first"));
    assert_eq!(subscribe_to_event_loop(&mut handle, "second"), Some("first"));
    assert_eq!(handle.0, Some("second"));
}

#[test]
fn cancelling_twice_is_harmless() {
    let mut handle: EventLoopHandle<u32> = EventLoopHandle(None);
    assert_eq!(unsubscribe_to_event_loop(&mut handle), None);
    assert_eq!(handle.0, None);
    subscribe_to_event_loop(&mut handle, 7);
    assert_eq!(unsubscribe_to_event_loop(&mut handle), Some(7));
    assert_eq!(handle.0, None);
    assert_eq!(unsubscribe_to_event_loop(&mut handle), None);
    assert_eq!(handle.0, None);
}

#[test]
fn progress_waits_at_the_end_for_the_fetch() {
    let mut state = playing(59_000, 60_000);
    assert_eq!(update(&mut state, true, 11_200), Update::Publish);
    assert_eq!(state.progress_ms, 60_200);
    let reached = state.clone();
    for now in [11_201u64, 11_500, 14_000, 15_000, 30_000] {
        assert_eq!(update(&mut state, true, now), Update::Fetch);
        assert_eq!(state, reached);
        assert_eq!(update(&mut state, false, now), Update::Publish);
        assert_eq!(state, reached);
    }
}
