use rspotify::ClientError;
use spotify_mini_player::handlers::{
    next_track, play_pause, prev_track, refetched, settle, toggle_saved, toggle_shuffle,
    HandlerError, Optimistic, RemoteCall,
};
use spotify_mini_player::state::simplified_item::{PlayableId, SimplifiedItem};
use spotify_mini_player::state::{AppState, GetCurrentPlaybackError};

fn item(id: Option<PlayableId>, saved: bool) -> SimplifiedItem {
    SimplifiedItem {
        context_uri: None,
        id,
        name: Some("Song".to_string()),
        image_url: None,
        album: None,
        artists: Vec::new(),
        saved,
        duration_ms: 200_000,
        progress_ms: 30_000,
    }
}

fn state_with(current: Option<SimplifiedItem>) -> AppState {
    AppState {
        prev: None,
        curr: current,
        next: None,
        shuffle: false,
        progress_ms: 30_000,
        playing: true,
        last_playback_call: 1000,
        last_seek_update: 1200,
        device_id: Some("speaker".to_string()),
    }
}

fn track_state(saved: bool) -> AppState {
    state_with(Some(item(Some(PlayableId::Track("track-5".to_string())), saved)))
}

fn failure() -> Result<(), ClientError> {
    Err(ClientError::CacheFile("remote is down".to_string()))
}

fn is_the_failure(result: Result<bool, HandlerError>) -> bool {
    matches!(
        result,
        Err(HandlerError::SpotifyClientError(ClientError::CacheFile(why))) if why == "remote is down"
    )
}

#[test]
fn pause_is_expected_at_once() {
    let mut state = track_state(false);
    let before = state.clone();
    let pending = play_pause(&mut state);
    assert!(!state.playing);
    assert_eq!(pending.snapshot, before);
    assert_eq!(pending.call, RemoteCall::PausePlayback);
    assert!(pending.refetch);
    let mut expected = before;
    expected.playing = false;
    assert_eq!(state, expected);
}

#[test]
fn resume_is_expected_at_once() {
    let mut state = track_state(false);
    state.playing = false;
    let pending = play_pause(&mut state);
    assert!(state.playing);
    assert_eq!(
        pending.call,
        RemoteCall::ResumePlayback { device_id: Some("speaker".to_string()), position_ms: 30_000 }
    );
    assert!(pending.refetch);
}

#[test]
fn resume_position_is_cut_to_32_bits() {
    let mut state = AppState::default();
    state.progress_ms = (1u64 << 32) + 7;
    let pending = play_pause(&mut state);
    assert_eq!(pending.call, RemoteCall::ResumePlayback { device_id: None, position_ms: 7 });
    let mut state = AppState::default();
    state.progress_ms = u32::MAX as u64;
    let pending = play_pause(&mut state);
    assert_eq!(pending.call, RemoteCall::ResumePlayback { device_id: None, position_ms: u32::MAX });
}

#[test]
fn failed_play_pause_is_rolled_back() {
    let mut state = track_state(true);
    let before = state.clone();
    let pending = play_pause(&mut state);
    assert_ne!(state, before);
    let result = settle(&mut state, pending, failure());
    assert!(is_the_failure(result));
    assert_eq!(state, before);
}

#[test]
fn successful_play_pause_asks_for_a_fetch() {
    let mut state = track_state(true);
    let pending = play_pause(&mut state);
    let optimistic = state.clone();
    let result = settle(&mut state, pending, Ok(()));
    assert!(matches!(result, Ok(true)));
    assert_eq!(state, optimistic);
}

#[test]
fn skipping_leaves_the_state() {
    let state = track_state(false);
    let pending = next_track(&state);
    assert_eq!(pending.snapshot, state);
    assert_eq!(pending.call, RemoteCall::NextTrack);
    assert!(pending.refetch);
    let pending = prev_track(&state);
    assert_eq!(pending.snapshot, state);
    assert_eq!(pending.call, RemoteCall::PreviousTrack);
    assert!(pending.refetch);
}

#[test]
fn failed_skip_is_rolled_back() {
    let mut state = track_state(false);
    let before = state.clone();
    let pending = next_track(&state);
    assert!(is_the_failure(settle(&mut state, pending, failure())));
    assert_eq!(state, before);
    let pending = prev_track(&state);
    assert!(is_the_failure(settle(&mut state, pending, failure())));
    assert_eq!(state, before);
}

#[test]
fn shuffle_is_expected_at_once() {
    let mut state = track_state(false);
    let before = state.clone();
    let pending = toggle_shuffle(&mut state);
    assert!(state.shuffle);
    assert_eq!(pending.snapshot, before);
    assert_eq!(
        pending.call,
        RemoteCall::Shuffle { state: true, device_id: Some("speaker".to_string()) }
    );
    assert!(pending.refetch);
    settle(&mut state, pending, Ok(())).unwrap();
    let pending = toggle_shuffle(&mut state);
    assert!(!state.shuffle);
    assert_eq!(
        pending.call,
        RemoteCall::Shuffle { state: false, device_id: Some("speaker".to_string()) }
    );
}

#[test]
fn failed_shuffle_is_rolled_back() {
    let mut state = track_state(false);
    let before = state.clone();
    let pending = toggle_shuffle(&mut state);
    assert!(is_the_failure(settle(&mut state, pending, failure())));
    assert_eq!(state, before);
}

#[test]
fn saving_is_expected_at_once() {
    let mut state = track_state(false);
    let before = state.clone();
    let pending = toggle_saved(&mut state).unwrap();
    assert!(state.curr.as_ref().unwrap().saved);
    assert_eq!(pending.snapshot, before);
    assert_eq!(pending.call, RemoteCall::CurrentUserSavedTracksAdd { id: "track-5".to_string() });
    assert!(!pending.refetch);
    let mut expected = before;
    expected.curr.as_mut().unwrap().saved = true;
    assert_eq!(state, expected);
    assert!(matches!(settle(&mut state, pending, Ok(())), Ok(false)));
    assert_eq!(state, expected);
}

#[test]
fn removing_is_expected_at_once() {
    let mut state = track_state(true);
    let pending = toggle_saved(&mut state).unwrap();
    assert!(!state.curr.as_ref().unwrap().saved);
    assert_eq!(
        pending.call,
        RemoteCall::CurrentUserSavedTracksDelete { id: "track-5".to_string() }
    );
    assert!(!pending.refetch);
}

#[test]
fn failed_save_is_rolled_back() {
    for saved in [false, true] {
        let mut state = track_state(saved);
        let before = state.clone();
        let pending = toggle_saved(&mut state).unwrap();
        assert!(is_the_failure(settle(&mut state, pending, failure())));
        assert_eq!(state, before);
    }
}

fn refusal(state: &mut AppState) -> String {
    let before = state.clone();
    let result = toggle_saved(state);
    assert_eq!(*state, before);
    match result {
        Err(HandlerError::OtherError(why)) => why,
        other => panic!("not refused: {:?}", other),
    }
}

#[test]
fn saving_needs_a_track_with_an_id() {
    let nothing = refusal(&mut state_with(None));
    let episode =
        refusal(&mut state_with(Some(item(Some(PlayableId::Episode("ep".to_string())), false))));
    let local = refusal(&mut state_with(Some(item(None, false))));
    assert_eq!(nothing, "No current playback");
    assert_eq!(episode, "Current playback not a track");
    assert_eq!(local, "Current playback has no `id`");
    assert_ne!(nothing, episode);
    assert_ne!(nothing, local);
    assert_ne!(episode, local);
    assert!(toggle_saved(&mut track_state(false)).is_ok());
}

#[test]
fn settling_takes_any_snapshot() {
    let mut state = track_state(false);
    let snapshot = AppState::default();
    let pending = Optimistic { snapshot, call: RemoteCall::NextTrack, refetch: false };
    assert!(is_the_failure(settle(&mut state, pending, failure())));
    assert_eq!(state, AppState::default());
}

#[test]
fn failed_fetch_after_a_command_is_handed_on() {
    assert!(refetched(Ok(())).is_ok());
    assert!(matches!(
        refetched(Err(GetCurrentPlaybackError::TokenNotSet)),
        Err(HandlerError::GetCurrentPlaybackPlayback(GetCurrentPlaybackError::TokenNotSet))
    ));
}

#[test]
fn errors_are_made_from_their_causes() {
    assert!(matches!(
        HandlerError::from(ClientError::InvalidToken),
        HandlerError::SpotifyClientError(ClientError::InvalidToken)
    ));
    assert!(matches!(
        HandlerError::from(GetCurrentPlaybackError::TokenNotSet),
        HandlerError::GetCurrentPlaybackPlayback(GetCurrentPlaybackError::TokenNotSet)
    ));
    assert!(matches!(
        HandlerError::from("why".to_string()),
        HandlerError::OtherError(why) if why == "why"
    ));
}
