//! The state that the player shows, and how the remote side's answers are merged into it.

pub mod playback_context;
pub mod simplified_item;

use vstd::prelude::*;
use rspotify::ClientError;
use self::playback_context::{clone_text, PlaybackContext, PlaybackContextView};
use self::simplified_item::{
    simplified, PlayableId, PlayableIdView, SimplifiedItem, SimplifiedItemView,
};

verus! {

/// `rspotify::ClientError`, the error of a remote call as the client
/// library reports it. Nothing is claimed of it: the player never looks
/// inside, it hands the error on to its caller.
#[verifier::external_type_specification]
#[verifier::external_body]
pub struct ExClientError(ClientError);

/// The name under which a change of the state is announced.
pub const STATE_CHANGE_EVENT: &'static str = "app_state_change";

/// The file that holds the stored token record.
pub const STORE_PATH_BUF: &'static str = "store.bin";

/// The key of the stored token record.
pub const STORE_TOKEN_KEY: &'static str = "access_token";

/// Why the running playback could not be fetched.
#[derive(Debug)]
pub enum GetCurrentPlaybackError {
    /// The remote call failed.
    SpotifyClientError(ClientError),
    /// No token is installed, so no remote call was made.
    TokenNotSet,
}

/// The kinds of item that the player asks the remote side to report.
#[derive(Clone, Copy, Debug, PartialEq, Eq)]
pub enum AdditionalType {
    Track,
    Episode,
}

/// The request for the running playback. Only [`AppState::playback_query`]
/// makes one, and only where a token is installed.
#[derive(Debug)]
pub struct PlaybackQuery {
    additional_types: Vec<AdditionalType>,
}

impl PlaybackQuery {
    /// The kinds of item that the request names, in their order.
    pub closed spec fn spec_additional_types(&self) -> Seq<AdditionalType> {
        self.additional_types@
    }

    /// The kinds of item that the remote side is asked to report.
    pub fn additional_types(&self) -> (kinds: &Vec<AdditionalType>)
        ensures
            kinds@ == self.spec_additional_types(),
    {
        &self.additional_types
    }
}

/// What the player shows. All times are readings, in milliseconds, of one
/// clock that never runs backwards.
#[derive(Debug, PartialEq, Eq)]
pub struct AppState {
    pub prev: Option<SimplifiedItem>,
    pub curr: Option<SimplifiedItem>,
    pub next: Option<SimplifiedItem>,
    pub shuffle: bool,
    pub progress_ms: u64,
    pub playing: bool,
    /// When the running playback was last fetched.
    pub last_playback_call: u64,
    /// When the progress was last advanced without a fetch.
    pub last_seek_update: u64,
    pub device_id: Option<String>,
}

/// What the contracts see of [`AppState`].
pub struct AppStateView {
    pub prev: Option<SimplifiedItemView>,
    pub curr: Option<SimplifiedItemView>,
    pub next: Option<SimplifiedItemView>,
    pub shuffle: bool,
    pub progress_ms: u64,
    pub playing: bool,
    pub last_playback_call: u64,
    pub last_seek_update: u64,
    pub device_id: Option<Seq<char>>,
}

impl View for AppState {
    type V = AppStateView;

    open spec fn view(&self) -> AppStateView {
        AppStateView {
            prev: self.prev.deep_view(),
            curr: self.curr.deep_view(),
            next: self.next.deep_view(),
            shuffle: self.shuffle,
            progress_ms: self.progress_ms,
            playing: self.playing,
            last_playback_call: self.last_playback_call,
            last_seek_update: self.last_seek_update,
            device_id: self.device_id.deep_view(),
        }
    }
}

/// A copy of an optional item.
pub fn clone_item(item: &Option<SimplifiedItem>) -> (copy: Option<SimplifiedItem>)
    ensures
        copy.deep_view() == item.deep_view(),
{
    match item {
        Some(i) => Some(i.clone()),
        None => None,
    }
}

impl Clone for AppState {
    fn clone(&self) -> (copy: Self)
        ensures
            copy@ == self@,
    {
        AppState {
            prev: clone_item(&self.prev),
            curr: clone_item(&self.curr),
            next: clone_item(&self.next),
            shuffle: self.shuffle,
            progress_ms: self.progress_ms,
            playing: self.playing,
            last_playback_call: self.last_playback_call,
            last_seek_update: self.last_seek_update,
            device_id: clone_text(&self.device_id),
        }
    }
}

/// The two places that hold the progress agree: where an item plays, the
/// progress of the state is that of the item. Every operation of this crate
/// that changes either keeps them so.
pub open spec fn consistent(state: AppStateView) -> bool {
    state.curr matches Some(item) ==> state.progress_ms == item.progress_ms
}

/// The state before anything is known: nothing plays, and both times are
/// at the origin of the clock.
pub open spec fn initial_state() -> AppStateView {
    AppStateView {
        prev: None,
        curr: None,
        next: None,
        shuffle: false,
        progress_ms: 0,
        playing: false,
        last_playback_call: 0,
        last_seek_update: 0,
        device_id: None,
    }
}

impl Default for AppState {
    fn default() -> (state: Self)
        ensures
            state@ == initial_state(),
    {
        AppState {
            prev: None,
            curr: None,
            next: None,
            shuffle: false,
            progress_ms: 0,
            playing: false,
            last_playback_call: 0,
            last_seek_update: 0,
            device_id: None,
        }
    }
}

/// The identifier of the track that `playback` plays, if it plays a track
/// that has one.
pub open spec fn checked_track(playback: PlaybackContextView) -> Option<Seq<char>> {
    match simplified(playback).id {
        Some(PlayableIdView::Track(id)) => Some(id),
        _ => None,
    }
}

/// The state after the remote side has answered the question for the
/// running playback at the time `now`. `saved` says whether the playing
/// track counts as saved; it is ignored where no track with an identifier
/// plays.
pub open spec fn merged(
    state: AppStateView,
    playback: Option<PlaybackContextView>,
    saved: bool,
    now: u64,
) -> AppStateView {
    match playback {
        None => AppStateView { last_playback_call: now, ..state },
        Some(p) => {
            let item = SimplifiedItemView {
                saved: checked_track(p) is Some && saved,
                ..simplified(p)
            };
            AppStateView {
                playing: p.is_playing,
                device_id: p.device_id,
                shuffle: p.shuffle_state,
                progress_ms: item.progress_ms,
                curr: Some(item),
                last_playback_call: now,
                ..state
            }
        },
    }
}

/// A fetch that finds a running playback makes the two places that hold
/// the progress agree; one that finds none changes neither of them.
pub proof fn lemma_fetch_keeps_progress_consistent(
    state: AppStateView,
    playback: Option<PlaybackContextView>,
    saved: bool,
    now: u64,
)
    ensures
        playback is Some ==> consistent(merged(state, playback, saved, now)),
        consistent(state) ==> consistent(merged(state, playback, saved, now)),
{
}

impl AppState {
    /// How long a fetched playback stays fresh, in milliseconds.
    pub const PLAYBACK_CALL_BUFFER: u64 = 5000;

    /// The step, in milliseconds, by which the progress is advanced between fetches.
    pub const SEEK_CALL_BUFFER: u64 = 1;

    /// The snapshot of the state that is announced under [`STATE_CHANGE_EVENT`].
    pub fn emit_update(&self) -> (snapshot: AppState)
        ensures
            snapshot@ == self@,
    {
        self.clone()
    }

    /// The request for the running playback, or `TokenNotSet` where no token
    /// is installed. The remote call is made only with the request in hand.
    pub fn playback_query(token_set: bool) -> (query: Result<PlaybackQuery, GetCurrentPlaybackError>)
        ensures
            token_set <==> query is Ok,
            !token_set ==> query == Err::<PlaybackQuery, _>(GetCurrentPlaybackError::TokenNotSet),
            query matches Ok(q) ==> q.spec_additional_types() == seq![
                AdditionalType::Track,
                AdditionalType::Episode,
            ],
    {
        if !token_set {
            return Err(GetCurrentPlaybackError::TokenNotSet);
        }
        let mut additional_types: Vec<AdditionalType> = Vec::new();
        additional_types.push(AdditionalType::Track);
        additional_types.push(AdditionalType::Episode);
        assert(additional_types@ =~= seq![AdditionalType::Track, AdditionalType::Episode]);
        Ok(PlaybackQuery { additional_types })
    }

    /// The track about which the remote side is asked whether it is saved:
    /// the playing item, if it is a track and has an identifier.
    pub fn track_to_check(playback: &PlaybackContext) -> (id: Option<String>)
        ensures
            id.deep_view() == checked_track(playback@),
    {
        match SimplifiedItem::get_id(playback) {
            Some(PlayableId::Track(id)) => Some(id),
            _ => None,
        }
    }

    /// Whether the playing track counts as saved, given the remote side's
    /// answer to the question about that one track. Only the answer that
    /// holds exactly one entry, and holds `true`, says so: a failed
    /// question, an empty answer and an answer of several entries all
    /// count as "not saved".
    pub fn current_user_saved_tracks_contains(answer: Result<Vec<bool>, ClientError>) -> (saved: bool)
        ensures
            saved <==> (answer matches Ok(tracks) && tracks@ == seq![true]),
    {
        match answer {
            Ok(tracks) => {
                assert(tracks@ == seq![true] <==> tracks@.len() == 1 && tracks@[0]) by {
                    if tracks@.len() == 1 && tracks@[0] {
                        assert(tracks@ =~= seq![true]);
                    }
                }
                tracks.len() == 1 && tracks[0]
            },
            Err(_) => false,
        }
    }

    /// Merges the remote side's answer to a request for the running
    /// playback into the state, at the time `now`. `saved` says whether the
    /// playing track counts as saved.
    ///
    /// A failed call leaves the state as it was and is handed on. An answer
    /// without a running playback only records the time of the fetch. Any
    /// other answer overwrites what plays, where, and how far it is.
    pub fn get_current_playback(
        &mut self,
        _query: PlaybackQuery,
        response: Result<Option<PlaybackContext>, ClientError>,
        saved: bool,
        now: u64,
    ) -> (result: Result<(), GetCurrentPlaybackError>)
        ensures
            match response {
                Ok(playback) => result is Ok && final(self)@ == merged(
                    old(self)@,
                    playback.deep_view(),
                    saved,
                    now,
                ),
                Err(e) => result == Err::<(), _>(GetCurrentPlaybackError::SpotifyClientError(e))
                    && *final(self) == *old(self),
            },
    {
        let context = match response {
            Ok(context) => context,
            Err(e) => {
                return Err(GetCurrentPlaybackError::SpotifyClientError(e));
            },
        };
        if let Some(context) = context {
            self.playing = context.is_playing;
            self.device_id = clone_text(&context.device_id);
            self.shuffle = context.shuffle_state;
            let is_track = Self::track_to_check(&context).is_some();
            let mut item = SimplifiedItem::from(context);
            item.saved = is_track && saved;
            self.progress_ms = item.progress_ms;
            self.curr = Some(item);
        }
        self.last_playback_call = now;
        Ok(())
    }
}

} // verus!
