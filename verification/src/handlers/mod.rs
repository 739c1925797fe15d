//! The commands of the player. A command changes the shown state at once,
//! as if the remote side had already agreed, and names the remote call that
//! is to be made; when the call has been made, the command is settled: a
//! failed call puts the earlier state back.
//!
//! The caller holds the state for itself from the moment a command is given
//! until it is settled, and announces the state after every change: once
//! when the command has been given, and once more when a failed call has
//! put the earlier state back.

pub mod event_loop;
pub mod login;

use vstd::prelude::*;
use vstd::std_specs::convert::FromSpecImpl;
use vstd::string::StringExecFns;
use rspotify::ClientError;
use crate::state::{consistent, AppState, AppStateView, GetCurrentPlaybackError};
use crate::state::playback_context::clone_text;
use crate::state::simplified_item::{PlayableId, PlayableIdView, SimplifiedItemView};

verus! {

/// Why a command failed.
#[derive(Debug)]
pub enum HandlerError {
    /// The remote call of the command failed.
    SpotifyClientError(ClientError),
    /// The command went through, but the fetch after it failed.
    GetCurrentPlaybackPlayback(GetCurrentPlaybackError),
    /// The command does not apply to the state; the text says why.
    OtherError(String),
}

impl From<ClientError> for HandlerError {
    fn from(error: ClientError) -> (converted: Self) {
        HandlerError::SpotifyClientError(error)
    }
}

impl FromSpecImpl<ClientError> for HandlerError {
    open spec fn obeys_from_spec() -> bool {
        true
    }

    open spec fn from_spec(error: ClientError) -> Self {
        HandlerError::SpotifyClientError(error)
    }
}

impl From<GetCurrentPlaybackError> for HandlerError {
    fn from(error: GetCurrentPlaybackError) -> (converted: Self) {
        HandlerError::GetCurrentPlaybackPlayback(error)
    }
}

impl FromSpecImpl<GetCurrentPlaybackError> for HandlerError {
    open spec fn obeys_from_spec() -> bool {
        true
    }

    open spec fn from_spec(error: GetCurrentPlaybackError) -> Self {
        HandlerError::GetCurrentPlaybackPlayback(error)
    }
}

impl From<String> for HandlerError {
    fn from(s: String) -> (converted: Self) {
        HandlerError::OtherError(s)
    }
}

impl FromSpecImpl<String> for HandlerError {
    open spec fn obeys_from_spec() -> bool {
        true
    }

    open spec fn from_spec(s: String) -> Self {
        HandlerError::OtherError(s)
    }
}

/// A call to the remote side.
#[derive(Debug, PartialEq, Eq)]
pub enum RemoteCall {
    PausePlayback,
    ResumePlayback { device_id: Option<String>, position_ms: u32 },
    NextTrack,
    PreviousTrack,
    Shuffle { state: bool, device_id: Option<String> },
    CurrentUserSavedTracksAdd { id: String },
    CurrentUserSavedTracksDelete { id: String },
}

/// What the contracts see of [`RemoteCall`].
pub enum RemoteCallView {
    PausePlayback,
    ResumePlayback { device_id: Option<Seq<char>>, position_ms: u32 },
    NextTrack,
    PreviousTrack,
    Shuffle { state: bool, device_id: Option<Seq<char>> },
    CurrentUserSavedTracksAdd { id: Seq<char> },
    CurrentUserSavedTracksDelete { id: Seq<char> },
}

impl View for RemoteCall {
    type V = RemoteCallView;

    open spec fn view(&self) -> RemoteCallView {
        match self {
            RemoteCall::PausePlayback => RemoteCallView::PausePlayback,
            RemoteCall::ResumePlayback { device_id, position_ms } => RemoteCallView::ResumePlayback {
                device_id: device_id.deep_view(),
                position_ms: *position_ms,
            },
            RemoteCall::NextTrack => RemoteCallView::NextTrack,
            RemoteCall::PreviousTrack => RemoteCallView::PreviousTrack,
            RemoteCall::Shuffle { state, device_id } => RemoteCallView::Shuffle {
                state: *state,
                device_id: device_id.deep_view(),
            },
            RemoteCall::CurrentUserSavedTracksAdd { id } => RemoteCallView::CurrentUserSavedTracksAdd {
                id: id@,
            },
            RemoteCall::CurrentUserSavedTracksDelete {
                id,
            } => RemoteCallView::CurrentUserSavedTracksDelete { id: id@ },
        }
    }
}

/// A command that has changed the state and waits for its remote call.
#[derive(Debug)]
pub struct Optimistic {
    /// The state as it was before the command.
    pub snapshot: AppState,
    /// The remote call that carries the command out.
    pub call: RemoteCall,
    /// Whether the running playback is fetched anew once the call has succeeded.
    pub refetch: bool,
}

/// The commands of the player.
#[derive(Clone, Copy, Debug, PartialEq, Eq)]
pub enum Command {
    PlayPause,
    NextTrack,
    PrevTrack,
    ToggleSaved,
    ToggleShuffle,
}

/// Why `ToggleSaved` does not apply to a state, if it does not.
pub open spec fn toggle_saved_refusal(state: AppStateView) -> Option<Seq<char>> {
    match state.curr {
        None => Some("No current playback"@),
        Some(current) => match current.id {
            Some(PlayableIdView::Track(_)) => None,
            Some(PlayableIdView::Episode(_)) => Some("Current playback not a track"@),
            None => Some("Current playback has no `id`"@),
        },
    }
}

/// Whether a command applies to a state. All but `ToggleSaved` always do.
pub open spec fn applies(command: Command, state: AppStateView) -> bool {
    match command {
        Command::ToggleSaved => toggle_saved_refusal(state) is None,
        _ => true,
    }
}

/// The position at which a paused playback is resumed: the progress, cut
/// to the 32 bits that the remote call takes.
pub open spec fn resume_position(progress_ms: u64) -> u32 {
    (progress_ms % 0x1_0000_0000) as u32
}

/// The state right after a command that applies to it, before the remote
/// side has answered.
pub open spec fn expected(command: Command, state: AppStateView) -> AppStateView {
    match command {
        Command::PlayPause => AppStateView { playing: !state.playing, ..state },
        Command::NextTrack => state,
        Command::PrevTrack => state,
        Command::ToggleSaved => {
            let current = state.curr.unwrap();
            AppStateView { curr: Some(SimplifiedItemView { saved: !current.saved, ..current }), ..state }
        },
        Command::ToggleShuffle => AppStateView { shuffle: !state.shuffle, ..state },
    }
}

/// The remote call of a command that applies to a state.
pub open spec fn remote_call(command: Command, state: AppStateView) -> RemoteCallView {
    match command {
        Command::PlayPause => if state.playing {
            RemoteCallView::PausePlayback
        } else {
            RemoteCallView::ResumePlayback {
                device_id: state.device_id,
                position_ms: resume_position(state.progress_ms),
            }
        },
        Command::NextTrack => RemoteCallView::NextTrack,
        Command::PrevTrack => RemoteCallView::PreviousTrack,
        Command::ToggleSaved => {
            let current = state.curr.unwrap();
            let id = match current.id {
                Some(PlayableIdView::Track(id)) => id,
                _ => Seq::empty(),
            };
            if current.saved {
                RemoteCallView::CurrentUserSavedTracksDelete { id }
            } else {
                RemoteCallView::CurrentUserSavedTracksAdd { id }
            }
        },
        Command::ToggleShuffle => RemoteCallView::Shuffle {
            state: !state.shuffle,
            device_id: state.device_id,
        },
    }
}

/// Whether the running playback is fetched anew after a command has gone
/// through. Saving a track changes nothing that a fetch would show.
pub open spec fn refetches(command: Command) -> bool {
    !(command is ToggleSaved)
}

/// `pending` is what `command` leaves behind when it is given in `state`.
pub open spec fn begun(command: Command, state: AppStateView, pending: Optimistic) -> bool {
    &&& pending.snapshot@ == state
    &&& pending.call@ == remote_call(command, state)
    &&& pending.refetch == refetches(command)
}

/// The state after the remote call of a command has been made.
pub open spec fn settled_state(state: AppStateView, snapshot: AppStateView, failed: bool) -> AppStateView {
    if failed {
        snapshot
    } else {
        state
    }
}

/// What a command returns after its remote call has been made: whether to
/// fetch the running playback anew, or the error of the call.
pub open spec fn settled_result(refetch: bool, outcome: Result<(), ClientError>) -> Result<
    bool,
    HandlerError,
> {
    match outcome {
        Ok(_) => Ok(refetch),
        Err(e) => Err(HandlerError::SpotifyClientError(e)),
    }
}

/// Pauses a running playback, resumes a paused one.
pub fn play_pause(state: &mut AppState) -> (pending: Optimistic)
    ensures
        final(state)@ == expected(Command::PlayPause, old(state)@),
        begun(Command::PlayPause, old(state)@, pending),
{
    let snapshot = state.clone();
    let call = if state.playing {
        state.playing = false;
        RemoteCall::PausePlayback
    } else {
        state.playing = true;
        RemoteCall::ResumePlayback {
            device_id: clone_text(&state.device_id),
            position_ms: (state.progress_ms % 0x1_0000_0000) as u32,
        }
    };
    Optimistic { snapshot, call, refetch: true }
}

/// Skips to the next track. What plays then is known only after the fetch
/// that follows, so the state stays as it is.
pub fn next_track(state: &AppState) -> (pending: Optimistic)
    ensures
        state@ == expected(Command::NextTrack, state@),
        begun(Command::NextTrack, state@, pending),
{
    Optimistic { snapshot: state.clone(), call: RemoteCall::NextTrack, refetch: true }
}

/// Skips back to the previous track. What plays then is known only after
/// the fetch that follows, so the state stays as it is.
pub fn prev_track(state: &AppState) -> (pending: Optimistic)
    ensures
        state@ == expected(Command::PrevTrack, state@),
        begun(Command::PrevTrack, state@, pending),
{
    Optimistic { snapshot: state.clone(), call: RemoteCall::PreviousTrack, refetch: true }
}

/// Saves the playing track, or removes it from the saved tracks. This
/// needs a playing item that is a track and has an identifier; otherwise
/// the state is left alone and the error says what is missing.
pub fn toggle_saved(state: &mut AppState) -> (result: Result<Optimistic, HandlerError>)
    ensures
        match toggle_saved_refusal(old(state)@) {
            Some(why) => *final(state) == *old(state) && (result matches Err(
                HandlerError::OtherError(text),
            ) && text@ == why),
            None => result matches Ok(pending) && final(state)@ == expected(
                Command::ToggleSaved,
                old(state)@,
            ) && begun(Command::ToggleSaved, old(state)@, pending),
        },
{
    let (id, saved) = match &state.curr {
        None => {
            return Err(HandlerError::OtherError(String::from_str("No current playback")));
        },
        Some(current) => match &current.id {
            Some(PlayableId::Track(id)) => (id.clone(), current.saved),
            Some(PlayableId::Episode(_)) => {
                return Err(
                    HandlerError::OtherError(String::from_str("Current playback not a track")),
                );
            },
            None => {
                return Err(
                    HandlerError::OtherError(String::from_str("Current playback has no `id`")),
                );
            },
        },
    };
    let snapshot = state.clone();
    match &mut state.curr {
        Some(current) => {
            current.saved = !saved;
        },
        None => {},
    }
    let call = if saved {
        RemoteCall::CurrentUserSavedTracksDelete { id }
    } else {
        RemoteCall::CurrentUserSavedTracksAdd { id }
    };
    Ok(Optimistic { snapshot, call, refetch: false })
}

/// Turns shuffling on or off.
pub fn toggle_shuffle(state: &mut AppState) -> (pending: Optimistic)
    ensures
        final(state)@ == expected(Command::ToggleShuffle, old(state)@),
        begun(Command::ToggleShuffle, old(state)@, pending),
{
    let snapshot = state.clone();
    state.shuffle = !state.shuffle;
    let call = RemoteCall::Shuffle { state: state.shuffle, device_id: clone_text(&state.device_id) };
    Optimistic { snapshot, call, refetch: true }
}

/// Settles a command once its remote call has been made. A failed call
/// puts the state back to the snapshot, and its error is returned as it
/// came. After a call that succeeded the state stays, and the result says
/// whether the running playback is to be fetched anew.
pub fn settle(state: &mut AppState, pending: Optimistic, outcome: Result<(), ClientError>) -> (result:
    Result<bool, HandlerError>)
    ensures
        final(state)@ == settled_state(old(state)@, pending.snapshot@, outcome is Err),
        outcome is Err ==> *final(state) == pending.snapshot,
        outcome is Ok ==> *final(state) == *old(state),
        result == settled_result(pending.refetch, outcome),
{
    match outcome {
        Ok(_) => Ok(pending.refetch),
        Err(e) => {
            *state = pending.snapshot;
            Err(HandlerError::SpotifyClientError(e))
        },
    }
}

/// Whatever the command: if its remote call fails, the state after the
/// command is settled is the state in which the command was given, and
/// the error that is returned is the error of the call.
pub proof fn lemma_failed_command_is_undone(
    command: Command,
    before: AppStateView,
    pending: Optimistic,
    error: ClientError,
)
    requires
        applies(command, before),
        begun(command, before, pending),
    ensures
        settled_state(expected(command, before), pending.snapshot@, true) == before,
        settled_result(pending.refetch, Err(error)) == Err::<bool, _>(
            HandlerError::SpotifyClientError(error),
        ),
{
}

/// A command that goes through keeps what it made of the state, and asks
/// for a fetch unless it only saved or removed a track.
pub proof fn lemma_successful_command_stays(command: Command, before: AppStateView, pending: Optimistic)
    requires
        applies(command, before),
        begun(command, before, pending),
    ensures
        settled_state(expected(command, before), pending.snapshot@, false) == expected(
            command,
            before,
        ),
        settled_result(pending.refetch, Ok(())) == Ok::<_, HandlerError>(refetches(command)),
{
}

/// A command changes at most one of: whether the playback runs, whether
/// it shuffles, whether the playing track is saved. It leaves the progress
/// alone, so the two places that hold the progress still agree after it.
pub proof fn lemma_command_keeps_progress(command: Command, before: AppStateView)
    requires
        applies(command, before),
    ensures
        expected(command, before).progress_ms == before.progress_ms,
        consistent(before) ==> consistent(expected(command, before)),
{
}

/// The three reasons for which a track cannot be saved read differently.
pub proof fn lemma_refusals_differ()
    ensures
        "No current playback"@ != "Current playback not a track"@,
        "No current playback"@ != "Current playback has no `id`"@,
        "Current playback not a track"@ != "Current playback has no `id`"@,
{
    reveal_strlit("No current playback");
    reveal_strlit("Current playback not a track");
    reveal_strlit("Current playback has no `id`");
    assert("Current playback not a track"@[17] != "Current playback has no `id`"@[17]);
}

/// What a command fails with when the fetch after it has failed.
pub fn refetched(outcome: Result<(), GetCurrentPlaybackError>) -> (result: Result<(), HandlerError>)
    ensures
        match outcome {
            Ok(_) => result is Ok,
            Err(e) => result == Err::<(), _>(HandlerError::GetCurrentPlaybackPlayback(e)),
        },
{
    match outcome {
        Ok(_) => Ok(()),
        Err(e) => Err(HandlerError::from(e)),
    }
}

} // verus!
