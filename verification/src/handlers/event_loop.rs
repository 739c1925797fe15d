//! Keeping the shown state fresh: when the running playback is fetched
//! anew, and how the progress is advanced in between.

use vstd::prelude::*;
use crate::state::{consistent, merged, AppState, AppStateView};
use crate::state::playback_context::PlaybackContextView;
use crate::state::simplified_item::SimplifiedItemView;

verus! {

/// The time that has passed from `since` to `now`; none if the clock reads
/// less than it did.
pub open spec fn elapsed(since: u64, now: u64) -> int {
    if now >= since {
        now - since
    } else {
        0
    }
}

/// The length of the playing item; without an item, no progress ever reaches it.
pub open spec fn duration(state: AppStateView) -> u64 {
    match state.curr {
        Some(item) => item.duration_ms,
        None => u64::MAX,
    }
}

/// The running playback is to be fetched anew: the last fetch is too old,
/// or the progress has reached the end of the item.
pub open spec fn fetch_due(state: AppStateView, now: u64) -> bool {
    elapsed(state.last_playback_call, now) >= AppState::PLAYBACK_CALL_BUFFER || state.progress_ms
        >= duration(state)
}

/// The whole steps that have passed since the progress was last advanced.
pub open spec fn steps(state: AppStateView, now: u64) -> int {
    elapsed(state.last_seek_update, now) / (AppState::SEEK_CALL_BUFFER as int)
}

/// The progress is to be advanced: an item plays, and at least one step
/// has passed.
pub open spec fn step_due(state: AppStateView, now: u64) -> bool {
    state.curr is Some && state.playing && steps(state, now) >= 1
}

/// The sum of a progress and a number of steps, held at the largest value
/// that a progress can take.
pub open spec fn advanced(progress_ms: u64, steps: int) -> u64 {
    if progress_ms + steps * AppState::SEEK_CALL_BUFFER <= u64::MAX {
        (progress_ms + steps * AppState::SEEK_CALL_BUFFER) as u64
    } else {
        u64::MAX
    }
}

/// The state with the progress advanced to the time `now`: by the whole
/// steps that have passed. The time of the advance moves on by those
/// steps and no further, so that what is left of a step is counted at the
/// next advance.
pub open spec fn extrapolated(state: AppStateView, now: u64) -> AppStateView {
    if step_due(state, now) {
        let current = state.curr.unwrap();
        let progress = advanced(current.progress_ms, steps(state, now));
        AppStateView {
            curr: Some(SimplifiedItemView { progress_ms: progress, ..current }),
            progress_ms: progress,
            last_seek_update: (state.last_seek_update + steps(state, now)
                * AppState::SEEK_CALL_BUFFER) as u64,
            ..state
        }
    } else {
        state
    }
}

/// What the caller of [`update`] does next.
#[derive(Clone, Copy, Debug, PartialEq, Eq)]
pub enum Update {
    /// Fetch the running playback, then announce the state once.
    Fetch,
    /// Announce the state once.
    Publish,
}

/// The state after one round of the loop at the time `now`, before any fetch.
pub open spec fn updated(state: AppStateView, now: u64) -> AppStateView {
    if fetch_due(state, now) {
        state
    } else {
        extrapolated(state, now)
    }
}

/// What follows one round of the loop. Without a token nothing is fetched.
pub open spec fn next_action(state: AppStateView, token_set: bool, now: u64) -> Update {
    if fetch_due(state, now) && token_set {
        Update::Fetch
    } else {
        Update::Publish
    }
}

/// One round of the loop at the time `now`. Where a fetch is due the state
/// stays as it is, and the fetch is left to the caller; otherwise the
/// progress is advanced if a step has passed. Either way the caller
/// announces the state once when the round is over.
pub fn update(state: &mut AppState, token_set: bool, now: u64) -> (action: Update)
    ensures
        final(state)@ == updated(old(state)@, now),
        action == next_action(old(state)@, token_set, now),
{
    let duration: u64 = match &state.curr {
        Some(item) => item.duration_ms,
        None => u64::MAX,
    };
    let since_fetch: u64 = if now >= state.last_playback_call {
        now - state.last_playback_call
    } else {
        0
    };
    if since_fetch >= AppState::PLAYBACK_CALL_BUFFER || state.progress_ms >= duration {
        return if token_set {
            Update::Fetch
        } else {
            Update::Publish
        };
    }
    let since_step: u64 = if now >= state.last_seek_update {
        now - state.last_seek_update
    } else {
        0
    };
    let steps: u64 = since_step / AppState::SEEK_CALL_BUFFER;
    if state.playing && steps >= 1 {
        let span: u64 = steps * AppState::SEEK_CALL_BUFFER;
        let mut advanced_to: Option<u64> = None;
        match &mut state.curr {
            Some(item) => {
                let progress = item.progress_ms.saturating_add(span);
                item.progress_ms = progress;
                advanced_to = Some(progress);
            },
            None => {},
        }
        if let Some(progress) = advanced_to {
            state.progress_ms = progress;
            state.last_seek_update = state.last_seek_update + span;
        }
    }
    Update::Publish
}

/// An advance of the progress adds a whole number of steps, at least one,
/// and leaves on the clock of the advance what did not make a whole step.
pub proof fn lemma_advance_counts_whole_steps(state: AppStateView, now: u64)
    requires
        consistent(state),
        step_due(state, now),
        state.progress_ms + steps(state, now) * AppState::SEEK_CALL_BUFFER <= u64::MAX,
    ensures
        steps(state, now) >= 1,
        extrapolated(state, now).progress_ms == state.progress_ms + steps(state, now)
            * AppState::SEEK_CALL_BUFFER,
        extrapolated(state, now).progress_ms > state.progress_ms,
        elapsed(extrapolated(state, now).last_seek_update, now) == elapsed(
            state.last_seek_update,
            now,
        ) % (AppState::SEEK_CALL_BUFFER as int),
        consistent(extrapolated(state, now)),
{
}

/// Without a fetch in between, an advance at `first` and another at
/// `second` lead to the state that a single advance at `second` leads to:
/// no time is lost between advances, and none is counted twice.
pub proof fn lemma_advances_add_up(state: AppStateView, first: u64, second: u64)
    requires
        first <= second,
    ensures
        extrapolated(extrapolated(state, first), second) == extrapolated(state, second),
{
}

/// Two rounds of the loop in which no fetch is due leave the state that a
/// single advance at the time of the second round leads to.
pub proof fn lemma_rounds_add_up(state: AppStateView, first: u64, second: u64)
    requires
        first <= second,
        !fetch_due(state, first),
        !fetch_due(updated(state, first), second),
    ensures
        updated(updated(state, first), second) == extrapolated(state, second),
{
    lemma_advances_add_up(state, first, second);
}

/// Without a fetch in between, the progress never falls.
pub proof fn lemma_progress_never_falls(state: AppStateView, first: u64, second: u64)
    requires
        consistent(state),
        first <= second,
    ensures
        state.progress_ms <= extrapolated(state, first).progress_ms <= extrapolated(
            state,
            second,
        ).progress_ms,
{
}

/// The progress passes the end of the playing item only in the round that
/// reaches it, and then by less than the steps of that round: in every
/// later round a fetch is due, and the progress stays where it is until
/// the fetch has overwritten it.
pub proof fn lemma_overshoot_is_bounded(state: AppStateView, now: u64)
    requires
        consistent(state),
    ensures
        !fetch_due(state, now) ==> updated(state, now).progress_ms < duration(state) + steps(
            state,
            now,
        ) * AppState::SEEK_CALL_BUFFER,
        state.progress_ms >= duration(state) ==> updated(state, now) == state,
        duration(updated(state, now)) == duration(state),
{
}

/// A round of the loop leaves the two places that hold the progress in agreement.
pub proof fn lemma_update_keeps_progress_consistent(state: AppStateView, now: u64)
    requires
        consistent(state),
    ensures
        consistent(updated(state, now)),
{
}

/// A fetch overwrites whatever the advances have made of the progress:
/// after it the progress is the one that the remote side reports, and the
/// time of the last fetch is the time of this one.
pub proof fn lemma_fetch_supersedes_advance(
    state: AppStateView,
    advanced_at: u64,
    playback: PlaybackContextView,
    saved: bool,
    now: u64,
)
    ensures
        merged(extrapolated(state, advanced_at), Some(playback), saved, now).progress_ms == (
        match playback.progress_ms {
            Some(p) => p,
            None => 0,
        }),
        merged(extrapolated(state, advanced_at), Some(playback), saved, now).curr == merged(
            state,
            Some(playback),
            saved,
            now,
        ).curr,
        merged(extrapolated(state, advanced_at), Some(playback), saved, now).last_playback_call
            == now,
        consistent(merged(extrapolated(state, advanced_at), Some(playback), saved, now)),
{
}

/// The place of the one task that runs the loop. `H` is whatever the
/// caller needs to cancel a task.
#[derive(Debug)]
pub struct EventLoopHandle<H>(pub Option<H>);

/// Puts `task` in the place of the running loop. The task that was there
/// before, if any, is handed back: the caller cancels it.
pub fn subscribe_to_event_loop<H>(handle: &mut EventLoopHandle<H>, task: H) -> (replaced: Option<H>)
    ensures
        final(handle).0 == Some(task),
        replaced == old(handle).0,
{
    let replaced = handle.0.take();
    handle.0 = Some(task);
    replaced
}

/// Empties the place of the running loop. The task that was there, if any,
/// is handed back: the caller cancels it. Where no task runs this changes
/// nothing and hands nothing back.
pub fn unsubscribe_to_event_loop<H>(handle: &mut EventLoopHandle<H>) -> (cancelled: Option<H>)
    ensures
        final(handle).0 is None,
        cancelled == old(handle).0,
        old(handle).0 is None ==> *final(handle) == *old(handle),
{
    handle.0.take()
}

} // verus!
