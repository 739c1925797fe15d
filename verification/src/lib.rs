//! Playback mirroring and control for a remote music-streaming account.
//!
//! The crate holds the decisions of a tray player: how a remote playback
//! context becomes the state that is shown, how that state is kept fresh
//! between polls, how user commands change it before the remote side has
//! confirmed them, and how a loopback redirect is turned into an
//! authorization code. Sockets, timers and remote calls are left to the
//! caller, which hands their results in as plain values.

pub mod handlers;
pub mod reauth;
pub mod redirect_uri;
pub mod scopes;
pub mod state;
