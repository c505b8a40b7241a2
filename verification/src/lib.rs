//! A text-command-driven controller for collective audio playback in a
//! shared voice channel, organised around one coordinator per guild.
//!
//! The heart of the crate is the [`manager::VoiceSessionManager`]: it owns one
//! session record per guild, keeps the connection state, the audio-node
//! session handle and the playback queue consistent, and turns every command
//! or node callback into a new state plus a list of [`protocol::Effect`]
//! values. Effects are instructions for the surrounding runtime — connect or
//! disconnect a voice channel, create or destroy a node session, start or
//! stop a track. The runtime performs them, and reports completions back
//! through the manager's `*_finish` and event entry points. All decisions
//! live here and are verified; all transport lives outside.

pub mod hooks;
pub mod laws;
pub mod manager;
pub mod meta;
pub mod parse;
pub mod protocol;
pub mod session;
pub mod track;
