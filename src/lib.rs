//! The playback controller of a small desktop audio player.
//!
//! The controller owns the player's state (whether audio is rendering, the label of
//! the loaded track, the volume, whether an audio sink is alive) and turns each user
//! intent into a new state and one command for the audio side to carry out. The audio
//! side reports back how loading a file went, which is the controller's only other
//! event.
pub mod laws;
pub mod player;
pub mod track;
pub mod volume;

pub use player::{Command, LoadOutcome, Message, MusicPlayer, PlayerState, Status};
pub use volume::{INITIAL_VOLUME, MAX_VOLUME};
