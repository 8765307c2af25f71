//! Action/event dispatch core and playback timing state machine of a
//! terminal music player.

pub mod action;
pub mod catalog;
pub mod dispatcher;
pub mod home;
pub mod keymap;
pub mod output;
pub mod player;
pub mod song_list;

pub use action::{Action, ActionType, Event, EventType, KeyCode, KeyPress};
pub use output::{AudioOutput, Device, NoOutput};
pub use player::{PlaybackState, Player, Track};
pub use keymap::{Binding, Keymap, Mode};
pub use home::Home;
pub use song_list::SongList;
pub use dispatcher::{App, Component, Effect, LoopStep};
