//! The logic of a terminal Subsonic client: configuration, key bindings, remote
//! (Jukebox) playback, Instant Mix, the Home discovery shelves, the fuzzy picker, and what
//! the client does on each key and event, each with its contract proved by Verus.
use vstd::prelude::*;

pub mod nav;
pub mod text;
pub mod media;
pub mod runtime;
pub mod track_order;
pub mod jukebox;
pub mod dedup;
pub mod instant_mix;
pub mod discovery;
pub mod keybinds;
pub mod config;
pub mod playback_error;
pub mod fzf_picker;
pub mod settings;
pub mod session;
pub mod home;
pub mod browse;
pub mod playlists;
pub mod jukebox_run;
pub mod library;
