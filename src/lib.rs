//! Playback coordination core of a desktop music player: the track catalog,
//! the metadata loader's facts, the playback state machine and the control
//! bridge's mapping of requests onto player commands.

pub mod bridge;
pub mod clock;
pub mod loader;
pub mod now_playing;
pub mod player;
pub mod track;

pub use loader::loader_thread;
pub use track::{FileTrack, FileTracks, LoaderMessage};
