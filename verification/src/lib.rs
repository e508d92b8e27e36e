//! Verified core of a headless YouTube audio player.
//!
//! The crate decides; the program around it acts. It classifies source URLs,
//! frames the command lines of the extraction tool and of the media player,
//! reads what the extraction tool hands back, keeps each song's time-limited
//! stream URL, and walks the playlist. Processes are spawned, and JSON is
//! decoded, by the caller, which reports each outcome back as an event.
//!
//! A turn of the playlist goes like this:
//!
//! 1. The caller reports [`PlayEvent::Start`] to [`Playlist::play_next_song`].
//! 2. On [`PlayAction::Lookup`] it runs the extraction tool with the given
//!    arguments, hands the run to [`tool::song_json`], decodes the JSON into
//!    [`SongFields`], and reports [`PlayEvent::Resolved`] with
//!    [`YouTubeSong::from_fields`], or [`PlayEvent::Failed`].
//! 3. On [`PlayAction::Play`] it runs the media player with
//!    [`tool::player_command`] and reports [`PlayEvent::Played`] or
//!    [`PlayEvent::PlayFailed`].
//! 4. On [`PlayAction::Done`] the turn is over, and the flag says whether
//!    another one should follow. An empty playlist answers every event with
//!    [`PlayerError::EmptyPlaylist`].
//!
//! [`Playlist::take_turn`] goes through the same steps on answers that are
//! given beforehand, which makes a run repeatable.

pub mod classifier;
pub mod error;
pub mod playlist;
pub mod text;
pub mod tool;
pub mod turn;
pub mod youtube_api;

pub use classifier::{classify, classify_text, get_playlist_id, get_video_id, Source};
pub use error::PlayerError;
pub use playlist::{PlayAction, PlayEvent, Playlist};
pub use tool::{ToolOutput, ToolRun};
pub use turn::{TurnAnswers, TurnReport};
pub use youtube_api::{
    make_song_object, make_song_objects, LookupEvent, SongFields, StreamAction, YouTubeSong,
};
