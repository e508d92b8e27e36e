//! The failures that the player tells apart.

use vstd::prelude::*;

verus! {

/// Why a source, a lookup or a whole run could not go on.
#[derive(Clone, Copy, Debug, PartialEq, Eq, Structural)]
pub enum PlayerError {
    /// The URL's query or path has not the shape of a video or playlist link.
    UrlMalformed,
    /// The extraction tool could not be started, or reported a failure.
    ToolInvocationFailed,
    /// The extraction tool's output is not valid UTF-8, or cannot be decoded.
    OutputUnparsable,
    /// No song is left in the playlist.
    EmptyPlaylist,
}

impl PlayerError {
    /// A one-line description for the operator.
    pub fn message(&self) -> (text: String)
        ensures
            text@ == self.message_text(),
    {
        match self {
            PlayerError::UrlMalformed => "the URL is malformed".to_string(),
            PlayerError::ToolInvocationFailed => "the extraction tool could not be run or reported a failure".to_string(),
            PlayerError::OutputUnparsable => "the extraction tool's output could not be decoded".to_string(),
            PlayerError::EmptyPlaylist => "no songs are in the playlist".to_string(),
        }
    }

    /// The text of [`PlayerError::message`].
    pub open spec fn message_text(&self) -> Seq<char> {
        match self {
            PlayerError::UrlMalformed => "the URL is malformed"@,
            PlayerError::ToolInvocationFailed => "the extraction tool could not be run or reported a failure"@,
            PlayerError::OutputUnparsable => "the extraction tool's output could not be decoded"@,
            PlayerError::EmptyPlaylist => "no songs are in the playlist"@,
        }
    }
}

} // verus!
