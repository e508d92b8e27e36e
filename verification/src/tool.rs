//! The command lines of the two external tools, and what a run of the
//! extraction tool hands back.

use crate::error::PlayerError;
use crate::text::{requote, requote_spec, views};
use vstd::prelude::*;
use vstd::utf8::{decode_utf8, valid_utf8};

verus! {

/// The format that a song is asked for in.
pub const FORMAT_SELECTOR: &'static str = "233";

/// The one-line template that the tool fills in for a song. U+0001 stands
/// where a double quote would stand in JSON, so that a double quote inside a
/// value can be told from one of the format.
pub const SONG_TEMPLATE: &'static str =
    "{\x01title\x01:\x01%(title)s\x01, \x01id\x01:\x01%(id)s\x01, \x01uploader_id\x01:\x01%(uploader)s\x01, \x01uploaded_at\x01:\x01%(timestamp)s\x01, \x01duration\x01:\x01%(duration)s\x01, \x01is_live\x01:\x01%(is_live)s\x01, \x01m3u8_url\x01:\x01%(url)s\x01}";

/// The template that the tool fills in for each member of a playlist.
pub const MEMBER_TEMPLATE: &'static str = "%(id)s";

/// What a finished run of the extraction tool left behind.
#[derive(Clone, Debug, PartialEq, Eq)]
pub struct ToolOutput {
    /// The exit code; `None` where the process ended without one.
    pub code: Option<i32>,
    /// Everything written to standard output.
    pub stdout: Vec<u8>,
    /// Everything written to standard error.
    pub stderr: Vec<u8>,
}

/// The outcome of trying to run the extraction tool.
#[derive(Clone, Debug, PartialEq, Eq)]
pub enum ToolRun {
    /// The process could not be started.
    SpawnFailed,
    /// The process ran and ended.
    Finished(ToolOutput),
}

/// The arguments that ask the tool for one song's metadata and stream URL.
pub open spec fn song_lookup_args(id: Seq<char>) -> Seq<Seq<char>> {
    seq![id, "-f"@, FORMAT_SELECTOR@, "--print"@, SONG_TEMPLATE@]
}

/// The arguments that ask the tool for the identifiers of a playlist's members.
pub open spec fn playlist_lookup_args(id: Seq<char>) -> Seq<Seq<char>> {
    seq![id, "--flat-playlist"@, "--print"@, MEMBER_TEMPLATE@]
}

/// The arguments that make the media player play one stream: no window,
/// exit at the end of the stream, audio only, and the URL last.
pub open spec fn player_args(url: Seq<char>) -> Seq<Seq<char>> {
    seq!["-nodisp"@, "-autoexit"@, "-vn"@, url]
}

/// Whether the run counts as a successful invocation: the process started,
/// ended with exit code 0 and wrote nothing to standard error.
pub open spec fn tool_succeeded(run: ToolRun) -> bool {
    match run {
        ToolRun::SpawnFailed => false,
        ToolRun::Finished(output) => output.code == Some(0i32) && output.stderr@.len() == 0,
    }
}

/// The text that a run hands back. A run that did not succeed is a failed
/// invocation; standard output that is not UTF-8 cannot be parsed.
pub open spec fn tool_stdout_spec(run: ToolRun) -> Result<Seq<char>, PlayerError> {
    match run {
        ToolRun::SpawnFailed => Err(PlayerError::ToolInvocationFailed),
        ToolRun::Finished(output) => if !tool_succeeded(run) {
            Err(PlayerError::ToolInvocationFailed)
        } else if !valid_utf8(output.stdout@) {
            Err(PlayerError::OutputUnparsable)
        } else {
            Ok(decode_utf8(output.stdout@))
        },
    }
}

/// The JSON text of a song lookup: the tool's standard output with its
/// quotes put right.
pub open spec fn song_json_spec(run: ToolRun) -> Result<Seq<char>, PlayerError> {
    match tool_stdout_spec(run) {
        Ok(raw) => Ok(requote_spec(raw)),
        Err(e) => Err(e),
    }
}

/// `String::from_utf8`: the string that the bytes encode, or `None` where
/// they are not valid UTF-8.
#[verifier::external_body]
fn utf8_to_string(bytes: Vec<u8>) -> (text: Option<String>)
    ensures
        match text {
            Some(s) => valid_utf8(bytes@) && s@ == decode_utf8(bytes@),
            None => !valid_utf8(bytes@),
        },
{
    String::from_utf8(bytes).ok()
}

/// The command line, after the tool's own path, of a lookup of the song `id`.
pub fn song_lookup_command(id: &str) -> (args: Vec<String>)
    ensures
        views(args@) == song_lookup_args(id@),
{
    let mut args: Vec<String> = Vec::new();
    args.push(id.to_string());
    args.push("-f".to_string());
    args.push(FORMAT_SELECTOR.to_string());
    args.push("--print".to_string());
    args.push(SONG_TEMPLATE.to_string());
    args
}

/// The command line, after the tool's own path, of a flat listing of the
/// playlist `id`.
pub fn playlist_lookup_command(id: &str) -> (args: Vec<String>)
    ensures
        views(args@) == playlist_lookup_args(id@),
{
    let mut args: Vec<String> = Vec::new();
    args.push(id.to_string());
    args.push("--flat-playlist".to_string());
    args.push("--print".to_string());
    args.push(MEMBER_TEMPLATE.to_string());
    args
}

/// The command line, after the player's own path, that plays `url`.
pub fn player_command(url: &str) -> (args: Vec<String>)
    ensures
        views(args@) == player_args(url@),
{
    let mut args: Vec<String> = Vec::new();
    args.push("-nodisp".to_string());
    args.push("-autoexit".to_string());
    args.push("-vn".to_string());
    args.push(url.to_string());
    args
}

/// The text that a run of the tool wrote to standard output, or why the run
/// counts as failed.
pub fn tool_stdout(run: ToolRun) -> (text: Result<String, PlayerError>)
    ensures
        match text {
            Ok(s) => tool_stdout_spec(run) == Ok::<Seq<char>, PlayerError>(s@),
            Err(e) => tool_stdout_spec(run) == Err::<Seq<char>, PlayerError>(e),
        },
{
    match run {
        ToolRun::SpawnFailed => Err(PlayerError::ToolInvocationFailed),
        ToolRun::Finished(output) => {
            let exited_cleanly = match output.code {
                Some(code) => code == 0,
                None => false,
            };
            if !exited_cleanly || output.stderr.len() != 0 {
                return Err(PlayerError::ToolInvocationFailed);
            }
            match utf8_to_string(output.stdout) {
                Some(s) => Ok(s),
                None => Err(PlayerError::OutputUnparsable),
            }
        },
    }
}

/// The JSON text of a song lookup, ready to be decoded, or why the lookup
/// counts as failed.
pub fn song_json(run: ToolRun) -> (json: Result<String, PlayerError>)
    ensures
        match json {
            Ok(s) => song_json_spec(run) == Ok::<Seq<char>, PlayerError>(s@),
            Err(e) => song_json_spec(run) == Err::<Seq<char>, PlayerError>(e),
        },
{
    match tool_stdout(run) {
        Ok(raw) => Ok(requote(raw.as_str())),
        Err(e) => Err(e),
    }
}

} // verus!
