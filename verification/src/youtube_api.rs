//! A song, the metadata that a lookup fills in, and its cached stream URL.

use crate::error::PlayerError;
use crate::text::{
    lines, lower_case_eq, lower_case_is, non_empty_lines, parse_decimal, parse_unsigned, to_chars,
    trim, trim_bounds, views,
};
use crate::tool::{song_lookup_args, song_lookup_command, tool_stdout, tool_stdout_spec, ToolRun};
use std::time::{SystemTime, UNIX_EPOCH};
use vstd::prelude::*;

verus! {

/// For how many seconds a resolved stream URL is served from the cache.
pub const M3U8_CACHE_SECS: u64 = 18000;

/// A song of the playlist. Only the identifier is always there; the rest is
/// filled in by a lookup.
#[derive(Clone, Debug, PartialEq, Eq)]
pub struct YouTubeSong {
    pub title: Option<String>,
    pub id: String,
    pub uploader_id: Option<String>,
    pub uploaded_at: Option<u32>,
    pub duration: Option<u16>,
    pub is_live: Option<bool>,
    /// The stream URL that the last lookup resolved.
    pub m3u8_url: Option<String>,
    /// When `m3u8_url` was resolved, in seconds since the Unix epoch.
    pub m3u8_url_age: Option<u64>,
}

/// A [`YouTubeSong`] with its texts as sequences of characters.
pub struct SongView {
    pub title: Option<Seq<char>>,
    pub id: Seq<char>,
    pub uploader_id: Option<Seq<char>>,
    pub uploaded_at: Option<u32>,
    pub duration: Option<u16>,
    pub is_live: Option<bool>,
    pub m3u8_url: Option<Seq<char>>,
    pub m3u8_url_age: Option<u64>,
}

/// The view of an optional string.
pub open spec fn text_view(text: Option<String>) -> Option<Seq<char>> {
    match text {
        Some(s) => Some(s@),
        None => None,
    }
}

impl View for YouTubeSong {
    type V = SongView;

    open spec fn view(&self) -> SongView {
        SongView {
            title: text_view(self.title),
            id: self.id@,
            uploader_id: text_view(self.uploader_id),
            uploaded_at: self.uploaded_at,
            duration: self.duration,
            is_live: self.is_live,
            m3u8_url: text_view(self.m3u8_url),
            m3u8_url_age: self.m3u8_url_age,
        }
    }
}

/// The views of a sequence of songs.
pub open spec fn song_views(songs: Seq<YouTubeSong>) -> Seq<SongView> {
    songs.map_values(|song: YouTubeSong| song@)
}

/// A song of which only the identifier is known.
pub open spec fn stub(id: Seq<char>) -> SongView {
    SongView {
        title: None,
        id,
        uploader_id: None,
        uploaded_at: None,
        duration: None,
        is_live: None,
        m3u8_url: None,
        m3u8_url_age: None,
    }
}

/// The upload time that a field value stands for: the number it writes once
/// trimmed, and 0 where it writes none that fits.
pub open spec fn uploaded_at_spec(buf: Seq<char>) -> Option<u32> {
    match parse_unsigned(trim(buf), u32::MAX as nat) {
        Some(n) => Some(n as u32),
        None => Some(0u32),
    }
}

/// The duration that a field value stands for: the number it writes, and
/// nothing where it writes none that fits.
pub open spec fn duration_spec(buf: Seq<char>) -> Option<u16> {
    match parse_unsigned(buf, u16::MAX as nat) {
        Some(n) => Some(n as u16),
        None => None,
    }
}

/// The live flag that a field value stands for: `true` or `false` in any
/// mix of cases, and nothing for any other text.
pub open spec fn is_live_spec(buf: Seq<char>) -> Option<bool> {
    if lower_case_is(buf, "true"@) {
        Some(true)
    } else if lower_case_is(buf, "false"@) {
        Some(false)
    } else {
        None
    }
}

/// Reads the upload time out of its field value.
pub fn deserialize_uploaded_at(buf: &str) -> (uploaded_at: Option<u32>)
    ensures
        uploaded_at == uploaded_at_spec(buf@),
{
    let chars = to_chars(buf);
    let (from, to) = trim_bounds(&chars);
    match parse_decimal(&chars, from, to, u32::MAX as u64) {
        Some(n) => Some(n as u32),
        None => Some(0),
    }
}

/// Reads the duration out of its field value.
pub fn deserialize_duration(buf: &str) -> (duration: Option<u16>)
    ensures
        duration == duration_spec(buf@),
{
    let chars = to_chars(buf);
    proof {
        assert(chars@.subrange(0, chars.len() as int) =~= buf@);
    }
    match parse_decimal(&chars, 0, chars.len(), u16::MAX as u64) {
        Some(n) => Some(n as u16),
        None => None,
    }
}

/// Reads the live flag out of its field value.
pub fn deserialize_is_live(buf: &str) -> (is_live: Option<bool>)
    ensures
        is_live == is_live_spec(buf@),
{
    let chars = to_chars(buf);
    if lower_case_eq(&chars, "true") {
        Some(true)
    } else if lower_case_eq(&chars, "false") {
        Some(false)
    } else {
        None
    }
}

/// The fields of a decoded song lookup. Those that the tool prints as text
/// whatever they hold are still text here.
#[derive(Clone, Debug, PartialEq, Eq)]
pub struct SongFields {
    pub title: Option<String>,
    pub id: String,
    pub uploader_id: Option<String>,
    pub uploaded_at: String,
    pub duration: String,
    pub is_live: String,
    pub m3u8_url: Option<String>,
}

/// [`SongFields`] with its texts as sequences of characters.
pub struct SongFieldsView {
    pub title: Option<Seq<char>>,
    pub id: Seq<char>,
    pub uploader_id: Option<Seq<char>>,
    pub uploaded_at: Seq<char>,
    pub duration: Seq<char>,
    pub is_live: Seq<char>,
    pub m3u8_url: Option<Seq<char>>,
}

impl View for SongFields {
    type V = SongFieldsView;

    open spec fn view(&self) -> SongFieldsView {
        SongFieldsView {
            title: text_view(self.title),
            id: self.id@,
            uploader_id: text_view(self.uploader_id),
            uploaded_at: self.uploaded_at@,
            duration: self.duration@,
            is_live: self.is_live@,
            m3u8_url: text_view(self.m3u8_url),
        }
    }
}

/// The song that decoded fields stand for: the texts as they are, the
/// upload time, the duration and the live flag read out of theirs, and no
/// time on the cache yet.
pub open spec fn song_of_fields(fields: SongFieldsView) -> SongView {
    SongView {
        title: fields.title,
        id: fields.id,
        uploader_id: fields.uploader_id,
        uploaded_at: uploaded_at_spec(fields.uploaded_at),
        duration: duration_spec(fields.duration),
        is_live: is_live_spec(fields.is_live),
        m3u8_url: fields.m3u8_url,
        m3u8_url_age: None,
    }
}

fn new_stub(id: String) -> (song: YouTubeSong)
    ensures
        song@ == stub(id@),
{
    YouTubeSong {
        title: None,
        id,
        uploader_id: None,
        uploaded_at: None,
        duration: None,
        is_live: None,
        m3u8_url: None,
        m3u8_url_age: None,
    }
}

/// A song of which only the identifier is known yet.
pub fn make_song_object(id_val: &str) -> (song: Option<YouTubeSong>)
    ensures
        song is Some,
        song->0@ == stub(id_val@),
{
    Some(new_stub(id_val.to_string()))
}

/// The members that a flat listing of a playlist names: one stub for each
/// non-empty line of the tool's output, in the tool's order.
pub open spec fn playlist_members(run: ToolRun) -> Result<Seq<SongView>, PlayerError> {
    match tool_stdout_spec(run) {
        Ok(listing) => Ok(non_empty_lines(listing).map_values(|id: Seq<char>| stub(id))),
        Err(e) => Err(e),
    }
}

/// Makes the stubs of a playlist's members out of a flat-listing run of the
/// extraction tool.
pub fn make_song_objects(run: ToolRun) -> (songs: Result<Vec<YouTubeSong>, PlayerError>)
    ensures
        match songs {
            Ok(list) => playlist_members(run) == Ok::<Seq<SongView>, PlayerError>(
                song_views(list@),
            ),
            Err(e) => playlist_members(run) == Err::<Seq<SongView>, PlayerError>(e),
        },
{
    let listing = match tool_stdout(run) {
        Ok(text) => text,
        Err(e) => {
            return Err(e);
        },
    };
    let ids = lines(listing.as_str());
    let ghost wanted = non_empty_lines(listing@).map_values(|id: Seq<char>| stub(id));
    let mut list: Vec<YouTubeSong> = Vec::new();
    let mut i: usize = 0;
    while i < ids.len()
        invariant
            i <= ids.len(),
            views(ids@) == non_empty_lines(listing@),
            wanted == non_empty_lines(listing@).map_values(|id: Seq<char>| stub(id)),
            list.len() == i,
            forall|j: int| 0 <= j < i ==> (#[trigger] list@[j])@ == wanted[j],
        decreases ids.len() - i,
    {
        list.push(new_stub(ids[i].clone()));
        i = i + 1;
    }
    proof {
        assert(song_views(list@) =~= wanted);
    }
    Ok(list)
}

/// What the caller reports to a song about its stream URL.
#[derive(Clone, Debug, PartialEq, Eq)]
pub enum LookupEvent {
    /// The stream URL is wanted.
    Ask,
    /// The lookup that was asked for gave this song.
    Resolved(YouTubeSong),
    /// The lookup that was asked for failed.
    Failed,
}

/// What a song answers.
#[derive(Clone, Debug, PartialEq, Eq)]
pub enum StreamAction {
    /// The stream URL to play.
    Serve(String),
    /// Run the extraction tool with these arguments and report the outcome.
    Lookup(Vec<String>),
    /// No stream URL can be had for this song.
    GiveUp,
}

/// A [`LookupEvent`] with the song as its view.
pub enum LookupEventView {
    Ask,
    Resolved(SongView),
    Failed,
}

/// A [`StreamAction`] with its texts as sequences of characters.
pub enum StreamActionView {
    Serve(Seq<char>),
    Lookup(Seq<Seq<char>>),
    GiveUp,
}

impl View for LookupEvent {
    type V = LookupEventView;

    open spec fn view(&self) -> LookupEventView {
        match self {
            LookupEvent::Ask => LookupEventView::Ask,
            LookupEvent::Resolved(song) => LookupEventView::Resolved(song@),
            LookupEvent::Failed => LookupEventView::Failed,
        }
    }
}

impl View for StreamAction {
    type V = StreamActionView;

    open spec fn view(&self) -> StreamActionView {
        match self {
            StreamAction::Serve(url) => StreamActionView::Serve(url@),
            StreamAction::Lookup(args) => StreamActionView::Lookup(views(args@)),
            StreamAction::GiveUp => StreamActionView::GiveUp,
        }
    }
}

/// Whether the song's cached stream URL may still be served at `now`: there
/// is one, it bears the time at which it was resolved, and fewer than
/// `M3U8_CACHE_SECS` seconds have passed since.
pub open spec fn cache_is_fresh(song: SongView, now: u64) -> bool {
    &&& song.m3u8_url is Some
    &&& song.m3u8_url_age is Some
    &&& now - song.m3u8_url_age->0 < M3U8_CACHE_SECS
}

/// `song` after a lookup at `now` gave `fresh`: everything but the
/// identifier is taken over, and the cache bears the time `now`.
pub open spec fn refreshed(song: SongView, fresh: SongView, now: u64) -> SongView {
    SongView {
        title: fresh.title,
        id: song.id,
        uploader_id: fresh.uploader_id,
        uploaded_at: fresh.uploaded_at,
        duration: fresh.duration,
        is_live: fresh.is_live,
        m3u8_url: fresh.m3u8_url,
        m3u8_url_age: Some(now),
    }
}

/// The song after an event at `now`, and its answer.
///
/// Asked for its URL, a song with a fresh cache serves it and stays as it
/// is; any other asks for a lookup of its identifier. A resolved lookup that
/// carries a stream URL refreshes the song, which serves the new URL. A
/// failed lookup, or one without a stream URL, leaves the song as it was.
pub open spec fn stream_step_spec(song: SongView, event: LookupEventView, now: u64) -> (
    SongView,
    StreamActionView,
) {
    match event {
        LookupEventView::Ask => if cache_is_fresh(song, now) {
            (song, StreamActionView::Serve(song.m3u8_url->0))
        } else {
            (song, StreamActionView::Lookup(song_lookup_args(song.id)))
        },
        LookupEventView::Resolved(fresh) => match fresh.m3u8_url {
            Some(url) => (refreshed(song, fresh, now), StreamActionView::Serve(url)),
            None => (song, StreamActionView::GiveUp),
        },
        LookupEventView::Failed => (song, StreamActionView::GiveUp),
    }
}

/// `SystemTime::now`, as the whole seconds that have passed since the Unix
/// epoch; `None` where the clock stands before the epoch. Nothing is known
/// of the result.
#[verifier::external_body]
fn unix_time() -> Option<u64> {
    SystemTime::now().duration_since(UNIX_EPOCH).ok().map(|time| time.as_secs())
}

/// The time in seconds since the Unix epoch; 0 where the clock stands
/// before the epoch.
pub(crate) fn get_unix_secs() -> u64 {
    unix_secs_of(unix_time())
}

/// The time that a reading of the clock stands for: the seconds it gives,
/// and 0 where the clock stands before the epoch and gives none.
pub open spec fn unix_secs_spec(reading: Option<u64>) -> u64 {
    match reading {
        Some(secs) => secs,
        None => 0,
    }
}

/// The time, in seconds since the Unix epoch, that a reading of the clock
/// stands for.
pub fn unix_secs_of(reading: Option<u64>) -> (secs: u64)
    ensures
        secs == unix_secs_spec(reading),
{
    match reading {
        Some(secs) => secs,
        None => 0,
    }
}

impl YouTubeSong {
    /// The song that a lookup resolved, from its decoded fields.
    pub fn from_fields(fields: SongFields) -> (song: YouTubeSong)
        ensures
            song@ == song_of_fields(fields@),
    {
        let uploaded_at = deserialize_uploaded_at(fields.uploaded_at.as_str());
        let duration = deserialize_duration(fields.duration.as_str());
        let is_live = deserialize_is_live(fields.is_live.as_str());
        YouTubeSong {
            title: fields.title,
            id: fields.id,
            uploader_id: fields.uploader_id,
            uploaded_at,
            duration,
            is_live,
            m3u8_url: fields.m3u8_url,
            m3u8_url_age: None,
        }
    }

    /// The cached stream URL, where it may still be served at `now`.
    pub fn cached_m3u8(&self, now: u64) -> (url: Option<String>)
        ensures
            url is Some <==> cache_is_fresh(self@, now),
            url is Some ==> Some(url->0@) == self@.m3u8_url,
    {
        match (&self.m3u8_url, self.m3u8_url_age) {
            (Some(url), Some(age)) => {
                if now < age || now - age < M3U8_CACHE_SECS {
                    Some(url.clone())
                } else {
                    None
                }
            },
            _ => None,
        }
    }

    /// One step of getting this song's stream URL, at the time `now`.
    pub fn stream_step(&mut self, event: LookupEvent, now: u64) -> (action: StreamAction)
        ensures
            (final(self)@, action@) == stream_step_spec(old(self)@, event@, now),
    {
        match event {
            LookupEvent::Ask => match self.cached_m3u8(now) {
                Some(url) => StreamAction::Serve(url),
                None => StreamAction::Lookup(song_lookup_command(self.id.as_str())),
            },
            LookupEvent::Resolved(fresh) => {
                let url = match &fresh.m3u8_url {
                    Some(url) => url.clone(),
                    None => {
                        return StreamAction::GiveUp;
                    },
                };
                self.title = fresh.title;
                self.uploader_id = fresh.uploader_id;
                self.uploaded_at = fresh.uploaded_at;
                self.duration = fresh.duration;
                self.is_live = fresh.is_live;
                self.m3u8_url = fresh.m3u8_url;
                self.m3u8_url_age = Some(now);
                StreamAction::Serve(url)
            },
            LookupEvent::Failed => StreamAction::GiveUp,
        }
    }

    /// One step of getting this song's stream URL, by the system clock.
    ///
    /// Ask first. Where the answer is a lookup, run it, decode what it gave
    /// and report `Resolved` or `Failed`. Whatever the clock says, a song is
    /// changed by a resolved lookup only, and a failed one leaves it as it was.
    pub fn get_m3u8(&mut self, event: LookupEvent) -> (action: StreamAction)
        ensures
            exists|now: u64|
                (final(self)@, action@) == #[trigger] stream_step_spec(old(self)@, event@, now),
    {
        let now = get_unix_secs();
        self.stream_step(event, now)
    }
}

/// Two calls within the cache's lifetime cost one lookup.
///
/// The first call, on a song whose cache is not fresh, asks for one lookup.
/// Once that is resolved with a stream URL, the song serves this URL. A
/// second call that comes fewer than `M3U8_CACHE_SECS` seconds after the
/// lookup was resolved is served the same URL, asks for no lookup, and
/// leaves the song as the lookup left it.
pub proof fn lemma_fresh_cache_is_served(
    song: SongView,
    first_at: u64,
    fresh: SongView,
    resolved_at: u64,
    second_at: u64,
)
    requires
        !cache_is_fresh(song, first_at),
        fresh.m3u8_url is Some,
        second_at - resolved_at < M3U8_CACHE_SECS,
    ensures
        ({
            let asked = stream_step_spec(song, LookupEventView::Ask, first_at);
            let first = stream_step_spec(asked.0, LookupEventView::Resolved(fresh), resolved_at);
            let second = stream_step_spec(first.0, LookupEventView::Ask, second_at);
            &&& asked.1 == StreamActionView::Lookup(song_lookup_args(song.id))
            &&& first.1 == StreamActionView::Serve(fresh.m3u8_url->0)
            &&& second.1 == first.1
            &&& second.0 == first.0
        }),
{
}

/// A call after the cache's lifetime costs one new lookup.
///
/// A call that comes `M3U8_CACHE_SECS` seconds or more after a lookup was
/// resolved asks for exactly one new lookup, of the same identifier, and
/// leaves the song as it is. Once the new lookup is resolved with a stream
/// URL, the song serves that URL, whether or not it is the old one, and
/// its cache bears the new time.
pub proof fn lemma_stale_cache_is_looked_up(
    song: SongView,
    fresh: SongView,
    resolved_at: u64,
    now: u64,
    newer: SongView,
    renewed_at: u64,
)
    requires
        fresh.m3u8_url is Some,
        newer.m3u8_url is Some,
        now - resolved_at >= M3U8_CACHE_SECS,
    ensures
        ({
            let first = stream_step_spec(song, LookupEventView::Resolved(fresh), resolved_at);
            let asked = stream_step_spec(first.0, LookupEventView::Ask, now);
            let second = stream_step_spec(asked.0, LookupEventView::Resolved(newer), renewed_at);
            &&& asked.1 == StreamActionView::Lookup(song_lookup_args(song.id))
            &&& asked.0 == first.0
            &&& second.1 == StreamActionView::Serve(newer.m3u8_url->0)
            &&& second.0 == refreshed(song, newer, renewed_at)
        }),
{
}

} // verus!
