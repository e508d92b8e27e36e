//! The playlist and its walk: which song comes next, and what becomes of a
//! song that cannot be resolved.

use crate::error::PlayerError;
use crate::text::views;
use crate::youtube_api::{
    get_unix_secs, song_views, stream_step_spec, LookupEvent, LookupEventView, SongView,
    StreamAction, StreamActionView, YouTubeSong,
};
use rand::Rng;
use vstd::prelude::*;

verus! {

/// The songs in playing order, and the index of the song to try next. The
/// index may stand past the end between two turns: it is reduced modulo the
/// number of songs before it is used.
#[derive(Clone, Debug, PartialEq, Eq)]
pub struct Playlist {
    pub songs: Vec<YouTubeSong>,
    pub active_idx: usize,
}

/// A [`Playlist`] with its songs as their views.
pub struct PlaylistView {
    pub songs: Seq<SongView>,
    pub active_idx: nat,
}

impl View for Playlist {
    type V = PlaylistView;

    open spec fn view(&self) -> PlaylistView {
        PlaylistView { songs: song_views(self.songs@), active_idx: self.active_idx as nat }
    }
}

/// What the caller reports to the playlist in the course of a turn.
#[derive(Clone, Debug, PartialEq, Eq)]
pub enum PlayEvent {
    /// A new turn begins.
    Start,
    /// The lookup that was asked for gave this song.
    Resolved(YouTubeSong),
    /// The lookup that was asked for failed.
    Failed,
    /// The player has played the URL it was given and has exited.
    Played,
    /// The player could not be started; the song is skipped.
    PlayFailed,
}

/// What the playlist asks of the caller.
#[derive(Clone, Debug, PartialEq, Eq)]
pub enum PlayAction {
    /// Run the extraction tool with these arguments, then report `Resolved`
    /// or `Failed`.
    Lookup(Vec<String>),
    /// Play this stream URL to its end, then report `Played`, or
    /// `PlayFailed` where the player could not be started.
    Play(String),
    /// The turn is over; the flag says whether another one should follow.
    Done(bool),
}

/// A [`PlayEvent`] with the song as its view.
pub enum PlayEventView {
    Start,
    Resolved(SongView),
    Failed,
    Played,
    PlayFailed,
}

/// A [`PlayAction`] with its texts as sequences of characters.
pub enum PlayActionView {
    Lookup(Seq<Seq<char>>),
    Play(Seq<char>),
    Done(bool),
}

impl View for PlayEvent {
    type V = PlayEventView;

    open spec fn view(&self) -> PlayEventView {
        match self {
            PlayEvent::Start => PlayEventView::Start,
            PlayEvent::Resolved(song) => PlayEventView::Resolved(song@),
            PlayEvent::Failed => PlayEventView::Failed,
            PlayEvent::Played => PlayEventView::Played,
            PlayEvent::PlayFailed => PlayEventView::PlayFailed,
        }
    }
}

impl View for PlayAction {
    type V = PlayActionView;

    open spec fn view(&self) -> PlayActionView {
        match self {
            PlayAction::Lookup(args) => PlayActionView::Lookup(views(args@)),
            PlayAction::Play(url) => PlayActionView::Play(url@),
            PlayAction::Done(proceed) => PlayActionView::Done(*proceed),
        }
    }
}

/// The view of what a step returns.
pub open spec fn outcome_view(outcome: Result<PlayAction, PlayerError>) -> Result<
    PlayActionView,
    PlayerError,
> {
    match outcome {
        Ok(action) => Ok(action@),
        Err(e) => Err(e),
    }
}

/// What the playlist asks for when the song at the cursor has answered.
pub open spec fn action_for(answer: StreamActionView) -> PlayActionView {
    match answer {
        StreamActionView::Serve(url) => PlayActionView::Play(url),
        StreamActionView::Lookup(args) => PlayActionView::Lookup(args),
        StreamActionView::GiveUp => PlayActionView::Done(true),
    }
}

/// The playlist after an event, and what it asks for.
///
/// An empty playlist stays as it is and reports `EmptyPlaylist`. Otherwise
/// the cursor is first reduced modulo the number of songs; at the start of a
/// turn that has a `roll`, the roll takes the cursor's place before that.
///
/// * `Start`: the song at the cursor is asked for its stream URL at `now`.
/// * `Resolved`: the song at the cursor takes the lookup's result; where the
///   result has no stream URL, the song is removed as after `Failed`.
/// * `Failed`: the song at the cursor is removed, the others keep their
///   order, the cursor stays, and another turn should follow.
/// * `Played`, `PlayFailed`: the cursor moves on by one; another turn should
///   follow unless the cursor now equals the number of songs and `is_looped`
///   is off. A song that could not be played is skipped, not removed.
pub open spec fn advance_spec(
    playlist: PlaylistView,
    event: PlayEventView,
    is_looped: bool,
    roll: Option<usize>,
    now: u64,
) -> (PlaylistView, Result<PlayActionView, PlayerError>) {
    let len = playlist.songs.len();
    if len == 0 {
        (playlist, Err(PlayerError::EmptyPlaylist))
    } else {
        match event {
            PlayEventView::Start => {
                let idx = (match roll {
                    Some(r) => r as nat,
                    None => playlist.active_idx,
                } % len) as nat;
                let answer = stream_step_spec(playlist.songs[idx as int], LookupEventView::Ask, now);
                (PlaylistView { songs: playlist.songs, active_idx: idx }, Ok(action_for(answer.1)))
            },
            PlayEventView::Resolved(fresh) => {
                let idx = playlist.active_idx % len;
                let answer = stream_step_spec(
                    playlist.songs[idx as int],
                    LookupEventView::Resolved(fresh),
                    now,
                );
                if answer.1 is GiveUp {
                    (
                        PlaylistView { songs: playlist.songs.remove(idx as int), active_idx: idx },
                        Ok(PlayActionView::Done(true)),
                    )
                } else {
                    (
                        PlaylistView {
                            songs: playlist.songs.update(idx as int, answer.0),
                            active_idx: idx,
                        },
                        Ok(action_for(answer.1)),
                    )
                }
            },
            PlayEventView::Failed => {
                let idx = playlist.active_idx % len;
                (
                    PlaylistView { songs: playlist.songs.remove(idx as int), active_idx: idx },
                    Ok(PlayActionView::Done(true)),
                )
            },
            PlayEventView::Played | PlayEventView::PlayFailed => {
                let next = playlist.active_idx % len + 1;
                (
                    PlaylistView { songs: playlist.songs, active_idx: next },
                    Ok(PlayActionView::Done(next != len || is_looped)),
                )
            },
        }
    }
}

/// `Rng::gen` on `rand::thread_rng()`: a position drawn from the thread's
/// generator. Nothing is known of the result.
#[verifier::external_body]
fn random_index() -> usize {
    rand::thread_rng().gen()
}

fn action_of(answer: StreamAction) -> (action: PlayAction)
    ensures
        action@ == action_for(answer@),
{
    match answer {
        StreamAction::Serve(url) => PlayAction::Play(url),
        StreamAction::Lookup(args) => PlayAction::Lookup(args),
        StreamAction::GiveUp => PlayAction::Done(true),
    }
}

impl Playlist {
    /// A playlist without songs, its cursor at the start.
    pub fn new() -> (playlist: Playlist)
        ensures
            playlist@.songs.len() == 0,
            playlist@.active_idx == 0,
    {
        Playlist { songs: Vec::new(), active_idx: 0 }
    }

    /// Puts `obj` at the end of the playlist.
    pub fn add_youtube_song(&mut self, obj: YouTubeSong)
        ensures
            final(self)@.songs == old(self)@.songs.push(obj@),
            final(self)@.active_idx == old(self)@.active_idx,
    {
        self.songs.push(obj);
    }

    /// Puts the songs of `objs` at the end of the playlist, in their order.
    pub fn add_youtube_songs(&mut self, objs: Vec<YouTubeSong>)
        ensures
            final(self)@.songs == old(self)@.songs + song_views(objs@),
            final(self)@.active_idx == old(self)@.active_idx,
    {
        let mut objs = objs;
        self.songs.append(&mut objs);
    }

    /// One step of a turn, by the system clock and, where the playlist is
    /// shuffled, with a fresh random position at the start of the turn.
    ///
    /// Begin a turn with `Start`, do what the answer asks for, and report
    /// what came of it, until the answer is `Done`. An empty playlist is left
    /// as it is and reported as `EmptyPlaylist`, whatever the event. Whatever
    /// the clock and the generator give, a failed lookup removes the song at
    /// the cursor and nothing else.
    pub fn play_next_song(&mut self, event: PlayEvent, is_looped: bool, is_shuffled: bool) -> (outcome:
        Result<PlayAction, PlayerError>)
        ensures
            exists|roll: Option<usize>, now: u64|
                {
                    &&& roll is Some <==> is_shuffled && event@ is Start && old(self)@.songs.len()
                        > 0
                    &&& (final(self)@, outcome_view(outcome)) == #[trigger] advance_spec(
                        old(self)@,
                        event@,
                        is_looped,
                        roll,
                        now,
                    )
                },
            old(self)@.songs.len() == 0 ==> final(self)@ == old(self)@ && outcome_view(outcome)
                == Err::<PlayActionView, PlayerError>(PlayerError::EmptyPlaylist),
            old(self)@.songs.len() > 0 && event@ is Failed ==> {
                let idx = old(self)@.active_idx % old(self)@.songs.len();
                &&& final(self)@.songs == old(self)@.songs.remove(idx as int)
                &&& final(self)@.active_idx == idx
                &&& outcome_view(outcome) == Ok::<PlayActionView, PlayerError>(
                    PlayActionView::Done(true),
                )
            },
    {
        if self.songs.len() == 0 {
            proof {
                assert((self@, Err::<PlayActionView, PlayerError>(PlayerError::EmptyPlaylist))
                    == advance_spec(old(self)@, event@, is_looped, None, 0));
            }
            return Err(PlayerError::EmptyPlaylist);
        }
        let starts = match &event {
            PlayEvent::Start => true,
            _ => false,
        };
        let roll = if is_shuffled && starts {
            Some(random_index())
        } else {
            None
        };
        let now = get_unix_secs();
        self.advance(event, is_looped, roll, now)
    }

    /// One step of a turn, with the time and the shuffle's roll given.
    pub fn advance(
        &mut self,
        event: PlayEvent,
        is_looped: bool,
        roll: Option<usize>,
        now: u64,
    ) -> (outcome: Result<PlayAction, PlayerError>)
        ensures
            (final(self)@, outcome_view(outcome)) == advance_spec(
                old(self)@,
                event@,
                is_looped,
                roll,
                now,
            ),
    {
        let len = self.songs.len();
        if len == 0 {
            return Err(PlayerError::EmptyPlaylist);
        }
        let ghost before = song_views(self.songs@);
        match event {
            PlayEvent::Start => {
                let position = match roll {
                    Some(r) => r,
                    None => self.active_idx,
                };
                self.active_idx = position % len;
                let answer = self.songs[self.active_idx].stream_step(LookupEvent::Ask, now);
                proof {
                    assert(song_views(self.songs@) =~= before);
                }
                Ok(action_of(answer))
            },
            PlayEvent::Resolved(fresh) => {
                self.active_idx = self.active_idx % len;
                let answer = self.songs[self.active_idx].stream_step(
                    LookupEvent::Resolved(fresh),
                    now,
                );
                match answer {
                    StreamAction::GiveUp => {
                        self.songs.remove(self.active_idx);
                        proof {
                            assert(song_views(self.songs@) =~= before.remove(
                                self.active_idx as int,
                            ));
                        }
                        Ok(PlayAction::Done(true))
                    },
                    _ => {
                        proof {
                            assert(song_views(self.songs@) =~= before.update(
                                self.active_idx as int,
                                self.songs@[self.active_idx as int]@,
                            ));
                        }
                        Ok(action_of(answer))
                    },
                }
            },
            PlayEvent::Failed => {
                self.active_idx = self.active_idx % len;
                self.songs.remove(self.active_idx);
                proof {
                    assert(song_views(self.songs@) =~= before.remove(self.active_idx as int));
                }
                Ok(PlayAction::Done(true))
            },
            PlayEvent::Played | PlayEvent::PlayFailed => {
                self.active_idx = self.active_idx % len + 1;
                Ok(PlayAction::Done(self.active_idx != len || is_looped))
            },
        }
    }
}

} // verus!
