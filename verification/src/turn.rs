//! Whole turns of the playlist, and what holds of them.
//!
//! A turn is what the caller drives between one `Start` and the next: the
//! start of the turn, the lookup where one is asked for, and the playback.

use crate::error::PlayerError;
use crate::playlist::{
    advance_spec, PlayAction, PlayActionView, PlayEvent, PlayEventView, Playlist, PlaylistView,
};
use crate::youtube_api::{cache_is_fresh, SongView, YouTubeSong};
use vstd::arithmetic::div_mod::{lemma_mod_bound, lemma_mod_self_0, lemma_small_mod};
use vstd::prelude::*;

verus! {

/// What the world answers in the course of one turn.
pub struct TurnInput {
    /// The random position, where the playlist is shuffled.
    pub roll: Option<usize>,
    /// The time at the start of the turn.
    pub now: u64,
    /// What a lookup gives in this turn, were one asked for; `None` where it
    /// would fail.
    pub lookup: Option<SongView>,
    /// The time at which such a lookup is resolved.
    pub resolved_at: u64,
    /// Whether the player can be started in this turn.
    pub player_starts: bool,
}

/// What a turn leaves behind.
pub struct TurnOutcome {
    pub playlist: PlaylistView,
    /// The index of the song that was played, if one was.
    pub played: Option<nat>,
    /// Whether another turn should follow.
    pub proceed: bool,
}

/// Whether the step ended the turn and asked for another.
pub open spec fn proceeds(outcome: Result<PlayActionView, PlayerError>) -> bool {
    outcome == Ok::<PlayActionView, PlayerError>(PlayActionView::Done(true))
}

/// The rest of a turn in which the song at the cursor is handed to the
/// player. It counts as played where the player started.
pub open spec fn playback_spec(
    playlist: PlaylistView,
    is_looped: bool,
    player_starts: bool,
    now: u64,
) -> TurnOutcome {
    let event = if player_starts {
        PlayEventView::Played
    } else {
        PlayEventView::PlayFailed
    };
    let after = advance_spec(playlist, event, is_looped, None, now);
    TurnOutcome {
        playlist: after.0,
        played: if player_starts {
            Some(playlist.active_idx)
        } else {
            None
        },
        proceed: proceeds(after.1),
    }
}

/// One whole turn: the steps of `advance_spec` that a caller goes through
/// who does what each answer asks for.
pub open spec fn turn_spec(playlist: PlaylistView, is_looped: bool, input: TurnInput) -> TurnOutcome {
    let started = advance_spec(playlist, PlayEventView::Start, is_looped, input.roll, input.now);
    match started.1 {
        Ok(PlayActionView::Play(_)) => playback_spec(
            started.0,
            is_looped,
            input.player_starts,
            input.resolved_at,
        ),
        Ok(PlayActionView::Lookup(_)) => {
            let event = match input.lookup {
                Some(fresh) => PlayEventView::Resolved(fresh),
                None => PlayEventView::Failed,
            };
            let looked = advance_spec(started.0, event, is_looped, None, input.resolved_at);
            match looked.1 {
                Ok(PlayActionView::Play(_)) => playback_spec(
                    looked.0,
                    is_looped,
                    input.player_starts,
                    input.resolved_at,
                ),
                _ => TurnOutcome {
                    playlist: looked.0,
                    played: None,
                    proceed: proceeds(looked.1),
                },
            }
        },
        _ => TurnOutcome { playlist: started.0, played: None, proceed: proceeds(started.1) },
    }
}

/// What the world answers in the course of one turn, as values to run a
/// turn on without a clock, a generator or a process.
#[derive(Clone, Debug, PartialEq, Eq)]
pub struct TurnAnswers {
    /// The random position, where the playlist is shuffled.
    pub roll: Option<usize>,
    /// The time at the start of the turn.
    pub now: u64,
    /// What a lookup gives in this turn, were one asked for; `None` where it
    /// would fail.
    pub lookup: Option<YouTubeSong>,
    /// The time at which such a lookup is resolved.
    pub resolved_at: u64,
    /// Whether the player can be started in this turn.
    pub player_starts: bool,
}

impl View for TurnAnswers {
    type V = TurnInput;

    open spec fn view(&self) -> TurnInput {
        TurnInput {
            roll: self.roll,
            now: self.now,
            lookup: match self.lookup {
                Some(song) => Some(song@),
                None => None,
            },
            resolved_at: self.resolved_at,
            player_starts: self.player_starts,
        }
    }
}

/// What a turn came to.
#[derive(Clone, Copy, Debug, PartialEq, Eq)]
pub struct TurnReport {
    /// The index of the song that was played, if one was.
    pub played: Option<usize>,
    /// Whether another turn should follow.
    pub proceed: bool,
}

/// The index that a report names, as a natural number.
pub open spec fn played_index(played: Option<usize>) -> Option<nat> {
    match played {
        Some(index) => Some(index as nat),
        None => None,
    }
}

impl Playlist {
    /// Hands the song at the cursor to the player and ends the turn.
    fn play_back(&mut self, is_looped: bool, player_starts: bool, now: u64) -> (report: TurnReport)
        ensures
            playback_spec(old(self)@, is_looped, player_starts, now) == (TurnOutcome {
                playlist: final(self)@,
                played: played_index(report.played),
                proceed: report.proceed,
            }),
    {
        let index = self.active_idx;
        let event = if player_starts {
            PlayEvent::Played
        } else {
            PlayEvent::PlayFailed
        };
        let proceed = match self.advance(event, is_looped, None, now) {
            Ok(PlayAction::Done(proceed)) => proceed,
            _ => false,
        };
        TurnReport {
            played: if player_starts {
                Some(index)
            } else {
                None
            },
            proceed,
        }
    }

    /// Takes one whole turn on given answers: every step that a caller goes
    /// through who does what the playlist asks for, with the outcome of each
    /// piece of outside work taken from `answers`.
    pub fn take_turn(&mut self, is_looped: bool, answers: TurnAnswers) -> (report: TurnReport)
        ensures
            turn_spec(old(self)@, is_looped, answers@) == (TurnOutcome {
                playlist: final(self)@,
                played: played_index(report.played),
                proceed: report.proceed,
            }),
    {
        let TurnAnswers { roll, now, lookup, resolved_at, player_starts } = answers;
        match self.advance(PlayEvent::Start, is_looped, roll, now) {
            Ok(PlayAction::Play(_)) => self.play_back(is_looped, player_starts, resolved_at),
            Ok(PlayAction::Lookup(_)) => {
                let event = match lookup {
                    Some(fresh) => PlayEvent::Resolved(fresh),
                    None => PlayEvent::Failed,
                };
                match self.advance(event, is_looped, None, resolved_at) {
                    Ok(PlayAction::Play(_)) => self.play_back(is_looped, player_starts, resolved_at),
                    Ok(PlayAction::Done(proceed)) => TurnReport { played: None, proceed },
                    _ => TurnReport { played: None, proceed: false },
                }
            },
            Ok(PlayAction::Done(proceed)) => TurnReport { played: None, proceed },
            Err(_) => TurnReport { played: None, proceed: false },
        }
    }
}

/// The playlist after the turns that `inputs` answers, one after the other.
pub open spec fn run_turns(playlist: PlaylistView, is_looped: bool, inputs: Seq<TurnInput>) -> PlaylistView
    decreases inputs.len(),
{
    if inputs.len() == 0 {
        playlist
    } else {
        turn_spec(run_turns(playlist, is_looped, inputs.drop_last()), is_looped, inputs.last()).playlist
    }
}

/// In how many of the turns that `inputs` answers the song at `index` is played.
pub open spec fn plays_of(
    playlist: PlaylistView,
    is_looped: bool,
    inputs: Seq<TurnInput>,
    index: nat,
) -> nat
    decreases inputs.len(),
{
    if inputs.len() == 0 {
        0
    } else {
        let earlier = plays_of(playlist, is_looped, inputs.drop_last(), index);
        let last = turn_spec(
            run_turns(playlist, is_looped, inputs.drop_last()),
            is_looped,
            inputs.last(),
        );
        if last.played == Some(index) {
            earlier + 1
        } else {
            earlier
        }
    }
}

/// Whether the turn is taken in order, any lookup in it gives a stream URL,
/// and the player starts.
pub open spec fn plays_in_order(input: TurnInput) -> bool {
    &&& input.roll is None
    &&& input.player_starts
    &&& input.lookup is Some
    &&& input.lookup->0.m3u8_url is Some
}

/// The identifiers of the songs, in their order.
pub open spec fn song_ids(songs: Seq<SongView>) -> Seq<Seq<char>> {
    songs.map_values(|song: SongView| song.id)
}

/// Whether the event takes the song at the cursor out of the playlist: a
/// failed lookup does, and so does a resolved one that has no stream URL.
pub open spec fn removes_song(event: PlayEventView) -> bool {
    match event {
        PlayEventView::Failed => true,
        PlayEventView::Resolved(fresh) => fresh.m3u8_url is None,
        _ => false,
    }
}

/// The position that a turn starts from: the roll where there is one, else
/// the cursor.
pub open spec fn turn_position(playlist: PlaylistView, input: TurnInput) -> nat {
    match input.roll {
        Some(r) => r as nat,
        None => playlist.active_idx,
    }
}

/// The index of the song that a turn on a playlist with songs is about.
pub open spec fn turn_index(playlist: PlaylistView, input: TurnInput) -> nat {
    (turn_position(playlist, input) % playlist.songs.len()) as nat
}

/// No step reorders the playlist or changes which songs it holds, but for
/// the removal of the song at the cursor after a lookup that gave no stream
/// URL. After a step on a playlist with songs the cursor is at most the
/// number of songs that the step began with.
pub proof fn lemma_step_keeps_order(
    playlist: PlaylistView,
    event: PlayEventView,
    is_looped: bool,
    roll: Option<usize>,
    now: u64,
)
    ensures
        ({
            let after = advance_spec(playlist, event, is_looped, roll, now).0;
            let len = playlist.songs.len();
            &&& len > 0 && removes_song(event) ==> song_ids(after.songs) == song_ids(
                playlist.songs,
            ).remove((playlist.active_idx % len) as int)
            &&& !(len > 0 && removes_song(event)) ==> song_ids(after.songs) == song_ids(
                playlist.songs,
            )
            &&& len > 0 ==> after.active_idx <= len
        }),
{
    let len = playlist.songs.len();
    if len > 0 {
        lemma_mod_bound(playlist.active_idx as int, len as int);
        if let Some(r) = roll {
            lemma_mod_bound(r as int, len as int);
        }
    }
}

/// On an empty playlist every step, and so every turn, changes nothing,
/// reports `EmptyPlaylist` and asks for no further turn.
pub proof fn lemma_empty_playlist_stops(
    playlist: PlaylistView,
    event: PlayEventView,
    is_looped: bool,
    input: TurnInput,
)
    requires
        playlist.songs.len() == 0,
    ensures
        advance_spec(playlist, event, is_looped, input.roll, input.now) == (
            playlist,
            Err::<PlayActionView, PlayerError>(PlayerError::EmptyPlaylist),
        ),
        turn_spec(playlist, is_looped, input) == (TurnOutcome {
            playlist,
            played: None,
            proceed: false,
        }),
{
}

/// A turn in which the lookup fails removes the song at the cursor and no
/// other: the songs before it stay where they are, those after it move up
/// by one, in their order. No song is played, and another turn should follow.
pub proof fn lemma_failed_lookup_removes_song(
    playlist: PlaylistView,
    is_looped: bool,
    input: TurnInput,
)
    requires
        playlist.songs.len() > 0,
        input.lookup is None,
        !cache_is_fresh(playlist.songs[turn_index(playlist, input) as int], input.now),
    ensures
        ({
            let idx = turn_index(playlist, input) as int;
            let after = turn_spec(playlist, is_looped, input);
            &&& 0 <= idx < playlist.songs.len()
            &&& after.playlist.songs == playlist.songs.remove(idx)
            &&& after.playlist.songs.len() == playlist.songs.len() - 1
            &&& forall|j: int| 0 <= j < idx ==> after.playlist.songs[j] == playlist.songs[j]
            &&& forall|j: int|
                idx <= j < after.playlist.songs.len() ==> after.playlist.songs[j]
                    == playlist.songs[j + 1]
            &&& after.playlist.active_idx == idx
            &&& after.played is None
            &&& after.proceed
        }),
{
    lemma_mod_bound(turn_position(playlist, input) as int, playlist.songs.len() as int);
    let idx = turn_index(playlist, input);
    lemma_small_mod(idx, playlist.songs.len());
}

/// A turn taken in order, on a playlist with songs and with looping on,
/// plays the song at the cursor, removes none, leaves the cursor behind the
/// song it played and asks for another turn.
pub proof fn lemma_turn_in_order(playlist: PlaylistView, input: TurnInput)
    requires
        playlist.songs.len() > 0,
        plays_in_order(input),
    ensures
        ({
            let idx = playlist.active_idx % playlist.songs.len();
            let after = turn_spec(playlist, true, input);
            &&& after.played == Some(idx)
            &&& song_ids(after.playlist.songs) == song_ids(playlist.songs)
            &&& after.playlist.songs.len() == playlist.songs.len()
            &&& after.playlist.active_idx == idx + 1
            &&& after.proceed
        }),
{
    let len = playlist.songs.len();
    lemma_mod_bound(playlist.active_idx as int, len as int);
    let idx = playlist.active_idx % len;
    lemma_small_mod(idx, len);
    let after = turn_spec(playlist, true, input);
    assert(song_ids(after.playlist.songs) =~= song_ids(playlist.songs));
}

/// With looping on, over at most as many turns in order as there are songs,
/// starting at the first song, each of the first songs is played once.
proof fn lemma_first_round(playlist: PlaylistView, inputs: Seq<TurnInput>)
    requires
        playlist.songs.len() > 0,
        playlist.active_idx % playlist.songs.len() == 0,
        inputs.len() <= playlist.songs.len(),
        forall|i: int| 0 <= i < inputs.len() ==> plays_in_order(#[trigger] inputs[i]),
    ensures
        song_ids(run_turns(playlist, true, inputs).songs) == song_ids(playlist.songs),
        run_turns(playlist, true, inputs).songs.len() == playlist.songs.len(),
        inputs.len() > 0 ==> run_turns(playlist, true, inputs).active_idx == inputs.len(),
        forall|j: nat|
            plays_of(playlist, true, inputs, j) == (if j < inputs.len() {
                1nat
            } else {
                0nat
            }),
    decreases inputs.len(),
{
    if inputs.len() > 0 {
        let earlier = inputs.drop_last();
        lemma_first_round(playlist, earlier);
        let before = run_turns(playlist, true, earlier);
        lemma_turn_in_order(before, inputs.last());
        if earlier.len() > 0 {
            lemma_small_mod(earlier.len(), playlist.songs.len());
        }
        assert forall|j: nat|
            plays_of(playlist, true, inputs, j) == (if j < inputs.len() {
                1nat
            } else {
                0nat
            }) by {
            assert(plays_of(playlist, true, earlier, j) == (if j < earlier.len() {
                1nat
            } else {
                0nat
            }));
        }
    } else {
        assert forall|j: nat| plays_of(playlist, true, inputs, j) == 0 by {}
    }
}

/// With looping on, as many turns as there are songs and one more, taken in
/// order from the first song and with every lookup resolved, remove no song,
/// play the first song exactly twice and every other song exactly once.
pub proof fn lemma_loop_plays_first_song_twice(playlist: PlaylistView, inputs: Seq<TurnInput>)
    requires
        playlist.songs.len() > 0,
        playlist.active_idx % playlist.songs.len() == 0,
        inputs.len() == playlist.songs.len() + 1,
        forall|i: int| 0 <= i < inputs.len() ==> plays_in_order(#[trigger] inputs[i]),
    ensures
        song_ids(run_turns(playlist, true, inputs).songs) == song_ids(playlist.songs),
        run_turns(playlist, true, inputs).songs.len() == playlist.songs.len(),
        plays_of(playlist, true, inputs, 0) == 2,
        forall|j: nat|
            0 < j < playlist.songs.len() ==> plays_of(playlist, true, inputs, j) == 1,
{
    let len = playlist.songs.len();
    let earlier = inputs.drop_last();
    lemma_first_round(playlist, earlier);
    let before = run_turns(playlist, true, earlier);
    lemma_turn_in_order(before, inputs.last());
    lemma_mod_self_0(len as int);
    assert(plays_of(playlist, true, earlier, 0) == 1);
    assert forall|j: nat| 0 < j < len implies plays_of(playlist, true, inputs, j) == 1 by {
        assert(plays_of(playlist, true, earlier, j) == 1);
    }
}

} // verus!
