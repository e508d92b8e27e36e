use ytaudio::tool::song_lookup_command;
use ytaudio::{PlayAction, PlayEvent, PlayerError, Playlist, YouTubeSong};

fn stub(id: &str) -> YouTubeSong {
    YouTubeSong {
        title: None,
        id: id.to_string(),
        uploader_id: None,
        uploaded_at: None,
        duration: None,
        is_live: None,
        m3u8_url: None,
        m3u8_url_age: None,
    }
}

fn resolved(id: &str, url: &str) -> YouTubeSong {
    YouTubeSong {
        title: Some(format!("title of {}", id)),
        id: id.to_string(),
        uploader_id: None,
        uploaded_at: Some(0),
        duration: None,
        is_live: None,
        m3u8_url: Some(url.to_string()),
        m3u8_url_age: None,
    }
}

fn playlist_of(ids: &[&str]) -> Playlist {
    let mut playlist = Playlist::new();
    for id in ids {
        playlist.add_youtube_song(stub(id));
    }
    playlist
}

fn ids(playlist: &Playlist) -> Vec<String> {
    playlist.songs.iter().map(|s| s.id.clone()).collect()
}

/// Drives one whole turn in which every lookup resolves; returns the id of
/// the song that was played, the number of lookups, and the turn's flag.
fn turn(playlist: &mut Playlist, is_looped: bool, roll: Option<usize>, now: u64) -> (Option<String>, usize, bool) {
    let mut event = PlayEvent::Start;
    let mut played = None;
    let mut lookups = 0;
    let mut first = true;
    loop {
        let step_roll = if first { roll } else { None };
        first = false;
        match playlist.advance(event, is_looped, step_roll, now) {
            Err(_) => return (played, lookups, false),
            Ok(PlayAction::Lookup(args)) => {
                lookups += 1;
                let id = args[0].clone();
                event = PlayEvent::Resolved(resolved(&id, &format!("https://example.com/{}", id)));
            }
            Ok(PlayAction::Play(url)) => {
                let song = &playlist.songs[playlist.active_idx];
                assert_eq!(Some(url), song.m3u8_url);
                played = Some(song.id.clone());
                event = PlayEvent::Played;
            }
            Ok(PlayAction::Done(proceed)) => return (played, lookups, proceed),
        }
    }
}

#[test]
fn new_playlist_is_empty() {
    let playlist = Playlist::new();
    assert!(playlist.songs.is_empty());
    assert_eq!(playlist.active_idx, 0);
}

#[test]
fn songs_are_added_at_the_end() {
    let mut playlist = playlist_of(&["a", "b"]);
    playlist.active_idx = 1;
    playlist.add_youtube_song(stub("c"));
    assert_eq!(ids(&playlist), vec!["a", "b", "c"]);
    assert_eq!(playlist.active_idx, 1);
    playlist.add_youtube_songs(vec![stub("d"), stub("e")]);
    assert_eq!(ids(&playlist), vec!["a", "b", "c", "d", "e"]);
    playlist.add_youtube_songs(Vec::new());
    assert_eq!(ids(&playlist), vec!["a", "b", "c", "d", "e"]);
    assert_eq!(playlist.active_idx, 1);
}

#[test]
fn empty_playlist_stops_and_stays() {
    for cursor in [0usize, 7] {
        for looped in [false, true] {
            for roll in [None, Some(3usize)] {
                let events = vec![
                    PlayEvent::Start,
                    PlayEvent::Resolved(resolved("a", "u")),
                    PlayEvent::Failed,
                    PlayEvent::Played,
                    PlayEvent::PlayFailed,
                ];
                for event in events {
                    let mut playlist = Playlist { songs: Vec::new(), active_idx: cursor };
                    assert_eq!(
                        playlist.advance(event, looped, roll, 10),
                        Err(PlayerError::EmptyPlaylist)
                    );
                    assert_eq!(playlist, Playlist { songs: Vec::new(), active_idx: cursor });
                }
            }
        }
    }
}

#[test]
fn empty_playlist_stops_by_clock_and_generator_too() {
    let mut playlist = Playlist { songs: Vec::new(), active_idx: 4 };
    assert_eq!(playlist.play_next_song(PlayEvent::Start, true, true), Err(PlayerError::EmptyPlaylist));
    assert_eq!(playlist.play_next_song(PlayEvent::Played, false, false), Err(PlayerError::EmptyPlaylist));
    assert_eq!(playlist, Playlist { songs: Vec::new(), active_idx: 4 });
}

#[test]
fn start_asks_for_a_lookup_of_the_song_at_the_cursor() {
    let mut playlist = playlist_of(&["a", "b", "c"]);
    playlist.active_idx = 1;
    assert_eq!(
        playlist.advance(PlayEvent::Start, false, None, 10),
        Ok(PlayAction::Lookup(song_lookup_command("b")))
    );
    assert_eq!(playlist.active_idx, 1);
    assert_eq!(ids(&playlist), vec!["a", "b", "c"]);
}

#[test]
fn start_reduces_the_cursor() {
    let mut playlist = playlist_of(&["a", "b", "c"]);
    playlist.active_idx = 3;
    assert_eq!(
        playlist.advance(PlayEvent::Start, false, None, 10),
        Ok(PlayAction::Lookup(song_lookup_command("a")))
    );
    assert_eq!(playlist.active_idx, 0);
    playlist.active_idx = usize::MAX;
    playlist.advance(PlayEvent::Start, false, None, 10).unwrap();
    assert_eq!(playlist.active_idx, usize::MAX % 3);
}

#[test]
fn start_with_a_roll_jumps() {
    let mut playlist = playlist_of(&["a", "b", "c"]);
    assert_eq!(
        playlist.advance(PlayEvent::Start, false, Some(8), 10),
        Ok(PlayAction::Lookup(song_lookup_command("c")))
    );
    assert_eq!(playlist.active_idx, 2);
    assert_eq!(
        playlist.advance(PlayEvent::Start, false, Some(9), 10),
        Ok(PlayAction::Lookup(song_lookup_command("a")))
    );
    assert_eq!(playlist.active_idx, 0);
}

#[test]
fn roll_counts_at_the_start_only() {
    let mut playlist = playlist_of(&["a", "b", "c"]);
    playlist.active_idx = 1;
    assert_eq!(playlist.advance(PlayEvent::Played, true, Some(0), 10), Ok(PlayAction::Done(true)));
    assert_eq!(playlist.active_idx, 2);
}

#[test]
fn start_serves_a_fresh_cache() {
    let mut playlist = playlist_of(&["a"]);
    playlist.songs[0].m3u8_url = Some("https://example.com/a".to_string());
    playlist.songs[0].m3u8_url_age = Some(100);
    assert_eq!(
        playlist.advance(PlayEvent::Start, false, None, 100 + 17999),
        Ok(PlayAction::Play("https://example.com/a".to_string()))
    );
    assert_eq!(
        playlist.advance(PlayEvent::Start, false, None, 100 + 18000),
        Ok(PlayAction::Lookup(song_lookup_command("a")))
    );
}

#[test]
fn resolved_lookup_refreshes_the_song_at_the_cursor() {
    let mut playlist = playlist_of(&["a", "b", "c"]);
    playlist.active_idx = 1;
    playlist.advance(PlayEvent::Start, false, None, 10).unwrap();
    assert_eq!(
        playlist.advance(PlayEvent::Resolved(resolved("zzz", "https://example.com/b")), false, None, 12),
        Ok(PlayAction::Play("https://example.com/b".to_string()))
    );
    assert_eq!(ids(&playlist), vec!["a", "b", "c"]);
    assert_eq!(playlist.songs[1].title, Some("title of zzz".to_string()));
    assert_eq!(playlist.songs[1].m3u8_url_age, Some(12));
    assert_eq!(playlist.songs[0], stub("a"));
    assert_eq!(playlist.songs[2], stub("c"));
    assert_eq!(playlist.active_idx, 1);
}

#[test]
fn failed_lookup_removes_exactly_that_song() {
    let mut playlist = playlist_of(&["a", "b", "c", "d"]);
    playlist.active_idx = 1;
    playlist.advance(PlayEvent::Start, false, None, 10).unwrap();
    assert_eq!(playlist.advance(PlayEvent::Failed, false, None, 10), Ok(PlayAction::Done(true)));
    assert_eq!(ids(&playlist), vec!["a", "c", "d"]);
    assert_eq!(playlist.active_idx, 1);
    assert_eq!(
        playlist.advance(PlayEvent::Start, false, None, 10),
        Ok(PlayAction::Lookup(song_lookup_command("c")))
    );
}

#[test]
fn failed_lookup_of_the_last_song_leaves_the_cursor_past_the_end() {
    let mut playlist = playlist_of(&["a", "b", "c"]);
    playlist.active_idx = 2;
    playlist.advance(PlayEvent::Start, false, None, 10).unwrap();
    assert_eq!(playlist.advance(PlayEvent::Failed, false, None, 10), Ok(PlayAction::Done(true)));
    assert_eq!(ids(&playlist), vec!["a", "b"]);
    assert_eq!(playlist.active_idx, 2);
    assert_eq!(
        playlist.advance(PlayEvent::Start, false, None, 10),
        Ok(PlayAction::Lookup(song_lookup_command("a")))
    );
}

#[test]
fn failed_lookup_of_the_only_song_empties_the_playlist() {
    let mut playlist = playlist_of(&["a"]);
    playlist.advance(PlayEvent::Start, true, None, 10).unwrap();
    assert_eq!(playlist.advance(PlayEvent::Failed, true, None, 10), Ok(PlayAction::Done(true)));
    assert!(playlist.songs.is_empty());
    assert_eq!(playlist.advance(PlayEvent::Start, true, None, 10), Err(PlayerError::EmptyPlaylist));
}

#[test]
fn failed_lookup_is_removed_by_clock_and_generator_too() {
    let mut playlist = playlist_of(&["a", "b", "c"]);
    playlist.active_idx = 1;
    assert_eq!(playlist.play_next_song(PlayEvent::Failed, false, true), Ok(PlayAction::Done(true)));
    assert_eq!(ids(&playlist), vec!["a", "c"]);
    assert_eq!(playlist.active_idx, 1);
}

#[test]
fn lookup_without_stream_url_removes_the_song() {
    let mut playlist = playlist_of(&["a", "b"]);
    playlist.advance(PlayEvent::Start, false, None, 10).unwrap();
    let mut fresh = resolved("a", "x");
    fresh.m3u8_url = None;
    assert_eq!(playlist.advance(PlayEvent::Resolved(fresh), false, None, 10), Ok(PlayAction::Done(true)));
    assert_eq!(ids(&playlist), vec!["b"]);
}

#[test]
fn played_moves_the_cursor_on() {
    let mut playlist = playlist_of(&["a", "b", "c"]);
    assert_eq!(playlist.advance(PlayEvent::Played, false, None, 10), Ok(PlayAction::Done(true)));
    assert_eq!(playlist.active_idx, 1);
    assert_eq!(playlist.advance(PlayEvent::Played, false, None, 10), Ok(PlayAction::Done(true)));
    assert_eq!(playlist.active_idx, 2);
    assert_eq!(playlist.advance(PlayEvent::Played, false, None, 10), Ok(PlayAction::Done(false)));
    assert_eq!(playlist.active_idx, 3);
}

#[test]
fn played_at_the_end_goes_on_when_looped() {
    let mut playlist = playlist_of(&["a", "b", "c"]);
    playlist.active_idx = 2;
    assert_eq!(playlist.advance(PlayEvent::Played, true, None, 10), Ok(PlayAction::Done(true)));
    assert_eq!(playlist.active_idx, 3);
}

#[test]
fn song_that_could_not_be_played_is_skipped() {
    let mut playlist = playlist_of(&["a", "b"]);
    assert_eq!(playlist.advance(PlayEvent::PlayFailed, false, None, 10), Ok(PlayAction::Done(true)));
    assert_eq!(ids(&playlist), vec!["a", "b"]);
    assert_eq!(playlist.active_idx, 1);
    assert_eq!(playlist.advance(PlayEvent::PlayFailed, false, None, 10), Ok(PlayAction::Done(false)));
    assert_eq!(ids(&playlist), vec!["a", "b"]);
}

#[test]
fn without_loop_the_run_ends_after_the_last_song() {
    let mut playlist = playlist_of(&["a", "b", "c"]);
    assert_eq!(turn(&mut playlist, false, None, 10), (Some("a".to_string()), 1, true));
    assert_eq!(turn(&mut playlist, false, None, 10), (Some("b".to_string()), 1, true));
    assert_eq!(turn(&mut playlist, false, None, 10), (Some("c".to_string()), 1, false));
}

#[test]
fn with_loop_the_first_song_is_played_twice() {
    let names = ["a", "b", "c", "d"];
    let mut playlist = playlist_of(&names);
    let mut plays = Vec::new();
    for _ in 0..names.len() + 1 {
        let (played, _, proceed) = turn(&mut playlist, true, None, 10);
        assert!(proceed);
        plays.push(played.unwrap());
    }
    assert_eq!(plays, vec!["a", "b", "c", "d", "a"]);
    assert_eq!(plays.iter().filter(|id| id.as_str() == "a").count(), 2);
    assert_eq!(ids(&playlist), vec!["a", "b", "c", "d"]);
}

#[test]
fn with_loop_a_single_song_is_played_twice() {
    let mut playlist = playlist_of(&["a"]);
    assert_eq!(turn(&mut playlist, true, None, 10), (Some("a".to_string()), 1, true));
    assert_eq!(turn(&mut playlist, true, None, 10), (Some("a".to_string()), 0, true));
}

#[test]
fn second_round_within_the_lifetime_needs_no_lookup() {
    let mut playlist = playlist_of(&["a", "b"]);
    assert_eq!(turn(&mut playlist, true, None, 100).1, 1);
    assert_eq!(turn(&mut playlist, true, None, 200).1, 1);
    assert_eq!(turn(&mut playlist, true, None, 100 + 17999).1, 0);
    assert_eq!(turn(&mut playlist, true, None, 200 + 18000).1, 1);
}

#[test]
fn shuffled_turns_go_where_the_roll_says() {
    let mut playlist = playlist_of(&["a", "b", "c"]);
    assert_eq!(turn(&mut playlist, false, Some(7), 10), (Some("b".to_string()), 1, true));
    assert_eq!(turn(&mut playlist, false, Some(2), 10), (Some("c".to_string()), 1, false));
    assert_eq!(turn(&mut playlist, true, Some(2), 10), (Some("c".to_string()), 0, true));
    assert_eq!(turn(&mut playlist, false, Some(0), 10), (Some("a".to_string()), 1, true));
}

#[test]
fn shuffled_start_lands_inside_the_playlist() {
    for _ in 0..50 {
        let mut playlist = playlist_of(&["a", "b", "c"]);
        playlist.active_idx = 1;
        match playlist.play_next_song(PlayEvent::Start, false, true) {
            Ok(PlayAction::Lookup(args)) => {
                assert!(playlist.active_idx < 3);
                assert_eq!(args, song_lookup_command(&playlist.songs[playlist.active_idx].id));
            }
            other => panic!("unexpected answer {:?}", other),
        }
        assert_eq!(ids(&playlist), vec!["a", "b", "c"]);
    }
}

#[test]
fn unshuffled_start_keeps_the_cursor() {
    let mut playlist = playlist_of(&["a", "b", "c"]);
    playlist.active_idx = 2;
    assert_eq!(
        playlist.play_next_song(PlayEvent::Start, false, false),
        Ok(PlayAction::Lookup(song_lookup_command("c")))
    );
    assert_eq!(playlist.active_idx, 2);
    let served = playlist.play_next_song(PlayEvent::Resolved(resolved("c", "https://example.com/c")), false, false);
    assert_eq!(served, Ok(PlayAction::Play("https://example.com/c".to_string())));
    assert_eq!(playlist.play_next_song(PlayEvent::Played, false, false), Ok(PlayAction::Done(false)));
    assert_eq!(
        playlist.play_next_song(PlayEvent::Start, true, false),
        Ok(PlayAction::Lookup(song_lookup_command("a")))
    );
}
