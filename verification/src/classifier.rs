//! Tells a video link from a playlist link and takes the identifier out.

use crate::error::PlayerError;
use crate::text::{from_chars, starts_with, to_chars};
use url::Url;
use vstd::prelude::*;

verus! {

/// The number of characters in a video identifier.
pub const ID_LENGTH: usize = 11;

/// `url::Url`, a parsed URL. It is carried through as it is; what is read
/// out of it has the names below.
#[verifier::external_type_specification]
#[verifier::external_body]
pub struct ExUrl(Url);

/// The URL that a text is parsed to, as `Url::parse` returns it; `None`
/// where the text is not a URL.
pub uninterp spec fn parsed_url(text: Seq<char>) -> Option<Url>;

/// The path of a URL, as `Url::path` returns it.
pub uninterp spec fn url_path(url: Url) -> Seq<char>;

/// The name and value pairs of a URL's query, decoded and in order, as
/// `Url::query_pairs` yields them.
pub uninterp spec fn url_query_pairs(url: Url) -> Seq<(Seq<char>, Seq<char>)>;

/// What a source URL names.
#[derive(Clone, Debug, PartialEq, Eq)]
pub enum Source {
    /// A single video, by its identifier.
    Video(String),
    /// A playlist, by its identifier.
    Playlist(String),
}

/// A [`Source`] with its identifier as a sequence of characters.
pub enum SourceView {
    Video(Seq<char>),
    Playlist(Seq<char>),
}

impl View for Source {
    type V = SourceView;

    open spec fn view(&self) -> SourceView {
        match self {
            Source::Video(id) => SourceView::Video(id@),
            Source::Playlist(id) => SourceView::Playlist(id@),
        }
    }
}

/// The views of a sequence of name and value pairs.
pub open spec fn pairs_view(pairs: Seq<(String, String)>) -> Seq<(Seq<char>, Seq<char>)> {
    pairs.map_values(|pair: (String, String)| (pair.0@, pair.1@))
}

/// The value of the first pair of `query` whose name is `key`.
pub open spec fn first_value(query: Seq<(Seq<char>, Seq<char>)>, key: Seq<char>) -> Option<
    Seq<char>,
>
    decreases query.len(),
{
    if query.len() == 0 {
        None
    } else if query.first().0 == key {
        Some(query.first().1)
    } else {
        first_value(query.drop_first(), key)
    }
}

/// The playlist that a URL with this query names: the value of its first
/// `list` parameter.
pub open spec fn playlist_id_spec(query: Seq<(Seq<char>, Seq<char>)>) -> Option<Seq<char>> {
    first_value(query, "list"@)
}

/// The video that a URL with this path and query names. Under `/watch` it is
/// the first `v` parameter, which must have `ID_LENGTH` characters. Elsewhere
/// it is the `ID_LENGTH` characters that follow the path's first character,
/// and the path must be long enough to hold them.
pub open spec fn video_id_spec(path: Seq<char>, query: Seq<(Seq<char>, Seq<char>)>) -> Option<
    Seq<char>,
> {
    if "/watch"@.is_prefix_of(path) {
        match first_value(query, "v"@) {
            Some(id) => if id.len() == ID_LENGTH {
                Some(id)
            } else {
                None
            },
            None => None,
        }
    } else if path.len() >= ID_LENGTH + 1 {
        Some(path.subrange(1, ID_LENGTH + 1))
    } else {
        None
    }
}

/// What a URL with this path and query names: a playlist if it has a `list`
/// parameter, else a video if it names one, else nothing.
pub open spec fn classify_spec(path: Seq<char>, query: Seq<(Seq<char>, Seq<char>)>) -> Result<
    SourceView,
    PlayerError,
> {
    match playlist_id_spec(query) {
        Some(id) => Ok(SourceView::Playlist(id)),
        None => match video_id_spec(path, query) {
            Some(id) => Ok(SourceView::Video(id)),
            None => Err(PlayerError::UrlMalformed),
        },
    }
}

/// What a source given as text names; `None` where the text is not a URL at
/// all, and so may be the path of a file.
pub open spec fn classify_text_spec(text: Seq<char>) -> Option<Result<SourceView, PlayerError>> {
    match parsed_url(text) {
        Some(url) => Some(classify_spec(url_path(url), url_query_pairs(url))),
        None => None,
    }
}

/// `Url::parse`: the parsed URL, or `None` where parsing fails.
#[verifier::external_body]
fn parse_url(text: &str) -> (url: Option<Url>)
    ensures
        url == parsed_url(text@),
{
    Url::parse(text).ok()
}

/// `Url::path`: the URL's path as an owned string.
#[verifier::external_body]
fn path_of(url: &Url) -> (path: String)
    ensures
        path@ == url_path(*url),
{
    url.path().to_string()
}

/// `Url::query_pairs`: the decoded name and value pairs of the URL's query,
/// each pair as owned strings, in the order in which the iterator yields them.
#[verifier::external_body]
fn query_pairs_of(url: &Url) -> (pairs: Vec<(String, String)>)
    ensures
        pairs_view(pairs@) == url_query_pairs(*url),
{
    url.query_pairs().into_owned().collect()
}

/// Looks up the first pair of `query` named `key`.
fn find_value(query: &Vec<(String, String)>, key: &str) -> (value: Option<String>)
    ensures
        match value {
            Some(v) => first_value(pairs_view(query@), key@) == Some(v@),
            None => first_value(pairs_view(query@), key@) is None,
        },
{
    let wanted = key.to_string();
    let ghost all = pairs_view(query@);
    let mut i: usize = 0;
    proof {
        assert(all.skip(0) =~= all);
    }
    while i < query.len()
        invariant
            i <= query.len(),
            wanted@ == key@,
            all == pairs_view(query@),
            first_value(all, key@) == first_value(all.skip(i as int), key@),
        decreases query.len() - i,
    {
        proof {
            assert(all.skip(i as int).drop_first() =~= all.skip(i as int + 1));
        }
        if query[i].0 == wanted {
            return Some(query[i].1.clone());
        }
        i = i + 1;
    }
    None
}

/// The playlist identifier among the given query pairs, if there is one.
pub fn playlist_id_in(query: &Vec<(String, String)>) -> (id: Option<String>)
    ensures
        match id {
            Some(s) => playlist_id_spec(pairs_view(query@)) == Some(s@),
            None => playlist_id_spec(pairs_view(query@)) is None,
        },
{
    find_value(query, "list")
}

/// The video identifier in the given path and query pairs, if they name one.
pub fn video_id_in(path: &str, query: &Vec<(String, String)>) -> (id: Option<String>)
    ensures
        match id {
            Some(s) => video_id_spec(path@, pairs_view(query@)) == Some(s@),
            None => video_id_spec(path@, pairs_view(query@)) is None,
        },
{
    let chars = to_chars(path);
    if starts_with(&chars, "/watch") {
        match find_value(query, "v") {
            Some(id) => {
                if id.as_str().unicode_len() == ID_LENGTH {
                    Some(id)
                } else {
                    None
                }
            },
            None => None,
        }
    } else if chars.len() > ID_LENGTH {
        Some(from_chars(&chars, 1, ID_LENGTH + 1))
    } else {
        None
    }
}

/// Classifies a source given as a path and query pairs.
pub fn classify_parts(path: &str, query: &Vec<(String, String)>) -> (source: Result<
    Source,
    PlayerError,
>)
    ensures
        match source {
            Ok(s) => classify_spec(path@, pairs_view(query@)) == Ok::<SourceView, PlayerError>(s@),
            Err(e) => classify_spec(path@, pairs_view(query@)) == Err::<SourceView, PlayerError>(e),
        },
{
    match playlist_id_in(query) {
        Some(id) => Ok(Source::Playlist(id)),
        None => match video_id_in(path, query) {
            Some(id) => Ok(Source::Video(id)),
            None => Err(PlayerError::UrlMalformed),
        },
    }
}

/// The playlist that `url` names: the value of its first `list` query
/// parameter, whatever its path.
pub fn get_playlist_id(url: &Url) -> (id: Option<String>)
    ensures
        match id {
            Some(s) => playlist_id_spec(url_query_pairs(*url)) == Some(s@),
            None => playlist_id_spec(url_query_pairs(*url)) is None,
        },
{
    let query = query_pairs_of(url);
    playlist_id_in(&query)
}

/// The video that `url` names, or `None` where the URL is malformed.
pub fn get_video_id(url: &Url) -> (id: Option<String>)
    ensures
        match id {
            Some(s) => video_id_spec(url_path(*url), url_query_pairs(*url)) == Some(s@),
            None => video_id_spec(url_path(*url), url_query_pairs(*url)) is None,
        },
{
    let path = path_of(url);
    let query = query_pairs_of(url);
    video_id_in(path.as_str(), &query)
}

/// Decides whether `url` names a playlist or a single video. A `list`
/// parameter decides for a playlist before the path is looked at.
pub fn classify(url: &Url) -> (source: Result<Source, PlayerError>)
    ensures
        match source {
            Ok(s) => classify_spec(url_path(*url), url_query_pairs(*url)) == Ok::<
                SourceView,
                PlayerError,
            >(s@),
            Err(e) => classify_spec(url_path(*url), url_query_pairs(*url)) == Err::<
                SourceView,
                PlayerError,
            >(e),
        },
{
    let path = path_of(url);
    let query = query_pairs_of(url);
    classify_parts(path.as_str(), &query)
}

/// Classifies a source given as text. `None` says that the text is not a
/// URL; what a URL names is decided as `classify` decides it.
pub fn classify_text(text: &str) -> (source: Option<Result<Source, PlayerError>>)
    ensures
        match source {
            Some(Ok(s)) => classify_text_spec(text@) == Some(Ok::<SourceView, PlayerError>(s@)),
            Some(Err(e)) => classify_text_spec(text@) == Some(Err::<SourceView, PlayerError>(e)),
            None => classify_text_spec(text@) is None,
        },
{
    match parse_url(text) {
        Some(url) => Some(classify(&url)),
        None => None,
    }
}

/// Whether `query` has a pair named `key`.
pub open spec fn has_parameter(query: Seq<(Seq<char>, Seq<char>)>, key: Seq<char>) -> bool {
    exists|i: int| 0 <= i < query.len() && (#[trigger] query[i]).0 == key
}

/// `first_value` finds a value exactly where the query has a pair of that
/// name, and the value is that of the first such pair.
pub proof fn lemma_first_value(query: Seq<(Seq<char>, Seq<char>)>, key: Seq<char>)
    ensures
        first_value(query, key) is Some <==> has_parameter(query, key),
        first_value(query, key) is Some ==> exists|i: int|
            {
                &&& 0 <= i < query.len()
                &&& #[trigger] query[i] == (key, first_value(query, key)->0)
                &&& forall|j: int| 0 <= j < i ==> (#[trigger] query[j]).0 != key
            },
    decreases query.len(),
{
    if query.len() > 0 && query.first().0 != key {
        let rest = query.drop_first();
        lemma_first_value(rest, key);
        if has_parameter(query, key) {
            let i = choose|i: int| 0 <= i < query.len() && (#[trigger] query[i]).0 == key;
            assert(rest[i - 1].0 == key);
        }
        if first_value(rest, key) is Some {
            let i = choose|i: int|
                {
                    &&& 0 <= i < rest.len()
                    &&& #[trigger] rest[i] == (key, first_value(rest, key)->0)
                    &&& forall|j: int| 0 <= j < i ==> (#[trigger] rest[j]).0 != key
                };
            assert forall|j: int| 0 <= j < i + 1 implies (#[trigger] query[j]).0 != key by {
                if j > 0 {
                    assert(query[j] == rest[j - 1]);
                }
            }
        }
    }
}

/// A URL that carries a `list` parameter names a playlist, that of the
/// first such parameter, whatever its path.
pub proof fn lemma_list_parameter_decides(path: Seq<char>, query: Seq<(Seq<char>, Seq<char>)>)
    requires
        has_parameter(query, "list"@),
    ensures
        first_value(query, "list"@) is Some,
        classify_spec(path, query) == Ok::<SourceView, PlayerError>(
            SourceView::Playlist(first_value(query, "list"@)->0),
        ),
{
    lemma_first_value(query, "list"@);
}

/// Under `/watch`, and without a `list` parameter, a URL names the video of
/// its first `v` parameter if that has exactly `ID_LENGTH` characters; with
/// a `v` of any other length, or none, it is malformed.
pub proof fn lemma_watch_link(path: Seq<char>, query: Seq<(Seq<char>, Seq<char>)>)
    requires
        "/watch"@.is_prefix_of(path),
        !has_parameter(query, "list"@),
    ensures
        classify_spec(path, query) == (match first_value(query, "v"@) {
            Some(v) => if v.len() == ID_LENGTH {
                Ok::<SourceView, PlayerError>(SourceView::Video(v))
            } else {
                Err::<SourceView, PlayerError>(PlayerError::UrlMalformed)
            },
            None => Err::<SourceView, PlayerError>(PlayerError::UrlMalformed),
        }),
{
    lemma_first_value(query, "list"@);
}

/// A short link, one whose path is not under `/watch` and that has no
/// `list` parameter, names the video whose identifier is the `ID_LENGTH`
/// characters behind the path's leading slash; where fewer characters
/// follow the slash, it is malformed.
pub proof fn lemma_short_link(path: Seq<char>, query: Seq<(Seq<char>, Seq<char>)>)
    requires
        !"/watch"@.is_prefix_of(path),
        !has_parameter(query, "list"@),
    ensures
        classify_spec(path, query) == (if path.len() - 1 >= ID_LENGTH {
            Ok::<SourceView, PlayerError>(SourceView::Video(path.subrange(1, ID_LENGTH + 1)))
        } else {
            Err::<SourceView, PlayerError>(PlayerError::UrlMalformed)
        }),
        path.len() - 1 >= ID_LENGTH ==> path.subrange(1, ID_LENGTH + 1).len() == ID_LENGTH,
{
    lemma_first_value(query, "list"@);
}

} // verus!
