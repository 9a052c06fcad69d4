//! Turning a locator into something playable: which resolver path a locator
//! takes, and how a resolver's answer updates the request.
use vstd::prelude::*;
use crate::track::{clone_text, TrackMeta, TrackRequest};
use crate::text::{blank, contains_str, contains_text, is_blank, occurs_at, starts_with_text};
use crate::ytdlp::{is_soundcloud, is_youtube, soundcloud_locator, youtube_locator};

verus! {

/// Whether `url::Url::parse` accepts `s` as an absolute URL.
pub uninterp spec fn url_parses(s: Seq<char>) -> bool;

/// Relies on `url::Url::parse`: whether it returns `Ok` depends on the text alone.
#[verifier::external_body]
fn url_parse_ok(s: &str) -> (r: bool)
    ensures
        r == url_parses(s@),
{
    url::Url::parse(s).is_ok()
}

/// Whether `s` is an absolute URL.
pub fn is_url(s: &str) -> (r: bool)
    ensures
        r == url_parses(s@),
{
    url_parse_ok(s)
}

/// How metadata for a new request is obtained.
#[derive(Clone, Copy, Debug, PartialEq, Eq, Structural)]
pub enum ResolvePlan {
    /// A URL outside YouTube: the request stays bare.
    Bare,
    /// A YouTube URL: its metadata is fetched.
    FetchUrl,
    /// Free text: a YouTube search supplies the metadata.
    Search,
}

pub open spec fn resolve_plan(raw: Seq<char>) -> ResolvePlan {
    if !url_parses(raw) {
        ResolvePlan::Search
    } else if youtube_locator(raw) {
        ResolvePlan::FetchUrl
    } else {
        ResolvePlan::Bare
    }
}

/// Chooses how the metadata of a request for `raw` is obtained.
pub fn plan_resolution(raw: &str) -> (r: ResolvePlan)
    ensures
        r == resolve_plan(raw@),
{
    if !is_url(raw) {
        ResolvePlan::Search
    } else if is_youtube(raw) {
        ResolvePlan::FetchUrl
    } else {
        ResolvePlan::Bare
    }
}

/// The request made from `raw` once the resolver answered: `None` (failure or
/// timeout) gives a bare request; metadata with a canonical address replaces
/// the locator with it.
pub fn resolved_request(raw: String, requested_by: u64, meta: Option<TrackMeta>) -> (r: TrackRequest)
    ensures
        r.requested_by == requested_by,
        match meta {
            None => r.url@ == raw@ && r.meta.is_empty(),
            Some(m) => r.meta == m && r.url@ == match m.source_url {
                Some(u) => u@,
                None => raw@,
            },
        },
{
    let mut req = TrackRequest::new(raw, requested_by);
    match meta {
        Some(m) => req.apply_metadata(m),
        None => {},
    }
    req
}

/// Where the local engine fetches a request's audio from.
#[derive(Clone, Copy, Debug, PartialEq, Eq, Structural)]
pub enum SourceKind {
    SoundCloud,
    YouTube,
    Search,
}

pub open spec fn source_kind_of(u: Seq<char>) -> SourceKind {
    if soundcloud_locator(u) {
        SourceKind::SoundCloud
    } else if youtube_locator(u) {
        SourceKind::YouTube
    } else {
        SourceKind::Search
    }
}

/// SoundCloud first, then YouTube, else a search.
pub fn source_kind(u: &str) -> (r: SourceKind)
    ensures
        r == source_kind_of(u@),
{
    if is_soundcloud(u) {
        SourceKind::SoundCloud
    } else if is_youtube(u) {
        SourceKind::YouTube
    } else {
        SourceKind::Search
    }
}

/// A track as an audio node describes it.
pub struct NodeTrack {
    pub title: String,
    pub author: String,
    pub length_ms: u64,
    pub is_stream: bool,
    pub uri: Option<String>,
    pub artwork_url: Option<String>,
}

/// The answer of an audio node to a load request.
pub enum TrackLoad {
    Track(NodeTrack),
    Search(Vec<NodeTrack>),
    Playlist(Vec<NodeTrack>),
    Error(String),
    Empty,
}

fn first_of(v: Vec<NodeTrack>) -> (r: Option<NodeTrack>)
    ensures
        v@.len() == 0 ==> r is None,
        v@.len() > 0 ==> r == Some(v@[0]),
{
    let mut v = v;
    if v.len() == 0 {
        None
    } else {
        Some(v.remove(0))
    }
}

/// The track that a load answer offers first; an error answer is an error.
pub fn first_track_from_load(load: TrackLoad) -> (r: Result<Option<NodeTrack>, String>)
    ensures
        match load {
            TrackLoad::Track(t) => r == Ok::<Option<NodeTrack>, String>(Some(t)),
            TrackLoad::Search(v) => r == Ok::<Option<NodeTrack>, String>(
                if v@.len() == 0 {
                    None
                } else {
                    Some(v@[0])
                },
            ),
            TrackLoad::Playlist(v) => r == Ok::<Option<NodeTrack>, String>(
                if v@.len() == 0 {
                    None
                } else {
                    Some(v@[0])
                },
            ),
            TrackLoad::Error(m) => r matches Err(e) && e@ == "Lavalink track load failed: "@ + m@,
            TrackLoad::Empty => r == Ok::<Option<NodeTrack>, String>(None),
        },
{
    match load {
        TrackLoad::Track(t) => Ok(Some(t)),
        TrackLoad::Search(v) => Ok(first_of(v)),
        TrackLoad::Playlist(v) => Ok(first_of(v)),
        TrackLoad::Error(m) => {
            let mut e = String::from_str("Lavalink track load failed: ");
            e.append(m.as_str());
            Err(e)
        },
        TrackLoad::Empty => Ok(None),
    }
}

/// Copies what the node reported into the request: title, author (when not
/// blank), length (none for a stream), thumbnail, and the node's address for
/// the track, which becomes the locator; without one the locator stays.
pub fn apply_track_metadata(req: &mut TrackRequest, track: &NodeTrack)
    ensures
        final(req).requested_by == old(req).requested_by,
        final(req).meta.title == Some(track.title),
        final(req).meta.artist == if blank(track.author@) {
            old(req).meta.artist
        } else {
            Some(track.author)
        },
        final(req).meta.duration_ms == if track.is_stream {
            None
        } else {
            Some(track.length_ms)
        },
        final(req).meta.thumbnail == track.artwork_url,
        final(req).url@ == match track.uri {
            Some(u) => u@,
            None => old(req).url@,
        },
        final(req).meta.source_url matches Some(s) && s@ == final(req).url@,
{
    req.meta.title = Some(track.title.clone());
    if !is_blank(track.author.as_str()) {
        req.meta.artist = Some(track.author.clone());
    }
    req.meta.duration_ms = if track.is_stream {
        None
    } else {
        Some(track.length_ms)
    };
    let src: String = match &track.uri {
        Some(u) => u.clone(),
        None => req.url.clone(),
    };
    req.meta.source_url = Some(src.clone());
    req.meta.thumbnail = clone_text(&track.artwork_url);
    req.url = src;
}

/// The host of `s` as `url::Url::host_str` gives it, when `s` parses.
pub uninterp spec fn url_host_of(s: Seq<char>) -> Option<Seq<char>>;

/// The decoded query pairs of `s` as `url::Url::query_pairs` gives them.
pub uninterp spec fn url_query_pairs_of(s: Seq<char>) -> Seq<(Seq<char>, Seq<char>)>;

/// The first path segment of `s` as `url::Url::path_segments` gives it.
pub uninterp spec fn url_first_segment_of(s: Seq<char>) -> Option<Seq<char>>;

/// Relies on `url::Url::parse` and `Url::host_str`: the host depends on the
/// text alone; text that does not parse has none.
#[verifier::external_body]
fn url_host(s: &str) -> (r: Option<String>)
    ensures
        match r {
            Some(h) => url_host_of(s@) == Some(h@),
            None => url_host_of(s@) is None,
        },
        !url_parses(s@) ==> r is None,
{
    url::Url::parse(s).ok().and_then(|u| u.host_str().map(|h| h.to_string()))
}

/// Texts of a sequence of string pairs.
pub open spec fn pair_views(v: Seq<(String, String)>) -> Seq<(Seq<char>, Seq<char>)> {
    v.map_values(|p: (String, String)| (p.0@, p.1@))
}

/// Relies on `url::Url::parse` and `Url::query_pairs`: the decoded pairs, in
/// order, depend on the text alone; text that does not parse has none.
#[verifier::external_body]
fn url_query_pairs(s: &str) -> (r: Vec<(String, String)>)
    ensures
        pair_views(r@) == url_query_pairs_of(s@),
        !url_parses(s@) ==> r@.len() == 0,
{
    match url::Url::parse(s) {
        Ok(u) => u.query_pairs().map(|(k, v)| (k.into_owned(), v.into_owned())).collect(),
        Err(_) => Vec::new(),
    }
}

/// Relies on `url::Url::parse` and `Url::path_segments`: the first segment
/// depends on the text alone; text that does not parse has none.
#[verifier::external_body]
fn url_first_segment(s: &str) -> (r: Option<String>)
    ensures
        match r {
            Some(p) => url_first_segment_of(s@) == Some(p@),
            None => url_first_segment_of(s@) is None,
        },
        !url_parses(s@) ==> r is None,
{
    url::Url::parse(s).ok().and_then(|u| u.path_segments().and_then(|mut p| p.next().map(|x| x.to_string())))
}

/// The host of `s`, empty when it has none.
pub open spec fn host_text(s: Seq<char>) -> Seq<char> {
    match url_host_of(s) {
        Some(h) => h,
        None => Seq::empty(),
    }
}

fn host_or_empty(s: &str) -> (r: String)
    ensures
        r@ == host_text(s@),
{
    match url_host(s) {
        Some(h) => h,
        None => String::new(),
    }
}

/// Some pair names a non-blank `list`.
pub open spec fn has_list(pairs: Seq<(Seq<char>, Seq<char>)>) -> bool {
    exists|i: int| 0 <= i < pairs.len() && pairs[i].0 == "list"@ && !blank(#[trigger] pairs[i].1)
}

/// A YouTube URL that names a playlist.
pub open spec fn playlist_url(s: Seq<char>) -> bool {
    let h = host_text(s);
    &&& url_parses(s)
    &&& (contains_text(h, "youtube.com"@) || contains_text(h, "m.youtube.com"@) || contains_text(
        h,
        "youtu.be"@,
    ))
    &&& has_list(url_query_pairs_of(s))
}

/// Whether `raw` is a YouTube URL with a non-blank `list` query parameter.
pub fn is_youtube_playlist_url(raw: &str) -> (r: bool)
    ensures
        r == playlist_url(raw@),
{
    if !is_url(raw) {
        return false;
    }
    let host = host_or_empty(raw);
    let h = host.as_str();
    if !(contains_str(h, "youtube.com") || contains_str(h, "m.youtube.com") || contains_str(h, "youtu.be")) {
        return false;
    }
    let pairs = url_query_pairs(raw);
    let ghost pv = url_query_pairs_of(raw@);
    let n = pairs.len();
    let mut i: usize = 0;
    while i < n
        invariant
            n == pairs@.len(),
            pair_views(pairs@) == pv,
            pv == url_query_pairs_of(raw@),
            url_parses(raw@),
            contains_text(host_text(raw@), "youtube.com"@) || contains_text(
                host_text(raw@),
                "m.youtube.com"@,
            ) || contains_text(host_text(raw@), "youtu.be"@),
            i <= n,
            forall|t: int| 0 <= t < i ==> !(pv[t].0 == "list"@ && !blank(#[trigger] pv[t].1)),
        decreases n - i,
    {
        assert(pv[i as int] == (pairs@[i as int].0@, pairs@[i as int].1@));
        let k = &pairs[i].0;
        let v = &pairs[i].1;
        let key = String::from_str("list");
        if *k == key && !is_blank(v.as_str()) {
            assert(pv[i as int].0 == "list"@ && !blank(pv[i as int].1));
            return true;
        }
        i = i + 1;
    }
    false
}

/// The value of the first pair whose key is `key`.
pub open spec fn first_value(pairs: Seq<(Seq<char>, Seq<char>)>, key: Seq<char>) -> Option<Seq<char>>
    decreases pairs.len(),
{
    if pairs.len() == 0 {
        None
    } else if pairs[0].0 == key {
        Some(pairs[0].1)
    } else {
        first_value(pairs.drop_first(), key)
    }
}

/// Address of the thumbnail image of the YouTube video `id`.
pub open spec fn thumbnail_for(id: Seq<char>) -> Seq<char> {
    "https://i.ytimg.com/vi/"@ + id + "/hqdefault.jpg"@
}

/// The thumbnail derived from a YouTube URL: from its `v` parameter on a
/// youtube.com host, else from its first path segment on youtu.be or
/// m.youtube.com.
pub open spec fn thumbnail_of(s: Seq<char>) -> Option<Seq<char>> {
    let h = host_text(s);
    let v = first_value(url_query_pairs_of(s), "v"@);
    if !url_parses(s) {
        None
    } else if contains_text(h, "youtube.com"@) && v is Some {
        Some(thumbnail_for(v->0))
    } else if (contains_text(h, "youtu.be"@) || contains_text(h, "m.youtube.com"@))
        && url_first_segment_of(s) is Some && url_first_segment_of(s)->0.len() > 0 {
        Some(thumbnail_for(url_first_segment_of(s)->0))
    } else {
        None
    }
}

fn find_value(pairs: &Vec<(String, String)>, key: &str) -> (r: Option<String>)
    ensures
        match r {
            Some(v) => first_value(pair_views(pairs@), key@) == Some(v@),
            None => first_value(pair_views(pairs@), key@) is None,
        },
{
    let n = pairs.len();
    let mut i: usize = 0;
    let wanted = String::from_str(key);
    assert(pair_views(pairs@).subrange(0, n as int) =~= pair_views(pairs@));
    while i < n
        invariant
            n == pairs@.len(),
            i <= n,
            wanted@ == key@,
            first_value(pair_views(pairs@), key@) == first_value(
                pair_views(pairs@).subrange(i as int, n as int),
                key@,
            ),
        decreases n - i,
    {
        let ghost rest = pair_views(pairs@).subrange(i as int, n as int);
        assert(rest[0] == (pairs@[i as int].0@, pairs@[i as int].1@));
        if pairs[i].0 == wanted {
            return Some(pairs[i].1.clone());
        }
        assert(rest.drop_first() =~= pair_views(pairs@).subrange(i + 1, n as int));
        i = i + 1;
    }
    None
}

fn thumbnail_text(id: &str) -> (r: String)
    ensures
        r@ == thumbnail_for(id@),
{
    let mut t = String::from_str("https://i.ytimg.com/vi/");
    t.append(id);
    t.append("/hqdefault.jpg");
    t
}

/// Derives the thumbnail address of a YouTube URL, if it names a video.
pub fn youtube_thumbnail(url: &str) -> (r: Option<String>)
    ensures
        match r {
            Some(t) => thumbnail_of(url@) == Some(t@),
            None => thumbnail_of(url@) is None,
        },
{
    if !is_url(url) {
        return None;
    }
    let host = host_or_empty(url);
    let h = host.as_str();
    if contains_str(h, "youtube.com") {
        let pairs = url_query_pairs(url);
        match find_value(&pairs, "v") {
            Some(id) => {
                return Some(thumbnail_text(id.as_str()));
            },
            None => {},
        }
    }
    if contains_str(h, "youtu.be") || contains_str(h, "m.youtube.com") {
        match url_first_segment(url) {
            Some(seg) => {
                if seg.unicode_len() > 0 {
                    return Some(thumbnail_text(seg.as_str()));
                }
            },
            None => {},
        }
    }
    None
}

/// One entry of a flat playlist listing, as the extractor reports it.
pub struct PlaylistEntry {
    pub webpage_url: Option<String>,
    pub url: Option<String>,
    pub id: Option<String>,
}

/// Watch page of the YouTube video `id`.
pub open spec fn watch_url(id: Seq<char>) -> Seq<char> {
    "https://www.youtube.com/watch?v="@ + id
}

/// The address an entry stands for: its page address; else its `url`, taken
/// as a video id unless it is an http(s) address; else its id.
pub open spec fn entry_url_of(e: PlaylistEntry) -> Option<Seq<char>> {
    match e.webpage_url {
        Some(w) => Some(w@),
        None => match e.url {
            Some(u) => if occurs_at(u@, "http://"@, 0) || occurs_at(u@, "https://"@, 0) {
                Some(u@)
            } else {
                Some(watch_url(u@))
            },
            None => match e.id {
                Some(i) => Some(watch_url(i@)),
                None => None,
            },
        },
    }
}

fn watch_text(id: &str) -> (r: String)
    ensures
        r@ == watch_url(id@),
{
    let mut t = String::from_str("https://www.youtube.com/watch?v=");
    t.append(id);
    t
}

pub fn entry_url(e: &PlaylistEntry) -> (r: Option<String>)
    ensures
        match r {
            Some(u) => entry_url_of(*e) == Some(u@),
            None => entry_url_of(*e) is None,
        },
{
    match &e.webpage_url {
        Some(w) => Some(w.clone()),
        None => match &e.url {
            Some(u) => if starts_with_text(u.as_str(), "http://") || starts_with_text(
                u.as_str(),
                "https://",
            ) {
                Some(u.clone())
            } else {
                Some(watch_text(u.as_str()))
            },
            None => match &e.id {
                Some(i) => Some(watch_text(i.as_str())),
                None => None,
            },
        },
    }
}

/// Addresses of the entries in order, skipping entries without one, until
/// `limit` of them (at least one) are collected.
pub open spec fn entry_urls(entries: Seq<PlaylistEntry>, limit: nat) -> Seq<Seq<char>>
    decreases entries.len(),
{
    if entries.len() == 0 {
        Seq::empty()
    } else {
        let before = entry_urls(entries.drop_last(), limit);
        if before.len() >= limit {
            before
        } else {
            match entry_url_of(entries.last()) {
                Some(u) => before.push(u),
                None => before,
            }
        }
    }
}

/// The playlist had no usable entry.
#[derive(Clone, Copy, Debug, PartialEq, Eq, Structural)]
pub struct EmptyPlaylist;

/// The addresses of a playlist's entries, at most `limit` (at least one);
/// an error when there is none.
pub fn playlist_urls(entries: &Vec<PlaylistEntry>, limit: usize) -> (r: Result<Vec<String>, EmptyPlaylist>)
    ensures
        ({
            let want = entry_urls(entries@, if limit == 0 { 1 } else { limit as nat });
            match r {
                Ok(v) => want.len() > 0 && crate::ytdlp::views(v@) == want,
                Err(_) => want.len() == 0,
            }
        }),
{
    let cap: usize = if limit == 0 { 1 } else { limit };
    let n = entries.len();
    let mut out: Vec<String> = Vec::new();
    let mut i: usize = 0;
    while i < n
        invariant
            n == entries@.len(),
            i <= n,
            crate::ytdlp::views(out@) == entry_urls(entries@.subrange(0, i as int), cap as nat),
        decreases n - i,
    {
        let ghost pre = entries@.subrange(0, i as int);
        assert(entries@.subrange(0, i + 1).drop_last() =~= pre);
        assert(entries@.subrange(0, i + 1).last() == entries@[i as int]);
        if out.len() < cap {
            match entry_url(&entries[i]) {
                Some(u) => {
                    let ghost o0 = out@;
                    out.push(u);
                    assert(crate::ytdlp::views(out@) =~= crate::ytdlp::views(o0).push(u@));
                },
                None => {},
            }
        }
        i = i + 1;
    }
    assert(entries@.subrange(0, n as int) =~= entries@);
    if out.len() == 0 {
        Err(EmptyPlaylist)
    } else {
        Ok(out)
    }
}

} // verus!
