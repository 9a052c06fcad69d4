//! A single playback request: what was asked for, by whom, and what is known
//! about it once it has been resolved.
use vstd::prelude::*;

verus! {

/// Metadata that a resolver may attach to a request. Every field is optional:
/// a bare request carries none of it.
pub struct TrackMeta {
    pub title: Option<String>,
    pub artist: Option<String>,
    /// Length of the track in milliseconds; absent for live streams.
    pub duration_ms: Option<u64>,
    /// Canonical address of the media, as reported by the resolver.
    pub source_url: Option<String>,
    pub thumbnail: Option<String>,
}

/// One request to play something in a guild.
pub struct TrackRequest {
    /// A URL or a free-text search phrase.
    pub url: String,
    /// Identity of the member who asked for it.
    pub requested_by: u64,
    pub meta: TrackMeta,
}

/// A copy of an optional text.
pub fn clone_text(o: &Option<String>) -> (r: Option<String>)
    ensures
        r == *o,
{
    match o {
        Some(s) => Some(s.clone()),
        None => None,
    }
}

impl TrackMeta {
    /// Metadata with every field absent.
    pub fn empty() -> (r: TrackMeta)
        ensures
            r.is_empty(),
    {
        TrackMeta { title: None, artist: None, duration_ms: None, source_url: None, thumbnail: None }
    }

    pub open spec fn is_empty(&self) -> bool {
        &&& self.title is None
        &&& self.artist is None
        &&& self.duration_ms is None
        &&& self.source_url is None
        &&& self.thumbnail is None
    }
}

impl Clone for TrackMeta {
    fn clone(&self) -> (r: Self)
        ensures
            r == *self,
    {
        TrackMeta {
            title: clone_text(&self.title),
            artist: clone_text(&self.artist),
            duration_ms: self.duration_ms,
            source_url: clone_text(&self.source_url),
            thumbnail: clone_text(&self.thumbnail),
        }
    }
}

impl Clone for TrackRequest {
    fn clone(&self) -> (r: Self)
        ensures
            r == *self,
    {
        TrackRequest { url: self.url.clone(), requested_by: self.requested_by, meta: self.meta.clone() }
    }
}

/// Two requests are the same request when locator and requester agree;
/// metadata is not compared.
pub open spec fn same_request(a: TrackRequest, b: TrackRequest) -> bool {
    a.url@ == b.url@ && a.requested_by == b.requested_by
}

impl TrackRequest {
    /// A bare request: the locator as given, no metadata.
    pub fn new(url: String, requested_by: u64) -> (r: TrackRequest)
        ensures
            r.url == url,
            r.requested_by == requested_by,
            r.meta.is_empty(),
    {
        TrackRequest { url, requested_by, meta: TrackMeta::empty() }
    }

    /// Whether `self` and `other` name the same locator for the same requester.
    pub fn is_same_request(&self, other: &TrackRequest) -> (r: bool)
        ensures
            r == same_request(*self, *other),
    {
        self.requested_by == other.requested_by && self.url == other.url
    }

    /// Attaches resolved metadata. When the resolver reported a canonical
    /// address it replaces the locator, so that a replay does not search again.
    pub fn apply_metadata(&mut self, meta: TrackMeta)
        ensures
            final(self).requested_by == old(self).requested_by,
            final(self).meta == meta,
            final(self).url@ == match meta.source_url {
                Some(u) => u@,
                None => old(self).url@,
            },
    {
        let src = clone_text(&meta.source_url);
        if let Some(u) = src {
            self.url = u;
        }
        self.meta = meta;
    }
}

} // verus!
