use playback_core::resolve::{
    apply_track_metadata, first_track_from_load, is_url, plan_resolution, resolved_request,
    source_kind, NodeTrack, ResolvePlan, SourceKind, TrackLoad,
};
use playback_core::track::{TrackMeta, TrackRequest};
use playback_core::ytdlp::{
    compose_ytdlp_user_args, cookies_args, extra_args_from_config, is_soundcloud, is_youtube,
    YtDlpEnv, YtDlpSettings,
};

fn s(v: &str) -> String {
    v.to_string()
}

fn node(title: &str, uri: Option<&str>) -> NodeTrack {
    NodeTrack {
        title: s(title),
        author: s("  "),
        length_ms: 1000,
        is_stream: false,
        uri: uri.map(s),
        artwork_url: None,
    }
}

fn no_env() -> YtDlpEnv {
    YtDlpEnv { cookies_from_browser: None, cookies_file: None, proxy: None, extra_args: None }
}

#[test]
fn classifies_hosts() {
    assert!(is_youtube("https://www.youtube.com/watch?v=x"));
    assert!(is_youtube("https://youtu.be/x"));
    assert!(!is_youtube("https://example.com"));
    assert!(is_soundcloud("https://soundcloud.com/a/b"));
    assert!(is_soundcloud("https://snd.sc/x"));
    assert!(!is_soundcloud("https://youtu.be/x"));
    assert_eq!(source_kind("https://soundcloud.com/a"), SourceKind::SoundCloud);
    assert_eq!(source_kind("https://youtu.be/a"), SourceKind::YouTube);
    assert_eq!(source_kind("some song"), SourceKind::Search);
}

#[test]
fn resolution_plan() {
    assert!(is_url("https://example.com/a.mp3"));
    assert!(!is_url("never gonna give you up"));
    assert_eq!(plan_resolution("https://example.com/a.mp3"), ResolvePlan::Bare);
    assert_eq!(plan_resolution("https://youtu.be/abc"), ResolvePlan::FetchUrl);
    assert_eq!(plan_resolution("lofi beats"), ResolvePlan::Search);
}

#[test]
fn resolved_request_prefers_canonical_url() {
    let bare = resolved_request(s("query"), 3, None);
    assert_eq!(bare.url, "query");
    assert!(bare.meta.title.is_none());
    let mut meta = TrackMeta::empty();
    meta.source_url = Some(s("https://youtu.be/xyz"));
    meta.title = Some(s("Song"));
    let r = resolved_request(s("query"), 3, Some(meta));
    assert_eq!(r.url, "https://youtu.be/xyz");
    assert_eq!(r.meta.title.as_deref(), Some("Song"));
    assert_eq!(r.requested_by, 3);
}

#[test]
fn load_answers() {
    let t = first_track_from_load(TrackLoad::Track(node("a", None))).unwrap().unwrap();
    assert_eq!(t.title, "a");
    let t = first_track_from_load(TrackLoad::Search(vec![node("b", None), node("c", None)]));
    assert_eq!(t.unwrap().unwrap().title, "b");
    assert!(first_track_from_load(TrackLoad::Playlist(Vec::new())).unwrap().is_none());
    assert!(first_track_from_load(TrackLoad::Empty).unwrap().is_none());
    let e = first_track_from_load(TrackLoad::Error(s("boom"))).err().unwrap();
    assert_eq!(e, "Lavalink track load failed: boom");
}

#[test]
fn node_metadata_updates_request() {
    let mut r = TrackRequest::new(s("ytsearch:x"), 1);
    r.meta.artist = Some(s("old"));
    let mut n = node("Title", Some("https://youtu.be/q"));
    n.is_stream = true;
    apply_track_metadata(&mut r, &n);
    assert_eq!(r.url, "https://youtu.be/q");
    assert_eq!(r.meta.title.as_deref(), Some("Title"));
    assert_eq!(r.meta.artist.as_deref(), Some("old"));
    assert!(r.meta.duration_ms.is_none());
    assert_eq!(r.meta.source_url.as_deref(), Some("https://youtu.be/q"));

    let mut r2 = TrackRequest::new(s("https://a/b"), 1);
    let mut n2 = node("T", None);
    n2.author = s("Band");
    apply_track_metadata(&mut r2, &n2);
    assert_eq!(r2.url, "https://a/b");
    assert_eq!(r2.meta.artist.as_deref(), Some("Band"));
    assert_eq!(r2.meta.duration_ms, Some(1000));
}

#[test]
fn extra_args_order_and_overrides() {
    let settings = YtDlpSettings {
        cookies_from_browser: Some(s("firefox")),
        cookies_file: Some(s("  ")),
        proxy: Some(s("http://cfg")),
        extra_args: Some(vec![s("--a"), s(" "), s("--b")]),
    };
    let env = YtDlpEnv {
        cookies_from_browser: None,
        cookies_file: None,
        proxy: Some(s("http://env")),
        extra_args: Some(s("  -x   --y ")),
    };
    let args = extra_args_from_config(&env, Some(&settings));
    assert_eq!(
        args,
        vec!["-x", "--y", "--cookies-from-browser", "firefox", "--a", "--b", "--proxy", "http://env"]
    );
    assert!(extra_args_from_config(&no_env(), None).is_empty());
}

#[test]
fn cookie_defaults() {
    assert_eq!(cookies_args(false, None, Some(s("/x/cookies.txt"))), vec!["--cookies", "/x/cookies.txt"]);
    assert!(cookies_args(true, None, Some(s("/x/cookies.txt"))).is_empty());
    let settings = YtDlpSettings {
        cookies_from_browser: None,
        cookies_file: Some(s("c.txt")),
        proxy: None,
        extra_args: None,
    };
    assert!(cookies_args(false, Some(&settings), Some(s("cookies.txt"))).is_empty());
    assert!(cookies_args(false, None, None).is_empty());
}

#[test]
fn composed_user_args() {
    let r = compose_ytdlp_user_args(vec![s("-f"), s("best")], vec![s("--cookies"), s("c")], vec![s("--z")]);
    assert_eq!(r, vec!["-f", "best", "--js-runtimes", "node", "--cookies", "c", "--z"]);
}
