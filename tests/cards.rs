use playback_core::display::{length_field, requester_field, track_field, track_thumbnail};
use playback_core::resolve::{entry_url, playlist_urls, EmptyPlaylist, PlaylistEntry};
use playback_core::text::starts_with_text;
use playback_core::track::TrackRequest;

fn s(v: &str) -> String {
    v.to_string()
}

fn entry(w: Option<&str>, u: Option<&str>, i: Option<&str>) -> PlaylistEntry {
    PlaylistEntry { webpage_url: w.map(s), url: u.map(s), id: i.map(s) }
}

#[test]
fn prefix_check() {
    assert!(starts_with_text("https://x", "https://"));
    assert!(!starts_with_text("http", "https://"));
    assert!(starts_with_text("abc", ""));
}

#[test]
fn entry_addresses() {
    assert_eq!(entry_url(&entry(Some("https://w"), Some("u"), Some("i"))).as_deref(), Some("https://w"));
    assert_eq!(entry_url(&entry(None, Some("http://v/1"), None)).as_deref(), Some("http://v/1"));
    assert_eq!(
        entry_url(&entry(None, Some("abc"), Some("zzz"))).as_deref(),
        Some("https://www.youtube.com/watch?v=abc")
    );
    assert_eq!(
        entry_url(&entry(None, None, Some("id9"))).as_deref(),
        Some("https://www.youtube.com/watch?v=id9")
    );
    assert_eq!(entry_url(&entry(None, None, None)), None);
}

#[test]
fn playlist_limit_and_empty() {
    let entries = vec![
        entry(None, None, None),
        entry(None, None, Some("a")),
        entry(None, None, Some("b")),
        entry(None, None, Some("c")),
    ];
    assert_eq!(
        playlist_urls(&entries, 2).unwrap(),
        vec!["https://www.youtube.com/watch?v=a", "https://www.youtube.com/watch?v=b"]
    );
    assert_eq!(playlist_urls(&entries, 0).unwrap().len(), 1);
    assert_eq!(playlist_urls(&vec![entry(None, None, None)], 5), Err(EmptyPlaylist));
}

#[test]
fn now_playing_fields() {
    let mut t = TrackRequest::new(s("https://youtu.be/abc"), 42);
    assert_eq!(track_field(&t), "[https://youtu.be/abc](https://youtu.be/abc)");
    assert_eq!(length_field(&t), "--:--");
    assert_eq!(requester_field(&t), "<@42>");
    assert_eq!(track_thumbnail(&t).as_deref(), Some("https://i.ytimg.com/vi/abc/hqdefault.jpg"));
    t.meta.title = Some(s("Song"));
    t.meta.duration_ms = Some(125_000);
    t.meta.thumbnail = Some(s("https://img/t.jpg"));
    assert_eq!(track_field(&t), "[Song](https://youtu.be/abc)");
    assert_eq!(length_field(&t), "02:05");
    assert_eq!(track_thumbnail(&t).as_deref(), Some("https://img/t.jpg"));
}

#[test]
fn queue_listing_lines() {
    let mut items: Vec<TrackRequest> = (0..13).map(|i| TrackRequest::new(format!("u{i}"), 1)).collect();
    items[1].meta.title = Some(s("Second"));
    items[1].meta.duration_ms = Some(61_000);
    assert_eq!(playback_core::display::entry_line(&items[1]), "[Second](u1) • ⏱️ 01:01");
    let text = playback_core::display::up_next(&items);
    assert!(text.starts_with("1. [Second](u1) • ⏱️ 01:01\n2. [u2](u2) • ⏱️ --:--\n"));
    assert!(text.ends_with("10. [u10](u10) • ⏱️ --:--\n"));
    assert_eq!(text.lines().count(), 10);
    assert_eq!(playback_core::display::up_next(&items[..1].to_vec()), "");
}
