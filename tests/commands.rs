use playback_core::coordinator::{play_action, GuildPlayback, PlayAction, PlayState};
use playback_core::display::{control_enabled, parse_control, queue_note, ControlButton};
use playback_core::resolve::{is_youtube_playlist_url, youtube_thumbnail};
use playback_core::track::TrackRequest;

fn req(name: &str) -> TrackRequest {
    TrackRequest::new(name.to_string(), 2)
}

#[test]
fn play_decisions() {
    assert_eq!(play_action(false, false, PlayState::Paused), PlayAction::Resume);
    assert_eq!(play_action(false, false, PlayState::Playing), PlayAction::AlreadyPlaying);
    assert_eq!(play_action(false, false, PlayState::Stopped), PlayAction::PlayNext);
    assert_eq!(play_action(true, false, PlayState::Playing), PlayAction::Enqueue);
    assert_eq!(play_action(true, false, PlayState::Paused), PlayAction::StartNow);
    assert_eq!(play_action(true, true, PlayState::Playing), PlayAction::EnqueuePlaylist);
    assert_eq!(play_action(true, true, PlayState::Stopped), PlayAction::StartPlaylist);
}

#[test]
fn enqueue_positions() {
    let mut g = GuildPlayback::new();
    assert_eq!(g.enqueue(req("a")), 1);
    assert_eq!(g.enqueue(req("b")), 2);
    assert_eq!(g.enqueue_all(vec![req("c"), req("d"), req("e")]), Some((3, 5)));
    assert_eq!(g.enqueue_all(Vec::new()), None);
    let order: Vec<String> = g.queue.to_vec().into_iter().map(|t| t.url).collect();
    assert_eq!(order, vec!["a", "b", "c", "d", "e"]);
}

#[test]
fn playlist_urls() {
    assert!(is_youtube_playlist_url("https://www.youtube.com/playlist?list=PL123"));
    assert!(is_youtube_playlist_url("https://youtu.be/abc?list=PLx"));
    assert!(!is_youtube_playlist_url("https://www.youtube.com/watch?v=abc"));
    assert!(!is_youtube_playlist_url("https://www.youtube.com/watch?v=abc&list=%20"));
    assert!(!is_youtube_playlist_url("https://example.com/?list=PL1"));
    assert!(!is_youtube_playlist_url("not a url list=PL1 youtube.com"));
}

#[test]
fn thumbnails() {
    assert_eq!(
        youtube_thumbnail("https://www.youtube.com/watch?v=dQw4w9WgXcQ").as_deref(),
        Some("https://i.ytimg.com/vi/dQw4w9WgXcQ/hqdefault.jpg")
    );
    assert_eq!(
        youtube_thumbnail("https://youtu.be/abc123").as_deref(),
        Some("https://i.ytimg.com/vi/abc123/hqdefault.jpg")
    );
    assert_eq!(
        youtube_thumbnail("https://m.youtube.com/xyz").as_deref(),
        Some("https://i.ytimg.com/vi/xyz/hqdefault.jpg")
    );
    assert_eq!(youtube_thumbnail("https://youtu.be/"), None);
    assert_eq!(youtube_thumbnail("https://example.com/watch?v=1"), None);
    assert_eq!(youtube_thumbnail("plain words"), None);
}

#[test]
fn queue_notes() {
    assert_eq!(queue_note(0, 4), "キュー残り 4 件");
    assert_eq!(queue_note(2, 10), "再生失敗 2 件をスキップ / キュー残り 10 件");
}

#[test]
fn control_buttons() {
    assert_eq!(parse_control("music_pause"), Some(ControlButton::Pause));
    assert_eq!(parse_control("music_resume"), Some(ControlButton::Resume));
    assert_eq!(parse_control("music_skip"), Some(ControlButton::Skip));
    assert_eq!(parse_control("music_stop"), Some(ControlButton::Stop));
    assert_eq!(parse_control("other"), None);
    assert!(control_enabled(ControlButton::Pause, PlayState::Playing));
    assert!(!control_enabled(ControlButton::Pause, PlayState::Paused));
    assert!(control_enabled(ControlButton::Resume, PlayState::Paused));
    assert!(!control_enabled(ControlButton::Resume, PlayState::Stopped));
    assert!(control_enabled(ControlButton::Skip, PlayState::Stopped));
}
