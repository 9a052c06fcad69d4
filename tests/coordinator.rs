use playback_core::coordinator::{
    CompletionDecision, GuildPlayback, NowPlayingPointer, PlayNextResult, PlayNextRun, PlayNextStep,
    PlayState, PlaybackControlResult, SkipPlan,
};
use playback_core::guard::{ManualTransitionGuard, TransitionFlag};
use playback_core::history::{History, HISTORY_MAX};
use playback_core::repeat::RepeatMode;
use playback_core::track::TrackRequest;

fn req(name: &str) -> TrackRequest {
    TrackRequest::new(name.to_string(), 1)
}

fn queued(g: &GuildPlayback) -> Vec<String> {
    g.queue.to_vec().into_iter().map(|t| t.url).collect()
}

fn history(g: &GuildPlayback) -> Vec<String> {
    g.history.to_vec().into_iter().map(|t| t.url).collect()
}

/// Drives a run; `outcomes[i]` decides whether the i-th started request works.
fn run_play_next(g: &mut GuildPlayback, max_attempts: usize, outcomes: &[bool]) -> PlayNextResult {
    let mut run = PlayNextRun::new(max_attempts);
    let mut i = 0usize;
    let mut session = 100u64;
    loop {
        match g.next_attempt(&mut run, 0) {
            PlayNextStep::Done(r) => return r,
            PlayNextStep::Start(t) => {
                let ok = outcomes.get(i).copied().unwrap_or(true);
                i += 1;
                session += 1;
                if ok {
                    return g.attempt_started(run, session, t);
                }
                run.attempt_failed(format!("cannot play {}", t.url));
            }
        }
    }
}

#[test]
fn guard_acquire_release_twice_leaves_flag_clear() {
    let mut flag = TransitionFlag::new();
    for _ in 0..2 {
        let g = ManualTransitionGuard::acquire(&mut flag);
        assert!(flag.is_held());
        g.release(&mut flag);
        assert!(!flag.is_held());
    }
    let first = ManualTransitionGuard::acquire(&mut flag);
    let second = ManualTransitionGuard::acquire(&mut flag);
    assert!(flag.is_held());
    second.release(&mut flag);
    first.release(&mut flag);
    assert!(!flag.is_held());
}

#[test]
fn repeat_track_requeues_finished_to_front() {
    let mut g = GuildPlayback::new();
    g.queue.set_repeat_mode(RepeatMode::Track);
    g.queue.push_back(req("T2"));
    g.commit_start(11, req("T1"));
    assert_eq!(history(&g), vec!["T1"]);
    assert_eq!(g.handle_completion(11), CompletionDecision::Advance);
    assert!(g.playing.is_none());
    assert_eq!(queued(&g), vec!["T1", "T2"]);
    assert_eq!(g.queue.pop_next(0).unwrap().url, "T1");
}

#[test]
fn skip_two_drops_one_and_starts_next() {
    let mut g = GuildPlayback::new();
    g.commit_start(5, req("T0"));
    for n in ["T1", "T2", "T3"] {
        g.queue.push_back(req(n));
    }
    let plan = g.skip(2);
    let guard = match plan {
        SkipPlan::Forward { stop, dropped, guard } => {
            assert_eq!(stop, Some(5));
            assert_eq!(dropped, 1);
            guard
        }
        _ => panic!("expected a forward skip"),
    };
    assert!(g.flag.is_held());
    assert!(g.playing.is_none());
    let r = run_play_next(&mut g, 3, &[true]);
    g.finish_transition(guard);
    assert!(!g.flag.is_held());
    assert_eq!(r.started.unwrap().url, "T2");
    assert_eq!(r.skipped, 0);
    assert_eq!(r.remaining, 1);
    assert_eq!(queued(&g), vec!["T3"]);
}

#[test]
fn skip_forward_past_end_empties_queue() {
    let mut g = GuildPlayback::new();
    g.queue.push_back(req("a"));
    match g.skip(10) {
        SkipPlan::Forward { stop, dropped, guard } => {
            assert_eq!(stop, None);
            assert_eq!(dropped, 1);
            g.finish_transition(guard);
        }
        _ => panic!("expected a forward skip"),
    }
    let r = run_play_next(&mut g, 3, &[]);
    assert!(r.started.is_none());
    assert_eq!(r.remaining, 0);
}

#[test]
fn rewind_with_two_history_entries_and_unrecorded_current() {
    // History holds T(-2), T(-1); T0 plays but was never recorded.
    let mut g = GuildPlayback::new();
    g.commit_start(1, req("T-2"));
    g.commit_start(2, req("T-1"));
    g.playing = None;
    g.commit_start(3, req("T0"));
    // commit_start recorded T0 as well; drop it to match the given history.
    g.history.pop_newest();
    assert_eq!(history(&g), vec!["T-2", "T-1"]);
    match g.skip(-1) {
        SkipPlan::Rewind { stop, target, guard } => {
            assert_eq!(stop, Some(3));
            assert_eq!(target.url, "T-2");
            g.commit_start(4, target);
            g.finish_transition(guard);
        }
        _ => panic!("expected a rewind"),
    }
    assert_eq!(queued(&g), vec!["T-1", "T0"]);
    assert_eq!(g.playing.as_ref().unwrap().request.url, "T-2");
    assert!(!g.flag.is_held());
}

#[test]
fn rewind_one_replays_previous_and_requeues_current() {
    let mut g = GuildPlayback::new();
    g.commit_start(1, req("T-2"));
    g.commit_start(2, req("T-1"));
    g.commit_start(3, req("T0"));
    g.queue.push_back(req("T1"));
    match g.skip(-1) {
        SkipPlan::Rewind { stop, target, guard } => {
            assert_eq!(stop, Some(3));
            assert_eq!(target.url, "T-1");
            g.commit_start(4, target);
            g.finish_transition(guard);
        }
        _ => panic!("expected a rewind"),
    }
    assert_eq!(queued(&g), vec!["T0", "T1"]);
    assert_eq!(history(&g), vec!["T-2", "T-1"]);
}

#[test]
fn rewind_without_enough_history_is_refused() {
    let mut g = GuildPlayback::new();
    g.commit_start(1, req("T0"));
    match g.skip(-1) {
        SkipPlan::InsufficientHistory { stop } => assert_eq!(stop, Some(1)),
        _ => panic!("expected a refusal"),
    }
    assert!(!g.flag.is_held());
    assert!(g.playing.is_none());
    assert_eq!(history(&g), vec!["T0"]);
}

#[test]
fn skip_zero_is_rejected() {
    let mut g = GuildPlayback::new();
    g.commit_start(1, req("T0"));
    assert!(matches!(g.skip(0), SkipPlan::Rejected));
    assert_eq!(g.playing_session(), Some(1));
    assert!(!g.flag.is_held());
}

#[test]
fn bounded_retry_skips_two_failures() {
    let mut g = GuildPlayback::new();
    for n in ["bad1", "bad2", "good", "rest1", "rest2"] {
        g.queue.push_back(req(n));
    }
    let r = run_play_next(&mut g, 3, &[false, false, true]);
    assert_eq!(r.skipped, 2);
    assert_eq!(r.started.unwrap().url, "good");
    assert_eq!(r.remaining, 2);
    assert_eq!(r.last_error.unwrap(), "cannot play bad2");
    assert_eq!(g.playing_session(), Some(103));
}

#[test]
fn retry_gives_up_after_max_attempts() {
    let mut g = GuildPlayback::new();
    for n in ["b1", "b2", "b3", "b4"] {
        g.queue.push_back(req(n));
    }
    let r = run_play_next(&mut g, 3, &[false, false, false, true]);
    assert!(r.started.is_none());
    assert_eq!(r.skipped, 3);
    assert_eq!(r.remaining, 1);
    assert!(g.playing.is_none());
}

#[test]
fn zero_attempts_still_tries_once() {
    let mut g = GuildPlayback::new();
    g.queue.push_back(req("only"));
    let r = run_play_next(&mut g, 0, &[true]);
    assert_eq!(r.started.unwrap().url, "only");
}

#[test]
fn stale_completion_is_ignored() {
    let mut g = GuildPlayback::new();
    g.queue.push_back(req("T2"));
    g.commit_start(1, req("T1"));
    g.playing = None;
    g.commit_start(2, req("T1b"));
    assert_eq!(g.handle_completion(1), CompletionDecision::Ignore);
    assert_eq!(g.playing_session(), Some(2));
    assert_eq!(queued(&g), vec!["T2"]);
}

#[test]
fn completion_during_manual_transition_is_ignored() {
    let mut g = GuildPlayback::new();
    g.commit_start(1, req("T1"));
    let guard = ManualTransitionGuard::acquire(&mut g.flag);
    assert_eq!(g.handle_completion(1), CompletionDecision::Ignore);
    assert_eq!(g.playing_session(), Some(1));
    g.finish_transition(guard);
    assert_eq!(g.handle_completion(1), CompletionDecision::Advance);
}

#[test]
fn pause_and_resume_outcomes() {
    let mut g = GuildPlayback::new();
    assert!(matches!(g.pause_outcome(PlayState::Playing), PlaybackControlResult::Missing));
    g.commit_start(1, req("T1"));
    match g.pause_outcome(PlayState::Playing) {
        PlaybackControlResult::Changed(t) => assert_eq!(t.url, "T1"),
        _ => panic!("expected a change"),
    }
    assert!(matches!(g.pause_outcome(PlayState::Paused), PlaybackControlResult::Unchanged));
    assert!(matches!(g.pause_outcome(PlayState::Stopped), PlaybackControlResult::Missing));
    assert!(matches!(g.resume_outcome(PlayState::Playing), PlaybackControlResult::Unchanged));
    match g.resume_outcome(PlayState::Paused) {
        PlaybackControlResult::Changed(t) => assert_eq!(t.url, "T1"),
        _ => panic!("expected a change"),
    }
}

#[test]
fn stop_returns_to_idle() {
    let mut g = GuildPlayback::new();
    g.queue.set_shuffle(true);
    g.queue.push_back(req("a"));
    g.commit_start(9, req("T"));
    g.set_now_playing(NowPlayingPointer { channel_id: 1, message_id: 2 });
    assert_eq!(g.stop(), Some(9));
    assert!(g.playing.is_none());
    assert!(g.queue.is_empty());
    assert!(!g.queue.config.shuffle);
    assert_eq!(g.history.len(), 0);
    assert!(g.now_playing.is_none());
}

#[test]
fn history_keeps_the_newest_fifty() {
    let mut h = History::new();
    for i in 0..(HISTORY_MAX + 5) {
        h.record(req(&format!("t{i}")));
    }
    assert_eq!(h.len(), HISTORY_MAX);
    let v = h.to_vec();
    assert_eq!(v[0].url, "t5");
    assert_eq!(v[HISTORY_MAX - 1].url, "t54");
    assert_eq!(h.pop_newest().unwrap().url, "t54");
}
