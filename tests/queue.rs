use playback_core::queue::MusicQueue;
use playback_core::repeat::RepeatMode;
use playback_core::track::TrackRequest;

fn req(name: &str) -> TrackRequest {
    TrackRequest::new(name.to_string(), 7)
}

fn urls(items: &[TrackRequest]) -> Vec<String> {
    items.iter().map(|t| t.url.clone()).collect()
}

#[test]
fn fifo_pops_in_order_then_none() {
    let mut q = MusicQueue::new();
    q.push_back(req("T1"));
    q.push_back(req("T2"));
    q.push_back(req("T3"));
    assert_eq!(q.pop_next(0).unwrap().url, "T1");
    assert_eq!(q.pop_next(5).unwrap().url, "T2");
    assert_eq!(q.pop_next(9).unwrap().url, "T3");
    assert!(q.pop_next(0).is_none());
}

#[test]
fn front_push_is_served_before_older_back_pushes() {
    let mut q = MusicQueue::new();
    q.push_back(req("a"));
    q.push_back(req("b"));
    q.push_front(req("urgent"));
    q.push_back(req("c"));
    let mut out = Vec::new();
    while let Some(t) = q.pop_next(3) {
        out.push(t.url);
    }
    assert_eq!(out, vec!["urgent", "a", "b", "c"]);
}

#[test]
fn shuffle_pops_every_item_exactly_once() {
    let mut q = MusicQueue::new();
    q.set_shuffle(true);
    for name in ["a", "b", "c", "d", "e"] {
        q.push_back(req(name));
    }
    let draws = [7u64, 3, 11, 0, 42];
    let mut out = Vec::new();
    for d in draws {
        out.push(q.pop_next(d).unwrap().url);
    }
    assert!(q.pop_next(1).is_none());
    // 7 % 5 = 2 -> c; then [a,b,d,e], 3 -> e; [a,b,d], 11 % 3 = 2 -> d; [a,b], 0 -> a; [b] -> b
    assert_eq!(out, vec!["c", "e", "d", "a", "b"]);
    let mut sorted = out.clone();
    sorted.sort();
    assert_eq!(sorted, vec!["a", "b", "c", "d", "e"]);
}

#[test]
fn push_then_pop_keeps_every_item() {
    let mut q = MusicQueue::new();
    q.set_shuffle(true);
    q.push_back(req("a"));
    q.push_back(req("b"));
    q.push_front(req("x"));
    let got = q.pop_next(1).unwrap();
    let mut all = urls(&q.to_vec());
    all.push(got.url);
    all.sort();
    assert_eq!(all, vec!["a", "b", "x"]);
}

#[test]
fn remove_at_checks_bounds() {
    let mut q = MusicQueue::new();
    q.push_back(req("a"));
    q.push_back(req("b"));
    assert!(q.remove_at(2).is_none());
    assert_eq!(q.len(), 2);
    assert_eq!(q.remove_at(0).unwrap().url, "a");
    assert_eq!(urls(&q.to_vec()), vec!["b"]);
}

#[test]
fn requeue_follows_repeat_mode() {
    let mut q = MusicQueue::new();
    q.push_back(req("next"));
    q.set_repeat_mode(RepeatMode::Track);
    q.requeue_finished(req("done"));
    assert_eq!(urls(&q.to_vec()), vec!["done", "next"]);
    q.set_repeat_mode(RepeatMode::Queue);
    q.requeue_finished(req("again"));
    assert_eq!(urls(&q.to_vec()), vec!["done", "next", "again"]);
    q.set_repeat_mode(RepeatMode::Off);
    q.requeue_finished(req("gone"));
    assert_eq!(q.len(), 3);
}

#[test]
fn clear_empties_but_keeps_config() {
    let mut q = MusicQueue::new();
    q.set_shuffle(true);
    q.push_back(req("a"));
    q.clear();
    assert!(q.is_empty());
    assert!(q.config.shuffle);
    assert!(q.get(0).is_none());
}
