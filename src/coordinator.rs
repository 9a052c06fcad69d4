//! The per-guild playback coordinator. Every decision lives here; the caller
//! performs the backend calls (start, stop, pause, resume) that the decisions
//! ask for and reports their outcome back.
use vstd::prelude::*;
use crate::guard::{ManualTransitionGuard, TransitionFlag};
use crate::history::{recorded, History};
use crate::queue::{after_pop, popped, requeued, MusicQueue};
use crate::track::{clone_text, same_request, TrackRequest};

verus! {

/// The session that is playing in a guild, and the request it plays.
pub struct PlayingEntry {
    /// Identifier that the backend gave the session; completion notices carry it.
    pub session: u64,
    pub request: TrackRequest,
}

/// Where the presentation layer shows the guild's now-playing state.
#[derive(Clone, Copy, Debug, PartialEq, Eq, Structural)]
pub struct NowPlayingPointer {
    pub channel_id: u64,
    pub message_id: u64,
}

/// All playback state of one guild.
pub struct GuildPlayback {
    pub queue: MusicQueue,
    pub history: History,
    /// Absent when the guild is idle.
    pub playing: Option<PlayingEntry>,
    pub flag: TransitionFlag,
    pub now_playing: Option<NowPlayingPointer>,
}

/// State of a session as the backend reports it.
#[derive(Clone, Copy, Debug, PartialEq, Eq, Structural)]
pub enum PlayState {
    Playing,
    Paused,
    Stopped,
}

/// Outcome of a pause or resume request. `Changed` names the request whose
/// session the backend is to pause or resume.
pub enum PlaybackControlResult {
    Changed(TrackRequest),
    Unchanged,
    Missing,
}

/// Summary of one run of "play the next queued request".
pub struct PlayNextResult {
    pub started: Option<TrackRequest>,
    /// Requests taken from the queue that failed to start.
    pub skipped: usize,
    pub remaining: usize,
    pub last_error: Option<String>,
}

/// A run of "play the next queued request" in progress: at most a fixed
/// number of queued requests are tried before the run gives up.
pub struct PlayNextRun {
    budget: usize,
    attempts_left: usize,
    skipped: usize,
    pending: bool,
    last_error: Option<String>,
}

/// What the caller does next in a run.
pub enum PlayNextStep {
    /// Ask the backend to start this request, then report the outcome with
    /// `attempt_started` or `attempt_failed`.
    Start(TrackRequest),
    /// The run is over.
    Done(PlayNextResult),
}

/// What a skip asks the caller to do. In `Forward` and `Rewind` the transition
/// flag stays set until the guard is handed to `finish_transition`.
pub enum SkipPlan {
    /// Offset zero: nothing was changed.
    Rejected,
    /// Stop `stop` if present, then run "play the next queued request".
    Forward { stop: Option<u64>, dropped: usize, guard: ManualTransitionGuard },
    /// Stop `stop` if present, then start `target`.
    Rewind { stop: Option<u64>, target: TrackRequest, guard: ManualTransitionGuard },
    /// Stop `stop` if present; the history is too short for the rewind.
    InsufficientHistory { stop: Option<u64> },
}

/// What a completion notice asks the caller to do.
#[derive(Clone, Copy, Debug, PartialEq, Eq, Structural)]
pub enum CompletionDecision {
    /// A manual transition is in progress, or the notice is stale.
    Ignore,
    /// The finished request was requeued; run "play the next queued request".
    Advance,
}

/// Session of the entry, if any.
pub open spec fn session_of(p: Option<PlayingEntry>) -> Option<u64> {
    match p {
        Some(e) => Some(e.session),
        None => None,
    }
}

/// The requests that a rewind by `k` puts back in front of the queue, in the
/// order in which they will play: the `k` newest history entries, oldest
/// first, then the interrupted request unless it is the newest entry.
pub open spec fn rewind_requeue(hist: Seq<TrackRequest>, k: int, current: Option<TrackRequest>) -> Seq<TrackRequest> {
    let others = hist.subrange(hist.len() - k, hist.len() as int);
    match current {
        Some(c) => if same_request(hist.last(), c) {
            others
        } else {
            others.push(c)
        },
        None => others,
    }
}

/// Number of queued requests that a forward skip by `offset` drops.
pub open spec fn forward_drop_count(offset: int, len: nat) -> nat {
    if offset - 1 < len {
        (offset - 1) as nat
    } else {
        len
    }
}

impl PlayNextRun {
    pub closed spec fn wf(&self) -> bool {
        self.skipped + self.attempts_left + (if self.pending { 1int } else { 0 }) <= self.budget
    }

    pub closed spec fn attempts_left(&self) -> nat {
        self.attempts_left as nat
    }

    pub closed spec fn skipped(&self) -> nat {
        self.skipped as nat
    }

    /// Whether a request handed out by `next_attempt` awaits its outcome.
    pub closed spec fn pending(&self) -> bool {
        self.pending
    }

    pub closed spec fn last_error(&self) -> Option<String> {
        self.last_error
    }

    /// A run that tries at most `max_attempts` requests, and at least one.
    pub fn new(max_attempts: usize) -> (r: PlayNextRun)
        ensures
            r.wf(),
            r.attempts_left() == if max_attempts == 0 { 1 } else { max_attempts as nat },
            r.skipped() == 0,
            !r.pending(),
            r.last_error() is None,
    {
        let budget: usize = if max_attempts == 0 { 1 } else { max_attempts };
        PlayNextRun { budget, attempts_left: budget, skipped: 0, pending: false, last_error: None }
    }

    pub fn skipped_count(&self) -> (r: usize)
        ensures
            r == self.skipped(),
    {
        self.skipped
    }

    /// Records that the pending request failed to start: it counts as skipped
    /// and its error becomes the last error. Without a pending request this
    /// changes nothing.
    pub fn attempt_failed(&mut self, error: String)
        requires
            old(self).wf(),
        ensures
            final(self).wf(),
            final(self).attempts_left() == old(self).attempts_left(),
            !final(self).pending(),
            old(self).pending() ==> final(self).skipped() == old(self).skipped() + 1
                && final(self).last_error() == Some(error),
            !old(self).pending() ==> final(self).skipped() == old(self).skipped()
                && final(self).last_error() == old(self).last_error(),
    {
        if self.pending {
            self.skipped = self.skipped + 1;
            self.last_error = Some(error);
            self.pending = false;
        }
    }
}

impl GuildPlayback {
    pub open spec fn wf(&self) -> bool {
        self.history.wf()
    }

    /// An idle guild: empty queue and history, default configuration.
    pub fn new() -> (r: GuildPlayback)
        ensures
            r.wf(),
            r.queue@ == Seq::<TrackRequest>::empty(),
            r.history@ == Seq::<TrackRequest>::empty(),
            r.playing is None,
            !r.flag@,
            r.now_playing is None,
    {
        GuildPlayback {
            queue: MusicQueue::new(),
            history: History::new(),
            playing: None,
            flag: TransitionFlag::new(),
            now_playing: None,
        }
    }

    /// Commits a request that the backend started as `session`: it becomes the
    /// playing entry and is recorded in the history. Returns the request.
    pub fn commit_start(&mut self, session: u64, req: TrackRequest) -> (r: TrackRequest)
        requires
            old(self).wf(),
        ensures
            final(self).wf(),
            r == req,
            final(self).playing == Some(PlayingEntry { session, request: req }),
            final(self).history@ == recorded(old(self).history@, req),
            final(self).queue == old(self).queue,
            final(self).flag == old(self).flag,
            final(self).now_playing == old(self).now_playing,
    {
        self.history.record(req.clone());
        self.playing = Some(PlayingEntry { session, request: req.clone() });
        req
    }

    /// Next step of a run: the next queued request to try, or the end of the
    /// run when the queue is empty or the attempts are used up. `draw` is a
    /// random number, used when shuffle is on.
    pub fn next_attempt(&mut self, run: &mut PlayNextRun, draw: u64) -> (r: PlayNextStep)
        requires
            old(self).wf(),
            old(run).wf(),
            !old(run).pending(),
        ensures
            final(self).wf(),
            final(run).wf(),
            final(self).history == old(self).history,
            final(self).playing == old(self).playing,
            final(self).flag == old(self).flag,
            final(self).now_playing == old(self).now_playing,
            final(self).queue.cfg() == old(self).queue.cfg(),
            final(run).skipped() == old(run).skipped(),
            final(run).last_error() == old(run).last_error(),
            old(run).attempts_left() == 0 ==> final(self).queue@ == old(self).queue@
                && final(run).attempts_left() == 0
                && !final(run).pending()
                && r == PlayNextStep::Done(PlayNextResult {
                    started: None,
                    skipped: old(run).skipped() as usize,
                    remaining: old(self).queue@.len() as usize,
                    last_error: old(run).last_error(),
                }),
            old(run).attempts_left() > 0 ==> final(self).queue@ == after_pop(
                old(self).queue@,
                old(self).queue.cfg().shuffle,
                draw,
            ),
            old(run).attempts_left() > 0 && old(self).queue@.len() == 0 ==> final(run).attempts_left()
                == old(run).attempts_left()
                && !final(run).pending()
                && r == PlayNextStep::Done(PlayNextResult {
                    started: None,
                    skipped: old(run).skipped() as usize,
                    remaining: 0,
                    last_error: old(run).last_error(),
                }),
            old(run).attempts_left() > 0 && old(self).queue@.len() > 0 ==> final(run).attempts_left()
                == old(run).attempts_left() - 1
                && final(run).pending()
                && r == PlayNextStep::Start(
                    popped(old(self).queue@, old(self).queue.cfg().shuffle, draw)->0,
                ),
    {
        if run.attempts_left == 0 {
            let last_error = clone_text(&run.last_error);
            return PlayNextStep::Done(PlayNextResult {
                started: None,
                skipped: run.skipped,
                remaining: self.queue.len(),
                last_error,
            });
        }
        match self.queue.pop_next(draw) {
            None => {
                let last_error = clone_text(&run.last_error);
                PlayNextStep::Done(PlayNextResult {
                    started: None,
                    skipped: run.skipped,
                    remaining: 0,
                    last_error,
                })
            },
            Some(req) => {
                run.attempts_left = run.attempts_left - 1;
                run.pending = true;
                PlayNextStep::Start(req)
            },
        }
    }

    /// Ends a run whose pending request the backend started as `session`:
    /// commits it and reports it as started.
    pub fn attempt_started(&mut self, run: PlayNextRun, session: u64, req: TrackRequest) -> (r: PlayNextResult)
        requires
            old(self).wf(),
            run.wf(),
        ensures
            final(self).wf(),
            final(self).playing == Some(PlayingEntry { session, request: req }),
            final(self).history@ == recorded(old(self).history@, req),
            final(self).queue == old(self).queue,
            final(self).flag == old(self).flag,
            final(self).now_playing == old(self).now_playing,
            r == (PlayNextResult {
                started: Some(req),
                skipped: run.skipped() as usize,
                remaining: old(self).queue@.len() as usize,
                last_error: run.last_error(),
            }),
    {
        let started = self.commit_start(session, req);
        PlayNextResult {
            started: Some(started),
            skipped: run.skipped,
            remaining: self.queue.len(),
            last_error: run.last_error,
        }
    }

    /// Hands the guard of a finished manual transition back, clearing the flag.
    pub fn finish_transition(&mut self, guard: ManualTransitionGuard)
        requires
            old(self).wf(),
        ensures
            final(self).wf(),
            !final(self).flag@,
            final(self).queue == old(self).queue,
            final(self).history == old(self).history,
            final(self).playing == old(self).playing,
            final(self).now_playing == old(self).now_playing,
    {
        guard.release(&mut self.flag);
    }
}

/// The request of the entry, if any.
pub open spec fn request_of(p: Option<PlayingEntry>) -> Option<TrackRequest> {
    match p {
        Some(e) => Some(e.request),
        None => None,
    }
}

/// A forward skip by `offset` took `pre` to `post` and answered `r`.
pub open spec fn skipped_forward(pre: GuildPlayback, post: GuildPlayback, offset: int, r: SkipPlan) -> bool {
    let n = forward_drop_count(offset, pre.queue@.len());
    &&& post.flag@
    &&& post.history == pre.history
    &&& post.queue@ == pre.queue@.subrange(n as int, pre.queue@.len() as int)
    &&& match r {
        SkipPlan::Forward { stop, dropped, .. } => stop == session_of(pre.playing) && dropped == n,
        _ => false,
    }
}

/// A rewind by `k` with enough history took `pre` to `post` and answered `r`.
pub open spec fn rewound(pre: GuildPlayback, post: GuildPlayback, k: int, r: SkipPlan) -> bool {
    let h = pre.history@;
    &&& post.flag@
    &&& post.history@ == h.subrange(0, h.len() - (k + 1))
    &&& post.queue@ == rewind_requeue(h, k, request_of(pre.playing)) + pre.queue@
    &&& match r {
        SkipPlan::Rewind { stop, target, .. } => stop == session_of(pre.playing) && target == h[h.len() - (k
            + 1)],
        _ => false,
    }
}

/// A rewind by `k` found too little history: only the playing entry went.
pub open spec fn rewind_refused(pre: GuildPlayback, post: GuildPlayback, r: SkipPlan) -> bool {
    &&& !post.flag@
    &&& post.history == pre.history
    &&& post.queue == pre.queue
    &&& r == SkipPlan::InsufficientHistory { stop: session_of(pre.playing) }
}

impl GuildPlayback {
    /// Manual skip by `offset`. Zero is rejected and changes nothing. Otherwise
    /// the transition flag is set, the playing entry is removed (its session is
    /// returned for the caller to stop), and then:
    /// - `offset > 0`: `offset - 1` requests are dropped from the front of the
    ///   queue (fewer if it runs out); the caller then plays the next one;
    /// - `offset < 0`, rewinding by `k = -offset`: when the history holds at
    ///   least `k + 1` entries, `k + 1` are taken from its end; the oldest of
    ///   them is the target, the others and the interrupted request (unless it
    ///   is the newest entry) go back to the front of the queue in playing
    ///   order; with a shorter history the flag is cleared and nothing else
    ///   changes.
    pub fn skip(&mut self, offset: i64) -> (r: SkipPlan)
        requires
            old(self).wf(),
        ensures
            final(self).wf(),
            final(self).now_playing == old(self).now_playing,
            final(self).queue.cfg() == old(self).queue.cfg(),
            offset == 0 ==> r is Rejected && *final(self) == *old(self),
            offset != 0 ==> final(self).playing is None,
            offset > 0 ==> skipped_forward(*old(self), *final(self), offset as int, r),
            offset < 0 && old(self).history@.len() < 1 - offset ==> rewind_refused(
                *old(self),
                *final(self),
                r,
            ),
            offset < 0 && old(self).history@.len() >= 1 - offset ==> rewound(
                *old(self),
                *final(self),
                0 - offset,
                r,
            ),
    {
        if offset == 0 {
            return SkipPlan::Rejected;
        }
        let guard = ManualTransitionGuard::acquire(&mut self.flag);
        let current = self.playing.take();
        let stop: Option<u64> = match &current {
            Some(e) => Some(e.session),
            None => None,
        };
        if offset > 0 {
            let want: u64 = (offset - 1) as u64;
            let dropped = self.drop_front(want);
            return SkipPlan::Forward { stop, dropped, guard };
        }
        // Rewinding by k = -offset needs k + 1 history entries.
        let need: u64 = ((-(offset + 1)) as u64) + 2;
        if (self.history.len() as u64) < need {
            self.finish_transition(guard);
            return SkipPlan::InsufficientHistory { stop };
        }
        let k: usize = (need - 1) as usize;
        let target = self.rewind_requeue(k, current);
        SkipPlan::Rewind { stop, target, guard }
    }

    /// Drops up to `want` requests from the front of the queue; returns how many.
    fn drop_front(&mut self, want: u64) -> (r: usize)
        requires
            old(self).wf(),
        ensures
            final(self).wf(),
            r == forward_drop_count(want + 1, old(self).queue@.len()),
            final(self).queue@ == old(self).queue@.subrange(r as int, old(self).queue@.len() as int),
            final(self).queue.cfg() == old(self).queue.cfg(),
            final(self).history == old(self).history,
            final(self).playing == old(self).playing,
            final(self).flag == old(self).flag,
            final(self).now_playing == old(self).now_playing,
    {
        let ghost q0 = self.queue@;
        let n0 = self.queue.len();
        let mut dropped: usize = 0;
        while (dropped as u64) < want && !self.queue.is_empty()
            invariant
                self.history == old(self).history,
                self.playing == old(self).playing,
                self.flag == old(self).flag,
                self.now_playing == old(self).now_playing,
                self.history.wf(),
                q0 == old(self).queue@,
                q0.len() == n0,
                dropped <= q0.len(),
                dropped <= want,
                self.queue@ == q0.subrange(dropped as int, q0.len() as int),
                self.queue.cfg() == old(self).queue.cfg(),
            decreases q0.len() - dropped,
        {
            self.queue.remove_at(0);
            dropped = dropped + 1;
        }
        dropped
    }

    /// Moves the `k + 1` newest history entries out: returns the oldest of
    /// them and puts the others, then `current` unless it is the newest entry,
    /// at the front of the queue.
    fn rewind_requeue(&mut self, k: usize, current: Option<PlayingEntry>) -> (r: TrackRequest)
        requires
            old(self).wf(),
            1 <= k,
            k + 1 <= old(self).history@.len(),
        ensures
            final(self).wf(),
            ({
                let h = old(self).history@;
                &&& r == h[h.len() - (k + 1)]
                &&& final(self).history@ == h.subrange(0, h.len() - (k + 1))
                &&& final(self).queue@ == rewind_requeue(h, k as int, request_of(current))
                    + old(self).queue@
            }),
            final(self).queue.cfg() == old(self).queue.cfg(),
            final(self).playing == old(self).playing,
            final(self).flag == old(self).flag,
            final(self).now_playing == old(self).now_playing,
    {
        let ghost h0 = self.history@;
        let ghost q0 = self.queue@;
        let ghost one = rewind_requeue(h0, 1, request_of(current));
        let newest = self.history.pop_newest();
        match newest {
            Some(n) => {
                let keep_current = match &current {
                    Some(e) => !n.is_same_request(&e.request),
                    None => false,
                };
                if keep_current {
                    match current {
                        Some(e) => self.queue.push_front(e.request),
                        None => {},
                    }
                }
                self.queue.push_front(n);
            },
            None => {},
        }
        assert(self.queue@ =~= h0.subrange(h0.len() - 1, h0.len() - 1) + one + q0);
        let mut taken: usize = 1;
        while taken < k
            invariant
                self.history.wf(),
                1 <= taken <= k,
                k + 1 <= h0.len(),
                self.history@ == h0.subrange(0, h0.len() - taken),
                self.queue.cfg() == old(self).queue.cfg(),
                self.queue@ == h0.subrange(h0.len() - taken, h0.len() - 1) + one + q0,
                self.playing == old(self).playing,
                self.flag == old(self).flag,
                self.now_playing == old(self).now_playing,
            decreases k - taken,
        {
            let e = self.history.pop_newest();
            match e {
                Some(t) => self.queue.push_front(t),
                None => {},
            }
            taken = taken + 1;
            assert(self.queue@ =~= h0.subrange(h0.len() - taken, h0.len() - 1) + one + q0);
        }
        assert(h0.subrange(h0.len() - k, h0.len() - 1) + one =~= rewind_requeue(
            h0,
            k as int,
            request_of(current),
        ));
        let target = self.history.pop_newest();
        assert(self.history@ =~= h0.subrange(0, h0.len() - (k + 1)));
        match target {
            Some(t) => t,
            None => {
                proof {
                    assert(false);
                }
                TrackRequest::new(String::new(), 0)
            },
        }
    }
}

/// Whether a completion notice for `session` may advance the guild: no manual
/// transition is in progress and the notice names the playing session.
pub open spec fn completion_applies(g: GuildPlayback, session: u64) -> bool {
    !g.flag@ && session_of(g.playing) == Some(session)
}

/// The outcome of pausing (`pause` true) or resuming when the backend reports
/// `state` for the playing session.
pub open spec fn control_outcome(playing: Option<PlayingEntry>, state: PlayState, pause: bool) -> PlaybackControlResult {
    match playing {
        None => PlaybackControlResult::Missing,
        Some(e) => match state {
            PlayState::Stopped => PlaybackControlResult::Missing,
            PlayState::Paused => if pause {
                PlaybackControlResult::Unchanged
            } else {
                PlaybackControlResult::Changed(e.request)
            },
            PlayState::Playing => if pause {
                PlaybackControlResult::Changed(e.request)
            } else {
                PlaybackControlResult::Unchanged
            },
        },
    }
}

impl GuildPlayback {
    /// Handles the backend's notice that `session` finished. It is ignored
    /// while a manual transition is in progress or when `session` is not the
    /// playing one. Otherwise the playing entry is removed and its request is
    /// requeued under the repeat policy; the caller then plays the next one.
    pub fn handle_completion(&mut self, session: u64) -> (r: CompletionDecision)
        requires
            old(self).wf(),
        ensures
            final(self).wf(),
            !completion_applies(*old(self), session) ==> r == CompletionDecision::Ignore
                && *final(self) == *old(self),
            completion_applies(*old(self), session) ==> r == CompletionDecision::Advance
                && final(self).playing is None
                && final(self).queue@ == requeued(
                    old(self).queue@,
                    old(self).queue.cfg().repeat_mode,
                    old(self).playing->0.request,
                )
                && final(self).queue.cfg() == old(self).queue.cfg()
                && final(self).history == old(self).history
                && final(self).flag == old(self).flag
                && final(self).now_playing == old(self).now_playing,
    {
        if self.flag.is_held() {
            return CompletionDecision::Ignore;
        }
        let matches_current = match &self.playing {
            Some(e) => e.session == session,
            None => false,
        };
        if !matches_current {
            return CompletionDecision::Ignore;
        }
        match self.playing.take() {
            Some(e) => self.queue.requeue_finished(e.request),
            None => {},
        }
        CompletionDecision::Advance
    }

    /// Decides a pause: `Missing` when nothing plays, `Unchanged` when the
    /// session is already paused, else `Changed` with the playing request,
    /// which the caller reports once the backend paused it.
    pub fn pause_outcome(&self, state: PlayState) -> (r: PlaybackControlResult)
        ensures
            r == control_outcome(self.playing, state, true),
    {
        self.control(state, true)
    }

    /// Decides a resume, symmetric to `pause_outcome`.
    pub fn resume_outcome(&self, state: PlayState) -> (r: PlaybackControlResult)
        ensures
            r == control_outcome(self.playing, state, false),
    {
        self.control(state, false)
    }

    fn control(&self, state: PlayState, pause: bool) -> (r: PlaybackControlResult)
        ensures
            r == control_outcome(self.playing, state, pause),
    {
        match &self.playing {
            None => PlaybackControlResult::Missing,
            Some(e) => match state {
                PlayState::Stopped => PlaybackControlResult::Missing,
                PlayState::Paused => if pause {
                    PlaybackControlResult::Unchanged
                } else {
                    PlaybackControlResult::Changed(e.request.clone())
                },
                PlayState::Playing => if pause {
                    PlaybackControlResult::Changed(e.request.clone())
                } else {
                    PlaybackControlResult::Unchanged
                },
            },
        }
    }

    /// Manual stop: the guild returns to idle with an empty queue of default
    /// configuration, an empty history and no now-playing pointer. Returns
    /// the session for the caller to stop, if one was playing.
    pub fn stop(&mut self) -> (r: Option<u64>)
        requires
            old(self).wf(),
        ensures
            final(self).wf(),
            r == session_of(old(self).playing),
            final(self).playing is None,
            final(self).queue@ == Seq::<TrackRequest>::empty(),
            final(self).queue.cfg() == MusicQueue::new_cfg(),
            final(self).history@ == Seq::<TrackRequest>::empty(),
            final(self).now_playing is None,
            final(self).flag == old(self).flag,
    {
        let r: Option<u64> = match &self.playing {
            Some(e) => Some(e.session),
            None => None,
        };
        self.playing = None;
        self.queue = MusicQueue::new();
        self.history.clear();
        self.now_playing = None;
        r
    }

    /// Registers where the now-playing state is shown.
    pub fn set_now_playing(&mut self, pointer: NowPlayingPointer)
        ensures
            final(self).now_playing == Some(pointer),
            final(self).queue == old(self).queue,
            final(self).history == old(self).history,
            final(self).playing == old(self).playing,
            final(self).flag == old(self).flag,
    {
        self.now_playing = Some(pointer);
    }

    /// The session that is playing, if any.
    pub fn playing_session(&self) -> (r: Option<u64>)
        ensures
            r == session_of(self.playing),
    {
        match &self.playing {
            Some(e) => Some(e.session),
            None => None,
        }
    }
}

/// What a `play` request does, given whether it names something, whether that
/// is a playlist, and the state of the guild's session.
#[derive(Clone, Copy, Debug, PartialEq, Eq, Structural)]
pub enum PlayAction {
    /// No query and the session is paused: resume it.
    Resume,
    /// A track while playing: queue it at the back.
    Enqueue,
    /// A track while not playing: start it now.
    StartNow,
    /// A playlist while playing: queue all of it at the back.
    EnqueuePlaylist,
    /// A playlist while not playing: start its first entry, queue the rest.
    StartPlaylist,
    /// No query and nothing playing: play the next queued request.
    PlayNext,
    /// No query while playing: nothing to do.
    AlreadyPlaying,
}

pub open spec fn play_action_of(has_query: bool, is_playlist: bool, state: PlayState) -> PlayAction {
    if !has_query {
        match state {
            PlayState::Paused => PlayAction::Resume,
            PlayState::Playing => PlayAction::AlreadyPlaying,
            PlayState::Stopped => PlayAction::PlayNext,
        }
    } else if is_playlist {
        if state == PlayState::Playing {
            PlayAction::EnqueuePlaylist
        } else {
            PlayAction::StartPlaylist
        }
    } else if state == PlayState::Playing {
        PlayAction::Enqueue
    } else {
        PlayAction::StartNow
    }
}

/// Decides what a `play` request does.
pub fn play_action(has_query: bool, is_playlist: bool, state: PlayState) -> (r: PlayAction)
    ensures
        r == play_action_of(has_query, is_playlist, state),
{
    if !has_query {
        match state {
            PlayState::Paused => PlayAction::Resume,
            PlayState::Playing => PlayAction::AlreadyPlaying,
            PlayState::Stopped => PlayAction::PlayNext,
        }
    } else if is_playlist {
        if state == PlayState::Playing {
            PlayAction::EnqueuePlaylist
        } else {
            PlayAction::StartPlaylist
        }
    } else if state == PlayState::Playing {
        PlayAction::Enqueue
    } else {
        PlayAction::StartNow
    }
}

impl GuildPlayback {
    /// Queues `req` at the back; returns its position, counted from one.
    pub fn enqueue(&mut self, req: TrackRequest) -> (r: usize)
        requires
            old(self).wf(),
        ensures
            final(self).wf(),
            final(self).queue@ == old(self).queue@.push(req),
            final(self).queue.cfg() == old(self).queue.cfg(),
            r == old(self).queue@.len() + 1,
            final(self).history == old(self).history,
            final(self).playing == old(self).playing,
            final(self).flag == old(self).flag,
            final(self).now_playing == old(self).now_playing,
    {
        self.queue.push_back(req);
        self.queue.len()
    }

    /// Queues `reqs` at the back in order; returns the positions of the first
    /// and the last, counted from one, or `None` when `reqs` is empty.
    pub fn enqueue_all(&mut self, reqs: Vec<TrackRequest>) -> (r: Option<(usize, usize)>)
        requires
            old(self).wf(),
        ensures
            final(self).wf(),
            final(self).queue@ == old(self).queue@ + reqs@,
            final(self).queue.cfg() == old(self).queue.cfg(),
            reqs@.len() == 0 ==> r is None,
            reqs@.len() > 0 ==> r == Some(
                ((old(self).queue@.len() + 1) as usize, (old(self).queue@.len() + reqs@.len()) as usize),
            ),
            final(self).history == old(self).history,
            final(self).playing == old(self).playing,
            final(self).flag == old(self).flag,
            final(self).now_playing == old(self).now_playing,
    {
        let ghost q0 = self.queue@;
        let n = reqs.len();
        let mut rest = reqs;
        let mut first: usize = 0;
        let mut i: usize = 0;
        while i < n
            invariant
                self.history == old(self).history,
                self.playing == old(self).playing,
                self.flag == old(self).flag,
                self.now_playing == old(self).now_playing,
                self.history.wf(),
                self.queue.cfg() == old(self).queue.cfg(),
                q0 == old(self).queue@,
                n == reqs@.len(),
                i <= n,
                rest@ == reqs@.subrange(i as int, n as int),
                self.queue@ == q0 + reqs@.subrange(0, i as int),
                i > 0 ==> first == q0.len() + 1,
            decreases n - i,
        {
            let next = rest.remove(0);
            self.queue.push_back(next);
            if i == 0 {
                first = self.queue.len();
            }
            i = i + 1;
            assert(self.queue@ =~= q0 + reqs@.subrange(0, i as int));
            assert(rest@ =~= reqs@.subrange(i as int, n as int));
        }
        assert(reqs@.subrange(0, n as int) =~= reqs@);
        if n == 0 {
            None
        } else {
            Some((first, self.queue.len()))
        }
    }
}

} // verus!
