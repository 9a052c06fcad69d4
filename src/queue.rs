//! A guild's queue of pending requests and its playback configuration.
use vstd::prelude::*;
use vstd::multiset::Multiset;
use std::collections::VecDeque;
use crate::repeat::RepeatMode;
use crate::track::TrackRequest;

verus! {

/// Playback configuration of one guild.
pub struct MusicConfig {
    pub repeat_mode: RepeatMode,
    pub shuffle: bool,
}

impl MusicConfig {
    /// Repeat off, shuffle off.
    pub fn new() -> (r: MusicConfig)
        ensures
            r.repeat_mode == RepeatMode::Off,
            !r.shuffle,
    {
        MusicConfig { repeat_mode: RepeatMode::Off, shuffle: false }
    }
}

/// The ordered requests waiting to be played in one guild.
pub struct MusicQueue {
    queue: VecDeque<TrackRequest>,
    pub config: MusicConfig,
}

/// Index of the item that the next pop takes out of a queue of `len` items:
/// the front, or the slot that `draw` selects when shuffling.
pub open spec fn pick_index(len: nat, shuffle: bool, draw: u64) -> int {
    if shuffle && len > 0 {
        (draw as nat % len) as int
    } else {
        0
    }
}

/// What one pop takes out of `items`.
pub open spec fn popped(items: Seq<TrackRequest>, shuffle: bool, draw: u64) -> Option<TrackRequest> {
    if items.len() == 0 {
        None
    } else {
        Some(items[pick_index(items.len(), shuffle, draw)])
    }
}

/// What one pop leaves in `items`.
pub open spec fn after_pop(items: Seq<TrackRequest>, shuffle: bool, draw: u64) -> Seq<TrackRequest> {
    if items.len() == 0 {
        items
    } else {
        items.remove(pick_index(items.len(), shuffle, draw))
    }
}

/// The items that successive pops return, one draw per pop, until the draws
/// or the items run out.
pub open spec fn drain(items: Seq<TrackRequest>, shuffle: bool, draws: Seq<u64>) -> Seq<TrackRequest>
    decreases draws.len(),
{
    if draws.len() == 0 || items.len() == 0 {
        Seq::empty()
    } else {
        seq![popped(items, shuffle, draws[0])->0]
            + drain(after_pop(items, shuffle, draws[0]), shuffle, draws.drop_first())
    }
}

/// Where a finished track goes under a repeat policy.
pub open spec fn requeued(items: Seq<TrackRequest>, mode: RepeatMode, finished: TrackRequest) -> Seq<TrackRequest> {
    match mode {
        RepeatMode::Track => seq![finished] + items,
        RepeatMode::Queue => items.push(finished),
        RepeatMode::Off => items,
    }
}

impl View for MusicQueue {
    type V = Seq<TrackRequest>;

    closed spec fn view(&self) -> Seq<TrackRequest> {
        self.queue@
    }
}

impl MusicQueue {
    /// The playback configuration, as contracts see it.
    pub closed spec fn cfg(&self) -> MusicConfig {
        self.config
    }

    /// The configuration of a new queue: repeat off, shuffle off.
    pub open spec fn new_cfg() -> MusicConfig {
        MusicConfig { repeat_mode: RepeatMode::Off, shuffle: false }
    }

    /// An empty queue with the default configuration.
    pub fn new() -> (r: MusicQueue)
        ensures
            r@ == Seq::<TrackRequest>::empty(),
            r.cfg() == MusicQueue::new_cfg(),
    {
        MusicQueue { queue: VecDeque::new(), config: MusicConfig::new() }
    }

    /// Appends a request at the back.
    pub fn push_back(&mut self, req: TrackRequest)
        ensures
            final(self)@ == old(self)@.push(req),
            final(self).cfg() == old(self).cfg(),
    {
        self.queue.push_back(req);
    }

    /// Inserts a request at the front, ahead of everything already queued.
    pub fn push_front(&mut self, req: TrackRequest)
        ensures
            final(self)@ == seq![req] + old(self)@,
            final(self).cfg() == old(self).cfg(),
    {
        self.queue.push_front(req);
    }

    /// Takes the next request out of the queue: the front one, or, with
    /// shuffle on, the one at `draw` modulo the length. `draw` is a random
    /// number supplied by the caller.
    pub fn pop_next(&mut self, draw: u64) -> (r: Option<TrackRequest>)
        ensures
            r == popped(old(self)@, old(self).cfg().shuffle, draw),
            final(self)@ == after_pop(old(self)@, old(self).cfg().shuffle, draw),
            final(self).cfg() == old(self).cfg(),
    {
        let len = self.queue.len();
        if len == 0 {
            return None;
        }
        let idx: usize = if self.config.shuffle {
            (draw % (len as u64)) as usize
        } else {
            0
        };
        self.queue.remove(idx)
    }

    /// Removes and returns the request at `index`; `None` when out of range.
    pub fn remove_at(&mut self, index: usize) -> (r: Option<TrackRequest>)
        ensures
            index < old(self)@.len() ==> r == Some(old(self)@[index as int])
                && final(self)@ == old(self)@.remove(index as int),
            index >= old(self)@.len() ==> r is None && final(self)@ == old(self)@,
            final(self).cfg() == old(self).cfg(),
    {
        self.queue.remove(index)
    }

    /// Requeues a finished request under the repeat policy.
    pub fn requeue_finished(&mut self, finished: TrackRequest)
        ensures
            final(self)@ == requeued(old(self)@, old(self).cfg().repeat_mode, finished),
            final(self).cfg() == old(self).cfg(),
    {
        match self.config.repeat_mode {
            RepeatMode::Track => self.queue.push_front(finished),
            RepeatMode::Queue => self.queue.push_back(finished),
            RepeatMode::Off => {},
        }
    }

    /// A copy of the queued requests, front first.
    pub fn to_vec(&self) -> (r: Vec<TrackRequest>)
        ensures
            r@ == self@,
    {
        let mut out: Vec<TrackRequest> = Vec::new();
        let n = self.queue.len();
        let mut i: usize = 0;
        while i < n
            invariant
                n == self@.len(),
                i <= n,
                out@ == self@.subrange(0, i as int),
            decreases n - i,
        {
            out.push(self.queue[i].clone());
            i = i + 1;
            assert(out@ =~= self@.subrange(0, i as int));
        }
        assert(out@ =~= self@);
        out
    }

    /// Request at `index`, if any.
    pub fn get(&self, index: usize) -> (r: Option<&TrackRequest>)
        ensures
            index < self@.len() ==> r == Some(&self@[index as int]),
            index >= self@.len() ==> r is None,
    {
        if index < self.queue.len() {
            Some(&self.queue[index])
        } else {
            None
        }
    }

    pub fn len(&self) -> (r: usize)
        ensures
            r == self@.len(),
    {
        self.queue.len()
    }

    pub fn is_empty(&self) -> (r: bool)
        ensures
            r == (self@.len() == 0),
    {
        self.queue.len() == 0
    }

    /// Removes every queued request; the configuration stays.
    pub fn clear(&mut self)
        ensures
            final(self)@ == Seq::<TrackRequest>::empty(),
            final(self).cfg() == old(self).cfg(),
    {
        self.queue.clear();
    }

    pub fn set_repeat_mode(&mut self, mode: RepeatMode)
        ensures
            final(self)@ == old(self)@,
            final(self).cfg().repeat_mode == mode,
            final(self).cfg().shuffle == old(self).cfg().shuffle,
    {
        self.config.repeat_mode = mode;
    }

    pub fn set_shuffle(&mut self, on: bool)
        ensures
            final(self)@ == old(self)@,
            final(self).cfg().shuffle == on,
            final(self).cfg().repeat_mode == old(self).cfg().repeat_mode,
    {
        self.config.shuffle = on;
    }
}

/// The item that a pop picks lies inside the queue.
pub proof fn lemma_pick_in_range(len: nat, shuffle: bool, draw: u64)
    requires
        len > 0,
    ensures
        0 <= pick_index(len, shuffle, draw) < len,
{
    if shuffle {
        assert(0 <= (draw as nat % len) < len) by (nonlinear_arith)
            requires
                len > 0,
        ;
    }
}

/// With shuffle off, popping a queue until it is empty returns its items in
/// queue order: first in, first out, and an item pushed to the front comes
/// out before everything that was queued when it was pushed.
pub proof fn law_fifo_order(items: Seq<TrackRequest>, draws: Seq<u64>)
    requires
        draws.len() >= items.len(),
    ensures
        drain(items, false, draws) == items,
    decreases draws.len(),
{
    if draws.len() == 0 || items.len() == 0 {
        assert(items =~= Seq::<TrackRequest>::empty());
    } else {
        law_fifo_order(items.remove(0), draws.drop_first());
        assert(seq![items[0]] + items.remove(0) =~= items);
    }
}

/// Popping a queue until it is empty, whatever the draws and whether or not
/// shuffle is on, returns every queued item exactly once: the items that come
/// out are a permutation of the items that were queued.
pub proof fn law_drain_is_permutation(items: Seq<TrackRequest>, shuffle: bool, draws: Seq<u64>)
    requires
        draws.len() >= items.len(),
    ensures
        drain(items, shuffle, draws).len() == items.len(),
        drain(items, shuffle, draws).to_multiset() == items.to_multiset(),
    decreases draws.len(),
{
    broadcast use vstd::seq_lib::group_to_multiset_ensures, vstd::multiset::group_multiset_axioms;

    if draws.len() == 0 || items.len() == 0 {
        assert(items =~= Seq::<TrackRequest>::empty());
        assert(drain(items, shuffle, draws) =~= Seq::<TrackRequest>::empty());
    } else {
        let i = pick_index(items.len(), shuffle, draws[0]);
        lemma_pick_in_range(items.len(), shuffle, draws[0]);
        let rest = items.remove(i);
        law_drain_is_permutation(rest, shuffle, draws.drop_first());
        let tail = drain(rest, shuffle, draws.drop_first());
        vstd::seq_lib::lemma_multiset_commutative(seq![items[i]], tail);
        vstd::seq_lib::to_multiset_remove(items, i);
        assert(seq![items[i]].to_multiset() =~= Multiset::singleton(items[i])) by {
            assert(seq![items[i]] =~= Seq::<TrackRequest>::empty().push(items[i]));
            vstd::seq_lib::to_multiset_build(Seq::<TrackRequest>::empty(), items[i]);
        }
        assert(items.to_multiset().count(items[i]) > 0) by {
            vstd::seq_lib::to_multiset_contains(items, items[i]);
        }
        assert(drain(items, shuffle, draws).to_multiset() =~= items.to_multiset());
    }
}

/// One operation on a queue, as a step of a history of operations.
pub enum QueueOp {
    PushBack(TrackRequest),
    PushFront(TrackRequest),
    /// A pop with the given draw.
    Pop(u64),
}

/// The queue left by running `ops` on `items` in order, and the items that
/// the pops returned, in order.
pub open spec fn run_ops(items: Seq<TrackRequest>, shuffle: bool, ops: Seq<QueueOp>) -> (Seq<TrackRequest>, Seq<TrackRequest>)
    decreases ops.len(),
{
    if ops.len() == 0 {
        (items, Seq::empty())
    } else {
        let prev = run_ops(items, shuffle, ops.drop_last());
        match ops.last() {
            QueueOp::PushBack(x) => (prev.0.push(x), prev.1),
            QueueOp::PushFront(x) => (seq![x] + prev.0, prev.1),
            QueueOp::Pop(d) => match popped(prev.0, shuffle, d) {
                Some(x) => (after_pop(prev.0, shuffle, d), prev.1.push(x)),
                None => prev,
            },
        }
    }
}

/// The items that the pushes of `ops` add, in order.
pub open spec fn pushed_items(ops: Seq<QueueOp>) -> Seq<TrackRequest>
    decreases ops.len(),
{
    if ops.len() == 0 {
        Seq::empty()
    } else {
        match ops.last() {
            QueueOp::PushBack(x) => pushed_items(ops.drop_last()).push(x),
            QueueOp::PushFront(x) => pushed_items(ops.drop_last()).push(x),
            QueueOp::Pop(_) => pushed_items(ops.drop_last()),
        }
    }
}

/// Every queue operation takes exclusive access, so pushes and pops from
/// concurrent tasks take effect as some sequence of single operations. For
/// every such sequence, no item is lost or duplicated: what stays queued
/// together with what the pops returned is exactly what was queued plus what
/// was pushed.
pub proof fn law_operations_conserve_items(items: Seq<TrackRequest>, shuffle: bool, ops: Seq<QueueOp>)
    ensures
        run_ops(items, shuffle, ops).0.to_multiset().add(run_ops(items, shuffle, ops).1.to_multiset())
            == items.to_multiset().add(pushed_items(ops).to_multiset()),
    decreases ops.len(),
{
    broadcast use vstd::seq_lib::group_to_multiset_ensures, vstd::multiset::group_multiset_axioms;

    if ops.len() == 0 {
        assert(Seq::<TrackRequest>::empty().to_multiset() =~= Multiset::empty());
        assert(pushed_items(ops) =~= Seq::<TrackRequest>::empty());
        assert(items.to_multiset().add(Multiset::empty()) =~= items.to_multiset());
    } else {
        let prev = run_ops(items, shuffle, ops.drop_last());
        law_operations_conserve_items(items, shuffle, ops.drop_last());
        match ops.last() {
            QueueOp::PushBack(x) => {
                assert(pushed_items(ops) == pushed_items(ops.drop_last()).push(x));
                vstd::seq_lib::to_multiset_build(prev.0, x);
                vstd::seq_lib::to_multiset_build(pushed_items(ops.drop_last()), x);
                let pm = pushed_items(ops.drop_last()).to_multiset();
                assert(prev.0.to_multiset().insert(x).add(prev.1.to_multiset()) =~= prev.0.to_multiset().add(
                    prev.1.to_multiset(),
                ).insert(x));
                assert(items.to_multiset().add(pm.insert(x)) =~= items.to_multiset().add(pm).insert(x));
            },
            QueueOp::PushFront(x) => {
                assert(seq![x] + prev.0 =~= prev.0.insert(0, x));
                assert(pushed_items(ops) == pushed_items(ops.drop_last()).push(x));
                vstd::seq_lib::to_multiset_insert(prev.0, 0, x);
                vstd::seq_lib::to_multiset_build(pushed_items(ops.drop_last()), x);
                let pm = pushed_items(ops.drop_last()).to_multiset();
                assert(prev.0.to_multiset().insert(x).add(prev.1.to_multiset()) =~= prev.0.to_multiset().add(
                    prev.1.to_multiset(),
                ).insert(x));
                assert(items.to_multiset().add(pm.insert(x)) =~= items.to_multiset().add(pm).insert(x));
            },
            QueueOp::Pop(d) => {
                if prev.0.len() > 0 {
                    let i = pick_index(prev.0.len(), shuffle, d);
                    lemma_pick_in_range(prev.0.len(), shuffle, d);
                    vstd::seq_lib::to_multiset_remove(prev.0, i);
                    vstd::seq_lib::to_multiset_build(prev.1, prev.0[i]);
                    assert(prev.0.to_multiset().count(prev.0[i]) > 0) by {
                        vstd::seq_lib::to_multiset_contains(prev.0, prev.0[i]);
                    }
                    assert(after_pop(prev.0, shuffle, d).to_multiset().add(prev.1.push(prev.0[i]).to_multiset())
                        =~= items.to_multiset().add(pushed_items(ops).to_multiset()));
                }
            },
        }
    }
}

} // verus!
