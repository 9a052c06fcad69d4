//! The bounded log of requests that started playing in a guild.
use vstd::prelude::*;
use std::collections::VecDeque;
use crate::track::TrackRequest;

verus! {

/// How many started requests a guild remembers.
pub const HISTORY_MAX: usize = 50;

/// Started requests, oldest first, at most `HISTORY_MAX` of them.
pub struct History {
    entries: VecDeque<TrackRequest>,
}

/// The log after `req` started: appended, oldest dropped past the cap.
pub open spec fn recorded(entries: Seq<TrackRequest>, req: TrackRequest) -> Seq<TrackRequest> {
    let grown = entries.push(req);
    if grown.len() > HISTORY_MAX {
        grown.subrange(grown.len() - HISTORY_MAX, grown.len() as int)
    } else {
        grown
    }
}

impl View for History {
    type V = Seq<TrackRequest>;

    closed spec fn view(&self) -> Seq<TrackRequest> {
        self.entries@
    }
}

impl History {
    /// The log never holds more than `HISTORY_MAX` entries.
    pub open spec fn wf(&self) -> bool {
        self@.len() <= HISTORY_MAX
    }

    pub fn new() -> (r: History)
        ensures
            r@ == Seq::<TrackRequest>::empty(),
            r.wf(),
    {
        History { entries: VecDeque::new() }
    }

    /// Records a request that started, dropping the oldest entries past the cap.
    pub fn record(&mut self, req: TrackRequest)
        requires
            old(self).wf(),
        ensures
            final(self)@ == recorded(old(self)@, req),
            final(self).wf(),
    {
        self.entries.push_back(req);
        if self.entries.len() > HISTORY_MAX {
            self.entries.pop_front();
        }
        assert(self.entries@ =~= recorded(old(self)@, req));
    }

    /// Takes the most recent entry out of the log.
    pub fn pop_newest(&mut self) -> (r: Option<TrackRequest>)
        requires
            old(self).wf(),
        ensures
            old(self)@.len() > 0 ==> r == Some(old(self)@.last())
                && final(self)@ == old(self)@.drop_last(),
            old(self)@.len() == 0 ==> r is None && final(self)@ == old(self)@,
            final(self).wf(),
    {
        self.entries.pop_back()
    }

    /// A copy of the log, oldest first.
    pub fn to_vec(&self) -> (r: Vec<TrackRequest>)
        ensures
            r@ == self@,
    {
        let mut out: Vec<TrackRequest> = Vec::new();
        let n = self.entries.len();
        let mut i: usize = 0;
        while i < n
            invariant
                n == self@.len(),
                i <= n,
                out@ == self@.subrange(0, i as int),
            decreases n - i,
        {
            out.push(self.entries[i].clone());
            i = i + 1;
            assert(out@ =~= self@.subrange(0, i as int));
        }
        assert(out@ =~= self@);
        out
    }

    pub fn len(&self) -> (r: usize)
        ensures
            r == self@.len(),
    {
        self.entries.len()
    }

    /// Forgets every entry.
    pub fn clear(&mut self)
        ensures
            final(self)@ == Seq::<TrackRequest>::empty(),
            final(self).wf(),
    {
        self.entries.clear();
    }
}

} // verus!
