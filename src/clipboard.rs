//! The clipboard history: most recent entry first, at most `max_history` long.
use vstd::prelude::*;

verus! {

/// One text that went through the clipboard. `timestamp` is in milliseconds
/// since the Unix epoch.
#[derive(Debug, Clone)]
pub struct ClipboardEntry {
    pub text: String,
    pub timestamp: u64,
    pub mime_type: String,
}

/// The bounded clipboard history.
pub struct ClipboardClient {
    history: Vec<ClipboardEntry>,
    max_history: usize,
}

/// The history after `e` is recorded at the front of `h` and the oldest
/// entries beyond `max` are dropped.
pub open spec fn recorded(h: Seq<ClipboardEntry>, e: ClipboardEntry, max: nat) -> Seq<ClipboardEntry> {
    let n = seq![e] + h;
    if n.len() > max {
        n.subrange(0, max as int)
    } else {
        n
    }
}

impl ClipboardClient {
    /// The entries, newest first.
    pub closed spec fn view(&self) -> Seq<ClipboardEntry> {
        self.history@
    }

    /// The bound on the history's length.
    pub closed spec fn max(&self) -> nat {
        self.max_history as nat
    }

    /// An empty history that keeps at most `max_history` entries.
    pub fn new(max_history: usize) -> (r: Self)
        ensures
            r.view().len() == 0,
            r.max() == max_history,
    {
        ClipboardClient { history: Vec::new(), max_history }
    }

    /// The entries, newest first.
    pub fn history(&self) -> (r: &[ClipboardEntry])
        ensures
            r@ == self.view(),
    {
        self.history.as_slice()
    }

    /// The bound on the history's length.
    pub fn max_history(&self) -> (r: usize)
        ensures
            r == self.max(),
    {
        self.max_history
    }

    /// Records a text at the front, stamped `timestamp`, then drops the oldest
    /// entries beyond the bound.
    pub fn add_to_history(&mut self, text: String, mime_type: String, timestamp: u64)
        ensures
            final(self).max() == old(self).max(),
            final(self).view() == recorded(
                old(self).view(),
                ClipboardEntry { text, timestamp, mime_type },
                old(self).max(),
            ),
    {
        let entry = ClipboardEntry { text, timestamp, mime_type };
        self.history.insert(0, entry);
        if self.history.len() > self.max_history {
            self.history.truncate(self.max_history);
        }
        assert(self.history@ == recorded(old(self).history@, entry, self.max_history as nat));
    }

    /// Empties the history.
    pub fn clear_history(&mut self)
        ensures
            final(self).max() == old(self).max(),
            final(self).view().len() == 0,
    {
        self.history.clear();
    }

    /// The newest `limit` entries, newest first.
    pub fn recent(&self, limit: usize) -> (r: Vec<ClipboardEntry>)
        ensures
            r@ == self.view().take(if limit < self.view().len() { limit as int } else { self.view().len() as int }),
    {
        let n = if limit < self.history.len() { limit } else { self.history.len() };
        let mut r: Vec<ClipboardEntry> = Vec::new();
        let mut i: usize = 0;
        while i < n
            invariant
                n <= self.history@.len(),
                i <= n,
                r@.len() == i,
                forall|j: int| 0 <= j < i ==> #[trigger] r@[j] == self.history@[j],
            decreases n - i,
        {
            let e = &self.history[i];
            r.push(ClipboardEntry { text: e.text.clone(), timestamp: e.timestamp, mime_type: e.mime_type.clone() });
            i = i + 1;
        }
        assert(r@ == self.history@.take(n as int));
        r
    }
}

/// Recording texts one after another keeps the newest `max` of them, newest
/// first: the history is a window on the recorded sequence, reversed.
pub proof fn lemma_history_window(h: Seq<ClipboardEntry>, es: Seq<ClipboardEntry>, max: nat)
    requires
        h.len() <= max,
    ensures
        record_all(h, es, max) == (es.reverse() + h).take(
            if es.len() + h.len() > max { max as int } else { (es.len() + h.len()) as int },
        ),
    decreases es.len(),
{
    if es.len() > 0 {
        let h1 = recorded(h, es[0], max);
        lemma_history_window(h1, es.drop_first(), max);
        let rest = es.drop_first();
        assert(es.reverse() == rest.reverse().push(es[0])) by {
            assert(es.reverse() =~= rest.reverse().push(es[0]));
        }
        let full = es.reverse() + h;
        assert(rest.reverse() + (seq![es[0]] + h) =~= full);
        let m = if es.len() + h.len() > max { max as int } else { (es.len() + h.len()) as int };
        let m1 = if rest.len() + h1.len() > max { max as int } else { (rest.len() + h1.len()) as int };
        assert(m1 == m);
        assert((rest.reverse() + h1).take(m1) =~= full.take(m));
    }
}

/// The history after recording `es` in order onto `h`.
pub open spec fn record_all(h: Seq<ClipboardEntry>, es: Seq<ClipboardEntry>, max: nat) -> Seq<ClipboardEntry>
    decreases es.len(),
{
    if es.len() == 0 {
        h
    } else {
        record_all(recorded(h, es[0], max), es.drop_first(), max)
    }
}

} // verus!
