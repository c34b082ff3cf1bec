//! Fanning out the captured output lines of the supervised process to any
//! number of sinks, each with a bounded buffer that drops its oldest line
//! rather than hold up the capture.
use vstd::prelude::*;
use std::collections::VecDeque;

verus! {

/// The stream a line came from.
#[derive(Clone, Copy, Debug, PartialEq, Eq, Structural)]
pub enum Origin {
    Stdout,
    Stderr,
}

/// One line of output, without its line break.
#[derive(Debug)]
pub struct OutputLine {
    pub origin: Origin,
    pub text: String,
    /// When the line was captured, in milliseconds.
    pub observed_at: u64,
}

impl Clone for OutputLine {
    fn clone(&self) -> (r: OutputLine)
        ensures
            r == *self,
    {
        OutputLine { origin: self.origin, text: self.text.clone(), observed_at: self.observed_at }
    }
}

/// One consumer's buffer: at most `capacity` lines, oldest first.
#[derive(Debug)]
pub struct Sink {
    pub capacity: usize,
    pub lines: VecDeque<OutputLine>,
}

/// The buffer `q` of capacity `cap` after `line` arrived: where it is full
/// the oldest line goes; with no capacity nothing is kept.
pub open spec fn delivered(q: Seq<OutputLine>, line: OutputLine, cap: nat) -> Seq<OutputLine> {
    if cap == 0 {
        q
    } else if q.len() < cap {
        q.push(line)
    } else {
        q.drop_first().push(line)
    }
}

/// The buffer `q` of capacity `cap` after each of `lines` arrived in turn.
pub open spec fn delivered_all(q: Seq<OutputLine>, lines: Seq<OutputLine>, cap: nat) -> Seq<
    OutputLine,
>
    decreases lines.len(),
{
    if lines.len() == 0 {
        q
    } else {
        delivered_all(delivered(q, lines[0], cap), lines.drop_first(), cap)
    }
}

/// The last `min(cap, lines.len())` lines of `lines`.
pub open spec fn newest(lines: Seq<OutputLine>, cap: nat) -> Seq<OutputLine> {
    if lines.len() <= cap {
        lines
    } else {
        lines.subrange(lines.len() - cap, lines.len() as int)
    }
}

/// A buffer fed from empty holds the newest lines that fit, in the order
/// they arrived: every line produced after registration, where the buffer
/// keeps up, and no line from before.
pub proof fn lemma_sink_keeps_newest(lines: Seq<OutputLine>, cap: nat)
    ensures
        delivered_all(Seq::empty(), lines, cap) == newest(lines, cap),
{
    lemma_delivered_all_from(Seq::empty(), lines, cap);
    assert(Seq::<OutputLine>::empty() + lines =~= lines);
}

proof fn lemma_delivered_all_from(q: Seq<OutputLine>, lines: Seq<OutputLine>, cap: nat)
    requires
        q.len() <= cap,
    ensures
        delivered_all(q, lines, cap) == newest(q + lines, cap),
    decreases lines.len(),
{
    if lines.len() == 0 {
        assert(q + lines =~= q);
    } else {
        let q1 = delivered(q, lines[0], cap);
        lemma_delivered_all_from(q1, lines.drop_first(), cap);
        let all = q + lines;
        let rest = q1 + lines.drop_first();
        if cap == 0 {
            assert(newest(rest, cap) =~= Seq::<OutputLine>::empty());
            assert(newest(all, cap) =~= Seq::<OutputLine>::empty());
        } else if q.len() < cap {
            assert(rest =~= all);
        } else {
            assert(rest =~= all.subrange(1, all.len() as int));
            assert(newest(rest, cap) =~= newest(all, cap));
        }
    }
}

/// Delivers every published line to each registered sink.
#[derive(Debug)]
pub struct OutputRouter {
    pub sinks: Vec<Sink>,
}

impl OutputRouter {
    /// No buffer holds more lines than its capacity.
    pub open spec fn wf(&self) -> bool {
        forall|i: int|
            0 <= i < self.sinks@.len() ==> #[trigger] self.sinks@[i].lines@.len()
                <= self.sinks@[i].capacity
    }

    /// A router with no sinks.
    pub fn new() -> (r: OutputRouter)
        ensures
            r.wf(),
            r.sinks@.len() == 0,
    {
        OutputRouter { sinks: Vec::new() }
    }

    /// Adds a sink with room for `capacity` lines, and returns its number.
    /// It receives the lines published from now on, none from before.
    pub fn register_sink(&mut self, capacity: usize) -> (id: usize)
        requires
            old(self).wf(),
            old(self).sinks@.len() < usize::MAX,
        ensures
            final(self).wf(),
            id == old(self).sinks@.len(),
            final(self).sinks@.len() == old(self).sinks@.len() + 1,
            forall|i: int| 0 <= i < id ==> #[trigger] final(self).sinks@[i] == old(self).sinks@[i],
            final(self).sinks@[id as int].capacity == capacity,
            final(self).sinks@[id as int].lines@ == Seq::<OutputLine>::empty(),
    {
        let id = self.sinks.len();
        self.sinks.push(Sink { capacity, lines: VecDeque::new() });
        proof {
            assert forall|i: int|
                0 <= i < final(self).sinks@.len() implies #[trigger] final(self).sinks@[i].lines@.len()
                <= final(self).sinks@[i].capacity by {
                if i < id {
                    assert(final(self).sinks@[i] == old(self).sinks@[i]);
                }
            }
        }
        id
    }

    /// Hands `line` to every sink; a full sink drops its oldest line.
    pub fn publish(&mut self, line: &OutputLine)
        requires
            old(self).wf(),
        ensures
            final(self).wf(),
            final(self).sinks@.len() == old(self).sinks@.len(),
            forall|i: int|
                0 <= i < old(self).sinks@.len() ==> {
                    &&& #[trigger] final(self).sinks@[i].capacity == old(self).sinks@[i].capacity
                    &&& final(self).sinks@[i].lines@ == delivered(
                        old(self).sinks@[i].lines@,
                        *line,
                        old(self).sinks@[i].capacity as nat,
                    )
                },
    {
        let n = self.sinks.len();
        let mut k: usize = 0;
        while k < n
            invariant
                n == old(self).sinks@.len(),
                self.sinks@.len() == n,
                0 <= k <= n,
                forall|i: int|
                    0 <= i < n ==> #[trigger] self.sinks@[i].capacity == old(self).sinks@[i].capacity,
                forall|i: int|
                    0 <= i < k ==> #[trigger] self.sinks@[i].lines@ == delivered(
                        old(self).sinks@[i].lines@,
                        *line,
                        old(self).sinks@[i].capacity as nat,
                    ),
                forall|i: int| k <= i < n ==> #[trigger] self.sinks@[i] == old(self).sinks@[i],
                forall|i: int|
                    0 <= i < n ==> #[trigger] self.sinks@[i].lines@.len()
                        <= self.sinks@[i].capacity,
            decreases n - k,
        {
            let cap = self.sinks[k].capacity;
            if cap > 0 {
                if self.sinks[k].lines.len() >= cap {
                    self.sinks[k].lines.pop_front();
                }
                self.sinks[k].lines.push_back(line.clone());
            }
            k = k + 1;
        }
    }

    /// Takes every line buffered for sink `id`, oldest first, and empties
    /// its buffer.
    pub fn take(&mut self, id: usize) -> (r: Vec<OutputLine>)
        requires
            old(self).wf(),
            id < old(self).sinks@.len(),
        ensures
            final(self).wf(),
            r@ == old(self).sinks@[id as int].lines@,
            final(self).sinks@.len() == old(self).sinks@.len(),
            final(self).sinks@[id as int].capacity == old(self).sinks@[id as int].capacity,
            final(self).sinks@[id as int].lines@ == Seq::<OutputLine>::empty(),
            forall|i: int|
                0 <= i < old(self).sinks@.len() && i != id ==> #[trigger] final(self).sinks@[i]
                    == old(self).sinks@[i],
    {
        let mut out: Vec<OutputLine> = Vec::new();
        let ghost all = self.sinks@[id as int].lines@;
        while self.sinks[id].lines.len() > 0
            invariant
                self.sinks@.len() == old(self).sinks@.len(),
                id < self.sinks@.len(),
                self.sinks@[id as int].capacity == old(self).sinks@[id as int].capacity,
                all == old(self).sinks@[id as int].lines@,
                out@ + self.sinks@[id as int].lines@ == all,
                forall|i: int|
                    0 <= i < old(self).sinks@.len() && i != id ==> #[trigger] self.sinks@[i]
                        == old(self).sinks@[i],
            decreases self.sinks@[id as int].lines@.len(),
        {
            let ghost before = self.sinks@[id as int].lines@;
            match self.sinks[id].lines.pop_front() {
                Some(l) => {
                    out.push(l);
                    assert(out@ + self.sinks@[id as int].lines@ =~= all);
                },
                None => {},
            }
        }
        assert(self.sinks@[id as int].lines@ =~= Seq::<OutputLine>::empty());
        assert(out@ =~= all);
        proof {
            assert forall|i: int|
                0 <= i < self.sinks@.len() implies #[trigger] self.sinks@[i].lines@.len()
                <= self.sinks@[i].capacity by {
                if i != id {
                    assert(self.sinks@[i] == old(self).sinks@[i]);
                }
            }
        }
        out
    }
}

} // verus!
