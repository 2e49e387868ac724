//! The polling log viewer's memory: entries are deduplicated across polls by
//! their millisecond timestamp, tracked in a growing set for the lifetime of
//! the loop.

use vstd::prelude::*;

use crate::subquery::types::LogResult;

verus! {

impl Clone for LogResult {
    fn clone(&self) -> (r: Self)
        ensures
            r == *self,
    {
        LogResult {
            level: self.level.clone(),
            message: self.message.clone(),
            category: self.category.clone(),
            timestamp: self.timestamp,
        }
    }
}

/// One poll over a batch: entries whose timestamp was already seen are
/// dropped, the others are kept in order and their timestamps become seen —
/// so a timestamp repeated within one batch is also kept only once. The
/// result is the pair (entries kept, timestamps seen afterwards).
pub open spec fn spec_poll(seen: Seq<i64>, entries: Seq<LogResult>) -> (Seq<LogResult>, Seq<i64>)
    decreases entries.len(),
{
    if entries.len() == 0 {
        (Seq::<LogResult>::empty(), seen)
    } else {
        let e = entries[0];
        let rest = entries.drop_first();
        if seen.contains(e.timestamp) {
            spec_poll(seen, rest)
        } else {
            let tail = spec_poll(seen.push(e.timestamp), rest);
            (seq![e] + tail.0, tail.1)
        }
    }
}

/// Appending one entry to a batch extends the poll by one step.
proof fn lemma_poll_snoc(seen: Seq<i64>, es: Seq<LogResult>, e: LogResult)
    ensures
        ({
            let mid = spec_poll(seen, es);
            let whole = spec_poll(seen, es.push(e));
            if mid.1.contains(e.timestamp) {
                whole == mid
            } else {
                whole.0 == mid.0.push(e) && whole.1 == mid.1.push(e.timestamp)
            }
        }),
    decreases es.len(),
{
    if es.len() == 0 {
        reveal_with_fuel(spec_poll, 3);
        let single = es.push(e);
        assert(single[0] == e);
        assert(single.drop_first() =~= Seq::<LogResult>::empty());
        if !seen.contains(e.timestamp) {
            assert(spec_poll(seen.push(e.timestamp), single.drop_first()) == spec_poll(
                seen.push(e.timestamp),
                Seq::<LogResult>::empty(),
            ));
            assert(spec_poll(seen, single).0 =~= Seq::<LogResult>::empty().push(e));
        }
    } else {
        let h = es[0];
        let rest = es.drop_first();
        assert(es.push(e)[0] == h);
        assert(es.push(e).drop_first() =~= rest.push(e));
        if seen.contains(h.timestamp) {
            lemma_poll_snoc(seen, rest, e);
        } else {
            lemma_poll_snoc(seen.push(h.timestamp), rest, e);
            let mid_tail = spec_poll(seen.push(h.timestamp), rest);
            if !mid_tail.1.contains(e.timestamp) {
                assert(spec_poll(seen, es.push(e)).0 =~= (seq![h] + mid_tail.0).push(e));
            }
        }
    }
}

/// After a poll, every timestamp that was seen stays seen and every
/// timestamp of the batch is seen.
pub proof fn lemma_poll_seen_grows(seen: Seq<i64>, es: Seq<LogResult>)
    ensures
        forall|t: i64| seen.contains(t) ==> #[trigger] spec_poll(seen, es).1.contains(t),
        forall|x: int|
            0 <= x < es.len() ==> spec_poll(seen, es).1.contains(#[trigger] es[x].timestamp),
    decreases es.len(),
{
    if es.len() == 0 {
    } else {
        let e = es[0];
        let rest = es.drop_first();
        if seen.contains(e.timestamp) {
            lemma_poll_seen_grows(seen, rest);
            assert(spec_poll(seen, es) == spec_poll(seen, rest));
            assert(spec_poll(seen, rest).1.contains(e.timestamp));
            assert forall|x: int|
                0 <= x < es.len() implies spec_poll(seen, es).1.contains(es[x].timestamp) by {
                if x > 0 {
                    assert(rest[x - 1] == es[x]);
                    assert(spec_poll(seen, rest).1.contains(rest[x - 1].timestamp));
                }
            }
        } else {
            let grown = seen.push(e.timestamp);
            lemma_poll_seen_grows(grown, rest);
            assert(spec_poll(seen, es).1 == spec_poll(grown, rest).1);
            assert(grown[seen.len() as int] == e.timestamp);
            assert(grown.contains(e.timestamp));
            assert forall|t: i64| seen.contains(t) implies spec_poll(seen, es).1.contains(t) by {
                let i = choose|i: int| 0 <= i < seen.len() && seen[i] == t;
                assert(grown[i] == t);
                assert(grown.contains(t));
                assert(spec_poll(grown, rest).1.contains(t));
            }
            assert forall|x: int|
                0 <= x < es.len() implies spec_poll(seen, es).1.contains(es[x].timestamp) by {
                if x == 0 {
                    assert(spec_poll(grown, rest).1.contains(e.timestamp));
                } else {
                    assert(rest[x - 1] == es[x]);
                    assert(spec_poll(grown, rest).1.contains(rest[x - 1].timestamp));
                }
            }
        }
    }
}

/// A poll returns no entry whose timestamp was already seen.
pub proof fn lemma_poll_fresh(seen: Seq<i64>, es: Seq<LogResult>)
    ensures
        forall|y: int|
            0 <= y < spec_poll(seen, es).0.len() ==> !seen.contains(
                #[trigger] spec_poll(seen, es).0[y].timestamp,
            ),
    decreases es.len(),
{
    if es.len() == 0 {
    } else {
        let e = es[0];
        let rest = es.drop_first();
        if seen.contains(e.timestamp) {
            lemma_poll_fresh(seen, rest);
            assert(spec_poll(seen, es) == spec_poll(seen, rest));
            assert forall|y: int|
                0 <= y < spec_poll(seen, es).0.len() implies !seen.contains(
                spec_poll(seen, es).0[y].timestamp,
            ) by {
                assert(!seen.contains(spec_poll(seen, rest).0[y].timestamp));
            }
        } else {
            let grown = seen.push(e.timestamp);
            lemma_poll_fresh(grown, rest);
            let tail = spec_poll(grown, rest);
            let whole = spec_poll(seen, es);
            assert forall|t: i64| seen.contains(t) implies grown.contains(t) by {
                let i = choose|i: int| 0 <= i < seen.len() && seen[i] == t;
                assert(grown[i] == t);
            }
            assert forall|y: int|
                0 <= y < whole.0.len() implies !seen.contains(whole.0[y].timestamp) by {
                if y == 0 {
                    assert(whole.0[0] == e);
                } else {
                    assert(whole.0[y] == tail.0[y - 1]);
                    assert(!grown.contains(tail.0[y - 1].timestamp));
                }
            }
        }
    }
}

/// Feeding the same log entry — the same timestamp — across two consecutive
/// polls prints it at most once: after the first poll its timestamp is seen,
/// and the second poll returns no entry with a seen timestamp.
pub proof fn lemma_poll_dedup(seen: Seq<i64>, first: Seq<LogResult>, second: Seq<LogResult>)
    ensures
        forall|x: int|
            0 <= x < first.len() ==> spec_poll(seen, first).1.contains(
                #[trigger] first[x].timestamp,
            ),
        forall|y: int|
            0 <= y < spec_poll(spec_poll(seen, first).1, second).0.len()
                ==> !spec_poll(seen, first).1.contains(
                #[trigger] spec_poll(spec_poll(seen, first).1, second).0[y].timestamp,
            ),
{
    lemma_poll_seen_grows(seen, first);
    lemma_poll_fresh(spec_poll(seen, first).1, second);
}

fn seen_contains(seen: &Vec<i64>, ts: i64) -> (r: bool)
    ensures
        r == seen@.contains(ts),
{
    let mut i: usize = 0;
    while i < seen.len()
        invariant
            0 <= i <= seen@.len(),
            forall|j: int| 0 <= j < i ==> seen@[j] != ts,
        decreases seen@.len() - i,
    {
        if seen[i] == ts {
            return true;
        }
        i = i + 1;
    }
    false
}

/// The viewer's memory across polls.
pub struct LogWatcher {
    seen: Vec<i64>,
}

impl LogWatcher {
    /// The timestamps seen so far.
    pub closed spec fn spec_seen(self) -> Seq<i64> {
        self.seen@
    }

    /// A fresh viewer that has seen nothing.
    pub fn new() -> (r: Self)
        ensures
            r.spec_seen() == Seq::<i64>::empty(),
    {
        Self { seen: Vec::new() }
    }

    /// One poll: returns the entries to print, in order, and remembers
    /// their timestamps.
    pub fn poll(&mut self, entries: &Vec<LogResult>) -> (out: Vec<LogResult>)
        ensures
            out@ == spec_poll(old(self).spec_seen(), entries@).0,
            final(self).spec_seen() == spec_poll(old(self).spec_seen(), entries@).1,
    {
        let ghost seen0 = self.seen@;
        let mut out: Vec<LogResult> = Vec::new();
        let mut i: usize = 0;
        while i < entries.len()
            invariant
                0 <= i <= entries@.len(),
                out@ == spec_poll(seen0, entries@.take(i as int)).0,
                self.seen@ == spec_poll(seen0, entries@.take(i as int)).1,
            decreases entries@.len() - i,
        {
            let e = &entries[i];
            proof {
                lemma_poll_snoc(seen0, entries@.take(i as int), entries@[i as int]);
                assert(entries@.take(i as int + 1) =~= entries@.take(i as int).push(
                    entries@[i as int],
                ));
            }
            if !seen_contains(&self.seen, e.timestamp) {
                self.seen.push(e.timestamp);
                out.push(e.clone());
            }
            i = i + 1;
        }
        proof {
            assert(entries@.take(entries@.len() as int) =~= entries@);
        }
        out
    }
}

} // verus!
