//! The session log: the most recent lines of a session, oldest first.

use std::collections::VecDeque;
use vstd::prelude::*;
use crate::text::texts;

verus! {

/// The largest number of lines that the log retains.
pub const LOG_CAPACITY: usize = 500;

/// The last `n` entries of `lines`, or all of them where there are fewer.
pub open spec fn keep_last(lines: Seq<Seq<char>>, n: nat) -> Seq<Seq<char>> {
    if lines.len() <= n {
        lines
    } else {
        lines.skip(lines.len() - n)
    }
}

/// A log's contents after `line` is appended: the line goes to the tail, and
/// the oldest entries leave from the head until the capacity holds again.
pub open spec fn appended(lines: Seq<Seq<char>>, line: Seq<char>) -> Seq<Seq<char>> {
    keep_last(lines.push(line), LOG_CAPACITY as nat)
}

/// A log's contents after each of `lines` is appended in turn.
pub open spec fn appended_all(log: Seq<Seq<char>>, lines: Seq<Seq<char>>) -> Seq<Seq<char>>
    decreases lines.len(),
{
    if lines.len() == 0 {
        log
    } else {
        appended(appended_all(log, lines.drop_last()), lines.last())
    }
}

/// An append-only log of display lines that retains at most `LOG_CAPACITY`
/// of them and drops the oldest first.
#[derive(Debug)]
pub struct SessionLog {
    entries: VecDeque<String>,
}

impl View for SessionLog {
    type V = Seq<Seq<char>>;

    closed spec fn view(&self) -> Seq<Seq<char>> {
        Seq::new(self.entries@.len(), |i: int| self.entries@[i]@)
    }
}

impl SessionLog {
    #[verifier::type_invariant]
    spec fn within_capacity(self) -> bool {
        self.entries@.len() <= LOG_CAPACITY
    }

    /// An empty log.
    pub fn new() -> (log: Self)
        ensures
            log@ == Seq::<Seq<char>>::empty(),
    {
        let log = SessionLog { entries: VecDeque::new() };
        assert(log@ =~= Seq::<Seq<char>>::empty());
        log
    }

    /// The number of lines in the log, never more than `LOG_CAPACITY`.
    pub fn len(&self) -> (n: usize)
        ensures
            n == self@.len(),
            n <= LOG_CAPACITY,
    {
        proof {
            use_type_invariant(self);
        }
        self.entries.len()
    }

    /// Adds `line` at the tail; a full log first drops its oldest line.
    pub fn append(&mut self, line: &str)
        ensures
            final(self)@ == appended(old(self)@, line@),
            final(self)@.len() <= LOG_CAPACITY,
    {
        proof {
            use_type_invariant(&*self);
        }
        let ghost before = self@;
        let mut entries: VecDeque<String> = VecDeque::new();
        std::mem::swap(&mut entries, &mut self.entries);
        if entries.len() >= LOG_CAPACITY {
            let _ = entries.pop_front();
        }
        entries.push_back(line.to_string());
        std::mem::swap(&mut entries, &mut self.entries);
        proof {
            assert(self@ =~= appended(before, line@));
        }
    }

    /// The most recent `n` lines, oldest first, or all of them where the log
    /// holds fewer. The log itself is left as it is.
    pub fn recent(&self, n: usize) -> (lines: Vec<String>)
        ensures
            texts(lines@) == keep_last(self@, n as nat),
    {
        let len = self.entries.len();
        let start = if len <= n { 0 } else { len - n };
        let mut lines: Vec<String> = Vec::new();
        let mut i: usize = start;
        while i < len
            invariant
                start <= i <= len == self.entries@.len(),
                lines@.len() == i - start,
                forall|k: int| 0 <= k < lines@.len() ==> lines@[k]@ == self.entries@[start + k]@,
            decreases len - i,
        {
            lines.push(self.entries[i].clone());
            i += 1;
        }
        proof {
            assert(texts(lines@) =~= keep_last(self@, n as nat));
        }
        lines
    }
}

/// Taking the last `n` lines of the last `n` lines changes nothing, and the
/// result has `n` lines or, where there are fewer, all of them.
pub proof fn lemma_keep_last(lines: Seq<Seq<char>>, n: nat)
    ensures
        keep_last(keep_last(lines, n), n) == keep_last(lines, n),
        keep_last(lines, n).len() == if lines.len() <= n { lines.len() } else { n },
        forall|i: int| 0 <= i < keep_last(lines, n).len() ==> keep_last(lines, n)[i] == lines[
            lines.len() - keep_last(lines, n).len() + i],
{
}

/// A log never grows past its capacity.
pub proof fn lemma_appended_len(log: Seq<Seq<char>>, line: Seq<char>)
    ensures
        appended(log, line).len() <= LOG_CAPACITY,
        log.len() < LOG_CAPACITY ==> appended(log, line) == log.push(line),
        log.len() >= LOG_CAPACITY ==> appended(log, line) == log.skip(
            log.len() + 1 - LOG_CAPACITY,
        ).push(line),
{
    if log.len() >= LOG_CAPACITY {
        assert(appended(log, line) =~= log.skip(log.len() + 1 - LOG_CAPACITY).push(line));
    }
}

/// After any run of appends to an empty log, the log holds exactly the last
/// `LOG_CAPACITY` of the appended lines, in the order in which they came.
pub proof fn lemma_appended_all(lines: Seq<Seq<char>>)
    ensures
        appended_all(Seq::empty(), lines) == keep_last(lines, LOG_CAPACITY as nat),
    decreases lines.len(),
{
    if lines.len() > 0 {
        lemma_appended_all(lines.drop_last());
        assert(lines.drop_last().push(lines.last()) =~= lines);
        assert(keep_last(keep_last(lines.drop_last(), LOG_CAPACITY as nat).push(lines.last()),
            LOG_CAPACITY as nat) =~= keep_last(lines, LOG_CAPACITY as nat));
    }
}

/// After any run of appends to an empty log, a request for the most recent
/// `n` lines is answered from the last `LOG_CAPACITY` of the appended lines.
pub proof fn lemma_recent_after_appends(lines: Seq<Seq<char>>, n: nat)
    ensures
        keep_last(appended_all(Seq::empty(), lines), n) == keep_last(
            lines,
            if n <= LOG_CAPACITY {
                n
            } else {
                LOG_CAPACITY as nat
            },
        ),
{
    lemma_appended_all(lines);
    let kept = keep_last(lines, LOG_CAPACITY as nat);
    let m = if n <= LOG_CAPACITY { n } else { LOG_CAPACITY as nat };
    assert(keep_last(kept, n) =~= keep_last(lines, m));
}

/// When more distinct lines are appended to an empty log than it retains,
/// the first of them is no longer in the log.
pub proof fn lemma_first_line_evicted(lines: Seq<Seq<char>>)
    requires
        lines.len() > LOG_CAPACITY,
        lines.no_duplicates(),
    ensures
        !appended_all(Seq::empty(), lines).contains(lines[0]),
{
    lemma_appended_all(lines);
    let kept = keep_last(lines, LOG_CAPACITY as nat);
    if kept.contains(lines[0]) {
        let i = choose|i: int| 0 <= i < kept.len() && kept[i] == lines[0];
        assert(kept[i] == lines[lines.len() - LOG_CAPACITY + i]);
    }
}

} // verus!
