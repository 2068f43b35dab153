//! The diagnostic log ring: a bounded FIFO of structured entries that
//! every component appends to and a viewer reads back as a snapshot.
//!
//! The ring holds at most [`LOG_CAPACITY`] entries; admitting a new
//! entry at capacity evicts exactly the oldest one, so the ring always
//! retains the most recent entries in insertion order.

use std::collections::VecDeque;
use vstd::prelude::*;
use vstd::string::*;

verus! {

/// Fixed capacity of the log ring.
pub const LOG_CAPACITY: usize = 1000;

/// The clock is unavailable, so no timestamp could be put on an entry.
#[derive(Clone, Copy, Debug, PartialEq, Eq, Structural)]
pub struct TimestampError;

/// One structured log line. Immutable once created.
pub struct LogEntry {
    pub level: String,
    pub message: String,
    pub timestamp: String,
    pub target: String,
}

/// The mathematical content of a [`LogEntry`]: its four texts.
pub struct LogEntryView {
    pub level: Seq<char>,
    pub message: Seq<char>,
    pub timestamp: Seq<char>,
    pub target: Seq<char>,
}

impl View for LogEntry {
    type V = LogEntryView;

    open spec fn view(&self) -> LogEntryView {
        LogEntryView {
            level: self.level@,
            message: self.message@,
            timestamp: self.timestamp@,
            target: self.target@,
        }
    }
}

impl LogEntry {
    /// A field-for-field copy of the entry.
    pub fn duplicate(&self) -> (r: LogEntry)
        ensures
            r == *self,
    {
        LogEntry {
            level: self.level.clone(),
            message: self.message.clone(),
            timestamp: self.timestamp.clone(),
            target: self.target.clone(),
        }
    }
}

/// The ring after admitting `e`: a plain append while below capacity,
/// and an append with a single front eviction at capacity.
pub open spec fn spec_ring_push(ring: Seq<LogEntryView>, e: LogEntryView) -> Seq<LogEntryView> {
    if ring.len() >= LOG_CAPACITY {
        ring.drop_first().push(e)
    } else {
        ring.push(e)
    }
}

/// The last `LOG_CAPACITY` elements of `s`, in order; all of `s` when
/// it is short enough.
pub open spec fn spec_last_up_to_capacity(s: Seq<LogEntryView>) -> Seq<LogEntryView> {
    if s.len() > LOG_CAPACITY {
        s.skip(s.len() - LOG_CAPACITY)
    } else {
        s
    }
}

/// The ring that results from appending every element of `entries`, in
/// order, into an empty ring.
pub open spec fn spec_ring_after(entries: Seq<LogEntryView>) -> Seq<LogEntryView>
    decreases entries.len(),
{
    if entries.len() == 0 {
        Seq::empty()
    } else {
        spec_ring_push(spec_ring_after(entries.drop_last()), entries.last())
    }
}

/// Ring bound: a sequence of appends into an empty ring retains
/// exactly the last `LOG_CAPACITY` entries, in insertion order; in
/// particular the ring's length is the number of appends, capped at
/// the capacity.
pub proof fn lemma_ring_bound(entries: Seq<LogEntryView>)
    ensures
        spec_ring_after(entries) == spec_last_up_to_capacity(entries),
        spec_ring_after(entries).len() == if entries.len() <= LOG_CAPACITY {
            entries.len()
        } else {
            LOG_CAPACITY as nat
        },
    decreases entries.len(),
{
    if entries.len() == 0 {
        assert(spec_ring_after(entries) =~= spec_last_up_to_capacity(entries));
    } else {
        let prefix = entries.drop_last();
        lemma_ring_bound(prefix);
        if entries.len() <= LOG_CAPACITY {
            assert(spec_ring_push(prefix, entries.last()) =~= entries);
        } else {
            assert(spec_ring_after(prefix).len() == LOG_CAPACITY);
            assert(spec_ring_after(prefix).drop_first().push(entries.last())
                =~= spec_last_up_to_capacity(entries));
        }
    }
}

/// Timestamp text for an entry appended now.
///
/// Relies on `chrono::Local::now` for the local time, formatted to
/// second precision, and on `SystemTime::duration_since` to notice a
/// clock standing before the epoch, which counts as unavailable. The
/// text depends on the clock and the machine's time zone, so nothing
/// is promised of it.
#[verifier::external_body]
fn now_formatted() -> (r: Option<String>) {
    match std::time::SystemTime::now().duration_since(std::time::UNIX_EPOCH) {
        Ok(_) => Some(chrono::Local::now().format("%Y-%m-%d %H:%M:%S").to_string()),
        Err(_) => None,
    }
}

/// The bounded log ring. Owns its entries; every component writes
/// through [`LogState::add_entry`] and the viewer reads a snapshot.
pub struct LogState {
    pub entries: VecDeque<LogEntry>,
}

impl View for LogState {
    type V = Seq<LogEntryView>;

    open spec fn view(&self) -> Seq<LogEntryView> {
        self.entries@.map_values(|e: LogEntry| e@)
    }
}

/// Whether `post` is `pre` with one entry holding the given texts (and
/// some timestamp) admitted, under the ring's eviction rule.
pub open spec fn spec_logged(
    pre: Seq<LogEntryView>,
    post: Seq<LogEntryView>,
    level: Seq<char>,
    message: Seq<char>,
    target: Seq<char>,
) -> bool {
    exists|ts: Seq<char>|
        post == #[trigger] spec_ring_push(
            pre,
            LogEntryView { level, message, timestamp: ts, target },
        )
}

/// Whether one entry tagged `target` was admitted between `pre` and
/// `post`, whatever its level and message.
pub open spec fn spec_logged_tagged(
    pre: Seq<LogEntryView>,
    post: Seq<LogEntryView>,
    target: Seq<char>,
) -> bool {
    exists|lvl: Seq<char>, msg: Seq<char>| #[trigger] spec_logged(pre, post, lvl, msg, target)
}

/// Whether `post` is `pre` with exactly `k` entries tagged `target`
/// admitted, one after the other.
pub open spec fn spec_logged_steps(
    pre: Seq<LogEntryView>,
    post: Seq<LogEntryView>,
    target: Seq<char>,
    k: nat,
) -> bool
    decreases k,
{
    if k == 0 {
        post == pre
    } else {
        exists|mid: Seq<LogEntryView>|
            spec_logged_steps(pre, mid, target, (k - 1) as nat) && #[trigger] spec_logged_tagged(
                mid,
                post,
                target,
            )
    }
}

/// Whether `post` is `pre` with some number of entries tagged `target`
/// admitted — possibly none — and nothing else done to the ring.
pub open spec fn spec_log_trail(
    pre: Seq<LogEntryView>,
    post: Seq<LogEntryView>,
    target: Seq<char>,
) -> bool {
    exists|k: nat| spec_logged_steps(pre, post, target, k)
}

/// An untouched ring is a trail of zero entries.
pub proof fn lemma_trail_refl(s: Seq<LogEntryView>, target: Seq<char>)
    ensures
        spec_log_trail(s, s, target),
{
    assert(spec_logged_steps(s, s, target, 0));
}

/// Admitting one more tagged entry extends a trail.
pub proof fn lemma_trail_step(
    pre: Seq<LogEntryView>,
    mid: Seq<LogEntryView>,
    post: Seq<LogEntryView>,
    target: Seq<char>,
)
    requires
        spec_log_trail(pre, mid, target),
        spec_logged_tagged(mid, post, target),
    ensures
        spec_log_trail(pre, post, target),
{
    let k = choose|k: nat| spec_logged_steps(pre, mid, target, k);
    let next = (k + 1) as nat;
    assert(spec_logged_steps(pre, mid, target, (next - 1) as nat));
    assert(spec_logged_steps(pre, post, target, next));
}

/// Appends one entry best-effort, as the pipelines log their steps: a
/// clock failure is swallowed and the ring left alone, so in either
/// case the ring extends the trail of `target`-tagged entries rooted
/// at `base`.
pub(crate) fn add_entry_best_effort(
    log: &mut LogState,
    level: &str,
    message: &str,
    target: &str,
    Ghost(base): Ghost<Seq<LogEntryView>>,
)
    requires
        old(log).wf(),
        spec_log_trail(base, old(log)@, target@),
    ensures
        final(log).wf(),
        spec_log_trail(base, final(log)@, target@),
{
    let ghost pre = log@;
    let r = log.add_entry(level, message, target);
    proof {
        match r {
            Ok(()) => {
                assert(spec_logged_tagged(pre, log@, target@));
                lemma_trail_step(base, pre, log@, target@);
            },
            Err(_) => {},
        }
    }
}

impl LogState {
    /// The ring never grows past its capacity.
    pub open spec fn wf(&self) -> bool {
        self@.len() <= LOG_CAPACITY
    }

    /// An empty ring.
    pub fn new() -> (r: LogState)
        ensures
            r@ == Seq::<LogEntryView>::empty(),
            r.wf(),
    {
        let r = LogState { entries: VecDeque::with_capacity(LOG_CAPACITY) };
        assert(r@ =~= Seq::<LogEntryView>::empty());
        r
    }

    /// Admits an entry with the given texts and timestamp, evicting the
    /// oldest entry when the ring stands at capacity.
    pub fn add_entry_at(&mut self, level: &str, message: &str, target: &str, timestamp: String)
        requires
            old(self).wf(),
        ensures
            final(self).wf(),
            final(self)@ == spec_ring_push(
                old(self)@,
                LogEntryView {
                    level: level@,
                    message: message@,
                    timestamp: timestamp@,
                    target: target@,
                },
            ),
    {
        let entry = LogEntry {
            level: level.to_owned(),
            message: message.to_owned(),
            timestamp,
            target: target.to_owned(),
        };
        let ghost entry_view = entry@;
        let ghost pre = self@;
        if self.entries.len() >= LOG_CAPACITY {
            let evicted = self.entries.pop_front();
            proof {
                assert(self@ =~= pre.drop_first());
            }
        }
        let ghost mid = self@;
        self.entries.push_back(entry);
        proof {
            assert(self@ =~= mid.push(entry_view));
        }
    }

    /// Appends one entry stamped with the current local time. Fails,
    /// leaving the ring unchanged, exactly when the clock gives no
    /// timestamp; callers treat that as non-fatal.
    pub fn add_entry(&mut self, level: &str, message: &str, target: &str) -> (r: Result<
        (),
        TimestampError,
    >)
        requires
            old(self).wf(),
        ensures
            final(self).wf(),
            match r {
                Ok(()) => spec_logged(old(self)@, final(self)@, level@, message@, target@),
                Err(_) => final(self)@ == old(self)@,
            },
    {
        match now_formatted() {
            Some(ts) => {
                let ghost ts_view = ts@;
                self.add_entry_at(level, message, target, ts);
                proof {
                    assert(final(self)@ == spec_ring_push(
                        old(self)@,
                        LogEntryView {
                            level: level@,
                            message: message@,
                            timestamp: ts_view,
                            target: target@,
                        },
                    ));
                }
                Ok(())
            },
            None => Err(TimestampError),
        }
    }

    /// A copy of the retained entries, oldest first, safe to hand out
    /// and iterate without touching the ring again.
    pub fn snapshot(&self) -> (r: Vec<LogEntry>)
        ensures
            r@ == self.entries@,
    {
        let mut out: Vec<LogEntry> = Vec::new();
        let n = self.entries.len();
        let mut i: usize = 0;
        while i < n
            invariant
                i <= n,
                n == self.entries@.len(),
                out@ == self.entries@.subrange(0, i as int),
            decreases n - i,
        {
            out.push(self.entries[i].duplicate());
            proof {
                assert(out@ =~= self.entries@.subrange(0, i + 1));
            }
            i = i + 1;
        }
        proof {
            assert(self.entries@.subrange(0, n as int) =~= self.entries@);
        }
        out
    }

    /// Number of retained entries.
    pub fn len(&self) -> (r: usize)
        ensures
            r == self@.len(),
    {
        self.entries.len()
    }

    /// Drops every entry.
    pub fn clear(&mut self)
        ensures
            final(self)@ == Seq::<LogEntryView>::empty(),
            final(self).wf(),
    {
        self.entries.clear();
        assert(final(self)@ =~= Seq::<LogEntryView>::empty());
    }
}

} // verus!
