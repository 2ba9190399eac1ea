//! The back end: it counts and filters the events of each stream, buffers
//! what the network side hands to the data side, and keeps the registry of
//! accepted streams.
use std::collections::HashMap;
use std::collections::VecDeque;
use std::sync::Arc;
use vstd::prelude::*;
use vstd::string::StringSliceAdditionalSpecFns;
use vstd::utf8::encode_utf8;

use crate::data::{declared_after, lemma_rank_follows_severity, level_rank, Level};
use crate::event::{share, DashboardEvent};
use crate::text::{decimal, push_decimal, push_str};

pub mod stream;

verus! {

/// Events that the back end sends to the front end of one stream (none yet).
pub struct BakcendEvent {}

/// How many events a stream holds, in all and per level.
#[derive(Debug, Clone, Copy)]
pub struct LogCounts {
    pub total: usize,
    pub trace: usize,
    pub debug: usize,
    pub info: usize,
    pub warn: usize,
    pub error: usize,
}

/// Number of events of level `l` in `logs`.
pub open spec fn count_level(logs: Seq<Arc<DashboardEvent>>, l: Level) -> nat
    decreases logs.len(),
{
    if logs.len() == 0 {
        0
    } else {
        count_level(logs.drop_last(), l) + if logs.last().level == l {
            1nat
        } else {
            0nat
        }
    }
}

/// The counts that describe `logs`.
pub open spec fn counts_match(c: LogCounts, logs: Seq<Arc<DashboardEvent>>) -> bool {
    &&& c.total == logs.len()
    &&& c.trace == count_level(logs, Level::Trace)
    &&& c.debug == count_level(logs, Level::Debug)
    &&& c.info == count_level(logs, Level::Info)
    &&& c.warn == count_level(logs, Level::Warn)
    &&& c.error == count_level(logs, Level::Error)
}

/// All counts are zero.
pub open spec fn counts_are_zero(c: LogCounts) -> bool {
    c.total == 0 && c.trace == 0 && c.debug == 0 && c.info == 0 && c.warn == 0 && c.error == 0
}

/// No level occurs more often than there are events.
pub proof fn lemma_count_level_bounded(logs: Seq<Arc<DashboardEvent>>, l: Level)
    ensures
        count_level(logs, l) <= logs.len(),
    decreases logs.len(),
{
    if logs.len() > 0 {
        lemma_count_level_bounded(logs.drop_last(), l);
    }
}

/// Every event has exactly one level: the per-level counts of a sequence
/// of events add up to its length.
pub proof fn lemma_level_counts_sum(logs: Seq<Arc<DashboardEvent>>)
    ensures
        count_level(logs, Level::Trace) + count_level(logs, Level::Debug) + count_level(
            logs,
            Level::Info,
        ) + count_level(logs, Level::Warn) + count_level(logs, Level::Error) == logs.len(),
    decreases logs.len(),
{
    if logs.len() > 0 {
        lemma_level_counts_sum(logs.drop_last());
    }
}

/// Counting distributes over concatenation.
pub proof fn lemma_count_level_add(a: Seq<Arc<DashboardEvent>>, b: Seq<Arc<DashboardEvent>>, l: Level)
    ensures
        count_level(a + b, l) == count_level(a, l) + count_level(b, l),
    decreases b.len(),
{
    if b.len() == 0 {
        assert(a + b =~= a);
    } else {
        lemma_count_level_add(a, b.drop_last(), l);
        assert((a + b).drop_last() =~= a + b.drop_last());
    }
}

impl LogCounts {
    /// All counts zero.
    pub fn zero() -> (c: LogCounts)
        ensures
            counts_are_zero(c),
    {
        LogCounts { total: 0, trace: 0, debug: 0, info: 0, warn: 0, error: 0 }
    }

    /// Counts the events of `logs`, in all and per level.
    pub fn from_logs(logs: &VecDeque<Arc<DashboardEvent>>) -> (c: LogCounts)
        ensures
            counts_match(c, logs@),
    {
        let mut counts = LogCounts::zero();
        let n = logs.len();
        let mut i: usize = 0;
        while i < n
            invariant
                n == logs@.len(),
                i <= n,
                counts_match(counts, logs@.take(i as int)),
            decreases n - i,
        {
            let ghost prefix = logs@.take(i as int);
            let ghost next = logs@.take(i + 1);
            assert(next.drop_last() =~= prefix);
            proof {
                lemma_count_level_bounded(prefix, Level::Trace);
                lemma_count_level_bounded(prefix, Level::Debug);
                lemma_count_level_bounded(prefix, Level::Info);
                lemma_count_level_bounded(prefix, Level::Warn);
                lemma_count_level_bounded(prefix, Level::Error);
            }
            match logs[i].level {
                Level::Trace => counts.trace = counts.trace + 1,
                Level::Debug => counts.debug = counts.debug + 1,
                Level::Info => counts.info = counts.info + 1,
                Level::Warn => counts.warn = counts.warn + 1,
                Level::Error => counts.error = counts.error + 1,
            }
            counts.total = counts.total + 1;
            i = i + 1;
        }
        assert(logs@.take(n as int) =~= logs@);
        counts
    }

    /// Sets every count back to zero.
    pub fn reset(&mut self)
        ensures
            counts_are_zero(*final(self)),
    {
        *self = LogCounts::zero();
    }
}

impl Default for LogCounts {
    fn default() -> (c: LogCounts)
        ensures
            counts_are_zero(c),
    {
        LogCounts::zero()
    }
}

/// The counts of any sequence of events add up: the total is the sum of
/// the per-level counts.
pub proof fn lemma_counts_total_is_sum(c: LogCounts, logs: Seq<Arc<DashboardEvent>>)
    requires
        counts_match(c, logs),
    ensures
        c.total == c.trace + c.debug + c.info + c.warn + c.error,
{
    lemma_level_counts_sum(logs);
}

/// `b` with ASCII upper-case letters turned to lower case, as
/// `u8::to_ascii_lowercase` does.
pub open spec fn ascii_lower(b: u8) -> int {
    if 65 <= b <= 90 {
        b + 32
    } else {
        b as int
    }
}

/// The bytes of `hay` from `start` on begin with `needle`, ignoring ASCII case.
pub open spec fn window_matches(hay: Seq<u8>, needle: Seq<u8>, start: int) -> bool {
    forall|j: int| 0 <= j < needle.len() ==> ascii_lower(#[trigger] hay[start + j]) == ascii_lower(needle[j])
}

/// `needle` is empty, or occurs somewhere in `hay` ignoring ASCII case.
pub open spec fn contains_ignoring_ascii_case(hay: Seq<u8>, needle: Seq<u8>) -> bool {
    needle.len() == 0 || exists|start: int|
        0 <= start && start + needle.len() <= hay.len() && #[trigger] window_matches(hay, needle, start)
}

fn to_lower(b: u8) -> (r: u8)
    ensures
        r == ascii_lower(b),
{
    if 65 <= b && b <= 90 {
        b + 32
    } else {
        b
    }
}

/// Whether the bytes of `needle` occur in the bytes of `haystack`, ASCII
/// letters compared without regard to case. An empty needle is found
/// everywhere.
pub fn contains_case_insensitive(haystack: &str, needle: &str) -> (found: bool)
    ensures
        found == contains_ignoring_ascii_case(haystack.spec_bytes(), needle.spec_bytes()),
{
    let hay = haystack.as_bytes();
    let pat = needle.as_bytes();
    let needle_len = pat.len();
    if needle_len == 0 {
        return true;
    }
    let hay_len = hay.len();
    if needle_len > hay_len {
        return false;
    }
    let last = hay_len - needle_len;
    let mut start: usize = 0;
    while start <= last
        invariant
            hay@ == haystack.spec_bytes(),
            pat@ == needle.spec_bytes(),
            needle_len == pat@.len(),
            needle_len > 0,
            last + needle_len == hay@.len(),
            hay_len == hay@.len(),
            forall|s: int| 0 <= s < start ==> !window_matches(hay@, pat@, s),
        decreases last + 1 - start,
    {
        let mut j: usize = 0;
        let mut all = true;
        while j < needle_len
            invariant
                start <= last,
                last + needle_len == hay@.len(),
                hay_len == hay@.len(),
                needle_len == pat@.len(),
                j <= needle_len,
                all == (forall|k: int| 0 <= k < j ==> ascii_lower(#[trigger] hay@[start + k]) == ascii_lower(pat@[k])),
            decreases needle_len - j,
        {
            let same = to_lower(hay[start + j]) == to_lower(pat[j]);
            if !same {
                all = false;
            }
            j = j + 1;
        }
        if all {
            assert(window_matches(hay@, pat@, start as int));
            return true;
        }
        assert(!window_matches(hay@, pat@, start as int)) by {
            let k = choose|k: int| 0 <= k < needle_len && ascii_lower(#[trigger] hay@[start + k]) != ascii_lower(pat@[k]);
            assert(ascii_lower(hay@[start + k]) != ascii_lower(pat@[k]));
        }
        start = start + 1;
    }
    false
}

/// UTF-8 encoding distributes over concatenation.
pub proof fn lemma_encode_utf8_append(a: Seq<char>, b: Seq<char>)
    ensures
        encode_utf8(a + b) == encode_utf8(a) + encode_utf8(b),
    decreases a.len(),
{
    if a.len() > 0 {
        assert((a + b).drop_first() =~= a.drop_first() + b);
        lemma_encode_utf8_append(a.drop_first(), b);
        assert((a + b)[0] == a[0]);
        assert(encode_utf8(a + b) =~= encode_utf8(a) + encode_utf8(b));
    } else {
        assert(a + b =~= b);
        assert(encode_utf8(a) =~= Seq::<u8>::empty());
        assert(encode_utf8(a) + encode_utf8(b) =~= encode_utf8(b));
    }
}

/// A match ignoring ASCII case survives text written before and after the
/// haystack: when `needle` is found in `hay`, it is found in
/// `prefix + hay + suffix`.
pub proof fn lemma_match_survives_surrounding_text(prefix: Seq<char>, hay: Seq<char>, suffix: Seq<char>, needle: Seq<char>)
    requires
        contains_ignoring_ascii_case(encode_utf8(hay), encode_utf8(needle)),
    ensures
        contains_ignoring_ascii_case(encode_utf8(prefix + hay + suffix), encode_utf8(needle)),
{
    lemma_encode_utf8_append(prefix, hay);
    lemma_encode_utf8_append(prefix + hay, suffix);
    let p = encode_utf8(prefix);
    let h = encode_utf8(hay);
    let n = encode_utf8(needle);
    let whole = encode_utf8(prefix + hay + suffix);
    assert(whole == p + h + encode_utf8(suffix));
    if n.len() > 0 {
        let start = choose|start: int| 0 <= start && start + n.len() <= h.len() && #[trigger] window_matches(h, n, start);
        assert forall|j: int| 0 <= j < n.len() implies ascii_lower(#[trigger] whole[start + p.len() + j]) == ascii_lower(n[j]) by {
            assert(whole[start + p.len() + j] == h[start + j]);
            assert(ascii_lower(h[start + j]) == ascii_lower(n[j]));
        }
        assert(window_matches(whole, n, start + p.len()));
    }
}

/// An event's message is shown for the search string `search`: the search
/// is empty, or its bytes occur in the message's bytes ignoring ASCII case.
pub open spec fn message_matches(e: DashboardEvent, search: Seq<char>) -> bool {
    search.len() == 0 || contains_ignoring_ascii_case(encode_utf8(e.message@), encode_utf8(search))
}

/// An event is shown under the level filter `min` and the search `search`:
/// it is at least as severe as `min` and its message matches the search.
pub open spec fn passes_filter(e: DashboardEvent, min: Level, search: Seq<char>) -> bool {
    level_rank(e.level) >= level_rank(min) && message_matches(e, search)
}

/// The events of `logs` that are shown under `min` and `search`, in order.
pub open spec fn filter_logs(logs: Seq<Arc<DashboardEvent>>, min: Level, search: Seq<char>) -> Seq<Arc<DashboardEvent>> {
    logs.filter(|e: Arc<DashboardEvent>| passes_filter(*e, min, search))
}

/// Whether `event` is shown under the level filter `min` and the search
/// string `search` (an empty search matches every message).
pub fn event_passes(event: &DashboardEvent, min: Level, search: &str) -> (shown: bool)
    ensures
        shown == passes_filter(*event, min, search@),
{
    if !event.level.at_least(&min) {
        return false;
    }
    if !search.is_empty() {
        contains_case_insensitive(event.message.as_str(), search)
    } else {
        true
    }
}

/// Filtering the concatenation of two sequences of events gives the
/// concatenation of their filtered sequences.
pub proof fn lemma_filter_logs_add(
    a: Seq<Arc<DashboardEvent>>,
    b: Seq<Arc<DashboardEvent>>,
    min: Level,
    search: Seq<char>,
)
    ensures
        filter_logs(a + b, min, search) == filter_logs(a, min, search) + filter_logs(b, min, search),
{
    Seq::filter_distributes_over_add(a, b, |e: Arc<DashboardEvent>| passes_filter(*e, min, search));
}

/// The shown events of `logs`, in order, sharing the events with `logs`.
pub fn filter_events(logs: &VecDeque<Arc<DashboardEvent>>, min: Level, search: &str) -> (shown: VecDeque<Arc<DashboardEvent>>)
    ensures
        shown@ == filter_logs(logs@, min, search@),
{
    let mut shown: VecDeque<Arc<DashboardEvent>> = VecDeque::new();
    let n = logs.len();
    let mut i: usize = 0;
    while i < n
        invariant
            n == logs@.len(),
            i <= n,
            shown@ == filter_logs(logs@.take(i as int), min, search@),
        decreases n - i,
    {
        let ghost prefix = logs@.take(i as int);
        let ghost next = logs@.take(i + 1);
        assert(next.drop_last() =~= prefix);
        assert(next.last() == logs@[i as int]);
        reveal_with_fuel(Seq::filter, 1);
        if event_passes(&logs[i], min, search) {
            shown.push_back(share(&logs[i]));
        }
        i = i + 1;
    }
    assert(logs@.take(n as int) =~= logs@);
    shown
}

/// A buffer the network side appends events to and the data side empties
/// in one step, getting everything appended since it last did so.
pub struct LogAppendBuf<T> {
    items: VecDeque<T>,
}

impl<T> View for LogAppendBuf<T> {
    type V = Seq<T>;

    closed spec fn view(&self) -> Seq<T> {
        self.items@
    }
}

impl<T> LogAppendBuf<T> {
    /// An empty buffer.
    pub fn new() -> (b: Self)
        ensures
            b@ == Seq::<T>::empty(),
    {
        LogAppendBuf { items: VecDeque::new() }
    }

    /// Appends one item.
    pub fn push(&mut self, item: T)
        ensures
            final(self)@ == old(self)@.push(item),
    {
        self.items.push_back(item);
    }

    /// Appends the items of `items`, in order.
    pub fn push_batch(&mut self, items: VecDeque<T>)
        ensures
            final(self)@ == old(self)@ + items@,
    {
        let mut items = items;
        self.items.append(&mut items);
    }

    /// Takes everything the buffer holds, in the order it was appended,
    /// and leaves it empty.
    pub fn swap(&mut self) -> (taken: VecDeque<T>)
        ensures
            taken@ == old(self)@,
            final(self)@ == Seq::<T>::empty(),
    {
        let mut new_buf: VecDeque<T> = VecDeque::new();
        std::mem::swap(&mut self.items, &mut new_buf);
        new_buf
    }
}

/// The streams the back end knows of: connections accepted but not yet
/// opened in a pane (`P`), and streams running (`S`), each under its id.
/// Ids are handed out in increasing order from 1.
pub struct StreamRegistry<P, S> {
    pending_streams: HashMap<usize, P>,
    streams: HashMap<usize, S>,
    last_stream_id: usize,
}

impl<P, S> StreamRegistry<P, S> {
    /// Accepted connections waiting for a pane, by id.
    pub closed spec fn pending(&self) -> Map<usize, P> {
        self.pending_streams@
    }

    /// Running streams, by id.
    pub closed spec fn running(&self) -> Map<usize, S> {
        self.streams@
    }

    /// The last id handed out (0 before the first).
    pub closed spec fn last_id(&self) -> nat {
        self.last_stream_id as nat
    }

    /// Every id in use was handed out already.
    #[verifier::type_invariant]
    closed spec fn ids_handed_out(&self) -> bool {
        &&& forall|k: usize| #[trigger] self.pending_streams@.contains_key(k) ==> 1 <= k <= self.last_stream_id
        &&& forall|k: usize| #[trigger] self.streams@.contains_key(k) ==> 1 <= k <= self.last_stream_id
    }

    /// No streams, no id handed out yet.
    pub fn new() -> (r: Self)
        ensures
            r.pending() == Map::<usize, P>::empty(),
            r.running() == Map::<usize, S>::empty(),
            r.last_id() == 0,
    {
        broadcast use vstd::std_specs::hash::group_hash_axioms;
        StreamRegistry { pending_streams: HashMap::new(), streams: HashMap::new(), last_stream_id: 0 }
    }

    /// Registers an accepted connection under the next id, which no stream
    /// used before, and returns that id.
    pub fn register_pending(&mut self, conn: P) -> (id: usize)
        requires
            old(self).last_id() < usize::MAX,
        ensures
            id == old(self).last_id() + 1,
            final(self).last_id() == id,
            !old(self).pending().contains_key(id),
            !old(self).running().contains_key(id),
            final(self).pending() == old(self).pending().insert(id, conn),
            final(self).running() == old(self).running(),
    {
        broadcast use vstd::std_specs::hash::group_hash_axioms;
        proof {
            use_type_invariant(&*self);
        }
        let id = self.last_stream_id + 1;
        self.last_stream_id = id;
        let mut pending: HashMap<usize, P> = HashMap::new();
        std::mem::swap(&mut pending, &mut self.pending_streams);
        pending.insert(id, conn);
        self.pending_streams = pending;
        id
    }

    /// The last id handed out (0 before the first).
    pub fn last_stream_id(&self) -> (id: usize)
        ensures
            id == self.last_id(),
    {
        self.last_stream_id
    }

    /// Whether stream `id` waits to be opened.
    pub fn is_pending(&self, id: usize) -> (b: bool)
        ensures
            b == self.pending().contains_key(id),
            b ==> 1 <= id <= self.last_id(),
    {
        broadcast use vstd::std_specs::hash::group_hash_axioms;
        proof {
            use_type_invariant(self);
        }
        self.pending_streams.contains_key(&id)
    }

    /// Whether stream `id` runs.
    pub fn is_running(&self, id: usize) -> (b: bool)
        ensures
            b == self.running().contains_key(id),
    {
        broadcast use vstd::std_specs::hash::group_hash_axioms;
        self.streams.contains_key(&id)
    }

    /// Takes the waiting connection of stream `id` out of the registry, to
    /// open it in a pane.
    pub fn take_pending(&mut self, id: usize) -> (conn: P)
        requires
            old(self).pending().contains_key(id),
        ensures
            conn == old(self).pending()[id],
            1 <= id <= old(self).last_id(),
            final(self).pending() == old(self).pending().remove(id),
            final(self).running() == old(self).running(),
            final(self).last_id() == old(self).last_id(),
    {
        broadcast use vstd::std_specs::hash::group_hash_axioms;
        proof {
            use_type_invariant(&*self);
        }
        let mut pending: HashMap<usize, P> = HashMap::new();
        std::mem::swap(&mut pending, &mut self.pending_streams);
        let conn = pending.remove(&id);
        self.pending_streams = pending;
        match conn {
            Some(c) => c,
            None => vstd::pervasive::unreached(),
        }
    }

    /// Stream `id`, opened in a pane, now runs: it is recorded under its id
    /// with the handle that controls it.
    pub fn register_running(&mut self, id: usize, handle: S)
        requires
            1 <= id <= old(self).last_id(),
        ensures
            final(self).running() == old(self).running().insert(id, handle),
            final(self).pending() == old(self).pending(),
            final(self).last_id() == old(self).last_id(),
    {
        broadcast use vstd::std_specs::hash::group_hash_axioms;
        proof {
            use_type_invariant(&*self);
        }
        let mut streams: HashMap<usize, S> = HashMap::new();
        std::mem::swap(&mut streams, &mut self.streams);
        streams.insert(id, handle);
        self.streams = streams;
    }

    /// A task of stream `id` failed: the stream leaves the registry, and
    /// its handle is returned when it was running.
    pub fn stream_failed(&mut self, id: usize) -> (handle: Option<S>)
        ensures
            old(self).running().contains_key(id) ==> handle == Some(old(self).running()[id]),
            !old(self).running().contains_key(id) ==> handle is None,
            final(self).running() == old(self).running().remove(id),
            final(self).pending() == old(self).pending(),
            final(self).last_id() == old(self).last_id(),
    {
        broadcast use vstd::std_specs::hash::group_hash_axioms;
        proof {
            use_type_invariant(&*self);
        }
        let mut streams: HashMap<usize, S> = HashMap::new();
        std::mem::swap(&mut streams, &mut self.streams);
        let handle = streams.remove(&id);
        self.streams = streams;
        handle
    }

    /// The pane of running stream `id` was closed: the stream leaves the
    /// registry and its handle is returned.
    pub fn close_stream(&mut self, id: usize) -> (handle: S)
        requires
            old(self).running().contains_key(id),
        ensures
            handle == old(self).running()[id],
            final(self).running() == old(self).running().remove(id),
            final(self).pending() == old(self).pending(),
            final(self).last_id() == old(self).last_id(),
    {
        match self.stream_failed(id) {
            Some(h) => h,
            None => vstd::pervasive::unreached(),
        }
    }
}

/// The line that tells a client which port to reconnect to: "PORT ",
/// the port, a newline.
pub open spec fn port_line(port: u16) -> Seq<char> {
    seq!['P', 'O', 'R', 'T', ' '] + decimal(port as nat) + seq!['\n']
}

/// The message sent to a new client with the ephemeral port its stream
/// moves to.
pub fn ephemeral_port_message(port: u16) -> (msg: String)
    ensures
        msg@ == port_line(port),
{
    let mut msg = String::new();
    proof { reveal_strlit("PORT "); reveal_strlit("\n"); }
    push_str(&mut msg, "PORT ");
    push_decimal(&mut msg, port as u64);
    push_str(&mut msg, "\n");
    msg
}

/// A stricter level filter never shows more events: under a more severe
/// minimum level, the same events and search show at most as many.
pub proof fn lemma_stricter_filter_shows_fewer(
    logs: Seq<Arc<DashboardEvent>>,
    lenient: Level,
    strict: Level,
    search: Seq<char>,
)
    requires
        level_rank(lenient) <= level_rank(strict),
    ensures
        filter_logs(logs, strict, search).len() <= filter_logs(logs, lenient, search).len(),
    decreases logs.len(),
{
    reveal_with_fuel(Seq::filter, 1);
    if logs.len() > 0 {
        lemma_stricter_filter_shows_fewer(logs.drop_last(), lenient, strict, search);
    }
}

/// Every shown event passes the filter, and every event that passes it is
/// shown.
pub proof fn lemma_filter_logs_exact(logs: Seq<Arc<DashboardEvent>>, min: Level, search: Seq<char>)
    ensures
        forall|i: int| 0 <= i < filter_logs(logs, min, search).len() ==> passes_filter(*#[trigger] filter_logs(logs, min, search)[i], min, search),
        forall|i: int| 0 <= i < logs.len() && passes_filter(*logs[i], min, search) ==> #[trigger] filter_logs(logs, min, search).contains(logs[i]),
{
    broadcast use Seq::lemma_filter_pred, Seq::lemma_filter_contains;
    let pred = |e: Arc<DashboardEvent>| passes_filter(*e, min, search);
    assert forall|i: int| 0 <= i < logs.filter(pred).len() implies passes_filter(*#[trigger] logs.filter(pred)[i], min, search) by {
        logs.lemma_filter_pred(pred, i);
    }
    assert forall|i: int| 0 <= i < logs.len() && passes_filter(*logs[i], min, search) implies #[trigger] logs.filter(pred).contains(logs[i]) by {
        logs.lemma_filter_contains(pred, i);
    }
}

/// With no search and the most verbose level, every event is shown, in
/// order.
pub proof fn lemma_lenient_filter_shows_all(logs: Seq<Arc<DashboardEvent>>)
    ensures
        filter_logs(logs, Level::Trace, Seq::<char>::empty()) == logs,
    decreases logs.len(),
{
    reveal_with_fuel(Seq::filter, 1);
    if logs.len() > 0 {
        lemma_lenient_filter_shows_all(logs.drop_last());
        assert(logs.drop_last().push(logs.last()) =~= logs);
    }
}

/// Stream ids count up: over any run of registrations, each of which gives
/// the id after the last one handed out (as `register_pending` does), the
/// k registrations made after id n0 get the ids n0 + 1, ..., n0 + k, each
/// larger than the one before, and n0 + k is then the last id handed out.
pub proof fn lemma_ids_count_up<P, S>(regs: Seq<StreamRegistry<P, S>>, ids: Seq<usize>)
    requires
        regs.len() == ids.len() + 1,
        forall|i: int| 0 <= i < ids.len() ==> #[trigger] ids[i] == regs[i].last_id() + 1,
        forall|i: int| 0 <= i < ids.len() ==> #[trigger] regs[i + 1].last_id() == ids[i],
    ensures
        forall|i: int| 0 <= i < ids.len() ==> #[trigger] ids[i] == regs[0].last_id() + i + 1,
        forall|i: int, j: int| 0 <= i < j < ids.len() ==> ids[i] < ids[j],
        regs.last().last_id() == regs[0].last_id() + ids.len(),
    decreases ids.len(),
{
    if ids.len() > 0 {
        let front_regs = regs.drop_last();
        let front = ids.drop_last();
        assert forall|i: int| 0 <= i < front.len() implies #[trigger] front[i] == front_regs[i].last_id() + 1 by {
            assert(front[i] == ids[i] && front_regs[i] == regs[i]);
        }
        assert forall|i: int| 0 <= i < front.len() implies #[trigger] front_regs[i + 1].last_id() == front[i] by {
            assert(front[i] == ids[i] && front_regs[i + 1] == regs[i + 1]);
        }
        lemma_ids_count_up(front_regs, front);
        let k = ids.len() - 1;
        assert(ids[k] == regs[k].last_id() + 1);
        assert(regs[k + 1].last_id() == ids[k]);
        if k > 0 {
            assert(regs[k] == front_regs.last());
        }
        assert forall|i: int| 0 <= i < ids.len() implies #[trigger] ids[i] == regs[0].last_id() + i + 1 by {
            if i < k {
                assert(ids[i] == front[i]);
            }
        }
    }
}

/// What a buffer hands out on a swap: when it was emptied by the previous
/// swap (or made empty) and each later call appended a chunk (one item for
/// `push`, a sequence for `push_batch`), it holds exactly those chunks'
/// items, in the order they were appended, and `swap` returns them all.
pub proof fn lemma_swap_returns_appended<T>(bufs: Seq<LogAppendBuf<T>>, chunks: Seq<Seq<T>>)
    requires
        bufs.len() == chunks.len() + 1,
        bufs[0]@ == Seq::<T>::empty(),
        forall|i: int| 0 <= i < chunks.len() ==> #[trigger] bufs[i + 1]@ == bufs[i]@ + chunks[i],
    ensures
        bufs.last()@ == chunks.flatten(),
    decreases chunks.len(),
{
    chunks.lemma_flatten_and_flatten_alt_are_equivalent();
    if chunks.len() > 0 {
        let b2 = bufs.drop_last();
        let c2 = chunks.drop_last();
        assert forall|i: int| 0 <= i < c2.len() implies #[trigger] b2[i + 1]@ == b2[i]@ + c2[i] by {
            assert(b2[i + 1] == bufs[i + 1] && b2[i] == bufs[i] && c2[i] == chunks[i]);
        }
        lemma_swap_returns_appended(b2, c2);
        let k = chunks.len() - 1;
        assert(bufs[k + 1]@ == bufs[k]@ + chunks[k]);
        assert(b2.last() == bufs[k]);
        c2.lemma_flatten_and_flatten_alt_are_equivalent();
        assert(chunks.flatten_alt() == c2.flatten_alt() + chunks.last());
    }
}


/// The level filter keeps exactly the events at the filter's level or
/// declared after it: under the `Debug` filter a `Trace` event is never
/// shown, under `Error` only `Error` events are.
pub proof fn lemma_level_filter_by_severity(e: DashboardEvent, min: Level, search: Seq<char>)
    ensures
        passes_filter(e, min, search) <==> ((e.level == min || declared_after(e.level, min)) && message_matches(e, search)),
        e.level == Level::Trace && min != Level::Trace ==> !passes_filter(e, min, search),
        min == Level::Error && passes_filter(e, min, search) ==> e.level == Level::Error,
{
    lemma_rank_follows_severity();
}

} // verus!
