//! The built-in profiler's event buffer: bounded recording of CPU spans, GPU
//! spans and instant marks, resolution and stitching of GPU spans, and the
//! Chrome-trace and Prometheus renderings.
//!
//! Clocks, timing events and thread ids belong to the application, which
//! hands the profiler plain timestamps and the ids of its timing events.

use vstd::prelude::*;
use vstd::string::StrSliceExecFns;
use crate::observe::{MetricsSnapshot, wrap_add};
use crate::text::{
    push_char, push_str, push_decimal, push_signed_decimal, push_hex_fixed, decimal,
    signed_decimal, hex_fixed,
};

verus! {

/// One record of the buffer.
#[derive(Clone, Debug)]
pub enum Event {
    /// CPU span `[start_ns, end_ns)` relative to the profiler epoch.
    Cpu { name: String, start_ns: u64, end_ns: u64, tid: u32 },
    /// GPU span whose two timing events (held by the application under
    /// these ids) are not resolved yet.
    GpuPending { name: String, start: u64, stop: u64 },
    /// Resolved GPU span, in microseconds.
    Gpu { name: String, start_us: u64, end_us: u64 },
    /// Instant marker.
    Mark { name: String, at_ns: u64 },
}

/// An event with its name as text.
pub enum EventView {
    Cpu { name: Seq<char>, start_ns: u64, end_ns: u64, tid: u32 },
    GpuPending { name: Seq<char>, start: u64, stop: u64 },
    Gpu { name: Seq<char>, start_us: u64, end_us: u64 },
    Mark { name: Seq<char>, at_ns: u64 },
}

impl View for Event {
    type V = EventView;

    open spec fn view(&self) -> EventView {
        match self {
            Event::Cpu { name, start_ns, end_ns, tid } => EventView::Cpu {
                name: name@,
                start_ns: *start_ns,
                end_ns: *end_ns,
                tid: *tid,
            },
            Event::GpuPending { name, start, stop } => EventView::GpuPending {
                name: name@,
                start: *start,
                stop: *stop,
            },
            Event::Gpu { name, start_us, end_us } => EventView::Gpu {
                name: name@,
                start_us: *start_us,
                end_us: *end_us,
            },
            Event::Mark { name, at_ns } => EventView::Mark { name: name@, at_ns: *at_ns },
        }
    }
}

/// Whether every span ends no earlier than it starts.
pub open spec fn spans_ordered(evs: Seq<EventView>) -> bool {
    forall|i: int| 0 <= i < evs.len() ==> match #[trigger] evs[i] {
        EventView::Cpu { start_ns, end_ns, .. } => start_ns <= end_ns,
        EventView::Gpu { start_us, end_us, .. } => start_us <= end_us,
        _ => true,
    }
}

/// The profiler's state: on or off, the buffer bound, the count of events
/// dropped because the buffer was full, and the buffered events.
pub struct ProfilerView {
    pub enabled: bool,
    pub capacity: u64,
    pub dropped: u64,
    pub events: Seq<EventView>,
}

/// A bounded event buffer, off until enabled.
#[derive(Debug)]
pub struct Profiler {
    enabled: bool,
    capacity: u64,
    dropped: u64,
    events: Vec<Event>,
}

/// Buffer bound of a new profiler.
pub const DEFAULT_CAPACITY: u64 = 65536;

/// The state after offering `e` to the buffer: appended if the buffer holds
/// fewer than `capacity` events, else counted as dropped.
pub open spec fn pushed(v: ProfilerView, e: EventView) -> ProfilerView {
    if v.events.len() >= (v.capacity as usize) as int {
        ProfilerView { dropped: wrap_add(v.dropped, 1), ..v }
    } else {
        ProfilerView { events: v.events.push(e), ..v }
    }
}

/// A CPU span that has begun: its name, start time and thread.
#[derive(Debug)]
pub struct CpuSpan {
    pub name: String,
    pub start_ns: u64,
    pub tid: u32,
}

impl View for Profiler {
    type V = ProfilerView;

    closed spec fn view(&self) -> ProfilerView {
        ProfilerView {
            enabled: self.enabled,
            capacity: self.capacity,
            dropped: self.dropped,
            events: self.events@.map_values(|e: Event| e@),
        }
    }
}

impl Profiler {
    /// A disabled profiler with an empty buffer of the default bound.
    pub fn new() -> (p: Self)
        ensures
            p@ == (ProfilerView { enabled: false, capacity: DEFAULT_CAPACITY, dropped: 0, events: seq![] }),
    {
        let p = Profiler { enabled: false, capacity: DEFAULT_CAPACITY, dropped: 0, events: Vec::new() };
        proof {
            assert(p@.events =~= Seq::<EventView>::empty());
        }
        p
    }

    pub fn is_enabled(&self) -> (b: bool)
        ensures
            b == self@.enabled,
    {
        self.enabled
    }

    pub fn enable(&mut self)
        ensures
            final(self)@ == (ProfilerView { enabled: true, ..old(self)@ }),
    {
        self.enabled = true;
    }

    pub fn disable(&mut self)
        ensures
            final(self)@ == (ProfilerView { enabled: false, ..old(self)@ }),
    {
        self.enabled = false;
    }

    /// Bound the buffer at `n` events; events already buffered stay.
    pub fn set_capacity(&mut self, n: u64)
        ensures
            final(self)@ == (ProfilerView { capacity: n, ..old(self)@ }),
    {
        self.capacity = n;
    }

    /// Events dropped because the buffer was full.
    pub fn dropped(&self) -> (n: u64)
        ensures
            n == self@.dropped,
    {
        self.dropped
    }

    pub fn len(&self) -> (n: usize)
        ensures
            n == self@.events.len(),
    {
        self.events.len()
    }

    pub fn is_empty(&self) -> (b: bool)
        ensures
            b == (self@.events.len() == 0),
    {
        self.events.len() == 0
    }

    /// The buffered events, in recording order.
    pub fn events(&self) -> (r: &Vec<Event>)
        ensures
            r@.map_values(|e: Event| e@) == self@.events,
    {
        &self.events
    }

    /// Empty the buffer and reset the dropped count.
    pub fn clear(&mut self)
        ensures
            final(self)@ == (ProfilerView { dropped: 0, events: seq![], ..old(self)@ }),
    {
        self.events.clear();
        self.dropped = 0;
        proof {
            assert(self@.events =~= Seq::<EventView>::empty());
        }
    }

    fn push(&mut self, ev: Event)
        ensures
            final(self)@ == pushed(old(self)@, ev@),
    {
        let cap = usize_of(self.capacity);
        if self.events.len() >= cap {
            self.dropped = crate::observe::wrapping_add(self.dropped, 1);
            return;
        }
        let ghost old_events = self.events@;
        self.events.push(ev);
        proof {
            assert(self.events@.map_values(|e: Event| e@) =~= old_events.map_values(|e: Event| e@).push(ev@));
        }
    }

    /// Begin a CPU span at `start_ns` on thread `tid`; `None` when the
    /// profiler is disabled.
    pub fn cpu_span(&self, name: &str, start_ns: u64, tid: u32) -> (s: Option<CpuSpan>)
        ensures
            !self@.enabled <==> s is None,
            s matches Some(sp) ==> sp.name@ == name@ && sp.start_ns == start_ns && sp.tid == tid,
    {
        if !self.enabled {
            return None;
        }
        Some(CpuSpan { name: name.to_string(), start_ns, tid })
    }

    /// End a CPU span at `end_ns` and offer it to the buffer.
    pub fn finish_cpu_span(&mut self, span: CpuSpan, end_ns: u64)
        requires
            span.start_ns <= end_ns,
        ensures
            final(self)@ == pushed(
                old(self)@,
                EventView::Cpu { name: span.name@, start_ns: span.start_ns, end_ns, tid: span.tid },
            ),
    {
        self.push(Event::Cpu { name: span.name, start_ns: span.start_ns, end_ns, tid: span.tid });
    }

    /// Offer a GPU span whose timing events are `start` and `stop` to the
    /// buffer; it stays pending until flushed.
    pub fn push_gpu_pending(&mut self, name: String, start: u64, stop: u64)
        ensures
            final(self)@ == pushed(old(self)@, EventView::GpuPending { name: name@, start, stop }),
    {
        self.push(Event::GpuPending { name, start, stop });
    }

    /// Record an instant marker at `at_ns`; nothing when disabled.
    pub fn mark(&mut self, name: &str, at_ns: u64)
        ensures
            !old(self)@.enabled ==> final(self)@ == old(self)@,
            old(self)@.enabled ==> final(self)@ == pushed(
                old(self)@,
                EventView::Mark { name: name@, at_ns },
            ),
    {
        if !self.enabled {
            return;
        }
        self.push(Event::Mark { name: name.to_string(), at_ns });
    }
}

#[verifier::truncate]
fn usize_of(x: u64) -> (r: usize)
    ensures
        r == x as usize,
{
    x as usize
}

/// Offering `n` markers to an enabled profiler whose buffer holds `len0 <=
/// capacity` events keeps `min(len0 + n, capacity)` events and counts the
/// rest as dropped: the buffer never grows past its bound and nothing is
/// lost silently.
pub proof fn lemma_capacity_is_enforced(v: ProfilerView, names: Seq<Seq<char>>, times: Seq<u64>)
    requires
        names.len() == times.len(),
        v.events.len() <= (v.capacity as usize) as int,
        v.dropped + names.len() <= u64::MAX,
    ensures
        ({
            let r = marks_offered(v, names, times);
            let cap = (v.capacity as usize) as int;
            let kept = if v.events.len() + names.len() <= cap { (v.events.len() + names.len()) as int } else { cap };
            &&& r.events.len() == kept
            &&& r.dropped == v.dropped + (v.events.len() + names.len() - kept)
            &&& r.events.subrange(0, v.events.len() as int) == v.events
            &&& r.capacity == v.capacity && r.enabled == v.enabled
        }),
    decreases names.len(),
{
    if names.len() > 0 {
        let n = (names.len() - 1) as int;
        lemma_capacity_is_enforced(v, names.subrange(0, n), times.subrange(0, n));
        let prev = marks_offered(v, names.subrange(0, n), times.subrange(0, n));
        assert(marks_offered(v, names, times) == pushed(prev, EventView::Mark { name: names[n], at_ns: times[n] }));
        assert(prev.events.push(EventView::Mark { name: names[n], at_ns: times[n] }).subrange(0, v.events.len() as int)
            =~= prev.events.subrange(0, v.events.len() as int));
    }
}

/// The state after offering a marker for each name, with its time, in order.
pub open spec fn marks_offered(v: ProfilerView, names: Seq<Seq<char>>, times: Seq<u64>) -> ProfilerView
    decreases names.len(),
{
    if names.len() == 0 || times.len() < names.len() {
        v
    } else {
        let n = (names.len() - 1) as int;
        pushed(
            marks_offered(v, names.subrange(0, n), times.subrange(0, n)),
            EventView::Mark { name: names[n], at_ns: times[n] },
        )
    }
}

/// Duration of a resolved GPU span; zero for the other events.
pub open spec fn gpu_dur(e: EventView) -> int {
    match e {
        EventView::Gpu { start_us, end_us, .. } => end_us - start_us,
        _ => 0,
    }
}

/// Total duration of the resolved GPU spans among the first `i` events.
pub open spec fn gpu_before(evs: Seq<EventView>, i: int) -> int
    decreases i,
{
    if i <= 0 {
        0
    } else {
        gpu_before(evs, i - 1) + gpu_dur(evs[i - 1])
    }
}

/// The events after resolution: each pending GPU span whose duration is
/// known becomes a resolved span `[0, duration)`; everything else stays.
pub open spec fn resolved(evs: Seq<EventView>, durs: Seq<Option<u64>>) -> Seq<EventView> {
    Seq::new(evs.len(), |i: int| match evs[i] {
        EventView::GpuPending { name, .. } => match durs[i] {
            Some(d) => EventView::Gpu { name, start_us: 0, end_us: d },
            None => evs[i],
        },
        _ => evs[i],
    })
}

/// The events after stitching: the resolved GPU spans are laid end to end
/// from time zero, in buffer order, each keeping its duration.
pub open spec fn stitched(evs: Seq<EventView>) -> Seq<EventView> {
    Seq::new(evs.len(), |i: int| match evs[i] {
        EventView::Gpu { name, start_us, end_us } => EventView::Gpu {
            name,
            start_us: gpu_before(evs, i) as u64,
            end_us: (gpu_before(evs, i) + (end_us - start_us)) as u64,
        },
        _ => evs[i],
    })
}

proof fn lemma_gpu_before_mono(evs: Seq<EventView>, i: int, j: int)
    requires
        0 <= i <= j <= evs.len(),
        spans_ordered(evs),
    ensures
        gpu_before(evs, i) <= gpu_before(evs, j),
        0 <= gpu_before(evs, i),
    decreases j,
{
    if i < j {
        lemma_gpu_before_mono(evs, i, j - 1);
        assert(spans_ordered(evs) ==> match evs[j - 1] {
            EventView::Gpu { start_us, end_us, .. } => start_us <= end_us,
            _ => true,
        });
    } else if i > 0 {
        lemma_gpu_before_mono(evs, i - 1, i - 1);
        assert(match evs[i - 1] {
            EventView::Gpu { start_us, end_us, .. } => start_us <= end_us,
            _ => true,
        });
    }
}

impl Profiler {
    /// Resolve and stitch the GPU spans. `durations_us[i]` is the measured
    /// duration of event `i` if it is a pending GPU span whose timing events
    /// have completed. Nothing happens when the profiler is disabled.
    pub fn flush_gpu(&mut self, durations_us: &Vec<Option<u64>>)
        requires
            durations_us@.len() == old(self)@.events.len(),
            spans_ordered(old(self)@.events),
            gpu_before(
                resolved(old(self)@.events, durations_us@),
                old(self)@.events.len() as int,
            ) <= u64::MAX,
        ensures
            !old(self)@.enabled ==> final(self)@ == old(self)@,
            old(self)@.enabled ==> final(self)@ == (ProfilerView {
                events: stitched(resolved(old(self)@.events, durations_us@)),
                ..old(self)@
            }),
            spans_ordered(final(self)@.events),
    {
        if !self.enabled {
            return;
        }
        let ghost v0 = self@.events;
        let ghost r = resolved(v0, durations_us@);
        let n = self.events.len();
        let mut i: usize = 0;
        while i < n
            invariant
                0 <= i <= n,
                n == self.events@.len(),
                n == v0.len(),
                r == resolved(v0, durations_us@),
                durations_us@.len() == n,
                self.enabled,
                forall|j: int| 0 <= j < i ==> #[trigger] self.events@[j]@ == r[j],
                forall|j: int| i <= j < n ==> #[trigger] self.events@[j]@ == v0[j],
                self.capacity == old(self).capacity,
                self.dropped == old(self).dropped,
            decreases n - i,
        {
            proof {
                assert(self.events@[i as int]@ == v0[i as int]);
            }
            let slot = &self.events[i];
            let replacement: Option<Event> = match slot {
                Event::GpuPending { name, .. } => match durations_us[i] {
                    Some(d) => Some(Event::Gpu { name: name.clone(), start_us: 0, end_us: d }),
                    None => None,
                },
                _ => None,
            };
            let ghost before = self.events@;
            let ghost rep = replacement;
            match replacement {
                Some(ev) => {
                    self.events.set(i, ev);
                },
                None => {},
            }
            proof {
                assert(r[i as int] == match v0[i as int] {
                    EventView::GpuPending { name, .. } => match durations_us@[i as int] {
                        Some(d) => EventView::Gpu { name, start_us: 0, end_us: d },
                        None => v0[i as int],
                    },
                    _ => v0[i as int],
                });
                match rep {
                    Some(ev) => {
                        assert(self.events@[i as int] == ev);
                    },
                    None => {
                        assert(self.events@[i as int] == before[i as int]);
                    },
                }
                assert(self.events@[i as int]@ == r[i as int]);
                assert forall|j: int| 0 <= j < n && j != i implies self.events@[j] == before[j] by {}
            }
            i = i + 1;
        }
        proof {
            assert(self@.events =~= r);
            assert(spans_ordered(r));
            lemma_gpu_before_mono(r, 0, n as int);
        }
        let mut cursor: u64 = 0;
        let mut k: usize = 0;
        while k < n
            invariant
                0 <= k <= n,
                n == self.events@.len(),
                n == r.len(),
                spans_ordered(r),
                gpu_before(r, n as int) <= u64::MAX,
                cursor == gpu_before(r, k as int),
                forall|j: int| 0 <= j < k ==> #[trigger] self.events@[j]@ == stitched(r)[j],
                forall|j: int| k <= j < n ==> #[trigger] self.events@[j]@ == r[j],
                self.enabled,
                self.capacity == old(self).capacity,
                self.dropped == old(self).dropped,
            decreases n - k,
        {
            proof {
                assert(self.events@[k as int]@ == r[k as int]);
                assert(gpu_before(r, k as int + 1) == gpu_before(r, k as int) + gpu_dur(r[k as int]));
                lemma_gpu_before_mono(r, k as int + 1, n as int);
                assert(match r[k as int] {
                    EventView::Gpu { start_us, end_us, .. } => start_us <= end_us,
                    _ => true,
                });
            }
            let slot = &self.events[k];
            let replacement: Option<Event> = match slot {
                Event::Gpu { name, start_us, end_us } => {
                    let dur = *end_us - *start_us;
                    let ev = Event::Gpu { name: name.clone(), start_us: cursor, end_us: cursor + dur };
                    cursor = cursor + dur;
                    Some(ev)
                },
                _ => None,
            };
            let ghost before = self.events@;
            match replacement {
                Some(ev) => {
                    self.events.set(k, ev);
                },
                None => {},
            }
            proof {
                assert(self.events@[k as int]@ == stitched(r)[k as int]);
                assert forall|j: int| 0 <= j < n && j != k implies self.events@[j] == before[j] by {}
            }
            k = k + 1;
        }
        proof {
            assert(self@.events =~= stitched(r));
            assert forall|j: int| 0 <= j < n implies match #[trigger] stitched(r)[j] {
                EventView::Cpu { start_ns, end_ns, .. } => start_ns <= end_ns,
                EventView::Gpu { start_us, end_us, .. } => start_us <= end_us,
                _ => true,
            } by {
                lemma_gpu_before_mono(r, j, j + 1);
                lemma_gpu_before_mono(r, j + 1, n as int);
                assert(match r[j] {
                    EventView::Cpu { start_ns, end_ns, .. } => start_ns <= end_ns,
                    EventView::Gpu { start_us, end_us, .. } => start_us <= end_us,
                    _ => true,
                });
            }
        }
    }
}

/// After stitching, the resolved GPU spans form one track without overlap:
/// each starts where the previous resolved span ended, so a later span never
/// starts before an earlier one ends, and each keeps its duration.
pub proof fn lemma_stitched_spans_do_not_overlap(evs: Seq<EventView>, i: int, j: int)
    requires
        spans_ordered(evs),
        gpu_before(evs, evs.len() as int) <= u64::MAX,
        0 <= i < j < evs.len(),
        evs[i] is Gpu,
        evs[j] is Gpu,
    ensures
        ({
            let s = stitched(evs);
            &&& s[i] matches EventView::Gpu { end_us: e_i, .. } && s[j] matches EventView::Gpu { start_us: s_j, .. }
                && e_i <= s_j
            &&& gpu_dur(s[j]) == gpu_dur(evs[j])
        }),
{
    lemma_gpu_before_mono(evs, i + 1, j);
    lemma_gpu_before_mono(evs, j + 1, evs.len() as int);
    lemma_gpu_before_mono(evs, 0, i);
    assert(gpu_before(evs, i + 1) == gpu_before(evs, i) + gpu_dur(evs[i]));
    assert(gpu_before(evs, j + 1) == gpu_before(evs, j) + gpu_dur(evs[j]));
    assert(match evs[i] {
        EventView::Gpu { start_us, end_us, .. } => start_us <= end_us,
        _ => true,
    });
    assert(match evs[j] {
        EventView::Gpu { start_us, end_us, .. } => start_us <= end_us,
        _ => true,
    });
}

/// JSON escape of one character: quote, backslash, newline, carriage
/// return and tab get their short escapes, other control characters a
/// `\u00XX` escape, everything else stands for itself.
pub open spec fn escape_char(c: char) -> Seq<char> {
    if c == '"' {
        seq!['\\', '"']
    } else if c == '\\' {
        seq!['\\', '\\']
    } else if c == '\n' {
        seq!['\\', 'n']
    } else if c == '\r' {
        seq!['\\', 'r']
    } else if c == '\t' {
        seq!['\\', 't']
    } else if (c as u32) < 0x20 {
        seq!['\\', 'u'] + hex_fixed(c as nat, 4)
    } else {
        seq![c]
    }
}

/// Escape of the first `i` characters of `s`.
pub open spec fn escape_prefix(s: Seq<char>, i: int) -> Seq<char>
    decreases i,
{
    if i <= 0 {
        seq![]
    } else {
        escape_prefix(s, i - 1) + escape_char(s[i - 1])
    }
}

/// `s` as a JSON string literal.
pub open spec fn json_text(s: Seq<char>) -> Seq<char> {
    seq!['"'] + escape_prefix(s, s.len() as int) + seq!['"']
}

fn push_escaped(out: &mut String, c: char)
    ensures
        final(out)@ == old(out)@ + escape_char(c),
{
    if c == '"' {
        push_str(out, "\\\"");
        proof { reveal_strlit("\\\""); }
    } else if c == '\\' {
        push_str(out, "\\\\");
        proof { reveal_strlit("\\\\"); }
    } else if c == '\n' {
        push_str(out, "\\n");
        proof { reveal_strlit("\\n"); }
    } else if c == '\r' {
        push_str(out, "\\r");
        proof { reveal_strlit("\\r"); }
    } else if c == '\t' {
        push_str(out, "\\t");
        proof { reveal_strlit("\\t"); }
    } else if (c as u32) < 0x20 {
        push_str(out, "\\u");
        proof { reveal_strlit("\\u"); }
        let ghost mid = out@;
        push_hex_fixed(out, c as u32 as u64, 4);
        proof {
            assert(out@ =~= old(out)@ + (seq!['\\', 'u'] + hex_fixed(c as nat, 4)));
        }
    } else {
        push_char(out, c);
        proof {
            assert(out@ =~= old(out)@ + seq![c]);
        }
    }
}

/// `s` as a JSON string literal, quotes included.
pub fn json_str(s: &str) -> (out: String)
    ensures
        out@ == json_text(s@),
{
    let mut out = String::new();
    push_char(&mut out, '"');
    let n = s.unicode_len();
    let mut i: usize = 0;
    while i < n
        invariant
            n == s@.len(),
            0 <= i <= n,
            out@ == seq!['"'] + escape_prefix(s@, i as int),
        decreases n - i,
    {
        let c = s.get_char(i);
        push_escaped(&mut out, c);
        i = i + 1;
        proof {
            assert(out@ =~= seq!['"'] + escape_prefix(s@, i as int));
        }
    }
    push_char(&mut out, '"');
    out
}

/// Trace-event JSON of one event; pending GPU spans have none.
pub open spec fn event_json(e: EventView) -> Seq<char> {
    match e {
        EventView::Cpu { name, start_ns, end_ns, tid } => "{\"ph\":\"X\",\"cat\":\"cpu\",\"name\":"@
            + json_text(name) + ",\"pid\":0,\"tid\":"@ + decimal(tid as nat) + ",\"ts\":"@
            + decimal((start_ns / 1000) as nat) + ",\"dur\":"@ + decimal(((end_ns - start_ns) / 1000) as nat)
            + "}"@,
        EventView::Gpu { name, start_us, end_us } => "{\"ph\":\"X\",\"cat\":\"gpu\",\"name\":"@
            + json_text(name) + ",\"pid\":1,\"tid\":0,\"ts\":"@ + decimal(start_us as nat) + ",\"dur\":"@
            + decimal((end_us - start_us) as nat) + "}"@,
        EventView::Mark { name, at_ns } => "{\"ph\":\"i\",\"cat\":\"mark\",\"name\":"@ + json_text(name)
            + ",\"pid\":0,\"tid\":0,\"ts\":"@ + decimal((at_ns / 1000) as nat) + ",\"s\":\"g\"}"@,
        EventView::GpuPending { .. } => seq![],
    }
}

/// The JSON of an event, or none for a pending GPU span.
pub open spec fn event_part(e: EventView) -> Option<Seq<char>> {
    match e {
        EventView::GpuPending { .. } => None,
        _ => Some(event_json(e)),
    }
}

pub open spec fn event_part_fn() -> spec_fn(EventView) -> Option<Seq<char>> {
    |e: EventView| event_part(e)
}

/// The JSON of each event that the trace shows, in order: every event but
/// the pending GPU spans.
pub open spec fn emitted(evs: Seq<EventView>) -> Seq<Seq<char>> {
    evs.filter_map(event_part_fn())
}

/// `parts` joined with commas.
pub open spec fn join_commas(parts: Seq<Seq<char>>) -> Seq<char>
    decreases parts.len(),
{
    if parts.len() == 0 {
        seq![]
    } else if parts.len() == 1 {
        parts[0]
    } else {
        join_commas(parts.drop_last()) + seq![','] + parts.last()
    }
}

/// The Chrome trace document of the events.
pub open spec fn chrome_trace_text(evs: Seq<EventView>) -> Seq<char> {
    "{\"traceEvents\":["@ + join_commas(emitted(evs)) + "]}"@
}

fn push_event_json(out: &mut String, ev: &Event)
    requires
        spans_ordered(seq![ev@]),
    ensures
        final(out)@ == old(out)@ + event_json(ev@),
{
    proof {
        assert(match seq![ev@][0] {
            EventView::Cpu { start_ns, end_ns, .. } => start_ns <= end_ns,
            EventView::Gpu { start_us, end_us, .. } => start_us <= end_us,
            _ => true,
        });
    }
    match ev {
        Event::Cpu { name, start_ns, end_ns, tid } => {
            push_str(out, "{\"ph\":\"X\",\"cat\":\"cpu\",\"name\":");
            let j = json_str(name.as_str());
            push_str(out, j.as_str());
            push_str(out, ",\"pid\":0,\"tid\":");
            push_decimal(out, *tid as u64);
            push_str(out, ",\"ts\":");
            push_decimal(out, *start_ns / 1000);
            push_str(out, ",\"dur\":");
            push_decimal(out, (*end_ns - *start_ns) / 1000);
            push_str(out, "}");
        },
        Event::Gpu { name, start_us, end_us } => {
            push_str(out, "{\"ph\":\"X\",\"cat\":\"gpu\",\"name\":");
            let j = json_str(name.as_str());
            push_str(out, j.as_str());
            push_str(out, ",\"pid\":1,\"tid\":0,\"ts\":");
            push_decimal(out, *start_us);
            push_str(out, ",\"dur\":");
            push_decimal(out, *end_us - *start_us);
            push_str(out, "}");
        },
        Event::Mark { name, at_ns } => {
            push_str(out, "{\"ph\":\"i\",\"cat\":\"mark\",\"name\":");
            let j = json_str(name.as_str());
            push_str(out, j.as_str());
            push_str(out, ",\"pid\":0,\"tid\":0,\"ts\":");
            push_decimal(out, *at_ns / 1000);
            push_str(out, ",\"s\":\"g\"}");
        },
        Event::GpuPending { .. } => {
            proof {
                assert(old(out)@ + event_json(ev@) =~= old(out)@);
            }
        },
    }
    proof {
        assert(out@ =~= old(out)@ + event_json(ev@));
    }
}

impl Profiler {
    /// The buffered events as a Chrome `about:tracing` document: complete
    /// events for CPU spans (process 0) and resolved GPU spans (process 1),
    /// instant events for marks, times in microseconds; pending GPU spans
    /// are left out.
    pub fn chrome_trace(&self) -> (t: String)
        requires
            spans_ordered(self@.events),
        ensures
            t@ == chrome_trace_text(self@.events),
    {
        let ghost evs = self@.events;
        let mut out = String::new();
        push_str(&mut out, "{\"traceEvents\":[");
        let mut first = true;
        let n = self.events.len();
        let mut i: usize = 0;
        proof {
            assert(evs.take(0) =~= Seq::<EventView>::empty());
        }
        while i < n
            invariant
                n == self.events@.len(),
                evs == self@.events,
                spans_ordered(evs),
                0 <= i <= n,
                out@ == "{\"traceEvents\":["@ + join_commas(emitted(evs.take(i as int))),
                first == (emitted(evs.take(i as int)).len() == 0),
            decreases n - i,
        {
            let ev = &self.events[i];
            proof {
                assert(evs[i as int] == ev@);
                assert(spans_ordered(seq![ev@]));
                evs.lemma_filter_map_take_succ(event_part_fn(), i as int);
            }
            let ghost parts = emitted(evs.take(i as int));
            let ghost before = out@;
            let pending = match ev {
                Event::GpuPending { .. } => true,
                _ => false,
            };
            if !pending {
                if !first {
                    push_char(&mut out, ',');
                }
                first = false;
                push_event_json(&mut out, ev);
                proof {
                    let x = event_json(ev@);
                    assert(emitted(evs.take(i + 1)) =~= parts.push(x));
                    assert(parts.push(x).drop_last() =~= parts);
                    if parts.len() == 0 {
                        assert(out@ =~= "{\"traceEvents\":["@ + join_commas(parts.push(x)));
                    } else {
                        assert(out@ =~= "{\"traceEvents\":["@ + join_commas(parts.push(x)));
                    }
                }
            } else {
                proof {
                    assert(emitted(evs.take(i + 1)) =~= parts);
                }
            }
            i = i + 1;
        }
        proof {
            assert(evs.take(n as int) =~= evs);
        }
        push_str(&mut out, "]}");
        proof {
            assert(out@ =~= chrome_trace_text(evs));
        }
        out
    }
}

/// `s` without its trailing underscores.
pub open spec fn trim_underscores(s: Seq<char>) -> Seq<char>
    decreases s.len(),
{
    if s.len() > 0 && s.last() == '_' {
        trim_underscores(s.drop_last())
    } else {
        s
    }
}

/// One gauge in the Prometheus text format: HELP and TYPE lines, then the
/// sample.
pub open spec fn gauge_text(p: Seq<char>, name: Seq<char>, help: Seq<char>, val: Seq<char>) -> Seq<char> {
    "# HELP "@ + p + "_"@ + name + " "@ + help + "\n# TYPE "@ + p + "_"@ + name + " gauge\n"@ + p + "_"@
        + name + " "@ + val + "\n"@
}

/// The exposition of the counters `m`, the two cache hit ratios (already
/// rendered), and the profiler's buffered and dropped event counts, every
/// metric named `p_<metric>`.
pub open spec fn prometheus_text(
    p: Seq<char>,
    m: MetricsSnapshot,
    nvrtc_ratio: Seq<char>,
    fft_ratio: Seq<char>,
    buffered: nat,
    dropped: u64,
) -> Seq<char> {
    gauge_text(p, "alloc_bytes_total"@, "Device memory allocated via tensor factories"@, decimal(m.alloc_bytes as nat))
    + gauge_text(p, "free_bytes_total"@, "Device memory released"@, decimal(m.free_bytes as nat))
    + gauge_text(p, "resident_bytes"@, "alloc minus free"@, signed_decimal(m.spec_resident_bytes()))
    + gauge_text(p, "htod_bytes_total"@, "Host-to-device bytes copied"@, decimal(m.htod_bytes as nat))
    + gauge_text(p, "dtoh_bytes_total"@, "Device-to-host bytes copied"@, decimal(m.dtoh_bytes as nat))
    + gauge_text(p, "kernels_launched_total"@, "Kernel launches"@, decimal(m.kernels_launched as nat))
    + gauge_text(p, "blas_calls_total"@, "cuBLASLt calls"@, decimal(m.blas_calls as nat))
    + gauge_text(p, "nvrtc_hit_ratio"@, "NVRTC cache hit ratio [0,1]"@, nvrtc_ratio)
    + gauge_text(p, "fft_hit_ratio"@, "cuFFT plan cache hit ratio [0,1]"@, fft_ratio)
    + gauge_text(p, "collectives_total"@, "NCCL collectives invoked"@, decimal(m.collectives as nat))
    + gauge_text(p, "profiler_events"@, "Profiler events currently buffered"@, decimal(buffered))
    + gauge_text(p, "profiler_dropped_total"@, "Profiler events dropped (buffer full)"@, decimal(dropped as nat))
}

/// The sample line of metric `name` with value `val`: `<p>_<name> <val>`.
pub open spec fn sample_line(p: Seq<char>, name: Seq<char>, val: Seq<char>) -> Seq<char> {
    p + "_"@ + name + " "@ + val + "\n"@
}

/// Whether `line` occurs in `text` as a whole line.
pub open spec fn has_line(text: Seq<char>, line: Seq<char>) -> bool {
    exists|i: int| 0 <= i <= text.len() - line.len() && #[trigger] text.subrange(i, i + line.len()) == line
}

proof fn lemma_line_in_gauge(p: Seq<char>, name: Seq<char>, help: Seq<char>, val: Seq<char>)
    ensures
        has_line(gauge_text(p, name, help, val), sample_line(p, name, val)),
{
    let head = "# HELP "@ + p + "_"@ + name + " "@ + help + "\n# TYPE "@ + p + "_"@ + name + " gauge\n"@;
    let l = sample_line(p, name, val);
    let t = gauge_text(p, name, help, val);
    assert(t =~= head + l);
    assert(t.subrange(head.len() as int, (head.len() + l.len()) as int) =~= l);
}

proof fn lemma_line_extend_right(x: Seq<char>, y: Seq<char>, l: Seq<char>)
    requires
        has_line(x, l),
    ensures
        has_line(x + y, l),
{
    let i = choose|i: int| 0 <= i <= x.len() - l.len() && #[trigger] x.subrange(i, i + l.len()) == l;
    assert((x + y).subrange(i, i + l.len()) =~= x.subrange(i, i + l.len()));
}

proof fn lemma_line_extend_left(x: Seq<char>, y: Seq<char>, l: Seq<char>)
    requires
        has_line(y, l),
    ensures
        has_line(x + y, l),
{
    let i = choose|i: int| 0 <= i <= y.len() - l.len() && #[trigger] y.subrange(i, i + l.len()) == l;
    assert((x + y).subrange(x.len() + i, x.len() + i + l.len()) =~= y.subrange(i, i + l.len()));
}

/// Every counter of the snapshot is exported under its own name with its own
/// value: the exposition holds the line `<p>_<metric> <value>` for each
/// counter, for the resident byte count, for the two ratios, and for the
/// buffered and dropped event counts.
pub proof fn lemma_prometheus_samples(
    p: Seq<char>,
    m: MetricsSnapshot,
    nvrtc_ratio: Seq<char>,
    fft_ratio: Seq<char>,
    buffered: nat,
    dropped: u64,
)
    ensures
        ({
            let t = prometheus_text(p, m, nvrtc_ratio, fft_ratio, buffered, dropped);
            &&& has_line(t, sample_line(p, "alloc_bytes_total"@, decimal(m.alloc_bytes as nat)))
            &&& has_line(t, sample_line(p, "free_bytes_total"@, decimal(m.free_bytes as nat)))
            &&& has_line(t, sample_line(p, "resident_bytes"@, signed_decimal(m.spec_resident_bytes())))
            &&& has_line(t, sample_line(p, "htod_bytes_total"@, decimal(m.htod_bytes as nat)))
            &&& has_line(t, sample_line(p, "dtoh_bytes_total"@, decimal(m.dtoh_bytes as nat)))
            &&& has_line(t, sample_line(p, "kernels_launched_total"@, decimal(m.kernels_launched as nat)))
            &&& has_line(t, sample_line(p, "blas_calls_total"@, decimal(m.blas_calls as nat)))
            &&& has_line(t, sample_line(p, "nvrtc_hit_ratio"@, nvrtc_ratio))
            &&& has_line(t, sample_line(p, "fft_hit_ratio"@, fft_ratio))
            &&& has_line(t, sample_line(p, "collectives_total"@, decimal(m.collectives as nat)))
            &&& has_line(t, sample_line(p, "profiler_events"@, decimal(buffered)))
            &&& has_line(t, sample_line(p, "profiler_dropped_total"@, decimal(dropped as nat)))
        }),
{
    let g0 = gauge_text(p, "alloc_bytes_total"@, "Device memory allocated via tensor factories"@, decimal(m.alloc_bytes as nat));
    let g1 = gauge_text(p, "free_bytes_total"@, "Device memory released"@, decimal(m.free_bytes as nat));
    let g2 = gauge_text(p, "resident_bytes"@, "alloc minus free"@, signed_decimal(m.spec_resident_bytes()));
    let g3 = gauge_text(p, "htod_bytes_total"@, "Host-to-device bytes copied"@, decimal(m.htod_bytes as nat));
    let g4 = gauge_text(p, "dtoh_bytes_total"@, "Device-to-host bytes copied"@, decimal(m.dtoh_bytes as nat));
    let g5 = gauge_text(p, "kernels_launched_total"@, "Kernel launches"@, decimal(m.kernels_launched as nat));
    let g6 = gauge_text(p, "blas_calls_total"@, "cuBLASLt calls"@, decimal(m.blas_calls as nat));
    let g7 = gauge_text(p, "nvrtc_hit_ratio"@, "NVRTC cache hit ratio [0,1]"@, nvrtc_ratio);
    let g8 = gauge_text(p, "fft_hit_ratio"@, "cuFFT plan cache hit ratio [0,1]"@, fft_ratio);
    let g9 = gauge_text(p, "collectives_total"@, "NCCL collectives invoked"@, decimal(m.collectives as nat));
    let g10 = gauge_text(p, "profiler_events"@, "Profiler events currently buffered"@, decimal(buffered));
    let g11 = gauge_text(p, "profiler_dropped_total"@, "Profiler events dropped (buffer full)"@, decimal(dropped as nat));
    let q0 = g0;
    let q1 = q0 + g1;
    let q2 = q1 + g2;
    let q3 = q2 + g3;
    let q4 = q3 + g4;
    let q5 = q4 + g5;
    let q6 = q5 + g6;
    let q7 = q6 + g7;
    let q8 = q7 + g8;
    let q9 = q8 + g9;
    let q10 = q9 + g10;
    let q11 = q10 + g11;
    assert(prometheus_text(p, m, nvrtc_ratio, fft_ratio, buffered, dropped) == q11);
    assert(has_line(q11, sample_line(p, "alloc_bytes_total"@, decimal(m.alloc_bytes as nat)))) by {
        lemma_line_in_gauge(p, "alloc_bytes_total"@, "Device memory allocated via tensor factories"@, decimal(m.alloc_bytes as nat));
        lemma_line_extend_right(q0, g1, sample_line(p, "alloc_bytes_total"@, decimal(m.alloc_bytes as nat)));
        lemma_line_extend_right(q1, g2, sample_line(p, "alloc_bytes_total"@, decimal(m.alloc_bytes as nat)));
        lemma_line_extend_right(q2, g3, sample_line(p, "alloc_bytes_total"@, decimal(m.alloc_bytes as nat)));
        lemma_line_extend_right(q3, g4, sample_line(p, "alloc_bytes_total"@, decimal(m.alloc_bytes as nat)));
        lemma_line_extend_right(q4, g5, sample_line(p, "alloc_bytes_total"@, decimal(m.alloc_bytes as nat)));
        lemma_line_extend_right(q5, g6, sample_line(p, "alloc_bytes_total"@, decimal(m.alloc_bytes as nat)));
        lemma_line_extend_right(q6, g7, sample_line(p, "alloc_bytes_total"@, decimal(m.alloc_bytes as nat)));
        lemma_line_extend_right(q7, g8, sample_line(p, "alloc_bytes_total"@, decimal(m.alloc_bytes as nat)));
        lemma_line_extend_right(q8, g9, sample_line(p, "alloc_bytes_total"@, decimal(m.alloc_bytes as nat)));
        lemma_line_extend_right(q9, g10, sample_line(p, "alloc_bytes_total"@, decimal(m.alloc_bytes as nat)));
        lemma_line_extend_right(q10, g11, sample_line(p, "alloc_bytes_total"@, decimal(m.alloc_bytes as nat)));
    }
    assert(has_line(q11, sample_line(p, "free_bytes_total"@, decimal(m.free_bytes as nat)))) by {
        lemma_line_in_gauge(p, "free_bytes_total"@, "Device memory released"@, decimal(m.free_bytes as nat));
        lemma_line_extend_left(q0, g1, sample_line(p, "free_bytes_total"@, decimal(m.free_bytes as nat)));
        lemma_line_extend_right(q1, g2, sample_line(p, "free_bytes_total"@, decimal(m.free_bytes as nat)));
        lemma_line_extend_right(q2, g3, sample_line(p, "free_bytes_total"@, decimal(m.free_bytes as nat)));
        lemma_line_extend_right(q3, g4, sample_line(p, "free_bytes_total"@, decimal(m.free_bytes as nat)));
        lemma_line_extend_right(q4, g5, sample_line(p, "free_bytes_total"@, decimal(m.free_bytes as nat)));
        lemma_line_extend_right(q5, g6, sample_line(p, "free_bytes_total"@, decimal(m.free_bytes as nat)));
        lemma_line_extend_right(q6, g7, sample_line(p, "free_bytes_total"@, decimal(m.free_bytes as nat)));
        lemma_line_extend_right(q7, g8, sample_line(p, "free_bytes_total"@, decimal(m.free_bytes as nat)));
        lemma_line_extend_right(q8, g9, sample_line(p, "free_bytes_total"@, decimal(m.free_bytes as nat)));
        lemma_line_extend_right(q9, g10, sample_line(p, "free_bytes_total"@, decimal(m.free_bytes as nat)));
        lemma_line_extend_right(q10, g11, sample_line(p, "free_bytes_total"@, decimal(m.free_bytes as nat)));
    }
    assert(has_line(q11, sample_line(p, "resident_bytes"@, signed_decimal(m.spec_resident_bytes())))) by {
        lemma_line_in_gauge(p, "resident_bytes"@, "alloc minus free"@, signed_decimal(m.spec_resident_bytes()));
        lemma_line_extend_left(q1, g2, sample_line(p, "resident_bytes"@, signed_decimal(m.spec_resident_bytes())));
        lemma_line_extend_right(q2, g3, sample_line(p, "resident_bytes"@, signed_decimal(m.spec_resident_bytes())));
        lemma_line_extend_right(q3, g4, sample_line(p, "resident_bytes"@, signed_decimal(m.spec_resident_bytes())));
        lemma_line_extend_right(q4, g5, sample_line(p, "resident_bytes"@, signed_decimal(m.spec_resident_bytes())));
        lemma_line_extend_right(q5, g6, sample_line(p, "resident_bytes"@, signed_decimal(m.spec_resident_bytes())));
        lemma_line_extend_right(q6, g7, sample_line(p, "resident_bytes"@, signed_decimal(m.spec_resident_bytes())));
        lemma_line_extend_right(q7, g8, sample_line(p, "resident_bytes"@, signed_decimal(m.spec_resident_bytes())));
        lemma_line_extend_right(q8, g9, sample_line(p, "resident_bytes"@, signed_decimal(m.spec_resident_bytes())));
        lemma_line_extend_right(q9, g10, sample_line(p, "resident_bytes"@, signed_decimal(m.spec_resident_bytes())));
        lemma_line_extend_right(q10, g11, sample_line(p, "resident_bytes"@, signed_decimal(m.spec_resident_bytes())));
    }
    assert(has_line(q11, sample_line(p, "htod_bytes_total"@, decimal(m.htod_bytes as nat)))) by {
        lemma_line_in_gauge(p, "htod_bytes_total"@, "Host-to-device bytes copied"@, decimal(m.htod_bytes as nat));
        lemma_line_extend_left(q2, g3, sample_line(p, "htod_bytes_total"@, decimal(m.htod_bytes as nat)));
        lemma_line_extend_right(q3, g4, sample_line(p, "htod_bytes_total"@, decimal(m.htod_bytes as nat)));
        lemma_line_extend_right(q4, g5, sample_line(p, "htod_bytes_total"@, decimal(m.htod_bytes as nat)));
        lemma_line_extend_right(q5, g6, sample_line(p, "htod_bytes_total"@, decimal(m.htod_bytes as nat)));
        lemma_line_extend_right(q6, g7, sample_line(p, "htod_bytes_total"@, decimal(m.htod_bytes as nat)));
        lemma_line_extend_right(q7, g8, sample_line(p, "htod_bytes_total"@, decimal(m.htod_bytes as nat)));
        lemma_line_extend_right(q8, g9, sample_line(p, "htod_bytes_total"@, decimal(m.htod_bytes as nat)));
        lemma_line_extend_right(q9, g10, sample_line(p, "htod_bytes_total"@, decimal(m.htod_bytes as nat)));
        lemma_line_extend_right(q10, g11, sample_line(p, "htod_bytes_total"@, decimal(m.htod_bytes as nat)));
    }
    assert(has_line(q11, sample_line(p, "dtoh_bytes_total"@, decimal(m.dtoh_bytes as nat)))) by {
        lemma_line_in_gauge(p, "dtoh_bytes_total"@, "Device-to-host bytes copied"@, decimal(m.dtoh_bytes as nat));
        lemma_line_extend_left(q3, g4, sample_line(p, "dtoh_bytes_total"@, decimal(m.dtoh_bytes as nat)));
        lemma_line_extend_right(q4, g5, sample_line(p, "dtoh_bytes_total"@, decimal(m.dtoh_bytes as nat)));
        lemma_line_extend_right(q5, g6, sample_line(p, "dtoh_bytes_total"@, decimal(m.dtoh_bytes as nat)));
        lemma_line_extend_right(q6, g7, sample_line(p, "dtoh_bytes_total"@, decimal(m.dtoh_bytes as nat)));
        lemma_line_extend_right(q7, g8, sample_line(p, "dtoh_bytes_total"@, decimal(m.dtoh_bytes as nat)));
        lemma_line_extend_right(q8, g9, sample_line(p, "dtoh_bytes_total"@, decimal(m.dtoh_bytes as nat)));
        lemma_line_extend_right(q9, g10, sample_line(p, "dtoh_bytes_total"@, decimal(m.dtoh_bytes as nat)));
        lemma_line_extend_right(q10, g11, sample_line(p, "dtoh_bytes_total"@, decimal(m.dtoh_bytes as nat)));
    }
    assert(has_line(q11, sample_line(p, "kernels_launched_total"@, decimal(m.kernels_launched as nat)))) by {
        lemma_line_in_gauge(p, "kernels_launched_total"@, "Kernel launches"@, decimal(m.kernels_launched as nat));
        lemma_line_extend_left(q4, g5, sample_line(p, "kernels_launched_total"@, decimal(m.kernels_launched as nat)));
        lemma_line_extend_right(q5, g6, sample_line(p, "kernels_launched_total"@, decimal(m.kernels_launched as nat)));
        lemma_line_extend_right(q6, g7, sample_line(p, "kernels_launched_total"@, decimal(m.kernels_launched as nat)));
        lemma_line_extend_right(q7, g8, sample_line(p, "kernels_launched_total"@, decimal(m.kernels_launched as nat)));
        lemma_line_extend_right(q8, g9, sample_line(p, "kernels_launched_total"@, decimal(m.kernels_launched as nat)));
        lemma_line_extend_right(q9, g10, sample_line(p, "kernels_launched_total"@, decimal(m.kernels_launched as nat)));
        lemma_line_extend_right(q10, g11, sample_line(p, "kernels_launched_total"@, decimal(m.kernels_launched as nat)));
    }
    assert(has_line(q11, sample_line(p, "blas_calls_total"@, decimal(m.blas_calls as nat)))) by {
        lemma_line_in_gauge(p, "blas_calls_total"@, "cuBLASLt calls"@, decimal(m.blas_calls as nat));
        lemma_line_extend_left(q5, g6, sample_line(p, "blas_calls_total"@, decimal(m.blas_calls as nat)));
        lemma_line_extend_right(q6, g7, sample_line(p, "blas_calls_total"@, decimal(m.blas_calls as nat)));
        lemma_line_extend_right(q7, g8, sample_line(p, "blas_calls_total"@, decimal(m.blas_calls as nat)));
        lemma_line_extend_right(q8, g9, sample_line(p, "blas_calls_total"@, decimal(m.blas_calls as nat)));
        lemma_line_extend_right(q9, g10, sample_line(p, "blas_calls_total"@, decimal(m.blas_calls as nat)));
        lemma_line_extend_right(q10, g11, sample_line(p, "blas_calls_total"@, decimal(m.blas_calls as nat)));
    }
    assert(has_line(q11, sample_line(p, "nvrtc_hit_ratio"@, nvrtc_ratio))) by {
        lemma_line_in_gauge(p, "nvrtc_hit_ratio"@, "NVRTC cache hit ratio [0,1]"@, nvrtc_ratio);
        lemma_line_extend_left(q6, g7, sample_line(p, "nvrtc_hit_ratio"@, nvrtc_ratio));
        lemma_line_extend_right(q7, g8, sample_line(p, "nvrtc_hit_ratio"@, nvrtc_ratio));
        lemma_line_extend_right(q8, g9, sample_line(p, "nvrtc_hit_ratio"@, nvrtc_ratio));
        lemma_line_extend_right(q9, g10, sample_line(p, "nvrtc_hit_ratio"@, nvrtc_ratio));
        lemma_line_extend_right(q10, g11, sample_line(p, "nvrtc_hit_ratio"@, nvrtc_ratio));
    }
    assert(has_line(q11, sample_line(p, "fft_hit_ratio"@, fft_ratio))) by {
        lemma_line_in_gauge(p, "fft_hit_ratio"@, "cuFFT plan cache hit ratio [0,1]"@, fft_ratio);
        lemma_line_extend_left(q7, g8, sample_line(p, "fft_hit_ratio"@, fft_ratio));
        lemma_line_extend_right(q8, g9, sample_line(p, "fft_hit_ratio"@, fft_ratio));
        lemma_line_extend_right(q9, g10, sample_line(p, "fft_hit_ratio"@, fft_ratio));
        lemma_line_extend_right(q10, g11, sample_line(p, "fft_hit_ratio"@, fft_ratio));
    }
    assert(has_line(q11, sample_line(p, "collectives_total"@, decimal(m.collectives as nat)))) by {
        lemma_line_in_gauge(p, "collectives_total"@, "NCCL collectives invoked"@, decimal(m.collectives as nat));
        lemma_line_extend_left(q8, g9, sample_line(p, "collectives_total"@, decimal(m.collectives as nat)));
        lemma_line_extend_right(q9, g10, sample_line(p, "collectives_total"@, decimal(m.collectives as nat)));
        lemma_line_extend_right(q10, g11, sample_line(p, "collectives_total"@, decimal(m.collectives as nat)));
    }
    assert(has_line(q11, sample_line(p, "profiler_events"@, decimal(buffered)))) by {
        lemma_line_in_gauge(p, "profiler_events"@, "Profiler events currently buffered"@, decimal(buffered));
        lemma_line_extend_left(q9, g10, sample_line(p, "profiler_events"@, decimal(buffered)));
        lemma_line_extend_right(q10, g11, sample_line(p, "profiler_events"@, decimal(buffered)));
    }
    assert(has_line(q11, sample_line(p, "profiler_dropped_total"@, decimal(dropped as nat)))) by {
        lemma_line_in_gauge(p, "profiler_dropped_total"@, "Profiler events dropped (buffer full)"@, decimal(dropped as nat));
        lemma_line_extend_left(q10, g11, sample_line(p, "profiler_dropped_total"@, decimal(dropped as nat)));
    }
}

/// `prefix` without its trailing underscores.
pub fn trim_trailing_underscores(prefix: &str) -> (r: &str)
    ensures
        r@ == trim_underscores(prefix@),
{
    let mut n = prefix.unicode_len();
    proof {
        assert(prefix@.subrange(0, n as int) =~= prefix@);
    }
    while n > 0 && prefix.get_char(n - 1) == '_'
        invariant
            n <= prefix@.len(),
            trim_underscores(prefix@) == trim_underscores(prefix@.subrange(0, n as int)),
        decreases n,
    {
        proof {
            assert(prefix@.subrange(0, n as int).drop_last() =~= prefix@.subrange(0, n - 1));
        }
        n = n - 1;
    }
    prefix.substring_char(0, n)
}

fn push_gauge(out: &mut String, p: &str, name: &str, help: &str, val: &str)
    ensures
        final(out)@ == old(out)@ + gauge_text(p@, name@, help@, val@),
{
    push_str(out, "# HELP ");
    push_str(out, p);
    push_str(out, "_");
    push_str(out, name);
    push_str(out, " ");
    push_str(out, help);
    push_str(out, "\n# TYPE ");
    push_str(out, p);
    push_str(out, "_");
    push_str(out, name);
    push_str(out, " gauge\n");
    push_str(out, p);
    push_str(out, "_");
    push_str(out, name);
    push_str(out, " ");
    push_str(out, val);
    push_str(out, "\n");
    proof {
        assert(out@ =~= old(out)@ + gauge_text(p@, name@, help@, val@));
    }
}

fn signed_decimal_string(i: i64) -> (s: String)
    ensures
        s@ == signed_decimal(i as int),
{
    let mut s = String::new();
    push_signed_decimal(&mut s, i);
    proof {
        assert(s@ =~= signed_decimal(i as int));
    }
    s
}

impl Profiler {
    /// Prometheus text exposition of the counters in `metrics` and of this
    /// profiler's buffer, every metric named `<prefix>_<metric>` with the
    /// prefix's trailing underscores removed. The two hit ratios are
    /// floating-point values and come rendered by the caller.
    pub fn prometheus(&self, prefix: &str, metrics: &MetricsSnapshot, nvrtc_ratio: &str, fft_ratio: &str) -> (t:
        String)
        requires
            i64::MIN <= metrics.spec_resident_bytes() <= i64::MAX,
        ensures
            t@ == prometheus_text(
                trim_underscores(prefix@),
                *metrics,
                nvrtc_ratio@,
                fft_ratio@,
                self@.events.len(),
                self@.dropped,
            ),
    {
        let p = trim_trailing_underscores(prefix);
        let mut out = String::new();
        let v = crate::text::decimal_string(metrics.alloc_bytes);
        push_gauge(&mut out, p, "alloc_bytes_total", "Device memory allocated via tensor factories", v.as_str());
        let v = crate::text::decimal_string(metrics.free_bytes);
        push_gauge(&mut out, p, "free_bytes_total", "Device memory released", v.as_str());
        let v = signed_decimal_string(metrics.resident_bytes());
        push_gauge(&mut out, p, "resident_bytes", "alloc minus free", v.as_str());
        let v = crate::text::decimal_string(metrics.htod_bytes);
        push_gauge(&mut out, p, "htod_bytes_total", "Host-to-device bytes copied", v.as_str());
        let v = crate::text::decimal_string(metrics.dtoh_bytes);
        push_gauge(&mut out, p, "dtoh_bytes_total", "Device-to-host bytes copied", v.as_str());
        let v = crate::text::decimal_string(metrics.kernels_launched);
        push_gauge(&mut out, p, "kernels_launched_total", "Kernel launches", v.as_str());
        let v = crate::text::decimal_string(metrics.blas_calls);
        push_gauge(&mut out, p, "blas_calls_total", "cuBLASLt calls", v.as_str());
        push_gauge(&mut out, p, "nvrtc_hit_ratio", "NVRTC cache hit ratio [0,1]", nvrtc_ratio);
        push_gauge(&mut out, p, "fft_hit_ratio", "cuFFT plan cache hit ratio [0,1]", fft_ratio);
        let v = crate::text::decimal_string(metrics.collectives);
        push_gauge(&mut out, p, "collectives_total", "NCCL collectives invoked", v.as_str());
        let v = crate::text::decimal_string(self.events.len() as u64);
        push_gauge(&mut out, p, "profiler_events", "Profiler events currently buffered", v.as_str());
        let v = crate::text::decimal_string(self.dropped);
        push_gauge(&mut out, p, "profiler_dropped_total", "Profiler events dropped (buffer full)", v.as_str());
        proof {
            assert(out@ =~= prometheus_text(
                trim_underscores(prefix@),
                *metrics,
                nvrtc_ratio@,
                fft_ratio@,
                self@.events.len(),
                self@.dropped,
            ));
        }
        out
    }
}

/// Instant marker: recorded with `Profiler::mark`.
#[derive(Debug)]
pub struct Marker;

} // verus!
