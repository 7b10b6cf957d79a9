//! The bounded diagnostics ring.
//!
//! A ring of recent log entries, appended to by every part of the engine
//! and read out by the control surface.  Once the fixed capacity is
//! exceeded, the oldest entry is evicted; nothing besides appending ever
//! mutates the ring.

use vstd::prelude::*;

verus! {

/// The ring keeps at most this many recent entries.
pub const LOG_CAPACITY: usize = 1000;

/// One diagnostics entry.
#[derive(Debug)]
pub enum LogEvent {
    /// A free-form line from the control surface.
    Line(String),
    /// A decoded key event, recorded only in verbose mode.
    Key { chars: Vec<char> },
    /// A rule fired, at this position of the scanned rule list.
    RuleMatched { rule_index: usize },
    /// A match in dry-run mode: what would have been erased and typed.
    DryRun { backspace_count: usize, replacement_len: usize },
    /// Periodic liveness report from the heartbeat task.
    Heartbeat { events: u64, running: bool },
}

/// The mathematical shape of a diagnostics entry.
pub enum EventV {
    Line(Seq<char>),
    Key(Seq<char>),
    RuleMatched(int),
    DryRun { backspace_count: int, replacement_len: int },
    Heartbeat { events: u64, running: bool },
}

impl View for LogEvent {
    type V = EventV;

    open spec fn view(&self) -> EventV {
        match self {
            LogEvent::Line(s) => EventV::Line(s@),
            LogEvent::Key { chars } => EventV::Key(chars@),
            LogEvent::RuleMatched { rule_index } => EventV::RuleMatched(*rule_index as int),
            LogEvent::DryRun { backspace_count, replacement_len } => EventV::DryRun {
                backspace_count: *backspace_count as int,
                replacement_len: *replacement_len as int,
            },
            LogEvent::Heartbeat { events, running } => EventV::Heartbeat {
                events: *events,
                running: *running,
            },
        }
    }
}

/// A deep copy of one entry.
pub fn clone_event(e: &LogEvent) -> (c: LogEvent)
    ensures
        c@ == e@,
{
    match e {
        LogEvent::Line(s) => LogEvent::Line(s.clone()),
        LogEvent::Key { chars } => LogEvent::Key { chars: clone_chars(chars) },
        LogEvent::RuleMatched { rule_index } => LogEvent::RuleMatched { rule_index: *rule_index },
        LogEvent::DryRun { backspace_count, replacement_len } => LogEvent::DryRun {
            backspace_count: *backspace_count,
            replacement_len: *replacement_len,
        },
        LogEvent::Heartbeat { events, running } => LogEvent::Heartbeat {
            events: *events,
            running: *running,
        },
    }
}

/// A deep copy of a decoded character sequence.
pub fn clone_chars(chars: &Vec<char>) -> (c: Vec<char>)
    ensures
        c@ == chars@,
{
    let mut c: Vec<char> = Vec::new();
    let mut i: usize = 0;
    while i < chars.len()
        invariant
            i <= chars@.len(),
            c@ == chars@.take(i as int),
        decreases chars@.len() - i,
    {
        c.push(chars[i]);
        proof {
            assert(c@ =~= chars@.take(i + 1));
        }
        i = i + 1;
    }
    proof {
        assert(chars@.take(chars@.len() as int) =~= chars@);
    }
    c
}

/// The ring after appending `e`: the oldest entry is evicted once the
/// capacity is reached.
pub open spec fn ring_after(log: Seq<EventV>, e: EventV) -> Seq<EventV> {
    if log.len() < LOG_CAPACITY {
        log.push(e)
    } else {
        log.drop_first().push(e)
    }
}

/// The bounded, append-only ring of recent entries.
pub struct LogRing {
    entries: Vec<LogEvent>,
}

impl View for LogRing {
    type V = Seq<EventV>;

    closed spec fn view(&self) -> Seq<EventV> {
        self.entries@.map(|i: int, e: LogEvent| e@)
    }
}

impl LogRing {
    #[verifier::type_invariant]
    spec fn bounded(self) -> bool {
        self.entries@.len() <= LOG_CAPACITY
    }

    pub fn new() -> (r: Self)
        ensures
            r@ == Seq::<EventV>::empty(),
    {
        let r = LogRing { entries: Vec::new() };
        proof {
            assert(r@ =~= Seq::<EventV>::empty());
        }
        r
    }

    pub fn len(&self) -> (n: usize)
        ensures
            n == self@.len(),
    {
        self.entries.len()
    }

    /// Appends one entry, evicting the oldest once the ring is full.
    pub fn push_event(&mut self, e: LogEvent)
        ensures
            final(self)@ == ring_after(old(self)@, e@),
    {
        proof {
            use_type_invariant(&*self);
        }
        let ghost ev = e@;
        let mut entries: Vec<LogEvent> = Vec::new();
        core::mem::swap(&mut entries, &mut self.entries);
        entries.push(e);
        if entries.len() > LOG_CAPACITY {
            entries.remove(0);
        }
        proof {
            assert(entries@.map(|i: int, ent: LogEvent| ent@) =~= ring_after(old(self)@, ev));
        }
        self.entries = entries;
    }

    /// Appends a free-form line, as the control surface does.
    pub fn push_log(&mut self, line: String)
        ensures
            final(self)@ == ring_after(old(self)@, EventV::Line(line@)),
    {
        self.push_event(LogEvent::Line(line));
    }

    /// A copy of the whole ring, oldest entry first, for display.
    pub fn get_logs(&self) -> (v: Vec<LogEvent>)
        ensures
            v@.len() == self@.len(),
            forall|i: int| 0 <= i < v@.len() ==> #[trigger] v@[i]@ == self@[i],
    {
        let mut v: Vec<LogEvent> = Vec::new();
        let mut i: usize = 0;
        while i < self.entries.len()
            invariant
                i <= self.entries@.len(),
                v@.len() == i,
                forall|j: int| 0 <= j < i ==> #[trigger] v@[j]@ == self@[j],
        decreases self.entries@.len() - i,
        {
            v.push(clone_event(&self.entries[i]));
            i = i + 1;
        }
        v
    }
}

} // verus!
