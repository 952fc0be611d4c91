use vstd::prelude::*;

verus! {

/// Severity at which the output pump hands a record to the logging sink.
#[derive(Clone, Copy, Debug, PartialEq, Eq, Structural)]
pub enum LogLevel {
    Info,
    Error,
    Trace,
}

/// Which channel of the child a line came from.
#[derive(Clone, Copy, Debug, PartialEq, Eq, Structural)]
pub enum Stream {
    Stdout,
    Stderr,
}

/// How the child ended: its exit code and, on Unix, the signal that ended it.
#[derive(Clone, Copy, Debug, PartialEq, Eq, Structural)]
pub struct ExitStatus {
    pub code: Option<i32>,
    pub signal: Option<i32>,
}

/// One event read from the child's output channel.
#[derive(Debug)]
pub enum OutputEvent {
    StandardOutputLine(Vec<u8>),
    StandardErrorLine(Vec<u8>),
    Terminated(ExitStatus),
    /// Any other event of the channel, kept as its printed form.
    Other(String),
}

/// The mathematical value of an `OutputEvent`.
pub ghost enum EventView {
    StandardOutputLine(Seq<u8>),
    StandardErrorLine(Seq<u8>),
    Terminated(ExitStatus),
    Other(Seq<char>),
}

impl View for OutputEvent {
    type V = EventView;

    open spec fn view(&self) -> EventView {
        match self {
            OutputEvent::StandardOutputLine(b) => EventView::StandardOutputLine(b@),
            OutputEvent::StandardErrorLine(b) => EventView::StandardErrorLine(b@),
            OutputEvent::Terminated(s) => EventView::Terminated(*s),
            OutputEvent::Other(t) => EventView::Other(t@),
        }
    }
}

/// What the pump hands to the logging sink: the event itself, at a severity.
#[derive(Debug)]
pub struct LogRecord {
    pub level: LogLevel,
    pub event: OutputEvent,
}

pub ghost struct RecordView {
    pub level: LogLevel,
    pub event: EventView,
}

impl View for LogRecord {
    type V = RecordView;

    open spec fn view(&self) -> RecordView {
        RecordView { level: self.level, event: self.event@ }
    }
}

/// Standard output is logged at info, standard error and the child's end at
/// error, anything else at trace.
pub open spec fn level_of(e: EventView) -> LogLevel {
    match e {
        EventView::StandardOutputLine(_) => LogLevel::Info,
        EventView::StandardErrorLine(_) => LogLevel::Error,
        EventView::Terminated(_) => LogLevel::Error,
        EventView::Other(_) => LogLevel::Trace,
    }
}

pub open spec fn record_of(e: EventView) -> RecordView {
    RecordView { level: level_of(e), event: e }
}

pub open spec fn is_termination(e: EventView) -> bool {
    e is Terminated
}

pub open spec fn has_termination(events: Seq<EventView>) -> bool {
    exists|i: int| 0 <= i < events.len() && #[trigger] is_termination(events[i])
}

/// The records that a pump fed `events` in order hands to the sink: one per
/// event, up to and including the first termination, after which it has ended.
pub open spec fn pump_run(events: Seq<EventView>) -> Seq<RecordView>
    decreases events.len(),
{
    if events.len() == 0 {
        Seq::empty()
    } else {
        let before = events.drop_last();
        if has_termination(before) {
            pump_run(before)
        } else {
            pump_run(before).push(record_of(events.last()))
        }
    }
}

/// The line carried by `e` when it is a line of `stream`.
pub open spec fn line_on(stream: Stream, e: EventView) -> Option<Seq<u8>> {
    match e {
        EventView::StandardOutputLine(b) => if stream == Stream::Stdout {
            Some(b)
        } else {
            None
        },
        EventView::StandardErrorLine(b) => if stream == Stream::Stderr {
            Some(b)
        } else {
            None
        },
        _ => None,
    }
}

/// The lines of one stream among `events`, in order.
pub open spec fn lines_of(stream: Stream, events: Seq<EventView>) -> Seq<Seq<u8>>
    decreases events.len(),
{
    if events.len() == 0 {
        Seq::empty()
    } else {
        let earlier = lines_of(stream, events.drop_last());
        match line_on(stream, events.last()) {
            Some(b) => earlier.push(b),
            None => earlier,
        }
    }
}

/// The lines of one stream that reached the sink, in the order it got them.
pub open spec fn logged_lines(stream: Stream, records: Seq<RecordView>) -> Seq<Seq<u8>> {
    lines_of(stream, records.map_values(|r: RecordView| r.event))
}

/// The events up to and including the first termination (all of them if none).
pub open spec fn through_termination(events: Seq<EventView>) -> Seq<EventView>
    decreases events.len(),
{
    if events.len() == 0 {
        events
    } else {
        let before = events.drop_last();
        if has_termination(before) {
            through_termination(before)
        } else {
            events
        }
    }
}

/// A pump fed any sequence of events hands the sink exactly one record per
/// event up to and including the first termination, in order, each at its
/// severity; so every line of a stream reaches the sink once, in the order the
/// child wrote it, and when the channel holds no termination every line does.
pub proof fn lemma_pump_delivers_each_line_once(events: Seq<EventView>, stream: Stream)
    ensures
        pump_run(events) == through_termination(events).map_values(|e: EventView| record_of(e)),
        logged_lines(stream, pump_run(events)) == lines_of(stream, through_termination(events)),
        !has_termination(events) ==> through_termination(events) == events,
        !has_termination(events) ==> logged_lines(stream, pump_run(events)) == lines_of(
            stream,
            events,
        ),
    decreases events.len(),
{
    if events.len() > 0 {
        let before = events.drop_last();
        lemma_pump_delivers_each_line_once(before, stream);
        if !has_termination(before) {
            assert(pump_run(events) =~= events.map_values(|e: EventView| record_of(e)));
        }
        if !has_termination(events) && has_termination(before) {
            let j = choose|j: int| 0 <= j < before.len() && #[trigger] is_termination(before[j]);
            assert(is_termination(events[j]));
        }
    }
    let t = through_termination(events);
    assert(t.map_values(|e: EventView| record_of(e)).map_values(|r: RecordView| r.event) =~= t);
}

/// Drains one child's output channel: each event goes to the sink once, at
/// its severity, until the child's termination has been recorded.
pub struct OutputPump {
    finished: bool,
}

impl OutputPump {
    pub closed spec fn is_finished_spec(&self) -> bool {
        self.finished
    }

    pub fn new() -> (r: OutputPump)
        ensures
            !r.is_finished_spec(),
    {
        OutputPump { finished: false }
    }

    pub fn is_finished(&self) -> (r: bool)
        ensures
            r == self.is_finished_spec(),
    {
        self.finished
    }

    /// Takes the next event of the channel. Until the pump has ended it
    /// returns the record for the sink; the termination event ends it.
    pub fn accept(&mut self, event: OutputEvent) -> (r: Option<LogRecord>)
        ensures
            old(self).is_finished_spec() ==> r is None && final(self).is_finished_spec(),
            !old(self).is_finished_spec() ==> r is Some && r.unwrap()@ == record_of(event@)
                && final(self).is_finished_spec() == is_termination(event@),
    {
        if self.finished {
            return None;
        }
        let level = level(&event);
        self.finished = matches!(event, OutputEvent::Terminated(_));
        Some(LogRecord { level, event })
    }
}

/// The severity at which `event` is logged.
pub fn level(event: &OutputEvent) -> (r: LogLevel)
    ensures
        r == level_of(event@),
{
    match event {
        OutputEvent::StandardOutputLine(_) => LogLevel::Info,
        OutputEvent::StandardErrorLine(_) => LogLevel::Error,
        OutputEvent::Terminated(_) => LogLevel::Error,
        OutputEvent::Other(_) => LogLevel::Trace,
    }
}

/// Runs a fresh pump over a finished channel's events, in order.
pub fn drain(events: Vec<OutputEvent>) -> (r: Vec<LogRecord>)
    ensures
        r@.map_values(|x: LogRecord| x@) == pump_run(events@.map_values(|e: OutputEvent| e@)),
{
    let ghost evs = events@.map_values(|e: OutputEvent| e@);
    let mut pump = OutputPump::new();
    let mut out: Vec<LogRecord> = Vec::new();
    let mut i: usize = 0;
    let n = events.len();
    let mut rest = events;
    while i < n
        invariant
            n == evs.len(),
            rest.len() == n - i,
            forall|k: int| 0 <= k < n - i ==> (#[trigger] rest@[k])@ == evs[i + k],
            pump.is_finished_spec() == has_termination(evs.subrange(0, i as int)),
            out@.map_values(|x: LogRecord| x@) == pump_run(evs.subrange(0, i as int)),
        decreases n - i,
    {
        let e = rest.remove(0);
        proof {
            let pre = evs.subrange(0, i as int);
            let cur = evs.subrange(0, i + 1);
            assert(cur.drop_last() =~= pre);
            assert(cur.last() == e@);
            if has_termination(pre) {
                let j = choose|j: int| 0 <= j < pre.len() && #[trigger] is_termination(pre[j]);
                assert(is_termination(cur[j]));
            }
            if is_termination(e@) {
                assert(is_termination(cur[i as int]));
            }
            if has_termination(cur) && !has_termination(pre) {
                let j = choose|j: int| 0 <= j < cur.len() && #[trigger] is_termination(cur[j]);
                if j < i {
                    assert(is_termination(pre[j]));
                }
            }
        }
        let rec = pump.accept(e);
        match rec {
            Some(x) => {
                out.push(x);
            },
            None => {},
        }
        proof {
            assert(out@.map_values(|x: LogRecord| x@) =~= pump_run(evs.subrange(0, i + 1)));
        }
        i = i + 1;
    }
    assert(evs.subrange(0, n as int) =~= evs);
    out
}

} // verus!
