//! The output streamer: what one background reader does with each result
//! of reading a session's terminal, until the stream closes.

use vstd::prelude::*;
use vstd::slice::slice_subrange;
use vstd::slice::slice_to_vec;
use vstd::string::StringExecFns;

verus! {

/// Output event sent to the presentation layer.
#[derive(Debug, PartialEq, Eq)]
pub struct PtyOutput {
    pub id: String,
    pub data: Vec<u8>,
}

/// Session exit event.
#[derive(Debug, PartialEq, Eq)]
pub struct PtyExit {
    pub id: String,
    pub code: Option<u32>,
}

/// An event for the sink.
#[derive(Debug, PartialEq, Eq)]
pub enum StreamEvent {
    Output(PtyOutput),
    Exit(PtyExit),
}

/// Mathematical model of a [`StreamEvent`].
pub enum EventView {
    Output { id: Seq<char>, data: Seq<u8> },
    Exit { id: Seq<char>, code: Option<u32> },
}

impl View for PtyOutput {
    type V = EventView;

    open spec fn view(&self) -> EventView {
        EventView::Output { id: self.id@, data: self.data@ }
    }
}

impl View for PtyExit {
    type V = EventView;

    open spec fn view(&self) -> EventView {
        EventView::Exit { id: self.id@, code: self.code }
    }
}

impl View for StreamEvent {
    type V = EventView;

    open spec fn view(&self) -> EventView {
        match *self {
            StreamEvent::Output(output) => output@,
            StreamEvent::Exit(exit) => exit@,
        }
    }
}

impl StreamEvent {
    /// The name under which the sink receives the event.
    pub open spec fn channel_of(event: EventView) -> Seq<char> {
        match event {
            EventView::Output { .. } => "pty-output"@,
            EventView::Exit { .. } => "pty-exit"@,
        }
    }

    /// The name under which the sink receives this event.
    pub fn channel(&self) -> (r: &'static str)
        ensures
            r@ == Self::channel_of(self@),
    {
        match self {
            StreamEvent::Output(_) => "pty-output",
            StreamEvent::Exit(_) => "pty-exit",
        }
    }
}

/// What one read of the terminal's output gave.
pub enum ReadView {
    /// Some bytes.
    Data(Seq<u8>),
    /// A read of length zero: the stream is closed.
    Eof,
    /// The read failed, with the error's text.
    Failed(Seq<char>),
}

/// The model of a read that returned `read` into `buffer`.
pub open spec fn read_view(read: Result<usize, String>, buffer: Seq<u8>) -> ReadView {
    match read {
        Ok(n) => if n == 0 {
            ReadView::Eof
        } else {
            ReadView::Data(buffer.take(n as int))
        },
        Err(cause) => ReadView::Failed(cause@),
    }
}

/// Mathematical model of an [`OutputStreamer`].
pub struct StreamerView {
    /// The session whose output is streamed.
    pub id: Seq<char>,
    /// An event sink was attached when the session was spawned.
    pub wired: bool,
    /// The stream has closed or failed; nothing more is read.
    pub finished: bool,
}

/// The event that a streamer in state `s` emits for `read`, if any. Without
/// a sink every event is dropped; a failed read emits nothing.
pub open spec fn step_event(s: StreamerView, read: ReadView) -> Option<EventView> {
    if s.finished || !s.wired {
        None
    } else {
        match read {
            ReadView::Data(data) => Some(EventView::Output { id: s.id, data }),
            ReadView::Eof => Some(EventView::Exit { id: s.id, code: None }),
            ReadView::Failed(_) => None,
        }
    }
}

/// What a streamer in state `s` reports locally for `read`, if anything.
pub open spec fn step_report(s: StreamerView, read: ReadView) -> Option<Seq<char>> {
    if s.finished {
        None
    } else {
        match read {
            ReadView::Failed(cause) => Some("Read error for session "@ + s.id + ": "@ + cause),
            _ => None,
        }
    }
}

/// The state of a streamer after `read`.
pub open spec fn step_state(s: StreamerView, read: ReadView) -> StreamerView {
    StreamerView { finished: s.finished || !(read is Data), ..s }
}

/// The events that a streamer emits, in order, for the reads `reads`.
pub open spec fn events_of(s: StreamerView, reads: Seq<ReadView>) -> Seq<EventView>
    decreases reads.len(),
{
    if reads.len() == 0 {
        Seq::empty()
    } else {
        let rest = events_of(step_state(s, reads[0]), reads.drop_first());
        match step_event(s, reads[0]) {
            Some(event) => seq![event] + rest,
            None => rest,
        }
    }
}

/// The bytes of all output events in `events`, concatenated in order.
pub open spec fn output_bytes(events: Seq<EventView>) -> Seq<u8>
    decreases events.len(),
{
    if events.len() == 0 {
        Seq::empty()
    } else {
        match events[0] {
            EventView::Output { data, .. } => data + output_bytes(events.drop_first()),
            EventView::Exit { .. } => output_bytes(events.drop_first()),
        }
    }
}

/// The number of exit events in `events`.
pub open spec fn exit_count(events: Seq<EventView>) -> nat
    decreases events.len(),
{
    if events.len() == 0 {
        0
    } else {
        match events[0] {
            EventView::Output { .. } => exit_count(events.drop_first()),
            EventView::Exit { .. } => 1 + exit_count(events.drop_first()),
        }
    }
}

/// The bytes that the terminal delivered before its stream closed or failed:
/// the chunks of `reads` up to the first that is not data, concatenated.
pub open spec fn bytes_delivered(reads: Seq<ReadView>) -> Seq<u8>
    decreases reads.len(),
{
    if reads.len() == 0 {
        Seq::empty()
    } else {
        match reads[0] {
            ReadView::Data(data) => data + bytes_delivered(reads.drop_first()),
            _ => Seq::empty(),
        }
    }
}

/// The stream of `reads` ends by closing: the first read that is not data
/// is a read of length zero.
pub open spec fn closes(reads: Seq<ReadView>) -> bool
    decreases reads.len(),
{
    if reads.len() == 0 {
        false
    } else {
        match reads[0] {
            ReadView::Data(_) => closes(reads.drop_first()),
            ReadView::Eof => true,
            ReadView::Failed(_) => false,
        }
    }
}

/// A finished streamer emits nothing, whatever is read.
pub proof fn lemma_finished_is_silent(s: StreamerView, reads: Seq<ReadView>)
    requires
        s.finished,
    ensures
        events_of(s, reads) == Seq::<EventView>::empty(),
    decreases reads.len(),
{
    if reads.len() > 0 {
        lemma_finished_is_silent(step_state(s, reads[0]), reads.drop_first());
    }
}

/// A streamer without a sink emits nothing, whatever is read.
pub proof fn lemma_unwired_is_silent(s: StreamerView, reads: Seq<ReadView>)
    requires
        !s.wired,
    ensures
        events_of(s, reads) == Seq::<EventView>::empty(),
    decreases reads.len(),
{
    if reads.len() > 0 {
        lemma_unwired_is_silent(step_state(s, reads[0]), reads.drop_first());
    }
}

/// The concatenation of all output events of a session equals the bytes
/// that its terminal delivered, however the reads cut them into chunks.
pub proof fn lemma_output_is_concatenation(s: StreamerView, reads: Seq<ReadView>)
    requires
        s.wired,
        !s.finished,
    ensures
        output_bytes(events_of(s, reads)) == bytes_delivered(reads),
    decreases reads.len(),
{
    if reads.len() > 0 {
        let next = step_state(s, reads[0]);
        let rest = events_of(next, reads.drop_first());
        match reads[0] {
            ReadView::Data(data) => {
                lemma_output_is_concatenation(next, reads.drop_first());
                let all = seq![EventView::Output { id: s.id, data }] + rest;
                assert(all.drop_first() =~= rest);
                assert(events_of(s, reads) == all);
            },
            ReadView::Eof => {
                lemma_finished_is_silent(next, reads.drop_first());
                let all = seq![EventView::Exit { id: s.id, code: None }] + rest;
                assert(all.drop_first() =~= rest);
                assert(events_of(s, reads) == all);
                assert(output_bytes(rest) =~= Seq::<u8>::empty());
            },
            ReadView::Failed(_) => {
                lemma_finished_is_silent(next, reads.drop_first());
            },
        }
    }
}

/// Two runs of reads that deliver the same bytes in different chunks give
/// the same concatenated output.
pub proof fn lemma_chunking_is_invisible(s: StreamerView, a: Seq<ReadView>, b: Seq<ReadView>)
    requires
        s.wired,
        !s.finished,
        bytes_delivered(a) == bytes_delivered(b),
    ensures
        output_bytes(events_of(s, a)) == output_bytes(events_of(s, b)),
{
    lemma_output_is_concatenation(s, a);
    lemma_output_is_concatenation(s, b);
}

/// The exit event is emitted exactly once where the stream closes, and
/// never where it fails or is still open.
pub proof fn lemma_exit_once(s: StreamerView, reads: Seq<ReadView>)
    requires
        s.wired,
        !s.finished,
    ensures
        exit_count(events_of(s, reads)) == (if closes(reads) { 1nat } else { 0nat }),
    decreases reads.len(),
{
    if reads.len() > 0 {
        let next = step_state(s, reads[0]);
        let rest = events_of(next, reads.drop_first());
        match reads[0] {
            ReadView::Data(data) => {
                lemma_exit_once(next, reads.drop_first());
                let all = seq![EventView::Output { id: s.id, data }] + rest;
                assert(all.drop_first() =~= rest);
                assert(events_of(s, reads) == all);
            },
            ReadView::Eof => {
                lemma_finished_is_silent(next, reads.drop_first());
                let all = seq![EventView::Exit { id: s.id, code: None }] + rest;
                assert(all.drop_first() =~= rest);
                assert(events_of(s, reads) == all);
                assert(exit_count(rest) == 0);
            },
            ReadView::Failed(_) => {
                lemma_finished_is_silent(next, reads.drop_first());
                assert(exit_count(rest) == 0);
            },
        }
    }
}

/// What the reader does after one read.
#[derive(Debug, PartialEq, Eq)]
pub struct StreamStep {
    /// The event to hand to the sink, if any.
    pub event: Option<StreamEvent>,
    /// The message to report locally, if any.
    pub report: Option<String>,
    /// The reader stops: the stream has closed or failed.
    pub finished: bool,
}

/// The view of an optional event.
pub open spec fn event_view(event: Option<StreamEvent>) -> Option<EventView> {
    match event {
        Some(e) => Some(e@),
        None => None,
    }
}

/// The view of an optional report.
pub open spec fn report_view(report: Option<String>) -> Option<Seq<char>> {
    match report {
        Some(text) => Some(text@),
        None => None,
    }
}

/// The part of the output streamer that decides: the session it serves,
/// whether a sink is attached, and whether the stream has ended.
#[derive(Debug, PartialEq, Eq)]
pub struct OutputStreamer {
    id: String,
    wired: bool,
    finished: bool,
}

impl View for OutputStreamer {
    type V = StreamerView;

    closed spec fn view(&self) -> StreamerView {
        StreamerView { id: self.id@, wired: self.wired, finished: self.finished }
    }
}

/// Size of the buffer that the reader reads into.
pub const CHUNK_SIZE: usize = 4096;

impl OutputStreamer {
    /// A streamer for session `id` that has not read anything yet.
    pub fn new(id: String, wired: bool) -> (r: Self)
        ensures
            r@ == (StreamerView { id: id@, wired, finished: false }),
    {
        OutputStreamer { id, wired, finished: false }
    }

    /// The stream has closed or failed.
    pub fn is_finished(&self) -> (r: bool)
        ensures
            r == self@.finished,
    {
        self.finished
    }

    /// Takes the result of one read into `buffer` and says what to do with
    /// it: emit the bytes read, emit the exit event on a read of length
    /// zero, or report a failed read; and whether to stop reading.
    pub fn on_read(&mut self, read: Result<usize, String>, buffer: &[u8]) -> (r: StreamStep)
        requires
            read matches Ok(n) ==> n <= buffer@.len(),
        ensures
            final(self)@ == step_state(old(self)@, read_view(read, buffer@)),
            event_view(r.event) == step_event(old(self)@, read_view(read, buffer@)),
            report_view(r.report) == step_report(old(self)@, read_view(read, buffer@)),
            r.finished == final(self)@.finished,
    {
        if self.finished {
            return StreamStep { event: None, report: None, finished: true };
        }
        match read {
            Ok(n) => {
                if n == 0 {
                    self.finished = true;
                    let event = if self.wired {
                        Some(StreamEvent::Exit(PtyExit { id: self.id.clone(), code: None }))
                    } else {
                        None
                    };
                    StreamStep { event, report: None, finished: true }
                } else {
                    let event = if self.wired {
                        let data = slice_to_vec(slice_subrange(buffer, 0, n));
                        assert(data@ =~= buffer@.take(n as int));
                        Some(StreamEvent::Output(PtyOutput { id: self.id.clone(), data }))
                    } else {
                        None
                    };
                    StreamStep { event, report: None, finished: false }
                }
            },
            Err(cause) => {
                self.finished = true;
                let mut text = String::from_str("Read error for session ");
                text.append(self.id.as_str());
                text.append(": ");
                text.append(cause.as_str());
                StreamStep { event: None, report: Some(text), finished: true }
            },
        }
    }
}

} // verus!
