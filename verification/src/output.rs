//! The result of one remote command and the events it is folded from.

use vstd::prelude::*;
use vstd::utf8::{decode_utf8, valid_utf8};

verus! {

/// One message delivered on the channel a command runs on.
pub enum ChannelEvent {
    /// A chunk of the command's standard output.
    Data(Vec<u8>),
    /// A chunk of extended data, tagged with its extension identifier.
    ExtendedData(u32, Vec<u8>),
    /// The command's exit status.
    ExitStatus(u32),
    /// Any message that has no bearing on the command's result.
    Other,
}

/// The mathematical value of a [`ChannelEvent`].
pub enum EventView {
    Data(Seq<u8>),
    ExtendedData(u32, Seq<u8>),
    ExitStatus(u32),
    Other,
}

impl View for ChannelEvent {
    type V = EventView;

    open spec fn view(&self) -> EventView {
        match self {
            ChannelEvent::Data(data) => EventView::Data(data@),
            ChannelEvent::ExtendedData(ext, data) => EventView::ExtendedData(*ext, data@),
            ChannelEvent::ExitStatus(code) => EventView::ExitStatus(*code),
            ChannelEvent::Other => EventView::Other,
        }
    }
}

/// What a finished remote command left behind.
pub struct Output {
    pub stdout: Vec<u8>,
    pub stderr: Vec<u8>,
    pub code: Option<u32>,
}

/// The mathematical value of an [`Output`].
pub struct OutputView {
    pub stdout: Seq<u8>,
    pub stderr: Seq<u8>,
    pub code: Option<u32>,
}

impl View for Output {
    type V = OutputView;

    open spec fn view(&self) -> OutputView {
        OutputView { stdout: self.stdout@, stderr: self.stderr@, code: self.code }
    }
}

/// The views of a run of events, in arrival order.
pub open spec fn event_views(events: Seq<ChannelEvent>) -> Seq<EventView> {
    events.map_values(|e: ChannelEvent| e@)
}

/// The result before any event has arrived.
pub open spec fn empty_output() -> OutputView {
    OutputView { stdout: Seq::empty(), stderr: Seq::empty(), code: None }
}

/// The bytes a run of events contributes to standard output: the payloads
/// of its `Data` events, joined in arrival order.
pub open spec fn stdout_of(events: Seq<EventView>) -> Seq<u8>
    decreases events.len(),
{
    if events.len() == 0 {
        Seq::empty()
    } else {
        match events.last() {
            EventView::Data(data) => stdout_of(events.drop_last()) + data,
            _ => stdout_of(events.drop_last()),
        }
    }
}

/// The bytes a run of events contributes to standard error: the payloads
/// of its `ExtendedData` events, joined in arrival order.
pub open spec fn stderr_of(events: Seq<EventView>) -> Seq<u8>
    decreases events.len(),
{
    if events.len() == 0 {
        Seq::empty()
    } else {
        match events.last() {
            EventView::ExtendedData(_, data) => stderr_of(events.drop_last()) + data,
            _ => stderr_of(events.drop_last()),
        }
    }
}

/// The exit status a run of events reports: that of its last `ExitStatus`
/// event, or none when it holds no such event.
pub open spec fn exit_of(events: Seq<EventView>) -> Option<u32>
    decreases events.len(),
{
    if events.len() == 0 {
        None
    } else {
        match events.last() {
            EventView::ExitStatus(code) => Some(code),
            _ => exit_of(events.drop_last()),
        }
    }
}

/// The result an accumulator `acc` turns into when `event` arrives.
pub open spec fn absorb(acc: OutputView, event: EventView) -> OutputView {
    match event {
        EventView::Data(data) => OutputView { stdout: acc.stdout + data, ..acc },
        EventView::ExtendedData(_, data) => OutputView { stderr: acc.stderr + data, ..acc },
        EventView::ExitStatus(code) => OutputView { code: Some(code), ..acc },
        EventView::Other => acc,
    }
}

/// The result of a whole run of events.
pub open spec fn output_of(events: Seq<EventView>) -> OutputView {
    OutputView { stdout: stdout_of(events), stderr: stderr_of(events), code: exit_of(events) }
}

/// Text that a lossy UTF-8 decoding makes of `bytes`.
pub uninterp spec fn lossy_text(bytes: Seq<u8>) -> Seq<char>;

/// Calls `String::from_utf8_lossy`. The text is a function of the bytes
/// alone; where the bytes are valid UTF-8 it is exactly their decoding.
#[verifier::external_body]
fn decode_lossy(bytes: &Vec<u8>) -> (text: String)
    ensures
        text@ == lossy_text(bytes@),
        valid_utf8(bytes@) ==> text@ == decode_utf8(bytes@),
{
    String::from_utf8_lossy(bytes).into_owned()
}

impl Default for Output {
    /// The result before any event has arrived.
    fn default() -> (out: Output)
        ensures
            out@ == empty_output(),
    {
        Output::new()
    }
}

impl Output {
    /// The result before any event has arrived.
    pub fn new() -> (out: Output)
        ensures
            out@ == empty_output(),
    {
        Output { stdout: Vec::new(), stderr: Vec::new(), code: None }
    }

    /// Takes one event into the result.
    pub fn record(&mut self, event: &ChannelEvent)
        ensures
            final(self)@ == absorb(old(self)@, event@),
    {
        match event {
            ChannelEvent::Data(data) => {
                self.stdout.extend_from_slice(data.as_slice());
                assert(self.stdout@ =~= old(self).stdout@ + data@);
            },
            ChannelEvent::ExtendedData(_, data) => {
                self.stderr.extend_from_slice(data.as_slice());
                assert(self.stderr@ =~= old(self).stderr@ + data@);
            },
            ChannelEvent::ExitStatus(code) => {
                self.code = Some(*code);
            },
            ChannelEvent::Other => {},
        }
    }

    /// Folds a whole run of events, in arrival order, into one result.
    pub fn collect(events: &Vec<ChannelEvent>) -> (out: Output)
        ensures
            out@ == output_of(event_views(events@)),
    {
        let mut out = Output::new();
        let mut i: usize = 0;
        while i < events.len()
            invariant
                i <= events.len(),
                out@ == output_of(event_views(events@.take(i as int))),
            decreases events.len() - i,
        {
            proof {
                let before = event_views(events@.take(i as int));
                let after = event_views(events@.take(i + 1));
                assert(after.drop_last() =~= before);
                assert(after.last() == events@[i as int]@);
                lemma_output_of_push(before, events@[i as int]@);
                assert(before.push(events@[i as int]@) =~= after);
            }
            out.record(&events[i]);
            i = i + 1;
        }
        assert(events@.take(i as int) =~= events@);
        out
    }

    /// The captured standard output as text; bytes that are not valid UTF-8
    /// are replaced rather than rejected.
    pub fn stdout_string(&self) -> (text: String)
        ensures
            text@ == lossy_text(self.stdout@),
            valid_utf8(self.stdout@) ==> text@ == decode_utf8(self.stdout@),
    {
        decode_lossy(&self.stdout)
    }

    /// The captured standard error as text; bytes that are not valid UTF-8
    /// are replaced rather than rejected.
    pub fn stderr_string(&self) -> (text: String)
        ensures
            text@ == lossy_text(self.stderr@),
            valid_utf8(self.stderr@) ==> text@ == decode_utf8(self.stderr@),
    {
        decode_lossy(&self.stderr)
    }

    /// Whether the command reported exit status zero. A command whose
    /// channel closed without a status did not succeed.
    pub fn success(&self) -> (ok: bool)
        ensures
            ok == (self.code == Some(0u32)),
    {
        match self.code {
            Some(code) => code == 0,
            None => false,
        }
    }
}

/// Folding one more event is absorbing it into the fold of those before.
pub proof fn lemma_output_of_push(events: Seq<EventView>, event: EventView)
    ensures
        output_of(events.push(event)) == absorb(output_of(events), event),
{
    assert(events.push(event).drop_last() =~= events);
    assert(events.push(event).last() == event);
}

/// The events of a run that carry standard output, in arrival order.
pub open spec fn stdout_chunks(events: Seq<EventView>) -> Seq<EventView> {
    events.filter(|e: EventView| e is Data)
}

/// The events of a run that carry standard error, in arrival order.
pub open spec fn stderr_chunks(events: Seq<EventView>) -> Seq<EventView> {
    events.filter(|e: EventView| e is ExtendedData)
}

/// A run of events followed by another: each stream of the whole is the
/// stream of the first part followed by that of the second, and the exit
/// status is the second part's where it reports one.
pub proof fn lemma_output_of_concat(first: Seq<EventView>, second: Seq<EventView>)
    ensures
        stdout_of(first + second) == stdout_of(first) + stdout_of(second),
        stderr_of(first + second) == stderr_of(first) + stderr_of(second),
        exit_of(first + second) == match exit_of(second) {
            Some(code) => Some(code),
            None => exit_of(first),
        },
    decreases second.len(),
{
    if second.len() == 0 {
        assert(first + second =~= first);
        assert(stdout_of(first) + stdout_of(second) =~= stdout_of(first));
        assert(stderr_of(first) + stderr_of(second) =~= stderr_of(first));
    } else {
        let whole = first + second;
        assert(whole.drop_last() =~= first + second.drop_last());
        assert(whole.last() == second.last());
        lemma_output_of_concat(first, second.drop_last());
        match second.last() {
            EventView::Data(data) => {
                assert(stdout_of(whole) =~= stdout_of(first) + stdout_of(second));
            },
            EventView::ExtendedData(_, data) => {
                assert(stderr_of(whole) =~= stderr_of(first) + stderr_of(second));
            },
            _ => {},
        }
    }
}

/// Standard output is made of the `Data` events alone: dropping every
/// other event from a run leaves its standard output as it was.
pub proof fn lemma_stdout_of_chunks(events: Seq<EventView>)
    ensures
        stdout_of(stdout_chunks(events)) == stdout_of(events),
    decreases events.len(),
{
    reveal(Seq::filter);
    if events.len() > 0 {
        lemma_stdout_of_chunks(events.drop_last());
        let kept = stdout_chunks(events.drop_last());
        if events.last() is Data {
            assert(kept.push(events.last()).drop_last() =~= kept);
        }
    }
}

/// Standard error is made of the `ExtendedData` events alone: dropping
/// every other event from a run leaves its standard error as it was.
pub proof fn lemma_stderr_of_chunks(events: Seq<EventView>)
    ensures
        stderr_of(stderr_chunks(events)) == stderr_of(events),
    decreases events.len(),
{
    reveal(Seq::filter);
    if events.len() > 0 {
        lemma_stderr_of_chunks(events.drop_last());
        let kept = stderr_chunks(events.drop_last());
        if events.last() is ExtendedData {
            assert(kept.push(events.last()).drop_last() =~= kept);
        }
    }
}

/// Two runs that deliver the same standard-output chunks in the same order
/// give the same standard output, however those chunks are interleaved
/// with the other events of each run; likewise for standard error.
pub proof fn lemma_interleaving_keeps_streams(a: Seq<EventView>, b: Seq<EventView>)
    ensures
        stdout_chunks(a) == stdout_chunks(b) ==> stdout_of(a) == stdout_of(b),
        stderr_chunks(a) == stderr_chunks(b) ==> stderr_of(a) == stderr_of(b),
{
    lemma_stdout_of_chunks(a);
    lemma_stdout_of_chunks(b);
    lemma_stderr_of_chunks(a);
    lemma_stderr_of_chunks(b);
}

/// The exit status of a run is that of its last `ExitStatus` event,
/// wherever in the run that event stands.
pub proof fn lemma_last_exit_status_wins(events: Seq<EventView>, at: int)
    requires
        0 <= at < events.len(),
        events[at] is ExitStatus,
        forall|later: int| at < later < events.len() ==> !(#[trigger] events[later] is ExitStatus),
    ensures
        exit_of(events) == Some(events[at]->ExitStatus_0),
    decreases events.len(),
{
    if at < events.len() - 1 {
        assert(!(events[events.len() - 1] is ExitStatus));
        lemma_last_exit_status_wins(events.drop_last(), at);
    }
}

/// A run without an `ExitStatus` event reports no exit status.
pub proof fn lemma_no_exit_status(events: Seq<EventView>)
    requires
        forall|i: int| 0 <= i < events.len() ==> !(#[trigger] events[i] is ExitStatus),
    ensures
        exit_of(events) == None::<u32>,
    decreases events.len(),
{
    if events.len() > 0 {
        assert(!(events[events.len() - 1] is ExitStatus));
        lemma_no_exit_status(events.drop_last());
    }
}

/// Reading a result's text does not change the result, and the text is a
/// function of the captured bytes alone: whatever two readings of the same
/// result return, they return the same text.
pub proof fn lemma_text_is_stable(out: &Output, first: String, second: String)
    ensures
        call_ensures(Output::stdout_string, (out,), first) && call_ensures(
            Output::stdout_string,
            (out,),
            second,
        ) ==> first@ == second@,
        call_ensures(Output::stderr_string, (out,), first) && call_ensures(
            Output::stderr_string,
            (out,),
            second,
        ) ==> first@ == second@,
{
}

} // verus!
