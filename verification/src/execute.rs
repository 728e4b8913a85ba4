//! Running one command on a session, step by step. The caller performs
//! each action on the transport and reports what came of it; the channel's
//! events are folded into the command's result here.

use crate::client::{Client, Stage};
use crate::error::{ClientError, ErrorView};
use crate::output::{
    absorb, empty_output, exit_of, output_of, stderr_of, stdout_of, ChannelEvent, EventView,
    Output, OutputView,
};
use vstd::prelude::*;

verus! {

/// What the caller reports back after performing an action.
pub enum ExecEvent<T> {
    /// The outcome of `OpenChannel`.
    ChannelOpened(Result<(), T>),
    /// The outcome of `RequestExec`.
    ExecRequested(Result<(), T>),
    /// The outcome of `Receive`: the channel's next event, or none once
    /// the channel has closed.
    Received(Option<ChannelEvent>),
}

/// The mathematical value of an [`ExecEvent`].
pub enum ExecEventView<T> {
    ChannelOpened(Result<(), T>),
    ExecRequested(Result<(), T>),
    Received(Option<EventView>),
}

impl<T> View for ExecEvent<T> {
    type V = ExecEventView<T>;

    open spec fn view(&self) -> ExecEventView<T> {
        match self {
            ExecEvent::ChannelOpened(opened) => ExecEventView::ChannelOpened(*opened),
            ExecEvent::ExecRequested(requested) => ExecEventView::ExecRequested(*requested),
            ExecEvent::Received(Some(event)) => ExecEventView::Received(Some(event@)),
            ExecEvent::Received(None) => ExecEventView::Received(None),
        }
    }
}

/// What the caller is asked to do next.
pub enum ExecAction {
    /// Open a session channel on the transport.
    OpenChannel,
    /// Ask the peer to run `command` on the channel.
    RequestExec { command: String, want_reply: bool },
    /// Wait for the channel's next event.
    Receive,
}

/// The mathematical value of an [`ExecAction`].
pub enum ExecActionView {
    OpenChannel,
    RequestExec { command: Seq<char>, want_reply: bool },
    Receive,
}

impl View for ExecAction {
    type V = ExecActionView;

    open spec fn view(&self) -> ExecActionView {
        match self {
            ExecAction::OpenChannel => ExecActionView::OpenChannel,
            ExecAction::RequestExec { command, want_reply } => ExecActionView::RequestExec {
                command: command@,
                want_reply: *want_reply,
            },
            ExecAction::Receive => ExecActionView::Receive,
        }
    }
}

/// Which report an execution is waiting for.
#[derive(Clone, Copy, Debug, PartialEq, Eq, Structural)]
pub enum ExecPhase {
    Opening,
    Requesting,
    Receiving,
}

/// One command under way on a session's channel.
pub struct Execution {
    command: String,
    phase: ExecPhase,
    output: Output,
}

/// The mathematical value of an [`Execution`].
pub struct ExecutionView {
    pub command: Seq<char>,
    pub phase: ExecPhase,
    pub output: OutputView,
}

impl View for Execution {
    type V = ExecutionView;

    closed spec fn view(&self) -> ExecutionView {
        ExecutionView { command: self.command@, phase: self.phase, output: self.output@ }
    }
}

/// Where an execution stands after a report.
pub enum ExecStep<T, K> {
    /// The execution goes on: perform the action and report back.
    Next(Execution, ExecAction),
    /// The execution is over, with the command's result or with the
    /// reason for none.
    Done(Result<Output, ClientError<T, K>>),
}

/// The mathematical value of an [`ExecStep`].
pub enum ExecStepView<T, K> {
    Next(ExecutionView, ExecActionView),
    Done(Result<OutputView, ErrorView<T, K>>),
}

impl<T, K> View for ExecStep<T, K> {
    type V = ExecStepView<T, K>;

    open spec fn view(&self) -> ExecStepView<T, K> {
        match self {
            ExecStep::Next(execution, action) => ExecStepView::Next(execution@, action@),
            ExecStep::Done(Ok(output)) => ExecStepView::Done(Ok(output@)),
            ExecStep::Done(Err(e)) => ExecStepView::Done(Err(e@)),
        }
    }
}

/// Whether `event` is the report that an execution in `phase` waits for.
pub open spec fn exec_awaited<T>(phase: ExecPhase, event: ExecEventView<T>) -> bool {
    match phase {
        ExecPhase::Opening => event is ChannelOpened,
        ExecPhase::Requesting => event is ExecRequested,
        ExecPhase::Receiving => event is Received,
    }
}

/// Where an execution stands after the report it waited for. A failure to
/// open the channel or to request the command ends it; every channel event
/// is taken into the result; the end of the events ends it with the result,
/// whatever status the command reported.
pub open spec fn exec_step<T, K>(execution: ExecutionView, event: ExecEventView<T>) -> ExecStepView<
    T,
    K,
>
    recommends
        exec_awaited(execution.phase, event),
{
    match event {
        ExecEventView::ChannelOpened(Ok(())) => ExecStepView::Next(
            ExecutionView { phase: ExecPhase::Requesting, ..execution },
            ExecActionView::RequestExec { command: execution.command, want_reply: true },
        ),
        ExecEventView::ChannelOpened(Err(e)) => ExecStepView::Done(Err(ErrorView::ClientFailed(e))),
        ExecEventView::ExecRequested(Ok(())) => ExecStepView::Next(
            ExecutionView { phase: ExecPhase::Receiving, ..execution },
            ExecActionView::Receive,
        ),
        ExecEventView::ExecRequested(Err(e)) => ExecStepView::Done(Err(ErrorView::ClientFailed(e))),
        ExecEventView::Received(Some(event)) => ExecStepView::Next(
            ExecutionView { output: absorb(execution.output, event), ..execution },
            ExecActionView::Receive,
        ),
        ExecEventView::Received(None) => ExecStepView::Done(Ok(execution.output)),
    }
}

impl Client {
    /// Begins the execution of `command` on the session: with an empty
    /// result, and by opening a channel.
    pub fn output(&self, command: &str) -> (begun: (Execution, ExecAction))
        requires
            self@.stage != Stage::Closed,
        ensures
            begun.0@ == (ExecutionView {
                command: command@,
                phase: ExecPhase::Opening,
                output: empty_output(),
            }),
            begun.1@ == ExecActionView::OpenChannel,
    {
        (
            Execution {
                command: command.to_string(),
                phase: ExecPhase::Opening,
                output: Output::new(),
            },
            ExecAction::OpenChannel,
        )
    }
}

impl Execution {
    /// Which report the execution is waiting for.
    pub fn phase(&self) -> (phase: ExecPhase)
        ensures
            phase == self@.phase,
    {
        self.phase
    }

    /// Whether `event` is the report the execution is waiting for.
    pub fn expects<T>(&self, event: &ExecEvent<T>) -> (yes: bool)
        ensures
            yes == exec_awaited(self@.phase, event@),
    {
        match (self.phase, event) {
            (ExecPhase::Opening, ExecEvent::ChannelOpened(_)) => true,
            (ExecPhase::Requesting, ExecEvent::ExecRequested(_)) => true,
            (ExecPhase::Receiving, ExecEvent::Received(_)) => true,
            _ => false,
        }
    }

    /// Takes the report of the last action and says what comes next.
    pub fn step<T, K>(self, event: ExecEvent<T>) -> (next: ExecStep<T, K>)
        requires
            exec_awaited(self@.phase, event@),
        ensures
            next@ == exec_step::<T, K>(self@, event@),
    {
        match event {
            ExecEvent::ChannelOpened(Ok(())) => {
                let command = self.command.clone();
                ExecStep::Next(
                    Execution {
                        command: self.command,
                        phase: ExecPhase::Requesting,
                        output: self.output,
                    },
                    ExecAction::RequestExec { command, want_reply: true },
                )
            },
            ExecEvent::ChannelOpened(Err(e)) => ExecStep::Done(Err(ClientError::ClientFailed(e))),
            ExecEvent::ExecRequested(Ok(())) => ExecStep::Next(
                Execution {
                    command: self.command,
                    phase: ExecPhase::Receiving,
                    output: self.output,
                },
                ExecAction::Receive,
            ),
            ExecEvent::ExecRequested(Err(e)) => ExecStep::Done(Err(ClientError::ClientFailed(e))),
            ExecEvent::Received(Some(event)) => {
                let mut output = self.output;
                output.record(&event);
                ExecStep::Next(
                    Execution { command: self.command, phase: self.phase, output },
                    ExecAction::Receive,
                )
            },
            ExecEvent::Received(None) => ExecStep::Done(Ok(self.output)),
        }
    }
}

/// An execution after it has received a run of channel events.
pub open spec fn after_receiving(execution: ExecutionView, events: Seq<EventView>) -> ExecutionView
    decreases events.len(),
{
    if events.len() == 0 {
        execution
    } else {
        let before = after_receiving(execution, events.drop_last());
        ExecutionView { output: absorb(before.output, events.last()), ..before }
    }
}

/// Receiving a run of events leaves an execution in the state that
/// reporting them one by one leads to.
pub proof fn lemma_receiving_is_stepping<T, K>(execution: ExecutionView, events: Seq<EventView>)
    requires
        events.len() > 0,
    ensures
        exec_step::<T, K>(
            after_receiving(execution, events.drop_last()),
            ExecEventView::Received(Some(events.last())),
        ) == ExecStepView::<T, K>::Next(
            after_receiving(execution, events),
            ExecActionView::Receive,
        ),
{
}

/// An execution that receives a run of events appends the run's standard
/// output and standard error to its own, each in arrival order, and takes
/// the run's exit status where the run reports one.
pub proof fn lemma_receiving_folds(execution: ExecutionView, events: Seq<EventView>)
    ensures
        after_receiving(execution, events) == (ExecutionView {
            output: OutputView {
                stdout: execution.output.stdout + stdout_of(events),
                stderr: execution.output.stderr + stderr_of(events),
                code: match exit_of(events) {
                    Some(code) => Some(code),
                    None => execution.output.code,
                },
            },
            ..execution
        }),
    decreases events.len(),
{
    if events.len() == 0 {
        assert(execution.output.stdout + stdout_of(events) =~= execution.output.stdout);
        assert(execution.output.stderr + stderr_of(events) =~= execution.output.stderr);
    } else {
        lemma_receiving_folds(execution, events.drop_last());
        let before = after_receiving(execution, events.drop_last());
        match events.last() {
            EventView::Data(data) => {
                assert(before.output.stdout + data =~= execution.output.stdout + stdout_of(events));
            },
            EventView::ExtendedData(_, data) => {
                assert(before.output.stderr + data =~= execution.output.stderr + stderr_of(events));
            },
            _ => {},
        }
    }
}

/// A command whose channel opened, whose request went out and whose
/// events then arrived until the channel closed ends with the fold of
/// those events, and never with a failure: a status other than zero is
/// part of the result.
pub proof fn lemma_completed_command<T, K>(command: Seq<char>, events: Seq<EventView>)
    ensures
        exec_step::<T, K>(
            after_receiving(
                ExecutionView { command, phase: ExecPhase::Receiving, output: empty_output() },
                events,
            ),
            ExecEventView::Received(None),
        ) == ExecStepView::<T, K>::Done(Ok(output_of(events))),
{
    let fresh = ExecutionView { command, phase: ExecPhase::Receiving, output: empty_output() };
    lemma_receiving_folds(fresh, events);
    assert(fresh.output.stdout + stdout_of(events) =~= stdout_of(events));
    assert(fresh.output.stderr + stderr_of(events) =~= stderr_of(events));
}

} // verus!
