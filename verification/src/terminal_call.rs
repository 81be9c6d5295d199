//! The requests that agents make of a running terminal: killing it, releasing it, reading its
//! output and waiting for its end.
//!
//! Each request is a [`TerminalCall`] that names the next thing to do. Whoever owns the process
//! and the locks does it and hands the result back, until the call holds its reply.

use crate::rpc::{internal_error, internal_error_view, RpcError, RpcErrorView};
use crate::terminal::{
    exit_status_view, lookup, to_terminal_exit_status, ProcessExit, TerminalExitStatus,
    TerminalExitStatusView, TerminalRegistry, TerminalState, TerminalView,
};
use std::sync::Arc;
use vstd::prelude::*;

verus! {

/// What the terminals' locks guard.
#[derive(Clone, Copy, Debug, PartialEq, Eq)]
pub enum Lock {
    Registry,
    Child,
    Output,
    Truncation,
    ExitStatus,
}

/// What is said of a lock that a panic has poisoned.
pub open spec fn poison_message(lock: Lock) -> Seq<char> {
    match lock {
        Lock::Registry => "terminal state lock poisoned"@,
        Lock::Child => "terminal child lock poisoned"@,
        Lock::Output => "terminal output lock poisoned"@,
        Lock::Truncation => "terminal truncation lock poisoned"@,
        Lock::ExitStatus => "terminal exit-status lock poisoned"@,
    }
}

/// The error for a lock that a panic has poisoned.
pub fn lock_poisoned(lock: Lock) -> (error: RpcError)
    ensures
        error@ == internal_error_view(poison_message(lock)),
{
    internal_error(
        match lock {
            Lock::Registry => "terminal state lock poisoned",
            Lock::Child => "terminal child lock poisoned",
            Lock::Output => "terminal output lock poisoned",
            Lock::Truncation => "terminal truncation lock poisoned",
            Lock::ExitStatus => "terminal exit-status lock poisoned",
        },
    )
}

/// What is asked of a terminal.
#[derive(Clone, Copy, Debug, PartialEq, Eq)]
pub enum Operation {
    Kill,
    Release,
    Output,
    WaitForExit,
}

/// The answer to a request that succeeded.
#[derive(Debug, PartialEq, Eq)]
pub enum TerminalReply {
    Killed,
    Released,
    Output { output: String, truncated: bool, exit_status: Option<TerminalExitStatus> },
    Exited(TerminalExitStatus),
}

/// The next thing to do for a call.
#[derive(Debug, PartialEq, Eq)]
pub enum Step {
    /// Look, under its lock, whether an exit status is recorded.
    CheckExit,
    /// Acquire the process.
    LockChild,
    /// Kill the process.
    Kill,
    /// Wait for the process to end.
    Wait,
    /// Ask, without waiting, whether the process has ended.
    TryWait,
    /// Record an exit status, under its lock.
    RecordExit(TerminalExitStatus),
    /// Read the output, under its lock.
    ReadOutput,
    /// Read, under its lock, whether output was dropped.
    ReadTruncated(String),
    /// Read the exit status, under its lock.
    ReadExit(String, bool),
    /// Nothing: this is the reply.
    Done(Result<TerminalReply, RpcError>),
}

/// What came of a step that does not look at the terminal's state.
pub enum ChildEvent {
    /// The lock that the step needs is poisoned.
    Poisoned,
    /// The process is acquired.
    Locked,
    /// The process was killed.
    Killed,
    /// The process is still running.
    Running,
    /// The process has ended.
    Exited(ProcessExit),
    /// The operating system refused, with this message.
    Failed(String),
}

/// A request to a terminal on its way to a reply.
#[derive(Debug, PartialEq, Eq)]
pub struct TerminalCall {
    pub operation: Operation,
    pub step: Step,
}

/// What a [`TerminalReply`] says.
pub enum ReplyView {
    Killed,
    Released,
    Output { output: Seq<char>, truncated: bool, exit_status: Option<TerminalExitStatusView> },
    Exited(TerminalExitStatusView),
}

/// What a [`Step`] says.
pub enum StepView {
    CheckExit,
    LockChild,
    Kill,
    Wait,
    TryWait,
    RecordExit(TerminalExitStatusView),
    ReadOutput,
    ReadTruncated(Seq<char>),
    ReadExit(Seq<char>, bool),
    Done(Result<ReplyView, RpcErrorView>),
}

/// What a [`TerminalCall`] says.
pub struct CallView {
    pub operation: Operation,
    pub step: StepView,
}

/// What an optional exit status says.
pub open spec fn optional_status_view(
    status: Option<TerminalExitStatus>,
) -> Option<TerminalExitStatusView> {
    match status {
        Some(status) => Some(status@),
        None => None,
    }
}

impl View for TerminalReply {
    type V = ReplyView;

    open spec fn view(&self) -> ReplyView {
        match *self {
            TerminalReply::Killed => ReplyView::Killed,
            TerminalReply::Released => ReplyView::Released,
            TerminalReply::Output { output, truncated, exit_status } => ReplyView::Output {
                output: output@,
                truncated,
                exit_status: optional_status_view(exit_status),
            },
            TerminalReply::Exited(status) => ReplyView::Exited(status@),
        }
    }
}

impl View for Step {
    type V = StepView;

    open spec fn view(&self) -> StepView {
        match *self {
            Step::CheckExit => StepView::CheckExit,
            Step::LockChild => StepView::LockChild,
            Step::Kill => StepView::Kill,
            Step::Wait => StepView::Wait,
            Step::TryWait => StepView::TryWait,
            Step::RecordExit(status) => StepView::RecordExit(status@),
            Step::ReadOutput => StepView::ReadOutput,
            Step::ReadTruncated(output) => StepView::ReadTruncated(output@),
            Step::ReadExit(output, truncated) => StepView::ReadExit(output@, truncated),
            Step::Done(Ok(reply)) => StepView::Done(Ok(reply@)),
            Step::Done(Err(error)) => StepView::Done(Err(error@)),
        }
    }
}

impl View for TerminalCall {
    type V = CallView;

    open spec fn view(&self) -> CallView {
        CallView { operation: self.operation, step: self.step@ }
    }
}

impl StepView {
    /// The end of a call that fails for want of a lock.
    pub open spec fn poisoned(lock: Lock) -> StepView {
        StepView::Done(Err(internal_error_view(poison_message(lock))))
    }

    /// The end of a call that the operating system made fail.
    pub open spec fn failed(message: Seq<char>) -> StepView {
        StepView::Done(Err(internal_error_view(message)))
    }

    /// The lock that a step needs.
    pub open spec fn lock(self) -> Option<Lock> {
        match self {
            StepView::CheckExit | StepView::RecordExit(_) | StepView::ReadExit(_, _) => Some(
                Lock::ExitStatus,
            ),
            StepView::LockChild => Some(Lock::Child),
            StepView::ReadOutput => Some(Lock::Output),
            StepView::ReadTruncated(_) => Some(Lock::Truncation),
            _ => None,
        }
    }
}

impl CallView {
    /// A call before its first step. Killing goes straight for the process; the others first
    /// look for a recorded exit status.
    pub open spec fn started(operation: Operation) -> CallView {
        CallView {
            operation,
            step: if operation is Kill {
                StepView::LockChild
            } else {
                StepView::CheckExit
            },
        }
    }

    /// The step that follows an event. An event that the step at hand does not wait for changes
    /// nothing.
    pub open spec fn step_after(self, event: ChildEvent) -> StepView {
        let releasing = self.operation is Release;
        match (self.step, event) {
            (step, ChildEvent::Poisoned) => match step.lock() {
                Some(lock) => StepView::poisoned(lock),
                None => step,
            },
            (StepView::LockChild, ChildEvent::Locked) => match self.operation {
                Operation::Kill => StepView::Kill,
                Operation::WaitForExit => StepView::Wait,
                Operation::Release | Operation::Output => StepView::TryWait,
            },
            (StepView::Kill, ChildEvent::Killed) => StepView::Wait,
            (StepView::Kill, ChildEvent::Failed(message)) => if releasing {
                StepView::Wait
            } else {
                StepView::failed(message@)
            },
            (StepView::Wait, ChildEvent::Exited(exit)) => if releasing {
                StepView::Done(Ok(ReplyView::Released))
            } else {
                StepView::RecordExit(exit_status_view(exit))
            },
            (StepView::Wait, ChildEvent::Failed(message)) => if releasing {
                StepView::Done(Ok(ReplyView::Released))
            } else {
                StepView::failed(message@)
            },
            (StepView::TryWait, ChildEvent::Exited(exit)) => if releasing {
                StepView::Done(Ok(ReplyView::Released))
            } else {
                StepView::RecordExit(exit_status_view(exit))
            },
            (StepView::TryWait, ChildEvent::Running) => if releasing {
                StepView::Kill
            } else {
                StepView::ReadOutput
            },
            (StepView::TryWait, ChildEvent::Failed(message)) => StepView::failed(message@),
            (step, _) => step,
        }
    }

    /// The call after an event.
    pub open spec fn after(self, event: ChildEvent) -> CallView {
        CallView { step: self.step_after(event), ..self }
    }

    /// The step that follows a look at the terminal's state. Where the step at hand needs none,
    /// nothing changes.
    pub open spec fn step_with(self, terminal: TerminalView) -> StepView {
        match (self.step, terminal.exit_status) {
            (StepView::CheckExit, None) => StepView::LockChild,
            (StepView::CheckExit, Some(status)) => match self.operation {
                Operation::Kill => StepView::LockChild,
                Operation::Release => StepView::Done(Ok(ReplyView::Released)),
                Operation::Output => StepView::ReadOutput,
                Operation::WaitForExit => StepView::Done(Ok(ReplyView::Exited(status))),
            },
            (StepView::RecordExit(status), _) => match self.operation {
                Operation::Kill => StepView::Done(Ok(ReplyView::Killed)),
                Operation::Release => StepView::Done(Ok(ReplyView::Released)),
                Operation::Output => StepView::ReadOutput,
                Operation::WaitForExit => StepView::Done(Ok(ReplyView::Exited(status))),
            },
            (StepView::ReadOutput, _) => StepView::ReadTruncated(terminal.output),
            (StepView::ReadTruncated(output), _) => StepView::ReadExit(output, terminal.truncated),
            (StepView::ReadExit(output, truncated), exit_status) => StepView::Done(
                Ok(ReplyView::Output { output, truncated, exit_status }),
            ),
            (step, _) => step,
        }
    }

    /// The call after a look at the terminal's state.
    pub open spec fn with(self, terminal: TerminalView) -> CallView {
        CallView { step: self.step_with(terminal), ..self }
    }

    /// The terminal after the step at hand was done on it.
    pub open spec fn effect(self, terminal: TerminalView) -> TerminalView {
        match self.step {
            StepView::RecordExit(status) => TerminalView { exit_status: Some(status), ..terminal },
            _ => terminal,
        }
    }
}

/// A call on its terminal as `found` in the table, or the table's error.
pub open spec fn call_begins<T>(
    begun: Result<(Arc<T>, TerminalCall), RpcError>,
    found: Result<Arc<T>, RpcErrorView>,
    operation: Operation,
) -> bool {
    match found {
        Ok(terminal) => begun matches Ok(pair) && pair.0 == terminal && pair.1@
            == CallView::started(operation),
        Err(error) => begun matches Err(e) && e@ == error,
    }
}

/// Begins to kill the process of the terminal `id` and to record how it ended.
pub fn kill_terminal<T>(id: &str, terminals: &TerminalRegistry<T>) -> (begun: Result<
    (Arc<T>, TerminalCall),
    RpcError,
>)
    ensures
        call_begins(begun, lookup(terminals@, id@), Operation::Kill),
        begun is Ok <==> terminals@.contains_key(id@),
        begun matches Ok(pair) ==> pair.0 == terminals@[id@] && pair.1.operation is Kill
            && pair.1.step is LockChild,
        begun matches Err(error) ==> error.code == -32002 && error.message@
            == "Resource not found"@ && error.data is None,
{
    match terminals.terminal_state(id) {
        Ok(terminal) => Ok(
            (terminal, TerminalCall { operation: Operation::Kill, step: Step::LockChild }),
        ),
        Err(error) => Err(error),
    }
}

/// Takes the terminal `id` out of the table and begins to let go of it, which kills its process if
/// that still runs.
pub fn release_terminal<T>(id: &str, terminals: &mut TerminalRegistry<T>) -> (begun: Result<
    (Arc<T>, TerminalCall),
    RpcError,
>)
    ensures
        call_begins(begun, lookup(old(terminals)@, id@), Operation::Release),
        begun is Ok <==> old(terminals)@.contains_key(id@),
        begun matches Ok(pair) ==> pair.0 == old(terminals)@[id@] && pair.1.operation is Release
            && pair.1.step is CheckExit,
        begun matches Err(error) ==> error.code == -32002 && error.message@
            == "Resource not found"@ && error.data is None,
        final(terminals)@ == old(terminals)@.remove(id@),
{
    match terminals.remove(id) {
        Ok(terminal) => Ok(
            (terminal, TerminalCall { operation: Operation::Release, step: Step::CheckExit }),
        ),
        Err(error) => Err(error),
    }
}

/// Begins to read the output of the terminal `id`, and its exit status if it has ended.
pub fn terminal_output<T>(id: &str, terminals: &TerminalRegistry<T>) -> (begun: Result<
    (Arc<T>, TerminalCall),
    RpcError,
>)
    ensures
        call_begins(begun, lookup(terminals@, id@), Operation::Output),
        begun is Ok <==> terminals@.contains_key(id@),
        begun matches Ok(pair) ==> pair.0 == terminals@[id@] && pair.1.operation is Output
            && pair.1.step is CheckExit,
        begun matches Err(error) ==> error.code == -32002 && error.message@
            == "Resource not found"@ && error.data is None,
{
    match terminals.terminal_state(id) {
        Ok(terminal) => Ok(
            (terminal, TerminalCall { operation: Operation::Output, step: Step::CheckExit }),
        ),
        Err(error) => Err(error),
    }
}

/// Begins to wait until the process of the terminal `id` has ended.
pub fn wait_for_terminal_exit<T>(id: &str, terminals: &TerminalRegistry<T>) -> (begun: Result<
    (Arc<T>, TerminalCall),
    RpcError,
>)
    ensures
        call_begins(begun, lookup(terminals@, id@), Operation::WaitForExit),
        begun is Ok <==> terminals@.contains_key(id@),
        begun matches Ok(pair) ==> pair.0 == terminals@[id@] && pair.1.operation is WaitForExit
            && pair.1.step is CheckExit,
        begun matches Err(error) ==> error.code == -32002 && error.message@
            == "Resource not found"@ && error.data is None,
{
    match terminals.terminal_state(id) {
        Ok(terminal) => Ok(
            (terminal, TerminalCall { operation: Operation::WaitForExit, step: Step::CheckExit }),
        ),
        Err(error) => Err(error),
    }
}

impl TerminalCall {
    /// Takes in what came of a step.
    pub fn on_event(self, event: ChildEvent) -> (call: Self)
        ensures
            call@ == self@.after(event),
            call.operation == self.operation,
    {
        let operation = self.operation;
        let releasing = matches!(operation, Operation::Release);
        let step = match (self.step, event) {
            (Step::CheckExit, ChildEvent::Poisoned) => Step::Done(
                Err(lock_poisoned(Lock::ExitStatus)),
            ),
            (Step::RecordExit(_), ChildEvent::Poisoned) => Step::Done(
                Err(lock_poisoned(Lock::ExitStatus)),
            ),
            (Step::ReadExit(_, _), ChildEvent::Poisoned) => Step::Done(
                Err(lock_poisoned(Lock::ExitStatus)),
            ),
            (Step::LockChild, ChildEvent::Poisoned) => Step::Done(Err(lock_poisoned(Lock::Child))),
            (Step::ReadOutput, ChildEvent::Poisoned) => Step::Done(
                Err(lock_poisoned(Lock::Output)),
            ),
            (Step::ReadTruncated(_), ChildEvent::Poisoned) => Step::Done(
                Err(lock_poisoned(Lock::Truncation)),
            ),
            (Step::LockChild, ChildEvent::Locked) => match operation {
                Operation::Kill => Step::Kill,
                Operation::WaitForExit => Step::Wait,
                Operation::Release => Step::TryWait,
                Operation::Output => Step::TryWait,
            },
            (Step::Kill, ChildEvent::Killed) => Step::Wait,
            (Step::Kill, ChildEvent::Failed(message)) => if releasing {
                Step::Wait
            } else {
                Step::Done(Err(internal_error(message.as_str())))
            },
            (Step::Wait, ChildEvent::Exited(exit)) => if releasing {
                Step::Done(Ok(TerminalReply::Released))
            } else {
                Step::RecordExit(to_terminal_exit_status(exit))
            },
            (Step::Wait, ChildEvent::Failed(message)) => if releasing {
                Step::Done(Ok(TerminalReply::Released))
            } else {
                Step::Done(Err(internal_error(message.as_str())))
            },
            (Step::TryWait, ChildEvent::Exited(exit)) => if releasing {
                Step::Done(Ok(TerminalReply::Released))
            } else {
                Step::RecordExit(to_terminal_exit_status(exit))
            },
            (Step::TryWait, ChildEvent::Running) => if releasing {
                Step::Kill
            } else {
                Step::ReadOutput
            },
            (Step::TryWait, ChildEvent::Failed(message)) => Step::Done(
                Err(internal_error(message.as_str())),
            ),
            (step, _) => step,
        };
        TerminalCall { operation, step }
    }

    /// Does the step at hand on the terminal's state.
    pub fn with_terminal(self, terminal: &mut TerminalState) -> (call: Self)
        ensures
            call@ == self@.with(old(terminal)@),
            final(terminal)@ == self@.effect(old(terminal)@),
            final(terminal).output@ == old(terminal).output@,
            final(terminal).truncated == old(terminal).truncated,
            final(terminal).output_byte_limit == old(terminal).output_byte_limit,
            self.step !is RecordExit ==> final(terminal).exit_status == old(terminal).exit_status,
            self.step matches Step::RecordExit(status) ==> final(terminal).exit_status == Some(
                status,
            ),
            call.operation == self.operation,
    {
        let operation = self.operation;
        let step = match self.step {
            Step::CheckExit => match &terminal.exit_status {
                None => Step::LockChild,
                Some(status) => match operation {
                    Operation::Kill => Step::LockChild,
                    Operation::Release => Step::Done(Ok(TerminalReply::Released)),
                    Operation::Output => Step::ReadOutput,
                    Operation::WaitForExit => Step::Done(
                        Ok(TerminalReply::Exited(status.clone())),
                    ),
                },
            },
            Step::RecordExit(status) => {
                terminal.exit_status = Some(status.clone());
                match operation {
                    Operation::Kill => Step::Done(Ok(TerminalReply::Killed)),
                    Operation::Release => Step::Done(Ok(TerminalReply::Released)),
                    Operation::Output => Step::ReadOutput,
                    Operation::WaitForExit => Step::Done(Ok(TerminalReply::Exited(status))),
                }
            },
            Step::ReadOutput => Step::ReadTruncated(terminal.output.clone()),
            Step::ReadTruncated(output) => Step::ReadExit(output, terminal.truncated),
            Step::ReadExit(output, truncated) => {
                let exit_status = match &terminal.exit_status {
                    Some(status) => Some(status.clone()),
                    None => None,
                };
                Step::Done(Ok(TerminalReply::Output { output, truncated, exit_status }))
            },
            step => step,
        };
        TerminalCall { operation, step }
    }
}

/// One thing that can happen to a call: an event, or a look at the terminal's state.
pub enum Input {
    Event(ChildEvent),
    Terminal,
}

/// A call and its terminal after one input.
pub open spec fn advanced(state: (CallView, TerminalView), input: Input) -> (
    CallView,
    TerminalView,
) {
    match input {
        Input::Event(event) => (state.0.after(event), state.1),
        Input::Terminal => (state.0.with(state.1), state.0.effect(state.1)),
    }
}

/// A call and its terminal after all of `inputs`.
pub open spec fn run(state: (CallView, TerminalView), inputs: Seq<Input>) -> (
    CallView,
    TerminalView,
)
    decreases inputs.len(),
{
    if inputs.len() == 0 {
        state
    } else {
        advanced(run(state, inputs.drop_last()), inputs.last())
    }
}

/// The most steps that can still be ahead of a call.
pub open spec fn steps_ahead(step: StepView) -> nat {
    match step {
        StepView::CheckExit => 9,
        StepView::LockChild => 8,
        StepView::TryWait => 7,
        StepView::Kill => 6,
        StepView::Wait => 5,
        StepView::RecordExit(_) => 4,
        StepView::ReadOutput => 3,
        StepView::ReadTruncated(_) => 2,
        StepView::ReadExit(_, _) => 1,
        StepView::Done(_) => 0,
    }
}

/// The reply is one that the operation promises.
pub open spec fn reply_fits(operation: Operation, reply: ReplyView) -> bool {
    match operation {
        Operation::Kill => reply is Killed,
        Operation::Release => reply is Released,
        Operation::Output => reply is Output,
        Operation::WaitForExit => reply is Exited,
    }
}

/// What holds of a call at every step: it only comes to steps of its own operation, and what it
/// has gathered or promised agrees with the terminal.
pub open spec fn call_invariant(
    before: TerminalView,
    call: CallView,
    terminal: TerminalView,
) -> bool {
    let operation = call.operation;
    &&& terminal.output == before.output
    &&& terminal.truncated == before.truncated
    &&& terminal.output_byte_limit == before.output_byte_limit
    &&& operation is Release ==> terminal == before
    &&& match call.step {
        StepView::CheckExit => operation !is Kill && terminal == before,
        StepView::LockChild => terminal == before,
        StepView::Kill => (operation is Kill || operation is Release) && terminal == before,
        StepView::Wait => operation !is Output && terminal == before,
        StepView::TryWait => (operation is Release || operation is Output) && terminal == before,
        StepView::RecordExit(_) => operation !is Release && terminal == before,
        StepView::ReadOutput => operation is Output,
        StepView::ReadTruncated(output) => operation is Output && output == terminal.output,
        StepView::ReadExit(output, truncated) => operation is Output && output == terminal.output
            && truncated == terminal.truncated,
        StepView::Done(Ok(reply)) => reply_fits(operation, reply) && match reply {
            ReplyView::Killed => terminal.exit_status is Some,
            ReplyView::Released => true,
            ReplyView::Output { output, truncated, exit_status } => output == terminal.output
                && truncated == terminal.truncated && exit_status == terminal.exit_status,
            ReplyView::Exited(status) => terminal.exit_status == Some(status),
        },
        StepView::Done(Err(_)) => operation is Output || terminal == before,
    }
}

/// Whatever happens to a call while nobody else touches the terminal: it touches nothing of the
/// terminal but the exit status, and releasing not even that; a reply of success is of the
/// operation's own kind and tells what the terminal then holds, a kill leaving an exit status
/// recorded; and a kill or a wait that fails has recorded nothing.
pub proof fn law_call_agrees_with_terminal(
    operation: Operation,
    terminal: TerminalView,
    inputs: Seq<Input>,
)
    ensures
        ({
            let end = run((CallView::started(operation), terminal), inputs);
            &&& end.0.operation == operation
            &&& call_invariant(terminal, end.0, end.1)
        }),
    decreases inputs.len(),
{
    if inputs.len() > 0 {
        law_call_agrees_with_terminal(operation, terminal, inputs.drop_last());
    }
}

/// An input either leaves a call as it is or brings it nearer to its reply, so that a call ends
/// after at most nine steps.
pub proof fn law_calls_make_progress(state: (CallView, TerminalView), input: Input)
    ensures
        advanced(state, input) == state || steps_ahead(advanced(state, input).0.step)
            < steps_ahead(state.0.step),
{
}

/// A reply is final: nothing changes it, nor the terminal.
pub proof fn law_reply_is_final(state: (CallView, TerminalView), inputs: Seq<Input>)
    requires
        state.0.step is Done,
    ensures
        run(state, inputs) == state,
    decreases inputs.len(),
{
    if inputs.len() > 0 {
        law_reply_is_final(state, inputs.drop_last());
    }
}

/// The inputs of a kill that meets no obstacle.
pub open spec fn killed_inputs(exit: ProcessExit) -> Seq<Input> {
    seq![
        Input::Event(ChildEvent::Locked),
        Input::Event(ChildEvent::Killed),
        Input::Event(ChildEvent::Exited(exit)),
        Input::Terminal,
    ]
}

/// A kill that meets no obstacle succeeds and records how the process ended.
pub proof fn law_kill_records_exit(terminal: TerminalView, exit: ProcessExit)
    ensures
        run((CallView::started(Operation::Kill), terminal), killed_inputs(exit)) == (
            CallView {
                operation: Operation::Kill,
                step: StepView::Done(Ok(ReplyView::Killed)),
            },
            TerminalView { exit_status: Some(exit_status_view(exit)), ..terminal },
        ),
{
    let inputs = killed_inputs(exit);
    assert(inputs.drop_last().drop_last().drop_last().drop_last() =~= Seq::<Input>::empty());
    reveal_with_fuel(run, 5);
}

/// The inputs of a wait that finds no exit status recorded and meets no obstacle.
pub open spec fn waited_inputs(exit: ProcessExit) -> Seq<Input> {
    seq![
        Input::Terminal,
        Input::Event(ChildEvent::Locked),
        Input::Event(ChildEvent::Exited(exit)),
        Input::Terminal,
    ]
}

/// A wait that meets no obstacle answers with how the process ended, and records it.
pub proof fn law_wait_records_exit(terminal: TerminalView, exit: ProcessExit)
    requires
        terminal.exit_status is None,
    ensures
        run((CallView::started(Operation::WaitForExit), terminal), waited_inputs(exit)) == (
            CallView {
                operation: Operation::WaitForExit,
                step: StepView::Done(Ok(ReplyView::Exited(exit_status_view(exit)))),
            },
            TerminalView { exit_status: Some(exit_status_view(exit)), ..terminal },
        ),
{
    let inputs = waited_inputs(exit);
    assert(inputs.drop_last().drop_last().drop_last().drop_last() =~= Seq::<Input>::empty());
    reveal_with_fuel(run, 5);
}

/// The inputs of a reading of the output that finds no exit status recorded and meets no obstacle;
/// `exit` is how the process has ended, if it has.
pub open spec fn output_inputs(exit: Option<ProcessExit>) -> Seq<Input> {
    match exit {
        Some(exit) => seq![
            Input::Terminal,
            Input::Event(ChildEvent::Locked),
            Input::Event(ChildEvent::Exited(exit)),
            Input::Terminal,
            Input::Terminal,
            Input::Terminal,
            Input::Terminal,
        ],
        None => seq![
            Input::Terminal,
            Input::Event(ChildEvent::Locked),
            Input::Event(ChildEvent::Running),
            Input::Terminal,
            Input::Terminal,
            Input::Terminal,
        ],
    }
}

/// A reading of the output that meets no obstacle answers with all that the terminal holds and
/// with how the process has ended, if it has, which it then records.
pub proof fn law_output_tells_exit(terminal: TerminalView, exit: Option<ProcessExit>)
    requires
        terminal.exit_status is None,
    ensures
        ({
            let exit_status = match exit {
                Some(exit) => Some(exit_status_view(exit)),
                None => None,
            };
            run((CallView::started(Operation::Output), terminal), output_inputs(exit)) == (
                CallView {
                    operation: Operation::Output,
                    step: StepView::Done(
                        Ok(
                            ReplyView::Output {
                                output: terminal.output,
                                truncated: terminal.truncated,
                                exit_status,
                            },
                        ),
                    ),
                },
                TerminalView { exit_status, ..terminal },
            )
        }),
{
    let inputs = output_inputs(exit);
    let front = inputs.drop_last().drop_last().drop_last().drop_last().drop_last().drop_last();
    if exit is Some {
        assert(front.drop_last() =~= Seq::<Input>::empty());
    } else {
        assert(front =~= Seq::<Input>::empty());
    }
    reveal_with_fuel(run, 8);
}

/// A release whose terminal has no exit status recorded and whose process still runs kills the
/// process, waits for it, and succeeds whatever comes of either.
pub proof fn law_release_kills_what_runs(
    terminal: TerminalView,
    killed: ChildEvent,
    end: ChildEvent,
)
    requires
        terminal.exit_status is None,
        killed is Killed || killed is Failed,
        end is Exited || end is Failed,
    ensures
        ({
            let asked = CallView::started(Operation::Release).with(terminal).after(
                ChildEvent::Locked,
            ).after(ChildEvent::Running);
            &&& asked.step is Kill
            &&& asked.after(killed).step is Wait
            &&& asked.after(killed).after(end).step == StepView::Done(Ok(ReplyView::Released))
        }),
{
}

/// Once an exit status is recorded, the process is left alone: a wait answers with the recorded
/// status at once, a release is done at once, and reading the output takes four looks at the
/// terminal and reports the recorded status.
pub proof fn law_recorded_exit_is_replayed(terminal: TerminalView, status: TerminalExitStatusView)
    requires
        terminal.exit_status == Some(status),
    ensures
        CallView::started(Operation::WaitForExit).with(terminal).step == StepView::Done(
            Ok(ReplyView::Exited(status)),
        ),
        CallView::started(Operation::Release).with(terminal).step == StepView::Done(
            Ok(ReplyView::Released),
        ),
        CallView::started(Operation::Output).with(terminal).with(terminal).with(terminal).with(
            terminal,
        ).step == StepView::Done(
            Ok(
                ReplyView::Output {
                    output: terminal.output,
                    truncated: terminal.truncated,
                    exit_status: Some(status),
                },
            ),
        ),
{
}

/// Something that happens while a call is under way: an input to the call, or text that the
/// terminal's command writes.
pub enum Happening {
    Input(Input),
    Written(Seq<char>),
}

/// A call and its terminal after all of `happenings`.
pub open spec fn interleaved(state: (CallView, TerminalView), happenings: Seq<Happening>) -> (
    CallView,
    TerminalView,
)
    decreases happenings.len(),
{
    if happenings.len() == 0 {
        state
    } else {
        let before = interleaved(state, happenings.drop_last());
        match happenings.last() {
            Happening::Input(input) => advanced(before, input),
            Happening::Written(text) => (before.0, before.1.written(text)),
        }
    }
}

/// The inputs among `happenings`.
pub open spec fn inputs_among(happenings: Seq<Happening>) -> Seq<Input>
    decreases happenings.len(),
{
    if happenings.len() == 0 {
        Seq::empty()
    } else {
        let before = inputs_among(happenings.drop_last());
        match happenings.last() {
            Happening::Input(input) => before.push(input),
            Happening::Written(_) => before,
        }
    }
}

/// The texts written among `happenings`.
pub open spec fn texts_among(happenings: Seq<Happening>) -> Seq<Seq<char>>
    decreases happenings.len(),
{
    if happenings.len() == 0 {
        Seq::empty()
    } else {
        let before = texts_among(happenings.drop_last());
        match happenings.last() {
            Happening::Input(_) => before,
            Happening::Written(text) => before.push(text),
        }
    }
}

/// Two calls are equally far, and have replied alike but for the output.
pub open spec fn same_progress(a: CallView, b: CallView) -> bool {
    &&& a.operation == b.operation
    &&& match (a.step, b.step) {
        (StepView::ReadTruncated(_), StepView::ReadTruncated(_)) => true,
        (StepView::ReadExit(_, _), StepView::ReadExit(_, _)) => true,
        (
            StepView::Done(Ok(ReplyView::Output { exit_status: x, .. })),
            StepView::Done(Ok(ReplyView::Output { exit_status: y, .. })),
        ) => x == y,
        (x, y) => x == y,
    }
}

/// A call and the writing of the terminal's command do not disturb each other, however they
/// interleave: the output is what it would be without the call, and the call comes as far, and
/// records the same exit status, as it would without the writing.
pub proof fn law_calls_and_writes_do_not_interfere(
    state: (CallView, TerminalView),
    happenings: Seq<Happening>,
)
    ensures
        ({
            let end = interleaved(state, happenings);
            let quiet = run(state, inputs_among(happenings));
            let alone = state.1.written_all(texts_among(happenings));
            &&& end.1.output == alone.output
            &&& end.1.truncated == alone.truncated
            &&& end.1.output_byte_limit == alone.output_byte_limit
            &&& end.1.exit_status == quiet.1.exit_status
            &&& same_progress(end.0, quiet.0)
        }),
    decreases happenings.len(),
{
    if happenings.len() > 0 {
        let rest = happenings.drop_last();
        law_calls_and_writes_do_not_interfere(state, rest);
        match happenings.last() {
            Happening::Input(input) => {
                assert(inputs_among(happenings).drop_last() =~= inputs_among(rest));
            },
            Happening::Written(text) => {
                assert(texts_among(happenings).drop_last() =~= texts_among(rest));
            },
        }
    }
}

/// The view of a call shows its operation, its step, and all that the step holds.
pub proof fn law_call_view_shows_everything(call: TerminalCall)
    ensures
        call@.operation == call.operation,
        call.step is CheckExit ==> call@.step is CheckExit,
        call.step is LockChild ==> call@.step is LockChild,
        call.step is Kill ==> call@.step is Kill,
        call.step is Wait ==> call@.step is Wait,
        call.step is TryWait ==> call@.step is TryWait,
        call.step is ReadOutput ==> call@.step is ReadOutput,
        call.step matches Step::RecordExit(status) ==> call@.step == StepView::RecordExit(status@),
        call.step matches Step::ReadTruncated(output) ==> call@.step == StepView::ReadTruncated(
            output@,
        ),
        call.step matches Step::ReadExit(output, truncated) ==> call@.step == StepView::ReadExit(
            output@,
            truncated,
        ),
        call.step matches Step::Done(Err(error)) ==> call@.step == StepView::Done(Err(error@)),
        call.step matches Step::Done(Ok(TerminalReply::Killed)) ==> call@.step == StepView::Done(
            Ok(ReplyView::Killed),
        ),
        call.step matches Step::Done(Ok(TerminalReply::Released)) ==> call@.step == StepView::Done(
            Ok(ReplyView::Released),
        ),
        call.step matches Step::Done(Ok(TerminalReply::Exited(status))) ==> call@.step
            == StepView::Done(Ok(ReplyView::Exited(status@))),
        call.step matches Step::Done(Ok(TerminalReply::Output { output, truncated, exit_status }))
            ==> (call@.step matches StepView::Done(Ok(ReplyView::Output {
            output: told,
            truncated: cut,
            exit_status: ended,
        })) && told == output@ && cut == truncated && (exit_status is None <==> ended is None) && (
        exit_status matches Some(status) ==> ended == Some(status@))),
{
}

/// Whatever comes, a call stays what it was asked to do, and touches of the terminal nothing but
/// the exit status, which it sets only to the status that it has to record.
pub proof fn law_calls_touch_only_the_exit_status(
    call: CallView,
    event: ChildEvent,
    terminal: TerminalView,
)
    ensures
        call.after(event).operation == call.operation,
        call.with(terminal).operation == call.operation,
        call.effect(terminal).output == terminal.output,
        call.effect(terminal).truncated == terminal.truncated,
        call.effect(terminal).output_byte_limit == terminal.output_byte_limit,
        call.step !is RecordExit ==> call.effect(terminal).exit_status == terminal.exit_status,
        call.step matches StepView::RecordExit(status) ==> call.effect(terminal).exit_status
            == Some(status),
{
}

/// A kill acquires the process, kills it, waits for it and records how it ended; where the system
/// refuses to kill or to wait, it answers with the system's message.
pub proof fn law_kill_kills_and_waits(
    call: CallView,
    exit: ProcessExit,
    message: String,
    terminal: TerminalView,
)
    requires
        call.operation is Kill,
        call.step is LockChild,
    ensures
        ({
            let held = call.after(ChildEvent::Locked);
            let killed = held.after(ChildEvent::Killed);
            let ended = killed.after(ChildEvent::Exited(exit));
            let failure = RpcErrorView {
                code: -32603,
                message: "Internal error"@,
                data: Some(message@),
            };
            &&& held.step is Kill
            &&& killed.step is Wait
            &&& ended.step == StepView::RecordExit(exit_status_view(exit))
            &&& ended.effect(terminal).exit_status == Some(exit_status_view(exit))
            &&& ended.with(terminal).step == StepView::Done(Ok(ReplyView::Killed))
            &&& held.after(ChildEvent::Failed(message)).step == StepView::Done(Err(failure))
            &&& killed.after(ChildEvent::Failed(message)).step == StepView::Done(Err(failure))
        }),
{
}

/// A wait answers with the exit status that is recorded; where there is none, it waits for the
/// process, records how that ended and answers with it, or with the system's message.
pub proof fn law_wait_answers_with_the_exit(
    call: CallView,
    exit: ProcessExit,
    message: String,
    terminal: TerminalView,
)
    requires
        call.operation is WaitForExit,
        call.step is CheckExit,
    ensures
        ({
            let sought = call.with(terminal);
            let held = sought.after(ChildEvent::Locked);
            let ended = held.after(ChildEvent::Exited(exit));
            &&& terminal.exit_status matches Some(status) ==> sought.step == StepView::Done(
                Ok(ReplyView::Exited(status)),
            )
            &&& terminal.exit_status is None ==> {
                &&& sought.step is LockChild
                &&& held.step is Wait
                &&& ended.step == StepView::RecordExit(exit_status_view(exit))
                &&& ended.effect(terminal).exit_status == Some(exit_status_view(exit))
                &&& ended.with(terminal).step == StepView::Done(
                    Ok(ReplyView::Exited(exit_status_view(exit))),
                )
                &&& held.after(ChildEvent::Failed(message)).step == StepView::Done(
                    Err(
                        RpcErrorView {
                            code: -32603,
                            message: "Internal error"@,
                            data: Some(message@),
                        },
                    ),
                )
            }
        }),
{
}

/// A request for the output first sees whether the process has ended, unless that is known, and
/// records it if so; where the system cannot tell, it answers with the system's message.
pub proof fn law_output_looks_for_the_exit(
    call: CallView,
    exit: ProcessExit,
    message: String,
    terminal: TerminalView,
)
    requires
        call.operation is Output,
        call.step is CheckExit,
    ensures
        ({
            let sought = call.with(terminal);
            let held = sought.after(ChildEvent::Locked);
            let ended = held.after(ChildEvent::Exited(exit));
            &&& terminal.exit_status is Some ==> sought.step is ReadOutput
            &&& terminal.exit_status is None ==> {
                &&& sought.step is LockChild
                &&& held.step is TryWait
                &&& held.after(ChildEvent::Running).step is ReadOutput
                &&& ended.step == StepView::RecordExit(exit_status_view(exit))
                &&& ended.effect(terminal).exit_status == Some(exit_status_view(exit))
                &&& ended.with(terminal).step is ReadOutput
                &&& held.after(ChildEvent::Failed(message)).step == StepView::Done(
                    Err(
                        RpcErrorView {
                            code: -32603,
                            message: "Internal error"@,
                            data: Some(message@),
                        },
                    ),
                )
            }
        }),
{
}

/// A request for the output answers with the output, the truncation and the exit status that it
/// finds when it looks for each of them in turn.
pub proof fn law_output_answers_with_what_it_finds(
    call: CallView,
    first: TerminalView,
    second: TerminalView,
    third: TerminalView,
)
    requires
        call.step is ReadOutput,
    ensures
        call.with(first).with(second).with(third).step == StepView::Done(
            Ok(
                ReplyView::Output {
                    output: first.output,
                    truncated: second.truncated,
                    exit_status: third.exit_status,
                },
            ),
        ),
{
}

/// A release is done where an exit status is recorded or the process has ended; a process that
/// runs it kills and waits for, and is then done whatever came of that. Only where the system
/// cannot tell whether the process runs does it answer with the system's message.
pub proof fn law_release_ends_the_process(
    call: CallView,
    exit: ProcessExit,
    message: String,
    terminal: TerminalView,
)
    requires
        call.operation is Release,
        call.step is CheckExit,
    ensures
        ({
            let sought = call.with(terminal);
            let held = sought.after(ChildEvent::Locked);
            let running = held.after(ChildEvent::Running);
            let released = StepView::Done(Ok(ReplyView::Released));
            &&& terminal.exit_status is Some ==> sought.step == released
            &&& terminal.exit_status is None ==> {
                &&& sought.step is LockChild
                &&& held.step is TryWait
                &&& held.after(ChildEvent::Exited(exit)).step == released
                &&& held.after(ChildEvent::Failed(message)).step == StepView::Done(
                    Err(
                        RpcErrorView {
                            code: -32603,
                            message: "Internal error"@,
                            data: Some(message@),
                        },
                    ),
                )
                &&& running.step is Kill
                &&& running.after(ChildEvent::Killed).step is Wait
                &&& running.after(ChildEvent::Failed(message)).step is Wait
                &&& running.after(ChildEvent::Killed).after(ChildEvent::Exited(exit)).step
                    == released
                &&& running.after(ChildEvent::Killed).after(ChildEvent::Failed(message)).step
                    == released
            }
        }),
{
}

/// A poisoned lock ends the call that needs it, whatever the operation, with the error for that
/// lock; a step that needs no lock is not touched.
pub proof fn law_poisoned_locks_end_calls(call: CallView)
    ensures
        ({
            let end = call.after(ChildEvent::Poisoned).step;
            &&& (call.step is CheckExit || call.step is RecordExit || call.step is ReadExit) ==> (
            end matches StepView::Done(Err(error)) && error.code == -32603 && error.data == Some(
                "terminal exit-status lock poisoned"@,
            ))
            &&& call.step is LockChild ==> (end matches StepView::Done(Err(error)) && error.code
                == -32603 && error.data == Some("terminal child lock poisoned"@))
            &&& call.step is ReadOutput ==> (end matches StepView::Done(Err(error)) && error.code
                == -32603 && error.data == Some("terminal output lock poisoned"@))
            &&& call.step is ReadTruncated ==> (end matches StepView::Done(Err(error))
                && error.code == -32603 && error.data == Some("terminal truncation lock poisoned"@))
            &&& (call.step is Kill || call.step is Wait || call.step is TryWait || call.step
                is Done) ==> end == call.step
        }),
{
}

/// An event that the step at hand does not wait for changes nothing, nor does a look at the
/// terminal where the step does not ask for one.
pub proof fn law_stray_inputs_change_nothing(
    call: CallView,
    event: ChildEvent,
    terminal: TerminalView,
)
    ensures
        call.step is Done ==> call.after(event) == call,
        (call.step is CheckExit || call.step is RecordExit || call.step is ReadOutput || call.step
            is ReadTruncated || call.step is ReadExit) && !(event is Poisoned) ==> call.after(event)
            == call,
        call.step is LockChild && !(event is Poisoned || event is Locked) ==> call.after(event)
            == call,
        call.step is Kill && !(event is Killed || event is Failed) ==> call.after(event) == call,
        call.step is Wait && !(event is Exited || event is Failed) ==> call.after(event) == call,
        call.step is TryWait && !(event is Exited || event is Running || event is Failed)
            ==> call.after(event) == call,
        (call.step is Done || call.step is LockChild || call.step is Kill || call.step is Wait
            || call.step is TryWait) ==> call.with(terminal) == call,
{
}

/// What happens to a call is taken one after the other: an event changes the call alone, and a look
/// at the terminal does the step at hand on both.
pub proof fn law_inputs_are_taken_one_by_one(
    state: (CallView, TerminalView),
    inputs: Seq<Input>,
    event: ChildEvent,
)
    ensures
        run(state, Seq::empty()) == state,
        ({
            let before = run(state, inputs);
            &&& run(state, inputs.push(Input::Event(event))) == (before.0.after(event), before.1)
            &&& run(state, inputs.push(Input::Terminal)) == (
                before.0.with(before.1),
                before.0.effect(before.1),
            )
        }),
{
    assert(inputs.push(Input::Event(event)).drop_last() =~= inputs);
    assert(inputs.push(Input::Terminal).drop_last() =~= inputs);
}

/// A call starts with what its operation needs first: a kill with the process, the others with a
/// look at the exit status.
pub proof fn law_calls_start_with_their_first_step(operation: Operation)
    ensures
        CallView::started(operation).operation == operation,
        operation is Kill ==> CallView::started(operation).step is LockChild,
        operation !is Kill ==> CallView::started(operation).step is CheckExit,
{
}

/// Each lock that is poisoned is told by its own message.
pub proof fn law_poisoned_locks_are_told_apart(lock: Lock)
    ensures
        lock is Registry ==> poison_message(lock) == "terminal state lock poisoned"@,
        lock is Child ==> poison_message(lock) == "terminal child lock poisoned"@,
        lock is Output ==> poison_message(lock) == "terminal output lock poisoned"@,
        lock is Truncation ==> poison_message(lock) == "terminal truncation lock poisoned"@,
        lock is ExitStatus ==> poison_message(lock) == "terminal exit-status lock poisoned"@,
{
}

} // verus!
