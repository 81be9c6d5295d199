use sacp_connection::rpc::RpcError;
use sacp_connection::terminal::{
    ProcessExit, TerminalExitStatus, TerminalRegistry, TerminalState,
};
use sacp_connection::terminal_call::{
    kill_terminal, lock_poisoned, release_terminal, terminal_output, wait_for_terminal_exit,
    ChildEvent, Lock, Step, TerminalCall, TerminalReply,
};
use std::sync::Arc;

fn registry() -> TerminalRegistry<u8> {
    let mut registry = TerminalRegistry::new();
    registry.insert("t".to_string(), Arc::new(5));
    registry
}

fn exit(code: i32) -> ProcessExit {
    ProcessExit { code: Some(code), signal: None }
}

fn status(code: u32) -> TerminalExitStatus {
    TerminalExitStatus { exit_code: Some(code), signal: None }
}

fn internal(detail: &str) -> RpcError {
    RpcError {
        code: -32603,
        message: "Internal error".to_string(),
        data: Some(detail.to_string()),
    }
}

fn begun(call: Result<(Arc<u8>, TerminalCall), RpcError>) -> TerminalCall {
    let (terminal, call) = call.unwrap();
    assert_eq!(*terminal, 5);
    call
}

#[test]
fn a_kill_records_the_exit() {
    let mut terminal = TerminalState::new(None);
    terminal.append_text("out");
    let call = begun(kill_terminal("t", &registry()));
    assert_eq!(call.step, Step::LockChild);
    let call = call.on_event(ChildEvent::Locked);
    assert_eq!(call.step, Step::Kill);
    let call = call.on_event(ChildEvent::Killed);
    assert_eq!(call.step, Step::Wait);
    let call = call.on_event(ChildEvent::Exited(ProcessExit { code: None, signal: Some(9) }));
    let call = call.with_terminal(&mut terminal);
    assert_eq!(call.step, Step::Done(Ok(TerminalReply::Killed)));
    assert_eq!(
        terminal.exit_status,
        Some(TerminalExitStatus { exit_code: None, signal: Some("9".to_string()) })
    );
    assert_eq!(terminal.output, "out");
}

#[test]
fn a_kill_fails_with_the_system() {
    let mut terminal = TerminalState::new(None);
    let call = begun(kill_terminal("t", &registry())).on_event(ChildEvent::Locked);
    let call = call.on_event(ChildEvent::Failed("no".to_string()));
    assert_eq!(call.step, Step::Done(Err(internal("no"))));
    let call = call.with_terminal(&mut terminal).on_event(ChildEvent::Exited(exit(0)));
    assert_eq!(call.step, Step::Done(Err(internal("no"))));
    assert_eq!(terminal.exit_status, None);
}

#[test]
fn a_wait_records_and_reports_the_exit() {
    let mut terminal = TerminalState::new(None);
    let call = begun(wait_for_terminal_exit("t", &registry())).with_terminal(&mut terminal);
    assert_eq!(call.step, Step::LockChild);
    let call = call.on_event(ChildEvent::Locked);
    assert_eq!(call.step, Step::Wait);
    let call = call.on_event(ChildEvent::Exited(exit(4))).with_terminal(&mut terminal);
    assert_eq!(call.step, Step::Done(Ok(TerminalReply::Exited(status(4)))));
    assert_eq!(terminal.exit_status, Some(status(4)));
    let again = begun(wait_for_terminal_exit("t", &registry())).with_terminal(&mut terminal);
    assert_eq!(again.step, Step::Done(Ok(TerminalReply::Exited(status(4)))));
    let failed = begun(wait_for_terminal_exit("t", &registry()))
        .with_terminal(&mut TerminalState::new(None))
        .on_event(ChildEvent::Locked)
        .on_event(ChildEvent::Failed("gone".to_string()));
    assert_eq!(failed.step, Step::Done(Err(internal("gone"))));
}

#[test]
fn output_of_a_running_command() {
    let mut terminal = TerminalState::new(Some(3));
    terminal.append_text("abcd");
    let call = begun(terminal_output("t", &registry())).with_terminal(&mut terminal);
    let call = call.on_event(ChildEvent::Locked);
    assert_eq!(call.step, Step::TryWait);
    let call = call.on_event(ChildEvent::Running);
    let call = call.with_terminal(&mut terminal).with_terminal(&mut terminal);
    let call = call.with_terminal(&mut terminal);
    assert_eq!(
        call.step,
        Step::Done(Ok(TerminalReply::Output {
            output: "bcd".to_string(),
            truncated: true,
            exit_status: None,
        }))
    );
}

#[test]
fn output_of_a_finished_command_tells_its_exit() {
    let mut terminal = TerminalState::new(None);
    terminal.append_text("abc");
    let call = begun(terminal_output("t", &registry()))
        .with_terminal(&mut terminal)
        .on_event(ChildEvent::Locked)
        .on_event(ChildEvent::Exited(exit(1)))
        .with_terminal(&mut terminal)
        .with_terminal(&mut terminal)
        .with_terminal(&mut terminal)
        .with_terminal(&mut terminal);
    assert_eq!(
        call.step,
        Step::Done(Ok(TerminalReply::Output {
            output: "abc".to_string(),
            truncated: false,
            exit_status: Some(status(1)),
        }))
    );
    assert_eq!(terminal.exit_status, Some(status(1)));
    let failed = begun(terminal_output("t", &registry()))
        .with_terminal(&mut TerminalState::new(None))
        .on_event(ChildEvent::Locked)
        .on_event(ChildEvent::Failed("x".to_string()));
    assert_eq!(failed.step, Step::Done(Err(internal("x"))));
}

#[test]
fn a_release_kills_what_still_runs() {
    let mut terminals = registry();
    let mut terminal = TerminalState::new(None);
    let call = begun(release_terminal("t", &mut terminals)).with_terminal(&mut terminal);
    assert_eq!(release_terminal("t", &mut terminals).unwrap_err().code, -32002);
    let call = call.on_event(ChildEvent::Locked).on_event(ChildEvent::Running);
    assert_eq!(call.step, Step::Kill);
    let call = call.on_event(ChildEvent::Failed("ignored".to_string()));
    assert_eq!(call.step, Step::Wait);
    let call = call.on_event(ChildEvent::Failed("ignored".to_string()));
    assert_eq!(call.step, Step::Done(Ok(TerminalReply::Released)));
    assert_eq!(terminal.exit_status, None);
}

#[test]
fn a_release_leaves_what_has_ended() {
    let mut terminals = registry();
    let mut terminal = TerminalState::new(None);
    terminal.exit_status = Some(status(0));
    let call = begun(release_terminal("t", &mut terminals)).with_terminal(&mut terminal);
    assert_eq!(call.step, Step::Done(Ok(TerminalReply::Released)));
    let ended = begun(release_terminal("t", &mut registry()))
        .with_terminal(&mut TerminalState::new(None))
        .on_event(ChildEvent::Locked)
        .on_event(ChildEvent::Exited(exit(0)));
    assert_eq!(ended.step, Step::Done(Ok(TerminalReply::Released)));
    let failed = begun(release_terminal("t", &mut registry()))
        .with_terminal(&mut TerminalState::new(None))
        .on_event(ChildEvent::Locked)
        .on_event(ChildEvent::Failed("x".to_string()));
    assert_eq!(failed.step, Step::Done(Err(internal("x"))));
}

#[test]
fn unknown_terminals_are_not_found() {
    let terminals = registry();
    for error in [
        kill_terminal("u", &terminals).unwrap_err(),
        terminal_output("u", &terminals).unwrap_err(),
        wait_for_terminal_exit("u", &terminals).unwrap_err(),
    ] {
        assert_eq!(error.code, -32002);
        assert_eq!(error.data, None);
    }
}

#[test]
fn poisoned_locks_are_told_apart() {
    assert_eq!(lock_poisoned(Lock::Registry), internal("terminal state lock poisoned"));
    assert_eq!(lock_poisoned(Lock::Child), internal("terminal child lock poisoned"));
    assert_eq!(lock_poisoned(Lock::Output), internal("terminal output lock poisoned"));
    assert_eq!(lock_poisoned(Lock::Truncation), internal("terminal truncation lock poisoned"));
    assert_eq!(lock_poisoned(Lock::ExitStatus), internal("terminal exit-status lock poisoned"));
    let mut terminal = TerminalState::new(None);
    let call = begun(terminal_output("t", &registry())).on_event(ChildEvent::Poisoned);
    assert_eq!(call.step, Step::Done(Err(lock_poisoned(Lock::ExitStatus))));
    let reading = || {
        begun(terminal_output("t", &registry()))
            .with_terminal(&mut TerminalState::new(None))
            .on_event(ChildEvent::Locked)
            .on_event(ChildEvent::Running)
    };
    let call = reading().on_event(ChildEvent::Poisoned);
    assert_eq!(call.step, Step::Done(Err(lock_poisoned(Lock::Output))));
    let call = reading().with_terminal(&mut terminal).on_event(ChildEvent::Poisoned);
    assert_eq!(call.step, Step::Done(Err(lock_poisoned(Lock::Truncation))));
    let call = begun(kill_terminal("t", &registry())).on_event(ChildEvent::Poisoned);
    assert_eq!(call.step, Step::Done(Err(lock_poisoned(Lock::Child))));
}

#[test]
fn unexpected_child_events_change_nothing() {
    let call = begun(kill_terminal("t", &registry())).on_event(ChildEvent::Killed);
    assert_eq!(call.step, Step::LockChild);
    let call = call.with_terminal(&mut TerminalState::new(None));
    assert_eq!(call.step, Step::LockChild);
}

#[test]
fn writes_during_a_call_do_not_disturb_it() {
    let mut terminal = TerminalState::new(Some(4));
    terminal.append_text("ab");
    let call = begun(terminal_output("t", &registry())).with_terminal(&mut terminal);
    terminal.append_text("cd");
    let call = call.on_event(ChildEvent::Locked).on_event(ChildEvent::Exited(exit(2)));
    terminal.append_text("e");
    let call = call.with_terminal(&mut terminal).with_terminal(&mut terminal);
    terminal.append_text("f");
    let call = call.with_terminal(&mut terminal).with_terminal(&mut terminal);
    assert_eq!(
        call.step,
        Step::Done(Ok(TerminalReply::Output {
            output: "bcde".to_string(),
            truncated: true,
            exit_status: Some(status(2)),
        }))
    );
    assert_eq!(terminal.output, "cdef");
}
