use sacp_connection::terminal::{TerminalRegistry, TerminalState};
use sacp_connection::terminal_create::{
    CreateStep, CreateTerminalRequest, EnvVariable, OutputStream, TerminalCommand,
    TerminalCreation,
};
use std::sync::Arc;

fn request(cwd: Option<Vec<u8>>) -> CreateTerminalRequest {
    CreateTerminalRequest {
        command: "ls".to_string(),
        args: vec!["-l".to_string()],
        env: vec![EnvVariable { name: "A".to_string(), value: "1".to_string() }],
        cwd,
        output_byte_limit: Some(10),
    }
}

fn command(cwd: &[u8]) -> TerminalCommand {
    TerminalCommand {
        program: "ls".to_string(),
        args: vec!["-l".to_string()],
        env: vec![EnvVariable { name: "A".to_string(), value: "1".to_string() }],
        cwd: cwd.to_vec(),
    }
}

#[test]
fn the_command_starts_in_the_requested_directory() {
    let given = TerminalCreation::create_terminal(request(Some(b"/x".to_vec())), b"/w");
    assert_eq!(given.step, CreateStep::Spawn(command(b"/x")));
    let default = TerminalCreation::create_terminal(request(None), b"/w");
    assert_eq!(default.step, CreateStep::Spawn(command(b"/w")));
}

#[test]
fn a_started_command_is_registered_and_answered() {
    let creation = TerminalCreation::create_terminal(request(None), b"/w");
    let creation = creation.spawned_as("u-1", true, true);
    assert_eq!(
        creation.step,
        CreateStep::Register {
            id: "terminal-u-1".to_string(),
            terminal: TerminalState::new(Some(10)),
            readers: vec![OutputStream::Stdout, OutputStream::Stderr],
        }
    );
    let mut terminals: TerminalRegistry<u8> = TerminalRegistry::new();
    let creation = creation.register(&mut terminals, Arc::new(3));
    assert_eq!(creation.step, CreateStep::Done(Ok("terminal-u-1".to_string())));
    assert_eq!(creation.output_byte_limit, Some(10));
    assert_eq!(*terminals.terminal_state("terminal-u-1").unwrap(), 3);
    let creation = creation.register(&mut terminals, Arc::new(4));
    assert_eq!(creation.step, CreateStep::Done(Ok("terminal-u-1".to_string())));
    assert_eq!(*terminals.terminal_state("terminal-u-1").unwrap(), 3);
    let silent = TerminalCreation::create_terminal(request(None), b"/w")
        .spawned_as("u", false, false);
    assert!(matches!(silent.step, CreateStep::Register { readers, .. } if readers.is_empty()));
}

#[test]
fn terminal_ids_are_random_uuids() {
    let id = || match TerminalCreation::create_terminal(request(None), b"/w")
        .spawned(true, false)
        .register(&mut TerminalRegistry::<u8>::new(), Arc::new(0))
        .step
    {
        CreateStep::Done(Ok(id)) => id,
        other => panic!("{other:?}"),
    };
    let (first, second) = (id(), id());
    assert_ne!(first, second);
    let uuid = first.strip_prefix("terminal-").unwrap();
    assert_eq!(uuid.len(), 36);
    for (i, c) in uuid.chars().enumerate() {
        match i {
            8 | 13 | 18 | 23 => assert_eq!(c, '-'),
            14 => assert_eq!(c, '4'),
            19 => assert!("89ab".contains(c)),
            _ => assert!("0123456789abcdef".contains(c)),
        }
    }
}

#[test]
fn creation_can_fail() {
    let failed = TerminalCreation::create_terminal(request(None), b"/w").spawn_failed("no such file");
    match failed.step {
        CreateStep::Done(Err(error)) => {
            assert_eq!(error.code, -32603);
            assert_eq!(error.data.as_deref(), Some("no such file"));
        }
        other => panic!("{other:?}"),
    }
    let poisoned = TerminalCreation::create_terminal(request(None), b"/w")
        .spawned_as("u", true, true)
        .registry_poisoned();
    match poisoned.step {
        CreateStep::Done(Err(error)) => {
            assert_eq!(error.data.as_deref(), Some("terminal state lock poisoned"));
        }
        other => panic!("{other:?}"),
    }
}
