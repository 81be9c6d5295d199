use agent_client_protocol_schema::ProtocolVersion;
use sacp_connection::handshake::{
    agent_spawn_failed, initialize_request, on_initialize_response, AcpAgentConfig, Handshake,
    MINIMUM_SUPPORTED_VERSION, OFFERED_VERSION,
};
use sacp_connection::process::{kill_child_process_group, GroupEvent, GroupKill};
use sacp_connection::terminal_create::EnvVariable;

#[test]
fn versions_are_those_of_the_protocol() {
    assert_eq!(ProtocolVersion::from(OFFERED_VERSION), ProtocolVersion::LATEST);
    assert_eq!(ProtocolVersion::from(MINIMUM_SUPPORTED_VERSION), ProtocolVersion::V1);
}

#[test]
fn the_client_introduces_itself() {
    let request = initialize_request("1.2.3".to_string());
    assert_eq!(request.protocol_version, 1);
    assert!(request.read_text_file && request.write_text_file);
    assert_eq!(request.client_name, "codex");
    assert_eq!(request.client_title, "Codex CLI");
    assert_eq!(request.client_version, "1.2.3");
}

#[test]
fn outdated_agents_are_turned_away() {
    match on_initialize_response(Ok((0, 'c'))) {
        Handshake::TooOld { message, error } => {
            assert_eq!(message, "ACP agent version 0 is too old (minimum: 1)");
            assert_eq!(error.code, -32603);
            assert_eq!(error.data.as_deref(), Some("Protocol version too old"));
        }
        other => panic!("{other:?}"),
    }
    assert_eq!(on_initialize_response(Ok((1, 'c'))), Handshake::Ready('c'));
    assert_eq!(on_initialize_response(Ok((u16::MAX, 'c'))), Handshake::Ready('c'));
    assert_eq!(
        on_initialize_response::<char>(Err("boom".to_string())),
        Handshake::Failed("ACP initialization failed: boom".to_string())
    );
}

#[test]
fn the_agent_does_not_see_the_clients_home() {
    let config = AcpAgentConfig {
        command: "agent".to_string(),
        args: vec!["--acp".to_string()],
        env: vec![EnvVariable { name: "K".to_string(), value: "V".to_string() }],
    };
    let command = config.agent_command(b"/w");
    assert_eq!(command.program, "agent");
    assert_eq!(command.args, ["--acp"]);
    assert_eq!(command.env[0].name, "K");
    assert_eq!(command.unset, "CODEX_HOME");
    assert_eq!(command.cwd, b"/w");
    let error = agent_spawn_failed("agent", "not found".to_string());
    assert_eq!(error.context, "Failed to spawn ACP agent: agent");
    assert_eq!(error.cause.as_deref(), Some("not found"));
}

#[test]
fn the_whole_group_is_killed() {
    let none: GroupKill<u8> = kill_child_process_group(None);
    assert_eq!(none, GroupKill::Done(Ok(())));
    let kill: GroupKill<u8> = kill_child_process_group(Some(40));
    assert_eq!(kill, GroupKill::FindGroup(40));
    let kill = kill.on_event(GroupEvent::Found(41));
    assert_eq!(kill, GroupKill::KillGroup(41));
    assert_eq!(kill.on_event(GroupEvent::Killed), GroupKill::Done(Ok(())));
    assert_eq!(kill_child_process_group::<u8>(Some(u32::MAX)), GroupKill::FindGroup(-1));
}

#[test]
fn a_group_that_is_gone_is_no_failure() {
    for start in [GroupKill::FindGroup(1), GroupKill::KillGroup(1)] {
        let gone = GroupEvent::Failed { not_found: true, error: 3 };
        assert_eq!(start.on_event(gone), GroupKill::Done(Ok(())));
    }
    for start in [GroupKill::FindGroup(1), GroupKill::KillGroup(1)] {
        let refused = GroupEvent::Failed { not_found: false, error: 3 };
        assert_eq!(start.on_event(refused), GroupKill::Done(Err(3)));
    }
    let stray = GroupKill::<u8>::FindGroup(1).on_event(GroupEvent::Killed);
    assert_eq!(stray, GroupKill::FindGroup(1));
}
