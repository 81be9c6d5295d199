use agent_client_protocol_schema::{
    AgentCapabilities, McpServer, ModelInfo, SessionConfigOption, SessionConfigSelectOption,
    StopReason,
};
use sacp_connection::connection::{
    set_model_message, AgentMessage, LoadSessionResponse, NewSessionResponse, SacpConnection,
    SessionModelState, SessionNotification, UntypedMessage,
};
use sacp_connection::error::{Activity, ConnectionError};

fn option(id: &str) -> SessionConfigOption {
    let values = vec![SessionConfigSelectOption::new("v".to_string(), "Value")];
    SessionConfigOption::select(id.to_string(), "Name", "v".to_string(), values)
}

fn model(id: &str) -> ModelInfo {
    ModelInfo::new(id.to_string(), "Model")
}

fn models(current: &str) -> SessionModelState {
    SessionModelState {
        current_model_id: current.to_string(),
        available_models: vec![model("m1"), model("m2")],
    }
}

fn opened() -> SacpConnection {
    SacpConnection::new(AgentCapabilities::new().load_session(true))
}

fn error(context: &str, cause: &str) -> ConnectionError {
    ConnectionError { context: context.to_string(), cause: Some(cause.to_string()) }
}

#[test]
fn a_new_connection_has_no_session() {
    let connection = opened();
    assert_eq!(*connection.capabilities(), AgentCapabilities::new().load_session(true));
    assert_eq!(connection.model_state().current_model_id, None);
    assert!(connection.model_state().available_models.is_empty());
    assert!(connection.config_options().is_empty());
}

#[test]
fn capabilities_are_settled_by_the_initialization() {
    let mut connection = SacpConnection::new(AgentCapabilities::new());
    assert_eq!(connection.config_option_set(Ok(vec![option("a")])), Ok(()));
    connection.initialized(AgentCapabilities::new().load_session(true));
    assert_eq!(connection.config_options(), vec![option("a")]);
    assert_eq!(connection.model_set("m".to_string(), Ok(())), Ok(()));
    assert_eq!(*connection.capabilities(), AgentCapabilities::new().load_session(true));
}

#[test]
fn a_new_session_brings_models_and_options() {
    let mut connection = opened();
    let created = connection.session_created(Ok(NewSessionResponse {
        session_id: "s".to_string(),
        models: Some(models("m1")),
        config_options: Some(vec![option("a")]),
    }));
    assert_eq!(created, Ok("s".to_string()));
    assert_eq!(connection.model_state().current_model_id.as_deref(), Some("m1"));
    assert_eq!(connection.model_state().available_models, vec![model("m1"), model("m2")]);
    assert_eq!(connection.config_options(), vec![option("a")]);
    let failed = connection.session_created(Err("no".to_string()));
    assert_eq!(failed, Err(error("Failed to create ACP session", "no")));
    assert_eq!(connection.config_options(), vec![option("a")]);
}

#[test]
fn a_loaded_session_keeps_its_id() {
    let mut connection = opened();
    let _ = connection.session_created(Ok(NewSessionResponse {
        session_id: "s".to_string(),
        models: Some(models("m1")),
        config_options: Some(vec![option("a")]),
    }));
    let loaded = connection.session_loaded(
        "old".to_string(),
        Ok(LoadSessionResponse { models: None, config_options: None }),
    );
    assert_eq!(loaded, Ok("old".to_string()));
    assert_eq!(connection.model_state().current_model_id.as_deref(), Some("m1"));
    assert!(connection.config_options().is_empty());
    let failed = connection.session_loaded("old".to_string(), Err("gone".to_string()));
    assert_eq!(failed, Err(error("Failed to load ACP session", "gone")));
}

#[test]
fn the_snapshot_of_options_is_the_last_told() {
    let mut connection = opened();
    assert_eq!(connection.config_option_set(Ok(vec![option("a")])), Ok(()));
    let update = connection.on_session_notification(SessionNotification {
        config_options: Some(vec![option("b"), option("c")]),
        update: 'u',
    });
    assert_eq!(update, 'u');
    assert_eq!(connection.config_options(), vec![option("b"), option("c")]);
    let update = connection
        .on_session_notification(SessionNotification { config_options: None, update: 'v' });
    assert_eq!(update, 'v');
    assert_eq!(connection.config_options(), vec![option("b"), option("c")]);
    let failed = connection.config_option_set(Err("bad".to_string()));
    assert_eq!(failed, Err(error("Failed to set ACP session config option", "bad")));
    assert_eq!(connection.config_options(), vec![option("b"), option("c")]);
}

#[test]
fn switching_models_keeps_the_list() {
    let mut connection = opened();
    let _ = connection.session_created(Ok(NewSessionResponse {
        session_id: "s".to_string(),
        models: Some(models("m1")),
        config_options: None,
    }));
    assert_eq!(
        connection.model_set("m2".to_string(), Err("no".to_string())),
        Err(error("Failed to set ACP model", "no"))
    );
    assert_eq!(connection.model_state().current_model_id.as_deref(), Some("m1"));
    assert_eq!(connection.model_set("m2".to_string(), Ok(())), Ok(()));
    assert_eq!(connection.model_state().current_model_id.as_deref(), Some("m2"));
    assert_eq!(connection.model_state().available_models, vec![model("m1"), model("m2")]);
    assert_eq!(*connection.capabilities(), AgentCapabilities::new().load_session(true));
}

#[test]
fn the_model_request_in_json() {
    let message = opened().set_model("s\"1", "m2").unwrap();
    assert_eq!(message.method, "session/set_model");
    assert_eq!(message.params, "{\"modelId\":\"m2\",\"sessionId\":\"s\\\"1\"}");
    assert_eq!(
        set_model_message(Err("x".to_string())),
        Err(error("Failed to serialize SetSessionModelRequest", "x"))
    );
    let kept = UntypedMessage { method: "m".to_string(), params: "p".to_string() };
    assert_eq!(
        set_model_message(Ok(kept)).unwrap(),
        UntypedMessage { method: "m".to_string(), params: "p".to_string() }
    );
}

#[test]
fn requests_carry_what_they_are_given() {
    let connection = opened();
    let servers: Vec<McpServer> = Vec::new();
    assert!(matches!(
        connection.create_session(b"/w".to_vec(), servers),
        AgentMessage::NewSession { cwd, mcp_servers } if cwd == b"/w" && mcp_servers.is_empty()
    ));
    assert!(matches!(
        connection.load_session("s".to_string(), b"/w".to_vec()),
        AgentMessage::LoadSession { session_id, cwd } if session_id == "s" && cwd == b"/w"
    ));
    assert!(matches!(
        connection.prompt("s".to_string(), vec!["hi".to_string().into()]),
        AgentMessage::Prompt { session_id, prompt } if session_id == "s" && prompt.len() == 1
    ));
    assert!(matches!(
        connection.cancel("s".to_string()),
        AgentMessage::Cancel { session_id } if session_id == "s"
    ));
    assert!(matches!(
        connection.set_config_option("s".to_string(), "c".to_string(), "v".to_string()),
        AgentMessage::SetConfigOption { session_id, config_id, value }
            if session_id == "s" && config_id == "c" && value == "v"
    ));
}

#[test]
fn replies_without_state() {
    let connection = opened();
    assert_eq!(connection.prompted(Ok(StopReason::EndTurn)), Ok(StopReason::EndTurn));
    assert_eq!(
        connection.prompted(Err("x".to_string())),
        Err(error("ACP prompt failed", "x"))
    );
    assert_eq!(connection.cancelled(Ok(())), Ok(()));
    assert_eq!(
        connection.cancelled(Err("x".to_string())),
        Err(error("Failed to cancel ACP session", "x"))
    );
}

#[test]
fn failures_of_the_start() {
    for (activity, context) in [
        (Activity::TakeStdout, "Failed to take stdout"),
        (Activity::TakeStdin, "Failed to take stdin"),
        (Activity::TakeStderr, "Failed to take stderr"),
        (Activity::AwaitInitialization, "SACP connection task died during initialization"),
    ] {
        let error = ConnectionError::new(activity, None);
        assert_eq!(error.context, context);
        assert_eq!(error.cause, None);
    }
}
