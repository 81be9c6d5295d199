//! The start of a connection: the agent's command line, the initialization request, and what
//! becomes of the agent's answer.

use crate::error::ConnectionError;
use crate::rpc::{internal_error, internal_error_view, RpcError};
use crate::terminal_create::EnvVariable;
use crate::text::{decimal, decimal_string};
use vstd::prelude::*;

verus! {

broadcast use vstd::string::group_string_axioms;

/// The protocol version that the client offers.
pub const OFFERED_VERSION: u16 = 1;

/// The oldest protocol version that the client accepts.
pub const MINIMUM_SUPPORTED_VERSION: u16 = 1;

/// How an agent is to be run.
pub struct AcpAgentConfig {
    pub command: String,
    pub args: Vec<String>,
    pub env: Vec<EnvVariable>,
}

/// The process to start for an agent: its streams go through pipes, it leads a process group of
/// its own, and its environment is the client's own with `env` set on top of it, in order, and
/// the variable `unset` then taken out.
#[derive(Debug, PartialEq, Eq)]
pub struct AgentCommand {
    pub program: String,
    pub args: Vec<String>,
    pub env: Vec<EnvVariable>,
    pub unset: String,
    pub cwd: Vec<u8>,
}

impl AcpAgentConfig {
    /// The process to start for this agent in the directory `cwd`. The agent never sees the
    /// client's `CODEX_HOME`.
    pub fn agent_command(self, cwd: &[u8]) -> (command: AgentCommand)
        ensures
            command.program == self.command,
            command.args == self.args,
            command.env == self.env,
            command.unset@ == "CODEX_HOME"@,
            command.cwd@ == cwd@,
    {
        AgentCommand {
            program: self.command,
            args: self.args,
            env: self.env,
            unset: "CODEX_HOME".to_owned(),
            cwd: vstd::slice::slice_to_vec(cwd),
        }
    }
}

/// The error for an agent whose process cannot be started.
pub fn agent_spawn_failed(program: &str, cause: String) -> (error: ConnectionError)
    ensures
        error.context@ == "Failed to spawn ACP agent: "@ + program@,
        error.cause == Some(cause),
{
    let mut context = "Failed to spawn ACP agent: ".to_owned();
    context.append(program);
    ConnectionError { context, cause: Some(cause) }
}

/// What the client says of itself.
#[derive(Debug, PartialEq, Eq)]
pub struct InitializeRequest {
    pub protocol_version: u16,
    pub read_text_file: bool,
    pub write_text_file: bool,
    pub client_name: String,
    pub client_title: String,
    pub client_version: String,
}

/// The request that opens a connection: the client offers to read and to write text files.
pub fn initialize_request(client_version: String) -> (request: InitializeRequest)
    ensures
        request.protocol_version == OFFERED_VERSION,
        request.protocol_version == 1,
        request.read_text_file,
        request.write_text_file,
        request.client_name@ == "codex"@,
        request.client_title@ == "Codex CLI"@,
        request.client_version == client_version,
{
    InitializeRequest {
        protocol_version: latest_version(),
        read_text_file: true,
        write_text_file: true,
        client_name: "codex".to_owned(),
        client_title: "Codex CLI".to_owned(),
        client_version,
    }
}

/// Reads `agent_client_protocol_schema::ProtocolVersion::LATEST`. Trusted: its number is 1, and a
/// version is written as its number in decimal.
#[verifier::external_body]
fn latest_version() -> (version: u16)
    ensures
        version == OFFERED_VERSION,
{
    agent_client_protocol_schema::ProtocolVersion::LATEST.to_string().parse().unwrap_or_default()
}

/// Reads `agent_client_protocol_schema::ProtocolVersion::V1`. Trusted: its number is 1, and a
/// version is written as its number in decimal.
#[verifier::external_body]
fn first_version() -> (version: u16)
    ensures
        version == MINIMUM_SUPPORTED_VERSION,
{
    agent_client_protocol_schema::ProtocolVersion::V1.to_string().parse().unwrap_or_default()
}

/// What is said of an agent that speaks an outdated version.
pub open spec fn too_old_text(version: u16) -> Seq<char> {
    "ACP agent version "@ + decimal(version as nat) + " is too old (minimum: "@ + decimal(
        MINIMUM_SUPPORTED_VERSION as nat,
    ) + ")"@
}

/// What becomes of a connection once the agent has answered the initialization. `C` is what the
/// agent can do.
#[derive(Debug, PartialEq, Eq)]
pub enum Handshake<C> {
    /// The connection stands and stays open.
    Ready(C),
    /// The caller gets `message`, and the connection ends with `error`.
    TooOld { message: String, error: RpcError },
    /// The caller gets this message, and the connection ends with the agent's own error.
    Failed(String),
}

/// Judges the agent's answer to the initialization: its protocol version and what it can do, or
/// the text of its error.
pub fn on_initialize_response<C>(reply: Result<(u16, C), String>) -> (handshake: Handshake<C>)
    ensures
        match reply {
            Ok((version, capabilities)) => if version < MINIMUM_SUPPORTED_VERSION {
                handshake matches Handshake::TooOld { message, error } && message@ == too_old_text(
                    version,
                ) && error@ == internal_error_view("Protocol version too old"@)
            } else {
                handshake == Handshake::Ready(capabilities)
            },
            Err(cause) => handshake matches Handshake::Failed(message) && message@
                == "ACP initialization failed: "@ + cause@,
        },
        reply matches Ok((version, capabilities)) ==> if version >= 1 {
            handshake == Handshake::Ready(capabilities)
        } else {
            handshake matches Handshake::TooOld { message, error } && message@
                == "ACP agent version "@ + decimal(version as nat) + " is too old (minimum: "@
                + decimal(1) + ")"@ && error.code == -32603 && error.message@ == "Internal error"@
                && (error.data matches Some(detail) && detail@ == "Protocol version too old"@)
        },
{
    match reply {
        Ok((version, capabilities)) => {
            let minimum: u16 = first_version();
            if version < minimum {
                let mut message = "ACP agent version ".to_owned();
                message.append(decimal_string(version as u64).as_str());
                message.append(" is too old (minimum: ");
                message.append(decimal_string(minimum as u64).as_str());
                message.append(")");
                Handshake::TooOld { message, error: internal_error("Protocol version too old") }
            } else {
                Handshake::Ready(capabilities)
            }
        },
        Err(cause) => {
            let mut message = "ACP initialization failed: ".to_owned();
            message.append(cause.as_str());
            Handshake::Failed(message)
        },
    }
}

/// An agent is too old exactly when its version is below the first one, and is then told both
/// versions.
pub proof fn law_outdated_agents_are_told_both_versions(version: u16)
    ensures
        version < MINIMUM_SUPPORTED_VERSION <==> version == 0,
        too_old_text(version) == "ACP agent version "@ + decimal(version as nat)
            + " is too old (minimum: "@ + decimal(1) + ")"@,
{
}

} // verus!
