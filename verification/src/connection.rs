//! What a connection knows of its agent and its session, and the requests that it makes.

use crate::error::{Activity, ConnectionError};
use agent_client_protocol_schema::{
    AgentCapabilities, ContentBlock, McpServer, ModelInfo, SessionConfigOption, StopReason,
};
use vstd::prelude::*;

verus! {

broadcast use vstd::string::group_string_axioms;

/// `agent_client_protocol_schema::AgentCapabilities`, carried through.
#[verifier::external_type_specification]
#[verifier::external_body]
pub struct ExAgentCapabilities(agent_client_protocol_schema::AgentCapabilities);

/// `agent_client_protocol_schema::SessionConfigOption`, carried through.
#[verifier::external_type_specification]
#[verifier::external_body]
pub struct ExSessionConfigOption(agent_client_protocol_schema::SessionConfigOption);

/// `agent_client_protocol_schema::ModelInfo`, carried through.
#[verifier::external_type_specification]
#[verifier::external_body]
pub struct ExModelInfo(agent_client_protocol_schema::ModelInfo);

/// `agent_client_protocol_schema::McpServer`, carried through.
#[verifier::external_type_specification]
#[verifier::external_body]
pub struct ExMcpServer(agent_client_protocol_schema::McpServer);

/// `agent_client_protocol_schema::ContentBlock`, carried through.
#[verifier::external_type_specification]
#[verifier::external_body]
pub struct ExContentBlock(agent_client_protocol_schema::ContentBlock);

/// `agent_client_protocol_schema::StopReason`, carried through.
#[verifier::external_type_specification]
#[verifier::external_body]
pub struct ExStopReason(agent_client_protocol_schema::StopReason);

/// The derived `Clone` of a session config option. Trusted: the copy equals what it was made of.
pub assume_specification[ <agent_client_protocol_schema::SessionConfigOption as Clone>::clone ](
    option: &agent_client_protocol_schema::SessionConfigOption,
) -> (copy: agent_client_protocol_schema::SessionConfigOption)
    ensures
        copy == *option,
;

/// The derived `Clone` of a model's description. Trusted: the copy equals what it was made of.
pub assume_specification[ <agent_client_protocol_schema::ModelInfo as Clone>::clone ](
    model: &agent_client_protocol_schema::ModelInfo,
) -> (copy: agent_client_protocol_schema::ModelInfo)
    ensures
        copy == *model,
;

/// The models that an agent offers for a session.
pub struct SessionModelState {
    pub current_model_id: String,
    pub available_models: Vec<ModelInfo>,
}

/// What is known of the session's models: nothing before the agent has told.
pub struct AcpModelState {
    pub current_model_id: Option<String>,
    pub available_models: Vec<ModelInfo>,
}

/// What an [`AcpModelState`] says.
pub struct ModelView {
    pub current_model_id: Option<Seq<char>>,
    pub available_models: Seq<ModelInfo>,
}

impl View for AcpModelState {
    type V = ModelView;

    open spec fn view(&self) -> ModelView {
        ModelView {
            current_model_id: match self.current_model_id {
                Some(id) => Some(id@),
                None => None,
            },
            available_models: self.available_models@,
        }
    }
}

impl SessionModelState {
    /// What is known of the session's models once the agent has told this.
    pub open spec fn told(self) -> ModelView {
        ModelView {
            current_model_id: Some(self.current_model_id@),
            available_models: self.available_models@,
        }
    }
}

impl AcpModelState {
    /// Nothing is known of the session's models.
    pub fn new() -> (state: Self)
        ensures
            state@ == (ModelView { current_model_id: None, available_models: Seq::empty() }),
            state.current_model_id is None,
            state.available_models@.len() == 0,
    {
        AcpModelState { current_model_id: None, available_models: Vec::new() }
    }

    /// What the agent has told of the session's models is known.
    pub fn from_session_model_state(models: SessionModelState) -> (state: Self)
        ensures
            state@ == models.told(),
            state.available_models == models.available_models,
            state.current_model_id == Some(models.current_model_id),
    {
        AcpModelState {
            current_model_id: Some(models.current_model_id),
            available_models: models.available_models,
        }
    }
}

impl Clone for AcpModelState {
    fn clone(&self) -> (copy: Self)
        ensures
            copy@ == self@,
    {
        let available_models = self.available_models.clone();
        assert(available_models@ =~= self.available_models@);
        AcpModelState {
            current_model_id: match &self.current_model_id {
                Some(id) => Some(id.clone()),
                None => None,
            },
            available_models,
        }
    }
}

/// An untyped JSON-RPC request: a method, and its parameters as JSON text.
#[derive(Debug, PartialEq, Eq)]
pub struct UntypedMessage {
    pub method: String,
    pub params: String,
}

/// A message to the agent.
pub enum AgentMessage {
    NewSession { cwd: Vec<u8>, mcp_servers: Vec<McpServer> },
    LoadSession { session_id: String, cwd: Vec<u8> },
    Prompt { session_id: String, prompt: Vec<ContentBlock> },
    Cancel { session_id: String },
    SetConfigOption { session_id: String, config_id: String, value: String },
}

/// The agent's answer to a request for a new session.
pub struct NewSessionResponse {
    pub session_id: String,
    pub models: Option<SessionModelState>,
    pub config_options: Option<Vec<SessionConfigOption>>,
}

/// The agent's answer to a request for an earlier session.
pub struct LoadSessionResponse {
    pub models: Option<SessionModelState>,
    pub config_options: Option<Vec<SessionConfigOption>>,
}

/// A notification about the session. `config_options` are the options that it reports, when it is
/// of that kind; `update` is all of it.
pub struct SessionNotification<U> {
    pub config_options: Option<Vec<SessionConfigOption>>,
    pub update: U,
}

/// What a connection knows of its agent and its session.
pub struct SacpConnection {
    agent_capabilities: AgentCapabilities,
    model_state: AcpModelState,
    session_config_options: Vec<SessionConfigOption>,
}

/// What a [`SacpConnection`] knows.
pub struct ConnectionView {
    pub capabilities: AgentCapabilities,
    pub models: ModelView,
    pub config_options: Seq<SessionConfigOption>,
}

/// Something that changes what a connection knows.
pub enum Change {
    /// The agent has told what it can do.
    Initialized(AgentCapabilities),
    /// A session was opened; the agent may have told its models and its options.
    SessionOpened { models: Option<ModelView>, config_options: Option<Seq<SessionConfigOption>> },
    /// The agent has reported the session's options, all of them.
    OptionsReported(Seq<SessionConfigOption>),
    /// The agent has switched to this model.
    ModelSwitched(Seq<char>),
}

impl View for SacpConnection {
    type V = ConnectionView;

    closed spec fn view(&self) -> ConnectionView {
        ConnectionView {
            capabilities: self.agent_capabilities,
            models: self.model_state@,
            config_options: self.session_config_options@,
        }
    }
}

impl ConnectionView {
    /// A connection to an agent that can do `capabilities`, without a session.
    pub open spec fn opened(capabilities: AgentCapabilities) -> ConnectionView {
        ConnectionView {
            capabilities,
            models: ModelView { current_model_id: None, available_models: Seq::empty() },
            config_options: Seq::empty(),
        }
    }

    /// What is known after a change. A session that opens without options has none; one that
    /// opens without models leaves those that are known.
    pub open spec fn after(self, change: Change) -> ConnectionView {
        match change {
            Change::Initialized(capabilities) => ConnectionView { capabilities, ..self },
            Change::SessionOpened { models, config_options } => ConnectionView {
                models: match models {
                    Some(models) => models,
                    None => self.models,
                },
                config_options: match config_options {
                    Some(options) => options,
                    None => Seq::empty(),
                },
                ..self
            },
            Change::OptionsReported(options) => ConnectionView { config_options: options, ..self },
            Change::ModelSwitched(id) => ConnectionView {
                models: ModelView { current_model_id: Some(id), ..self.models },
                ..self
            },
        }
    }

    /// What is known after all of `changes`.
    pub open spec fn after_all(self, changes: Seq<Change>) -> ConnectionView
        decreases changes.len(),
    {
        if changes.len() == 0 {
            self
        } else {
            self.after_all(changes.drop_last()).after(changes.last())
        }
    }
}

/// What the agent has told of its models, if it has.
pub open spec fn optional_models(models: Option<SessionModelState>) -> Option<ModelView> {
    match models {
        Some(models) => Some(models.told()),
        None => None,
    }
}

/// The options that the agent has told, if it has.
pub open spec fn optional_options(options: Option<Vec<SessionConfigOption>>) -> Option<
    Seq<SessionConfigOption>,
> {
    match options {
        Some(options) => Some(options@),
        None => None,
    }
}

/// The JSON text of the parameters of a request to switch the model of a session, or the text of
/// the error that comes of writing it.
pub uninterp spec fn set_model_params(session_id: Seq<char>, model_id: Seq<char>) -> Result<
    Seq<char>,
    Seq<char>,
>;

/// Makes a request with `agent_client_protocol_schema::SetSessionModelRequest::new` and turns it
/// to JSON with `sacp::UntypedMessage::new`. Trusted: the message has the method it is given, and
/// its parameters, or the error, depend on the two ids alone.
#[verifier::external_body]
fn serialize_set_model(method: &str, session_id: &str, model_id: &str) -> (message: Result<
    UntypedMessage,
    String,
>)
    ensures
        match message {
            Ok(message) => message.method@ == method@ && set_model_params(
                session_id@,
                model_id@,
            ) == Ok::<Seq<char>, Seq<char>>(message.params@),
            Err(text) => set_model_params(session_id@, model_id@) == Err::<Seq<char>, Seq<char>>(
                text@,
            ),
        },
{
    let request = agent_client_protocol_schema::SetSessionModelRequest::new(
        session_id.to_string(),
        model_id.to_string(),
    );
    match sacp::UntypedMessage::new(method, &request) {
        Ok(message) => {
            let (method, params) = message.into_parts();
            Ok(UntypedMessage { method, params: params.to_string() })
        },
        Err(error) => Err(error.to_string()),
    }
}

/// The message that switches the model, or the error for one that could not be written.
pub fn set_model_message(serialized: Result<UntypedMessage, String>) -> (message: Result<
    UntypedMessage,
    ConnectionError,
>)
    ensures
        match serialized {
            Ok(untyped) => message == Ok::<UntypedMessage, ConnectionError>(untyped),
            Err(text) => message matches Err(error) && error.reports(
                Activity::SerializeModel,
                text@,
            ),
        },
        serialized matches Err(text) ==> (message matches Err(error) && error.context@
            == "Failed to serialize SetSessionModelRequest"@ && (error.cause matches Some(cause)
            && cause@ == text@)),
{
    match serialized {
        Ok(untyped) => Ok(untyped),
        Err(text) => Err(ConnectionError::new(Activity::SerializeModel, Some(text))),
    }
}

impl SacpConnection {
    /// A connection without a session, to an agent that is taken to be able to do `capabilities`
    /// until it has told.
    pub fn new(capabilities: AgentCapabilities) -> (connection: Self)
        ensures
            connection@ == ConnectionView::opened(capabilities),
            connection@.capabilities == capabilities,
            connection@.models.current_model_id is None,
            connection@.models.available_models.len() == 0,
            connection@.config_options.len() == 0,
    {
        SacpConnection {
            agent_capabilities: capabilities,
            model_state: AcpModelState::new(),
            session_config_options: Vec::new(),
        }
    }

    /// Takes in what the agent has told that it can do.
    pub fn initialized(&mut self, capabilities: AgentCapabilities)
        ensures
            final(self)@ == old(self)@.after(Change::Initialized(capabilities)),
            final(self)@.capabilities == capabilities,
            final(self)@.models == old(self)@.models,
            final(self)@.config_options == old(self)@.config_options,
    {
        self.agent_capabilities = capabilities;
    }

    /// What the agent can do.
    pub fn capabilities(&self) -> (capabilities: &AgentCapabilities)
        ensures
            *capabilities == self@.capabilities,
    {
        &self.agent_capabilities
    }

    /// What is known of the session's models.
    pub fn model_state(&self) -> (state: AcpModelState)
        ensures
            state@ == self@.models,
            state.available_models@ == self@.models.available_models,
            match state.current_model_id {
                Some(id) => self@.models.current_model_id == Some(id@),
                None => self@.models.current_model_id is None,
            },
    {
        self.model_state.clone()
    }

    /// The session's config options.
    pub fn config_options(&self) -> (options: Vec<SessionConfigOption>)
        ensures
            options@ == self@.config_options,
    {
        let options = self.session_config_options.clone();
        assert(options@ =~= self.session_config_options@);
        options
    }

    /// Asks for a new session in the directory `cwd`, with the given MCP servers.
    pub fn create_session(&self, cwd: Vec<u8>, mcp_servers: Vec<McpServer>) -> (message:
        AgentMessage)
        ensures
            message == (AgentMessage::NewSession { cwd, mcp_servers }),
    {
        AgentMessage::NewSession { cwd, mcp_servers }
    }

    /// Takes in the answer to a request for a new session and gives the session's id.
    pub fn session_created(&mut self, reply: Result<NewSessionResponse, String>) -> (created:
        Result<String, ConnectionError>)
        ensures
            match reply {
                Ok(response) => {
                    &&& created == Ok::<String, ConnectionError>(response.session_id)
                    &&& final(self)@ == old(self)@.after(
                        Change::SessionOpened {
                            models: optional_models(response.models),
                            config_options: optional_options(response.config_options),
                        },
                    )
                    &&& final(self)@.capabilities == old(self)@.capabilities
                    &&& response.config_options matches Some(options)
                        ==> final(self)@.config_options == options@
                    &&& response.config_options is None ==> final(self)@.config_options.len() == 0
                    &&& response.models matches Some(models) ==> {
                        let known = final(self)@.models;
                        &&& known.current_model_id == Some(models.current_model_id@)
                        &&& known.available_models == models.available_models@
                    }
                    &&& response.models is None ==> final(self)@.models == old(self)@.models
                },
                Err(text) => {
                    &&& created matches Err(error)
                    &&& error.reports(Activity::CreateSession, text@)
                    &&& error.context@ == "Failed to create ACP session"@
                    &&& error.cause matches Some(cause) && cause@ == text@
                    &&& final(self)@ == old(self)@
                },
            },
    {
        match reply {
            Ok(response) => {
                self.open_session(response.models, response.config_options);
                Ok(response.session_id)
            },
            Err(text) => Err(ConnectionError::new(Activity::CreateSession, Some(text))),
        }
    }

    /// Asks for the session `session_id` of old to be resumed in the directory `cwd`.
    pub fn load_session(&self, session_id: String, cwd: Vec<u8>) -> (message: AgentMessage)
        ensures
            message == (AgentMessage::LoadSession { session_id, cwd }),
    {
        AgentMessage::LoadSession { session_id, cwd }
    }

    /// Takes in the answer to a request to resume a session and gives the session's id, which is
    /// the one that was asked for.
    pub fn session_loaded(
        &mut self,
        session_id: String,
        reply: Result<LoadSessionResponse, String>,
    ) -> (loaded: Result<String, ConnectionError>)
        ensures
            match reply {
                Ok(response) => {
                    &&& loaded == Ok::<String, ConnectionError>(session_id)
                    &&& final(self)@ == old(self)@.after(
                        Change::SessionOpened {
                            models: optional_models(response.models),
                            config_options: optional_options(response.config_options),
                        },
                    )
                    &&& final(self)@.capabilities == old(self)@.capabilities
                    &&& response.config_options matches Some(options)
                        ==> final(self)@.config_options == options@
                    &&& response.config_options is None ==> final(self)@.config_options.len() == 0
                    &&& response.models matches Some(models) ==> {
                        let known = final(self)@.models;
                        &&& known.current_model_id == Some(models.current_model_id@)
                        &&& known.available_models == models.available_models@
                    }
                    &&& response.models is None ==> final(self)@.models == old(self)@.models
                },
                Err(text) => {
                    &&& loaded matches Err(error)
                    &&& error.reports(Activity::LoadSession, text@)
                    &&& error.context@ == "Failed to load ACP session"@
                    &&& error.cause matches Some(cause) && cause@ == text@
                    &&& final(self)@ == old(self)@
                },
            },
    {
        match reply {
            Ok(response) => {
                self.open_session(response.models, response.config_options);
                Ok(session_id)
            },
            Err(text) => Err(ConnectionError::new(Activity::LoadSession, Some(text))),
        }
    }

    fn open_session(
        &mut self,
        models: Option<SessionModelState>,
        config_options: Option<Vec<SessionConfigOption>>,
    )
        ensures
            final(self)@ == old(self)@.after(
                Change::SessionOpened {
                    models: optional_models(models),
                    config_options: optional_options(config_options),
                },
            ),
    {
        if let Some(models) = models {
            self.model_state = AcpModelState::from_session_model_state(models);
        }
        self.session_config_options = match config_options {
            Some(options) => options,
            None => Vec::new(),
        };
    }

    /// Sends a prompt to a session.
    pub fn prompt(&self, session_id: String, prompt: Vec<ContentBlock>) -> (message: AgentMessage)
        ensures
            message == (AgentMessage::Prompt { session_id, prompt }),
    {
        AgentMessage::Prompt { session_id, prompt }
    }

    /// Takes in the answer to a prompt: why the agent has stopped.
    pub fn prompted(&self, reply: Result<StopReason, String>) -> (stopped: Result<
        StopReason,
        ConnectionError,
    >)
        ensures
            match reply {
                Ok(reason) => stopped == Ok::<StopReason, ConnectionError>(reason),
                Err(text) => stopped matches Err(error) && error.reports(Activity::Prompt, text@),
            },
            reply matches Err(text) ==> (stopped matches Err(error) && error.context@
                == "ACP prompt failed"@ && (error.cause matches Some(cause) && cause@ == text@)),
    {
        match reply {
            Ok(reason) => Ok(reason),
            Err(text) => Err(ConnectionError::new(Activity::Prompt, Some(text))),
        }
    }

    /// Cancels the prompt that a session is busy with.
    pub fn cancel(&self, session_id: String) -> (message: AgentMessage)
        ensures
            message == (AgentMessage::Cancel { session_id }),
    {
        AgentMessage::Cancel { session_id }
    }

    /// Takes in whether a cancellation could be sent.
    pub fn cancelled(&self, sent: Result<(), String>) -> (done: Result<(), ConnectionError>)
        ensures
            match sent {
                Ok(_) => done is Ok,
                Err(text) => done matches Err(error) && error.reports(Activity::Cancel, text@),
            },
            sent matches Err(text) ==> (done matches Err(error) && error.context@
                == "Failed to cancel ACP session"@ && (error.cause matches Some(cause) && cause@ == text@)),
    {
        match sent {
            Ok(()) => Ok(()),
            Err(text) => Err(ConnectionError::new(Activity::Cancel, Some(text))),
        }
    }

    /// Asks for another model for a session.
    pub fn set_model(&self, session_id: &str, model_id: &str) -> (message: Result<
        UntypedMessage,
        ConnectionError,
    >)
        ensures
            match set_model_params(session_id@, model_id@) {
                Ok(params) => message matches Ok(untyped) && untyped.method@
                    == "session/set_model"@ && untyped.params@ == params,
                Err(text) => message matches Err(error) && error.reports(
                    Activity::SerializeModel,
                    text,
                ),
            },
            set_model_params(session_id@, model_id@) matches Err(text) ==> (message matches Err(
                error,
            ) && error.context@ == "Failed to serialize SetSessionModelRequest"@ && (error.cause
                matches Some(cause) && cause@ == text)),
    {
        set_model_message(serialize_set_model("session/set_model", session_id, model_id))
    }

    /// Takes in the answer to a request for another model.
    pub fn model_set(&mut self, model_id: String, reply: Result<(), String>) -> (done: Result<
        (),
        ConnectionError,
    >)
        ensures
            match reply {
                Ok(_) => {
                    &&& done is Ok
                    &&& final(self)@ == old(self)@.after(Change::ModelSwitched(model_id@))
                    &&& final(self)@.capabilities == old(self)@.capabilities
                    &&& final(self)@.models.current_model_id == Some(model_id@)
                    &&& final(self)@.models.available_models == old(self)@.models.available_models
                    &&& final(self)@.config_options == old(self)@.config_options
                },
                Err(text) => {
                    &&& done matches Err(error)
                    &&& error.reports(Activity::SetModel, text@)
                    &&& error.context@ == "Failed to set ACP model"@
                    &&& error.cause matches Some(cause) && cause@ == text@
                    &&& final(self)@ == old(self)@
                },
            },
    {
        match reply {
            Ok(()) => {
                self.model_state.current_model_id = Some(model_id);
                Ok(())
            },
            Err(text) => Err(ConnectionError::new(Activity::SetModel, Some(text))),
        }
    }

    /// Asks for a value of one of a session's config options.
    pub fn set_config_option(&self, session_id: String, config_id: String, value: String) -> (
    message: AgentMessage)
        ensures
            message == (AgentMessage::SetConfigOption { session_id, config_id, value }),
    {
        AgentMessage::SetConfigOption { session_id, config_id, value }
    }

    /// Takes in the answer to a request to set a config option: all of the session's options.
    pub fn config_option_set(&mut self, reply: Result<Vec<SessionConfigOption>, String>) -> (done:
        Result<(), ConnectionError>)
        ensures
            match reply {
                Ok(options) => {
                    &&& done is Ok
                    &&& final(self)@ == old(self)@.after(Change::OptionsReported(options@))
                    &&& final(self)@.capabilities == old(self)@.capabilities
                    &&& final(self)@.models == old(self)@.models
                    &&& final(self)@.config_options == options@
                },
                Err(text) => {
                    &&& done matches Err(error)
                    &&& error.reports(Activity::SetConfigOption, text@)
                    &&& error.context@ == "Failed to set ACP session config option"@
                    &&& error.cause matches Some(cause) && cause@ == text@
                    &&& final(self)@ == old(self)@
                },
            },
    {
        match reply {
            Ok(options) => {
                self.session_config_options = options;
                Ok(())
            },
            Err(text) => Err(ConnectionError::new(Activity::SetConfigOption, Some(text))),
        }
    }

    /// Takes in a notification about the session, and gives what is to be passed on: all of it.
    pub fn on_session_notification<U>(&mut self, notification: SessionNotification<U>) -> (update:
        U)
        ensures
            update == notification.update,
            final(self)@ == (match notification.config_options {
                Some(options) => old(self)@.after(Change::OptionsReported(options@)),
                None => old(self)@,
            }),
            final(self)@.capabilities == old(self)@.capabilities,
            final(self)@.models == old(self)@.models,
            notification.config_options matches Some(options) ==> final(self)@.config_options
                == options@,
            notification.config_options is None ==> final(self)@.config_options
                == old(self)@.config_options,
    {
        if let Some(options) = notification.config_options {
            self.session_config_options = options;
        }
        notification.update
    }
}

/// The options that a change tells, if it tells any.
pub open spec fn told_options(change: Change) -> Option<Seq<SessionConfigOption>> {
    match change {
        Change::SessionOpened { config_options: Some(options), .. } => Some(options),
        Change::SessionOpened { config_options: None, .. } => Some(Seq::empty()),
        Change::OptionsReported(options) => Some(options),
        Change::Initialized(_) => None,
        Change::ModelSwitched(_) => None,
    }
}

/// The snapshot of the options is that of the last change that told any (at `last`), however many
/// changes of other kinds came later; where none did (`last` is -1), it is the first one still.
pub proof fn law_options_are_the_last_told(start: ConnectionView, changes: Seq<Change>, last: int)
    requires
        -1 <= last < changes.len(),
        last >= 0 ==> told_options(changes[last]) is Some,
        forall|i: int| last < i < changes.len() ==> told_options(#[trigger] changes[i]) is None,
    ensures
        Some(start.after_all(changes).config_options) == (if last >= 0 {
            told_options(changes[last])
        } else {
            Some(start.config_options)
        }),
    decreases changes.len(),
{
    if changes.len() > 0 && last < changes.len() - 1 {
        let rest = changes.drop_last();
        assert(forall|i: int| 0 <= i < rest.len() ==> rest[i] == changes[i]);
        law_options_are_the_last_told(start, rest, last);
        assert(told_options(changes[changes.len() - 1]) is None);
    }
}

/// A change tells the session's models, all of them.
pub open spec fn tells_models(change: Change) -> bool {
    change matches Change::SessionOpened { models: Some(_), .. }
}

/// A change names the current model: a switch names its model, a session that tells its models the
/// one that it opened with.
pub open spec fn names_model(change: Change) -> bool {
    change is ModelSwitched || tells_models(change)
}

/// The models that a change tells.
pub open spec fn told_models(change: Change) -> Seq<ModelInfo>
    recommends
        tells_models(change),
{
    change->models->0.available_models
}

/// The current model that a change names.
pub open spec fn named_model(change: Change) -> Option<Seq<char>>
    recommends
        names_model(change),
{
    match change {
        Change::ModelSwitched(id) => Some(id),
        _ => change->models->0.current_model_id,
    }
}

/// What is known of the models is what was last told: the list is that of the last session that
/// told one (at `told`), and the current model is the one that the last change to name one has
/// named (at `named`). Where there was none (-1), it is what was known at first.
pub proof fn law_models_are_the_last_told(
    start: ConnectionView,
    changes: Seq<Change>,
    told: int,
    named: int,
)
    requires
        -1 <= told < changes.len(),
        -1 <= named < changes.len(),
        told >= 0 ==> tells_models(changes[told]),
        named >= 0 ==> names_model(changes[named]),
        forall|i: int| told < i < changes.len() ==> !tells_models(#[trigger] changes[i]),
        forall|i: int| named < i < changes.len() ==> !names_model(#[trigger] changes[i]),
    ensures
        start.after_all(changes).models == (ModelView {
            current_model_id: if named >= 0 {
                named_model(changes[named])
            } else {
                start.models.current_model_id
            },
            available_models: if told >= 0 {
                told_models(changes[told])
            } else {
                start.models.available_models
            },
        }),
    decreases changes.len(),
{
    if changes.len() > 0 {
        let rest = changes.drop_last();
        let last = changes.len() - 1;
        assert(forall|i: int| 0 <= i < rest.len() ==> rest[i] == changes[i]);
        assert(told < last ==> !tells_models(changes[last]));
        assert(named < last ==> !names_model(changes[last]));
        if told < last && named < last {
            law_models_are_the_last_told(start, rest, told, named);
        } else if told < last {
            let earlier = last_naming(rest);
            lemma_last_naming(rest);
            law_models_are_the_last_told(start, rest, told, earlier);
        }
    }
}

/// The last change that names a model, or -1.
spec fn last_naming(changes: Seq<Change>) -> int
    decreases changes.len(),
{
    if changes.len() == 0 {
        -1
    } else if names_model(changes.last()) {
        changes.len() - 1
    } else {
        last_naming(changes.drop_last())
    }
}

proof fn lemma_last_naming(changes: Seq<Change>)
    ensures
        -1 <= last_naming(changes) < changes.len(),
        last_naming(changes) >= 0 ==> names_model(changes[last_naming(changes)]),
        forall|i: int|
            last_naming(changes) < i < changes.len() ==> !names_model(#[trigger] changes[i]),
    decreases changes.len(),
{
    if changes.len() > 0 && !names_model(changes.last()) {
        let rest = changes.drop_last();
        lemma_last_naming(rest);
        assert(forall|i: int| 0 <= i < rest.len() ==> rest[i] == #[trigger] changes[i]);
    }
}

/// What the agent can do is settled by the initialization: nothing that comes later touches it.
pub proof fn law_capabilities_are_settled(
    start: ConnectionView,
    capabilities: AgentCapabilities,
    changes: Seq<Change>,
)
    requires
        forall|i: int| 0 <= i < changes.len() ==> !(#[trigger] changes[i] is Initialized),
    ensures
        start.after(Change::Initialized(capabilities)).after_all(changes).capabilities
            == capabilities,
    decreases changes.len(),
{
    if changes.len() > 0 {
        let rest = changes.drop_last();
        assert(forall|i: int| 0 <= i < rest.len() ==> rest[i] == changes[i]);
        law_capabilities_are_settled(start, capabilities, rest);
        assert(!(changes[changes.len() - 1] is Initialized));
    }
}

/// The view of what is known of the models shows it as it is, and what the agent tells is known as
/// it was told.
pub proof fn law_models_are_known_as_told(state: AcpModelState, models: SessionModelState)
    ensures
        state@.available_models == state.available_models@,
        state.current_model_id matches Some(id) ==> state@.current_model_id == Some(id@),
        state.current_model_id is None ==> state@.current_model_id is None,
        models.told().available_models == models.available_models@,
        models.told().current_model_id == Some(models.current_model_id@),
        optional_models(Some(models)) == Some(models.told()),
        optional_models(None) is None,
{
}

/// What each change does to what is known: the initialization settles the capabilities alone; a
/// session that opens brings its options, none if it tells none, and its models if it tells them;
/// a report of the options replaces these alone; a switch replaces the current model alone.
pub proof fn law_changes_touch_what_they_tell(
    known: ConnectionView,
    capabilities: AgentCapabilities,
    models: Option<ModelView>,
    told: Option<Seq<SessionConfigOption>>,
    options: Seq<SessionConfigOption>,
    id: Seq<char>,
)
    ensures
        ({
            let after = known.after(Change::Initialized(capabilities));
            &&& after.capabilities == capabilities
            &&& after.models == known.models
            &&& after.config_options == known.config_options
        }),
        ({
            let after = known.after(Change::SessionOpened { models, config_options: told });
            &&& after.capabilities == known.capabilities
            &&& models matches Some(models) ==> after.models == models
            &&& models is None ==> after.models == known.models
            &&& told matches Some(options) ==> after.config_options == options
            &&& told is None ==> after.config_options.len() == 0
        }),
        ({
            let after = known.after(Change::OptionsReported(options));
            &&& after.capabilities == known.capabilities
            &&& after.models == known.models
            &&& after.config_options == options
        }),
        ({
            let after = known.after(Change::ModelSwitched(id));
            &&& after.capabilities == known.capabilities
            &&& after.models.current_model_id == Some(id)
            &&& after.models.available_models == known.models.available_models
            &&& after.config_options == known.config_options
        }),
{
}

/// A connection opens knowing what the agent can do, and nothing of a session.
pub proof fn law_connections_open_without_a_session(capabilities: AgentCapabilities)
    ensures
        ConnectionView::opened(capabilities).capabilities == capabilities,
        ConnectionView::opened(capabilities).models.current_model_id is None,
        ConnectionView::opened(capabilities).models.available_models.len() == 0,
        ConnectionView::opened(capabilities).config_options.len() == 0,
{
}

/// Changes come one after the other.
pub proof fn law_changes_are_taken_one_by_one(
    known: ConnectionView,
    changes: Seq<Change>,
    change: Change,
)
    ensures
        known.after_all(Seq::empty()) == known,
        known.after_all(changes.push(change)) == known.after_all(changes).after(change),
{
    assert(changes.push(change).drop_last() =~= changes);
}

/// Each kind of change tells what it brings: a session its options, none if it names none, and its
/// models with the one that is current, if it names them; a report its options; a switch its
/// model.
pub proof fn law_changes_tell_what_they_bring(
    models: ModelView,
    options: Seq<SessionConfigOption>,
    id: Seq<char>,
    capabilities: AgentCapabilities,
)
    ensures
        told_options(
            Change::SessionOpened { models: Some(models), config_options: Some(options) },
        ) == Some(options),
        told_options(Change::SessionOpened { models: None, config_options: Some(options) }) == Some(
            options,
        ),
        told_options(Change::SessionOpened { models: None, config_options: None }) == Some(
            Seq::<SessionConfigOption>::empty(),
        ),
        told_options(Change::OptionsReported(options)) == Some(options),
        told_options(Change::ModelSwitched(id)) is None,
        told_options(Change::Initialized(capabilities)) is None,
        tells_models(
            Change::SessionOpened { models: Some(models), config_options: Some(options) },
        ),
        told_models(Change::SessionOpened { models: Some(models), config_options: Some(options) })
            == models.available_models,
        named_model(Change::SessionOpened { models: Some(models), config_options: Some(options) })
            == models.current_model_id,
        named_model(Change::ModelSwitched(id)) == Some(id),
        names_model(Change::ModelSwitched(id)) && !tells_models(Change::ModelSwitched(id)),
        !names_model(Change::OptionsReported(options)),
        !names_model(Change::SessionOpened { models: None, config_options: Some(options) }),
        optional_options(None) is None,
{
}

} // verus!
