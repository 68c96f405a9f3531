//! The registry of rooms, and how the agent is asked for its sessions outside
//! any room.

use crate::cli::{ClientToolPolicy, ReplayTurns};
use crate::json;
use crate::json::{Json, JsonView};
use crate::protocol::jsonrpc::{
    ErrorView, Id, IdView, Incoming, IncomingView, JsonRpcError, ParseError, ParseErrorView,
    ResponseView, VERSION,
};
use crate::session::registry::{AgentCmd, RegistryView, SessionRegistry};
use crate::text;
use crate::text::integer;
use vstd::prelude::*;

verus! {

/// How long one line of the agent is waited for, and how long it may take to
/// stop, when it is asked for its sessions outside any room.
pub const CONTROL_PLANE_AGENT_TIMEOUT_SECONDS: u64 = 8;

/// How many lines of the agent are read for one answer.
pub const CONTROL_PLANE_MAX_LINES: u32 = 128;

/// Why the agent's sessions are not known.
#[derive(Debug)]
pub enum ControlPlaneSessionListError {
    AgentCmdMissing,
    /// The agent did not start or could not be written to, for the reason that
    /// the text gives.
    AgentProcess(String),
    Protocol(ParseError),
    AgentJsonRpc { code: i64, message: String, data: Option<Json> },
    AgentTimeout { method: &'static str },
    AgentEof { method: &'static str },
}

/// The model of [`ControlPlaneSessionListError`].
#[verifier::ext_equal]
pub enum ControlErrorView {
    AgentCmdMissing,
    AgentProcess(Seq<char>),
    Protocol(ParseErrorView),
    AgentJsonRpc(ErrorView),
    AgentTimeout(Seq<char>),
    AgentEof(Seq<char>),
}

impl View for ControlPlaneSessionListError {
    type V = ControlErrorView;

    open spec fn view(&self) -> ControlErrorView {
        match *self {
            ControlPlaneSessionListError::AgentCmdMissing => ControlErrorView::AgentCmdMissing,
            ControlPlaneSessionListError::AgentProcess(cause) => ControlErrorView::AgentProcess(
                cause@,
            ),
            ControlPlaneSessionListError::Protocol(error) => ControlErrorView::Protocol(error@),
            ControlPlaneSessionListError::AgentJsonRpc { code, message, data } =>
                ControlErrorView::AgentJsonRpc(
                ErrorView { code, message: message@, data: data.deep_view() },
            ),
            ControlPlaneSessionListError::AgentTimeout { method } => ControlErrorView::AgentTimeout(
                method@,
            ),
            ControlPlaneSessionListError::AgentEof { method } => ControlErrorView::AgentEof(
                method@,
            ),
        }
    }
}

impl ControlErrorView {
    /// What the error says of itself.
    pub open spec fn message(self) -> Seq<char> {
        match self {
            ControlErrorView::AgentCmdMissing => "agent command not configured"@,
            ControlErrorView::AgentProcess(cause) => "agent process failed: "@ + cause,
            ControlErrorView::Protocol(error) => "agent protocol parse failed: "@
                + error.message(),
            ControlErrorView::AgentJsonRpc(error) => "agent returned JSON-RPC error "@
                + text::integer_of(error.code as int) + ": "@ + error.message,
            ControlErrorView::AgentTimeout(method) => "agent did not respond to "@ + method
                + " before timeout"@,
            ControlErrorView::AgentEof(method) => "agent exited before responding to "@ + method,
        }
    }
}

impl ControlPlaneSessionListError {
    /// The error that the agent answered.
    pub fn from_agent(error: JsonRpcError) -> (failure: ControlPlaneSessionListError)
        ensures
            failure@ == ControlErrorView::AgentJsonRpc(error@),
    {
        ControlPlaneSessionListError::AgentJsonRpc {
            code: error.code,
            message: error.message,
            data: error.data,
        }
    }

    /// What the error says of itself.
    pub fn to_text(&self) -> (said: String)
        ensures
            said@ == self@.message(),
    {
        match self {
            ControlPlaneSessionListError::AgentCmdMissing =>
                "agent command not configured".to_owned(),
            ControlPlaneSessionListError::AgentProcess(cause) => {
                let mut said = "agent process failed: ".to_owned();
                said.append(cause.as_str());
                said
            },
            ControlPlaneSessionListError::Protocol(error) => {
                let mut said = "agent protocol parse failed: ".to_owned();
                let cause = error.to_text();
                said.append(cause.as_str());
                said
            },
            ControlPlaneSessionListError::AgentJsonRpc { code, message, .. } => {
                let mut said = "agent returned JSON-RPC error ".to_owned();
                let number = integer(*code);
                said.append(number.as_str());
                said.append(": ");
                said.append(message.as_str());
                said
            },
            ControlPlaneSessionListError::AgentTimeout { method } => {
                let mut said = "agent did not respond to ".to_owned();
                said.append(method);
                said.append(" before timeout");
                said
            },
            ControlPlaneSessionListError::AgentEof { method } => {
                let mut said = "agent exited before responding to ".to_owned();
                said.append(method);
                said
            },
        }
    }
}

/// What the agent is being asked.
#[derive(Debug, Clone, Copy, PartialEq, Eq, Structural)]
pub enum QueryStage {
    Initialize,
    List,
}

impl QueryStage {
    /// The method of the request.
    pub open spec fn method(self) -> Seq<char> {
        match self {
            QueryStage::Initialize => "initialize"@,
            QueryStage::List => "session/list"@,
        }
    }

    /// The id of the request.
    pub open spec fn id(self) -> i64 {
        match self {
            QueryStage::Initialize => 1,
            QueryStage::List => 2,
        }
    }

    /// The request.
    pub open spec fn request(self, cwd: Option<Seq<char>>) -> JsonView {
        JsonView::object()
            .field("jsonrpc"@, JsonView::String(VERSION@))
            .field("id"@, JsonView::Int(self.id() as int))
            .field("method"@, JsonView::String(self.method()))
            .field_opt("params"@, match self {
                QueryStage::Initialize => Some(
                    JsonView::object().field("protocolVersion"@, JsonView::Int(1)),
                ),
                QueryStage::List => match cwd {
                    Some(cwd) => Some(JsonView::object().field("cwd"@, JsonView::String(cwd))),
                    None => None,
                },
            })
    }

    fn method_name(self) -> (name: &'static str)
        ensures
            name@ == self.method(),
    {
        match self {
            QueryStage::Initialize => "initialize",
            QueryStage::List => "session/list",
        }
    }

    fn request_id(self) -> (id: i64)
        ensures
            id == self.id(),
    {
        match self {
            QueryStage::Initialize => 1,
            QueryStage::List => 2,
        }
    }

    fn request_frame(self, cwd: &Option<String>) -> (frame: Vec<u8>)
        ensures
            frame@ == json::json_text(self.request(cwd.deep_view())),
            !frame@.contains(10u8),
    {
        let params = match self {
            QueryStage::Initialize => Some(
                Json::object().field("protocolVersion", Json::Unsigned(1)),
            ),
            QueryStage::List => match cwd {
                Some(cwd) => Some(Json::object().field("cwd", Json::string(cwd))),
                None => None,
            },
        };
        let request = Json::object()
            .field("jsonrpc", Json::string(VERSION))
            .field("id", Json::Unsigned(self.request_id() as u64))
            .field("method", Json::string(self.method_name()))
            .field_opt("params", params);
        request.to_vec()
    }
}

/// What happens while the agent is asked.
#[derive(Debug)]
pub enum QueryEvent {
    Line(Vec<u8>),
    /// No line came in time.
    Timeout,
    /// The agent is gone.
    Eof,
}

/// The model of [`QueryEvent`].
#[verifier::ext_equal]
pub enum QueryEventView {
    Line(Seq<u8>),
    Timeout,
    Eof,
}

impl View for QueryEvent {
    type V = QueryEventView;

    open spec fn view(&self) -> QueryEventView {
        match *self {
            QueryEvent::Line(line) => QueryEventView::Line(line@),
            QueryEvent::Timeout => QueryEventView::Timeout,
            QueryEvent::Eof => QueryEventView::Eof,
        }
    }
}

/// What is to be done next.
#[derive(Debug)]
pub enum QueryStep {
    /// Wait for a line.
    Wait,
    /// Write this to the agent, then wait for a line.
    Send(Vec<u8>),
    /// The agent answered this.
    Done(Json),
    Failed(ControlPlaneSessionListError),
}

/// The model of [`QueryStep`].
#[verifier::ext_equal]
pub enum QueryStepView {
    Wait,
    Send(Seq<u8>),
    Done(JsonView),
    Failed(ControlErrorView),
}

impl View for QueryStep {
    type V = QueryStepView;

    open spec fn view(&self) -> QueryStepView {
        match *self {
            QueryStep::Wait => QueryStepView::Wait,
            QueryStep::Send(frame) => QueryStepView::Send(frame@),
            QueryStep::Done(result) => QueryStepView::Done(result@),
            QueryStep::Failed(error) => QueryStepView::Failed(error@),
        }
    }
}

/// Asking an agent for its sessions: `initialize`, then `session/list`.
#[derive(Debug)]
pub struct ControlPlaneQuery {
    pub stage: QueryStage,
    pub cwd: Option<String>,
    /// How many lines came since the last request that did not answer it.
    pub lines: u32,
}

/// The model of [`ControlPlaneQuery`].
#[verifier::ext_equal]
pub struct QueryView {
    pub stage: QueryStage,
    pub cwd: Option<Seq<char>>,
    pub lines: u32,
}

impl View for ControlPlaneQuery {
    type V = QueryView;

    open spec fn view(&self) -> QueryView {
        QueryView { stage: self.stage, cwd: self.cwd.deep_view(), lines: self.lines }
    }
}

impl QueryView {
    /// A line that does not answer the request. Only so many are read.
    pub open spec fn passed_over(self) -> (QueryView, QueryStepView) {
        if self.lines + 1 >= CONTROL_PLANE_MAX_LINES {
            (self, QueryStepView::Failed(ControlErrorView::AgentTimeout(self.stage.method())))
        } else {
            (QueryView { lines: (self.lines + 1) as u32, ..self }, QueryStepView::Wait)
        }
    }

    /// The answer to the request.
    pub open spec fn answered(self, result: Option<JsonView>, error: Option<ErrorView>) -> (
        QueryView,
        QueryStepView,
    ) {
        match error {
            Some(error) => (self, QueryStepView::Failed(ControlErrorView::AgentJsonRpc(error))),
            None => match self.stage {
                QueryStage::Initialize => (
                    QueryView { stage: QueryStage::List, lines: 0, ..self },
                    QueryStepView::Send(json::json_text(QueryStage::List.request(self.cwd))),
                ),
                QueryStage::List => (self, QueryStepView::Done(json::or_null(result))),
            },
        }
    }

    /// One event. Lines that are no answer to the request are passed over; a
    /// line that cannot be read ends the query.
    pub open spec fn step(self, event: QueryEventView) -> (QueryView, QueryStepView) {
        match event {
            QueryEventView::Timeout => (
                self,
                QueryStepView::Failed(ControlErrorView::AgentTimeout(self.stage.method())),
            ),
            QueryEventView::Eof => (
                self,
                QueryStepView::Failed(ControlErrorView::AgentEof(self.stage.method())),
            ),
            QueryEventView::Line(line) => match IncomingView::read(line) {
                Err(error) => (self, QueryStepView::Failed(ControlErrorView::Protocol(error))),
                Ok(IncomingView::Response(response)) => if response.id == IdView::Number(
                    self.stage.id(),
                ) {
                    self.answered(response.result, response.error)
                } else {
                    self.passed_over()
                },
                Ok(_) => self.passed_over(),
            },
        }
    }
}

impl ControlPlaneQuery {
    /// Begins: the query, and the first frame to write to the agent.
    pub fn start(cwd: Option<String>) -> (begun: (ControlPlaneQuery, Vec<u8>))
        ensures
            begun.0@ == (QueryView {
                stage: QueryStage::Initialize,
                cwd: cwd.deep_view(),
                lines: 0,
            }),
            begun.1@ == json::json_text(QueryStage::Initialize.request(cwd.deep_view())),
            !begun.1@.contains(10u8),
    {
        let frame = QueryStage::Initialize.request_frame(&cwd);
        (ControlPlaneQuery { stage: QueryStage::Initialize, cwd, lines: 0 }, frame)
    }

    fn pass_over(&mut self) -> (step: QueryStep)
        ensures
            final(self)@ == old(self)@.passed_over().0,
            step@ == old(self)@.passed_over().1,
    {
        if self.lines >= CONTROL_PLANE_MAX_LINES - 1 {
            QueryStep::Failed(
                ControlPlaneSessionListError::AgentTimeout { method: self.stage.method_name() },
            )
        } else {
            self.lines = self.lines + 1;
            QueryStep::Wait
        }
    }

    fn take_answer(&mut self, result: Option<Json>, error: Option<JsonRpcError>) -> (step: QueryStep)
        ensures
            final(self)@ == old(self)@.answered(
                result.deep_view(),
                match error {
                    Some(error) => Some(error@),
                    None => None,
                },
            ).0,
            step@ == old(self)@.answered(
                result.deep_view(),
                match error {
                    Some(error) => Some(error@),
                    None => None,
                },
            ).1,
    {
        match error {
            Some(error) => QueryStep::Failed(ControlPlaneSessionListError::from_agent(error)),
            None => match self.stage {
                QueryStage::Initialize => {
                    self.stage = QueryStage::List;
                    self.lines = 0;
                    QueryStep::Send(QueryStage::List.request_frame(&self.cwd))
                },
                QueryStage::List => match result {
                    Some(result) => QueryStep::Done(result),
                    None => QueryStep::Done(Json::Null),
                },
            },
        }
    }

    /// Goes on after an event.
    pub fn step(&mut self, event: QueryEvent) -> (step: QueryStep)
        ensures
            final(self)@ == old(self)@.step(event@).0,
            step@ == old(self)@.step(event@).1,
    {
        match event {
            QueryEvent::Timeout => QueryStep::Failed(
                ControlPlaneSessionListError::AgentTimeout { method: self.stage.method_name() },
            ),
            QueryEvent::Eof => QueryStep::Failed(
                ControlPlaneSessionListError::AgentEof { method: self.stage.method_name() },
            ),
            QueryEvent::Line(line) => match Incoming::parse(&line) {
                Err(error) => QueryStep::Failed(ControlPlaneSessionListError::Protocol(error)),
                Ok(Incoming::Response(response)) => {
                    let expected = Id::Number(self.stage.request_id());
                    if response.id.same(&expected) {
                        self.take_answer(response.result, response.error)
                    } else {
                        self.pass_over()
                    }
                },
                Ok(_) => self.pass_over(),
            },
        }
    }
}

/// The query ends: every event either ends it, moves on to the second request,
/// or uses up one of the lines that may be passed over.
pub proof fn law_query_ends(query: QueryView, event: QueryEventView)
    requires
        query.lines < CONTROL_PLANE_MAX_LINES,
    ensures
        ({
            let (next, step) = query.step(event);
            match step {
                QueryStepView::Done(_) | QueryStepView::Failed(_) => true,
                QueryStepView::Send(_) => query.stage is Initialize && next.stage is List
                    && next.lines == 0,
                QueryStepView::Wait => next.stage == query.stage && next.lines == query.lines + 1
                    && next.lines < CONTROL_PLANE_MAX_LINES,
            }
        }),
{
}

/// The rooms there are, and how new ones are run.
#[derive(Debug)]
pub struct RoomRegistry {
    pub sessions: SessionRegistry,
    pub client_tool_policy: ClientToolPolicy,
    pub emit_segment_frames: bool,
    pub hermes_compaction_signals: bool,
}

impl RoomRegistry {
    /// A registry without rooms: nothing is traced, client tools are refused,
    /// segments are told.
    pub fn new(
        agent_cmd: Option<AgentCmd>,
        replay_policy: ReplayTurns,
        session_ttl: std::time::Duration,
    ) -> (registry: RoomRegistry)
        ensures
            registry.sessions.agent_cmd == agent_cmd,
            registry.sessions.replay_policy == replay_policy,
            registry.sessions.session_ttl == session_ttl,
            !registry.sessions.meta_propagate,
            registry.sessions@ == RegistryView::empty(),
            registry.client_tool_policy.fs is Block,
            registry.client_tool_policy.terminal is Block,
            registry.emit_segment_frames,
            !registry.hermes_compaction_signals,
    {
        Self::new_with_meta_propagation(agent_cmd, replay_policy, session_ttl, false)
    }

    /// A registry without rooms that says whether requests are traced.
    pub fn new_with_meta_propagation(
        agent_cmd: Option<AgentCmd>,
        replay_policy: ReplayTurns,
        session_ttl: std::time::Duration,
        meta_propagate: bool,
    ) -> (registry: RoomRegistry)
        ensures
            registry.sessions.agent_cmd == agent_cmd,
            registry.sessions.replay_policy == replay_policy,
            registry.sessions.session_ttl == session_ttl,
            registry.sessions.meta_propagate == meta_propagate,
            registry.sessions@ == RegistryView::empty(),
            registry.client_tool_policy.fs is Block,
            registry.client_tool_policy.terminal is Block,
            registry.emit_segment_frames,
            !registry.hermes_compaction_signals,
    {
        Self::new_with_client_tool_policy(
            agent_cmd,
            replay_policy,
            session_ttl,
            meta_propagate,
            ClientToolPolicy::default(),
        )
    }

    /// A registry without rooms that says how client tools are treated.
    pub fn new_with_client_tool_policy(
        agent_cmd: Option<AgentCmd>,
        replay_policy: ReplayTurns,
        session_ttl: std::time::Duration,
        meta_propagate: bool,
        client_tool_policy: ClientToolPolicy,
    ) -> (registry: RoomRegistry)
        ensures
            registry.sessions.agent_cmd == agent_cmd,
            registry.sessions.replay_policy == replay_policy,
            registry.sessions.session_ttl == session_ttl,
            registry.sessions.meta_propagate == meta_propagate,
            registry.sessions@ == RegistryView::empty(),
            registry.client_tool_policy == client_tool_policy,
            registry.emit_segment_frames,
            !registry.hermes_compaction_signals,
    {
        Self::new_with_options(
            agent_cmd,
            replay_policy,
            session_ttl,
            meta_propagate,
            client_tool_policy,
            true,
        )
    }

    /// A registry without rooms that says whether segments are told.
    pub fn new_with_options(
        agent_cmd: Option<AgentCmd>,
        replay_policy: ReplayTurns,
        session_ttl: std::time::Duration,
        meta_propagate: bool,
        client_tool_policy: ClientToolPolicy,
        emit_segment_frames: bool,
    ) -> (registry: RoomRegistry)
        ensures
            registry.sessions.agent_cmd == agent_cmd,
            registry.sessions.replay_policy == replay_policy,
            registry.sessions.session_ttl == session_ttl,
            registry.sessions.meta_propagate == meta_propagate,
            registry.sessions@ == RegistryView::empty(),
            registry.client_tool_policy == client_tool_policy,
            registry.emit_segment_frames == emit_segment_frames,
            !registry.hermes_compaction_signals,
    {
        Self::new_full(
            agent_cmd,
            replay_policy,
            session_ttl,
            meta_propagate,
            client_tool_policy,
            emit_segment_frames,
            false,
        )
    }

    /// A registry without rooms.
    pub fn new_full(
        agent_cmd: Option<AgentCmd>,
        replay_policy: ReplayTurns,
        session_ttl: std::time::Duration,
        meta_propagate: bool,
        client_tool_policy: ClientToolPolicy,
        emit_segment_frames: bool,
        hermes_compaction_signals: bool,
    ) -> (registry: RoomRegistry)
        ensures
            registry.sessions.agent_cmd == agent_cmd,
            registry.sessions.replay_policy == replay_policy,
            registry.sessions.session_ttl == session_ttl,
            registry.sessions.meta_propagate == meta_propagate,
            registry.sessions@ == RegistryView::empty(),
            registry.client_tool_policy == client_tool_policy,
            registry.emit_segment_frames == emit_segment_frames,
            registry.hermes_compaction_signals == hermes_compaction_signals,
    {
        RoomRegistry {
            sessions: SessionRegistry::new_with_meta_propagation(
                agent_cmd,
                replay_policy,
                session_ttl,
                meta_propagate,
            ),
            client_tool_policy,
            emit_segment_frames,
            hermes_compaction_signals,
        }
    }

    /// Begins to ask an agent for its sessions, outside any room: the command
    /// that starts the agent, the query, and the first frame to write.
    pub fn list_sessions_control_plane(&self, cwd: Option<String>) -> (begun: Result<
        (&AgentCmd, ControlPlaneQuery, Vec<u8>),
        ControlPlaneSessionListError,
    >)
        ensures
            match begun {
                Ok((command, query, frame)) => {
                    &&& self.sessions.agent_cmd == Some(*command)
                    &&& query@ == (QueryView {
                        stage: QueryStage::Initialize,
                        cwd: cwd.deep_view(),
                        lines: 0,
                    })
                    &&& frame@ == json::json_text(
                        QueryStage::Initialize.request(cwd.deep_view()),
                    )
                    &&& !frame@.contains(10u8)
                },
                Err(error) => self.sessions.agent_cmd is None && error is AgentCmdMissing,
            },
    {
        match &self.sessions.agent_cmd {
            Some(command) => {
                let (query, frame) = ControlPlaneQuery::start(cwd);
                Ok((command, query, frame))
            },
            None => Err(ControlPlaneSessionListError::AgentCmdMissing),
        }
    }
}

/// The agent is asked twice, under ids of their own: first to initialize, then for
/// its sessions, in the directory that is asked for where one is.
pub proof fn law_agent_is_asked_for_its_sessions(cwd: Option<Seq<char>>)
    ensures
        ({
            let first = QueryStage::Initialize.request(cwd);
            let second = QueryStage::List.request(cwd);
            &&& first.get("jsonrpc"@) == Some(JsonView::String("2.0"@))
            &&& first.get("id"@) == Some(JsonView::Int(1))
            &&& first.get("method"@) == Some(JsonView::String("initialize"@))
            &&& first.get("params"@) matches Some(params) && params.get("protocolVersion"@)
                == Some(JsonView::Int(1))
            &&& second.get("jsonrpc"@) == Some(JsonView::String("2.0"@))
            &&& second.get("id"@) == Some(JsonView::Int(2))
            &&& second.get("method"@) == Some(JsonView::String("session/list"@))
            &&& cwd is None ==> second.get("params"@) is None
            &&& cwd matches Some(cwd) ==> {
                &&& second.get("params"@) is Some
                &&& second.get("params"@)->0.get("cwd"@) == Some(JsonView::String(cwd))
            }
        }),
{
    broadcast use json::lemma_get_field;

    crate::protocol::names::lemma_names();
    assert(JsonView::object().get("params"@) is None);
}

/// Only the answer to the request moves the query on: a good one to the first is
/// followed by the second, a good one to the second is what was asked for, as the
/// agent gave it, and an error ends it.
pub proof fn law_answers_move_the_query_on(
    query: QueryView,
    line: Seq<u8>,
    result: Option<JsonView>,
    error: ErrorView,
)
    ensures
        ({
            let (next, step) = query.step(QueryEventView::Line(line));
            let answered = |error: Option<ErrorView>|
                IncomingView::read(line) == Ok::<_, ParseErrorView>(
                    IncomingView::Response(
                        ResponseView {
                            id: IdView::Number(if query.stage is Initialize {
                                1
                            } else {
                                2
                            }),
                            result,
                            error,
                        },
                    ),
                );
            &&& answered(None) && query.stage is Initialize ==> step == QueryStepView::Send(
                json::json_text(QueryStage::List.request(query.cwd)),
            ) && next.stage is List
            &&& answered(None) && query.stage is List ==> step == QueryStepView::Done(
                match result {
                    Some(result) => result,
                    None => JsonView::Null,
                },
            )
            &&& answered(Some(error)) ==> step == QueryStepView::Failed(
                ControlErrorView::AgentJsonRpc(error),
            )
        }),
{
}

/// Whatever else the agent says is passed over, until so much has come that it is
/// taken to be silent. A line that cannot be read, a silent agent and one that is
/// gone end the query, and it says which.
pub proof fn law_other_lines_are_passed_over(query: QueryView, line: Seq<u8>)
    requires
        query.lines < 128,
    ensures
        ({
            let (next, step) = query.step(QueryEventView::Line(line));
            let own = if query.stage is Initialize {
                1i64
            } else {
                2i64
            };
            let other = match IncomingView::read(line) {
                Ok(IncomingView::Response(response)) => response.id != IdView::Number(own),
                Ok(_) => true,
                Err(_) => false,
            };
            &&& other && query.lines < 127 ==> step is Wait && next.lines == query.lines + 1
                && next.stage == query.stage && next.cwd == query.cwd
            &&& other && query.lines == 127 ==> step == QueryStepView::Failed(
                ControlErrorView::AgentTimeout(query.stage.method()),
            )
            &&& IncomingView::read(line) matches Err(error) ==> step == QueryStepView::Failed(
                ControlErrorView::Protocol(error),
            )
        }),
        query.step(QueryEventView::Timeout).1 == QueryStepView::Failed(
            ControlErrorView::AgentTimeout(
                if query.stage is Initialize {
                    "initialize"@
                } else {
                    "session/list"@
                },
            ),
        ),
        query.step(QueryEventView::Eof).1 == QueryStepView::Failed(
            ControlErrorView::AgentEof(
                if query.stage is Initialize {
                    "initialize"@
                } else {
                    "session/list"@
                },
            ),
        ),
{
}

/// Each failure says what failed.
pub proof fn law_failures_say_what_failed(
    cause: Seq<char>,
    error: ErrorView,
    parse: ParseErrorView,
)
    ensures
        ControlErrorView::AgentCmdMissing.message() == "agent command not configured"@,
        ControlErrorView::AgentProcess(cause).message() == "agent process failed: "@ + cause,
        ControlErrorView::Protocol(parse).message() == "agent protocol parse failed: "@
            + parse.message(),
        ControlErrorView::AgentJsonRpc(error).message() == "agent returned JSON-RPC error "@
            + text::integer_of(error.code as int) + ": "@ + error.message,
        ControlErrorView::AgentTimeout(cause).message() == "agent did not respond to "@ + cause
            + " before timeout"@,
        ControlErrorView::AgentEof(cause).message() == "agent exited before responding to "@
            + cause,
{
}

} // verus!
