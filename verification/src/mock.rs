//! A small agent to try the mux on: it answers the handshake, streams two
//! updates for each prompt, and can be told to ask for permissions, to show what
//! reached it, and to list sessions.

use crate::json;
use crate::json::{Json, JsonView};
use crate::protocol::jsonrpc::VERSION;
use crate::session::state;
use crate::session::state::{bumped, CANCEL_REQUEST_METHOD};
use crate::text;
use crate::text::{decimal, same_text, trim};
use vstd::prelude::*;

verus! {

/// What the agent is told to do.
#[derive(Debug)]
pub struct MockOptions {
    /// The session that `session/new` makes.
    pub session_id: String,
    /// A prompt asks for a permission first.
    pub emit_permission: bool,
    /// A prompt's answer is held back for so long.
    pub prompt_delay_ms: u64,
    /// Answers that reach the agent are shown.
    pub echo_responses: bool,
    /// Cancellations that reach the agent are shown.
    pub echo_cancels: bool,
    /// A permission is cancelled right after it was asked for.
    pub cancel_permission: bool,
    /// `session/list` is offered, and lists sessions.
    pub session_list: bool,
}

/// What the agent does.
#[derive(Debug)]
pub enum MockOutput {
    /// It writes a line.
    Line(Vec<u8>),
    /// It waits.
    Pause(u64),
}

/// The model of [`MockOutput`]; a line as its document.
#[verifier::ext_equal]
pub enum OutputView {
    Line(JsonView),
    Pause(u64),
}

impl MockOutput {
    /// Whether this is what the model says.
    pub open spec fn is(self, view: OutputView) -> bool {
        match (self, view) {
            (MockOutput::Line(line), OutputView::Line(document)) => line@ == json::json_text(
                document,
            ) && !line@.contains(10u8),
            (MockOutput::Pause(ms), OutputView::Pause(expected)) => ms == expected,
            _ => false,
        }
    }
}

/// Whether these are what the model says.
pub open spec fn outputs(found: Seq<MockOutput>, expected: Seq<OutputView>) -> bool {
    &&& found.len() == expected.len()
    &&& forall|i: int| 0 <= i < found.len() ==> (#[trigger] found[i]).is(expected[i])
}

/// The agent.
#[derive(Debug)]
pub struct MockAgent {
    pub options: MockOptions,
    pub initialize_count: u64,
    pub session_new_count: u64,
    pub prompt_count: u64,
    pub next_permission_id: u64,
    pub response_echo_count: u64,
    pub cancel_echo_count: u64,
}

/// The first permission has the number after this one.
pub const PERMISSIONS_FROM: u64 = 10_000;

/// The model of [`MockAgent`].
#[verifier::ext_equal]
pub struct MockView {
    pub session_id: Seq<char>,
    pub emit_permission: bool,
    pub prompt_delay_ms: u64,
    pub echo_responses: bool,
    pub echo_cancels: bool,
    pub cancel_permission: bool,
    pub session_list: bool,
    pub initialize_count: u64,
    pub session_new_count: u64,
    pub prompt_count: u64,
    pub next_permission_id: u64,
    pub response_echo_count: u64,
    pub cancel_echo_count: u64,
}

impl View for MockAgent {
    type V = MockView;

    open spec fn view(&self) -> MockView {
        MockView {
            session_id: self.options.session_id@,
            emit_permission: self.options.emit_permission,
            prompt_delay_ms: self.options.prompt_delay_ms,
            echo_responses: self.options.echo_responses,
            echo_cancels: self.options.echo_cancels,
            cancel_permission: self.options.cancel_permission,
            session_list: self.options.session_list,
            initialize_count: self.initialize_count,
            session_new_count: self.session_new_count,
            prompt_count: self.prompt_count,
            next_permission_id: self.next_permission_id,
            response_echo_count: self.response_echo_count,
            cancel_echo_count: self.cancel_echo_count,
        }
    }
}

/// A notification.
pub open spec fn notice_json(method: Seq<char>, params: JsonView) -> JsonView {
    JsonView::object()
        .field("jsonrpc"@, JsonView::String(VERSION@))
        .field("method"@, JsonView::String(method))
        .field("params"@, params)
}

fn notice(method: &str, params: Json) -> (json: Json)
    ensures
        json@ == notice_json(method@, params@),
{
    Json::object()
        .field("jsonrpc", Json::string(VERSION))
        .field("method", Json::string(method))
        .field("params", params)
}

/// An answer.
pub open spec fn answer_json(id: JsonView, result: JsonView) -> JsonView {
    JsonView::object()
        .field("jsonrpc"@, JsonView::String(VERSION@))
        .field("id"@, id)
        .field("result"@, result)
}

fn answer(id: Json, result: Json) -> (json: Json)
    ensures
        json@ == answer_json(id@, result@),
{
    Json::object()
        .field("jsonrpc", Json::string(VERSION))
        .field("id", id)
        .field("result", result)
}

/// The answer to `initialize`.
pub open spec fn initialize_json(invocation: u64, session_list: bool) -> JsonView {
    let plain = JsonView::object()
        .field("protocolVersion"@, JsonView::Int(1))
        .field("agentInfo"@, JsonView::object()
            .field("name"@, JsonView::String("mock-acp"@))
            .field("version"@, JsonView::String("0.0.1"@)))
        .field("_invocation"@, JsonView::Int(invocation as int));
    if session_list {
        plain.field(
            "agentCapabilities"@,
            JsonView::object().field(
                "sessionCapabilities"@,
                JsonView::object().field("list"@, JsonView::object()),
            ),
        )
    } else {
        plain
    }
}

fn initialize_result(invocation: u64, session_list: bool) -> (json: Json)
    ensures
        json@ == initialize_json(invocation, session_list),
{
    let plain = Json::object()
        .field("protocolVersion", Json::Unsigned(1))
        .field("agentInfo", Json::object()
            .field("name", Json::string("mock-acp"))
            .field("version", Json::string("0.0.1")))
        .field("_invocation", Json::Unsigned(invocation));
    if session_list {
        plain.field(
            "agentCapabilities",
            Json::object().field(
                "sessionCapabilities",
                Json::object().field("list", Json::object()),
            ),
        )
    } else {
        plain
    }
}

/// A session in a list.
pub open spec fn listed_json(
    id: Seq<char>,
    cwd: Seq<char>,
    title: Seq<char>,
    updated_at: Seq<char>,
) -> JsonView {
    JsonView::object()
        .field("sessionId"@, JsonView::String(id))
        .field("cwd"@, JsonView::String(cwd))
        .field("title"@, JsonView::String(title))
        .field("updatedAt"@, JsonView::String(updated_at))
}

fn listed(id: &str, cwd: &str, title: &str, updated_at: &str) -> (json: Json)
    ensures
        json@ == listed_json(id@, cwd@, title@, updated_at@),
{
    Json::object()
        .field("sessionId", Json::string(id))
        .field("cwd", Json::string(cwd))
        .field("title", Json::string(title))
        .field("updatedAt", Json::string(updated_at))
}

/// The sessions in a working directory, or all of them.
pub open spec fn list_json(session_id: Seq<char>, cwd: Option<Seq<char>>) -> JsonView {
    let here = seq![
        listed_json(session_id, "/tmp/mock"@, "Current mock session"@, "2026-05-22T12:00:00Z"@),
        listed_json("sess-archive-001"@, "/tmp/mock"@, "Previous run"@, "2026-05-21T18:00:00Z"@),
    ];
    let elsewhere = seq![
        listed_json("sess-archive-002"@, "/tmp/other"@, "Different cwd"@, "2026-05-20T09:00:00Z"@),
    ];
    let sessions = match cwd {
        None => here + elsewhere,
        Some(cwd) => if cwd == "/tmp/mock"@ {
            here
        } else if cwd == "/tmp/other"@ {
            elsewhere
        } else {
            Seq::empty()
        },
    };
    JsonView::object().field("sessions"@, JsonView::Array(sessions))
}

fn list_result(session_id: &str, cwd: Option<&str>) -> (json: Json)
    ensures
        json@ == list_json(session_id@, cwd.deep_view()),
{
    proof {
        reveal_strlit("/tmp/mock");
        reveal_strlit("/tmp/other");
        assert("/tmp/mock"@.len() == 9);
        assert("/tmp/other"@.len() == 10);
    }
    let (here, elsewhere) = match cwd {
        None => (true, true),
        Some(cwd) => (same_text(cwd, "/tmp/mock"), same_text(cwd, "/tmp/other")),
    };
    let mut sessions: Vec<Json> = Vec::new();
    if here {
        sessions.push(
            listed(session_id, "/tmp/mock", "Current mock session", "2026-05-22T12:00:00Z"),
        );
        sessions.push(
            listed("sess-archive-001", "/tmp/mock", "Previous run", "2026-05-21T18:00:00Z"),
        );
    }
    if elsewhere {
        sessions.push(
            listed("sess-archive-002", "/tmp/other", "Different cwd", "2026-05-20T09:00:00Z"),
        );
    }
    let json = Json::object().field("sessions", Json::array(sessions));
    assert(sessions.deep_view() =~= list_json(session_id@, cwd.deep_view()).get(
        "sessions"@,
    )->Some_0->Array_0) by {
        broadcast use crate::json::lemma_get_field;

    }
    proof {
        broadcast use crate::json::lemma_get_field;

    }
    json
}

/// A request for a permission.
pub open spec fn permission_json(number: u64, session: JsonView) -> JsonView {
    JsonView::object()
        .field("jsonrpc"@, JsonView::String(VERSION@))
        .field("id"@, JsonView::Int(number as int))
        .field("method"@, JsonView::String("session/request_permission"@))
        .field("params"@, JsonView::object()
            .field("sessionId"@, session)
            .field("toolCall"@, JsonView::object()
                .field("toolCallId"@, JsonView::String("mock-tool-"@ + text::decimal_of(
                    number as nat,
                )))
                .field("title"@, JsonView::String("demo_tool"@))
                .field("kind"@, JsonView::String("execute"@))
                .field("status"@, JsonView::String("pending"@)))
            .field("options"@, JsonView::Array(seq![
                option_json("allow_once"@, "allow_once"@, "Allow once"@),
                option_json("deny"@, "reject_once"@, "Deny"@),
            ])))
}

/// One way to answer a request for a permission.
pub open spec fn option_json(id: Seq<char>, kind: Seq<char>, name: Seq<char>) -> JsonView {
    JsonView::object()
        .field("optionId"@, JsonView::String(id))
        .field("kind"@, JsonView::String(kind))
        .field("name"@, JsonView::String(name))
}

fn option(id: &str, kind: &str, name: &str) -> (json: Json)
    ensures
        json@ == option_json(id@, kind@, name@),
{
    Json::object()
        .field("optionId", Json::string(id))
        .field("kind", Json::string(kind))
        .field("name", Json::string(name))
}

fn permission(number: u64, session: Json) -> (json: Json)
    ensures
        json@ == permission_json(number, session@),
{
    let mut tool_call_id = "mock-tool-".to_owned();
    let digits = decimal(number);
    tool_call_id.append(digits.as_str());
    let mut options: Vec<Json> = Vec::new();
    options.push(option("allow_once", "allow_once", "Allow once"));
    options.push(option("deny", "reject_once", "Deny"));
    assert(options.deep_view() =~= seq![
        option_json("allow_once"@, "allow_once"@, "Allow once"@),
        option_json("deny"@, "reject_once"@, "Deny"@),
    ]);
    Json::object()
        .field("jsonrpc", Json::string(VERSION))
        .field("id", Json::Unsigned(number))
        .field("method", Json::string("session/request_permission"))
        .field("params", Json::object()
            .field("sessionId", session)
            .field("toolCall", Json::object()
                .field("toolCallId", Json::string(tool_call_id.as_str()))
                .field("title", Json::string("demo_tool"))
                .field("kind", Json::string("execute"))
                .field("status", Json::string("pending")))
            .field("options", Json::array(options)))
}

/// A piece of the agent's message.
pub open spec fn chunk_json(session: JsonView, chunk: Seq<char>) -> JsonView {
    notice_json(
        "session/update"@,
        JsonView::object()
            .field("sessionId"@, session)
            .field("update"@, JsonView::object()
                .field("kind"@, JsonView::String("agent_message_chunk"@))
                .field("content"@, JsonView::object()
                    .field("type"@, JsonView::String("text"@))
                    .field("text"@, JsonView::String(chunk)))),
    )
}

fn chunk_update(session: Json, chunk: &str) -> (json: Json)
    ensures
        json@ == chunk_json(session@, chunk@),
{
    notice(
        "session/update",
        Json::object()
            .field("sessionId", session)
            .field("update", Json::object()
                .field("kind", Json::string("agent_message_chunk"))
                .field("content", Json::object()
                    .field("type", Json::string("text"))
                    .field("text", Json::string(chunk)))),
    )
}

impl MockView {
    /// The permission that a prompt asks for, and its cancellation.
    pub open spec fn permission_part(self, session: JsonView) -> (MockView, Seq<OutputView>) {
        if self.emit_permission {
            let number = state::bump(self.next_permission_id);
            let asked = seq![OutputView::Line(permission_json(number, session))];
            (
                MockView { next_permission_id: number, ..self },
                if self.cancel_permission {
                    asked.push(
                        OutputView::Line(
                            notice_json(
                                CANCEL_REQUEST_METHOD@,
                                JsonView::object().field("requestId"@, JsonView::Int(number as int)),
                            ),
                        ),
                    )
                } else {
                    asked
                },
            )
        } else {
            (self, Seq::empty())
        }
    }

    /// A prompt: perhaps a permission, two updates, perhaps a pause, and the
    /// answer.
    pub open spec fn prompt(self, id: JsonView, params: Option<JsonView>) -> (
        MockView,
        Seq<OutputView>,
    ) {
        let session = match params {
            Some(params) => match params.get("sessionId"@) {
                Some(session) => session,
                None => JsonView::String(self.session_id),
            },
            None => JsonView::String(self.session_id),
        };
        let count = state::bump(self.prompt_count);
        let (next, asked) = MockView { prompt_count: count, ..self }.permission_part(session);
        let streamed = asked.push(OutputView::Line(chunk_json(session, "hello "@))).push(
            OutputView::Line(chunk_json(session, "world"@)),
        );
        let waited = if self.prompt_delay_ms > 0 {
            streamed.push(OutputView::Pause(self.prompt_delay_ms))
        } else {
            streamed
        };
        (
            next,
            waited.push(
                OutputView::Line(
                    answer_json(
                        id,
                        JsonView::object()
                            .field("stopReason"@, JsonView::String("end_turn"@))
                            .field("_invocation"@, JsonView::Int(count as int)),
                    ),
                ),
            ),
        )
    }

    /// A request.
    pub open spec fn request(self, id: JsonView, method: Seq<char>, params: Option<JsonView>) -> (
        MockView,
        Seq<OutputView>,
    ) {
        if method == "initialize"@ {
            let count = state::bump(self.initialize_count);
            (
                MockView { initialize_count: count, ..self },
                seq![
                    OutputView::Line(answer_json(id, initialize_json(count, self.session_list))),
                ],
            )
        } else if method == "session/list"@ {
            let result = if self.session_list {
                list_json(
                    self.session_id,
                    match params {
                        Some(params) => params.get_str("cwd"@),
                        None => None,
                    },
                )
            } else {
                JsonView::object().field("sessions"@, JsonView::Array(Seq::empty()))
            };
            (self, seq![OutputView::Line(answer_json(id, result))])
        } else if method == "session/new"@ {
            let count = state::bump(self.session_new_count);
            (
                MockView { session_new_count: count, ..self },
                seq![
                    OutputView::Line(
                        answer_json(
                            id,
                            JsonView::object()
                                .field("sessionId"@, JsonView::String(self.session_id))
                                .field("_invocation"@, JsonView::Int(count as int)),
                        ),
                    ),
                ],
            )
        } else if method == "session/prompt"@ {
            self.prompt(id, params)
        } else {
            (self, seq![OutputView::Line(answer_json(id, JsonView::object()))])
        }
    }

    /// What shows that an answer or a cancellation came.
    pub open spec fn echo(method: Seq<char>, key: Seq<char>, id: JsonView, count: u64) -> OutputView {
        OutputView::Line(
            notice_json(
                method,
                JsonView::object().field(key, id).field("seq"@, JsonView::Int(count as int)),
            ),
        )
    }

    /// One frame.
    pub open spec fn frame(self, frame: JsonView) -> (MockView, Seq<OutputView>) {
        let method = match frame.get_str("method"@) {
            Some(method) => method,
            None => ""@,
        };
        let params = frame.get("params"@);
        match frame.get("id"@) {
            Some(id) => if method == ""@ {
                if self.echo_responses {
                    let count = state::bump(self.response_echo_count);
                    (
                        MockView { response_echo_count: count, ..self },
                        seq![MockView::echo("mock/response_echo"@, "id"@, id, count)],
                    )
                } else {
                    (self, Seq::empty())
                }
            } else {
                self.request(id, method, params)
            },
            None => if self.echo_cancels && method == CANCEL_REQUEST_METHOD@ {
                let count = state::bump(self.cancel_echo_count);
                let named = match params {
                    Some(params) => json::or_null(params.get("requestId"@)),
                    None => JsonView::Null,
                };
                (
                    MockView { cancel_echo_count: count, ..self },
                    seq![MockView::echo("mock/cancel_echo"@, "requestId"@, named, count)],
                )
            } else {
                (self, Seq::empty())
            },
        }
    }

    /// One line. White space around the document does not count, and what is no
    /// document is passed over.
    pub open spec fn line(self, line: Seq<char>) -> (MockView, Seq<OutputView>) {
        match json::json_document(vstd::utf8::encode_utf8(text::trimmed(line))) {
            Some(frame) => self.frame(frame),
            None => (self, Seq::empty()),
        }
    }
}

/// Writes one more line.
fn write(outs: &mut Vec<MockOutput>, document: Json, Ghost(expected): Ghost<Seq<OutputView>>)
    requires
        outputs(old(outs)@, expected),
    ensures
        outputs(final(outs)@, expected.push(OutputView::Line(document@))),
{
    outs.push(MockOutput::Line(document.to_vec()));
}

impl MockAgent {
    /// An agent that has seen nothing yet.
    pub fn new(options: MockOptions) -> (agent: MockAgent)
        ensures
            agent.options == options,
            agent@ == (MockView {
                session_id: options.session_id@,
                emit_permission: options.emit_permission,
                prompt_delay_ms: options.prompt_delay_ms,
                echo_responses: options.echo_responses,
                echo_cancels: options.echo_cancels,
                cancel_permission: options.cancel_permission,
                session_list: options.session_list,
                initialize_count: 0,
                session_new_count: 0,
                prompt_count: 0,
                next_permission_id: PERMISSIONS_FROM,
                response_echo_count: 0,
                cancel_echo_count: 0,
            }),
    {
        MockAgent {
            options,
            initialize_count: 0,
            session_new_count: 0,
            prompt_count: 0,
            next_permission_id: PERMISSIONS_FROM,
            response_echo_count: 0,
            cancel_echo_count: 0,
        }
    }

    fn prompt(&mut self, id: Json, params: Option<&Json>) -> (outs: Vec<MockOutput>)
        ensures
            final(self)@ == old(self)@.prompt(id@, params.deep_view()).0,
            outputs(outs@, old(self)@.prompt(id@, params.deep_view()).1),
    {
        let named = match params {
            Some(params) => params.get_owned("sessionId"),
            None => None,
        };
        let session = match named {
            Some(session) => session,
            None => Json::string(self.options.session_id.as_str()),
        };
        self.prompt_count = bumped(self.prompt_count);
        let mut outs: Vec<MockOutput> = Vec::new();
        let ghost mut expected: Seq<OutputView> = Seq::empty();
        if self.options.emit_permission {
            self.next_permission_id = bumped(self.next_permission_id);
            let number: u64 = self.next_permission_id;
            write(&mut outs, permission(number, session.clone()), Ghost(expected));
            proof {
                expected = expected.push(OutputView::Line(permission_json(number, session@)));
                assert(expected =~= seq![OutputView::Line(permission_json(number, session@))]);
            }
            if self.options.cancel_permission {
                let cancel = notice(
                    CANCEL_REQUEST_METHOD,
                    Json::object().field("requestId", Json::Unsigned(number)),
                );
                write(&mut outs, cancel, Ghost(expected));
                proof {
                    expected = expected.push(OutputView::Line(cancel@));
                }
            }
        }
        let hello = chunk_update(session.clone(), "hello ");
        write(&mut outs, hello, Ghost(expected));
        let world = chunk_update(session, "world");
        write(&mut outs, world, Ghost(expected.push(OutputView::Line(hello@))));
        proof {
            expected = expected.push(OutputView::Line(hello@)).push(OutputView::Line(world@));
        }
        if self.options.prompt_delay_ms > 0 {
            outs.push(MockOutput::Pause(self.options.prompt_delay_ms));
            proof {
                expected = expected.push(OutputView::Pause(self.options.prompt_delay_ms));
            }
        }
        let result = Json::object()
            .field("stopReason", Json::string("end_turn"))
            .field("_invocation", Json::Unsigned(self.prompt_count));
        write(&mut outs, answer(id, result), Ghost(expected));
        outs
    }

    fn request(&mut self, id: Json, method: &str, params: Option<&Json>) -> (outs: Vec<MockOutput>)
        ensures
            final(self)@ == old(self)@.request(id@, method@, params.deep_view()).0,
            outputs(outs@, old(self)@.request(id@, method@, params.deep_view()).1),
    {
        let result = if same_text(method, "initialize") {
            self.initialize_count = bumped(self.initialize_count);
            initialize_result(self.initialize_count, self.options.session_list)
        } else if same_text(method, "session/list") {
            if self.options.session_list {
                let cwd = match params {
                    Some(params) => params.get_str("cwd"),
                    None => None,
                };
                list_result(self.options.session_id.as_str(), cwd)
            } else {
                let none: Vec<Json> = Vec::new();
                assert(none.deep_view() =~= Seq::<JsonView>::empty());
                Json::object().field("sessions", Json::array(none))
            }
        } else if same_text(method, "session/new") {
            self.session_new_count = bumped(self.session_new_count);
            Json::object()
                .field("sessionId", Json::string(self.options.session_id.as_str()))
                .field("_invocation", Json::Unsigned(self.session_new_count))
        } else if same_text(method, "session/prompt") {
            return self.prompt(id, params);
        } else {
            Json::object()
        };
        let mut outs: Vec<MockOutput> = Vec::new();
        write(&mut outs, answer(id, result), Ghost(Seq::empty()));
        outs
    }

    fn echo(method: &str, key: &str, id: Json, count: u64) -> (outs: Vec<MockOutput>)
        ensures
            outputs(outs@, seq![MockView::echo(method@, key@, id@, count)]),
    {
        let shown = notice(
            method,
            Json::object().field(key, id).field("seq", Json::Unsigned(count)),
        );
        let mut outs: Vec<MockOutput> = Vec::new();
        write(&mut outs, shown, Ghost(Seq::empty()));
        outs
    }

    /// What the agent does about a line.
    pub fn line(&mut self, line: &str) -> (outs: Vec<MockOutput>)
        ensures
            final(self)@ == old(self)@.line(line@).0,
            outputs(outs@, old(self)@.line(line@).1),
    {
        let trimmed = trim(line);
        let frame = match Json::parse(trimmed.as_str().as_bytes()) {
            Ok(frame) => frame,
            Err(_) => {
                return Vec::new();
            },
        };
        let method = match frame.get_str("method") {
            Some(method) => method,
            None => "",
        };
        let params = frame.get("params");
        match frame.get_owned("id") {
            Some(id) => if same_text(method, "") {
                if self.options.echo_responses {
                    self.response_echo_count = bumped(self.response_echo_count);
                    Self::echo("mock/response_echo", "id", id, self.response_echo_count)
                } else {
                    Vec::new()
                }
            } else {
                self.request(id, method, params)
            },
            None => if self.options.echo_cancels && same_text(method, CANCEL_REQUEST_METHOD) {
                self.cancel_echo_count = bumped(self.cancel_echo_count);
                let named = match params {
                    Some(params) => params.get_owned("requestId"),
                    None => None,
                };
                let named = match named {
                    Some(named) => named,
                    None => Json::Null,
                };
                Self::echo("mock/cancel_echo", "requestId", named, self.cancel_echo_count)
            } else {
                Vec::new()
            },
        }
    }
}

/// Every request is answered: the last line that it leads to is the answer,
/// under the id of the request.
pub proof fn law_requests_are_answered(
    agent: MockView,
    id: JsonView,
    method: Seq<char>,
    params: Option<JsonView>,
)
    ensures
        agent.request(id, method, params).1.len() > 0,
        exists|result: JsonView|
            agent.request(id, method, params).1.last() == OutputView::Line(
                #[trigger] answer_json(id, result),
            ),
{
    let count = state::bump(agent.prompt_count);
    let stopped = JsonView::object().field("stopReason"@, JsonView::String("end_turn"@)).field(
        "_invocation"@,
        JsonView::Int(count as int),
    );
    assert(agent.prompt(id, params).1.last() == OutputView::Line(answer_json(id, stopped)));
}

/// What the agent answers goes under the id of the request, and what it tells has
/// none.
pub proof fn law_answers_and_notices_show(id: JsonView, result: JsonView, method: Seq<char>)
    ensures
        answer_json(id, result).get("jsonrpc"@) == Some(JsonView::String("2.0"@)),
        answer_json(id, result).get("id"@) == Some(id),
        answer_json(id, result).get("result"@) == Some(result),
        answer_json(id, result).get("method"@) is None,
        notice_json(method, result).get("jsonrpc"@) == Some(JsonView::String("2.0"@)),
        notice_json(method, result).get("method"@) == Some(JsonView::String(method)),
        notice_json(method, result).get("params"@) == Some(result),
        notice_json(method, result).get("id"@) is None,
{
    broadcast use json::lemma_get_field;

    crate::protocol::names::lemma_names();
    assert(JsonView::object().get("id"@) is None);
    assert(JsonView::object().get("method"@) is None);
}

/// The handshake is answered and counted: each answer says which one it is.
pub proof fn law_handshake_is_counted(agent: MockView, id: JsonView, params: Option<JsonView>)
    requires
        agent.initialize_count < u64::MAX,
        agent.session_new_count < u64::MAX,
    ensures
        ({
            let (after, told) = agent.request(id, "initialize"@, params);
            let result = initialize_json((agent.initialize_count + 1) as u64, agent.session_list);
            &&& told == seq![OutputView::Line(answer_json(id, result))]
            &&& after == (MockView {
                initialize_count: (agent.initialize_count + 1) as u64,
                ..agent
            })
            &&& result.get("protocolVersion"@) == Some(JsonView::Int(1))
            &&& result.get("_invocation"@) == Some(JsonView::Int(agent.initialize_count + 1))
            &&& result.get("agentInfo"@) is Some
            &&& result.get("agentInfo"@)->0.get("name"@) == Some(JsonView::String("mock-acp"@))
            &&& result.get("agentInfo"@)->0.get("version"@) == Some(JsonView::String("0.0.1"@))
            &&& !agent.session_list ==> result.get("agentCapabilities"@) is None
            &&& agent.session_list ==> {
                let offered = result.get("agentCapabilities"@)->0.get("sessionCapabilities"@);
                &&& result.get("agentCapabilities"@) is Some
                &&& offered is Some
                &&& offered->0.get("list"@) == Some(JsonView::object())
            }
        }),
        ({
            let (after, told) = agent.request(id, "session/new"@, params);
            let result = JsonView::object()
                .field("sessionId"@, JsonView::String(agent.session_id))
                .field("_invocation"@, JsonView::Int(agent.session_new_count + 1));
            &&& told == seq![OutputView::Line(answer_json(id, result))]
            &&& after == (MockView {
                session_new_count: (agent.session_new_count + 1) as u64,
                ..agent
            })
        }),
{
    broadcast use json::lemma_get_field;

    crate::protocol::names::lemma_names();
    assert(JsonView::object().get("agentCapabilities"@) is None);
}

/// The session that a prompt is about: the one that it names, or else the agent's
/// own.
pub open spec fn prompted(agent: MockView, params: Option<JsonView>) -> JsonView {
    if params is Some && params->0.get("sessionId"@) is Some {
        params->0.get("sessionId"@)->0
    } else {
        JsonView::String(agent.session_id)
    }
}

/// A prompt is answered with two pieces of a message and then with its end, after the
/// pause that was asked for; where a permission is to be asked for, that comes first,
/// under a new number, and where it is to be cancelled, its cancellation follows it.
pub proof fn law_prompt_is_answered(agent: MockView, id: JsonView, params: Option<JsonView>)
    requires
        agent.prompt_count < u64::MAX,
        agent.next_permission_id < u64::MAX,
    ensures
        ({
            let (after, told) = agent.request(id, "session/prompt"@, params);
            let session = prompted(agent, params);
            let number = (agent.next_permission_id + 1) as u64;
            let asked = if agent.emit_permission {
                seq![OutputView::Line(permission_json(number, session))]
            } else {
                Seq::empty()
            };
            let cancelled = if agent.emit_permission && agent.cancel_permission {
                seq![
                    OutputView::Line(
                        notice_json(
                            "$/cancel_request"@,
                            JsonView::object().field("requestId"@, JsonView::Int(number as int)),
                        ),
                    ),
                ]
            } else {
                Seq::empty()
            };
            let paused = if agent.prompt_delay_ms > 0 {
                seq![OutputView::Pause(agent.prompt_delay_ms)]
            } else {
                Seq::empty()
            };
            let end = answer_json(
                id,
                JsonView::object()
                    .field("stopReason"@, JsonView::String("end_turn"@))
                    .field("_invocation"@, JsonView::Int(agent.prompt_count + 1)),
            );
            &&& told == asked + cancelled + seq![
                OutputView::Line(chunk_json(session, "hello "@)),
                OutputView::Line(chunk_json(session, "world"@)),
            ] + paused + seq![OutputView::Line(end)]
            &&& after.prompt_count == agent.prompt_count + 1
            &&& after.next_permission_id == if agent.emit_permission {
                number
            } else {
                agent.next_permission_id
            }
        }),
{
    crate::protocol::names::lemma_names();
    let (after, told) = agent.request(id, "session/prompt"@, params);
    let session = prompted(agent, params);
    let number = (agent.next_permission_id + 1) as u64;
    let asked = if agent.emit_permission {
        seq![OutputView::Line(permission_json(number, session))]
    } else {
        Seq::empty()
    };
    let cancelled = if agent.emit_permission && agent.cancel_permission {
        seq![
            OutputView::Line(
                notice_json(
                    "$/cancel_request"@,
                    JsonView::object().field("requestId"@, JsonView::Int(number as int)),
                ),
            ),
        ]
    } else {
        Seq::empty()
    };
    let paused = if agent.prompt_delay_ms > 0 {
        seq![OutputView::Pause(agent.prompt_delay_ms)]
    } else {
        Seq::empty()
    };
    assert(told =~= asked + cancelled + seq![
        OutputView::Line(chunk_json(session, "hello "@)),
        OutputView::Line(chunk_json(session, "world"@)),
    ] + paused + seq![told.last()]);
}

/// A piece of a message and a request for a permission say of which session they are
/// and what they hold.
pub proof fn law_pieces_and_permissions_show(session: JsonView, chunk: Seq<char>, number: u64)
    ensures
        ({
            let piece = chunk_json(session, chunk);
            let params = piece.get("params"@)->0;
            let update = params.get("update"@)->0;
            let content = update.get("content"@)->0;
            &&& piece.get("method"@) == Some(JsonView::String("session/update"@))
            &&& params.get("sessionId"@) == Some(session)
            &&& update.get("kind"@) == Some(JsonView::String("agent_message_chunk"@))
            &&& content.get("type"@) == Some(JsonView::String("text"@))
            &&& content.get("text"@) == Some(JsonView::String(chunk))
        }),
        ({
            let asked = permission_json(number, session);
            let params = asked.get("params"@)->0;
            let call = params.get("toolCall"@)->0;
            &&& asked.get("id"@) == Some(JsonView::Int(number as int))
            &&& asked.get("method"@) == Some(JsonView::String("session/request_permission"@))
            &&& params.get("sessionId"@) == Some(session)
            &&& call.get("title"@) == Some(JsonView::String("demo_tool"@))
            &&& call.get("toolCallId"@) == Some(
                JsonView::String("mock-tool-"@ + text::decimal_of(number as nat)),
            )
            &&& params.get("options"@) == Some(
                JsonView::Array(
                    seq![
                        option_json("allow_once"@, "allow_once"@, "Allow once"@),
                        option_json("deny"@, "reject_once"@, "Deny"@),
                    ],
                ),
            )
        }),
{
    broadcast use json::lemma_get_field;

    crate::protocol::names::lemma_names();
}

/// A list of sessions holds those of the directory that is asked for, and all of them
/// where none is.
pub proof fn law_list_goes_by_directory(agent: MockView, cwd: Seq<char>)
    ensures
        ({
            let all = list_json(agent.session_id, None).get("sessions"@)->0->Array_0;
            let here = list_json(agent.session_id, Some(cwd)).get("sessions"@)->0->Array_0;
            &&& all.len() == 3
            &&& all[0].get("sessionId"@) == Some(JsonView::String(agent.session_id))
            &&& here == all.filter(
                |session: JsonView| session.get("cwd"@) == Some(JsonView::String(cwd)),
            )
        }),
{
    broadcast use json::lemma_get_field;

    crate::protocol::names::lemma_names();
    reveal_strlit("/tmp/mock");
    reveal_strlit("/tmp/other");
    assert("/tmp/mock"@.len() == 9 && "/tmp/other"@.len() == 10);
    let all = list_json(agent.session_id, None).get("sessions"@)->0->Array_0;
    let keep = |session: JsonView| session.get("cwd"@) == Some(JsonView::String(cwd));
    let (a, b, c) = (all[0], all[1], all[2]);
    assert(all =~= seq![a, b, c]);
    assert(a.get("cwd"@) == Some(JsonView::String("/tmp/mock"@)));
    assert(b.get("cwd"@) == Some(JsonView::String("/tmp/mock"@)));
    assert(c.get("cwd"@) == Some(JsonView::String("/tmp/other"@)));
    reveal(Seq::filter);
    reveal_with_fuel(Seq::filter, 4);
    assert(seq![a, b, c].drop_last() =~= seq![a, b]);
    assert(seq![a, b].drop_last() =~= seq![a]);
    assert(seq![a].drop_last() =~= Seq::empty());
    assert(list_json(agent.session_id, Some(cwd)).get("sessions"@)->0->Array_0 =~= all.filter(
        keep,
    ));
}

/// What is no request is shown where that is asked for, under the id that it names
/// and counted, and is otherwise passed over; so is what is no document.
pub proof fn law_what_is_no_request(agent: MockView, frame: JsonView, line: Seq<char>)
    requires
        agent.response_echo_count < u64::MAX,
        agent.cancel_echo_count < u64::MAX,
    ensures
        frame.get("id"@) is Some && frame.get("method"@) is None ==> {
            let (after, told) = agent.frame(frame);
            &&& !agent.echo_responses ==> after == agent && told.len() == 0
            &&& agent.echo_responses ==> told == seq![
                OutputView::Line(
                    notice_json(
                        "mock/response_echo"@,
                        JsonView::object().field("id"@, frame.get("id"@)->0).field(
                            "seq"@,
                            JsonView::Int(agent.response_echo_count + 1),
                        ),
                    ),
                ),
            ] && after.response_echo_count == agent.response_echo_count + 1
        },
        frame.get("id"@) is None && !(agent.echo_cancels && frame.get("method"@) == Some(
            JsonView::String("$/cancel_request"@),
        )) ==> agent.frame(frame) == (agent, Seq::<OutputView>::empty()),
        frame.get("id"@) is None && agent.echo_cancels && frame.get("method"@) == Some(
            JsonView::String("$/cancel_request"@),
        ) ==> {
            let (after, told) = agent.frame(frame);
            &&& after.cancel_echo_count == agent.cancel_echo_count + 1
            &&& told.len() == 1
            &&& frame.get("params"@) matches Some(params) ==> params.get("requestId"@) matches Some(
                named,
            ) ==> told[0] == OutputView::Line(
                notice_json(
                    "mock/cancel_echo"@,
                    JsonView::object().field("requestId"@, named).field(
                        "seq"@,
                        JsonView::Int(agent.cancel_echo_count + 1),
                    ),
                ),
            )
        },
        json::json_document(vstd::utf8::encode_utf8(text::trimmed(line))) is None ==> agent.line(
            line,
        ) == (agent, Seq::<OutputView>::empty()),
{
    crate::protocol::names::lemma_names();
    reveal_strlit("");
    reveal_strlit("$/cancel_request");
    assert("$/cancel_request"@.len() == 16);
}

/// A frame with an id and a method is a request, and any other request than those
/// that the agent knows is answered with an empty object.
pub proof fn law_other_requests_are_answered_empty(
    agent: MockView,
    frame: JsonView,
    id: JsonView,
    method: Seq<char>,
)
    requires
        frame.get("id"@) == Some(id),
        frame.get("method"@) == Some(JsonView::String(method)),
        method.len() > 0,
    ensures
        agent.frame(frame) == agent.request(id, method, frame.get("params"@)),
        method != "initialize"@ && method != "session/list"@ && method != "session/new"@ && method
            != "session/prompt"@ ==> agent.frame(frame) == (
            agent,
            seq![OutputView::Line(answer_json(id, JsonView::object()))],
        ),
{
    reveal_strlit("");
}

/// A request for the list of sessions is answered from the directory that it names,
/// where lists are offered, and with an empty list where they are not.
pub proof fn law_list_is_answered(agent: MockView, id: JsonView, params: Option<JsonView>)
    ensures
        ({
            let (after, told) = agent.request(id, "session/list"@, params);
            let cwd = match params {
                Some(params) => match params.get("cwd"@) {
                    Some(JsonView::String(cwd)) => Some(cwd),
                    _ => None,
                },
                None => None,
            };
            &&& after == agent
            &&& agent.session_list ==> told == seq![
                OutputView::Line(answer_json(id, list_json(agent.session_id, cwd))),
            ]
            &&& !agent.session_list ==> told == seq![
                OutputView::Line(
                    answer_json(
                        id,
                        JsonView::object().field("sessions"@, JsonView::Array(Seq::empty())),
                    ),
                ),
            ]
        }),
{
    crate::protocol::names::lemma_names();
}

} // verus!
