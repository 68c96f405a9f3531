//! What the HTTP and WebSocket surface decides: who may attach, what a refusal
//! is answered, what the control plane replies.

use crate::agent::lines;
use crate::agent::lines::chop_line_end;
use crate::json;
use crate::json::{Json, JsonView};
use crate::multiplex::subscriber::Subscriber;
use crate::multiplex::subscriber::SubscriberView;
use crate::protocol::attach::ReplayOrder;
use crate::room::registry::{ControlErrorView, ControlPlaneSessionListError};
use crate::session::registry::RegistryError;
use crate::session::snapshot::SessionSnapshot;
use crate::session::turn::text_ref;
use crate::text::{chars_of, same_text};
use vstd::prelude::*;

verus! {

/// The longest session id.
pub const SESSION_ID_MAX_LEN: usize = 128;

/// The close code for a query that cannot be used.
pub const CLOSE_CODE_BAD_QUERY: u16 = 4400;

/// The close code for a peer id that is taken.
pub const CLOSE_CODE_PEER_CONFLICT: u16 = 4409;

/// The close code for a session that cannot be brought up.
pub const CLOSE_CODE_INTERNAL: u16 = 1011;

/// The HTTP status of a gateway whose other side failed.
pub const STATUS_BAD_GATEWAY: u16 = 502;

/// The HTTP status of a service that is not there.
pub const STATUS_SERVICE_UNAVAILABLE: u16 = 503;

/// What the query of an attach says.
#[derive(Debug)]
pub struct AttachQuery {
    pub session: Option<String>,
    pub peer_id: Option<String>,
    pub peer_name: Option<String>,
    pub role: Option<String>,
    pub replay_order: Option<String>,
}

/// What the query for an agent's sessions says.
#[derive(Debug)]
pub struct SessionDiscoveryQuery {
    pub cwd: Option<String>,
}

/// An attach whose query can be used.
#[derive(Debug)]
pub struct ValidatedAttach {
    pub session: String,
    pub peer_id: String,
    pub peer_name: Option<String>,
    pub role: Option<String>,
    pub replay_order: ReplayOrder,
}

/// The model of [`AttachQuery`].
#[verifier::ext_equal]
pub struct AttachQueryView {
    pub session: Option<Seq<char>>,
    pub peer_id: Option<Seq<char>>,
    pub peer_name: Option<Seq<char>>,
    pub role: Option<Seq<char>>,
    pub replay_order: Option<Seq<char>>,
}

impl View for AttachQuery {
    type V = AttachQueryView;

    open spec fn view(&self) -> AttachQueryView {
        AttachQueryView {
            session: self.session.deep_view(),
            peer_id: self.peer_id.deep_view(),
            peer_name: self.peer_name.deep_view(),
            role: self.role.deep_view(),
            replay_order: self.replay_order.deep_view(),
        }
    }
}

/// The model of [`ValidatedAttach`].
#[verifier::ext_equal]
pub struct ValidatedView {
    pub session: Seq<char>,
    pub peer_id: Seq<char>,
    pub peer_name: Option<Seq<char>>,
    pub role: Option<Seq<char>>,
    pub replay_order: ReplayOrder,
}

impl View for ValidatedAttach {
    type V = ValidatedView;

    open spec fn view(&self) -> ValidatedView {
        ValidatedView {
            session: self.session@,
            peer_id: self.peer_id@,
            peer_name: self.peer_name.deep_view(),
            role: self.role.deep_view(),
            replay_order: self.replay_order,
        }
    }
}

/// The characters of session ids.
pub open spec fn session_id_char(c: char) -> bool {
    'A' <= c <= 'Z' || 'a' <= c <= 'z' || '0' <= c <= '9' || c == '_' || c == '-'
}

/// Whether a text can be a session id: `^[A-Za-z0-9_-]{1,128}$`.
pub open spec fn session_id_ok(s: Seq<char>) -> bool {
    &&& 1 <= s.len() <= SESSION_ID_MAX_LEN
    &&& forall|i: int| 0 <= i < s.len() ==> session_id_char(#[trigger] s[i])
}

/// Whether a text can be a session id: `^[A-Za-z0-9_-]{1,128}$`.
pub fn is_valid_session_id(s: &str) -> (ok: bool)
    ensures
        ok == session_id_ok(s@),
{
    let chars = chars_of(s);
    if chars.len() == 0 || chars.len() > SESSION_ID_MAX_LEN {
        return false;
    }
    let mut at: usize = 0;
    while at < chars.len()
        invariant
            at <= chars@.len(),
            chars@ == s@,
            forall|i: int| 0 <= i < at ==> session_id_char(#[trigger] chars@[i]),
        decreases chars@.len() - at,
    {
        let c = chars[at];
        if !('A' <= c && c <= 'Z' || 'a' <= c && c <= 'z' || '0' <= c && c <= '9' || c == '_' || c
            == '-') {
            return false;
        }
        at += 1;
    }
    true
}

/// The order that a query asks for. None, or an empty one, is chronological.
pub open spec fn replay_order_of(value: Option<Seq<char>>) -> Result<ReplayOrder, Seq<char>> {
    match value {
        None => Ok(ReplayOrder::Chronological),
        Some(order) => if order == ""@ || order == "chronological"@ {
            Ok(ReplayOrder::Chronological)
        } else if order == "newest_turn_first"@ {
            Ok(ReplayOrder::NewestTurnFirst)
        } else {
            Err("invalid ?replay_order (expected chronological or newest_turn_first)"@)
        },
    }
}

/// The order that a query asks for.
pub fn parse_replay_order(value: Option<&str>) -> (order: Result<ReplayOrder, &'static str>)
    ensures
        match order {
            Ok(order) => replay_order_of(value.deep_view()) == Ok::<_, Seq<char>>(order),
            Err(reason) => replay_order_of(value.deep_view()) == Err::<ReplayOrder, _>(reason@),
        },
{
    match value {
        None => Ok(ReplayOrder::Chronological),
        Some(order) => if same_text(order, "") || same_text(order, "chronological") {
            Ok(ReplayOrder::Chronological)
        } else if same_text(order, "newest_turn_first") {
            Ok(ReplayOrder::NewestTurnFirst)
        } else {
            Err("invalid ?replay_order (expected chronological or newest_turn_first)")
        },
    }
}

impl AttachQueryView {
    /// What a query asks for, or the first reason why it cannot be used.
    pub open spec fn validated(self) -> Result<ValidatedView, Seq<char>> {
        match self.session {
            None => Err("missing ?session"@),
            Some(session) => if !session_id_ok(session) {
                Err("invalid ?session (expect ^[A-Za-z0-9_-]{1,128}$)"@)
            } else {
                match self.peer_id {
                    None => Err("missing ?peer_id"@),
                    Some(peer_id) => if peer_id.len() == 0 {
                        Err("empty ?peer_id"@)
                    } else {
                        match replay_order_of(self.replay_order) {
                            Err(reason) => Err(reason),
                            Ok(replay_order) => Ok(
                                ValidatedView {
                                    session,
                                    peer_id,
                                    peer_name: self.peer_name,
                                    role: self.role,
                                    replay_order,
                                },
                            ),
                        }
                    },
                }
            },
        }
    }
}

/// What a query asks for, or the first reason why it cannot be used.
pub fn validate(q: &AttachQuery) -> (validated: Result<ValidatedAttach, &'static str>)
    ensures
        match validated {
            Ok(attach) => q@.validated() == Ok::<_, Seq<char>>(attach@),
            Err(reason) => q@.validated() == Err::<ValidatedView, _>(reason@),
        },
{
    let session = match &q.session {
        Some(session) => session,
        None => {
            return Err("missing ?session");
        },
    };
    if !is_valid_session_id(session) {
        return Err("invalid ?session (expect ^[A-Za-z0-9_-]{1,128}$)");
    }
    let peer_id = match &q.peer_id {
        Some(peer_id) => peer_id,
        None => {
            return Err("missing ?peer_id");
        },
    };
    if peer_id.as_str().unicode_len() == 0 {
        return Err("empty ?peer_id");
    }
    match parse_replay_order(text_ref(&q.replay_order)) {
        Ok(replay_order) => Ok(
            ValidatedAttach {
                session: session.clone(),
                peer_id: peer_id.clone(),
                peer_name: q.peer_name.clone(),
                role: q.role.clone(),
                replay_order,
            },
        ),
        Err(reason) => Err(reason),
    }
}

impl ValidatedAttach {
    /// The peer that attaches.
    pub fn subscriber(&self) -> (subscriber: Subscriber)
        ensures
            subscriber@ == (SubscriberView {
                peer_id: self@.peer_id,
                peer_name: self@.peer_name,
                role: self@.role,
                replay_order: self@.replay_order,
                open: true,
            }),
    {
        Subscriber::new(
            self.peer_id.clone(),
            self.peer_name.clone(),
            self.role.clone(),
            self.replay_order,
        )
    }
}

/// Takes one line end off what a client sent. The agent gets one of its own, and
/// a second would be an empty line.
pub fn strip_trailing_newline(bytes: &[u8]) -> (stripped: Vec<u8>)
    ensures
        stripped@ == lines::without_line_end(bytes@),
{
    let mut stripped: Vec<u8> = Vec::new();
    let mut at: usize = 0;
    while at < bytes.len()
        invariant
            at <= bytes@.len(),
            stripped@ == bytes@.take(at as int),
        decreases bytes@.len() - at,
    {
        stripped.push(bytes[at]);
        at += 1;
        assert(stripped@ =~= bytes@.take(at as int));
    }
    assert(bytes@.take(at as int) =~= bytes@);
    chop_line_end(&mut stripped);
    stripped
}

/// The close code and the reason for a peer that was not attached.
pub open spec fn close_of(error: RegistryError) -> (u16, Seq<char>) {
    match error {
        RegistryError::PeerIdInUse => (
            CLOSE_CODE_PEER_CONFLICT,
            "peer_id already attached to this session"@,
        ),
        RegistryError::AgentCmdMissing => (
            CLOSE_CODE_INTERNAL,
            "server has no --agent-cmd configured"@,
        ),
        RegistryError::AgentSpawn(_) => (CLOSE_CODE_INTERNAL, "agent spawn failed"@),
        RegistryError::ActorUnreachable => (CLOSE_CODE_INTERNAL, "session unreachable"@),
    }
}

/// The close code and the reason for a peer that was not attached.
pub fn refusal_close(error: &RegistryError) -> (close: (u16, &'static str))
    ensures
        (close.0, close.1@) == close_of(*error),
{
    match error {
        RegistryError::PeerIdInUse => (
            CLOSE_CODE_PEER_CONFLICT,
            "peer_id already attached to this session",
        ),
        RegistryError::AgentCmdMissing => (
            CLOSE_CODE_INTERNAL,
            "server has no --agent-cmd configured",
        ),
        RegistryError::AgentSpawn(_) => (CLOSE_CODE_INTERNAL, "agent spawn failed"),
        RegistryError::ActorUnreachable => (CLOSE_CODE_INTERNAL, "session unreachable"),
    }
}

/// The HTTP status and the document for an agent whose sessions are not known.
pub open spec fn control_plane_reply(error: ControlErrorView) -> (u16, JsonView) {
    if error is AgentCmdMissing {
        (
            STATUS_SERVICE_UNAVAILABLE,
            JsonView::object().field("error"@, JsonView::String("agent command not configured"@)),
        )
    } else {
        (
            STATUS_BAD_GATEWAY,
            JsonView::object()
                .field("error"@, JsonView::String("agent session/list failed"@))
                .field("details"@, JsonView::String(error.message())),
        )
    }
}

/// The HTTP status and the document for an agent whose sessions are not known.
pub fn control_plane_error_response(error: &ControlPlaneSessionListError) -> (reply: (u16, Json))
    ensures
        (reply.0, reply.1@) == control_plane_reply(error@),
{
    match error {
        ControlPlaneSessionListError::AgentCmdMissing => (
            STATUS_SERVICE_UNAVAILABLE,
            Json::object().field("error", Json::string("agent command not configured")),
        ),
        _ => {
            let details = error.to_text();
            (
                STATUS_BAD_GATEWAY,
                Json::object()
                    .field("error", Json::string("agent session/list failed"))
                    .field("details", Json::string(details.as_str())),
            )
        },
    }
}

/// The documents of some snapshots.
pub open spec fn snapshot_documents(sessions: Seq<SessionSnapshot>) -> Seq<JsonView> {
    sessions.map_values(|session: SessionSnapshot| session.json())
}

/// The document that shows the live sessions.
pub fn debug_sessions(sessions: &Vec<SessionSnapshot>) -> (reply: Json)
    ensures
        reply@ == JsonView::object()
            .field("sessions"@, JsonView::Array(snapshot_documents(sessions@)))
            .field("sessionCount"@, JsonView::Int(sessions@.len() as int)),
{
    let mut documents: Vec<Json> = Vec::new();
    let mut at: usize = 0;
    while at < sessions.len()
        invariant
            at <= sessions@.len(),
            documents@.len() == at,
            forall|i: int|
                0 <= i < at ==> (#[trigger] documents@[i])@ == sessions@[i].json(),
        decreases sessions@.len() - at,
    {
        documents.push(sessions[at].to_json());
        at += 1;
    }
    assert(documents.deep_view() =~= snapshot_documents(sessions@));
    let count: u64 = sessions.len() as u64;
    Json::object().field("sessions", Json::array(documents)).field(
        "sessionCount",
        Json::Unsigned(count),
    )
}

/// An attach that is let through names a session by a valid id and a peer by a
/// non-empty one.
pub proof fn law_validated(query: AttachQueryView)
    requires
        query.validated() is Ok,
    ensures
        session_id_ok(query.validated()->Ok_0.session),
        query.validated()->Ok_0.peer_id.len() > 0,
        query.session == Some(query.validated()->Ok_0.session),
        query.peer_id == Some(query.validated()->Ok_0.peer_id),
{
}

/// A query is let through exactly where it names a session by a valid id and a peer
/// by a non-empty one, and asks for an order that there is, or for none. What is let
/// through is what was asked for.
pub proof fn law_query_is_let_through_as_it_is(query: AttachQueryView)
    ensures
        query.validated() is Ok <==> {
            &&& query.session matches Some(session) && session_id_ok(session)
            &&& query.peer_id matches Some(peer_id) && peer_id.len() > 0
            &&& query.replay_order matches Some(order) ==> order.len() == 0 || order
                == "chronological"@ || order == "newest_turn_first"@
        },
        query.validated() matches Ok(attach) ==> {
            &&& query.session == Some(attach.session)
            &&& query.peer_id == Some(attach.peer_id)
            &&& attach.peer_name == query.peer_name
            &&& attach.role == query.role
            &&& attach.replay_order == if query.replay_order == Some("newest_turn_first"@) {
                ReplayOrder::NewestTurnFirst
            } else {
                ReplayOrder::Chronological
            }
        },
{
    crate::protocol::names::lemma_names();
    reveal_strlit("");
    reveal_strlit("newest_turn_first");
    reveal_strlit("chronological");
    assert("newest_turn_first"@.len() == 17 && "chronological"@.len() == 13);
    if let Some(order) = query.replay_order {
        if order.len() == 0 {
            assert(order =~= ""@);
        }
    }
}

/// A query that is not let through is told the first thing that is wrong with it:
/// the session before the peer, and the peer before the order.
pub proof fn law_query_is_told_what_is_wrong(query: AttachQueryView)
    ensures
        ({
            let told = query.validated();
            let session = query.session matches Some(session) && session_id_ok(session);
            let peer = query.peer_id matches Some(peer_id) && peer_id.len() > 0;
            &&& query.session is None ==> told == Err::<ValidatedView, _>("missing ?session"@)
            &&& query.session is Some && !session ==> told == Err::<ValidatedView, _>(
                "invalid ?session (expect ^[A-Za-z0-9_-]{1,128}$)"@,
            )
            &&& session && query.peer_id is None ==> told == Err::<ValidatedView, _>(
                "missing ?peer_id"@,
            )
            &&& session && query.peer_id is Some && !peer ==> told == Err::<ValidatedView, _>(
                "empty ?peer_id"@,
            )
            &&& session && peer && told is Err ==> told == Err::<ValidatedView, _>(
                "invalid ?replay_order (expected chronological or newest_turn_first)"@,
            )
        }),
{
}

/// A session id has from one to 128 characters, each a letter or a digit of ASCII,
/// an underscore or a hyphen.
pub proof fn law_session_ids(s: Seq<char>, c: char)
    ensures
        session_id_ok(s) ==> 1 <= s.len() <= 128,
        session_id_ok(s) && s.len() < 128 ==> (session_id_ok(s.push(c)) <==> session_id_char(c)),
        session_id_ok(s) && s.len() == 128 ==> !session_id_ok(s.push(c)),
        session_id_ok(seq![c]) <==> session_id_char(c),
        session_id_char(c) <==> ('A' <= c && c <= 'Z') || ('a' <= c && c <= 'z') || ('0' <= c && c
            <= '9') || c == '_' || c == '-',
{
    if session_id_ok(s) {
        let longer = s.push(c);
        assert(longer.last() == c);
        assert forall|i: int| 0 <= i < s.len() implies session_id_char(#[trigger] longer[i]) by {
            assert(longer[i] == s[i]);
        }
        if session_id_ok(longer) {
            assert(session_id_char(longer[s.len() as int]));
        }
    }
    if session_id_ok(seq![c]) {
        assert(session_id_char(seq![c][0]));
    }
}

/// A peer id that is taken closes with a code of its own, and whatever keeps the
/// session from being brought up closes with the one for that.
pub proof fn law_refusals_are_told_apart(error: RegistryError)
    ensures
        close_of(error).0 == if error is PeerIdInUse {
            4409u16
        } else {
            1011u16
        },
        error is PeerIdInUse ==> close_of(error).1 == "peer_id already attached to this session"@,
        error is AgentCmdMissing ==> close_of(error).1 == "server has no --agent-cmd configured"@,
        error is AgentSpawn ==> close_of(error).1 == "agent spawn failed"@,
        error is ActorUnreachable ==> close_of(error).1 == "session unreachable"@,
{
}

/// The control plane says what failed: that no command is configured, or what went
/// wrong with the agent.
pub proof fn law_control_plane_says_what_failed(error: ControlErrorView)
    ensures
        ({
            let (status, reply) = control_plane_reply(error);
            &&& error is AgentCmdMissing ==> status == 503 && reply.get("error"@) == Some(
                JsonView::String("agent command not configured"@),
            ) && reply.get("details"@) is None
            &&& !(error is AgentCmdMissing) ==> status == 502 && reply.get("error"@) == Some(
                JsonView::String("agent session/list failed"@),
            ) && reply.get("details"@) == Some(JsonView::String(error.message()))
        }),
{
    broadcast use json::lemma_get_field;

    reveal_strlit("error");
    reveal_strlit("details");
    assert("error"@.len() == 5 && "details"@.len() == 7);
    assert(JsonView::object().get("details"@) is None);
}

/// Every live session is shown once, in its place.
pub proof fn law_every_session_is_shown(sessions: Seq<SessionSnapshot>, i: int)
    requires
        0 <= i < sessions.len(),
    ensures
        snapshot_documents(sessions).len() == sessions.len(),
        snapshot_documents(sessions)[i] == sessions[i].json(),
{
}

} // verus!
