//! `session/update` notifications that the mux itself sends beside the
//! `amux/*` ones, for clients that follow the plain protocol.

use crate::json;
use crate::json::{Json, JsonView};
use crate::protocol::jsonrpc::VERSION;
use vstd::prelude::*;

verus! {

pub const METHOD_SESSION_UPDATE: &'static str = "session/update";

pub const UPDATE_PROMPT_RECEIVED: &'static str = "prompt_received";

pub const UPDATE_TURN_COMPLETE: &'static str = "turn_complete";

pub const UPDATE_PERMISSION_RESOLVED: &'static str = "permission_resolved";

pub const UPDATE_CLIENT_DISCONNECTED: &'static str = "client_disconnected";

/// A client, as updates name it.
pub struct ClientRef<'a> {
    pub client_id: &'a str,
    pub name: Option<&'a str>,
}

/// A client, as updates name it.
pub open spec fn client_json(client_id: Seq<char>, name: Option<Seq<char>>) -> JsonView {
    JsonView::object()
        .field("clientId"@, JsonView::String(client_id))
        .field_opt("name"@, json::text_opt(name))
}

impl<'a> ClientRef<'a> {
    fn to_json(&self) -> (json: Json)
        ensures
            json@ == client_json(self.client_id@, self.name.deep_view()),
    {
        Json::object()
            .field("clientId", Json::string(self.client_id))
            .field_opt("name", Json::string_opt(self.name))
    }
}

/// The notification that carries `update`.
pub open spec fn update_frame(session_id: Seq<char>, update: JsonView) -> JsonView {
    JsonView::object()
        .field("jsonrpc"@, JsonView::String(VERSION@))
        .field("method"@, JsonView::String(METHOD_SESSION_UPDATE@))
        .field(
            "params"@,
            JsonView::object()
                .field("sessionId"@, JsonView::String(session_id))
                .field("update"@, update),
        )
}

fn encode(session_id: &str, update: Json) -> (bytes: Vec<u8>)
    ensures
        bytes@ == json::json_text(update_frame(session_id@, update@)),
        !bytes@.contains(10u8),
{
    Json::object()
        .field("jsonrpc", Json::string(VERSION))
        .field("method", Json::string(METHOD_SESSION_UPDATE))
        .field(
            "params",
            Json::object()
                .field("sessionId", Json::string(session_id))
                .field("update", update),
        )
        .to_vec()
}

/// A client sent a prompt.
pub open spec fn prompt_received_frame(
    session_id: Seq<char>,
    prompt: JsonView,
    client_id: Seq<char>,
    client_name: Option<Seq<char>>,
) -> JsonView {
    update_frame(
        session_id,
        JsonView::object()
            .field("type"@, JsonView::String(UPDATE_PROMPT_RECEIVED@))
            .field("prompt"@, prompt)
            .field("sentBy"@, client_json(client_id, client_name)),
    )
}

/// A client sent a prompt.
pub fn prompt_received(
    session_id: &str,
    prompt: &Json,
    client_id: &str,
    client_name: Option<&str>,
) -> (bytes: Vec<u8>)
    ensures
        bytes@ == json::json_text(
            prompt_received_frame(session_id@, prompt@, client_id@, client_name.deep_view()),
        ),
        !bytes@.contains(10u8),
{
    let client = ClientRef { client_id, name: client_name };
    encode(
        session_id,
        Json::object()
            .field("type", Json::string(UPDATE_PROMPT_RECEIVED))
            .field("prompt", prompt.clone())
            .field("sentBy", client.to_json()),
    )
}

/// A turn ended.
pub open spec fn turn_complete_frame(session_id: Seq<char>, stop_reason: JsonView) -> JsonView {
    update_frame(
        session_id,
        JsonView::object()
            .field("type"@, JsonView::String(UPDATE_TURN_COMPLETE@))
            .field("stopReason"@, stop_reason),
    )
}

/// A turn ended.
pub fn turn_complete(session_id: &str, stop_reason: &Json) -> (bytes: Vec<u8>)
    ensures
        bytes@ == json::json_text(turn_complete_frame(session_id@, stop_reason@)),
        !bytes@.contains(10u8),
{
    encode(
        session_id,
        Json::object()
            .field("type", Json::string(UPDATE_TURN_COMPLETE))
            .field("stopReason", stop_reason.clone()),
    )
}

/// A permission that the agent asked for was granted or refused.
pub open spec fn permission_resolved_frame(
    session_id: Seq<char>,
    request_id: JsonView,
    resolved_by_id: Seq<char>,
    resolved_by_name: Option<Seq<char>>,
    chosen_option_id: Option<Seq<char>>,
    result: Option<JsonView>,
    error: Option<JsonView>,
) -> JsonView {
    update_frame(
        session_id,
        JsonView::object()
            .field("type"@, JsonView::String(UPDATE_PERMISSION_RESOLVED@))
            .field("requestId"@, request_id)
            .field("resolvedBy"@, client_json(resolved_by_id, resolved_by_name))
            .field_opt("chosenOptionId"@, json::text_opt(chosen_option_id))
            .field_opt("result"@, result)
            .field_opt("error"@, error),
    )
}

/// A permission that the agent asked for was granted or refused.
pub fn permission_resolved(
    session_id: &str,
    request_id: &Json,
    resolved_by_id: &str,
    resolved_by_name: Option<&str>,
    chosen_option_id: Option<&str>,
    result: Option<&Json>,
    error: Option<&Json>,
) -> (bytes: Vec<u8>)
    ensures
        bytes@ == json::json_text(
            permission_resolved_frame(
                session_id@,
                request_id@,
                resolved_by_id@,
                resolved_by_name.deep_view(),
                chosen_option_id.deep_view(),
                result.deep_view(),
                error.deep_view(),
            ),
        ),
        !bytes@.contains(10u8),
{
    let client = ClientRef { client_id: resolved_by_id, name: resolved_by_name };
    let result = match result {
        Some(result) => Some(result.clone()),
        None => None,
    };
    let error = match error {
        Some(error) => Some(error.clone()),
        None => None,
    };
    encode(
        session_id,
        Json::object()
            .field("type", Json::string(UPDATE_PERMISSION_RESOLVED))
            .field("requestId", request_id.clone())
            .field("resolvedBy", client.to_json())
            .field_opt("chosenOptionId", Json::string_opt(chosen_option_id))
            .field_opt("result", result)
            .field_opt("error", error),
    )
}

/// A client is gone.
pub open spec fn client_disconnected_frame(
    session_id: Seq<char>,
    client_id: Seq<char>,
    client_name: Option<Seq<char>>,
) -> JsonView {
    update_frame(
        session_id,
        JsonView::object()
            .field("type"@, JsonView::String(UPDATE_CLIENT_DISCONNECTED@))
            .field("client"@, client_json(client_id, client_name)),
    )
}

/// A client is gone.
pub fn client_disconnected(
    session_id: &str,
    client_id: &str,
    client_name: Option<&str>,
) -> (bytes: Vec<u8>)
    ensures
        bytes@ == json::json_text(
            client_disconnected_frame(session_id@, client_id@, client_name.deep_view()),
        ),
        !bytes@.contains(10u8),
{
    let client = ClientRef { client_id, name: client_name };
    encode(
        session_id,
        Json::object()
            .field("type", Json::string(UPDATE_CLIENT_DISCONNECTED))
            .field("client", client.to_json()),
    )
}

} // verus!
