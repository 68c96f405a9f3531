//! JSON-RPC 2.0 envelopes.
//!
//! Only the envelope is read: what stands in `params`, `result` and `error`
//! flows through as a document.

use crate::assoc;
use crate::json;
use crate::json::{describe, Json, JsonObject, JsonView};
use crate::text;
use crate::text::{debug, decimal, integer, same_text};
use vstd::prelude::*;

verus! {

/// The only protocol version there is.
pub const VERSION: &'static str = "2.0";

/// A request id: a number, a string or null. A notification has none.
#[derive(Debug, PartialEq, Eq, Hash)]
pub enum Id {
    Number(i64),
    String(String),
    Null,
}

/// The model of [`Id`].
#[verifier::ext_equal]
pub enum IdView {
    Number(i64),
    String(Seq<char>),
    Null,
}

/// The protocol version of an envelope, which is always `"2.0"`.
#[derive(Debug, Clone, Copy, PartialEq, Eq)]
pub struct JsonRpcVersion;

/// A frame received from a subscriber or from the agent.
///
/// The members that are present tell the three kinds apart: `id` and `method`
/// make a request, `method` alone a notification, and `id` with `result` or
/// `error` a response.
#[derive(Debug, PartialEq)]
pub enum Incoming {
    Request(IncomingRequest),
    Notification(IncomingNotification),
    Response(IncomingResponse),
}

#[derive(Debug, PartialEq)]
pub struct IncomingRequest {
    pub jsonrpc: JsonRpcVersion,
    pub id: Id,
    pub method: String,
    pub params: Option<Json>,
}

#[derive(Debug, PartialEq)]
pub struct IncomingNotification {
    pub jsonrpc: JsonRpcVersion,
    pub method: String,
    pub params: Option<Json>,
}

#[derive(Debug, PartialEq)]
pub struct IncomingResponse {
    pub jsonrpc: JsonRpcVersion,
    pub id: Id,
    pub result: Option<Json>,
    pub error: Option<JsonRpcError>,
}

#[derive(Debug, PartialEq, Eq)]
pub struct JsonRpcError {
    pub code: i64,
    pub message: String,
    pub data: Option<Json>,
}

/// Why a frame could not be read as JSON.
#[derive(Debug)]
pub enum JsonFault {
    /// The text is no JSON document.
    Text(serde_json::Error),
    /// A member of the envelope is missing or of the wrong type: this is what is
    /// wrong.
    Envelope(String),
}

/// Why a frame is no JSON-RPC envelope.
#[derive(Debug)]
pub enum ParseError {
    Json(JsonFault),
    NotAnObject,
    Ambiguous(String),
}

/// The model of [`ParseError`].
#[verifier::ext_equal]
pub enum ParseErrorView {
    Json(Seq<char>),
    NotAnObject,
    Ambiguous(Seq<char>),
}

#[verifier::ext_equal]
pub struct RequestView {
    pub id: IdView,
    pub method: Seq<char>,
    pub params: Option<JsonView>,
}

#[verifier::ext_equal]
pub struct NotificationView {
    pub method: Seq<char>,
    pub params: Option<JsonView>,
}

#[verifier::ext_equal]
pub struct ErrorView {
    pub code: i64,
    pub message: Seq<char>,
    pub data: Option<JsonView>,
}

#[verifier::ext_equal]
pub struct ResponseView {
    pub id: IdView,
    pub result: Option<JsonView>,
    pub error: Option<ErrorView>,
}

/// The model of [`Incoming`].
#[verifier::ext_equal]
pub enum IncomingView {
    Request(RequestView),
    Notification(NotificationView),
    Response(ResponseView),
}

impl View for Id {
    type V = IdView;

    open spec fn view(&self) -> IdView {
        match *self {
            Id::Number(n) => IdView::Number(n),
            Id::String(s) => IdView::String(s@),
            Id::Null => IdView::Null,
        }
    }
}

impl DeepView for Id {
    type V = IdView;

    open spec fn deep_view(&self) -> IdView {
        self@
    }
}

impl View for JsonRpcError {
    type V = ErrorView;

    open spec fn view(&self) -> ErrorView {
        ErrorView { code: self.code, message: self.message@, data: self.data.deep_view() }
    }
}

impl DeepView for JsonRpcError {
    type V = ErrorView;

    open spec fn deep_view(&self) -> ErrorView {
        self@
    }
}

impl View for IncomingRequest {
    type V = RequestView;

    open spec fn view(&self) -> RequestView {
        RequestView { id: self.id@, method: self.method@, params: self.params.deep_view() }
    }
}

impl View for IncomingNotification {
    type V = NotificationView;

    open spec fn view(&self) -> NotificationView {
        NotificationView { method: self.method@, params: self.params.deep_view() }
    }
}

impl View for IncomingResponse {
    type V = ResponseView;

    open spec fn view(&self) -> ResponseView {
        ResponseView {
            id: self.id@,
            result: self.result.deep_view(),
            error: self.error.deep_view(),
        }
    }
}

impl View for Incoming {
    type V = IncomingView;

    open spec fn view(&self) -> IncomingView {
        match *self {
            Incoming::Request(r) => IncomingView::Request(r@),
            Incoming::Notification(n) => IncomingView::Notification(n@),
            Incoming::Response(r) => IncomingView::Response(r@),
        }
    }
}

impl View for ParseError {
    type V = ParseErrorView;

    open spec fn view(&self) -> ParseErrorView {
        match *self {
            ParseError::Json(JsonFault::Text(error)) => ParseErrorView::Json(
                json::error_text(error),
            ),
            ParseError::Json(JsonFault::Envelope(fault)) => ParseErrorView::Json(fault@),
            ParseError::NotAnObject => ParseErrorView::NotAnObject,
            ParseError::Ambiguous(shape) => ParseErrorView::Ambiguous(shape@),
        }
    }
}

impl ParseErrorView {
    /// What the error says of itself.
    pub open spec fn message(self) -> Seq<char> {
        match self {
            ParseErrorView::Json(fault) => "json decode: "@ + fault,
            ParseErrorView::NotAnObject => "frame is not a JSON object"@,
            ParseErrorView::Ambiguous(shape) => "frame matches no JSON-RPC envelope shape: "@
                + shape,
        }
    }
}

impl ParseError {
    /// What the error says of itself.
    pub fn to_text(&self) -> (said: String)
        ensures
            said@ == self@.message(),
    {
        match self {
            ParseError::Json(fault) => {
                let mut said = "json decode: ".to_owned();
                match fault {
                    JsonFault::Text(error) => {
                        let cause = describe(error);
                        said.append(cause.as_str());
                    },
                    JsonFault::Envelope(fault) => said.append(fault.as_str()),
                }
                said
            },
            ParseError::NotAnObject => "frame is not a JSON object".to_owned(),
            ParseError::Ambiguous(shape) => {
                let mut said = "frame matches no JSON-RPC envelope shape: ".to_owned();
                said.append(shape.as_str());
                said
            },
        }
    }
}

impl ErrorView {
    /// What the error says of itself.
    pub open spec fn text(self) -> Seq<char> {
        "jsonrpc error "@ + text::integer_of(self.code as int) + ": "@ + self.message
    }
}

impl JsonRpcError {
    /// What the error says of itself.
    pub fn to_text(&self) -> (said: String)
        ensures
            said@ == self@.text(),
    {
        let mut said = "jsonrpc error ".to_owned();
        let code = integer(self.code);
        said.append(code.as_str());
        said.append(": ");
        said.append(self.message.as_str());
        said
    }
}

impl Clone for Id {
    fn clone(&self) -> (copy: Self)
        ensures
            copy@ == self@,
    {
        match self {
            Id::Number(n) => Id::Number(*n),
            Id::String(s) => Id::String(s.clone()),
            Id::Null => Id::Null,
        }
    }
}

impl Clone for JsonRpcError {
    fn clone(&self) -> (copy: Self)
        ensures
            copy@ == self@,
    {
        JsonRpcError {
            code: self.code,
            message: self.message.clone(),
            data: clone_opt(&self.data),
        }
    }
}

impl Clone for IncomingRequest {
    fn clone(&self) -> (copy: Self)
        ensures
            copy@ == self@,
    {
        IncomingRequest {
            jsonrpc: JsonRpcVersion,
            id: self.id.clone(),
            method: self.method.clone(),
            params: clone_opt(&self.params),
        }
    }
}

impl Clone for IncomingNotification {
    fn clone(&self) -> (copy: Self)
        ensures
            copy@ == self@,
    {
        IncomingNotification {
            jsonrpc: JsonRpcVersion,
            method: self.method.clone(),
            params: clone_opt(&self.params),
        }
    }
}

impl Clone for Incoming {
    fn clone(&self) -> (copy: Self)
        ensures
            copy@ == self@,
    {
        match self {
            Incoming::Request(request) => Incoming::Request(request.clone()),
            Incoming::Notification(notification) => Incoming::Notification(notification.clone()),
            Incoming::Response(response) => Incoming::Response(response.clone()),
        }
    }
}

impl Clone for IncomingResponse {
    fn clone(&self) -> (copy: Self)
        ensures
            copy@ == self@,
    {
        IncomingResponse {
            jsonrpc: JsonRpcVersion,
            id: self.id.clone(),
            result: clone_opt(&self.result),
            error: match &self.error {
                Some(error) => Some(error.clone()),
                None => None,
            },
        }
    }
}

impl Default for JsonRpcVersion {
    fn default() -> (version: Self)
        ensures
            version == JsonRpcVersion,
    {
        JsonRpcVersion
    }
}

/// A copy of an optional document.
pub fn clone_opt(json: &Option<Json>) -> (copy: Option<Json>)
    ensures
        copy.deep_view() == json.deep_view(),
{
    match json {
        Some(json) => Some(json.clone()),
        None => None,
    }
}

impl IdView {
    /// The id as it stands in a document.
    pub open spec fn json(self) -> JsonView {
        match self {
            IdView::Number(n) => JsonView::Int(n as int),
            IdView::String(s) => JsonView::String(s),
            IdView::Null => JsonView::Null,
        }
    }

    /// The id that a document is: a 64-bit signed integer, a string or null.
    pub open spec fn of(json: JsonView) -> Option<IdView> {
        match json {
            JsonView::Int(i) => if i64::MIN <= i <= i64::MAX {
                Some(IdView::Number(i as i64))
            } else {
                None
            },
            JsonView::String(s) => Some(IdView::String(s)),
            JsonView::Null => Some(IdView::Null),
            _ => None,
        }
    }
}

impl Id {
    /// Whether two ids are the same.
    pub fn same(&self, other: &Id) -> (same: bool)
        ensures
            same == (self@ == other@),
    {
        match (self, other) {
            (Id::Number(a), Id::Number(b)) => *a == *b,
            (Id::String(a), Id::String(b)) => *a == *b,
            (Id::Null, Id::Null) => true,
            _ => false,
        }
    }

    /// The id as a document.
    pub fn to_json(&self) -> (json: Json)
        ensures
            json@ == self@.json(),
    {
        match self {
            Id::Number(n) => Json::Signed(*n),
            Id::String(s) => Json::String(s.clone()),
            Id::Null => Json::Null,
        }
    }

    /// The id that a document is.
    pub fn from_json(json: &Json) -> (id: Option<Id>)
        ensures
            id.deep_view() == IdView::of(json@),
    {
        match json {
            Json::Unsigned(u) => if *u <= i64::MAX as u64 {
                Some(Id::Number(*u as i64))
            } else {
                None
            },
            Json::Signed(i) => Some(Id::Number(*i)),
            Json::String(s) => Some(Id::String(s.clone())),
            Json::Null => Some(Id::Null),
            _ => None,
        }
    }
}

/// A member that is neither absent nor null.
pub open spec fn present(json: JsonView, key: Seq<char>) -> Option<JsonView> {
    match json.get(key) {
        Some(JsonView::Null) => None,
        member => member,
    }
}

/// A copy of a member that is neither absent nor null.
pub fn present_member(json: &Json, key: &str) -> (member: Option<Json>)
    ensures
        member.deep_view() == present(json@, key@),
{
    match json.get(key) {
        Some(Json::Null) => None,
        Some(value) => Some(value.clone()),
        None => None,
    }
}

/// A 64-bit signed integer.
pub open spec fn signed_of(json: JsonView) -> Option<i64> {
    match json {
        JsonView::Int(i) => if i64::MIN <= i <= i64::MAX {
            Some(i as i64)
        } else {
            None
        },
        _ => None,
    }
}

fn signed_from(json: &Json) -> (value: Option<i64>)
    ensures
        value == signed_of(json@),
{
    match json {
        Json::Unsigned(u) => if *u <= i64::MAX as u64 {
            Some(*u as i64)
        } else {
            None
        },
        Json::Signed(i) => Some(*i),
        _ => None,
    }
}

impl ErrorView {
    /// The error object as it stands in a response.
    pub open spec fn json(self) -> JsonView {
        JsonView::object()
            .field("code"@, JsonView::Int(self.code as int))
            .field("message"@, JsonView::String(self.message))
            .field_opt("data"@, self.data)
    }

    /// The error made of its three parts, where code and message are right.
    pub open spec fn of_parts(
        code: Option<JsonView>,
        message: Option<JsonView>,
        data: Option<JsonView>,
    ) -> Option<ErrorView> {
        match (code, message) {
            (Some(code), Some(message)) => match (signed_of(code), message.as_str()) {
                (Some(code), Some(message)) => Some(ErrorView { code, message, data }),
                _ => None,
            },
            _ => None,
        }
    }

    /// The error that a document is: an object with `code`, `message` and
    /// perhaps `data`, or an array that lists two or three of them.
    pub open spec fn of(json: JsonView) -> Option<ErrorView> {
        match json {
            JsonView::Object(_) => Self::of_parts(
                json.get("code"@),
                json.get("message"@),
                present(json, "data"@),
            ),
            JsonView::Array(items) => if items.len() == 2 {
                Self::of_parts(Some(items[0]), Some(items[1]), None)
            } else if items.len() == 3 {
                Self::of_parts(
                    Some(items[0]),
                    Some(items[1]),
                    if items[2] is Null {
                        None
                    } else {
                        Some(items[2])
                    },
                )
            } else {
                None
            },
            _ => None,
        }
    }
}

impl JsonRpcError {
    /// The error object as a document.
    pub fn to_json(&self) -> (json: Json)
        ensures
            json@ == self@.json(),
    {
        Json::object()
            .field("code", Json::Signed(self.code))
            .field("message", Json::string(&self.message))
            .field_opt("data", clone_opt(&self.data))
    }

    fn from_parts(code: Option<&Json>, message: Option<&Json>, data: Option<Json>) -> (error: Option<
        JsonRpcError,
    >)
        ensures
            error.deep_view() == ErrorView::of_parts(
                code.deep_view(),
                message.deep_view(),
                data.deep_view(),
            ),
    {
        match (code, message) {
            (Some(code), Some(message)) => match (signed_from(code), message.as_str()) {
                (Some(code), Some(message)) => Some(
                    JsonRpcError { code, message: message.to_owned(), data },
                ),
                _ => None,
            },
            _ => None,
        }
    }

    /// The error that a document is.
    pub fn from_json(json: &Json) -> (error: Option<JsonRpcError>)
        ensures
            error.deep_view() == ErrorView::of(json@),
    {
        match json {
            Json::Object(_) => Self::from_parts(
                json.get("code"),
                json.get("message"),
                present_member(json, "data"),
            ),
            Json::Array(items) => {
                if items.len() == 2 {
                    Self::from_parts(Some(&items[0]), Some(&items[1]), None)
                } else if items.len() == 3 {
                    let data = if items[2].is_null() {
                        None
                    } else {
                        Some(items[2].clone())
                    };
                    Self::from_parts(Some(&items[0]), Some(&items[1]), data)
                } else {
                    None
                }
            },
            _ => None,
        }
    }
}

/// Whether a document carries the version `"2.0"`.
pub open spec fn version_ok(json: JsonView) -> bool {
    json.get_str("jsonrpc"@) == Some(VERSION@)
}

fn has_version(json: &Json) -> (ok: bool)
    ensures
        ok == version_ok(json@),
{
    match json.get_str("jsonrpc") {
        Some(version) => same_text(version, VERSION),
        None => false,
    }
}

/// The id that the member `id` of a document is.
pub open spec fn id_member(json: JsonView) -> Option<IdView> {
    match json.get("id"@) {
        Some(id) => IdView::of(id),
        None => None,
    }
}

fn read_id(json: &Json) -> (id: Option<Id>)
    ensures
        id.deep_view() == id_member(json@),
{
    match json.get("id") {
        Some(id) => Id::from_json(id),
        None => None,
    }
}

impl RequestView {
    /// The envelope as a document.
    pub open spec fn json(self) -> JsonView {
        JsonView::object()
            .field("jsonrpc"@, JsonView::String(VERSION@))
            .field("id"@, self.id.json())
            .field("method"@, JsonView::String(self.method))
            .field_opt("params"@, self.params)
    }

    /// The request that an object is.
    pub open spec fn of(json: JsonView) -> Option<RequestView> {
        match (id_member(json), json.get_str("method"@)) {
            (Some(id), Some(method)) => if version_ok(json) {
                Some(RequestView { id, method, params: present(json, "params"@) })
            } else {
                None
            },
            _ => None,
        }
    }
}

impl NotificationView {
    /// The envelope as a document.
    pub open spec fn json(self) -> JsonView {
        JsonView::object()
            .field("jsonrpc"@, JsonView::String(VERSION@))
            .field("method"@, JsonView::String(self.method))
            .field_opt("params"@, self.params)
    }

    /// The notification that an object is.
    pub open spec fn of(json: JsonView) -> Option<NotificationView> {
        match json.get_str("method"@) {
            Some(method) => if version_ok(json) {
                Some(NotificationView { method, params: present(json, "params"@) })
            } else {
                None
            },
            None => None,
        }
    }
}

impl ResponseView {
    /// The envelope as a document.
    pub open spec fn json(self) -> JsonView {
        JsonView::object()
            .field("jsonrpc"@, JsonView::String(VERSION@))
            .field("id"@, self.id.json())
            .field_opt("result"@, self.result)
            .field_opt("error"@, match self.error {
                Some(error) => Some(error.json()),
                None => None,
            })
    }

    /// The response that an object is.
    pub open spec fn of(json: JsonView) -> Option<ResponseView> {
        match id_member(json) {
            Some(id) => if version_ok(json) {
                match present(json, "error"@) {
                    Some(error) => match ErrorView::of(error) {
                        Some(error) => Some(
                            ResponseView {
                                id,
                                result: present(json, "result"@),
                                error: Some(error),
                            },
                        ),
                        None => None,
                    },
                    None => Some(
                        ResponseView { id, result: present(json, "result"@), error: None },
                    ),
                }
            } else {
                None
            },
            None => None,
        }
    }
}

/// What is said of a version that is not the only one.
pub open spec fn version_fault(version: Seq<char>) -> Seq<char> {
    "unsupported jsonrpc version "@ + text::debug_text(version) + ", expected \"2.0\""@
}

/// What is wrong with a document that must be a string.
pub open spec fn string_fault(value: JsonView) -> Option<Seq<char>> {
    if value is String {
        None
    } else {
        Some(json::type_fault(value, "a string"@))
    }
}

fn find_string_fault(value: &Json) -> (fault: Option<String>)
    ensures
        fault.deep_view() == string_fault(value@),
{
    match value {
        Json::String(_) => None,
        _ => Some(value.type_fault("a string")),
    }
}

/// What is wrong with a document that must be a 64-bit signed integer.
pub open spec fn signed_fault(value: JsonView) -> Option<Seq<char>> {
    match value {
        JsonView::Int(i) => if i64::MIN <= i <= i64::MAX {
            None
        } else {
            Some("invalid value: integer `"@ + text::integer_of(i) + "`, expected i64"@)
        },
        _ => Some(json::type_fault(value, "i64"@)),
    }
}

fn find_signed_fault(value: &Json) -> (fault: Option<String>)
    ensures
        fault.deep_view() == signed_fault(value@),
{
    match value {
        Json::Signed(_) => None,
        Json::Unsigned(u) => if *u <= i64::MAX as u64 {
            None
        } else {
            let mut said = "invalid value: integer `".to_owned();
            let digits = decimal(*u);
            said.append(digits.as_str());
            said.append("`, expected i64");
            Some(said)
        },
        _ => Some(value.type_fault("i64")),
    }
}

/// What is said of a member that is not there.
pub open spec fn missing_fault(key: Seq<char>) -> Seq<char> {
    "missing field `"@ + key + "`"@
}

fn say_missing(key: &str) -> (said: String)
    ensures
        said@ == missing_fault(key@),
{
    let mut said = "missing field `".to_owned();
    said.append(key);
    said.append("`");
    said
}

/// What is said of an array that has not as many items as it should.
pub open spec fn length_fault(len: nat, expected: Seq<char>) -> Seq<char> {
    "invalid length "@ + text::decimal_of(len) + ", expected "@ + expected
}

fn say_length(len: usize, expected: &str) -> (said: String)
    ensures
        said@ == length_fault(len as nat, expected@),
{
    let mut said = "invalid length ".to_owned();
    let digits = decimal(len as u64);
    said.append(digits.as_str());
    said.append(", expected ");
    said.append(expected);
    said
}

/// What is wrong with one member of an error object.
pub open spec fn part_fault(key: Seq<char>, value: JsonView) -> Option<Seq<char>> {
    if key == "code"@ {
        signed_fault(value)
    } else if key == "message"@ {
        string_fault(value)
    } else {
        None
    }
}

fn find_part_fault(key: &str, value: &Json) -> (fault: Option<String>)
    ensures
        fault.deep_view() == part_fault(key@, value@),
{
    if same_text(key, "code") {
        find_signed_fault(value)
    } else if same_text(key, "message") {
        find_string_fault(value)
    } else {
        None
    }
}

/// What is wrong with the first member of an error object that is wrong.
pub open spec fn parts_fault(members: Seq<(Seq<char>, JsonView)>) -> Option<Seq<char>>
    decreases members.len(),
{
    if members.len() == 0 {
        None
    } else {
        match part_fault(members[0].0, members[0].1) {
            Some(fault) => Some(fault),
            None => parts_fault(members.drop_first()),
        }
    }
}

fn find_parts_fault(object: &JsonObject) -> (fault: Option<String>)
    ensures
        fault.deep_view() == parts_fault(object.members()),
{
    let ghost all = object.members();
    let mut at: usize = 0;
    assert(all.skip(0) =~= all);
    while at < object.len()
        invariant
            at <= all.len(),
            all == object.members(),
            parts_fault(all) == parts_fault(all.skip(at as int)),
        decreases all.len() - at,
    {
        assert(all.skip(at as int).drop_first() =~= all.skip(at + 1));
        let (key, value) = object.entry(at);
        if let Some(fault) = find_part_fault(key, value) {
            return Some(fault);
        }
        at += 1;
    }
    None
}

/// What is wrong with a document that must be an error.
pub open spec fn error_fault(value: JsonView) -> Option<Seq<char>> {
    match value {
        JsonView::Object(members) => match parts_fault(members) {
            Some(fault) => Some(fault),
            None => if value.get("code"@) is None {
                Some(missing_fault("code"@))
            } else if value.get("message"@) is None {
                Some(missing_fault("message"@))
            } else {
                None
            },
        },
        JsonView::Array(items) => if items.len() == 0 {
            Some(length_fault(0, "struct JsonRpcError with 3 elements"@))
        } else if signed_fault(items[0]) is Some {
            signed_fault(items[0])
        } else if items.len() == 1 {
            Some(length_fault(1, "struct JsonRpcError with 3 elements"@))
        } else if string_fault(items[1]) is Some {
            string_fault(items[1])
        } else if items.len() > 3 {
            Some(length_fault(items.len(), "fewer elements in array"@))
        } else {
            None
        },
        _ => Some(json::type_fault(value, "struct JsonRpcError"@)),
    }
}

fn find_error_fault(value: &Json) -> (fault: Option<String>)
    ensures
        fault.deep_view() == error_fault(value@),
{
    match value {
        Json::Object(object) => {
            if let Some(fault) = find_parts_fault(object) {
                return Some(fault);
            }
            if !value.has("code") {
                Some(say_missing("code"))
            } else if !value.has("message") {
                Some(say_missing("message"))
            } else {
                None
            }
        },
        Json::Array(items) => {
            if items.len() == 0 {
                return Some(say_length(0, "struct JsonRpcError with 3 elements"));
            }
            if let Some(fault) = find_signed_fault(&items[0]) {
                return Some(fault);
            }
            if items.len() == 1 {
                return Some(say_length(1, "struct JsonRpcError with 3 elements"));
            }
            if let Some(fault) = find_string_fault(&items[1]) {
                return Some(fault);
            }
            if items.len() > 3 {
                Some(say_length(items.len(), "fewer elements in array"))
            } else {
                None
            }
        },
        _ => Some(value.type_fault("struct JsonRpcError")),
    }
}

/// What is said of an id that is neither a 64-bit signed integer nor a string
/// nor null.
pub const ID_FAULT: &'static str = "data did not match any variant of untagged enum Id";

/// What is wrong with one member of an envelope. An error is looked at in a
/// response only.
pub open spec fn member_fault(key: Seq<char>, value: JsonView, response: bool) -> Option<Seq<char>> {
    if key == "jsonrpc"@ {
        match value {
            JsonView::String(version) => if version == VERSION@ {
                None
            } else {
                Some(version_fault(version))
            },
            _ => string_fault(value),
        }
    } else if key == "id"@ {
        if IdView::of(value) is Some {
            None
        } else {
            Some(ID_FAULT@)
        }
    } else if key == "method"@ {
        string_fault(value)
    } else if key == "error"@ && response && !(value is Null) {
        error_fault(value)
    } else {
        None
    }
}

fn find_member_fault(key: &str, value: &Json, response: bool) -> (fault: Option<String>)
    ensures
        fault.deep_view() == member_fault(key@, value@, response),
{
    if same_text(key, "jsonrpc") {
        match value {
            Json::String(version) => if same_text(version, VERSION) {
                None
            } else {
                let mut said = "unsupported jsonrpc version ".to_owned();
                let shown = debug(version);
                said.append(shown.as_str());
                said.append(", expected \"2.0\"");
                Some(said)
            },
            _ => find_string_fault(value),
        }
    } else if same_text(key, "id") {
        match Id::from_json(value) {
            Some(_) => None,
            None => Some(ID_FAULT.to_owned()),
        }
    } else if same_text(key, "method") {
        find_string_fault(value)
    } else if same_text(key, "error") && response && !value.is_null() {
        find_error_fault(value)
    } else {
        None
    }
}

/// What is wrong with the first member of an envelope that is wrong.
pub open spec fn members_fault(members: Seq<(Seq<char>, JsonView)>, response: bool) -> Option<
    Seq<char>,
>
    decreases members.len(),
{
    if members.len() == 0 {
        None
    } else {
        match member_fault(members[0].0, members[0].1, response) {
            Some(fault) => Some(fault),
            None => members_fault(members.drop_first(), response),
        }
    }
}

/// What is wrong with an object that has the members of an envelope.
pub open spec fn envelope_fault(members: Seq<(Seq<char>, JsonView)>, response: bool) -> Option<
    Seq<char>,
> {
    match members_fault(members, response) {
        Some(fault) => Some(fault),
        None => if JsonView::Object(members).get("jsonrpc"@) is None {
            Some(missing_fault("jsonrpc"@))
        } else {
            None
        },
    }
}

/// What is wrong with a document that is no envelope, though its members are
/// those of one.
pub open spec fn told_fault(json: JsonView, response: bool) -> Seq<char> {
    match json {
        JsonView::Object(members) => match envelope_fault(members, response) {
            Some(fault) => fault,
            None => Seq::empty(),
        },
        _ => Seq::empty(),
    }
}

fn tell_fault(json: &Json, response: bool) -> (fault: String)
    ensures
        fault@ == told_fault(json@, response),
{
    match json {
        Json::Object(object) => {
            let ghost all = object.members();
            let mut at: usize = 0;
            assert(all.skip(0) =~= all);
            while at < object.len()
                invariant
                    at <= all.len(),
                    all == object.members(),
                    members_fault(all, response) == members_fault(all.skip(at as int), response),
                    json@ == JsonView::Object(all),
                decreases all.len() - at,
            {
                assert(all.skip(at as int).drop_first() =~= all.skip(at + 1));
                let (key, value) = object.entry(at);
                if let Some(fault) = find_member_fault(key, value, response) {
                    return fault;
                }
                at += 1;
            }
            if json.has("jsonrpc") {
                String::new()
            } else {
                say_missing("jsonrpc")
            }
        },
        _ => String::new(),
    }
}

/// An object with the members of an envelope is refused exactly where something
/// is wrong with it that can be told.
pub proof fn law_refused_envelope_has_a_fault(members: Seq<(Seq<char>, JsonView)>)
    requires
        assoc::distinct(members),
        JsonView::Object(members).get("error"@) matches Some(JsonView::Object(parts))
            ==> assoc::distinct(parts),
    ensures
        ({
            let json = JsonView::Object(members);
            &&& json.get("id"@) is Some && json.get("method"@) is Some ==> (RequestView::of(json)
                is None <==> envelope_fault(members, false) is Some)
            &&& json.get("id"@) is None && json.get("method"@) is Some ==> (NotificationView::of(
                json,
            ) is None <==> envelope_fault(members, false) is Some)
            &&& json.get("id"@) is Some && json.get("method"@) is None ==> (ResponseView::of(json)
                is None <==> envelope_fault(members, true) is Some)
        }),
{
    let json = JsonView::Object(members);
    lemma_members_fault(members, false);
    lemma_members_fault(members, true);
    lemma_keys_apart();
    lemma_member_at(members, "jsonrpc"@);
    lemma_member_at(members, "id"@);
    lemma_member_at(members, "method"@);
    lemma_member_at(members, "error"@);
    if let Some(error) = json.get("error"@) {
        if let JsonView::Object(parts) = error {
            lemma_error_fault(parts);
        }
    }
}

/// Something is wrong with an envelope's members where it is with one of them.
proof fn lemma_members_fault(members: Seq<(Seq<char>, JsonView)>, response: bool)
    ensures
        members_fault(members, response) is None <==> forall|i: int|
            0 <= i < members.len() ==> member_fault(
                (#[trigger] members[i]).0,
                members[i].1,
                response,
            ) is None,
    decreases members.len(),
{
    if members.len() > 0 {
        let rest = members.drop_first();
        lemma_members_fault(rest, response);
        assert forall|i: int| 0 <= i < rest.len() implies #[trigger] rest[i] == members[i + 1] by {}
        assert forall|i: int| 1 <= i < members.len() implies #[trigger] members[i] == rest[i
            - 1] by {}
    }
}

/// Something is wrong with an error's members where it is with one of them.
proof fn lemma_parts_fault(members: Seq<(Seq<char>, JsonView)>)
    ensures
        parts_fault(members) is None <==> forall|i: int|
            0 <= i < members.len() ==> part_fault((#[trigger] members[i]).0, members[i].1) is None,
    decreases members.len(),
{
    if members.len() > 0 {
        let rest = members.drop_first();
        lemma_parts_fault(rest);
        assert forall|i: int| 0 <= i < rest.len() implies #[trigger] rest[i] == members[i + 1] by {}
        assert forall|i: int| 1 <= i < members.len() implies #[trigger] members[i] == rest[i
            - 1] by {}
    }
}

/// What stands under a key.
proof fn lemma_member_at(members: Seq<(Seq<char>, JsonView)>, key: Seq<char>)
    requires
        assoc::distinct(members),
    ensures
        match assoc::lookup(members, key) {
            Some(value) => {
                &&& exists|i: int|
                    0 <= i < members.len() && (#[trigger] members[i]).0 == key && members[i].1
                        == value
                &&& forall|i: int|
                    0 <= i < members.len() && (#[trigger] members[i]).0 == key ==> members[i].1
                        == value
            },
            None => forall|i: int| 0 <= i < members.len() ==> (#[trigger] members[i]).0 != key,
        },
{
    assoc::lemma_index_of(members, key);
    if assoc::holds(members, key) {
        let at = assoc::index_of(members, key);
        assert(members[at].0 == key && members[at].1 == assoc::lookup(members, key)->0);
    }
}

/// The members of an envelope, and of an error, have different keys.
proof fn lemma_keys_apart()
    ensures
        "jsonrpc"@ != "id"@,
        "jsonrpc"@ != "method"@,
        "jsonrpc"@ != "error"@,
        "id"@ != "method"@,
        "id"@ != "error"@,
        "method"@ != "error"@,
        "code"@ != "message"@,
{
    reveal_strlit("jsonrpc");
    reveal_strlit("id");
    reveal_strlit("method");
    reveal_strlit("error");
    reveal_strlit("code");
    reveal_strlit("message");
    assert("jsonrpc"@.len() == 7 && "id"@.len() == 2 && "method"@.len() == 6);
    assert("error"@.len() == 5 && "code"@.len() == 4 && "message"@.len() == 7);
}

/// An error object is refused where something is wrong with it that can be told.
proof fn lemma_error_fault(members: Seq<(Seq<char>, JsonView)>)
    requires
        assoc::distinct(members),
    ensures
        ErrorView::of(JsonView::Object(members)) is None <==> error_fault(
            JsonView::Object(members),
        ) is Some,
{
    lemma_keys_apart();
    lemma_parts_fault(members);
    lemma_member_at(members, "code"@);
    lemma_member_at(members, "message"@);
}

/// `true` or `false`.
pub open spec fn bool_text(b: bool) -> Seq<char> {
    if b {
        "true"@
    } else {
        "false"@
    }
}

fn bool_str(b: bool) -> (text: &'static str)
    ensures
        text@ == bool_text(b),
{
    if b {
        "true"
    } else {
        "false"
    }
}

/// How an object that is no envelope is described.
pub open spec fn ambiguous_shape(id: bool, method: bool, result_or_error: bool) -> Seq<char> {
    "id="@ + bool_text(id) + " method="@ + bool_text(method) + " result_or_error="@ + bool_text(
        result_or_error,
    )
}

impl IncomingView {
    /// The envelope as a document.
    pub open spec fn json(self) -> JsonView {
        match self {
            IncomingView::Request(r) => r.json(),
            IncomingView::Notification(n) => n.json(),
            IncomingView::Response(r) => r.json(),
        }
    }

    /// The envelope that a document is. Which members are there decides the
    /// kind; the kind decides what the members must be.
    pub open spec fn of(json: JsonView) -> Result<IncomingView, ParseErrorView> {
        let id = json.get("id"@) is Some;
        let method = json.get("method"@) is Some;
        let outcome = json.get("result"@) is Some || json.get("error"@) is Some;
        if !(json is Object) {
            Err(ParseErrorView::NotAnObject)
        } else if id && method {
            match RequestView::of(json) {
                Some(r) => Ok(IncomingView::Request(r)),
                None => Err(ParseErrorView::Json(told_fault(json, false))),
            }
        } else if method {
            match NotificationView::of(json) {
                Some(n) => Ok(IncomingView::Notification(n)),
                None => Err(ParseErrorView::Json(told_fault(json, false))),
            }
        } else if id && outcome {
            match ResponseView::of(json) {
                Some(r) => Ok(IncomingView::Response(r)),
                None => Err(ParseErrorView::Json(told_fault(json, true))),
            }
        } else {
            Err(ParseErrorView::Ambiguous(ambiguous_shape(id, method, outcome)))
        }
    }

    /// The envelope that a text holds.
    pub open spec fn read(text: Seq<u8>) -> Result<IncomingView, ParseErrorView> {
        match crate::json::json_reading(text) {
            Ok(json) => IncomingView::of(json),
            Err(fault) => Err(ParseErrorView::Json(fault)),
        }
    }

    /// Whether the envelope keeps every member when it is written: nothing
    /// optional is null, and a response has a result or an error.
    pub open spec fn writable(self) -> bool {
        match self {
            IncomingView::Request(r) => r.params != Some(JsonView::Null),
            IncomingView::Notification(n) => n.params != Some(JsonView::Null),
            IncomingView::Response(r) => {
                &&& r.result != Some(JsonView::Null)
                &&& r.result is Some || r.error is Some
                &&& r.error matches Some(e) ==> e.data != Some(JsonView::Null)
            },
        }
    }
}

/// The model of what parsing returns.
pub open spec fn outcome_view(outcome: Result<Incoming, ParseError>) -> Result<
    IncomingView,
    ParseErrorView,
> {
    match outcome {
        Ok(incoming) => Ok(incoming@),
        Err(error) => Err(error@),
    }
}

impl IncomingRequest {
    /// The envelope as a document.
    pub fn to_json(&self) -> (json: Json)
        ensures
            json@ == self@.json(),
    {
        Json::object()
            .field("jsonrpc", Json::string(VERSION))
            .field("id", self.id.to_json())
            .field("method", Json::string(&self.method))
            .field_opt("params", clone_opt(&self.params))
    }

    fn from_json(json: &Json) -> (request: Option<IncomingRequest>)
        ensures
            match request {
                Some(request) => RequestView::of(json@) == Some(request@),
                None => RequestView::of(json@) is None,
            },
    {
        match (read_id(json), json.get_str("method")) {
            (Some(id), Some(method)) => if has_version(json) {
                Some(
                    IncomingRequest {
                        jsonrpc: JsonRpcVersion,
                        id,
                        method: method.to_owned(),
                        params: present_member(json, "params"),
                    },
                )
            } else {
                None
            },
            _ => None,
        }
    }
}

impl IncomingNotification {
    /// The envelope as a document.
    pub fn to_json(&self) -> (json: Json)
        ensures
            json@ == self@.json(),
    {
        Json::object()
            .field("jsonrpc", Json::string(VERSION))
            .field("method", Json::string(&self.method))
            .field_opt("params", clone_opt(&self.params))
    }

    fn from_json(json: &Json) -> (notification: Option<IncomingNotification>)
        ensures
            match notification {
                Some(notification) => NotificationView::of(json@) == Some(notification@),
                None => NotificationView::of(json@) is None,
            },
    {
        match json.get_str("method") {
            Some(method) => if has_version(json) {
                Some(
                    IncomingNotification {
                        jsonrpc: JsonRpcVersion,
                        method: method.to_owned(),
                        params: present_member(json, "params"),
                    },
                )
            } else {
                None
            },
            None => None,
        }
    }
}

impl IncomingResponse {
    /// The envelope as a document.
    pub fn to_json(&self) -> (json: Json)
        ensures
            json@ == self@.json(),
    {
        Json::object()
            .field("jsonrpc", Json::string(VERSION))
            .field("id", self.id.to_json())
            .field_opt("result", clone_opt(&self.result))
            .field_opt("error", match &self.error {
                Some(error) => Some(error.to_json()),
                None => None,
            })
    }

    fn from_json(json: &Json) -> (response: Option<IncomingResponse>)
        ensures
            match response {
                Some(response) => ResponseView::of(json@) == Some(response@),
                None => ResponseView::of(json@) is None,
            },
    {
        match read_id(json) {
            Some(id) => if has_version(json) {
                let error = match present_member(json, "error") {
                    Some(error) => match JsonRpcError::from_json(&error) {
                        Some(error) => Some(error),
                        None => {
                            return None;
                        },
                    },
                    None => None,
                };
                Some(
                    IncomingResponse {
                        jsonrpc: JsonRpcVersion,
                        id,
                        result: present_member(json, "result"),
                        error,
                    },
                )
            } else {
                None
            },
            None => None,
        }
    }
}

impl Incoming {
    /// Reads one frame from its text.
    pub fn parse(bytes: &[u8]) -> (outcome: Result<Incoming, ParseError>)
        ensures
            outcome_view(outcome) == IncomingView::read(bytes@),
    {
        match Json::parse(bytes) {
            Ok(json) => Incoming::from_value(json),
            Err(error) => Err(ParseError::Json(JsonFault::Text(error))),
        }
    }

    /// Reads one frame from a document.
    pub fn from_value(v: Json) -> (outcome: Result<Incoming, ParseError>)
        ensures
            outcome_view(outcome) == IncomingView::of(v@),
    {
        if !v.is_object() {
            return Err(ParseError::NotAnObject);
        }
        let has_id = v.has("id");
        let has_method = v.has("method");
        let has_outcome = v.has("result") || v.has("error");
        if has_id && has_method {
            match IncomingRequest::from_json(&v) {
                Some(request) => Ok(Incoming::Request(request)),
                None => Err(ParseError::Json(JsonFault::Envelope(tell_fault(&v, false)))),
            }
        } else if has_method {
            match IncomingNotification::from_json(&v) {
                Some(notification) => Ok(Incoming::Notification(notification)),
                None => Err(ParseError::Json(JsonFault::Envelope(tell_fault(&v, false)))),
            }
        } else if has_id && has_outcome {
            match IncomingResponse::from_json(&v) {
                Some(response) => Ok(Incoming::Response(response)),
                None => Err(ParseError::Json(JsonFault::Envelope(tell_fault(&v, true)))),
            }
        } else {
            let mut shape = "id=".to_owned();
            shape.append(bool_str(has_id));
            shape.append(" method=");
            shape.append(bool_str(has_method));
            shape.append(" result_or_error=");
            shape.append(bool_str(has_outcome));
            Err(ParseError::Ambiguous(shape))
        }
    }

    /// The envelope as a document.
    pub fn to_json(&self) -> (json: Json)
        ensures
            json@ == self@.json(),
    {
        match self {
            Incoming::Request(r) => r.to_json(),
            Incoming::Notification(n) => n.to_json(),
            Incoming::Response(r) => r.to_json(),
        }
    }

    /// The text of the frame, without a line end.
    pub fn to_vec(&self) -> (text: Vec<u8>)
        ensures
            text@ == crate::json::json_text(self@.json()),
            !text@.contains(10u8),
            self@.writable() && self@.json().plain_within(127) ==> IncomingView::read(text@) == Ok::<
                IncomingView,
                ParseErrorView,
            >(self@),
    {
        proof {
            if self@.writable() {
                law_envelope_round_trip(self@);
            }
        }
        self.to_json().to_vec()
    }
}

/// An envelope that is written and read again is the same envelope.
pub proof fn law_envelope_round_trip(envelope: IncomingView)
    requires
        envelope.writable(),
    ensures
        IncomingView::of(envelope.json()) == Ok::<IncomingView, ParseErrorView>(envelope),
{
    broadcast use crate::json::lemma_get_field;

    reveal_strlit("jsonrpc");
    reveal_strlit("id");
    reveal_strlit("method");
    reveal_strlit("params");
    reveal_strlit("result");
    reveal_strlit("error");
    assert("jsonrpc"@.len() == 7 && "id"@.len() == 2 && "error"@.len() == 5);
    assert("method"@.len() == 6 && "params"@.len() == 6 && "result"@.len() == 6);
    assert("method"@[0] == 'm' && "params"@[0] == 'p' && "result"@[0] == 'r');
    if let IncomingView::Response(response) = envelope {
        if let Some(error) = response.error {
            law_error_round_trip(error);
        }
    }
}

/// An error object that is written and read again is the same error.
pub proof fn law_error_round_trip(error: ErrorView)
    requires
        error.data != Some(JsonView::Null),
    ensures
        ErrorView::of(error.json()) == Some(error),
        error.json() is Object,
{
    broadcast use crate::json::lemma_get_field;

    reveal_strlit("code");
    reveal_strlit("message");
    reveal_strlit("data");
    assert("code"@.len() == 4 && "message"@.len() == 7 && "data"@.len() == 4);
    assert("code"@[0] == 'c' && "data"@[0] == 'd');
}

/// An id that is written and read again is the same id.
pub proof fn law_id_round_trip(id: IdView)
    ensures
        IdView::of(id.json()) == Some(id),
{
}

/// The value of a member, where it has one other than null.
pub open spec fn value_at(json: JsonView, key: Seq<char>) -> Option<JsonView> {
    if json.get(key) == Some(JsonView::Null) {
        None
    } else {
        json.get(key)
    }
}

/// What kind of envelope an object is follows from the members that it has, whatever
/// their values: an id and a method make a request, a method alone a notification,
/// and an id with a result or an error a response. Anything else is none, and it is
/// said what was there. One that is of a kind but has a wrong member is refused for
/// that; the error is looked at in a response only.
pub proof fn law_members_tell_the_kind(json: JsonView)
    ensures
        ({
            let read = IncomingView::of(json);
            let id = json.get("id"@) is Some;
            let method = json.get("method"@) is Some;
            let outcome = json.get("result"@) is Some || json.get("error"@) is Some;
            let text = |b: bool|
                if b {
                    "true"@
                } else {
                    "false"@
                };
            &&& !(json is Object) ==> read == Err::<IncomingView, _>(ParseErrorView::NotAnObject)
            &&& json is Object && read is Ok && id && method ==> read->Ok_0 is Request
            &&& json is Object && read is Ok && !id && method ==> read->Ok_0 is Notification
            &&& json is Object && read is Ok && !method ==> read->Ok_0 is Response
            &&& json is Object && !method && !(id && outcome) ==> read == Err::<IncomingView, _>(
                ParseErrorView::Ambiguous(
                    "id="@ + text(id) + " method="@ + text(method) + " result_or_error="@ + text(
                        outcome,
                    ),
                ),
            )
            &&& json is Object && (method || id && outcome) && read is Err ==> read == Err::<
                IncomingView,
                _,
            >(ParseErrorView::Json(told_fault(json, !method)))
        }),
{
}

/// A request has what its members say: the id, the method, and the parameters where
/// there are any.
pub proof fn law_request_is_read(json: JsonView, id: IdView, method: Seq<char>)
    requires
        json is Object,
        json.get("jsonrpc"@) == Some(JsonView::String("2.0"@)),
        json.get("id"@) == Some(id.json()),
        json.get("method"@) == Some(JsonView::String(method)),
    ensures
        IncomingView::of(json) == Ok::<_, ParseErrorView>(
            IncomingView::Request(
                RequestView { id, method, params: value_at(json, "params"@) },
            ),
        ),
{
    law_id_round_trip(id);
}

/// A notification has what its members say: the method, and the parameters where
/// there are any.
pub proof fn law_notification_is_read(json: JsonView, method: Seq<char>)
    requires
        json is Object,
        json.get("jsonrpc"@) == Some(JsonView::String("2.0"@)),
        json.get("id"@) is None,
        json.get("method"@) == Some(JsonView::String(method)),
    ensures
        IncomingView::of(json) == Ok::<_, ParseErrorView>(
            IncomingView::Notification(
                NotificationView { method, params: value_at(json, "params"@) },
            ),
        ),
{
}

/// A response has what its members say: the id, the result where there is one, and
/// the error where there is one.
pub proof fn law_response_is_read(json: JsonView, id: IdView)
    requires
        json is Object,
        json.get("jsonrpc"@) == Some(JsonView::String("2.0"@)),
        json.get("id"@) == Some(id.json()),
        json.get("method"@) is None,
        json.get("result"@) is Some || json.get("error"@) is Some,
    ensures
        value_at(json, "error"@) is None ==> IncomingView::of(json) == Ok::<_, ParseErrorView>(
            IncomingView::Response(
                ResponseView { id, result: value_at(json, "result"@), error: None },
            ),
        ),
        value_at(json, "error"@) matches Some(error) ==> ErrorView::of(error) matches Some(error)
            ==> IncomingView::of(json) == Ok::<_, ParseErrorView>(
            IncomingView::Response(
                ResponseView { id, result: value_at(json, "result"@), error: Some(error) },
            ),
        ),
{
    law_id_round_trip(id);
}

/// An error has what its members say, or what stands in their places where it is
/// written as a list.
pub proof fn law_error_is_read(error: JsonView, code: i64, message: Seq<char>, data: JsonView)
    requires
        !(data is Null),
    ensures
        error is Object && error.get("code"@) == Some(JsonView::Int(code as int)) && error.get(
            "message"@,
        ) == Some(JsonView::String(message)) ==> ErrorView::of(error) == Some(
            ErrorView { code, message, data: value_at(error, "data"@) },
        ),
        ErrorView::of(
            JsonView::Array(seq![JsonView::Int(code as int), JsonView::String(message)]),
        ) == Some(ErrorView { code, message, data: None }),
        ErrorView::of(
            JsonView::Array(seq![JsonView::Int(code as int), JsonView::String(message), data]),
        ) == Some(ErrorView { code, message, data: Some(data) }),
{
}

/// Any other version, or none, is refused.
pub proof fn law_there_is_one_version(json: JsonView)
    requires
        json.get("jsonrpc"@) != Some(JsonView::String("2.0"@)),
    ensures
        IncomingView::of(json) is Err,
{
}

/// An envelope is written with its parts under their names: the version, the id, the
/// method, and what else there is.
pub proof fn law_envelope_shows(
    request: RequestView,
    notification: NotificationView,
    response: ResponseView,
)
    ensures
        ({
            let written = request.json();
            &&& written.get("jsonrpc"@) == Some(JsonView::String("2.0"@))
            &&& written.get("id"@) == Some(request.id.json())
            &&& written.get("method"@) == Some(JsonView::String(request.method))
            &&& written.get("params"@) == request.params
        }),
        ({
            let written = notification.json();
            &&& written.get("jsonrpc"@) == Some(JsonView::String("2.0"@))
            &&& written.get("id"@) is None
            &&& written.get("method"@) == Some(JsonView::String(notification.method))
            &&& written.get("params"@) == notification.params
        }),
        ({
            let written = response.json();
            &&& written.get("jsonrpc"@) == Some(JsonView::String("2.0"@))
            &&& written.get("id"@) == Some(response.id.json())
            &&& written.get("method"@) is None
            &&& written.get("result"@) == response.result
            &&& response.error is None ==> written.get("error"@) is None
            &&& response.error matches Some(error) ==> {
                &&& written.get("error"@) is Some
                &&& written.get("error"@)->0.get("code"@) == Some(JsonView::Int(error.code as int))
                &&& written.get("error"@)->0.get("message"@) == Some(
                    JsonView::String(error.message),
                )
                &&& written.get("error"@)->0.get("data"@) == error.data
            }
        }),
{
    broadcast use crate::json::lemma_get_field;

    crate::protocol::names::lemma_names();
    assert(JsonView::object().get("id"@) is None);
    assert(JsonView::object().get("method"@) is None);
    assert(JsonView::object().get("params"@) is None);
    assert(JsonView::object().get("result"@) is None);
    assert(JsonView::object().get("error"@) is None);
    assert(JsonView::object().get("data"@) is None);
}

/// An id is written as what it is.
pub proof fn law_id_shows(n: i64, s: Seq<char>)
    ensures
        IdView::Number(n).json() == JsonView::Int(n as int),
        IdView::String(s).json() == JsonView::String(s),
        IdView::Null.json() == JsonView::Null,
{
}

/// What is said of frames that are no envelope.
pub proof fn law_faults_are_told(cause: Seq<char>, error: ErrorView)
    ensures
        ParseErrorView::Json(cause).message() == "json decode: "@ + cause,
        ParseErrorView::NotAnObject.message() == "frame is not a JSON object"@,
        ParseErrorView::Ambiguous(cause).message()
            == "frame matches no JSON-RPC envelope shape: "@ + cause,
        error.text() == "jsonrpc error "@ + text::integer_of(error.code as int) + ": "@
            + error.message,
{
}

proof fn lemma_first_fault(
    front: Seq<(Seq<char>, JsonView)>,
    rest: Seq<(Seq<char>, JsonView)>,
    response: bool,
)
    requires
        forall|i: int|
            0 <= i < front.len() ==> member_fault(
                (#[trigger] front[i]).0,
                front[i].1,
                response,
            ) is None,
    ensures
        members_fault(front + rest, response) == members_fault(rest, response),
    decreases front.len(),
{
    if front.len() == 0 {
        assert(front + rest =~= rest);
    } else {
        let later = front.drop_first();
        assert forall|i: int| 0 <= i < later.len() implies member_fault(
            (#[trigger] later[i]).0,
            later[i].1,
            response,
        ) is None by {
            assert(later[i] == front[i + 1]);
        }
        lemma_first_fault(later, rest, response);
        assert((front + rest).drop_first() =~= later + rest);
        assert((front + rest)[0] == front[0]);
    }
}

/// Of an envelope that is refused, the first member that is wrong is told of; where
/// none is, it is that the version is missing.
pub proof fn law_first_wrong_member_is_told(
    front: Seq<(Seq<char>, JsonView)>,
    key: Seq<char>,
    value: JsonView,
    back: Seq<(Seq<char>, JsonView)>,
    response: bool,
)
    requires
        forall|i: int|
            0 <= i < front.len() ==> member_fault(
                (#[trigger] front[i]).0,
                front[i].1,
                response,
            ) is None,
    ensures
        member_fault(key, value, response) is Some ==> told_fault(
            JsonView::Object(front + seq![(key, value)] + back),
            response,
        ) == member_fault(key, value, response)->0,
        JsonView::Object(front).get("jsonrpc"@) is None ==> told_fault(
            JsonView::Object(front),
            response,
        ) == "missing field `"@ + "jsonrpc"@ + "`"@,
{
    let rest = seq![(key, value)] + back;
    lemma_first_fault(front, rest, response);
    assert(front + seq![(key, value)] + back =~= front + rest);
    assert(rest[0] == (key, value));
    lemma_first_fault(front, Seq::empty(), response);
    assert(front + Seq::<(Seq<char>, JsonView)>::empty() =~= front);
}

/// What can be wrong with a member: the version is another one or no text, the id is
/// no id, the method is no text, and the error of a response is no error. Any other
/// member is right, whatever it is.
pub proof fn law_what_can_be_wrong_with_a_member(
    value: JsonView,
    response: bool,
    other: Seq<char>,
)
    ensures
        value matches JsonView::String(version) ==> member_fault("jsonrpc"@, value, response)
            == if version == "2.0"@ {
            None
        } else {
            Some(
                "unsupported jsonrpc version "@ + text::debug_text(version)
                    + ", expected \"2.0\""@,
            )
        },
        !(value is String) ==> member_fault("jsonrpc"@, value, response) == Some(
            json::type_fault(value, "a string"@),
        ) && member_fault("method"@, value, response) == Some(
            json::type_fault(value, "a string"@),
        ),
        value is String ==> member_fault("method"@, value, response) is None,
        member_fault("id"@, value, response) == if IdView::of(value) is Some {
            None
        } else {
            Some("data did not match any variant of untagged enum Id"@)
        },
        member_fault("error"@, value, false) is None,
        value is Null ==> member_fault("error"@, value, response) is None,
        !(value is Null) ==> member_fault("error"@, value, true) == error_fault(value),
        other != "jsonrpc"@ && other != "id"@ && other != "method"@ && other != "error"@
            ==> member_fault(other, value, response) is None,
{
    lemma_keys_apart();
    crate::protocol::names::lemma_names();
}

/// What can be wrong with an error: the code is no number that fits, the message is
/// no text, one of them is missing, or it is neither an object nor a list of the
/// right length.
pub proof fn law_what_can_be_wrong_with_an_error(
    code: JsonView,
    message: JsonView,
    items: Seq<JsonView>,
)
    ensures
        part_fault("code"@, code) == signed_fault(code),
        part_fault("message"@, message) == string_fault(message),
        code matches JsonView::Int(n) ==> signed_fault(code) == if i64::MIN <= n <= i64::MAX {
            None
        } else {
            Some("invalid value: integer `"@ + text::integer_of(n) + "`, expected i64"@)
        },
        !(code is Int) ==> signed_fault(code) == Some(json::type_fault(code, "i64"@)),
        error_fault(JsonView::Object(Seq::empty())) == Some("missing field `"@ + "code"@ + "`"@),
        code is Int && signed_fault(code) is None ==> error_fault(
            JsonView::Object(seq![("code"@, code)]),
        ) == Some("missing field `"@ + "message"@ + "`"@),
        error_fault(JsonView::Array(Seq::empty())) == Some(
            "invalid length "@ + text::decimal_of(0) + ", expected "@
                + "struct JsonRpcError with 3 elements"@,
        ),
        items.len() > 0 && signed_fault(items[0]) is Some ==> error_fault(JsonView::Array(items))
            == signed_fault(items[0]),
        items.len() == 1 && signed_fault(items[0]) is None ==> error_fault(JsonView::Array(items))
            == Some(
            "invalid length "@ + text::decimal_of(1) + ", expected "@
                + "struct JsonRpcError with 3 elements"@,
        ),
        items.len() > 3 && signed_fault(items[0]) is None && items[1] is String ==> error_fault(
            JsonView::Array(items),
        ) == Some(
            "invalid length "@ + text::decimal_of(items.len()) + ", expected "@
                + "fewer elements in array"@,
        ),
        code is Bool ==> error_fault(code) == Some(json::type_fault(code, "struct JsonRpcError"@)),
{
    lemma_keys_apart();
    crate::protocol::names::lemma_names();
    reveal_with_fuel(parts_fault, 3);
    let one = seq![("code"@, code)];
    assert(one.drop_first() =~= Seq::empty());
    assert(one[0] == ("code"@, code));
    reveal_with_fuel(assoc::index_of, 3);
}

} // verus!
