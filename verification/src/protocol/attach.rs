//! `session/attach` and `session/detach`: what they ask for and what they
//! are answered.
//!
//! The mux answers both itself. The peer is attached already when it asks; the
//! answer to `session/attach` carries the history that `historyPolicy` and
//! `_meta.amux` ask for.

use crate::json;
use crate::json::{Json, JsonView, ToJson};
use crate::protocol::amux::{EndReason, HermesProvenance, HermesProvenanceView, SegmentId};
use crate::text::same_text;
use vstd::prelude::*;

verus! {

pub const METHOD_ATTACH: &'static str = "session/attach";

pub const METHOD_DETACH: &'static str = "session/detach";

pub const ATTACH_ERR_NOT_FOUND: i64 = -32001;

pub const ATTACH_ERR_UNSUPPORTED: i64 = -32003;

/// Which part of the history a client asks for.
#[derive(Debug, Clone, Copy, PartialEq, Eq, Structural)]
pub enum HistoryPolicy {
    /// What was recorded in the current segment, and before the first one.
    Full,
    /// What was recorded in all segments.
    FullLineage,
    /// The permission requests that wait for an answer.
    PendingOnly,
    /// Nothing.
    NoHistory,
    /// Everything after a message. Messages have no lasting ids yet, so this is
    /// answered as `Full`.
    AfterMessage,
}

/// In which order history is delivered.
#[derive(Debug, Clone, Copy, PartialEq, Eq, Structural)]
pub enum ReplayOrder {
    Chronological,
    NewestTurnFirst,
}

/// Whether history comes with the answer or as frames of its own.
#[derive(Debug, Clone, Copy, PartialEq, Eq, Structural)]
pub enum HistoryDelivery {
    Response,
    Stream,
}

impl Default for HistoryPolicy {
    fn default() -> (policy: Self)
        ensures
            policy == HistoryPolicy::Full,
    {
        HistoryPolicy::Full
    }
}

impl Default for ReplayOrder {
    fn default() -> (order: Self)
        ensures
            order == ReplayOrder::Chronological,
    {
        ReplayOrder::Chronological
    }
}

impl Default for HistoryDelivery {
    fn default() -> (delivery: Self)
        ensures
            delivery == HistoryDelivery::Response,
    {
        HistoryDelivery::Response
    }
}

/// The name that a variant without content is written by: a string, or an
/// object whose only member has that key and is null.
pub open spec fn variant_name(json: JsonView) -> Option<Seq<char>> {
    match json {
        JsonView::String(name) => Some(name),
        JsonView::Object(members) => if members.len() == 1 && members[0].1 is Null {
            Some(members[0].0)
        } else {
            None
        },
        _ => None,
    }
}

fn read_variant_name(json: &Json) -> (name: Option<&str>)
    ensures
        name.deep_view() == variant_name(json@),
{
    match json {
        Json::String(name) => Some(name.as_str()),
        Json::Object(object) => {
            if object.len() == 1 {
                let (key, value) = object.entry(0);
                if value.is_null() {
                    Some(key)
                } else {
                    None
                }
            } else {
                None
            }
        },
        _ => None,
    }
}

impl HistoryPolicy {
    /// The policy as clients write it.
    pub open spec fn text(self) -> Seq<char> {
        match self {
            HistoryPolicy::Full => "full"@,
            HistoryPolicy::FullLineage => "full_lineage"@,
            HistoryPolicy::PendingOnly => "pending_only"@,
            HistoryPolicy::NoHistory => "none"@,
            HistoryPolicy::AfterMessage => "after_message"@,
        }
    }

    /// The policy that a document names.
    pub open spec fn of(json: JsonView) -> Option<HistoryPolicy> {
        match variant_name(json) {
            Some(name) => if name == "full"@ {
                Some(HistoryPolicy::Full)
            } else if name == "full_lineage"@ {
                Some(HistoryPolicy::FullLineage)
            } else if name == "pending_only"@ {
                Some(HistoryPolicy::PendingOnly)
            } else if name == "none"@ {
                Some(HistoryPolicy::NoHistory)
            } else if name == "after_message"@ {
                Some(HistoryPolicy::AfterMessage)
            } else {
                None
            },
            None => None,
        }
    }

    /// The policy as clients write it.
    pub fn as_str(self) -> (text: &'static str)
        ensures
            text@ == self.text(),
    {
        match self {
            HistoryPolicy::Full => "full",
            HistoryPolicy::FullLineage => "full_lineage",
            HistoryPolicy::PendingOnly => "pending_only",
            HistoryPolicy::NoHistory => "none",
            HistoryPolicy::AfterMessage => "after_message",
        }
    }

    fn from_json(json: &Json) -> (policy: Option<HistoryPolicy>)
        ensures
            policy == HistoryPolicy::of(json@),
    {
        match read_variant_name(json) {
            Some(name) => if same_text(name, "full") {
                Some(HistoryPolicy::Full)
            } else if same_text(name, "full_lineage") {
                Some(HistoryPolicy::FullLineage)
            } else if same_text(name, "pending_only") {
                Some(HistoryPolicy::PendingOnly)
            } else if same_text(name, "none") {
                Some(HistoryPolicy::NoHistory)
            } else if same_text(name, "after_message") {
                Some(HistoryPolicy::AfterMessage)
            } else {
                None
            },
            None => None,
        }
    }

    /// The policy that is applied for this one.
    pub open spec fn effective(self) -> HistoryPolicy {
        match self {
            HistoryPolicy::AfterMessage => HistoryPolicy::Full,
            other => other,
        }
    }

    /// The policy that is applied for this one.
    pub fn applied(self) -> (policy: HistoryPolicy)
        ensures
            policy == self.effective(),
    {
        match self {
            HistoryPolicy::AfterMessage => HistoryPolicy::Full,
            other => other,
        }
    }
}

impl ReplayOrder {
    /// The order as clients write it.
    pub open spec fn text(self) -> Seq<char> {
        match self {
            ReplayOrder::Chronological => "chronological"@,
            ReplayOrder::NewestTurnFirst => "newest_turn_first"@,
        }
    }

    /// The order that a document names.
    pub open spec fn of(json: JsonView) -> Option<ReplayOrder> {
        match variant_name(json) {
            Some(name) => if name == "chronological"@ {
                Some(ReplayOrder::Chronological)
            } else if name == "newest_turn_first"@ {
                Some(ReplayOrder::NewestTurnFirst)
            } else {
                None
            },
            None => None,
        }
    }

    /// The order as clients write it.
    pub fn as_str(self) -> (text: &'static str)
        ensures
            text@ == self.text(),
    {
        match self {
            ReplayOrder::Chronological => "chronological",
            ReplayOrder::NewestTurnFirst => "newest_turn_first",
        }
    }

    fn from_json(json: &Json) -> (order: Option<ReplayOrder>)
        ensures
            order == ReplayOrder::of(json@),
    {
        match read_variant_name(json) {
            Some(name) => if same_text(name, "chronological") {
                Some(ReplayOrder::Chronological)
            } else if same_text(name, "newest_turn_first") {
                Some(ReplayOrder::NewestTurnFirst)
            } else {
                None
            },
            None => None,
        }
    }
}

impl HistoryDelivery {
    /// The delivery as clients write it.
    pub open spec fn text(self) -> Seq<char> {
        match self {
            HistoryDelivery::Response => "response"@,
            HistoryDelivery::Stream => "stream"@,
        }
    }

    /// The delivery that a document names.
    pub open spec fn of(json: JsonView) -> Option<HistoryDelivery> {
        match variant_name(json) {
            Some(name) => if name == "response"@ {
                Some(HistoryDelivery::Response)
            } else if name == "stream"@ {
                Some(HistoryDelivery::Stream)
            } else {
                None
            },
            None => None,
        }
    }

    /// The delivery as clients write it.
    pub fn as_str(self) -> (text: &'static str)
        ensures
            text@ == self.text(),
    {
        match self {
            HistoryDelivery::Response => "response",
            HistoryDelivery::Stream => "stream",
        }
    }

    fn from_json(json: &Json) -> (delivery: Option<HistoryDelivery>)
        ensures
            delivery == HistoryDelivery::of(json@),
    {
        match read_variant_name(json) {
            Some(name) => if same_text(name, "response") {
                Some(HistoryDelivery::Response)
            } else if same_text(name, "stream") {
                Some(HistoryDelivery::Stream)
            } else {
                None
            },
            None => None,
        }
    }
}

/// What `session/attach` asks for.
#[derive(Debug)]
pub struct AttachParams {
    pub session_id: Option<String>,
    pub history_policy: Option<HistoryPolicy>,
    pub after_message_id: Option<String>,
    pub client_id: Option<String>,
    pub client_info: Option<ClientInfo>,
    pub meta: Option<AttachParamsMeta>,
}

#[derive(Debug, Clone, Copy)]
pub struct AttachParamsMeta {
    pub amux: Option<AttachParamsAmuxMeta>,
}

#[derive(Debug, Clone, Copy)]
pub struct AttachParamsAmuxMeta {
    pub replay_order: Option<ReplayOrder>,
    pub history_delivery: Option<HistoryDelivery>,
}

/// A client's name and version.
#[derive(Debug)]
pub struct ClientInfo {
    pub name: String,
    pub version: Option<String>,
}

/// The model of [`ClientInfo`].
#[verifier::ext_equal]
pub struct ClientInfoView {
    pub name: Seq<char>,
    pub version: Option<Seq<char>>,
}

/// The model of [`AttachParams`].
#[verifier::ext_equal]
pub struct AttachParamsView {
    pub session_id: Option<Seq<char>>,
    pub history_policy: Option<HistoryPolicy>,
    pub after_message_id: Option<Seq<char>>,
    pub client_id: Option<Seq<char>>,
    pub client_info: Option<ClientInfoView>,
    pub meta: Option<AttachParamsMeta>,
}

impl DeepView for ClientInfo {
    type V = ClientInfoView;

    open spec fn deep_view(&self) -> ClientInfoView {
        ClientInfoView { name: self.name@, version: self.version.deep_view() }
    }
}

impl View for AttachParams {
    type V = AttachParamsView;

    open spec fn view(&self) -> AttachParamsView {
        AttachParamsView {
            session_id: self.session_id.deep_view(),
            history_policy: self.history_policy,
            after_message_id: self.after_message_id.deep_view(),
            client_id: self.client_id.deep_view(),
            client_info: self.client_info.deep_view(),
            meta: self.meta,
        }
    }
}

/// Whether a document can stand for a record of `count` members: an object, or
/// an array that lists no more than `count` of them in order.
pub open spec fn record_like(json: JsonView, count: nat) -> bool {
    match json {
        JsonView::Object(_) => true,
        JsonView::Array(items) => items.len() <= count,
        _ => false,
    }
}

/// The member of a record that is called `key`, or stands at `index` where the
/// record is written as an array.
pub open spec fn record_member(json: JsonView, key: Seq<char>, index: int) -> Option<JsonView> {
    match json {
        JsonView::Array(items) => if index < items.len() {
            Some(items[index])
        } else {
            None
        },
        _ => json.get(key),
    }
}

fn is_record(json: &Json, count: usize) -> (yes: bool)
    ensures
        yes == record_like(json@, count as nat),
{
    match json {
        Json::Object(_) => true,
        Json::Array(items) => items.len() <= count,
        _ => false,
    }
}

fn read_member<'a>(json: &'a Json, key: &str, index: usize) -> (member: Option<&'a Json>)
    ensures
        member.deep_view() == record_member(json@, key@, index as int),
{
    match json {
        Json::Array(items) => if index < items.len() {
            Some(&items[index])
        } else {
            None
        },
        _ => json.get(key),
    }
}

/// A member that may be absent or null and is a text otherwise. `None` where it
/// is something else.
pub open spec fn text_member(member: Option<JsonView>) -> Option<Option<Seq<char>>> {
    match member {
        None => Some(None),
        Some(JsonView::Null) => Some(None),
        Some(JsonView::String(text)) => Some(Some(text)),
        Some(_) => None,
    }
}

fn read_text(member: Option<&Json>) -> (text: Option<Option<String>>)
    ensures
        text.deep_view() == text_member(member.deep_view()),
{
    match member {
        None => Some(None),
        Some(Json::Null) => Some(None),
        Some(Json::String(text)) => Some(Some(text.clone())),
        Some(_) => None,
    }
}

impl HistoryPolicy {
    /// A member that may be absent or null and is a policy otherwise.
    pub open spec fn member(member: Option<JsonView>) -> Option<Option<HistoryPolicy>> {
        match member {
            None => Some(None),
            Some(JsonView::Null) => Some(None),
            Some(json) => match HistoryPolicy::of(json) {
                Some(policy) => Some(Some(policy)),
                None => None,
            },
        }
    }

    fn read(member: Option<&Json>) -> (policy: Option<Option<HistoryPolicy>>)
        ensures
            policy == Self::member(member.deep_view()),
    {
        match member {
            None => Some(None),
            Some(Json::Null) => Some(None),
            Some(json) => match HistoryPolicy::from_json(json) {
                Some(policy) => Some(Some(policy)),
                None => None,
            },
        }
    }
}

impl ReplayOrder {
    /// A member that may be absent or null and is an order otherwise.
    pub open spec fn member(member: Option<JsonView>) -> Option<Option<ReplayOrder>> {
        match member {
            None => Some(None),
            Some(JsonView::Null) => Some(None),
            Some(json) => match ReplayOrder::of(json) {
                Some(order) => Some(Some(order)),
                None => None,
            },
        }
    }

    fn read(member: Option<&Json>) -> (order: Option<Option<ReplayOrder>>)
        ensures
            order == Self::member(member.deep_view()),
    {
        match member {
            None => Some(None),
            Some(Json::Null) => Some(None),
            Some(json) => match ReplayOrder::from_json(json) {
                Some(order) => Some(Some(order)),
                None => None,
            },
        }
    }
}

impl HistoryDelivery {
    /// A member that may be absent or null and is a delivery otherwise.
    pub open spec fn member(member: Option<JsonView>) -> Option<Option<HistoryDelivery>> {
        match member {
            None => Some(None),
            Some(JsonView::Null) => Some(None),
            Some(json) => match HistoryDelivery::of(json) {
                Some(delivery) => Some(Some(delivery)),
                None => None,
            },
        }
    }

    fn read(member: Option<&Json>) -> (delivery: Option<Option<HistoryDelivery>>)
        ensures
            delivery == Self::member(member.deep_view()),
    {
        match member {
            None => Some(None),
            Some(Json::Null) => Some(None),
            Some(json) => match HistoryDelivery::from_json(json) {
                Some(delivery) => Some(Some(delivery)),
                None => None,
            },
        }
    }
}

impl ClientInfoView {
    /// The client that a document describes.
    pub open spec fn of(json: JsonView) -> Option<ClientInfoView> {
        if record_like(json, 2) {
            match (
                record_member(json, "name"@, 0),
                text_member(record_member(json, "version"@, 1)),
            ) {
                (Some(JsonView::String(name)), Some(version)) => Some(
                    ClientInfoView { name, version },
                ),
                _ => None,
            }
        } else {
            None
        }
    }

    /// A member that may be absent or null and describes a client otherwise.
    pub open spec fn member(member: Option<JsonView>) -> Option<Option<ClientInfoView>> {
        match member {
            None => Some(None),
            Some(JsonView::Null) => Some(None),
            Some(json) => match ClientInfoView::of(json) {
                Some(info) => Some(Some(info)),
                None => None,
            },
        }
    }
}

impl ClientInfo {
    fn from_json(json: &Json) -> (info: Option<ClientInfo>)
        ensures
            info.deep_view() == ClientInfoView::of(json@),
    {
        if is_record(json, 2) {
            match (read_member(json, "name", 0), read_text(read_member(json, "version", 1))) {
                (Some(Json::String(name)), Some(version)) => Some(
                    ClientInfo { name: name.clone(), version },
                ),
                _ => None,
            }
        } else {
            None
        }
    }

    fn read(member: Option<&Json>) -> (info: Option<Option<ClientInfo>>)
        ensures
            info.deep_view() == ClientInfoView::member(member.deep_view()),
    {
        match member {
            None => Some(None),
            Some(Json::Null) => Some(None),
            Some(json) => match ClientInfo::from_json(json) {
                Some(info) => Some(Some(info)),
                None => None,
            },
        }
    }
}

impl AttachParamsAmuxMeta {
    /// What `_meta.amux` asks for.
    pub open spec fn of(json: JsonView) -> Option<AttachParamsAmuxMeta> {
        if record_like(json, 2) {
            match (
                ReplayOrder::member(record_member(json, "replayOrder"@, 0)),
                HistoryDelivery::member(record_member(json, "historyDelivery"@, 1)),
            ) {
                (Some(replay_order), Some(history_delivery)) => Some(
                    AttachParamsAmuxMeta { replay_order, history_delivery },
                ),
                _ => None,
            }
        } else {
            None
        }
    }

    fn from_json(json: &Json) -> (meta: Option<AttachParamsAmuxMeta>)
        ensures
            meta == Self::of(json@),
    {
        if is_record(json, 2) {
            match (
                ReplayOrder::read(read_member(json, "replayOrder", 0)),
                HistoryDelivery::read(read_member(json, "historyDelivery", 1)),
            ) {
                (Some(replay_order), Some(history_delivery)) => Some(
                    AttachParamsAmuxMeta { replay_order, history_delivery },
                ),
                _ => None,
            }
        } else {
            None
        }
    }
}

impl AttachParamsMeta {
    /// What `_meta` asks for.
    pub open spec fn of(json: JsonView) -> Option<AttachParamsMeta> {
        if record_like(json, 1) {
            match record_member(json, "amux"@, 0) {
                None => Some(AttachParamsMeta { amux: None }),
                Some(JsonView::Null) => Some(AttachParamsMeta { amux: None }),
                Some(amux) => match AttachParamsAmuxMeta::of(amux) {
                    Some(amux) => Some(AttachParamsMeta { amux: Some(amux) }),
                    None => None,
                },
            }
        } else {
            None
        }
    }

    /// A member that may be absent or null and is metadata otherwise.
    pub open spec fn member(member: Option<JsonView>) -> Option<Option<AttachParamsMeta>> {
        match member {
            None => Some(None),
            Some(JsonView::Null) => Some(None),
            Some(json) => match AttachParamsMeta::of(json) {
                Some(meta) => Some(Some(meta)),
                None => None,
            },
        }
    }

    fn from_json(json: &Json) -> (meta: Option<AttachParamsMeta>)
        ensures
            meta == Self::of(json@),
    {
        if is_record(json, 1) {
            match read_member(json, "amux", 0) {
                None => Some(AttachParamsMeta { amux: None }),
                Some(amux) => if amux.is_null() {
                    Some(AttachParamsMeta { amux: None })
                } else {
                    match AttachParamsAmuxMeta::from_json(amux) {
                        Some(amux) => Some(AttachParamsMeta { amux: Some(amux) }),
                        None => None,
                    }
                },
            }
        } else {
            None
        }
    }

    fn read(member: Option<&Json>) -> (meta: Option<Option<AttachParamsMeta>>)
        ensures
            meta == Self::member(member.deep_view()),
    {
        match member {
            None => Some(None),
            Some(Json::Null) => Some(None),
            Some(json) => match AttachParamsMeta::from_json(json) {
                Some(meta) => Some(Some(meta)),
                None => None,
            },
        }
    }
}

impl AttachParamsView {
    /// A request that asks for nothing in particular.
    pub open spec fn nothing() -> AttachParamsView {
        AttachParamsView {
            session_id: None,
            history_policy: None,
            after_message_id: None,
            client_id: None,
            client_info: None,
            meta: None,
        }
    }

    /// What a document asks for.
    pub open spec fn of(json: JsonView) -> Option<AttachParamsView> {
        if record_like(json, 6) {
            match (
                text_member(record_member(json, "sessionId"@, 0)),
                HistoryPolicy::member(record_member(json, "historyPolicy"@, 1)),
                text_member(record_member(json, "afterMessageId"@, 2)),
                text_member(record_member(json, "clientId"@, 3)),
                ClientInfoView::member(record_member(json, "clientInfo"@, 4)),
                AttachParamsMeta::member(record_member(json, "_meta"@, 5)),
            ) {
                (
                    Some(session_id),
                    Some(history_policy),
                    Some(after_message_id),
                    Some(client_id),
                    Some(client_info),
                    Some(meta),
                ) => Some(
                    AttachParamsView {
                        session_id,
                        history_policy,
                        after_message_id,
                        client_id,
                        client_info,
                        meta,
                    },
                ),
                _ => None,
            }
        } else {
            None
        }
    }

    /// What the parameters of a request ask for. Parameters that cannot be read
    /// ask for nothing in particular.
    pub open spec fn of_request(params: Option<JsonView>) -> AttachParamsView {
        match params {
            Some(json) => match Self::of(json) {
                Some(params) => params,
                None => Self::nothing(),
            },
            None => Self::nothing(),
        }
    }

    /// The policy that is applied.
    pub open spec fn policy(self) -> HistoryPolicy {
        match self.history_policy {
            Some(policy) => policy.effective(),
            None => HistoryPolicy::Full,
        }
    }

    /// The order that is asked for.
    pub open spec fn replay_order(self) -> ReplayOrder {
        match self.meta {
            Some(AttachParamsMeta { amux: Some(amux) }) => match amux.replay_order {
                Some(order) => order,
                None => ReplayOrder::Chronological,
            },
            _ => ReplayOrder::Chronological,
        }
    }

    /// The delivery that is asked for.
    pub open spec fn history_delivery(self) -> HistoryDelivery {
        match self.meta {
            Some(AttachParamsMeta { amux: Some(amux) }) => match amux.history_delivery {
                Some(delivery) => delivery,
                None => HistoryDelivery::Response,
            },
            _ => HistoryDelivery::Response,
        }
    }
}

impl Default for AttachParams {
    fn default() -> (params: Self)
        ensures
            params@ == AttachParamsView::nothing(),
    {
        AttachParams {
            session_id: None,
            history_policy: None,
            after_message_id: None,
            client_id: None,
            client_info: None,
            meta: None,
        }
    }
}

impl AttachParams {
    fn from_json(json: &Json) -> (params: Option<AttachParams>)
        ensures
            match params {
                Some(params) => AttachParamsView::of(json@) == Some(params@),
                None => AttachParamsView::of(json@) is None,
            },
    {
        if is_record(json, 6) {
            match (
                read_text(read_member(json, "sessionId", 0)),
                HistoryPolicy::read(read_member(json, "historyPolicy", 1)),
                read_text(read_member(json, "afterMessageId", 2)),
                read_text(read_member(json, "clientId", 3)),
                ClientInfo::read(read_member(json, "clientInfo", 4)),
                AttachParamsMeta::read(read_member(json, "_meta", 5)),
            ) {
                (
                    Some(session_id),
                    Some(history_policy),
                    Some(after_message_id),
                    Some(client_id),
                    Some(client_info),
                    Some(meta),
                ) => Some(
                    AttachParams {
                        session_id,
                        history_policy,
                        after_message_id,
                        client_id,
                        client_info,
                        meta,
                    },
                ),
                _ => None,
            }
        } else {
            None
        }
    }

    /// What the parameters of a request ask for.
    pub fn from_request(params: &Option<Json>) -> (asked: AttachParams)
        ensures
            asked@ == AttachParamsView::of_request(params.deep_view()),
    {
        match params {
            Some(json) => match AttachParams::from_json(json) {
                Some(asked) => asked,
                None => AttachParams::default(),
            },
            None => AttachParams::default(),
        }
    }

    /// The policy that is applied.
    pub fn policy(&self) -> (policy: HistoryPolicy)
        ensures
            policy == self@.policy(),
    {
        match self.history_policy {
            Some(policy) => policy.applied(),
            None => HistoryPolicy::Full,
        }
    }

    /// The order that is asked for.
    pub fn replay_order(&self) -> (order: ReplayOrder)
        ensures
            order == self@.replay_order(),
    {
        match self.meta {
            Some(AttachParamsMeta { amux: Some(amux) }) => match amux.replay_order {
                Some(order) => order,
                None => ReplayOrder::Chronological,
            },
            _ => ReplayOrder::Chronological,
        }
    }

    /// The delivery that is asked for.
    pub fn history_delivery(&self) -> (delivery: HistoryDelivery)
        ensures
            delivery == self@.history_delivery(),
    {
        match self.meta {
            Some(AttachParamsMeta { amux: Some(amux) }) => match amux.history_delivery {
                Some(delivery) => delivery,
                None => HistoryDelivery::Response,
            },
            _ => HistoryDelivery::Response,
        }
    }
}

/// What `session/detach` asks for.
#[derive(Debug)]
pub struct DetachParams {
    pub session_id: Option<String>,
}

impl DetachParams {
    /// The session id that the parameters of a request name. Parameters that
    /// cannot be read name none.
    pub open spec fn session_of(params: Option<JsonView>) -> Option<Seq<char>> {
        match params {
            Some(json) => if record_like(json, 1) {
                match text_member(record_member(json, "sessionId"@, 0)) {
                    Some(session_id) => session_id,
                    None => None,
                }
            } else {
                None
            },
            None => None,
        }
    }

    /// What the parameters of a request ask for.
    pub fn from_request(params: &Option<Json>) -> (asked: DetachParams)
        ensures
            asked.session_id.deep_view() == Self::session_of(params.deep_view()),
    {
        match params {
            Some(json) => if is_record(json, 1) {
                match read_text(read_member(json, "sessionId", 0)) {
                    Some(session_id) => DetachParams { session_id },
                    None => DetachParams { session_id: None },
                }
            } else {
                DetachParams { session_id: None }
            },
            None => DetachParams { session_id: None },
        }
    }
}

impl Default for DetachParams {
    fn default() -> (params: Self)
        ensures
            params.session_id is None,
    {
        DetachParams { session_id: None }
    }
}

fn owned_text(text: &Option<String>) -> (json: Option<Json>)
    ensures
        json.deep_view() == json::text_opt(text.deep_view()),
{
    match text {
        Some(text) => Some(Json::String(text.clone())),
        None => None,
    }
}

/// An attached client.
#[derive(Debug)]
pub struct ConnectedClient {
    pub client_id: String,
    pub name: Option<String>,
}

/// The model of [`ConnectedClient`].
#[verifier::ext_equal]
pub struct ConnectedClientView {
    pub client_id: Seq<char>,
    pub name: Option<Seq<char>>,
}

impl DeepView for ConnectedClient {
    type V = ConnectedClientView;

    open spec fn deep_view(&self) -> ConnectedClientView {
        ConnectedClientView {
            client_id: self.client_id@,
            name: self.name.deep_view(),
        }
    }
}

impl ToJson for ConnectedClient {
    open spec fn json_of(view: ConnectedClientView) -> JsonView {
        JsonView::object()
            .field("clientId"@, JsonView::String(view.client_id))
            .field_opt("name"@, json::text_opt(view.name))
    }

    fn to_json(&self) -> (json: Json) {
        Json::object()
            .field("clientId", Json::string(&self.client_id))
            .field_opt("name", owned_text(&self.name))
    }
}

/// One frame of the history.
#[derive(Debug)]
pub struct HistoryEntry {
    pub method: String,
    pub params: Json,
}

/// The model of [`HistoryEntry`].
#[verifier::ext_equal]
pub struct HistoryEntryView {
    pub method: Seq<char>,
    pub params: JsonView,
}

impl DeepView for HistoryEntry {
    type V = HistoryEntryView;

    open spec fn deep_view(&self) -> HistoryEntryView {
        HistoryEntryView {
            method: self.method@,
            params: self.params@,
        }
    }
}

impl ToJson for HistoryEntry {
    open spec fn json_of(view: HistoryEntryView) -> JsonView {
        JsonView::object()
            .field("method"@, JsonView::String(view.method))
            .field("params"@, view.params)
    }

    fn to_json(&self) -> (json: Json) {
        Json::object()
            .field("method", Json::string(&self.method))
            .field("params", self.params.clone())
    }
}

/// The turn that is active, and whose it is.
#[derive(Debug)]
pub struct AttachActiveTurn {
    pub amux_turn_id: String,
    pub peer_id: String,
}

/// The model of [`AttachActiveTurn`].
#[verifier::ext_equal]
pub struct AttachActiveTurnView {
    pub amux_turn_id: Seq<char>,
    pub peer_id: Seq<char>,
}

impl DeepView for AttachActiveTurn {
    type V = AttachActiveTurnView;

    open spec fn deep_view(&self) -> AttachActiveTurnView {
        AttachActiveTurnView {
            amux_turn_id: self.amux_turn_id@,
            peer_id: self.peer_id@,
        }
    }
}

impl ToJson for AttachActiveTurn {
    open spec fn json_of(view: AttachActiveTurnView) -> JsonView {
        JsonView::object()
            .field("amuxTurnId"@, JsonView::String(view.amux_turn_id))
            .field("peerId"@, JsonView::String(view.peer_id))
    }

    fn to_json(&self) -> (json: Json) {
        Json::object()
            .field("amuxTurnId", Json::string(&self.amux_turn_id))
            .field("peerId", Json::string(&self.peer_id))
    }
}

/// A prompt that waits in the queue.
#[derive(Debug)]
pub struct AttachQueueItem {
    pub queue_item_id: Option<String>,
    pub peer_id: String,
    pub kind: String,
    pub status: &'static str,
}

/// The model of [`AttachQueueItem`].
#[verifier::ext_equal]
pub struct AttachQueueItemView {
    pub queue_item_id: Option<Seq<char>>,
    pub peer_id: Seq<char>,
    pub kind: Seq<char>,
    pub status: Seq<char>,
}

impl DeepView for AttachQueueItem {
    type V = AttachQueueItemView;

    open spec fn deep_view(&self) -> AttachQueueItemView {
        AttachQueueItemView {
            queue_item_id: self.queue_item_id.deep_view(),
            peer_id: self.peer_id@,
            kind: self.kind@,
            status: self.status@,
        }
    }
}

impl ToJson for AttachQueueItem {
    open spec fn json_of(view: AttachQueueItemView) -> JsonView {
        JsonView::object()
            .field_opt("queueItemId"@, json::text_opt(view.queue_item_id))
            .field("peerId"@, JsonView::String(view.peer_id))
            .field("kind"@, JsonView::String(view.kind))
            .field("status"@, JsonView::String(view.status))
    }

    fn to_json(&self) -> (json: Json) {
        Json::object()
            .field_opt("queueItemId", owned_text(&self.queue_item_id))
            .field("peerId", Json::string(&self.peer_id))
            .field("kind", Json::string(&self.kind))
            .field("status", Json::string(self.status))
    }
}

/// A permission that waits for an answer.
#[derive(Debug)]
pub struct AttachPendingPermission {
    pub request_id: Json,
    pub tool_name: Option<String>,
    pub summary: Option<String>,
}

/// The model of [`AttachPendingPermission`].
#[verifier::ext_equal]
pub struct AttachPendingPermissionView {
    pub request_id: JsonView,
    pub tool_name: Option<Seq<char>>,
    pub summary: Option<Seq<char>>,
}

impl DeepView for AttachPendingPermission {
    type V = AttachPendingPermissionView;

    open spec fn deep_view(&self) -> AttachPendingPermissionView {
        AttachPendingPermissionView {
            request_id: self.request_id@,
            tool_name: self.tool_name.deep_view(),
            summary: self.summary.deep_view(),
        }
    }
}

impl ToJson for AttachPendingPermission {
    open spec fn json_of(view: AttachPendingPermissionView) -> JsonView {
        JsonView::object()
            .field("requestId"@, view.request_id)
            .field_opt("toolName"@, json::text_opt(view.tool_name))
            .field_opt("summary"@, json::text_opt(view.summary))
    }

    fn to_json(&self) -> (json: Json) {
        Json::object()
            .field("requestId", self.request_id.clone())
            .field_opt("toolName", owned_text(&self.tool_name))
            .field_opt("summary", owned_text(&self.summary))
    }
}

/// A segment: when it opened, and when and why it closed.
#[derive(Debug)]
pub struct SegmentSummary {
    pub id: SegmentId,
    pub acp_session_id: Option<String>,
    pub opened_at: String,
    pub opened_replay_seq: u64,
    pub closed_at: Option<String>,
    pub closed_replay_seq: Option<u64>,
    pub end_reason: Option<EndReason>,
    pub provenance: HermesProvenance,
}

/// The model of [`SegmentSummary`].
#[verifier::ext_equal]
pub struct SegmentSummaryView {
    pub id: SegmentId,
    pub acp_session_id: Option<Seq<char>>,
    pub opened_at: Seq<char>,
    pub opened_replay_seq: u64,
    pub closed_at: Option<Seq<char>>,
    pub closed_replay_seq: Option<u64>,
    pub end_reason: Option<EndReason>,
    pub provenance: HermesProvenanceView,
}

impl DeepView for SegmentSummary {
    type V = SegmentSummaryView;

    open spec fn deep_view(&self) -> SegmentSummaryView {
        SegmentSummaryView {
            id: self.id,
            acp_session_id: self.acp_session_id.deep_view(),
            opened_at: self.opened_at@,
            opened_replay_seq: self.opened_replay_seq,
            closed_at: self.closed_at.deep_view(),
            closed_replay_seq: self.closed_replay_seq,
            end_reason: self.end_reason,
            provenance: self.provenance@,
        }
    }
}

impl ToJson for SegmentSummary {
    open spec fn json_of(view: SegmentSummaryView) -> JsonView {
        JsonView::object()
            .field("id"@, view.id.json())
            .field_opt("acpSessionId"@, json::text_opt(view.acp_session_id))
            .field("openedAt"@, JsonView::String(view.opened_at))
            .field("openedReplaySeq"@, JsonView::Int(view.opened_replay_seq as int))
            .field_opt("closedAt"@, json::text_opt(view.closed_at))
            .field_opt("closedReplaySeq"@, json::number_opt(view.closed_replay_seq))
            .field_opt("endReason"@, match view.end_reason {
                Some(reason) => Some(reason.json()),
                None => None,
            })
            .field_opt("provenance"@, view.provenance.json_opt())
    }

    fn to_json(&self) -> (json: Json) {
        Json::object()
            .field("id", self.id.to_json())
            .field_opt("acpSessionId", owned_text(&self.acp_session_id))
            .field("openedAt", Json::string(&self.opened_at))
            .field("openedReplaySeq", Json::Unsigned(self.opened_replay_seq))
            .field_opt("closedAt", owned_text(&self.closed_at))
            .field_opt("closedReplaySeq", Json::unsigned_opt(self.closed_replay_seq))
            .field_opt("endReason", match self.end_reason {
                Some(reason) => Some(Json::string(reason.as_str())),
                None => None,
            })
            .field_opt("provenance", self.provenance.to_json_opt())
    }
}

/// The last compaction of the agent's context.
#[derive(Debug)]
pub struct AttachCompactionSummary {
    pub active: bool,
    pub last_source: Option<String>,
    pub last_started_at: Option<String>,
    pub last_completed_at: Option<String>,
}

/// The model of [`AttachCompactionSummary`].
#[verifier::ext_equal]
pub struct AttachCompactionSummaryView {
    pub active: bool,
    pub last_source: Option<Seq<char>>,
    pub last_started_at: Option<Seq<char>>,
    pub last_completed_at: Option<Seq<char>>,
}

impl DeepView for AttachCompactionSummary {
    type V = AttachCompactionSummaryView;

    open spec fn deep_view(&self) -> AttachCompactionSummaryView {
        AttachCompactionSummaryView {
            active: self.active,
            last_source: self.last_source.deep_view(),
            last_started_at: self.last_started_at.deep_view(),
            last_completed_at: self.last_completed_at.deep_view(),
        }
    }
}

impl ToJson for AttachCompactionSummary {
    open spec fn json_of(view: AttachCompactionSummaryView) -> JsonView {
        JsonView::object()
            .field("active"@, JsonView::Bool(view.active))
            .field_opt("lastSource"@, json::text_opt(view.last_source))
            .field_opt("lastStartedAt"@, json::text_opt(view.last_started_at))
            .field_opt("lastCompletedAt"@, json::text_opt(view.last_completed_at))
    }

    fn to_json(&self) -> (json: Json) {
        Json::object()
            .field("active", Json::Bool(self.active))
            .field_opt("lastSource", owned_text(&self.last_source))
            .field_opt("lastStartedAt", owned_text(&self.last_started_at))
            .field_opt("lastCompletedAt", owned_text(&self.last_completed_at))
    }
}

/// The state of the room at the moment of attaching.
#[derive(Debug)]
pub struct AttachSnapshot {
    pub connected_clients: Vec<ConnectedClient>,
    pub self_peer: ConnectedClient,
    pub active_turn: Option<AttachActiveTurn>,
    pub queue: Vec<AttachQueueItem>,
    pub pending_permissions: Vec<AttachPendingPermission>,
    pub replay_boundary_seq: u64,
    pub replay_generation: u64,
    pub segments: Vec<SegmentSummary>,
    pub active_segment_id: Option<SegmentId>,
    pub compression_count: u64,
    pub compaction: Option<AttachCompactionSummary>,
}

/// The model of [`AttachSnapshot`].
#[verifier::ext_equal]
pub struct AttachSnapshotView {
    pub connected_clients: Seq<ConnectedClientView>,
    pub self_peer: ConnectedClientView,
    pub active_turn: Option<AttachActiveTurnView>,
    pub queue: Seq<AttachQueueItemView>,
    pub pending_permissions: Seq<AttachPendingPermissionView>,
    pub replay_boundary_seq: u64,
    pub replay_generation: u64,
    pub segments: Seq<SegmentSummaryView>,
    pub active_segment_id: Option<SegmentId>,
    pub compression_count: u64,
    pub compaction: Option<AttachCompactionSummaryView>,
}

impl DeepView for AttachSnapshot {
    type V = AttachSnapshotView;

    open spec fn deep_view(&self) -> AttachSnapshotView {
        AttachSnapshotView {
            connected_clients: self.connected_clients.deep_view(),
            self_peer: self.self_peer.deep_view(),
            active_turn: self.active_turn.deep_view(),
            queue: self.queue.deep_view(),
            pending_permissions: self.pending_permissions.deep_view(),
            replay_boundary_seq: self.replay_boundary_seq,
            replay_generation: self.replay_generation,
            segments: self.segments.deep_view(),
            active_segment_id: self.active_segment_id,
            compression_count: self.compression_count,
            compaction: self.compaction.deep_view(),
        }
    }
}

impl ToJson for AttachSnapshot {
    open spec fn json_of(view: AttachSnapshotView) -> JsonView {
        JsonView::object()
            .field("connectedClients"@, json::array_json::<ConnectedClient>(view.connected_clients))
            .field("selfPeer"@, ConnectedClient::json_of(view.self_peer))
            .field_opt("activeTurn"@, match view.active_turn {
                Some(part) => Some(AttachActiveTurn::json_of(part)),
                None => None,
            })
            .field("queue"@, json::array_json::<AttachQueueItem>(view.queue))
            .field("pendingPermissions"@, json::array_json::<AttachPendingPermission>(view.pending_permissions))
            .field("replayBoundarySeq"@, JsonView::Int(view.replay_boundary_seq as int))
            .field("replayGeneration"@, JsonView::Int(view.replay_generation as int))
            .field_opt("segments"@, if view.segments.len() == 0 {
                None
            } else {
                Some(json::array_json::<SegmentSummary>(view.segments))
            })
            .field_opt("activeSegmentId"@, SegmentId::json_opt(view.active_segment_id))
            .field("compressionCount"@, JsonView::Int(view.compression_count as int))
            .field_opt("compaction"@, match view.compaction {
                Some(part) => Some(AttachCompactionSummary::json_of(part)),
                None => None,
            })
    }

    fn to_json(&self) -> (json: Json) {
        Json::object()
            .field("connectedClients", json::array_of(&self.connected_clients))
            .field("selfPeer", self.self_peer.to_json())
            .field_opt("activeTurn", match &self.active_turn {
                Some(part) => Some(part.to_json()),
                None => None,
            })
            .field("queue", json::array_of(&self.queue))
            .field("pendingPermissions", json::array_of(&self.pending_permissions))
            .field("replayBoundarySeq", Json::Unsigned(self.replay_boundary_seq))
            .field("replayGeneration", Json::Unsigned(self.replay_generation))
            .field_opt("segments", if self.segments.len() == 0 {
                None
            } else {
                Some(json::array_of(&self.segments))
            })
            .field_opt("activeSegmentId", SegmentId::to_json_opt(self.active_segment_id))
            .field("compressionCount", Json::Unsigned(self.compression_count))
            .field_opt("compaction", match &self.compaction {
                Some(part) => Some(part.to_json()),
                None => None,
            })
    }
}

/// What only the mux knows of an attach.
#[derive(Debug)]
pub struct AttachAmuxMeta {
    pub connected_clients: Vec<ConnectedClient>,
    pub applied_replay_order: ReplayOrder,
    pub applied_history_delivery: HistoryDelivery,
    pub snapshot: Option<AttachSnapshot>,
}

/// The model of [`AttachAmuxMeta`].
#[verifier::ext_equal]
pub struct AttachAmuxMetaView {
    pub connected_clients: Seq<ConnectedClientView>,
    pub applied_replay_order: ReplayOrder,
    pub applied_history_delivery: HistoryDelivery,
    pub snapshot: Option<AttachSnapshotView>,
}

impl DeepView for AttachAmuxMeta {
    type V = AttachAmuxMetaView;

    open spec fn deep_view(&self) -> AttachAmuxMetaView {
        AttachAmuxMetaView {
            connected_clients: self.connected_clients.deep_view(),
            applied_replay_order: self.applied_replay_order,
            applied_history_delivery: self.applied_history_delivery,
            snapshot: self.snapshot.deep_view(),
        }
    }
}

impl ToJson for AttachAmuxMeta {
    open spec fn json_of(view: AttachAmuxMetaView) -> JsonView {
        JsonView::object()
            .field("connectedClients"@, json::array_json::<ConnectedClient>(view.connected_clients))
            .field("appliedReplayOrder"@, JsonView::String(view.applied_replay_order.text()))
            .field("appliedHistoryDelivery"@, JsonView::String(view.applied_history_delivery.text()))
            .field_opt("snapshot"@, match view.snapshot {
                Some(part) => Some(AttachSnapshot::json_of(part)),
                None => None,
            })
    }

    fn to_json(&self) -> (json: Json) {
        Json::object()
            .field("connectedClients", json::array_of(&self.connected_clients))
            .field("appliedReplayOrder", Json::string(self.applied_replay_order.as_str()))
            .field("appliedHistoryDelivery", Json::string(self.applied_history_delivery.as_str()))
            .field_opt("snapshot", match &self.snapshot {
                Some(part) => Some(part.to_json()),
                None => None,
            })
    }
}

/// The metadata of the answer.
#[derive(Debug)]
pub struct AttachMeta {
    pub amux: AttachAmuxMeta,
}

/// The model of [`AttachMeta`].
#[verifier::ext_equal]
pub struct AttachMetaView {
    pub amux: AttachAmuxMetaView,
}

impl DeepView for AttachMeta {
    type V = AttachMetaView;

    open spec fn deep_view(&self) -> AttachMetaView {
        AttachMetaView {
            amux: self.amux.deep_view(),
        }
    }
}

impl ToJson for AttachMeta {
    open spec fn json_of(view: AttachMetaView) -> JsonView {
        JsonView::object()
            .field("amux"@, AttachAmuxMeta::json_of(view.amux))
    }

    fn to_json(&self) -> (json: Json) {
        Json::object()
            .field("amux", self.amux.to_json())
    }
}

/// The answer to `session/attach` in a room.
#[derive(Debug)]
pub struct AttachResult {
    pub session_id: String,
    pub client_id: String,
    pub history_policy: HistoryPolicy,
    pub history: Option<Vec<HistoryEntry>>,
    pub meta: AttachMeta,
}

/// The model of [`AttachResult`].
#[verifier::ext_equal]
pub struct AttachResultView {
    pub session_id: Seq<char>,
    pub client_id: Seq<char>,
    pub history_policy: HistoryPolicy,
    pub history: Option<Seq<HistoryEntryView>>,
    pub meta: AttachMetaView,
}

impl DeepView for AttachResult {
    type V = AttachResultView;

    open spec fn deep_view(&self) -> AttachResultView {
        AttachResultView {
            session_id: self.session_id@,
            client_id: self.client_id@,
            history_policy: self.history_policy,
            history: self.history.deep_view(),
            meta: self.meta.deep_view(),
        }
    }
}

impl ToJson for AttachResult {
    open spec fn json_of(view: AttachResultView) -> JsonView {
        JsonView::object()
            .field("sessionId"@, JsonView::String(view.session_id))
            .field("clientId"@, JsonView::String(view.client_id))
            .field("historyPolicy"@, JsonView::String(view.history_policy.text()))
            .field_opt("history"@, match view.history {
                Some(items) => Some(json::array_json::<HistoryEntry>(items)),
                None => None,
            })
            .field("_meta"@, AttachMeta::json_of(view.meta))
    }

    fn to_json(&self) -> (json: Json) {
        Json::object()
            .field("sessionId", Json::string(&self.session_id))
            .field("clientId", Json::string(&self.client_id))
            .field("historyPolicy", Json::string(self.history_policy.as_str()))
            .field_opt("history", match &self.history {
                Some(items) => Some(json::array_of(items)),
                None => None,
            })
            .field("_meta", self.meta.to_json())
    }
}

/// The answer to `session/attach` in a plain session.
#[derive(Debug)]
pub struct BaselineAttachResult {
    pub session_id: String,
    pub client_id: String,
    pub history_policy: HistoryPolicy,
    pub connected_clients: Vec<ConnectedClient>,
    pub history: Option<Vec<HistoryEntry>>,
}

/// The model of [`BaselineAttachResult`].
#[verifier::ext_equal]
pub struct BaselineAttachResultView {
    pub session_id: Seq<char>,
    pub client_id: Seq<char>,
    pub history_policy: HistoryPolicy,
    pub connected_clients: Seq<ConnectedClientView>,
    pub history: Option<Seq<HistoryEntryView>>,
}

impl DeepView for BaselineAttachResult {
    type V = BaselineAttachResultView;

    open spec fn deep_view(&self) -> BaselineAttachResultView {
        BaselineAttachResultView {
            session_id: self.session_id@,
            client_id: self.client_id@,
            history_policy: self.history_policy,
            connected_clients: self.connected_clients.deep_view(),
            history: self.history.deep_view(),
        }
    }
}

impl ToJson for BaselineAttachResult {
    open spec fn json_of(view: BaselineAttachResultView) -> JsonView {
        JsonView::object()
            .field("sessionId"@, JsonView::String(view.session_id))
            .field("clientId"@, JsonView::String(view.client_id))
            .field("historyPolicy"@, JsonView::String(view.history_policy.text()))
            .field("connectedClients"@, json::array_json::<ConnectedClient>(view.connected_clients))
            .field_opt("history"@, match view.history {
                Some(items) => Some(json::array_json::<HistoryEntry>(items)),
                None => None,
            })
    }

    fn to_json(&self) -> (json: Json) {
        Json::object()
            .field("sessionId", Json::string(&self.session_id))
            .field("clientId", Json::string(&self.client_id))
            .field("historyPolicy", Json::string(self.history_policy.as_str()))
            .field("connectedClients", json::array_of(&self.connected_clients))
            .field_opt("history", match &self.history {
                Some(items) => Some(json::array_of(items)),
                None => None,
            })
    }
}

/// The answer to `session/detach`.
#[derive(Debug)]
pub struct DetachResult {
    pub session_id: String,
    pub status: &'static str,
}

/// The model of [`DetachResult`].
#[verifier::ext_equal]
pub struct DetachResultView {
    pub session_id: Seq<char>,
    pub status: Seq<char>,
}

impl DeepView for DetachResult {
    type V = DetachResultView;

    open spec fn deep_view(&self) -> DetachResultView {
        DetachResultView {
            session_id: self.session_id@,
            status: self.status@,
        }
    }
}

impl ToJson for DetachResult {
    open spec fn json_of(view: DetachResultView) -> JsonView {
        JsonView::object()
            .field("sessionId"@, JsonView::String(view.session_id))
            .field("status"@, JsonView::String(view.status))
    }

    fn to_json(&self) -> (json: Json) {
        Json::object()
            .field("sessionId", Json::string(&self.session_id))
            .field("status", Json::string(self.status))
    }
}

impl Clone for ConnectedClient {
    fn clone(&self) -> (copy: Self)
        ensures
            copy.deep_view() == self.deep_view(),
    {
        ConnectedClient { client_id: self.client_id.clone(), name: self.name.clone() }
    }
}

impl Clone for SegmentSummary {
    fn clone(&self) -> (copy: Self)
        ensures
            copy.deep_view() == self.deep_view(),
    {
        SegmentSummary {
            id: self.id,
            acp_session_id: self.acp_session_id.clone(),
            opened_at: self.opened_at.clone(),
            opened_replay_seq: self.opened_replay_seq,
            closed_at: self.closed_at.clone(),
            closed_replay_seq: self.closed_replay_seq,
            end_reason: self.end_reason,
            provenance: self.provenance.clone(),
        }
    }
}

impl Clone for AttachCompactionSummary {
    fn clone(&self) -> (copy: Self)
        ensures
            copy.deep_view() == self.deep_view(),
    {
        AttachCompactionSummary {
            active: self.active,
            last_source: self.last_source.clone(),
            last_started_at: self.last_started_at.clone(),
            last_completed_at: self.last_completed_at.clone(),
        }
    }
}

} // verus!
