//! The metadata that the mux adds to documents of others, under
//! `_meta.amux`, and the index of live sessions that some of it comes from.

use crate::assoc;
use crate::json;
use crate::json::{Json, JsonView};
use crate::protocol::amux::AmuxTurnId;
use crate::protocol::jsonrpc::{IncomingRequest, JsonRpcVersion, RequestView};
use crate::multiplex::subscriber::copy_bytes;
use crate::table;
use vstd::prelude::*;

verus! {

/// What the mux knows of a live session.
#[derive(Debug, PartialEq, Eq)]
pub struct SessionListAmuxMetadata {
    pub proxy_session_id: String,
    pub subscriber_count: usize,
    pub driving_subscriber: Option<String>,
}

/// The model of [`SessionListAmuxMetadata`].
#[verifier::ext_equal]
pub struct MetadataView {
    pub proxy_session_id: Seq<char>,
    pub subscriber_count: nat,
    pub driving_subscriber: Option<Seq<char>>,
}

impl DeepView for SessionListAmuxMetadata {
    type V = MetadataView;

    open spec fn deep_view(&self) -> MetadataView {
        MetadataView {
            proxy_session_id: self.proxy_session_id@,
            subscriber_count: self.subscriber_count as nat,
            driving_subscriber: self.driving_subscriber.deep_view(),
        }
    }
}

impl Clone for SessionListAmuxMetadata {
    fn clone(&self) -> (copy: Self)
        ensures
            copy.deep_view() == self.deep_view(),
    {
        SessionListAmuxMetadata {
            proxy_session_id: self.proxy_session_id.clone(),
            subscriber_count: self.subscriber_count,
            driving_subscriber: self.driving_subscriber.clone(),
        }
    }
}

/// The live sessions by the session id that their agent uses.
#[derive(Debug)]
pub struct SessionListMetadataIndex {
    pub by_acp_session_id: Vec<(String, SessionListAmuxMetadata)>,
}

/// The model of [`SessionListMetadataIndex`].
#[verifier::ext_equal]
pub struct IndexView {
    pub entries: Seq<(Seq<char>, MetadataView)>,
}

impl View for SessionListMetadataIndex {
    type V = IndexView;

    open spec fn view(&self) -> IndexView {
        IndexView { entries: self.by_acp_session_id.deep_view() }
    }
}

impl IndexView {
    /// The index of no session.
    pub open spec fn empty() -> IndexView {
        IndexView { entries: Seq::empty() }
    }

    /// No id stands in the index twice.
    pub open spec fn sound(self) -> bool {
        assoc::distinct(self.entries)
    }

    /// What is known of a session.
    pub open spec fn get(self, acp_session_id: Seq<char>) -> Option<MetadataView> {
        assoc::lookup(self.entries, acp_session_id)
    }

    /// The index after a session was entered or renewed.
    pub open spec fn upsert(self, acp_session_id: Seq<char>, metadata: MetadataView) -> IndexView {
        IndexView { entries: assoc::store(self.entries, acp_session_id, metadata) }
    }

    /// The index after a session was taken out, where `proxy_session_id` is the
    /// one that entered it.
    pub open spec fn remove_if_proxy(
        self,
        acp_session_id: Seq<char>,
        proxy_session_id: Seq<char>,
    ) -> IndexView {
        match self.get(acp_session_id) {
            Some(metadata) => if metadata.proxy_session_id == proxy_session_id {
                IndexView { entries: assoc::erase(self.entries, acp_session_id) }
            } else {
                self
            },
            None => self,
        }
    }
}

/// Entering or renewing a session puts no id in twice.
pub broadcast proof fn lemma_upsert_sound(
    index: IndexView,
    acp_session_id: Seq<char>,
    metadata: MetadataView,
)
    ensures
        index.sound() ==> (#[trigger] index.upsert(acp_session_id, metadata)).sound(),
{
    assoc::lemma_store(index.entries, acp_session_id, metadata, acp_session_id);
}

/// Taking a session out puts no id in twice.
pub broadcast proof fn lemma_remove_sound(
    index: IndexView,
    acp_session_id: Seq<char>,
    proxy_session_id: Seq<char>,
)
    ensures
        index.sound() ==> (#[trigger] index.remove_if_proxy(
            acp_session_id,
            proxy_session_id,
        )).sound(),
{
    if index.sound() {
        assoc::lemma_erase(index.entries, acp_session_id, acp_session_id);
    }
}

impl Default for SessionListMetadataIndex {
    fn default() -> (index: Self)
        ensures
            index@ == IndexView::empty(),
            index@.sound(),
    {
        let index = SessionListMetadataIndex { by_acp_session_id: Vec::new() };
        assert(index@.entries =~= Seq::<(Seq<char>, MetadataView)>::empty());
        index
    }
}

impl SessionListMetadataIndex {
    /// The index of no session.
    pub fn new() -> (index: SessionListMetadataIndex)
        ensures
            index@ == IndexView::empty(),
            index@.sound(),
    {
        Self::default()
    }

    /// What is known of a session.
    pub fn get(&self, acp_session_id: &str) -> (metadata: Option<SessionListAmuxMetadata>)
        ensures
            metadata.deep_view() == self@.get(acp_session_id@),
    {
        match table::get(&self.by_acp_session_id, &acp_session_id.to_owned()) {
            Some(metadata) => Some(metadata.clone()),
            None => None,
        }
    }

    /// Enters or renews a session.
    pub fn upsert(&mut self, acp_session_id: &str, metadata: SessionListAmuxMetadata)
        ensures
            final(self)@ == old(self)@.upsert(acp_session_id@, metadata.deep_view()),
            old(self)@.sound() ==> final(self)@.sound(),
    {
        proof {
            lemma_upsert_sound(self@, acp_session_id@, metadata.deep_view());
        }
        table::put(&mut self.by_acp_session_id, acp_session_id.to_owned(), metadata);
    }

    /// Takes a session out, where `proxy_session_id` is the one that entered it.
    pub fn remove_if_proxy(&mut self, acp_session_id: &str, proxy_session_id: &str)
        ensures
            final(self)@ == old(self)@.remove_if_proxy(acp_session_id@, proxy_session_id@),
            old(self)@.sound() ==> final(self)@.sound(),
    {
        broadcast use lemma_remove_sound;

        let key = acp_session_id.to_owned();
        let ours = match table::get(&self.by_acp_session_id, &key) {
            Some(metadata) => metadata.proxy_session_id == proxy_session_id.to_owned(),
            None => false,
        };
        if ours {
            let _ = table::take(&mut self.by_acp_session_id, &key);
        }
    }
}

/// The object that the member `key` is, or an empty one where the member is
/// absent. `None` where it is something else.
pub open spec fn child(object: JsonView, key: Seq<char>) -> Option<JsonView> {
    match object.get(key) {
        None => Some(JsonView::object()),
        Some(value) => if value is Object {
            Some(value)
        } else {
            None
        },
    }
}

fn read_child(object: &Json, key: &str) -> (value: Option<Json>)
    ensures
        value.deep_view() == child(object@, key@),
{
    match object.get(key) {
        None => Some(Json::object()),
        Some(value) => if value.is_object() {
            Some(value.clone())
        } else {
            None
        },
    }
}

/// The object `_meta.amux` of an object. `None` where something that is no
/// object stands in the way.
pub open spec fn amux_of(object: JsonView) -> Option<JsonView> {
    match object {
        JsonView::Object(_) => match child(object, "_meta"@) {
            Some(meta) => child(meta, "amux"@),
            None => None,
        },
        _ => None,
    }
}

/// The object with `_meta.amux` set. Everything else in it and in its `_meta`
/// stays.
pub open spec fn with_amux(object: JsonView, amux: JsonView) -> JsonView {
    match child(object, "_meta"@) {
        Some(meta) => object.field("_meta"@, meta.field("amux"@, amux)),
        None => object,
    }
}

fn read_amux(object: &Json) -> (amux: Option<Json>)
    ensures
        amux.deep_view() == amux_of(object@),
{
    if object.is_object() {
        match read_child(object, "_meta") {
            Some(meta) => read_child(&meta, "amux"),
            None => None,
        }
    } else {
        None
    }
}

fn put_amux(object: Json, amux: Json) -> (edited: Json)
    ensures
        edited@ == with_amux(object@, amux@),
{
    match read_child(&object, "_meta") {
        Some(meta) => object.field("_meta", meta.field("amux", amux)),
        None => object,
    }
}

/// A logged frame as it is replayed: with `params._meta.amux` saying when and
/// as which it was recorded. A frame that has no room for that is replayed as
/// it is.
pub open spec fn replay_document(
    document: JsonView,
    recorded_at: Seq<char>,
    replay_seq: u64,
) -> Option<JsonView> {
    match document {
        JsonView::Object(_) => match child(document, "params"@) {
            Some(params) => match amux_of(params) {
                Some(amux) => Some(
                    document.field(
                        "params"@,
                        with_amux(
                            params,
                            amux.field("recordedAt"@, JsonView::String(recorded_at)).field(
                                "replaySeq"@,
                                JsonView::Int(replay_seq as int),
                            ),
                        ),
                    ),
                ),
                None => None,
            },
            None => None,
        },
        _ => None,
    }
}

/// The text of a logged frame as it is replayed.
pub open spec fn replay_frame(frame: Seq<u8>, recorded_at: Seq<char>, replay_seq: u64) -> Seq<u8> {
    match json::json_document(frame) {
        Some(document) => match replay_document(document, recorded_at, replay_seq) {
            Some(document) => json::json_text(document),
            None => frame,
        },
        None => frame,
    }
}

/// The document of a logged frame as it is replayed.
pub fn replay_metadata(document: Json, recorded_at: &str, replay_seq: u64) -> (edited: Option<Json>)
    ensures
        edited.deep_view() == replay_document(document@, recorded_at@, replay_seq),
{
    if !document.is_object() {
        return None;
    }
    let params = match read_child(&document, "params") {
        Some(params) => params,
        None => {
            return None;
        },
    };
    match read_amux(&params) {
        Some(amux) => {
            let amux = amux.field("recordedAt", Json::string(recorded_at)).field(
                "replaySeq",
                Json::Unsigned(replay_seq),
            );
            Some(document.field("params", put_amux(params, amux)))
        },
        None => None,
    }
}

/// The text of a logged frame as it is replayed.
pub fn inject_replay_metadata(frame: &Vec<u8>, recorded_at: &str, replay_seq: u64) -> (replayed: Vec<
    u8,
>)
    ensures
        replayed@ == replay_frame(frame@, recorded_at@, replay_seq),
{
    match Json::parse(frame) {
        Ok(document) => match replay_metadata(document, recorded_at, replay_seq) {
            Some(document) => document.to_vec(),
            None => copy_bytes(frame),
        },
        Err(_) => copy_bytes(frame),
    }
}

/// Who sent a request, and what the mux made of it.
pub struct RequestTrace<'a> {
    pub peer_id: &'a str,
    pub peer_name: Option<&'a str>,
    pub role: Option<&'a str>,
    pub mux_id: u64,
    pub amux_turn_id: Option<AmuxTurnId>,
}

/// The model of [`RequestTrace`].
#[verifier::ext_equal]
pub struct TraceView {
    pub peer_id: Seq<char>,
    pub peer_name: Option<Seq<char>>,
    pub role: Option<Seq<char>>,
    pub mux_id: u64,
    pub amux_turn_id: Option<AmuxTurnId>,
}

impl<'a> RequestTrace<'a> {
    /// The model of the trace.
    pub open spec fn view(&self) -> TraceView {
        TraceView {
            peer_id: self.peer_id@,
            peer_name: self.peer_name.deep_view(),
            role: self.role.deep_view(),
            mux_id: self.mux_id,
            amux_turn_id: self.amux_turn_id,
        }
    }
}

impl TraceView {
    /// `_meta.amux` with the trace added.
    pub open spec fn on(self, amux: JsonView) -> JsonView {
        amux.field("peerId"@, JsonView::String(self.peer_id))
            .field_opt("peerName"@, json::text_opt(self.peer_name))
            .field_opt("role"@, json::text_opt(self.role))
            .field("muxId"@, JsonView::Int(self.mux_id as int))
            .field_opt("amuxTurnId"@, AmuxTurnId::json_opt(self.amux_turn_id))
    }

    /// The parameters of a request with the trace added. Absent parameters
    /// become an object; ones that have no room for the trace stay as they are.
    pub open spec fn traced(self, params: Option<JsonView>) -> Option<JsonView> {
        let object = match params {
            Some(params) => params,
            None => JsonView::object(),
        };
        match amux_of(object) {
            Some(amux) => Some(with_amux(object, self.on(amux))),
            None => Some(object),
        }
    }
}

/// Adds a trace to the parameters of a request.
pub fn inject_request_trace_metadata(req: IncomingRequest, trace: RequestTrace<'_>) -> (traced:
    IncomingRequest)
    ensures
        traced@ == (RequestView {
            id: req@.id,
            method: req@.method,
            params: trace.view().traced(req@.params),
        }),
{
    let object = match req.params {
        Some(params) => params,
        None => Json::object(),
    };
    let params = match read_amux(&object) {
        Some(amux) => {
            let turn = match trace.amux_turn_id {
                Some(turn_id) => Some(Json::String(turn_id.formatted())),
                None => None,
            };
            let amux = amux.field("peerId", Json::string(trace.peer_id))
                .field_opt("peerName", Json::string_opt(trace.peer_name))
                .field_opt("role", Json::string_opt(trace.role))
                .field("muxId", Json::Unsigned(trace.mux_id))
                .field_opt("amuxTurnId", turn);
            put_amux(object, amux)
        },
        None => object,
    };
    IncomingRequest { jsonrpc: JsonRpcVersion, id: req.id, method: req.method, params: Some(params) }
}

impl MetadataView {
    /// `_meta.amux` with what is known of the session.
    pub open spec fn on(self, amux: JsonView) -> JsonView {
        let amux = amux.field("proxySessionId"@, JsonView::String(self.proxy_session_id)).field(
            "subscriberCount"@,
            JsonView::Int(self.subscriber_count as int),
        );
        match self.driving_subscriber {
            Some(peer_id) => amux.field("drivingSubscriber"@, JsonView::String(peer_id)),
            None => amux.without("drivingSubscriber"@),
        }
    }

    /// A listed session with what is known of it. One that has no room for that
    /// stays as it is.
    pub open spec fn decorated(self, session: JsonView) -> JsonView {
        match amux_of(session) {
            Some(amux) => with_amux(session, self.on(amux)),
            None => session,
        }
    }
}

/// Adds to a listed session what is known of it.
pub fn inject_session_list_amux_metadata(session: Json, metadata: &SessionListAmuxMetadata) -> (
decorated: Json)
    ensures
        decorated@ == metadata.deep_view().decorated(session@),
{
    match read_amux(&session) {
        Some(amux) => {
            let amux = amux.field(
                "proxySessionId",
                Json::string(&metadata.proxy_session_id),
            ).field("subscriberCount", Json::Unsigned(metadata.subscriber_count as u64));
            let amux = match &metadata.driving_subscriber {
                Some(peer_id) => amux.field("drivingSubscriber", Json::string(peer_id)),
                None => amux.without("drivingSubscriber"),
            };
            put_amux(session, amux)
        },
        None => session,
    }
}

impl IndexView {
    /// A listed session with what the index knows of it.
    pub open spec fn decorated(self, session: JsonView) -> JsonView {
        match session.get_str("sessionId"@) {
            Some(acp_session_id) => match self.get(acp_session_id) {
                Some(metadata) => metadata.decorated(session),
                None => session,
            },
            None => session,
        }
    }

    /// The result of `session/list` with what the index knows of each session.
    pub open spec fn decorated_list(self, result: JsonView) -> JsonView {
        match result.get("sessions"@) {
            Some(JsonView::Array(sessions)) => result.field(
                "sessions"@,
                JsonView::Array(sessions.map_values(|session: JsonView| self.decorated(session))),
            ),
            _ => result,
        }
    }
}

impl SessionListMetadataIndex {
    fn decorate(&self, session: &Json) -> (decorated: Json)
        ensures
            decorated@ == self@.decorated(session@),
    {
        match session.get_str("sessionId") {
            Some(acp_session_id) => match self.get(acp_session_id) {
                Some(metadata) => inject_session_list_amux_metadata(session.clone(), &metadata),
                None => session.clone(),
            },
            None => session.clone(),
        }
    }

    /// The result of `session/list` with what the index knows of each session.
    pub fn decorate_list(&self, result: Json) -> (decorated: Json)
        ensures
            decorated@ == self@.decorated_list(result@),
    {
        let sessions = match result.get("sessions") {
            Some(Json::Array(sessions)) => {
                let mut decorated: Vec<Json> = Vec::new();
                let mut at: usize = 0;
                while at < sessions.len()
                    invariant
                        at <= sessions@.len(),
                        decorated@.len() == at,
                        forall|i: int|
                            0 <= i < at ==> (#[trigger] decorated@[i])@ == self@.decorated(
                                sessions@[i]@,
                            ),
                    decreases sessions@.len() - at,
                {
                    decorated.push(self.decorate(&sessions[at]));
                    at += 1;
                }
                proof {
                    let listed = Json::Array(*sessions)@->Array_0;
                    assert(result@.get("sessions"@) == Some(JsonView::Array(listed)));
                    assert(decorated.deep_view() =~= listed.map_values(
                        |session: JsonView| self@.decorated(session),
                    ));
                }
                decorated
            },
            _ => {
                return result;
            },
        };
        result.field("sessions", Json::array(sessions))
    }
}

/// What is put under `_meta.amux` is read back from there, and disturbs nothing:
/// every other member of the object, and every other member of its `_meta`, is
/// as it was.
pub proof fn law_amux_metadata_leaves_the_rest(object: JsonView, amux: JsonView, key: Seq<char>)
    requires
        amux_of(object) is Some,
        amux is Object,
    ensures
        amux_of(with_amux(object, amux)) == Some(amux),
        key != "_meta"@ ==> with_amux(object, amux).get(key) == object.get(key),
        key != "amux"@ ==> child(with_amux(object, amux), "_meta"@)->Some_0.get(key) == child(
            object,
            "_meta"@,
        )->Some_0.get(key),
{
    broadcast use json::lemma_get_field;

}

/// A replayed frame says when and as which it was recorded, and is otherwise the
/// frame that was recorded: the envelope, the parameters and whatever metadata
/// they already carried are kept.
pub proof fn law_replay_adds_only_its_own(
    document: JsonView,
    recorded_at: Seq<char>,
    replay_seq: u64,
    key: Seq<char>,
)
    requires
        replay_document(document, recorded_at, replay_seq) is Some,
    ensures
        ({
            let replayed = replay_document(document, recorded_at, replay_seq)->Some_0;
            let before = child(document, "params"@)->Some_0;
            let after = child(replayed, "params"@)->Some_0;
            let amux = amux_of(after)->Some_0;
            &&& key != "params"@ ==> replayed.get(key) == document.get(key)
            &&& key != "_meta"@ ==> after.get(key) == before.get(key)
            &&& key != "amux"@ ==> child(after, "_meta"@)->Some_0.get(key) == child(
                before,
                "_meta"@,
            )->Some_0.get(key)
            &&& amux.get("recordedAt"@) == Some(JsonView::String(recorded_at))
            &&& amux.get("replaySeq"@) == Some(JsonView::Int(replay_seq as int))
            &&& key != "recordedAt"@ && key != "replaySeq"@ ==> amux.get(key) == amux_of(
                before,
            )->Some_0.get(key)
        }),
{
    broadcast use json::lemma_get_field;

    reveal_strlit("recordedAt");
    reveal_strlit("replaySeq");
    assert("recordedAt"@.len() == 10 && "replaySeq"@.len() == 9);
    let params = child(document, "params"@)->Some_0;
    let amux = amux_of(params)->Some_0.field("recordedAt"@, JsonView::String(recorded_at)).field(
        "replaySeq"@,
        JsonView::Int(replay_seq as int),
    );
    law_amux_metadata_leaves_the_rest(params, amux, key);
}

/// The index reads back what a session published, and no session disturbs what
/// another one published under another id.
pub proof fn law_index_reads_back(
    index: IndexView,
    acp_session_id: Seq<char>,
    metadata: MetadataView,
    other: Seq<char>,
)
    ensures
        index.upsert(acp_session_id, metadata).get(acp_session_id) == Some(metadata),
        other != acp_session_id ==> index.upsert(acp_session_id, metadata).get(other) == index.get(
            other,
        ),
{
    assoc::lemma_store(index.entries, acp_session_id, metadata, acp_session_id);
    assoc::lemma_store(index.entries, acp_session_id, metadata, other);
}

/// No id stands in the index twice: not at the start, and not after a session was
/// entered, renewed or taken out.
pub proof fn law_index_has_no_id_twice(
    index: IndexView,
    acp_session_id: Seq<char>,
    metadata: MetadataView,
    proxy_session_id: Seq<char>,
)
    requires
        index.sound(),
    ensures
        IndexView::empty().sound(),
        index.upsert(acp_session_id, metadata).sound(),
        index.remove_if_proxy(acp_session_id, proxy_session_id).sound(),
{
    broadcast use {lemma_upsert_sound, lemma_remove_sound};

}

/// A session takes out of the index only what it put there itself.
pub proof fn law_index_keeps_what_others_published(
    index: IndexView,
    acp_session_id: Seq<char>,
    proxy_session_id: Seq<char>,
    other: Seq<char>,
)
    requires
        index.sound(),
    ensures
        ({
            let after = index.remove_if_proxy(acp_session_id, proxy_session_id);
            let own = other == acp_session_id && index.get(other) is Some && index.get(
                other,
            )->Some_0.proxy_session_id == proxy_session_id;
            after.get(other) == if own {
                None
            } else {
                index.get(other)
            }
        }),
{
    assoc::lemma_erase(index.entries, acp_session_id, other);
}

} // verus!
