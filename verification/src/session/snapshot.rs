//! What an operator is shown of a session.

use crate::assoc;
use crate::json;
use crate::json::{array_of, Json, JsonView, ToJson};
use crate::multiplex::subscriber::SubscriberView;
use crate::protocol::session_update::METHOD_SESSION_UPDATE;
use crate::session::state::{
    ReplayEntry, ReplayEntryView, ReplayResetSnapshot, ReplayResetView, SessionInner, SessionView,
};
use crate::text;
use crate::text::{same_text, text_precedes};
use vstd::prelude::*;

verus! {

/// A number of frames.
#[derive(Debug, Clone, Copy, PartialEq, Eq)]
pub struct FrameCount(pub usize);

impl DeepView for FrameCount {
    type V = nat;

    open spec fn deep_view(&self) -> nat {
        self.0 as nat
    }
}

/// The state of a session, for operators.
#[derive(Debug)]
pub struct SessionSnapshot {
    pub session_id: String,
    pub agent_cwd: String,
    pub subscribers: Vec<SubscriberSnapshot>,
    pub pending_request_count: usize,
    pub initialize_cached: bool,
    pub cached_session_id: Option<String>,
    pub active_turn_mux_id: Option<u64>,
    pub active_amux_turn_id: Option<String>,
    pub driving_subscriber: Option<String>,
    pub subprocess_dead: bool,
    pub ttl_pending: bool,
    pub replay_log_len: Option<usize>,
    pub replay_generation: u64,
    pub replay_log_update_frames_by_acp_session_id: Option<Vec<(String, FrameCount)>>,
    pub last_replay_reset: Option<ReplayResetSnapshot>,
    pub next_mux_id: u64,
    pub next_amux_turn_id: u64,
}

/// An attached peer, for operators.
#[derive(Debug)]
pub struct SubscriberSnapshot {
    pub peer_id: String,
    pub peer_name: Option<String>,
    pub role: Option<String>,
    pub is_driving: bool,
}

/// The model of [`SubscriberSnapshot`].
#[verifier::ext_equal]
pub struct SubscriberSnapshotView {
    pub peer_id: Seq<char>,
    pub peer_name: Option<Seq<char>>,
    pub role: Option<Seq<char>>,
    pub is_driving: bool,
}

impl DeepView for SubscriberSnapshot {
    type V = SubscriberSnapshotView;

    open spec fn deep_view(&self) -> SubscriberSnapshotView {
        SubscriberSnapshotView {
            peer_id: self.peer_id@,
            peer_name: self.peer_name.deep_view(),
            role: self.role.deep_view(),
            is_driving: self.is_driving,
        }
    }
}

/// The session that a recorded frame updates, where it is a `session/update`.
pub open spec fn updated_session(frame: Seq<u8>) -> Option<Seq<char>> {
    match json::json_document(frame) {
        Some(document) => if document.get_str("method"@) == Some(METHOD_SESSION_UPDATE@) {
            match document.get("params"@) {
                Some(params) => params.get_str("sessionId"@),
                None => None,
            }
        } else {
            None
        },
        None => None,
    }
}

fn read_updated_session(frame: &Vec<u8>) -> (id: Option<String>)
    ensures
        id.deep_view() == updated_session(frame@),
{
    match Json::parse(frame) {
        Ok(document) => {
            let is_update = match document.get_str("method") {
                Some(method) => same_text(method, METHOD_SESSION_UPDATE),
                None => false,
            };
            if !is_update {
                return None;
            }
            match document.get("params") {
                Some(params) => match params.get_str("sessionId") {
                    Some(id) => Some(id.to_owned()),
                    None => None,
                },
                None => None,
            }
        },
        Err(_) => None,
    }
}

/// How many recorded frames update a session.
pub open spec fn updates_of(log: Seq<ReplayEntryView>, id: Seq<char>) -> nat
    decreases log.len(),
{
    if log.len() == 0 {
        0
    } else {
        updates_of(log.drop_last(), id) + if updated_session(log.last().frame) == Some(id) {
            1nat
        } else {
            0nat
        }
    }
}

/// Whether the keys of a table stand in their order, each once.
pub open spec fn in_key_order<V>(table: Seq<(Seq<char>, V)>) -> bool {
    forall|i: int, j: int| 0 <= i < j < table.len() ==> text::precedes(table[i].0, table[j].0)
}

/// Whether a table says of every session how many recorded frames update it,
/// lists no session without any, and lists them in the order of their ids.
pub open spec fn counts_updates(
    counts: Seq<(Seq<char>, nat)>,
    log: Seq<ReplayEntryView>,
) -> bool {
    &&& in_key_order(counts)
    &&& forall|id: Seq<char>| #[trigger]
        assoc::lookup(counts, id) == if updates_of(log, id) == 0 {
            None
        } else {
            Some(updates_of(log, id))
        }
}

proof fn lemma_updates_bounded(log: Seq<ReplayEntryView>, id: Seq<char>)
    ensures
        updates_of(log, id) <= log.len(),
    decreases log.len(),
{
    if log.len() > 0 {
        lemma_updates_bounded(log.drop_last(), id);
    }
}

/// Counts one more frame for a session.
fn count_one(counts: &mut Vec<(String, FrameCount)>, id: String)
    requires
        in_key_order(old(counts).deep_view()),
        assoc::lookup(old(counts).deep_view(), id@) matches Some(count) ==> count < usize::MAX,
    ensures
        in_key_order(final(counts).deep_view()),
        forall|other: Seq<char>| #[trigger]
            assoc::lookup(final(counts).deep_view(), other) == if other != id@ {
                assoc::lookup(old(counts).deep_view(), other)
            } else {
                match assoc::lookup(old(counts).deep_view(), id@) {
                    Some(count) => Some(count + 1),
                    None => Some(1nat),
                }
            },
{
    let ghost before = counts.deep_view();
    let ghost key = id@;
    let mut at: usize = 0;
    while at < counts.len() && text_precedes(counts[at].0.as_str(), id.as_str())
        invariant
            at <= counts@.len(),
            before == counts.deep_view(),
            forall|i: int| 0 <= i < at ==> text::precedes((#[trigger] before[i]).0, id@),
        decreases counts@.len() - at,
    {
        assert(before[at as int].0 == counts@[at as int].0@);
        at += 1;
    }
    proof {
        assert forall|i: int| 0 <= i < at implies (#[trigger] before[i]).0 != key by {
            text::lemma_precedes_total(before[i].0, key);
        }
    }
    if at < counts.len() && counts[at].0 == id {
        assert(before[at as int].0 == key);
        proof {
            assoc::lemma_index_is(before, key, at as int);
            assert(before[at as int].1 == counts@[at as int].1.0);
        }
        let count: usize = counts[at].1.0;
        counts.set(at, (id, FrameCount(count + 1)));
        assert(counts.deep_view() =~= assoc::store(before, key, (count + 1) as nat));
        proof {
            assert forall|other: Seq<char>| #[trigger]
                assoc::lookup(counts.deep_view(), other) == if other != key {
                    assoc::lookup(before, other)
                } else {
                    Some((count + 1) as nat)
                } by {
                assoc::lemma_store(before, key, (count + 1) as nat, other);
            }
        }
    } else {
        proof {
            assert forall|i: int| at <= i < before.len() implies text::precedes(
                key,
                (#[trigger] before[i]).0,
            ) by {
                assert(before[at as int].0 == counts@[at as int].0@);
                text::lemma_precedes_total(before[at as int].0, key);
                if i > at {
                    text::lemma_precedes_transitive(key, before[at as int].0, before[i].0);
                }
            }
        }
        counts.insert(at, (id, FrameCount(1)));
        let ghost after = counts.deep_view();
        assert(after =~= before.insert(at as int, (key, 1nat)));
        proof {
            assert forall|other: Seq<char>| #[trigger]
                assoc::lookup(after, other) == if other != key {
                    assoc::lookup(before, other)
                } else {
                    match assoc::lookup(before, key) {
                        Some(count) => Some(count + 1),
                        None => Some(1nat),
                    }
                } by {
                assoc::lemma_index_of(before, other);
                let place = assoc::index_of(before, other);
                if other == key {
                    if place < before.len() && at <= place {
                        text::lemma_precedes_total(key, before[place].0);
                    }
                    assoc::lemma_index_is(after, other, at as int);
                } else if place < at {
                    assoc::lemma_index_is(after, other, place);
                } else {
                    assert forall|j: int| 0 <= j < place + 1 implies after[j].0 != other by {
                        if j > at {
                            assert(after[j] == before[j - 1]);
                        }
                    }
                    assoc::lemma_index_is(after, other, place + 1);
                }
            }
        }
    }
}

/// How many recorded frames update each session.
pub fn replay_log_update_counts_by_acp_session_id(log: &Vec<ReplayEntry>) -> (counts: Vec<
    (String, FrameCount),
>)
    ensures
        counts_updates(counts.deep_view(), log.deep_view()),
{
    let ghost all = log.deep_view();
    let mut counts: Vec<(String, FrameCount)> = Vec::new();
    let mut at: usize = 0;
    assert(all.take(0) =~= Seq::empty());
    assert(counts.deep_view() =~= Seq::empty());
    while at < log.len()
        invariant
            at <= log@.len(),
            all == log.deep_view(),
            counts_updates(counts.deep_view(), all.take(at as int)),
        decreases log@.len() - at,
    {
        assert(all.take(at + 1).drop_last() =~= all.take(at as int));
        assert(all[at as int] == log@[at as int].deep_view());
        if let Some(id) = read_updated_session(&log[at].frame) {
            proof {
                lemma_updates_bounded(all.take(at as int), id@);
            }
            count_one(&mut counts, id);
        }
        at += 1;
    }
    assert(all.take(at as int) =~= all);
    counts
}

impl SessionView {
    /// The attached peers, for operators.
    pub open spec fn subscriber_snapshots(self) -> Seq<SubscriberSnapshotView> {
        self.subscribers.map_values(
            |peer: (Seq<char>, SubscriberView)|
                SubscriberSnapshotView {
                    peer_id: peer.1.peer_id,
                    peer_name: peer.1.peer_name,
                    role: peer.1.role,
                    is_driving: self.driving_subscriber_peer_id == Some(peer.1.peer_id),
                },
        )
    }

    /// The session id in the remembered answer to `session/new`.
    pub open spec fn cached_session_id(self) -> Option<Seq<char>> {
        match self.session_new_cache {
            Some(result) => result.get_str("sessionId"@),
            None => None,
        }
    }
}

impl SessionSnapshot {
    /// Whether this is what an operator is shown of a session.
    pub open spec fn shows(self, session: SessionView, ttl_pending: bool) -> bool {
        &&& self.session_id@ == session.session_id
        &&& self.agent_cwd@ == session.agent_cwd
        &&& self.subscribers.deep_view() == session.subscriber_snapshots()
        &&& self.pending_request_count == session.pending.len()
        &&& self.initialize_cached == (session.initialize_cache is Some)
        &&& self.cached_session_id.deep_view() == session.cached_session_id()
        &&& self.active_turn_mux_id == session.active_turn_mux_id
        &&& self.active_amux_turn_id.deep_view() == match session.active_amux_turn_id {
                Some(turn_id) => Some(turn_id.text()),
                None => None,
            }
        &&& self.driving_subscriber.deep_view() == session.driving_subscriber_peer_id
        &&& !self.subprocess_dead
        &&& self.ttl_pending == ttl_pending
        &&& match (session.replay_log, self.replay_log_len) {
                (Some(log), Some(len)) => len == log.len(),
                (None, None) => true,
                _ => false,
            }
        &&& self.replay_generation == session.replay_generation
        &&& match (session.replay_log, self.replay_log_update_frames_by_acp_session_id) {
                (Some(log), Some(counts)) => counts_updates(counts.deep_view(), log),
                (None, None) => true,
                _ => false,
            }
        &&& self.last_replay_reset.deep_view() == session.last_replay_reset
        &&& self.next_mux_id == session.next_mux_id
        &&& self.next_amux_turn_id == session.next_amux_turn_id
    }
}

impl SessionInner {
    fn subscriber_snapshots(&self) -> (peers: Vec<SubscriberSnapshot>)
        ensures
            peers.deep_view() == self@.subscriber_snapshots(),
    {
        let mut peers: Vec<SubscriberSnapshot> = Vec::new();
        let mut at: usize = 0;
        while at < self.subscribers.len()
            invariant
                at <= self.subscribers@.len(),
                peers@.len() == at,
                forall|i: int|
                    0 <= i < at ==> (#[trigger] peers@[i]).deep_view() == (SubscriberSnapshotView {
                        peer_id: self.subscribers@[i].1.peer_id@,
                        peer_name: self.subscribers@[i].1.peer_name.deep_view(),
                        role: self.subscribers@[i].1.role.deep_view(),
                        is_driving: self@.driving_subscriber_peer_id == Some(
                            self.subscribers@[i].1.peer_id@,
                        ),
                    }),
            decreases self.subscribers@.len() - at,
        {
            let subscriber = &self.subscribers[at].1;
            let is_driving = match &self.driving_subscriber_peer_id {
                Some(driver) => *driver == subscriber.peer_id,
                None => false,
            };
            peers.push(
                SubscriberSnapshot {
                    peer_id: subscriber.peer_id.clone(),
                    peer_name: subscriber.peer_name.clone(),
                    role: subscriber.role.clone(),
                    is_driving,
                },
            );
            at += 1;
        }
        assert(peers.deep_view() =~= self@.subscriber_snapshots());
        peers
    }

    /// The state of the session, for operators.
    pub fn build_snapshot(&self, ttl_pending: bool) -> (snapshot: SessionSnapshot)
        ensures
            snapshot.shows(self@, ttl_pending),
    {
        let cached_session_id = match &self.session_new_cache {
            Some(result) => match result.get_str("sessionId") {
                Some(id) => Some(id.to_owned()),
                None => None,
            },
            None => None,
        };
        let active_amux_turn_id = match self.active_amux_turn_id {
            Some(turn_id) => Some(turn_id.formatted()),
            None => None,
        };
        let (replay_log_len, updates) = match &self.replay_log {
            Some(log) => (Some(log.len()), Some(replay_log_update_counts_by_acp_session_id(log))),
            None => (None, None),
        };
        let last_replay_reset = match &self.last_replay_reset {
            Some(reset) => Some(reset.clone()),
            None => None,
        };
        SessionSnapshot {
            session_id: self.session_id.clone(),
            agent_cwd: self.agent_cwd.clone(),
            subscribers: self.subscriber_snapshots(),
            pending_request_count: self.pending.len(),
            initialize_cached: self.initialize_cache.is_some(),
            cached_session_id,
            active_turn_mux_id: self.active_turn_mux_id,
            active_amux_turn_id,
            driving_subscriber: self.driving_subscriber_peer_id.clone(),
            subprocess_dead: false,
            ttl_pending,
            replay_log_len,
            replay_generation: self.replay_generation,
            replay_log_update_frames_by_acp_session_id: updates,
            last_replay_reset,
            next_mux_id: self.next_mux_id,
            next_amux_turn_id: self.next_amux_turn_id,
        }
    }
}

impl ToJson for SubscriberSnapshot {
    open spec fn json_of(view: SubscriberSnapshotView) -> JsonView {
        JsonView::object()
            .field("peerId"@, JsonView::String(view.peer_id))
            .field("peerName"@, json::or_null(json::text_opt(view.peer_name)))
            .field("role"@, json::or_null(json::text_opt(view.role)))
            .field("isDriving"@, JsonView::Bool(view.is_driving))
    }

    fn to_json(&self) -> (json: Json) {
        Json::object()
            .field("peerId", Json::string(&self.peer_id))
            .field("peerName", text_or_null(&self.peer_name))
            .field("role", text_or_null(&self.role))
            .field("isDriving", Json::Bool(self.is_driving))
    }
}

impl ToJson for ReplayResetSnapshot {
    open spec fn json_of(view: ReplayResetView) -> JsonView {
        JsonView::object()
            .field("loadedSessionId"@, JsonView::String(view.loaded_session_id))
            .field("replayGeneration"@, JsonView::Int(view.replay_generation as int))
            .field("droppedFrameCount"@, JsonView::Int(view.dropped_frame_count as int))
            .field("retainedFrameCount"@, JsonView::Int(view.retained_frame_count as int))
    }

    fn to_json(&self) -> (json: Json) {
        Json::object()
            .field("loadedSessionId", Json::string(&self.loaded_session_id))
            .field("replayGeneration", Json::Unsigned(self.replay_generation))
            .field("droppedFrameCount", Json::Unsigned(self.dropped_frame_count as u64))
            .field("retainedFrameCount", Json::Unsigned(self.retained_frame_count as u64))
    }
}

/// The document of a text that may be missing.
fn text_or_null(text: &Option<String>) -> (json: Json)
    ensures
        json@ == json::or_null(json::text_opt(text.deep_view())),
{
    match text {
        Some(text) => Json::string(text),
        None => Json::Null,
    }
}

/// The document of a number that may be missing.
fn number_or_null(number: Option<u64>) -> (json: Json)
    ensures
        json@ == json::or_null(json::number_opt(number)),
{
    match number {
        Some(number) => Json::Unsigned(number),
        None => Json::Null,
    }
}

/// The object that lists the counts by session.
pub open spec fn counts_json(counts: Seq<(Seq<char>, nat)>) -> JsonView
    decreases counts.len(),
{
    if counts.len() == 0 {
        JsonView::object()
    } else {
        counts_json(counts.drop_last()).field(
            counts.last().0,
            JsonView::Int(counts.last().1 as int),
        )
    }
}

/// The object that lists the counts by session.
fn list_counts(counts: &Vec<(String, FrameCount)>) -> (json: Json)
    ensures
        json@ == counts_json(counts.deep_view()),
{
    let ghost all = counts.deep_view();
    let mut list = Json::object();
    let mut at: usize = 0;
    assert(all.take(0) =~= Seq::empty());
    while at < counts.len()
        invariant
            at <= counts@.len(),
            all == counts.deep_view(),
            list@ == counts_json(all.take(at as int)),
        decreases counts@.len() - at,
    {
        assert(all.take(at + 1).drop_last() =~= all.take(at as int));
        assert(all[at as int] == (counts@[at as int].0@, counts@[at as int].1.0 as nat));
        list = list.field(counts[at].0.as_str(), Json::Unsigned(counts[at].1.0 as u64));
        at += 1;
    }
    assert(all.take(at as int) =~= all);
    list
}

impl SessionSnapshot {
    /// The document of the snapshot.
    pub open spec fn json(self) -> JsonView {
        JsonView::object()
            .field("sessionId"@, JsonView::String(self.session_id@))
            .field("agentCwd"@, JsonView::String(self.agent_cwd@))
            .field("subscribers"@, json::array_json::<SubscriberSnapshot>(
                self.subscribers.deep_view(),
            ))
            .field("pendingRequestCount"@, JsonView::Int(self.pending_request_count as int))
            .field("initializeCached"@, JsonView::Bool(self.initialize_cached))
            .field("cachedSessionId"@, json::or_null(
                json::text_opt(self.cached_session_id.deep_view()),
            ))
            .field("activeTurnMuxId"@, json::or_null(json::number_opt(self.active_turn_mux_id)))
            .field("activeAmuxTurnId"@, json::or_null(
                json::text_opt(self.active_amux_turn_id.deep_view()),
            ))
            .field("drivingSubscriber"@, json::or_null(
                json::text_opt(self.driving_subscriber.deep_view()),
            ))
            .field("subprocessDead"@, JsonView::Bool(self.subprocess_dead))
            .field("ttlPending"@, JsonView::Bool(self.ttl_pending))
            .field("replayLogLen"@, match self.replay_log_len {
                Some(len) => JsonView::Int(len as int),
                None => JsonView::Null,
            })
            .field("replayGeneration"@, JsonView::Int(self.replay_generation as int))
            .field(
                "replayLogUpdateFramesByAcpSessionId"@,
                match self.replay_log_update_frames_by_acp_session_id {
                    Some(counts) => counts_json(counts.deep_view()),
                    None => JsonView::Null,
                },
            )
            .field("lastReplayReset"@, match self.last_replay_reset {
                Some(reset) => ReplayResetSnapshot::json_of(reset.deep_view()),
                None => JsonView::Null,
            })
            .field("nextMuxId"@, JsonView::Int(self.next_mux_id as int))
            .field("nextAmuxTurnId"@, JsonView::Int(self.next_amux_turn_id as int))
    }

    /// The document of the snapshot.
    pub fn to_json(&self) -> (json: Json)
        ensures
            json@ == self.json(),
    {
        let replay_log_len = match self.replay_log_len {
            Some(len) => Json::Unsigned(len as u64),
            None => Json::Null,
        };
        let updates = match &self.replay_log_update_frames_by_acp_session_id {
            Some(counts) => list_counts(counts),
            None => Json::Null,
        };
        let last_replay_reset = match &self.last_replay_reset {
            Some(reset) => reset.to_json(),
            None => Json::Null,
        };
        Json::object()
            .field("sessionId", Json::string(&self.session_id))
            .field("agentCwd", Json::string(&self.agent_cwd))
            .field("subscribers", array_of(&self.subscribers))
            .field("pendingRequestCount", Json::Unsigned(self.pending_request_count as u64))
            .field("initializeCached", Json::Bool(self.initialize_cached))
            .field("cachedSessionId", text_or_null(&self.cached_session_id))
            .field("activeTurnMuxId", number_or_null(self.active_turn_mux_id))
            .field("activeAmuxTurnId", text_or_null(&self.active_amux_turn_id))
            .field("drivingSubscriber", text_or_null(&self.driving_subscriber))
            .field("subprocessDead", Json::Bool(self.subprocess_dead))
            .field("ttlPending", Json::Bool(self.ttl_pending))
            .field("replayLogLen", replay_log_len)
            .field("replayGeneration", Json::Unsigned(self.replay_generation))
            .field("replayLogUpdateFramesByAcpSessionId", updates)
            .field("lastReplayReset", last_replay_reset)
            .field("nextMuxId", Json::Unsigned(self.next_mux_id))
            .field("nextAmuxTurnId", Json::Unsigned(self.next_amux_turn_id))
    }
}

} // verus!
