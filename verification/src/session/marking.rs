//! What the mux writes into what passes through it, and that it leaves the rest.

use crate::assoc;
use crate::cli::{ClientToolMode, ClientToolPolicy};
use crate::json;
use crate::json::JsonView;
use crate::protocol::names::lemma_names;
use crate::session::inbound;
use crate::session::metadata;
use crate::session::metadata::{IndexView, MetadataView, TraceView};
use vstd::prelude::*;

verus! {

/// The member `key` of an optional object.
pub open spec fn member(object: Option<JsonView>, key: Seq<char>) -> Option<JsonView> {
    match object {
        Some(object) => object.get(key),
        None => None,
    }
}

/// What stands under `_meta.amux`.
pub open spec fn amux_in(object: JsonView) -> Option<JsonView> {
    member(object.get("_meta"@), "amux"@)
}

/// Whether something can be written under `_meta.amux`: on the way there stand only
/// objects, or nothing.
pub open spec fn has_room(object: JsonView) -> bool {
    &&& object is Object
    &&& object.get("_meta"@) matches Some(meta) ==> meta is Object
    &&& amux_in(object) matches Some(amux) ==> amux is Object
}

/// Whether two objects are alike but for what stands under `_meta.amux`.
pub open spec fn alike_elsewhere(a: JsonView, b: JsonView) -> bool {
    &&& a is Object && b is Object
    &&& forall|key: Seq<char>| key != "_meta"@ ==> #[trigger] a.get(key) == b.get(key)
    &&& forall|key: Seq<char>|
        key != "amux"@ ==> #[trigger] member(a.get("_meta"@), key) == member(b.get("_meta"@), key)
}

proof fn lemma_room(object: JsonView)
    ensures
        has_room(object) == (metadata::amux_of(object) is Some),
        has_room(object) ==> metadata::amux_of(object) == Some(
            match amux_in(object) {
                Some(amux) => amux,
                None => JsonView::object(),
            },
        ),
{
    assert(JsonView::object().get("amux"@) is None);
}

proof fn lemma_written(object: JsonView, amux: JsonView)
    requires
        has_room(object),
    ensures
        alike_elsewhere(object, metadata::with_amux(object, amux)),
        amux_in(metadata::with_amux(object, amux)) == Some(amux),
{
    broadcast use json::lemma_get_field;

    assert forall|key: Seq<char>| key != "amux"@ implies #[trigger] member(
        object.get("_meta"@),
        key,
    ) == member(metadata::with_amux(object, amux).get("_meta"@), key) by {
        assert(JsonView::object().get(key) is None);
    }
}

/// Whether a request says whose it is: by the id of the peer and the number that
/// the request goes by, and by name, role and turn, where there are any. What else
/// stands under `_meta.amux` stays.
pub open spec fn says_whose(amux: JsonView, before: Option<JsonView>, trace: TraceView) -> bool {
    &&& amux is Object
    &&& amux.get("peerId"@) == Some(JsonView::String(trace.peer_id))
    &&& amux.get("muxId"@) == Some(JsonView::Int(trace.mux_id as int))
    &&& amux.get("peerName"@) == match trace.peer_name {
        Some(name) => Some(JsonView::String(name)),
        None => member(before, "peerName"@),
    }
    &&& amux.get("role"@) == match trace.role {
        Some(role) => Some(JsonView::String(role)),
        None => member(before, "role"@),
    }
    &&& amux.get("amuxTurnId"@) == match trace.amux_turn_id {
        Some(turn_id) => Some(JsonView::String(turn_id.text())),
        None => member(before, "amuxTurnId"@),
    }
    &&& forall|key: Seq<char>|
        key != "peerId"@ && key != "muxId"@ && key != "peerName"@ && key != "role"@ && key
            != "amuxTurnId"@ ==> #[trigger] amux.get(key) == member(before, key)
}

/// A request that is passed on says whose it is, and is otherwise as it was sent.
/// One that has no parameters gets some for that; parameters that have no room for
/// it are passed on as they are.
pub proof fn law_passed_on_request_says_whose_it_is(trace: TraceView, params: Option<JsonView>)
    ensures
        ({
            let sent = match params {
                Some(params) => params,
                None => JsonView::object(),
            };
            &&& trace.traced(params) matches Some(passed) && {
                &&& has_room(sent) ==> alike_elsewhere(sent, passed)
                &&& has_room(sent) ==> amux_in(passed) is Some && says_whose(
                    amux_in(passed)->0,
                    amux_in(sent),
                    trace,
                )
                &&& !has_room(sent) ==> passed == sent
            }
            &&& params is None ==> has_room(sent)
        }),
{
    broadcast use json::lemma_get_field;

    lemma_names();
    let sent = match params {
        Some(params) => params,
        None => JsonView::object(),
    };
    lemma_room(sent);
    if params is None {
        assert(JsonView::object().get("_meta"@) is None);
    }
    if has_room(sent) {
        let before = metadata::amux_of(sent)->0;
        let amux = trace.on(before);
        lemma_written(sent, amux);
        assert forall|key: Seq<char>| #[trigger] before.get(key) == member(amux_in(sent), key) by {
            assert(JsonView::object().get(key) is None);
        }
        assert(before is Object);
        lemma_traced(trace, before);
        assert forall|key: Seq<char>|
            key != "peerId"@ && key != "muxId"@ && key != "peerName"@ && key != "role"@ && key
                != "amuxTurnId"@ implies #[trigger] amux.get(key) == member(
            amux_in(sent),
            key,
        ) by {
            assert(amux.get(key) == before.get(key));
        }
    }
}

proof fn lemma_traced(trace: TraceView, before: JsonView)
    requires
        before is Object,
    ensures
        says_whose(trace.on(before), Some(before), trace),
{
    broadcast use json::lemma_get_field;

    lemma_names();
    let a = before.field("peerId"@, JsonView::String(trace.peer_id));
    let b = a.field_opt("peerName"@, json::text_opt(trace.peer_name));
    let c = b.field_opt("role"@, json::text_opt(trace.role));
    let d = c.field("muxId"@, JsonView::Int(trace.mux_id as int));
    assert(a is Object && b is Object && c is Object && d is Object);
    let amux = trace.on(before);
    assert forall|key: Seq<char>|
        key != "peerId"@ && key != "muxId"@ && key != "peerName"@ && key != "role"@ && key
            != "amuxTurnId"@ implies #[trigger] amux.get(key) == before.get(key) by {
        assert(a.get(key) == before.get(key));
        assert(b.get(key) == a.get(key));
        assert(c.get(key) == b.get(key));
        assert(d.get(key) == c.get(key));
    }
}

/// A listed session that the index knows shows which session of the mux it is, how
/// many are attached to it and who drives; it is otherwise as the agent listed it.
/// One that has no room for that is listed as it is.
pub proof fn law_listed_session_shows_who_is_attached(known: MetadataView, listed: JsonView)
    requires
        amux_in(listed) matches Some(JsonView::Object(members)) ==> assoc::distinct(members),
    ensures
        ({
            let shown = known.decorated(listed);
            let amux = amux_in(shown)->0;
            &&& has_room(listed) ==> alike_elsewhere(listed, shown)
            &&& has_room(listed) ==> {
                &&& amux_in(shown) is Some
                &&& amux is Object
                &&& amux.get("proxySessionId"@) == Some(JsonView::String(known.proxy_session_id))
                &&& amux.get("subscriberCount"@) == Some(
                    JsonView::Int(known.subscriber_count as int),
                )
                &&& amux.get("drivingSubscriber"@) == match known.driving_subscriber {
                    Some(peer_id) => Some(JsonView::String(peer_id)),
                    None => None,
                }
                &&& forall|key: Seq<char>|
                    key != "proxySessionId"@ && key != "subscriberCount"@ && key
                        != "drivingSubscriber"@ ==> #[trigger] amux.get(key) == member(
                        amux_in(listed),
                        key,
                    )
            }
            &&& !has_room(listed) ==> shown == listed
        }),
{
    broadcast use json::lemma_get_field;

    lemma_names();
    lemma_room(listed);
    if has_room(listed) {
        let before = metadata::amux_of(listed)->0;
        let amux = known.on(before);
        lemma_written(listed, amux);
        assert forall|key: Seq<char>| #[trigger] before.get(key) == member(
            amux_in(listed),
            key,
        ) by {
            assert(JsonView::object().get(key) is None);
        }
        let a = before.field("proxySessionId"@, JsonView::String(known.proxy_session_id));
        let b = a.field("subscriberCount"@, JsonView::Int(known.subscriber_count as int));
        assert(a is Object && b is Object);
        assoc::lemma_store(
            before->Object_0,
            "proxySessionId"@,
            JsonView::String(known.proxy_session_id),
            "proxySessionId"@,
        );
        assoc::lemma_store(
            a->Object_0,
            "subscriberCount"@,
            JsonView::Int(known.subscriber_count as int),
            "subscriberCount"@,
        );
        assert forall|key: Seq<char>|
            key != "drivingSubscriber"@ implies #[trigger] amux.get(key) == b.get(key) by {
            assoc::lemma_erase(b->Object_0, "drivingSubscriber"@, key);
        }
        assoc::lemma_erase(b->Object_0, "drivingSubscriber"@, "drivingSubscriber"@);
        assert forall|key: Seq<char>|
            key != "proxySessionId"@ && key != "subscriberCount"@ && key
                != "drivingSubscriber"@ implies #[trigger] amux.get(key) == member(
            amux_in(listed),
            key,
        ) by {
            assert(amux.get(key) == b.get(key));
            assert(b.get(key) == a.get(key));
            assert(a.get(key) == before.get(key));
        }
    }
}

/// The list that the agent gave is kept, in its order: each session in it that the
/// index knows is shown with what the index knows of it, and every other one, and
/// everything beside the list, is as the agent gave it.
pub proof fn law_list_is_kept(
    index: IndexView,
    result: JsonView,
    sessions: Seq<JsonView>,
    i: int,
    key: Seq<char>,
)
    requires
        result.get("sessions"@) == Some(JsonView::Array(sessions)),
        0 <= i < sessions.len(),
    ensures
        ({
            let shown = index.decorated_list(result);
            let list = shown.get("sessions"@)->0->Array_0;
            &&& shown.get("sessions"@) == Some(JsonView::Array(list))
            &&& list.len() == sessions.len()
            &&& match sessions[i].get("sessionId"@) {
                Some(JsonView::String(id)) => match index.get(id) {
                    Some(known) => list[i] == known.decorated(sessions[i]),
                    None => list[i] == sessions[i],
                },
                _ => list[i] == sessions[i],
            }
            &&& key != "sessions"@ ==> shown.get(key) == result.get(key)
        }),
{
    broadcast use json::lemma_get_field;

}

/// What is no list of sessions is passed on as it is.
pub proof fn law_other_results_are_kept(index: IndexView, result: JsonView)
    requires
        !(result.get("sessions"@) matches Some(JsonView::Array(_))),
    ensures
        index.decorated_list(result) == result,
{
}

/// A frame is replayed as it was recorded but for `params._meta.amux`, which says
/// when it was recorded and as which, where there is room for that; any other frame
/// is replayed byte for byte.
pub proof fn law_replay_has_room_or_is_unchanged(
    frame: Seq<u8>,
    recorded_at: Seq<char>,
    replay_seq: u64,
)
    ensures
        ({
            let replayed = metadata::replay_frame(frame, recorded_at, replay_seq);
            match json::json_document(frame) {
                None => replayed == frame,
                Some(document) => {
                    let params = match document.get("params"@) {
                        Some(params) => params,
                        None => JsonView::object(),
                    };
                    let marked = metadata::replay_document(document, recorded_at, replay_seq);
                    &&& document is Object && has_room(params) ==> {
                        &&& marked is Some
                        &&& replayed == json::json_text(marked->0)
                        &&& marked->0 is Object
                        &&& forall|key: Seq<char>|
                            key != "params"@ ==> #[trigger] marked->0.get(key) == document.get(key)
                        &&& marked->0.get("params"@) is Some
                        &&& alike_elsewhere(params, marked->0.get("params"@)->0)
                        &&& {
                            let amux = amux_in(marked->0.get("params"@)->0)->0;
                            &&& amux_in(marked->0.get("params"@)->0) is Some
                            &&& amux is Object
                            &&& amux.get("recordedAt"@) == Some(JsonView::String(recorded_at))
                            &&& amux.get("replaySeq"@) == Some(JsonView::Int(replay_seq as int))
                            &&& forall|key: Seq<char>|
                                key != "recordedAt"@ && key != "replaySeq"@
                                    ==> #[trigger] amux.get(key) == member(amux_in(params), key)
                        }
                    }
                    &&& !(document is Object && has_room(params)) ==> replayed == frame
                },
            }
        }),
{
    broadcast use json::lemma_get_field;

    lemma_names();
    if let Some(document) = json::json_document(frame) {
        let params = match document.get("params"@) {
            Some(params) => params,
            None => JsonView::object(),
        };
        lemma_room(params);
        if document is Object && has_room(params) {
            let before = metadata::amux_of(params)->0;
            let half = before.field("recordedAt"@, JsonView::String(recorded_at));
            let amux = half.field("replaySeq"@, JsonView::Int(replay_seq as int));
            lemma_written(params, amux);
            assert forall|key: Seq<char>| #[trigger] before.get(key) == member(
                amux_in(params),
                key,
            ) by {
                assert(JsonView::object().get(key) is None);
            }
            assert forall|key: Seq<char>|
                key != "recordedAt"@ && key != "replaySeq"@ implies #[trigger] amux.get(key)
                == member(amux_in(params), key) by {
                assert(half.get(key) == before.get(key));
            }
        }
    }
}

/// Of what a client offers in `initialize`, the agent is told everything but the
/// tools that the policy blocks: each kind by its own setting.
pub proof fn law_only_blocked_tools_are_withheld(
    policy: ClientToolPolicy,
    params: JsonView,
    members: Seq<(Seq<char>, JsonView)>,
    key: Seq<char>,
)
    requires
        params.get("clientCapabilities"@) == Some(JsonView::Object(members)),
        assoc::distinct(members),
    ensures
        ({
            let told = inbound::sanitized(policy, Some(params));
            let offered = JsonView::Object(members);
            let passed = told->0.get("clientCapabilities"@)->0;
            let withheld = (key == "fs"@ && policy.fs == ClientToolMode::Block) || (key
                == "terminal"@ && policy.terminal == ClientToolMode::Block);
            &&& told is Some
            &&& told->0.get("clientCapabilities"@) is Some
            &&& passed.get(key) == if withheld {
                None
            } else {
                offered.get(key)
            }
            &&& key != "clientCapabilities"@ ==> told->0.get(key) == params.get(key)
        }),
{
    broadcast use json::lemma_get_field;

    lemma_names();
    let offered = JsonView::Object(members);
    assoc::lemma_erase(members, "fs"@, key);
    let half = if policy.fs == ClientToolMode::Block {
        assoc::erase(members, "fs"@)
    } else {
        members
    };
    assoc::lemma_erase(half, "terminal"@, key);
}

/// What offers no tools is passed on as it is.
pub proof fn law_other_offers_are_kept(policy: ClientToolPolicy, params: Option<JsonView>)
    requires
        !(member(params, "clientCapabilities"@) matches Some(JsonView::Object(_))),
    ensures
        inbound::sanitized(policy, params) == params,
{
}

} // verus!
