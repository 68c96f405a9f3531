//! What a successful `session/load` changes: the session id that everybody
//! goes by, and the part of the replay log that is kept.

use crate::json;
use crate::json::{Json, JsonView};
use crate::multiplex::subscriber::{copy_bytes, Subscriber, SubscriberView};
use crate::protocol::amux;
use crate::session::attach;
use crate::session::state::{
    bump, bumped, QueuedPrompt, QueuedPromptView, ReplayEntry, ReplayEntryView,
    ReplayResetSnapshot, ReplayResetView, SessionInner, SessionView,
};
use crate::session::turn::text_ref;
use crate::text;
use crate::text::text_precedes;
use vstd::prelude::*;

verus! {

/// A list of peers that is in order by peer id, with one more in its place.
pub open spec fn insert_by_id(sorted: Seq<SubscriberView>, peer: SubscriberView) -> Seq<
    SubscriberView,
>
    decreases sorted.len(),
{
    if sorted.len() > 0 && text::precedes(peer.peer_id, sorted.last().peer_id) {
        insert_by_id(sorted.drop_last(), peer).push(sorted.last())
    } else {
        sorted.push(peer)
    }
}

/// The attached peers in order by peer id.
pub open spec fn by_id(subscribers: Seq<(Seq<char>, SubscriberView)>) -> Seq<SubscriberView>
    decreases subscribers.len(),
{
    if subscribers.len() == 0 {
        Seq::empty()
    } else {
        insert_by_id(by_id(subscribers.drop_last()), subscribers.last().1)
    }
}

proof fn lemma_insert_by_id(sorted: Seq<SubscriberView>, peer: SubscriberView, at: int)
    requires
        0 <= at <= sorted.len(),
        at > 0 ==> !text::precedes(peer.peer_id, sorted[at - 1].peer_id),
        forall|i: int|
            at <= i < sorted.len() ==> text::precedes(peer.peer_id, (#[trigger] sorted[i]).peer_id),
    ensures
        insert_by_id(sorted, peer) == sorted.insert(at, peer),
    decreases sorted.len(),
{
    if at < sorted.len() {
        let front = sorted.drop_last();
        assert forall|i: int| at <= i < front.len() implies text::precedes(
            peer.peer_id,
            (#[trigger] front[i]).peer_id,
        ) by {
            assert(front[i] == sorted[i]);
        }
        lemma_insert_by_id(front, peer, at);
        assert(sorted.insert(at, peer) =~= front.insert(at, peer).push(sorted.last()));
    } else {
        assert(sorted.insert(at, peer) =~= sorted.push(peer));
    }
}

/// The frames that say who is attached.
pub open spec fn presence_frames(session_id: Seq<char>, peers: Seq<SubscriberView>) -> Seq<
    Seq<u8>,
> {
    peers.map_values(
        |peer: SubscriberView|
            json::json_text(
                amux::peer_joined_frame(session_id, peer.peer_id, peer.peer_name, peer.role),
            ),
    )
}

/// Frames as entries of the replay log, numbered from `first` on. The second
/// part is the number after the last.
pub open spec fn numbered(frames: Seq<Seq<u8>>, recorded_at: Seq<char>, first: u64) -> (
    Seq<ReplayEntryView>,
    u64,
)
    decreases frames.len(),
{
    if frames.len() == 0 {
        (Seq::empty(), first)
    } else {
        let (front, seq) = numbered(frames.drop_last(), recorded_at, first);
        (front.push(ReplayEntryView { frame: frames.last(), recorded_at, seq }), bump(seq))
    }
}

/// The smaller of two counts.
pub open spec fn at_most(a: nat, b: nat) -> nat {
    if a <= b {
        a
    } else {
        b
    }
}

impl SessionView {
    /// Late joiners and waiting prompts go by the loaded session from now on.
    pub open spec fn rebind_canonical_session(self, loaded: Seq<char>) -> SessionView {
        SessionView {
            session_new_cache: Some(
                match self.session_new_cache {
                    Some(JsonView::Object(_)) => self.session_new_cache->0.field(
                        "sessionId"@,
                        JsonView::String(loaded),
                    ),
                    _ => JsonView::object().field("sessionId"@, JsonView::String(loaded)),
                },
            ),
            queued_prompts: self.queued_prompts.map_values(
                |item: QueuedPromptView| QueuedPromptView { session_id: loaded, ..item },
            ),
            ..self
        }
    }

    /// The replay log starts anew: with who is attached, then with what was
    /// recorded since the client asked for the load.
    pub open spec fn reset_replay_generation_after_load(
        self,
        loaded: Seq<char>,
        replay_start_len: nat,
    ) -> SessionView {
        let generation = bump(self.replay_generation);
        match self.replay_log {
            None => SessionView {
                replay_generation: generation,
                last_replay_reset: Some(
                    ReplayResetView {
                        loaded_session_id: loaded,
                        replay_generation: generation,
                        dropped_frame_count: 0,
                        retained_frame_count: 0,
                    },
                ),
                ..self
            },
            Some(log) => {
                let dropped = at_most(replay_start_len, log.len());
                let (presence, next) = numbered(
                    presence_frames(self.session_id, by_id(self.subscribers)),
                    self.clock,
                    self.next_replay_seq,
                );
                let segmented = presence + log.skip(dropped as int);
                SessionView {
                    replay_generation: generation,
                    replay_log: Some(segmented),
                    next_replay_seq: next,
                    last_replay_reset: Some(
                        ReplayResetView {
                            loaded_session_id: loaded,
                            replay_generation: generation,
                            dropped_frame_count: dropped,
                            retained_frame_count: segmented.len(),
                        },
                    ),
                    ..self
                }
            },
        }
    }
}

impl SessionInner {
    /// Makes late joiners and waiting prompts go by the loaded session.
    pub fn rebind_canonical_session(&mut self, loaded: &str)
        ensures
            final(self)@ == old(self)@.rebind_canonical_session(loaded@),
    {
        let cache = match self.session_new_cache.take() {
            Some(cache) => if cache.is_object() {
                cache
            } else {
                Json::object()
            },
            None => Json::object(),
        };
        self.session_new_cache = Some(cache.field("sessionId", Json::string(loaded)));
        let ghost all = self@.queued_prompts;
        let ghost before = self@;
        let mut waiting: Vec<QueuedPrompt> = Vec::new();
        std::mem::swap(&mut waiting, &mut self.queued_prompts);
        let mut rebound: Vec<QueuedPrompt> = Vec::new();
        let mut at: usize = 0;
        while at < waiting.len()
            invariant
                at <= waiting@.len(),
                waiting.deep_view() == all,
                rebound@.len() == at,
                forall|i: int|
                    0 <= i < at ==> (#[trigger] rebound@[i]).deep_view() == (QueuedPromptView {
                        session_id: loaded@,
                        ..all[i]
                    }),
            decreases waiting@.len() - at,
        {
            let item = QueuedPrompt {
                queue_item_id: waiting[at].queue_item_id.clone(),
                peer_id: waiting[at].peer_id.clone(),
                session_id: loaded.to_owned(),
                prompt_text: waiting[at].prompt_text.clone(),
                kind: waiting[at].kind,
            };
            assert(waiting.deep_view()[at as int] == waiting@[at as int].deep_view());
            rebound.push(item);
            at += 1;
        }
        assert(rebound.deep_view() =~= all.map_values(
            |item: QueuedPromptView| QueuedPromptView { session_id: loaded@, ..item },
        ));
        self.queued_prompts = rebound;
    }

    fn peers_by_id(&self) -> (peers: Vec<Subscriber>)
        ensures
            peers.deep_view() == by_id(self@.subscribers),
    {
        let ghost all = self@.subscribers;
        let mut sorted: Vec<Subscriber> = Vec::new();
        let mut done: usize = 0;
        assert(all.take(0) =~= Seq::empty());
        assert(sorted.deep_view() =~= Seq::empty());
        while done < self.subscribers.len()
            invariant
                done <= self.subscribers@.len(),
                all == self@.subscribers,
                sorted.deep_view() == by_id(all.take(done as int)),
            decreases self.subscribers@.len() - done,
        {
            assert(all.take(done + 1).drop_last() =~= all.take(done as int));
            assert(all[done as int] == self.subscribers@[done as int].deep_view());
            let peer = self.subscribers[done].1.clone();
            let ghost before = sorted.deep_view();
            let mut at: usize = sorted.len();
            while at > 0 && text_precedes(&peer.peer_id, &sorted[at - 1].peer_id)
                invariant
                    at <= sorted@.len(),
                    before == sorted.deep_view(),
                    forall|i: int|
                        at <= i < before.len() ==> text::precedes(
                            peer.peer_id@,
                            (#[trigger] before[i]).peer_id,
                        ),
                decreases at,
            {
                assert(before[at - 1] == sorted@[at - 1].deep_view());
                at -= 1;
            }
            proof {
                if at > 0 {
                    assert(before[at - 1] == sorted@[at - 1].deep_view());
                }
                lemma_insert_by_id(before, peer@, at as int);
            }
            sorted.insert(at, peer);
            assert(sorted.deep_view() =~= before.insert(at as int, peer@));
            done += 1;
        }
        assert(all.take(done as int) =~= all);
        sorted
    }

    /// The frames that say who is attached, in order by peer id.
    pub fn current_peer_joined_replay_frames(&self) -> (frames: Vec<Vec<u8>>)
        ensures
            attach::frames_view(frames@) == presence_frames(
                self@.session_id,
                by_id(self@.subscribers),
            ),
    {
        let peers = self.peers_by_id();
        let mut frames: Vec<Vec<u8>> = Vec::new();
        let mut at: usize = 0;
        while at < peers.len()
            invariant
                at <= peers@.len(),
                frames@.len() == at,
                forall|i: int|
                    0 <= i < at ==> (#[trigger] frames@[i])@ == json::json_text(
                        amux::peer_joined_frame(
                            self.session_id@,
                            peers@[i].peer_id@,
                            peers@[i].peer_name.deep_view(),
                            peers@[i].role.deep_view(),
                        ),
                    ),
            decreases peers@.len() - at,
        {
            let frame = amux::peer_joined(
                &self.session_id,
                &peers[at].peer_id,
                text_ref(&peers[at].peer_name),
                text_ref(&peers[at].role),
            );
            frames.push(frame);
            at += 1;
        }
        assert(attach::frames_view(frames@) =~= presence_frames(
            self@.session_id,
            peers.deep_view(),
        ));
        frames
    }

    /// Starts the replay log anew after a load.
    pub fn reset_replay_generation_after_load(&mut self, loaded: &str, replay_start_len: usize)
        ensures
            final(self)@ == old(self)@.reset_replay_generation_after_load(
                loaded@,
                replay_start_len as nat,
            ),
    {
        self.replay_generation = bumped(self.replay_generation);
        let frames = self.current_peer_joined_replay_frames();
        let mut dropped_frame_count: usize = 0;
        let mut retained_frame_count: usize = 0;
        if let Some(log) = self.replay_log.take() {
            let mut log = log;
            let ghost all = log.deep_view();
            dropped_frame_count = if replay_start_len < log.len() {
                replay_start_len
            } else {
                log.len()
            };
            let mut retained = log.split_off(dropped_frame_count);
            assert(retained.deep_view() =~= all.skip(dropped_frame_count as int));
            let mut segmented: Vec<ReplayEntry> = Vec::new();
            let ghost presence = attach::frames_view(frames@);
            let ghost first = self.next_replay_seq;
            let ghost before = self@;
            let mut at: usize = 0;
            assert(presence.take(0) =~= Seq::empty());
            assert(segmented.deep_view() =~= Seq::empty());
            while at < frames.len()
                invariant
                    at <= frames@.len(),
                    presence == attach::frames_view(frames@),
                    (segmented.deep_view(), self.next_replay_seq) == numbered(
                        presence.take(at as int),
                        before.clock,
                        first,
                    ),
                    self@ == (SessionView { next_replay_seq: self.next_replay_seq, ..before }),
                decreases frames@.len() - at,
            {
                assert(presence.take(at + 1).drop_last() =~= presence.take(at as int));
                let ghost entries = segmented.deep_view();
                let entry = ReplayEntry::new(
                    self.next_replay_seq,
                    copy_bytes(&frames[at]),
                    self.clock.clone(),
                );
                self.next_replay_seq = bumped(self.next_replay_seq);
                segmented.push(entry);
                assert(segmented.deep_view() =~= entries.push(entry.deep_view()));
                at += 1;
            }
            assert(presence.take(at as int) =~= presence);
            let ghost entries = segmented.deep_view();
            let ghost kept = retained.deep_view();
            segmented.append(&mut retained);
            assert(segmented.deep_view() =~= entries + kept);
            retained_frame_count = segmented.len();
            assert(segmented.deep_view().len() == segmented@.len());
            self.replay_log = Some(segmented);
        }
        self.last_replay_reset = Some(
            ReplayResetSnapshot {
                loaded_session_id: loaded.to_owned(),
                replay_generation: self.replay_generation,
                dropped_frame_count,
                retained_frame_count,
            },
        );
    }
}

/// The peers that a loaded session's log begins with stand in the order of their
/// ids, and are the attached peers, each as often as it is attached.
pub proof fn law_presence_is_in_order(subscribers: Seq<(Seq<char>, SubscriberView)>)
    ensures
        in_id_order(by_id(subscribers)),
        by_id(subscribers).to_multiset() == subscribers.map_values(
            |peer: (Seq<char>, SubscriberView)| peer.1,
        ).to_multiset(),
    decreases subscribers.len(),
{
    broadcast use vstd::seq_lib::group_to_multiset_ensures;

    let peers = subscribers.map_values(|peer: (Seq<char>, SubscriberView)| peer.1);
    if subscribers.len() > 0 {
        let front = subscribers.drop_last();
        let last = subscribers.last().1;
        law_presence_is_in_order(front);
        lemma_insert_keeps_order(by_id(front), last);
        assert(peers =~= front.map_values(|peer: (Seq<char>, SubscriberView)| peer.1).push(last));
    } else {
        assert(peers =~= by_id(subscribers));
    }
}

/// Whether peers stand in the order of their ids.
pub open spec fn in_id_order(peers: Seq<SubscriberView>) -> bool {
    forall|i: int, j: int|
        0 <= i < j < peers.len() ==> !text::precedes(
            (#[trigger] peers[j]).peer_id,
            (#[trigger] peers[i]).peer_id,
        )
}

/// A peer that is put in its place leaves the others in theirs.
proof fn lemma_insert_keeps_order(sorted: Seq<SubscriberView>, peer: SubscriberView)
    requires
        in_id_order(sorted),
    ensures
        in_id_order(insert_by_id(sorted, peer)),
        insert_by_id(sorted, peer).to_multiset() == sorted.to_multiset().insert(peer),
        forall|i: int|
            0 <= i < insert_by_id(sorted, peer).len() ==> #[trigger] insert_by_id(sorted, peer)[i]
                == peer || sorted.contains(insert_by_id(sorted, peer)[i]),
    decreases sorted.len(),
{
    broadcast use vstd::seq_lib::group_to_multiset_ensures;

    let all = insert_by_id(sorted, peer);
    if sorted.len() > 0 && text::precedes(peer.peer_id, sorted.last().peer_id) {
        let front = sorted.drop_last();
        let kept = insert_by_id(front, peer);
        lemma_insert_keeps_order(front, peer);
        assert(sorted =~= front.push(sorted.last()));
        assert(all.to_multiset() =~= sorted.to_multiset().insert(peer));
        assert forall|i: int| 0 <= i < all.len() implies #[trigger] all[i] == peer
            || sorted.contains(all[i]) by {
            if i < kept.len() {
                assert(all[i] == kept[i]);
                if kept[i] != peer {
                    let k = choose|k: int| 0 <= k < front.len() && front[k] == kept[i];
                    assert(sorted[k] == all[i]);
                }
            } else {
                assert(sorted[sorted.len() - 1] == all[i]);
            }
        }
        assert forall|i: int, j: int| 0 <= i < j < all.len() implies !text::precedes(
            (#[trigger] all[j]).peer_id,
            (#[trigger] all[i]).peer_id,
        ) by {
            if j < kept.len() {
                assert(all[i] == kept[i] && all[j] == kept[j]);
            } else {
                assert(all[i] == kept[i]);
                if kept[i] == peer {
                    text::lemma_precedes_total(peer.peer_id, sorted.last().peer_id);
                } else {
                    let k = choose|k: int| 0 <= k < front.len() && front[k] == kept[i];
                    assert(sorted[k] == kept[i]);
                }
            }
        }
    } else {
        assert forall|i: int, j: int| 0 <= i < j < all.len() implies !text::precedes(
            (#[trigger] all[j]).peer_id,
            (#[trigger] all[i]).peer_id,
        ) by {
            if j == sorted.len() && i < sorted.len() - 1 {
                let last = sorted.last();
                assert(!text::precedes(sorted[sorted.len() - 1].peer_id, sorted[i].peer_id));
                if text::precedes(peer.peer_id, sorted[i].peer_id) {
                    text::lemma_precedes_total(sorted[i].peer_id, last.peer_id);
                    text::lemma_precedes_total(peer.peer_id, last.peer_id);
                    if sorted[i].peer_id != last.peer_id {
                        text::lemma_precedes_transitive(
                            peer.peer_id,
                            sorted[i].peer_id,
                            last.peer_id,
                        );
                    }
                }
            }
        }
        assert forall|i: int| 0 <= i < all.len() implies #[trigger] all[i] == peer
            || sorted.contains(all[i]) by {
            if i < sorted.len() {
                assert(sorted[i] == all[i]);
            }
        }
    }
}

} // verus!
