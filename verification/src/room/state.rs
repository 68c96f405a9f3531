//! The state of a room.

use crate::protocol::amux::SegmentId;
use crate::protocol::attach::{
    AttachCompactionSummary, AttachCompactionSummaryView, ReplayOrder, SegmentSummary,
    SegmentSummaryView,
};
use crate::session::state::{ReplayEntry, ReplayEntryView, SessionInner, SessionView};
use vstd::prelude::*;

verus! {

/// The number that stands for the time before the first segment opened.
pub const PRE_SEGMENT_ID: u64 = 0;

/// One recorded frame, and the segment it was recorded in.
#[derive(Debug)]
pub struct RoomEntry {
    pub entry: ReplayEntry,
    pub segment_id: SegmentId,
}

/// The model of [`RoomEntry`].
#[verifier::ext_equal]
pub struct RoomEntryView {
    pub entry: ReplayEntryView,
    pub segment_id: SegmentId,
}

impl DeepView for RoomEntry {
    type V = RoomEntryView;

    open spec fn deep_view(&self) -> RoomEntryView {
        RoomEntryView { entry: self.entry.deep_view(), segment_id: self.segment_id }
    }
}

impl Clone for RoomEntry {
    fn clone(&self) -> (copy: Self)
        ensures
            copy.deep_view() == self.deep_view(),
    {
        RoomEntry { entry: self.entry.clone(), segment_id: self.segment_id }
    }
}

/// History that is still to be streamed to a peer, page by page.
#[derive(Debug)]
pub struct AttachStreamBackfill {
    pub peer_id: String,
    pub room_id: String,
    pub replay_order: ReplayOrder,
    pub replay_generation: u64,
    pub replay_boundary_seq: u64,
    pub frame_count: usize,
    pub segments: Vec<FramePage>,
    pub started: bool,
}

/// Frames that are sent together.
#[derive(Debug)]
pub struct FramePage {
    pub frames: Vec<Vec<u8>>,
}

impl DeepView for FramePage {
    type V = Seq<Seq<u8>>;

    open spec fn deep_view(&self) -> Seq<Seq<u8>> {
        self.frames@.map_values(|frame: Vec<u8>| frame@)
    }
}

/// The model of [`AttachStreamBackfill`].
#[verifier::ext_equal]
pub struct BackfillView {
    pub peer_id: Seq<char>,
    pub room_id: Seq<char>,
    pub replay_order: ReplayOrder,
    pub replay_generation: u64,
    pub replay_boundary_seq: u64,
    pub frame_count: usize,
    pub segments: Seq<Seq<Seq<u8>>>,
    pub started: bool,
}

impl DeepView for AttachStreamBackfill {
    type V = BackfillView;

    open spec fn deep_view(&self) -> BackfillView {
        BackfillView {
            peer_id: self.peer_id@,
            room_id: self.room_id@,
            replay_order: self.replay_order,
            replay_generation: self.replay_generation,
            replay_boundary_seq: self.replay_boundary_seq,
            frame_count: self.frame_count,
            segments: self.segments.deep_view(),
            started: self.started,
        }
    }
}

/// History that is to be streamed after a while.
#[derive(Debug)]
pub struct ScheduledBackfill {
    pub plan: AttachStreamBackfill,
    pub delay_ms: u64,
}

/// The model of [`ScheduledBackfill`].
#[verifier::ext_equal]
pub struct ScheduledView {
    pub plan: BackfillView,
    pub delay_ms: u64,
}

impl DeepView for ScheduledBackfill {
    type V = ScheduledView;

    open spec fn deep_view(&self) -> ScheduledView {
        ScheduledView { plan: self.plan.deep_view(), delay_ms: self.delay_ms }
    }
}

/// The state of a room: a session, its log by segments, and what is known of the
/// segments and of the agent's context.
#[derive(Debug)]
pub struct RoomInner {
    pub session: SessionInner,
    /// Every frame that went to all peers, where frames are kept at all.
    pub replay_log: Option<Vec<RoomEntry>>,
    pub segments: Vec<SegmentSummary>,
    pub active_segment_id: Option<SegmentId>,
    /// How often the agent compacted its context.
    pub compression_count: u64,
    pub compaction: Option<AttachCompactionSummary>,
    /// What is to be streamed later, in order.
    pub scheduled: Vec<ScheduledBackfill>,
}

/// The model of [`RoomInner`].
#[verifier::ext_equal]
pub struct RoomView {
    pub session: SessionView,
    pub replay_log: Option<Seq<RoomEntryView>>,
    pub segments: Seq<SegmentSummaryView>,
    pub active_segment_id: Option<SegmentId>,
    pub compression_count: u64,
    pub compaction: Option<AttachCompactionSummaryView>,
    pub scheduled: Seq<ScheduledView>,
}

impl View for RoomInner {
    type V = RoomView;

    open spec fn view(&self) -> RoomView {
        RoomView {
            session: self.session@,
            replay_log: self.replay_log.deep_view(),
            segments: self.segments.deep_view(),
            active_segment_id: self.active_segment_id,
            compression_count: self.compression_count,
            compaction: self.compaction.deep_view(),
            scheduled: self.scheduled.deep_view(),
        }
    }
}

impl RoomInner {
    /// A room around a session, without any segment.
    pub fn new(session: SessionInner, keep_log: bool) -> (room: RoomInner)
        ensures
            room@ == (RoomView {
                session: session@,
                replay_log: if keep_log {
                    Some(Seq::empty())
                } else {
                    None
                },
                segments: Seq::empty(),
                active_segment_id: None,
                compression_count: 0,
                compaction: None,
                scheduled: Seq::empty(),
            }),
    {
        let log: Vec<RoomEntry> = Vec::new();
        assert(log.deep_view() =~= Seq::empty());
        let room = RoomInner {
            session,
            replay_log: if keep_log {
                Some(log)
            } else {
                None
            },
            segments: Vec::new(),
            active_segment_id: None,
            compression_count: 0,
            compaction: None,
            scheduled: Vec::new(),
        };
        room
    }
}

} // verus!
