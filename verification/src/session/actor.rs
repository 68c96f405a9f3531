//! The life of a session: which event leads to which step, when the session
//! waits for somebody to come back, and when it ends.
//!
//! [`SessionActor::handle`] takes one event and says what is to be done: what
//! the agent is written, what the asker is answered, what becomes of the timer,
//! and whether the session is over. What the peers are sent lies in the outbox
//! of the session.

use crate::assoc;
use crate::cli::{ClientToolPolicy, ReplayTurns};
use crate::multiplex::subscriber::{Delivery, Subscriber, SubscriberView};
use crate::session::attach;
use crate::session::clock;
use crate::session::clock::utc_rfc3339_now;
use crate::session::metadata::{IndexView, SessionListMetadataIndex};
use crate::session::snapshot::SessionSnapshot;
use crate::session::state::{AttachError, SessionInner, SessionView, WS_CLOSE_AGENT_DEAD};
use crate::table;
use vstd::prelude::*;

verus! {

/// How a session is run.
#[derive(Debug)]
pub struct SessionOptions {
    pub replay_policy: ReplayTurns,
    /// How long a session outlives its last peer.
    pub session_ttl: std::time::Duration,
    pub meta_propagate: bool,
    pub client_tool_policy: ClientToolPolicy,
    pub agent_cwd: String,
}

/// What happens to a session.
#[derive(Debug)]
pub enum SessionMsg {
    Attach { subscriber: Subscriber },
    Detach { peer_id: String },
    InboundFromSubscriber { peer_id: String, bytes: Vec<u8> },
    AgentStdoutLine(Vec<u8>),
    AgentDied,
    /// Somebody wants to see the state of the session.
    Snapshot,
    /// Nobody can send the session anything any more.
    ChannelClosed,
    /// The timer ran out.
    TtlElapsed,
}

/// The model of [`SessionMsg`].
#[verifier::ext_equal]
pub enum MsgView {
    Attach { subscriber: SubscriberView },
    Detach { peer_id: Seq<char> },
    InboundFromSubscriber { peer_id: Seq<char>, bytes: Seq<u8> },
    AgentStdoutLine(Seq<u8>),
    AgentDied,
    Snapshot,
    ChannelClosed,
    TtlElapsed,
}

impl View for SessionMsg {
    type V = MsgView;

    open spec fn view(&self) -> MsgView {
        match *self {
            SessionMsg::Attach { subscriber } => MsgView::Attach { subscriber: subscriber@ },
            SessionMsg::Detach { peer_id } => MsgView::Detach { peer_id: peer_id@ },
            SessionMsg::InboundFromSubscriber { peer_id, bytes } =>
                MsgView::InboundFromSubscriber { peer_id: peer_id@, bytes: bytes@ },
            SessionMsg::AgentStdoutLine(line) => MsgView::AgentStdoutLine(line@),
            SessionMsg::AgentDied => MsgView::AgentDied,
            SessionMsg::Snapshot => MsgView::Snapshot,
            SessionMsg::ChannelClosed => MsgView::ChannelClosed,
            SessionMsg::TtlElapsed => MsgView::TtlElapsed,
        }
    }
}

/// Why a session is over.
#[derive(Debug, Clone, Copy, PartialEq, Eq, Structural)]
pub enum ExitReason {
    /// A line of the agent reached nobody any more.
    LastSubscriberLeft,
    /// Nobody came back in time.
    TtlExpired,
    AgentDied,
    ChannelClosed,
}

/// What becomes of the timer.
#[derive(Debug, Clone, Copy, PartialEq, Eq, Structural)]
pub enum TtlTimer {
    Keep,
    /// It starts from the beginning.
    Start,
    Stop,
}

/// What a step leaves to do.
#[derive(Debug)]
pub struct SessionStep {
    pub writes_to_agent: Vec<Vec<u8>>,
    /// The answer to a peer that wanted to attach.
    pub attached: Option<Result<(), AttachError>>,
    /// The answer to somebody who wanted to see the session.
    pub snapshot: Option<SessionSnapshot>,
    pub timer: TtlTimer,
    pub exit: Option<ExitReason>,
}

/// The model of [`SessionStep`], but for the snapshot.
#[verifier::ext_equal]
pub struct StepView {
    pub writes_to_agent: Seq<Seq<u8>>,
    pub attached: Option<Result<(), AttachError>>,
    pub timer: TtlTimer,
    pub exit: Option<ExitReason>,
}

impl View for SessionStep {
    type V = StepView;

    open spec fn view(&self) -> StepView {
        StepView {
            writes_to_agent: attach::frames_view(self.writes_to_agent@),
            attached: self.attached,
            timer: self.timer,
            exit: self.exit,
        }
    }
}

impl StepView {
    /// Nothing is left to do.
    pub open spec fn nothing() -> StepView {
        StepView {
            writes_to_agent: Seq::empty(),
            attached: None,
            timer: TtlTimer::Keep,
            exit: None,
        }
    }
}

impl SessionStep {
    pub(crate) fn nothing() -> (step: SessionStep)
        ensures
            step@ == StepView::nothing(),
            step.snapshot is None,
    {
        let step = SessionStep {
            writes_to_agent: Vec::new(),
            attached: None,
            snapshot: None,
            timer: TtlTimer::Keep,
            exit: None,
        };
        assert(step@.writes_to_agent =~= Seq::empty());
        step
    }
}

/// A session and whether it waits for somebody to come back.
#[derive(Debug)]
pub struct SessionActor {
    pub inner: SessionInner,
    pub ttl_pending: bool,
}

/// The model of [`SessionActor`].
#[verifier::ext_equal]
pub struct ActorView {
    pub inner: SessionView,
    pub ttl_pending: bool,
}

impl View for SessionActor {
    type V = ActorView;

    open spec fn view(&self) -> ActorView {
        ActorView { inner: self.inner@, ttl_pending: self.ttl_pending }
    }
}

impl SessionView {
    /// The channel of a peer takes no more messages.
    pub open spec fn outbound_closed(self, peer_id: Seq<char>) -> SessionView {
        match assoc::lookup(self.subscribers, peer_id) {
            Some(subscriber) => SessionView {
                subscribers: assoc::store(
                    self.subscribers,
                    peer_id,
                    SubscriberView { open: false, ..subscriber },
                ),
                ..self
            },
            None => self,
        }
    }
}

impl SessionInner {
    /// Notes that the channel of a peer takes no more messages.
    pub fn outbound_closed(&mut self, peer_id: &str)
        ensures
            final(self)@ == old(self)@.outbound_closed(peer_id@),
    {
        let key = peer_id.to_owned();
        let closed = match table::get(&self.subscribers, &key) {
            Some(subscriber) => {
                let mut closed = subscriber.clone();
                closed.open = false;
                Some(closed)
            },
            None => None,
        };
        if let Some(closed) = closed {
            table::put(&mut self.subscribers, key, closed);
        }
    }

    /// Hands out what is to be sent.
    pub fn take_outbox(&mut self) -> (deliveries: Vec<Delivery>)
        ensures
            deliveries.deep_view() == old(self)@.outbox,
            final(self)@ == (SessionView { outbox: Seq::empty(), ..old(self)@ }),
    {
        let mut deliveries: Vec<Delivery> = Vec::new();
        std::mem::swap(&mut deliveries, &mut self.outbox);
        assert(self.outbox.deep_view() =~= Seq::empty());
        deliveries
    }
}

impl ActorView {
    /// A session with its first peer.
    pub open spec fn start(
        session_id: Seq<char>,
        replay_policy: ReplayTurns,
        meta_propagate: bool,
        client_tool_policy: ClientToolPolicy,
        agent_cwd: Seq<char>,
        index: IndexView,
        first: SubscriberView,
        clock: Seq<char>,
    ) -> ActorView {
        ActorView {
            inner: SessionView {
                clock,
                ..SessionView::new(
                    session_id,
                    agent_cwd,
                    replay_policy,
                    meta_propagate,
                    client_tool_policy,
                    index,
                )
            }.attach(first).0,
            ttl_pending: false,
        }
    }

    /// One event.
    pub open spec fn step(self, msg: MsgView) -> (ActorView, StepView) {
        match msg {
            MsgView::Attach { subscriber } => {
                let (inner, result) = self.inner.attach(subscriber);
                (
                    ActorView {
                        inner,
                        ttl_pending: self.ttl_pending && result is Err,
                    },
                    StepView {
                        attached: Some(result),
                        timer: if result is Ok {
                            TtlTimer::Stop
                        } else {
                            TtlTimer::Keep
                        },
                        ..StepView::nothing()
                    },
                )
            },
            MsgView::Detach { peer_id } => {
                let (inner, empty) = self.inner.detach(peer_id);
                (
                    ActorView { inner, ttl_pending: self.ttl_pending || empty },
                    StepView {
                        timer: if empty {
                            TtlTimer::Start
                        } else {
                            TtlTimer::Keep
                        },
                        ..StepView::nothing()
                    },
                )
            },
            MsgView::InboundFromSubscriber { peer_id, bytes } => {
                let (inner, write) = self.inner.handle_inbound(peer_id, bytes);
                (
                    ActorView { inner, ..self },
                    StepView {
                        writes_to_agent: match write {
                            Some(frame) => seq![frame],
                            None => Seq::empty(),
                        },
                        ..StepView::nothing()
                    },
                )
            },
            MsgView::AgentStdoutLine(line) => {
                let (inner, action) = self.inner.handle_agent_line(line);
                (
                    ActorView { inner, ..self },
                    StepView {
                        writes_to_agent: action.writes_to_agent,
                        exit: if action.session_empty {
                            Some(ExitReason::LastSubscriberLeft)
                        } else {
                            None
                        },
                        ..StepView::nothing()
                    },
                )
            },
            MsgView::AgentDied => (
                self,
                StepView { exit: Some(ExitReason::AgentDied), ..StepView::nothing() },
            ),
            MsgView::Snapshot => (self, StepView::nothing()),
            MsgView::ChannelClosed => (
                self,
                StepView { exit: Some(ExitReason::ChannelClosed), ..StepView::nothing() },
            ),
            MsgView::TtlElapsed => if self.inner.subscribers.len() == 0 {
                (self, StepView { exit: Some(ExitReason::TtlExpired), ..StepView::nothing() })
            } else {
                (
                    ActorView { ttl_pending: false, ..self },
                    StepView { timer: TtlTimer::Stop, ..StepView::nothing() },
                )
            },
        }
    }

    /// The end of a session: where the agent died, the peers are told; then the
    /// session shows in no index and has no peers.
    pub open spec fn finish(self, reason: ExitReason) -> ActorView {
        let closed = match reason {
            ExitReason::AgentDied => self.inner.close_all_subscribers(
                WS_CLOSE_AGENT_DEAD,
                "agent subprocess exited"@,
            ),
            _ => self.inner,
        };
        ActorView {
            inner: SessionView {
                subscribers: Seq::empty(),
                ..closed.clear_session_list_metadata()
            },
            ..self
        }
    }
}

impl SessionActor {
    /// A session with its first peer, begun at `clock`.
    pub fn start_at(
        session_id: String,
        options: &SessionOptions,
        index: SessionListMetadataIndex,
        first: Subscriber,
        clock: String,
    ) -> (actor: SessionActor)
        ensures
            actor@ == ActorView::start(
                session_id@,
                options.replay_policy,
                options.meta_propagate,
                options.client_tool_policy,
                options.agent_cwd@,
                index@,
                first@,
                clock@,
            ),
    {
        let mut inner = SessionInner::new(
            session_id,
            options.agent_cwd.clone(),
            options.replay_policy,
            options.meta_propagate,
            options.client_tool_policy,
            index,
        );
        inner.clock = clock;
        let _ = inner.attach(first);
        SessionActor { inner, ttl_pending: false }
    }

    /// A session with its first peer, begun now.
    pub fn start(
        session_id: String,
        options: &SessionOptions,
        index: SessionListMetadataIndex,
        first: Subscriber,
    ) -> (actor: SessionActor)
        ensures
            exists|now: Seq<char>, seconds: u64, nanos: u32|
                #![trigger clock::stamps(now, seconds, nanos)]
                clock::stamps(now, seconds, nanos) && actor@ == ActorView::start(
                    session_id@,
                    options.replay_policy,
                    options.meta_propagate,
                    options.client_tool_policy,
                    options.agent_cwd@,
                    index@,
                    first@,
                    now,
                ),
    {
        let now = utc_rfc3339_now();
        Self::start_at(session_id, options, index, first, now)
    }

    fn take_attach(&mut self, subscriber: Subscriber) -> (step: SessionStep)
        ensures
            final(self)@ == old(self)@.step(MsgView::Attach { subscriber: subscriber@ }).0,
            step@ == old(self)@.step(MsgView::Attach { subscriber: subscriber@ }).1,
            step.snapshot is None,
    {
        let mut step = SessionStep::nothing();
        let result = self.inner.attach(subscriber);
        if result.is_ok() {
            self.ttl_pending = false;
            step.timer = TtlTimer::Stop;
        }
        step.attached = Some(result);
        step
    }

    fn take_detach(&mut self, peer_id: &str) -> (step: SessionStep)
        ensures
            final(self)@ == old(self)@.step(MsgView::Detach { peer_id: peer_id@ }).0,
            step@ == old(self)@.step(MsgView::Detach { peer_id: peer_id@ }).1,
            step.snapshot is None,
    {
        let mut step = SessionStep::nothing();
        if self.inner.detach(peer_id) {
            self.ttl_pending = true;
            step.timer = TtlTimer::Start;
        }
        step
    }

    fn take_inbound(&mut self, peer_id: &str, bytes: Vec<u8>) -> (step: SessionStep)
        ensures
            final(self)@ == old(self)@.step(
                MsgView::InboundFromSubscriber { peer_id: peer_id@, bytes: bytes@ },
            ).0,
            step@ == old(self)@.step(
                MsgView::InboundFromSubscriber { peer_id: peer_id@, bytes: bytes@ },
            ).1,
            step.snapshot is None,
    {
        let mut step = SessionStep::nothing();
        if let Some(write) = self.inner.handle_inbound(peer_id, bytes) {
            step.writes_to_agent.push(write);
            assert(step@.writes_to_agent =~= seq![write@]);
        }
        step
    }

    fn take_line(&mut self, line: Vec<u8>) -> (step: SessionStep)
        ensures
            final(self)@ == old(self)@.step(MsgView::AgentStdoutLine(line@)).0,
            step@ == old(self)@.step(MsgView::AgentStdoutLine(line@)).1,
            step.snapshot is None,
    {
        let mut step = SessionStep::nothing();
        let action = self.inner.handle_agent_line(line);
        step.writes_to_agent = action.writes_to_agent;
        if action.session_empty {
            step.exit = Some(ExitReason::LastSubscriberLeft);
        }
        step
    }

    fn take_elapsed(&mut self) -> (step: SessionStep)
        ensures
            final(self)@ == old(self)@.step(MsgView::TtlElapsed).0,
            step@ == old(self)@.step(MsgView::TtlElapsed).1,
            step.snapshot is None,
    {
        let mut step = SessionStep::nothing();
        assert(self.inner@.subscribers.len() == self.inner.subscribers@.len());
        if self.inner.subscribers.len() == 0 {
            step.exit = Some(ExitReason::TtlExpired);
        } else {
            self.ttl_pending = false;
            step.timer = TtlTimer::Stop;
        }
        step
    }

    /// Handles one event.
    #[verifier::spinoff_prover]
    pub fn step(&mut self, msg: SessionMsg) -> (step: SessionStep)
        ensures
            final(self)@ == old(self)@.step(msg@).0,
            step@ == old(self)@.step(msg@).1,
            step.snapshot is Some <==> msg is Snapshot,
            step.snapshot matches Some(snapshot) ==> snapshot.shows(
                old(self)@.inner,
                old(self)@.ttl_pending,
            ),
    {
        match msg {
            SessionMsg::Attach { subscriber } => self.take_attach(subscriber),
            SessionMsg::Detach { peer_id } => self.take_detach(&peer_id),
            SessionMsg::InboundFromSubscriber { peer_id, bytes } => self.take_inbound(
                &peer_id,
                bytes,
            ),
            SessionMsg::AgentStdoutLine(line) => self.take_line(line),
            SessionMsg::AgentDied => {
                let mut step = SessionStep::nothing();
                step.exit = Some(ExitReason::AgentDied);
                step
            },
            SessionMsg::Snapshot => {
                let mut step = SessionStep::nothing();
                step.snapshot = Some(self.inner.build_snapshot(self.ttl_pending));
                step
            },
            SessionMsg::ChannelClosed => {
                let mut step = SessionStep::nothing();
                step.exit = Some(ExitReason::ChannelClosed);
                step
            },
            SessionMsg::TtlElapsed => self.take_elapsed(),
        }
    }

    /// Handles one event, now: frames that are recorded meanwhile carry this
    /// moment.
    pub fn handle(&mut self, msg: SessionMsg) -> (step: SessionStep)
        ensures
            exists|now: Seq<char>, seconds: u64, nanos: u32|
                #![trigger clock::stamps(now, seconds, nanos)]
                clock::stamps(now, seconds, nanos) && (final(self)@, step@) == (ActorView {
                    inner: SessionView { clock: now, ..old(self)@.inner },
                    ..old(self)@
                }).step(msg@),
            step.snapshot is Some <==> msg is Snapshot,
            step.snapshot matches Some(snapshot) ==> snapshot.shows(
                old(self)@.inner,
                old(self)@.ttl_pending,
            ),
    {
        let now = utc_rfc3339_now();
        self.inner.clock = now;
        self.step(msg)
    }

    /// Ends the session.
    pub fn finish(&mut self, reason: ExitReason)
        ensures
            final(self)@ == old(self)@.finish(reason),
    {
        if reason == ExitReason::AgentDied {
            self.inner.close_all_subscribers(WS_CLOSE_AGENT_DEAD, "agent subprocess exited");
        }
        self.inner.clear_session_list_metadata();
        self.inner.subscribers.clear();
        assert(self.inner.subscribers.deep_view() =~= Seq::empty());
    }
}

} // verus!
