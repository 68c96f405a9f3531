//! A session from its first peer to its end.
//!
//! [`SessionRun::advance`] takes the events of a session one by one and says what
//! is to be done about each: what a step of the session leaves to do, how long
//! the timer runs where it starts, and, when the session is over, that the agent
//! is to be shut down.

use crate::multiplex::subscriber::{OutMsgView, SubscriberView};
use crate::session::actor::{
    ActorView, ExitReason, MsgView, SessionActor, SessionMsg, SessionStep, StepView, TtlTimer,
};
use crate::session::clock;
use crate::session::laws;
use crate::session::metadata::IndexView;
use crate::session::state;
use crate::session::state::SessionView;
use vstd::prelude::*;

verus! {

/// How long an agent has to exit by itself, in milliseconds.
pub const SHUTDOWN_TIMEOUT_MS: u64 = 2000;

/// How the agent is shut down.
#[derive(Debug, Clone, Copy, PartialEq, Eq, Structural)]
pub struct AgentShutdown {
    /// How long it has to exit by itself.
    pub timeout_ms: u64,
}

/// A session, how long it outlives its last peer, and why it is over, where it
/// is.
#[derive(Debug)]
pub struct SessionRun {
    pub actor: SessionActor,
    pub session_ttl: std::time::Duration,
    pub exit: Option<ExitReason>,
}

/// The model of [`SessionRun`].
#[verifier::ext_equal]
pub struct RunView {
    pub actor: ActorView,
    pub session_ttl: std::time::Duration,
    pub exit: Option<ExitReason>,
}

impl View for SessionRun {
    type V = RunView;

    open spec fn view(&self) -> RunView {
        RunView { actor: self.actor@, session_ttl: self.session_ttl, exit: self.exit }
    }
}

/// What an event leaves to do.
#[derive(Debug)]
pub struct RunStep {
    pub step: SessionStep,
    /// How long the timer runs, where it starts.
    pub wait: Option<std::time::Duration>,
    /// How the agent is shut down, where the session is over.
    pub shutdown: Option<AgentShutdown>,
}

/// The model of [`RunStep`]; of its step, all but the snapshot.
#[verifier::ext_equal]
pub struct RunStepView {
    pub step: StepView,
    pub wait: Option<std::time::Duration>,
    pub shutdown: Option<AgentShutdown>,
}

impl View for RunStep {
    type V = RunStepView;

    open spec fn view(&self) -> RunStepView {
        RunStepView { step: self.step@, wait: self.wait, shutdown: self.shutdown }
    }
}

impl RunStepView {
    /// Nothing is left to do.
    pub open spec fn nothing() -> RunStepView {
        RunStepView { step: StepView::nothing(), wait: None, shutdown: None }
    }
}

impl RunView {
    /// One event, at the moment `now`. When the session is over, it is ended, and
    /// the agent is shut down; after that, nothing happens to it any more.
    pub open spec fn advance(self, now: Seq<char>, msg: MsgView) -> (RunView, RunStepView) {
        if self.exit is Some {
            (self, RunStepView::nothing())
        } else {
            let (after, step) = ActorView {
                inner: SessionView { clock: now, ..self.actor.inner },
                ..self.actor
            }.step(msg);
            (
                RunView {
                    actor: match step.exit {
                        Some(reason) => after.finish(reason),
                        None => after,
                    },
                    exit: step.exit,
                    ..self
                },
                RunStepView {
                    step,
                    wait: if step.timer == TtlTimer::Start {
                        Some(self.session_ttl)
                    } else {
                        None
                    },
                    shutdown: match step.exit {
                        Some(_) => Some(AgentShutdown { timeout_ms: SHUTDOWN_TIMEOUT_MS }),
                        None => None,
                    },
                },
            )
        }
    }
}

impl SessionRun {
    /// A session that was begun.
    pub fn begin(actor: SessionActor, session_ttl: std::time::Duration) -> (run: SessionRun)
        ensures
            run@ == (RunView { actor: actor@, session_ttl, exit: None }),
    {
        SessionRun { actor, session_ttl, exit: None }
    }

    /// Handles one event, now.
    pub fn advance(&mut self, msg: SessionMsg) -> (done: RunStep)
        ensures
            old(self).exit is Some ==> final(self)@ == old(self)@ && done@
                == RunStepView::nothing(),
            old(self).exit is None ==> exists|now: Seq<char>, seconds: u64, nanos: u32|
                #![trigger clock::stamps(now, seconds, nanos)]
                clock::stamps(now, seconds, nanos) && (final(self)@, done@) == old(self)@.advance(
                    now,
                    msg@,
                ),
            done.step.snapshot is Some <==> old(self).exit is None && msg is Snapshot,
            done.step.snapshot matches Some(snapshot) ==> snapshot.shows(
                old(self)@.actor.inner,
                old(self)@.actor.ttl_pending,
            ),
    {
        if self.exit.is_some() {
            return RunStep { step: SessionStep::nothing(), wait: None, shutdown: None };
        }
        let step = self.actor.handle(msg);
        let wait = if step.timer == TtlTimer::Start {
            Some(self.session_ttl)
        } else {
            None
        };
        let shutdown = match step.exit {
            Some(reason) => {
                self.actor.finish(reason);
                self.exit = Some(reason);
                Some(AgentShutdown { timeout_ms: SHUTDOWN_TIMEOUT_MS })
            },
            None => None,
        };
        RunStep { step, wait, shutdown }
    }
}

/// What can become of a session: something happens to it, what it left to send
/// is sent, the channel of a peer turns out to be closed, or another session
/// changes the index that they share.
#[verifier::ext_equal]
pub enum EventView {
    Happens { now: Seq<char>, msg: MsgView },
    Sent,
    Unreachable { peer_id: Seq<char> },
    IndexChanged { index: IndexView },
}

impl EventView {
    /// Whether somebody wants to attach.
    pub open spec fn attaches(self) -> bool {
        self matches EventView::Happens { msg, .. } && msg is Attach
    }

    /// Whether this ends a session to which nobody is attached.
    pub open spec fn ends(self) -> bool {
        self matches EventView::Happens { msg, .. } && (msg is AgentDied || msg is ChannelClosed
            || msg is TtlElapsed)
    }
}

impl RunView {
    /// The same run with another state of its session.
    pub open spec fn with_inner(self, inner: SessionView) -> RunView {
        RunView { actor: ActorView { inner, ..self.actor }, ..self }
    }

    /// One event.
    pub open spec fn next(self, event: EventView) -> (RunView, RunStepView) {
        let inner = self.actor.inner;
        match event {
            EventView::Happens { now, msg } => self.advance(now, msg),
            EventView::Sent => (
                self.with_inner(SessionView { outbox: Seq::empty(), ..inner }),
                RunStepView::nothing(),
            ),
            EventView::Unreachable { peer_id } => (
                self.with_inner(inner.outbound_closed(peer_id)),
                RunStepView::nothing(),
            ),
            EventView::IndexChanged { index } => (
                self.with_inner(SessionView { index, ..inner }),
                RunStepView::nothing(),
            ),
        }
    }

    /// The events one after the other: what becomes of the session, and what each
    /// event leaves to do.
    pub open spec fn after(self, events: Seq<EventView>) -> (RunView, Seq<RunStepView>)
        decreases events.len(),
    {
        if events.len() == 0 {
            (self, Seq::empty())
        } else {
            let (before, steps) = self.after(events.drop_last());
            let (now, step) = before.next(events.last());
            (now, steps.push(step))
        }
    }

    /// Whether the session goes on, nobody is attached, and the timer runs.
    pub open spec fn waiting(self) -> bool {
        &&& self.exit is None
        &&& self.actor.inner.subscribers.len() == 0
        &&& self.actor.ttl_pending
    }
}

/// How often the agent is shut down.
pub open spec fn shutdowns(steps: Seq<RunStepView>) -> nat
    decreases steps.len(),
{
    if steps.len() == 0 {
        0
    } else {
        shutdowns(steps.drop_last()) + if steps.last().shutdown is Some {
            1nat
        } else {
            0nat
        }
    }
}

/// On every exit the agent is shut down, once, and not before: whatever happens
/// to a session, the event that ends it is the one that has the agent shut down,
/// and nobody is attached from then on.
pub proof fn law_every_exit_shuts_the_agent_down(run: RunView, events: Seq<EventView>)
    requires
        run.exit is None,
    ensures
        ({
            let (after, steps) = run.after(events);
            &&& steps.len() == events.len()
            &&& shutdowns(steps) == if after.exit is Some {
                1nat
            } else {
                0nat
            }
            &&& forall|i: int|
                0 <= i < steps.len() ==> ((#[trigger] steps[i]).shutdown is Some
                    <==> steps[i].step.exit is Some)
            &&& forall|i: int|
                0 <= i < steps.len() && (#[trigger] steps[i]).shutdown is Some ==> after.exit
                    == steps[i].step.exit && steps[i].shutdown == Some(
                    AgentShutdown { timeout_ms: SHUTDOWN_TIMEOUT_MS },
                )
            &&& after.exit is Some ==> after.actor.inner.subscribers.len() == 0
        }),
    decreases events.len(),
{
    if events.len() > 0 {
        law_every_exit_shuts_the_agent_down(run, events.drop_last());
        let (before, steps) = run.after(events.drop_last());
        let (after, step) = before.next(events.last());
        assert(steps.push(step).drop_last() =~= steps);
        if before.exit is Some {
            lemma_ended_stays_ended(before, events.last());
        } else {
            assert forall|i: int| 0 <= i < steps.len() implies (#[trigger] steps[i]).shutdown
                is None by {}
        }
    }
}

/// What is over stays over, with nobody attached, and has nothing left to do.
proof fn lemma_ended_stays_ended(run: RunView, event: EventView)
    requires
        run.exit is Some,
        run.actor.inner.subscribers.len() == 0,
    ensures
        run.next(event).0.exit == run.exit,
        run.next(event).0.actor.inner.subscribers.len() == 0,
        run.next(event).1 == RunStepView::nothing(),
{
}

/// The timer runs exactly while the session says that it waits: it is started,
/// for the session's time to live, by an event that makes the session wait, and
/// stopped by one after which it does not; any other event leaves both alone.
pub proof fn law_timer_runs_while_the_session_waits(run: RunView, event: EventView)
    requires
        run.exit is None,
    ensures
        ({
            let (after, step) = run.next(event);
            &&& after.session_ttl == run.session_ttl
            &&& step.wait == if step.step.timer == TtlTimer::Start {
                Some(run.session_ttl)
            } else {
                None
            }
            &&& after.actor.ttl_pending == match step.step.timer {
                TtlTimer::Start => true,
                TtlTimer::Stop => false,
                TtlTimer::Keep => run.actor.ttl_pending,
            }
        }),
{
}

/// A session that waits goes on waiting through everything but the end of its
/// agent, of its channel or of its time, as long as nobody attaches.
pub proof fn law_waiting_session_waits_on(run: RunView, events: Seq<EventView>)
    requires
        run.waiting(),
        forall|i: int| 0 <= i < events.len() ==> !(#[trigger] events[i]).attaches(),
    ensures
        run.after(events).0.session_ttl == run.session_ttl,
        run.after(events).0.exit is None ==> run.after(events).0.waiting(),
        (forall|i: int| 0 <= i < events.len() ==> !(#[trigger] events[i]).ends()) ==> run.after(
            events,
        ).0.waiting(),
    decreases events.len(),
{
    if events.len() > 0 {
        let earlier = events.drop_last();
        law_waiting_session_waits_on(run, earlier);
        let before = run.after(earlier).0;
        let last = events.last();
        assert(last == events[events.len() - 1]);
        assert forall|i: int| 0 <= i < earlier.len() implies #[trigger] earlier[i] == events[i] by {}
        if before.exit is None {
            lemma_waits(before, last);
        }
    }
}

proof fn lemma_waits(run: RunView, event: EventView)
    requires
        run.waiting(),
        !event.attaches(),
    ensures
        run.next(event).0.session_ttl == run.session_ttl,
        event.ends() <==> run.next(event).0.exit is Some,
        run.next(event).0.exit is None ==> run.next(event).0.waiting(),
{
    if let EventView::Happens { now, msg } = event {
        let actor = ActorView {
            inner: SessionView { clock: now, ..run.actor.inner },
            ..run.actor
        };
        laws::law_empty_session_waits(actor, msg);
        if let MsgView::AgentStdoutLine(line) = msg {
            laws::law_line_that_loses_everybody_ends_the_session(actor, line);
        }
    }
}

/// A session whose last peer has left ends when its time to live has passed and
/// nobody has attached meanwhile: the peer that leaves starts the timer for that
/// time and does not end the session, and where the session has not ended by then
/// for another reason, the timer ends it, and its agent is shut down.
#[verifier::spinoff_prover]
pub proof fn law_session_ends_when_its_time_has_passed(
    run: RunView,
    left: Seq<char>,
    peer_id: Seq<char>,
    events: Seq<EventView>,
    elapsed: Seq<char>,
)
    requires
        run.exit is None,
        run.advance(left, MsgView::Detach { peer_id }).0.actor.inner.subscribers.len() == 0,
        forall|i: int| 0 <= i < events.len() ==> !(#[trigger] events[i]).attaches(),
    ensures
        ({
            let (empty, step) = run.advance(left, MsgView::Detach { peer_id });
            let waited = empty.after(events).0;
            let (over, end) = waited.advance(elapsed, MsgView::TtlElapsed);
            &&& empty.waiting()
            &&& step.wait == Some(run.session_ttl)
            &&& waited.exit is None ==> over.exit == Some(ExitReason::TtlExpired)
                && end.shutdown is Some
            &&& (forall|i: int| 0 <= i < events.len() ==> !(#[trigger] events[i]).ends())
                ==> waited.exit is None
        }),
{
    lemma_last_peer_leaves(run, left, peer_id);
    let empty = run.advance(left, MsgView::Detach { peer_id }).0;
    law_waiting_session_waits_on(empty, events);
    lemma_time_is_up(empty.after(events).0, elapsed);
}

proof fn lemma_last_peer_leaves(run: RunView, left: Seq<char>, peer_id: Seq<char>)
    requires
        run.exit is None,
        run.advance(left, MsgView::Detach { peer_id }).0.actor.inner.subscribers.len() == 0,
    ensures
        run.advance(left, MsgView::Detach { peer_id }).0.waiting(),
        run.advance(left, MsgView::Detach { peer_id }).1.wait == Some(run.session_ttl),
{
    let actor = ActorView {
        inner: SessionView { clock: left, ..run.actor.inner },
        ..run.actor
    };
    laws::law_session_ends_of_age_only_when_empty(actor, MsgView::Detach { peer_id });
}

proof fn lemma_time_is_up(run: RunView, elapsed: Seq<char>)
    ensures
        run.waiting() ==> run.advance(elapsed, MsgView::TtlElapsed).0.exit == Some(
            ExitReason::TtlExpired,
        ) && run.advance(elapsed, MsgView::TtlElapsed).1.shutdown is Some,
{
}

/// Whoever attaches before that stops the timer and joins the session as it was:
/// the remembered answers, the requests, the turn, the queue and the counters are
/// those of the session that waited, and the log goes on where it stopped.
pub proof fn law_who_comes_back_in_time_stops_the_timer(
    run: RunView,
    now: Seq<char>,
    subscriber: SubscriberView,
)
    requires
        run.waiting(),
    ensures
        ({
            let (after, step) = run.advance(now, MsgView::Attach { subscriber });
            let (before, joined) = (run.actor.inner, after.actor.inner);
            &&& step.step.attached matches Some(Ok(_))
            &&& step.step.timer == TtlTimer::Stop
            &&& after.exit is None
            &&& !after.actor.ttl_pending
            &&& joined == (SessionView {
                clock: now,
                subscribers: joined.subscribers,
                index: joined.index,
                replay_log: joined.replay_log,
                next_replay_seq: joined.next_replay_seq,
                outbox: joined.outbox,
                ..before
            })
            &&& match (before.replay_log, joined.replay_log) {
                (Some(log), Some(longer)) => longer.len() == log.len() + 1 && longer.drop_last()
                    == log,
                (None, None) => joined.next_replay_seq == before.next_replay_seq,
                _ => false,
            }
        }),
{
    let actor = ActorView {
        inner: SessionView { clock: now, ..run.actor.inner },
        ..run.actor
    };
    laws::law_session_ends_of_age_only_when_empty(actor, MsgView::Attach { subscriber });
    laws::law_who_comes_back_joins_the_same_session(actor, subscriber);
}

/// When the agent dies, every peer whose channel takes messages is told once, with
/// the close code for it, and nobody else is; the session is over, and what is
/// left of the agent is shut down.
pub proof fn law_dead_agent_ends_the_session(run: RunView, now: Seq<char>, peer_id: Seq<char>)
    requires
        run.exit is None,
        run.actor.inner.sound(),
    ensures
        ({
            let (after, step) = run.advance(now, MsgView::AgentDied);
            let close = OutMsgView::Close {
                code: state::WS_CLOSE_AGENT_DEAD,
                reason: "agent subprocess exited"@,
            };
            let sent = state::to_each(state::live(run.actor.inner.subscribers), close);
            &&& after.exit == Some(ExitReason::AgentDied)
            &&& after.actor.inner.outbox == run.actor.inner.outbox + sent
            &&& laws::deliveries_to(sent, peer_id) == if run.actor.inner.reachable(peer_id) {
                1nat
            } else {
                0nat
            }
            &&& after.actor.inner.subscribers.len() == 0
            &&& step.shutdown is Some
        }),
{
    let actor = ActorView {
        inner: SessionView { clock: now, ..run.actor.inner },
        ..run.actor
    };
    laws::law_dead_agent_closes_every_peer(actor, ExitReason::AgentDied, peer_id);
}

} // verus!
