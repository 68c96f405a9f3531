//! Which session an attach goes to.
//!
//! The registry knows sessions by number: the program around it holds what
//! runs them, and says which still run.

use crate::assoc;
use crate::cli::ReplayTurns;
use crate::session::metadata::{IndexView, SessionListMetadataIndex};
use crate::session::state;
use crate::session::state::{bumped, AttachError};
use crate::table;
use vstd::prelude::*;

verus! {

/// The command that starts an agent.
#[derive(Debug, Clone)]
pub struct AgentCmd {
    pub program: String,
    pub args: Vec<String>,
}

/// Why a peer was not attached.
#[derive(Debug)]
pub enum RegistryError {
    AgentCmdMissing,
    PeerIdInUse,
    /// The agent did not start, for the reason that the text gives.
    AgentSpawn(String),
    ActorUnreachable,
}

impl RegistryError {
    /// What the error says of itself.
    pub open spec fn message(self) -> Seq<char> {
        match self {
            RegistryError::AgentCmdMissing => "server has no --agent-cmd configured"@,
            RegistryError::PeerIdInUse => "peer_id already attached to this session"@,
            RegistryError::AgentSpawn(cause) => "agent spawn failed: "@ + cause@,
            RegistryError::ActorUnreachable => "session actor not reachable"@,
        }
    }

    /// What the error says of itself.
    pub fn to_text(&self) -> (said: String)
        ensures
            said@ == self.message(),
    {
        match self {
            RegistryError::AgentCmdMissing => "server has no --agent-cmd configured".to_owned(),
            RegistryError::PeerIdInUse => "peer_id already attached to this session".to_owned(),
            RegistryError::AgentSpawn(cause) => {
                let mut said = "agent spawn failed: ".to_owned();
                said.append(cause.as_str());
                said
            },
            RegistryError::ActorUnreachable => "session actor not reachable".to_owned(),
        }
    }
}

/// How asking a running session to take a peer went.
#[derive(Debug, Clone, Copy)]
pub enum JoinOutcome {
    /// The session answered.
    Answered(Result<(), AttachError>),
    /// The session was gone before it answered.
    Gone,
}

/// What follows from how a join went.
pub fn joined(outcome: JoinOutcome) -> (result: Result<(), RegistryError>)
    ensures
        match outcome {
            JoinOutcome::Answered(Ok(_)) => result is Ok,
            JoinOutcome::Answered(Err(AttachError::PeerIdInUse)) => result matches Err(error)
                && error is PeerIdInUse,
            JoinOutcome::Gone => result matches Err(error) && error is ActorUnreachable,
        },
{
    match outcome {
        JoinOutcome::Answered(Ok(())) => Ok(()),
        JoinOutcome::Answered(Err(AttachError::PeerIdInUse)) => Err(RegistryError::PeerIdInUse),
        JoinOutcome::Gone => Err(RegistryError::ActorUnreachable),
    }
}

/// What an attach does.
#[derive(Debug, Clone, Copy, PartialEq, Eq, Structural)]
pub enum AttachPlan {
    /// Ask the session of this number to take the peer.
    Join(u64),
    /// Start a session with the peer as its first.
    Spawn,
}

/// The number of a session.
#[derive(Debug, Clone, Copy, PartialEq, Eq, Structural)]
pub struct SessionNumber(pub u64);

impl DeepView for SessionNumber {
    type V = u64;

    open spec fn deep_view(&self) -> u64 {
        self.0
    }
}

/// The sessions there are, and how new ones are run.
#[derive(Debug)]
pub struct SessionRegistry {
    pub agent_cmd: Option<AgentCmd>,
    pub replay_policy: ReplayTurns,
    pub session_ttl: std::time::Duration,
    pub meta_propagate: bool,
    /// The index of live sessions, which the sessions share.
    pub session_list_index: SessionListMetadataIndex,
    /// The number of each session, by its id.
    pub sessions: Vec<(String, SessionNumber)>,
    pub next_session: u64,
}

/// The sessions that a registry lists.
#[verifier::ext_equal]
pub struct RegistryView {
    pub sessions: Seq<(Seq<char>, u64)>,
    pub next_session: u64,
}

impl RegistryView {
    /// A registry without sessions, which has given out no number.
    pub open spec fn empty() -> RegistryView {
        RegistryView { sessions: Seq::empty(), next_session: 0 }
    }
}

impl View for SessionRegistry {
    type V = RegistryView;

    open spec fn view(&self) -> RegistryView {
        RegistryView { sessions: self.sessions.deep_view(), next_session: self.next_session }
    }
}

/// The listed sessions that still run.
pub open spec fn running(sessions: Seq<(Seq<char>, u64)>, alive: Seq<u64>) -> Seq<(Seq<char>, u64)>
    decreases sessions.len(),
{
    if sessions.len() == 0 {
        Seq::empty()
    } else if alive.contains(sessions.last().1) {
        running(sessions.drop_last(), alive).push(sessions.last())
    } else {
        running(sessions.drop_last(), alive)
    }
}

impl RegistryView {
    /// Where an attach goes: to the session of that id, where it runs. One that
    /// no longer runs is forgotten.
    pub open spec fn plan(self, session_id: Seq<char>, alive: Seq<u64>) -> (
        RegistryView,
        AttachPlan,
    ) {
        match assoc::lookup(self.sessions, session_id) {
            Some(number) => if alive.contains(number) {
                (self, AttachPlan::Join(number))
            } else {
                (
                    RegistryView { sessions: assoc::erase(self.sessions, session_id), ..self },
                    AttachPlan::Spawn,
                )
            },
            None => (self, AttachPlan::Spawn),
        }
    }

    /// A session was started.
    pub open spec fn spawned(self, session_id: Seq<char>) -> RegistryView {
        RegistryView {
            sessions: assoc::store(self.sessions, session_id, self.next_session),
            next_session: state::bump(self.next_session),
        }
    }
}

/// Whether a number is among some.
fn among(numbers: &Vec<u64>, number: u64) -> (yes: bool)
    ensures
        yes == numbers@.contains(number),
{
    let mut at: usize = 0;
    while at < numbers.len()
        invariant
            at <= numbers@.len(),
            forall|i: int| 0 <= i < at ==> numbers@[i] != number,
        decreases numbers@.len() - at,
    {
        if numbers[at] == number {
            return true;
        }
        at += 1;
    }
    false
}

impl SessionRegistry {
    /// A registry without sessions.
    pub fn new(
        agent_cmd: Option<AgentCmd>,
        replay_policy: ReplayTurns,
        session_ttl: std::time::Duration,
    ) -> (registry: SessionRegistry)
        ensures
            registry.agent_cmd == agent_cmd,
            registry.replay_policy == replay_policy,
            registry.session_ttl == session_ttl,
            !registry.meta_propagate,
            registry.session_list_index@ == IndexView::empty(),
            registry@ == RegistryView::empty(),
    {
        Self::new_with_meta_propagation(agent_cmd, replay_policy, session_ttl, false)
    }

    /// A registry without sessions, whose sessions may tell the agent who asks.
    pub fn new_with_meta_propagation(
        agent_cmd: Option<AgentCmd>,
        replay_policy: ReplayTurns,
        session_ttl: std::time::Duration,
        meta_propagate: bool,
    ) -> (registry: SessionRegistry)
        ensures
            registry.agent_cmd == agent_cmd,
            registry.replay_policy == replay_policy,
            registry.session_ttl == session_ttl,
            registry.meta_propagate == meta_propagate,
            registry.session_list_index@ == IndexView::empty(),
            registry@ == RegistryView::empty(),
    {
        let registry = SessionRegistry {
            agent_cmd,
            replay_policy,
            session_ttl,
            meta_propagate,
            session_list_index: SessionListMetadataIndex::new(),
            sessions: Vec::new(),
            next_session: 0,
        };
        assert(registry@.sessions =~= Seq::<(Seq<char>, u64)>::empty());
        registry
    }

    /// The command that starts an agent.
    pub fn command(&self) -> (command: Result<&AgentCmd, RegistryError>)
        ensures
            match command {
                Ok(command) => self.agent_cmd == Some(*command),
                Err(error) => self.agent_cmd is None && error is AgentCmdMissing,
            },
    {
        match &self.agent_cmd {
            Some(command) => Ok(command),
            None => Err(RegistryError::AgentCmdMissing),
        }
    }

    /// Where an attach goes, given the numbers of the sessions that run.
    pub fn attach(&mut self, session_id: &str, alive: &Vec<u64>) -> (plan: AttachPlan)
        ensures
            final(self)@ == old(self)@.plan(session_id@, alive@).0,
            plan == old(self)@.plan(session_id@, alive@).1,
            *final(self) == (SessionRegistry { sessions: final(self).sessions, ..*old(self) }),
    {
        let key = session_id.to_owned();
        let number = match table::get(&self.sessions, &key) {
            Some(number) => Some(*number),
            None => None,
        };
        match number {
            Some(number) => if among(alive, number.0) {
                AttachPlan::Join(number.0)
            } else {
                let _ = table::take(&mut self.sessions, &key);
                AttachPlan::Spawn
            },
            None => AttachPlan::Spawn,
        }
    }

    /// A session was started: this is its number from now on.
    pub fn spawned(&mut self, session_id: &str) -> (number: u64)
        ensures
            final(self)@ == old(self)@.spawned(session_id@),
            number == old(self)@.next_session,
            *final(self) == (SessionRegistry {
                sessions: final(self).sessions,
                next_session: final(self).next_session,
                ..*old(self)
            }),
    {
        let number: u64 = self.next_session;
        table::put(&mut self.sessions, session_id.to_owned(), SessionNumber(number));
        self.next_session = bumped(number);
        number
    }

    /// Forgets every session. Says how many there were.
    pub fn shutdown(&mut self) -> (count: usize)
        ensures
            count == old(self)@.sessions.len(),
            final(self)@ == (RegistryView { sessions: Seq::empty(), ..old(self)@ }),
            *final(self) == (SessionRegistry { sessions: final(self).sessions, ..*old(self) }),
    {
        let count: usize = self.sessions.len();
        self.sessions.clear();
        assert(self@.sessions =~= Seq::<(Seq<char>, u64)>::empty());
        count
    }

    /// The sessions that still run, to be asked for their state.
    pub fn snapshot(&self, alive: &Vec<u64>) -> (handles: Vec<(String, SessionNumber)>)
        ensures
            handles.deep_view() == running(self@.sessions, alive@),
    {
        let ghost all = self@.sessions;
        let mut handles: Vec<(String, SessionNumber)> = Vec::new();
        let mut at: usize = 0;
        assert(all.take(0) =~= Seq::empty());
        assert(handles.deep_view() =~= Seq::empty());
        while at < self.sessions.len()
            invariant
                at <= self.sessions@.len(),
                all == self@.sessions,
                handles.deep_view() == running(all.take(at as int), alive@),
            decreases self.sessions@.len() - at,
        {
            assert(all.take(at + 1).drop_last() =~= all.take(at as int));
            assert(all[at as int] == (self.sessions@[at as int].0@, self.sessions@[at as int].1.0));
            if among(alive, self.sessions[at].1.0) {
                let ghost before = handles.deep_view();
                let handle = (self.sessions[at].0.clone(), self.sessions[at].1);
                handles.push(handle);
                assert(handles.deep_view() =~= before.push(all[at as int]));
            }
            at += 1;
        }
        assert(all.take(at as int) =~= all);
        handles
    }

    /// How many sessions still run.
    pub fn live_session_count(&self, alive: &Vec<u64>) -> (count: usize)
        ensures
            count == running(self@.sessions, alive@).len(),
    {
        let handles = self.snapshot(alive);
        assert(handles.deep_view().len() == handles@.len());
        handles.len()
    }
}

/// Sessions whose ids differ have different numbers, and every number was given
/// out before.
pub open spec fn registered(view: RegistryView) -> bool {
    &&& assoc::distinct(view.sessions)
    &&& forall|i: int|
        0 <= i < view.sessions.len() ==> (#[trigger] view.sessions[i]).1 < view.next_session
    &&& forall|i: int, j: int|
        0 <= i < j < view.sessions.len() ==> view.sessions[i].1 != view.sessions[j].1
}

/// One session per id: while a session runs, every attach to its id joins it,
/// and starting another one under the same id is not planned.
pub proof fn law_one_session_per_id(view: RegistryView, session_id: Seq<char>, alive: Seq<u64>)
    requires
        alive.contains(view.next_session),
    ensures
        view.spawned(session_id).plan(session_id, alive) == (
            view.spawned(session_id),
            AttachPlan::Join(view.next_session),
        ),
{
    assoc::lemma_store(view.sessions, session_id, view.next_session, session_id);
}

/// Planning and starting keep every session apart from every other: no two ids
/// share a number, as long as the numbers last.
pub proof fn law_sessions_stay_apart(view: RegistryView, session_id: Seq<char>, alive: Seq<u64>)
    requires
        registered(view),
        view.next_session < u64::MAX,
    ensures
        registered(view.plan(session_id, alive).0),
        registered(view.spawned(session_id)),
{
    assoc::lemma_erase(view.sessions, session_id, session_id);
    assoc::lemma_store(view.sessions, session_id, view.next_session, session_id);
    assoc::lemma_index_of(view.sessions, session_id);
    let erased = assoc::erase(view.sessions, session_id);
    let at = assoc::index_of(view.sessions, session_id);
    if assoc::holds(view.sessions, session_id) {
        assert forall|i: int| 0 <= i < erased.len() implies erased[i] == if i < at {
            view.sessions[i]
        } else {
            view.sessions[i + 1]
        } by {}
    }
}

/// An attach to one id leaves every other id where it is.
pub proof fn law_attach_leaves_others(
    view: RegistryView,
    session_id: Seq<char>,
    alive: Seq<u64>,
    other: Seq<char>,
)
    requires
        registered(view),
        other != session_id,
    ensures
        assoc::lookup(view.plan(session_id, alive).0.sessions, other) == assoc::lookup(
            view.sessions,
            other,
        ),
        assoc::lookup(view.spawned(session_id).sessions, other) == assoc::lookup(
            view.sessions,
            other,
        ),
{
    assoc::lemma_erase(view.sessions, session_id, other);
    assoc::lemma_store(view.sessions, session_id, view.next_session, other);
}

/// An attach joins the session of its id where that one runs, and starts one
/// otherwise. A session that no longer runs is forgotten; nothing else is.
pub proof fn law_attach_joins_what_runs(
    view: RegistryView,
    session_id: Seq<char>,
    alive: Seq<u64>,
    number: u64,
)
    requires
        registered(view),
    ensures
        ({
            let (after, plan) = view.plan(session_id, alive);
            &&& plan == AttachPlan::Join(number) <==> alive.contains(number)
                && view.sessions.contains((session_id, number))
            &&& plan is Join ==> after == view
            &&& plan is Spawn ==> !(exists|i: int|
                0 <= i < after.sessions.len() && (#[trigger] after.sessions[i]).0 == session_id)
            &&& after.next_session == view.next_session
        }),
{
    let (after, plan) = view.plan(session_id, alive);
    assoc::lemma_index_of(view.sessions, session_id);
    assoc::lemma_erase(view.sessions, session_id, session_id);
    assoc::lemma_index_of(after.sessions, session_id);
    if assoc::holds(view.sessions, session_id) {
        let at = assoc::index_of(view.sessions, session_id);
        assert(view.sessions[at] == (session_id, view.sessions[at].1));
    }
    if view.sessions.contains((session_id, number)) {
        let i = choose|i: int|
            0 <= i < view.sessions.len() && view.sessions[i] == (session_id, number);
        assert(view.sessions[i].0 == session_id);
        assert(i == assoc::index_of(view.sessions, session_id));
    }
    if plan is Spawn && exists|i: int|
        0 <= i < after.sessions.len() && (#[trigger] after.sessions[i]).0 == session_id {
        let i = choose|i: int|
            0 <= i < after.sessions.len() && (#[trigger] after.sessions[i]).0 == session_id;
        assert(assoc::lookup(after.sessions, session_id) is None);
        assert(assoc::index_of(after.sessions, session_id) == after.sessions.len());
    }
}

/// The sessions that are shown are those that run, each as it is listed and in the
/// order of the list.
pub proof fn law_running_sessions_are_shown(sessions: Seq<(Seq<char>, u64)>, alive: Seq<u64>)
    ensures
        running(sessions, alive) == sessions.filter(
            |session: (Seq<char>, u64)| alive.contains(session.1),
        ),
    decreases sessions.len(),
{
    reveal(Seq::filter);
    if sessions.len() > 0 {
        law_running_sessions_are_shown(sessions.drop_last(), alive);
    }
}

/// A session that is started has the next number, and the one after it is the next
/// from then on.
pub proof fn law_numbers_are_given_out_in_order(view: RegistryView, session_id: Seq<char>)
    requires
        view.next_session < u64::MAX,
    ensures
        assoc::lookup(view.spawned(session_id).sessions, session_id) == Some(view.next_session),
        view.spawned(session_id).next_session == view.next_session + 1,
{
    assoc::lemma_store(view.sessions, session_id, view.next_session, session_id);
}

/// Each refusal says what was in the way.
pub proof fn law_refusals_say_why(error: RegistryError)
    ensures
        error is AgentCmdMissing ==> error.message() == "server has no --agent-cmd configured"@,
        error is PeerIdInUse ==> error.message() == "peer_id already attached to this session"@,
        error is ActorUnreachable ==> error.message() == "session actor not reachable"@,
        error matches RegistryError::AgentSpawn(cause) ==> error.message() == "agent spawn failed: "@
            + cause@,
{
}

} // verus!
