//! What the command line decides: how requests of the agent for the client's
//! own tools are treated, how much is replayed, and which command runs the
//! agent.

use crate::scan;
use crate::scan::{read_number, same_ignoring_case, words};
use crate::text;
use crate::text::{debug, starts_with};
use vstd::prelude::*;

verus! {

/// How the agent's requests for a tool of the client are treated.
#[derive(Debug, Clone, Copy, PartialEq, Eq, Structural)]
pub enum ClientToolMode {
    /// The mux refuses them.
    Block,
    /// Every subscriber gets them.
    UnsafeDebug,
}

/// The mode of each kind of client tool.
#[derive(Debug, Clone, Copy, PartialEq, Eq, Structural)]
pub struct ClientToolPolicy {
    pub fs: ClientToolMode,
    pub terminal: ClientToolMode,
}

impl ClientToolPolicy {
    /// The mode of a method, where it is a client tool: `fs/*` or `terminal/*`.
    pub open spec fn mode_of(self, method: Seq<char>) -> Option<ClientToolMode> {
        if "fs/"@.is_prefix_of(method) {
            Some(self.fs)
        } else if "terminal/"@.is_prefix_of(method) {
            Some(self.terminal)
        } else {
            None
        }
    }

    /// Every client tool is refused.
    pub fn block_by_default() -> (policy: ClientToolPolicy)
        ensures
            policy.fs == ClientToolMode::Block,
            policy.terminal == ClientToolMode::Block,
    {
        ClientToolPolicy { fs: ClientToolMode::Block, terminal: ClientToolMode::Block }
    }

    /// Every client tool is passed on to every subscriber.
    pub fn unsafe_debug_broadcast() -> (policy: ClientToolPolicy)
        ensures
            policy.fs == ClientToolMode::UnsafeDebug,
            policy.terminal == ClientToolMode::UnsafeDebug,
    {
        ClientToolPolicy { fs: ClientToolMode::UnsafeDebug, terminal: ClientToolMode::UnsafeDebug }
    }

    /// The mode of a method, where it is a client tool.
    pub fn mode_for_method(&self, method: &str) -> (mode: Option<ClientToolMode>)
        ensures
            mode == self.mode_of(method@),
    {
        if starts_with(method, "fs/") {
            Some(self.fs)
        } else if starts_with(method, "terminal/") {
            Some(self.terminal)
        } else {
            None
        }
    }
}

impl Default for ClientToolPolicy {
    fn default() -> (policy: Self)
        ensures
            policy.fs == ClientToolMode::Block,
            policy.terminal == ClientToolMode::Block,
    {
        Self::block_by_default()
    }
}

/// How many turns the replay log keeps.
#[derive(Debug, Clone, Copy, PartialEq, Eq, Structural)]
pub enum ReplayTurns {
    Disabled,
    Bounded(u32),
    Unbounded,
}

/// What `--replay-turns` says: `unbounded`, in any case of its letters, or a
/// number, where none is the same as no log at all.
pub open spec fn replay_turns_of(s: Seq<char>) -> Option<ReplayTurns> {
    if scan::same_but_case(s, "unbounded"@) {
        Some(ReplayTurns::Unbounded)
    } else {
        match scan::number_of(s, u32::MAX as nat) {
            Some(n) => if n == 0 {
                Some(ReplayTurns::Disabled)
            } else {
                Some(ReplayTurns::Bounded(n as u32))
            },
            None => None,
        }
    }
}

impl ReplayTurns {
    /// Reads what `--replay-turns` says.
    pub fn read(s: &str) -> (turns: Result<ReplayTurns, String>)
        ensures
            match turns {
                Ok(turns) => replay_turns_of(s@) == Some(turns),
                Err(message) => replay_turns_of(s@) is None && message@
                    == "expected \"unbounded\" or a non-negative integer, got "@ + text::debug_text(s@),
            },
    {
        if same_ignoring_case(s, "unbounded") {
            return Ok(ReplayTurns::Unbounded);
        }
        match read_number(s, u32::MAX as u64) {
            Some(n) => {
                if n == 0 {
                    Ok(ReplayTurns::Disabled)
                } else {
                    Ok(ReplayTurns::Bounded(n as u32))
                }
            },
            None => {
                let mut message = "expected \"unbounded\" or a non-negative integer, got ".to_owned();
                let shown = debug(s);
                message.append(shown.as_str());
                Err(message)
            },
        }
    }
}

impl std::str::FromStr for ReplayTurns {
    type Err = String;

    fn from_str(s: &str) -> (turns: Result<Self, String>)
        ensures
            match turns {
                Ok(turns) => replay_turns_of(s@) == Some(turns),
                Err(message) => replay_turns_of(s@) is None && message@
                    == "expected \"unbounded\" or a non-negative integer, got "@ + text::debug_text(s@),
            },
    {
        ReplayTurns::read(s)
    }
}

/// How much is logged.
#[derive(Debug, Clone, Copy, PartialEq, Eq, Structural)]
pub enum LogLevel {
    Trace,
    Debug,
    Info,
    Warn,
    Error,
}

impl LogLevel {
    /// The level's name in a log filter.
    pub open spec fn filter(self) -> Seq<char> {
        match self {
            LogLevel::Trace => "trace"@,
            LogLevel::Debug => "debug"@,
            LogLevel::Info => "info"@,
            LogLevel::Warn => "warn"@,
            LogLevel::Error => "error"@,
        }
    }

    /// The level's name in a log filter.
    pub fn as_filter(&self) -> (name: &'static str)
        ensures
            name@ == self.filter(),
    {
        match self {
            LogLevel::Trace => "trace",
            LogLevel::Debug => "debug",
            LogLevel::Info => "info",
            LogLevel::Warn => "warn",
            LogLevel::Error => "error",
        }
    }
}

/// What the command line says.
#[derive(Debug)]
pub struct Cli {
    /// The address to listen on.
    pub host: String,
    /// The port to listen on.
    pub port: u16,
    /// The command that starts an agent, with its arguments.
    pub agent_cmd: Option<String>,
    /// How long a session is kept after its last subscriber left.
    pub session_ttl_seconds: u64,
    /// How much is replayed.
    pub replay_turns: ReplayTurns,
    /// Whether requests to the agent carry the mux's trace.
    pub meta_propagate: bool,
    /// Whether every subscriber gets the agent's requests for client tools.
    pub unsafe_debug_client_tool_broadcast: bool,
    /// Whether the frames on segments are sent.
    pub emit_segment_frames: bool,
    /// How much is logged.
    pub log_level: LogLevel,
}

impl Default for Cli {
    fn default() -> (cli: Self)
        ensures
            cli.host@ == "127.0.0.1"@,
            cli.port == 8765,
            cli.agent_cmd is None,
            cli.session_ttl_seconds == 60,
            cli.replay_turns == ReplayTurns::Unbounded,
            !cli.meta_propagate,
            !cli.unsafe_debug_client_tool_broadcast,
            cli.emit_segment_frames,
            cli.log_level == LogLevel::Info,
    {
        Cli {
            host: "127.0.0.1".to_owned(),
            port: 8765,
            agent_cmd: None,
            session_ttl_seconds: 60,
            replay_turns: ReplayTurns::Unbounded,
            meta_propagate: false,
            unsafe_debug_client_tool_broadcast: false,
            emit_segment_frames: true,
            log_level: LogLevel::Info,
        }
    }
}

impl Cli {
    /// How the agent's requests for client tools are treated: refused, unless
    /// the command line asks otherwise.
    pub fn client_tool_policy(&self) -> (policy: ClientToolPolicy)
        ensures
            policy.fs == policy.terminal,
            policy.fs == if self.unsafe_debug_client_tool_broadcast {
                ClientToolMode::UnsafeDebug
            } else {
                ClientToolMode::Block
            },
    {
        if self.unsafe_debug_client_tool_broadcast {
            ClientToolPolicy::unsafe_debug_broadcast()
        } else {
            ClientToolPolicy::block_by_default()
        }
    }
}

/// The program and the arguments of a command: its words, with no quoting.
pub open spec fn command_of(raw: Seq<char>) -> Option<(Seq<char>, Seq<Seq<char>>)> {
    let words = scan::words_of(raw);
    if words.len() == 0 {
        None
    } else {
        Some((words[0], words.skip(1)))
    }
}

/// The program and the arguments of a command; nothing where it has no word.
pub fn split_agent_cmd(raw: &str) -> (command: Option<(String, Vec<String>)>)
    ensures
        command.deep_view() == command_of(raw@),
{
    let mut args = words(raw);
    let ghost all = args.deep_view();
    assert(all.len() == args@.len());
    if args.len() == 0 {
        return None;
    }
    let program = args.remove(0);
    assert(args.deep_view() =~= all.skip(1));
    Some((program, args))
}

/// A method is a client tool by how it begins: with `fs/` or with `terminal/`. Each
/// kind is treated by its own setting, and no other method is a client tool.
pub proof fn law_client_tools_go_by_their_kind(
    policy: ClientToolPolicy,
    method: Seq<char>,
    name: Seq<char>,
)
    ensures
        policy.mode_of("fs/"@ + name) == Some(policy.fs),
        policy.mode_of("terminal/"@ + name) == Some(policy.terminal),
        policy.mode_of(method) is Some ==> exists|rest: Seq<char>|
            method == #[trigger] ("fs/"@ + rest) || method == "terminal/"@ + rest,
{
    reveal_strlit("fs/");
    reveal_strlit("terminal/");
    let (fs, terminal) = ("fs/"@, "terminal/"@);
    assert(fs.len() == 3 && fs[0] == 'f' && terminal.len() == 9 && terminal[0] == 't');
    assert(fs.is_prefix_of(fs + name)) by {
        assert((fs + name).take(3) =~= fs);
    }
    assert(terminal.is_prefix_of(terminal + name)) by {
        assert((terminal + name).take(9) =~= terminal);
    }
    assert((terminal + name)[0] == 't');
    if fs.is_prefix_of(terminal + name) {
        assert((terminal + name).take(3)[0] == fs[0]);
    }
    if fs.is_prefix_of(method) {
        assert(method =~= fs + method.skip(3));
    } else if terminal.is_prefix_of(method) {
        let rest = method.skip(9);
        assert(method =~= terminal + rest);
        assert(fs + rest == fs + rest);
    }
}

/// A number of turns is read as it is written, where none means that nothing is
/// replayed. `unbounded` is read in any case of its letters. A number that is too
/// large is refused.
pub proof fn law_replay_turns_are_read(n: nat, s: Seq<char>)
    ensures
        n == 0 ==> replay_turns_of(text::decimal_of(n)) == Some(ReplayTurns::Disabled),
        0 < n <= u32::MAX ==> replay_turns_of(text::decimal_of(n)) == Some(
            ReplayTurns::Bounded(n as u32),
        ),
        n > u32::MAX ==> replay_turns_of(text::decimal_of(n)) is None,
        scan::same_but_case(s, "unbounded"@) <==> replay_turns_of(s) == Some(
            ReplayTurns::Unbounded,
        ),
{
    scan::law_number_is_read(n, u32::MAX as nat, 0);
    assert(text::zeros(0) + text::decimal_of(n) =~= text::decimal_of(n));
    scan::law_number_is_written(n, 0);
    reveal_strlit("unbounded");
    assert("unbounded"@[0] == 'u');
    assert(scan::is_digit(text::decimal_of(n)[0]));
    assert(scan::lower(text::decimal_of(n)[0]) != scan::lower('u'));
}

/// A command is its words: the first is the program, the others are its arguments,
/// in order. What has no word is no command.
pub proof fn law_command_is_its_words(raw: Seq<char>)
    ensures
        command_of(raw) matches Some((program, args)) ==> seq![program] + args == scan::words_of(
            raw,
        ),
        command_of(raw) is None <==> scan::words_of(raw).len() == 0,
{
    if let Some((program, args)) = command_of(raw) {
        assert(seq![program] + args =~= scan::words_of(raw));
    }
}

/// Each level goes by its name.
pub proof fn law_levels_go_by_their_names()
    ensures
        LogLevel::Trace.filter() == "trace"@,
        LogLevel::Debug.filter() == "debug"@,
        LogLevel::Info.filter() == "info"@,
        LogLevel::Warn.filter() == "warn"@,
        LogLevel::Error.filter() == "error"@,
{
}

} // verus!
