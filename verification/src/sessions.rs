//! The two session slots, the local node and the REPL: what may start, what
//! must stop, and what an evaluation of the REPL amounts to.
//!
//! Nothing here starts or ends a process. Each operation is split where the
//! process is touched: one function decides and says what to run, the caller
//! runs it, and another function takes what happened and settles the state.

use vstd::prelude::*;
use vstd::string::StringExecFns;
use crate::command::command_path;
use crate::command::CommandSpec;
use crate::command::Invocation;
use crate::text::concat;
use crate::text::contains;
use crate::text::decimal;
use crate::text::has_infix;
use crate::text::is_prefix;
use crate::text::join;
use crate::text::join_with;
use crate::text::lemma_texts_push;
use crate::text::lines;
use crate::text::lines_of;
use crate::text::opt_text;
use crate::text::starts_with;
use crate::text::str_eq;
use crate::text::texts;
use crate::text::trim;
use crate::text::trimmed;
use crate::text::u64_to_string;

verus! {

/// The two kinds of session.
#[derive(Debug, Clone, Copy, PartialEq, Eq, Structural)]
pub enum SessionType {
    /// The local node.
    Anvil,
    /// The REPL.
    Chisel,
}

/// The operation that a failure belongs to.
#[derive(Debug, Clone, Copy, PartialEq, Eq, Structural)]
pub enum SessionOperation {
    Start,
    Stop,
    Eval,
}

/// The record of a running session.
#[derive(Debug, Clone, Copy, PartialEq, Eq, Structural)]
pub struct SessionInfo {
    pub session_type: SessionType,
    /// The id of the process that stands for the session.
    pub pid: u32,
    /// The port that a local node listens on.
    pub port: Option<u16>,
    /// When the record was made, in milliseconds of the caller's clock.
    pub created_at: u64,
}

/// What went wrong with a session operation.
#[derive(Debug, Clone, Copy, PartialEq, Eq, Structural)]
pub enum SessionError {
    /// A session of this kind is open already.
    SessionAlreadyRunning(SessionType),
    /// No session of this kind is open.
    SessionNotRunning(SessionType, SessionOperation),
    /// The program could not be started.
    SpawnFailure(SessionType, SessionOperation),
    /// The REPL could be started but did not answer the probe with success.
    ProbeFailed,
    /// The process of the local node could not be killed.
    KillFailed,
    /// The end of the process of the local node could not be awaited.
    WaitFailed,
    /// The evaluation did not end within the time allowed.
    EvalTimeout,
}

/// How long a local node is given to come up, in milliseconds.
pub const ANVIL_WARM_UP_MS: u64 = 1000;

/// How long the REPL is given between the request to quit and its end, in milliseconds.
pub const CHISEL_STOP_GRACE_MS: u64 = 500;

/// How long an evaluation may take, in milliseconds.
pub const EVAL_TIMEOUT_MS: u64 = 10000;

/// How long to wait between two looks at a running evaluation, in milliseconds.
pub const EVAL_POLL_INTERVAL_MS: u64 = 100;

/// The port that a status names where the record holds none.
pub const DEFAULT_PORT: u16 = 8545;

impl SessionError {
    /// The message that the caller is shown.
    pub open spec fn message(self) -> Seq<char> {
        match self {
            SessionError::SessionAlreadyRunning(SessionType::Anvil) => {
                "Anvil is already running. Stop it first with anvil_session_stop."@
            },
            SessionError::SessionAlreadyRunning(SessionType::Chisel) => {
                "Chisel is already running. Stop it first with chisel_session_stop."@
            },
            SessionError::SessionNotRunning(SessionType::Chisel, SessionOperation::Eval) => {
                "No Chisel session is running. Start one with chisel_session_start."@
            },
            SessionError::SessionNotRunning(SessionType::Anvil, _) => {
                "No Anvil session is currently running."@
            },
            SessionError::SessionNotRunning(SessionType::Chisel, _) => {
                "No Chisel session is currently running."@
            },
            SessionError::SpawnFailure(SessionType::Chisel, SessionOperation::Eval) => {
                "Failed to start Chisel"@
            },
            SessionError::SpawnFailure(SessionType::Anvil, _) => {
                "Failed to start Anvil. Is Foundry installed?"@
            },
            SessionError::SpawnFailure(SessionType::Chisel, _) => {
                "Failed to start Chisel. Is Foundry installed?"@
            },
            SessionError::ProbeFailed => "Chisel command failed. Is Foundry installed?"@,
            SessionError::KillFailed => "Failed to kill Anvil process"@,
            SessionError::WaitFailed => "Failed to wait for Anvil process"@,
            SessionError::EvalTimeout => "Chisel execution timed out after 10 seconds"@,
        }
    }

    /// The message that the caller is shown.
    pub fn to_string(&self) -> (r: String)
        ensures
            r@ == self.message(),
    {
        let text = match self {
            SessionError::SessionAlreadyRunning(SessionType::Anvil) => {
                "Anvil is already running. Stop it first with anvil_session_stop."
            },
            SessionError::SessionAlreadyRunning(SessionType::Chisel) => {
                "Chisel is already running. Stop it first with chisel_session_stop."
            },
            SessionError::SessionNotRunning(SessionType::Chisel, SessionOperation::Eval) => {
                "No Chisel session is running. Start one with chisel_session_start."
            },
            SessionError::SessionNotRunning(SessionType::Anvil, _) => {
                "No Anvil session is currently running."
            },
            SessionError::SessionNotRunning(SessionType::Chisel, _) => {
                "No Chisel session is currently running."
            },
            SessionError::SpawnFailure(SessionType::Chisel, SessionOperation::Eval) => {
                "Failed to start Chisel"
            },
            SessionError::SpawnFailure(SessionType::Anvil, _) => {
                "Failed to start Anvil. Is Foundry installed?"
            },
            SessionError::SpawnFailure(SessionType::Chisel, _) => {
                "Failed to start Chisel. Is Foundry installed?"
            },
            SessionError::ProbeFailed => "Chisel command failed. Is Foundry installed?",
            SessionError::KillFailed => "Failed to kill Anvil process",
            SessionError::WaitFailed => "Failed to wait for Anvil process",
            SessionError::EvalTimeout => "Chisel execution timed out after 10 seconds",
        };
        String::from_str(text)
    }
}

/// The two slots: for each kind of session, its record where one is open.
pub struct Slots {
    pub anvil: Option<SessionInfo>,
    pub chisel: Option<SessionInfo>,
}

impl Slots {
    /// The record in the slot of `kind`.
    pub open spec fn slot(self, kind: SessionType) -> Option<SessionInfo> {
        match kind {
            SessionType::Anvil => self.anvil,
            SessionType::Chisel => self.chisel,
        }
    }

    /// The slots with `record` in the slot of `kind`.
    pub open spec fn with_slot(self, kind: SessionType, record: Option<SessionInfo>) -> Slots {
        match kind {
            SessionType::Anvil => Slots { anvil: record, chisel: self.chisel },
            SessionType::Chisel => Slots { anvil: self.anvil, chisel: record },
        }
    }

    /// What opening a session of `kind` leads to: the slots with the new
    /// record where the slot was empty, and a failure where it was not.
    pub open spec fn open(self, kind: SessionType, pid: u32, port: Option<u16>, now: u64) -> Result<
        Slots,
        SessionError,
    > {
        if self.slot(kind) is Some {
            Err(SessionError::SessionAlreadyRunning(kind))
        } else {
            Ok(
                self.with_slot(
                    kind,
                    Some(SessionInfo { session_type: kind, pid, port, created_at: now }),
                ),
            )
        }
    }

    /// What closing the session of `kind` leads to: the slots without the
    /// record, together with the record, where there was one, and a failure
    /// where there was none.
    pub open spec fn close(self, kind: SessionType) -> Result<(Slots, SessionInfo), SessionError> {
        match self.slot(kind) {
            Some(record) => Ok((self.with_slot(kind, None), record)),
            None => Err(SessionError::SessionNotRunning(kind, SessionOperation::Stop)),
        }
    }
}

/// The arguments that start a local node: the port, then each setting that
/// was given, in the order fork URL, fork block, accounts, block time.
pub open spec fn anvil_args(
    port: u16,
    fork_url: Option<Seq<char>>,
    fork_block_number: Option<u64>,
    accounts: Option<u32>,
    block_time: Option<u64>,
) -> Seq<Seq<char>> {
    seq!["--port"@, decimal(port as nat)] + (match fork_url {
        Some(url) => seq!["--fork-url"@, url],
        None => Seq::empty(),
    }) + (match fork_block_number {
        Some(n) => seq!["--fork-block-number"@, decimal(n as nat)],
        None => Seq::empty(),
    }) + (match accounts {
        Some(n) => seq!["--accounts"@, decimal(n as nat)],
        None => Seq::empty(),
    }) + (match block_time {
        Some(n) => seq!["--block-time"@, decimal(n as nat)],
        None => Seq::empty(),
    })
}

/// The time that a session has been open, as a status shows it: whole
/// seconds, or `unknown` where the clock stands before the creation.
pub open spec fn uptime_text(created_at: u64, now: u64) -> Seq<char> {
    if now >= created_at {
        decimal(((now - created_at) / 1000) as nat) + "s"@
    } else {
        "unknown"@
    }
}

/// What the status of the local node says.
pub open spec fn anvil_status_text(slot: Option<SessionInfo>, now: u64) -> Seq<char> {
    match slot {
        Some(record) => {
            let port = decimal(
                (match record.port {
                    Some(p) => p,
                    None => DEFAULT_PORT,
                }) as nat,
            );
            "Anvil is running on port "@ + port + ". RPC URL: http://localhost:"@ + port
                + "\nUptime: "@ + uptime_text(record.created_at, now)
        },
        None => "Anvil is not currently running."@,
    }
}

/// What the status of the REPL says.
pub open spec fn chisel_status_text(slot: Option<SessionInfo>, now: u64) -> Seq<char> {
    match slot {
        Some(record) => "Chisel REPL session is active.\nUptime: "@ + uptime_text(
            record.created_at,
            now,
        ) + "\nUse chisel_session_eval to execute code."@,
        None => "Chisel session is not currently running."@,
    }
}

/// What the start of a local node reports.
pub open spec fn anvil_started_text(port: u16, pid: u32) -> Seq<char> {
    "Anvil started successfully on port "@ + decimal(port as nat) + ". RPC URL: http://localhost:"@
        + decimal(port as nat) + "\nProcess ID: "@ + decimal(pid as nat)
}

/// What the start of the REPL reports.
pub const CHISEL_STARTED: &'static str =
    "Chisel REPL session started successfully.\n\nSession is ready for code execution. Use chisel_session_eval to execute Solidity code.\n\nNote: Each eval spawns a fresh chisel process. State persists via Chisel's cache system.\n\nTips:\n- Variables and functions are cached between eval calls\n- Use semicolons to suppress output\n- Use !help for chisel commands";

/// What the start of the REPL reports.
pub open spec fn chisel_started_text() -> Seq<char> {
    CHISEL_STARTED@
}

/// What the program receives on its input for an evaluation: the code on a
/// line of its own, then the directive to quit.
pub open spec fn eval_input(code: Seq<char>) -> Seq<char> {
    code + "\n"@ + "!quit\n"@
}

/// What an evaluation needs: the program to start and the text to write to
/// its input before the input is closed.
#[derive(Debug, PartialEq)]
pub struct EvalPlan {
    pub command: CommandSpec,
    pub input: String,
}

/// What to do with a running evaluation.
#[derive(Debug, Clone, Copy, PartialEq, Eq, Structural)]
pub enum PollStep {
    /// The program has ended: collect what it printed.
    Collect,
    /// The program is still running and has time left: look again after this
    /// many milliseconds.
    Sleep(u64),
}

/// Manages the two session slots.
pub struct SessionManager {
    anvil: Option<SessionInfo>,
    chisel: Option<SessionInfo>,
}

impl View for SessionManager {
    type V = Slots;

    closed spec fn view(&self) -> Slots {
        Slots { anvil: self.anvil, chisel: self.chisel }
    }
}

/// The program of a session kind.
fn program_for(foundry_bin_path: &Option<String>, name: &str) -> (r: String)
    ensures
        r@ == command_path(opt_text(*foundry_bin_path), name@),
{
    match foundry_bin_path {
        Some(dir) => {
            let mut r = dir.clone();
            r.append("/");
            r.append(name);
            r
        },
        None => String::from_str(name),
    }
}

/// Appends `flag` and `value` to `args`.
fn push_setting(args: &mut Vec<String>, flag: &str, value: String)
    ensures
        texts(final(args)@) == texts(old(args)@) + seq![flag@, value@],
{
    let f = String::from_str(flag);
    args.push(f);
    args.push(value);
}

impl Default for SessionManager {
    fn default() -> (r: Self)
        ensures
            r@ == (Slots { anvil: None, chisel: None }),
    {
        Self::new()
    }
}

impl SessionManager {
    /// The manager with both slots empty.
    pub fn new() -> (r: Self)
        ensures
            r@ == (Slots { anvil: None, chisel: None }),
    {
        SessionManager { anvil: None, chisel: None }
    }

    /// Whether a local node is recorded as running.
    pub fn is_anvil_running(&self) -> (r: bool)
        ensures
            r == self@.anvil.is_some(),
    {
        self.anvil.is_some()
    }

    /// Whether a REPL session is recorded as open.
    pub fn is_chisel_running(&self) -> (r: bool)
        ensures
            r == self@.chisel.is_some(),
    {
        self.chisel.is_some()
    }

    /// Decides the start of a local node: a failure where one is running, and
    /// otherwise the invocation that starts one. The caller starts it, waits
    /// `ANVIL_WARM_UP_MS` and reports what came of it with `anvil_spawned`.
    pub fn start_anvil(
        &self,
        foundry_bin_path: &Option<String>,
        port: u16,
        fork_url: Option<String>,
        fork_block_number: Option<u64>,
        accounts: Option<u32>,
        block_time: Option<u64>,
    ) -> (r: Result<CommandSpec, SessionError>)
        ensures
            match r {
                Ok(spec) => self@.anvil is None && spec@ == (Invocation {
                    command: "anvil"@,
                    program: command_path(opt_text(*foundry_bin_path), "anvil"@),
                    args: anvil_args(
                        port,
                        opt_text(fork_url),
                        fork_block_number,
                        accounts,
                        block_time,
                    ),
                }),
                Err(e) => self@.anvil is Some && e == SessionError::SessionAlreadyRunning(
                    SessionType::Anvil,
                ),
            },
    {
        if self.is_anvil_running() {
            return Err(SessionError::SessionAlreadyRunning(SessionType::Anvil));
        }
        let program = program_for(foundry_bin_path, "anvil");
        let mut args: Vec<String> = Vec::new();
        push_setting(&mut args, "--port", u64_to_string(port as u64));
        match fork_url {
            Some(url) => {
                push_setting(&mut args, "--fork-url", url);
            },
            None => {},
        }
        match fork_block_number {
            Some(n) => {
                push_setting(&mut args, "--fork-block-number", u64_to_string(n));
            },
            None => {},
        }
        match accounts {
            Some(n) => {
                push_setting(&mut args, "--accounts", u64_to_string(n as u64));
            },
            None => {},
        }
        match block_time {
            Some(n) => {
                push_setting(&mut args, "--block-time", u64_to_string(n));
            },
            None => {},
        }
        Ok(CommandSpec { command: String::from_str("anvil"), program, args })
    }

    /// Settles the start of a local node after the attempt to start its
    /// process. `started` says whether the process could be started; `pid` is
    /// its id and `port` where it listens. Where it could, the node is
    /// recorded and the answer says where it listens; where it could not,
    /// nothing is recorded.
    pub fn anvil_spawned(&mut self, started: bool, pid: u32, port: u16, now: u64) -> (r: Result<
        String,
        SessionError,
    >)
        ensures
            match r {
                Ok(text) => started && old(self)@.open(
                    SessionType::Anvil,
                    pid,
                    Some(port),
                    now,
                ) == Ok::<Slots, SessionError>(final(self)@) && text@ == anvil_started_text(
                    port,
                    pid,
                ),
                Err(e) => final(self)@ == old(self)@ && e == (if old(self)@.anvil is Some {
                    SessionError::SessionAlreadyRunning(SessionType::Anvil)
                } else {
                    SessionError::SpawnFailure(SessionType::Anvil, SessionOperation::Start)
                }) && (old(self)@.anvil is Some || !started),
            },
    {
        if self.anvil.is_some() {
            return Err(SessionError::SessionAlreadyRunning(SessionType::Anvil));
        }
        if !started {
            return Err(SessionError::SpawnFailure(SessionType::Anvil, SessionOperation::Start));
        }
        self.anvil = Some(
            SessionInfo {
                session_type: SessionType::Anvil,
                pid,
                port: Some(port),
                created_at: now,
            },
        );
        let port_text = u64_to_string(port as u64);
        let mut text = String::from_str("Anvil started successfully on port ");
        text.append(port_text.as_str());
        text.append(". RPC URL: http://localhost:");
        text.append(port_text.as_str());
        text.append("\nProcess ID: ");
        text.append(u64_to_string(pid as u64).as_str());
        Ok(text)
    }

    /// Removes the record of the local node and hands it out, so that the
    /// caller can end the process; a failure where none is running.
    pub fn stop_anvil(&mut self) -> (r: Result<SessionInfo, SessionError>)
        ensures
            match r {
                Ok(record) => old(self)@.close(SessionType::Anvil) == Ok::<
                    (Slots, SessionInfo),
                    SessionError,
                >((final(self)@, record)),
                Err(e) => old(self)@.close(SessionType::Anvil) == Err::<
                    (Slots, SessionInfo),
                    SessionError,
                >(e) && final(self)@ == old(self)@,
            },
    {
        match self.anvil {
            Some(record) => {
                self.anvil = None;
                Ok(record)
            },
            None => Err(SessionError::SessionNotRunning(SessionType::Anvil, SessionOperation::Stop)),
        }
    }

    /// The status of the local node at the time `now`. It never fails.
    pub fn anvil_status(&self, now: u64) -> (r: Result<String, SessionError>)
        ensures
            r matches Ok(text) && text@ == anvil_status_text(self@.anvil, now),
    {
        match self.anvil {
            Some(record) => {
                let port = match record.port {
                    Some(p) => p,
                    None => DEFAULT_PORT,
                };
                let port_text = u64_to_string(port as u64);
                let mut text = String::from_str("Anvil is running on port ");
                text.append(port_text.as_str());
                text.append(". RPC URL: http://localhost:");
                text.append(port_text.as_str());
                text.append("\nUptime: ");
                text.append(uptime(record.created_at, now).as_str());
                Ok(text)
            },
            None => Ok(String::from_str("Anvil is not currently running.")),
        }
    }

    /// Decides the start of a REPL session: a failure where one is open, and
    /// otherwise the invocation that probes the program. The caller runs the
    /// probe and reports what came of it with `chisel_probed`.
    pub fn start_chisel(&self, foundry_bin_path: &Option<String>) -> (r: Result<
        CommandSpec,
        SessionError,
    >)
        ensures
            match r {
                Ok(spec) => self@.chisel is None && spec@ == (Invocation {
                    command: "chisel"@,
                    program: command_path(opt_text(*foundry_bin_path), "chisel"@),
                    args: seq!["--help"@],
                }),
                Err(e) => self@.chisel is Some && e == SessionError::SessionAlreadyRunning(
                    SessionType::Chisel,
                ),
            },
    {
        if self.is_chisel_running() {
            return Err(SessionError::SessionAlreadyRunning(SessionType::Chisel));
        }
        let program = program_for(foundry_bin_path, "chisel");
        let mut args: Vec<String> = Vec::new();
        args.push(String::from_str("--help"));
        proof {
            assert(texts(args@) =~= seq!["--help"@]);
        }
        Ok(CommandSpec { command: String::from_str("chisel"), program, args })
    }

    /// Settles the start of a REPL session after the probe. `started` says
    /// whether the probe could be run at all, `success` whether it ended with
    /// success; `pid` is the process that marks the session as open.
    pub fn chisel_probed(&mut self, started: bool, success: bool, pid: u32, now: u64) -> (r: Result<
        String,
        SessionError,
    >)
        ensures
            match r {
                Ok(text) => started && success && old(self)@.open(
                    SessionType::Chisel,
                    pid,
                    None,
                    now,
                ) == Ok::<Slots, SessionError>(final(self)@) && text@ == chisel_started_text(),
                Err(e) => final(self)@ == old(self)@ && e == (if old(self)@.chisel is Some {
                    SessionError::SessionAlreadyRunning(SessionType::Chisel)
                } else if !started {
                    SessionError::SpawnFailure(SessionType::Chisel, SessionOperation::Start)
                } else {
                    SessionError::ProbeFailed
                }) && (old(self)@.chisel is Some || !started || !success),
            },
    {
        if self.chisel.is_some() {
            return Err(SessionError::SessionAlreadyRunning(SessionType::Chisel));
        }
        if !started {
            return Err(SessionError::SpawnFailure(SessionType::Chisel, SessionOperation::Start));
        }
        if !success {
            return Err(SessionError::ProbeFailed);
        }
        self.chisel = Some(
            SessionInfo { session_type: SessionType::Chisel, pid, port: None, created_at: now },
        );
        Ok(String::from_str(CHISEL_STARTED))
    }

    /// Decides an evaluation: a failure where no REPL session is open, and
    /// otherwise the program to start for this one evaluation and what to
    /// write to its input. The session record is not touched.
    pub fn chisel_eval(&self, code: String, foundry_bin_path: &Option<String>) -> (r: Result<
        EvalPlan,
        SessionError,
    >)
        ensures
            match r {
                Ok(plan) => self@.chisel is Some && plan.command@ == (Invocation {
                    command: "chisel"@,
                    program: command_path(opt_text(*foundry_bin_path), "chisel"@),
                    args: Seq::empty(),
                }) && plan.input@ == eval_input(code@),
                Err(e) => self@.chisel is None && e == SessionError::SessionNotRunning(
                    SessionType::Chisel,
                    SessionOperation::Eval,
                ),
            },
    {
        if !self.is_chisel_running() {
            return Err(
                SessionError::SessionNotRunning(SessionType::Chisel, SessionOperation::Eval),
            );
        }
        let program = program_for(foundry_bin_path, "chisel");
        let args: Vec<String> = Vec::new();
        proof {
            assert(texts(args@) =~= Seq::<Seq<char>>::empty());
        }
        let mut input = code;
        input.append("\n");
        input.append("!quit\n");
        Ok(EvalPlan { command: CommandSpec { command: String::from_str("chisel"), program, args }, input })
    }

    /// Removes the record of the REPL session and hands it out, so that the
    /// caller can end the process that marks it; a failure where none is open.
    pub fn stop_chisel(&mut self) -> (r: Result<SessionInfo, SessionError>)
        ensures
            match r {
                Ok(record) => old(self)@.close(SessionType::Chisel) == Ok::<
                    (Slots, SessionInfo),
                    SessionError,
                >((final(self)@, record)),
                Err(e) => old(self)@.close(SessionType::Chisel) == Err::<
                    (Slots, SessionInfo),
                    SessionError,
                >(e) && final(self)@ == old(self)@,
            },
    {
        match self.chisel {
            Some(record) => {
                self.chisel = None;
                Ok(record)
            },
            None => Err(
                SessionError::SessionNotRunning(SessionType::Chisel, SessionOperation::Stop),
            ),
        }
    }

    /// The status of the REPL session at the time `now`. It never fails.
    pub fn chisel_status(&self, now: u64) -> (r: Result<String, SessionError>)
        ensures
            r matches Ok(text) && text@ == chisel_status_text(self@.chisel, now),
    {
        match self.chisel {
            Some(record) => {
                let mut text = String::from_str("Chisel REPL session is active.\nUptime: ");
                text.append(uptime(record.created_at, now).as_str());
                text.append("\nUse chisel_session_eval to execute code.");
                Ok(text)
            },
            None => Ok(String::from_str("Chisel session is not currently running.")),
        }
    }

    /// Empties both slots and hands out the records that were in them, the
    /// local node first, so that the caller can end their processes.
    pub fn stop_all(&mut self) -> (r: Vec<SessionInfo>)
        ensures
            final(self)@ == (Slots { anvil: None, chisel: None }),
            r@ == (match old(self)@.anvil {
                Some(record) => seq![record],
                None => Seq::empty(),
            }) + (match old(self)@.chisel {
                Some(record) => seq![record],
                None => Seq::empty(),
            }),
    {
        let mut r: Vec<SessionInfo> = Vec::new();
        match self.anvil {
            Some(record) => {
                r.push(record);
            },
            None => {},
        }
        match self.chisel {
            Some(record) => {
                r.push(record);
            },
            None => {},
        }
        self.anvil = None;
        self.chisel = None;
        r
    }
}

/// The time that a session has been open, as a status shows it.
fn uptime(created_at: u64, now: u64) -> (r: String)
    ensures
        r@ == uptime_text(created_at, now),
{
    if now >= created_at {
        let mut r = u64_to_string((now - created_at) / 1000);
        r.append("s");
        r
    } else {
        String::from_str("unknown")
    }
}

/// What ending the process of a stopped session amounts to. For the local
/// node a kill or a wait that failed is an error; for the REPL both are
/// attempts whose failure is passed over.
pub open spec fn stop_result(kind: SessionType, killed: bool, awaited: bool) -> Result<
    Seq<char>,
    SessionError,
> {
    match kind {
        SessionType::Anvil => if !killed {
            Err(SessionError::KillFailed)
        } else if !awaited {
            Err(SessionError::WaitFailed)
        } else {
            Ok("Anvil has been stopped successfully."@)
        },
        SessionType::Chisel => Ok("Chisel session has been stopped successfully."@),
    }
}

/// The view of the text in a result.
pub open spec fn text_result(r: Result<String, SessionError>) -> Result<Seq<char>, SessionError> {
    match r {
        Ok(text) => Ok(text@),
        Err(e) => Err(e),
    }
}

/// What to report after the process of a stopped session was ended:
/// `killed` and `awaited` say whether the kill and the wait succeeded.
pub fn stop_outcome(kind: SessionType, killed: bool, awaited: bool) -> (r: Result<
    String,
    SessionError,
>)
    ensures
        text_result(r) == stop_result(kind, killed, awaited),
{
    match kind {
        SessionType::Anvil => {
            if !killed {
                Err(SessionError::KillFailed)
            } else if !awaited {
                Err(SessionError::WaitFailed)
            } else {
                Ok(String::from_str("Anvil has been stopped successfully."))
            }
        },
        SessionType::Chisel => Ok(String::from_str("Chisel session has been stopped successfully.")),
    }
}

/// The line that a teardown of all sessions reports for one of them: the
/// message of a stop that went well, and the error of one that did not,
/// behind a note that names the session.
pub open spec fn teardown_text(kind: SessionType, outcome: Result<Seq<char>, SessionError>) -> Seq<
    char,
> {
    match outcome {
        Ok(text) => text,
        Err(e) => (match kind {
            SessionType::Anvil => "Error stopping Anvil: "@,
            SessionType::Chisel => "Error stopping Chisel: "@,
        }) + e.message(),
    }
}

/// The line that a teardown of all sessions reports for one of them. An
/// error becomes a line like any other: a teardown does not fail.
pub fn teardown_line(kind: SessionType, outcome: Result<String, SessionError>) -> (r: String)
    ensures
        r@ == teardown_text(kind, text_result(outcome)),
{
    match outcome {
        Ok(text) => text,
        Err(e) => {
            let note = match kind {
                SessionType::Anvil => "Error stopping Anvil: ",
                SessionType::Chisel => "Error stopping Chisel: ",
            };
            concat(note, e.to_string().as_str())
        },
    }
}

/// Settles the start of the program of an evaluation: where it could not be
/// started, the evaluation fails with this error and nothing is evaluated.
pub fn eval_spawned(started: bool) -> (r: Result<(), SessionError>)
    ensures
        r == (if started {
            Ok::<(), SessionError>(())
        } else {
            Err::<(), SessionError>(
                SessionError::SpawnFailure(SessionType::Chisel, SessionOperation::Eval),
            )
        }),
{
    if started {
        Ok(())
    } else {
        Err(SessionError::SpawnFailure(SessionType::Chisel, SessionOperation::Eval))
    }
}

/// What to do with an evaluation that has run for `elapsed` milliseconds:
/// collect where the program has ended, and wait where it has not and time is
/// left. Where it has not ended after `EVAL_TIMEOUT_MS`, the evaluation has
/// timed out: the caller kills the program and reports this error, and
/// nothing of what the program printed is used.
pub fn eval_poll(exited: bool, elapsed: u64) -> (r: Result<PollStep, SessionError>)
    ensures
        r == (if exited {
            Ok::<PollStep, SessionError>(PollStep::Collect)
        } else if elapsed >= EVAL_TIMEOUT_MS {
            Err::<PollStep, SessionError>(SessionError::EvalTimeout)
        } else {
            Ok::<PollStep, SessionError>(PollStep::Sleep(EVAL_POLL_INTERVAL_MS))
        }),
{
    if exited {
        Ok(PollStep::Collect)
    } else if elapsed >= EVAL_TIMEOUT_MS {
        Err(SessionError::EvalTimeout)
    } else {
        Ok(PollStep::Sleep(EVAL_POLL_INTERVAL_MS))
    }
}

/// The prompt marker of the REPL.
pub open spec fn prompt() -> Seq<char> {
    "\u{279c}"@
}

/// Whether a line belongs to what the REPL prints before any result: a blank
/// line, a bare prompt, the welcome or the hint at its help.
pub open spec fn is_preamble(line: Seq<char>) -> bool {
    let t = trim(line);
    t.len() == 0 || t == prompt() || has_infix(t, "Welcome to Chisel"@) || has_infix(
        t,
        "Type `!help`"@,
    )
}

/// The lines from the first one on that is no preamble.
pub open spec fn skip_preamble(all: Seq<Seq<char>>) -> Seq<Seq<char>>
    decreases all.len(),
{
    if all.len() > 0 && is_preamble(all[0]) {
        skip_preamble(all.drop_first())
    } else {
        all
    }
}

/// Whether a line is more than a bare prompt.
pub open spec fn is_content(line: Seq<char>) -> bool {
    trim(line) != prompt()
}

/// The line without a prompt marker and a space in front of it.
pub open spec fn strip_prompt(line: Seq<char>) -> Seq<char> {
    if is_prefix(line, "\u{279c} "@) {
        line.skip(2)
    } else {
        line
    }
}

/// What remains of the lines that the REPL printed: the preamble is dropped,
/// then every bare prompt, and a prompt in front of a line is cut off.
pub open spec fn clean_lines(all: Seq<Seq<char>>) -> Seq<Seq<char>> {
    skip_preamble(all).filter(|l: Seq<char>| is_content(l)).map_values(
        |l: Seq<char>| strip_prompt(l),
    )
}

/// The text that the canonical answer to an evaluation without output is.
pub open spec fn no_output() -> Seq<char> {
    "Code executed (no output)"@
}

/// What an evaluation returns for what the program printed: the cleaned
/// lines of standard output followed by standard error, joined and trimmed,
/// or the canonical answer where nothing remains.
pub open spec fn eval_text(stdout: Seq<char>, stderr: Seq<char>) -> Seq<char> {
    let cleaned = trim(join(clean_lines(lines(stdout + stderr)), "\n"@));
    if cleaned.len() == 0 {
        no_output()
    } else {
        cleaned
    }
}

/// Whether a line belongs to the preamble.
fn preamble(line: &str) -> (r: bool)
    ensures
        r == is_preamble(line@),
{
    let t = trimmed(line);
    t.unicode_len() == 0 || str_eq(t, "\u{279c}") || contains(t, "Welcome to Chisel") || contains(
        t,
        "Type `!help`",
    )
}

/// Skipping the preamble of lines that begin with `a` preamble lines and
/// then have none, or end, leaves what follows those `a`.
proof fn lemma_skip_preamble(all: Seq<Seq<char>>, a: int)
    requires
        0 <= a <= all.len(),
        forall|j: int| 0 <= j < a ==> is_preamble(all[j]),
        a < all.len() ==> !is_preamble(all[a]),
    ensures
        skip_preamble(all) == all.skip(a),
    decreases a,
{
    if a > 0 {
        lemma_skip_preamble(all.drop_first(), a - 1);
    }
}

/// What an evaluation returns for what the program printed.
pub fn chisel_output(stdout: &str, stderr: &str) -> (r: String)
    ensures
        r@ == eval_text(stdout@, stderr@),
{
    let combined = concat(stdout, stderr);
    let all = lines_of(combined.as_str());
    let ghost ls = texts(all@);
    let mut a: usize = 0;
    while a < all.len() && preamble(all[a].as_str())
        invariant
            a <= all.len(),
            ls == texts(all@),
            forall|j: int| 0 <= j < a ==> is_preamble(ls[j]),
        decreases all.len() - a,
    {
        a += 1;
    }
    proof {
        lemma_skip_preamble(ls, a as int);
    }
    let ghost body = ls.skip(a as int);
    let ghost keep = |l: Seq<char>| is_content(l);
    let ghost cut = |l: Seq<char>| strip_prompt(l);
    let mut kept: Vec<String> = Vec::new();
    let mut i: usize = a;
    while i < all.len()
        invariant
            a <= i <= all.len(),
            ls == texts(all@),
            body == ls.skip(a as int),
            keep == (|l: Seq<char>| is_content(l)),
            cut == (|l: Seq<char>| strip_prompt(l)),
            texts(kept@) == body.take(i - a).filter(keep).map_values(cut),
        decreases all.len() - i,
    {
        let line = all[i].as_str();
        proof {
            assert(body.take(i - a + 1) =~= body.take(i - a).push(line@));
            body.take(i - a).lemma_filter_push(line@, keep);
        }
        if !str_eq(trimmed(line), "\u{279c}") {
            let cleaned = if starts_with(line, "\u{279c} ") {
                proof {
                    reveal_strlit("\u{279c} ");
                }
                String::from_str(line.substring_char(2, line.unicode_len()))
            } else {
                String::from_str(line)
            };
            proof {
                lemma_texts_push(kept@, cleaned);
            }
            kept.push(cleaned);
        }
        i += 1;
    }
    proof {
        assert(body.take(all.len() - a) =~= body);
    }
    let joined = join_with(&kept, "\n");
    let result = trimmed(joined.as_str());
    if result.unicode_len() == 0 {
        String::from_str("Code executed (no output)")
    } else {
        String::from_str(result)
    }
}

/// Skipping the preamble of lines that all belong to it leaves nothing.
proof fn lemma_all_preamble(all: Seq<Seq<char>>)
    requires
        forall|j: int| 0 <= j < all.len() ==> is_preamble(all[j]),
    ensures
        skip_preamble(all) == Seq::<Seq<char>>::empty(),
{
    lemma_skip_preamble(all, all.len() as int);
}

/// An evaluation whose program printed nothing but the welcome, blank lines
/// and prompts returns the canonical answer.
pub proof fn lemma_only_preamble_gives_no_output(stdout: Seq<char>, stderr: Seq<char>)
    requires
        forall|j: int|
            0 <= j < lines(stdout + stderr).len() ==> is_preamble(#[trigger] lines(
                stdout + stderr,
            )[j]),
    ensures
        eval_text(stdout, stderr) == no_output(),
{
    let all = lines(stdout + stderr);
    lemma_all_preamble(all);
}

/// Opening a session twice fails the second time, whatever the second
/// attempt brings along; the first record stays.
pub proof fn lemma_second_start_fails(
    slots: Slots,
    kind: SessionType,
    pid: u32,
    port: Option<u16>,
    now: u64,
    pid2: u32,
    port2: Option<u16>,
    now2: u64,
)
    requires
        slots.open(kind, pid, port, now) is Ok,
    ensures
        slots.open(kind, pid, port, now)->Ok_0.open(kind, pid2, port2, now2) == Err::<
            Slots,
            SessionError,
        >(SessionError::SessionAlreadyRunning(kind)),
{
}

/// Closing a session twice fails the second time.
pub proof fn lemma_second_stop_fails(slots: Slots, kind: SessionType)
    requires
        slots.close(kind) is Ok,
    ensures
        slots.close(kind)->Ok_0.0.close(kind) == Err::<(Slots, SessionInfo), SessionError>(
            SessionError::SessionNotRunning(kind, SessionOperation::Stop),
        ),
{
}

/// A session that was opened can be closed, which hands its record back and
/// leaves the slot as it was before; the other slot is untouched throughout.
pub proof fn lemma_start_then_stop(
    slots: Slots,
    kind: SessionType,
    pid: u32,
    port: Option<u16>,
    now: u64,
)
    requires
        slots.open(kind, pid, port, now) is Ok,
    ensures
        slots.open(kind, pid, port, now)->Ok_0.close(kind) == Ok::<
            (Slots, SessionInfo),
            SessionError,
        >((slots, SessionInfo { session_type: kind, pid, port, created_at: now })),
{
}

/// Before any start, both statuses report that nothing is running.
pub proof fn lemma_status_before_start(now: u64)
    ensures
        anvil_status_text(None, now) == "Anvil is not currently running."@,
        chisel_status_text(None, now) == "Chisel session is not currently running."@,
{
}

} // verus!
