//! Looking up and launching the game server process.
use vstd::prelude::*;
use crate::config::GAME_SERVER_NAME;
use crate::process::{
    exit_success, pid_query, pid_status_of, CommandLine,
    CommandRun, ProcStatus as PidStatus, ProcessFault,
};
use crate::text::{lemma_parse_tighter_bound, parse_decimal, parse_unsigned, trim, trimmed, ParseFailure};

verus! {

/// Errors of launching the game server into a process of its own; each
/// holds the description of the underlying error.
#[derive(Clone, Debug)]
pub enum ForkError {
    /// The identifier of the new process never arrived.
    RX(String),
    /// The game server could not be started.
    IO(String),
}

/// Whether the game server runs, and its process identifier where it does.
#[derive(Clone, Copy, Debug, PartialEq, Eq, Structural)]
pub enum ProcStatus {
    TERMINATED,
    RUNNING(u32),
}

#[derive(Clone, Debug)]
pub enum ProcStatusError {
    /// E.g. couldn't use "pgrep" required to look for the process; holds
    /// the description of the error.
    IO(String),
    /// Couldn't parse "pgrep" return value.
    Parse(ParseFailure),
}

/// What the launching side received: the identifier of the new game server
/// process or why it could not be started, or, as `Err`, why nothing
/// arrived.
pub fn rds_fork_outcome(received: Result<Result<u32, String>, String>) -> (r: Result<
    u32,
    ForkError,
>)
    ensures
        received matches Ok(Ok(pid)) ==> r == Ok::<u32, ForkError>(pid),
        received matches Ok(Err(cause)) ==> r == Err::<u32, ForkError>(ForkError::IO(cause)),
        received matches Err(cause) ==> r == Err::<u32, ForkError>(ForkError::RX(cause)),
{
    match received {
        Ok(Ok(pid)) => Ok(pid),
        Ok(Err(cause)) => Err(ForkError::IO(cause)),
        Err(cause) => Err(ForkError::RX(cause)),
    }
}

/// A `ProcStatusError` with its description as a character sequence.
pub ghost enum ProcStatusFault {
    IO(Seq<char>),
    Parse(ParseFailure),
}

impl View for ProcStatusError {
    type V = ProcStatusFault;

    open spec fn view(&self) -> ProcStatusFault {
        match self {
            ProcStatusError::IO(cause) => ProcStatusFault::IO(cause@),
            ProcStatusError::Parse(kind) => ProcStatusFault::Parse(*kind),
        }
    }
}

/// The description given where `pgrep`'s standard output was not captured.
pub open spec fn no_stdout_text() -> Seq<char> {
    "standard output of pgrep was not captured"@
}

/// The command whose run `rds_check_process` reads: `pgrep` on the game
/// server's executable name.
pub fn rds_query() -> (c: CommandLine)
    ensures
        c.spec_parts() == ("pgrep"@, seq![GAME_SERVER_NAME@]),
{
    pid_query(GAME_SERVER_NAME)
}

/// What the run of `rds_query()` says: an error status means that no game
/// server process exists.
pub open spec fn rds_status_of(run: CommandRun) -> Result<ProcStatus, ProcStatusFault> {
    match run {
        CommandRun::SpawnFailed { cause } => Err(ProcStatusFault::IO(cause@)),
        CommandRun::NoStdoutHandle => Err(ProcStatusFault::IO(no_stdout_text())),
        CommandRun::WaitFailed { cause } => Err(ProcStatusFault::IO(cause@)),
        CommandRun::Exited { code, first_line } => {
            if !exit_success(code) {
                Ok(ProcStatus::TERMINATED)
            } else {
                match first_line {
                    Err(cause) => Err(ProcStatusFault::IO(cause@)),
                    Ok(line) => match parse_decimal(trimmed(line@), u32::MAX as nat) {
                        Ok(n) => Ok(ProcStatus::RUNNING(n as u32)),
                        Err(kind) => Err(ProcStatusFault::Parse(kind)),
                    },
                }
            }
        },
    }
}

/// Whether a game server process exists, from the run of `rds_query()`.
pub fn rds_check_process(run: CommandRun) -> (r: Result<ProcStatus, ProcStatusError>)
    ensures
        r matches Ok(s) ==> rds_status_of(run) == Ok::<ProcStatus, ProcStatusFault>(s),
        r matches Err(e) ==> rds_status_of(run) == Err::<ProcStatus, ProcStatusFault>(e@),
{
    match run {
        CommandRun::SpawnFailed { cause } => Err(ProcStatusError::IO(cause)),
        CommandRun::NoStdoutHandle => Err(
            ProcStatusError::IO(String::from_str("standard output of pgrep was not captured")),
        ),
        CommandRun::WaitFailed { cause } => Err(ProcStatusError::IO(cause)),
        CommandRun::Exited { code, first_line } => {
            let success = match code {
                Some(c) => c == 0,
                None => false,
            };
            if !success {
                return Ok(ProcStatus::TERMINATED);
            }
            match first_line {
                Err(cause) => Err(ProcStatusError::IO(cause)),
                Ok(line) => match parse_unsigned(trim(line.as_str()), u32::MAX as u64) {
                    Ok(n) => Ok(ProcStatus::RUNNING(n as u32)),
                    Err(kind) => Err(ProcStatusError::Parse(kind)),
                },
            }
        },
    }
}

/// On every run of `pgrep` on the game server's name that prints no
/// identifier beyond `u32`, this check and `get_pid` agree: both find no
/// process, or both find the same one, or both fail.
pub proof fn lemma_agrees_with_get_pid(run: CommandRun)
    requires
        pid_status_of(GAME_SERVER_NAME@, run) matches Ok(PidStatus::Running(n)) ==> n
            <= u32::MAX,
    ensures
        rds_status_of(run) == Ok::<ProcStatus, ProcStatusFault>(ProcStatus::TERMINATED)
            <==> pid_status_of(GAME_SERVER_NAME@, run) == Ok::<PidStatus, ProcessFault>(
            PidStatus::Terminated,
        ),
        rds_status_of(run) matches Ok(ProcStatus::RUNNING(p)) ==> pid_status_of(
            GAME_SERVER_NAME@,
            run,
        ) == Ok::<PidStatus, ProcessFault>(PidStatus::Running(p as u64)),
        pid_status_of(GAME_SERVER_NAME@, run) matches Ok(PidStatus::Running(n)) ==> rds_status_of(
            run,
        ) == Ok::<ProcStatus, ProcStatusFault>(ProcStatus::RUNNING(n as u32)),
        rds_status_of(run) is Err <==> pid_status_of(GAME_SERVER_NAME@, run) is Err,
{
    match run {
        CommandRun::Exited { code, first_line: Ok(line) } => {
            if exit_success(code) {
                lemma_parse_tighter_bound(trimmed(line@), u32::MAX as nat, u64::MAX as nat);
            }
        },
        _ => {},
    }
}

} // verus!
