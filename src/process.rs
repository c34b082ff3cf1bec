//! Facts about processes learned by running external commands, and what
//! the outcome of such a command means.
use vstd::prelude::*;
use crate::log::SourceLoggable;
use crate::text::{
    debug_quoted, debug_quoted_of, decimal, decimal_string, join_with_spaces, join_words,
    parse_decimal, parse_unsigned, trim, trimmed, views, ParseFailure,
};

verus! {

/// An external command: the executable and its arguments.
#[derive(Clone, Debug)]
pub struct CommandLine {
    pub executable: String,
    pub args: Vec<String>,
}

impl CommandLine {
    /// The executable and the arguments, as text.
    pub open spec fn spec_parts(&self) -> (Seq<char>, Seq<Seq<char>>) {
        (self.executable@, views(self.args@))
    }
}

/// What running an external command, with its standard output captured,
/// came to.
#[derive(Debug)]
pub enum CommandRun {
    /// The command could not be started.
    SpawnFailed { cause: String },
    /// The command started, but its standard output was not captured.
    NoStdoutHandle,
    /// Waiting for the command to finish failed.
    WaitFailed { cause: String },
    /// The command finished with exit code `code` (`None` where a signal
    /// ended it); `first_line` is the first line of its standard output, or
    /// why that could not be read.
    Exited { code: Option<i32>, first_line: Result<String, String> },
}

/// A command succeeded exactly when it exited with code zero.
pub open spec fn exit_success(code: Option<i32>) -> bool {
    code == Some(0i32)
}

/// Errors of running an external command and reading an integer from it.
#[derive(Clone, Debug)]
pub enum ProcessError {
    CannotSpawn { executable_path: String, cause: String },
    CannotWait { executable_path: String, cause: String },
    CannotGetStdoutHandle { executable_path: String },
    CannotReadStdout { executable_path: String, cause: String },
    CannotParseStdout { executable_path: String, cause: ParseFailure, input: String },
    ErrorExitStatus { executable_path: String, input: String },
}

/// A `ProcessError` with its texts as character sequences.
pub ghost enum ProcessFault {
    CannotSpawn { executable_path: Seq<char>, cause: Seq<char> },
    CannotWait { executable_path: Seq<char>, cause: Seq<char> },
    CannotGetStdoutHandle { executable_path: Seq<char> },
    CannotReadStdout { executable_path: Seq<char>, cause: Seq<char> },
    CannotParseStdout { executable_path: Seq<char>, cause: ParseFailure, input: Seq<char> },
    ErrorExitStatus { executable_path: Seq<char>, input: Seq<char> },
}

impl View for ProcessError {
    type V = ProcessFault;

    open spec fn view(&self) -> ProcessFault {
        match self {
            ProcessError::CannotSpawn { executable_path, cause } => ProcessFault::CannotSpawn {
                executable_path: executable_path@,
                cause: cause@,
            },
            ProcessError::CannotWait { executable_path, cause } => ProcessFault::CannotWait {
                executable_path: executable_path@,
                cause: cause@,
            },
            ProcessError::CannotGetStdoutHandle { executable_path } => {
                ProcessFault::CannotGetStdoutHandle { executable_path: executable_path@ }
            },
            ProcessError::CannotReadStdout { executable_path, cause } => {
                ProcessFault::CannotReadStdout { executable_path: executable_path@, cause: cause@ }
            },
            ProcessError::CannotParseStdout { executable_path, cause, input } => {
                ProcessFault::CannotParseStdout {
                    executable_path: executable_path@,
                    cause: *cause,
                    input: input@,
                }
            },
            ProcessError::ErrorExitStatus { executable_path, input } => {
                ProcessFault::ErrorExitStatus { executable_path: executable_path@, input: input@ }
            },
        }
    }
}

impl ParseFailure {
    /// What `ParseIntError` says for each kind of failure.
    pub open spec fn spec_message(self) -> Seq<char> {
        match self {
            ParseFailure::Empty => "cannot parse integer from empty string"@,
            ParseFailure::InvalidDigit => "invalid digit found in string"@,
            ParseFailure::PosOverflow => "number too large to fit in target type"@,
        }
    }

    pub fn message(&self) -> (r: String)
        ensures
            r@ == self.spec_message(),
    {
        match self {
            ParseFailure::Empty => String::from_str("cannot parse integer from empty string"),
            ParseFailure::InvalidDigit => String::from_str("invalid digit found in string"),
            ParseFailure::PosOverflow => String::from_str(
                "number too large to fit in target type",
            ),
        }
    }
}

impl ProcessFault {
    /// The one-line description of the error.
    pub open spec fn message(self) -> Seq<char> {
        match self {
            ProcessFault::CannotSpawn { executable_path, .. } => "cannot spawn process from executable "@
                + debug_quoted_of(executable_path),
            ProcessFault::CannotWait { executable_path, .. } => "failed to wait process from executable "@
                + debug_quoted_of(executable_path),
            ProcessFault::CannotGetStdoutHandle { executable_path } =>
                "cannot get stdout handle of process from executable "@ + debug_quoted_of(
                executable_path,
            ),
            ProcessFault::CannotReadStdout { executable_path, .. } =>
                "cannot read stdout of process from executable "@ + debug_quoted_of(executable_path),
            ProcessFault::CannotParseStdout { executable_path, input, .. } =>
                "cannot parse integer from stdout of process from executable "@ + debug_quoted_of(
                executable_path,
            ) + ": \""@ + input + "\""@,
            ProcessFault::ErrorExitStatus { executable_path, input } =>
                "exited with error status from process from executable "@ + debug_quoted_of(
                executable_path,
            ) + ", input: \""@ + input + "\""@,
        }
    }

    /// The description of the underlying error, where there is one.
    pub open spec fn cause(self) -> Option<Seq<char>> {
        match self {
            ProcessFault::CannotSpawn { cause, .. } => Some(cause),
            ProcessFault::CannotWait { cause, .. } => Some(cause),
            ProcessFault::CannotGetStdoutHandle { .. } => None,
            ProcessFault::CannotReadStdout { cause, .. } => Some(cause),
            ProcessFault::CannotParseStdout { cause, .. } => Some(cause.spec_message()),
            ProcessFault::ErrorExitStatus { .. } => None,
        }
    }
}

impl ProcessError {
    /// The one-line description of the error.
    pub fn message(&self) -> (r: String)
        ensures
            r@ == self@.message(),
    {
        match self {
            ProcessError::CannotSpawn { executable_path, .. } => {
                let mut m = String::from_str("cannot spawn process from executable ");
                m.append(debug_quoted(executable_path.as_str()).as_str());
                m
            },
            ProcessError::CannotWait { executable_path, .. } => {
                let mut m = String::from_str("failed to wait process from executable ");
                m.append(debug_quoted(executable_path.as_str()).as_str());
                m
            },
            ProcessError::CannotGetStdoutHandle { executable_path } => {
                let mut m = String::from_str(
                    "cannot get stdout handle of process from executable ",
                );
                m.append(debug_quoted(executable_path.as_str()).as_str());
                m
            },
            ProcessError::CannotReadStdout { executable_path, .. } => {
                let mut m = String::from_str("cannot read stdout of process from executable ");
                m.append(debug_quoted(executable_path.as_str()).as_str());
                m
            },
            ProcessError::CannotParseStdout { executable_path, input, .. } => {
                let mut m = String::from_str(
                    "cannot parse integer from stdout of process from executable ",
                );
                m.append(debug_quoted(executable_path.as_str()).as_str());
                m.append(": \"");
                m.append(input.as_str());
                m.append("\"");
                m
            },
            ProcessError::ErrorExitStatus { executable_path, input } => {
                let mut m = String::from_str(
                    "exited with error status from process from executable ",
                );
                m.append(debug_quoted(executable_path.as_str()).as_str());
                m.append(", input: \"");
                m.append(input.as_str());
                m.append("\"");
                m
            },
        }
    }

    /// The description of the underlying error, where there is one.
    pub fn source(&self) -> (r: Option<String>)
        ensures
            r matches Some(c) ==> self@.cause() == Some(c@),
            r is None ==> self@.cause() is None,
    {
        match self {
            ProcessError::CannotSpawn { cause, .. } => Some(cause.clone()),
            ProcessError::CannotWait { cause, .. } => Some(cause.clone()),
            ProcessError::CannotGetStdoutHandle { .. } => None,
            ProcessError::CannotReadStdout { cause, .. } => Some(cause.clone()),
            ProcessError::CannotParseStdout { cause, .. } => Some(cause.message()),
            ProcessError::ErrorExitStatus { .. } => None,
        }
    }
}

/// What the first output line of a command that ran `executable args`
/// says as an unsigned 64-bit integer, or the error that ends the reading.
pub open spec fn integer_value_of(executable: Seq<char>, args: Seq<Seq<char>>, run: CommandRun) -> Result<
    nat,
    ProcessFault,
> {
    match run {
        CommandRun::SpawnFailed { cause } => Err(
            ProcessFault::CannotSpawn { executable_path: executable, cause: cause@ },
        ),
        CommandRun::NoStdoutHandle => Err(
            ProcessFault::CannotGetStdoutHandle { executable_path: executable },
        ),
        CommandRun::WaitFailed { cause } => Err(
            ProcessFault::CannotWait { executable_path: executable, cause: cause@ },
        ),
        CommandRun::Exited { code, first_line } => {
            if !exit_success(code) {
                Err(
                    ProcessFault::ErrorExitStatus {
                        executable_path: executable,
                        input: join_words(args),
                    },
                )
            } else {
                match first_line {
                    Err(cause) => Err(
                        ProcessFault::CannotReadStdout { executable_path: executable, cause: cause@ },
                    ),
                    Ok(line) => match parse_decimal(trimmed(line@), u64::MAX as nat) {
                        Ok(n) => Ok(n),
                        Err(kind) => Err(
                            ProcessFault::CannotParseStdout {
                                executable_path: executable,
                                cause: kind,
                                input: trimmed(line@),
                            },
                        ),
                    },
                }
            }
        },
    }
}

/// Reads an unsigned integer from the first output line of the command
/// `executable args`, whose run came to `run`.
pub fn get_integer_value_with(executable: &str, args: &Vec<String>, run: CommandRun) -> (r: Result<
    u64,
    ProcessError,
>)
    ensures
        r matches Ok(n) ==> integer_value_of(executable@, views(args@), run) == Ok::<
            nat,
            ProcessFault,
        >(n as nat),
        r matches Err(e) ==> integer_value_of(executable@, views(args@), run) == Err::<
            nat,
            ProcessFault,
        >(e@),
{
    let executable_path = String::from_str(executable);
    match run {
        CommandRun::SpawnFailed { cause } => Err(
            ProcessError::CannotSpawn { executable_path, cause },
        ),
        CommandRun::NoStdoutHandle => Err(ProcessError::CannotGetStdoutHandle { executable_path }),
        CommandRun::WaitFailed { cause } => Err(ProcessError::CannotWait { executable_path, cause }),
        CommandRun::Exited { code, first_line } => {
            let success = match code {
                Some(c) => c == 0,
                None => false,
            };
            if !success {
                return Err(
                    ProcessError::ErrorExitStatus {
                        executable_path,
                        input: join_with_spaces(args),
                    },
                );
            }
            match first_line {
                Err(cause) => Err(ProcessError::CannotReadStdout { executable_path, cause }),
                Ok(line) => {
                    let text = trim(line.as_str());
                    match parse_unsigned(text, u64::MAX) {
                        Ok(n) => Ok(n),
                        Err(kind) => Err(
                            ProcessError::CannotParseStdout {
                                executable_path,
                                cause: kind,
                                input: String::from_str(text),
                            },
                        ),
                    }
                },
            }
        },
    }
}

/// Whether a process is running, and its identifier where it is.
#[derive(Clone, Copy, Debug, PartialEq, Eq, Structural)]
pub enum ProcStatus {
    Terminated,
    Running(u64),
}

fn one_word(w: &str) -> (r: Vec<String>)
    ensures
        views(r@) == seq![w@],
{
    let mut v: Vec<String> = Vec::new();
    v.push(String::from_str(w));
    assert(views(v@) =~= seq![w@]);
    v
}

/// The command that looks up the identifier of a process by its name.
pub fn pid_query(seekable: &str) -> (c: CommandLine)
    ensures
        c.spec_parts() == ("pgrep"@, seq![seekable@]),
{
    CommandLine { executable: String::from_str("pgrep"), args: one_word(seekable) }
}

/// What the run of `pid_query(seekable)` says of the process: a run that
/// exits with an error status means that no process has that name.
pub open spec fn pid_status_of(seekable: Seq<char>, run: CommandRun) -> Result<
    ProcStatus,
    ProcessFault,
> {
    match integer_value_of("pgrep"@, seq![seekable], run) {
        Ok(n) => Ok(ProcStatus::Running(n as u64)),
        Err(ProcessFault::ErrorExitStatus { .. }) => Ok(ProcStatus::Terminated),
        Err(f) => Err(f),
    }
}

/// Gets the status of the process named `seekable` from the run of
/// `pid_query(seekable)`.
pub fn get_pid(seekable: &str, run: CommandRun) -> (r: Result<ProcStatus, ProcessError>)
    ensures
        r matches Ok(s) ==> pid_status_of(seekable@, run) == Ok::<ProcStatus, ProcessFault>(s),
        r matches Err(e) ==> pid_status_of(seekable@, run) == Err::<ProcStatus, ProcessFault>(
            e@,
        ),
{
    let query = pid_query(seekable);
    match get_integer_value_with(query.executable.as_str(), &query.args, run) {
        Ok(n) => Ok(ProcStatus::Running(n)),
        Err(err) => match err {
            ProcessError::ErrorExitStatus { .. } => Ok(ProcStatus::Terminated),
            _ => Err(err),
        },
    }
}

/// The command that prints the seconds elapsed since the process `pid`
/// started.
pub fn age_query(pid: u64) -> (c: CommandLine)
    ensures
        c.spec_parts() == ("ps"@, seq!["-o"@, "etimes="@, "-p"@, decimal(pid as nat)]),
{
    let mut args: Vec<String> = Vec::new();
    args.push(String::from_str("-o"));
    args.push(String::from_str("etimes="));
    args.push(String::from_str("-p"));
    args.push(decimal_string(pid));
    let c = CommandLine { executable: String::from_str("ps"), args };
    assert(views(c.args@) =~= seq!["-o"@, "etimes="@, "-p"@, decimal(pid as nat)]);
    c
}

/// Gets the age in seconds of the process `pid` from the run of
/// `age_query(pid)`.
pub fn get_age(pid: u64, run: CommandRun) -> (r: Result<u64, ProcessError>)
    ensures
        r matches Ok(n) ==> integer_value_of(
            "ps"@,
            seq!["-o"@, "etimes="@, "-p"@, decimal(pid as nat)],
            run,
        ) == Ok::<nat, ProcessFault>(n as nat),
        r matches Err(e) ==> integer_value_of(
            "ps"@,
            seq!["-o"@, "etimes="@, "-p"@, decimal(pid as nat)],
            run,
        ) == Err::<nat, ProcessFault>(e@),
{
    let query = age_query(pid);
    get_integer_value_with(query.executable.as_str(), &query.args, run)
}

/// The command that forcibly ends every process named `name`.
pub fn kill_query(name: &str) -> (c: CommandLine)
    ensures
        c.spec_parts() == ("pkill"@, seq!["-KILL"@, name@]),
{
    let mut args: Vec<String> = Vec::new();
    args.push(String::from_str("-KILL"));
    args.push(String::from_str(name));
    let c = CommandLine { executable: String::from_str("pkill"), args };
    assert(views(c.args@) =~= seq!["-KILL"@, name@]);
    c
}

/// What the run of `kill_query(name)` means: `pkill` exits with 0 where it
/// signalled a process and with 1 where no process matched, that is where
/// the target has already ended; both count as success.
pub open spec fn kill_outcome_of(name: Seq<char>, run: CommandRun) -> Result<(), ProcessFault> {
    match run {
        CommandRun::SpawnFailed { cause } => Err(
            ProcessFault::CannotSpawn { executable_path: "pkill"@, cause: cause@ },
        ),
        CommandRun::NoStdoutHandle => Err(
            ProcessFault::CannotGetStdoutHandle { executable_path: "pkill"@ },
        ),
        CommandRun::WaitFailed { cause } => Err(
            ProcessFault::CannotWait { executable_path: "pkill"@, cause: cause@ },
        ),
        CommandRun::Exited { code, .. } => {
            if code == Some(0i32) || code == Some(1i32) {
                Ok(())
            } else {
                Err(
                    ProcessFault::ErrorExitStatus {
                        executable_path: "pkill"@,
                        input: join_words(seq!["-KILL"@, name]),
                    },
                )
            }
        },
    }
}

/// Interprets the run of `kill_query(name)`.
pub fn kill_outcome(name: &str, run: CommandRun) -> (r: Result<(), ProcessError>)
    ensures
        r is Ok ==> kill_outcome_of(name@, run) == Ok::<(), ProcessFault>(()),
        r matches Err(e) ==> kill_outcome_of(name@, run) == Err::<(), ProcessFault>(e@),
{
    let query = kill_query(name);
    let executable_path = query.executable;
    match run {
        CommandRun::SpawnFailed { cause } => Err(
            ProcessError::CannotSpawn { executable_path, cause },
        ),
        CommandRun::NoStdoutHandle => Err(ProcessError::CannotGetStdoutHandle { executable_path }),
        CommandRun::WaitFailed { cause } => Err(ProcessError::CannotWait { executable_path, cause }),
        CommandRun::Exited { code, .. } => {
            let ended = match code {
                Some(c) => c == 0 || c == 1,
                None => false,
            };
            if ended {
                Ok(())
            } else {
                Err(
                    ProcessError::ErrorExitStatus {
                        executable_path,
                        input: join_with_spaces(&query.args),
                    },
                )
            }
        },
    }
}

/// Errors of launching a program into a process of its own.
#[derive(Clone, Debug)]
pub enum ForkError {
    /// The identifier of the new process never arrived; holds the
    /// description of the channel's error.
    CannotReceivePID(String),
    Other(ProcessError),
}

/// What the launching side received: the identifier of the new process or
/// the error of the launch, or, as `Err`, why nothing arrived.
pub fn fork_outcome(received: Result<Result<u32, ForkError>, String>) -> (r: Result<u32, ForkError>)
    ensures
        received matches Ok(Ok(pid)) ==> r == Ok::<u32, ForkError>(pid),
        received matches Ok(Err(e)) ==> r == Err::<u32, ForkError>(e),
        received matches Err(cause) ==> r == Err::<u32, ForkError>(
            ForkError::CannotReceivePID(cause),
        ),
{
    match received {
        Ok(launched) => launched,
        Err(cause) => Err(ForkError::CannotReceivePID(cause)),
    }
}

impl SourceLoggable for ProcessError {
    open spec fn chain(&self) -> Seq<Seq<char>> {
        match self@.cause() {
            Some(c) => seq![self@.message(), c],
            None => seq![self@.message()],
        }
    }

    fn messages(&self) -> (r: Vec<String>) {
        let mut r: Vec<String> = Vec::new();
        r.push(self.message());
        match self.source() {
            Some(c) => r.push(c),
            None => {},
        }
        assert(views(r@) =~= self.chain());
        r
    }
}

impl SourceLoggable for ForkError {
    open spec fn chain(&self) -> Seq<Seq<char>> {
        match self {
            ForkError::CannotReceivePID(cause) => seq!["CannotTransmitPID"@, cause@],
            ForkError::Other(e) => seq!["Other"@] + e.chain(),
        }
    }

    fn messages(&self) -> (r: Vec<String>) {
        let mut r: Vec<String> = Vec::new();
        match self {
            ForkError::CannotReceivePID(cause) => {
                r.push(String::from_str("CannotTransmitPID"));
                r.push(cause.clone());
            },
            ForkError::Other(e) => {
                r.push(String::from_str("Other"));
                let mut rest = e.messages();
                r.append(&mut rest);
            },
        }
        assert(views(r@) =~= self.chain());
        r
    }
}

/// Killing a target that has already ended reports what killing a running
/// one reports: success, whatever either run printed.
pub proof fn lemma_kill_of_ended_target_is_success(
    name: Seq<char>,
    ended_output: Result<String, String>,
    killed_output: Result<String, String>,
)
    ensures
        kill_outcome_of(name, CommandRun::Exited { code: Some(1i32), first_line: ended_output })
            == kill_outcome_of(
            name,
            CommandRun::Exited { code: Some(0i32), first_line: killed_output },
        ),
        kill_outcome_of(name, CommandRun::Exited { code: Some(1i32), first_line: ended_output })
            == Ok::<(), ProcessFault>(()),
{
}

} // verus!
