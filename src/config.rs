//! How the game server is launched and probed.
use vstd::prelude::*;
use crate::process::CommandLine;
use crate::text::{decimal, decimal_string, views};

verus! {

/// The name of the game server's executable, by which it is looked up and
/// killed.
pub const GAME_SERVER_NAME: &'static str = "RustDedicated";

/// Where the game server's executable is launched from by default.
pub const GAME_SERVER_PATH: &'static str = "./RustDedicated";

/// The environment variable that holds the remote console password.
pub const PASSWORD_VARIABLE: &'static str = "RCON_PASSWORD";

/// The port of the game server's remote console, which the health probe
/// connects to on the loopback address.
pub const RCON_PORT: u16 = 28016;

/// How long health checks are suppressed after a spawn, in milliseconds.
pub const GRACE_PERIOD_MS: u64 = 300000;

/// How often health is checked, in milliseconds.
pub const POLL_INTERVAL_MS: u64 = 1000;

/// How long one health probe may take, in milliseconds.
pub const PROBE_TIMEOUT_MS: u64 = 500;

/// How many output lines a sink buffers before it drops the oldest.
pub const SINK_CAPACITY: usize = 1024;

/// Errors of the configuration.
#[derive(Clone, Copy, Debug, PartialEq, Eq, Structural)]
pub enum ConfigError {
    /// No remote console password is set: there is nothing to do.
    MissingPassword,
}

impl ConfigError {
    pub open spec fn spec_message(self) -> Seq<char> {
        match self {
            ConfigError::MissingPassword => "RCON_PASSWORD is not set; nothing to do"@,
        }
    }

    /// The informational message for the condition.
    pub fn message(&self) -> (r: String)
        ensures
            r@ == self.spec_message(),
    {
        match self {
            ConfigError::MissingPassword => String::from_str(
                "RCON_PASSWORD is not set; nothing to do",
            ),
        }
    }
}

/// The arguments the game server is launched with: batch mode, and the
/// remote console's port, password and web mode.
pub open spec fn launch_args(password: Seq<char>) -> Seq<Seq<char>> {
    seq![
        "-batchmode"@,
        "+rcon.port"@,
        decimal(RCON_PORT as nat),
        "+rcon.password"@,
        password,
        "+rcon.web"@,
        "1"@,
    ]
}

/// The command that launches the game server from `executable` with the
/// remote console password `password`; without a password there is
/// nothing to launch.
pub fn launch_command(executable: &str, password: Option<String>) -> (r: Result<
    CommandLine,
    ConfigError,
>)
    ensures
        password is None ==> r == Err::<CommandLine, ConfigError>(ConfigError::MissingPassword),
        password matches Some(p) ==> r matches Ok(c) && c.spec_parts() == (
            executable@,
            launch_args(p@),
        ),
{
    match password {
        None => Err(ConfigError::MissingPassword),
        Some(p) => {
            let ghost pw = p@;
            let mut args: Vec<String> = Vec::new();
            args.push(String::from_str("-batchmode"));
            args.push(String::from_str("+rcon.port"));
            args.push(decimal_string(RCON_PORT as u64));
            args.push(String::from_str("+rcon.password"));
            args.push(p);
            args.push(String::from_str("+rcon.web"));
            args.push(String::from_str("1"));
            assert(views(args@) =~= launch_args(pw));
            Ok(CommandLine { executable: String::from_str(executable), args })
        },
    }
}

} // verus!
