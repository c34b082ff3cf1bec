//! The errors that end the program.
use vstd::prelude::*;
use crate::log::SourceLoggable;
use crate::process::{ForkError, ProcessError};
use crate::text::views;

verus! {

/// The errors the program cannot recover from.
#[derive(Clone, Debug)]
pub enum FatalError {
    GameServerForkError(ForkError),
    ExternalCommandError(ProcessError),
}

impl FatalError {
    pub open spec fn spec_message(&self) -> Seq<char> {
        match self {
            FatalError::GameServerForkError(_) => "could not launch game server into an independent process"@,
            FatalError::ExternalCommandError(_) => "failed to execute external command"@,
        }
    }

    /// The one-line description of the error.
    pub fn message(&self) -> (r: String)
        ensures
            r@ == self.spec_message(),
    {
        match self {
            FatalError::GameServerForkError(_) => String::from_str(
                "could not launch game server into an independent process",
            ),
            FatalError::ExternalCommandError(_) => String::from_str(
                "failed to execute external command",
            ),
        }
    }
}

impl SourceLoggable for FatalError {
    open spec fn chain(&self) -> Seq<Seq<char>> {
        match self {
            FatalError::GameServerForkError(e) => seq![self.spec_message()] + e.chain(),
            FatalError::ExternalCommandError(e) => seq![self.spec_message()] + e.chain(),
        }
    }

    fn messages(&self) -> (r: Vec<String>) {
        let mut r: Vec<String> = Vec::new();
        r.push(self.message());
        let mut rest = match self {
            FatalError::GameServerForkError(e) => e.messages(),
            FatalError::ExternalCommandError(e) => e.messages(),
        };
        r.append(&mut rest);
        assert(views(r@) =~= self.chain());
        r
    }
}

impl From<ProcessError> for FatalError {
    fn from(value: ProcessError) -> (r: FatalError) {
        FatalError::ExternalCommandError(value)
    }
}

impl vstd::std_specs::convert::FromSpecImpl<ProcessError> for FatalError {
    open spec fn obeys_from_spec() -> bool {
        true
    }

    open spec fn from_spec(v: ProcessError) -> FatalError {
        FatalError::ExternalCommandError(v)
    }
}

impl From<ForkError> for FatalError {
    fn from(value: ForkError) -> (r: FatalError) {
        FatalError::GameServerForkError(value)
    }
}

impl vstd::std_specs::convert::FromSpecImpl<ForkError> for FatalError {
    open spec fn obeys_from_spec() -> bool {
        true
    }

    open spec fn from_spec(v: ForkError) -> FatalError {
        FatalError::GameServerForkError(v)
    }
}

} // verus!
