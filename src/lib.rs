//! Supervision of a long-running game server process: the lifecycle state
//! machine that decides when to spawn, probe, kill and restart it, the
//! reading of process facts from external commands, the fan-out of its
//! output, and the reporting of errors with their causes.
pub mod config;
pub mod fatal;
pub mod health;
pub mod log;
pub mod output;
pub mod process;
pub mod rds;
pub mod supervisor;
pub mod text;
