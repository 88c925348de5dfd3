//! Operator control: the control protocol and its framing, the dispatch of
//! requests to handlers behind a strict version check, the authoritative
//! run state (running or paused, plus volatile signals), and the operator
//! command line (parsing, routing and exit codes).

pub mod cli;
pub mod control_plane;
pub mod ipc;
pub mod protocol;
pub mod run_state;
