//! Values exchanged with the job server.
use vstd::prelude::*;

verus! {

/// A job as claimed from the server.
#[derive(Clone, Debug)]
pub struct Job {
    pub id: i64,
    pub command_argv: Vec<String>,
    pub workdir: String,
    pub name: Option<String>,
    pub tags: Option<Vec<String>>,
}

/// The server's answer to a lease renewal.
#[derive(Clone, Copy, Debug, PartialEq, Eq, Structural)]
pub struct HeartbeatResponse {
    pub cancel_requested: bool,
}

} // verus!
