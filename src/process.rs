//! Decisions of the process runner: what to spawn, how to read an exit
//! status, and how to escalate termination of a job's process group.
use vstd::prelude::*;
use crate::decimal::{dec_int, signed_to_string};

verus! {

/// Code reported when a process's own exit status is not known, such as
/// when a signal ended it.
pub const UNKNOWN_EXIT_CODE: i32 = -1;

/// Seconds a process group is given to end after the terminate signal.
pub const GRACE_SECS: u64 = 5;

/// The exit code for a status whose own code is `code` (none when a signal ended it).
pub open spec fn exit_code_spec(code: Option<i32>) -> i32 {
    match code {
        Some(c) => c,
        None => UNKNOWN_EXIT_CODE,
    }
}

/// The exit code to report for a finished process.
pub fn exit_code_of(code: Option<i32>) -> (r: i32)
    ensures
        r == exit_code_spec(code),
{
    match code {
        Some(c) => c,
        None => UNKNOWN_EXIT_CODE,
    }
}

/// The process group of a child that leads its own group: its id, when that
/// id fits a signed group id.
pub fn group_of_pid(pid: u32) -> (r: Option<i32>)
    ensures
        pid <= i32::MAX ==> r == Some(pid as i32),
        pid > i32::MAX ==> r is None,
{
    if pid <= i32::MAX as u32 {
        Some(pid as i32)
    } else {
        None
    }
}

/// Why a job's process could not be started.
#[derive(Clone, Copy, Debug, PartialEq, Eq, Structural)]
pub enum StartError {
    EmptyCommand,
}

impl StartError {
    /// The error's text.
    pub fn message(&self) -> (r: String)
        ensures
            r@ == "Empty command"@,
    {
        String::from_str("Empty command")
    }
}

/// What to spawn: the program, its arguments, and the variables added to its environment.
pub struct SpawnPlan {
    pub program: String,
    pub args: Vec<String>,
    pub env: Vec<(String, String)>,
}

/// The environment a job's process receives, as name and value pairs.
pub open spec fn job_env_spec(job_id: int, run_dir: Seq<char>, run_id: Seq<char>) -> Seq<(Seq<char>, Seq<char>)> {
    seq![
        ("JOB_ID"@, dec_int(job_id)),
        ("RUN_DIR"@, run_dir),
        ("RUN_ID"@, run_id),
    ]
}

pub open spec fn pairs_view(v: Seq<(String, String)>) -> Seq<(Seq<char>, Seq<char>)> {
    v.map_values(|p: (String, String)| (p.0@, p.1@))
}

fn copy_strings(v: &[String], from: usize) -> (r: Vec<String>)
    requires
        from <= v@.len(),
    ensures
        r@ == v@.subrange(from as int, v@.len() as int),
{
    let mut out: Vec<String> = Vec::new();
    let mut i: usize = from;
    while i < v.len()
        invariant
            from <= i <= v@.len(),
            out@ =~= v@.subrange(from as int, i as int),
        decreases v@.len() - i,
    {
        let item: String = v[i].clone();
        proof { assert(item == v@[i as int]); }
        let ghost before = out@;
        out.push(item);
        i = i + 1;
        proof {
            assert(out@ =~= before.push(v@[i - 1]));
            assert(v@.subrange(from as int, i as int) =~= v@.subrange(from as int, i - 1).push(v@[i - 1]));
        }
    }
    out
}

/// Plans the spawn of a job: its first word is the program, the rest its
/// arguments; it fails on an empty command, and nothing is then spawned.
pub fn plan_spawn(command_argv: &Vec<String>, run_dir: &str, job_id: i64, run_id: &str) -> (r: Result<SpawnPlan, StartError>)
    ensures
        command_argv@.len() == 0 <==> r is Err,
        r matches Err(e) ==> e == StartError::EmptyCommand,
        r matches Ok(p) ==> {
            &&& p.program@ == command_argv@[0]@
            &&& p.args@ == command_argv@.drop_first()
            &&& pairs_view(p.env@) == job_env_spec(job_id as int, run_dir@, run_id@)
        },
{
    if command_argv.len() == 0 {
        return Err(StartError::EmptyCommand);
    }
    let program = command_argv[0].clone();
    let args = copy_strings(command_argv.as_slice(), 1);
    let mut env: Vec<(String, String)> = Vec::new();
    env.push((String::from_str("JOB_ID"), signed_to_string(job_id)));
    env.push((String::from_str("RUN_DIR"), String::from_str(run_dir)));
    env.push((String::from_str("RUN_ID"), String::from_str(run_id)));
    proof {
        assert(command_argv@.subrange(1, command_argv@.len() as int) =~= command_argv@.drop_first());
        assert(pairs_view(env@) =~= job_env_spec(job_id as int, run_dir@, run_id@));
    }
    Ok(SpawnPlan { program, args, env })
}

/// What has happened so far while a process is being killed.
#[derive(Clone, Copy, Debug, PartialEq, Eq, Structural)]
pub enum KillEvent {
    /// The kill is requested.
    Begin,
    /// The grace period after the terminate signal ended: the direct child's
    /// exit status code if it has ended (`Some(None)`: ended by a signal),
    /// `None` if it is still running; and whether any member of its process
    /// group is still alive.
    GraceOver { status: Option<Option<i32>>, group_alive: bool },
    /// The direct child was killed and waited for; its status code.
    Reaped { status: Option<i32> },
}

/// The next thing to do while killing a process.
#[derive(Clone, Copy, Debug, PartialEq, Eq, Structural)]
pub enum KillAction {
    /// Send the terminate signal to the group, wait the grace period, then
    /// check the child and whether the group still has members.
    TerminateGroup { pgid: i32, grace_secs: u64 },
    /// Send the kill signal to the group, then kill and wait for the direct child.
    ForceGroupThenReap { pgid: i32 },
    /// Kill and wait for the direct child only.
    ReapChild,
    /// The kill is over with this exit code.
    Done { code: i32 },
}

/// The termination escalation: graceful signal to the whole group, a grace
/// period, then the forcible signal to the whole group if any member of it,
/// or the direct child, is left; without a group, the direct child alone is
/// killed and waited for.
pub open spec fn kill_next(pgid: Option<i32>, has_child: bool, e: KillEvent) -> KillAction {
    match e {
        KillEvent::Begin => match pgid {
            Some(g) => KillAction::TerminateGroup { pgid: g, grace_secs: GRACE_SECS },
            None => if has_child { KillAction::ReapChild } else { KillAction::Done { code: UNKNOWN_EXIT_CODE } },
        },
        KillEvent::GraceOver { status, group_alive } => match pgid {
            Some(g) => match status {
                Some(code) => if group_alive {
                    KillAction::ForceGroupThenReap { pgid: g }
                } else {
                    KillAction::Done { code: exit_code_spec(code) }
                },
                None => KillAction::ForceGroupThenReap { pgid: g },
            },
            None => match status {
                Some(code) => KillAction::Done { code: exit_code_spec(code) },
                None => KillAction::ReapChild,
            },
        },
        KillEvent::Reaped { status } => KillAction::Done { code: exit_code_spec(status) },
    }
}

/// One step of killing a process: `pgid` is its tracked group, if any, and
/// `has_child` whether a child is held.
pub fn kill_step(pgid: Option<i32>, has_child: bool, e: KillEvent) -> (r: KillAction)
    ensures
        r == kill_next(pgid, has_child, e),
{
    match e {
        KillEvent::Begin => match pgid {
            Some(g) => KillAction::TerminateGroup { pgid: g, grace_secs: GRACE_SECS },
            None => if has_child { KillAction::ReapChild } else { KillAction::Done { code: UNKNOWN_EXIT_CODE } },
        },
        KillEvent::GraceOver { status, group_alive } => match pgid {
            Some(g) => match status {
                Some(code) => if group_alive {
                    KillAction::ForceGroupThenReap { pgid: g }
                } else {
                    KillAction::Done { code: exit_code_of(code) }
                },
                None => KillAction::ForceGroupThenReap { pgid: g },
            },
            None => match status {
                Some(code) => KillAction::Done { code: exit_code_of(code) },
                None => KillAction::ReapChild,
            },
        },
        KillEvent::Reaped { status } => KillAction::Done { code: exit_code_of(status) },
    }
}

/// What to do on an operator interrupt.
#[derive(Clone, Copy, Debug, PartialEq, Eq, Structural)]
pub enum InterruptAction {
    /// Set the shutdown flag; the loop observes it at its next check.
    RequestShutdown,
    /// Terminate the agent at once.
    ForceExit,
}

/// The response to an interrupt, given whether shutdown was already requested.
pub fn on_interrupt(shutdown_requested: bool) -> (r: InterruptAction)
    ensures
        !shutdown_requested ==> r == InterruptAction::RequestShutdown,
        shutdown_requested ==> r == InterruptAction::ForceExit,
{
    if shutdown_requested { InterruptAction::ForceExit } else { InterruptAction::RequestShutdown }
}

} // verus!
