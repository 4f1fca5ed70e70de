//! Identifiers, messages and endpoint addresses derived from plain values.
use vstd::prelude::*;
use crate::decimal::{dec_int, dec_nat, push_signed, push_unsigned};

verus! {

/// `"job-<id>"`: the run identity of a job.
pub open spec fn run_id_spec(job_id: int) -> Seq<char> {
    seq!['j', 'o', 'b', '-'] + dec_int(job_id)
}

/// `"<hostname>:gpu<N>"` with a device, `"<hostname>:default"` without.
pub open spec fn worker_id_spec(hostname: Seq<char>, gpu: Option<u32>) -> Seq<char> {
    match gpu {
        Some(g) => hostname + seq![':', 'g', 'p', 'u'] + dec_nat(g as nat),
        None => hostname + seq![':', 'd', 'e', 'f', 'a', 'u', 'l', 't'],
    }
}

/// `"Exit code: N"` for a non-zero code, nothing for zero.
pub open spec fn exit_message_spec(code: int) -> Option<Seq<char>> {
    if code != 0 {
        Some(seq!['E', 'x', 'i', 't', ' ', 'c', 'o', 'd', 'e', ':', ' '] + dec_int(code))
    } else {
        None
    }
}

/// The text with every trailing '/' removed.
pub open spec fn trim_slashes(s: Seq<char>) -> Seq<char>
    decreases s.len(),
{
    if s.len() > 0 && s.last() == '/' {
        trim_slashes(s.drop_last())
    } else {
        s
    }
}

/// The run identity of a job: `"job-"` followed by its id in decimal.
pub fn run_id_for(job_id: i64) -> (r: String)
    ensures
        r@ == run_id_spec(job_id as int),
{
    proof { reveal_strlit("job-"); }
    let mut s = String::from_str("job-");
    push_signed(&mut s, job_id);
    s
}

/// The identity under which this agent registers and claims work.
pub fn worker_id_for(hostname: &str, gpu: Option<u32>) -> (r: String)
    ensures
        r@ == worker_id_spec(hostname@, gpu),
{
    proof {
        reveal_strlit(":gpu");
        reveal_strlit(":default");
    }
    let mut s = String::from_str(hostname);
    match gpu {
        Some(g) => {
            s.append(":gpu");
            push_unsigned(&mut s, g as u64);
        },
        None => {
            s.append(":default");
        },
    }
    s
}

/// The error text reported with a terminal exit code.
pub fn exit_message(code: i32) -> (r: Option<String>)
    ensures
        r matches Some(m) ==> exit_message_spec(code as int) == Some(m@),
        r is None <==> exit_message_spec(code as int) is None,
{
    proof { reveal_strlit("Exit code: "); }
    if code != 0 {
        let mut s = String::from_str("Exit code: ");
        push_signed(&mut s, code as i64);
        Some(s)
    } else {
        None
    }
}

/// The server address with trailing slashes removed.
pub fn normalize_base_url(base: &str) -> (r: String)
    ensures
        r@ == trim_slashes(base@),
{
    let len = base.unicode_len();
    let mut end: usize = len;
    proof { assert(base@.subrange(0, end as int) =~= base@); }
    while end > 0 && base.get_char(end - 1) == '/'
        invariant
            end <= base@.len(),
            len == base@.len(),
            trim_slashes(base@) == trim_slashes(base@.subrange(0, end as int)),
        decreases end,
    {
        proof {
            let s = base@.subrange(0, end as int);
            assert(s.drop_last() =~= base@.subrange(0, end - 1));
        }
        end = end - 1;
    }
    proof {
        let s = base@.subrange(0, end as int);
        assert(trim_slashes(s) == s);
    }
    String::from_str(base.substring_char(0, end))
}

/// `<base>/api/v1/workers/register`.
pub fn register_url(base: &str) -> (r: String)
    ensures
        r@ == base@ + "/api/v1/workers/register"@,
{
    String::from_str(base).concat("/api/v1/workers/register")
}

/// `<base>/api/v1/workers/<worker_id>/unregister`.
pub fn unregister_url(base: &str, worker_id: &str) -> (r: String)
    ensures
        r@ == base@ + "/api/v1/workers/"@ + worker_id@ + "/unregister"@,
{
    let mut s = String::from_str(base);
    s.append("/api/v1/workers/");
    s.append(worker_id);
    s.append("/unregister");
    s
}

/// `<base>/api/v1/jobs/claim`.
pub fn claim_url(base: &str) -> (r: String)
    ensures
        r@ == base@ + "/api/v1/jobs/claim"@,
{
    String::from_str(base).concat("/api/v1/jobs/claim")
}

fn job_url(base: &str, job_id: i64, tail: &str) -> (r: String)
    ensures
        r@ == base@ + "/api/v1/jobs/"@ + dec_int(job_id as int) + tail@,
{
    let mut s = String::from_str(base);
    s.append("/api/v1/jobs/");
    push_signed(&mut s, job_id);
    s.append(tail);
    s
}

/// `<base>/api/v1/jobs/<job_id>/heartbeat`.
pub fn heartbeat_url(base: &str, job_id: i64) -> (r: String)
    ensures
        r@ == base@ + "/api/v1/jobs/"@ + dec_int(job_id as int) + "/heartbeat"@,
{
    job_url(base, job_id, "/heartbeat")
}

/// `<base>/api/v1/jobs/<job_id>/complete`.
pub fn complete_url(base: &str, job_id: i64) -> (r: String)
    ensures
        r@ == base@ + "/api/v1/jobs/"@ + dec_int(job_id as int) + "/complete"@,
{
    job_url(base, job_id, "/complete")
}

} // verus!
