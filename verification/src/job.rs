//! The job-handle state machine.
//!
//! A handle carries the id and body of a reserved or peeked job together
//! with its `reserved` flag.  Release, bury and touch are only meaningful
//! while the job is still held: `issues_command` decides whether such an
//! operation contacts the server at all, and `finalize` records a
//! successful delete, release or bury.  Delete is always attempted; kick
//! and stats never change the state.

use vstd::prelude::*;

use crate::config::DEFAULT_JOB_PRIORITY;
use crate::numbers::parse_u64_digits;
use crate::numbers::spec_parse_u64;
use crate::response::spec_lookup;
use crate::response::StatsMap;
use crate::scan::string_bytes;

verus! {

/// One job handle: the server-assigned id, the payload, and whether the
/// job is still reserved by this client.
#[derive(Debug)]
pub struct JobState {
    pub id: u64,
    pub body: Vec<u8>,
    pub reserved: bool,
}

/// The state after a finalizing operation (a delete, or a successful
/// release or bury): the same job, no longer held.
pub open spec fn spec_finalized(st: JobState) -> JobState {
    JobState { id: st.id, body: st.body, reserved: false }
}

/// Whether a release, bury or touch on this handle reaches the server:
/// only a still-reserved job is spoken for, anything else is a local no-op
/// that succeeds immediately.
pub open spec fn spec_issues_command(st: JobState) -> bool {
    st.reserved
}

impl JobState {
    /// A handle for a job the server just returned; reservation results
    /// pass `reserved = true`, peeks pass `false`.
    pub fn new(id: u64, body: Vec<u8>, reserved: bool) -> (st: JobState)
        ensures
            st.id == id,
            st.body@ == body@,
            st.reserved == reserved,
    {
        JobState { id, body, reserved }
    }

    /// The server-assigned job id.
    pub fn id(&self) -> (r: u64)
        ensures
            r == self.id,
    {
        self.id
    }

    /// The job payload.
    pub fn body(&self) -> (r: &Vec<u8>)
        ensures
            r@ == self.body@,
    {
        &self.body
    }

    /// Whether the job is still reserved by this client.
    pub fn reserved(&self) -> (r: bool)
        ensures
            r == self.reserved,
    {
        self.reserved
    }

    /// Whether a release, bury or touch must contact the server now.
    pub fn issues_command(&self) -> (r: bool)
        ensures
            r == spec_issues_command(*self),
    {
        self.reserved
    }

    /// Record a finalizing outcome: a delete, or a successful release or
    /// bury.  The handle keeps its id and body but is no longer reserved.
    pub fn finalize(&mut self)
        ensures
            *final(self) == spec_finalized(*old(self)),
    {
        self.reserved = false;
    }
}

/// Once a handle is finalized — for instance after a successful delete —
/// release, bury and touch no longer contact the server: they are local
/// no-ops, and the id and body are untouched.
pub proof fn lemma_finalized_ops_are_noops(st: JobState)
    ensures
        !spec_issues_command(spec_finalized(st)),
        spec_finalized(st).id == st.id,
        spec_finalized(st).body == st.body,
{
}

/// The priority to reuse for the default release and bury variants: the
/// `pri` entry of the job's stats parsed as a 32-bit number, or the default
/// priority when the entry is missing or unparsable.  This fallback never
/// surfaces an error: it only guards a convenience default.
pub fn priority_from_stats(stats: &StatsMap) -> (r: u32)
    ensures
        match spec_lookup(stats.spec_pairs(), "pri"@) {
            Option::None => r == DEFAULT_JOB_PRIORITY,
            Option::Some(v) => match spec_parse_u64(string_bytes(v)) {
                Option::Some(n) => if n <= u32::MAX {
                    r == n
                } else {
                    r == DEFAULT_JOB_PRIORITY
                },
                Option::None => r == DEFAULT_JOB_PRIORITY,
            },
        },
{
    match stats.get("pri") {
        Option::None => DEFAULT_JOB_PRIORITY,
        Option::Some(v) => match parse_u64_digits(v.as_str().as_bytes()) {
            Option::Some(n) => if n <= u32::MAX as u64 {
                n as u32
            } else {
                DEFAULT_JOB_PRIORITY
            },
            Option::None => DEFAULT_JOB_PRIORITY,
        },
    }
}

} // verus!
