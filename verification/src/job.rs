//! The import job: an admitted unit of work that walks its IP list strictly
//! in order, submitting one IP at a time, and continues past individual
//! failures. Its phases are `Pending` (not yet admitted), `Running`
//! (holding the guard's permit) and `Completed` (terminal; individual IP
//! failures never fail the job).
//!
//! The job is a state machine: the loop that performs the upstream calls
//! lives outside the library and only asks `next_ip` what to submit, reports
//! each outcome through `advance`, and closes with `finish`. Every decision
//! — what to submit, in what order, and that a failure skips nothing — is
//! verified here.

use vstd::prelude::*;

use crate::decimal::dec_digits;
use crate::decimal::usize_to_string;
use crate::guard::ImportGuard;

verus! {

/// Where an import job stands in its life cycle.
#[derive(Clone, Copy, Debug, PartialEq, Eq, Structural)]
pub enum JobPhase {
    Pending,
    Running,
    Completed,
}

/// One bulk import: the access rule to fill, the IPs to submit in order, and
/// the progress made so far. The job owns its captured copies of the rule id
/// and the list; nothing is shared with the request that created it.
pub struct ImportJob {
    pub access_rule_id: String,
    pub ips: Vec<String>,
    pub next: usize,
    pub phase: JobPhase,
}

/// The state after one submission is recorded: the job moves to the next IP.
/// The `succeeded` flag is deliberately ignored — a failed submission is
/// logged by the caller and skips nothing.
pub open spec fn advance_post(j: ImportJob, succeeded: bool) -> ImportJob {
    ImportJob { next: (j.next + 1) as usize, ..j }
}

/// The state after a whole run of submissions with the given outcomes.
pub open spec fn job_after(j: ImportJob, outcomes: Seq<bool>) -> ImportJob
    decreases outcomes.len(),
{
    if outcomes.len() == 0 {
        j
    } else {
        job_after(advance_post(j, outcomes[0]), outcomes.drop_first())
    }
}

impl ImportJob {
    /// The job's progress counter never passes the end of its list.
    pub open spec fn wf(&self) -> bool {
        self.next <= self.ips@.len() && (self.phase is Pending ==> self.next == 0)
    }

    /// A fresh, not yet admitted job for one access rule and one IP list.
    pub fn new(access_rule_id: String, ips: Vec<String>) -> (j: ImportJob)
        ensures
            j.phase is Pending,
            j.next == 0,
            j.access_rule_id == access_rule_id,
            j.ips == ips,
            j.wf(),
    {
        ImportJob { access_rule_id, ips, next: 0, phase: JobPhase::Pending }
    }

    /// The authoritative admission check: acquire the guard's permit, without
    /// blocking, before any submission. Succeeds exactly when the permit is
    /// free; a rejected job stays pending and never runs.
    pub fn begin(&mut self, guard: &mut ImportGuard) -> (started: bool)
        requires
            old(self).phase is Pending,
        ensures
            started == !old(guard).is_held(),
            final(guard).is_held(),
            !started ==> *final(guard) == *old(guard) && *final(self) == *old(self),
            started ==> *final(self) == (ImportJob { phase: JobPhase::Running, ..*old(self) }),
    {
        let acquired = guard.try_acquire();
        if acquired {
            self.phase = JobPhase::Running;
        }
        acquired
    }

    /// The IP to submit next, while the job is running and the list is not
    /// exhausted; `None` once there is nothing left to submit.
    pub fn next_ip(&self) -> (r: Option<String>)
        ensures
            r is Some <==> (self.phase is Running && self.next < self.ips@.len()),
            r is Some ==> r->0 == self.ips@[self.next as int],
    {
        if self.phase == JobPhase::Running && self.next < self.ips.len() {
            Some(self.ips[self.next].clone())
        } else {
            None
        }
    }

    /// Record the outcome of one submission. The job moves to the next IP
    /// whether the submission succeeded or failed: a single bad IP never
    /// aborts the batch.
    pub fn advance(&mut self, succeeded: bool)
        requires
            old(self).phase is Running,
            old(self).next < old(self).ips@.len(),
        ensures
            *final(self) == advance_post(*old(self), succeeded),
    {
        // Binding the length pins it as a machine integer, so the increment
        // cannot overflow.
        let len = self.ips.len();
        proof {
            assert(self.next < len);
        }
        self.next = self.next + 1;
    }

    /// Close a job that has walked its whole list: the job is terminal and
    /// the guard's permit is given back unconditionally, so a later import
    /// can be admitted.
    pub fn finish(&mut self, guard: &mut ImportGuard)
        requires
            old(self).phase is Running,
            old(self).next == old(self).ips@.len(),
        ensures
            *final(self) == (ImportJob { phase: JobPhase::Completed, ..*old(self) }),
            !final(guard).is_held(),
    {
        self.phase = JobPhase::Completed;
        guard.release();
    }
}

/// Law: whatever the outcomes of the submissions — failures at any
/// positions included — a running job advances past every one of them: after
/// recording `outcomes.len()` outcomes its counter has moved exactly that
/// far, and its rule, list and phase are untouched. A failure on one IP
/// therefore never prevents the attempts on the IPs after it.
pub proof fn lemma_job_continues_past_failure(j: ImportJob, outcomes: Seq<bool>)
    requires
        j.phase is Running,
        j.next + outcomes.len() <= j.ips@.len() <= usize::MAX,
    ensures
        ({
            let done = job_after(j, outcomes);
            done.next == j.next + outcomes.len() && done.ips == j.ips && done.access_rule_id
                == j.access_rule_id && done.phase == j.phase
        }),
    decreases outcomes.len(),
{
    if outcomes.len() > 0 {
        lemma_job_continues_past_failure(advance_post(j, outcomes[0]), outcomes.drop_first());
    }
}

/// The log line for one submission that failed: the job records the access
/// rule, the IP and the upstream error, then moves on.
pub open spec fn failure_log_spec(rule_id: Seq<char>, ip: Seq<char>, err: Seq<char>) -> Seq<char> {
    "Failed to import IP "@ + ip + " to Access Rule ID: "@ + rule_id + ": "@ + err
}

/// Render the log line for one failed submission.
pub fn failure_log(rule_id: &str, ip: &str, err: &str) -> (r: String)
    ensures
        r@ == failure_log_spec(rule_id@, ip@, err@),
{
    let mut s = String::from_str("Failed to import IP ");
    s.append(ip);
    s.append(" to Access Rule ID: ");
    s.append(rule_id);
    s.append(": ");
    s.append(err);
    s
}

/// The log line announcing submission `pos` of `total` (one-based).
pub open spec fn progress_log_spec(pos: nat, total: nat, rule_id: Seq<char>) -> Seq<char> {
    "Importing IP "@ + dec_digits(pos) + "/"@ + dec_digits(total) + " to Access Rule ID: "@
        + rule_id
}

/// Render the log line announcing one submission.
pub fn progress_log(pos: usize, total: usize, rule_id: &str) -> (r: String)
    ensures
        r@ == progress_log_spec(pos as nat, total as nat, rule_id@),
{
    let mut s = String::from_str("Importing IP ");
    s.append(usize_to_string(pos).as_str());
    s.append("/");
    s.append(usize_to_string(total).as_str());
    s.append(" to Access Rule ID: ");
    s.append(rule_id);
    s
}

} // verus!
