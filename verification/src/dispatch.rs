//! The dispatcher decision for an import request: parse the raw blocklist,
//! then either reject with a conflict because another import is in flight,
//! or accept — answering the caller immediately — and hand back a pending
//! job for the background task to run.
//!
//! Two acquisition checks guard an import, as a deliberate, documented
//! choice: the dispatcher's check here is a best-effort fast rejection whose
//! permit is discarded at once, and the detached job's own `begin` is the
//! authoritative admission. Between the two checks lies a race window at the
//! edges: two back-to-back requests can both pass the dispatcher's check,
//! and it is solely `begin` that then admits only one of them.

use vstd::prelude::*;

use crate::blocklist::parse_blocklist;
use crate::blocklist::parse_blocklist_spec;
use crate::decimal::dec_digits;
use crate::decimal::usize_to_string;
use crate::errors::Error;
use crate::guard::ImportGuard;
use crate::job::ImportJob;

verus! {

/// An inbound import request: the access rule to fill and the raw
/// comma-separated blocklist, exactly as the caller sent them.
#[derive(Clone, Debug)]
pub struct ImportForm {
    pub access_rule_id: String,
    pub blocklist: String,
}

/// What an accepted import request hands back: the body answered to the
/// caller at once, and the pending job for the detached task.
pub struct AcceptedImport {
    pub response: String,
    pub job: ImportJob,
}

/// The body of the accepting response: the caller learns only that an
/// import of `n` IPs started, and is pointed at the logs for progress.
pub open spec fn started_message_spec(n: nat, rule_id: Seq<char>) -> Seq<char> {
    "Started import of "@ + dec_digits(n) + " IPs to Access Rule ID: "@ + rule_id
        + ", check logs for progress."@
}

/// Render the accepting response body.
pub fn started_message(n: usize, rule_id: &str) -> (r: String)
    ensures
        r@ == started_message_spec(n as nat, rule_id@),
{
    let mut s = String::from_str("Started import of ");
    s.append(usize_to_string(n).as_str());
    s.append(" IPs to Access Rule ID: ");
    s.append(rule_id);
    s.append(", check logs for progress.");
    s
}

/// Decide an import request. With the guard busy, the caller gets the
/// conflict error and no job is created; with the guard free, the caller
/// gets the accepting body naming how many IPs will be imported, and a
/// pending job carrying the parsed list in submission order. The
/// dispatcher's fast check takes the permit and discards it at once — the
/// guard is free again afterwards — leaving admission to the job's own
/// `begin`.
pub fn dispatch_import(guard: &mut ImportGuard, form: &ImportForm) -> (r: Result<
    AcceptedImport,
    Error,
>)
    ensures
        old(guard).is_held() ==> (r matches Err(Error::ImportInProgress) && *final(guard) == *old(
            guard,
        )),
        !old(guard).is_held() ==> !final(guard).is_held(),
        !old(guard).is_held() ==> (r matches Ok(a) && a.response@ == started_message_spec(
            parse_blocklist_spec(form.blocklist@).len(),
            form.access_rule_id@,
        ) && a.job.phase is Pending && a.job.next == 0 && a.job.ips.deep_view()
            == parse_blocklist_spec(form.blocklist@) && a.job.access_rule_id@
            == form.access_rule_id@ && a.job.wf()),
{
    let ips = parse_blocklist(form.blocklist.as_str());
    proof {
        assert(ips.deep_view().len() == ips@.len());
    }
    let response = started_message(ips.len(), form.access_rule_id.as_str());
    if !guard.try_acquire() {
        return Err(Error::ImportInProgress);
    }
    guard.release();
    let job = ImportJob::new(form.access_rule_id.clone(), ips);
    Ok(AcceptedImport { response, job })
}

} // verus!
