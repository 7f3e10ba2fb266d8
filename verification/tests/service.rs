//! Tests of the import guard, the job state machine, the dispatcher
//! decision, the error responses and the upstream URL shapes.

use blocklist_import::dispatch::dispatch_import;
use blocklist_import::dispatch::started_message;
use blocklist_import::dispatch::ImportForm;
use blocklist_import::errors::validate_config;
use blocklist_import::errors::ConfigError;
use blocklist_import::errors::Error;
use blocklist_import::guard::ImportGuard;
use blocklist_import::job::failure_log;
use blocklist_import::job::progress_log;
use blocklist_import::upstream::add_ip_url;
use blocklist_import::upstream::list_access_rules_url;
use blocklist_import::upstream::list_blocklisted_ips_url;
use blocklist_import::upstream::not_found_response;

fn form(rule: &str, blocklist: &str) -> ImportForm {
    ImportForm { access_rule_id: rule.to_string(), blocklist: blocklist.to_string() }
}

#[test]
fn guard_admits_exactly_one_of_many_attempts() {
    let mut guard = ImportGuard::new();
    let mut successes = 0;
    let mut busy = 0;
    for _ in 0..8 {
        if guard.try_acquire() {
            successes += 1;
        } else {
            busy += 1;
        }
    }
    assert_eq!(successes, 1);
    assert_eq!(busy, 7);
}

#[test]
fn held_guard_rejects_import_with_conflict() {
    let mut guard = ImportGuard::new();
    assert!(guard.try_acquire());
    let result = dispatch_import(&mut guard, &form("abc", "10.0.0.1"));
    let err = result.err().expect("a held guard must reject the import");
    assert!(matches!(err, Error::ImportInProgress));
    let (status, message) = err.into_response();
    assert_eq!(status, 409);
    assert_eq!(message, "Import already in progress");
    // No job was created; the guard is still held, so a retry conflicts too.
    assert!(dispatch_import(&mut guard, &form("abc", "10.0.0.1")).is_err());
}

#[test]
fn job_continues_past_failure() {
    let mut guard = ImportGuard::new();
    let accepted = dispatch_import(&mut guard, &form("abc", "1.1.1.1,2.2.2.2,3.3.3.3"))
        .ok()
        .expect("a free guard must admit the import");
    let mut job = accepted.job;
    assert!(job.begin(&mut guard));
    let mut submitted = Vec::new();
    while let Some(ip) = job.next_ip() {
        // The submission of the second IP fails; the job must go on.
        let succeeded = ip != "2.2.2.2";
        submitted.push(ip);
        job.advance(succeeded);
    }
    job.finish(&mut guard);
    assert_eq!(submitted, vec!["1.1.1.1", "2.2.2.2", "3.3.3.3"]);
}

#[test]
fn guard_is_free_again_after_a_job_with_failures() {
    let mut guard = ImportGuard::new();
    let accepted = dispatch_import(&mut guard, &form("abc", "1.1.1.1,2.2.2.2")).ok().unwrap();
    let mut job = accepted.job;
    assert!(job.begin(&mut guard));
    while let Some(_ip) = job.next_ip() {
        job.advance(false);
    }
    job.finish(&mut guard);
    // A subsequent import request succeeds.
    let again = dispatch_import(&mut guard, &form("def", "4.4.4.4"));
    assert!(again.is_ok());
}

#[test]
fn import_end_to_end_submits_in_order() {
    let mut guard = ImportGuard::new();
    let accepted = dispatch_import(&mut guard, &form("abc", "10.0.0.1,10.0.0.2")).ok().unwrap();
    assert_eq!(
        accepted.response,
        "Started import of 2 IPs to Access Rule ID: abc, check logs for progress."
    );
    let mut job = accepted.job;
    assert!(job.begin(&mut guard));
    let mut upstream_calls = Vec::new();
    while let Some(ip) = job.next_ip() {
        upstream_calls.push(ip);
        job.advance(true);
    }
    job.finish(&mut guard);
    assert_eq!(upstream_calls, vec!["10.0.0.1", "10.0.0.2"]);
}

#[test]
fn empty_blocklist_starts_an_import_of_zero_ips() {
    let mut guard = ImportGuard::new();
    let accepted = dispatch_import(&mut guard, &form("abc", "")).ok().unwrap();
    assert_eq!(
        accepted.response,
        "Started import of 0 IPs to Access Rule ID: abc, check logs for progress."
    );
    let mut job = accepted.job;
    assert!(job.begin(&mut guard));
    assert!(job.next_ip().is_none());
    job.finish(&mut guard);
}

#[test]
fn upstream_error_maps_to_bad_gateway() {
    let (status, message) = Error::ZoraxyApiError("connection refused".to_string()).into_response();
    assert_eq!(status, 502);
    assert_eq!(message, "Zoraxy API error: connection refused");
}

#[test]
fn pending_job_rejected_by_begin_never_runs() {
    let mut guard = ImportGuard::new();
    let accepted = dispatch_import(&mut guard, &form("abc", "1.1.1.1")).ok().unwrap();
    // Another job takes the permit before this one begins.
    assert!(guard.try_acquire());
    let mut job = accepted.job;
    assert!(!job.begin(&mut guard));
    assert!(job.next_ip().is_none());
}

#[test]
fn started_message_renders_exactly() {
    assert_eq!(
        started_message(17, "rule-7"),
        "Started import of 17 IPs to Access Rule ID: rule-7, check logs for progress."
    );
}

#[test]
fn log_lines_render_exactly() {
    assert_eq!(
        failure_log("abc", "10.0.0.1", "timed out"),
        "Failed to import IP 10.0.0.1 to Access Rule ID: abc: timed out"
    );
    assert_eq!(progress_log(2, 5, "abc"), "Importing IP 2/5 to Access Rule ID: abc");
}

#[test]
fn upstream_urls_render_exactly() {
    assert_eq!(
        add_ip_url(8080, "abc"),
        "http://localhost:8080/plugin/api/blacklist/ip/add?id=abc"
    );
    assert_eq!(list_access_rules_url(80), "http://localhost:80/plugin/api/access/list");
    assert_eq!(
        list_blocklisted_ips_url(9000, "r1"),
        "http://localhost:9000/plugin/api/blacklist/list?id=r1&type=ip"
    );
}

#[test]
fn not_found_is_404() {
    let (status, body) = not_found_response();
    assert_eq!(status, 404);
    assert_eq!(body, "Not Found");
}

#[test]
fn config_validation_reports_whats_missing() {
    assert!(matches!(validate_config(None, Some(8080)), Err(ConfigError::MissingApiKey)));
    assert!(matches!(validate_config(None, None), Err(ConfigError::MissingApiKey)));
    assert!(matches!(
        validate_config(Some("key".to_string()), None),
        Err(ConfigError::MissingZoraxyPort)
    ));
    let ok = validate_config(Some("key".to_string()), Some(8080));
    assert_eq!(ok.ok(), Some(("key".to_string(), 8080)));
}

#[test]
fn introspection_names_the_plugin_and_its_permissions() {
    let info = blocklist_import::plugin::introspect();
    assert_eq!(info.id, "com.anthonyrubick.zoraxy-blocklist-manager");
    assert_eq!(info.name, "Blocklist Import Plugin");
    assert_eq!(info.version, (1, 0, 0));
    assert_eq!(info.ui_path, "/");
    assert_eq!(info.permitted_endpoints.len(), 2);
    assert_eq!(info.permitted_endpoints[0].method, "POST");
    assert_eq!(info.permitted_endpoints[0].endpoint, "/plugin/api/blacklist/ip/add");
    assert_eq!(info.permitted_endpoints[1].method, "GET");
    assert_eq!(info.permitted_endpoints[1].endpoint, "/plugin/api/access/list");
}
