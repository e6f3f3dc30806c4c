use caisson::clock::{format_timestamp, Timestamp};
use caisson::domain::{
    HealthCheckKind, HealthCheckOutcome, RuntimeModeKind, UpdateAttemptRecord, UpdateAttemptStatus,
    ValidationIssue,
};
use caisson::health::{
    evaluate_containers, health_poll_step, issue_from_health_report, observe_container,
    ContainerHealthState, HealthPoll, ObservedContainer, PollState, ReportedHealth,
};
use caisson::persistence::{sanitize_path_component, FilesystemStore, PersistenceError};
use caisson::report::{
    audit_kind_label, exit_code_for_update_status, update_status_label, update_summary_lines,
};
use caisson::text::decimal_string;
use caisson::update::{is_missing_or_not_modified, rollback_container_name, RuntimeFailure};
use caisson::version::SemVer;
use caisson::report::unknown_update;

fn time(text: &str) -> Timestamp {
    let t = time::OffsetDateTime::parse(text, &time::format_description::well_known::Rfc3339)
        .expect("timestamp");
    Timestamp { unix_nanos: t.unix_timestamp_nanos(), offset_seconds: t.offset().whole_seconds() }
}

fn container(name: &str, running: bool, health: Option<ContainerHealthState>) -> ObservedContainer {
    ObservedContainer {
        container_id: format!("{name}-id"),
        name: name.to_string(),
        image_reference: None,
        running,
        health,
    }
}

#[test]
fn sanitizing_a_path_component_twice_changes_nothing() {
    let once = sanitize_path_component("front end/../x");
    assert_eq!(once, "front_end_.._x");
    assert_eq!(sanitize_path_component(&once), once);
}

#[test]
fn the_store_lays_out_records_under_its_root() {
    let store = FilesystemStore::new("/var/lib/caisson".to_string());
    assert_eq!(store.root(), "/var/lib/caisson");
    assert_eq!(store.service_state_path("web/app"), "/var/lib/caisson/service-states/web_app.json");
    assert_eq!(store.audit_log_path(), "/var/lib/caisson/audit/events.jsonl");
    assert_eq!(
        store.update_attempt_path(0x12),
        "/var/lib/caisson/update-attempts/00000000-0000-0000-0000-000000000012.json"
    );
    assert_eq!(
        store.staging_dir_for(1),
        "/var/lib/caisson/staging/00000000-0000-0000-0000-000000000001"
    );
    let dirs = store.layout_dirs();
    assert_eq!(dirs.len(), 8);
    assert_eq!(dirs[0], "/var/lib/caisson");
    let error = PersistenceError::CreateDir { path: "/x".into(), message: "denied".into() };
    assert_eq!(error.message(), "failed to create directory `/x`: denied");
}

#[test]
fn identifiers_render_as_uuids() {
    let id = 0x0123_4567_89ab_cdef_0011_2233_4455_6677u128;
    assert_eq!(unknown_update(id), "update `01234567-89ab-cdef-0011-223344556677` was not found");
    assert_eq!(rollback_container_name("frontend", id), "frontend-caisson-rollback-01234567");
}

#[test]
fn timestamps_render_as_rfc3339_or_unix_seconds() {
    let t = time("2026-03-17T11:00:00Z");
    assert_eq!(format_timestamp(t), "2026-03-17T11:00:00Z");
    let offset = time("2026-03-17T11:00:00+02:00");
    assert_eq!(offset.offset_seconds, 7200);
    assert_eq!(format_timestamp(offset), "2026-03-17T11:00:00+02:00");
    let far = Timestamp { unix_nanos: 400_000_000_000_000_000_000, offset_seconds: 0 };
    assert_eq!(format_timestamp(far), "400000000000");
    let before = Timestamp { unix_nanos: -1_500_000_000 - 1_000_000_000_000_000_000 * 100, offset_seconds: 0 };
    assert_eq!(format_timestamp(before), "-100000000002");
}

#[test]
fn versions_render_with_pre_release_and_build() {
    let v = SemVer { major: 1, minor: 2, patch: 3, pre: "rc.1".into(), build: "build.5".into() };
    assert_eq!(v.text(), "1.2.3-rc.1+build.5");
    let plain = SemVer { major: 0, minor: 10, patch: 0, pre: String::new(), build: String::new() };
    assert_eq!(plain.text(), "0.10.0");
}

#[test]
fn running_checks_pass_when_every_container_runs() {
    let all = vec![container("a", true, None), container("b", true, None)];
    assert_eq!(
        evaluate_containers(&all, HealthCheckKind::Running),
        PollState::Passed("2 container(s) are running".into())
    );
    let some = vec![container("a", true, None), container("b", false, None)];
    assert_eq!(
        evaluate_containers(&some, HealthCheckKind::Running),
        PollState::Pending("waiting for running containers: a (running), b (not-running)".into())
    );
    assert_eq!(
        evaluate_containers(&[], HealthCheckKind::Running),
        PollState::Pending("waiting for containers to appear".into())
    );
}

#[test]
fn container_health_checks_read_docker_health() {
    let unhealthy = vec![
        container("a", true, Some(ContainerHealthState::Healthy)),
        container("b", true, Some(ContainerHealthState::Unhealthy)),
    ];
    assert_eq!(
        evaluate_containers(&unhealthy, HealthCheckKind::ContainerHealth),
        PollState::Failed("containers reported unhealthy: b".into())
    );
    let missing = vec![container("a", true, None)];
    assert_eq!(
        evaluate_containers(&missing, HealthCheckKind::ContainerHealth),
        PollState::Failed("containers are missing Docker health status: a".into())
    );
    let starting = vec![container("a", true, Some(ContainerHealthState::Starting))];
    assert_eq!(
        evaluate_containers(&starting, HealthCheckKind::ContainerHealth),
        PollState::Pending("waiting for healthy containers: a".into())
    );
    let healthy = vec![container("a", true, Some(ContainerHealthState::Healthy))];
    assert_eq!(
        evaluate_containers(&healthy, HealthCheckKind::ContainerHealth),
        PollState::Passed("1 container(s) reported healthy".into())
    );
}

#[test]
fn a_pending_poll_times_out_only_at_the_deadline() {
    let now = time("2026-03-17T11:00:00Z");
    let starting = vec![container("a", true, Some(ContainerHealthState::Starting))];
    assert_eq!(health_poll_step(HealthCheckKind::ContainerHealth, Ok(starting.clone()), false, now), HealthPoll::Wait);
    match health_poll_step(HealthCheckKind::ContainerHealth, Ok(starting), true, now) {
        HealthPoll::Report(report) => {
            assert_eq!(report.outcome, HealthCheckOutcome::TimedOut);
            assert_eq!(report.message, "waiting for healthy containers: a");
            let issue = issue_from_health_report(&report);
            assert_eq!(issue.code, "health_check.timed_out");
        }
        HealthPoll::Wait => panic!("expected a report"),
    }
    match health_poll_step(HealthCheckKind::Running, Err("daemon down".into()), true, now) {
        HealthPoll::Report(report) => assert_eq!(report.message, "waiting for runtime state: daemon down"),
        HealthPoll::Wait => panic!("expected a report"),
    }
}

#[test]
fn inspected_containers_lose_their_leading_slash() {
    let c = observe_container(
        Some("abc".into()),
        Some("//frontend".into()),
        Some("example/frontend:current".into()),
        None,
        Some(ReportedHealth::Other),
    );
    assert_eq!(c.container_id, "abc");
    assert_eq!(c.name, "frontend");
    assert!(!c.running);
    assert_eq!(c.health, None);
    let d = observe_container(None, None, None, Some(true), Some(ReportedHealth::Unhealthy));
    assert_eq!(d.container_id, "");
    assert_eq!(d.name, "");
    assert_eq!(d.health, Some(ContainerHealthState::Unhealthy));
}

#[test]
fn only_missing_or_unchanged_containers_are_ignored() {
    let f = |code| RuntimeFailure { message: "x".into(), status_code: code };
    assert!(is_missing_or_not_modified(&f(Some(404))));
    assert!(is_missing_or_not_modified(&f(Some(304))));
    assert!(!is_missing_or_not_modified(&f(Some(500))));
    assert!(!is_missing_or_not_modified(&f(None)));
}

#[test]
fn exit_codes_and_labels_follow_the_status() {
    assert_eq!(exit_code_for_update_status(UpdateAttemptStatus::Succeeded), 0);
    assert_eq!(exit_code_for_update_status(UpdateAttemptStatus::RollbackFailed), 5);
    assert_eq!(exit_code_for_update_status(UpdateAttemptStatus::RolledBack), 4);
    assert_eq!(exit_code_for_update_status(UpdateAttemptStatus::Failed), 4);
    assert_eq!(update_status_label(UpdateAttemptStatus::HealthChecking), "health checking");
    assert_eq!(audit_kind_label(caisson::domain::AuditEventKind::RollbackSucceeded), "rollback_succeeded");
}

#[test]
fn update_summary_lists_every_part() {
    let start = time("2026-03-17T10:02:00Z");
    let mut record = UpdateAttemptRecord::new(
        3,
        4,
        5,
        "frontend".into(),
        RuntimeModeKind::Docker,
        "example/frontend:1.2.3".into(),
        None,
        Some("example/frontend:current".into()),
        start,
    );
    record.add_issue(ValidationIssue::new("docker.cleanup_failed", "leftover"));
    record.mark_failed(time("2026-03-17T10:04:00Z"));
    assert_eq!(
        update_summary_lines(&record),
        vec![
            "Update result",
            "Status: failed",
            "Service: frontend",
            "Target image: example/frontend:1.2.3",
            "Previous image: example/frontend:current",
            "Started: 2026-03-17T10:02:00Z",
            "Finished: 2026-03-17T10:04:00Z",
            "Issues:",
            "- [docker.cleanup_failed] leftover",
            "Summary: the update did not finish cleanly",
        ]
    );
}

#[test]
fn numbers_render_in_decimal() {
    assert_eq!(decimal_string(0), "0");
    assert_eq!(decimal_string(65536), "65536");
    assert_eq!(decimal_string(u64::MAX), "18446744073709551615");
}

#[test]
fn cleanup_picks_only_package_workspaces_under_staging() {
    let store = FilesystemStore::new(".caisson-state".to_string());
    let names: Vec<String> = vec![
        "00000000-0000-0000-0000-000000000007".to_string(),
        ".".to_string(),
        "..".to_string(),
        "".to_string(),
        "a/b".to_string(),
        "leftover.tmp".to_string(),
    ];
    let targets = store.cleanup_targets(&names);
    assert_eq!(
        targets,
        vec![
            ".caisson-state/staging/00000000-0000-0000-0000-000000000007".to_string(),
            ".caisson-state/staging/leftover.tmp".to_string(),
        ]
    );
    for target in &targets {
        assert!(target.starts_with(".caisson-state/staging/"));
        assert!(!target.starts_with(".caisson-state/audit/"));
        assert!(!target.starts_with(".caisson-state/service-states/"));
    }
    assert!(store.cleanup_targets(&Vec::new()).is_empty());

    let rooted = FilesystemStore::new("/var/lib/caisson/".to_string());
    assert_eq!(
        rooted.cleanup_targets(&vec!["x".to_string()]),
        vec!["/var/lib/caisson/staging/x".to_string()]
    );
}

#[test]
fn cleanup_reports_each_removed_path() {
    assert_eq!(
        caisson::report::cleanup_lines(".caisson-state/staging", &Vec::new()),
        vec!["no leftover package artifacts under `.caisson-state/staging`".to_string()]
    );
    assert_eq!(
        caisson::report::cleanup_lines(
            ".caisson-state/staging",
            &vec![".caisson-state/staging/a".to_string(), ".caisson-state/staging/b".to_string()]
        ),
        vec![
            "removed `.caisson-state/staging/a`".to_string(),
            "removed `.caisson-state/staging/b`".to_string(),
        ]
    );
}
