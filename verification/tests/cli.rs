use caisson::clock::Timestamp;
use caisson::domain::{
    AuditEvent, AuditEventKind, CompatibilitySpec, ComposeRuntime, DockerRuntime, HealthCheckKind,
    HealthCheckOutcome, HealthCheckReport, HealthCheckSpec, ImageImportRecord, ImageSpec,
    ImportedImageMetadata, ManagedService, PackageManifest, PackageTarget, PackageType,
    RollbackPolicy, RuntimeMode, RuntimeModeKind, ServiceCatalog, ServiceStateRecord,
    UpdateAttemptRecord, ValidationIssue, ValidationRecord,
};
use caisson::flow::{LoadAction, LoadEvent, PackageLoad};
use caisson::report::{
    confirmation_prompt, history_details_lines, history_list_lines, is_affirmative,
    service_list_lines, service_show_lines,
};
use caisson::version::SemVer;

fn parse_semver(text: &str) -> Result<SemVer, String> {
    let v = semver::Version::parse(text).map_err(|e| e.to_string())?;
    Ok(SemVer {
        major: v.major,
        minor: v.minor,
        patch: v.patch,
        pre: v.pre.as_str().to_string(),
        build: v.build.as_str().to_string(),
    })
}

fn time(text: &str) -> Timestamp {
    let t = time::OffsetDateTime::parse(text, &time::format_description::well_known::Rfc3339)
        .expect("timestamp");
    Timestamp { unix_nanos: t.unix_timestamp_nanos(), offset_seconds: t.offset().whole_seconds() }
}

fn catalog() -> ServiceCatalog {
    ServiceCatalog {
        catalog_version: 1,
        services: vec![
            ManagedService {
                name: "frontend".into(),
                service_revision: "frontend-v1".into(),
                platform: "linux/amd64".into(),
                runtime: RuntimeMode::Docker(DockerRuntime {
                    container_name: "frontend".into(),
                    image_reference: "example/frontend:current".into(),
                }),
                health_check: HealthCheckSpec::default_spec(),
                rollback: RollbackPolicy::default_policy(),
            },
            ManagedService {
                name: "backend".into(),
                service_revision: "backend-v1".into(),
                platform: "linux/amd64".into(),
                runtime: RuntimeMode::Compose(ComposeRuntime {
                    project: "caisson-stack".into(),
                    file: "compose.yaml".into(),
                    service: "backend".into(),
                }),
                health_check: HealthCheckSpec::default_spec(),
                rollback: RollbackPolicy::default_policy(),
            },
        ],
    }
}

fn frontend_manifest() -> PackageManifest {
    PackageManifest {
        format_version: 1,
        package_type: PackageType::Service,
        package_version: parse_semver("1.2.3").expect("version"),
        created_at: time("2026-03-16T18:30:00Z"),
        target: PackageTarget {
            service: "frontend".into(),
            service_revision: "frontend-v1".into(),
            platform: "linux/amd64".into(),
        },
        image: ImageSpec { reference: "example/frontend:1.2.3".into() },
        compatibility: CompatibilitySpec { min_updater_version: None },
    }
}

fn accepted_validation_record() -> ValidationRecord {
    let mut record = ValidationRecord::new(1, "frontend.edgepkg".into(), time("2026-03-17T10:00:00Z"));
    record.manifest = Some(frontend_manifest());
    record.staged_path = Some("/tmp/staging/frontend.edgepkg".into());
    record.accept();
    record
}

fn rejected_validation_record() -> ValidationRecord {
    let mut record = ValidationRecord::new(1, "frontend.edgepkg".into(), time("2026-03-17T10:00:00Z"));
    record.reject_with(ValidationIssue::new(
        "manifest.unknown_service",
        "service is not present in services.toml",
    ));
    record
}

fn imported_image_record() -> ImageImportRecord {
    let mut record = ImageImportRecord::new(
        2,
        1,
        "frontend".into(),
        "example/frontend:1.2.3".into(),
        parse_semver("1.2.3").expect("version"),
        time("2026-03-17T10:01:00Z"),
    );
    record.mark_imported(
        ImportedImageMetadata {
            image_id: "sha256:frontend".into(),
            repo_tags: vec!["example/frontend:1.2.3".into()],
            repo_digests: vec!["example/frontend@sha256:frontend".into()],
            architecture: Some("amd64".into()),
            os: Some("linux".into()),
        },
        0x31,
    );
    record
}

fn succeeded_update_record() -> UpdateAttemptRecord {
    let mut record = UpdateAttemptRecord::new(
        3,
        0x31,
        1,
        "frontend".into(),
        RuntimeModeKind::Docker,
        "example/frontend:1.2.3".into(),
        None,
        Some("example/frontend:current".into()),
        time("2026-03-17T10:02:00Z"),
    );
    record.health_check = Some(HealthCheckReport {
        kind: HealthCheckKind::Running,
        outcome: HealthCheckOutcome::Passed,
        message: "container kept running".into(),
        checked_at: time("2026-03-17T10:03:00Z"),
    });
    record.mark_succeeded(time("2026-03-17T10:04:00Z"));
    record
}

/// Runs a package command against fixed results, the way the command line
/// does: prints each action's lines, answers the prompt, and returns the
/// exit code, the text printed and the steps taken.
fn run_package(
    load: bool,
    yes: bool,
    validation: ValidationRecord,
    answer: &str,
) -> (u8, String, Vec<&'static str>) {
    let mut rendered = String::new();
    let mut calls = Vec::new();
    let (mut flow, mut action) = PackageLoad::start(load, yes);
    loop {
        let event = match action {
            LoadAction::Validate { lines } => {
                print_lines(&mut rendered, &lines);
                calls.push("validate");
                LoadEvent::Validated(validation.clone())
            }
            LoadAction::ReadState { lines, service } => {
                print_lines(&mut rendered, &lines);
                assert_eq!(service, "frontend");
                LoadEvent::StateRead(None)
            }
            LoadAction::Ask { lines } => {
                print_lines(&mut rendered, &lines);
                rendered.push_str(confirmation_prompt());
                LoadEvent::Answered(is_affirmative(answer))
            }
            LoadAction::Import { lines } => {
                print_lines(&mut rendered, &lines);
                calls.push("import");
                LoadEvent::Imported(imported_image_record())
            }
            LoadAction::Apply { lines, candidate_release_id } => {
                print_lines(&mut rendered, &lines);
                assert_eq!(candidate_release_id, 0x31);
                calls.push("apply");
                LoadEvent::Updated(succeeded_update_record())
            }
            LoadAction::Exit { lines, code } => {
                print_lines(&mut rendered, &lines);
                return (code, rendered, calls);
            }
            LoadAction::Fail { lines, message } => {
                print_lines(&mut rendered, &lines);
                panic!("{message}");
            }
        };
        assert!(flow.fits(&event));
        action = flow.advance(event);
    }
}

fn print_lines(out: &mut String, lines: &[String]) {
    for line in lines {
        out.push_str(line);
        out.push('\n');
    }
}

#[test]
fn package_load_stops_after_operator_cancel() {
    let (exit_code, rendered, calls) = run_package(true, false, accepted_validation_record(), "n\n");

    assert_eq!(exit_code, 3);
    assert!(rendered.contains("Ready to load package"));
    assert!(rendered.contains("Cancelled before changing the service."));
    assert_eq!(calls, vec!["validate"]);
}

#[test]
fn package_load_runs_full_flow_with_yes_flag() {
    let (exit_code, rendered, calls) = run_package(true, true, accepted_validation_record(), "");

    assert_eq!(exit_code, 0);
    assert!(rendered.contains("Validating package..."));
    assert!(rendered.contains("Importing image into Docker..."));
    assert!(rendered.contains("Applying update..."));
    assert!(rendered.contains("Status: succeeded"));
    assert_eq!(calls, vec!["validate", "import", "apply"]);
}

#[test]
fn package_validate_returns_rejected_exit_code_and_issues() {
    let (exit_code, rendered, calls) = run_package(false, false, rejected_validation_record(), "");

    assert_eq!(exit_code, 2);
    assert!(rendered.contains("Status: rejected"));
    assert!(rendered.contains("service is not present in services.toml"));
    assert_eq!(calls, vec!["validate"]);
}

#[test]
fn package_load_proceeds_after_a_yes_answer() {
    let (exit_code, rendered, calls) = run_package(true, false, accepted_validation_record(), "  YES \n");

    assert_eq!(exit_code, 0);
    assert!(rendered.contains("Continue and update the service? [y/N]: "));
    assert!(rendered.contains("Current known image: not recorded yet"));
    assert_eq!(calls, vec!["validate", "import", "apply"]);
}

#[test]
fn package_validate_accepts_without_importing() {
    let (exit_code, rendered, calls) = run_package(false, true, accepted_validation_record(), "");

    assert_eq!(exit_code, 0);
    assert!(rendered.contains("Status: accepted"));
    assert!(rendered.contains("Package version: 1.2.3"));
    assert_eq!(calls, vec!["validate"]);
}

#[test]
fn answers_are_read_case_insensitively() {
    assert!(is_affirmative("y"));
    assert!(is_affirmative("Y\n"));
    assert!(is_affirmative(" yEs "));
    assert!(!is_affirmative("n"));
    assert!(!is_affirmative(""));
    assert!(!is_affirmative("yess"));
    assert!(!is_affirmative("ye"));
}

#[test]
fn service_list_reads_local_state_and_latest_attempt() {
    let states = vec![ServiceStateRecord::new(
        "frontend".into(),
        None,
        "example/frontend:1.2.3".into(),
        None,
        Some("example/frontend:current".into()),
        time("2026-03-17T12:00:00Z"),
    )];
    let mut attempt = UpdateAttemptRecord::new(
        4,
        5,
        6,
        "frontend".into(),
        RuntimeModeKind::Docker,
        "example/frontend:1.2.3".into(),
        None,
        Some("example/frontend:current".into()),
        time("2026-03-17T11:00:00Z"),
    );
    attempt.mark_succeeded(time("2026-03-17T11:05:00Z"));

    let rendered = service_list_lines(&catalog(), &states, &[attempt]).join("\n");

    assert!(rendered.contains(
        "frontend | runtime: docker | active image: example/frontend:1.2.3 | last update: succeeded"
    ));
    assert!(rendered.contains("backend | runtime: compose"));
    assert!(rendered.contains("- backend | runtime: compose | active image: not recorded yet | last update: none yet"));
}

#[test]
fn service_show_displays_runtime_specific_details() {
    let lines = service_show_lines(&catalog(), &[], &[], "backend").expect("service exists");
    let rendered = lines.join("\n");

    assert!(rendered.contains("Service: backend"));
    assert!(rendered.contains("Runtime: compose"));
    assert!(rendered.contains("Compose project: caisson-stack"));
    assert!(rendered.contains("Compose service: backend"));
    assert!(rendered.contains("Last update: none yet"));

    let missing = service_show_lines(&catalog(), &[], &[], "payments").expect_err("unknown");
    assert_eq!(missing, "service `payments` is not defined in the service catalog");
}

#[test]
fn history_show_combines_validation_and_update_events() {
    let validation_attempt_id = 0x11;
    let update_id = 0x12;
    let mut attempt = UpdateAttemptRecord::new(
        update_id,
        7,
        validation_attempt_id,
        "frontend".into(),
        RuntimeModeKind::Docker,
        "example/frontend:1.2.3".into(),
        None,
        Some("example/frontend:current".into()),
        time("2026-03-17T11:00:00Z"),
    );
    attempt.health_check = Some(HealthCheckReport {
        kind: HealthCheckKind::Running,
        outcome: HealthCheckOutcome::Passed,
        message: "container is still running".into(),
        checked_at: time("2026-03-17T11:02:00Z"),
    });
    attempt.mark_succeeded(time("2026-03-17T11:03:00Z"));
    let events = vec![
        AuditEvent {
            event_id: 0x21,
            attempt_id: validation_attempt_id,
            occurred_at: time("2026-03-17T10:59:00Z"),
            kind: AuditEventKind::ValidationAccepted,
            message: "accepted package for service `frontend`".into(),
        },
        AuditEvent {
            event_id: 0x22,
            attempt_id: update_id,
            occurred_at: time("2026-03-17T11:01:00Z"),
            kind: AuditEventKind::UpdateStarted,
            message: "started applying image `example/frontend:1.2.3` to service `frontend`".into(),
        },
        AuditEvent {
            event_id: 0x23,
            attempt_id: 0x99,
            occurred_at: time("2026-03-17T11:01:00Z"),
            kind: AuditEventKind::RollbackFailed,
            message: "another attempt".into(),
        },
    ];

    let rendered = history_details_lines(&attempt, &events).join("\n");

    assert!(rendered.contains("Status: succeeded"));
    assert!(rendered.contains("validation_accepted"));
    assert!(rendered.contains("update_started"));
    assert!(!rendered.contains("another attempt"));
    assert!(rendered.contains("Update: 00000000-0000-0000-0000-000000000012"));
    assert!(rendered.contains("Health check: passed (container is still running)"));
    assert!(rendered.contains("- 2026-03-17T10:59:00Z | validation_accepted | accepted package for service `frontend`"));
}

#[test]
fn history_list_filters_and_limits() {
    let make = |id: u128, service: &str| {
        UpdateAttemptRecord::new(
            id,
            1,
            2,
            service.into(),
            RuntimeModeKind::Docker,
            format!("example/{service}:2"),
            None,
            None,
            time("2026-03-17T11:00:00Z"),
        )
    };
    let attempts = vec![make(1, "frontend"), make(2, "backend"), make(3, "frontend"), make(4, "frontend")];

    let lines = history_list_lines(&attempts, Some("frontend"), Some(2));
    assert_eq!(
        lines,
        vec![
            "Update history".to_string(),
            "- 00000000-0000-0000-0000-000000000001 | 2026-03-17T11:00:00Z | frontend | applying".to_string(),
            "  target image: example/frontend:2".to_string(),
            "- 00000000-0000-0000-0000-000000000003 | 2026-03-17T11:00:00Z | frontend | applying".to_string(),
            "  target image: example/frontend:2".to_string(),
        ]
    );

    let none = history_list_lines(&attempts, Some("payments"), None);
    assert_eq!(
        none,
        vec!["Update history".to_string(), "No update history matched the current filter.".to_string()]
    );
    let zero = history_list_lines(&attempts, None, Some(0));
    assert_eq!(zero.len(), 2);
}

#[test]
fn attempts_are_listed_newest_first() {
    let make = |id: u128, started: &str| {
        UpdateAttemptRecord::new(
            id,
            1,
            2,
            "frontend".into(),
            RuntimeModeKind::Docker,
            "example/frontend:2".into(),
            None,
            None,
            time(started),
        )
    };
    let sorted = caisson::report::sort_newest_first(vec![
        make(1, "2026-03-17T10:00:00Z"),
        make(2, "2026-03-17T12:00:00Z"),
        make(3, "2026-03-17T11:00:00+02:00"),
        make(4, "2026-03-17T11:00:00Z"),
    ]);
    let ids: Vec<u128> = sorted.iter().map(|a| a.update_id).collect();
    assert_eq!(ids, vec![2, 4, 1, 3]);
}
