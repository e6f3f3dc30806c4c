use caisson::archive::{
    ArchiveInspection, ArchiveInspector, EntryPlan, PathComponent, TarEntryHeader, TarEntryKind,
};
use caisson::audit::{validation_finished, validation_started};
use caisson::clock::Timestamp;
use caisson::config::{
    validate_catalog, RawCatalog, RawComposeRuntime, RawDockerRuntime, RawRuntimeMode, RawService,
};
use caisson::domain::{AuditEventKind, ServiceCatalog, ValidationIssue, ValidationRecord, ValidationStatus};
use caisson::intake::{
    check_package_extension, ValidationCommand, ValidationEffect, ValidationMachine, ValidationOutcome,
};
use caisson::manifest::{
    decode_manifest_text, format_version_from_text, manifest_parse_failed, parse_package_type,
    parse_raw_manifest, RawCompatibility, RawImage, RawManifest, RawTarget,
};
use caisson::persistence::FilesystemStore;
use caisson::version::SemVer;

fn parse_semver(text: &str) -> Result<SemVer, String> {
    let v = semver::Version::parse(text).map_err(|e| e.to_string())?;
    Ok(SemVer {
        major: v.major,
        minor: v.minor,
        patch: v.patch,
        pre: v.pre.as_str().to_string(),
        build: v.build.as_str().to_string(),
    })
}

const VALID_FRONTEND: &str = r#"
format_version = 1
package_type = "service"
package_version = "1.2.3"
created_at = "2026-03-16T18:30:00Z"

[target]
service = "frontend"
service_revision = "frontend-v1"
platform = "linux/amd64"

[image]
reference = "example/frontend:1.2.3"
"#;

fn time(text: &str) -> Timestamp {
    let t = time::OffsetDateTime::parse(text, &time::format_description::well_known::Rfc3339)
        .expect("timestamp");
    Timestamp { unix_nanos: t.unix_timestamp_nanos(), offset_seconds: t.offset().whole_seconds() }
}

fn catalog() -> ServiceCatalog {
    validate_catalog(RawCatalog {
        catalog_version: 1,
        services: vec![
            RawService {
                name: "frontend".to_string(),
                service_revision: "frontend-v1".to_string(),
                platform: "linux/amd64".to_string(),
                runtime_mode: RawRuntimeMode::Docker,
                docker: Some(RawDockerRuntime {
                    container_name: "frontend".to_string(),
                    image_reference: "example/frontend:current".to_string(),
                }),
                compose: None,
                health_check: None,
                rollback: None,
            },
            RawService {
                name: "backend".to_string(),
                service_revision: "backend-v1".to_string(),
                platform: "linux/amd64".to_string(),
                runtime_mode: RawRuntimeMode::Compose,
                docker: None,
                compose: Some(RawComposeRuntime {
                    project: "caisson-stack".to_string(),
                    file: "compose.yaml".to_string(),
                    service: "backend".to_string(),
                }),
                health_check: None,
                rollback: None,
            },
        ],
    })
    .expect("catalog should load")
}

fn updater_version() -> SemVer {
    parse_semver("0.1.0-alpha").expect("version")
}

fn manifest_with(replace: &str, with: &str) -> String {
    VALID_FRONTEND.replace(replace, with)
}

fn entry(name: &str, kind: TarEntryKind, size: u64) -> TarEntryHeader {
    let components: Vec<PathComponent> = name
        .split('/')
        .map(|part| PathComponent::Normal(part.to_string()))
        .collect();
    TarEntryHeader {
        path: Ok(components),
        path_display: name.to_string(),
        kind,
        size: Ok(size),
    }
}

fn regular(name: &str, bytes: &[u8]) -> (TarEntryHeader, Vec<u8>) {
    (entry(name, TarEntryKind::Regular, bytes.len() as u64), bytes.to_vec())
}

fn valid_package(manifest: &str) -> Vec<(TarEntryHeader, Vec<u8>)> {
    vec![
        regular("manifest.toml", manifest.as_bytes()),
        regular("image.tar", b"placeholder image tar bytes"),
    ]
}

/// Reads a package entry by entry, as the archive reader does.
fn inspect(entries: Vec<(TarEntryHeader, Vec<u8>)>) -> Result<ArchiveInspection, ValidationIssue> {
    let mut inspector = ArchiveInspector::new();
    for (header, bytes) in entries {
        match inspector.plan_entry(&header) {
            EntryPlan::Reject(issue) => return Err(issue),
            EntryPlan::ReadManifest => {
                if let Some(issue) = inspector.manifest_read(Ok(bytes)) {
                    return Err(issue);
                }
            }
            EntryPlan::DrainImage { name, size } => {
                if let Some(issue) = inspector.image_drained(name, size, Ok(())) {
                    return Err(issue);
                }
            }
            EntryPlan::DrainOther { name } => {
                if let Some(issue) = ArchiveInspector::other_drained(&name, Ok(())) {
                    return Err(issue);
                }
            }
        }
    }
    inspector.finish()
}

fn text_field(table: &toml::Table, key: &str) -> Result<String, String> {
    match table.get(key) {
        Some(toml::Value::String(s)) => Ok(s.clone()),
        Some(_) => Err(format!("invalid type for `{key}`")),
        None => Err(format!("missing field `{key}`")),
    }
}

fn sub_table<'a>(table: &'a toml::Table, key: &str) -> Result<&'a toml::Table, String> {
    match table.get(key) {
        Some(toml::Value::Table(t)) => Ok(t),
        _ => Err(format!("missing field `{key}`")),
    }
}

/// Reads the manifest document into its raw form, as the TOML reader does.
fn raw_manifest(text: &str) -> Result<RawManifest, String> {
    let table: toml::Table = text.parse::<toml::Table>().map_err(|e| e.to_string())?;
    let format_version = match table.get("format_version") {
        Some(toml::Value::Integer(n)) if *n >= 0 => *n as u64,
        Some(toml::Value::String(s)) => format_version_from_text(s)?,
        _ => return Err("invalid format_version".to_string()),
    };
    let target = sub_table(&table, "target")?;
    let image = sub_table(&table, "image")?;
    let compatibility = match table.get("compatibility") {
        Some(toml::Value::Table(t)) => Some(RawCompatibility {
            min_updater_version: match t.get("min_updater_version") {
                Some(toml::Value::String(s)) => Some(s.clone()),
                _ => None,
            },
        }),
        _ => None,
    };
    Ok(RawManifest {
        format_version,
        package_type: parse_package_type(&text_field(&table, "package_type")?)?,
        package_version: text_field(&table, "package_version")?,
        created_at: text_field(&table, "created_at")?,
        target: RawTarget {
            service: text_field(target, "service")?,
            service_revision: text_field(target, "service_revision")?,
            platform: text_field(target, "platform")?,
        },
        image: RawImage { reference: text_field(image, "reference")? },
        compatibility,
    })
}

/// Validates a package made of the given entries against the catalog, by
/// running the validation machine and answering each operation it asks for.
/// Checks that the attempt is audited at its start and end, with its record
/// saved once in between.
fn validate(entries: Vec<(TarEntryHeader, Vec<u8>)>) -> ValidationRecord {
    let catalog = catalog();
    let store = FilesystemStore::new("state".to_string());
    let mut entries = Some(entries);
    let (mut machine, mut effects, mut command) =
        ValidationMachine::start(7, "frontend.edgepkg".to_string(), time("2026-03-17T10:00:00Z"));
    loop {
        let outcome = match command {
            ValidationCommand::Finish => break,
            ValidationCommand::Abort(error) => panic!("validation stopped: {}", error.message()),
            ValidationCommand::StagePackage => ValidationOutcome::Staged(
                check_package_extension(Some("edgepkg")).map(|()| (store.staging_dir_for(7), 128)),
            ),
            ValidationCommand::InspectArchive(path) => {
                assert_eq!(path, store.staging_dir_for(7));
                ValidationOutcome::Inspected(inspect(entries.take().expect("inspected once")))
            }
            ValidationCommand::ParseManifest(bytes) => ValidationOutcome::ManifestParsed(match decode_manifest_text(&bytes) {
                Ok(text) => match raw_manifest(&text) {
                    Ok(raw) => parse_raw_manifest(raw),
                    Err(message) => Err(manifest_parse_failed(&message)),
                },
                Err(issue) => Err(issue),
            }),
        };
        assert!(machine.fits(&outcome));
        let (more, next) = machine.advance(outcome, &catalog, &updater_version(), time("2026-03-17T10:00:05Z"));
        effects.extend(more);
        command = next;
    }
    let record = machine.record;
    assert_eq!(effects.len(), 3, "effects: {effects:?}");
    match &effects[0] {
        ValidationEffect::AppendAudit(event) => {
            assert_eq!(event.kind, AuditEventKind::ValidationStarted);
            assert_eq!(event.attempt_id, record.attempt_id);
        }
        other => panic!("unexpected effect {other:?}"),
    }
    assert_eq!(effects[1], ValidationEffect::SaveRecord(record.clone()));
    match &effects[2] {
        ValidationEffect::AppendAudit(event) => {
            let expected = if record.status == ValidationStatus::Accepted {
                AuditEventKind::ValidationAccepted
            } else {
                AuditEventKind::ValidationRejected
            };
            assert_eq!(event.kind, expected);
            assert_eq!(event.attempt_id, record.attempt_id);
        }
        other => panic!("unexpected effect {other:?}"),
    }
    record
}

fn has_issue(record: &ValidationRecord, code: &str) -> bool {
    record.issues.iter().any(|issue| issue.code == code)
}

#[test]
fn accepts_a_valid_package_and_persists_the_record() {
    let record = validate(valid_package(VALID_FRONTEND));

    assert_eq!(record.status, ValidationStatus::Accepted);
    assert!(record.issues.is_empty(), "expected no issues: {:?}", record.issues);
    assert_eq!(record.manifest.as_ref().expect("manifest").target.service, "frontend");
    assert!(record.staged_path.is_some(), "staged path");

    let store = FilesystemStore::new("state".to_string());
    assert_eq!(
        store.validation_record_path(record.attempt_id),
        "state/validation-records/00000000-0000-0000-0000-000000000007.json"
    );
    let started = validation_started(record.attempt_id, &record.source_path, record.validated_at);
    let finished = validation_finished(&record, record.validated_at);
    assert_eq!(started.kind, AuditEventKind::ValidationStarted);
    assert_eq!(finished.kind, AuditEventKind::ValidationAccepted);
}

#[test]
fn rejects_packages_with_missing_image_tar() {
    let record = validate(vec![regular("manifest.toml", VALID_FRONTEND.as_bytes())]);

    assert_eq!(record.status, ValidationStatus::Rejected);
    assert!(has_issue(&record, "archive.missing_image"));
}

#[test]
fn rejects_packages_with_symlink_entries() {
    let mut entries = valid_package(VALID_FRONTEND);
    entries.push((entry("notes-link", TarEntryKind::Other("Symlink".to_string()), 0), Vec::new()));
    let record = validate(entries);

    assert_eq!(record.status, ValidationStatus::Rejected);
    assert!(has_issue(&record, "archive.unsafe_entry_type"));
}

#[test]
fn rejects_packages_for_unknown_services() {
    let record = validate(valid_package(&manifest_with(
        "service = \"frontend\"",
        "service = \"payments\"",
    )));

    assert_eq!(record.status, ValidationStatus::Rejected);
    assert!(has_issue(&record, "package.unknown_service"));
}

#[test]
fn rejects_service_revision_mismatches() {
    let record = validate(valid_package(&manifest_with("frontend-v1", "frontend-v2")));

    assert_eq!(record.status, ValidationStatus::Rejected);
    assert!(has_issue(&record, "package.service_revision_mismatch"));
}

#[test]
fn rejects_platform_mismatches() {
    let record = validate(valid_package(&manifest_with("linux/amd64", "linux/arm64")));

    assert_eq!(record.status, ValidationStatus::Rejected);
    assert!(has_issue(&record, "package.platform_mismatch"));
}

#[test]
fn rejects_duplicate_archive_entries() {
    let record = validate(vec![
        regular("manifest.toml", VALID_FRONTEND.as_bytes()),
        regular("manifest.toml", VALID_FRONTEND.as_bytes()),
        regular("image.tar", b"placeholder image tar bytes"),
    ]);

    assert_eq!(record.status, ValidationStatus::Rejected);
    assert!(has_issue(&record, "archive.duplicate_entry"));
}

#[test]
fn rejects_nested_archive_entries() {
    let record = validate(vec![
        regular("nested/manifest.toml", VALID_FRONTEND.as_bytes()),
        regular("image.tar", b"placeholder image tar bytes"),
    ]);

    assert_eq!(record.status, ValidationStatus::Rejected);
    assert!(has_issue(&record, "archive.nested_entry"));
}

#[test]
fn rejects_invalid_package_types() {
    let record = validate(valid_package(&manifest_with(
        "package_type = \"service\"",
        "package_type = \"firmware\"",
    )));

    assert_eq!(record.status, ValidationStatus::Rejected);
    assert!(has_issue(&record, "manifest.parse_failed"));
}

#[test]
fn rejects_packages_that_require_a_newer_updater() {
    let manifest = format!("{VALID_FRONTEND}\n[compatibility]\nmin_updater_version = \"9.0.0\"\n");
    let record = validate(valid_package(&manifest));

    assert_eq!(record.status, ValidationStatus::Rejected);
    assert!(has_issue(&record, "package.updater_too_old"));
}

#[test]
fn rejects_malformed_manifest_toml() {
    let record = validate(valid_package("format_version = [\nthis is not toml"));

    assert_eq!(record.status, ValidationStatus::Rejected);
    assert!(has_issue(&record, "manifest.parse_failed"));
}

#[test]
fn accepts_a_package_whose_updater_requirement_is_met() {
    let manifest = format!("{VALID_FRONTEND}\n[compatibility]\nmin_updater_version = \"0.1.0-alpha\"\n");
    let record = validate(valid_package(&manifest));

    assert_eq!(record.status, ValidationStatus::Accepted);
}

#[test]
fn rejects_an_empty_image_archive() {
    let record = validate(vec![
        regular("manifest.toml", VALID_FRONTEND.as_bytes()),
        regular("image.tar", b""),
    ]);

    assert!(has_issue(&record, "image.empty_archive"));
}

#[test]
fn rejects_a_package_missing_its_manifest() {
    let record = validate(vec![regular("image.tar", b"bytes")]);

    assert!(has_issue(&record, "archive.missing_manifest"));
}

#[test]
fn rejects_an_oversized_manifest() {
    let record = validate(vec![
        (entry("manifest.toml", TarEntryKind::Regular, 65_537), Vec::new()),
        regular("image.tar", b"bytes"),
    ]);

    let issue = record.issues.iter().find(|i| i.code == "manifest.too_large").expect("issue");
    assert_eq!(
        issue.message,
        "manifest.toml is too large (65537 bytes); max supported size is 65536 bytes"
    );
}

#[test]
fn rejects_a_manifest_that_is_not_utf8() {
    let record = validate(vec![
        regular("manifest.toml", &[0xff, 0xfe, 0x00]),
        regular("image.tar", b"bytes"),
    ]);

    assert!(has_issue(&record, "manifest.invalid_utf8"));
}

#[test]
fn rejects_packages_without_the_edgepkg_extension() {
    let issue = check_package_extension(Some("tar")).expect_err("extension");
    assert_eq!(issue.code, "package.invalid_extension");
    assert_eq!(issue.message, "package file must use the `.edgepkg` extension");
    assert!(check_package_extension(None).is_err());
}

#[test]
fn rejects_unsupported_format_versions() {
    let record = validate(valid_package(&manifest_with("format_version = 1", "format_version = 2")));

    assert_eq!(record.status, ValidationStatus::Rejected);
}

#[test]
fn stops_without_a_record_when_staging_fails() {
    let (mut machine, effects, command) =
        ValidationMachine::start(9, "frontend.edgepkg".to_string(), time("2026-03-17T10:00:00Z"));
    assert_eq!(effects.len(), 1);
    assert_eq!(command, ValidationCommand::StagePackage);
    let (effects, command) = machine.advance(
        ValidationOutcome::StagingFailed("disk full".to_string()),
        &catalog(),
        &updater_version(),
        time("2026-03-17T10:00:01Z"),
    );
    assert!(effects.is_empty());
    assert_eq!(command, ValidationCommand::Abort(caisson::intake::PackageIntakeError::Staging("disk full".to_string())));
}

#[test]
fn rejects_at_staging_and_saves_the_record_once() {
    let (mut machine, _, _) = ValidationMachine::start(9, "frontend.zip".to_string(), time("2026-03-17T10:00:00Z"));
    let issue = check_package_extension(Some("zip")).expect_err("extension");
    let (effects, command) = machine.advance(
        ValidationOutcome::Staged(Err(issue)),
        &catalog(),
        &updater_version(),
        time("2026-03-17T10:00:01Z"),
    );
    assert_eq!(command, ValidationCommand::Finish);
    assert_eq!(machine.record.status, ValidationStatus::Rejected);
    assert_eq!(machine.record.issues[0].code, "package.invalid_extension");
    assert_eq!(effects.len(), 2);
    assert_eq!(effects[0], ValidationEffect::SaveRecord(machine.record.clone()));
    match &effects[1] {
        ValidationEffect::AppendAudit(event) => {
            assert_eq!(event.kind, AuditEventKind::ValidationRejected);
            assert_eq!(event.message, "rejected package: package file must use the `.edgepkg` extension");
        }
        other => panic!("unexpected effect {other:?}"),
    }
}
