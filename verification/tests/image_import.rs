use caisson::archive::{missing_image_error, ImageArchiveAccessError};
use caisson::audit::image_import_finished;
use caisson::clock::Timestamp;
use caisson::domain::{
    AuditEventKind, ImageImportRecord, ImageImportStatus, ImageSpec, ImportedImageMetadata,
    PackageManifest, PackageTarget, PackageType, CompatibilitySpec, ValidationIssue,
    ValidationRecord, ValidationStatus,
};
use caisson::import::{
    begin_import, complete_import, fail_archive_access, fail_docker_inspect, fail_docker_load,
    ImageImportError, ImportCommand, ImportEffect, ImportMachine, ImportOutcome,
};
use caisson::persistence::FilesystemStore;
use caisson::version::SemVer;

fn parse_semver(text: &str) -> Result<SemVer, String> {
    let v = semver::Version::parse(text).map_err(|e| e.to_string())?;
    Ok(SemVer {
        major: v.major,
        minor: v.minor,
        patch: v.patch,
        pre: v.pre.as_str().to_string(),
        build: v.build.as_str().to_string(),
    })
}

fn time(text: &str) -> Timestamp {
    let t = time::OffsetDateTime::parse(text, &time::format_description::well_known::Rfc3339)
        .expect("timestamp");
    Timestamp { unix_nanos: t.unix_timestamp_nanos(), offset_seconds: t.offset().whole_seconds() }
}

fn frontend_manifest() -> PackageManifest {
    PackageManifest {
        format_version: 1,
        package_type: PackageType::Service,
        package_version: parse_semver("1.2.3").expect("version"),
        created_at: time("2026-03-16T18:30:00Z"),
        target: PackageTarget {
            service: "frontend".to_string(),
            service_revision: "frontend-v1".to_string(),
            platform: "linux/amd64".to_string(),
        },
        image: ImageSpec { reference: "example/frontend:1.2.3".to_string() },
        compatibility: CompatibilitySpec { min_updater_version: None },
    }
}

fn accepted_validation_record() -> ValidationRecord {
    let mut record = ValidationRecord::new(0x11, "frontend.edgepkg".to_string(), time("2026-03-17T10:00:00Z"));
    record.manifest = Some(frontend_manifest());
    record.staged_path = Some("state/staging/frontend.edgepkg".to_string());
    record.accept();
    assert_eq!(record.status, ValidationStatus::Accepted);
    record
}

fn imported_image() -> ImportedImageMetadata {
    ImportedImageMetadata {
        image_id: "sha256:frontend".to_string(),
        repo_tags: vec!["example/frontend:1.2.3".to_string()],
        repo_digests: vec!["example/frontend@sha256:frontend".to_string()],
        architecture: Some("amd64".to_string()),
        os: Some("linux".to_string()),
    }
}

fn start(record: &ValidationRecord) -> ImageImportRecord {
    let start = begin_import(record, 0x21, time("2026-03-17T10:01:00Z")).expect("import should start");
    assert_eq!(start.started.kind, AuditEventKind::ImageImportStarted);
    assert_eq!(start.started.message, "started importing image `example/frontend:1.2.3`");
    assert_eq!(start.staged_path, "state/staging/frontend.edgepkg");
    start.record
}

/// Starts the import machine and answers the extraction with success.
fn machine_after_extraction(record: &ValidationRecord) -> ImportMachine {
    let (mut machine, effects, command) =
        ImportMachine::start(record, 0x21, time("2026-03-17T10:01:00Z")).expect("import should start");
    assert_eq!(effects.len(), 1);
    match &effects[0] {
        ImportEffect::AppendAudit(event) => {
            assert_eq!(event.kind, AuditEventKind::ImageImportStarted);
            assert_eq!(event.attempt_id, 0x11);
        }
        other => panic!("unexpected effect {other:?}"),
    }
    assert_eq!(command, ImportCommand::ExtractImageArchive("state/staging/frontend.edgepkg".to_string()));
    let (effects, command) = machine.advance(ImportOutcome::Extracted(Ok(())), 0x31, time("2026-03-17T10:01:30Z"));
    assert!(effects.is_empty());
    assert_eq!(command, ImportCommand::LoadImageArchive);
    machine
}

#[test]
fn imports_a_validated_package_image_and_persists_candidate_release() {
    let validation_record = accepted_validation_record();
    let mut machine = machine_after_extraction(&validation_record);
    let (effects, command) = machine.advance(ImportOutcome::Loaded(Ok(())), 0x31, time("2026-03-17T10:01:45Z"));
    assert!(effects.is_empty());
    assert_eq!(command, ImportCommand::InspectImage("example/frontend:1.2.3".to_string()));
    let (effects, command) =
        machine.advance(ImportOutcome::Inspected(Ok(imported_image())), 0x31, time("2026-03-17T10:02:00Z"));
    assert_eq!(command, ImportCommand::Finish);
    let import_record = machine.record;

    assert_eq!(import_record.status, ImageImportStatus::Imported);
    assert!(import_record.issues.is_empty(), "unexpected issues: {:?}", import_record.issues);
    assert_eq!(effects.len(), 3);
    let candidate = match &effects[0] {
        ImportEffect::SaveCandidate(candidate) => candidate,
        other => panic!("candidate release should be saved first, got {other:?}"),
    };
    assert_eq!(effects[1], ImportEffect::SaveImportRecord(import_record.clone()));
    match &effects[2] {
        ImportEffect::AppendAudit(event) => assert_eq!(event.kind, AuditEventKind::ImageImportSucceeded),
        other => panic!("unexpected effect {other:?}"),
    }
    let store = FilesystemStore::new("state".to_string());
    assert_eq!(
        store.image_import_record_path(import_record.import_id),
        "state/image-import-records/00000000-0000-0000-0000-000000000021.json"
    );
    let candidate_release_id = import_record.candidate_release_id.expect("candidate release id should be set");
    assert_eq!(candidate_release_id, candidate.candidate_release_id);
    assert_eq!(
        store.candidate_release_path(candidate_release_id),
        "state/candidate-releases/00000000-0000-0000-0000-000000000031.json"
    );
    assert_eq!(candidate.service_name, "frontend");
    assert_eq!(candidate.image_reference, "example/frontend:1.2.3");
    assert_eq!(candidate.validation_attempt_id, 0x11);
    assert_eq!(candidate.import_id, 0x21);
    assert_eq!(Some(candidate.imported_image.clone()), import_record.imported_image);

    let finished = image_import_finished(&import_record, time("2026-03-17T10:03:00Z"));
    assert_eq!(finished.kind, AuditEventKind::ImageImportSucceeded);
}

#[test]
fn records_failed_image_imports_when_docker_load_fails() {
    let validation_record = accepted_validation_record();
    let mut machine = machine_after_extraction(&validation_record);
    let (effects, command) = machine.advance(
        ImportOutcome::Loaded(Err("Docker reported image import failure: tarball rejected".to_string())),
        0x31,
        time("2026-03-17T10:03:00Z"),
    );
    // Nothing more is asked for: no inspection and no candidate release.
    assert_eq!(command, ImportCommand::Finish);
    let import_record = machine.record;

    assert_eq!(import_record.status, ImageImportStatus::Failed);
    assert!(import_record.issues.iter().any(|issue| issue.code == "docker.load_failed"));
    assert!(import_record.candidate_release_id.is_none());
    assert!(import_record.imported_image.is_none());
    assert_eq!(
        import_record.issues[0].message,
        "failed to load image archive into Docker: Docker reported image import failure: tarball rejected"
    );
    assert_eq!(effects.len(), 2);
    assert_eq!(effects[0], ImportEffect::SaveImportRecord(import_record.clone()));
    match &effects[1] {
        ImportEffect::AppendAudit(event) => assert_eq!(event.kind, AuditEventKind::ImageImportFailed),
        other => panic!("unexpected effect {other:?}"),
    }
    let store = FilesystemStore::new("state".to_string());
    assert_eq!(
        store.image_import_record_path(import_record.import_id),
        "state/image-import-records/00000000-0000-0000-0000-000000000021.json"
    );
}

#[test]
fn import_steps_still_record_failures_directly() {
    let validation_record = accepted_validation_record();
    let mut import_record = start(&validation_record);
    fail_docker_load(&mut import_record, "Docker reported image import failure: tarball rejected");
    assert_eq!(import_record.status, ImageImportStatus::Failed);
    let finished = image_import_finished(&import_record, time("2026-03-17T10:03:00Z"));
    assert_eq!(finished.kind, AuditEventKind::ImageImportFailed);

    let mut imported = start(&validation_record);
    let candidate = complete_import(&mut imported, imported_image(), 0x31, time("2026-03-17T10:02:00Z"));
    assert_eq!(imported.candidate_release_id, Some(candidate.candidate_release_id));
}

#[test]
fn records_failed_image_imports_when_docker_inspect_fails() {
    let validation_record = accepted_validation_record();
    let mut import_record = start(&validation_record);
    fail_docker_inspect(&mut import_record, "Docker reported image import failure: image not visible after load");

    assert_eq!(import_record.status, ImageImportStatus::Failed);
    assert!(import_record.issues.iter().any(|issue| issue.code == "docker.inspect_failed"));
    assert!(import_record.candidate_release_id.is_none());
    let store = FilesystemStore::new("state".to_string());
    assert_eq!(
        store.image_import_record_path(import_record.import_id),
        "state/image-import-records/00000000-0000-0000-0000-000000000021.json"
    );
}

#[test]
fn records_failed_image_imports_when_the_archive_cannot_be_read() {
    let validation_record = accepted_validation_record();
    let mut import_record = start(&validation_record);
    fail_archive_access(&mut import_record, &missing_image_error());

    assert_eq!(import_record.status, ImageImportStatus::Failed);
    assert_eq!(import_record.issues[0].code, "package.image_archive_access_failed");
    assert_eq!(
        import_record.issues[0].message,
        "failed to access staged image.tar: [archive.missing_image] archive is missing required entry `image.tar`"
    );

    let mut other = start(&validation_record);
    fail_archive_access(&mut other, &ImageArchiveAccessError::Io("disk gone".to_string()));
    assert_eq!(
        other.issues[0].message,
        "failed to access staged image.tar: failed to access staged package archive: disk gone"
    );
}

#[test]
fn refuses_to_import_from_a_rejected_validation() {
    let mut record = ValidationRecord::new(1, "frontend.edgepkg".to_string(), time("2026-03-17T10:00:00Z"));
    record.reject_with(ValidationIssue::new("package.unknown_service", "nope"));
    match begin_import(&record, 2, time("2026-03-17T10:00:00Z")) {
        Err(ImageImportError::Precondition(m)) => {
            assert_eq!(m, "image import requires an accepted validation record");
        }
        _ => panic!("expected a precondition error"),
    }

    let mut accepted = accepted_validation_record();
    accepted.staged_path = None;
    match begin_import(&accepted, 2, time("2026-03-17T10:00:00Z")) {
        Err(e) => assert_eq!(
            e.message(),
            "image import precondition failed: accepted validation record is missing staged package path"
        ),
        Ok(_) => panic!("expected a precondition error"),
    }

    let mut no_manifest = accepted_validation_record();
    no_manifest.manifest = None;
    match begin_import(&no_manifest, 2, time("2026-03-17T10:00:00Z")) {
        Err(ImageImportError::Precondition(m)) => {
            assert_eq!(m, "accepted validation record is missing manifest metadata");
        }
        _ => panic!("expected a precondition error"),
    }
}
