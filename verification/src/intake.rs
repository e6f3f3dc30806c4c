//! Package intake: the decisions of one validation attempt.
//!
//! A validation attempt stages the package, inspects the archive, parses the
//! manifest and checks it against the catalog. Every problem found becomes an
//! issue on the attempt's record; the record is accepted only if none was found.

use vstd::prelude::*;
use crate::archive::ArchiveInspection;
use crate::audit;
use crate::audit::validation_finished_message;
use crate::clock::Timestamp;
use crate::domain::{
    AuditEvent, AuditEventKind, IssueView, PackageManifest, ServiceCatalog, ValidationIssue, ValidationRecord,
    ValidationRecordView, ValidationStatus,
};
use crate::manifest::{manifest_issues, validate_manifest};
use crate::text::text_eq;
use crate::version::SemVer;

verus! {

/// Input for the package-validation use case.
#[derive(Debug, PartialEq, Eq)]
pub struct ValidatePackageRequest {
    /// Path of the local `.edgepkg` file.
    pub package_path: String,
}

/// Fatal errors of the package intake path (invalid packages are not errors:
/// they come back as rejected records).
#[derive(Debug, PartialEq, Eq)]
pub enum PackageIntakeError {
    Persistence(String),
    Staging(String),
    ArchiveIo(String),
}

/// The text of an intake error, as shown to operators.
pub open spec fn intake_error_text(e: PackageIntakeError) -> Seq<char> {
    match e {
        PackageIntakeError::Persistence(m) => "failed to persist validation state: "@ + m@,
        PackageIntakeError::Staging(m) => "failed to stage package: "@ + m@,
        PackageIntakeError::ArchiveIo(m) => "failed to read staged archive: "@ + m@,
    }
}

impl PackageIntakeError {
    /// Renders the error for operators.
    pub fn message(&self) -> (s: String)
        ensures
            s@ == intake_error_text(*self),
    {
        let (prefix, m) = match self {
            PackageIntakeError::Persistence(m) => ("failed to persist validation state: ", m),
            PackageIntakeError::Staging(m) => ("failed to stage package: ", m),
            PackageIntakeError::ArchiveIo(m) => ("failed to read staged archive: ", m),
        };
        let mut s = String::from_str(prefix);
        s.append(m.as_str());
        s
    }
}

/// Checks the package file's extension (the part after the last dot of its name).
pub fn check_package_extension(extension: Option<&str>) -> (r: Result<(), ValidationIssue>)
    ensures
        (r is Ok) == (extension matches Some(e) && e@ == "edgepkg"@),
        r matches Err(i) ==> i@ == (IssueView {
            code: "package.invalid_extension"@,
            message: "package file must use the `.edgepkg` extension"@,
        }),
{
    let ok = match extension {
        Some(e) => text_eq(e, "edgepkg"),
        None => false,
    };
    if ok {
        Ok(())
    } else {
        Err(ValidationIssue::new("package.invalid_extension", "package file must use the `.edgepkg` extension"))
    }
}

/// What the file system says about the package path.
#[derive(Debug, PartialEq, Eq)]
pub enum SourceProbe {
    Missing,
    NotAFile,
    File { size: u64 },
}

/// Checks the package path names a regular file, giving back its size.
pub fn check_package_source(path_display: &str, probe: SourceProbe) -> (r: Result<u64, ValidationIssue>)
    ensures
        match probe {
            SourceProbe::Missing => r matches Err(i) && i@ == (IssueView {
                code: "package.not_found"@,
                message: "package file `"@ + path_display@ + "` does not exist"@,
            }),
            SourceProbe::NotAFile => r matches Err(i) && i@ == (IssueView {
                code: "package.not_a_file"@,
                message: "package path `"@ + path_display@ + "` is not a regular file"@,
            }),
            SourceProbe::File { size } => r == Ok::<u64, ValidationIssue>(size),
        },
{
    match probe {
        SourceProbe::Missing => {
            let mut m = String::from_str("package file `");
            m.append(path_display);
            m.append("` does not exist");
            Err(ValidationIssue::with_message("package.not_found", m))
        },
        SourceProbe::NotAFile => {
            let mut m = String::from_str("package path `");
            m.append(path_display);
            m.append("` is not a regular file");
            Err(ValidationIssue::with_message("package.not_a_file", m))
        },
        SourceProbe::File { size } => Ok(size),
    }
}

/// The record after staging: the staged copy and the source size, or the issue.
pub open spec fn staging_step(r: ValidationRecordView, staged: Result<(String, u64), ValidationIssue>) -> ValidationRecordView {
    match staged {
        Ok((path, size)) => ValidationRecordView { staged_path: Some(path), source_file_size_bytes: Some(size), ..r },
        Err(i) => ValidationRecordView { status: ValidationStatus::Rejected, issues: r.issues.push(i@), ..r },
    }
}

/// The record after the archive inspection: the image entry, or the issue.
pub open spec fn inspection_step(r: ValidationRecordView, inspected: Result<ArchiveInspection, ValidationIssue>) -> ValidationRecordView {
    match inspected {
        Ok(ins) => ValidationRecordView { image_archive: Some(ins.image_archive), ..r },
        Err(i) => ValidationRecordView { status: ValidationStatus::Rejected, issues: r.issues.push(i@), ..r },
    }
}

/// The record after the manifest: a parsed manifest is kept with one issue
/// per failed catalog check; a manifest that did not parse is an issue.
pub open spec fn manifest_step(
    r: ValidationRecordView,
    parsed: Result<PackageManifest, ValidationIssue>,
    catalog: ServiceCatalog,
    current: SemVer,
) -> ValidationRecordView {
    match parsed {
        Ok(m) => ValidationRecordView {
            status: if manifest_issues(m, catalog, current).len() == 0 {
                r.status
            } else {
                ValidationStatus::Rejected
            },
            manifest: Some(m),
            issues: r.issues + manifest_issues(m, catalog, current),
            ..r
        },
        Err(i) => ValidationRecordView { status: ValidationStatus::Rejected, issues: r.issues.push(i@), ..r },
    }
}

/// A record without issues is accepted; any other record keeps its status.
pub open spec fn verdict_step(r: ValidationRecordView) -> ValidationRecordView {
    if r.issues.len() == 0 {
        ValidationRecordView { status: ValidationStatus::Accepted, ..r }
    } else {
        r
    }
}

/// Records the staging outcome: the staged copy and the source size, or the issue.
pub fn record_staging(record: &mut ValidationRecord, staged: Result<(String, u64), ValidationIssue>)
    ensures
        final(record)@ == staging_step(old(record)@, staged),
{
    match staged {
        Ok((path, size)) => {
            record.staged_path = Some(path);
            record.source_file_size_bytes = Some(size);
        },
        Err(i) => record.reject_with(i),
    }
}

/// Records the archive inspection outcome; on success gives back the manifest bytes.
pub fn record_inspection(record: &mut ValidationRecord, inspected: Result<ArchiveInspection, ValidationIssue>) -> (manifest_bytes: Option<Vec<u8>>)
    ensures
        final(record)@ == inspection_step(old(record)@, inspected),
        manifest_bytes == match inspected {
            Ok(ins) => Some(ins.manifest_bytes),
            Err(_) => None,
        },
{
    match inspected {
        Ok(ins) => {
            record.image_archive = Some(ins.image_archive);
            Some(ins.manifest_bytes)
        },
        Err(i) => {
            record.reject_with(i);
            None
        },
    }
}

/// Records the manifest: a parsed manifest is kept, with one issue for each
/// catalog check it fails; a manifest that could not be parsed is an issue.
pub fn record_manifest(
    record: &mut ValidationRecord,
    parsed: Result<PackageManifest, ValidationIssue>,
    catalog: &ServiceCatalog,
    current_updater_version: &SemVer,
)
    ensures
        final(record)@ == manifest_step(old(record)@, parsed, *catalog, *current_updater_version),
{
    match parsed {
        Ok(manifest) => {
            let issues = validate_manifest(&manifest, catalog, current_updater_version);
            let ghost expected = manifest_issues(manifest, *catalog, *current_updater_version);
            let ghost start = record@;
            let mut i: usize = 0;
            while i < issues.len()
                invariant
                    i <= issues@.len(),
                    crate::domain::issues_view(issues@) == expected,
                    record@ == (ValidationRecordView {
                        status: if i == 0 { start.status } else { ValidationStatus::Rejected },
                        issues: start.issues + expected.take(i as int),
                        ..start
                    }),
                decreases issues.len() - i,
            {
                record.reject_with(issues[i].clone());
                assert(start.issues + expected.take(i + 1) =~= (start.issues + expected.take(i as int)).push(expected[i as int]));
                i = i + 1;
            }
            assert(expected.take(issues@.len() as int) =~= expected);
            record.manifest = Some(manifest);
        },
        Err(i) => record.reject_with(i),
    }
}

/// Ends a validation attempt: a record without issues becomes accepted; any
/// other record keeps its status.
pub fn conclude_validation(record: &mut ValidationRecord)
    ensures
        final(record)@ == verdict_step(old(record)@),
{
    if record.issues.len() == 0 {
        record.accept();
    }
}

/// The issue of a failed step, if it failed.
pub open spec fn step_issue<T>(outcome: Result<T, ValidationIssue>) -> Option<IssueView> {
    match outcome {
        Ok(_) => None,
        Err(i) => Some(i@),
    }
}

/// The record at the end of a validation: staging, then (if staged) the
/// archive inspection, then (if inspected) the manifest, then the verdict.
pub open spec fn validation_outcome(
    start: ValidationRecordView,
    staged: Result<(String, u64), ValidationIssue>,
    inspected: Result<ArchiveInspection, ValidationIssue>,
    parsed: Result<PackageManifest, ValidationIssue>,
    catalog: ServiceCatalog,
    current: SemVer,
) -> ValidationRecordView {
    let r1 = staging_step(start, staged);
    let r2 = if staged is Err { r1 } else { inspection_step(r1, inspected) };
    let r3 = if staged is Err || inspected is Err { r2 } else { manifest_step(r2, parsed, catalog, current) };
    verdict_step(r3)
}

/// A validation that starts from a fresh record (rejected, without issues)
/// accepts the package exactly when it was staged, its archive passed
/// inspection, its manifest parsed, and the manifest passed every catalog
/// check; the issues it records are those of the steps, in order.
pub proof fn law_accepted_iff_every_check_passed(
    start: ValidationRecordView,
    staged: Result<(String, u64), ValidationIssue>,
    inspected: Result<ArchiveInspection, ValidationIssue>,
    parsed: Result<PackageManifest, ValidationIssue>,
    catalog: ServiceCatalog,
    current: SemVer,
)
    requires
        start.status == ValidationStatus::Rejected,
        start.issues.len() == 0,
    ensures
        ({
            let end = validation_outcome(start, staged, inspected, parsed, catalog, current);
            &&& (end.status == ValidationStatus::Accepted) <==> (staged is Ok && inspected is Ok
                && parsed is Ok && manifest_issues(parsed->Ok_0, catalog, current).len() == 0)
            &&& (end.status == ValidationStatus::Accepted) <==> (end.issues.len() == 0)
            &&& end.issues == if staged is Err {
                seq![step_issue(staged)->0]
            } else if inspected is Err {
                seq![step_issue(inspected)->0]
            } else {
                match parsed {
                    Ok(m) => manifest_issues(m, catalog, current),
                    Err(i) => seq![i@],
                }
            }
        }),
{
    let end = validation_outcome(start, staged, inspected, parsed, catalog, current);
    if !(staged is Err) && !(inspected is Err) {
        if let Ok(m) = parsed {
            assert(start.issues + manifest_issues(m, catalog, current) =~= manifest_issues(m, catalog, current));
        }
    }
}

// ---------------------------------------------------------------------------
// A validation as a sequence of steps: what to record and which operation
// comes next, after each outcome.
// ---------------------------------------------------------------------------

/// Where a validation stands: which operation's outcome it waits for.
#[derive(Clone, Copy, Debug, PartialEq, Eq, Structural)]
pub enum ValidationStep {
    Stage,
    Inspect,
    ParseManifest,
    Finished,
}

/// The operation the caller performs next.
#[derive(Debug, PartialEq, Eq)]
pub enum ValidationCommand {
    /// Check and copy the package into its staging directory (answer with
    /// `Staged`, or `StagingFailed` for an I/O failure).
    StagePackage,
    /// Inspect the staged archive (answer with `Inspected`, or `ArchiveFailed`
    /// for an I/O failure).
    InspectArchive(String),
    /// Parse these `manifest.toml` bytes (answer with `ManifestParsed`).
    ParseManifest(Vec<u8>),
    /// The validation is over; its record is the result.
    Finish,
    /// The validation stops with this error, without a result.
    Abort(PackageIntakeError),
}

/// The plain value of a [`ValidationCommand`].
pub enum ValidationCommandView {
    StagePackage,
    InspectArchive(Seq<char>),
    ParseManifest(Seq<u8>),
    Finish,
    Abort(PackageIntakeError),
}

impl View for ValidationCommand {
    type V = ValidationCommandView;

    open spec fn view(&self) -> ValidationCommandView {
        match self {
            ValidationCommand::StagePackage => ValidationCommandView::StagePackage,
            ValidationCommand::InspectArchive(p) => ValidationCommandView::InspectArchive(p@),
            ValidationCommand::ParseManifest(b) => ValidationCommandView::ParseManifest(b@),
            ValidationCommand::Finish => ValidationCommandView::Finish,
            ValidationCommand::Abort(e) => ValidationCommandView::Abort(*e),
        }
    }
}

/// The outcome of the operation a step asked for.
#[derive(Debug, PartialEq, Eq)]
pub enum ValidationOutcome {
    /// The staged copy and the source size, or the issue with the package file.
    Staged(Result<(String, u64), ValidationIssue>),
    /// Staging failed for an I/O reason.
    StagingFailed(String),
    /// The archive inspection, or the issue with the archive.
    Inspected(Result<ArchiveInspection, ValidationIssue>),
    /// Reading the staged archive failed for an I/O reason.
    ArchiveFailed(String),
    /// The parsed manifest, or the issue with it.
    ManifestParsed(Result<PackageManifest, ValidationIssue>),
}

/// A record the caller persists, in order, before performing the next command.
#[derive(Debug, PartialEq, Eq)]
pub enum ValidationEffect {
    AppendAudit(AuditEvent),
    SaveRecord(ValidationRecord),
}

/// The plain value of a [`ValidationEffect`] (an audit event without its random id).
pub enum ValidationEffectView {
    Audit(u128, Timestamp, AuditEventKind, Seq<char>),
    SaveRecord(ValidationRecordView),
}

impl View for ValidationEffect {
    type V = ValidationEffectView;

    open spec fn view(&self) -> ValidationEffectView {
        match self {
            ValidationEffect::AppendAudit(e) => ValidationEffectView::Audit(e.attempt_id, e.occurred_at, e.kind, e.message@),
            ValidationEffect::SaveRecord(r) => ValidationEffectView::SaveRecord(r@),
        }
    }
}

/// The plain values of a list of effects.
pub open spec fn validation_effects_view(v: Seq<ValidationEffect>) -> Seq<ValidationEffectView> {
    v.map_values(|e: ValidationEffect| e@)
}

/// One validation attempt in progress.
#[derive(Debug)]
pub struct ValidationMachine {
    pub record: ValidationRecord,
    pub step: ValidationStep,
}

/// The plain value of a [`ValidationMachine`].
pub struct ValidationMachineView {
    pub record: ValidationRecordView,
    pub step: ValidationStep,
}

impl View for ValidationMachine {
    type V = ValidationMachineView;

    open spec fn view(&self) -> ValidationMachineView {
        ValidationMachineView { record: self.record@, step: self.step }
    }
}

/// The audit effect of a finished validation.
pub open spec fn validation_finished_audit(r: ValidationRecordView, now: Timestamp) -> ValidationEffectView {
    ValidationEffectView::Audit(
        r.attempt_id,
        now,
        if r.status == ValidationStatus::Accepted {
            AuditEventKind::ValidationAccepted
        } else {
            AuditEventKind::ValidationRejected
        },
        validation_finished_message(r),
    )
}

/// Ends a validation with the record `r`: the verdict is drawn, the record is
/// saved, then the finish is audited.
pub open spec fn validation_concluded(r: ValidationRecordView, now: Timestamp) -> (ValidationMachineView, Seq<ValidationEffectView>, ValidationCommandView) {
    let r2 = verdict_step(r);
    (
        ValidationMachineView { record: r2, step: ValidationStep::Finished },
        seq![ValidationEffectView::SaveRecord(r2), validation_finished_audit(r2, now)],
        ValidationCommandView::Finish,
    )
}

/// How a validation begins: the fresh record (rejected until proven
/// otherwise), the start audited, and staging asked for.
pub open spec fn validation_start_state(attempt_id: u128, source_path: String, now: Timestamp) -> (ValidationMachineView, Seq<ValidationEffectView>, ValidationCommandView) {
    let r = ValidationRecordView {
        attempt_id,
        status: ValidationStatus::Rejected,
        source_path,
        staged_path: None,
        source_file_size_bytes: None,
        validated_at: now,
        manifest: None,
        image_archive: None,
        issues: Seq::empty(),
    };
    (
        ValidationMachineView { record: r, step: ValidationStep::Stage },
        seq![ValidationEffectView::Audit(
            attempt_id,
            now,
            AuditEventKind::ValidationStarted,
            "started validating package `"@ + source_path@ + "`"@,
        )],
        ValidationCommandView::StagePackage,
    )
}

/// Which outcomes each step waits for.
pub open spec fn validation_outcome_fits(step: ValidationStep, o: ValidationOutcome) -> bool {
    match step {
        ValidationStep::Stage => o is Staged || o is StagingFailed,
        ValidationStep::Inspect => o is Inspected || o is ArchiveFailed,
        ValidationStep::ParseManifest => o is ManifestParsed,
        ValidationStep::Finished => false,
    }
}

/// What one step records and asks for next, given the outcome of the
/// operation it waited for, the catalog, the running updater's version and
/// the current time.
pub open spec fn validation_next(
    m: ValidationMachineView,
    o: ValidationOutcome,
    catalog: ServiceCatalog,
    current: SemVer,
    now: Timestamp,
) -> (ValidationMachineView, Seq<ValidationEffectView>, ValidationCommandView) {
    match m.step {
        ValidationStep::Stage => match o {
            ValidationOutcome::Staged(staged) => match staged {
                Ok((path, _)) => (
                    ValidationMachineView { record: staging_step(m.record, staged), step: ValidationStep::Inspect },
                    Seq::empty(),
                    ValidationCommandView::InspectArchive(path@),
                ),
                Err(_) => validation_concluded(staging_step(m.record, staged), now),
            },
            ValidationOutcome::StagingFailed(e) => (
                ValidationMachineView { step: ValidationStep::Finished, ..m },
                Seq::empty(),
                ValidationCommandView::Abort(PackageIntakeError::Staging(e)),
            ),
            _ => (m, Seq::empty(), ValidationCommandView::Finish),
        },
        ValidationStep::Inspect => match o {
            ValidationOutcome::Inspected(inspected) => match inspected {
                Ok(ins) => (
                    ValidationMachineView { record: inspection_step(m.record, inspected), step: ValidationStep::ParseManifest },
                    Seq::empty(),
                    ValidationCommandView::ParseManifest(ins.manifest_bytes@),
                ),
                Err(_) => validation_concluded(inspection_step(m.record, inspected), now),
            },
            ValidationOutcome::ArchiveFailed(e) => (
                ValidationMachineView { step: ValidationStep::Finished, ..m },
                Seq::empty(),
                ValidationCommandView::Abort(PackageIntakeError::ArchiveIo(e)),
            ),
            _ => (m, Seq::empty(), ValidationCommandView::Finish),
        },
        ValidationStep::ParseManifest => match o {
            ValidationOutcome::ManifestParsed(parsed) => validation_concluded(manifest_step(m.record, parsed, catalog, current), now),
            _ => (m, Seq::empty(), ValidationCommandView::Finish),
        },
        ValidationStep::Finished => (m, Seq::empty(), ValidationCommandView::Finish),
    }
}

/// Well-formedness of a validation in progress: until it finishes, no issue
/// was found and the record is still rejected.
pub open spec fn validation_wf(m: ValidationMachineView) -> bool {
    m.step != ValidationStep::Finished ==> m.record.issues.len() == 0 && m.record.status == ValidationStatus::Rejected
}

fn emit_validation(fx: &mut Vec<ValidationEffect>, e: ValidationEffect)
    ensures
        validation_effects_view(final(fx)@) == validation_effects_view(old(fx)@).push(e@),
{
    let ghost before = fx@;
    let ghost ev = e@;
    fx.push(e);
    assert(validation_effects_view(fx@) =~= validation_effects_view(before).push(ev));
}

impl ValidationMachine {
    /// Begins a validation attempt of the package at `source_path`: says what
    /// to record and asks for the package to be staged.
    pub fn start(attempt_id: u128, source_path: String, now: Timestamp) -> (r: (ValidationMachine, Vec<ValidationEffect>, ValidationCommand))
        ensures
            (r.0@, validation_effects_view(r.1@), r.2@) == validation_start_state(attempt_id, source_path, now),
            validation_wf(r.0@),
    {
        let started = audit::validation_started(attempt_id, source_path.as_str(), now);
        let record = ValidationRecord::new(attempt_id, source_path, now);
        let mut fx: Vec<ValidationEffect> = Vec::new();
        emit_validation(&mut fx, ValidationEffect::AppendAudit(started));
        let m = ValidationMachine { record, step: ValidationStep::Stage };
        proof {
            assert(m.record@.issues =~= Seq::<IssueView>::empty());
            assert(validation_effects_view(fx@) =~= validation_start_state(attempt_id, source_path, now).1);
        }
        (m, fx, ValidationCommand::StagePackage)
    }

    /// Whether an outcome is one the current step waits for.
    pub fn fits(&self, o: &ValidationOutcome) -> (b: bool)
        ensures
            b == validation_outcome_fits(self.step, *o),
    {
        match self.step {
            ValidationStep::Stage => matches!(o, ValidationOutcome::Staged(_) | ValidationOutcome::StagingFailed(_)),
            ValidationStep::Inspect => matches!(o, ValidationOutcome::Inspected(_) | ValidationOutcome::ArchiveFailed(_)),
            ValidationStep::ParseManifest => matches!(o, ValidationOutcome::ManifestParsed(_)),
            ValidationStep::Finished => false,
        }
    }

    fn conclude(&mut self, now: Timestamp, fx: &mut Vec<ValidationEffect>) -> (cmd: ValidationCommand)
        ensures
            final(self)@ == validation_concluded(old(self)@.record, now).0,
            validation_effects_view(final(fx)@) == validation_effects_view(old(fx)@) + validation_concluded(old(self)@.record, now).1,
            cmd@ == validation_concluded(old(self)@.record, now).2,
    {
        let ghost fx0 = validation_effects_view(fx@);
        conclude_validation(&mut self.record);
        self.step = ValidationStep::Finished;
        emit_validation(fx, ValidationEffect::SaveRecord(self.record.clone()));
        emit_validation(fx, ValidationEffect::AppendAudit(audit::validation_finished(&self.record, now)));
        assert(validation_effects_view(fx@) =~= fx0 + validation_concluded(old(self)@.record, now).1);
        ValidationCommand::Finish
    }

    /// Takes the outcome of the operation the current step waited for, and
    /// says what to record and which operation comes next.
    pub fn advance(
        &mut self,
        outcome: ValidationOutcome,
        catalog: &ServiceCatalog,
        current_updater_version: &SemVer,
        now: Timestamp,
    ) -> (r: (Vec<ValidationEffect>, ValidationCommand))
        requires
            validation_wf(old(self)@),
            validation_outcome_fits(old(self).step, outcome),
        ensures
            (final(self)@, validation_effects_view(r.0@), r.1@) == validation_next(old(self)@, outcome, *catalog, *current_updater_version, now),
            validation_wf(final(self)@),
    {
        let mut fx: Vec<ValidationEffect> = Vec::new();
        assert(validation_effects_view(fx@) =~= Seq::<ValidationEffectView>::empty());
        let cmd = match self.step {
            ValidationStep::Stage => match outcome {
                ValidationOutcome::Staged(Ok((path, size))) => {
                    let target = path.clone();
                    record_staging(&mut self.record, Ok((path, size)));
                    self.step = ValidationStep::Inspect;
                    ValidationCommand::InspectArchive(target)
                },
                ValidationOutcome::Staged(Err(issue)) => {
                    record_staging(&mut self.record, Err(issue));
                    self.conclude(now, &mut fx)
                },
                ValidationOutcome::StagingFailed(e) => {
                    self.step = ValidationStep::Finished;
                    ValidationCommand::Abort(PackageIntakeError::Staging(e))
                },
                _ => ValidationCommand::Finish,
            },
            ValidationStep::Inspect => match outcome {
                ValidationOutcome::Inspected(inspected) => {
                    match record_inspection(&mut self.record, inspected) {
                        Some(bytes) => {
                            self.step = ValidationStep::ParseManifest;
                            ValidationCommand::ParseManifest(bytes)
                        },
                        None => self.conclude(now, &mut fx),
                    }
                },
                ValidationOutcome::ArchiveFailed(e) => {
                    self.step = ValidationStep::Finished;
                    ValidationCommand::Abort(PackageIntakeError::ArchiveIo(e))
                },
                _ => ValidationCommand::Finish,
            },
            ValidationStep::ParseManifest => match outcome {
                ValidationOutcome::ManifestParsed(parsed) => {
                    record_manifest(&mut self.record, parsed, catalog, current_updater_version);
                    self.conclude(now, &mut fx)
                },
                _ => ValidationCommand::Finish,
            },
            ValidationStep::Finished => ValidationCommand::Finish,
        };
        (fx, cmd)
    }
}

/// Every step keeps a validation well-formed.
pub proof fn lemma_validation_next_preserves_wf(
    m: ValidationMachineView,
    o: ValidationOutcome,
    catalog: ServiceCatalog,
    current: SemVer,
    now: Timestamp,
)
    requires
        validation_wf(m),
        validation_outcome_fits(m.step, o),
    ensures
        validation_wf(validation_next(m, o, catalog, current, now).0),
{
}

/// A validation records nothing until it ends. When it ends with its record,
/// it saves that record once and then audits the finish (accepted or
/// rejected, as the record's status says) under the same attempt; together
/// with the start, an attempt is audited exactly twice, with its record saved
/// in between. When it stops with an error, it records nothing more.
pub proof fn law_validation_records_only_at_end(
    m: ValidationMachineView,
    o: ValidationOutcome,
    catalog: ServiceCatalog,
    current: SemVer,
    now: Timestamp,
)
    requires
        validation_wf(m),
        validation_outcome_fits(m.step, o),
    ensures
        ({
            let (m2, fx, cmd) = validation_next(m, o, catalog, current, now);
            &&& m2.record.attempt_id == m.record.attempt_id
            &&& (cmd is Finish || cmd is Abort) <==> m2.step == ValidationStep::Finished
            &&& !(cmd is Finish) ==> fx.len() == 0
            &&& cmd is Finish ==> fx == seq![
                ValidationEffectView::SaveRecord(m2.record),
                ValidationEffectView::Audit(
                    m.record.attempt_id,
                    now,
                    if m2.record.status == ValidationStatus::Accepted {
                        AuditEventKind::ValidationAccepted
                    } else {
                        AuditEventKind::ValidationRejected
                    },
                    validation_finished_message(m2.record),
                ),
            ]
            &&& cmd is Finish ==> ((m2.record.status == ValidationStatus::Accepted) <==> (m2.record.issues.len() == 0))
        }),
{
}

/// A validation run by its steps, from staging on, ends with the record
/// [`validation_outcome`] describes for the outcomes it was handed: it stops
/// at the first failed step and otherwise draws its verdict after the manifest.
pub proof fn law_validation_run_follows_outcome(
    m: ValidationMachineView,
    staged: Result<(String, u64), ValidationIssue>,
    inspected: Result<ArchiveInspection, ValidationIssue>,
    parsed: Result<PackageManifest, ValidationIssue>,
    catalog: ServiceCatalog,
    current: SemVer,
    t1: Timestamp,
    t2: Timestamp,
    t3: Timestamp,
)
    requires
        validation_wf(m),
        m.step == ValidationStep::Stage,
    ensures
        ({
            let m1 = validation_next(m, ValidationOutcome::Staged(staged), catalog, current, t1).0;
            let m2 = validation_next(m1, ValidationOutcome::Inspected(inspected), catalog, current, t2).0;
            let m3 = validation_next(m2, ValidationOutcome::ManifestParsed(parsed), catalog, current, t3).0;
            let end = if staged is Err { m1 } else if inspected is Err { m2 } else { m3 };
            &&& end.step == ValidationStep::Finished
            &&& end.record == validation_outcome(m.record, staged, inspected, parsed, catalog, current)
        }),
{
}

} // verus!
