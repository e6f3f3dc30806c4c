//! Image import: the decisions of loading an accepted package's image into Docker.
//!
//! Import failures are recorded on the import record, not returned as errors:
//! only a record that is not ready for import, or a persistence failure, stops
//! the workflow.

use vstd::prelude::*;
use crate::archive::ImageArchiveAccessError;
use crate::audit;
use crate::clock::Timestamp;
use crate::domain::{
    AuditEvent, AuditEventKind, CandidateReleaseRecord, CandidateReleaseView, ImageImportRecord,
    ImageImportStatus, ImageImportView, ImportedImageMetadata, ImportedImageView, IssueView, PackageManifest,
    ValidationIssue, ValidationRecord, ValidationStatus,
};
use crate::audit::image_import_finished_message;

verus! {

/// Errors that stop the image-import workflow entirely.
#[derive(Debug, PartialEq, Eq)]
pub enum ImageImportError {
    Precondition(String),
    Persistence(String),
}

/// The text of an import error, as shown to operators.
pub open spec fn import_error_text(e: ImageImportError) -> Seq<char> {
    match e {
        ImageImportError::Precondition(m) => "image import precondition failed: "@ + m@,
        ImageImportError::Persistence(m) => "failed to persist image import state: "@ + m@,
    }
}

impl ImageImportError {
    /// Renders the error for operators.
    pub fn message(&self) -> (s: String)
        ensures
            s@ == import_error_text(*self),
    {
        let (prefix, m) = match self {
            ImageImportError::Precondition(m) => ("image import precondition failed: ", m),
            ImageImportError::Persistence(m) => ("failed to persist image import state: ", m),
        };
        let mut s = String::from_str(prefix);
        s.append(m.as_str());
        s
    }
}

/// What an import starts from: the staged package and its manifest.
pub struct ImportStart {
    /// The new import record (failed until the import completes).
    pub record: ImageImportRecord,
    /// The audit event announcing the import.
    pub started: AuditEvent,
    /// The staged package holding `image.tar`.
    pub staged_path: String,
}

/// Checks a validation record is ready for import and opens the import record:
/// the record must be accepted and carry its staged path and manifest.
pub fn begin_import(validation: &ValidationRecord, import_id: u128, now: Timestamp) -> (r: Result<ImportStart, ImageImportError>)
    ensures
        validation.status != ValidationStatus::Accepted ==> (r matches Err(ImageImportError::Precondition(m))
            && m@ == "image import requires an accepted validation record"@),
        (validation.status == ValidationStatus::Accepted && validation.staged_path is None) ==> (r matches Err(
            ImageImportError::Precondition(m),
        ) && m@ == "accepted validation record is missing staged package path"@),
        (validation.status == ValidationStatus::Accepted && validation.staged_path is Some && validation.manifest is None)
            ==> (r matches Err(ImageImportError::Precondition(m)) && m@ == "accepted validation record is missing manifest metadata"@),
        (validation.status == ValidationStatus::Accepted && validation.staged_path is Some && validation.manifest is Some) ==> (
        r matches Ok(s) && {
            let m = validation.manifest->0;
            &&& s.staged_path == validation.staged_path->0
            &&& s.record@ == (ImageImportView {
                import_id,
                validation_attempt_id: validation.attempt_id,
                status: ImageImportStatus::Failed,
                service_name: m.target.service,
                image_reference: m.image.reference,
                package_version: m.package_version,
                imported_at: now,
                imported_image: None,
                candidate_release_id: None,
                issues: Seq::empty(),
            })
            &&& audit::event_is(
                s.started,
                validation.attempt_id,
                now,
                AuditEventKind::ImageImportStarted,
                "started importing image `"@ + m.image.reference@ + "`"@,
            )
        }),
{
    if validation.status != ValidationStatus::Accepted {
        return Err(ImageImportError::Precondition(String::from_str("image import requires an accepted validation record")));
    }
    let staged_path = match &validation.staged_path {
        Some(p) => p.clone(),
        None => return Err(ImageImportError::Precondition(String::from_str("accepted validation record is missing staged package path"))),
    };
    let manifest: &PackageManifest = match &validation.manifest {
        Some(m) => m,
        None => return Err(ImageImportError::Precondition(String::from_str("accepted validation record is missing manifest metadata"))),
    };
    let record = ImageImportRecord::new(
        import_id,
        validation.attempt_id,
        manifest.target.service.clone(),
        manifest.image.reference.clone(),
        manifest.package_version.clone(),
        now,
    );
    let started = audit::image_import_started(validation.attempt_id, manifest.image.reference.as_str(), now);
    Ok(ImportStart { record, started, staged_path })
}

/// The issue recorded when `image.tar` cannot be extracted.
pub open spec fn archive_access_issue(error: ImageArchiveAccessError) -> IssueView {
    IssueView {
        code: "package.image_archive_access_failed"@,
        message: "failed to access staged image.tar: "@ + match error {
            ImageArchiveAccessError::Issue(i) => seq!['['] + i.code@ + seq![']', ' '] + i.message@,
            ImageArchiveAccessError::Io(e) => "failed to access staged package archive: "@ + e@,
        },
    }
}

/// The issue recorded when Docker cannot load the image archive.
pub open spec fn load_issue(error: Seq<char>) -> IssueView {
    IssueView { code: "docker.load_failed"@, message: "failed to load image archive into Docker: "@ + error }
}

/// The issue recorded when the loaded image cannot be inspected.
pub open spec fn inspect_issue(error: Seq<char>) -> IssueView {
    IssueView { code: "docker.inspect_failed"@, message: "failed to inspect imported image: "@ + error }
}

/// An import record that failed with one more issue.
pub open spec fn failed_with(r: ImageImportView, issue: IssueView) -> ImageImportView {
    ImageImportView { status: ImageImportStatus::Failed, issues: r.issues.push(issue), ..r }
}

/// An import record that completed with the inspected image and its candidate release.
pub open spec fn imported_as(r: ImageImportView, image: ImportedImageView, candidate_release_id: u128) -> ImageImportView {
    ImageImportView {
        status: ImageImportStatus::Imported,
        imported_image: Some(image),
        candidate_release_id: Some(candidate_release_id),
        ..r
    }
}

/// Records that `image.tar` could not be extracted from the staged package.
pub fn fail_archive_access(record: &mut ImageImportRecord, error: &ImageArchiveAccessError)
    ensures
        final(record)@ == failed_with(old(record)@, archive_access_issue(*error)),
{
    let mut m = String::from_str("failed to access staged image.tar: ");
    m.append(error.message().as_str());
    record.fail_with(ValidationIssue::with_message("package.image_archive_access_failed", m));
}

/// Records that Docker failed to load the image archive.
pub fn fail_docker_load(record: &mut ImageImportRecord, error: &str)
    ensures
        final(record)@ == failed_with(old(record)@, load_issue(error@)),
{
    let mut m = String::from_str("failed to load image archive into Docker: ");
    m.append(error);
    record.fail_with(ValidationIssue::with_message("docker.load_failed", m));
}

/// Records that the imported image could not be inspected.
pub fn fail_docker_inspect(record: &mut ImageImportRecord, error: &str)
    ensures
        final(record)@ == failed_with(old(record)@, inspect_issue(error@)),
{
    let mut m = String::from_str("failed to inspect imported image: ");
    m.append(error);
    record.fail_with(ValidationIssue::with_message("docker.inspect_failed", m));
}

/// Completes an import: builds the candidate release for the imported image
/// and marks the record imported, linked to it.
pub fn complete_import(
    record: &mut ImageImportRecord,
    imported_image: ImportedImageMetadata,
    candidate_release_id: u128,
    created_at: Timestamp,
) -> (candidate: CandidateReleaseRecord)
    ensures
        candidate@ == candidate_for(old(record)@, imported_image@, candidate_release_id, created_at),
        final(record)@ == imported_as(old(record)@, imported_image@, candidate_release_id),
{
    let candidate = CandidateReleaseRecord::new(
        candidate_release_id,
        record.import_id,
        record.validation_attempt_id,
        record.service_name.clone(),
        record.image_reference.clone(),
        record.package_version.clone(),
        created_at,
        imported_image.clone(),
    );
    record.mark_imported(imported_image, candidate_release_id);
    candidate
}

/// An import record names a candidate release exactly when it is imported,
/// and every failure leaves it failed without one: the import steps keep an
/// import record consistent.
pub open spec fn import_consistent(r: ImageImportView) -> bool {
    (r.status == ImageImportStatus::Imported) <==> (r.candidate_release_id is Some && r.imported_image is Some)
}

/// The import steps keep an import record consistent: a new record, a failure
/// recorded on a consistent record that was not imported, and a completion
/// all give consistent records.
pub proof fn law_import_record_consistent(before: ImageImportView, issue: IssueView, image: crate::domain::ImportedImageView, id: u128)
    requires
        import_consistent(before),
        before.status == ImageImportStatus::Failed,
    ensures
        import_consistent(ImageImportView { status: ImageImportStatus::Failed, issues: before.issues.push(issue), ..before }),
        import_consistent(ImageImportView {
            status: ImageImportStatus::Imported,
            imported_image: Some(image),
            candidate_release_id: Some(id),
            ..before
        }),
{
}

/// How an import record ends: a failure at extracting, loading or
/// inspecting the image records that issue and stops; otherwise the import
/// completes with the inspected image and the new candidate release.
pub open spec fn import_outcome(
    start: ImageImportView,
    extracted: Result<(), ImageArchiveAccessError>,
    loaded: Result<(), String>,
    inspected: Result<ImportedImageMetadata, String>,
    candidate_release_id: u128,
) -> ImageImportView {
    match extracted {
        Err(e) => failed_with(start, archive_access_issue(e)),
        Ok(()) => match loaded {
            Err(e) => failed_with(start, load_issue(e@)),
            Ok(()) => match inspected {
                Err(e) => failed_with(start, inspect_issue(e@)),
                Ok(image) => imported_as(start, image@, candidate_release_id),
            },
        },
    }
}

/// An import that starts from a fresh record ends imported, linked to its
/// candidate release, exactly when the image was extracted, loaded and
/// inspected; otherwise it ends failed, without a candidate release, with the
/// one issue of the step that failed.
pub proof fn law_import_completes_iff_every_step_succeeded(
    start: ImageImportView,
    extracted: Result<(), ImageArchiveAccessError>,
    loaded: Result<(), String>,
    inspected: Result<ImportedImageMetadata, String>,
    candidate_release_id: u128,
)
    requires
        start.status == ImageImportStatus::Failed,
        start.imported_image is None,
        start.candidate_release_id is None,
        start.issues.len() == 0,
    ensures
        ({
            let end = import_outcome(start, extracted, loaded, inspected, candidate_release_id);
            &&& (end.status == ImageImportStatus::Imported) <==> (extracted is Ok && loaded is Ok && inspected is Ok)
            &&& import_consistent(end)
            &&& (end.status == ImageImportStatus::Imported) ==> end.candidate_release_id == Some(candidate_release_id)
                && end.issues.len() == 0
            &&& (end.status == ImageImportStatus::Failed) ==> end.issues.len() == 1
        }),
{
}

// ---------------------------------------------------------------------------
// The import as a sequence of steps: what to record and which Docker or
// archive operation comes next, after each outcome.
// ---------------------------------------------------------------------------

/// Where an import stands: which operation's outcome it waits for.
#[derive(Clone, Copy, Debug, PartialEq, Eq, Structural)]
pub enum ImportStep {
    ExtractArchive,
    LoadImage,
    InspectImage,
    Finished,
}

/// The operation the caller performs next.
#[derive(Debug, PartialEq, Eq)]
pub enum ImportCommand {
    /// Extract `image.tar` from the staged package (answer with `Extracted`).
    ExtractImageArchive(String),
    /// Load the extracted archive into Docker (answer with `Loaded`).
    LoadImageArchive,
    /// Inspect the loaded image by its reference (answer with `Inspected`).
    InspectImage(String),
    /// The import is over.
    Finish,
}

/// The plain value of an [`ImportCommand`].
pub enum ImportCommandView {
    ExtractImageArchive(Seq<char>),
    LoadImageArchive,
    InspectImage(Seq<char>),
    Finish,
}

impl View for ImportCommand {
    type V = ImportCommandView;

    open spec fn view(&self) -> ImportCommandView {
        match self {
            ImportCommand::ExtractImageArchive(p) => ImportCommandView::ExtractImageArchive(p@),
            ImportCommand::LoadImageArchive => ImportCommandView::LoadImageArchive,
            ImportCommand::InspectImage(r) => ImportCommandView::InspectImage(r@),
            ImportCommand::Finish => ImportCommandView::Finish,
        }
    }
}

/// The outcome of the operation a step asked for; a failure carries the
/// operation's error message.
#[derive(Debug, PartialEq, Eq)]
pub enum ImportOutcome {
    Extracted(Result<(), ImageArchiveAccessError>),
    Loaded(Result<(), String>),
    Inspected(Result<ImportedImageMetadata, String>),
}

/// A record the caller persists, in order, before performing the next command.
#[derive(Debug, PartialEq, Eq)]
pub enum ImportEffect {
    AppendAudit(AuditEvent),
    SaveCandidate(CandidateReleaseRecord),
    SaveImportRecord(ImageImportRecord),
}

/// The plain value of an [`ImportEffect`] (an audit event without its random id).
pub enum ImportEffectView {
    Audit(u128, Timestamp, AuditEventKind, Seq<char>),
    SaveCandidate(CandidateReleaseView),
    SaveRecord(ImageImportView),
}

impl View for ImportEffect {
    type V = ImportEffectView;

    open spec fn view(&self) -> ImportEffectView {
        match self {
            ImportEffect::AppendAudit(e) => ImportEffectView::Audit(e.attempt_id, e.occurred_at, e.kind, e.message@),
            ImportEffect::SaveCandidate(c) => ImportEffectView::SaveCandidate(c@),
            ImportEffect::SaveImportRecord(r) => ImportEffectView::SaveRecord(r@),
        }
    }
}

/// The plain values of a list of effects.
pub open spec fn import_effects_view(v: Seq<ImportEffect>) -> Seq<ImportEffectView> {
    v.map_values(|e: ImportEffect| e@)
}

/// One image import in progress.
#[derive(Debug)]
pub struct ImportMachine {
    pub record: ImageImportRecord,
    /// The staged package holding `image.tar`.
    pub staged_path: String,
    pub step: ImportStep,
}

/// The plain value of an [`ImportMachine`].
pub struct ImportMachineView {
    pub record: ImageImportView,
    pub staged_path: Seq<char>,
    pub step: ImportStep,
}

impl View for ImportMachine {
    type V = ImportMachineView;

    open spec fn view(&self) -> ImportMachineView {
        ImportMachineView { record: self.record@, staged_path: self.staged_path@, step: self.step }
    }
}

/// The audit effect of a finished import.
pub open spec fn import_finished_audit(r: ImageImportView, now: Timestamp) -> ImportEffectView {
    ImportEffectView::Audit(
        r.validation_attempt_id,
        now,
        if r.status == ImageImportStatus::Imported {
            AuditEventKind::ImageImportSucceeded
        } else {
            AuditEventKind::ImageImportFailed
        },
        image_import_finished_message(r),
    )
}

/// The candidate release an import creates for the inspected image.
pub open spec fn candidate_for(r: ImageImportView, image: ImportedImageView, candidate_release_id: u128, created_at: Timestamp) -> CandidateReleaseView {
    CandidateReleaseView {
        candidate_release_id,
        import_id: r.import_id,
        validation_attempt_id: r.validation_attempt_id,
        service_name: r.service_name,
        image_reference: r.image_reference,
        package_version: r.package_version,
        created_at,
        imported_image: image,
    }
}

/// Ends an import as failed with `issue`: the record is saved, then the
/// finish is audited, and nothing more is asked for.
pub open spec fn import_failed(m: ImportMachineView, issue: IssueView, now: Timestamp) -> (ImportMachineView, Seq<ImportEffectView>, ImportCommandView) {
    let r = failed_with(m.record, issue);
    (
        ImportMachineView { record: r, step: ImportStep::Finished, ..m },
        seq![ImportEffectView::SaveRecord(r), import_finished_audit(r, now)],
        ImportCommandView::Finish,
    )
}

/// How an import begins, for a validation record that is ready for it: the
/// fresh record, the start audited, and the extraction of `image.tar` asked for.
pub open spec fn import_start_state(validation: ValidationRecord, import_id: u128, now: Timestamp) -> (ImportMachineView, Seq<ImportEffectView>, ImportCommandView) {
    let m = validation.manifest->0;
    let staged = validation.staged_path->0@;
    let r = ImageImportView {
        import_id,
        validation_attempt_id: validation.attempt_id,
        status: ImageImportStatus::Failed,
        service_name: m.target.service,
        image_reference: m.image.reference,
        package_version: m.package_version,
        imported_at: now,
        imported_image: None,
        candidate_release_id: None,
        issues: Seq::empty(),
    };
    (
        ImportMachineView { record: r, staged_path: staged, step: ImportStep::ExtractArchive },
        seq![ImportEffectView::Audit(
            validation.attempt_id,
            now,
            AuditEventKind::ImageImportStarted,
            "started importing image `"@ + m.image.reference@ + "`"@,
        )],
        ImportCommandView::ExtractImageArchive(staged),
    )
}

/// Which outcome each step waits for.
pub open spec fn import_outcome_fits(step: ImportStep, o: ImportOutcome) -> bool {
    match step {
        ImportStep::ExtractArchive => o is Extracted,
        ImportStep::LoadImage => o is Loaded,
        ImportStep::InspectImage => o is Inspected,
        ImportStep::Finished => false,
    }
}

/// What one step records and asks for next, given the outcome of the
/// operation it waited for, the identifier for a new candidate release and
/// the current time.
pub open spec fn import_next(m: ImportMachineView, o: ImportOutcome, candidate_release_id: u128, now: Timestamp) -> (ImportMachineView, Seq<ImportEffectView>, ImportCommandView) {
    match m.step {
        ImportStep::ExtractArchive => match o {
            ImportOutcome::Extracted(Err(e)) => import_failed(m, archive_access_issue(e), now),
            ImportOutcome::Extracted(Ok(())) => (
                ImportMachineView { step: ImportStep::LoadImage, ..m },
                Seq::empty(),
                ImportCommandView::LoadImageArchive,
            ),
            _ => (m, Seq::empty(), ImportCommandView::Finish),
        },
        ImportStep::LoadImage => match o {
            ImportOutcome::Loaded(Err(e)) => import_failed(m, load_issue(e@), now),
            ImportOutcome::Loaded(Ok(())) => (
                ImportMachineView { step: ImportStep::InspectImage, ..m },
                Seq::empty(),
                ImportCommandView::InspectImage(m.record.image_reference@),
            ),
            _ => (m, Seq::empty(), ImportCommandView::Finish),
        },
        ImportStep::InspectImage => match o {
            ImportOutcome::Inspected(Err(e)) => import_failed(m, inspect_issue(e@), now),
            ImportOutcome::Inspected(Ok(image)) => {
                let r = imported_as(m.record, image@, candidate_release_id);
                (
                    ImportMachineView { record: r, step: ImportStep::Finished, ..m },
                    seq![
                        ImportEffectView::SaveCandidate(candidate_for(m.record, image@, candidate_release_id, now)),
                        ImportEffectView::SaveRecord(r),
                        import_finished_audit(r, now),
                    ],
                    ImportCommandView::Finish,
                )
            },
            _ => (m, Seq::empty(), ImportCommandView::Finish),
        },
        ImportStep::Finished => (m, Seq::empty(), ImportCommandView::Finish),
    }
}

/// Well-formedness of an import in progress: until it finishes, the record is
/// the fresh one, failed without issues, image or candidate release.
pub open spec fn import_wf(m: ImportMachineView) -> bool {
    m.step != ImportStep::Finished ==> {
        &&& m.record.status == ImageImportStatus::Failed
        &&& m.record.issues.len() == 0
        &&& m.record.imported_image is None
        &&& m.record.candidate_release_id is None
    }
}

fn emit_import(fx: &mut Vec<ImportEffect>, e: ImportEffect)
    ensures
        import_effects_view(final(fx)@) == import_effects_view(old(fx)@).push(e@),
{
    let ghost before = fx@;
    let ghost ev = e@;
    fx.push(e);
    assert(import_effects_view(fx@) =~= import_effects_view(before).push(ev));
}

impl ImportMachine {
    /// Whether an outcome is the kind the current step waits for.
    pub fn fits(&self, o: &ImportOutcome) -> (b: bool)
        ensures
            b == import_outcome_fits(self.step, *o),
    {
        match self.step {
            ImportStep::ExtractArchive => matches!(o, ImportOutcome::Extracted(_)),
            ImportStep::LoadImage => matches!(o, ImportOutcome::Loaded(_)),
            ImportStep::InspectImage => matches!(o, ImportOutcome::Inspected(_)),
            ImportStep::Finished => false,
        }
    }

    /// Begins the import of an accepted validation's image: refuses a record
    /// that is not ready for import (as [`begin_import`] does); otherwise says
    /// what to record and asks for `image.tar` to be extracted.
    pub fn start(validation: &ValidationRecord, import_id: u128, now: Timestamp) -> (r: Result<(ImportMachine, Vec<ImportEffect>, ImportCommand), ImageImportError>)
        ensures
            validation.status != ValidationStatus::Accepted ==> (r matches Err(ImageImportError::Precondition(m))
                && m@ == "image import requires an accepted validation record"@),
            (validation.status == ValidationStatus::Accepted && validation.staged_path is None) ==> (r matches Err(
                ImageImportError::Precondition(m),
            ) && m@ == "accepted validation record is missing staged package path"@),
            (validation.status == ValidationStatus::Accepted && validation.staged_path is Some && validation.manifest is None)
                ==> (r matches Err(ImageImportError::Precondition(m)) && m@ == "accepted validation record is missing manifest metadata"@),
            (validation.status == ValidationStatus::Accepted && validation.staged_path is Some && validation.manifest is Some) ==> (
            r matches Ok((m, fx, cmd)) && (m@, import_effects_view(fx@), cmd@) == import_start_state(*validation, import_id, now)
                && import_wf(m@)),
    {
        let start = begin_import(validation, import_id, now)?;
        let mut fx: Vec<ImportEffect> = Vec::new();
        emit_import(&mut fx, ImportEffect::AppendAudit(start.started));
        let cmd = ImportCommand::ExtractImageArchive(start.staged_path.clone());
        let m = ImportMachine { record: start.record, staged_path: start.staged_path, step: ImportStep::ExtractArchive };
        proof {
            assert(import_effects_view(fx@) =~= import_start_state(*validation, import_id, now).1);
        }
        Ok((m, fx, cmd))
    }

    fn close_failed(&mut self, now: Timestamp, fx: &mut Vec<ImportEffect>) -> (cmd: ImportCommand)
        ensures
            final(self)@ == (ImportMachineView { step: ImportStep::Finished, ..old(self)@ }),
            import_effects_view(final(fx)@) == import_effects_view(old(fx)@) + seq![
                ImportEffectView::SaveRecord(old(self)@.record),
                import_finished_audit(old(self)@.record, now),
            ],
            cmd@ == ImportCommandView::Finish,
    {
        let ghost fx0 = import_effects_view(fx@);
        self.step = ImportStep::Finished;
        emit_import(fx, ImportEffect::SaveImportRecord(self.record.clone()));
        emit_import(fx, ImportEffect::AppendAudit(audit::image_import_finished(&self.record, now)));
        assert(import_effects_view(fx@) =~= fx0 + seq![
            ImportEffectView::SaveRecord(old(self)@.record),
            import_finished_audit(old(self)@.record, now),
        ]);
        ImportCommand::Finish
    }

    /// Takes the outcome of the operation the current step waited for, and
    /// says what to record and which operation comes next. A completed import
    /// gets the candidate release `candidate_release_id`, created `now`.
    pub fn advance(&mut self, outcome: ImportOutcome, candidate_release_id: u128, now: Timestamp) -> (r: (Vec<ImportEffect>, ImportCommand))
        requires
            import_wf(old(self)@),
            import_outcome_fits(old(self).step, outcome),
        ensures
            (final(self)@, import_effects_view(r.0@), r.1@) == import_next(old(self)@, outcome, candidate_release_id, now),
            import_wf(final(self)@),
    {
        let mut fx: Vec<ImportEffect> = Vec::new();
        assert(import_effects_view(fx@) =~= Seq::<ImportEffectView>::empty());
        let ghost m0 = self@;
        let cmd = match self.step {
            ImportStep::ExtractArchive => match outcome {
                ImportOutcome::Extracted(Err(e)) => {
                    fail_archive_access(&mut self.record, &e);
                    self.close_failed(now, &mut fx)
                },
                ImportOutcome::Extracted(Ok(())) => {
                    self.step = ImportStep::LoadImage;
                    ImportCommand::LoadImageArchive
                },
                _ => ImportCommand::Finish,
            },
            ImportStep::LoadImage => match outcome {
                ImportOutcome::Loaded(Err(e)) => {
                    fail_docker_load(&mut self.record, e.as_str());
                    self.close_failed(now, &mut fx)
                },
                ImportOutcome::Loaded(Ok(())) => {
                    self.step = ImportStep::InspectImage;
                    ImportCommand::InspectImage(self.record.image_reference.clone())
                },
                _ => ImportCommand::Finish,
            },
            ImportStep::InspectImage => match outcome {
                ImportOutcome::Inspected(Err(e)) => {
                    fail_docker_inspect(&mut self.record, e.as_str());
                    self.close_failed(now, &mut fx)
                },
                ImportOutcome::Inspected(Ok(image)) => {
                    let ghost iv = image@;
                    let candidate = complete_import(&mut self.record, image, candidate_release_id, now);
                    self.step = ImportStep::Finished;
                    emit_import(&mut fx, ImportEffect::SaveCandidate(candidate));
                    emit_import(&mut fx, ImportEffect::SaveImportRecord(self.record.clone()));
                    emit_import(&mut fx, ImportEffect::AppendAudit(audit::image_import_finished(&self.record, now)));
                    assert(import_effects_view(fx@) =~= seq![
                        ImportEffectView::SaveCandidate(candidate_for(m0.record, iv, candidate_release_id, now)),
                        ImportEffectView::SaveRecord(self.record@),
                        import_finished_audit(self.record@, now),
                    ]);
                    ImportCommand::Finish
                },
                _ => ImportCommand::Finish,
            },
            ImportStep::Finished => ImportCommand::Finish,
        };
        (fx, cmd)
    }
}

/// Every step keeps an import well-formed.
pub proof fn lemma_import_next_preserves_wf(m: ImportMachineView, o: ImportOutcome, id: u128, now: Timestamp)
    requires
        import_wf(m),
        import_outcome_fits(m.step, o),
    ensures
        import_wf(import_next(m, o, id, now).0),
{
}

/// A failed extraction, Docker load or inspection ends the import: the record
/// ends failed with that step's issue and no candidate release, it is saved,
/// the failure is audited, and nothing more is asked for: no later Docker
/// operation and no candidate release.
pub proof fn law_import_failure_ends_import(m: ImportMachineView, o: ImportOutcome, id: u128, now: Timestamp)
    requires
        import_wf(m),
        import_outcome_fits(m.step, o),
        o matches ImportOutcome::Extracted(Err(_)) || o matches ImportOutcome::Loaded(Err(_))
            || o matches ImportOutcome::Inspected(Err(_)),
    ensures
        ({
            let (m2, fx, cmd) = import_next(m, o, id, now);
            let issue = match o {
                ImportOutcome::Extracted(Err(e)) => archive_access_issue(e),
                ImportOutcome::Loaded(Err(e)) => load_issue(e@),
                ImportOutcome::Inspected(Err(e)) => inspect_issue(e@),
                _ => arbitrary(),
            };
            &&& m2.step == ImportStep::Finished
            &&& cmd is Finish
            &&& m2.record.status == ImageImportStatus::Failed
            &&& m2.record.issues == seq![issue]
            &&& m2.record.candidate_release_id is None
            &&& m2.record.imported_image is None
            &&& fx == seq![
                ImportEffectView::SaveRecord(m2.record),
                ImportEffectView::Audit(
                    m.record.validation_attempt_id,
                    now,
                    AuditEventKind::ImageImportFailed,
                    image_import_finished_message(m2.record),
                ),
            ]
        }),
{
    assert(seq![].push(match o {
        ImportOutcome::Extracted(Err(e)) => archive_access_issue(e),
        ImportOutcome::Loaded(Err(e)) => load_issue(e@),
        ImportOutcome::Inspected(Err(e)) => inspect_issue(e@),
        _ => arbitrary(),
    }) =~= seq![match o {
        ImportOutcome::Extracted(Err(e)) => archive_access_issue(e),
        ImportOutcome::Loaded(Err(e)) => load_issue(e@),
        ImportOutcome::Inspected(Err(e)) => inspect_issue(e@),
        _ => arbitrary(),
    }]);
}

/// After the image was loaded, the image inspected is the one the record (and
/// so the manifest) names.
pub proof fn law_import_inspects_recorded_image(m: ImportMachineView, id: u128, now: Timestamp)
    requires
        m.step == ImportStep::LoadImage,
    ensures
        import_next(m, ImportOutcome::Loaded(Ok(())), id, now).2 == ImportCommandView::InspectImage(m.record.image_reference@),
{
}

/// A candidate release is saved only when the inspection succeeded, and then
/// exactly once, before the import record: the candidate and the imported
/// record name each other, the same validation, service, image and version;
/// then the success is audited and nothing more is asked for.
pub proof fn law_import_saves_candidate_then_record(m: ImportMachineView, o: ImportOutcome, id: u128, now: Timestamp, i: int)
    requires
        import_wf(m),
        import_outcome_fits(m.step, o),
        0 <= i < import_next(m, o, id, now).1.len(),
        import_next(m, o, id, now).1[i] is SaveCandidate,
    ensures
        m.step == ImportStep::InspectImage,
        o matches ImportOutcome::Inspected(Ok(_)),
        ({
            let (m2, fx, cmd) = import_next(m, o, id, now);
            let c = candidate_for(m.record, m2.record.imported_image->0, id, now);
            &&& i == 0
            &&& fx == seq![
                ImportEffectView::SaveCandidate(c),
                ImportEffectView::SaveRecord(m2.record),
                ImportEffectView::Audit(
                    m.record.validation_attempt_id,
                    now,
                    AuditEventKind::ImageImportSucceeded,
                    image_import_finished_message(m2.record),
                ),
            ]
            &&& m2.record.status == ImageImportStatus::Imported
            &&& m2.record.candidate_release_id == Some(c.candidate_release_id)
            &&& c.import_id == m2.record.import_id
            &&& c.validation_attempt_id == m2.record.validation_attempt_id
            &&& c.service_name == m2.record.service_name
            &&& c.image_reference == m2.record.image_reference
            &&& c.package_version == m2.record.package_version
            &&& m2.record.imported_image == Some(c.imported_image)
            &&& m2.record.issues.len() == 0
            &&& cmd is Finish
        }),
{
}

/// Each step moves an import closer to its end: an import finishes after at
/// most three operations.
pub proof fn law_import_progresses(m: ImportMachineView, o: ImportOutcome, id: u128, now: Timestamp)
    requires
        import_outcome_fits(m.step, o),
    ensures
        import_steps_left(import_next(m, o, id, now).0.step) < import_steps_left(m.step),
{
}

/// How many operations an import can still ask for.
pub open spec fn import_steps_left(s: ImportStep) -> nat {
    match s {
        ImportStep::ExtractArchive => 3,
        ImportStep::LoadImage => 2,
        ImportStep::InspectImage => 1,
        ImportStep::Finished => 0,
    }
}

/// An import run by its steps, from extracting `image.tar` on, ends with the
/// record [`import_outcome`] describes for the outcomes it was handed: it
/// stops at the first failure and otherwise completes after the inspection.
pub proof fn law_import_run_follows_outcome(
    m: ImportMachineView,
    extracted: Result<(), ImageArchiveAccessError>,
    loaded: Result<(), String>,
    inspected: Result<ImportedImageMetadata, String>,
    candidate_release_id: u128,
    t1: Timestamp,
    t2: Timestamp,
    t3: Timestamp,
)
    requires
        import_wf(m),
        m.step == ImportStep::ExtractArchive,
    ensures
        ({
            let m1 = import_next(m, ImportOutcome::Extracted(extracted), candidate_release_id, t1).0;
            let m2 = import_next(m1, ImportOutcome::Loaded(loaded), candidate_release_id, t2).0;
            let m3 = import_next(m2, ImportOutcome::Inspected(inspected), candidate_release_id, t3).0;
            let end = if extracted is Err { m1 } else if loaded is Err { m2 } else { m3 };
            &&& end.step == ImportStep::Finished
            &&& end.record == import_outcome(m.record, extracted, loaded, inspected, candidate_release_id)
        }),
{
}

} // verus!
