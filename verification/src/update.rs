//! Service update orchestration as a state machine.
//!
//! The updater applies one candidate release to one managed service: it moves
//! the running container (or Compose image) aside, starts the candidate, checks
//! health, and commits or rolls back. Each step here decides, from the outcome
//! of the previous runtime operation, what to record and which runtime
//! operation comes next; the caller performs the operations and the records'
//! persistence.

use vstd::prelude::*;
use crate::audit;
use crate::clock::Timestamp;
use crate::domain::{
    AuditEvent, AuditEventKind, CandidateReleaseRecord, HealthCheckOutcome, HealthCheckReport,
    HealthCheckSpec, IssueView, ManagedService, RuntimeMode, ServiceCatalog, ServiceStateRecord,
    UpdateAttemptRecord, UpdateAttemptStatus, UpdateAttemptView, ValidationIssue, runtime_kind,
};
use crate::health::{ObservedContainer, health_issue_code, issue_from_health_report};
use crate::ids::{uuid_hyphenated_string, uuid_hyphenated_text, uuid_simple_string, uuid_simple_text};

verus! {

/// Errors that stop the update workflow entirely.
#[derive(Debug, PartialEq, Eq)]
pub enum UpdateError {
    /// The candidate release or its service cannot be found.
    Precondition(String),
    /// Local state could not be read or written.
    Persistence(String),
}

/// The text of an update error, as shown to operators.
pub open spec fn update_error_text(e: UpdateError) -> Seq<char> {
    match e {
        UpdateError::Precondition(m) => "update precondition failed: "@ + m@,
        UpdateError::Persistence(m) => "failed to persist update state: "@ + m@,
    }
}

impl UpdateError {
    /// Renders the error for operators.
    pub fn message(&self) -> (s: String)
        ensures
            s@ == update_error_text(*self),
    {
        match self {
            UpdateError::Precondition(m) => {
                let mut s = String::from_str("update precondition failed: ");
                s.append(m.as_str());
                s
            },
            UpdateError::Persistence(m) => {
                let mut s = String::from_str("failed to persist update state: ");
                s.append(m.as_str());
                s
            },
        }
    }
}

/// The message for a candidate release that is not in local state.
pub open spec fn candidate_missing_message(id: u128) -> Seq<char> {
    "candidate release `"@ + uuid_hyphenated_text(id) + "` was not found"@
}

/// The message for a candidate whose service left the catalog.
pub open spec fn service_missing_message(service: Seq<char>) -> Seq<char> {
    "service `"@ + service + "` is not present in the current catalog"@
}

/// The error for a candidate release that could not be found.
pub fn candidate_not_found(candidate_release_id: u128) -> (e: UpdateError)
    ensures
        e matches UpdateError::Precondition(m) && m@ == candidate_missing_message(candidate_release_id),
{
    let mut m = String::from_str("candidate release `");
    m.append(uuid_hyphenated_string(candidate_release_id).as_str());
    m.append("` was not found");
    UpdateError::Precondition(m)
}

/// Finds the managed service a candidate release targets.
pub fn resolve_service(catalog: &ServiceCatalog, candidate: &CandidateReleaseRecord) -> (r: Result<ManagedService, UpdateError>)
    ensures
        match r {
            Ok(s) => exists|i: int|
                0 <= i < catalog.services@.len() && catalog.services@[i] == s && s.name@
                    == candidate.service_name@,
            Err(e) => (e matches UpdateError::Precondition(m) && m@ == service_missing_message(
                candidate.service_name@,
            )) && forall|i: int|
                0 <= i < catalog.services@.len() ==> #[trigger] catalog.services@[i].name@
                    != candidate.service_name@,
        },
{
    match catalog.find_service(candidate.service_name.as_str()) {
        Some(s) => Ok(s.clone()),
        None => {
            let mut m = String::from_str("service `");
            m.append(candidate.service_name.as_str());
            m.append("` is not present in the current catalog");
            Err(UpdateError::Precondition(m))
        },
    }
}

/// A failed runtime operation: its message and, for Docker API errors, the HTTP status.
#[derive(Debug, PartialEq, Eq)]
pub struct RuntimeFailure {
    pub message: String,
    pub status_code: Option<u16>,
}

/// Whether a failure only says the container is already gone or already in
/// the requested state (HTTP 404 or 304), which best-effort steps ignore.
pub open spec fn missing_or_not_modified(f: RuntimeFailure) -> bool {
    f.status_code == Some(404u16) || f.status_code == Some(304u16)
}

/// Whether a failure is one that best-effort steps ignore.
pub fn is_missing_or_not_modified(f: &RuntimeFailure) -> (b: bool)
    ensures
        b == missing_or_not_modified(*f),
{
    match f.status_code {
        Some(code) => code == 404 || code == 304,
        None => false,
    }
}

/// The name the old container takes while the candidate runs:
/// `{container}-caisson-rollback-{first 8 hex digits of the update id}`.
pub open spec fn rollback_name_text(container_name: Seq<char>, update_id: u128) -> Seq<char> {
    container_name + "-caisson-rollback-"@ + uuid_simple_text(update_id).take(8)
}

/// Builds the rollback name for a container.
pub fn rollback_container_name(container_name: &str, update_id: u128) -> (s: String)
    ensures
        s@ == rollback_name_text(container_name@, update_id),
{
    let suffix = uuid_simple_string(update_id);
    let mut s = String::from_str(container_name);
    s.append("-caisson-rollback-");
    s.append(suffix.as_str().substring_char(0, 8));
    s
}

/// The state recorded for a service once an update is committed.
pub open spec fn committed_state(
    service_name: String,
    candidate_release_id: u128,
    candidate_image: String,
    previous_state: Option<ServiceStateRecord>,
    previous_image: String,
    updated_at: Timestamp,
) -> ServiceStateRecord {
    ServiceStateRecord {
        service_name,
        active_candidate_release_id: Some(candidate_release_id),
        active_image_reference: candidate_image,
        previous_known_good_candidate_release_id: match previous_state {
            Some(s) => s.active_candidate_release_id,
            None => None,
        },
        previous_known_good_image_reference: Some(previous_image),
        updated_at,
    }
}

/// The state recorded for a service once an update is rolled back: the state
/// it had before (with a new timestamp), or, when none was recorded, the
/// previous image as both active and known-good.
pub open spec fn restored_state(
    service_name: String,
    previous_state: Option<ServiceStateRecord>,
    previous_image: String,
    updated_at: Timestamp,
) -> ServiceStateRecord {
    match previous_state {
        Some(s) => ServiceStateRecord { updated_at, ..s },
        None => ServiceStateRecord {
            service_name,
            active_candidate_release_id: None,
            active_image_reference: previous_image,
            previous_known_good_candidate_release_id: None,
            previous_known_good_image_reference: Some(previous_image),
            updated_at,
        },
    }
}

/// Builds the state recorded after a committed update.
pub fn committed_service_state(
    service_name: &String,
    candidate: &CandidateReleaseRecord,
    previous_state: &Option<ServiceStateRecord>,
    previous_image: &String,
    updated_at: Timestamp,
) -> (s: ServiceStateRecord)
    ensures
        s == committed_state(
            *service_name,
            candidate.candidate_release_id,
            candidate.image_reference,
            *previous_state,
            *previous_image,
            updated_at,
        ),
{
    ServiceStateRecord::new(
        service_name.clone(),
        Some(candidate.candidate_release_id),
        candidate.image_reference.clone(),
        match previous_state {
            Some(s) => s.active_candidate_release_id,
            None => None,
        },
        Some(previous_image.clone()),
        updated_at,
    )
}

/// Builds the state recorded after a rollback.
pub fn restored_service_state(
    service_name: &String,
    previous_state: &Option<ServiceStateRecord>,
    previous_image: &String,
    updated_at: Timestamp,
) -> (s: ServiceStateRecord)
    ensures
        s == restored_state(*service_name, *previous_state, *previous_image, updated_at),
{
    match previous_state {
        Some(state) => {
            let mut restored = state.clone();
            restored.updated_at = updated_at;
            restored
        },
        None => ServiceStateRecord::new(
            service_name.clone(),
            None,
            previous_image.clone(),
            None,
            Some(previous_image.clone()),
            updated_at,
        ),
    }
}

/// Where an update stands: which runtime operation's outcome it waits for.
#[derive(Clone, Copy, Debug, PartialEq, Eq, Structural)]
pub enum UpdateStep {
    InspectCurrent,
    StopCurrent,
    MoveCurrentAside,
    CreateReplacement,
    StartReplacement,
    ReadComposeImage,
    ApplyComposeImage,
    CheckHealth,
    RemoveBackup,
    RollbackStopReplacement,
    RollbackRemoveReplacement,
    RestoreName,
    RestartPrevious,
    RollbackComposeImage,
    Finished,
}

/// The runtime operation the caller performs next.
#[derive(Debug, PartialEq, Eq)]
pub enum RuntimeCommand {
    /// Inspect the named container (answer with `Inspected`).
    InspectContainer(String),
    /// Stop the named container (answer with `Completed`).
    StopContainer(String),
    /// Rename a container (answer with `Completed`).
    RenameContainer { from: String, to: String },
    /// Create a container under `name` from the first inspected container's
    /// configuration, running `image` (answer with `Completed`).
    CreateContainer { name: String, image: String },
    /// Start the named container (answer with `Completed`).
    StartContainer(String),
    /// Remove the named container (answer with `Completed`).
    RemoveContainer { name: String, force: bool },
    /// Read the image the Compose service currently uses (answer with `ComposeImage`).
    ReadComposeImage,
    /// Apply an image override to the Compose service (answer with `Completed`).
    ApplyComposeImage(String),
    /// Poll the named container's health until a report (answer with `Health`).
    WaitForContainerHealth { name: String, spec: HealthCheckSpec },
    /// Poll the health of the Compose service's containers (answer with `Health`).
    WaitForComposeHealth { project: String, service: String, spec: HealthCheckSpec },
    /// The attempt is over.
    Finish,
}

/// The plain value of a [`RuntimeCommand`].
pub enum CommandView {
    InspectContainer(Seq<char>),
    StopContainer(Seq<char>),
    RenameContainer(Seq<char>, Seq<char>),
    CreateContainer(Seq<char>, Seq<char>),
    StartContainer(Seq<char>),
    RemoveContainer(Seq<char>, bool),
    ReadComposeImage,
    ApplyComposeImage(Seq<char>),
    WaitForContainerHealth(Seq<char>, HealthCheckSpec),
    WaitForComposeHealth(Seq<char>, Seq<char>, HealthCheckSpec),
    Finish,
}

impl View for RuntimeCommand {
    type V = CommandView;

    open spec fn view(&self) -> CommandView {
        match self {
            RuntimeCommand::InspectContainer(n) => CommandView::InspectContainer(n@),
            RuntimeCommand::StopContainer(n) => CommandView::StopContainer(n@),
            RuntimeCommand::RenameContainer { from, to } => CommandView::RenameContainer(from@, to@),
            RuntimeCommand::CreateContainer { name, image } => CommandView::CreateContainer(name@, image@),
            RuntimeCommand::StartContainer(n) => CommandView::StartContainer(n@),
            RuntimeCommand::RemoveContainer { name, force } => CommandView::RemoveContainer(name@, *force),
            RuntimeCommand::ReadComposeImage => CommandView::ReadComposeImage,
            RuntimeCommand::ApplyComposeImage(i) => CommandView::ApplyComposeImage(i@),
            RuntimeCommand::WaitForContainerHealth { name, spec } => CommandView::WaitForContainerHealth(name@, *spec),
            RuntimeCommand::WaitForComposeHealth { project, service, spec } => CommandView::WaitForComposeHealth(project@, service@, *spec),
            RuntimeCommand::Finish => CommandView::Finish,
        }
    }
}

/// The outcome of the runtime operation a step asked for.
#[derive(Debug, PartialEq, Eq)]
pub enum RuntimeOutcome {
    Inspected(Result<ObservedContainer, RuntimeFailure>),
    Completed(Result<(), RuntimeFailure>),
    ComposeImage(Result<String, RuntimeFailure>),
    Health(HealthCheckReport),
}

/// A record the caller persists, in order, before performing the next command.
#[derive(Debug, PartialEq, Eq)]
pub enum UpdateEffect {
    SaveAttempt(UpdateAttemptRecord),
    AppendAudit(AuditEvent),
    SaveServiceState(ServiceStateRecord),
}

/// The plain value of an [`UpdateEffect`] (an audit event without its random id).
pub enum EffectView {
    SaveAttempt(UpdateAttemptView),
    Audit(u128, Timestamp, AuditEventKind, Seq<char>),
    SaveState(ServiceStateRecord),
}

impl View for UpdateEffect {
    type V = EffectView;

    open spec fn view(&self) -> EffectView {
        match self {
            UpdateEffect::SaveAttempt(a) => EffectView::SaveAttempt(a@),
            UpdateEffect::AppendAudit(e) => EffectView::Audit(e.attempt_id, e.occurred_at, e.kind, e.message@),
            UpdateEffect::SaveServiceState(s) => EffectView::SaveState(*s),
        }
    }
}

/// The plain values of a list of effects.
pub open spec fn effects_view(v: Seq<UpdateEffect>) -> Seq<EffectView> {
    v.map_values(|e: UpdateEffect| e@)
}

/// One service update in progress.
#[derive(Debug)]
pub struct UpdateMachine {
    pub service_name: String,
    pub runtime: RuntimeMode,
    pub health_check: HealthCheckSpec,
    pub candidate_release_id: u128,
    pub candidate_image: String,
    /// The service state recorded before this attempt, if any.
    pub previous_state: Option<ServiceStateRecord>,
    pub attempt: UpdateAttemptRecord,
    /// Where the old container waits during a Docker update (empty until chosen).
    pub backup_name: String,
    /// The image to roll back to, once known.
    pub previous_image: Option<String>,
    pub step: UpdateStep,
}

/// The plain value of an [`UpdateMachine`].
pub struct MachineView {
    pub service_name: String,
    pub runtime: RuntimeMode,
    pub health_check: HealthCheckSpec,
    pub candidate_release_id: u128,
    pub candidate_image: String,
    pub previous_state: Option<ServiceStateRecord>,
    pub attempt: UpdateAttemptView,
    pub backup_name: Seq<char>,
    pub previous_image: Option<String>,
    pub step: UpdateStep,
}

impl View for UpdateMachine {
    type V = MachineView;

    open spec fn view(&self) -> MachineView {
        MachineView {
            service_name: self.service_name,
            runtime: self.runtime,
            health_check: self.health_check,
            candidate_release_id: self.candidate_release_id,
            candidate_image: self.candidate_image,
            previous_state: self.previous_state,
            attempt: self.attempt@,
            backup_name: self.backup_name@,
            previous_image: self.previous_image,
            step: self.step,
        }
    }
}

// ---------------------------------------------------------------------------
// The model: what each step records and asks for next.
// ---------------------------------------------------------------------------

/// The Docker container a machine manages (meaningful for Docker services).
pub open spec fn container_of(m: MachineView) -> Seq<char> {
    match m.runtime {
        RuntimeMode::Docker(d) => d.container_name@,
        RuntimeMode::Compose(_) => Seq::empty(),
    }
}

/// The issue recorded for a failed runtime operation: `{prefix}: {failure}`.
pub open spec fn failure_issue(code: Seq<char>, prefix: Seq<char>, f: RuntimeFailure) -> IssueView {
    IssueView { code, message: prefix + ": "@ + f.message@ }
}

/// The attempt with one more issue.
pub open spec fn with_issue(a: UpdateAttemptView, i: IssueView) -> UpdateAttemptView {
    UpdateAttemptView { issues: a.issues.push(i), ..a }
}

/// The attempt with a new status and finish time.
pub open spec fn with_status(a: UpdateAttemptView, status: UpdateAttemptStatus, finished_at: Option<Timestamp>) -> UpdateAttemptView {
    UpdateAttemptView { status, finished_at, ..a }
}

/// An audit effect about the attempt.
pub open spec fn audit_of(a: UpdateAttemptView, now: Timestamp, kind: AuditEventKind, message: Seq<char>) -> EffectView {
    EffectView::Audit(a.update_id, now, kind, message)
}

/// Ends the attempt as failed, before anything needs undoing.
pub open spec fn finish_failed(m: MachineView, i: IssueView, now: Timestamp) -> (MachineView, Seq<EffectView>, CommandView) {
    let a = with_status(with_issue(m.attempt, i), UpdateAttemptStatus::Failed, Some(now));
    (MachineView { attempt: a, step: UpdateStep::Finished, ..m }, seq![EffectView::SaveAttempt(a)], CommandView::Finish)
}

/// The message recorded when a rollback finishes.
pub open spec fn rollback_end_message(status: UpdateAttemptStatus, service: Seq<char>) -> Seq<char> {
    if status == UpdateAttemptStatus::RolledBack {
        "rolled back service `"@ + service + "` to its previous image"@
    } else {
        "rollback of service `"@ + service + "` did not finish cleanly"@
    }
}

/// Ends the attempt as rollback-failed.
pub open spec fn finish_rollback_failed(m: MachineView, i: IssueView, now: Timestamp) -> (MachineView, Seq<EffectView>, CommandView) {
    let a = with_status(with_issue(m.attempt, i), UpdateAttemptStatus::RollbackFailed, Some(now));
    (
        MachineView { attempt: a, step: UpdateStep::Finished, ..m },
        seq![
            EffectView::SaveAttempt(a),
            audit_of(a, now, AuditEventKind::RollbackFailed, rollback_end_message(UpdateAttemptStatus::RollbackFailed, a.service_name@)),
        ],
        CommandView::Finish,
    )
}

/// Enters rollback with the attempt `a`, after the effects `pre`.
pub open spec fn begin_rollback(m: MachineView, a: UpdateAttemptView, pre: Seq<EffectView>, created_new: bool, now: Timestamp) -> (MachineView, Seq<EffectView>, CommandView) {
    let a2 = with_status(a, UpdateAttemptStatus::RollbackStarted, None);
    let fx = pre + seq![
        EffectView::SaveAttempt(a2),
        audit_of(a2, now, AuditEventKind::RollbackStarted, audit::rollback_started_message(a2.service_name@)),
    ];
    match m.runtime {
        RuntimeMode::Docker(_) => if created_new {
            (MachineView { attempt: a2, step: UpdateStep::RollbackStopReplacement, ..m }, fx, CommandView::StopContainer(container_of(m)))
        } else {
            (MachineView { attempt: a2, step: UpdateStep::RestoreName, ..m }, fx, CommandView::RenameContainer(m.backup_name, container_of(m)))
        },
        RuntimeMode::Compose(_) => (
            MachineView { attempt: a2, step: UpdateStep::RollbackComposeImage, ..m },
            fx,
            CommandView::ApplyComposeImage(m.previous_image->0@),
        ),
    }
}

/// Commits the attempt `a`, after the effects `pre`.
pub open spec fn commit(m: MachineView, a: UpdateAttemptView, pre: Seq<EffectView>, now: Timestamp) -> (MachineView, Seq<EffectView>, CommandView) {
    let a2 = with_status(a, UpdateAttemptStatus::Succeeded, Some(now));
    let state = committed_state(m.service_name, m.candidate_release_id, m.candidate_image, m.previous_state, m.previous_image->0, now);
    (
        MachineView { attempt: a2, step: UpdateStep::Finished, ..m },
        pre + seq![
            EffectView::SaveState(state),
            EffectView::SaveAttempt(a2),
            audit_of(a2, now, AuditEventKind::UpdateCommitted, audit::update_committed_message(a2.target_image_reference@, a2.service_name@)),
        ],
        CommandView::Finish,
    )
}

/// Ends the attempt as rolled back.
pub open spec fn finish_rolled_back(m: MachineView, now: Timestamp) -> (MachineView, Seq<EffectView>, CommandView) {
    let a = with_status(m.attempt, UpdateAttemptStatus::RolledBack, Some(now));
    let state = restored_state(m.service_name, m.previous_state, m.previous_image->0, now);
    (
        MachineView { attempt: a, step: UpdateStep::Finished, ..m },
        seq![
            EffectView::SaveState(state),
            EffectView::SaveAttempt(a),
            audit_of(a, now, AuditEventKind::RollbackSucceeded, rollback_end_message(UpdateAttemptStatus::RolledBack, a.service_name@)),
        ],
        CommandView::Finish,
    )
}

/// The health-check command for the machine's runtime.
pub open spec fn health_command(m: MachineView) -> CommandView {
    match m.runtime {
        RuntimeMode::Docker(d) => CommandView::WaitForContainerHealth(d.container_name@, m.health_check),
        RuntimeMode::Compose(c) => CommandView::WaitForComposeHealth(c.project@, c.service@, m.health_check),
    }
}

/// Starts health checks on the attempt.
pub open spec fn start_health_checks(m: MachineView, now: Timestamp) -> (MachineView, Seq<EffectView>, CommandView) {
    let a = with_status(m.attempt, UpdateAttemptStatus::HealthChecking, m.attempt.finished_at);
    (
        MachineView { attempt: a, step: UpdateStep::CheckHealth, ..m },
        seq![
            EffectView::SaveAttempt(a),
            audit_of(a, now, AuditEventKind::HealthCheckStarted, audit::health_check_started_message(a.service_name@)),
        ],
        health_command(m),
    )
}

/// The message recorded when health checks finish with a report.
pub open spec fn health_end_message(r: HealthCheckReport, service: Seq<char>) -> Seq<char> {
    (if r.outcome == HealthCheckOutcome::Passed {
        "health checks passed for service `"@
    } else {
        "health checks failed for service `"@
    }) + service + "`: "@ + r.message@
}

/// Which outcome each step waits for.
pub open spec fn outcome_fits(step: UpdateStep, o: RuntimeOutcome) -> bool {
    match step {
        UpdateStep::InspectCurrent => o is Inspected,
        UpdateStep::ReadComposeImage => o is ComposeImage,
        UpdateStep::CheckHealth => o is Health,
        UpdateStep::Finished => false,
        _ => o is Completed,
    }
}

/// Whether a best-effort operation failed for a reason that counts.
pub open spec fn best_effort_failed(r: Result<(), RuntimeFailure>) -> bool {
    r matches Err(f) && !missing_or_not_modified(f)
}

/// What one step records and asks for next, given the outcome of the
/// operation it waited for and the current time.
pub open spec fn next_state(m: MachineView, o: RuntimeOutcome, now: Timestamp) -> (MachineView, Seq<EffectView>, CommandView) {
    let container = container_of(m);
    match m.step {
        UpdateStep::InspectCurrent => match o {
            RuntimeOutcome::Inspected(Err(f)) => finish_failed(
                m,
                failure_issue("docker.service_inspect_failed"@, "failed to inspect the managed container"@, f),
                now,
            ),
            RuntimeOutcome::Inspected(Ok(c)) => {
                let (a1, fx1) = if m.attempt.previous_image_reference is None {
                    let image = match c.image_reference {
                        Some(i) => i,
                        None => match m.runtime {
                            RuntimeMode::Docker(d) => d.image_reference,
                            RuntimeMode::Compose(_) => c.name,
                        },
                    };
                    let a1 = UpdateAttemptView { previous_image_reference: Some(image), ..m.attempt };
                    (a1, seq![EffectView::SaveAttempt(a1)])
                } else {
                    (m.attempt, Seq::empty())
                };
                let backup = rollback_name_text(container, a1.update_id);
                let a2 = UpdateAttemptView { rollback_container_name: Some(backup), ..a1 };
                (
                    MachineView {
                        attempt: a2,
                        backup_name: backup,
                        previous_image: a1.previous_image_reference,
                        step: UpdateStep::StopCurrent,
                        ..m
                    },
                    fx1.push(EffectView::SaveAttempt(a2)),
                    CommandView::StopContainer(container),
                )
            },
            _ => (m, Seq::empty(), CommandView::Finish),
        },
        UpdateStep::StopCurrent => match o {
            RuntimeOutcome::Completed(r) => if best_effort_failed(r) {
                finish_failed(
                    m,
                    failure_issue("docker.stop_failed"@, "failed to stop the managed container before update"@, r->Err_0),
                    now,
                )
            } else {
                (MachineView { step: UpdateStep::MoveCurrentAside, ..m }, Seq::empty(), CommandView::RenameContainer(container, m.backup_name))
            },
            _ => (m, Seq::empty(), CommandView::Finish),
        },
        UpdateStep::MoveCurrentAside => match o {
            RuntimeOutcome::Completed(Err(f)) => finish_failed(
                m,
                failure_issue("docker.rename_failed"@, "failed to move the old container into rollback position"@, f),
                now,
            ),
            RuntimeOutcome::Completed(Ok(())) => (
                MachineView { step: UpdateStep::CreateReplacement, ..m },
                Seq::empty(),
                CommandView::CreateContainer(container, m.candidate_image@),
            ),
            _ => (m, Seq::empty(), CommandView::Finish),
        },
        UpdateStep::CreateReplacement => match o {
            RuntimeOutcome::Completed(Err(f)) => begin_rollback(
                m,
                with_issue(m.attempt, failure_issue("docker.create_failed"@, "failed to create the replacement container"@, f)),
                Seq::empty(),
                false,
                now,
            ),
            RuntimeOutcome::Completed(Ok(())) => (
                MachineView { step: UpdateStep::StartReplacement, ..m },
                Seq::empty(),
                CommandView::StartContainer(container),
            ),
            _ => (m, Seq::empty(), CommandView::Finish),
        },
        UpdateStep::StartReplacement => match o {
            RuntimeOutcome::Completed(Err(f)) => begin_rollback(
                m,
                with_issue(m.attempt, failure_issue("docker.start_failed"@, "failed to start the replacement container"@, f)),
                Seq::empty(),
                true,
                now,
            ),
            RuntimeOutcome::Completed(Ok(())) => start_health_checks(m, now),
            _ => (m, Seq::empty(), CommandView::Finish),
        },
        UpdateStep::CheckHealth => match o {
            RuntimeOutcome::Health(r) => {
                let a1 = UpdateAttemptView { health_check: Some(r), ..m.attempt };
                let pre = seq![
                    EffectView::SaveAttempt(a1),
                    audit_of(
                        a1,
                        now,
                        if r.outcome == HealthCheckOutcome::Passed {
                            AuditEventKind::HealthCheckPassed
                        } else {
                            AuditEventKind::HealthCheckFailed
                        },
                        health_end_message(r, a1.service_name@),
                    ),
                ];
                if r.outcome == HealthCheckOutcome::Passed {
                    match m.runtime {
                        RuntimeMode::Docker(_) => (
                            MachineView { attempt: a1, step: UpdateStep::RemoveBackup, ..m },
                            pre,
                            CommandView::RemoveContainer(m.backup_name, true),
                        ),
                        RuntimeMode::Compose(_) => commit(m, a1, pre, now),
                    }
                } else {
                    begin_rollback(
                        m,
                        with_issue(a1, IssueView { code: health_issue_code(r.outcome), message: r.message@ }),
                        pre,
                        true,
                        now,
                    )
                }
            },
            _ => (m, Seq::empty(), CommandView::Finish),
        },
        UpdateStep::RemoveBackup => match o {
            RuntimeOutcome::Completed(r) => {
                let a1 = match r {
                    Err(f) => with_issue(
                        m.attempt,
                        failure_issue("docker.cleanup_failed"@, "failed to remove the rollback container after a good update"@, f),
                    ),
                    Ok(()) => m.attempt,
                };
                commit(m, a1, Seq::empty(), now)
            },
            _ => (m, Seq::empty(), CommandView::Finish),
        },
        UpdateStep::RollbackStopReplacement => match o {
            RuntimeOutcome::Completed(r) => {
                let a1 = if best_effort_failed(r) {
                    with_issue(
                        m.attempt,
                        failure_issue("rollback.stop_failed"@, "failed to stop the replacement container during rollback"@, r->Err_0),
                    )
                } else {
                    m.attempt
                };
                (
                    MachineView { attempt: a1, step: UpdateStep::RollbackRemoveReplacement, ..m },
                    Seq::empty(),
                    CommandView::RemoveContainer(container, true),
                )
            },
            _ => (m, Seq::empty(), CommandView::Finish),
        },
        UpdateStep::RollbackRemoveReplacement => match o {
            RuntimeOutcome::Completed(r) => {
                let a1 = if best_effort_failed(r) {
                    with_issue(
                        m.attempt,
                        failure_issue("rollback.remove_failed"@, "failed to remove the replacement container during rollback"@, r->Err_0),
                    )
                } else {
                    m.attempt
                };
                (
                    MachineView { attempt: a1, step: UpdateStep::RestoreName, ..m },
                    Seq::empty(),
                    CommandView::RenameContainer(m.backup_name, container),
                )
            },
            _ => (m, Seq::empty(), CommandView::Finish),
        },
        UpdateStep::RestoreName => match o {
            RuntimeOutcome::Completed(Err(f)) => finish_rollback_failed(
                m,
                failure_issue("rollback.rename_failed"@, "failed to restore the previous container name"@, f),
                now,
            ),
            RuntimeOutcome::Completed(Ok(())) => (
                MachineView { step: UpdateStep::RestartPrevious, ..m },
                Seq::empty(),
                CommandView::StartContainer(container),
            ),
            _ => (m, Seq::empty(), CommandView::Finish),
        },
        UpdateStep::RestartPrevious => match o {
            RuntimeOutcome::Completed(Err(f)) => finish_rollback_failed(
                m,
                failure_issue("rollback.start_failed"@, "failed to restart the previous container"@, f),
                now,
            ),
            RuntimeOutcome::Completed(Ok(())) => finish_rolled_back(m, now),
            _ => (m, Seq::empty(), CommandView::Finish),
        },
        UpdateStep::ReadComposeImage => match o {
            RuntimeOutcome::ComposeImage(Err(f)) => finish_failed(
                m,
                failure_issue("compose.image_lookup_failed"@, "failed to resolve the current compose image"@, f),
                now,
            ),
            RuntimeOutcome::ComposeImage(Ok(image)) => {
                let previous = match m.previous_state {
                    Some(s) => s.active_image_reference,
                    None => image,
                };
                let a1 = UpdateAttemptView { previous_image_reference: Some(previous), ..m.attempt };
                (
                    MachineView { attempt: a1, previous_image: Some(previous), step: UpdateStep::ApplyComposeImage, ..m },
                    seq![EffectView::SaveAttempt(a1)],
                    CommandView::ApplyComposeImage(m.candidate_image@),
                )
            },
            _ => (m, Seq::empty(), CommandView::Finish),
        },
        UpdateStep::ApplyComposeImage => match o {
            RuntimeOutcome::Completed(Err(f)) => begin_rollback(
                m,
                with_issue(m.attempt, failure_issue("compose.apply_failed"@, "failed to apply the compose image override"@, f)),
                Seq::empty(),
                true,
                now,
            ),
            RuntimeOutcome::Completed(Ok(())) => start_health_checks(m, now),
            _ => (m, Seq::empty(), CommandView::Finish),
        },
        UpdateStep::RollbackComposeImage => match o {
            RuntimeOutcome::Completed(Err(f)) => finish_rollback_failed(
                m,
                failure_issue("rollback.compose_apply_failed"@, "failed to restore the previous compose image"@, f),
                now,
            ),
            RuntimeOutcome::Completed(Ok(())) => finish_rolled_back(m, now),
            _ => (m, Seq::empty(), CommandView::Finish),
        },
        UpdateStep::Finished => (m, Seq::empty(), CommandView::Finish),
    }
}

/// How an update begins: the fresh attempt, what it records and asks for first.
pub open spec fn start_state(
    service: ManagedService,
    candidate: CandidateReleaseRecord,
    previous_state: Option<ServiceStateRecord>,
    update_id: u128,
    now: Timestamp,
) -> (MachineView, Seq<EffectView>, CommandView) {
    let a = UpdateAttemptView {
        update_id,
        candidate_release_id: candidate.candidate_release_id,
        validation_attempt_id: candidate.validation_attempt_id,
        service_name: service.name,
        runtime_mode: runtime_kind(service.runtime),
        target_image_reference: candidate.image_reference,
        previous_candidate_release_id: match previous_state {
            Some(s) => s.active_candidate_release_id,
            None => None,
        },
        previous_image_reference: match previous_state {
            Some(s) => Some(s.active_image_reference),
            None => None,
        },
        rollback_container_name: None,
        status: UpdateAttemptStatus::Applying,
        started_at: now,
        finished_at: None,
        health_check: None,
        issues: Seq::empty(),
    };
    let fx = seq![
        EffectView::SaveAttempt(a),
        audit_of(a, now, AuditEventKind::UpdateStarted, audit::update_started_message(a.target_image_reference@, a.service_name@)),
    ];
    let m = MachineView {
        service_name: service.name,
        runtime: service.runtime,
        health_check: service.health_check,
        candidate_release_id: candidate.candidate_release_id,
        candidate_image: candidate.image_reference,
        previous_state,
        attempt: a,
        backup_name: Seq::empty(),
        previous_image: match previous_state {
            Some(s) => Some(s.active_image_reference),
            None => None,
        },
        step: UpdateStep::InspectCurrent,
    };
    match service.runtime {
        RuntimeMode::Docker(d) => (m, fx, CommandView::InspectContainer(d.container_name@)),
        RuntimeMode::Compose(_) => match previous_state {
            None => (MachineView { step: UpdateStep::ReadComposeImage, ..m }, fx, CommandView::ReadComposeImage),
            Some(_) => (MachineView { step: UpdateStep::ApplyComposeImage, ..m }, fx, CommandView::ApplyComposeImage(candidate.image_reference@)),
        },
    }
}

} // verus!

verus! {

// ---------------------------------------------------------------------------
// The machine itself.
// ---------------------------------------------------------------------------

fn emit(fx: &mut Vec<UpdateEffect>, e: UpdateEffect)
    ensures
        effects_view(final(fx)@) == effects_view(old(fx)@).push(e@),
{
    let ghost before = fx@;
    let ghost ev = e@;
    fx.push(e);
    assert(effects_view(fx@) =~= effects_view(before).push(ev));
}

fn failure_issue_of(code: &str, prefix: &str, f: &RuntimeFailure) -> (i: ValidationIssue)
    ensures
        i@ == failure_issue(code@, prefix@, *f),
{
    let mut m = String::from_str(prefix);
    m.append(": ");
    m.append(f.message.as_str());
    ValidationIssue::with_message(code, m)
}

impl RuntimeCommand {
    fn copy_of(s: &String) -> (r: String)
        ensures
            r == *s,
    {
        s.clone()
    }
}

impl UpdateMachine {
    /// Whether an outcome is the kind the current step waits for.
    pub fn fits(&self, o: &RuntimeOutcome) -> (b: bool)
        ensures
            b == outcome_fits(self.step, *o),
    {
        match self.step {
            UpdateStep::InspectCurrent => matches!(o, RuntimeOutcome::Inspected(_)),
            UpdateStep::ReadComposeImage => matches!(o, RuntimeOutcome::ComposeImage(_)),
            UpdateStep::CheckHealth => matches!(o, RuntimeOutcome::Health(_)),
            UpdateStep::Finished => false,
            _ => matches!(o, RuntimeOutcome::Completed(_)),
        }
    }

    fn container_name(&self) -> (s: String)
        ensures
            s@ == container_of(self@),
    {
        match &self.runtime {
            RuntimeMode::Docker(d) => d.container_name.clone(),
            RuntimeMode::Compose(_) => String::new(),
        }
    }

    fn finish_failed(&mut self, issue: ValidationIssue, now: Timestamp, fx: &mut Vec<UpdateEffect>) -> (cmd: RuntimeCommand)
        ensures
            final(self)@ == finish_failed(old(self)@, issue@, now).0,
            effects_view(final(fx)@) == effects_view(old(fx)@) + finish_failed(old(self)@, issue@, now).1,
            cmd@ == finish_failed(old(self)@, issue@, now).2,
    {
        let ghost fx0 = effects_view(fx@);
        self.attempt.add_issue(issue);
        self.attempt.mark_failed(now);
        self.step = UpdateStep::Finished;
        emit(fx, UpdateEffect::SaveAttempt(self.attempt.clone()));
        assert(effects_view(fx@) =~= fx0 + finish_failed(old(self)@, issue@, now).1);
        RuntimeCommand::Finish
    }

    fn finish_rollback_failed(&mut self, issue: ValidationIssue, now: Timestamp, fx: &mut Vec<UpdateEffect>) -> (cmd: RuntimeCommand)
        ensures
            final(self)@ == finish_rollback_failed(old(self)@, issue@, now).0,
            effects_view(final(fx)@) == effects_view(old(fx)@) + finish_rollback_failed(old(self)@, issue@, now).1,
            cmd@ == finish_rollback_failed(old(self)@, issue@, now).2,
    {
        let ghost fx0 = effects_view(fx@);
        self.attempt.add_issue(issue);
        self.attempt.mark_rollback_failed(now);
        self.step = UpdateStep::Finished;
        emit(fx, UpdateEffect::SaveAttempt(self.attempt.clone()));
        emit(fx, UpdateEffect::AppendAudit(audit::rollback_finished(&self.attempt, now)));
        assert(effects_view(fx@) =~= fx0 + finish_rollback_failed(old(self)@, issue@, now).1);
        RuntimeCommand::Finish
    }

    fn begin_rollback(&mut self, created_new: bool, now: Timestamp, fx: &mut Vec<UpdateEffect>) -> (cmd: RuntimeCommand)
        requires
            old(self).runtime is Compose ==> old(self).previous_image is Some,
        ensures
            final(self)@ == begin_rollback(old(self)@, old(self)@.attempt, effects_view(old(fx)@), created_new, now).0,
            effects_view(final(fx)@) == begin_rollback(old(self)@, old(self)@.attempt, effects_view(old(fx)@), created_new, now).1,
            cmd@ == begin_rollback(old(self)@, old(self)@.attempt, effects_view(old(fx)@), created_new, now).2,
    {
        let ghost fx0 = effects_view(fx@);
        self.attempt.mark_rollback_started();
        emit(fx, UpdateEffect::SaveAttempt(self.attempt.clone()));
        emit(fx, UpdateEffect::AppendAudit(audit::rollback_started(&self.attempt, now)));
        assert(effects_view(fx@) =~= begin_rollback(old(self)@, old(self)@.attempt, fx0, created_new, now).1);
        let container = self.container_name();
        match &self.runtime {
            RuntimeMode::Docker(_) => {
                if created_new {
                    self.step = UpdateStep::RollbackStopReplacement;
                    RuntimeCommand::StopContainer(container)
                } else {
                    self.step = UpdateStep::RestoreName;
                    RuntimeCommand::RenameContainer { from: self.backup_name.clone(), to: container }
                }
            },
            RuntimeMode::Compose(_) => {
                self.step = UpdateStep::RollbackComposeImage;
                match &self.previous_image {
                    Some(i) => RuntimeCommand::ApplyComposeImage(i.clone()),
                    None => {
                        proof {}
                        RuntimeCommand::Finish
                    },
                }
            },
        }
    }
}


impl UpdateMachine {
    fn commit(&mut self, now: Timestamp, fx: &mut Vec<UpdateEffect>) -> (cmd: RuntimeCommand)
        requires
            old(self).previous_image is Some,
        ensures
            final(self)@ == commit(old(self)@, old(self)@.attempt, effects_view(old(fx)@), now).0,
            effects_view(final(fx)@) == commit(old(self)@, old(self)@.attempt, effects_view(old(fx)@), now).1,
            cmd@ == commit(old(self)@, old(self)@.attempt, effects_view(old(fx)@), now).2,
    {
        let ghost fx0 = effects_view(fx@);
        let previous_image = match &self.previous_image {
            Some(i) => i,
            None => {
                proof {}
                return RuntimeCommand::Finish;
            },
        };
        let candidate_state = ServiceStateRecord::new(
            self.service_name.clone(),
            Some(self.candidate_release_id),
            self.candidate_image.clone(),
            match &self.previous_state {
                Some(s) => s.active_candidate_release_id,
                None => None,
            },
            Some(previous_image.clone()),
            now,
        );
        self.attempt.mark_succeeded(now);
        self.step = UpdateStep::Finished;
        emit(fx, UpdateEffect::SaveServiceState(candidate_state));
        emit(fx, UpdateEffect::SaveAttempt(self.attempt.clone()));
        emit(fx, UpdateEffect::AppendAudit(audit::update_finished(&self.attempt, now)));
        assert(effects_view(fx@) =~= commit(old(self)@, old(self)@.attempt, fx0, now).1);
        RuntimeCommand::Finish
    }

    fn finish_rolled_back(&mut self, now: Timestamp, fx: &mut Vec<UpdateEffect>) -> (cmd: RuntimeCommand)
        requires
            old(self).previous_image is Some,
        ensures
            final(self)@ == finish_rolled_back(old(self)@, now).0,
            effects_view(final(fx)@) == effects_view(old(fx)@) + finish_rolled_back(old(self)@, now).1,
            cmd@ == finish_rolled_back(old(self)@, now).2,
    {
        let ghost fx0 = effects_view(fx@);
        let state = match &self.previous_image {
            Some(i) => restored_service_state(&self.service_name, &self.previous_state, i, now),
            None => {
                proof {}
                return RuntimeCommand::Finish;
            },
        };
        self.attempt.mark_rolled_back(now);
        self.step = UpdateStep::Finished;
        emit(fx, UpdateEffect::SaveServiceState(state));
        emit(fx, UpdateEffect::SaveAttempt(self.attempt.clone()));
        emit(fx, UpdateEffect::AppendAudit(audit::rollback_finished(&self.attempt, now)));
        assert(effects_view(fx@) =~= fx0 + finish_rolled_back(old(self)@, now).1);
        RuntimeCommand::Finish
    }

    fn start_health_checks(&mut self, now: Timestamp, fx: &mut Vec<UpdateEffect>) -> (cmd: RuntimeCommand)
        ensures
            final(self)@ == start_health_checks(old(self)@, now).0,
            effects_view(final(fx)@) == effects_view(old(fx)@) + start_health_checks(old(self)@, now).1,
            cmd@ == start_health_checks(old(self)@, now).2,
    {
        let ghost fx0 = effects_view(fx@);
        self.attempt.mark_health_checking();
        self.step = UpdateStep::CheckHealth;
        emit(fx, UpdateEffect::SaveAttempt(self.attempt.clone()));
        emit(fx, UpdateEffect::AppendAudit(audit::health_check_started(&self.attempt, now)));
        assert(effects_view(fx@) =~= fx0 + start_health_checks(old(self)@, now).1);
        match &self.runtime {
            RuntimeMode::Docker(d) => RuntimeCommand::WaitForContainerHealth {
                name: d.container_name.clone(),
                spec: self.health_check,
            },
            RuntimeMode::Compose(c) => RuntimeCommand::WaitForComposeHealth {
                project: c.project.clone(),
                service: c.service.clone(),
                spec: self.health_check,
            },
        }
    }

    /// Begins an update attempt: builds the fresh attempt (in `Applying`) and
    /// says what to record and which runtime operation comes first.
    pub fn start(
        service: &ManagedService,
        candidate: &CandidateReleaseRecord,
        previous_state: Option<ServiceStateRecord>,
        update_id: u128,
        now: Timestamp,
    ) -> (r: (UpdateMachine, Vec<UpdateEffect>, RuntimeCommand))
        ensures
            (r.0@, effects_view(r.1@), r.2@) == start_state(*service, *candidate, previous_state, update_id, now),
            machine_wf(r.0@),
    {
        let attempt = UpdateAttemptRecord::new(
            update_id,
            candidate.candidate_release_id,
            candidate.validation_attempt_id,
            service.name.clone(),
            service.runtime.kind(),
            candidate.image_reference.clone(),
            match &previous_state {
                Some(s) => s.active_candidate_release_id,
                None => None,
            },
            match &previous_state {
                Some(s) => Some(s.active_image_reference.clone()),
                None => None,
            },
            now,
        );
        let mut fx: Vec<UpdateEffect> = Vec::new();
        emit(&mut fx, UpdateEffect::SaveAttempt(attempt.clone()));
        emit(&mut fx, UpdateEffect::AppendAudit(audit::update_started(&attempt, now)));
        let previous_image = match &previous_state {
            Some(s) => Some(s.active_image_reference.clone()),
            None => None,
        };
        let has_previous = previous_state.is_some();
        let mut m = UpdateMachine {
            service_name: service.name.clone(),
            runtime: service.runtime.clone(),
            health_check: service.health_check,
            candidate_release_id: candidate.candidate_release_id,
            candidate_image: candidate.image_reference.clone(),
            previous_state,
            attempt,
            backup_name: String::new(),
            previous_image,
            step: UpdateStep::InspectCurrent,
        };
        assert(effects_view(fx@) =~= start_state(*service, *candidate, m.previous_state, update_id, now).1);
        let cmd = match &service.runtime {
            RuntimeMode::Docker(d) => RuntimeCommand::InspectContainer(d.container_name.clone()),
            RuntimeMode::Compose(_) => {
                if has_previous {
                    m.step = UpdateStep::ApplyComposeImage;
                    RuntimeCommand::ApplyComposeImage(candidate.image_reference.clone())
                } else {
                    m.step = UpdateStep::ReadComposeImage;
                    RuntimeCommand::ReadComposeImage
                }
            },
        };
        (m, fx, cmd)
    }

    /// Takes the outcome of the operation the current step waited for, and
    /// says what to record and which runtime operation comes next.
    pub fn advance(&mut self, outcome: RuntimeOutcome, now: Timestamp) -> (r: (Vec<UpdateEffect>, RuntimeCommand))
        requires
            machine_wf(old(self)@),
            outcome_fits(old(self).step, outcome),
        ensures
            (final(self)@, effects_view(r.0@), r.1@) == next_state(old(self)@, outcome, now),
            machine_wf(final(self)@),
    {
        let ghost m0 = self@;
        let mut fx: Vec<UpdateEffect> = Vec::new();
        assert(effects_view(fx@) =~= Seq::<EffectView>::empty());
        let container = self.container_name();
        let cmd = match self.step {
            UpdateStep::InspectCurrent => match outcome {
                RuntimeOutcome::Inspected(Err(f)) => {
                    let issue = failure_issue_of("docker.service_inspect_failed", "failed to inspect the managed container", &f);
                    self.finish_failed(issue, now, &mut fx)
                },
                RuntimeOutcome::Inspected(Ok(c)) => {
                    if self.attempt.previous_image_reference.is_none() {
                        let image = match c.image_reference {
                            Some(i) => i,
                            None => match &self.runtime {
                                RuntimeMode::Docker(d) => d.image_reference.clone(),
                                RuntimeMode::Compose(_) => c.name,
                            },
                        };
                        self.attempt.previous_image_reference = Some(image);
                        emit(&mut fx, UpdateEffect::SaveAttempt(self.attempt.clone()));
                    }
                    let backup = rollback_container_name(container.as_str(), self.attempt.update_id);
                    self.previous_image = clone_opt(&self.attempt.previous_image_reference);
                    self.attempt.rollback_container_name = Some(backup.clone());
                    self.backup_name = backup;
                    self.step = UpdateStep::StopCurrent;
                    emit(&mut fx, UpdateEffect::SaveAttempt(self.attempt.clone()));
                    RuntimeCommand::StopContainer(container)
                },
                _ => RuntimeCommand::Finish,
            },
            UpdateStep::StopCurrent => match outcome {
                RuntimeOutcome::Completed(Err(f)) if !is_missing_or_not_modified(&f) => {
                    let issue = failure_issue_of("docker.stop_failed", "failed to stop the managed container before update", &f);
                    self.finish_failed(issue, now, &mut fx)
                },
                RuntimeOutcome::Completed(_) => {
                    self.step = UpdateStep::MoveCurrentAside;
                    RuntimeCommand::RenameContainer { from: container, to: self.backup_name.clone() }
                },
                _ => RuntimeCommand::Finish,
            },
            UpdateStep::MoveCurrentAside => match outcome {
                RuntimeOutcome::Completed(Err(f)) => {
                    let issue = failure_issue_of("docker.rename_failed", "failed to move the old container into rollback position", &f);
                    self.finish_failed(issue, now, &mut fx)
                },
                RuntimeOutcome::Completed(Ok(())) => {
                    self.step = UpdateStep::CreateReplacement;
                    RuntimeCommand::CreateContainer { name: container, image: self.candidate_image.clone() }
                },
                _ => RuntimeCommand::Finish,
            },
            UpdateStep::CreateReplacement => match outcome {
                RuntimeOutcome::Completed(Err(f)) => {
                    self.attempt.add_issue(failure_issue_of("docker.create_failed", "failed to create the replacement container", &f));
                    self.begin_rollback(false, now, &mut fx)
                },
                RuntimeOutcome::Completed(Ok(())) => {
                    self.step = UpdateStep::StartReplacement;
                    RuntimeCommand::StartContainer(container)
                },
                _ => RuntimeCommand::Finish,
            },
            UpdateStep::StartReplacement => match outcome {
                RuntimeOutcome::Completed(Err(f)) => {
                    self.attempt.add_issue(failure_issue_of("docker.start_failed", "failed to start the replacement container", &f));
                    self.begin_rollback(true, now, &mut fx)
                },
                RuntimeOutcome::Completed(Ok(())) => self.start_health_checks(now, &mut fx),
                _ => RuntimeCommand::Finish,
            },
            UpdateStep::CheckHealth => match outcome {
                RuntimeOutcome::Health(report) => {
                    let passed = report.outcome == HealthCheckOutcome::Passed;
                    let issue = issue_from_health_report(&report);
                    self.attempt.health_check = Some(report);
                    emit(&mut fx, UpdateEffect::SaveAttempt(self.attempt.clone()));
                    emit(&mut fx, UpdateEffect::AppendAudit(audit::health_check_finished(&self.attempt, now)));
                    if passed {
                        match &self.runtime {
                            RuntimeMode::Docker(_) => {
                                self.step = UpdateStep::RemoveBackup;
                                RuntimeCommand::RemoveContainer { name: self.backup_name.clone(), force: true }
                            },
                            RuntimeMode::Compose(_) => self.commit(now, &mut fx),
                        }
                    } else {
                        self.attempt.add_issue(issue);
                        self.begin_rollback(true, now, &mut fx)
                    }
                },
                _ => RuntimeCommand::Finish,
            },
            UpdateStep::RemoveBackup => match outcome {
                RuntimeOutcome::Completed(r) => {
                    if let Err(f) = r {
                        self.attempt.add_issue(failure_issue_of("docker.cleanup_failed", "failed to remove the rollback container after a good update", &f));
                    }
                    self.commit(now, &mut fx)
                },
                _ => RuntimeCommand::Finish,
            },
            UpdateStep::RollbackStopReplacement => match outcome {
                RuntimeOutcome::Completed(r) => {
                    if let Err(f) = r {
                        if !is_missing_or_not_modified(&f) {
                            self.attempt.add_issue(failure_issue_of("rollback.stop_failed", "failed to stop the replacement container during rollback", &f));
                        }
                    }
                    self.step = UpdateStep::RollbackRemoveReplacement;
                    RuntimeCommand::RemoveContainer { name: container, force: true }
                },
                _ => RuntimeCommand::Finish,
            },
            UpdateStep::RollbackRemoveReplacement => match outcome {
                RuntimeOutcome::Completed(r) => {
                    if let Err(f) = r {
                        if !is_missing_or_not_modified(&f) {
                            self.attempt.add_issue(failure_issue_of("rollback.remove_failed", "failed to remove the replacement container during rollback", &f));
                        }
                    }
                    self.step = UpdateStep::RestoreName;
                    RuntimeCommand::RenameContainer { from: self.backup_name.clone(), to: container }
                },
                _ => RuntimeCommand::Finish,
            },
            UpdateStep::RestoreName => match outcome {
                RuntimeOutcome::Completed(Err(f)) => {
                    let issue = failure_issue_of("rollback.rename_failed", "failed to restore the previous container name", &f);
                    self.finish_rollback_failed(issue, now, &mut fx)
                },
                RuntimeOutcome::Completed(Ok(())) => {
                    self.step = UpdateStep::RestartPrevious;
                    RuntimeCommand::StartContainer(container)
                },
                _ => RuntimeCommand::Finish,
            },
            UpdateStep::RestartPrevious => match outcome {
                RuntimeOutcome::Completed(Err(f)) => {
                    let issue = failure_issue_of("rollback.start_failed", "failed to restart the previous container", &f);
                    self.finish_rollback_failed(issue, now, &mut fx)
                },
                RuntimeOutcome::Completed(Ok(())) => self.finish_rolled_back(now, &mut fx),
                _ => RuntimeCommand::Finish,
            },
            UpdateStep::ReadComposeImage => match outcome {
                RuntimeOutcome::ComposeImage(Err(f)) => {
                    let issue = failure_issue_of("compose.image_lookup_failed", "failed to resolve the current compose image", &f);
                    self.finish_failed(issue, now, &mut fx)
                },
                RuntimeOutcome::ComposeImage(Ok(image)) => {
                    let previous = match &self.previous_state {
                        Some(s) => s.active_image_reference.clone(),
                        None => image,
                    };
                    self.attempt.previous_image_reference = Some(previous.clone());
                    self.previous_image = Some(previous);
                    self.step = UpdateStep::ApplyComposeImage;
                    emit(&mut fx, UpdateEffect::SaveAttempt(self.attempt.clone()));
                    RuntimeCommand::ApplyComposeImage(self.candidate_image.clone())
                },
                _ => RuntimeCommand::Finish,
            },
            UpdateStep::ApplyComposeImage => match outcome {
                RuntimeOutcome::Completed(Err(f)) => {
                    self.attempt.add_issue(failure_issue_of("compose.apply_failed", "failed to apply the compose image override", &f));
                    self.begin_rollback(true, now, &mut fx)
                },
                RuntimeOutcome::Completed(Ok(())) => self.start_health_checks(now, &mut fx),
                _ => RuntimeCommand::Finish,
            },
            UpdateStep::RollbackComposeImage => match outcome {
                RuntimeOutcome::Completed(Err(f)) => {
                    let issue = failure_issue_of("rollback.compose_apply_failed", "failed to restore the previous compose image", &f);
                    self.finish_rollback_failed(issue, now, &mut fx)
                },
                RuntimeOutcome::Completed(Ok(())) => self.finish_rolled_back(now, &mut fx),
                _ => RuntimeCommand::Finish,
            },
            UpdateStep::Finished => RuntimeCommand::Finish,
        };
        proof { lemma_next_state_preserves_wf(m0, outcome, now);}
        (fx, cmd)
    }
}

fn clone_opt(o: &Option<String>) -> (r: Option<String>)
    ensures
        r == *o,
{
    match o {
        Some(s) => Some(s.clone()),
        None => None,
    }
}

// ---------------------------------------------------------------------------
// Well-formedness and the laws of the update machine.
// ---------------------------------------------------------------------------

/// Steps that only occur for Docker services.
pub open spec fn docker_step(s: UpdateStep) -> bool {
    s == UpdateStep::InspectCurrent || s == UpdateStep::StopCurrent || s == UpdateStep::MoveCurrentAside
        || s == UpdateStep::CreateReplacement || s == UpdateStep::StartReplacement
        || s == UpdateStep::RemoveBackup || s == UpdateStep::RollbackStopReplacement
        || s == UpdateStep::RollbackRemoveReplacement || s == UpdateStep::RestoreName
        || s == UpdateStep::RestartPrevious
}

/// Steps that only occur for Compose services.
pub open spec fn compose_step(s: UpdateStep) -> bool {
    s == UpdateStep::ReadComposeImage || s == UpdateStep::ApplyComposeImage
        || s == UpdateStep::RollbackComposeImage
}

/// Steps before health checks begin.
pub open spec fn applying_step(s: UpdateStep) -> bool {
    s == UpdateStep::InspectCurrent || s == UpdateStep::StopCurrent || s == UpdateStep::MoveCurrentAside
        || s == UpdateStep::CreateReplacement || s == UpdateStep::StartReplacement
        || s == UpdateStep::ReadComposeImage || s == UpdateStep::ApplyComposeImage
}

/// Steps of a rollback.
pub open spec fn rollback_step(s: UpdateStep) -> bool {
    s == UpdateStep::RollbackStopReplacement || s == UpdateStep::RollbackRemoveReplacement
        || s == UpdateStep::RestoreName || s == UpdateStep::RestartPrevious
        || s == UpdateStep::RollbackComposeImage
}

/// The statuses an attempt ends in.
pub open spec fn terminal_status(s: UpdateAttemptStatus) -> bool {
    s == UpdateAttemptStatus::Succeeded || s == UpdateAttemptStatus::Failed
        || s == UpdateAttemptStatus::RolledBack || s == UpdateAttemptStatus::RollbackFailed
}

/// Whether the recorded health report passed.
pub open spec fn report_passed(a: UpdateAttemptView) -> bool {
    a.health_check matches Some(r) && r.outcome == HealthCheckOutcome::Passed
}

/// Well-formedness of an update in progress.
pub open spec fn machine_wf(m: MachineView) -> bool {
    &&& docker_step(m.step) ==> m.runtime is Docker
    &&& compose_step(m.step) ==> m.runtime is Compose
    &&& m.service_name == m.attempt.service_name
    &&& m.candidate_image == m.attempt.target_image_reference
    &&& m.candidate_release_id == m.attempt.candidate_release_id
    &&& m.previous_image == m.attempt.previous_image_reference
    &&& (m.previous_state matches Some(s) ==> m.attempt.previous_image_reference == Some(s.active_image_reference))
    &&& (m.step != UpdateStep::InspectCurrent && m.step != UpdateStep::ReadComposeImage && m.step != UpdateStep::Finished)
        ==> m.previous_image is Some
    &&& (applying_step(m.step) ==> m.attempt.status == UpdateAttemptStatus::Applying)
    &&& (m.step == UpdateStep::CheckHealth ==> m.attempt.status == UpdateAttemptStatus::HealthChecking)
    &&& (m.step == UpdateStep::RemoveBackup ==> m.attempt.status == UpdateAttemptStatus::HealthChecking && report_passed(m.attempt))
    &&& (report_passed(m.attempt) ==> m.step == UpdateStep::RemoveBackup
        || (m.step == UpdateStep::Finished && m.attempt.status == UpdateAttemptStatus::Succeeded))
    &&& (rollback_step(m.step) ==> m.attempt.status == UpdateAttemptStatus::RollbackStarted)
    &&& (m.step == UpdateStep::Finished ==> terminal_status(m.attempt.status) && m.attempt.finished_at is Some)
}

/// Every step keeps an update well-formed.
pub proof fn lemma_next_state_preserves_wf(m: MachineView, o: RuntimeOutcome, now: Timestamp)
    requires
        machine_wf(m),
        outcome_fits(m.step, o),
    ensures
        machine_wf(next_state(m, o, now).0),
{
}


/// An attempt is over exactly when the machine asks for nothing more; it then
/// has a terminal status and finish time, and its final form is among the
/// records to persist.
pub proof fn law_finish_is_terminal(m: MachineView, o: RuntimeOutcome, now: Timestamp)
    requires
        machine_wf(m),
        outcome_fits(m.step, o),
    ensures
        (next_state(m, o, now).2 is Finish) == (next_state(m, o, now).0.step == UpdateStep::Finished),
        next_state(m, o, now).0.step == UpdateStep::Finished ==> {
            &&& terminal_status(next_state(m, o, now).0.attempt.status)
            &&& next_state(m, o, now).0.attempt.finished_at == Some(now)
            &&& next_state(m, o, now).1.contains(EffectView::SaveAttempt(next_state(m, o, now).0.attempt))
        },
{
    let (m2, fx, cmd) = next_state(m, o, now);
    if m2.step == UpdateStep::Finished {
        if m2.attempt.status == UpdateAttemptStatus::Succeeded || m2.attempt.status == UpdateAttemptStatus::RolledBack {
            assert(fx[fx.len() - 2] == EffectView::SaveAttempt(m2.attempt));
        } else {
            assert(fx[fx.len() - 1] == EffectView::SaveAttempt(m2.attempt) || fx[fx.len() - 2] == EffectView::SaveAttempt(m2.attempt));
        }
    }
}

/// An update only succeeds after a health check that passed.
pub proof fn law_success_requires_passed_health(m: MachineView, o: RuntimeOutcome, now: Timestamp)
    requires
        machine_wf(m),
        outcome_fits(m.step, o),
        next_state(m, o, now).0.attempt.status == UpdateAttemptStatus::Succeeded,
    ensures
        report_passed(next_state(m, o, now).0.attempt),
{
}

/// How an attempt ends: with a terminal status and its finish time; it ends
/// `Succeeded` exactly when the health check it recorded passed, and a
/// succeeded attempt records the service state with the candidate release and
/// its image as active.
pub proof fn law_update_succeeds_iff_health_passed(m: MachineView, o: RuntimeOutcome, now: Timestamp)
    requires
        machine_wf(m),
        outcome_fits(m.step, o),
        next_state(m, o, now).0.step == UpdateStep::Finished,
    ensures
        ({
            let (m2, fx, cmd) = next_state(m, o, now);
            &&& terminal_status(m2.attempt.status)
            &&& m2.attempt.finished_at == Some(now)
            &&& (m2.attempt.status == UpdateAttemptStatus::Succeeded) <==> report_passed(m2.attempt)
            &&& m2.attempt.status == UpdateAttemptStatus::Succeeded ==> exists|i: int| {
                &&& 0 <= i < fx.len()
                &&& #[trigger] fx[i] matches EffectView::SaveState(s)
                &&& s.service_name == m2.attempt.service_name
                &&& s.active_candidate_release_id == Some(m2.attempt.candidate_release_id)
                &&& s.active_image_reference == m2.attempt.target_image_reference
            }
        }),
{
    let (m2, fx, cmd) = next_state(m, o, now);
    lemma_next_state_preserves_wf(m, o, now);
    law_finish_is_terminal(m, o, now);
    if m2.attempt.status == UpdateAttemptStatus::Succeeded {
        law_success_requires_passed_health(m, o, now);
        law_commit_records_candidate(m, o, now);
        let state = committed_state(m.service_name, m.candidate_release_id, m.candidate_image, m.previous_state, m.previous_image->0, now);
        let i = choose|i: int| 0 <= i < fx.len() && fx[i] == EffectView::SaveState(state);
        assert(fx[i] == EffectView::SaveState(state));
    }
}

/// A committed update records the candidate as active and the image that ran
/// before it as the previous known-good one (for a service with recorded
/// state, the image that state had active).
pub proof fn law_commit_records_candidate(m: MachineView, o: RuntimeOutcome, now: Timestamp)
    requires
        machine_wf(m),
        outcome_fits(m.step, o),
        next_state(m, o, now).0.attempt.status == UpdateAttemptStatus::Succeeded,
    ensures
        ({
            let state = committed_state(m.service_name, m.candidate_release_id, m.candidate_image, m.previous_state, m.previous_image->0, now);
            &&& next_state(m, o, now).1.contains(EffectView::SaveState(state))
            &&& state.active_image_reference == m.attempt.target_image_reference
            &&& state.active_candidate_release_id == Some(m.attempt.candidate_release_id)
            &&& state.previous_known_good_image_reference == next_state(m, o, now).0.attempt.previous_image_reference
            &&& (m.previous_state matches Some(s) ==> state.previous_known_good_image_reference == Some(s.active_image_reference))
        }),
{
    let (m2, fx, cmd) = next_state(m, o, now);
    assert(fx[fx.len() - 3] == EffectView::SaveState(committed_state(m.service_name, m.candidate_release_id, m.candidate_image, m.previous_state, m.previous_image->0, now)));
}

/// Rolling back undoes the update: the service state recorded afterwards is
/// the one recorded before the attempt (with a new timestamp), or, for a
/// service with no recorded state, the previous image as active and known-good.
pub proof fn law_rollback_restores_previous_state(m: MachineView, o: RuntimeOutcome, now: Timestamp)
    requires
        machine_wf(m),
        outcome_fits(m.step, o),
        next_state(m, o, now).0.attempt.status == UpdateAttemptStatus::RolledBack,
    ensures
        m.previous_state matches Some(s) ==> next_state(m, o, now).1.contains(
            EffectView::SaveState(ServiceStateRecord { updated_at: now, ..s }),
        ),
        m.previous_state is None ==> next_state(m, o, now).1.contains(
            EffectView::SaveState(ServiceStateRecord {
                service_name: m.service_name,
                active_candidate_release_id: None,
                active_image_reference: m.previous_image->0,
                previous_known_good_candidate_release_id: None,
                previous_known_good_image_reference: Some(m.previous_image->0),
                updated_at: now,
            }),
        ),
{
    let (m2, fx, cmd) = next_state(m, o, now);
    assert(fx[0] == EffectView::SaveState(restored_state(m.service_name, m.previous_state, m.previous_image->0, now)));
}

/// The service state is written only when an attempt commits or rolls back:
/// a failed attempt, or a rollback that did not finish, leaves it untouched.
pub proof fn law_state_written_only_when_settled(m: MachineView, o: RuntimeOutcome, now: Timestamp, i: int)
    requires
        machine_wf(m),
        outcome_fits(m.step, o),
        0 <= i < next_state(m, o, now).1.len(),
        next_state(m, o, now).1[i] is SaveState,
    ensures
        next_state(m, o, now).0.step == UpdateStep::Finished,
        next_state(m, o, now).0.attempt.status == UpdateAttemptStatus::Succeeded
            || next_state(m, o, now).0.attempt.status == UpdateAttemptStatus::RolledBack,
{
}


/// How far a step is from the end of an attempt: the longest run of steps
/// that can still follow it.
pub open spec fn steps_left(s: UpdateStep) -> nat {
    match s {
        UpdateStep::InspectCurrent => 10,
        UpdateStep::StopCurrent => 9,
        UpdateStep::MoveCurrentAside => 8,
        UpdateStep::CreateReplacement => 7,
        UpdateStep::ReadComposeImage => 7,
        UpdateStep::StartReplacement => 6,
        UpdateStep::ApplyComposeImage => 6,
        UpdateStep::CheckHealth => 5,
        UpdateStep::RollbackStopReplacement => 4,
        UpdateStep::RollbackRemoveReplacement => 3,
        UpdateStep::RestoreName => 2,
        UpdateStep::RestartPrevious => 1,
        UpdateStep::RemoveBackup => 1,
        UpdateStep::RollbackComposeImage => 1,
        UpdateStep::Finished => 0,
    }
}

/// Every outcome moves an attempt closer to its end, so an update always
/// finishes after a bounded number of runtime operations.
pub proof fn law_update_progresses(m: MachineView, o: RuntimeOutcome, now: Timestamp)
    requires
        machine_wf(m),
        outcome_fits(m.step, o),
    ensures
        steps_left(next_state(m, o, now).0.step) < steps_left(m.step),
{
}

/// A health check that does not pass starts a rollback: the attempt records
/// the report, the matching issue and the rollback-started status, and the
/// first rollback operation is asked for.
pub proof fn law_unhealthy_update_rolls_back(m: MachineView, r: HealthCheckReport, now: Timestamp)
    requires
        machine_wf(m),
        m.step == UpdateStep::CheckHealth,
        r.outcome != HealthCheckOutcome::Passed,
    ensures
        ({
            let (m2, fx, cmd) = next_state(m, RuntimeOutcome::Health(r), now);
            &&& m2.attempt.status == UpdateAttemptStatus::RollbackStarted
            &&& m2.attempt.health_check == Some(r)
            &&& m2.attempt.issues.last() == (IssueView { code: health_issue_code(r.outcome), message: r.message@ })
            &&& rollback_step(m2.step)
            &&& match m.runtime {
                RuntimeMode::Docker(d) => cmd == CommandView::StopContainer(d.container_name@),
                RuntimeMode::Compose(_) => cmd == CommandView::ApplyComposeImage(m.previous_image->0@),
            }
        }),
{
}

/// An attempt ends plainly `Failed` only before the candidate was put in
/// place (while inspecting, stopping or moving aside the current container,
/// or reading the current Compose image); once the candidate was created or
/// applied, every failure goes through a rollback instead.
pub proof fn law_failure_only_before_change(m: MachineView, o: RuntimeOutcome, now: Timestamp)
    requires
        machine_wf(m),
        outcome_fits(m.step, o),
        next_state(m, o, now).0.attempt.status == UpdateAttemptStatus::Failed,
    ensures
        m.step == UpdateStep::InspectCurrent || m.step == UpdateStep::StopCurrent
            || m.step == UpdateStep::MoveCurrentAside || m.step == UpdateStep::ReadComposeImage,
{
}

/// The replacement container an update creates runs the candidate release's
/// image: whenever a step asks for a container to be created, it is the
/// managed container, and its image is the attempt's target image (the
/// candidate's), never the image that ran before.
pub proof fn law_replacement_runs_candidate_image(m: MachineView, o: RuntimeOutcome, now: Timestamp)
    requires
        machine_wf(m),
        outcome_fits(m.step, o),
    ensures
        next_state(m, o, now).2 matches CommandView::CreateContainer(name, image) ==> {
            &&& m.runtime is Docker
            &&& name == container_of(m)
            &&& image == m.attempt.target_image_reference@
        },
        (m.step == UpdateStep::MoveCurrentAside && o == RuntimeOutcome::Completed(Ok(()))) ==> next_state(m, o, now).2
            == CommandView::CreateContainer(container_of(m), m.attempt.target_image_reference@),
{
}

/// A Compose service is switched to the candidate release's image while the
/// update applies, and back to the image it ran before while it rolls back.
pub proof fn law_compose_applies_candidate_then_previous(m: MachineView, o: RuntimeOutcome, now: Timestamp)
    requires
        machine_wf(m),
        outcome_fits(m.step, o),
    ensures
        next_state(m, o, now).2 matches CommandView::ApplyComposeImage(image) ==> {
            &&& m.runtime is Compose
            &&& next_state(m, o, now).0.step == UpdateStep::ApplyComposeImage ==> image == m.attempt.target_image_reference@
            &&& next_state(m, o, now).0.step == UpdateStep::RollbackComposeImage ==> image
                == next_state(m, o, now).0.attempt.previous_image_reference->0@
            &&& (next_state(m, o, now).0.step == UpdateStep::ApplyComposeImage
                || next_state(m, o, now).0.step == UpdateStep::RollbackComposeImage)
        },
{
}

/// The first Compose operation of an update with recorded state applies the
/// candidate release's image.
pub proof fn law_compose_start_applies_candidate(
    service: ManagedService,
    candidate: CandidateReleaseRecord,
    previous_state: Option<ServiceStateRecord>,
    update_id: u128,
    now: Timestamp,
)
    requires
        service.runtime is Compose,
        previous_state is Some,
    ensures
        start_state(service, candidate, previous_state, update_id, now).2 == CommandView::ApplyComposeImage(candidate.image_reference@),
{
}

} // verus!
