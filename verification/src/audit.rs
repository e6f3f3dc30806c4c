//! Builders for the local audit events.
//!
//! Every event gets a fresh random identifier; everything else about it is
//! determined by the builder's arguments.

use vstd::prelude::*;
use crate::clock::Timestamp;
use crate::domain::{
    AuditEvent, AuditEventKind, HealthCheckOutcome, ImageImportRecord, ImageImportStatus, ImageImportView,
    UpdateAttemptRecord, UpdateAttemptStatus, ValidationRecord, ValidationRecordView, ValidationStatus,
};
use crate::ids::new_random_id;

verus! {

/// Whether an event carries the given attempt, time, kind and message
/// (its own identifier is random and left free).
pub open spec fn event_is(
    e: AuditEvent,
    attempt_id: u128,
    occurred_at: Timestamp,
    kind: AuditEventKind,
    message: Seq<char>,
) -> bool {
    &&& e.attempt_id == attempt_id
    &&& e.occurred_at == occurred_at
    &&& e.kind == kind
    &&& e.message@ == message
}

fn event(attempt_id: u128, occurred_at: Timestamp, kind: AuditEventKind, message: String) -> (e: AuditEvent)
    ensures
        event_is(e, attempt_id, occurred_at, kind, message@),
{
    AuditEvent { event_id: new_random_id(), attempt_id, occurred_at, kind, message }
}

/// The event emitted when package validation begins.
pub fn validation_started(attempt_id: u128, source_path: &str, occurred_at: Timestamp) -> (e: AuditEvent)
    ensures
        event_is(
            e,
            attempt_id,
            occurred_at,
            AuditEventKind::ValidationStarted,
            "started validating package `"@ + source_path@ + "`"@,
        ),
{
    let mut m = String::from_str("started validating package `");
    m.append(source_path);
    m.append("`");
    event(attempt_id, occurred_at, AuditEventKind::ValidationStarted, m)
}

/// The message recorded when validation finishes.
pub open spec fn validation_finished_message(record: ValidationRecordView) -> Seq<char> {
    match record.status {
        ValidationStatus::Accepted => "accepted package for service `"@ + match record.manifest {
            Some(m) => m.target.service@,
            None => "unknown"@,
        } + "`"@,
        ValidationStatus::Rejected => "rejected package: "@ + if record.issues.len() > 0 {
            record.issues[0].message
        } else {
            "validation failed"@
        },
    }
}

/// The event emitted when package validation finishes.
pub fn validation_finished(record: &ValidationRecord, occurred_at: Timestamp) -> (e: AuditEvent)
    ensures
        event_is(
            e,
            record.attempt_id,
            occurred_at,
            if record.status == ValidationStatus::Accepted {
                AuditEventKind::ValidationAccepted
            } else {
                AuditEventKind::ValidationRejected
            },
            validation_finished_message(record@),
        ),
{
    match record.status {
        ValidationStatus::Accepted => {
            let mut m = String::from_str("accepted package for service `");
            match &record.manifest {
                Some(manifest) => m.append(manifest.target.service.as_str()),
                None => m.append("unknown"),
            }
            m.append("`");
            event(record.attempt_id, occurred_at, AuditEventKind::ValidationAccepted, m)
        },
        ValidationStatus::Rejected => {
            let mut m = String::from_str("rejected package: ");
            if record.issues.len() > 0 {
                m.append(record.issues[0].message.as_str());
            } else {
                m.append("validation failed");
            }
            event(record.attempt_id, occurred_at, AuditEventKind::ValidationRejected, m)
        },
    }
}

/// The event emitted when Docker image import begins.
pub fn image_import_started(attempt_id: u128, image_reference: &str, occurred_at: Timestamp) -> (e: AuditEvent)
    ensures
        event_is(
            e,
            attempt_id,
            occurred_at,
            AuditEventKind::ImageImportStarted,
            "started importing image `"@ + image_reference@ + "`"@,
        ),
{
    let mut m = String::from_str("started importing image `");
    m.append(image_reference);
    m.append("`");
    event(attempt_id, occurred_at, AuditEventKind::ImageImportStarted, m)
}

/// The message recorded when an image import finishes.
pub open spec fn image_import_finished_message(record: ImageImportView) -> Seq<char> {
    match record.status {
        ImageImportStatus::Imported => "imported candidate release for service `"@
            + record.service_name@ + "` using image `"@ + record.image_reference@ + "`"@,
        ImageImportStatus::Failed => "failed to import image `"@ + record.image_reference@
            + "` for service `"@ + record.service_name@ + "`: "@ + if record.issues.len() > 0 {
            record.issues[0].message
        } else {
            "image import failed"@
        },
    }
}

/// The event emitted when Docker image import finishes.
pub fn image_import_finished(record: &ImageImportRecord, occurred_at: Timestamp) -> (e: AuditEvent)
    ensures
        event_is(
            e,
            record.validation_attempt_id,
            occurred_at,
            if record.status == ImageImportStatus::Imported {
                AuditEventKind::ImageImportSucceeded
            } else {
                AuditEventKind::ImageImportFailed
            },
            image_import_finished_message(record@),
        ),
{
    match record.status {
        ImageImportStatus::Imported => {
            let mut m = String::from_str("imported candidate release for service `");
            m.append(record.service_name.as_str());
            m.append("` using image `");
            m.append(record.image_reference.as_str());
            m.append("`");
            event(record.validation_attempt_id, occurred_at, AuditEventKind::ImageImportSucceeded, m)
        },
        ImageImportStatus::Failed => {
            let mut m = String::from_str("failed to import image `");
            m.append(record.image_reference.as_str());
            m.append("` for service `");
            m.append(record.service_name.as_str());
            m.append("`: ");
            if record.issues.len() > 0 {
                m.append(record.issues[0].message.as_str());
            } else {
                m.append("image import failed");
            }
            event(record.validation_attempt_id, occurred_at, AuditEventKind::ImageImportFailed, m)
        },
    }
}

/// The message recorded when an update begins.
pub open spec fn update_started_message(target: Seq<char>, service: Seq<char>) -> Seq<char> {
    "started applying image `"@ + target + "` to service `"@ + service + "`"@
}

/// The event emitted when an update attempt begins.
pub fn update_started(attempt: &UpdateAttemptRecord, occurred_at: Timestamp) -> (e: AuditEvent)
    ensures
        event_is(
            e,
            attempt.update_id,
            occurred_at,
            AuditEventKind::UpdateStarted,
            update_started_message(attempt.target_image_reference@, attempt.service_name@),
        ),
{
    let mut m = String::from_str("started applying image `");
    m.append(attempt.target_image_reference.as_str());
    m.append("` to service `");
    m.append(attempt.service_name.as_str());
    m.append("`");
    event(attempt.update_id, occurred_at, AuditEventKind::UpdateStarted, m)
}

/// The message recorded when health checks begin.
pub open spec fn health_check_started_message(service: Seq<char>) -> Seq<char> {
    "started health checks for service `"@ + service + "`"@
}

/// The event emitted when health checks begin.
pub fn health_check_started(attempt: &UpdateAttemptRecord, occurred_at: Timestamp) -> (e: AuditEvent)
    ensures
        event_is(
            e,
            attempt.update_id,
            occurred_at,
            AuditEventKind::HealthCheckStarted,
            health_check_started_message(attempt.service_name@),
        ),
{
    let mut m = String::from_str("started health checks for service `");
    m.append(attempt.service_name.as_str());
    m.append("`");
    event(attempt.update_id, occurred_at, AuditEventKind::HealthCheckStarted, m)
}

/// Whether the attempt's health report says the check passed.
pub open spec fn health_passed(attempt: UpdateAttemptRecord) -> bool {
    attempt.health_check matches Some(r) && r.outcome == HealthCheckOutcome::Passed
}

/// The message recorded when health checks finish.
pub open spec fn health_check_finished_message(attempt: UpdateAttemptRecord) -> Seq<char> {
    (if health_passed(attempt) {
        "health checks passed for service `"@
    } else {
        "health checks failed for service `"@
    }) + attempt.service_name@ + "`: "@ + match attempt.health_check {
        Some(r) => r.message@,
        None => "no report"@,
    }
}

/// The event emitted when health checks finish.
pub fn health_check_finished(attempt: &UpdateAttemptRecord, occurred_at: Timestamp) -> (e: AuditEvent)
    ensures
        event_is(
            e,
            attempt.update_id,
            occurred_at,
            if health_passed(*attempt) {
                AuditEventKind::HealthCheckPassed
            } else {
                AuditEventKind::HealthCheckFailed
            },
            health_check_finished_message(*attempt),
        ),
{
    let passed = match &attempt.health_check {
        Some(r) => r.outcome == HealthCheckOutcome::Passed,
        None => false,
    };
    let mut m = if passed {
        String::from_str("health checks passed for service `")
    } else {
        String::from_str("health checks failed for service `")
    };
    m.append(attempt.service_name.as_str());
    m.append("`: ");
    match &attempt.health_check {
        Some(r) => m.append(r.message.as_str()),
        None => m.append("no report"),
    }
    let kind = if passed { AuditEventKind::HealthCheckPassed } else { AuditEventKind::HealthCheckFailed };
    event(attempt.update_id, occurred_at, kind, m)
}

/// The message recorded when an update is committed.
pub open spec fn update_committed_message(target: Seq<char>, service: Seq<char>) -> Seq<char> {
    "committed image `"@ + target + "` to service `"@ + service + "`"@
}

/// The event emitted when an update is committed.
pub fn update_finished(attempt: &UpdateAttemptRecord, occurred_at: Timestamp) -> (e: AuditEvent)
    ensures
        event_is(
            e,
            attempt.update_id,
            occurred_at,
            AuditEventKind::UpdateCommitted,
            update_committed_message(attempt.target_image_reference@, attempt.service_name@),
        ),
{
    let mut m = String::from_str("committed image `");
    m.append(attempt.target_image_reference.as_str());
    m.append("` to service `");
    m.append(attempt.service_name.as_str());
    m.append("`");
    event(attempt.update_id, occurred_at, AuditEventKind::UpdateCommitted, m)
}

/// The message recorded when a rollback begins.
pub open spec fn rollback_started_message(service: Seq<char>) -> Seq<char> {
    "started rolling back service `"@ + service + "`"@
}

/// The event emitted when a rollback begins.
pub fn rollback_started(attempt: &UpdateAttemptRecord, occurred_at: Timestamp) -> (e: AuditEvent)
    ensures
        event_is(
            e,
            attempt.update_id,
            occurred_at,
            AuditEventKind::RollbackStarted,
            rollback_started_message(attempt.service_name@),
        ),
{
    let mut m = String::from_str("started rolling back service `");
    m.append(attempt.service_name.as_str());
    m.append("`");
    event(attempt.update_id, occurred_at, AuditEventKind::RollbackStarted, m)
}

/// The message recorded when a rollback finishes.
pub open spec fn rollback_finished_message(attempt: UpdateAttemptRecord) -> Seq<char> {
    if attempt.status == UpdateAttemptStatus::RolledBack {
        "rolled back service `"@ + attempt.service_name@ + "` to its previous image"@
    } else {
        "rollback of service `"@ + attempt.service_name@ + "` did not finish cleanly"@
    }
}

/// The event emitted when a rollback finishes, well or not.
pub fn rollback_finished(attempt: &UpdateAttemptRecord, occurred_at: Timestamp) -> (e: AuditEvent)
    ensures
        event_is(
            e,
            attempt.update_id,
            occurred_at,
            if attempt.status == UpdateAttemptStatus::RolledBack {
                AuditEventKind::RollbackSucceeded
            } else {
                AuditEventKind::RollbackFailed
            },
            rollback_finished_message(*attempt),
        ),
{
    if attempt.status == UpdateAttemptStatus::RolledBack {
        let mut m = String::from_str("rolled back service `");
        m.append(attempt.service_name.as_str());
        m.append("` to its previous image");
        event(attempt.update_id, occurred_at, AuditEventKind::RollbackSucceeded, m)
    } else {
        let mut m = String::from_str("rollback of service `");
        m.append(attempt.service_name.as_str());
        m.append("` did not finish cleanly");
        event(attempt.update_id, occurred_at, AuditEventKind::RollbackFailed, m)
    }
}

} // verus!
