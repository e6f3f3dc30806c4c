//! What the command line shows operators: labels, summaries and listings,
//! each as the exact lines printed.

use vstd::prelude::*;
use crate::clock::{format_timestamp, timestamp_text, Timestamp};
use crate::domain::{
    AuditEvent, AuditEventKind, HealthCheckKind, HealthCheckOutcome, ImageImportRecord,
    ImageImportStatus, ImageImportView, IssueView, ManagedService, RuntimeMode, ServiceCatalog,
    ServiceStateRecord, UpdateAttemptRecord, UpdateAttemptStatus, UpdateAttemptView,
    ValidationIssue, ValidationRecord, ValidationRecordView, ValidationStatus, issues_view,
};
use crate::ids::{uuid_hyphenated_string, uuid_hyphenated_text};
use crate::text::{decimal_string, decimal_text, push_text, string_views, text_eq};
use crate::version::semver_text;

verus! {

broadcast use vstd::string::group_string_axioms;

// ---------------------------------------------------------------------------
// Labels.
// ---------------------------------------------------------------------------

/// The label of a runtime mode.
pub open spec fn runtime_label_text(runtime: RuntimeMode) -> Seq<char> {
    match runtime {
        RuntimeMode::Docker(_) => "docker"@,
        RuntimeMode::Compose(_) => "compose"@,
    }
}

/// Labels a runtime mode.
pub fn runtime_label(runtime: &RuntimeMode) -> (s: &'static str)
    ensures
        s@ == runtime_label_text(*runtime),
{
    match runtime {
        RuntimeMode::Docker(_) => "docker",
        RuntimeMode::Compose(_) => "compose",
    }
}

/// The label of a service's health-check mode.
pub open spec fn health_check_label_text(kind: HealthCheckKind) -> Seq<char> {
    match kind {
        HealthCheckKind::Running => "running"@,
        HealthCheckKind::ContainerHealth => "container_health"@,
    }
}

/// Labels a service's health-check mode.
pub fn health_check_label(service: &ManagedService) -> (s: &'static str)
    ensures
        s@ == health_check_label_text(service.health_check.kind),
{
    match service.health_check.kind {
        HealthCheckKind::Running => "running",
        HealthCheckKind::ContainerHealth => "container_health",
    }
}

/// The label of a validation status.
pub open spec fn validation_status_text(status: ValidationStatus) -> Seq<char> {
    match status {
        ValidationStatus::Accepted => "accepted"@,
        ValidationStatus::Rejected => "rejected"@,
    }
}

/// Labels a validation status.
pub fn validation_status_label(status: ValidationStatus) -> (s: &'static str)
    ensures
        s@ == validation_status_text(status),
{
    match status {
        ValidationStatus::Accepted => "accepted",
        ValidationStatus::Rejected => "rejected",
    }
}

/// The label of an image-import status.
pub open spec fn image_import_status_text(status: ImageImportStatus) -> Seq<char> {
    match status {
        ImageImportStatus::Imported => "imported"@,
        ImageImportStatus::Failed => "failed"@,
    }
}

/// Labels an image-import status.
pub fn image_import_status_label(status: ImageImportStatus) -> (s: &'static str)
    ensures
        s@ == image_import_status_text(status),
{
    match status {
        ImageImportStatus::Imported => "imported",
        ImageImportStatus::Failed => "failed",
    }
}

/// The label of an update status.
pub open spec fn update_status_text(status: UpdateAttemptStatus) -> Seq<char> {
    match status {
        UpdateAttemptStatus::Applying => "applying"@,
        UpdateAttemptStatus::HealthChecking => "health checking"@,
        UpdateAttemptStatus::Succeeded => "succeeded"@,
        UpdateAttemptStatus::Failed => "failed"@,
        UpdateAttemptStatus::RollbackStarted => "rolling back"@,
        UpdateAttemptStatus::RolledBack => "rolled back"@,
        UpdateAttemptStatus::RollbackFailed => "rollback failed"@,
    }
}

/// Labels an update status.
pub fn update_status_label(status: UpdateAttemptStatus) -> (s: &'static str)
    ensures
        s@ == update_status_text(status),
{
    match status {
        UpdateAttemptStatus::Applying => "applying",
        UpdateAttemptStatus::HealthChecking => "health checking",
        UpdateAttemptStatus::Succeeded => "succeeded",
        UpdateAttemptStatus::Failed => "failed",
        UpdateAttemptStatus::RollbackStarted => "rolling back",
        UpdateAttemptStatus::RolledBack => "rolled back",
        UpdateAttemptStatus::RollbackFailed => "rollback failed",
    }
}

/// The sentence that sums up an update.
pub open spec fn update_summary_sentence_text(status: UpdateAttemptStatus) -> Seq<char> {
    match status {
        UpdateAttemptStatus::Succeeded => "the package was loaded and the service stayed healthy"@,
        UpdateAttemptStatus::RolledBack => "the update failed, so the service was moved back to the previous image"@,
        UpdateAttemptStatus::RollbackFailed => "the update failed and the automatic rollback did not finish cleanly"@,
        UpdateAttemptStatus::Failed => "the update did not finish cleanly"@,
        UpdateAttemptStatus::Applying => "the update is still marked as applying"@,
        UpdateAttemptStatus::HealthChecking => "the update is still waiting on health checks"@,
        UpdateAttemptStatus::RollbackStarted => "rollback started but did not finish yet"@,
    }
}

/// Sums up an update in one sentence.
pub fn update_summary_sentence(status: UpdateAttemptStatus) -> (s: &'static str)
    ensures
        s@ == update_summary_sentence_text(status),
{
    match status {
        UpdateAttemptStatus::Succeeded => "the package was loaded and the service stayed healthy",
        UpdateAttemptStatus::RolledBack => "the update failed, so the service was moved back to the previous image",
        UpdateAttemptStatus::RollbackFailed => "the update failed and the automatic rollback did not finish cleanly",
        UpdateAttemptStatus::Failed => "the update did not finish cleanly",
        UpdateAttemptStatus::Applying => "the update is still marked as applying",
        UpdateAttemptStatus::HealthChecking => "the update is still waiting on health checks",
        UpdateAttemptStatus::RollbackStarted => "rollback started but did not finish yet",
    }
}

/// The label of a health-check outcome.
pub open spec fn health_outcome_text(outcome: HealthCheckOutcome) -> Seq<char> {
    match outcome {
        HealthCheckOutcome::Passed => "passed"@,
        HealthCheckOutcome::Failed => "failed"@,
        HealthCheckOutcome::TimedOut => "timed out"@,
    }
}

/// Labels a health-check outcome.
pub fn health_check_outcome_label(outcome: HealthCheckOutcome) -> (s: &'static str)
    ensures
        s@ == health_outcome_text(outcome),
{
    match outcome {
        HealthCheckOutcome::Passed => "passed",
        HealthCheckOutcome::Failed => "failed",
        HealthCheckOutcome::TimedOut => "timed out",
    }
}

/// The label of an audit event kind.
pub open spec fn audit_kind_text(kind: AuditEventKind) -> Seq<char> {
    match kind {
        AuditEventKind::ValidationStarted => "validation_started"@,
        AuditEventKind::ValidationAccepted => "validation_accepted"@,
        AuditEventKind::ValidationRejected => "validation_rejected"@,
        AuditEventKind::ImageImportStarted => "image_import_started"@,
        AuditEventKind::ImageImportSucceeded => "image_import_succeeded"@,
        AuditEventKind::ImageImportFailed => "image_import_failed"@,
        AuditEventKind::UpdateStarted => "update_started"@,
        AuditEventKind::HealthCheckStarted => "health_check_started"@,
        AuditEventKind::HealthCheckPassed => "health_check_passed"@,
        AuditEventKind::HealthCheckFailed => "health_check_failed"@,
        AuditEventKind::RollbackStarted => "rollback_started"@,
        AuditEventKind::RollbackSucceeded => "rollback_succeeded"@,
        AuditEventKind::RollbackFailed => "rollback_failed"@,
        AuditEventKind::UpdateCommitted => "update_committed"@,
    }
}

/// Labels an audit event kind.
pub fn audit_kind_label(kind: AuditEventKind) -> (s: &'static str)
    ensures
        s@ == audit_kind_text(kind),
{
    match kind {
        AuditEventKind::ValidationStarted => "validation_started",
        AuditEventKind::ValidationAccepted => "validation_accepted",
        AuditEventKind::ValidationRejected => "validation_rejected",
        AuditEventKind::ImageImportStarted => "image_import_started",
        AuditEventKind::ImageImportSucceeded => "image_import_succeeded",
        AuditEventKind::ImageImportFailed => "image_import_failed",
        AuditEventKind::UpdateStarted => "update_started",
        AuditEventKind::HealthCheckStarted => "health_check_started",
        AuditEventKind::HealthCheckPassed => "health_check_passed",
        AuditEventKind::HealthCheckFailed => "health_check_failed",
        AuditEventKind::RollbackStarted => "rollback_started",
        AuditEventKind::RollbackSucceeded => "rollback_succeeded",
        AuditEventKind::RollbackFailed => "rollback_failed",
        AuditEventKind::UpdateCommitted => "update_committed",
    }
}

/// The process exit code after an update: success only when the update
/// succeeded, a distinct code when the rollback failed too.
pub open spec fn update_exit_code(status: UpdateAttemptStatus) -> u8 {
    match status {
        UpdateAttemptStatus::Succeeded => 0,
        UpdateAttemptStatus::RollbackFailed => 5,
        _ => 4,
    }
}

/// The process exit code after an update.
pub fn exit_code_for_update_status(status: UpdateAttemptStatus) -> (c: u8)
    ensures
        c == update_exit_code(status),
{
    match status {
        UpdateAttemptStatus::Succeeded => 0,
        UpdateAttemptStatus::RollbackFailed => 5,
        UpdateAttemptStatus::Failed | UpdateAttemptStatus::RolledBack
        | UpdateAttemptStatus::Applying | UpdateAttemptStatus::HealthChecking
        | UpdateAttemptStatus::RollbackStarted => 4,
    }
}

// ---------------------------------------------------------------------------
// Lookups.
// ---------------------------------------------------------------------------

/// The image the catalog itself names for a service (Docker services only).
pub open spec fn catalog_image(service: ManagedService) -> Option<Seq<char>> {
    match service.runtime {
        RuntimeMode::Docker(d) => Some(d.image_reference@),
        RuntimeMode::Compose(_) => None,
    }
}

/// The image the catalog names for a service, if any.
pub fn catalog_image_for_service(service: &ManagedService) -> (r: Option<&str>)
    ensures
        match r {
            Some(s) => catalog_image(*service) == Some(s@),
            None => catalog_image(*service) is None,
        },
{
    match &service.runtime {
        RuntimeMode::Docker(runtime) => Some(runtime.image_reference.as_str()),
        RuntimeMode::Compose(_) => None,
    }
}

/// The first attempt in the list for a service (the list is newest first).
pub open spec fn first_attempt_for(attempts: Seq<UpdateAttemptRecord>, name: Seq<char>) -> Option<
    UpdateAttemptRecord,
>
    decreases attempts.len(),
{
    if attempts.len() == 0 {
        None
    } else if attempts[0].service_name@ == name {
        Some(attempts[0])
    } else {
        first_attempt_for(attempts.drop_first(), name)
    }
}

/// The most recent update attempt for a service.
pub fn latest_attempt_for_service<'a>(attempts: &'a [UpdateAttemptRecord], service_name: &str) -> (r:
    Option<&'a UpdateAttemptRecord>)
    ensures
        match r {
            Some(a) => first_attempt_for(attempts@, service_name@) == Some(*a),
            None => first_attempt_for(attempts@, service_name@) is None,
        },
{
    let mut i: usize = 0;
    assert(attempts@.skip(0) =~= attempts@);
    while i < attempts.len()
        invariant
            i <= attempts@.len(),
            first_attempt_for(attempts@, service_name@) == first_attempt_for(
                attempts@.skip(i as int),
                service_name@,
            ),
        decreases attempts.len() - i,
    {
        proof {
            assert(attempts@.skip(i as int).drop_first() =~= attempts@.skip(i + 1));
            assert(attempts@.skip(i as int)[0] == attempts@[i as int]);
        }
        if text_eq(attempts[i].service_name.as_str(), service_name) {
            return Some(&attempts[i]);
        }
        i = i + 1;
    }
    None
}

/// The last state record in the list for a service (later records replace earlier ones).
pub open spec fn last_state_for(states: Seq<ServiceStateRecord>, name: Seq<char>) -> Option<
    ServiceStateRecord,
>
    decreases states.len(),
{
    if states.len() == 0 {
        None
    } else if states.last().service_name@ == name {
        Some(states.last())
    } else {
        last_state_for(states.drop_last(), name)
    }
}

/// The recorded state of a service: the last record carrying its name.
pub fn state_for_service<'a>(states: &'a [ServiceStateRecord], service_name: &str) -> (r: Option<
    &'a ServiceStateRecord,
>)
    ensures
        match r {
            Some(s) => last_state_for(states@, service_name@) == Some(*s),
            None => last_state_for(states@, service_name@) is None,
        },
{
    let mut i: usize = states.len();
    assert(states@.take(states@.len() as int) =~= states@);
    while i > 0
        invariant
            i <= states@.len(),
            last_state_for(states@, service_name@) == last_state_for(
                states@.take(i as int),
                service_name@,
            ),
        decreases i,
    {
        proof {
            assert(states@.take(i as int).drop_last() =~= states@.take(i - 1));
            assert(states@.take(i as int).last() == states@[i - 1]);
        }
        if text_eq(states[i - 1].service_name.as_str(), service_name) {
            return Some(&states[i - 1]);
        }
        i = i - 1;
    }
    None
}

/// The image shown as active for a service: the recorded one, else the
/// catalog's, else a placeholder.
pub open spec fn active_image_text(service: ManagedService, state: Option<ServiceStateRecord>) -> Seq<char> {
    match state {
        Some(s) => s.active_image_reference@,
        None => match catalog_image(service) {
            Some(i) => i,
            None => "not recorded yet"@,
        },
    }
}

/// The image shown as active for a service.
pub fn active_image_label(service: &ManagedService, state: Option<&ServiceStateRecord>) -> (s: String)
    ensures
        s@ == active_image_text(
            *service,
            match state {
                Some(r) => Some(*r),
                None => None,
            },
        ),
{
    match state {
        Some(record) => record.active_image_reference.clone(),
        None => match catalog_image_for_service(service) {
            Some(image) => String::from_str(image),
            None => String::from_str("not recorded yet"),
        },
    }
}

/// The status shown for a service's last update.
pub open spec fn last_update_text(last: Option<UpdateAttemptRecord>) -> Seq<char> {
    match last {
        Some(a) => update_status_text(a.status),
        None => "none yet"@,
    }
}

/// The status shown for a service's last update.
pub fn last_update_label(last_attempt: Option<&UpdateAttemptRecord>) -> (s: String)
    ensures
        s@ == last_update_text(
            match last_attempt {
                Some(a) => Some(*a),
                None => None,
            },
        ),
{
    match last_attempt {
        Some(attempt) => String::from_str(update_status_label(attempt.status)),
        None => String::from_str("none yet"),
    }
}


// ---------------------------------------------------------------------------
// Blocks of lines.
// ---------------------------------------------------------------------------

fn labeled(head: &str, value: &str) -> (s: String)
    ensures
        s@ == head@ + value@,
{
    let mut s = String::from_str(head);
    s.append(value);
    s
}

/// One line of an issue list: `- [code] message`.
pub open spec fn issue_line(i: IssueView) -> Seq<char> {
    "- ["@ + i.code + "] "@ + i.message
}

/// The issue block of a summary.
pub open spec fn issue_block(issues: Seq<IssueView>) -> Seq<Seq<char>> {
    if issues.len() == 0 {
        seq!["Issues: none"@]
    } else {
        seq!["Issues:"@] + issues.map_values(|i: IssueView| issue_line(i))
    }
}

/// Appends the issue block for a list of issues.
pub fn write_issue_block(out: &mut Vec<String>, issues: &Vec<ValidationIssue>)
    ensures
        string_views(final(out)@) == string_views(old(out)@) + issue_block(issues_view(issues@)),
{
    let ghost base = string_views(out@);
    let ghost all = issues_view(issues@);
    if issues.len() == 0 {
        push_text(out, String::from_str("Issues: none"));
        assert(string_views(out@) =~= base + issue_block(all));
        return;
    }
    push_text(out, String::from_str("Issues:"));
    let mut i: usize = 0;
    while i < issues.len()
        invariant
            all == issues_view(issues@),
            i <= issues.len(),
            string_views(out@) == base + seq!["Issues:"@] + all.take(i as int).map_values(
                |v: IssueView| issue_line(v),
            ),
        decreases issues.len() - i,
    {
        let issue = &issues[i];
        let mut line = String::from_str("- [");
        line.append(issue.code.as_str());
        line.append("] ");
        line.append(issue.message.as_str());
        assert(line@ == issue_line(all[i as int]));
        let ghost before = string_views(out@);
        push_text(out, line);
        assert(all.take(i + 1).map_values(|v: IssueView| issue_line(v)) =~= all.take(
            i as int,
        ).map_values(|v: IssueView| issue_line(v)).push(issue_line(all[i as int])));
        i = i + 1;
    }
    assert(all.take(issues.len() as int) =~= all);
    assert(string_views(out@) =~= base + issue_block(all));
}

/// A line shown only when a value is present.
pub open spec fn optional_line(head: Seq<char>, value: Option<Seq<char>>) -> Seq<Seq<char>> {
    match value {
        Some(v) => seq![head + v],
        None => Seq::empty(),
    }
}

/// The text of an optional string.
pub open spec fn opt_text(o: Option<String>) -> Option<Seq<char>> {
    match o {
        Some(s) => Some(s@),
        None => None,
    }
}

/// The text of an optional instant.
pub open spec fn opt_time_text(o: Option<Timestamp>) -> Option<Seq<char>> {
    match o {
        Some(t) => Some(timestamp_text(t)),
        None => None,
    }
}

/// The lines an attempt's summary and detail views share: previous image,
/// start, finish, health check and issues.
pub open spec fn attempt_detail_lines(a: UpdateAttemptView) -> Seq<Seq<char>> {
    optional_line("Previous image: "@, opt_text(a.previous_image_reference))
        + seq!["Started: "@ + timestamp_text(a.started_at)]
        + optional_line("Finished: "@, opt_time_text(a.finished_at))
        + match a.health_check {
            Some(h) => seq![
                "Health check: "@ + health_outcome_text(h.outcome) + " ("@ + h.message@ + ")"@,
            ],
            None => Seq::empty(),
        }
        + issue_block(a.issues)
}

fn write_attempt_details(out: &mut Vec<String>, attempt: &UpdateAttemptRecord)
    ensures
        string_views(final(out)@) == string_views(old(out)@) + attempt_detail_lines(attempt@),
{
    let ghost base = string_views(out@);
    let ghost a = attempt@;
    let ghost p1 = optional_line("Previous image: "@, opt_text(a.previous_image_reference));
    if let Some(previous_image) = &attempt.previous_image_reference {
        push_text(out, labeled("Previous image: ", previous_image.as_str()));
    }
    assert(string_views(out@) =~= base + p1);
    let started = format_timestamp(attempt.started_at);
    push_text(out, labeled("Started: ", started.as_str()));
    let ghost p2 = base + p1 + seq!["Started: "@ + timestamp_text(a.started_at)];
    assert(string_views(out@) =~= p2);
    if let Some(finished_at) = attempt.finished_at {
        let finished = format_timestamp(finished_at);
        push_text(out, labeled("Finished: ", finished.as_str()));
    }
    let ghost p3 = p2 + optional_line("Finished: "@, opt_time_text(a.finished_at));
    assert(string_views(out@) =~= p3);
    let ghost health = match a.health_check {
        Some(h) => seq![
            "Health check: "@ + health_outcome_text(h.outcome) + " ("@ + h.message@ + ")"@,
        ],
        None => Seq::<Seq<char>>::empty(),
    };
    if let Some(health_check) = &attempt.health_check {
        let mut line = String::from_str("Health check: ");
        line.append(health_check_outcome_label(health_check.outcome));
        line.append(" (");
        line.append(health_check.message.as_str());
        line.append(")");
        push_text(out, line);
    }
    assert(string_views(out@) =~= p3 + health);
    write_issue_block(out, &attempt.issues);
    assert(string_views(out@) =~= base + attempt_detail_lines(a));
}

/// The summary printed after an update.
pub open spec fn update_summary_text(a: UpdateAttemptView) -> Seq<Seq<char>> {
    seq![
        "Update result"@,
        "Status: "@ + update_status_text(a.status),
        "Service: "@ + a.service_name@,
        "Target image: "@ + a.target_image_reference@,
    ] + attempt_detail_lines(a) + seq!["Summary: "@ + update_summary_sentence_text(a.status)]
}

/// The lines summing up an update.
pub fn update_summary_lines(record: &UpdateAttemptRecord) -> (lines: Vec<String>)
    ensures
        string_views(lines@) == update_summary_text(record@),
{
    let mut out: Vec<String> = Vec::new();
    push_text(&mut out, String::from_str("Update result"));
    push_text(&mut out, labeled("Status: ", update_status_label(record.status)));
    push_text(&mut out, labeled("Service: ", record.service_name.as_str()));
    push_text(&mut out, labeled("Target image: ", record.target_image_reference.as_str()));
    let ghost head = string_views(out@);
    write_attempt_details(&mut out, record);
    push_text(&mut out, labeled("Summary: ", update_summary_sentence(record.status)));
    assert(string_views(out@) =~= update_summary_text(record@));
    out
}


/// Whether an audit event belongs to an attempt: recorded under its update
/// id or under the validation that led to it.
pub open spec fn event_concerns(e: AuditEvent, a: UpdateAttemptView) -> bool {
    e.attempt_id == a.update_id || e.attempt_id == a.validation_attempt_id
}

/// One line of an event list.
pub open spec fn event_line(e: AuditEvent) -> Seq<char> {
    "- "@ + timestamp_text(e.occurred_at) + " | "@ + audit_kind_text(e.kind) + " | "@ + e.message@
}

/// The lines of the events that belong to an attempt, in log order.
pub open spec fn event_lines(events: Seq<AuditEvent>, a: UpdateAttemptView) -> Seq<Seq<char>>
    decreases events.len(),
{
    if events.len() == 0 {
        Seq::empty()
    } else {
        (if event_concerns(events[0], a) {
            seq![event_line(events[0])]
        } else {
            Seq::empty()
        }) + event_lines(events.drop_first(), a)
    }
}

/// The detail view of one attempt with its events.
pub open spec fn history_details_text(a: UpdateAttemptView, events: Seq<AuditEvent>) -> Seq<Seq<char>> {
    let listed = event_lines(events, a);
    seq![
        "Update: "@ + uuid_hyphenated_text(a.update_id),
        "Service: "@ + a.service_name@,
        "Status: "@ + update_status_text(a.status),
        "Target image: "@ + a.target_image_reference@,
    ] + attempt_detail_lines(a) + seq!["Events:"@] + if listed.len() == 0 {
        seq!["- none recorded"@]
    } else {
        listed
    }
}

/// The lines of the detail view of one attempt.
pub fn history_details_lines(attempt: &UpdateAttemptRecord, audit_events: &[AuditEvent]) -> (lines:
    Vec<String>)
    ensures
        string_views(lines@) == history_details_text(attempt@, audit_events@),
{
    let ghost a = attempt@;
    let mut out: Vec<String> = Vec::new();
    let id = uuid_hyphenated_string(attempt.update_id);
    push_text(&mut out, labeled("Update: ", id.as_str()));
    push_text(&mut out, labeled("Service: ", attempt.service_name.as_str()));
    push_text(&mut out, labeled("Status: ", update_status_label(attempt.status)));
    push_text(&mut out, labeled("Target image: ", attempt.target_image_reference.as_str()));
    write_attempt_details(&mut out, attempt);
    push_text(&mut out, String::from_str("Events:"));
    let ghost base = string_views(out@);
    let mut count: usize = 0;
    let mut i: usize = 0;
    assert(audit_events@.skip(0) =~= audit_events@);
    while i < audit_events.len()
        invariant
            a == attempt@,
            i <= audit_events@.len(),
            count <= i,
            string_views(out@).len() == base.len() + count,
            string_views(out@) + event_lines(audit_events@.skip(i as int), a) == base
                + event_lines(audit_events@, a),
        decreases audit_events.len() - i,
    {
        let event = &audit_events[i];
        let ghost rest = audit_events@.skip(i as int);
        proof {
            assert(rest.drop_first() =~= audit_events@.skip(i + 1));
            assert(rest[0] == *event);
        }
        let ghost before = string_views(out@);
        if event.attempt_id == attempt.update_id || event.attempt_id == attempt.validation_attempt_id {
            let at = format_timestamp(event.occurred_at);
            let mut line = String::from_str("- ");
            line.append(at.as_str());
            line.append(" | ");
            line.append(audit_kind_label(event.kind));
            line.append(" | ");
            line.append(event.message.as_str());
            push_text(&mut out, line);
            count = count + 1;
            assert(before.push(event_line(*event)) + event_lines(audit_events@.skip(i + 1), a)
                =~= before + event_lines(rest, a));
        } else {
            assert(before + event_lines(audit_events@.skip(i + 1), a) =~= before + event_lines(
                rest,
                a,
            ));
        }
        i = i + 1;
    }
    proof {
        assert(audit_events@.skip(audit_events@.len() as int) =~= Seq::<AuditEvent>::empty());
        assert(string_views(out@) =~= base + event_lines(audit_events@, a));
    }
    if count == 0 {
        push_text(&mut out, String::from_str("- none recorded"));
    }
    assert(string_views(out@) =~= history_details_text(a, audit_events@));
    out
}

/// Whether an attempt passes the history filter.
pub open spec fn attempt_selected(a: UpdateAttemptRecord, filter: Option<Seq<char>>) -> bool {
    match filter {
        Some(name) => a.service_name@ == name,
        None => true,
    }
}

/// The two lines listing one attempt.
pub open spec fn attempt_entry(a: UpdateAttemptRecord) -> Seq<Seq<char>> {
    seq![
        "- "@ + uuid_hyphenated_text(a.update_id) + " | "@ + timestamp_text(a.started_at) + " | "@
            + a.service_name@ + " | "@ + update_status_text(a.status),
        "  target image: "@ + a.target_image_reference@,
    ]
}

/// The entries of the first `remaining` attempts that pass the filter, in order.
pub open spec fn history_entries(
    attempts: Seq<UpdateAttemptRecord>,
    filter: Option<Seq<char>>,
    remaining: nat,
) -> Seq<Seq<char>>
    decreases attempts.len(),
{
    if attempts.len() == 0 || remaining == 0 {
        Seq::empty()
    } else if attempt_selected(attempts[0], filter) {
        attempt_entry(attempts[0]) + history_entries(attempts.drop_first(), filter, (remaining - 1) as nat)
    } else {
        history_entries(attempts.drop_first(), filter, remaining)
    }
}

/// The history listing: at most `limit` attempts (all when there is no
/// limit) that pass the filter.
pub open spec fn history_list_text(
    attempts: Seq<UpdateAttemptRecord>,
    filter: Option<Seq<char>>,
    limit: Option<usize>,
) -> Seq<Seq<char>> {
    let entries = history_entries(
        attempts,
        filter,
        match limit {
            Some(l) => l as nat,
            None => usize::MAX as nat,
        },
    );
    seq!["Update history"@] + entries + if entries.len() == 0 {
        seq!["No update history matched the current filter."@]
    } else {
        Seq::empty()
    }
}

/// The lines of the history listing.
pub fn history_list_lines(
    attempts: &[UpdateAttemptRecord],
    service_filter: Option<&str>,
    limit: Option<usize>,
) -> (lines: Vec<String>)
    ensures
        string_views(lines@) == history_list_text(
            attempts@,
            match service_filter {
                Some(f) => Some(f@),
                None => None,
            },
            limit,
        ),
{
    let ghost filter = match service_filter {
        Some(f) => Some(f@),
        None => None::<Seq<char>>,
    };
    let cap: usize = match limit {
        Some(l) => l,
        None => usize::MAX,
    };
    let mut out: Vec<String> = Vec::new();
    push_text(&mut out, String::from_str("Update history"));
    let ghost base = string_views(out@);
    let mut shown: usize = 0;
    let mut i: usize = 0;
    assert(attempts@.skip(0) =~= attempts@);
    while i < attempts.len() && shown < cap
        invariant
            filter == match service_filter {
                Some(f) => Some(f@),
                None => None::<Seq<char>>,
            },
            i <= attempts@.len(),
            shown <= cap,
            string_views(out@).len() == base.len() + 2 * shown,
            string_views(out@) + history_entries(attempts@.skip(i as int), filter, (cap - shown) as nat)
                == base + history_entries(attempts@, filter, cap as nat),
        decreases attempts.len() - i,
    {
        let attempt = &attempts[i];
        let ghost rest = attempts@.skip(i as int);
        proof {
            assert(rest.drop_first() =~= attempts@.skip(i + 1));
            assert(rest[0] == *attempt);
        }
        let selected = match service_filter {
            Some(name) => text_eq(attempt.service_name.as_str(), name),
            None => true,
        };
        let ghost before = string_views(out@);
        if selected {
            let id = uuid_hyphenated_string(attempt.update_id);
            let started = format_timestamp(attempt.started_at);
            let mut line = String::from_str("- ");
            line.append(id.as_str());
            line.append(" | ");
            line.append(started.as_str());
            line.append(" | ");
            line.append(attempt.service_name.as_str());
            line.append(" | ");
            line.append(update_status_label(attempt.status));
            push_text(&mut out, line);
            push_text(&mut out, labeled("  target image: ", attempt.target_image_reference.as_str()));
            assert(string_views(out@) + history_entries(
                attempts@.skip(i + 1),
                filter,
                (cap - shown - 1) as nat,
            ) =~= before + history_entries(rest, filter, (cap - shown) as nat));
            shown = shown + 1;
        }
        i = i + 1;
    }
    proof {
        assert(history_entries(attempts@.skip(i as int), filter, (cap - shown) as nat) =~= Seq::<
            Seq<char>,
        >::empty());
        assert(string_views(out@) =~= base + history_entries(attempts@, filter, cap as nat));
    }
    if shown == 0 {
        push_text(&mut out, String::from_str("No update history matched the current filter."));
    }
    assert(string_views(out@) =~= history_list_text(attempts@, filter, limit));
    out
}


/// The manifest lines of a validation summary.
pub open spec fn manifest_lines(manifest: Option<crate::domain::PackageManifest>) -> Seq<Seq<char>> {
    match manifest {
        Some(m) => seq![
            "Target service: "@ + m.target.service@,
            "Service revision: "@ + m.target.service_revision@,
            "Platform: "@ + m.target.platform@,
            "Package version: "@ + semver_text(m.package_version@),
            "Target image: "@ + m.image.reference@,
        ],
        None => Seq::empty(),
    }
}

/// The image-archive line of a validation summary.
pub open spec fn archive_lines(archive: Option<crate::domain::ImageArchiveMetadata>) -> Seq<Seq<char>> {
    match archive {
        Some(a) => seq![
            "Image archive: "@ + a.entry_name@ + " ("@ + decimal_text(a.size_bytes as nat)
                + " bytes)"@,
        ],
        None => Seq::empty(),
    }
}

/// The summary printed after a package validation.
pub open spec fn validation_summary_text(r: ValidationRecordView) -> Seq<Seq<char>> {
    seq![
        "Package validation"@,
        "Status: "@ + validation_status_text(r.status),
        "Source package: "@ + r.source_path@,
    ] + manifest_lines(r.manifest) + archive_lines(r.image_archive) + issue_block(r.issues)
}

/// The lines summing up a package validation.
pub fn validation_summary_lines(record: &ValidationRecord) -> (lines: Vec<String>)
    ensures
        string_views(lines@) == validation_summary_text(record@),
{
    let ghost r = record@;
    let mut out: Vec<String> = Vec::new();
    push_text(&mut out, String::from_str("Package validation"));
    push_text(&mut out, labeled("Status: ", validation_status_label(record.status)));
    push_text(&mut out, labeled("Source package: ", record.source_path.as_str()));
    let ghost head = string_views(out@);
    if let Some(manifest) = &record.manifest {
        push_text(&mut out, labeled("Target service: ", manifest.target.service.as_str()));
        push_text(&mut out, labeled("Service revision: ", manifest.target.service_revision.as_str()));
        push_text(&mut out, labeled("Platform: ", manifest.target.platform.as_str()));
        let version = manifest.package_version.text();
        push_text(&mut out, labeled("Package version: ", version.as_str()));
        push_text(&mut out, labeled("Target image: ", manifest.image.reference.as_str()));
    }
    assert(string_views(out@) =~= head + manifest_lines(r.manifest));
    let ghost mid = string_views(out@);
    if let Some(archive) = &record.image_archive {
        let mut line = String::from_str("Image archive: ");
        line.append(archive.entry_name.as_str());
        line.append(" (");
        let size = decimal_string(archive.size_bytes);
        line.append(size.as_str());
        line.append(" bytes)");
        push_text(&mut out, line);
    }
    assert(string_views(out@) =~= mid + archive_lines(r.image_archive));
    write_issue_block(&mut out, &record.issues);
    assert(string_views(out@) =~= validation_summary_text(r));
    out
}

/// The summary printed after an image import.
pub open spec fn image_import_summary_text(r: ImageImportView) -> Seq<Seq<char>> {
    seq![
        "Image import"@,
        "Status: "@ + image_import_status_text(r.status),
        "Service: "@ + r.service_name@,
        "Image: "@ + r.image_reference@,
    ] + match r.imported_image {
        Some(m) => seq!["Imported image id: "@ + m.image_id@],
        None => Seq::empty(),
    } + issue_block(r.issues)
}

/// The lines summing up an image import.
pub fn image_import_summary_lines(record: &ImageImportRecord) -> (lines: Vec<String>)
    ensures
        string_views(lines@) == image_import_summary_text(record@),
{
    let ghost r = record@;
    let mut out: Vec<String> = Vec::new();
    push_text(&mut out, String::from_str("Image import"));
    push_text(&mut out, labeled("Status: ", image_import_status_label(record.status)));
    push_text(&mut out, labeled("Service: ", record.service_name.as_str()));
    push_text(&mut out, labeled("Image: ", record.image_reference.as_str()));
    let ghost head = string_views(out@);
    if let Some(imported) = &record.imported_image {
        push_text(&mut out, labeled("Imported image id: ", imported.image_id.as_str()));
    }
    assert(string_views(out@) =~= head + match r.imported_image {
        Some(m) => seq!["Imported image id: "@ + m.image_id@],
        None => Seq::<Seq<char>>::empty(),
    });
    write_issue_block(&mut out, &record.issues);
    assert(string_views(out@) =~= image_import_summary_text(r));
    out
}


/// One line of the service list.
pub open spec fn service_list_line(
    service: ManagedService,
    states: Seq<ServiceStateRecord>,
    attempts: Seq<UpdateAttemptRecord>,
) -> Seq<char> {
    "- "@ + service.name@ + " | runtime: "@ + runtime_label_text(service.runtime)
        + " | active image: "@ + active_image_text(service, last_state_for(states, service.name@))
        + " | last update: "@ + last_update_text(first_attempt_for(attempts, service.name@))
}

/// The service list: one line per catalog service, in catalog order.
pub open spec fn service_list_text(
    services: Seq<ManagedService>,
    states: Seq<ServiceStateRecord>,
    attempts: Seq<UpdateAttemptRecord>,
) -> Seq<Seq<char>> {
    seq!["Known services"@] + services.map_values(
        |s: ManagedService| service_list_line(s, states, attempts),
    ) + if services.len() == 0 {
        seq!["No services are defined in the current service catalog."@]
    } else {
        Seq::empty()
    }
}

/// The lines of the service list.
pub fn service_list_lines(
    catalog: &ServiceCatalog,
    states: &[ServiceStateRecord],
    attempts: &[UpdateAttemptRecord],
) -> (lines: Vec<String>)
    ensures
        string_views(lines@) == service_list_text(catalog.services@, states@, attempts@),
{
    let ghost services = catalog.services@;
    let mut out: Vec<String> = Vec::new();
    push_text(&mut out, String::from_str("Known services"));
    let ghost base = string_views(out@);
    let mut i: usize = 0;
    while i < catalog.services.len()
        invariant
            services == catalog.services@,
            i <= services.len(),
            string_views(out@) == base + services.take(i as int).map_values(
                |s: ManagedService| service_list_line(s, states@, attempts@),
            ),
        decreases catalog.services.len() - i,
    {
        let service = &catalog.services[i];
        let state = state_for_service(states, service.name.as_str());
        let last_attempt = latest_attempt_for_service(attempts, service.name.as_str());
        let mut line = String::from_str("- ");
        line.append(service.name.as_str());
        line.append(" | runtime: ");
        line.append(runtime_label(&service.runtime));
        line.append(" | active image: ");
        let active = active_image_label(service, state);
        line.append(active.as_str());
        line.append(" | last update: ");
        let last = last_update_label(last_attempt);
        line.append(last.as_str());
        assert(line@ == service_list_line(*service, states@, attempts@));
        push_text(&mut out, line);
        assert(services.take(i + 1).map_values(
            |s: ManagedService| service_list_line(s, states@, attempts@),
        ) =~= services.take(i as int).map_values(
            |s: ManagedService| service_list_line(s, states@, attempts@),
        ).push(service_list_line(services[i as int], states@, attempts@)));
        i = i + 1;
    }
    assert(services.take(services.len() as int) =~= services);
    if catalog.services.len() == 0 {
        push_text(&mut out, String::from_str("No services are defined in the current service catalog."));
    }
    assert(string_views(out@) =~= service_list_text(services, states@, attempts@));
    out
}

/// The runtime-specific lines of a service's details.
pub open spec fn runtime_detail_lines(runtime: RuntimeMode) -> Seq<Seq<char>> {
    match runtime {
        RuntimeMode::Docker(d) => seq![
            "Container: "@ + d.container_name@,
            "Catalog image: "@ + d.image_reference@,
        ],
        RuntimeMode::Compose(c) => seq![
            "Compose project: "@ + c.project@,
            "Compose file: "@ + c.file@,
            "Compose service: "@ + c.service@,
        ],
    }
}

/// The previous known-good image shown for a service.
pub open spec fn known_good_text(state: Option<ServiceStateRecord>) -> Seq<char> {
    match state {
        Some(s) => match s.previous_known_good_image_reference {
            Some(i) => i@,
            None => "not recorded yet"@,
        },
        None => "not recorded yet"@,
    }
}

/// The last-update lines of a service's details.
pub open spec fn last_attempt_lines(last: Option<UpdateAttemptRecord>) -> Seq<Seq<char>> {
    match last {
        Some(a) => seq![
            "Last update: "@ + update_status_text(a.status),
            "Last target image: "@ + a.target_image_reference@,
            "Last started: "@ + timestamp_text(a.started_at),
        ] + optional_line("Last finished: "@, opt_time_text(a.finished_at)),
        None => seq!["Last update: none yet"@],
    }
}

/// The detail view of one service.
pub open spec fn service_details_text(
    service: ManagedService,
    state: Option<ServiceStateRecord>,
    last: Option<UpdateAttemptRecord>,
) -> Seq<Seq<char>> {
    seq![
        "Service: "@ + service.name@,
        "Revision: "@ + service.service_revision@,
        "Platform: "@ + service.platform@,
        "Runtime: "@ + runtime_label_text(service.runtime),
    ] + runtime_detail_lines(service.runtime) + service_state_lines(service, state)
        + last_attempt_lines(last)
}

fn write_runtime_details(out: &mut Vec<String>, runtime: &RuntimeMode)
    ensures
        string_views(final(out)@) == string_views(old(out)@) + runtime_detail_lines(*runtime),
{
    let ghost p0 = string_views(out@);
    match runtime {
        RuntimeMode::Docker(runtime) => {
            push_text(out, labeled("Container: ", runtime.container_name.as_str()));
            push_text(out, labeled("Catalog image: ", runtime.image_reference.as_str()));
        },
        RuntimeMode::Compose(runtime) => {
            push_text(out, labeled("Compose project: ", runtime.project.as_str()));
            push_text(out, labeled("Compose file: ", runtime.file.as_str()));
            push_text(out, labeled("Compose service: ", runtime.service.as_str()));
        },
    }
    assert(string_views(out@) =~= p0 + runtime_detail_lines(*runtime));
}

/// The state lines of a service's details: health check, active and
/// known-good images, and when the state was recorded.
pub open spec fn service_state_lines(service: ManagedService, state: Option<ServiceStateRecord>) -> Seq<
    Seq<char>,
> {
    seq![
        "Health check: "@ + health_check_label_text(service.health_check.kind),
        "Active image: "@ + active_image_text(service, state),
        "Previous known-good image: "@ + known_good_text(state),
    ] + optional_line(
        "State updated: "@,
        match state {
            Some(s) => Some(timestamp_text(s.updated_at)),
            None => None,
        },
    )
}

fn write_service_state(out: &mut Vec<String>, service: &ManagedService, state: Option<&ServiceStateRecord>)
    ensures
        string_views(final(out)@) == string_views(old(out)@) + service_state_lines(
            *service,
            match state {
                Some(s) => Some(*s),
                None => None,
            },
        ),
{
    let ghost st = match state {
        Some(s) => Some(*s),
        None => None::<ServiceStateRecord>,
    };
    let ghost p0 = string_views(out@);
    push_text(out, labeled("Health check: ", health_check_label(service)));
    let active = active_image_label(service, state);
    push_text(out, labeled("Active image: ", active.as_str()));
    let known_good = match state {
        Some(record) => match &record.previous_known_good_image_reference {
            Some(image) => image.clone(),
            None => String::from_str("not recorded yet"),
        },
        None => String::from_str("not recorded yet"),
    };
    assert(known_good@ == known_good_text(st));
    push_text(out, labeled("Previous known-good image: ", known_good.as_str()));
    if let Some(record) = state {
        let updated = format_timestamp(record.updated_at);
        push_text(out, labeled("State updated: ", updated.as_str()));
    }
    assert(string_views(out@) =~= p0 + service_state_lines(*service, st));
}

fn write_last_attempt(out: &mut Vec<String>, last_attempt: Option<&UpdateAttemptRecord>)
    ensures
        string_views(final(out)@) == string_views(old(out)@) + last_attempt_lines(
            match last_attempt {
                Some(a) => Some(*a),
                None => None,
            },
        ),
{
    let ghost la = match last_attempt {
        Some(a) => Some(*a),
        None => None::<UpdateAttemptRecord>,
    };
    let ghost p0 = string_views(out@);
    match last_attempt {
        Some(attempt) => {
            push_text(out, labeled("Last update: ", update_status_label(attempt.status)));
            push_text(out, labeled("Last target image: ", attempt.target_image_reference.as_str()));
            let started = format_timestamp(attempt.started_at);
            push_text(out, labeled("Last started: ", started.as_str()));
            if let Some(finished_at) = attempt.finished_at {
                let finished = format_timestamp(finished_at);
                push_text(out, labeled("Last finished: ", finished.as_str()));
            }
        },
        None => {
            push_text(out, String::from_str("Last update: none yet"));
        },
    }
    assert(string_views(out@) =~= p0 + last_attempt_lines(la));
}

/// The lines of the detail view of one service.
pub fn service_details_lines(
    service: &ManagedService,
    state: Option<&ServiceStateRecord>,
    last_attempt: Option<&UpdateAttemptRecord>,
) -> (lines: Vec<String>)
    ensures
        string_views(lines@) == service_details_text(
            *service,
            match state {
                Some(s) => Some(*s),
                None => None,
            },
            match last_attempt {
                Some(a) => Some(*a),
                None => None,
            },
        ),
{
    let ghost st = match state {
        Some(s) => Some(*s),
        None => None::<ServiceStateRecord>,
    };
    let ghost la = match last_attempt {
        Some(a) => Some(*a),
        None => None::<UpdateAttemptRecord>,
    };
    let mut out: Vec<String> = Vec::new();
    push_text(&mut out, labeled("Service: ", service.name.as_str()));
    push_text(&mut out, labeled("Revision: ", service.service_revision.as_str()));
    push_text(&mut out, labeled("Platform: ", service.platform.as_str()));
    push_text(&mut out, labeled("Runtime: ", runtime_label(&service.runtime)));
    write_runtime_details(&mut out, &service.runtime);
    write_service_state(&mut out, service, state);
    write_last_attempt(&mut out, last_attempt);
    assert(string_views(out@) =~= service_details_text(*service, st, la));
    out
}

/// The lines shown before asking to load a package.
pub open spec fn confirmation_text(
    manifest: crate::domain::PackageManifest,
    current: Option<ServiceStateRecord>,
) -> Seq<Seq<char>> {
    seq![
        "Ready to load package"@,
        "Target service: "@ + manifest.target.service@,
        "Service revision: "@ + manifest.target.service_revision@,
        "Package version: "@ + semver_text(manifest.package_version@),
        "Target image: "@ + manifest.image.reference@,
        "Current known image: "@ + match current {
            Some(s) => s.active_image_reference@,
            None => "not recorded yet"@,
        },
    ]
}

/// The lines shown before asking to load a package.
pub fn confirmation_lines(
    manifest: &crate::domain::PackageManifest,
    current_state: Option<&ServiceStateRecord>,
) -> (lines: Vec<String>)
    ensures
        string_views(lines@) == confirmation_text(
            *manifest,
            match current_state {
                Some(s) => Some(*s),
                None => None,
            },
        ),
{
    let mut out: Vec<String> = Vec::new();
    push_text(&mut out, String::from_str("Ready to load package"));
    push_text(&mut out, labeled("Target service: ", manifest.target.service.as_str()));
    push_text(&mut out, labeled("Service revision: ", manifest.target.service_revision.as_str()));
    let version = manifest.package_version.text();
    push_text(&mut out, labeled("Package version: ", version.as_str()));
    push_text(&mut out, labeled("Target image: ", manifest.image.reference.as_str()));
    match current_state {
        Some(state) => push_text(
            &mut out,
            labeled("Current known image: ", state.active_image_reference.as_str()),
        ),
        None => push_text(&mut out, labeled("Current known image: ", "not recorded yet")),
    }
    assert(string_views(out@) =~= confirmation_text(
        *manifest,
        match current_state {
            Some(s) => Some(*s),
            None => None,
        },
    ));
    out
}

/// The question asked before loading a package (printed without a line end).
pub fn confirmation_prompt() -> (s: &'static str)
    ensures
        s@ == "Continue and update the service? [y/N]: "@,
{
    "Continue and update the service? [y/N]: "
}

/// A character in ASCII lower case (`char::to_ascii_lowercase`).
pub open spec fn ascii_lower(c: char) -> char {
    if 'A' <= c && c <= 'Z' {
        ((c as u32) + 32) as char
    } else {
        c
    }
}

/// Whether an answer to the prompt agrees: `y` or `yes` in any case, once
/// white space is trimmed.
pub open spec fn answer_agrees(answer: Seq<char>) -> bool {
    let t = crate::text::trim_text(answer).map_values(|c: char| ascii_lower(c));
    t == "y"@ || t == "yes"@
}

fn lower_is(c: char, lower: char, upper: char) -> (b: bool)
    requires
        'a' <= lower <= 'z',
        upper as u32 + 32 == lower as u32,
    ensures
        b == (ascii_lower(c) == lower),
{
    c == lower || c == upper
}

/// Reads an answer to the prompt.
pub fn is_affirmative(answer: &str) -> (b: bool)
    ensures
        b == answer_agrees(answer@),
{
    let chars = crate::text::chars_of(answer);
    assert(chars@.subrange(0, chars@.len() as int) =~= chars@);
    let (a, z) = crate::text::trim_range(&chars, 0, chars.len(), None);
    let ghost t = chars@.subrange(a as int, z as int);
    let ghost lowered = t.map_values(|c: char| ascii_lower(c));
    proof {
        reveal_strlit("y");
        reveal_strlit("yes");
    }
    let n = z - a;
    if n == 1 {
        let b = lower_is(chars[a], 'y', 'Y');
        assert(lowered[0] == ascii_lower(chars@[a as int]));
        assert(b ==> lowered =~= "y"@);
        assert(lowered.len() != "yes"@.len());
        b
    } else if n == 3 {
        let b = lower_is(chars[a], 'y', 'Y') && lower_is(chars[a + 1], 'e', 'E') && lower_is(
            chars[a + 2],
            's',
            'S',
        );
        assert(lowered[0] == ascii_lower(chars@[a as int]));
        assert(lowered[1] == ascii_lower(chars@[a + 1]));
        assert(lowered[2] == ascii_lower(chars@[a + 2]));
        assert(b ==> lowered =~= "yes"@);
        assert(lowered.len() != "y"@.len());
        b
    } else {
        assert(lowered.len() != "y"@.len());
        assert(lowered.len() != "yes"@.len());
        false
    }
}


/// The first state record in the list for a service.
pub open spec fn first_state_for(states: Seq<ServiceStateRecord>, name: Seq<char>) -> Option<
    ServiceStateRecord,
>
    decreases states.len(),
{
    if states.len() == 0 {
        None
    } else if states[0].service_name@ == name {
        Some(states[0])
    } else {
        first_state_for(states.drop_first(), name)
    }
}

fn first_state_for_service<'a>(states: &'a [ServiceStateRecord], service_name: &str) -> (r: Option<
    &'a ServiceStateRecord,
>)
    ensures
        match r {
            Some(s) => first_state_for(states@, service_name@) == Some(*s),
            None => first_state_for(states@, service_name@) is None,
        },
{
    let mut i: usize = 0;
    assert(states@.skip(0) =~= states@);
    while i < states.len()
        invariant
            i <= states@.len(),
            first_state_for(states@, service_name@) == first_state_for(
                states@.skip(i as int),
                service_name@,
            ),
        decreases states.len() - i,
    {
        proof {
            assert(states@.skip(i as int).drop_first() =~= states@.skip(i + 1));
            assert(states@.skip(i as int)[0] == states@[i as int]);
        }
        if text_eq(states[i].service_name.as_str(), service_name) {
            return Some(&states[i]);
        }
        i = i + 1;
    }
    None
}

/// The message when a service asked for by name is not in the catalog.
pub open spec fn unknown_service_message(name: Seq<char>) -> Seq<char> {
    "service `"@ + name + "` is not defined in the service catalog"@
}

/// The detail view of the service with the given name: the first catalog
/// service of that name, with the first state recorded for it and its most
/// recent attempt; or the lookup error when the catalog has no such service.
pub open spec fn service_show_text(
    services: Seq<ManagedService>,
    states: Seq<ServiceStateRecord>,
    attempts: Seq<UpdateAttemptRecord>,
    name: Seq<char>,
) -> Result<Seq<Seq<char>>, Seq<char>> {
    match crate::domain::first_service_index(services, name) {
        Some(i) => Ok(
            service_details_text(
                services[i],
                first_state_for(states, services[i].name@),
                first_attempt_for(attempts, services[i].name@),
            ),
        ),
        None => Err(unknown_service_message(name)),
    }
}

/// The lines of `service show` for one service name.
pub fn service_show_lines(
    catalog: &ServiceCatalog,
    states: &[ServiceStateRecord],
    attempts: &[UpdateAttemptRecord],
    service: &str,
) -> (r: Result<Vec<String>, String>)
    ensures
        match r {
            Ok(lines) => service_show_text(catalog.services@, states@, attempts@, service@)
                == Ok::<Seq<Seq<char>>, Seq<char>>(string_views(lines@)),
            Err(m) => service_show_text(catalog.services@, states@, attempts@, service@)
                == Err::<Seq<Seq<char>>, Seq<char>>(m@),
        },
{
    match catalog.find_service(service) {
        Some(managed) => {
            let ghost services = catalog.services@;
            proof {
                let i = choose|i: int|
                    0 <= i < services.len() && services[i] == *managed && managed.name@ == service@
                        && forall|j: int| 0 <= j < i ==> #[trigger] services[j].name@ != service@;
                assert(services[i].name@ == service@);
                let k = crate::domain::first_service_index(services, service@)->0;
                assert(k == i);
            }
            let state = first_state_for_service(states, managed.name.as_str());
            let last = latest_attempt_for_service(attempts, managed.name.as_str());
            Ok(service_details_lines(managed, state, last))
        },
        None => {
            let mut m = String::from_str("service `");
            m.append(service);
            m.append("` is not defined in the service catalog");
            Err(m)
        },
    }
}

/// The message when an update id is not in the local history.
pub open spec fn unknown_update_message(update_id: u128) -> Seq<char> {
    "update `"@ + uuid_hyphenated_text(update_id) + "` was not found"@
}

/// The message for an update id that is not in the local history.
pub fn unknown_update(update_id: u128) -> (s: String)
    ensures
        s@ == unknown_update_message(update_id),
{
    let id = uuid_hyphenated_string(update_id);
    let mut s = String::from_str("update `");
    s.append(id.as_str());
    s.append("` was not found");
    s
}


/// The lines of `package cleanup`: one per removed path, or a note that the
/// staging area held nothing to remove.
pub open spec fn cleanup_report(area: Seq<char>, removed: Seq<Seq<char>>) -> Seq<Seq<char>> {
    if removed.len() == 0 {
        seq!["no leftover package artifacts under `"@ + area + "`"@]
    } else {
        removed.map_values(|p: Seq<char>| removed_line(p))
    }
}

/// The line for one removed path.
pub open spec fn removed_line(path: Seq<char>) -> Seq<char> {
    "removed `"@ + path + "`"@
}

/// What `package cleanup` prints after removing the given paths.
pub fn cleanup_lines(area: &str, removed: &Vec<String>) -> (lines: Vec<String>)
    ensures
        string_views(lines@) == cleanup_report(area@, string_views(removed@)),
{
    let mut lines: Vec<String> = Vec::new();
    if removed.len() == 0 {
        let mut s = String::from_str("no leftover package artifacts under `");
        s.append(area);
        s.append("`");
        lines.push(s);
        assert(string_views(lines@) =~= cleanup_report(area@, string_views(removed@)));
        return lines;
    }
    let mut i: usize = 0;
    while i < removed.len()
        invariant
            i <= removed@.len(),
            removed@.len() > 0,
            string_views(lines@) == string_views(removed@).take(i as int).map_values(|p: Seq<char>| removed_line(p)),
        decreases removed.len() - i,
    {
        let ghost before = lines@;
        let mut s = String::from_str("removed `");
        s.append(removed[i].as_str());
        s.append("`");
        lines.push(s.clone());
        assert(string_views(lines@) =~= string_views(before).push(s@));
        assert(string_views(removed@).take(i + 1) =~= string_views(removed@).take(i as int).push(removed@[i as int]@));
        assert(string_views(lines@) =~= string_views(removed@).take(i + 1).map_values(|p: Seq<char>| removed_line(p)));
        i = i + 1;
    }
    assert(string_views(removed@).take(removed@.len() as int) =~= string_views(removed@));
    lines
}

/// The history listing shows at most `limit` attempts (two lines each).
pub proof fn law_history_respects_limit(
    attempts: Seq<UpdateAttemptRecord>,
    filter: Option<Seq<char>>,
    limit: nat,
)
    ensures
        history_entries(attempts, filter, limit).len() <= 2 * limit,
    decreases attempts.len(),
{
    if attempts.len() > 0 && limit > 0 {
        if attempt_selected(attempts[0], filter) {
            law_history_respects_limit(attempts.drop_first(), filter, (limit - 1) as nat);
        } else {
            law_history_respects_limit(attempts.drop_first(), filter, limit);
        }
    }
}

/// When an attempt started, as a number that orders instants.
pub open spec fn started_key(a: UpdateAttemptRecord) -> int {
    a.started_at.unix_nanos as int
}

/// Whether attempts are listed most recently started first.
pub open spec fn newest_first_order(s: Seq<UpdateAttemptRecord>) -> bool {
    forall|i: int, j: int| 0 <= i < j < s.len() ==> started_key(s[i]) >= started_key(s[j])
}

/// Orders update attempts most recently started first, keeping every attempt.
pub fn sort_newest_first(attempts: Vec<UpdateAttemptRecord>) -> (sorted: Vec<UpdateAttemptRecord>)
    ensures
        newest_first_order(sorted@),
        sorted@.to_multiset() == attempts@.to_multiset(),
{
    broadcast use vstd::multiset::group_multiset_axioms;
    broadcast use vstd::seq_lib::group_to_multiset_ensures;

    let ghost original = attempts@;
    let mut rest = attempts;
    let mut sorted: Vec<UpdateAttemptRecord> = Vec::new();
    assert(sorted@.to_multiset().add(rest@.to_multiset()) =~= original.to_multiset());
    while rest.len() > 0
        invariant
            newest_first_order(sorted@),
            sorted@.to_multiset().add(rest@.to_multiset()) == original.to_multiset(),
        decreases rest.len(),
    {
        let ghost rest_before = rest@;
        let ghost sorted_before = sorted@;
        let x = rest.remove(0);
        proof {
            assert(rest_before.contains(x)) by {
                assert(rest_before[0] == x);
            }
        }
        let mut p: usize = 0;
        while p < sorted.len() && sorted[p].started_at.unix_nanos >= x.started_at.unix_nanos
            invariant
                sorted@ == sorted_before,
                p <= sorted@.len(),
                forall|k: int| 0 <= k < p ==> started_key(#[trigger] sorted@[k]) >= started_key(x),
            decreases sorted.len() - p,
        {
            p = p + 1;
        }
        proof {
            assert forall|k: int| p <= k < sorted_before.len() implies started_key(
                #[trigger] sorted_before[k],
            ) < started_key(x) by {
                assert(started_key(sorted_before[p as int]) < started_key(x));
            }
        }
        sorted.insert(p, x);
        proof {
            let s2 = sorted@;
            assert forall|i: int, j: int| 0 <= i < j < s2.len() implies started_key(s2[i])
                >= started_key(s2[j]) by {
                if i < p && j < p {
                    assert(s2[i] == sorted_before[i] && s2[j] == sorted_before[j]);
                } else if i < p && j == p {
                    assert(s2[i] == sorted_before[i]);
                } else if i < p {
                    assert(s2[i] == sorted_before[i] && s2[j] == sorted_before[j - 1]);
                } else if i == p {
                    assert(s2[j] == sorted_before[j - 1]);
                } else {
                    assert(s2[i] == sorted_before[i - 1] && s2[j] == sorted_before[j - 1]);
                }
            }
            vstd::seq_lib::to_multiset_insert(sorted_before, p as int, x);
            vstd::seq_lib::to_multiset_remove(rest_before, 0);
            assert(sorted@.to_multiset() == sorted_before.to_multiset().insert(x));
            assert(rest@.to_multiset() == rest_before.to_multiset().remove(x));
            vstd::seq_lib::to_multiset_contains(rest_before, x);
            assert(rest_before.to_multiset().count(x) > 0);
            assert(sorted@.to_multiset().add(rest@.to_multiset()) =~= sorted_before.to_multiset().add(
                rest_before.to_multiset(),
            ));
        }
    }
    assert(rest@.to_multiset() =~= vstd::multiset::Multiset::<UpdateAttemptRecord>::empty());
    assert(sorted@.to_multiset().add(rest@.to_multiset()) =~= sorted@.to_multiset());
    sorted
}

} // verus!
