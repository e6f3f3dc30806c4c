//! Health evaluation of the containers behind a managed service.

use vstd::prelude::*;
use crate::clock::Timestamp;
use crate::domain::{HealthCheckKind, HealthCheckOutcome, HealthCheckReport, ValidationIssue};
use crate::text::{decimal_text, drop_leading, skip_leading, string_of_range, usize_decimal_string, chars_of};

verus! {

/// Narrow Docker health states used by the updater.
#[derive(Clone, Copy, Debug, PartialEq, Eq, Structural)]
pub enum ContainerHealthState {
    Starting,
    Healthy,
    Unhealthy,
}

/// What the health logic reads of one container.
#[derive(Debug, PartialEq, Eq)]
pub struct ObservedContainer {
    pub container_id: String,
    /// Container name, without Docker's leading `/`.
    pub name: String,
    pub image_reference: Option<String>,
    pub running: bool,
    pub health: Option<ContainerHealthState>,
}

impl Clone for ObservedContainer {
    fn clone(&self) -> (r: Self)
        ensures
            r == *self,
    {
        ObservedContainer {
            container_id: self.container_id.clone(),
            name: self.name.clone(),
            image_reference: crate::domain::clone_opt_string(&self.image_reference),
            running: self.running,
            health: self.health,
        }
    }
}

/// The outcome of evaluating one poll of the containers.
#[derive(Debug, PartialEq, Eq)]
pub enum PollState {
    Passed(String),
    Failed(String),
    Pending(String),
}

/// Joins texts with a separator between consecutive parts.
pub open spec fn join(parts: Seq<Seq<char>>, sep: Seq<char>) -> Seq<char>
    decreases parts.len(),
{
    if parts.len() == 0 {
        Seq::empty()
    } else if parts.len() == 1 {
        parts[0]
    } else {
        join(parts.drop_last(), sep) + sep + parts.last()
    }
}

/// Joins strings with a separator.
pub fn join_strings(parts: &Vec<String>, sep: &str) -> (s: String)
    ensures
        s@ == join(parts@.map_values(|p: String| p@), sep@),
{
    let ghost views = parts@.map_values(|p: String| p@);
    let mut s = String::new();
    let mut i: usize = 0;
    while i < parts.len()
        invariant
            views == parts@.map_values(|p: String| p@),
            i <= parts@.len(),
            s@ == join(views.take(i as int), sep@),
        decreases parts.len() - i,
    {
        if i != 0 {
            s.append(sep);
        }
        s.append(parts[i].as_str());
        assert(views.take(i + 1).drop_last() =~= views.take(i as int));
        i = i + 1;
    }
    assert(views.take(parts@.len() as int) =~= views);
    s
}

/// `running` or `not-running`.
pub open spec fn run_state_text(running: bool) -> Seq<char> {
    if running { "running"@ } else { "not-running"@ }
}

/// How one container is described in status lines.
pub open spec fn container_status_text(c: ObservedContainer) -> Seq<char> {
    let state = run_state_text(c.running);
    match c.health {
        Some(ContainerHealthState::Starting) => c.name@ + " ("@ + state + ", health=starting)"@,
        Some(ContainerHealthState::Healthy) => c.name@ + " ("@ + state + ", health=healthy)"@,
        Some(ContainerHealthState::Unhealthy) => c.name@ + " ("@ + state + ", health=unhealthy)"@,
        None => c.name@ + " ("@ + state + ")"@,
    }
}

/// The descriptions of all containers, in order.
pub open spec fn status_texts(cs: Seq<ObservedContainer>) -> Seq<Seq<char>> {
    cs.map_values(|c: ObservedContainer| container_status_text(c))
}

/// The names of the containers whose health is `h`, in order.
pub open spec fn names_with_health(cs: Seq<ObservedContainer>, h: Option<ContainerHealthState>) -> Seq<Seq<char>>
    decreases cs.len(),
{
    if cs.len() == 0 {
        Seq::empty()
    } else if cs.last().health == h {
        names_with_health(cs.drop_last(), h).push(cs.last().name@)
    } else {
        names_with_health(cs.drop_last(), h)
    }
}

fn describe_container(c: &ObservedContainer) -> (s: String)
    ensures
        s@ == container_status_text(*c),
{
    let state = if c.running { "running" } else { "not-running" };
    let mut s = c.name.clone();
    s.append(" (");
    s.append(state);
    match c.health {
        Some(ContainerHealthState::Starting) => s.append(", health=starting)"),
        Some(ContainerHealthState::Healthy) => s.append(", health=healthy)"),
        Some(ContainerHealthState::Unhealthy) => s.append(", health=unhealthy)"),
        None => s.append(")"),
    }
    s
}

/// One line describing every container: `name (state[, health=...])`, comma separated.
pub fn container_status_line(containers: &[ObservedContainer]) -> (s: String)
    ensures
        s@ == join(status_texts(containers@), ", "@),
{
    let mut parts: Vec<String> = Vec::new();
    let mut i: usize = 0;
    while i < containers.len()
        invariant
            i <= containers@.len(),
            parts@.len() == i,
            forall|k: int| 0 <= k < i ==> #[trigger] parts@[k]@ == container_status_text(containers@[k]),
        decreases containers.len() - i,
    {
        parts.push(describe_container(&containers[i]));
        i = i + 1;
    }
    assert(parts@.map_values(|p: String| p@) =~= status_texts(containers@));
    join_strings(&parts, ", ")
}

fn collect_names(containers: &[ObservedContainer], h: Option<ContainerHealthState>) -> (v: Vec<String>)
    ensures
        v@.map_values(|p: String| p@) == names_with_health(containers@, h),
{
    let mut v: Vec<String> = Vec::new();
    let mut i: usize = 0;
    while i < containers.len()
        invariant
            i <= containers@.len(),
            v@.map_values(|p: String| p@) == names_with_health(containers@.take(i as int), h),
        decreases containers.len() - i,
    {
        assert(containers@.take(i + 1).drop_last() =~= containers@.take(i as int));
        if containers[i].health == h {
            v.push(containers[i].name.clone());
        }
        assert(v@.map_values(|p: String| p@) =~= names_with_health(containers@.take(i + 1), h));
        i = i + 1;
    }
    assert(containers@.take(containers@.len() as int) =~= containers@);
    v
}

/// Whether every container is running.
pub open spec fn all_running(cs: Seq<ObservedContainer>) -> bool {
    forall|i: int| 0 <= i < cs.len() ==> (#[trigger] cs[i]).running
}

/// The evaluation of one poll of the containers, by health-check kind.
pub open spec fn poll_state_of(cs: Seq<ObservedContainer>, kind: HealthCheckKind) -> (Seq<char>, int) {
    // (message, 0 = passed / 1 = failed / 2 = pending)
    if cs.len() == 0 {
        ("waiting for containers to appear"@, 2)
    } else {
        match kind {
            HealthCheckKind::Running => if all_running(cs) {
                (decimal_text(cs.len()) + " container(s) are running"@, 0)
            } else {
                ("waiting for running containers: "@ + join(status_texts(cs), ", "@), 2)
            },
            HealthCheckKind::ContainerHealth => if !all_running(cs) {
                (
                    "waiting for running containers before checking health: "@ + join(
                        status_texts(cs),
                        ", "@,
                    ),
                    2,
                )
            } else if names_with_health(cs, Some(ContainerHealthState::Unhealthy)).len() > 0 {
                (
                    "containers reported unhealthy: "@ + join(
                        names_with_health(cs, Some(ContainerHealthState::Unhealthy)),
                        ", "@,
                    ),
                    1,
                )
            } else if names_with_health(cs, None).len() > 0 {
                (
                    "containers are missing Docker health status: "@ + join(
                        names_with_health(cs, None),
                        ", "@,
                    ),
                    1,
                )
            } else if names_with_health(cs, Some(ContainerHealthState::Starting)).len() > 0 {
                (
                    "waiting for healthy containers: "@ + join(
                        names_with_health(cs, Some(ContainerHealthState::Starting)),
                        ", "@,
                    ),
                    2,
                )
            } else {
                (decimal_text(cs.len()) + " container(s) reported healthy"@, 0)
            },
        }
    }
}

proof fn lemma_no_names_with_health(cs: Seq<ObservedContainer>, h: Option<ContainerHealthState>)
    ensures
        (names_with_health(cs, h).len() == 0) <==> (forall|i: int| 0 <= i < cs.len() ==> (#[trigger] cs[i]).health != h),
    decreases cs.len(),
{
    if cs.len() > 0 {
        lemma_no_names_with_health(cs.drop_last(), h);
        if names_with_health(cs, h).len() == 0 {
            assert forall|i: int| 0 <= i < cs.len() implies (#[trigger] cs[i]).health != h by {
                if i < cs.len() - 1 {
                    assert(cs.drop_last()[i] == cs[i]);
                }
            }
        } else if cs.last().health != h {
            let i = choose|i: int| 0 <= i < cs.drop_last().len() && (#[trigger] cs.drop_last()[i]).health == h;
            assert(cs[i] == cs.drop_last()[i]);
        }
    }
}

/// When a poll passes, fails or waits, in terms of the containers observed:
/// a `Running` check passes exactly when there is a container and every one
/// is running; a `ContainerHealth` check passes exactly when there is a
/// container and every one is running and reported healthy; a poll fails
/// only for a `ContainerHealth` check whose containers all run and one of
/// which is unhealthy or reports no health; with no container the poll waits.
pub proof fn law_health_verdict_follows_containers(cs: Seq<ObservedContainer>, kind: HealthCheckKind)
    ensures
        kind == HealthCheckKind::Running ==> ((poll_state_of(cs, kind).1 == 0) <==> (cs.len() > 0
            && forall|i: int| 0 <= i < cs.len() ==> (#[trigger] cs[i]).running)),
        kind == HealthCheckKind::ContainerHealth ==> ((poll_state_of(cs, kind).1 == 0) <==> (cs.len() > 0
            && forall|i: int| 0 <= i < cs.len() ==> (#[trigger] cs[i]).running
                && cs[i].health == Some(ContainerHealthState::Healthy))),
        poll_state_of(cs, kind).1 == 1 ==> {
            &&& kind == HealthCheckKind::ContainerHealth
            &&& forall|i: int| 0 <= i < cs.len() ==> (#[trigger] cs[i]).running
            &&& exists|i: int| 0 <= i < cs.len() && ((#[trigger] cs[i]).health == Some(ContainerHealthState::Unhealthy)
                || cs[i].health is None)
        },
        cs.len() == 0 ==> poll_state_of(cs, kind).1 == 2,
{
    lemma_no_names_with_health(cs, Some(ContainerHealthState::Unhealthy));
    lemma_no_names_with_health(cs, None);
    lemma_no_names_with_health(cs, Some(ContainerHealthState::Starting));
    if kind == HealthCheckKind::ContainerHealth && cs.len() > 0 {
        if (forall|i: int| 0 <= i < cs.len() ==> (#[trigger] cs[i]).running
                && cs[i].health == Some(ContainerHealthState::Healthy)) {
            assert(all_running(cs));
        }
        if poll_state_of(cs, kind).1 == 0 {
            assert forall|i: int| 0 <= i < cs.len() implies (#[trigger] cs[i]).running
                && cs[i].health == Some(ContainerHealthState::Healthy) by {
                assert(cs[i].health != Some(ContainerHealthState::Unhealthy));
                assert(cs[i].health != Some(ContainerHealthState::Starting));
                assert(cs[i].health is Some);
            }
        }
    }
}

/// Whether a poll state matches the spec's (message, verdict) pair.
pub open spec fn poll_state_is(p: PollState, expected: (Seq<char>, int)) -> bool {
    match p {
        PollState::Passed(m) => expected.1 == 0 && m@ == expected.0,
        PollState::Failed(m) => expected.1 == 1 && m@ == expected.0,
        PollState::Pending(m) => expected.1 == 2 && m@ == expected.0,
    }
}

fn check_all_running(containers: &[ObservedContainer]) -> (b: bool)
    ensures
        b == all_running(containers@),
{
    let mut i: usize = 0;
    while i < containers.len()
        invariant
            i <= containers@.len(),
            forall|k: int| 0 <= k < i ==> (#[trigger] containers@[k]).running,
        decreases containers.len() - i,
    {
        if !containers[i].running {
            return false;
        }
        i = i + 1;
    }
    true
}

/// Evaluates one poll of the containers against the health-check kind.
pub fn evaluate_containers(containers: &[ObservedContainer], kind: HealthCheckKind) -> (p: PollState)
    ensures
        poll_state_is(p, poll_state_of(containers@, kind)),
{
    if containers.len() == 0 {
        return PollState::Pending(String::from_str("waiting for containers to appear"));
    }
    let running = check_all_running(containers);
    match kind {
        HealthCheckKind::Running => {
            if running {
                let mut m = usize_decimal_string(containers.len());
                m.append(" container(s) are running");
                PollState::Passed(m)
            } else {
                let mut m = String::from_str("waiting for running containers: ");
                m.append(container_status_line(containers).as_str());
                PollState::Pending(m)
            }
        },
        HealthCheckKind::ContainerHealth => {
            if !running {
                let mut m = String::from_str("waiting for running containers before checking health: ");
                m.append(container_status_line(containers).as_str());
                return PollState::Pending(m);
            }
            let unhealthy = collect_names(containers, Some(ContainerHealthState::Unhealthy));
            let missing = collect_names(containers, None);
            let starting = collect_names(containers, Some(ContainerHealthState::Starting));
            if unhealthy.len() != 0 {
                let mut m = String::from_str("containers reported unhealthy: ");
                m.append(join_strings(&unhealthy, ", ").as_str());
                return PollState::Failed(m);
            }
            if missing.len() != 0 {
                let mut m = String::from_str("containers are missing Docker health status: ");
                m.append(join_strings(&missing, ", ").as_str());
                return PollState::Failed(m);
            }
            if starting.len() != 0 {
                let mut m = String::from_str("waiting for healthy containers: ");
                m.append(join_strings(&starting, ", ").as_str());
                return PollState::Pending(m);
            }
            let mut m = usize_decimal_string(containers.len());
            m.append(" container(s) reported healthy");
            PollState::Passed(m)
        },
    }
}

/// What to do after one poll of a health check.
#[derive(Debug, PartialEq, Eq)]
pub enum HealthPoll {
    /// The check is over: record this report.
    Report(HealthCheckReport),
    /// Still pending and the deadline has not passed: wait one interval and poll again.
    Wait,
}

/// The pending message of a poll whose containers could not be fetched.
pub open spec fn fetch_failed_message(error: Seq<char>) -> Seq<char> {
    "waiting for runtime state: "@ + error
}

/// Decides one poll of a health check: a pass or a failure ends the check; a
/// pending poll ends it as timed out once the deadline has passed.
pub fn health_poll_step(
    kind: HealthCheckKind,
    fetched: Result<Vec<ObservedContainer>, String>,
    deadline_reached: bool,
    checked_at: Timestamp,
) -> (r: HealthPoll)
    ensures
        match fetched {
            Ok(cs) => {
                let (message, verdict) = poll_state_of(cs@, kind);
                if verdict == 0 {
                    r matches HealthPoll::Report(rep) && rep.kind == kind && rep.outcome
                        == HealthCheckOutcome::Passed && rep.message@ == message && rep.checked_at
                        == checked_at
                } else if verdict == 1 {
                    r matches HealthPoll::Report(rep) && rep.kind == kind && rep.outcome
                        == HealthCheckOutcome::Failed && rep.message@ == message && rep.checked_at
                        == checked_at
                } else if deadline_reached {
                    r matches HealthPoll::Report(rep) && rep.kind == kind && rep.outcome
                        == HealthCheckOutcome::TimedOut && rep.message@ == message && rep.checked_at
                        == checked_at
                } else {
                    r == HealthPoll::Wait
                }
            },
            Err(e) => if deadline_reached {
                r matches HealthPoll::Report(rep) && rep.kind == kind && rep.outcome
                    == HealthCheckOutcome::TimedOut && rep.message@ == fetch_failed_message(e@)
                    && rep.checked_at == checked_at
            } else {
                r == HealthPoll::Wait
            },
        },
{
    let pending_message = match fetched {
        Ok(containers) => match evaluate_containers(containers.as_slice(), kind) {
            PollState::Passed(message) => {
                return HealthPoll::Report(HealthCheckReport {
                    kind,
                    outcome: HealthCheckOutcome::Passed,
                    message,
                    checked_at,
                });
            },
            PollState::Failed(message) => {
                return HealthPoll::Report(HealthCheckReport {
                    kind,
                    outcome: HealthCheckOutcome::Failed,
                    message,
                    checked_at,
                });
            },
            PollState::Pending(message) => message,
        },
        Err(error) => {
            let mut m = String::from_str("waiting for runtime state: ");
            m.append(error.as_str());
            m
        },
    };
    if deadline_reached {
        HealthPoll::Report(HealthCheckReport {
            kind,
            outcome: HealthCheckOutcome::TimedOut,
            message: pending_message,
            checked_at,
        })
    } else {
        HealthPoll::Wait
    }
}

/// The issue recorded for a health report.
pub open spec fn health_issue_code(outcome: HealthCheckOutcome) -> Seq<char> {
    match outcome {
        HealthCheckOutcome::Passed => "health_check.passed"@,
        HealthCheckOutcome::Failed => "health_check.failed"@,
        HealthCheckOutcome::TimedOut => "health_check.timed_out"@,
    }
}

/// Turns a health report into an issue carrying its message.
pub fn issue_from_health_report(report: &HealthCheckReport) -> (i: ValidationIssue)
    ensures
        i.code@ == health_issue_code(report.outcome),
        i.message == report.message,
{
    let code = match report.outcome {
        HealthCheckOutcome::Passed => "health_check.passed",
        HealthCheckOutcome::Failed => "health_check.failed",
        HealthCheckOutcome::TimedOut => "health_check.timed_out",
    };
    ValidationIssue::with_message(code, report.message.clone())
}


/// The health status Docker reports for a container with a health check.
#[derive(Clone, Copy, Debug, PartialEq, Eq, Structural)]
pub enum ReportedHealth {
    Starting,
    Healthy,
    Unhealthy,
    /// Any other status (`none` or an empty one).
    Other,
}

/// The health state the updater reads from a reported status.
pub open spec fn health_state_of(h: Option<ReportedHealth>) -> Option<ContainerHealthState> {
    match h {
        Some(ReportedHealth::Starting) => Some(ContainerHealthState::Starting),
        Some(ReportedHealth::Healthy) => Some(ContainerHealthState::Healthy),
        Some(ReportedHealth::Unhealthy) => Some(ContainerHealthState::Unhealthy),
        _ => None,
    }
}

/// What the updater reads of an inspected container: its id (empty when
/// absent), its name without leading `/` characters, its image, whether it
/// runs (not when unknown) and its health.
pub open spec fn observed_of(
    id: Option<String>,
    name: Option<String>,
    image: Option<String>,
    running: Option<bool>,
    health: Option<ReportedHealth>,
) -> (Seq<char>, Seq<char>, Option<String>, bool, Option<ContainerHealthState>) {
    (
        match id {
            Some(i) => i@,
            None => Seq::empty(),
        },
        drop_leading(
            match name {
                Some(n) => n@,
                None => Seq::empty(),
            },
            Some('/'),
        ),
        image,
        match running {
            Some(r) => r,
            None => false,
        },
        health_state_of(health),
    )
}

/// Builds the updater's view of an inspected container from what Docker reported.
pub fn observe_container(
    id: Option<String>,
    name: Option<String>,
    image: Option<String>,
    running: Option<bool>,
    health: Option<ReportedHealth>,
) -> (c: ObservedContainer)
    ensures
        (c.container_id@, c.name@, c.image_reference, c.running, c.health) == observed_of(
            id,
            name,
            image,
            running,
            health,
        ),
{
    let container_id = match id {
        Some(i) => i,
        None => String::new(),
    };
    let raw_name = match &name {
        Some(n) => chars_of(n.as_str()),
        None => Vec::new(),
    };
    assert(raw_name@.subrange(0, raw_name@.len() as int) =~= raw_name@);
    let start = skip_leading(&raw_name, 0, raw_name.len(), Some('/'));
    let trimmed = string_of_range(&raw_name, start, raw_name.len());
    let state = match health {
        Some(ReportedHealth::Starting) => Some(ContainerHealthState::Starting),
        Some(ReportedHealth::Healthy) => Some(ContainerHealthState::Healthy),
        Some(ReportedHealth::Unhealthy) => Some(ContainerHealthState::Unhealthy),
        _ => None,
    };
    ObservedContainer {
        container_id,
        name: trimmed,
        image_reference: image,
        running: match running {
            Some(r) => r,
            None => false,
        },
        health: state,
    }
}

} // verus!
