use std::collections::HashMap;

use caisson::clock::Timestamp;
use caisson::compose::{compose_service_labels, ComposeError};
use caisson::domain::{
    AuditEvent, AuditEventKind, CandidateReleaseRecord, ComposeRuntime, DockerRuntime,
    HealthCheckKind, HealthCheckReport, HealthCheckSpec, ImportedImageMetadata, ManagedService,
    RollbackPolicy, RuntimeMode, ServiceStateRecord, UpdateAttemptRecord, UpdateAttemptStatus,
};
use caisson::health::{health_poll_step, ContainerHealthState, HealthPoll, ObservedContainer};
use caisson::update::{RuntimeCommand, RuntimeFailure, RuntimeOutcome, UpdateEffect, UpdateMachine};
use caisson::version::SemVer;

fn parse_semver(text: &str) -> Result<SemVer, String> {
    let v = semver::Version::parse(text).map_err(|e| e.to_string())?;
    Ok(SemVer {
        major: v.major,
        minor: v.minor,
        patch: v.patch,
        pre: v.pre.as_str().to_string(),
        build: v.build.as_str().to_string(),
    })
}

fn time(text: &str) -> Timestamp {
    let t = time::OffsetDateTime::parse(text, &time::format_description::well_known::Rfc3339)
        .expect("timestamp");
    Timestamp { unix_nanos: t.unix_timestamp_nanos(), offset_seconds: t.offset().whole_seconds() }
}

#[derive(Clone)]
struct FakeContainer {
    container_id: String,
    name: String,
    image_reference: String,
    running: bool,
    health: Option<ContainerHealthState>,
    labels: Vec<String>,
}

struct FakeDocker {
    containers: HashMap<String, FakeContainer>,
    created_container_health: Option<ContainerHealthState>,
    created_container_running: bool,
    fail_create: bool,
    fail_start: bool,
    operations: Vec<String>,
    last_inspected_labels: Vec<String>,
}

fn missing(name: &str) -> RuntimeFailure {
    RuntimeFailure { message: format!("missing container `{name}`"), status_code: Some(404) }
}

impl FakeDocker {
    fn with(containers: Vec<FakeContainer>) -> Self {
        FakeDocker {
            containers: containers.into_iter().map(|c| (c.name.clone(), c)).collect(),
            created_container_health: None,
            created_container_running: true,
            fail_create: false,
            fail_start: false,
            operations: Vec::new(),
            last_inspected_labels: Vec::new(),
        }
    }

    fn inspect(&mut self, name: &str) -> Result<ObservedContainer, RuntimeFailure> {
        let found = self
            .containers
            .get(name)
            .or_else(|| self.containers.values().find(|c| c.container_id == name))
            .cloned()
            .ok_or_else(|| missing(name))?;
        self.last_inspected_labels = found.labels.clone();
        Ok(ObservedContainer {
            container_id: found.container_id,
            name: found.name,
            image_reference: Some(found.image_reference),
            running: found.running,
            health: found.health,
        })
    }

    fn run(&mut self, command: &RuntimeCommand) -> Result<(), RuntimeFailure> {
        match command {
            RuntimeCommand::StopContainer(name) => {
                self.operations.push(format!("stop:{name}"));
                let c = self.containers.get_mut(name).ok_or_else(|| missing(name))?;
                c.running = false;
                Ok(())
            }
            RuntimeCommand::RenameContainer { from, to } => {
                self.operations.push(format!("rename:{from}->{to}"));
                let mut c = self.containers.remove(from).ok_or_else(|| missing(from))?;
                c.name = to.clone();
                self.containers.insert(to.clone(), c);
                Ok(())
            }
            RuntimeCommand::CreateContainer { name, image } => {
                self.operations.push(format!("create:{name}:{image}"));
                if self.fail_create {
                    return Err(RuntimeFailure { message: "create failed".into(), status_code: None });
                }
                let labels = self.last_inspected_labels.clone();
                self.containers.insert(
                    name.clone(),
                    FakeContainer {
                        container_id: format!("{name}-new-id"),
                        name: name.clone(),
                        image_reference: image.clone(),
                        running: self.created_container_running,
                        health: self.created_container_health,
                        labels,
                    },
                );
                Ok(())
            }
            RuntimeCommand::StartContainer(name) => {
                self.operations.push(format!("start:{name}"));
                if self.fail_start {
                    return Err(RuntimeFailure { message: "start failed".into(), status_code: None });
                }
                let c = self.containers.get_mut(name).ok_or_else(|| missing(name))?;
                c.running = true;
                Ok(())
            }
            RuntimeCommand::RemoveContainer { name, .. } => {
                self.operations.push(format!("remove:{name}"));
                self.containers.remove(name).map(|_| ()).ok_or_else(|| missing(name))
            }
            _ => panic!("not a Docker operation"),
        }
    }

    fn containers_with(&mut self, labels: &[String]) -> Result<Vec<ObservedContainer>, RuntimeFailure> {
        let ids: Vec<String> = self
            .containers
            .values()
            .filter(|c| labels.iter().all(|l| c.labels.contains(l)))
            .map(|c| c.container_id.clone())
            .collect();
        let mut found = Vec::new();
        for id in ids {
            found.push(self.inspect(&id)?);
        }
        Ok(found)
    }
}

struct FakeCompose {
    current_image: String,
    applied_images: Vec<String>,
    fail_images: Vec<String>,
}

impl FakeCompose {
    fn apply(&mut self, image: &str) -> Result<(), ComposeError> {
        self.applied_images.push(image.to_string());
        if self.fail_images.iter().any(|i| i == image) {
            return Err(ComposeError::Validation("apply failed".into()));
        }
        self.current_image = image.to_string();
        Ok(())
    }
}

#[derive(Default)]
struct FakeStore {
    states: HashMap<String, ServiceStateRecord>,
    attempts: Vec<UpdateAttemptRecord>,
    audit: Vec<AuditEvent>,
}

impl FakeStore {
    fn apply(&mut self, effects: Vec<UpdateEffect>) {
        for effect in effects {
            match effect {
                UpdateEffect::SaveAttempt(a) => self.attempts.push(a),
                UpdateEffect::AppendAudit(e) => self.audit.push(e),
                UpdateEffect::SaveServiceState(s) => {
                    self.states.insert(s.service_name.clone(), s);
                }
            }
        }
    }

    fn audit_kinds(&self) -> Vec<AuditEventKind> {
        self.audit.iter().map(|e| e.kind).collect()
    }
}

/// Polls health at most twice: once before the deadline and once after it.
fn wait_for_health<F>(spec: &HealthCheckSpec, mut fetch: F) -> HealthCheckReport
where
    F: FnMut() -> Result<Vec<ObservedContainer>, RuntimeFailure>,
{
    for deadline_reached in [false, true] {
        let fetched = fetch().map_err(|f| f.message);
        if let HealthPoll::Report(report) =
            health_poll_step(spec.kind, fetched, deadline_reached, time("2026-03-17T11:02:00Z"))
        {
            return report;
        }
    }
    unreachable!("a poll after the deadline always reports")
}

fn run_update(
    service: &ManagedService,
    candidate: &CandidateReleaseRecord,
    store: &mut FakeStore,
    docker: &mut FakeDocker,
    compose: &mut FakeCompose,
) -> UpdateAttemptRecord {
    let now = time("2026-03-17T11:00:00Z");
    let previous = store.states.get(&service.name).cloned();
    let (mut machine, effects, mut command) = UpdateMachine::start(service, candidate, previous, 0x41, now);
    store.apply(effects);
    loop {
        let outcome = match &command {
            RuntimeCommand::Finish => break,
            RuntimeCommand::InspectContainer(name) => RuntimeOutcome::Inspected(docker.inspect(name)),
            RuntimeCommand::ReadComposeImage => RuntimeOutcome::ComposeImage(Ok(compose.current_image.clone())),
            RuntimeCommand::ApplyComposeImage(image) => {
                RuntimeOutcome::Completed(compose.apply(image).map_err(|e| e.to_runtime_failure()))
            }
            RuntimeCommand::WaitForContainerHealth { name, spec } => {
                RuntimeOutcome::Health(wait_for_health(spec, || docker.inspect(name).map(|c| vec![c])))
            }
            RuntimeCommand::WaitForComposeHealth { project, service, spec } => {
                let labels = compose_service_labels(project, service);
                RuntimeOutcome::Health(wait_for_health(spec, || docker.containers_with(&labels)))
            }
            other => RuntimeOutcome::Completed(docker.run(other)),
        };
        assert!(machine.fits(&outcome));
        let (effects, next) = machine.advance(outcome, now);
        store.apply(effects);
        command = next;
    }
    machine.attempt
}

fn default_health() -> HealthCheckSpec {
    HealthCheckSpec::default_spec()
}

fn frontend_service(health: HealthCheckSpec) -> ManagedService {
    ManagedService {
        name: "frontend".into(),
        service_revision: "frontend-v1".into(),
        platform: "linux/amd64".into(),
        runtime: RuntimeMode::Docker(DockerRuntime {
            container_name: "frontend".into(),
            image_reference: "example/frontend:current".into(),
        }),
        health_check: health,
        rollback: RollbackPolicy::default_policy(),
    }
}

fn backend_service(health: HealthCheckSpec) -> ManagedService {
    ManagedService {
        name: "backend".into(),
        service_revision: "backend-v1".into(),
        platform: "linux/amd64".into(),
        runtime: RuntimeMode::Compose(ComposeRuntime {
            project: "caisson-stack".into(),
            file: "compose.yaml".into(),
            service: "backend".into(),
        }),
        health_check: health,
        rollback: RollbackPolicy::default_policy(),
    }
}

fn candidate_release(service_name: &str, image_reference: &str) -> CandidateReleaseRecord {
    CandidateReleaseRecord::new(
        0x51,
        0x52,
        0x53,
        service_name.to_string(),
        image_reference.to_string(),
        parse_semver("1.2.3").expect("version"),
        time("2026-03-17T10:00:00Z"),
        ImportedImageMetadata {
            image_id: format!("sha256:{service_name}"),
            repo_tags: vec![image_reference.to_string()],
            repo_digests: vec![format!("{image_reference}@sha256:{service_name}")],
            architecture: Some("amd64".into()),
            os: Some("linux".into()),
        },
    )
}

fn docker_container(
    name: &str,
    image_reference: &str,
    running: bool,
    health: Option<ContainerHealthState>,
    labels: Vec<String>,
) -> FakeContainer {
    FakeContainer {
        container_id: format!("{name}-id"),
        name: name.to_string(),
        image_reference: image_reference.to_string(),
        running,
        health,
        labels,
    }
}

fn fake_compose(current: &str) -> FakeCompose {
    FakeCompose { current_image: current.to_string(), applied_images: Vec::new(), fail_images: Vec::new() }
}

#[test]
fn applies_a_docker_service_and_commits_service_state() {
    let mut store = FakeStore::default();
    let candidate = candidate_release("frontend", "example/frontend:1.2.3");
    let mut docker = FakeDocker::with(vec![docker_container("frontend", "example/frontend:current", true, None, Vec::new())]);
    let mut compose = fake_compose("example/backend:current");

    let update = run_update(&frontend_service(default_health()), &candidate, &mut store, &mut docker, &mut compose);

    assert_eq!(update.status, UpdateAttemptStatus::Succeeded);
    let state = store.states.get("frontend").expect("service state should exist");
    assert_eq!(state.active_candidate_release_id, Some(candidate.candidate_release_id));
    assert_eq!(state.active_image_reference, "example/frontend:1.2.3");
    assert_eq!(state.previous_known_good_image_reference.as_deref(), Some("example/frontend:current"));

    let kinds = store.audit_kinds();
    assert!(kinds.contains(&AuditEventKind::UpdateStarted));
    assert!(kinds.contains(&AuditEventKind::HealthCheckPassed));
    assert!(kinds.contains(&AuditEventKind::UpdateCommitted));

    assert!(docker.operations.iter().any(|op| op.starts_with("rename:frontend->")));
    assert!(docker.operations.iter().any(|op| op.starts_with("remove:frontend-caisson-rollback-")));
    assert_eq!(update.rollback_container_name.as_deref(), Some("frontend-caisson-rollback-00000000"));
}

#[test]
fn rolls_back_a_docker_service_when_health_checks_fail() {
    let mut store = FakeStore::default();
    let mut health = default_health();
    health.kind = HealthCheckKind::ContainerHealth;
    health.timeout_secs = 1;
    health.poll_interval_secs = 1;
    let candidate = candidate_release("frontend", "example/frontend:1.2.3");
    let mut docker = FakeDocker::with(vec![docker_container(
        "frontend",
        "example/frontend:current",
        true,
        Some(ContainerHealthState::Healthy),
        Vec::new(),
    )]);
    docker.created_container_health = Some(ContainerHealthState::Unhealthy);
    let mut compose = fake_compose("example/backend:current");

    let update = run_update(&frontend_service(health), &candidate, &mut store, &mut docker, &mut compose);

    assert_eq!(update.status, UpdateAttemptStatus::RolledBack);
    let state = store.states.get("frontend").expect("service state should exist");
    assert_eq!(state.active_image_reference, "example/frontend:current");
    let kinds = store.audit_kinds();
    assert!(kinds.contains(&AuditEventKind::HealthCheckFailed));
    assert!(kinds.contains(&AuditEventKind::RollbackSucceeded));
    assert!(update.issues.iter().any(|i| i.code == "health_check.failed"));
}

#[test]
fn applies_a_compose_service_and_persists_the_candidate() {
    let mut store = FakeStore::default();
    let candidate = candidate_release("backend", "example/backend:2.0.0");
    let labels = compose_service_labels("caisson-stack", "backend");
    let mut docker = FakeDocker::with(vec![docker_container("backend-1", "example/backend:2.0.0", true, None, labels)]);
    let mut compose = fake_compose("example/backend:current");

    let update = run_update(&backend_service(default_health()), &candidate, &mut store, &mut docker, &mut compose);

    assert_eq!(update.status, UpdateAttemptStatus::Succeeded);
    assert_eq!(compose.applied_images, vec!["example/backend:2.0.0"]);
    let state = store.states.get("backend").expect("service state should exist");
    assert_eq!(state.active_image_reference, "example/backend:2.0.0");
}

#[test]
fn rolls_back_a_compose_service_when_health_checks_fail() {
    let mut store = FakeStore::default();
    let mut health = default_health();
    health.kind = HealthCheckKind::ContainerHealth;
    health.timeout_secs = 1;
    health.poll_interval_secs = 1;
    let candidate = candidate_release("backend", "example/backend:2.0.0");
    let labels = compose_service_labels("caisson-stack", "backend");
    let mut docker = FakeDocker::with(vec![docker_container(
        "backend-1",
        "example/backend:2.0.0",
        true,
        Some(ContainerHealthState::Unhealthy),
        labels,
    )]);
    let mut compose = fake_compose("example/backend:current");

    let update = run_update(&backend_service(health), &candidate, &mut store, &mut docker, &mut compose);

    assert_eq!(update.status, UpdateAttemptStatus::RolledBack);
    assert_eq!(compose.applied_images, vec!["example/backend:2.0.0", "example/backend:current"]);
    assert!(store.audit_kinds().contains(&AuditEventKind::RollbackSucceeded));
}

#[test]
fn a_failed_create_restores_the_old_container() {
    let mut store = FakeStore::default();
    let candidate = candidate_release("frontend", "example/frontend:1.2.3");
    let mut docker = FakeDocker::with(vec![docker_container("frontend", "example/frontend:current", true, None, Vec::new())]);
    docker.fail_create = true;
    let mut compose = fake_compose("example/backend:current");

    let update = run_update(&frontend_service(default_health()), &candidate, &mut store, &mut docker, &mut compose);

    assert_eq!(update.status, UpdateAttemptStatus::RolledBack);
    assert!(update.issues.iter().any(|i| i.code == "docker.create_failed"));
    assert!(docker.containers.contains_key("frontend"));
    assert!(docker.containers["frontend"].running);
}

#[test]
fn a_missing_container_fails_the_update_without_touching_state() {
    let mut store = FakeStore::default();
    let candidate = candidate_release("frontend", "example/frontend:1.2.3");
    let mut docker = FakeDocker::with(Vec::new());
    let mut compose = fake_compose("example/backend:current");

    let update = run_update(&frontend_service(default_health()), &candidate, &mut store, &mut docker, &mut compose);

    assert_eq!(update.status, UpdateAttemptStatus::Failed);
    assert_eq!(update.issues[0].code, "docker.service_inspect_failed");
    assert_eq!(
        update.issues[0].message,
        "failed to inspect the managed container: missing container `frontend`"
    );
    assert!(store.states.is_empty());
    assert!(update.finished_at.is_some());
}

#[test]
fn a_failed_compose_rollback_is_reported() {
    let mut store = FakeStore::default();
    let candidate = candidate_release("backend", "example/backend:2.0.0");
    let mut docker = FakeDocker::with(Vec::new());
    let mut compose = fake_compose("example/backend:current");
    compose.fail_images = vec!["example/backend:2.0.0".into(), "example/backend:current".into()];

    let update = run_update(&backend_service(default_health()), &candidate, &mut store, &mut docker, &mut compose);

    assert_eq!(update.status, UpdateAttemptStatus::RollbackFailed);
    assert_eq!(update.issues[0].code, "compose.apply_failed");
    assert_eq!(
        update.issues[0].message,
        "failed to apply the compose image override: invalid compose configuration: apply failed"
    );
    assert_eq!(update.issues[1].code, "rollback.compose_apply_failed");
    assert!(store.states.is_empty());
    assert!(store.audit_kinds().contains(&AuditEventKind::RollbackFailed));
}

#[test]
fn a_recorded_state_is_restored_after_rollback() {
    let mut store = FakeStore::default();
    let previous = ServiceStateRecord::new(
        "backend".into(),
        Some(0x99),
        "example/backend:1.9.0".into(),
        None,
        Some("example/backend:1.8.0".into()),
        time("2026-03-01T00:00:00Z"),
    );
    store.states.insert("backend".into(), previous.clone());
    let candidate = candidate_release("backend", "example/backend:2.0.0");
    let mut docker = FakeDocker::with(Vec::new());
    let mut compose = fake_compose("example/backend:1.9.0");

    let update = run_update(&backend_service(default_health()), &candidate, &mut store, &mut docker, &mut compose);

    assert_eq!(update.status, UpdateAttemptStatus::RolledBack);
    assert_eq!(compose.applied_images, vec!["example/backend:2.0.0", "example/backend:1.9.0"]);
    let state = store.states.get("backend").expect("state");
    assert_eq!(state.active_image_reference, "example/backend:1.9.0");
    assert_eq!(state.active_candidate_release_id, Some(0x99));
    assert_eq!(state.previous_known_good_image_reference.as_deref(), Some("example/backend:1.8.0"));
    assert_eq!(state.updated_at, time("2026-03-17T11:00:00Z"));
}
