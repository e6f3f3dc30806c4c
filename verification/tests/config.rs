use caisson::config::{
    validate_catalog, ConfigError, RawCatalog, RawComposeRuntime, RawDockerRuntime, RawRuntimeMode,
    RawService,
};
use caisson::domain::{HealthCheckKind, RuntimeMode, RuntimeModeKind};

fn docker_service(name: &str, revision: &str, container: &str, image: &str) -> RawService {
    RawService {
        name: name.to_string(),
        service_revision: revision.to_string(),
        platform: "linux/amd64".to_string(),
        runtime_mode: RawRuntimeMode::Docker,
        docker: Some(RawDockerRuntime {
            container_name: container.to_string(),
            image_reference: image.to_string(),
        }),
        compose: None,
        health_check: None,
        rollback: None,
    }
}

fn compose_service(name: &str, project: &str, file: &str, service: &str) -> RawService {
    RawService {
        name: name.to_string(),
        service_revision: format!("{name}-v1"),
        platform: "linux/amd64".to_string(),
        runtime_mode: RawRuntimeMode::Compose,
        docker: None,
        compose: Some(RawComposeRuntime {
            project: project.to_string(),
            file: file.to_string(),
            service: service.to_string(),
        }),
        health_check: None,
        rollback: None,
    }
}

fn error_text(raw: RawCatalog) -> String {
    validate_catalog(raw).expect_err("catalog should fail").message()
}

#[test]
fn rejects_duplicate_service_names() {
    let error = error_text(RawCatalog {
        catalog_version: 1,
        services: vec![
            docker_service("frontend", "frontend-v1", "frontend", "example/frontend:current"),
            docker_service("frontend", "frontend-v2", "frontend-v2", "example/frontend:v2"),
        ],
    });
    assert!(error.contains("duplicate service name"), "unexpected error: {error}");
}

#[test]
fn accepts_a_catalog_with_both_runtimes_and_fills_defaults() {
    let catalog = validate_catalog(RawCatalog {
        catalog_version: 1,
        services: vec![
            docker_service("frontend", "frontend-v1", "frontend", "example/frontend:current"),
            compose_service("backend", "caisson-stack", "compose.yaml", "backend"),
        ],
    })
    .expect("catalog should load");

    assert_eq!(catalog.services.len(), 2);
    assert_eq!(catalog.services[0].runtime.kind(), RuntimeModeKind::Docker);
    assert_eq!(catalog.services[1].runtime.kind(), RuntimeModeKind::Compose);
    assert_eq!(catalog.services[0].health_check.kind, HealthCheckKind::Running);
    assert_eq!(catalog.services[0].health_check.timeout_secs, 30);
    assert_eq!(catalog.services[0].health_check.poll_interval_secs, 1);
    assert!(catalog.services[0].rollback.automatic);
    match &catalog.services[1].runtime {
        RuntimeMode::Compose(c) => assert_eq!(c.project, "caisson-stack"),
        RuntimeMode::Docker(_) => panic!("expected a compose runtime"),
    }
    assert!(catalog.find_service("backend").is_some());
    assert!(catalog.find_service("payments").is_none());
}

#[test]
fn rejects_unsupported_catalog_versions() {
    let error = validate_catalog(RawCatalog { catalog_version: 2, services: Vec::new() })
        .expect_err("version");
    match &error {
        ConfigError::Validation(m) => assert!(m.contains("unsupported catalog_version `2`"), "{m}"),
        other => panic!("unexpected error: {other:?}"),
    }
    assert!(error.message().starts_with("invalid service catalog: "));
}

#[test]
fn rejects_blank_fields_and_missing_runtime_blocks() {
    let blank = error_text(RawCatalog {
        catalog_version: 1,
        services: vec![docker_service("  ", "r", "c", "i")],
    });
    assert!(blank.contains("cannot be empty"), "{blank}");

    let mut missing = docker_service("frontend", "r", "c", "i");
    missing.docker = None;
    let missing_text = error_text(RawCatalog { catalog_version: 1, services: vec![missing] });
    assert!(missing_text.contains("is missing [services.docker]"), "{missing_text}");

    let mut mixed = docker_service("frontend", "r", "c", "i");
    mixed.compose = Some(RawComposeRuntime {
        project: "p".into(),
        file: "f".into(),
        service: "s".into(),
    });
    let mixed_text = error_text(RawCatalog { catalog_version: 1, services: vec![mixed] });
    assert!(mixed_text.contains("mixes docker and compose runtime blocks"), "{mixed_text}");

    let empty_file = error_text(RawCatalog {
        catalog_version: 1,
        services: vec![compose_service("backend", "p", "", "s")],
    });
    assert!(empty_file.contains("compose.file cannot be empty"), "{empty_file}");
}

#[test]
fn config_errors_render_their_path() {
    let read = ConfigError::Read { path: "services.toml".into(), message: "not found".into() };
    assert_eq!(read.message(), "failed to read service catalog `services.toml`: not found");
    let parse = ConfigError::Parse { path: "services.toml".into(), message: "bad".into() };
    assert_eq!(parse.message(), "failed to parse service catalog `services.toml`: bad");
}
