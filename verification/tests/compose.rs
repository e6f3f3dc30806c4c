use caisson::compose::{
    compose_service_labels, compose_up_args, compose_up_failed, find_service_image,
    override_document, split_lines, ComposeError,
};
use caisson::domain::ComposeRuntime;

const COMPOSE: &str = "# stack\nservices:\n  frontend:\n    image: example/frontend:1\n  backend:\n    build: .\n    image: \"example/backend:current\"\n\nvolumes:\n  data:\n    image: not-a-service\n";

fn runtime() -> ComposeRuntime {
    ComposeRuntime {
        project: "caisson-stack".into(),
        file: "/srv/stack/compose.yaml".into(),
        service: "backend".into(),
    }
}

fn validation_message(result: Result<String, ComposeError>) -> String {
    match result {
        Err(ComposeError::Validation(m)) => m,
        other => panic!("expected a validation error, got {other:?}"),
    }
}

#[test]
fn finds_the_image_of_a_compose_service() {
    assert_eq!(find_service_image(COMPOSE, "backend").expect("image"), "example/backend:current");
    assert_eq!(find_service_image(COMPOSE, "frontend").expect("image"), "example/frontend:1");
}

#[test]
fn strips_quotes_and_crlf_line_endings() {
    let raw = "services:\r\n  web:\r\n    image: 'repo/web:2'  \r\n";
    assert_eq!(find_service_image(raw, "web").expect("image"), "repo/web:2");
}

#[test]
fn reports_missing_services_and_images() {
    assert_eq!(
        validation_message(find_service_image(COMPOSE, "payments")),
        "compose service `payments` is missing an `image` field or does not exist"
    );
    assert_eq!(
        validation_message(find_service_image("version: '3'\n", "backend")),
        "compose file is missing a `services:` section"
    );
    assert_eq!(
        validation_message(find_service_image("services:\n  backend:\n    image:   \n", "backend")),
        "compose service `backend` is missing an image value"
    );
    assert_eq!(
        validation_message(find_service_image(COMPOSE, "data")),
        "compose service `data` is missing an `image` field or does not exist"
    );
}

#[test]
fn splits_lines_like_the_standard_library() {
    let lines: Vec<String> = split_lines("a\r\nb\n\nc\r").into_iter().map(|l| l.into_iter().collect()).collect();
    assert_eq!(lines, vec!["a", "b", "", "c\r"]);
    assert!(split_lines("").is_empty());
    assert_eq!(split_lines("x\n").len(), 1);
}

#[test]
fn renders_the_override_document_with_escaped_quotes() {
    assert_eq!(
        override_document(&runtime(), "example/it's:1"),
        "services:\n  backend:\n    image: 'example/it''s:1'\n"
    );
}

#[test]
fn builds_the_compose_up_invocation() {
    assert_eq!(
        compose_up_args(&runtime(), "/tmp/override.yaml"),
        vec!["compose", "-p", "caisson-stack", "-f", "/srv/stack/compose.yaml", "-f", "/tmp/override.yaml", "up", "-d", "backend"]
    );
    let error = compose_up_failed(&runtime(), "/tmp/override.yaml", Some(1), "  no such image\n");
    assert_eq!(
        error.message(),
        "docker compose command failed `docker compose -p caisson-stack -f /srv/stack/compose.yaml -f /tmp/override.yaml up -d backend` (exit: Some(1)): no such image"
    );
    let signal = compose_up_failed(&runtime(), "/tmp/o.yaml", None, "");
    assert!(signal.message().contains("(exit: None): "));
    let negative = compose_up_failed(&runtime(), "/tmp/o.yaml", Some(-2), "x");
    assert!(negative.message().contains("(exit: Some(-2)): x"));
}

#[test]
fn compose_errors_become_runtime_failures() {
    let failure = ComposeError::CommandIo("not found".into()).to_runtime_failure();
    assert_eq!(failure.message, "failed to run docker compose: not found");
    assert_eq!(failure.status_code, None);
    let read = ComposeError::Read { path: "c.yaml".into(), message: "gone".into() };
    assert_eq!(read.message(), "failed to read compose file `c.yaml`: gone");
}

#[test]
fn labels_select_the_compose_service() {
    assert_eq!(
        compose_service_labels("caisson-stack", "backend"),
        vec!["com.docker.compose.project=caisson-stack", "com.docker.compose.service=backend"]
    );
}
