use caisson::domain::{
    CompatibilitySpec, ComposeRuntime, DockerRuntime, HealthCheckSpec, ImageSpec, ManagedService,
    PackageManifest, PackageTarget, PackageType, RollbackPolicy, RuntimeMode, ServiceCatalog,
};
use caisson::clock::Timestamp;
use caisson::manifest::{
    format_version_from_text, parse_package_type, parse_raw_manifest, validate_manifest, RawCompatibility,
    RawImage, RawManifest, RawTarget,
};
use caisson::version::SemVer;

fn parse_semver(text: &str) -> Result<SemVer, String> {
    let v = semver::Version::parse(text).map_err(|e| e.to_string())?;
    Ok(SemVer {
        major: v.major,
        minor: v.minor,
        patch: v.patch,
        pre: v.pre.as_str().to_string(),
        build: v.build.as_str().to_string(),
    })
}

fn time(text: &str) -> Timestamp {
    let t = time::OffsetDateTime::parse(text, &time::format_description::well_known::Rfc3339)
        .expect("timestamp");
    Timestamp { unix_nanos: t.unix_timestamp_nanos(), offset_seconds: t.offset().whole_seconds() }
}

fn raw(format_version: u64) -> RawManifest {
    RawManifest {
        format_version,
        package_type: PackageType::Service,
        package_version: "1.2.3".to_string(),
        created_at: "2026-03-16T18:30:00Z".to_string(),
        target: RawTarget {
            service: "frontend".to_string(),
            service_revision: "frontend-v1".to_string(),
            platform: "linux/amd64".to_string(),
        },
        image: RawImage { reference: "example/frontend:1.2.3".to_string() },
        compatibility: None,
    }
}

fn catalog() -> ServiceCatalog {
    ServiceCatalog {
        catalog_version: 1,
        services: vec![
            ManagedService {
                name: "frontend".into(),
                service_revision: "frontend-v1".into(),
                platform: "linux/amd64".into(),
                runtime: RuntimeMode::Docker(DockerRuntime {
                    container_name: "frontend".into(),
                    image_reference: "example/frontend:current".into(),
                }),
                health_check: HealthCheckSpec::default_spec(),
                rollback: RollbackPolicy::default_policy(),
            },
            ManagedService {
                name: "backend".into(),
                service_revision: "backend-v1".into(),
                platform: "linux/amd64".into(),
                runtime: RuntimeMode::Compose(ComposeRuntime {
                    project: "caisson-stack".into(),
                    file: "compose.yaml".into(),
                    service: "backend".into(),
                }),
                health_check: HealthCheckSpec::default_spec(),
                rollback: RollbackPolicy::default_policy(),
            },
        ],
    }
}

#[test]
fn accepts_string_format_version() {
    let format_version = format_version_from_text("1").expect("format_version should read");
    let manifest = parse_raw_manifest(raw(format_version)).expect("manifest should parse");

    assert_eq!(manifest.format_version, 1);
}

#[test]
fn parses_every_field_of_a_valid_manifest() {
    let manifest = parse_raw_manifest(raw(1)).expect("manifest");
    assert_eq!(manifest.package_type, PackageType::Service);
    assert_eq!(manifest.package_version.text(), "1.2.3");
    assert_eq!(manifest.created_at, time("2026-03-16T18:30:00Z"));
    assert_eq!(manifest.target.service, "frontend");
    assert_eq!(manifest.image.reference, "example/frontend:1.2.3");
    assert!(manifest.compatibility.min_updater_version.is_none());
}

#[test]
fn rejects_bad_manifest_fields() {
    assert_eq!(
        format_version_from_text("one").expect_err("format"),
        "one".parse::<u64>().expect_err("std").to_string()
    );

    let mut bad_version = raw(1);
    bad_version.package_version = "1.2".to_string();
    assert_eq!(parse_raw_manifest(bad_version).expect_err("semver").code, "manifest.invalid_package_version");

    let mut bad_time = raw(1);
    bad_time.created_at = "yesterday".to_string();
    assert_eq!(parse_raw_manifest(bad_time).expect_err("time").code, "manifest.invalid_created_at");

    let mut blank = raw(1);
    blank.target.service = "   ".to_string();
    let issue = parse_raw_manifest(blank).expect_err("blank");
    assert_eq!(issue.code, "manifest.empty_field");

    let mut min = raw(1);
    min.compatibility = Some(RawCompatibility { min_updater_version: Some("x".to_string()) });
    assert_eq!(parse_raw_manifest(min).expect_err("min").code, "manifest.invalid_min_updater_version");

    let unsupported = parse_raw_manifest(raw(2)).expect_err("format");
    assert_eq!(unsupported.code, "manifest.unsupported_format_version");
    assert_eq!(unsupported.message, "unsupported format_version `2`; expected `1`");
}

#[test]
fn reads_package_types_and_numbers() {
    assert_eq!(parse_package_type("service").expect("type"), PackageType::Service);
    assert_eq!(parse_package_type("service-update").expect("alias"), PackageType::Service);
    let message = parse_package_type("firmware").expect_err("unknown");
    assert_eq!(message, "unsupported package_type `firmware`");
    assert_eq!(PackageType::Service.as_str(), "service");

    assert_eq!(format_version_from_text("42"), Ok(42));
    assert_eq!(format_version_from_text("+7"), Ok(7));
    assert_eq!(format_version_from_text("18446744073709551615"), Ok(u64::MAX));
    assert!(format_version_from_text("18446744073709551616").is_err());
    assert!(format_version_from_text("").is_err());
    assert!(format_version_from_text("-1").is_err());
}

fn manifest_for(service: &str, revision: &str, platform: &str, min: Option<&str>) -> PackageManifest {
    PackageManifest {
        format_version: 1,
        package_type: PackageType::Service,
        package_version: parse_semver("1.2.3").expect("version"),
        created_at: time("2026-03-16T18:30:00Z"),
        target: PackageTarget {
            service: service.into(),
            service_revision: revision.into(),
            platform: platform.into(),
        },
        image: ImageSpec { reference: "example/frontend:1.2.3".into() },
        compatibility: CompatibilitySpec {
            min_updater_version: min.map(|m| parse_semver(m).expect("min")),
        },
    }
}

#[test]
fn validates_manifests_against_the_catalog() {
    let current = parse_semver("0.1.0-alpha").expect("current");
    assert!(validate_manifest(&manifest_for("frontend", "frontend-v1", "linux/amd64", None), &catalog(), &current).is_empty());

    let unknown = validate_manifest(&manifest_for("payments", "x", "y", None), &catalog(), &current);
    assert_eq!(unknown.len(), 1);
    assert_eq!(unknown[0].code, "package.unknown_service");
    assert_eq!(unknown[0].message, "package targets unknown service `payments`");

    let both = validate_manifest(&manifest_for("frontend", "frontend-v2", "linux/arm64", None), &catalog(), &current);
    let codes: Vec<&str> = both.iter().map(|i| i.code.as_str()).collect();
    assert_eq!(codes, vec!["package.service_revision_mismatch", "package.platform_mismatch"]);

    let too_new = validate_manifest(&manifest_for("frontend", "frontend-v1", "linux/amd64", Some("0.2.0")), &catalog(), &current);
    assert_eq!(too_new[0].code, "package.updater_too_old");
    assert_eq!(
        too_new[0].message,
        "package requires updater version `0.2.0` or newer, but this build is `0.1.0-alpha`"
    );
    let release = validate_manifest(&manifest_for("frontend", "frontend-v1", "linux/amd64", Some("0.1.0")), &catalog(), &current);
    assert_eq!(release.len(), 1, "a pre-release is older than its release");
    let met = validate_manifest(&manifest_for("frontend", "frontend-v1", "linux/amd64", Some("0.1.0-alpha")), &catalog(), &current);
    assert!(met.is_empty());
}
