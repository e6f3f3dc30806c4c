//! Service catalog validation.
//!
//! The catalog loader is strict: the first problem found, in file order,
//! rejects the whole catalog.

use vstd::prelude::*;
use crate::domain::{
    ComposeRuntime, DockerRuntime, HealthCheckSpec, ManagedService, RollbackPolicy, RuntimeMode,
    SUPPORTED_SERVICE_CATALOG_VERSION, ServiceCatalog, unique_service_names,
};
use crate::text::{decimal_string, decimal_text, is_blank, is_blank_text, text_eq};

verus! {

/// Errors produced while loading `services.toml`.
#[derive(Debug, PartialEq, Eq)]
pub enum ConfigError {
    /// The file could not be read.
    Read { path: String, message: String },
    /// The file is not a well-formed catalog document.
    Parse { path: String, message: String },
    /// The catalog breaks one of the catalog rules.
    Validation(String),
}

/// The text of a configuration error, as it is shown to operators.
pub open spec fn config_error_text(e: ConfigError) -> Seq<char> {
    match e {
        ConfigError::Read { path, message } => "failed to read service catalog `"@ + path@ + "`: "@
            + message@,
        ConfigError::Parse { path, message } => "failed to parse service catalog `"@ + path@
            + "`: "@ + message@,
        ConfigError::Validation(m) => "invalid service catalog: "@ + m@,
    }
}

impl ConfigError {
    /// Renders the error for operators.
    pub fn message(&self) -> (s: String)
        ensures
            s@ == config_error_text(*self),
    {
        match self {
            ConfigError::Read { path, message } => {
                let mut s = String::from_str("failed to read service catalog `");
                s.append(path.as_str());
                s.append("`: ");
                s.append(message.as_str());
                s
            },
            ConfigError::Parse { path, message } => {
                let mut s = String::from_str("failed to parse service catalog `");
                s.append(path.as_str());
                s.append("`: ");
                s.append(message.as_str());
                s
            },
            ConfigError::Validation(m) => {
                let mut s = String::from_str("invalid service catalog: ");
                s.append(m.as_str());
                s
            },
        }
    }
}

/// The catalog document as read from TOML, before validation.
#[derive(Debug)]
pub struct RawCatalog {
    pub catalog_version: u64,
    pub services: Vec<RawService>,
}

/// The runtime mode named by a catalog entry.
#[derive(Clone, Copy, Debug, PartialEq, Eq, Structural)]
pub enum RawRuntimeMode {
    Docker,
    Compose,
}

/// One `[[services]]` entry as read from TOML.
#[derive(Debug)]
pub struct RawService {
    pub name: String,
    pub service_revision: String,
    pub platform: String,
    pub runtime_mode: RawRuntimeMode,
    pub docker: Option<RawDockerRuntime>,
    pub compose: Option<RawComposeRuntime>,
    /// Health-check settings; the default check applies when absent.
    pub health_check: Option<HealthCheckSpec>,
    /// Rollback settings; the default policy applies when absent.
    pub rollback: Option<RollbackPolicy>,
}

/// A `[services.docker]` block as read from TOML.
#[derive(Debug)]
pub struct RawDockerRuntime {
    pub container_name: String,
    pub image_reference: String,
}

/// A `[services.compose]` block as read from TOML.
#[derive(Debug)]
pub struct RawComposeRuntime {
    pub project: String,
    pub file: String,
    pub service: String,
}

/// `"{field} cannot be empty"`.
pub open spec fn empty_field_message(field: Seq<char>) -> Seq<char> {
    field + " cannot be empty"@
}

/// `"service `{name}` {what}"`: how a field of a named service is called in messages.
pub open spec fn service_field(name: Seq<char>, what: Seq<char>) -> Seq<char> {
    "service `"@ + name + "` "@ + what
}

/// The message for an unsupported catalog version.
pub open spec fn unsupported_version_message(v: u64) -> Seq<char> {
    "unsupported catalog_version `"@ + decimal_text(v as nat) + "`; expected `"@ + decimal_text(
        SUPPORTED_SERVICE_CATALOG_VERSION as nat,
    ) + "`"@
}

/// Whether some earlier entry already uses the name.
pub open spec fn name_taken(earlier: Seq<RawService>, name: Seq<char>) -> bool {
    exists|j: int| 0 <= j < earlier.len() && (#[trigger] earlier[j]).name@ == name
}

/// The problem with the runtime blocks of a catalog entry, if any.
pub open spec fn runtime_problem(s: RawService) -> Option<Seq<char>> {
    let name = s.name@;
    match s.runtime_mode {
        RawRuntimeMode::Docker => match s.docker {
            None => Some(service_field(name, "uses runtime_mode `docker` but is missing [services.docker]"@)),
            Some(d) => if s.compose is Some {
                Some(service_field(name, "mixes docker and compose runtime blocks"@))
            } else if is_blank_text(d.container_name@) {
                Some(empty_field_message(service_field(name, "docker.container_name"@)))
            } else if is_blank_text(d.image_reference@) {
                Some(empty_field_message(service_field(name, "docker.image_reference"@)))
            } else {
                None
            },
        },
        RawRuntimeMode::Compose => match s.compose {
            None => Some(service_field(name, "uses runtime_mode `compose` but is missing [services.compose]"@)),
            Some(c) => if s.docker is Some {
                Some(service_field(name, "mixes docker and compose runtime blocks"@))
            } else if c.file@.len() == 0 {
                Some(service_field(name, "compose.file cannot be empty"@))
            } else if is_blank_text(c.project@) {
                Some(empty_field_message(service_field(name, "compose.project"@)))
            } else if is_blank_text(c.service@) {
                Some(empty_field_message(service_field(name, "compose.service"@)))
            } else {
                None
            },
        },
    }
}

/// The first problem with a catalog entry, given the entries before it.
pub open spec fn service_problem(s: RawService, earlier: Seq<RawService>) -> Option<Seq<char>> {
    if is_blank_text(s.name@) {
        Some(empty_field_message("service.name"@))
    } else if is_blank_text(s.service_revision@) {
        Some(empty_field_message(service_field(s.name@, "service_revision"@)))
    } else if is_blank_text(s.platform@) {
        Some(empty_field_message(service_field(s.name@, "platform"@)))
    } else if name_taken(earlier, s.name@) {
        Some("duplicate service name `"@ + s.name@ + "` in catalog"@)
    } else {
        runtime_problem(s)
    }
}

/// The runtime mode an accepted entry describes.
pub open spec fn runtime_of(s: RawService) -> RuntimeMode {
    match s.runtime_mode {
        RawRuntimeMode::Docker => RuntimeMode::Docker(
            DockerRuntime {
                container_name: s.docker->0.container_name,
                image_reference: s.docker->0.image_reference,
            },
        ),
        RawRuntimeMode::Compose => RuntimeMode::Compose(
            ComposeRuntime {
                project: s.compose->0.project,
                file: s.compose->0.file,
                service: s.compose->0.service,
            },
        ),
    }
}

/// The managed service an accepted entry describes.
pub open spec fn managed_service_of(s: RawService) -> ManagedService {
    ManagedService {
        name: s.name,
        service_revision: s.service_revision,
        platform: s.platform,
        runtime: runtime_of(s),
        health_check: match s.health_check {
            Some(h) => h,
            None => HealthCheckSpec {
                kind: crate::domain::HealthCheckKind::Running,
                timeout_secs: 30,
                poll_interval_secs: 1,
            },
        },
        rollback: match s.rollback {
            Some(r) => r,
            None => RollbackPolicy { automatic: true },
        },
    }
}

/// An accepted catalog entry keeps what the entry said: its name, revision
/// and platform, and the fields of its runtime block unchanged (the Compose
/// project, file and service; the Docker container and image).
pub proof fn law_accepted_entry_keeps_its_fields(s: RawService)
    requires
        runtime_problem(s) is None,
    ensures
        managed_service_of(s).name == s.name,
        managed_service_of(s).service_revision == s.service_revision,
        managed_service_of(s).platform == s.platform,
        s.runtime_mode == RawRuntimeMode::Compose ==> (s.compose matches Some(c) && managed_service_of(s).runtime
            == RuntimeMode::Compose(ComposeRuntime { project: c.project, file: c.file, service: c.service })),
        s.runtime_mode == RawRuntimeMode::Docker ==> (s.docker matches Some(d) && managed_service_of(s).runtime
            == RuntimeMode::Docker(DockerRuntime { container_name: d.container_name, image_reference: d.image_reference })),
{
}

/// Whether entries `0..n` have no problem.
pub open spec fn entries_valid(services: Seq<RawService>, n: int) -> bool {
    forall|i: int| 0 <= i < n ==> (#[trigger] service_problem(services[i], services.take(i))) is None
}

/// Checks a field is not blank, handing it back when it is not.
pub fn require_non_empty(field: &str, value: String) -> (r: Result<String, ConfigError>)
    ensures
        is_blank_text(value@) ==> (r matches Err(ConfigError::Validation(m)) && m@
            == empty_field_message(field@)),
        !is_blank_text(value@) ==> r == Ok::<String, ConfigError>(value),
{
    if is_blank(value.as_str()) {
        let mut m = String::from_str(field);
        m.append(" cannot be empty");
        return Err(ConfigError::Validation(m));
    }
    Ok(value)
}

fn service_field_string(name: &String, what: &str) -> (s: String)
    ensures
        s@ == service_field(name@, what@),
{
    let mut s = String::from_str("service `");
    s.append(name.as_str());
    s.append("` ");
    s.append(what);
    s
}

fn check_blank(field: String, value: &String) -> (r: Result<(), ConfigError>)
    ensures
        is_blank_text(value@) ==> (r matches Err(ConfigError::Validation(m)) && m@
            == empty_field_message(field@)),
        !is_blank_text(value@) ==> r is Ok,
{
    if is_blank(value.as_str()) {
        let mut m = field;
        m.append(" cannot be empty");
        return Err(ConfigError::Validation(m));
    }
    Ok(())
}

fn runtime_check(s: &RawService) -> (r: Result<RuntimeMode, ConfigError>)
    ensures
        match runtime_problem(*s) {
            Some(m) => r matches Err(ConfigError::Validation(e)) && e@ == m,
            None => r == Ok::<RuntimeMode, ConfigError>(runtime_of(*s)),
        },
{
    let name = &s.name;
    match s.runtime_mode {
        RawRuntimeMode::Docker => match &s.docker {
            None => Err(ConfigError::Validation(service_field_string(name, "uses runtime_mode `docker` but is missing [services.docker]"))),
            Some(d) => {
                if s.compose.is_some() {
                    return Err(ConfigError::Validation(service_field_string(name, "mixes docker and compose runtime blocks")));
                }
                check_blank(service_field_string(name, "docker.container_name"), &d.container_name)?;
                check_blank(service_field_string(name, "docker.image_reference"), &d.image_reference)?;
                Ok(RuntimeMode::Docker(DockerRuntime {
                    container_name: d.container_name.clone(),
                    image_reference: d.image_reference.clone(),
                }))
            },
        },
        RawRuntimeMode::Compose => match &s.compose {
            None => Err(ConfigError::Validation(service_field_string(name, "uses runtime_mode `compose` but is missing [services.compose]"))),
            Some(c) => {
                if s.docker.is_some() {
                    return Err(ConfigError::Validation(service_field_string(name, "mixes docker and compose runtime blocks")));
                }
                if c.file.as_str().unicode_len() == 0 {
                    return Err(ConfigError::Validation(service_field_string(name, "compose.file cannot be empty")));
                }
                check_blank(service_field_string(name, "compose.project"), &c.project)?;
                check_blank(service_field_string(name, "compose.service"), &c.service)?;
                Ok(RuntimeMode::Compose(ComposeRuntime {
                    project: c.project.clone(),
                    file: c.file.clone(),
                    service: c.service.clone(),
                }))
            },
        },
    }
}

fn name_used_before(services: &Vec<RawService>, i: usize) -> (b: bool)
    requires
        i < services@.len(),
    ensures
        b == name_taken(services@.take(i as int), services@[i as int].name@),
{
    let mut j: usize = 0;
    while j < i
        invariant
            i < services@.len(),
            j <= i,
            forall|k: int| 0 <= k < j ==> services@[k].name@ != services@[i as int].name@,
        decreases i - j,
    {
        if text_eq(services[j].name.as_str(), services[i].name.as_str()) {
            assert(services@.take(i as int)[j as int] == services@[j as int]);
            return true;
        }
        j = j + 1;
    }
    proof {
        if name_taken(services@.take(i as int), services@[i as int].name@) {
            let k = choose|k: int| 0 <= k < i && (#[trigger] services@.take(i as int)[k]).name@ == services@[i as int].name@;
            assert(services@.take(i as int)[k] == services@[k]);
        }
    }
    false
}

fn check_service(services: &Vec<RawService>, i: usize) -> (r: Result<ManagedService, ConfigError>)
    requires
        i < services@.len(),
    ensures
        match service_problem(services@[i as int], services@.take(i as int)) {
            Some(m) => r matches Err(ConfigError::Validation(e)) && e@ == m,
            None => r == Ok::<ManagedService, ConfigError>(managed_service_of(services@[i as int])),
        },
{
    let s = &services[i];
    let name = require_non_empty("service.name", s.name.clone())?;
    check_blank(service_field_string(&name, "service_revision"), &s.service_revision)?;
    check_blank(service_field_string(&name, "platform"), &s.platform)?;
    if name_used_before(services, i) {
        let mut m = String::from_str("duplicate service name `");
        m.append(name.as_str());
        m.append("` in catalog");
        return Err(ConfigError::Validation(m));
    }
    let runtime = runtime_check(s)?;
    let health_check = match s.health_check {
        Some(h) => h,
        None => HealthCheckSpec::default_spec(),
    };
    let rollback = match s.rollback {
        Some(p) => p,
        None => RollbackPolicy::default_policy(),
    };
    Ok(ManagedService {
        name,
        service_revision: s.service_revision.clone(),
        platform: s.platform.clone(),
        runtime,
        health_check,
        rollback,
    })
}

/// Validates a catalog document into the domain model.
///
/// The catalog is accepted exactly when its version is supported and no entry
/// has a problem; the error reported is the problem of the first bad entry.
pub fn validate_catalog(raw: RawCatalog) -> (r: Result<ServiceCatalog, ConfigError>)
    ensures
        raw.catalog_version != SUPPORTED_SERVICE_CATALOG_VERSION ==> (r matches Err(
            ConfigError::Validation(m),
        ) && m@ == unsupported_version_message(raw.catalog_version)),
        raw.catalog_version == SUPPORTED_SERVICE_CATALOG_VERSION ==> match r {
            Ok(c) => {
                &&& entries_valid(raw.services@, raw.services@.len() as int)
                &&& c.catalog_version == raw.catalog_version
                &&& c.services@.len() == raw.services@.len()
                &&& forall|i: int|
                    0 <= i < c.services@.len() ==> #[trigger] c.services@[i] == managed_service_of(
                        raw.services@[i],
                    )
                &&& unique_service_names(c.services@)
            },
            Err(ConfigError::Validation(m)) => exists|i: int|
                0 <= i < raw.services@.len() && entries_valid(raw.services@, i)
                    && #[trigger] service_problem(raw.services@[i], raw.services@.take(i)) == Some(
                    m@,
                ),
            Err(_) => false,
        },
{
    if raw.catalog_version != SUPPORTED_SERVICE_CATALOG_VERSION {
        let mut m = String::from_str("unsupported catalog_version `");
        m.append(decimal_string(raw.catalog_version).as_str());
        m.append("`; expected `");
        m.append(decimal_string(SUPPORTED_SERVICE_CATALOG_VERSION).as_str());
        m.append("`");
        return Err(ConfigError::Validation(m));
    }
    let mut services: Vec<ManagedService> = Vec::new();
    let mut i: usize = 0;
    while i < raw.services.len()
        invariant
            raw.catalog_version == SUPPORTED_SERVICE_CATALOG_VERSION,
            i <= raw.services@.len(),
            services@.len() == i,
            entries_valid(raw.services@, i as int),
            forall|k: int| 0 <= k < i ==> #[trigger] services@[k] == managed_service_of(raw.services@[k]),
        decreases raw.services.len() - i,
    {
        match check_service(&raw.services, i) {
            Ok(s) => {
                services.push(s);
            },
            Err(e) => {
                return Err(e);
            },
        }
        i = i + 1;
    }
    let catalog = ServiceCatalog { catalog_version: raw.catalog_version, services };
    proof {
        assert forall|a: int, b: int|
            0 <= a < catalog.services@.len() && 0 <= b < catalog.services@.len() && a != b
            implies #[trigger] catalog.services@[a].name@ != #[trigger] catalog.services@[b].name@ by {
            let (lo, hi) = if a < b { (a, b) } else { (b, a) };
            assert(service_problem(raw.services@[hi], raw.services@.take(hi)) is None);
            assert(raw.services@.take(hi)[lo] == raw.services@[lo]);
            assert(!name_taken(raw.services@.take(hi), raw.services@[hi].name@));
        }
    }
    Ok(catalog)
}

} // verus!
