//! Domain types shared across the updater.

use vstd::prelude::*;
use crate::clock::Timestamp;
use crate::version::SemVer;

verus! {

/// The only manifest format version accepted right now.
pub const SUPPORTED_MANIFEST_FORMAT_VERSION: u64 = 1;

/// The only service-catalog format version accepted right now.
pub const SUPPORTED_SERVICE_CATALOG_VERSION: u64 = 1;

/// A predefined service from `services.toml`: the one blessed description of
/// what the updater is allowed to touch.
#[derive(Debug, PartialEq, Eq)]
pub struct ManagedService {
    pub name: String,
    pub service_revision: String,
    pub platform: String,
    pub runtime: RuntimeMode,
    pub health_check: HealthCheckSpec,
    pub rollback: RollbackPolicy,
}

impl Clone for ManagedService {
    fn clone(&self) -> (r: Self)
        ensures
            r == *self,
    {
        ManagedService {
            name: self.name.clone(),
            service_revision: self.service_revision.clone(),
            platform: self.platform.clone(),
            runtime: self.runtime.clone(),
            health_check: self.health_check,
            rollback: self.rollback,
        }
    }
}

/// The supported runtime modes for predefined services.
#[derive(Debug, PartialEq, Eq)]
pub enum RuntimeMode {
    Docker(DockerRuntime),
    Compose(ComposeRuntime),
}

impl Clone for RuntimeMode {
    fn clone(&self) -> (r: Self)
        ensures
            r == *self,
    {
        match self {
            RuntimeMode::Docker(d) => RuntimeMode::Docker(d.clone()),
            RuntimeMode::Compose(c) => RuntimeMode::Compose(c.clone()),
        }
    }
}

/// The coarse runtime kind of a runtime mode.
pub open spec fn runtime_kind(runtime: RuntimeMode) -> RuntimeModeKind {
    match runtime {
        RuntimeMode::Docker(_) => RuntimeModeKind::Docker,
        RuntimeMode::Compose(_) => RuntimeModeKind::Compose,
    }
}

impl RuntimeMode {
    /// Returns the friendly runtime kind for this service.
    pub fn kind(&self) -> (k: RuntimeModeKind)
        ensures
            k == runtime_kind(*self),
    {
        match self {
            RuntimeMode::Docker(_) => RuntimeModeKind::Docker,
            RuntimeMode::Compose(_) => RuntimeModeKind::Compose,
        }
    }
}

/// The coarse runtime kind used in update records.
#[derive(Clone, Copy, Debug, PartialEq, Eq, Structural)]
pub enum RuntimeModeKind {
    Docker,
    Compose,
}

/// Runtime details for a Docker service.
#[derive(Debug, PartialEq, Eq)]
pub struct DockerRuntime {
    pub container_name: String,
    pub image_reference: String,
}

impl Clone for DockerRuntime {
    fn clone(&self) -> (r: Self)
        ensures
            r == *self,
    {
        DockerRuntime {
            container_name: self.container_name.clone(),
            image_reference: self.image_reference.clone(),
        }
    }
}

/// Runtime details for a constrained Compose service.
#[derive(Debug, PartialEq, Eq)]
pub struct ComposeRuntime {
    pub project: String,
    /// Path of the Compose file.
    pub file: String,
    pub service: String,
}

impl Clone for ComposeRuntime {
    fn clone(&self) -> (r: Self)
        ensures
            r == *self,
    {
        ComposeRuntime {
            project: self.project.clone(),
            file: self.file.clone(),
            service: self.service.clone(),
        }
    }
}

/// Health-check settings for a managed service.
#[derive(Clone, Copy, Debug, PartialEq, Eq, Structural)]
pub struct HealthCheckSpec {
    pub kind: HealthCheckKind,
    pub timeout_secs: u64,
    pub poll_interval_secs: u64,
}

impl HealthCheckSpec {
    /// The default health check: the container must be running, checked
    /// every second for up to thirty seconds.
    pub fn default_spec() -> (s: Self)
        ensures
            s.kind == HealthCheckKind::Running,
            s.timeout_secs == 30,
            s.poll_interval_secs == 1,
    {
        HealthCheckSpec { kind: HealthCheckKind::Running, timeout_secs: 30, poll_interval_secs: 1 }
    }
}

/// The supported health-check modes.
#[derive(Clone, Copy, Debug, PartialEq, Eq, Structural)]
pub enum HealthCheckKind {
    Running,
    ContainerHealth,
}

/// Rollback settings for a managed service.
#[derive(Clone, Copy, Debug, PartialEq, Eq, Structural)]
pub struct RollbackPolicy {
    pub automatic: bool,
}

impl RollbackPolicy {
    /// The default policy: roll back automatically.
    pub fn default_policy() -> (p: Self)
        ensures
            p.automatic,
    {
        RollbackPolicy { automatic: true }
    }
}

/// The full predefined service catalog.
#[derive(Debug, PartialEq, Eq)]
pub struct ServiceCatalog {
    pub catalog_version: u64,
    pub services: Vec<ManagedService>,
}

impl Clone for ServiceCatalog {
    fn clone(&self) -> (r: Self)
        ensures
            r.catalog_version == self.catalog_version,
            r.services@ == self.services@,
    {
        let services = self.services.clone();
        assert(services@ =~= self.services@);
        ServiceCatalog { catalog_version: self.catalog_version, services }
    }
}

/// The index of the first service with the given name, if any.
pub open spec fn first_service_index(services: Seq<ManagedService>, name: Seq<char>) -> Option<int> {
    if exists|i: int| 0 <= i < services.len() && #[trigger] services[i].name@ == name {
        let i = choose|i: int|
            0 <= i < services.len() && #[trigger] services[i].name@ == name && forall|j: int|
                0 <= j < i ==> #[trigger] services[j].name@ != name;
        Some(i)
    } else {
        None
    }
}

/// Whether no two services share a name.
pub open spec fn unique_service_names(services: Seq<ManagedService>) -> bool {
    forall|i: int, j: int|
        0 <= i < services.len() && 0 <= j < services.len() && i != j ==> #[trigger] services[i].name@
            != #[trigger] services[j].name@
}

impl ServiceCatalog {
    /// Looks up a service by name: the first service carrying it.
    pub fn find_service(&self, name: &str) -> (r: Option<&ManagedService>)
        ensures
            match r {
                Some(s) => exists|i: int|
                    0 <= i < self.services@.len() && self.services@[i] == *s && s.name@ == name@
                        && forall|j: int| 0 <= j < i ==> #[trigger] self.services@[j].name@ != name@,
                None => forall|i: int|
                    0 <= i < self.services@.len() ==> #[trigger] self.services@[i].name@ != name@,
            },
    {
        let mut i: usize = 0;
        while i < self.services.len()
            invariant
                i <= self.services@.len(),
                forall|j: int| 0 <= j < i ==> #[trigger] self.services@[j].name@ != name@,
            decreases self.services.len() - i,
        {
            if crate::text::text_eq(self.services[i].name.as_str(), name) {
                return Some(&self.services[i]);
            }
            i = i + 1;
        }
        None
    }
}

/// The package kind accepted by the updater.
#[derive(Clone, Copy, Debug, PartialEq, Eq, Structural)]
pub enum PackageType {
    Service,
}

impl PackageType {
    /// Returns the TOML value for the package type.
    pub fn as_str(self) -> (s: &'static str)
        ensures
            s@ == "service"@,
    {
        "service"
    }
}

/// The manifest parsed from `manifest.toml`.
#[derive(Debug, PartialEq, Eq)]
pub struct PackageManifest {
    pub format_version: u64,
    pub package_type: PackageType,
    pub package_version: SemVer,
    pub created_at: Timestamp,
    pub target: PackageTarget,
    pub image: ImageSpec,
    pub compatibility: CompatibilitySpec,
}

impl Clone for PackageManifest {
    fn clone(&self) -> (r: Self)
        ensures
            r == *self,
    {
        PackageManifest {
            format_version: self.format_version,
            package_type: self.package_type,
            package_version: self.package_version.clone(),
            created_at: self.created_at,
            target: self.target.clone(),
            image: self.image.clone(),
            compatibility: self.compatibility.clone(),
        }
    }
}

/// Target selection data from the package manifest.
#[derive(Debug, PartialEq, Eq)]
pub struct PackageTarget {
    pub service: String,
    pub service_revision: String,
    pub platform: String,
}

impl Clone for PackageTarget {
    fn clone(&self) -> (r: Self)
        ensures
            r == *self,
    {
        PackageTarget {
            service: self.service.clone(),
            service_revision: self.service_revision.clone(),
            platform: self.platform.clone(),
        }
    }
}

/// Image metadata from the manifest.
#[derive(Debug, PartialEq, Eq)]
pub struct ImageSpec {
    pub reference: String,
}

impl Clone for ImageSpec {
    fn clone(&self) -> (r: Self)
        ensures
            r == *self,
    {
        ImageSpec { reference: self.reference.clone() }
    }
}

/// Optional compatibility hints accepted in the manifest.
#[derive(Debug, PartialEq, Eq)]
pub struct CompatibilitySpec {
    pub min_updater_version: Option<SemVer>,
}

impl Clone for CompatibilitySpec {
    fn clone(&self) -> (r: Self)
        ensures
            r == *self,
    {
        match &self.min_updater_version {
            Some(v) => CompatibilitySpec { min_updater_version: Some(v.clone()) },
            None => CompatibilitySpec { min_updater_version: None },
        }
    }
}

/// Metadata about the staged `image.tar` entry.
#[derive(Debug, PartialEq, Eq)]
pub struct ImageArchiveMetadata {
    pub entry_name: String,
    pub size_bytes: u64,
}

impl Clone for ImageArchiveMetadata {
    fn clone(&self) -> (r: Self)
        ensures
            r == *self,
    {
        ImageArchiveMetadata { entry_name: self.entry_name.clone(), size_bytes: self.size_bytes }
    }
}

/// Clones an optional string.
pub fn clone_opt_string(o: &Option<String>) -> (r: Option<String>)
    ensures
        r == *o,
{
    match o {
        Some(s) => Some(s.clone()),
        None => None,
    }
}

/// Clones a list of strings.
pub fn clone_strings(v: &Vec<String>) -> (r: Vec<String>)
    ensures
        r@ == v@,
{
    let r = v.clone();
    assert(r@ =~= v@);
    r
}

/// Normalized metadata captured after a Docker image is imported and inspected.
#[derive(Debug, PartialEq, Eq)]
pub struct ImportedImageMetadata {
    pub image_id: String,
    pub repo_tags: Vec<String>,
    pub repo_digests: Vec<String>,
    pub architecture: Option<String>,
    pub os: Option<String>,
}

/// The plain value of an [`ImportedImageMetadata`].
pub struct ImportedImageView {
    pub image_id: String,
    pub repo_tags: Seq<String>,
    pub repo_digests: Seq<String>,
    pub architecture: Option<String>,
    pub os: Option<String>,
}

impl View for ImportedImageMetadata {
    type V = ImportedImageView;

    open spec fn view(&self) -> ImportedImageView {
        ImportedImageView {
            image_id: self.image_id,
            repo_tags: self.repo_tags@,
            repo_digests: self.repo_digests@,
            architecture: self.architecture,
            os: self.os,
        }
    }
}

impl Clone for ImportedImageMetadata {
    fn clone(&self) -> (r: Self)
        ensures
            r@ == self@,
    {
        ImportedImageMetadata {
            image_id: self.image_id.clone(),
            repo_tags: clone_strings(&self.repo_tags),
            repo_digests: clone_strings(&self.repo_digests),
            architecture: clone_opt_string(&self.architecture),
            os: clone_opt_string(&self.os),
        }
    }
}

/// Validation status for a package intake attempt.
#[derive(Clone, Copy, Debug, PartialEq, Eq, Structural)]
pub enum ValidationStatus {
    Accepted,
    Rejected,
}

/// Import status for a Docker image-load attempt.
#[derive(Clone, Copy, Debug, PartialEq, Eq, Structural)]
pub enum ImageImportStatus {
    Imported,
    Failed,
}

/// Status of a service update attempt.
#[derive(Clone, Copy, Debug, PartialEq, Eq, Structural)]
pub enum UpdateAttemptStatus {
    Applying,
    HealthChecking,
    Succeeded,
    Failed,
    RollbackStarted,
    RolledBack,
    RollbackFailed,
}

/// Result of a health check run.
#[derive(Clone, Copy, Debug, PartialEq, Eq, Structural)]
pub enum HealthCheckOutcome {
    Passed,
    Failed,
    TimedOut,
}

/// A single actionable validation, import or update issue.
#[derive(Debug, PartialEq, Eq)]
pub struct ValidationIssue {
    pub code: String,
    pub message: String,
}

/// The plain value of a [`ValidationIssue`].
pub struct IssueView {
    pub code: Seq<char>,
    pub message: Seq<char>,
}

impl View for ValidationIssue {
    type V = IssueView;

    open spec fn view(&self) -> IssueView {
        IssueView { code: self.code@, message: self.message@ }
    }
}

/// The plain values of a list of issues.
pub open spec fn issues_view(v: Seq<ValidationIssue>) -> Seq<IssueView> {
    v.map_values(|i: ValidationIssue| i@)
}

impl Clone for ValidationIssue {
    fn clone(&self) -> (r: Self)
        ensures
            r == *self,
    {
        ValidationIssue { code: self.code.clone(), message: self.message.clone() }
    }
}

impl ValidationIssue {
    /// Builds an issue from a code and a message.
    pub fn new(code: &str, message: &str) -> (i: Self)
        ensures
            i.code@ == code@,
            i.message@ == message@,
    {
        ValidationIssue { code: String::from_str(code), message: String::from_str(message) }
    }

    /// Builds an issue from a code and an owned message.
    pub fn with_message(code: &str, message: String) -> (i: Self)
        ensures
            i.code@ == code@,
            i.message == message,
    {
        ValidationIssue { code: String::from_str(code), message }
    }

    /// The issue as one line of text: `[code] message`.
    pub fn text(&self) -> (s: String)
        ensures
            s@ == seq!['['] + self.code@ + seq![']', ' '] + self.message@,
    {
        let mut s = String::from_str("[");
        s.append(self.code.as_str());
        s.append("] ");
        s.append(self.message.as_str());
        proof {
            reveal_strlit("[");
            reveal_strlit("] ");
        }
        assert(s@ =~= seq!['['] + self.code@ + seq![']', ' '] + self.message@);
        s
    }
}

/// Clones a list of issues.
pub fn clone_issues(v: &Vec<ValidationIssue>) -> (r: Vec<ValidationIssue>)
    ensures
        r@ == v@,
{
    let r = v.clone();
    assert(r@ =~= v@);
    r
}

/// The persisted result of one package validation attempt.
#[derive(Debug, PartialEq, Eq)]
pub struct ValidationRecord {
    pub attempt_id: u128,
    pub status: ValidationStatus,
    pub source_path: String,
    pub staged_path: Option<String>,
    pub source_file_size_bytes: Option<u64>,
    pub validated_at: Timestamp,
    pub manifest: Option<PackageManifest>,
    pub image_archive: Option<ImageArchiveMetadata>,
    pub issues: Vec<ValidationIssue>,
}

/// The plain value of a [`ValidationRecord`].
pub struct ValidationRecordView {
    pub attempt_id: u128,
    pub status: ValidationStatus,
    pub source_path: String,
    pub staged_path: Option<String>,
    pub source_file_size_bytes: Option<u64>,
    pub validated_at: Timestamp,
    pub manifest: Option<PackageManifest>,
    pub image_archive: Option<ImageArchiveMetadata>,
    pub issues: Seq<IssueView>,
}

impl View for ValidationRecord {
    type V = ValidationRecordView;

    open spec fn view(&self) -> ValidationRecordView {
        ValidationRecordView {
            attempt_id: self.attempt_id,
            status: self.status,
            source_path: self.source_path,
            staged_path: self.staged_path,
            source_file_size_bytes: self.source_file_size_bytes,
            validated_at: self.validated_at,
            manifest: self.manifest,
            image_archive: self.image_archive,
            issues: issues_view(self.issues@),
        }
    }
}

impl Clone for ValidationRecord {
    fn clone(&self) -> (r: Self)
        ensures
            r@ == self@,
    {
        ValidationRecord {
            attempt_id: self.attempt_id,
            status: self.status,
            source_path: self.source_path.clone(),
            staged_path: clone_opt_string(&self.staged_path),
            source_file_size_bytes: self.source_file_size_bytes,
            validated_at: self.validated_at,
            manifest: match &self.manifest {
                Some(m) => Some(m.clone()),
                None => None,
            },
            image_archive: match &self.image_archive {
                Some(a) => Some(a.clone()),
                None => None,
            },
            issues: clone_issues(&self.issues),
        }
    }
}

impl ValidationRecord {
    /// Creates a fresh record, rejected until proven otherwise.
    pub fn new(attempt_id: u128, source_path: String, validated_at: Timestamp) -> (r: Self)
        ensures
            r.attempt_id == attempt_id,
            r.status == ValidationStatus::Rejected,
            r.source_path == source_path,
            r.staged_path is None,
            r.source_file_size_bytes is None,
            r.validated_at == validated_at,
            r.manifest is None,
            r.image_archive is None,
            r.issues@.len() == 0,
    {
        ValidationRecord {
            attempt_id,
            status: ValidationStatus::Rejected,
            source_path,
            staged_path: None,
            source_file_size_bytes: None,
            validated_at,
            manifest: None,
            image_archive: None,
            issues: Vec::new(),
        }
    }

    /// Marks the record as accepted.
    pub fn accept(&mut self)
        ensures
            final(self)@ == (ValidationRecordView { status: ValidationStatus::Accepted, ..old(self)@ }),
    {
        self.status = ValidationStatus::Accepted;
    }

    /// Adds an issue and keeps the record rejected.
    pub fn reject_with(&mut self, issue: ValidationIssue)
        ensures
            final(self)@ == (ValidationRecordView {
                status: ValidationStatus::Rejected,
                issues: old(self)@.issues.push(issue@),
                ..old(self)@
            }),
    {
        self.status = ValidationStatus::Rejected;
        let ghost before = self.issues@;
        let ghost iv = issue@;
        self.issues.push(issue);
        assert(issues_view(self.issues@) =~= issues_view(before).push(iv));
    }
}

/// The persisted result of one Docker image-import attempt.
#[derive(Debug, PartialEq, Eq)]
pub struct ImageImportRecord {
    pub import_id: u128,
    pub validation_attempt_id: u128,
    pub status: ImageImportStatus,
    pub service_name: String,
    pub image_reference: String,
    pub package_version: SemVer,
    pub imported_at: Timestamp,
    pub imported_image: Option<ImportedImageMetadata>,
    pub candidate_release_id: Option<u128>,
    pub issues: Vec<ValidationIssue>,
}

/// The plain value of an [`ImageImportRecord`].
pub struct ImageImportView {
    pub import_id: u128,
    pub validation_attempt_id: u128,
    pub status: ImageImportStatus,
    pub service_name: String,
    pub image_reference: String,
    pub package_version: SemVer,
    pub imported_at: Timestamp,
    pub imported_image: Option<ImportedImageView>,
    pub candidate_release_id: Option<u128>,
    pub issues: Seq<IssueView>,
}

impl View for ImageImportRecord {
    type V = ImageImportView;

    open spec fn view(&self) -> ImageImportView {
        ImageImportView {
            import_id: self.import_id,
            validation_attempt_id: self.validation_attempt_id,
            status: self.status,
            service_name: self.service_name,
            image_reference: self.image_reference,
            package_version: self.package_version,
            imported_at: self.imported_at,
            imported_image: match self.imported_image {
                Some(m) => Some(m@),
                None => None,
            },
            candidate_release_id: self.candidate_release_id,
            issues: issues_view(self.issues@),
        }
    }
}

impl Clone for ImageImportRecord {
    fn clone(&self) -> (r: Self)
        ensures
            r@ == self@,
    {
        ImageImportRecord {
            import_id: self.import_id,
            validation_attempt_id: self.validation_attempt_id,
            status: self.status,
            service_name: self.service_name.clone(),
            image_reference: self.image_reference.clone(),
            package_version: self.package_version.clone(),
            imported_at: self.imported_at,
            imported_image: match &self.imported_image {
                Some(m) => Some(m.clone()),
                None => None,
            },
            candidate_release_id: self.candidate_release_id,
            issues: clone_issues(&self.issues),
        }
    }
}

impl ImageImportRecord {
    /// Creates an import record, failed until the import completes.
    pub fn new(
        import_id: u128,
        validation_attempt_id: u128,
        service_name: String,
        image_reference: String,
        package_version: SemVer,
        imported_at: Timestamp,
    ) -> (r: Self)
        ensures
            r@ == (ImageImportView {
                import_id,
                validation_attempt_id,
                status: ImageImportStatus::Failed,
                service_name,
                image_reference,
                package_version,
                imported_at,
                imported_image: None,
                candidate_release_id: None,
                issues: Seq::empty(),
            }),
    {
        let r = ImageImportRecord {
            import_id,
            validation_attempt_id,
            status: ImageImportStatus::Failed,
            service_name,
            image_reference,
            package_version,
            imported_at,
            imported_image: None,
            candidate_release_id: None,
            issues: Vec::new(),
        };
        assert(issues_view(r.issues@) =~= Seq::<IssueView>::empty());
        r
    }

    /// Marks the import as successful and links the candidate release.
    pub fn mark_imported(&mut self, imported_image: ImportedImageMetadata, candidate_release_id: u128)
        ensures
            final(self)@ == (ImageImportView {
                status: ImageImportStatus::Imported,
                imported_image: Some(imported_image@),
                candidate_release_id: Some(candidate_release_id),
                ..old(self)@
            }),
    {
        self.status = ImageImportStatus::Imported;
        self.imported_image = Some(imported_image);
        self.candidate_release_id = Some(candidate_release_id);
    }

    /// Adds an issue and keeps the import marked as failed.
    pub fn fail_with(&mut self, issue: ValidationIssue)
        ensures
            final(self)@ == (ImageImportView {
                status: ImageImportStatus::Failed,
                issues: old(self)@.issues.push(issue@),
                ..old(self)@
            }),
    {
        self.status = ImageImportStatus::Failed;
        let ghost before = self.issues@;
        let ghost iv = issue@;
        self.issues.push(issue);
        assert(issues_view(self.issues@) =~= issues_view(before).push(iv));
    }
}

/// A persisted imported image that is ready for the apply workflow.
#[derive(Debug, PartialEq, Eq)]
pub struct CandidateReleaseRecord {
    pub candidate_release_id: u128,
    pub import_id: u128,
    pub validation_attempt_id: u128,
    pub service_name: String,
    pub image_reference: String,
    pub package_version: SemVer,
    pub created_at: Timestamp,
    pub imported_image: ImportedImageMetadata,
}

/// The plain value of a [`CandidateReleaseRecord`].
pub struct CandidateReleaseView {
    pub candidate_release_id: u128,
    pub import_id: u128,
    pub validation_attempt_id: u128,
    pub service_name: String,
    pub image_reference: String,
    pub package_version: SemVer,
    pub created_at: Timestamp,
    pub imported_image: ImportedImageView,
}

impl View for CandidateReleaseRecord {
    type V = CandidateReleaseView;

    open spec fn view(&self) -> CandidateReleaseView {
        CandidateReleaseView {
            candidate_release_id: self.candidate_release_id,
            import_id: self.import_id,
            validation_attempt_id: self.validation_attempt_id,
            service_name: self.service_name,
            image_reference: self.image_reference,
            package_version: self.package_version,
            created_at: self.created_at,
            imported_image: self.imported_image@,
        }
    }
}

impl Clone for CandidateReleaseRecord {
    fn clone(&self) -> (r: Self)
        ensures
            r@ == self@,
    {
        CandidateReleaseRecord {
            candidate_release_id: self.candidate_release_id,
            import_id: self.import_id,
            validation_attempt_id: self.validation_attempt_id,
            service_name: self.service_name.clone(),
            image_reference: self.image_reference.clone(),
            package_version: self.package_version.clone(),
            created_at: self.created_at,
            imported_image: self.imported_image.clone(),
        }
    }
}

impl CandidateReleaseRecord {
    /// Builds a candidate release from a successful import.
    pub fn new(
        candidate_release_id: u128,
        import_id: u128,
        validation_attempt_id: u128,
        service_name: String,
        image_reference: String,
        package_version: SemVer,
        created_at: Timestamp,
        imported_image: ImportedImageMetadata,
    ) -> (r: Self)
        ensures
            r@ == (CandidateReleaseView {
                candidate_release_id,
                import_id,
                validation_attempt_id,
                service_name,
                image_reference,
                package_version,
                created_at,
                imported_image: imported_image@,
            }),
    {
        CandidateReleaseRecord {
            candidate_release_id,
            import_id,
            validation_attempt_id,
            service_name,
            image_reference,
            package_version,
            created_at,
            imported_image,
        }
    }
}

/// The last known local state for one managed service.
#[derive(Debug, PartialEq, Eq)]
pub struct ServiceStateRecord {
    pub service_name: String,
    pub active_candidate_release_id: Option<u128>,
    pub active_image_reference: String,
    pub previous_known_good_candidate_release_id: Option<u128>,
    pub previous_known_good_image_reference: Option<String>,
    pub updated_at: Timestamp,
}

impl Clone for ServiceStateRecord {
    fn clone(&self) -> (r: Self)
        ensures
            r == *self,
    {
        ServiceStateRecord {
            service_name: self.service_name.clone(),
            active_candidate_release_id: self.active_candidate_release_id,
            active_image_reference: self.active_image_reference.clone(),
            previous_known_good_candidate_release_id: self.previous_known_good_candidate_release_id,
            previous_known_good_image_reference: clone_opt_string(
                &self.previous_known_good_image_reference,
            ),
            updated_at: self.updated_at,
        }
    }
}

impl ServiceStateRecord {
    /// Builds a state record for a service after an update settles.
    pub fn new(
        service_name: String,
        active_candidate_release_id: Option<u128>,
        active_image_reference: String,
        previous_known_good_candidate_release_id: Option<u128>,
        previous_known_good_image_reference: Option<String>,
        updated_at: Timestamp,
    ) -> (r: Self)
        ensures
            r == (ServiceStateRecord {
                service_name,
                active_candidate_release_id,
                active_image_reference,
                previous_known_good_candidate_release_id,
                previous_known_good_image_reference,
                updated_at,
            }),
    {
        ServiceStateRecord {
            service_name,
            active_candidate_release_id,
            active_image_reference,
            previous_known_good_candidate_release_id,
            previous_known_good_image_reference,
            updated_at,
        }
    }
}

/// The health-check result captured during one update attempt.
#[derive(Debug, PartialEq, Eq)]
pub struct HealthCheckReport {
    pub kind: HealthCheckKind,
    pub outcome: HealthCheckOutcome,
    pub message: String,
    pub checked_at: Timestamp,
}

impl Clone for HealthCheckReport {
    fn clone(&self) -> (r: Self)
        ensures
            r == *self,
    {
        HealthCheckReport {
            kind: self.kind,
            outcome: self.outcome,
            message: self.message.clone(),
            checked_at: self.checked_at,
        }
    }
}

/// The persisted story of one service update attempt.
#[derive(Debug, PartialEq, Eq)]
pub struct UpdateAttemptRecord {
    pub update_id: u128,
    pub candidate_release_id: u128,
    pub validation_attempt_id: u128,
    pub service_name: String,
    pub runtime_mode: RuntimeModeKind,
    pub target_image_reference: String,
    pub previous_candidate_release_id: Option<u128>,
    pub previous_image_reference: Option<String>,
    pub rollback_container_name: Option<String>,
    pub status: UpdateAttemptStatus,
    pub started_at: Timestamp,
    pub finished_at: Option<Timestamp>,
    pub health_check: Option<HealthCheckReport>,
    pub issues: Vec<ValidationIssue>,
}

/// The plain value of an [`UpdateAttemptRecord`].
pub struct UpdateAttemptView {
    pub update_id: u128,
    pub candidate_release_id: u128,
    pub validation_attempt_id: u128,
    pub service_name: String,
    pub runtime_mode: RuntimeModeKind,
    pub target_image_reference: String,
    pub previous_candidate_release_id: Option<u128>,
    pub previous_image_reference: Option<String>,
    pub rollback_container_name: Option<Seq<char>>,
    pub status: UpdateAttemptStatus,
    pub started_at: Timestamp,
    pub finished_at: Option<Timestamp>,
    pub health_check: Option<HealthCheckReport>,
    pub issues: Seq<IssueView>,
}

impl View for UpdateAttemptRecord {
    type V = UpdateAttemptView;

    open spec fn view(&self) -> UpdateAttemptView {
        UpdateAttemptView {
            update_id: self.update_id,
            candidate_release_id: self.candidate_release_id,
            validation_attempt_id: self.validation_attempt_id,
            service_name: self.service_name,
            runtime_mode: self.runtime_mode,
            target_image_reference: self.target_image_reference,
            previous_candidate_release_id: self.previous_candidate_release_id,
            previous_image_reference: self.previous_image_reference,
            rollback_container_name: match self.rollback_container_name {
                Some(n) => Some(n@),
                None => None,
            },
            status: self.status,
            started_at: self.started_at,
            finished_at: self.finished_at,
            health_check: self.health_check,
            issues: issues_view(self.issues@),
        }
    }
}

impl Clone for UpdateAttemptRecord {
    fn clone(&self) -> (r: Self)
        ensures
            r@ == self@,
    {
        UpdateAttemptRecord {
            update_id: self.update_id,
            candidate_release_id: self.candidate_release_id,
            validation_attempt_id: self.validation_attempt_id,
            service_name: self.service_name.clone(),
            runtime_mode: self.runtime_mode,
            target_image_reference: self.target_image_reference.clone(),
            previous_candidate_release_id: self.previous_candidate_release_id,
            previous_image_reference: clone_opt_string(&self.previous_image_reference),
            rollback_container_name: clone_opt_string(&self.rollback_container_name),
            status: self.status,
            started_at: self.started_at,
            finished_at: self.finished_at,
            health_check: match &self.health_check {
                Some(h) => Some(h.clone()),
                None => None,
            },
            issues: clone_issues(&self.issues),
        }
    }
}

impl UpdateAttemptRecord {
    /// Builds a fresh update attempt, in the `Applying` status.
    pub fn new(
        update_id: u128,
        candidate_release_id: u128,
        validation_attempt_id: u128,
        service_name: String,
        runtime_mode: RuntimeModeKind,
        target_image_reference: String,
        previous_candidate_release_id: Option<u128>,
        previous_image_reference: Option<String>,
        started_at: Timestamp,
    ) -> (r: Self)
        ensures
            r@ == (UpdateAttemptView {
                update_id,
                candidate_release_id,
                validation_attempt_id,
                service_name,
                runtime_mode,
                target_image_reference,
                previous_candidate_release_id,
                previous_image_reference,
                rollback_container_name: None,
                status: UpdateAttemptStatus::Applying,
                started_at,
                finished_at: None,
                health_check: None,
                issues: Seq::empty(),
            }),
    {
        let r = UpdateAttemptRecord {
            update_id,
            candidate_release_id,
            validation_attempt_id,
            service_name,
            runtime_mode,
            target_image_reference,
            previous_candidate_release_id,
            previous_image_reference,
            rollback_container_name: None,
            status: UpdateAttemptStatus::Applying,
            started_at,
            finished_at: None,
            health_check: None,
            issues: Vec::new(),
        };
        assert(issues_view(r.issues@) =~= Seq::<IssueView>::empty());
        r
    }

    /// Adds an issue without changing the current status.
    pub fn add_issue(&mut self, issue: ValidationIssue)
        ensures
            final(self)@ == (UpdateAttemptView { issues: old(self)@.issues.push(issue@), ..old(self)@ }),
    {
        let ghost before = self.issues@;
        let ghost iv = issue@;
        self.issues.push(issue);
        assert(issues_view(self.issues@) =~= issues_view(before).push(iv));
    }

    /// Marks the attempt as running health checks.
    pub fn mark_health_checking(&mut self)
        ensures
            final(self)@ == (UpdateAttemptView {
                status: UpdateAttemptStatus::HealthChecking,
                ..old(self)@
            }),
    {
        self.status = UpdateAttemptStatus::HealthChecking;
    }

    /// Marks the attempt as cleanly committed.
    pub fn mark_succeeded(&mut self, finished_at: Timestamp)
        ensures
            final(self)@ == (UpdateAttemptView {
                status: UpdateAttemptStatus::Succeeded,
                finished_at: Some(finished_at),
                ..old(self)@
            }),
    {
        self.status = UpdateAttemptStatus::Succeeded;
        self.finished_at = Some(finished_at);
    }

    /// Marks the attempt as failed before any rollback.
    pub fn mark_failed(&mut self, finished_at: Timestamp)
        ensures
            final(self)@ == (UpdateAttemptView {
                status: UpdateAttemptStatus::Failed,
                finished_at: Some(finished_at),
                ..old(self)@
            }),
    {
        self.status = UpdateAttemptStatus::Failed;
        self.finished_at = Some(finished_at);
    }

    /// Marks the attempt as entering rollback.
    pub fn mark_rollback_started(&mut self)
        ensures
            final(self)@ == (UpdateAttemptView {
                status: UpdateAttemptStatus::RollbackStarted,
                finished_at: None,
                ..old(self)@
            }),
    {
        self.status = UpdateAttemptStatus::RollbackStarted;
        self.finished_at = None;
    }

    /// Marks the attempt as rolled back successfully.
    pub fn mark_rolled_back(&mut self, finished_at: Timestamp)
        ensures
            final(self)@ == (UpdateAttemptView {
                status: UpdateAttemptStatus::RolledBack,
                finished_at: Some(finished_at),
                ..old(self)@
            }),
    {
        self.status = UpdateAttemptStatus::RolledBack;
        self.finished_at = Some(finished_at);
    }

    /// Marks the attempt as rollback-failed.
    pub fn mark_rollback_failed(&mut self, finished_at: Timestamp)
        ensures
            final(self)@ == (UpdateAttemptView {
                status: UpdateAttemptStatus::RollbackFailed,
                finished_at: Some(finished_at),
                ..old(self)@
            }),
    {
        self.status = UpdateAttemptStatus::RollbackFailed;
        self.finished_at = Some(finished_at);
    }
}

/// A local audit event.
#[derive(Debug, PartialEq, Eq)]
pub struct AuditEvent {
    pub event_id: u128,
    pub attempt_id: u128,
    pub occurred_at: Timestamp,
    pub kind: AuditEventKind,
    pub message: String,
}

/// High-level event kinds used in the local audit log.
#[derive(Clone, Copy, Debug, PartialEq, Eq, Structural)]
pub enum AuditEventKind {
    ValidationStarted,
    ValidationAccepted,
    ValidationRejected,
    ImageImportStarted,
    ImageImportSucceeded,
    ImageImportFailed,
    UpdateStarted,
    HealthCheckStarted,
    HealthCheckPassed,
    HealthCheckFailed,
    RollbackStarted,
    RollbackSucceeded,
    RollbackFailed,
    UpdateCommitted,
}

} // verus!
