//! The package manifest (`manifest.toml`): decoding, field checks, and the
//! compatibility checks against the service catalog.

use vstd::prelude::*;
use crate::clock::{parse_rfc3339, rfc3339_parse, Timestamp};
use crate::domain::{
    CompatibilitySpec, ImageSpec, IssueView, ManagedService, PackageManifest, PackageTarget,
    PackageType, SUPPORTED_MANIFEST_FORMAT_VERSION, ServiceCatalog, ValidationIssue,
};
use crate::text::{decimal_string, decimal_text, is_blank, is_blank_text, text_eq};
use crate::version::{parse_semver, semver_less, semver_parse, semver_text, version_less, SemVer};

verus! {

/// Name for the message of `std::str::from_utf8`'s error on invalid bytes.
pub uninterp spec fn utf8_error_text(bytes: Seq<u8>) -> Seq<char>;

/// `std::str::from_utf8`, owned: the decoded text exactly when the bytes are
/// valid UTF-8 (as vstd's `valid_utf8` and `decode_utf8` define it), else the
/// error's message.
#[verifier::external_body]
pub(crate) fn decode_utf8_bytes(bytes: &[u8]) -> (r: Result<String, String>)
    ensures
        (r is Ok) <==> vstd::utf8::valid_utf8(bytes@),
        r matches Ok(s) ==> s@ == vstd::utf8::decode_utf8(bytes@),
        r matches Err(m) ==> m@ == utf8_error_text(bytes@),
{
    match std::str::from_utf8(bytes) {
        Ok(s) => Ok(s.to_string()),
        Err(e) => Err(e.to_string()),
    }
}

/// Decodes `manifest.toml`, which must be UTF-8.
pub fn decode_manifest_text(bytes: &[u8]) -> (r: Result<String, ValidationIssue>)
    ensures
        (r is Ok) <==> vstd::utf8::valid_utf8(bytes@),
        r matches Ok(s) ==> s@ == vstd::utf8::decode_utf8(bytes@),
        r matches Err(i) ==> i@ == (IssueView {
            code: "manifest.invalid_utf8"@,
            message: "manifest.toml must be valid UTF-8: "@ + utf8_error_text(bytes@),
        }),
{
    match decode_utf8_bytes(bytes) {
        Ok(s) => Ok(s),
        Err(e) => {
            let mut m = String::from_str("manifest.toml must be valid UTF-8: ");
            m.append(e.as_str());
            Err(ValidationIssue::with_message("manifest.invalid_utf8", m))
        },
    }
}

/// The issue for a manifest that is not a well-formed manifest document.
pub fn manifest_parse_failed(message: &str) -> (i: ValidationIssue)
    ensures
        i@ == (IssueView { code: "manifest.parse_failed"@, message: "failed to parse manifest.toml: "@ + message@ }),
{
    let mut m = String::from_str("failed to parse manifest.toml: ");
    m.append(message);
    ValidationIssue::with_message("manifest.parse_failed", m)
}

/// The `[target]` table as read from TOML.
#[derive(Debug, PartialEq, Eq)]
pub struct RawTarget {
    pub service: String,
    pub service_revision: String,
    pub platform: String,
}

/// The `[image]` table as read from TOML.
#[derive(Debug, PartialEq, Eq)]
pub struct RawImage {
    pub reference: String,
}

/// The `[compatibility]` table as read from TOML.
#[derive(Debug, PartialEq, Eq)]
pub struct RawCompatibility {
    pub min_updater_version: Option<String>,
}

/// The manifest document as read from TOML, before any field check. The TOML
/// reader has already turned `format_version` (an integer, or a string holding
/// one) into a number and `package_type` into a package type: a document where
/// either fails does not parse.
#[derive(Debug, PartialEq, Eq)]
pub struct RawManifest {
    pub format_version: u64,
    pub package_type: PackageType,
    pub package_version: String,
    pub created_at: String,
    pub target: RawTarget,
    pub image: RawImage,
    pub compatibility: Option<RawCompatibility>,
}

/// Whether a character is an ASCII digit.
pub open spec fn is_digit(c: char) -> bool {
    '0' <= c && c <= '9'
}

/// The value of a string of ASCII digits.
pub open spec fn digits_value(s: Seq<char>) -> int
    decreases s.len(),
{
    if s.len() == 0 {
        0
    } else {
        digits_value(s.drop_last()) * 10 + (s.last() as int - '0' as int)
    }
}

/// What `str::parse::<u64>` accepts: an optional `+` followed by one or more
/// ASCII digits whose value fits in 64 bits.
pub open spec fn u64_text_value(s: Seq<char>) -> Option<u64> {
    if unsigned_digits(s).len() > 0 && all_digits(unsigned_digits(s)) && digits_value(unsigned_digits(s)) <= u64::MAX {
        Some(digits_value(unsigned_digits(s)) as u64)
    } else {
        None
    }
}

/// The text without its optional leading `+`.
pub open spec fn unsigned_digits(s: Seq<char>) -> Seq<char> {
    if s.len() > 0 && s[0] == '+' { s.drop_first() } else { s }
}

/// Whether every character is an ASCII digit.
pub open spec fn all_digits(t: Seq<char>) -> bool {
    forall|i: int| 0 <= i < t.len() ==> is_digit(#[trigger] t[i])
}

/// Name for the message of the error `str::parse::<u64>` gives for a text it
/// refuses.
pub uninterp spec fn parse_int_error_text(text: Seq<char>) -> Seq<char>;

/// `str::parse::<u64>`, with the error as its message. As std documents it,
/// the text must be an optional `+` followed by ASCII digits only, and the
/// value must fit in 64 bits; the message of the error is left unsaid here.
#[verifier::external_body]
fn parse_u64_std(text: &str) -> (r: Result<u64, String>)
    ensures
        match u64_text_value(text@) {
            Some(v) => r == Ok::<u64, String>(v),
            None => r matches Err(m) && m@ == parse_int_error_text(text@),
        },
{
    text.parse::<u64>().map_err(|e| e.to_string())
}

/// Reads `format_version` written as a string: the number it holds, read as
/// `str::parse::<u64>` reads it, or that parse's error message.
pub fn format_version_from_text(text: &str) -> (r: Result<u64, String>)
    ensures
        match u64_text_value(text@) {
            Some(v) => r == Ok::<u64, String>(v),
            None => r matches Err(m) && m@ == parse_int_error_text(text@),
        },
{
    parse_u64_std(text)
}

/// The package type a text names: `service` (or its older spelling
/// `service-update`).
pub open spec fn package_type_named(t: Seq<char>) -> Option<PackageType> {
    if t == "service"@ || t == "service-update"@ {
        Some(PackageType::Service)
    } else {
        None
    }
}

/// Reads a package type name; any other name is refused with
/// ``unsupported package_type `{name}` ``.
pub fn parse_package_type(t: &str) -> (r: Result<PackageType, String>)
    ensures
        match package_type_named(t@) {
            Some(p) => r == Ok::<PackageType, String>(p),
            None => r matches Err(m) && m@ == "unsupported package_type `"@ + t@ + "`"@,
        },
{
    if text_eq(t, "service") || text_eq(t, "service-update") {
        Ok(PackageType::Service)
    } else {
        let mut m = String::from_str("unsupported package_type `");
        m.append(t);
        m.append("`");
        Err(m)
    }
}

/// `"{field} cannot be empty"` as a manifest issue.
pub open spec fn empty_field_issue(field: Seq<char>) -> IssueView {
    IssueView { code: "manifest.empty_field"@, message: field + " cannot be empty"@ }
}

/// Checks a manifest field is not blank, handing it back when it is not.
pub fn require_non_empty(field: &str, value: String) -> (r: Result<String, ValidationIssue>)
    ensures
        is_blank_text(value@) ==> (r matches Err(i) && i@ == empty_field_issue(field@)),
        !is_blank_text(value@) ==> r == Ok::<String, ValidationIssue>(value),
{
    if is_blank(value.as_str()) {
        let mut m = String::from_str(field);
        m.append(" cannot be empty");
        return Err(ValidationIssue::with_message("manifest.empty_field", m));
    }
    Ok(value)
}

/// The first issue with a raw manifest, in the order the checks run, or none.
pub open spec fn raw_manifest_issue(raw: RawManifest) -> Option<IssueView> {
    let min = match raw.compatibility {
        Some(c) => c.min_updater_version,
        None => None,
    };
    if raw.format_version != SUPPORTED_MANIFEST_FORMAT_VERSION {
        Some(IssueView {
            code: "manifest.unsupported_format_version"@,
            message: "unsupported format_version `"@ + decimal_text(raw.format_version as nat)
                + "`; expected `"@ + decimal_text(SUPPORTED_MANIFEST_FORMAT_VERSION as nat) + "`"@,
        })
    } else if rfc3339_parse(raw.created_at@) is Err {
        Some(IssueView {
            code: "manifest.invalid_created_at"@,
            message: "created_at must be RFC3339: "@ + rfc3339_parse(raw.created_at@)->Err_0,
        })
    } else if semver_parse(raw.package_version@) is Err {
        Some(IssueView {
            code: "manifest.invalid_package_version"@,
            message: "package_version must be valid semver: "@ + semver_parse(raw.package_version@)->Err_0,
        })
    } else if min matches Some(m) && semver_parse(m@) is Err {
        Some(IssueView {
            code: "manifest.invalid_min_updater_version"@,
            message: "compatibility.min_updater_version must be valid semver: "@ + semver_parse(min->0@)->Err_0,
        })
    } else if is_blank_text(raw.target.service@) {
        Some(empty_field_issue("target.service"@))
    } else if is_blank_text(raw.target.service_revision@) {
        Some(empty_field_issue("target.service_revision"@))
    } else if is_blank_text(raw.target.platform@) {
        Some(empty_field_issue("target.platform"@))
    } else if is_blank_text(raw.image.reference@) {
        Some(empty_field_issue("image.reference"@))
    } else {
        None
    }
}

/// Whether a parsed manifest carries exactly what the raw document said.
pub open spec fn manifest_from_raw(raw: RawManifest, m: PackageManifest) -> bool {
    let min = match raw.compatibility {
        Some(c) => c.min_updater_version,
        None => None,
    };
    &&& m.format_version == SUPPORTED_MANIFEST_FORMAT_VERSION
    &&& m.package_type == raw.package_type
    &&& semver_parse(raw.package_version@) == Ok::<crate::version::SemVerView, Seq<char>>(m.package_version@)
    &&& rfc3339_parse(raw.created_at@) == Ok::<Timestamp, Seq<char>>(m.created_at)
    &&& m.target == raw.target_as_domain()
    &&& m.image.reference == raw.image.reference
    &&& match min {
        None => m.compatibility.min_updater_version is None,
        Some(t) => m.compatibility.min_updater_version matches Some(v) && semver_parse(t@) == Ok::<crate::version::SemVerView, Seq<char>>(v@),
    }
}

impl RawManifest {
    /// The target table as the domain type.
    pub open spec fn target_as_domain(self) -> PackageTarget {
        PackageTarget {
            service: self.target.service,
            service_revision: self.target.service_revision,
            platform: self.target.platform,
        }
    }
}

/// Checks the fields of a raw manifest and builds the manifest: the first
/// problem, in order, is reported; without problems every field is carried over.
pub fn parse_raw_manifest(raw: RawManifest) -> (r: Result<PackageManifest, ValidationIssue>)
    ensures
        match raw_manifest_issue(raw) {
            Some(i) => r matches Err(j) && j@ == i,
            None => r matches Ok(m) && manifest_from_raw(raw, m),
        },
{
    let format_version = raw.format_version;
    let package_type = raw.package_type;
    if format_version != SUPPORTED_MANIFEST_FORMAT_VERSION {
        let mut m = String::from_str("unsupported format_version `");
        m.append(decimal_string(format_version).as_str());
        m.append("`; expected `");
        m.append(decimal_string(SUPPORTED_MANIFEST_FORMAT_VERSION).as_str());
        m.append("`");
        return Err(ValidationIssue::with_message("manifest.unsupported_format_version", m));
    }
    let created_at = match parse_rfc3339(raw.created_at.as_str()) {
        Ok(t) => t,
        Err(e) => {
            let mut m = String::from_str("created_at must be RFC3339: ");
            m.append(e.as_str());
            return Err(ValidationIssue::with_message("manifest.invalid_created_at", m));
        },
    };
    let package_version = match parse_semver(raw.package_version.as_str()) {
        Ok(v) => v,
        Err(e) => {
            let mut m = String::from_str("package_version must be valid semver: ");
            m.append(e.as_str());
            return Err(ValidationIssue::with_message("manifest.invalid_package_version", m));
        },
    };
    let min_text = match &raw.compatibility {
        Some(c) => match &c.min_updater_version {
            Some(t) => Some(t.clone()),
            None => None,
        },
        None => None,
    };
    let min_updater_version = match min_text {
        None => None,
        Some(t) => match parse_semver(t.as_str()) {
            Ok(v) => Some(v),
            Err(e) => {
                let mut m = String::from_str("compatibility.min_updater_version must be valid semver: ");
                m.append(e.as_str());
                return Err(ValidationIssue::with_message("manifest.invalid_min_updater_version", m));
            },
        },
    };
    let service = require_non_empty("target.service", raw.target.service)?;
    let service_revision = require_non_empty("target.service_revision", raw.target.service_revision)?;
    let platform = require_non_empty("target.platform", raw.target.platform)?;
    let reference = require_non_empty("image.reference", raw.image.reference)?;
    Ok(PackageManifest {
        format_version,
        package_type,
        package_version,
        created_at,
        target: PackageTarget { service, service_revision, platform },
        image: ImageSpec { reference },
        compatibility: CompatibilitySpec { min_updater_version },
    })
}

// ---------------------------------------------------------------------------
// Compatibility with the service catalog.
// ---------------------------------------------------------------------------

/// The issues of a manifest against the configured service, in order:
/// service revision, platform, then updater version.
pub open spec fn service_issues(m: PackageManifest, s: ManagedService, current: SemVer) -> Seq<IssueView> {
    let revision = if m.target.service_revision@ != s.service_revision@ {
        seq![IssueView {
            code: "package.service_revision_mismatch"@,
            message: "package service_revision `"@ + m.target.service_revision@ + "` does not match configured revision `"@
                + s.service_revision@ + "` for service `"@ + s.name@ + "`"@,
        }]
    } else {
        Seq::empty()
    };
    let platform = if m.target.platform@ != s.platform@ {
        seq![IssueView {
            code: "package.platform_mismatch"@,
            message: "package platform `"@ + m.target.platform@ + "` does not match configured platform `"@
                + s.platform@ + "` for service `"@ + s.name@ + "`"@,
        }]
    } else {
        Seq::empty()
    };
    let version = match m.compatibility.min_updater_version {
        Some(min) => if semver_less(current@, min@) {
            seq![IssueView {
                code: "package.updater_too_old"@,
                message: "package requires updater version `"@ + semver_text(min@) + "` or newer, but this build is `"@
                    + semver_text(current@) + "`"@,
            }]
        } else {
            Seq::empty()
        },
        None => Seq::empty(),
    };
    revision + platform + version
}

/// The issues of a manifest against the catalog: an unknown target service is
/// the only issue reported for it; otherwise the checks against that service.
pub open spec fn manifest_issues(m: PackageManifest, catalog: ServiceCatalog, current: SemVer) -> Seq<IssueView> {
    match crate::domain::first_service_index(catalog.services@, m.target.service@) {
        None => seq![IssueView {
            code: "package.unknown_service"@,
            message: "package targets unknown service `"@ + m.target.service@ + "`"@,
        }],
        Some(i) => service_issues(m, catalog.services@[i], current),
    }
}

fn push_issue(v: &mut Vec<ValidationIssue>, i: ValidationIssue)
    ensures
        crate::domain::issues_view(final(v)@) == crate::domain::issues_view(old(v)@).push(i@),
{
    let ghost before = v@;
    let ghost iv = i@;
    v.push(i);
    assert(crate::domain::issues_view(v@) =~= crate::domain::issues_view(before).push(iv));
}

/// Checks a parsed manifest against the catalog and the running updater's version.
pub fn validate_manifest(manifest: &PackageManifest, catalog: &ServiceCatalog, current_updater_version: &SemVer) -> (issues: Vec<ValidationIssue>)
    ensures
        crate::domain::issues_view(issues@) == manifest_issues(*manifest, *catalog, *current_updater_version),
{
    let mut issues: Vec<ValidationIssue> = Vec::new();
    let service = match catalog.find_service(manifest.target.service.as_str()) {
        None => {
            let mut m = String::from_str("package targets unknown service `");
            m.append(manifest.target.service.as_str());
            m.append("`");
            push_issue(&mut issues, ValidationIssue::with_message("package.unknown_service", m));
            proof {
                assert(crate::domain::first_service_index(catalog.services@, manifest.target.service@) is None);
                assert(crate::domain::issues_view(issues@) =~= manifest_issues(*manifest, *catalog, *current_updater_version));
            }
            return issues;
        },
        Some(s) => s,
    };
    proof {
        let i = choose|i: int|
            0 <= i < catalog.services@.len() && catalog.services@[i] == *service && service.name@ == manifest.target.service@
                && forall|j: int| 0 <= j < i ==> #[trigger] catalog.services@[j].name@ != manifest.target.service@;
        let k = crate::domain::first_service_index(catalog.services@, manifest.target.service@)->0;
        assert(k == i) by {
            if k < i { assert(catalog.services@[k].name@ != manifest.target.service@); }
            if i < k { assert(catalog.services@[i].name@ == manifest.target.service@); }
        }
    }
    let ghost expected = service_issues(*manifest, *service, *current_updater_version);
    if !text_eq(manifest.target.service_revision.as_str(), service.service_revision.as_str()) {
        let mut m = String::from_str("package service_revision `");
        m.append(manifest.target.service_revision.as_str());
        m.append("` does not match configured revision `");
        m.append(service.service_revision.as_str());
        m.append("` for service `");
        m.append(service.name.as_str());
        m.append("`");
        push_issue(&mut issues, ValidationIssue::with_message("package.service_revision_mismatch", m));
    }
    if !text_eq(manifest.target.platform.as_str(), service.platform.as_str()) {
        let mut m = String::from_str("package platform `");
        m.append(manifest.target.platform.as_str());
        m.append("` does not match configured platform `");
        m.append(service.platform.as_str());
        m.append("` for service `");
        m.append(service.name.as_str());
        m.append("`");
        push_issue(&mut issues, ValidationIssue::with_message("package.platform_mismatch", m));
    }
    if let Some(min_version) = &manifest.compatibility.min_updater_version {
        if version_less(current_updater_version, min_version) {
            let mut m = String::from_str("package requires updater version `");
            m.append(min_version.text().as_str());
            m.append("` or newer, but this build is `");
            m.append(current_updater_version.text().as_str());
            m.append("`");
            push_issue(&mut issues, ValidationIssue::with_message("package.updater_too_old", m));
        }
    }
    assert(crate::domain::issues_view(issues@) =~= expected);
    issues
}

/// A manifest passes the catalog checks exactly when its target service is
/// configured, the service revision and platform match it, and the updater is
/// not older than the manifest's minimum version.
pub proof fn law_manifest_accepted_iff_compatible(m: PackageManifest, catalog: ServiceCatalog, current: SemVer)
    ensures
        (manifest_issues(m, catalog, current).len() == 0) <==> ({
            &&& crate::domain::first_service_index(catalog.services@, m.target.service@) matches Some(i)
            &&& m.target.service_revision@ == catalog.services@[i].service_revision@
            &&& m.target.platform@ == catalog.services@[i].platform@
            &&& (m.compatibility.min_updater_version matches Some(min) ==> !semver_less(current@, min@))
        }),
{
}

} // verus!
