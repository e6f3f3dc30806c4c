//! Structural checks on a package archive (`.edgepkg`, a tar file).
//!
//! A package is untrusted until every check passes: entries must be regular
//! files at the archive root with distinct names, `manifest.toml` must be
//! small enough to read, and a non-empty `image.tar` must be present.
//! The archive is read entry by entry by the caller; these functions decide,
//! for each entry header, what to do with it.

use vstd::prelude::*;
use crate::domain::{ImageArchiveMetadata, IssueView, ValidationIssue};
use crate::text::{decimal_string, decimal_text, text_eq};

verus! {

/// The largest `manifest.toml` the updater reads, in bytes.
pub const MAX_MANIFEST_SIZE_BYTES: u64 = 65536;

/// One component of an entry path, as the platform's path parser splits it.
#[derive(Debug, PartialEq, Eq)]
pub enum PathComponent {
    /// A plain name (lossily decoded).
    Normal(String),
    /// The root directory (`/`).
    RootDir,
    /// `.`
    CurDir,
    /// `..`
    ParentDir,
    /// A platform path prefix (such as a drive letter).
    Prefix,
}

/// The tar entry type: regular files are the only ones accepted.
#[derive(Debug, PartialEq, Eq)]
pub enum TarEntryKind {
    Regular,
    /// Any other type, with the name it is reported under.
    Other(String),
}

/// What the checks read of one archive entry's header.
#[derive(Debug, PartialEq, Eq)]
pub struct TarEntryHeader {
    /// The entry path split into components, or why it could not be read.
    pub path: Result<Vec<PathComponent>, String>,
    /// The entry path as displayed in messages.
    pub path_display: String,
    pub kind: TarEntryKind,
    /// The declared size, or why it could not be read.
    pub size: Result<u64, String>,
}

/// An issue given by its code and message.
pub open spec fn issue(code: Seq<char>, message: Seq<char>) -> IssueView {
    IssueView { code, message }
}

/// The name an entry path stands for, or the issue with it: only a single
/// plain component (a file at the package root) is accepted.
pub open spec fn entry_name_of(path: Result<Vec<PathComponent>, String>, display: Seq<char>) -> Result<Seq<char>, IssueView> {
    match path {
        Err(e) => Err(issue("archive.invalid_entry_path"@, "archive entry has an invalid path: "@ + e@)),
        Ok(cs) => if cs@.len() == 0 {
            Err(issue("archive.empty_entry_path"@, "archive entry path cannot be empty"@))
        } else if cs@.len() > 1 {
            Err(issue("archive.nested_entry"@, "archive entry `"@ + display + "` must live at the package root"@))
        } else {
            match cs@[0] {
                PathComponent::Normal(n) => Ok(n@),
                _ => Err(issue("archive.invalid_entry_path"@, "archive entry `"@ + display + "` uses an unsupported path form"@)),
            }
        },
    }
}

/// Turns an entry path into the entry's name at the package root.
pub fn normalize_entry_path(path: &Result<Vec<PathComponent>, String>, display: &str) -> (r: Result<String, ValidationIssue>)
    ensures
        match (r, entry_name_of(*path, display@)) {
            (Ok(n), Ok(m)) => n@ == m,
            (Err(i), Err(j)) => i@ == j,
            _ => false,
        },
{
    match path {
        Err(e) => {
            let mut m = String::from_str("archive entry has an invalid path: ");
            m.append(e.as_str());
            Err(ValidationIssue::with_message("archive.invalid_entry_path", m))
        },
        Ok(cs) => {
            if cs.len() == 0 {
                Err(ValidationIssue::new("archive.empty_entry_path", "archive entry path cannot be empty"))
            } else if cs.len() > 1 {
                let mut m = String::from_str("archive entry `");
                m.append(display);
                m.append("` must live at the package root");
                Err(ValidationIssue::with_message("archive.nested_entry", m))
            } else {
                match &cs[0] {
                    PathComponent::Normal(n) => Ok(n.clone()),
                    _ => {
                        let mut m = String::from_str("archive entry `");
                        m.append(display);
                        m.append("` uses an unsupported path form");
                        Err(ValidationIssue::with_message("archive.invalid_entry_path", m))
                    },
                }
            }
        },
    }
}

/// The issue for an entry of a type other than a regular file.
pub open spec fn unsafe_type_issue(name: Seq<char>, kind_name: Seq<char>) -> IssueView {
    issue("archive.unsafe_entry_type"@, "archive entry `"@ + name + "` uses unsupported tar entry type `"@ + kind_name + "`"@)
}

fn unsafe_type_issue_of(name: &String, kind_name: &String) -> (i: ValidationIssue)
    ensures
        i@ == unsafe_type_issue(name@, kind_name@),
{
    let mut m = String::from_str("archive entry `");
    m.append(name.as_str());
    m.append("` uses unsupported tar entry type `");
    m.append(kind_name.as_str());
    m.append("`");
    ValidationIssue::with_message("archive.unsafe_entry_type", m)
}

/// What to do with one entry while inspecting a package.
#[derive(Debug, PartialEq, Eq)]
pub enum EntryPlan {
    /// The package is rejected with this issue; stop reading.
    Reject(ValidationIssue),
    /// Read the entry's bytes as the manifest (then call `manifest_read`).
    ReadManifest,
    /// Read through `image.tar` (then call `image_drained`).
    DrainImage { name: String, size: u64 },
    /// Read through an entry nothing else looks at (then call `other_drained`).
    DrainOther { name: String },
}

/// The plain value of an [`EntryPlan`].
pub enum EntryPlanView {
    Reject(IssueView),
    ReadManifest,
    DrainImage(Seq<char>, u64),
    DrainOther(Seq<char>),
}

impl View for EntryPlan {
    type V = EntryPlanView;

    open spec fn view(&self) -> EntryPlanView {
        match self {
            EntryPlan::Reject(i) => EntryPlanView::Reject(i@),
            EntryPlan::ReadManifest => EntryPlanView::ReadManifest,
            EntryPlan::DrainImage { name, size } => EntryPlanView::DrainImage(name@, *size),
            EntryPlan::DrainOther { name } => EntryPlanView::DrainOther(name@),
        }
    }
}

/// The result of inspecting a package archive.
#[derive(Debug, PartialEq, Eq)]
pub struct ArchiveInspection {
    pub manifest_bytes: Vec<u8>,
    pub image_archive: ImageArchiveMetadata,
}

/// The state of a package inspection: the entry names seen so far and what
/// has been read of the two required entries.
#[derive(Debug)]
pub struct ArchiveInspector {
    pub seen: Vec<String>,
    pub manifest_bytes: Option<Vec<u8>>,
    pub image_archive: Option<ImageArchiveMetadata>,
}

/// The names seen by an inspector.
pub open spec fn seen_names(ins: ArchiveInspector) -> Seq<Seq<char>> {
    ins.seen@.map_values(|n: String| n@)
}

/// The plan for an entry, given the names seen before it: the entry name
/// must be valid and new, the entry a regular file with a readable size, a
/// manifest no larger than the limit and an image not empty.
pub open spec fn entry_plan(seen: Seq<Seq<char>>, h: TarEntryHeader) -> EntryPlanView {
    match entry_name_of(h.path, h.path_display@) {
        Err(i) => EntryPlanView::Reject(i),
        Ok(name) => if seen.contains(name) {
            EntryPlanView::Reject(issue("archive.duplicate_entry"@, "duplicate archive entry `"@ + name + "` is not allowed"@))
        } else {
            match h.kind {
                TarEntryKind::Other(k) => EntryPlanView::Reject(unsafe_type_issue(name, k@)),
                TarEntryKind::Regular => match h.size {
                    Err(e) => EntryPlanView::Reject(issue("archive.invalid_entry_size"@, "archive entry `"@ + name + "` has an invalid size: "@ + e@)),
                    Ok(size) => if name == "manifest.toml"@ {
                        if size > MAX_MANIFEST_SIZE_BYTES {
                            EntryPlanView::Reject(issue(
                                "manifest.too_large"@,
                                "manifest.toml is too large ("@ + decimal_text(size as nat) + " bytes); max supported size is "@
                                    + decimal_text(MAX_MANIFEST_SIZE_BYTES as nat) + " bytes"@,
                            ))
                        } else {
                            EntryPlanView::ReadManifest
                        }
                    } else if name == "image.tar"@ {
                        if size == 0 {
                            EntryPlanView::Reject(issue("image.empty_archive"@, "image.tar must not be empty"@))
                        } else {
                            EntryPlanView::DrainImage(name, size)
                        }
                    } else {
                        EntryPlanView::DrainOther(name)
                    },
                },
            }
        },
    }
}

/// The plan for an entry does not depend on the order of the entries before
/// it: two inspections that agree on whether the entry's own name was already
/// seen plan it the same way, whatever else each has seen. So an archive's
/// verdict does not depend on where `manifest.toml` and `image.tar` stand.
pub proof fn law_entry_plan_ignores_entry_order(seen1: Seq<Seq<char>>, seen2: Seq<Seq<char>>, h: TarEntryHeader)
    requires
        valid_name(h) matches Some(n) ==> (seen1.contains(n) <==> seen2.contains(n)),
    ensures
        entry_plan(seen1, h) == entry_plan(seen2, h),
{
}

/// A first-seen, regular, non-empty `image.tar` at the package root is read
/// through as the image, whichever entries came before it.
pub proof fn law_new_image_entry_is_drained(seen: Seq<Seq<char>>, h: TarEntryHeader, size: u64)
    requires
        valid_name(h) == Some("image.tar"@),
        !seen.contains("image.tar"@),
        h.kind == TarEntryKind::Regular,
        h.size == Ok::<u64, String>(size),
        size > 0,
    ensures
        entry_plan(seen, h) == EntryPlanView::DrainImage("image.tar"@, size),
{
    reveal_strlit("image.tar");
    reveal_strlit("manifest.toml");
    assert("image.tar"@ != "manifest.toml"@) by { assert("image.tar"@[0] != "manifest.toml"@[0]); }
}

/// A first-seen, regular `manifest.toml` at the package root within the size
/// limit is read as the manifest, whichever entries came before it.
pub proof fn law_new_manifest_entry_is_read(seen: Seq<Seq<char>>, h: TarEntryHeader, size: u64)
    requires
        valid_name(h) == Some("manifest.toml"@),
        !seen.contains("manifest.toml"@),
        h.kind == TarEntryKind::Regular,
        h.size == Ok::<u64, String>(size),
        size <= MAX_MANIFEST_SIZE_BYTES,
    ensures
        entry_plan(seen, h) == EntryPlanView::ReadManifest,
{
}

/// The name an entry path stands for, when it is valid.
pub open spec fn valid_name(h: TarEntryHeader) -> Option<Seq<char>> {
    match entry_name_of(h.path, h.path_display@) {
        Ok(n) => Some(n),
        Err(_) => None,
    }
}

/// What an inspector holds together: names are distinct, and what was read
/// of the two required entries came from entries of those names.
pub open spec fn inspector_wf(ins: ArchiveInspector) -> bool {
    &&& seen_names(ins).no_duplicates()
    &&& (ins.manifest_bytes is Some ==> seen_names(ins).contains("manifest.toml"@))
    &&& (ins.image_archive matches Some(a) ==> seen_names(ins).contains("image.tar"@) && a.entry_name@ == "image.tar"@ && a.size_bytes > 0)
}

fn contains_name(seen: &Vec<String>, name: &String) -> (b: bool)
    ensures
        b == seen@.map_values(|n: String| n@).contains(name@),
{
    let ghost names = seen@.map_values(|n: String| n@);
    let mut i: usize = 0;
    while i < seen.len()
        invariant
            names == seen@.map_values(|n: String| n@),
            i <= seen@.len(),
            forall|k: int| 0 <= k < i ==> names[k] != name@,
        decreases seen.len() - i,
    {
        if text_eq(seen[i].as_str(), name.as_str()) {
            assert(names[i as int] == name@);
            return true;
        }
        i = i + 1;
    }
    false
}

impl ArchiveInspector {
    /// A fresh inspection.
    pub fn new() -> (ins: Self)
        ensures
            seen_names(ins) == Seq::<Seq<char>>::empty(),
            ins.manifest_bytes is None,
            ins.image_archive is None,
            inspector_wf(ins),
    {
        let ins = ArchiveInspector { seen: Vec::new(), manifest_bytes: None, image_archive: None };
        assert(seen_names(ins) =~= Seq::<Seq<char>>::empty());
        ins
    }

    /// Decides what to do with the next entry; a valid new name is remembered.
    pub fn plan_entry(&mut self, header: &TarEntryHeader) -> (p: EntryPlan)
        requires
            inspector_wf(*old(self)),
        ensures
            p@ == entry_plan(seen_names(*old(self)), *header),
            seen_names(*final(self)) == match valid_name(*header) {
                Some(n) => if seen_names(*old(self)).contains(n) {
                    seen_names(*old(self))
                } else {
                    seen_names(*old(self)).push(n)
                },
                None => seen_names(*old(self)),
            },
            final(self).manifest_bytes == old(self).manifest_bytes,
            final(self).image_archive == old(self).image_archive,
            inspector_wf(*final(self)),
    {
        let name = match normalize_entry_path(&header.path, header.path_display.as_str()) {
            Err(i) => return EntryPlan::Reject(i),
            Ok(n) => n,
        };
        if contains_name(&self.seen, &name) {
            let mut m = String::from_str("duplicate archive entry `");
            m.append(name.as_str());
            m.append("` is not allowed");
            return EntryPlan::Reject(ValidationIssue::with_message("archive.duplicate_entry", m));
        }
        let ghost before = seen_names(*self);
        self.seen.push(name.clone());
        assert(seen_names(*self) =~= before.push(name@));
        proof {
            assert forall|x: Seq<char>| before.contains(x) implies seen_names(*self).contains(x) by {
                let k = choose|k: int| 0 <= k < before.len() && before[k] == x;
                assert(seen_names(*self)[k] == x);
            }
        }
        match &header.kind {
            TarEntryKind::Other(k) => EntryPlan::Reject(unsafe_type_issue_of(&name, k)),
            TarEntryKind::Regular => match &header.size {
                Err(e) => {
                    let mut m = String::from_str("archive entry `");
                    m.append(name.as_str());
                    m.append("` has an invalid size: ");
                    m.append(e.as_str());
                    EntryPlan::Reject(ValidationIssue::with_message("archive.invalid_entry_size", m))
                },
                Ok(size) => {
                    let size = *size;
                    if text_eq(name.as_str(), "manifest.toml") {
                        if size > MAX_MANIFEST_SIZE_BYTES {
                            let mut m = String::from_str("manifest.toml is too large (");
                            m.append(decimal_string(size).as_str());
                            m.append(" bytes); max supported size is ");
                            m.append(decimal_string(MAX_MANIFEST_SIZE_BYTES).as_str());
                            m.append(" bytes");
                            EntryPlan::Reject(ValidationIssue::with_message("manifest.too_large", m))
                        } else {
                            EntryPlan::ReadManifest
                        }
                    } else if text_eq(name.as_str(), "image.tar") {
                        if size == 0 {
                            EntryPlan::Reject(ValidationIssue::new("image.empty_archive", "image.tar must not be empty"))
                        } else {
                            EntryPlan::DrainImage { name, size }
                        }
                    } else {
                        EntryPlan::DrainOther { name }
                    }
                },
            },
        }
    }

    /// Takes the bytes read from `manifest.toml` (after a `ReadManifest` plan);
    /// a read failure rejects the package.
    pub fn manifest_read(&mut self, read: Result<Vec<u8>, String>) -> (r: Option<ValidationIssue>)
        requires
            inspector_wf(*old(self)),
            seen_names(*old(self)).contains("manifest.toml"@),
        ensures
            match read {
                Ok(bytes) => r is None && final(self).manifest_bytes == Some(bytes),
                Err(e) => r matches Some(i) && i@ == issue("manifest.read_failed"@, "failed to read manifest.toml: "@ + e@)
                    && final(self).manifest_bytes == old(self).manifest_bytes,
            },
            final(self).seen == old(self).seen,
            final(self).image_archive == old(self).image_archive,
            inspector_wf(*final(self)),
    {
        match read {
            Ok(bytes) => {
                self.manifest_bytes = Some(bytes);
                None
            },
            Err(e) => {
                let mut m = String::from_str("failed to read manifest.toml: ");
                m.append(e.as_str());
                Some(ValidationIssue::with_message("manifest.read_failed", m))
            },
        }
    }

    /// Takes the outcome of reading through `image.tar` (after a `DrainImage`
    /// plan); success records the image entry, a failure rejects the package.
    pub fn image_drained(&mut self, name: String, size: u64, read: Result<(), String>) -> (r: Option<ValidationIssue>)
        requires
            inspector_wf(*old(self)),
            seen_names(*old(self)).contains("image.tar"@),
            name@ == "image.tar"@,
            size > 0,
        ensures
            match read {
                Ok(()) => r is None && final(self).image_archive == Some(ImageArchiveMetadata { entry_name: name, size_bytes: size }),
                Err(e) => r matches Some(i) && i@ == issue("image.read_failed"@, "failed to read image.tar entry: "@ + e@)
                    && final(self).image_archive == old(self).image_archive,
            },
            final(self).seen == old(self).seen,
            final(self).manifest_bytes == old(self).manifest_bytes,
            inspector_wf(*final(self)),
    {
        match read {
            Ok(()) => {
                self.image_archive = Some(ImageArchiveMetadata { entry_name: name, size_bytes: size });
                None
            },
            Err(e) => {
                let mut m = String::from_str("failed to read image.tar entry: ");
                m.append(e.as_str());
                Some(ValidationIssue::with_message("image.read_failed", m))
            },
        }
    }

    /// The issue, if any, for reading through another entry (after a `DrainOther` plan).
    pub fn other_drained(name: &String, read: Result<(), String>) -> (r: Option<ValidationIssue>)
        ensures
            match read {
                Ok(()) => r is None,
                Err(e) => r matches Some(i) && i@ == issue(
                    "archive.entry_read_failed"@,
                    "failed to read archive entry `"@ + name@ + "`: "@ + e@,
                ),
            },
    {
        match read {
            Ok(()) => None,
            Err(e) => {
                let mut m = String::from_str("failed to read archive entry `");
                m.append(name.as_str());
                m.append("`: ");
                m.append(e.as_str());
                Some(ValidationIssue::with_message("archive.entry_read_failed", m))
            },
        }
    }

    /// Ends the inspection once every entry was read: both required entries
    /// must have been found.
    pub fn finish(self) -> (r: Result<ArchiveInspection, ValidationIssue>)
        requires
            inspector_wf(self),
        ensures
            match (self.manifest_bytes, self.image_archive) {
                (None, _) => r matches Err(i) && i@ == issue("archive.missing_manifest"@, "archive is missing required entry `manifest.toml`"@),
                (Some(_), None) => r matches Err(i) && i@ == issue("archive.missing_image"@, "archive is missing required entry `image.tar`"@),
                (Some(b), Some(a)) => r == Ok::<ArchiveInspection, ValidationIssue>(ArchiveInspection { manifest_bytes: b, image_archive: a }),
            },
            r matches Ok(ins) ==> ins.image_archive.entry_name@ == "image.tar"@ && ins.image_archive.size_bytes > 0,
    {
        match (self.manifest_bytes, self.image_archive) {
            (None, _) => Err(ValidationIssue::new("archive.missing_manifest", "archive is missing required entry `manifest.toml`")),
            (Some(_), None) => Err(ValidationIssue::new("archive.missing_image", "archive is missing required entry `image.tar`")),
            (Some(b), Some(a)) => Ok(ArchiveInspection { manifest_bytes: b, image_archive: a }),
        }
    }
}

/// The issue when the archive cannot be opened as a tar stream.
pub fn archive_read_failed(error: &str) -> (i: ValidationIssue)
    ensures
        i@ == issue("archive.read_failed"@, "failed to read tar archive: "@ + error@),
{
    let mut m = String::from_str("failed to read tar archive: ");
    m.append(error);
    ValidationIssue::with_message("archive.read_failed", m)
}

/// The issue when the next entry cannot be read.
pub fn entry_read_failed(error: &str) -> (i: ValidationIssue)
    ensures
        i@ == issue("archive.entry_read_failed"@, "failed to read tar entry: "@ + error@),
{
    let mut m = String::from_str("failed to read tar entry: ");
    m.append(error);
    ValidationIssue::with_message("archive.entry_read_failed", m)
}

/// Errors produced while accessing `image.tar` from a staged package.
#[derive(Debug, PartialEq, Eq)]
pub enum ImageArchiveAccessError {
    Issue(ValidationIssue),
    Io(String),
}

impl ImageArchiveAccessError {
    /// Renders the error: the issue as `[code] message`, or the I/O failure.
    pub fn message(&self) -> (s: String)
        ensures
            match self {
                ImageArchiveAccessError::Issue(i) => s@ == seq!['['] + i.code@ + seq![']', ' '] + i.message@,
                ImageArchiveAccessError::Io(e) => s@ == "failed to access staged package archive: "@ + e@,
            },
    {
        match self {
            ImageArchiveAccessError::Issue(i) => i.text(),
            ImageArchiveAccessError::Io(e) => {
                let mut s = String::from_str("failed to access staged package archive: ");
                s.append(e.as_str());
                s
            },
        }
    }
}

/// What to do with one entry while looking for `image.tar` in a staged package.
#[derive(Debug, PartialEq, Eq)]
pub enum ImageEntryPlan {
    /// Stop with this error.
    Fail(ImageArchiveAccessError),
    /// Read through the entry and go on to the next one.
    Skip,
    /// This is `image.tar`: copy it out.
    Extract,
}

/// Decides what to do with one entry when extracting `image.tar`: entries
/// must have valid root paths and be regular files; `image.tar` must have a
/// readable, non-zero size.
pub fn plan_image_entry(header: &TarEntryHeader) -> (p: ImageEntryPlan)
    ensures
        match entry_name_of(header.path, header.path_display@) {
            Err(i) => p matches ImageEntryPlan::Fail(ImageArchiveAccessError::Issue(j)) && j@ == i,
            Ok(name) => match header.kind {
                TarEntryKind::Other(k) => p matches ImageEntryPlan::Fail(ImageArchiveAccessError::Issue(j)) && j@ == unsafe_type_issue(name, k@),
                TarEntryKind::Regular => if name != "image.tar"@ {
                    p == ImageEntryPlan::Skip
                } else {
                    match header.size {
                        Err(e) => p matches ImageEntryPlan::Fail(ImageArchiveAccessError::Issue(j)) && j@ == issue(
                            "archive.invalid_entry_size"@,
                            "archive entry `image.tar` has an invalid size: "@ + e@,
                        ),
                        Ok(size) => if size == 0 {
                            p matches ImageEntryPlan::Fail(ImageArchiveAccessError::Issue(j)) && j@ == issue("image.empty_archive"@, "image.tar must not be empty"@)
                        } else {
                            p == ImageEntryPlan::Extract
                        },
                    }
                },
            },
        },
{
    let name = match normalize_entry_path(&header.path, header.path_display.as_str()) {
        Err(i) => return ImageEntryPlan::Fail(ImageArchiveAccessError::Issue(i)),
        Ok(n) => n,
    };
    match &header.kind {
        TarEntryKind::Other(k) => ImageEntryPlan::Fail(ImageArchiveAccessError::Issue(unsafe_type_issue_of(&name, k))),
        TarEntryKind::Regular => {
            if !text_eq(name.as_str(), "image.tar") {
                return ImageEntryPlan::Skip;
            }
            match &header.size {
                Err(e) => {
                    let mut m = String::from_str("archive entry `image.tar` has an invalid size: ");
                    m.append(e.as_str());
                    ImageEntryPlan::Fail(ImageArchiveAccessError::Issue(ValidationIssue::with_message("archive.invalid_entry_size", m)))
                },
                Ok(size) => {
                    if *size == 0 {
                        ImageEntryPlan::Fail(ImageArchiveAccessError::Issue(ValidationIssue::new("image.empty_archive", "image.tar must not be empty")))
                    } else {
                        ImageEntryPlan::Extract
                    }
                },
            }
        },
    }
}

/// The error when a staged package holds no `image.tar`.
pub fn missing_image_error() -> (e: ImageArchiveAccessError)
    ensures
        e matches ImageArchiveAccessError::Issue(i) && i@ == issue("archive.missing_image"@, "archive is missing required entry `image.tar`"@),
{
    ImageArchiveAccessError::Issue(ValidationIssue::new("archive.missing_image", "archive is missing required entry `image.tar`"))
}

} // verus!
