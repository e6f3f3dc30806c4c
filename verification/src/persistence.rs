//! The layout of the local state directory.
//!
//! Records are stored as JSON files under fixed subdirectories of one root;
//! the audit log is a JSON-lines file. This module decides where everything
//! goes; reading and writing the files happens around it.

use vstd::prelude::*;
use crate::ids::{uuid_hyphenated_string, uuid_hyphenated_text};
use crate::text::{chars_of, push_char, string_views};

verus! {

/// Errors produced by filesystem persistence.
#[derive(Debug, PartialEq, Eq)]
pub enum PersistenceError {
    CreateDir { path: String, message: String },
    OpenFile { path: String, message: String },
    WriteFile { path: String, message: String },
    Serialize(String),
}

/// The text of a persistence error, as shown to operators.
pub open spec fn persistence_error_text(e: PersistenceError) -> Seq<char> {
    match e {
        PersistenceError::CreateDir { path, message } => "failed to create directory `"@ + path@ + "`: "@ + message@,
        PersistenceError::OpenFile { path, message } => "failed to open file `"@ + path@ + "`: "@ + message@,
        PersistenceError::WriteFile { path, message } => "failed to write file `"@ + path@ + "`: "@ + message@,
        PersistenceError::Serialize(m) => "failed to serialize persistent state: "@ + m@,
    }
}

impl PersistenceError {
    /// Renders the error for operators.
    pub fn message(&self) -> (s: String)
        ensures
            s@ == persistence_error_text(*self),
    {
        match self {
            PersistenceError::Serialize(m) => {
                let mut s = String::from_str("failed to serialize persistent state: ");
                s.append(m.as_str());
                s
            },
            PersistenceError::CreateDir { path, message } => {
                let mut s = String::from_str("failed to create directory `");
                s.append(path.as_str());
                s.append("`: ");
                s.append(message.as_str());
                s
            },
            PersistenceError::OpenFile { path, message } => {
                let mut s = String::from_str("failed to open file `");
                s.append(path.as_str());
                s.append("`: ");
                s.append(message.as_str());
                s
            },
            PersistenceError::WriteFile { path, message } => {
                let mut s = String::from_str("failed to write file `");
                s.append(path.as_str());
                s.append("`: ");
                s.append(message.as_str());
                s
            },
        }
    }
}

/// Appending a relative component to a path, as `Path::join` does on Unix:
/// a separator is added unless the base is empty or already ends with one.
pub open spec fn join_path(base: Seq<char>, part: Seq<char>) -> Seq<char> {
    if base.len() == 0 {
        part
    } else if base.last() == '/' {
        base + part
    } else {
        base + seq!['/'] + part
    }
}

/// Joins a relative component onto a path.
pub fn path_join(base: &str, part: &str) -> (s: String)
    ensures
        s@ == join_path(base@, part@),
{
    let b = chars_of(base);
    let mut s = String::from_str(base);
    if b.len() != 0 && b[b.len() - 1] != '/' {
        push_char(&mut s, '/');
    }
    s.append(part);
    s
}

/// The characters kept as they are in file names derived from service names.
pub open spec fn is_safe_path_char(c: char) -> bool {
    ('a' <= c && c <= 'z') || ('A' <= c && c <= 'Z') || ('0' <= c && c <= '9') || c == '-' || c == '_' || c == '.'
}

/// A name with every character outside `[A-Za-z0-9._-]` replaced by `_`.
pub open spec fn sanitized(s: Seq<char>) -> Seq<char> {
    s.map_values(|c: char| if is_safe_path_char(c) { c } else { '_' })
}

/// Makes a name safe to use as one file-name component.
pub fn sanitize_path_component(value: &str) -> (s: String)
    ensures
        s@ == sanitized(value@),
{
    let v = chars_of(value);
    let mut s = String::new();
    let mut i: usize = 0;
    while i < v.len()
        invariant
            v@ == value@,
            i <= v@.len(),
            s@ == sanitized(v@.take(i as int)),
        decreases v.len() - i,
    {
        let c = v[i];
        let safe = ('a' <= c && c <= 'z') || ('A' <= c && c <= 'Z') || ('0' <= c && c <= '9') || c == '-' || c == '_' || c == '.';
        push_char(&mut s, if safe { c } else { '_' });
        assert(sanitized(v@.take(i + 1)) =~= sanitized(v@.take(i as int)).push(if safe { c } else { '_' }));
        i = i + 1;
    }
    assert(v@.take(v@.len() as int) =~= v@);
    s
}

/// Sanitizing keeps the length, leaves only safe characters, and changes
/// nothing the second time.
pub proof fn law_sanitize_is_idempotent(s: Seq<char>)
    ensures
        sanitized(s).len() == s.len(),
        forall|i: int| 0 <= i < s.len() ==> is_safe_path_char(#[trigger] sanitized(s)[i]),
        sanitized(sanitized(s)) == sanitized(s),
{
    assert(sanitized(sanitized(s)) =~= sanitized(s));
}

/// Filesystem local state store: where records live under one root.
#[derive(Debug, PartialEq, Eq)]
pub struct FilesystemStore {
    root: String,
}

/// `{root}/{dir}/{id}.json`.
pub open spec fn id_record_path(root: Seq<char>, dir: Seq<char>, id: u128) -> Seq<char> {
    join_path(join_path(root, dir), uuid_hyphenated_text(id) + ".json"@)
}

impl FilesystemStore {
    /// The store's root as a plain value.
    pub closed spec fn root_text(&self) -> Seq<char> {
        self.root@
    }

    /// Creates a store rooted at the provided directory.
    pub fn new(root: String) -> (s: Self)
        ensures
            s.root_text() == root@,
    {
        FilesystemStore { root }
    }

    /// Returns the configured store root.
    pub fn root(&self) -> (r: &str)
        ensures
            r@ == self.root_text(),
    {
        self.root.as_str()
    }

    fn id_path(&self, dir: &str, id: u128) -> (p: String)
        ensures
            p@ == id_record_path(self.root_text(), dir@, id),
    {
        let d = path_join(self.root.as_str(), dir);
        let mut name = uuid_hyphenated_string(id);
        name.append(".json");
        path_join(d.as_str(), name.as_str())
    }

    /// The directory a validation attempt stages its package in: `{root}/staging/{id}`.
    pub fn staging_dir_for(&self, attempt_id: u128) -> (p: String)
        ensures
            p@ == join_path(join_path(self.root_text(), "staging"@), uuid_hyphenated_text(attempt_id)),
    {
        let d = path_join(self.root.as_str(), "staging");
        path_join(d.as_str(), uuid_hyphenated_string(attempt_id).as_str())
    }

    /// Where a validation attempt keeps its copy of the package:
    /// `{root}/staging/{id}/package.edgepkg`.
    pub fn staged_package_path(&self, attempt_id: u128) -> (p: String)
        ensures
            p@ == join_path(
                join_path(join_path(self.root_text(), "staging"@), uuid_hyphenated_text(attempt_id)),
                "package.edgepkg"@,
            ),
    {
        let d = self.staging_dir_for(attempt_id);
        path_join(d.as_str(), "package.edgepkg")
    }

    /// Where a validation record is stored.
    pub fn validation_record_path(&self, attempt_id: u128) -> (p: String)
        ensures
            p@ == id_record_path(self.root_text(), "validation-records"@, attempt_id),
    {
        self.id_path("validation-records", attempt_id)
    }

    /// Where an image-import record is stored.
    pub fn image_import_record_path(&self, import_id: u128) -> (p: String)
        ensures
            p@ == id_record_path(self.root_text(), "image-import-records"@, import_id),
    {
        self.id_path("image-import-records", import_id)
    }

    /// Where a candidate release record is stored.
    pub fn candidate_release_path(&self, candidate_release_id: u128) -> (p: String)
        ensures
            p@ == id_record_path(self.root_text(), "candidate-releases"@, candidate_release_id),
    {
        self.id_path("candidate-releases", candidate_release_id)
    }

    /// Where an update attempt is stored.
    pub fn update_attempt_path(&self, update_id: u128) -> (p: String)
        ensures
            p@ == id_record_path(self.root_text(), "update-attempts"@, update_id),
    {
        self.id_path("update-attempts", update_id)
    }

    /// Where a service's state record is stored: `{root}/service-states/{sanitized name}.json`.
    pub fn service_state_path(&self, service_name: &str) -> (p: String)
        ensures
            p@ == join_path(join_path(self.root_text(), "service-states"@), sanitized(service_name@) + ".json"@),
    {
        let d = path_join(self.root.as_str(), "service-states");
        let mut name = sanitize_path_component(service_name);
        name.append(".json");
        path_join(d.as_str(), name.as_str())
    }

    /// Where the audit log is: `{root}/audit/events.jsonl`.
    pub fn audit_log_path(&self) -> (p: String)
        ensures
            p@ == join_path(join_path(self.root_text(), "audit"@), "events.jsonl"@),
    {
        let d = path_join(self.root.as_str(), "audit");
        path_join(d.as_str(), "events.jsonl")
    }

    /// The directories the store keeps, root first.
    pub fn layout_dirs(&self) -> (dirs: Vec<String>)
        ensures
            dirs@.len() == 8,
            dirs@[0]@ == self.root_text(),
            dirs@[1]@ == join_path(self.root_text(), "staging"@),
            dirs@[2]@ == join_path(self.root_text(), "validation-records"@),
            dirs@[3]@ == join_path(self.root_text(), "image-import-records"@),
            dirs@[4]@ == join_path(self.root_text(), "candidate-releases"@),
            dirs@[5]@ == join_path(self.root_text(), "service-states"@),
            dirs@[6]@ == join_path(self.root_text(), "update-attempts"@),
            dirs@[7]@ == join_path(self.root_text(), "audit"@),
    {
        let mut dirs: Vec<String> = Vec::new();
        dirs.push(self.root.clone());
        dirs.push(path_join(self.root.as_str(), "staging"));
        dirs.push(path_join(self.root.as_str(), "validation-records"));
        dirs.push(path_join(self.root.as_str(), "image-import-records"));
        dirs.push(path_join(self.root.as_str(), "candidate-releases"));
        dirs.push(path_join(self.root.as_str(), "service-states"));
        dirs.push(path_join(self.root.as_str(), "update-attempts"));
        dirs.push(path_join(self.root.as_str(), "audit"));
        dirs
    }
}

impl Clone for FilesystemStore {
    fn clone(&self) -> (r: Self)
        ensures
            r == *self,
    {
        FilesystemStore { root: self.root.clone() }
    }
}

// ---------------------------------------------------------------------------
// Cleanup of leftover package workspaces.
// ---------------------------------------------------------------------------

/// Whether a path lies strictly inside a directory: the directory, a `/`,
/// then more.
pub open spec fn is_under(path: Seq<char>, dir: Seq<char>) -> bool {
    &&& path.len() > dir.len() + 1
    &&& path.subrange(0, dir.len() as int) == dir
    &&& path[dir.len() as int] == '/'
}

/// Whether a directory entry's name is one plain path component: not empty,
/// not `.` or `..`, and without `/`.
pub open spec fn is_plain_component(name: Seq<char>) -> bool {
    &&& name.len() > 0
    &&& name != "."@
    &&& name != ".."@
    &&& !name.contains('/')
}

/// The staging area, where validation attempts keep their package workspaces.
pub open spec fn staging_area(root: Seq<char>) -> Seq<char> {
    join_path(root, "staging"@)
}

/// The paths a cleanup removes, given the names of the entries of the staging
/// area, in order: one per entry whose name is a plain component.
pub open spec fn cleanup_paths(root: Seq<char>, names: Seq<Seq<char>>) -> Seq<Seq<char>>
    decreases names.len(),
{
    if names.len() == 0 {
        Seq::empty()
    } else {
        let rest = cleanup_paths(root, names.drop_last());
        if is_plain_component(names.last()) {
            rest.push(join_path(staging_area(root), names.last()))
        } else {
            rest
        }
    }
}

fn is_plain_name(name: &str) -> (b: bool)
    ensures
        b == is_plain_component(name@),
{
    let v = chars_of(name);
    if v.len() == 0 {
        return false;
    }
    proof {
        reveal_strlit(".");
        reveal_strlit("..");
    }
    if v.len() == 1 && v[0] == '.' {
        assert(name@ =~= "."@);
        return false;
    }
    if v.len() == 2 && v[0] == '.' && v[1] == '.' {
        assert(name@ =~= ".."@);
        return false;
    }
    let mut i: usize = 0;
    while i < v.len()
        invariant
            v@ == name@,
            i <= v@.len(),
            forall|k: int| 0 <= k < i ==> v@[k] != '/',
        decreases v.len() - i,
    {
        if v[i] == '/' {
            assert(name@.contains('/')) by { assert(name@[i as int] == '/'); }
            return false;
        }
        i = i + 1;
    }
    assert(name@ != "."@) by { if v@.len() == 1 { assert(v@[0] != '.' || name@ =~= "."@); } }
    assert(!name@.contains('/'));
    true
}

impl FilesystemStore {
    /// The leftover package workspaces to remove, given the names of the
    /// entries of the staging area: `{root}/staging/{name}` for each entry
    /// whose name is a plain component, in order. Nothing else of the state
    /// directory is ever chosen (see [`law_cleanup_stays_in_staging`]).
    pub fn cleanup_targets(&self, staging_entries: &Vec<String>) -> (paths: Vec<String>)
        ensures
            string_views(paths@) == cleanup_paths(self.root_text(), string_views(staging_entries@)),
    {
        let area = path_join(self.root.as_str(), "staging");
        let mut paths: Vec<String> = Vec::new();
        let mut i: usize = 0;
        while i < staging_entries.len()
            invariant
                i <= staging_entries@.len(),
                area@ == staging_area(self.root_text()),
                string_views(paths@) == cleanup_paths(self.root_text(), string_views(staging_entries@).take(i as int)),
            decreases staging_entries.len() - i,
        {
            let name = &staging_entries[i];
            let ghost before = paths@;
            assert(string_views(staging_entries@).take(i + 1).drop_last() =~= string_views(staging_entries@).take(i as int));
            assert(string_views(staging_entries@).take(i + 1).last() == name@);
            if is_plain_name(name.as_str()) {
                paths.push(path_join(area.as_str(), name.as_str()));
                assert(string_views(paths@) =~= string_views(before).push(join_path(area@, name@)));
            }
            i = i + 1;
        }
        assert(string_views(staging_entries@).take(staging_entries@.len() as int) =~= string_views(staging_entries@));
        paths
    }
}

/// What `join_path` puts before the part it joins onto `base`.
pub open spec fn join_prefix(base: Seq<char>) -> Seq<char> {
    if base.len() == 0 {
        base
    } else if base.last() == '/' {
        base
    } else {
        base + seq!['/']
    }
}

proof fn lemma_join_path_prefix(base: Seq<char>, part: Seq<char>)
    ensures
        join_path(base, part) == join_prefix(base) + part,
{
    assert(join_path(base, part) =~= join_prefix(base) + part);
}

/// A workspace path is the staging area's prefix, `staging/`, then the name.
proof fn lemma_workspace_path_shape(root: Seq<char>, name: Seq<char>)
    ensures
        join_path(staging_area(root), name) == join_prefix(root) + "staging"@ + seq!['/'] + name,
        staging_area(root) == join_prefix(root) + "staging"@,
{
    reveal_strlit("staging");
    lemma_join_path_prefix(root, "staging"@);
    let a = join_prefix(root) + "staging"@;
    assert(a.last() == 'g');
    assert(join_path(a, name) =~= join_prefix(root) + "staging"@ + seq!['/'] + name);
}

/// A workspace path is not inside `{root}/{dir}` when `dir` differs from
/// `staging` at a position within both.
proof fn lemma_workspace_not_under(root: Seq<char>, name: Seq<char>, dir: Seq<char>, k: int)
    requires
        0 <= k < dir.len(),
        k < 7,
        "staging"@.len() == 7,
        "staging"@[k] != dir[k],
    ensures
        !is_under(join_path(staging_area(root), name), join_path(root, dir)),
{
    lemma_workspace_path_shape(root, name);
    lemma_join_path_prefix(root, dir);
    let p = join_path(staging_area(root), name);
    let pre = join_prefix(root);
    if is_under(p, join_path(root, dir)) {
        let d = pre + dir;
        assert(p.subrange(0, d.len() as int)[pre.len() + k] == d[pre.len() + k]);
        assert(p[pre.len() + k] == "staging"@[k]);
    }
}

/// A cleanup removes only package workspaces: every path it chooses is an
/// entry of the staging area named by one plain component, so it lies inside
/// the staging area, and never inside the audit log's directory, the
/// validation, import, candidate-release or update-attempt records, or the
/// service states.
pub proof fn law_cleanup_stays_in_staging(root: Seq<char>, names: Seq<Seq<char>>, i: int)
    requires
        0 <= i < cleanup_paths(root, names).len(),
    ensures
        ({
            let p = cleanup_paths(root, names)[i];
            &&& exists|name: Seq<char>| is_plain_component(name) && names.contains(name)
                && p == join_path(staging_area(root), name)
            &&& is_under(p, staging_area(root))
            &&& !is_under(p, join_path(root, "audit"@))
            &&& !is_under(p, join_path(root, "validation-records"@))
            &&& !is_under(p, join_path(root, "image-import-records"@))
            &&& !is_under(p, join_path(root, "candidate-releases"@))
            &&& !is_under(p, join_path(root, "update-attempts"@))
            &&& !is_under(p, join_path(root, "service-states"@))
        }),
    decreases names.len(),
{
    let rest = cleanup_paths(root, names.drop_last());
    if i < rest.len() {
        law_cleanup_stays_in_staging(root, names.drop_last(), i);
        let name = choose|name: Seq<char>| is_plain_component(name) && names.drop_last().contains(name)
            && rest[i] == join_path(staging_area(root), name);
        let j = choose|j: int| 0 <= j < names.drop_last().len() && names.drop_last()[j] == name;
        assert(names[j] == name);
        assert(cleanup_paths(root, names)[i] == rest[i]);
    } else {
        let name = names.last();
        assert(is_plain_component(name));
        assert(names[names.len() - 1] == name);
        let p = join_path(staging_area(root), name);
        assert(cleanup_paths(root, names)[i] == p);
        lemma_workspace_path_shape(root, name);
        let a = staging_area(root);
        assert(p.subrange(0, a.len() as int) =~= a);
        assert(p[a.len() as int] == '/');
        reveal_strlit("staging");
        reveal_strlit("audit");
        reveal_strlit("validation-records");
        reveal_strlit("image-import-records");
        reveal_strlit("candidate-releases");
        reveal_strlit("update-attempts");
        reveal_strlit("service-states");
        lemma_workspace_not_under(root, name, "audit"@, 0);
        lemma_workspace_not_under(root, name, "validation-records"@, 0);
        lemma_workspace_not_under(root, name, "image-import-records"@, 0);
        lemma_workspace_not_under(root, name, "candidate-releases"@, 0);
        lemma_workspace_not_under(root, name, "update-attempts"@, 0);
        lemma_workspace_not_under(root, name, "service-states"@, 1);
    }
}

} // verus!
