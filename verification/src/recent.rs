//! Reading VS Code's recent-project list (`history.recentlyOpenedPathsList`).
//!
//! Both the current shape (`{"entries": [...]}`) and the legacy shape (a bare
//! array) are read. Folders, workspaces and remote projects are kept; plain
//! files are not.

use vstd::prelude::*;

use crate::format::{fingerprint, fingerprint_of};
use crate::json::{parse_json, spec_as_str, spec_get, spec_get_str, spec_json_text, JsonValue};
use crate::model::{ProjectId, ProjectKind, ProjectTarget, ProviderId, RecentProject};
use crate::paths::{file_name, file_stem_of, path_file_name, stem_of, PlatformKind};
use crate::ranking::{
    deduplicate_with_policy, path_prefix, policy_of, spec_deduplicate, spec_target_key,
    target_key_with_policy, TargetIdentityPolicy,
};
use crate::text::{
    ascii_lower, ascii_lower_chars, chars_eq, chars_of, ends_with, is_prefix, is_suffix, owned,
    push_str, replace_char, replace_chars, spec_to_lowercase, string_from, string_of, to_lowercase,
    trim, trim_str,
};
use crate::urls::{
    absolute_path_answer, file_path_of, is_absolute_path, opt_view, platform_absolute, platform_file_path,
    spec_url_host, spec_url_parse, spec_url_path, spec_url_scheme, url_host, url_parse, url_path,
    url_scheme,
};

verus! {

/// The database key under which VS Code stores its recent list.
pub const RECENT_KEY: &'static str = "history.recentlyOpenedPathsList";

/// Why a recent-list value cannot be read.
#[derive(Debug, Clone, PartialEq, Eq)]
pub enum RecentFormatError {
    /// The value is not JSON.
    Json(String),
    /// The value is JSON of another shape.
    UnsupportedRoot,
}

/// The sentence describing a format error.
pub open spec fn format_error_text(e: RecentFormatError) -> Seq<char> {
    match e {
        RecentFormatError::Json(m) => "recent value is invalid JSON: "@ + m@,
        RecentFormatError::UnsupportedRoot => "recent value has an unsupported root shape"@,
    }
}

impl RecentFormatError {
    /// The error as a sentence.
    pub fn message(&self) -> (r: String)
        ensures
            r@ == format_error_text(*self),
    {
        match self {
            RecentFormatError::Json(m) => {
                let mut r = owned("recent value is invalid JSON: ");
                push_str(&mut r, m.as_str());
                r
            },
            RecentFormatError::UnsupportedRoot => owned("recent value has an unsupported root shape"),
        }
    }
}

// ---------------------------------------------------------------------------
// Specification
// ---------------------------------------------------------------------------

/// A project as plain values: id, provider, kind, whether the target is a
/// URI, the target text, name, detail and recent index.
pub open spec fn project_view(p: RecentProject) -> (
    Seq<char>,
    Seq<char>,
    ProjectKind,
    bool,
    Seq<char>,
    Seq<char>,
    Seq<char>,
    u32,
) {
    (
        p.id.0@,
        p.provider.0@,
        p.kind,
        p.target is Uri,
        match p.target {
            ProjectTarget::LocalPath(t) => t@,
            ProjectTarget::Uri(t) => t@,
        },
        p.name@,
        p.detail@,
        p.recent_index,
    )
}

/// The URI a recent-list value names: a string as it is, an object's
/// `external` text, or the URL assembled from `scheme`, `authority` and
/// `path` (or `fsPath`) when it parses.
pub open spec fn spec_uri_from_value(v: JsonValue) -> Option<Seq<char>> {
    match spec_as_str(v) {
        Some(s) => Some(s),
        None => if !(v is Object) {
            None
        } else {
            match spec_get_str(v, "external"@) {
                Some(e) => Some(e),
                None => match spec_get_str(v, "scheme"@) {
                    None => None,
                    Some(scheme) => {
                        let authority = match spec_get_str(v, "authority"@) {
                            Some(a) => a,
                            None => Seq::empty(),
                        };
                        let raw_path = match spec_get(v, "path"@) {
                            Some(p) => spec_as_str(p),
                            None => spec_get_str(v, "fsPath"@),
                        };
                        let path = match raw_path {
                            Some(p) => replace_char(p, '\\', '/'),
                            None => Seq::empty(),
                        };
                        spec_url_parse(scheme + "://"@ + authority + path)
                    },
                },
            }
        },
    }
}

pub open spec fn workspace_suffix() -> Seq<char> {
    ".code-workspace"@
}

/// Whether a target names a `.code-workspace` file (its URL path, or the text
/// itself when it is not a URL, compared in lower case).
pub open spec fn spec_is_workspace_target(value: Seq<char>) -> bool {
    match spec_url_path(value) {
        Some(path) => is_suffix(workspace_suffix(), spec_to_lowercase(path)),
        None => is_suffix(workspace_suffix(), spec_to_lowercase(value)),
    }
}

pub open spec fn uri_of_member(entry: JsonValue, key: Seq<char>) -> Option<Seq<char>> {
    match spec_get(entry, key) {
        Some(v) => spec_uri_from_value(v),
        None => None,
    }
}

/// The kind and raw target of an entry: `folderUri`, then `workspace` (its
/// `configPath`, `uri`, or itself), then `workspaceUri`, then a `fileUri`
/// naming a workspace file.
pub open spec fn spec_entry_target(entry: JsonValue) -> Option<(ProjectKind, Seq<char>)> {
    if !(entry is Object) {
        None
    } else if spec_get(entry, "folderUri"@) is Some {
        match uri_of_member(entry, "folderUri"@) {
            Some(t) => Some((ProjectKind::Folder, t)),
            None => None,
        }
    } else if spec_get(entry, "workspace"@) is Some {
        let w = spec_get(entry, "workspace"@)->0;
        let target = match uri_of_member(w, "configPath"@) {
            Some(t) => Some(t),
            None => match uri_of_member(w, "uri"@) {
                Some(t) => Some(t),
                None => spec_uri_from_value(w),
            },
        };
        match target {
            Some(t) => Some((ProjectKind::Workspace, t)),
            None => None,
        }
    } else if spec_get(entry, "workspaceUri"@) is Some {
        match uri_of_member(entry, "workspaceUri"@) {
            Some(t) => Some((ProjectKind::Workspace, t)),
            None => None,
        }
    } else if spec_get(entry, "fileUri"@) is Some {
        match uri_of_member(entry, "fileUri"@) {
            Some(t) => if spec_is_workspace_target(t) {
                Some((ProjectKind::Workspace, t))
            } else {
                None
            },
            None => None,
        }
    } else {
        None
    }
}

/// How a raw target is read.
pub enum TargetClass {
    /// A `file:` URL on this machine: its local path is the platform's reading of the URL.
    FileUrl,
    /// A `vscode-remote:` or `vscode:` URL, kept as its serialization.
    Remote,
    /// Not a URL: kept as a local path when the platform deems it absolute.
    NotUrl,
    /// Anything else: not a project.
    Rejected,
}

pub open spec fn localhost() -> Seq<char> {
    "localhost"@
}

/// How the raw target `value` is read.
pub open spec fn spec_target_class(value: Seq<char>) -> TargetClass {
    match spec_url_scheme(value) {
        None => TargetClass::NotUrl,
        Some(scheme) => if scheme == "file"@ {
            match spec_url_host(value) {
                Some(h) => if ascii_lower(h) != localhost() {
                    TargetClass::Rejected
                } else {
                    TargetClass::FileUrl
                },
                None => TargetClass::FileUrl,
            }
        } else if scheme == "vscode-remote"@ || scheme == "vscode"@ {
            TargetClass::Remote
        } else {
            TargetClass::Rejected
        },
    }
}

/// The project target of `value` as (is a URI, text). `local` is the
/// platform's answer for a local target: the path of a `file:` URL, or, for
/// a non-URL, whether the text is an absolute path (`Some` when it is).
pub open spec fn spec_project_target(value: Seq<char>, local: Option<Seq<char>>) -> Option<(bool, Seq<char>)> {
    match spec_target_class(value) {
        TargetClass::FileUrl => match local {
            Some(p) => Some((false, p)),
            None => None,
        },
        TargetClass::NotUrl => match local {
            Some(_) => Some((false, value)),
            None => None,
        },
        TargetClass::Remote => match spec_url_parse(value) {
            Some(u) => Some((true, u)),
            None => None,
        },
        TargetClass::Rejected => None,
    }
}

/// The text after the last `/`.
pub open spec fn after_last_slash(s: Seq<char>) -> Seq<char>
    decreases s.len(),
{
    if s.len() == 0 {
        s
    } else if s.last() == '/' {
        Seq::empty()
    } else {
        after_last_slash(s.drop_last()).push(s.last())
    }
}

/// The last segment of a URL's path (`path_segments().next_back()`); `None`
/// when the path does not start with `/`.
pub open spec fn spec_last_segment(uri: Seq<char>) -> Option<Seq<char>> {
    match spec_url_path(uri) {
        Some(path) => if path.len() > 0 && path[0] == '/' {
            Some(after_last_slash(path))
        } else {
            None
        },
        None => None,
    }
}

/// The name derived from a target: a folder's final component, a workspace
/// file's stem; empty names count as none.
pub open spec fn spec_target_name(kind: ProjectKind, is_uri: bool, target: Seq<char>) -> Option<Seq<char>> {
    let name = if !is_uri {
        match file_name(target) {
            Some(n) => if kind == ProjectKind::Folder {
                Some(n)
            } else {
                Some(file_stem_of(n))
            },
            None => None,
        }
    } else {
        match spec_last_segment(target) {
            Some(seg) => if kind == ProjectKind::Folder {
                Some(seg)
            } else if is_suffix(workspace_suffix(), seg) {
                Some(seg.subrange(0, seg.len() - workspace_suffix().len()))
            } else {
                Some(seg)
            },
            None => None,
        }
    };
    match name {
        Some(n) => if n.len() > 0 {
            Some(n)
        } else {
            None
        },
        None => None,
    }
}

pub open spec fn vscode_word() -> Seq<char> {
    "vscode"@
}

/// The identity key of a target given as (is a URI, text).
pub open spec fn view_key(is_uri: bool, target: Seq<char>, policy: TargetIdentityPolicy) -> Seq<char> {
    if is_uri {
        crate::ranking::uri_prefix() + crate::text::trim_end_char(target, '/')
    } else {
        path_prefix() + crate::ranking::normalized_path(target, policy)
    }
}

/// The project an entry describes, if any: its label (when not blank) or the
/// name derived from the target, its target text as detail, and an id made
/// from the fingerprint of its identity key.
pub open spec fn spec_entry_project(
    entry: JsonValue,
    recent_index: u32,
    policy: TargetIdentityPolicy,
    local: Option<Seq<char>>,
) -> Option<(Seq<char>, Seq<char>, ProjectKind, bool, Seq<char>, Seq<char>, Seq<char>, u32)> {
    match spec_entry_target(entry) {
        None => None,
        Some((kind, raw)) => match spec_project_target(raw, local) {
            None => None,
            Some((is_uri, target)) => match spec_target_name(kind, is_uri, target) {
                None => None,
                Some(fallback) => {
                    let name = match spec_get_str(entry, "label"@) {
                        Some(label) => if trim(label).len() > 0 {
                            label
                        } else {
                            fallback
                        },
                        None => fallback,
                    };
                    let key = view_key(is_uri, target, policy);
                    Some(
                        (
                            "vscode:"@ + fingerprint_of(key),
                            vscode_word(),
                            kind,
                            is_uri,
                            target,
                            name,
                            target,
                            recent_index,
                        ),
                    )
                },
            },
        },
    }
}

/// The entries of a recent-list value: `entries` of an object, or a bare array.
pub open spec fn spec_recent_entries(value: JsonValue) -> Option<Seq<JsonValue>> {
    match value {
        JsonValue::Object(_) => match spec_get(value, "entries"@) {
            Some(JsonValue::Array(items)) => Some(items@),
            _ => None,
        },
        JsonValue::Array(items) => Some(items@),
        _ => None,
    }
}

/// The answer for entry `i`; none past the answers given.
pub open spec fn answer_at(answers: Seq<Option<Seq<char>>>, i: int) -> Option<Seq<char>> {
    if 0 <= i < answers.len() {
        answers[i]
    } else {
        None
    }
}

/// Answers as plain values.
pub open spec fn answers_view(answers: Seq<Option<String>>) -> Seq<Option<Seq<char>>> {
    answers.map_values(
        |a: Option<String>|
            match a {
                Some(s) => Some(s@),
                None => None,
            },
    )
}

/// The projects of the first `n` entries, in entry order, each with its entry's position as recent index.
pub open spec fn spec_entry_projects(
    entries: Seq<JsonValue>,
    locals: Seq<Option<Seq<char>>>,
    policy: TargetIdentityPolicy,
    n: int,
) -> Seq<(Seq<char>, Seq<char>, ProjectKind, bool, Seq<char>, Seq<char>, Seq<char>, u32)>
    decreases n,
{
    if n <= 0 {
        Seq::empty()
    } else {
        let previous = spec_entry_projects(entries, locals, policy, n - 1);
        match spec_entry_project(entries[n - 1], (n - 1) as u32, policy, answer_at(locals, n - 1)) {
            Some(p) => previous.push(p),
            None => previous,
        }
    }
}

/// What the platform answered for an entry's target: for a `file:` URL, what
/// `url::Url::to_file_path` gave for it; for a non-URL, the text itself when
/// `std::path::Path::is_absolute` deemed it absolute; nothing otherwise.
pub open spec fn local_fits(entry: JsonValue, local: Option<Seq<char>>) -> bool {
    match spec_entry_target(entry) {
        Some((_, raw)) => match spec_target_class(raw) {
            TargetClass::FileUrl => platform_file_path(raw, local),
            TargetClass::NotUrl => absolute_path_answer(raw, local),
            _ => local is None,
        },
        None => local is None,
    }
}

/// `projects` is what the recent list `entries` reads as: for some answers
/// of the platform about local targets, the projects of the entries in entry
/// order, deduplicated under `policy`.
pub open spec fn reads_as(
    entries: Seq<JsonValue>,
    policy: TargetIdentityPolicy,
    projects: Seq<RecentProject>,
) -> bool {
    exists|locals: Seq<Option<Seq<char>>>, found: Seq<RecentProject>|
        #![trigger spec_entry_projects(entries, locals, policy, entries.len() as int), spec_deduplicate(found, policy)]
        locals.len() == entries.len()
        && (forall|j: int| 0 <= j < entries.len() ==> #[trigger] local_fits(entries[j], locals[j]))
        && found.map_values(|p: RecentProject| project_view(p)) == spec_entry_projects(
            entries,
            locals,
            policy,
            entries.len() as int,
        )
        && projects == spec_deduplicate(found, policy)
}

// ---------------------------------------------------------------------------
// Reading
// ---------------------------------------------------------------------------

fn concat3(a: &str, b: &str, c: &str) -> (r: String)
    ensures
        r@ == a@ + b@ + c@,
{
    let mut r = owned(a);
    push_str(&mut r, b);
    push_str(&mut r, c);
    r
}

/// The URI a recent-list value names.
pub fn uri_from_value(value: &JsonValue) -> (r: Option<String>)
    ensures
        match r {
            Some(s) => spec_uri_from_value(*value) == Some(s@),
            None => spec_uri_from_value(*value) is None,
        },
{
    if let Some(s) = value.as_str() {
        return Some(owned(s));
    }
    if !value.is_object() {
        return None;
    }
    if let Some(external) = value.get_str("external") {
        return Some(owned(external));
    }
    let scheme = match value.get_str("scheme") {
        Some(s) => s,
        None => return None,
    };
    let authority = match value.get_str("authority") {
        Some(a) => a,
        None => "",
    };
    let raw_path = match value.get("path") {
        Some(p) => p.as_str(),
        None => value.get_str("fsPath"),
    };
    let path = match raw_path {
        Some(p) => string_from(&replace_chars(&chars_of(p), '\\', '/')),
        None => String::new(),
    };
    proof {
        reveal_strlit("");
    }
    let mut raw = concat3(scheme, "://", authority);
    push_str(&mut raw, path.as_str());
    url_parse(raw.as_str())
}

/// Whether a target names a `.code-workspace` file.
pub fn is_workspace_target(value: &str) -> (r: bool)
    ensures
        r == spec_is_workspace_target(value@),
{
    let suffix = chars_of(".code-workspace");
    let subject = match url_path(value) {
        Some(path) => to_lowercase(path.as_str()),
        None => to_lowercase(value),
    };
    ends_with(&chars_of(subject.as_str()), &suffix)
}

fn uri_of(entry: &JsonValue, key: &str) -> (r: Option<String>)
    ensures
        match r {
            Some(s) => uri_of_member(*entry, key@) == Some(s@),
            None => uri_of_member(*entry, key@) is None,
        },
{
    match entry.get(key) {
        Some(v) => uri_from_value(v),
        None => None,
    }
}

/// The kind and raw target of an entry.
pub fn entry_target(entry: &JsonValue) -> (r: Option<(ProjectKind, String)>)
    ensures
        match r {
            Some((kind, t)) => spec_entry_target(*entry) == Some((kind, t@)),
            None => spec_entry_target(*entry) is None,
        },
{
    if !entry.is_object() {
        return None;
    }
    if entry.get("folderUri").is_some() {
        return match uri_of(entry, "folderUri") {
            Some(t) => Some((ProjectKind::Folder, t)),
            None => None,
        };
    }
    if let Some(workspace) = entry.get("workspace") {
        let target = match uri_of(workspace, "configPath") {
            Some(t) => Some(t),
            None => match uri_of(workspace, "uri") {
                Some(t) => Some(t),
                None => uri_from_value(workspace),
            },
        };
        return match target {
            Some(t) => Some((ProjectKind::Workspace, t)),
            None => None,
        };
    }
    if entry.get("workspaceUri").is_some() {
        return match uri_of(entry, "workspaceUri") {
            Some(t) => Some((ProjectKind::Workspace, t)),
            None => None,
        };
    }
    if entry.get("fileUri").is_some() {
        return match uri_of(entry, "fileUri") {
            Some(t) => if is_workspace_target(t.as_str()) {
                Some((ProjectKind::Workspace, t))
            } else {
                None
            },
            None => None,
        };
    }
    None
}

/// How the raw target `value` is read.
pub fn target_class(value: &str) -> (r: TargetClass)
    ensures
        r == spec_target_class(value@),
{
    match url_scheme(value) {
        None => TargetClass::NotUrl,
        Some(scheme) => {
            let s = chars_of(scheme.as_str());
            if chars_eq(&s, &chars_of("file")) {
                match url_host(value) {
                    Some(h) => {
                        let lowered = ascii_lower_chars(&chars_of(h.as_str()));
                        if !chars_eq(&lowered, &chars_of("localhost")) {
                            TargetClass::Rejected
                        } else {
                            TargetClass::FileUrl
                        }
                    },
                    None => TargetClass::FileUrl,
                }
            } else if chars_eq(&s, &chars_of("vscode-remote")) || chars_eq(&s, &chars_of("vscode")) {
                TargetClass::Remote
            } else {
                TargetClass::Rejected
            }
        },
    }
}

/// The platform's answer for a local target: the local path that
/// `url::Url::to_file_path` gives for a `file:` URL, or the text itself when
/// `std::path::Path::is_absolute` deems it absolute; `None` for other classes.
pub fn resolve_local(value: &str, class: &TargetClass) -> (r: Option<String>)
    ensures
        match *class {
            TargetClass::FileUrl => platform_file_path(value@, opt_view(r)),
            TargetClass::NotUrl => absolute_path_answer(value@, opt_view(r)),
            _ => r is None,
        },
{
    match class {
        TargetClass::FileUrl => file_path_of(value),
        TargetClass::NotUrl => {
            let absolute = is_absolute_path(value);
            let r = if absolute {
                Some(owned(value))
            } else {
                None
            };
            assert(platform_absolute(value@, absolute));
            r
        },
        _ => None,
    }
}

/// The project target of `value` given the platform's answer `local`.
pub fn project_target(value: &str, local: Option<&str>) -> (r: Option<ProjectTarget>)
    ensures
        match r {
            Some(t) => spec_project_target(value@, match local {
                Some(l) => Some(l@),
                None => None,
            }) == Some((t is Uri, match t {
                ProjectTarget::LocalPath(p) => p@,
                ProjectTarget::Uri(u) => u@,
            })),
            None => spec_project_target(value@, match local {
                Some(l) => Some(l@),
                None => None,
            }) is None,
        },
{
    match target_class(value) {
        TargetClass::FileUrl => match local {
            Some(p) => Some(ProjectTarget::LocalPath(owned(p))),
            None => None,
        },
        TargetClass::NotUrl => match local {
            Some(_) => Some(ProjectTarget::LocalPath(owned(value))),
            None => None,
        },
        TargetClass::Remote => match url_parse(value) {
            Some(u) => Some(ProjectTarget::Uri(u)),
            None => None,
        },
        TargetClass::Rejected => None,
    }
}

fn after_last_slash_of(s: &Vec<char>) -> (r: String)
    ensures
        r@ == after_last_slash(s@),
{
    let mut k = s.len();
    let n = s.len();
    assert(s@.subrange(k as int, n as int) =~= Seq::<char>::empty());
    assert(s@.subrange(0, n as int) =~= s@);
    while k > 0 && s[k - 1] != '/'
        invariant
            k <= n,
            n == s@.len(),
            after_last_slash(s@) == after_last_slash(s@.subrange(0, k as int)) + s@.subrange(k as int, n as int),
        decreases k,
    {
        let ghost t = s@.subrange(0, k as int);
        assert(t.drop_last() =~= s@.subrange(0, k - 1));
        assert(t.last() == s@[k - 1]);
        assert(s@.subrange(k - 1, n as int) =~= seq![s@[k - 1]] + s@.subrange(k as int, n as int));
        assert(after_last_slash(t) =~= after_last_slash(t.drop_last()).push(t.last()));
        k = k - 1;
    }
    proof {
        let t = s@.subrange(0, k as int);
        if k > 0 {
            assert(t.last() == s@[k - 1]);
        }
        assert(after_last_slash(t) =~= Seq::<char>::empty());
        assert(Seq::<char>::empty() + s@.subrange(k as int, n as int) =~= s@.subrange(k as int, n as int));
    }
    string_of(s, k, n)
}

/// The name derived from a target, if it is not empty.
pub fn target_name(kind: ProjectKind, target: &ProjectTarget) -> (r: Option<String>)
    ensures
        match r {
            Some(n) => spec_target_name(kind, target is Uri, match *target {
                ProjectTarget::LocalPath(p) => p@,
                ProjectTarget::Uri(u) => u@,
            }) == Some(n@),
            None => spec_target_name(kind, target is Uri, match *target {
                ProjectTarget::LocalPath(p) => p@,
                ProjectTarget::Uri(u) => u@,
            }) is None,
        },
{
    let name = match target {
        ProjectTarget::LocalPath(path) => match path_file_name(path.as_str()) {
            Some(n) => match kind {
                ProjectKind::Folder => Some(n),
                ProjectKind::Workspace => Some(stem_of(n.as_str())),
            },
            None => None,
        },
        ProjectTarget::Uri(value) => match url_path(value.as_str()) {
            Some(path) => {
                let p = chars_of(path.as_str());
                if p.len() > 0 && p[0] == '/' {
                    let segment = after_last_slash_of(&p);
                    match kind {
                        ProjectKind::Folder => Some(segment),
                        ProjectKind::Workspace => {
                            let seg = chars_of(segment.as_str());
                            let suffix = chars_of(".code-workspace");
                            if ends_with(&seg, &suffix) {
                                Some(string_of(&seg, 0, seg.len() - suffix.len()))
                            } else {
                                Some(segment)
                            }
                        },
                    }
                } else {
                    None
                }
            },
            None => None,
        },
    };
    match name {
        Some(n) => if n.as_str().unicode_len() > 0 {
            Some(n)
        } else {
            None
        },
        None => None,
    }
}

/// The project an entry describes, given the platform's answer `local` for its target.
pub fn recent_project(
    entry: &JsonValue,
    recent_index: u32,
    policy: TargetIdentityPolicy,
    local: Option<&str>,
) -> (r: Option<RecentProject>)
    ensures
        match r {
            Some(p) => spec_entry_project(*entry, recent_index, policy, match local {
                Some(l) => Some(l@),
                None => None,
            }) == Some(project_view(p)),
            None => spec_entry_project(*entry, recent_index, policy, match local {
                Some(l) => Some(l@),
                None => None,
            }) is None,
        },
{
    let (kind, raw) = match entry_target(entry) {
        Some(found) => found,
        None => return None,
    };
    let target = match project_target(raw.as_str(), local) {
        Some(t) => t,
        None => return None,
    };
    let fallback = match target_name(kind, &target) {
        Some(n) => n,
        None => return None,
    };
    let name = match entry.get_str("label") {
        Some(label) => {
            let trimmed = trim_str(label);
            if trimmed.as_str().unicode_len() > 0 {
                owned(label)
            } else {
                fallback
            }
        },
        None => fallback,
    };
    let detail = match &target {
        ProjectTarget::LocalPath(p) => p.clone(),
        ProjectTarget::Uri(u) => u.clone(),
    };
    let key = target_key_with_policy(&target, policy);
    let mut id = owned("vscode:");
    let print = fingerprint(key.as_str());
    push_str(&mut id, print.as_str());
    proof {
        assert(spec_target_key(target, policy) == view_key(target is Uri, match target {
            ProjectTarget::LocalPath(p) => p@,
            ProjectTarget::Uri(u) => u@,
        }, policy));
    }
    Some(RecentProject {
        id: ProjectId(id),
        provider: ProviderId(owned("vscode")),
        kind,
        target,
        name,
        detail,
        recent_index,
    })
}

/// Reads a parsed recent-list value with the identity policy of `platform`.
pub fn parse_recent_json(value: &JsonValue, platform: PlatformKind) -> (r: Result<
    Vec<RecentProject>,
    RecentFormatError,
>)
    ensures
        match r {
            Ok(projects) => spec_recent_entries(*value) is Some && reads_as(
                spec_recent_entries(*value)->0,
                policy_of(platform),
                projects@,
            ),
            Err(e) => spec_recent_entries(*value) is None && e == RecentFormatError::UnsupportedRoot,
        },
{
    parse_recent_json_with_policy(value, TargetIdentityPolicy::current(platform))
}

fn recent_entries(value: &JsonValue) -> (r: Option<&Vec<JsonValue>>)
    ensures
        match r {
            Some(entries) => spec_recent_entries(*value) == Some(entries@),
            None => spec_recent_entries(*value) is None,
        },
{
    match value {
        JsonValue::Object(_) => match value.get("entries") {
            Some(JsonValue::Array(items)) => Some(items),
            _ => None,
        },
        JsonValue::Array(items) => Some(items),
        _ => None,
    }
}

/// The platform's answer for the local target of each entry of a recent
/// list (none for entries of other kinds); no answers for another root.
pub fn local_answers(value: &JsonValue) -> (r: Vec<Option<String>>)
    ensures
        match spec_recent_entries(*value) {
            Some(entries) => r@.len() == entries.len() && forall|j: int|
                0 <= j < entries.len() ==> #[trigger] local_fits(entries[j], answers_view(r@)[j]),
            None => r@.len() == 0,
        },
{
    let mut answers: Vec<Option<String>> = Vec::new();
    let entries = match recent_entries(value) {
        Some(entries) => entries,
        None => return answers,
    };
    let mut i: usize = 0;
    while i < entries.len()
        invariant
            i <= entries@.len(),
            answers@.len() == i,
            forall|j: int| 0 <= j < i ==> #[trigger] local_fits(entries@[j], answers_view(answers@)[j]),
        decreases entries.len() - i,
    {
        let local = match entry_target(&entries[i]) {
            Some((_, raw)) => {
                let class = target_class(raw.as_str());
                resolve_local(raw.as_str(), &class)
            },
            None => None,
        };
        let ghost before = answers@;
        answers.push(local);
        proof {
            assert forall|j: int| 0 <= j < i + 1 implies #[trigger] local_fits(
                entries@[j],
                answers_view(answers@)[j],
            ) by {
                assert(answers@[j] == if j < i { before[j] } else { answers@[j] });
                if j < i {
                    assert(answers_view(answers@)[j] == answers_view(before)[j]);
                }
            }
        }
        i = i + 1;
    }
    answers
}

/// The projects a recent-list value describes, given the platform's answer
/// for each entry's local target (`answers[i]` for entry `i`; none past the
/// end): the entries' projects in entry order, deduplicated under `policy`.
/// Any other root is `UnsupportedRoot`.
pub fn recent_projects_from(value: &JsonValue, answers: &[Option<String>], policy: TargetIdentityPolicy) -> (r:
    Result<Vec<RecentProject>, RecentFormatError>)
    ensures
        match r {
            Ok(projects) => spec_recent_entries(*value) is Some && exists|found: Seq<RecentProject>|
                #![trigger spec_deduplicate(found, policy)]
                found.map_values(|p: RecentProject| project_view(p)) == spec_entry_projects(
                    spec_recent_entries(*value)->0,
                    answers_view(answers@),
                    policy,
                    spec_recent_entries(*value)->0.len() as int,
                ) && projects@ == spec_deduplicate(found, policy),
            Err(e) => spec_recent_entries(*value) is None && e == RecentFormatError::UnsupportedRoot,
        },
{
    let entries = match recent_entries(value) {
        Some(entries) => entries,
        None => return Err(RecentFormatError::UnsupportedRoot),
    };
    let ghost answered = answers_view(answers@);
    let mut found: Vec<RecentProject> = Vec::new();
    let mut i: usize = 0;
    while i < entries.len()
        invariant
            i <= entries@.len(),
            answered == answers_view(answers@),
            found@.map_values(|p: RecentProject| project_view(p)) == spec_entry_projects(
                entries@,
                answered,
                policy,
                i as int,
            ),
        decreases entries.len() - i,
    {
        let local: Option<&str> = if i < answers.len() {
            match &answers[i] {
                Some(s) => Some(s.as_str()),
                None => None,
            }
        } else {
            None
        };
        assert(answer_at(answered, i as int) == match local {
            Some(l) => Some(l@),
            None => None,
        });
        let project = recent_project(&entries[i], i as u32, policy, local);
        let ghost before = found@;
        match project {
            Some(p) => {
                found.push(p);
                assert(found@.map_values(|p: RecentProject| project_view(p)) =~= before.map_values(
                    |p: RecentProject| project_view(p),
                ).push(project_view(p)));
            },
            None => {},
        }
        i = i + 1;
    }
    let ghost unsorted = found@;
    let projects = deduplicate_with_policy(found, policy);
    assert(spec_deduplicate(unsorted, policy) == projects@);
    Ok(projects)
}

/// Reads a parsed recent-list value: the entries of either shape become
/// projects (plain files and unusable entries are skipped), deduplicated
/// under `policy`. Any other root is `UnsupportedRoot`.
pub fn parse_recent_json_with_policy(value: &JsonValue, policy: TargetIdentityPolicy) -> (r: Result<
    Vec<RecentProject>,
    RecentFormatError,
>)
    ensures
        match r {
            Ok(projects) => spec_recent_entries(*value) is Some && reads_as(
                spec_recent_entries(*value)->0,
                policy,
                projects@,
            ),
            Err(e) => spec_recent_entries(*value) is None && e == RecentFormatError::UnsupportedRoot,
        },
{
    let answers = local_answers(value);
    let r = recent_projects_from(value, answers.as_slice(), policy);
    proof {
        if r is Ok {
            let projects = r->Ok_0;
            let entries = spec_recent_entries(*value)->0;
            let locals = answers_view(answers@);
            let found = choose|found: Seq<RecentProject>|
                #![trigger spec_deduplicate(found, policy)]
                found.map_values(|p: RecentProject| project_view(p)) == spec_entry_projects(
                    entries,
                    locals,
                    policy,
                    entries.len() as int,
                ) && projects@ == spec_deduplicate(found, policy);
            assert(locals.len() == entries.len());
            assert(forall|j: int| 0 <= j < entries.len() ==> #[trigger] local_fits(entries[j], locals[j]));
            assert(reads_as(entries, policy, projects@));
        }
    }
    r
}

/// What reading the recent-list text `text` under `policy` gives: text that
/// is not JSON is a `Json` error; JSON of another shape is `UnsupportedRoot`;
/// otherwise the projects the entries read as.
pub open spec fn recent_text_outcome(
    text: Seq<char>,
    policy: TargetIdentityPolicy,
    r: Result<Vec<RecentProject>, RecentFormatError>,
) -> bool {
    match spec_json_text(text) {
        None => r matches Err(RecentFormatError::Json(_)),
        Some(value) => match r {
            Ok(projects) => spec_recent_entries(value) is Some && reads_as(
                spec_recent_entries(value)->0,
                policy,
                projects@,
            ),
            Err(e) => spec_recent_entries(value) is None && e == RecentFormatError::UnsupportedRoot,
        },
    }
}

/// Reads the recent-list text stored by VS Code, with the identity policy of
/// `platform`.
pub fn parse_recent_value(value: &str, platform: PlatformKind) -> (r: Result<
    Vec<RecentProject>,
    RecentFormatError,
>)
    ensures
        recent_text_outcome(value@, policy_of(platform), r),
{
    parse_recent_value_with_policy(value, TargetIdentityPolicy::current(platform))
}

/// Reads the recent-list text stored by VS Code under `policy`: text that is
/// not JSON is a `Json` error carrying serde_json's message; otherwise as
/// [`parse_recent_json_with_policy`].
pub fn parse_recent_value_with_policy(value: &str, policy: TargetIdentityPolicy) -> (r: Result<
    Vec<RecentProject>,
    RecentFormatError,
>)
    ensures
        recent_text_outcome(value@, policy, r),
{
    match parse_json(value) {
        Ok(parsed) => parse_recent_json_with_policy(&parsed, policy),
        Err(message) => Err(RecentFormatError::Json(message)),
    }
}

/// A workspace given by a URI whose last path segment ends in
/// `.code-workspace` is named by that segment without the suffix: the name
/// followed by `.code-workspace` is the segment, and a segment that is only
/// the suffix gives no name. A folder is named by its whole last segment.
pub proof fn lemma_remote_names_drop_the_workspace_suffix(uri: Seq<char>, segment: Seq<char>)
    requires
        spec_last_segment(uri) == Some(segment),
    ensures
        is_suffix(".code-workspace"@, segment) ==> match spec_target_name(ProjectKind::Workspace, true, uri) {
            Some(name) => name + ".code-workspace"@ == segment && name.len() + 15 == segment.len(),
            None => segment == ".code-workspace"@,
        },
        segment.len() > 0 ==> spec_target_name(ProjectKind::Folder, true, uri) == Some(segment),
{
    reveal_strlit(".code-workspace");
    if is_suffix(".code-workspace"@, segment) {
        let name = segment.subrange(0, segment.len() - 15);
        assert(name + ".code-workspace"@ =~= segment);
        if name.len() == 0 {
            assert(segment =~= ".code-workspace"@);
        }
    }
}

/// A recent list reads as distinct projects: no two share an identity key,
/// and they are listed from most to least recent.
pub proof fn lemma_recent_list_is_distinct(
    entries: Seq<JsonValue>,
    policy: TargetIdentityPolicy,
    projects: Seq<RecentProject>,
)
    requires
        reads_as(entries, policy, projects),
    ensures
        forall|i: int, j: int|
            0 <= i < j < projects.len() ==> spec_target_key((#[trigger] projects[i]).target, policy)
                != spec_target_key((#[trigger] projects[j]).target, policy),
        crate::ranking::recency_ordered(projects),
{
    let (locals, found) = choose|locals: Seq<Option<Seq<char>>>, found: Seq<RecentProject>|
        #![trigger spec_entry_projects(entries, locals, policy, entries.len() as int), spec_deduplicate(found, policy)]
        locals.len() == entries.len()
        && (forall|j: int| 0 <= j < entries.len() ==> #[trigger] local_fits(entries[j], locals[j]))
        && found.map_values(|p: RecentProject| project_view(p)) == spec_entry_projects(
            entries,
            locals,
            policy,
            entries.len() as int,
        )
        && projects == spec_deduplicate(found, policy);
    crate::ranking::lemma_deduplicate_unique_keys(found, policy);
    crate::ranking::lemma_deduplicate_keeps_newest(found, policy);
}

} // verus!
