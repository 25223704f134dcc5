//! Planning how VS Code is started for a project: which window-state targets
//! are already open, and the command line that focuses or opens the project.

use vstd::prelude::*;

use crate::json::{parse_json_bytes, spec_get, spec_get_str, spec_json_bytes, JsonValue};
use crate::model::{OpenOutcome, ProjectKind, ProjectTarget, RecentProject};
use crate::paths::PlatformKind;
use crate::ranking::{policy_of, spec_target_key, target_key, TargetIdentityPolicy};
use crate::recent::view_key;
use crate::text::{chars_eq, chars_of, owned, push_str};
use crate::urls::{
    absolute_path_answer, directory_url_of, file_path_of, file_url_of, is_absolute_path, opt_view,
    platform_absolute, platform_directory_url, platform_file_path, platform_file_url, spec_url_parse,
    spec_url_scheme, url_parse, url_scheme,
};

verus! {

// ---------------------------------------------------------------------------
// Window state
// ---------------------------------------------------------------------------

/// The target a window-state entry shows: its `folder`, or else its
/// workspace's `configURIPath`.
pub open spec fn window_target(window: JsonValue) -> Option<Seq<char>> {
    match spec_get_str(window, "folder"@) {
        Some(f) => Some(f),
        None => match spec_get(window, "workspaceIdentifier"@) {
            Some(w) => spec_get_str(w, "configURIPath"@),
            None => None,
        },
    }
}

/// The windows a `storage.json` value lists: the last active window, then the
/// opened windows.
pub open spec fn state_windows(value: JsonValue) -> Seq<JsonValue> {
    match spec_get(value, "windowsState"@) {
        Some(state) => if state is Object {
            (match spec_get(state, "lastActiveWindow"@) {
                Some(last) => seq![last],
                None => Seq::empty(),
            }) + (match spec_get(state, "openedWindows"@) {
                Some(JsonValue::Array(items)) => items@,
                _ => Seq::empty(),
            })
        } else {
            Seq::empty()
        },
        None => Seq::empty(),
    }
}

/// The targets of `windows` that have one, in order.
pub open spec fn targets_of(windows: Seq<JsonValue>) -> Seq<Seq<char>>
    decreases windows.len(),
{
    if windows.len() == 0 {
        Seq::empty()
    } else {
        let previous = targets_of(windows.drop_last());
        match window_target(windows.last()) {
            Some(t) => previous.push(t),
            None => previous,
        }
    }
}

/// The targets a `storage.json` value shows as open.
pub open spec fn spec_window_state_targets(value: JsonValue) -> Seq<Seq<char>> {
    targets_of(state_windows(value))
}

proof fn lemma_targets_of_concat(a: Seq<JsonValue>, b: Seq<JsonValue>)
    ensures
        targets_of(a + b) == targets_of(a) + targets_of(b),
    decreases b.len(),
{
    if b.len() == 0 {
        assert(a + b =~= a);
        assert(targets_of(a) + targets_of(b) =~= targets_of(a));
    } else {
        lemma_targets_of_concat(a, b.drop_last());
        assert((a + b).drop_last() =~= a + b.drop_last());
        assert((a + b).last() == b.last());
        match window_target(b.last()) {
            Some(t) => {
                assert(targets_of(a) + targets_of(b.drop_last()).push(t) =~= (targets_of(a)
                    + targets_of(b.drop_last())).push(t));
            },
            None => {},
        }
    }
}

proof fn lemma_targets_of_contains(windows: Seq<JsonValue>, k: int)
    requires
        0 <= k < windows.len(),
        window_target(windows[k]) is Some,
    ensures
        targets_of(windows).contains(window_target(windows[k])->0),
    decreases windows.len(),
{
    let t = window_target(windows[k])->0;
    if k == windows.len() - 1 {
        assert(targets_of(windows).last() == t);
    } else {
        lemma_targets_of_contains(windows.drop_last(), k);
        assert(windows.drop_last()[k] == windows[k]);
        let previous = targets_of(windows.drop_last());
        let j = choose|j: int| 0 <= j < previous.len() && previous[j] == t;
        match window_target(windows.last()) {
            Some(u) => assert(previous.push(u)[j] == t),
            None => {},
        }
    }
}

/// The windows a `storage.json` value shows as open are its last active
/// window's target, if it has one, followed by the target of every opened
/// window that has one, in order; so every opened window's folder or
/// workspace file is among the open targets.
pub proof fn lemma_every_opened_window_is_open(value: JsonValue, state: JsonValue, opened: Vec<JsonValue>)
    requires
        spec_get(value, "windowsState"@) == Some(state),
        state is Object,
        spec_get(state, "openedWindows"@) == Some(JsonValue::Array(opened)),
    ensures
        spec_window_state_targets(value) == (match spec_get(state, "lastActiveWindow"@) {
            Some(last) => match window_target(last) {
                Some(t) => seq![t],
                None => Seq::empty(),
            },
            None => Seq::empty(),
        }) + targets_of(opened@),
        forall|k: int|
            0 <= k < opened@.len() && (#[trigger] window_target(opened@[k])) is Some
                ==> spec_window_state_targets(value).contains(window_target(opened@[k])->0),
{
    let first: Seq<JsonValue> = match spec_get(state, "lastActiveWindow"@) {
        Some(last) => seq![last],
        None => Seq::empty(),
    };
    assert(state_windows(value) == first + opened@);
    lemma_targets_of_concat(first, opened@);
    match spec_get(state, "lastActiveWindow"@) {
        Some(last) => {
            assert(first.drop_last() =~= Seq::<JsonValue>::empty());
            assert(first.last() == last);
            assert(targets_of(first.drop_last()) =~= Seq::<Seq<char>>::empty());
            match window_target(last) {
                Some(t) => assert(targets_of(first) =~= seq![t]),
                None => assert(targets_of(first) =~= Seq::<Seq<char>>::empty()),
            }
        },
        None => {},
    }
    assert forall|k: int|
        0 <= k < opened@.len() && (#[trigger] window_target(opened@[k])) is Some
            implies spec_window_state_targets(value).contains(window_target(opened@[k])->0) by {
        let all = first + opened@;
        assert(all[first.len() + k] == opened@[k]);
        lemma_targets_of_contains(all, first.len() + k);
    }
}

/// The texts of a list of strings.
pub open spec fn texts(v: Seq<String>) -> Seq<Seq<char>> {
    v.map_values(|s: String| s@)
}

/// The targets open in all of `states`, state by state.
pub open spec fn all_window_targets(states: Seq<JsonValue>) -> Seq<Seq<char>>
    decreases states.len(),
{
    if states.len() == 0 {
        Seq::empty()
    } else {
        all_window_targets(states.drop_last()) + spec_window_state_targets(states.last())
    }
}

fn window_target_of(window: &JsonValue) -> (r: Option<String>)
    ensures
        match r {
            Some(t) => window_target(*window) == Some(t@),
            None => window_target(*window) is None,
        },
{
    match window.get_str("folder") {
        Some(f) => Some(owned(f)),
        None => match window.get("workspaceIdentifier") {
            Some(w) => match w.get_str("configURIPath") {
                Some(p) => Some(owned(p)),
                None => None,
            },
            None => None,
        },
    }
}

proof fn lemma_targets_of_push(windows: Seq<JsonValue>, w: JsonValue)
    ensures
        targets_of(windows.push(w)) == match window_target(w) {
            Some(t) => targets_of(windows).push(t),
            None => targets_of(windows),
        },
{
    assert(windows.push(w).drop_last() =~= windows);
}

fn push_window_target(out: &mut Vec<String>, window: &JsonValue, Ghost(seen): Ghost<Seq<JsonValue>>)
    requires
        texts(old(out)@) == targets_of(seen),
    ensures
        texts(final(out)@) == targets_of(seen.push(*window)),
{
    proof {
        lemma_targets_of_push(seen, *window);
    }
    match window_target_of(window) {
        Some(t) => {
            let ghost before = out@;
            out.push(t);
            assert(texts(out@) =~= texts(before).push(t@));
        },
        None => {},
    }
}

/// The targets that a `storage.json` value shows as open: for the last
/// active window and each opened window, its folder or workspace file.
pub fn window_state_targets(value: &JsonValue) -> (r: Vec<String>)
    ensures
        texts(r@) == spec_window_state_targets(*value),
{
    let mut out: Vec<String> = Vec::new();
    assert(texts(out@) =~= Seq::<Seq<char>>::empty());
    let state = match value.get("windowsState") {
        Some(s) => s,
        None => return out,
    };
    if !state.is_object() {
        return out;
    }
    let ghost mut seen: Seq<JsonValue> = Seq::empty();
    match state.get("lastActiveWindow") {
        Some(last) => {
            push_window_target(&mut out, last, Ghost(seen));
            proof {
                seen = seen.push(*last);
            }
        },
        None => {},
    }
    let ghost first = seen;
    match state.get("openedWindows") {
        Some(JsonValue::Array(items)) => {
            let mut i: usize = 0;
            while i < items.len()
                invariant
                    i <= items@.len(),
                    seen == first + items@.subrange(0, i as int),
                    texts(out@) == targets_of(seen),
                decreases items.len() - i,
            {
                push_window_target(&mut out, &items[i], Ghost(seen));
                proof {
                    seen = seen.push(items@[i as int]);
                    assert(seen =~= first + items@.subrange(0, i + 1));
                }
                i = i + 1;
            }
            assert(items@.subrange(0, items@.len() as int) =~= items@);
            assert(seen =~= state_windows(*value));
        },
        _ => {
            assert(seen =~= state_windows(*value));
        },
    }
    out
}

// ---------------------------------------------------------------------------
// Launch planning
// ---------------------------------------------------------------------------

/// Why a project cannot be opened.
#[derive(Debug, Clone, PartialEq, Eq)]
pub enum OpenError {
    /// The target cannot be expressed as a URL VS Code accepts.
    UnsupportedTarget(String),
    /// VS Code could not be started.
    Spawn(String),
}

impl OpenError {
    /// The error as a sentence.
    pub fn message(&self) -> (r: String)
        ensures
            r@ == match *self {
                OpenError::UnsupportedTarget(t) => "unsupported target: "@ + t@,
                OpenError::Spawn(e) => "failed to start VS Code: "@ + e@,
            },
    {
        match self {
            OpenError::UnsupportedTarget(t) => {
                let mut r = owned("unsupported target: ");
                push_str(&mut r, t.as_str());
                r
            },
            OpenError::Spawn(e) => {
                let mut r = owned("failed to start VS Code: ");
                push_str(&mut r, e.as_str());
                r
            },
        }
    }
}

/// The command line that opens or focuses a project.
#[derive(Debug, Clone, PartialEq, Eq)]
pub struct LaunchRequest {
    pub executable: String,
    pub args: Vec<String>,
    pub outcome: OpenOutcome,
}

/// The VS Code schemes a remote project may use.
pub open spec fn is_remote_scheme(scheme: Seq<char>) -> bool {
    scheme == "vscode-remote"@ || scheme == "vscode"@
}

/// The option that tells VS Code what kind of target follows.
pub open spec fn argument_kind(kind: ProjectKind) -> Seq<char> {
    match kind {
        ProjectKind::Folder => "--folder-uri"@,
        ProjectKind::Workspace => "--file-uri"@,
    }
}

/// The arguments: a new window unless the target is open, the kind option, the URI.
pub open spec fn launch_args(kind: ProjectKind, is_open: bool, uri: Seq<char>) -> Seq<Seq<char>> {
    if is_open {
        seq![argument_kind(kind), uri]
    } else {
        seq!["--new-window"@, argument_kind(kind), uri]
    }
}

/// `request` starts `executable` with the arguments for `kind`, `is_open` and `uri`.
pub open spec fn is_launch(
    request: LaunchRequest,
    executable: Seq<char>,
    kind: ProjectKind,
    is_open: bool,
    uri: Seq<char>,
) -> bool {
    &&& request.executable@ == executable
    &&& texts(request.args@) == launch_args(kind, is_open, uri)
    &&& request.outcome == if is_open {
        OpenOutcome::Focused
    } else {
        OpenOutcome::OpenedNew
    }
}

/// The URI of a remote target: its serialization when it parses with a VS Code scheme.
pub open spec fn remote_uri(value: Seq<char>) -> Option<Seq<char>> {
    match spec_url_scheme(value) {
        Some(s) => if is_remote_scheme(s) {
            spec_url_parse(value)
        } else {
            None
        },
        None => None,
    }
}

/// An open-window target as (is a URI, text), given the platform's answer
/// `local`: the path of a `file:` URL, or, for other text, `Some` when it is
/// an absolute path.
pub open spec fn spec_comparable_target(value: Seq<char>, local: Option<Seq<char>>) -> Option<
    (bool, Seq<char>),
> {
    let as_path = match local {
        Some(_) => Some((false, value)),
        None => None,
    };
    match spec_url_scheme(value) {
        Some(s) => if s == "file"@ {
            match local {
                Some(p) => Some((false, p)),
                None => None,
            }
        } else if is_remote_scheme(s) {
            match spec_url_parse(value) {
                Some(u) => Some((true, u)),
                None => None,
            }
        } else {
            as_path
        },
        None => as_path,
    }
}

/// What the platform answered for an open-window target: for a `file:` URL,
/// what `url::Url::to_file_path` gave for it; nothing for a VS Code URL; for
/// other text, the text itself when `std::path::Path::is_absolute` deemed it
/// absolute.
pub open spec fn comparable_fits(value: Seq<char>, local: Option<Seq<char>>) -> bool {
    match spec_url_scheme(value) {
        Some(s) => if s == "file"@ {
            platform_file_path(value, local)
        } else if is_remote_scheme(s) {
            local is None
        } else {
            absolute_path_answer(value, local)
        },
        None => absolute_path_answer(value, local),
    }
}

/// Whether one of the first `n` open targets has identity key `wanted` under `policy`.
pub open spec fn target_open_in(
    targets: Seq<Seq<char>>,
    answers: Seq<Option<Seq<char>>>,
    wanted: Seq<char>,
    n: int,
    policy: TargetIdentityPolicy,
) -> bool
    decreases n,
{
    if n <= 0 {
        false
    } else {
        target_open_in(targets, answers, wanted, n - 1, policy) || match spec_comparable_target(
            targets[n - 1],
            answers[n - 1],
        ) {
            Some((is_uri, t)) => view_key(is_uri, t, policy) == wanted,
            None => false,
        }
    }
}

/// The URI VS Code is given for a project of `kind` at the local `path`:
/// what `url::Url::from_directory_path` gives for a folder, or
/// `url::Url::from_file_path` for a workspace file (`None` when it refuses the
/// path); either is a `file://` URL, which for a folder ends with `/`.
pub open spec fn local_uri(kind: ProjectKind, path: Seq<char>, uri: Option<Seq<char>>) -> bool {
    &&& match kind {
        ProjectKind::Folder => platform_directory_url(path, uri),
        ProjectKind::Workspace => platform_file_url(path, uri),
    }
    &&& uri matches Some(u) ==> "file://"@.is_prefix_of(u) && (kind is Folder ==> u.len() > 0
        && u.last() == '/')
}

/// `request` is how `project` is launched with `executable` when `targets`
/// are open, comparing identities under `policy`: for some answers of the
/// platform about local paths, the project counts as open when one target
/// has its identity key. A remote project is given its normalized URI; a
/// local one the `file://` URL of its own path (a directory URL for a folder).
pub open spec fn launches(
    request: LaunchRequest,
    executable: Seq<char>,
    project: RecentProject,
    targets: Seq<Seq<char>>,
    policy: TargetIdentityPolicy,
) -> bool {
    exists|answers: Seq<Option<Seq<char>>>, uri: Seq<char>|
        #![trigger is_launch(request, executable, project.kind, target_open_in(targets, answers, spec_target_key(project.target, policy), targets.len() as int, policy), uri)]
        answers.len() == targets.len()
        && (forall|j: int| 0 <= j < targets.len() ==> #[trigger] comparable_fits(targets[j], answers[j]))
        && is_launch(
            request,
            executable,
            project.kind,
            target_open_in(
                targets,
                answers,
                spec_target_key(project.target, policy),
                targets.len() as int,
                policy,
            ),
            uri,
        )
        && (project.target matches ProjectTarget::Uri(u) ==> remote_uri(u@) == Some(uri))
        && (project.target matches ProjectTarget::LocalPath(p) ==> local_uri(project.kind, p@, Some(uri)))
}

proof fn lemma_open_in_prefix(
    targets: Seq<Seq<char>>,
    a: Seq<Option<Seq<char>>>,
    b: Seq<Option<Seq<char>>>,
    wanted: Seq<char>,
    n: int,
    policy: TargetIdentityPolicy,
)
    requires
        0 <= n <= a.len(),
        n <= b.len(),
        forall|j: int| 0 <= j < n ==> a[j] == b[j],
    ensures
        target_open_in(targets, a, wanted, n, policy) == target_open_in(targets, b, wanted, n, policy),
    decreases n,
{
    if n > 0 {
        lemma_open_in_prefix(targets, a, b, wanted, n - 1, policy);
    }
}

/// The option naming the kind of target (`--folder-uri` or `--file-uri`).
pub fn target_argument_kind(kind: ProjectKind, target: &ProjectTarget) -> (r: &'static str)
    ensures
        r@ == argument_kind(kind),
{
    match kind {
        ProjectKind::Folder => "--folder-uri",
        ProjectKind::Workspace => "--file-uri",
    }
}

fn is_remote(scheme: &str) -> (r: bool)
    ensures
        r == is_remote_scheme(scheme@),
{
    let s = chars_of(scheme);
    chars_eq(&s, &chars_of("vscode-remote")) || chars_eq(&s, &chars_of("vscode"))
}

fn is_file_scheme(scheme: &str) -> (r: bool)
    ensures
        r == (scheme@ == "file"@),
{
    chars_eq(&chars_of(scheme), &chars_of("file"))
}

/// The URI VS Code is given for a project: a file URL of a local path (a
/// directory URL for a folder), or a remote URI with a VS Code scheme.
fn target_uri(project: &RecentProject) -> (r: Result<String, OpenError>)
    ensures
        match project.target {
            ProjectTarget::Uri(u) => match r {
                Ok(s) => remote_uri(u@) == Some(s@),
                Err(e) => remote_uri(u@) is None && e == OpenError::UnsupportedTarget(u),
            },
            ProjectTarget::LocalPath(p) => match r {
                Ok(s) => local_uri(project.kind, p@, Some(s@)),
                Err(e) => local_uri(project.kind, p@, None) && e == OpenError::UnsupportedTarget(p),
            },
        },
{
    match &project.target {
        ProjectTarget::LocalPath(path) => {
            let url = match project.kind {
                ProjectKind::Folder => directory_url_of(path.as_str()),
                ProjectKind::Workspace => file_url_of(path.as_str()),
            };
            match url {
                Some(u) => Ok(u),
                None => Err(OpenError::UnsupportedTarget(path.clone())),
            }
        },
        ProjectTarget::Uri(value) => {
            let scheme = match url_scheme(value.as_str()) {
                Some(s) => s,
                None => return Err(OpenError::UnsupportedTarget(value.clone())),
            };
            if !is_remote(scheme.as_str()) {
                return Err(OpenError::UnsupportedTarget(value.clone()));
            }
            match url_parse(value.as_str()) {
                Some(u) => Ok(u),
                None => Err(OpenError::UnsupportedTarget(value.clone())),
            }
        },
    }
}

/// The platform's answer for an open-window target.
fn comparable_answer(value: &str) -> (r: Option<String>)
    ensures
        comparable_fits(
            value@,
            match r {
                Some(p) => Some(p@),
                None => None,
            },
        ),
{
    let is_absolute = is_absolute_path(value);
    let absolute = if is_absolute {
        Some(owned(value))
    } else {
        None
    };
    assert(absolute_path_answer(value@, opt_view(absolute))) by {
        assert(platform_absolute(value@, is_absolute));
    }
    match url_scheme(value) {
        Some(s) => if is_file_scheme(s.as_str()) {
            file_path_of(value)
        } else if is_remote(s.as_str()) {
            None
        } else {
            absolute
        },
        None => absolute,
    }
}

/// An open-window target as a project target, given the platform's answer `local`.
pub fn comparable_target(value: &str, local: Option<&str>) -> (r: Option<ProjectTarget>)
    ensures
        match r {
            Some(t) => spec_comparable_target(
                value@,
                match local {
                    Some(l) => Some(l@),
                    None => None,
                },
            ) == Some(
                (
                    t is Uri,
                    match t {
                        ProjectTarget::LocalPath(p) => p@,
                        ProjectTarget::Uri(u) => u@,
                    },
                ),
            ),
            None => spec_comparable_target(
                value@,
                match local {
                    Some(l) => Some(l@),
                    None => None,
                },
            ) is None,
        },
{
    let as_path = match local {
        Some(_) => Some(ProjectTarget::LocalPath(owned(value))),
        None => None,
    };
    match url_scheme(value) {
        Some(s) => if is_file_scheme(s.as_str()) {
            match local {
                Some(p) => Some(ProjectTarget::LocalPath(owned(p))),
                None => None,
            }
        } else if is_remote(s.as_str()) {
            match url_parse(value) {
                Some(u) => Some(ProjectTarget::Uri(u)),
                None => None,
            }
        } else {
            as_path
        },
        None => as_path,
    }
}

/// The request that starts `executable` for `project`, given whether the
/// project is already open and the URI to pass.
pub fn plan_launch(executable: String, project: &RecentProject, uri: String, is_open: bool) -> (r:
    LaunchRequest)
    ensures
        is_launch(r, executable@, project.kind, is_open, uri@),
{
    let mut args: Vec<String> = Vec::new();
    if !is_open {
        args.push(owned("--new-window"));
    }
    args.push(owned(target_argument_kind(project.kind, &project.target)));
    args.push(uri);
    assert(texts(args@) =~= launch_args(project.kind, is_open, uri@));
    LaunchRequest {
        executable,
        args,
        outcome: if is_open {
            OpenOutcome::Focused
        } else {
            OpenOutcome::OpenedNew
        },
    }
}

/// The request that opens `project` with `executable`, focusing the window
/// that already shows it when one of `open_targets` is the project. A remote
/// target needs a VS Code scheme; otherwise the error names the target.
pub fn build_launch_request(
    executable: String,
    project: &RecentProject,
    open_targets: &[String],
    platform: PlatformKind,
) -> (r: Result<LaunchRequest, OpenError>)
    ensures
        match r {
            Ok(request) => launches(
                request,
                executable@,
                *project,
                texts(open_targets@),
                policy_of(platform),
            ),
            Err(e) => e == OpenError::UnsupportedTarget(
                match project.target {
                    ProjectTarget::LocalPath(p) => p,
                    ProjectTarget::Uri(u) => u,
                },
            ),
        },
        project.target matches ProjectTarget::Uri(u) ==> (r is Ok <==> remote_uri(u@) is Some),
        project.target matches ProjectTarget::LocalPath(p) ==> (r is Err ==> local_uri(
            project.kind,
            p@,
            None,
        )),
{
    let uri = match target_uri(project) {
        Ok(u) => u,
        Err(e) => return Err(e),
    };
    let wanted = target_key(&project.target, platform);
    let ghost wanted_view = wanted@;
    let ghost targets = texts(open_targets@);
    let ghost mut answers: Seq<Option<Seq<char>>> = Seq::empty();
    let mut is_open = false;
    let mut i: usize = 0;
    while i < open_targets.len()
        invariant
            i <= open_targets@.len(),
            targets == texts(open_targets@),
            wanted@ == wanted_view,
            wanted_view == spec_target_key(project.target, policy_of(platform)),
            answers.len() == i,
            forall|j: int| 0 <= j < i ==> #[trigger] comparable_fits(targets[j], answers[j]),
            is_open == target_open_in(targets, answers, wanted_view, i as int, policy_of(platform)),
        decreases open_targets.len() - i,
    {
        let value = open_targets[i].as_str();
        let local = comparable_answer(value);
        let ghost lv: Option<Seq<char>> = match &local {
            Some(p) => Some(p@),
            None => None,
        };
        let lref: Option<&str> = match &local {
            Some(p) => Some(p.as_str()),
            None => None,
        };
        let candidate = comparable_target(value, lref);
        let matched = match &candidate {
            Some(t) => {
                let key = target_key(t, platform);
                key == wanted
            },
            None => false,
        };
        let ghost old_answers = answers;
        proof {
            answers = answers.push(lv);
            lemma_open_in_prefix(targets, old_answers, answers, wanted_view, i as int, policy_of(platform));
            assert(targets[i as int] == open_targets@[i as int]@);
            match candidate {
                Some(t) => {
                    assert(spec_target_key(t, policy_of(platform)) == view_key(
                        t is Uri,
                        match t {
                            ProjectTarget::LocalPath(p) => p@,
                            ProjectTarget::Uri(u) => u@,
                        },
                        policy_of(platform),
                    ));
                },
                None => {},
            }
        }
        is_open = is_open || matched;
        i = i + 1;
    }
    let ghost exe = executable@;
    let ghost uri_view = uri@;
    let request = plan_launch(executable, project, uri, is_open);
    proof {
        assert(targets.len() == open_targets@.len());
        assert(answers.len() == targets.len());
        assert(is_launch(
            request,
            exe,
            project.kind,
            target_open_in(targets, answers, wanted_view, targets.len() as int, policy_of(platform)),
            uri_view,
        ));
        assert(project.target matches ProjectTarget::Uri(u) ==> remote_uri(u@) == Some(uri_view));
        assert(launches(request, exe, *project, targets, policy_of(platform)));
    }
    Ok(request)
}

/// Opens projects in VS Code, focusing windows that already show them.
pub struct VsCodeOpener {
    pub executable: String,
    /// The `storage.json` files that record VS Code's open windows.
    pub window_state_files: Vec<String>,
}

/// The values of the window-state files, in order, of those whose bytes
/// are JSON.
pub open spec fn parsed_window_states(files: Seq<Seq<u8>>) -> Seq<JsonValue>
    decreases files.len(),
{
    if files.len() == 0 {
        Seq::empty()
    } else {
        let earlier = parsed_window_states(files.drop_last());
        match spec_json_bytes(files.last()) {
            Some(v) => earlier.push(v),
            None => earlier,
        }
    }
}

/// Parses the contents of the window-state files that could be read,
/// skipping those that are not JSON.
pub fn parse_window_states(files: &[Vec<u8>]) -> (r: Vec<JsonValue>)
    ensures
        r@ == parsed_window_states(files@.map_values(|f: Vec<u8>| f@)),
{
    let ghost all = files@.map_values(|f: Vec<u8>| f@);
    let mut states: Vec<JsonValue> = Vec::new();
    let mut i: usize = 0;
    assert(all.subrange(0, 0) =~= Seq::<Seq<u8>>::empty());
    while i < files.len()
        invariant
            i <= files@.len(),
            all == files@.map_values(|f: Vec<u8>| f@),
            states@ == parsed_window_states(all.subrange(0, i as int)),
        decreases files.len() - i,
    {
        assert(all.subrange(0, i + 1).drop_last() =~= all.subrange(0, i as int));
        assert(all.subrange(0, i + 1).last() == files@[i as int]@);
        match parse_json_bytes(files[i].as_slice()) {
            Ok(value) => states.push(value),
            Err(_) => {},
        }
        i = i + 1;
    }
    assert(all.subrange(0, files@.len() as int) =~= all);
    states
}

impl VsCodeOpener {
    /// The request that opens `project` on `platform`, given the parsed
    /// contents of the window-state files that could be read.
    pub fn launch_request(
        &self,
        project: &RecentProject,
        window_states: &[JsonValue],
        platform: PlatformKind,
    ) -> (r: Result<LaunchRequest, OpenError>)
        ensures
            match r {
                Ok(request) => launches(
                    request,
                    self.executable@,
                    *project,
                    all_window_targets(window_states@),
                    policy_of(platform),
                ),
                Err(e) => e == OpenError::UnsupportedTarget(
                    match project.target {
                        ProjectTarget::LocalPath(p) => p,
                        ProjectTarget::Uri(u) => u,
                    },
                ),
            },
            project.target matches ProjectTarget::Uri(u) ==> (r is Ok <==> remote_uri(u@) is Some),
            project.target matches ProjectTarget::LocalPath(p) ==> (r is Err ==> local_uri(
                project.kind,
                p@,
                None,
            )),
    {
        let mut targets: Vec<String> = Vec::new();
        let mut i: usize = 0;
        assert(texts(targets@) =~= all_window_targets(window_states@.subrange(0, 0)));
        while i < window_states.len()
            invariant
                i <= window_states@.len(),
                texts(targets@) == all_window_targets(window_states@.subrange(0, i as int)),
            decreases window_states.len() - i,
        {
            let found = window_state_targets(&window_states[i]);
            let ghost before = targets@;
            let mut k: usize = 0;
            while k < found.len()
                invariant
                    k <= found@.len(),
                    texts(targets@) == texts(before) + texts(found@).subrange(0, k as int),
                decreases found.len() - k,
            {
                let ghost mid = targets@;
                targets.push(found[k].clone());
                assert(texts(targets@) =~= texts(mid).push(found@[k as int]@));
                assert(texts(found@).subrange(0, k + 1) =~= texts(found@).subrange(0, k as int).push(
                    found@[k as int]@,
                ));
                k = k + 1;
            }
            proof {
                let s = window_states@.subrange(0, i + 1);
                assert(s.drop_last() =~= window_states@.subrange(0, i as int));
                assert(s.last() == window_states@[i as int]);
                assert(texts(found@).subrange(0, found@.len() as int) =~= texts(found@));
            }
            i = i + 1;
        }
        assert(window_states@.subrange(0, window_states@.len() as int) =~= window_states@);
        build_launch_request(self.executable.clone(), project, targets.as_slice(), platform)
    }
}

} // verus!
