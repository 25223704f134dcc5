//! Where stable VS Code keeps its executable, product metadata, recent-project
//! database and window state on each platform.

use vstd::prelude::*;

use crate::paths::{
    after_last_separator, file_name, join, join_path, path_file_name, strip_trailing_separators,
    PlatformKind,
};
use crate::ranking::{policy_of, TargetIdentityPolicy};
use crate::sort::{lemma_insert_split, sort_stable};
use crate::text::{ascii_lower, ascii_lower_chars, chars_of, is_suffix, owned, replace_char, replace_chars};

verus! {

/// The views of a list of strings.
pub open spec fn views(v: Seq<String>) -> Seq<Seq<char>> {
    v.map_values(|s: String| s@)
}

/// The identity of a path under a policy: `\` read as `/`, ASCII case folded when case-insensitive.
pub open spec fn path_key(path: Seq<char>, policy: TargetIdentityPolicy) -> Seq<char> {
    let slashed = replace_char(path, '\\', '/');
    if policy == TargetIdentityPolicy::CaseInsensitiveAscii {
        ascii_lower(slashed)
    } else {
        slashed
    }
}

/// The paths of `s` whose identity has not occurred earlier, in order.
pub open spec fn unique(s: Seq<Seq<char>>, policy: TargetIdentityPolicy) -> Seq<Seq<char>>
    decreases s.len(),
{
    if s.len() == 0 {
        Seq::empty()
    } else {
        let previous = unique(s.drop_last(), policy);
        if exists|j: int| 0 <= j < s.len() - 1 && #[trigger] path_key(s[j], policy) == path_key(s.last(), policy) {
            previous
        } else {
            previous.push(s.last())
        }
    }
}

fn path_key_of(path: &String, policy: TargetIdentityPolicy) -> (r: Vec<char>)
    ensures
        r@ == path_key(path@, policy),
{
    let chars = chars_of(path.as_str());
    let slashed = replace_chars(&chars, '\\', '/');
    match policy {
        TargetIdentityPolicy::CaseInsensitiveAscii => ascii_lower_chars(&slashed),
        TargetIdentityPolicy::CaseSensitive => slashed,
    }
}

pub open spec fn key_among(s: Seq<Seq<char>>, n: int, k: Seq<char>, policy: TargetIdentityPolicy) -> bool {
    exists|j: int| 0 <= j < n && #[trigger] path_key(s[j], policy) == k
}

pub open spec fn keys_contain(keys: Seq<Vec<char>>, k: Seq<char>) -> bool {
    exists|m: int| 0 <= m < keys.len() && #[trigger] keys[m]@ == k
}

/// Keeps the first path of each identity, in order.
pub fn unique_paths(paths: Vec<String>, policy: TargetIdentityPolicy) -> (r: Vec<String>)
    ensures
        views(r@) == unique(views(paths@), policy),
{
    let ghost s = views(paths@);
    let mut out: Vec<String> = Vec::new();
    let mut keys: Vec<Vec<char>> = Vec::new();
    let mut i: usize = 0;
    while i < paths.len()
        invariant
            i <= paths@.len(),
            s == views(paths@),
            views(out@) == unique(s.subrange(0, i as int), policy),
            forall|k: Seq<char>|
                #![trigger key_among(s, i as int, k, policy)]
                #![trigger keys_contain(keys@, k)]
                key_among(s, i as int, k, policy) <==> keys_contain(keys@, k),
        decreases paths.len() - i,
    {
        let key = path_key_of(&paths[i], policy);
        let mut found = false;
        let mut m: usize = 0;
        while m < keys.len()
            invariant
                m <= keys@.len(),
                found <==> exists|q: int| 0 <= q < m && (#[trigger] keys@[q])@ == key@,
            decreases keys.len() - m,
        {
            if crate::text::chars_eq(&keys[m], &key) {
                found = true;
            }
            m = m + 1;
        }
        let ghost t = s.subrange(0, i + 1);
        proof {
            assert(t.drop_last() =~= s.subrange(0, i as int));
            assert(t.last() == s[i as int]);
            assert(s[i as int] == paths@[i as int]@);
            if found {
                assert(keys_contain(keys@, key@));
                assert(key_among(s, i as int, key@, policy));
                let j = choose|j: int| 0 <= j < i && #[trigger] path_key(s[j], policy) == key@;
                assert(t[j] == s[j]);
                assert(path_key(t[j], policy) == path_key(t.last(), policy));
            } else {
                if exists|j: int| 0 <= j < t.len() - 1 && #[trigger] path_key(t[j], policy) == path_key(t.last(), policy) {
                    let j = choose|j: int| 0 <= j < t.len() - 1 && #[trigger] path_key(t[j], policy) == path_key(t.last(), policy);
                    assert(t[j] == s[j]);
                    assert(key_among(s, i as int, key@, policy));
                    assert(keys_contain(keys@, key@));
                    let q = choose|q: int| 0 <= q < keys@.len() && (#[trigger] keys@[q])@ == key@;
                }
            }
        }
        let ghost keys_before = keys@;
        let ghost out_before = out@;
        if !found {
            out.push(paths[i].clone());
            keys.push(key);
            assert(views(out@) =~= views(out_before).push(s[i as int]));
        }
        proof {
            assert forall|k: Seq<char>| key_among(s, i + 1, k, policy) <==> keys_contain(keys@, k) by {
                if key_among(s, i + 1, k, policy) {
                    let j = choose|j: int| 0 <= j < i + 1 && #[trigger] path_key(s[j], policy) == k;
                    if j < i {
                        assert(key_among(s, i as int, k, policy));
                        let m = choose|m: int| 0 <= m < keys_before.len() && #[trigger] keys_before[m]@ == k;
                        assert(keys@[m] == keys_before[m]);
                    } else if found {
                        let q = choose|q: int| 0 <= q < keys_before.len() && (#[trigger] keys_before[q])@ == key@;
                        assert(keys@[q] == keys_before[q]);
                    } else {
                        assert(keys@[keys@.len() - 1]@ == k);
                    }
                }
                if keys_contain(keys@, k) {
                    let m = choose|m: int| 0 <= m < keys@.len() && #[trigger] keys@[m]@ == k;
                    if m < keys_before.len() {
                        assert(keys_before[m] == keys@[m]);
                        assert(keys_contain(keys_before, k));
                        assert(key_among(s, i as int, k, policy));
                        let j = choose|j: int| 0 <= j < i && #[trigger] path_key(s[j], policy) == k;
                    } else {
                        assert(path_key(s[i as int], policy) == k);
                    }
                }
            }
        }
        i = i + 1;
    }
    assert(s.subrange(0, s.len() as int) =~= s);
    out
}

/// `path` without its final component, as the parent directory of an
/// executable's `bin` directory is found.
pub open spec fn parent_dir(path: Seq<char>) -> Seq<char> {
    let t = strip_trailing_separators(path);
    let k = t.len() - after_last_separator(t).len();
    let p = strip_trailing_separators(t.subrange(0, k));
    if p.len() == 0 && k > 0 {
        t.subrange(0, 1)
    } else {
        p
    }
}

pub open spec fn is_bin_dir(dir: Seq<char>) -> bool {
    match file_name(dir) {
        Some(n) => ascii_lower(n) == seq!['b', 'i', 'n'],
        None => false,
    }
}

/// The executables looked for in one `PATH` directory.
pub open spec fn path_dir_candidates(platform: PlatformKind, dir: Seq<char>) -> Seq<Seq<char>> {
    if platform == PlatformKind::Windows {
        seq![join(platform, dir, "Code.exe"@), join(platform, dir, "code.exe"@)] + if is_bin_dir(dir) {
            seq![join(platform, parent_dir(dir), "Code.exe"@)]
        } else {
            Seq::empty()
        }
    } else {
        seq![join(platform, dir, "code"@)]
    }
}

/// The executables looked for in one application root.
pub open spec fn root_candidates(platform: PlatformKind, root: Seq<char>) -> Seq<Seq<char>> {
    match platform {
        PlatformKind::Windows => seq![join(platform, root, "Code.exe"@)],
        PlatformKind::Linux => seq![join(platform, root, "code"@), join(platform, root, "bin/code"@)],
        PlatformKind::MacOs => seq![join(platform, root, "Contents/Resources/app/bin/code"@)],
    }
}

/// Concatenation of `f` over a list.
pub open spec fn flat_map(s: Seq<Seq<char>>, f: spec_fn(Seq<char>) -> Seq<Seq<char>>) -> Seq<Seq<char>>
    decreases s.len(),
{
    if s.len() == 0 {
        Seq::empty()
    } else {
        flat_map(s.drop_last(), f) + f(s.last())
    }
}

/// Stable VS Code's locations on one platform.
#[derive(Debug, Clone)]
pub struct VsCodePlatformLayout {
    platform: PlatformKind,
    home: String,
    config_root: String,
    data_root: String,
    application_roots: Vec<String>,
    executable_path: Vec<String>,
}

/// Where the executable is looked for: each `PATH` directory, then each application root.
pub open spec fn spec_executable_candidates(
    platform: PlatformKind,
    executable_path: Seq<Seq<char>>,
    application_roots: Seq<Seq<char>>,
) -> Seq<Seq<char>> {
    unique(
        flat_map(executable_path, |d: Seq<char>| path_dir_candidates(platform, d)) + flat_map(
            application_roots,
            |r: Seq<char>| root_candidates(platform, r),
        ),
        policy_of(platform),
    )
}

/// The configuration roots that may hold VS Code's per-user storage.
pub open spec fn spec_legacy_storage_roots(
    platform: PlatformKind,
    home: Seq<char>,
    config_root: Seq<char>,
    name_short: Seq<char>,
) -> Seq<Seq<char>> {
    unique(
        seq![join(platform, config_root, name_short)] + if platform == PlatformKind::Linux {
            seq![
                join(platform, join(platform, home, "snap/code/current/.config"@), name_short),
                join(platform, join(platform, home, ".var/app/com.visualstudio.code/config"@), name_short),
            ]
        } else {
            Seq::empty()
        },
        policy_of(platform),
    )
}

/// Each root joined with `rel`.
pub open spec fn joined_all(platform: PlatformKind, roots: Seq<Seq<char>>, rel: Seq<char>) -> Seq<Seq<char>> {
    roots.map_values(|r: Seq<char>| join(platform, r, rel))
}

/// The installation facts that decide where its data lives.
#[derive(Debug, Clone, PartialEq, Eq)]
pub struct VsCodeInstallation {
    pub code_exe: String,
    pub product_json: String,
    pub version: String,
    pub name_short: String,
    pub shared_data_folder_name: String,
}

fn push_all(out: &mut Vec<String>, items: &Vec<String>)
    ensures
        views(final(out)@) == views(old(out)@) + views(items@),
{
    let ghost start = views(out@);
    let mut i: usize = 0;
    while i < items.len()
        invariant
            i <= items@.len(),
            views(out@) == start + views(items@).subrange(0, i as int),
        decreases items.len() - i,
    {
        let ghost before = out@;
        let item = items[i].clone();
        out.push(item);
        assert(out@ =~= before.push(item));
        assert(views(out@) =~= views(before).push(item@));
        assert(views(items@).subrange(0, i + 1) =~= views(items@).subrange(0, i as int).push(items@[i as int]@));
        i = i + 1;
        assert(views(out@) =~= start + views(items@).subrange(0, i as int));
    }
    assert(views(items@).subrange(0, items@.len() as int) =~= views(items@));
}

impl VsCodePlatformLayout {
    pub closed spec fn spec_platform(&self) -> PlatformKind {
        self.platform
    }

    pub closed spec fn spec_home(&self) -> Seq<char> {
        self.home@
    }

    pub closed spec fn spec_config_root(&self) -> Seq<char> {
        self.config_root@
    }

    pub closed spec fn spec_data_root(&self) -> Seq<char> {
        self.data_root@
    }

    pub closed spec fn spec_application_roots(&self) -> Seq<Seq<char>> {
        views(self.application_roots@)
    }

    pub closed spec fn spec_executable_path(&self) -> Seq<Seq<char>> {
        views(self.executable_path@)
    }

    /// The Windows layout: data under the roaming and local application-data folders.
    pub fn windows(
        home: String,
        roaming_data: String,
        local_data: String,
        application_roots: Vec<String>,
        executable_path: Vec<String>,
    ) -> (r: Self)
        ensures
            r.spec_platform() == PlatformKind::Windows,
            r.spec_home() == home@,
            r.spec_config_root() == roaming_data@,
            r.spec_data_root() == local_data@,
            r.spec_application_roots() == views(application_roots@),
            r.spec_executable_path() == views(executable_path@),
    {
        VsCodePlatformLayout {
            platform: PlatformKind::Windows,
            home,
            config_root: roaming_data,
            data_root: local_data,
            application_roots,
            executable_path,
        }
    }

    /// The Linux layout: XDG configuration and data roots.
    pub fn linux(
        home: String,
        config_root: String,
        data_root: String,
        application_roots: Vec<String>,
        executable_path: Vec<String>,
    ) -> (r: Self)
        ensures
            r.spec_platform() == PlatformKind::Linux,
            r.spec_home() == home@,
            r.spec_config_root() == config_root@,
            r.spec_data_root() == data_root@,
            r.spec_application_roots() == views(application_roots@),
            r.spec_executable_path() == views(executable_path@),
    {
        VsCodePlatformLayout {
            platform: PlatformKind::Linux,
            home,
            config_root,
            data_root,
            application_roots,
            executable_path,
        }
    }

    /// The macOS layout: configuration and data both under Application Support.
    pub fn macos(
        home: String,
        application_support: String,
        application_roots: Vec<String>,
        executable_path: Vec<String>,
    ) -> (r: Self)
        ensures
            r.spec_platform() == PlatformKind::MacOs,
            r.spec_home() == home@,
            r.spec_config_root() == application_support@,
            r.spec_data_root() == application_support@,
            r.spec_application_roots() == views(application_roots@),
            r.spec_executable_path() == views(executable_path@),
    {
        let data_root = application_support.clone();
        VsCodePlatformLayout {
            platform: PlatformKind::MacOs,
            home,
            config_root: application_support,
            data_root,
            application_roots,
            executable_path,
        }
    }

    pub fn platform(&self) -> (r: PlatformKind)
        ensures
            r == self.spec_platform(),
    {
        self.platform
    }

    pub fn home(&self) -> (r: &str)
        ensures
            r@ == self.spec_home(),
    {
        self.home.as_str()
    }

    pub fn config_root(&self) -> (r: &str)
        ensures
            r@ == self.spec_config_root(),
    {
        self.config_root.as_str()
    }

    pub fn data_root(&self) -> (r: &str)
        ensures
            r@ == self.spec_data_root(),
    {
        self.data_root.as_str()
    }

    /// Windows compares paths case-insensitively; Linux and macOS do not.
    pub fn target_identity_policy(&self) -> (r: TargetIdentityPolicy)
        ensures
            r == policy_of(self.spec_platform()),
    {
        TargetIdentityPolicy::current(self.platform)
    }

    fn dir_candidates(&self, dir: &String) -> (r: Vec<String>)
        ensures
            views(r@) == path_dir_candidates(self.spec_platform(), dir@),
    {
        let mut r: Vec<String> = Vec::new();
        match self.platform {
            PlatformKind::Windows => {
                r.push(join_path(self.platform, dir.as_str(), "Code.exe"));
                r.push(join_path(self.platform, dir.as_str(), "code.exe"));
                let name = path_file_name(dir.as_str());
                let is_bin = match name {
                    Some(n) => {
                        let lowered = ascii_lower_chars(&chars_of(n.as_str()));
                        let bin = vec!['b', 'i', 'n'];
                        assert(bin@ =~= seq!['b', 'i', 'n']);
                        crate::text::chars_eq(&lowered, &bin)
                    },
                    None => false,
                };
                if is_bin {
                    let parent = parent_of(dir.as_str());
                    r.push(join_path(self.platform, parent.as_str(), "Code.exe"));
                }
            },
            _ => {
                r.push(join_path(self.platform, dir.as_str(), "code"));
            },
        }
        assert(views(r@) =~= path_dir_candidates(self.spec_platform(), dir@));
        r
    }

    fn app_root_candidates(&self, root: &String) -> (r: Vec<String>)
        ensures
            views(r@) == root_candidates(self.spec_platform(), root@),
    {
        let mut r: Vec<String> = Vec::new();
        match self.platform {
            PlatformKind::Windows => {
                r.push(join_path(self.platform, root.as_str(), "Code.exe"));
            },
            PlatformKind::Linux => {
                r.push(join_path(self.platform, root.as_str(), "code"));
                r.push(join_path(self.platform, root.as_str(), "bin/code"));
            },
            PlatformKind::MacOs => {
                r.push(join_path(self.platform, root.as_str(), "Contents/Resources/app/bin/code"));
            },
        }
        assert(views(r@) =~= root_candidates(self.spec_platform(), root@));
        r
    }

    /// The executables to try, in order, without repeats.
    pub fn executable_candidates(&self) -> (r: Vec<String>)
        ensures
            views(r@) == spec_executable_candidates(
                self.spec_platform(),
                self.spec_executable_path(),
                self.spec_application_roots(),
            ),
    {
        let mut all: Vec<String> = Vec::new();
        let ghost dirs = views(self.executable_path@);
        let ghost roots = views(self.application_roots@);
        let ghost platform = self.platform;
        let mut i: usize = 0;
        while i < self.executable_path.len()
            invariant
                i <= self.executable_path@.len(),
                dirs == views(self.executable_path@),
                platform == self.platform,
                views(all@) == flat_map(dirs.subrange(0, i as int), |d: Seq<char>| path_dir_candidates(platform, d)),
            decreases self.executable_path.len() - i,
        {
            let more = self.dir_candidates(&self.executable_path[i]);
            push_all(&mut all, &more);
            let ghost t = dirs.subrange(0, i + 1);
            assert(t.drop_last() =~= dirs.subrange(0, i as int));
            i = i + 1;
        }
        assert(dirs.subrange(0, dirs.len() as int) =~= dirs);
        let ghost first = views(all@);
        let mut k: usize = 0;
        while k < self.application_roots.len()
            invariant
                k <= self.application_roots@.len(),
                roots == views(self.application_roots@),
                platform == self.platform,
                views(all@) == first + flat_map(roots.subrange(0, k as int), |r: Seq<char>| root_candidates(platform, r)),
            decreases self.application_roots.len() - k,
        {
            let more = self.app_root_candidates(&self.application_roots[k]);
            push_all(&mut all, &more);
            let ghost t = roots.subrange(0, k + 1);
            assert(t.drop_last() =~= roots.subrange(0, k as int));
            k = k + 1;
        }
        assert(roots.subrange(0, roots.len() as int) =~= roots);
        let policy = self.target_identity_policy();
        unique_paths(all, policy)
    }

    /// The roots of VS Code's per-user storage for the installation named `name_short`.
    pub fn legacy_storage_roots(&self, name_short: &str) -> (r: Vec<String>)
        ensures
            views(r@) == spec_legacy_storage_roots(
                self.spec_platform(),
                self.spec_home(),
                self.spec_config_root(),
                name_short@,
            ),
    {
        let mut roots: Vec<String> = Vec::new();
        roots.push(join_path(self.platform, self.config_root.as_str(), name_short));
        match self.platform {
            PlatformKind::Linux => {
                let snap = join_path(self.platform, self.home.as_str(), "snap/code/current/.config");
                roots.push(join_path(self.platform, snap.as_str(), name_short));
                let flatpak = join_path(
                    self.platform,
                    self.home.as_str(),
                    ".var/app/com.visualstudio.code/config",
                );
                roots.push(join_path(self.platform, flatpak.as_str(), name_short));
            },
            _ => {},
        }
        assert(views(roots@) =~= seq![join(self.spec_platform(), self.spec_config_root(), name_short@)]
            + if self.spec_platform() == PlatformKind::Linux {
            seq![
                join(self.spec_platform(), join(self.spec_platform(), self.spec_home(), "snap/code/current/.config"@), name_short@),
                join(self.spec_platform(), join(self.spec_platform(), self.spec_home(), ".var/app/com.visualstudio.code/config"@), name_short@),
            ]
        } else {
            Seq::empty()
        });
        let policy = self.target_identity_policy();
        unique_paths(roots, policy)
    }

    fn joined_each(&self, roots: &Vec<String>, rel: &str) -> (r: Vec<String>)
        ensures
            views(r@) == joined_all(self.spec_platform(), views(roots@), rel@),
    {
        let mut r: Vec<String> = Vec::new();
        let mut i: usize = 0;
        while i < roots.len()
            invariant
                i <= roots@.len(),
                views(r@) == joined_all(self.spec_platform(), views(roots@).subrange(0, i as int), rel@),
            decreases roots.len() - i,
        {
            let ghost before = r@;
            let item = join_path(self.platform, roots[i].as_str(), rel);
            r.push(item);
            assert(views(r@) =~= views(before).push(item@));
            assert(views(roots@).subrange(0, i + 1) =~= views(roots@).subrange(0, i as int).push(roots@[i as int]@));
            i = i + 1;
            assert(views(r@) =~= joined_all(self.spec_platform(), views(roots@).subrange(0, i as int), rel@));
        }
        assert(views(roots@).subrange(0, roots@.len() as int) =~= views(roots@));
        r
    }

    /// The recent-project databases, in the order they are consulted: the
    /// application-shared database first, then each legacy global storage.
    pub fn database_candidates(&self, installation: &VsCodeInstallation) -> (r: Vec<String>)
        ensures
            views(r@) == unique(
                seq![join(self.spec_platform(), join(self.spec_platform(), self.spec_home(), installation.shared_data_folder_name@), "sharedStorage/state.vscdb"@)]
                    + joined_all(
                    self.spec_platform(),
                    spec_legacy_storage_roots(self.spec_platform(), self.spec_home(), self.spec_config_root(), installation.name_short@),
                    "User/globalStorage/state.vscdb"@,
                ),
                policy_of(self.spec_platform()),
            ),
    {
        let shared = join_path(self.platform, self.home.as_str(), installation.shared_data_folder_name.as_str());
        let mut candidates: Vec<String> = Vec::new();
        let first_path = join_path(self.platform, shared.as_str(), "sharedStorage/state.vscdb");
        candidates.push(first_path);
        assert(views(candidates@) =~= seq![first_path@]);
        let roots = self.legacy_storage_roots(installation.name_short.as_str());
        let legacy = self.joined_each(&roots, "User/globalStorage/state.vscdb");
        let ghost first = views(candidates@);
        push_all(&mut candidates, &legacy);
        let policy = self.target_identity_policy();
        unique_paths(candidates, policy)
    }

    /// The window-state files that list the open windows.
    pub fn window_state_candidates(&self, installation: &VsCodeInstallation) -> (r: Vec<String>)
        ensures
            views(r@) == unique(
                joined_all(
                    self.spec_platform(),
                    spec_legacy_storage_roots(self.spec_platform(), self.spec_home(), self.spec_config_root(), installation.name_short@),
                    "User/globalStorage/storage.json"@,
                ),
                policy_of(self.spec_platform()),
            ),
    {
        let roots = self.legacy_storage_roots(installation.name_short.as_str());
        let files = self.joined_each(&roots, "User/globalStorage/storage.json");
        let policy = self.target_identity_policy();
        unique_paths(files, policy)
    }
}

/// The parent directory of `path`.
pub fn parent_of(path: &str) -> (r: String)
    ensures
        r@ == parent_dir(path@),
{
    let s = chars_of(path);
    let n = strip_len(&s);
    let k = after_len(&s, n);
    let pre = prefix_chars(&s, k);
    let p = strip_len(&pre);
    proof {
        let t = s@.subrange(0, n as int);
        assert(t == strip_trailing_separators(path@));
        assert(pre@ =~= t.subrange(0, k as int));
        assert(s@.subrange(0, p as int) =~= pre@.subrange(0, p as int));
        if k > 0 {
            assert(s@.subrange(0, 1) =~= t.subrange(0, 1));
        }
    }
    if p == 0 && k > 0 {
        crate::text::string_of(&s, 0, 1)
    } else {
        crate::text::string_of(&s, 0, p)
    }
}

fn prefix_chars(s: &Vec<char>, k: usize) -> (r: Vec<char>)
    requires
        k <= s@.len(),
    ensures
        r@ == s@.subrange(0, k as int),
{
    let mut r: Vec<char> = Vec::new();
    let mut i: usize = 0;
    while i < k
        invariant
            i <= k <= s@.len(),
            r@ == s@.subrange(0, i as int),
        decreases k - i,
    {
        r.push(s[i]);
        i = i + 1;
        assert(r@ =~= s@.subrange(0, i as int));
    }
    r
}

fn strip_len(s: &Vec<char>) -> (n: usize)
    ensures
        n <= s@.len(),
        s@.subrange(0, n as int) == strip_trailing_separators(s@),
{
    let mut n = s.len();
    assert(s@.subrange(0, n as int) =~= s@);
    while n > 0 && (s[n - 1] == '/' || s[n - 1] == '\\')
        invariant
            n <= s@.len(),
            strip_trailing_separators(s@) == strip_trailing_separators(s@.subrange(0, n as int)),
        decreases n,
    {
        assert(s@.subrange(0, n as int).drop_last() =~= s@.subrange(0, n - 1));
        n = n - 1;
    }
    n
}

fn after_len(s: &Vec<char>, n: usize) -> (k: usize)
    requires
        n <= s@.len(),
    ensures
        k <= n,
        k == n - after_last_separator(s@.subrange(0, n as int)).len(),
{
    let mut k = n;
    while k > 0 && !(s[k - 1] == '/' || s[k - 1] == '\\')
        invariant
            k <= n <= s@.len(),
            after_last_separator(s@.subrange(0, n as int)).len() == after_last_separator(
                s@.subrange(0, k as int),
            ).len() + (n - k),
        decreases k,
    {
        let ghost t = s@.subrange(0, k as int);
        assert(t.drop_last() =~= s@.subrange(0, k - 1));
        assert(t.last() == s@[k - 1]);
        k = k - 1;
    }
    proof {
        let t = s@.subrange(0, k as int);
        if k > 0 {
            assert(t.last() == s@[k - 1]);
        }
    }
    k
}

/// The Windows discovery environment: the user profile and the folders VS
/// Code installs and stores data under, plus the `PATH` directories.
#[derive(Debug, Clone)]
pub struct DiscoveryEnvironment {
    pub home: String,
    pub app_data: String,
    pub local_app_data: String,
    pub program_files: String,
    pub program_files_x86: String,
    pub path: Vec<String>,
}

/// The install roots of a Windows environment: the per-user programs folder,
/// then both program-files folders, skipping unknown ones.
pub open spec fn windows_application_roots(env: DiscoveryEnvironment) -> Seq<Seq<char>> {
    (if env.local_app_data@.len() > 0 {
        seq![join(PlatformKind::Windows, env.local_app_data@, "Programs/Microsoft VS Code"@)]
    } else {
        Seq::empty()
    }) + (if env.program_files@.len() > 0 {
        seq![join(PlatformKind::Windows, env.program_files@, "Microsoft VS Code"@)]
    } else {
        Seq::empty()
    }) + (if env.program_files_x86@.len() > 0 {
        seq![join(PlatformKind::Windows, env.program_files_x86@, "Microsoft VS Code"@)]
    } else {
        Seq::empty()
    })
}

impl DiscoveryEnvironment {
    /// The Windows layout of this environment.
    pub fn layout(&self) -> (r: VsCodePlatformLayout)
        ensures
            r.spec_platform() == PlatformKind::Windows,
            r.spec_home() == self.home@,
            r.spec_config_root() == self.app_data@,
            r.spec_data_root() == self.local_app_data@,
            r.spec_application_roots() == windows_application_roots(*self),
            r.spec_executable_path() == views(self.path@),
    {
        let mut roots: Vec<String> = Vec::new();
        if self.local_app_data.as_str().unicode_len() > 0 {
            roots.push(join_path(PlatformKind::Windows, self.local_app_data.as_str(), "Programs/Microsoft VS Code"));
        }
        if self.program_files.as_str().unicode_len() > 0 {
            roots.push(join_path(PlatformKind::Windows, self.program_files.as_str(), "Microsoft VS Code"));
        }
        if self.program_files_x86.as_str().unicode_len() > 0 {
            roots.push(join_path(PlatformKind::Windows, self.program_files_x86.as_str(), "Microsoft VS Code"));
        }
        assert(views(roots@) =~= windows_application_roots(*self));
        let mut path: Vec<String> = Vec::new();
        push_all(&mut path, &self.path);
        assert(views(path@) =~= views(self.path@));
        VsCodePlatformLayout::windows(
            self.home.clone(),
            self.app_data.clone(),
            self.local_app_data.clone(),
            roots,
            path,
        )
    }
}

/// The recent-project databases of `installation` in a Windows environment.
pub fn database_candidates(installation: &VsCodeInstallation, environment: &DiscoveryEnvironment) -> (r: Vec<String>)
    ensures
        views(r@) == unique(
            seq![join(PlatformKind::Windows, join(PlatformKind::Windows, environment.home@, installation.shared_data_folder_name@), "sharedStorage/state.vscdb"@)]
                + joined_all(
                PlatformKind::Windows,
                spec_legacy_storage_roots(PlatformKind::Windows, environment.home@, environment.app_data@, installation.name_short@),
                "User/globalStorage/state.vscdb"@,
            ),
            TargetIdentityPolicy::CaseInsensitiveAscii,
        ),
{
    environment.layout().database_candidates(installation)
}

/// The window-state files of `installation` in a Windows environment.
pub fn window_state_candidates(installation: &VsCodeInstallation, environment: &DiscoveryEnvironment) -> (r: Vec<String>)
    ensures
        views(r@) == unique(
            joined_all(
                PlatformKind::Windows,
                spec_legacy_storage_roots(PlatformKind::Windows, environment.home@, environment.app_data@, installation.name_short@),
                "User/globalStorage/storage.json"@,
            ),
            TargetIdentityPolicy::CaseInsensitiveAscii,
        ),
{
    environment.layout().window_state_candidates(installation)
}

// ---------------------------------------------------------------------------
// Executables given by the user, and their product metadata
// ---------------------------------------------------------------------------

/// Whether `path` has a parent directory (`Path::parent` is `Some`): it has a
/// component besides trailing separators.
pub open spec fn has_parent(path: Seq<char>) -> bool {
    strip_trailing_separators(path).len() > 0
}

/// Whether the final component names a macOS application bundle
/// (`Path::extension` is `app`).
pub open spec fn has_app_extension(path: Seq<char>) -> bool {
    match file_name(path) {
        Some(n) => n.len() > 4 && is_suffix(".app"@, n),
        None => false,
    }
}

/// Whether the final component is `code.cmd`, ignoring ASCII case.
pub open spec fn is_code_cmd(path: Seq<char>) -> bool {
    match file_name(path) {
        Some(n) => ascii_lower(n) == "code.cmd"@,
        None => false,
    }
}

/// On Windows, the `Code.exe` two levels above `path` (where `bin\code.cmd`
/// points), when `path` has a grandparent.
pub open spec fn sibling_probe(platform: PlatformKind, path: Seq<char>) -> Option<Seq<char>> {
    if platform == PlatformKind::Windows && has_parent(path) && has_parent(parent_dir(path)) {
        Some(join(platform, parent_dir(parent_dir(path)), "Code.exe"@))
    } else {
        None
    }
}

/// What the file system says about a user-given executable path.
#[derive(Debug, Clone, Copy, PartialEq, Eq)]
pub struct CandidateFacts {
    /// The path is a directory.
    pub is_dir: bool,
    /// `code` inside the path is a file.
    pub direct_code_is_file: bool,
    /// The sibling probe (`..\..\Code.exe`) is a file.
    pub sibling_code_exe_is_file: bool,
}

/// The executable a user-given path stands for: a directory names the
/// executable inside it, `bin\code.cmd` names the `Code.exe` it launches,
/// anything else is taken as it is.
pub open spec fn spec_normalize(platform: PlatformKind, path: Seq<char>, facts: CandidateFacts) -> Seq<char> {
    if facts.is_dir {
        match platform {
            PlatformKind::Windows => join(platform, path, "Code.exe"@),
            PlatformKind::Linux => if facts.direct_code_is_file {
                join(platform, path, "code"@)
            } else {
                join(platform, path, "bin/code"@)
            },
            PlatformKind::MacOs => if has_app_extension(path) {
                join(platform, path, "Contents/Resources/app/bin/code"@)
            } else {
                join(platform, path, "code"@)
            },
        }
    } else if is_code_cmd(path) && sibling_probe(platform, path) is Some
        && facts.sibling_code_exe_is_file {
        sibling_probe(platform, path)->0
    } else {
        path
    }
}

/// Whether a modification time `a` is later than `b`; an unknown time is
/// later than none and earlier than any known one.
pub open spec fn modified_later(a: Option<i128>, b: Option<i128>) -> bool {
    match (a, b) {
        (Some(x), Some(y)) => x > y,
        (Some(_), None) => true,
        _ => false,
    }
}

/// Newer products first: the strict order of a stable sort by modification time, latest first.
pub open spec fn by_newest() -> spec_fn((Option<i128>, String), (Option<i128>, String)) -> bool {
    |a: (Option<i128>, String), b: (Option<i128>, String)| modified_later(a.0, b.0)
}

fn later(a: Option<i128>, b: Option<i128>) -> (r: bool)
    ensures
        r == modified_later(a, b),
{
    match (a, b) {
        (Some(x), Some(y)) => x > y,
        (Some(_), None) => true,
        _ => false,
    }
}

/// The versioned `product.json` files beside an executable, newest first:
/// each is given with its directory's modification time (nanoseconds from
/// the Unix epoch; `None` when it could not be read), sorted by that time,
/// latest first, files with an unknown time last, and files with equal times
/// in the order given.
pub fn newest_first(products: &[(Option<i128>, String)]) -> (r: Vec<String>)
    ensures
        r@ == sort_stable(products@, by_newest()).map_values(|e: (Option<i128>, String)| e.1),
{
    let mut out: Vec<(Option<i128>, String)> = Vec::new();
    let mut i: usize = 0;
    while i < products.len()
        invariant
            i <= products@.len(),
            out@ == sort_stable(products@.subrange(0, i as int), by_newest()),
        decreases products.len() - i,
    {
        let x = (products[i].0, products[i].1.clone());
        let mut j = out.len();
        while j > 0 && later(x.0, out[j - 1].0)
            invariant
                j <= out@.len(),
                forall|k: int| j <= k < out@.len() ==> modified_later(x.0, (#[trigger] out@[k]).0),
            decreases j,
        {
            j = j - 1;
        }
        proof {
            lemma_insert_split(out@, x, by_newest(), j as int);
            let s = products@.subrange(0, i + 1);
            assert(s.drop_last() =~= products@.subrange(0, i as int));
            assert(s.last() == products@[i as int]);
        }
        let ghost before = out@;
        out.insert(j, x);
        assert(out@ =~= before.subrange(0, j as int).push(x) + before.subrange(j as int, before.len() as int));
        i = i + 1;
    }
    assert(products@.subrange(0, products@.len() as int) =~= products@);
    let mut names: Vec<String> = Vec::new();
    let mut k: usize = 0;
    while k < out.len()
        invariant
            k <= out@.len(),
            names@ == out@.subrange(0, k as int).map_values(|e: (Option<i128>, String)| e.1),
        decreases out.len() - k,
    {
        names.push(out[k].1.clone());
        k = k + 1;
        assert(names@ =~= out@.subrange(0, k as int).map_values(|e: (Option<i128>, String)| e.1));
    }
    assert(out@.subrange(0, out@.len() as int) =~= out@);
    names
}

/// One form of an executable path (as given, or canonical), with the
/// versioned `product.json` files found beside it, newest first.
#[derive(Debug, Clone, PartialEq, Eq)]
pub struct ExecutableForm {
    pub path: String,
    pub versioned_products: Vec<String>,
}

/// The `product.json` files that may describe the executable at `path`.
pub open spec fn form_products(platform: PlatformKind, path: Seq<char>, versioned: Seq<Seq<char>>) -> Seq<
    Seq<char>,
> {
    if !has_parent(path) {
        Seq::empty()
    } else {
        let dir = parent_dir(path);
        match platform {
            PlatformKind::Windows => seq![join(platform, dir, "resources/app/product.json"@)] + versioned,
            PlatformKind::Linux => seq![join(platform, dir, "resources/app/product.json"@)] + if has_parent(dir) {
                seq![join(platform, parent_dir(dir), "resources/app/product.json"@)]
            } else {
                Seq::empty()
            },
            PlatformKind::MacOs => if has_parent(dir) {
                seq![join(platform, parent_dir(dir), "product.json"@)]
            } else {
                Seq::empty()
            },
        }
    }
}

/// The `product.json` files of all forms, form by form.
pub open spec fn all_form_products(platform: PlatformKind, forms: Seq<ExecutableForm>) -> Seq<Seq<char>>
    decreases forms.len(),
{
    if forms.len() == 0 {
        Seq::empty()
    } else {
        all_form_products(platform, forms.drop_last()) + form_products(
            platform,
            forms.last().path@,
            views(forms.last().versioned_products@),
        )
    }
}

pub(crate) fn has_parent_of(path: &str) -> (r: bool)
    ensures
        r == has_parent(path@),
{
    let s = chars_of(path);
    strip_len(&s) > 0
}

fn file_name_is(path: &str, lower: &str) -> (r: bool)
    ensures
        r == match file_name(path@) {
            Some(n) => ascii_lower(n) == lower@,
            None => false,
        },
{
    match path_file_name(path) {
        Some(n) => crate::text::chars_eq(&ascii_lower_chars(&chars_of(n.as_str())), &chars_of(lower)),
        None => false,
    }
}

fn has_app_extension_of(path: &str) -> (r: bool)
    ensures
        r == has_app_extension(path@),
{
    match path_file_name(path) {
        Some(n) => {
            let c = chars_of(n.as_str());
            c.len() > 4 && crate::text::ends_with(&c, &chars_of(".app"))
        },
        None => false,
    }
}

impl VsCodePlatformLayout {
    /// The paths whose kind decides what a user-given path stands for:
    /// `code` inside it, and the sibling probe on Windows.
    pub fn normalize_probes(&self, path: &str) -> (r: (String, Option<String>))
        ensures
            r.0@ == join(self.spec_platform(), path@, "code"@),
            match r.1 {
                Some(p) => sibling_probe(self.spec_platform(), path@) == Some(p@),
                None => sibling_probe(self.spec_platform(), path@) is None,
            },
    {
        let direct = join_path(self.platform, path, "code");
        let sibling = match self.platform {
            PlatformKind::Windows => if has_parent_of(path) {
                let parent = parent_of(path);
                if has_parent_of(parent.as_str()) {
                    let grandparent = parent_of(parent.as_str());
                    Some(join_path(self.platform, grandparent.as_str(), "Code.exe"))
                } else {
                    None
                }
            } else {
                None
            },
            _ => None,
        };
        (direct, sibling)
    }

    /// The executable that the user-given `path` stands for, given what the
    /// file system says about it.
    pub fn normalize_executable_candidate(&self, path: &str, facts: &CandidateFacts) -> (r: String)
        ensures
            r@ == spec_normalize(self.spec_platform(), path@, *facts),
    {
        if facts.is_dir {
            return match self.platform {
                PlatformKind::Windows => join_path(self.platform, path, "Code.exe"),
                PlatformKind::Linux => if facts.direct_code_is_file {
                    join_path(self.platform, path, "code")
                } else {
                    join_path(self.platform, path, "bin/code")
                },
                PlatformKind::MacOs => if has_app_extension_of(path) {
                    join_path(self.platform, path, "Contents/Resources/app/bin/code")
                } else {
                    join_path(self.platform, path, "code")
                },
            };
        }
        let (_, sibling) = self.normalize_probes(path);
        if file_name_is(path, "code.cmd") && facts.sibling_code_exe_is_file {
            if let Some(exe) = sibling {
                return exe;
            }
        }
        owned(path)
    }

    fn form_product_paths(&self, form: &ExecutableForm) -> (r: Vec<String>)
        ensures
            views(r@) == form_products(self.spec_platform(), form.path@, views(form.versioned_products@)),
    {
        let mut r: Vec<String> = Vec::new();
        if !has_parent_of(form.path.as_str()) {
            assert(views(r@) =~= Seq::<Seq<char>>::empty());
            return r;
        }
        let dir = parent_of(form.path.as_str());
        match self.platform {
            PlatformKind::Windows => {
                r.push(join_path(self.platform, dir.as_str(), "resources/app/product.json"));
                push_all(&mut r, &form.versioned_products);
            },
            PlatformKind::Linux => {
                r.push(join_path(self.platform, dir.as_str(), "resources/app/product.json"));
                if has_parent_of(dir.as_str()) {
                    let up = parent_of(dir.as_str());
                    r.push(join_path(self.platform, up.as_str(), "resources/app/product.json"));
                }
            },
            PlatformKind::MacOs => {
                if has_parent_of(dir.as_str()) {
                    let up = parent_of(dir.as_str());
                    r.push(join_path(self.platform, up.as_str(), "product.json"));
                }
            },
        }
        assert(views(r@) =~= form_products(self.spec_platform(), form.path@, views(form.versioned_products@)));
        r
    }

    /// The `product.json` files to try for an executable, in order and
    /// without repeats, from its forms (as given, then canonical).
    pub fn product_candidates(&self, forms: &[ExecutableForm]) -> (r: Vec<String>)
        ensures
            views(r@) == unique(all_form_products(self.spec_platform(), forms@), policy_of(self.spec_platform())),
    {
        let mut all: Vec<String> = Vec::new();
        let mut i: usize = 0;
        assert(views(all@) =~= all_form_products(self.spec_platform(), forms@.subrange(0, 0)));
        while i < forms.len()
            invariant
                i <= forms@.len(),
                views(all@) == all_form_products(self.spec_platform(), forms@.subrange(0, i as int)),
            decreases forms.len() - i,
        {
            let more = self.form_product_paths(&forms[i]);
            push_all(&mut all, &more);
            let ghost t = forms@.subrange(0, i + 1);
            assert(t.drop_last() =~= forms@.subrange(0, i as int));
            assert(t.last() == forms@[i as int]);
            i = i + 1;
        }
        assert(forms@.subrange(0, forms@.len() as int) =~= forms@);
        let policy = self.target_identity_policy();
        unique_paths(all, policy)
    }
}

/// The Linux install roots: the system locations, the per-user data root, and the snap.
pub open spec fn linux_application_roots(home: Seq<char>, data_root: Seq<char>) -> Seq<Seq<char>> {
    seq![
        "/usr/share/code"@,
        "/usr/lib/code"@,
        "/opt/visual-studio-code"@,
        join(PlatformKind::Linux, data_root, "code"@),
        join(PlatformKind::Linux, home, "snap/code/current/usr/share/code"@),
    ]
}

/// The macOS install roots: the system and the per-user application bundle.
pub open spec fn macos_application_roots(home: Seq<char>) -> Seq<Seq<char>> {
    seq!["/Applications/Visual Studio Code.app"@, join(PlatformKind::MacOs, home, "Applications/Visual Studio Code.app"@)]
}

fn some_or_joined(value: Option<&str>, base: &str, rel: &str) -> (r: String)
    ensures
        r@ == match value {
            Some(v) => v@,
            None => join(PlatformKind::Linux, base@, rel@),
        },
{
    match value {
        Some(v) => owned(v),
        None => join_path(PlatformKind::Linux, base, rel),
    }
}

impl VsCodePlatformLayout {
    /// The Linux layout of a session: `XDG_CONFIG_HOME` (else `~/.config`)
    /// and `XDG_DATA_HOME` (else `~/.local/share`) as roots.
    pub fn linux_session(
        home: &str,
        xdg_config_home: Option<&str>,
        xdg_data_home: Option<&str>,
        executable_path: Vec<String>,
    ) -> (r: Self)
        ensures
            r.spec_platform() == PlatformKind::Linux,
            r.spec_home() == home@,
            r.spec_config_root() == match xdg_config_home {
                Some(x) => x@,
                None => join(PlatformKind::Linux, home@, ".config"@),
            },
            r.spec_data_root() == match xdg_data_home {
                Some(x) => x@,
                None => join(PlatformKind::Linux, home@, ".local/share"@),
            },
            r.spec_application_roots() == linux_application_roots(home@, r.spec_data_root()),
            r.spec_executable_path() == views(executable_path@),
    {
        let config_root = some_or_joined(xdg_config_home, home, ".config");
        let data_root = some_or_joined(xdg_data_home, home, ".local/share");
        let mut roots: Vec<String> = Vec::new();
        roots.push(owned("/usr/share/code"));
        roots.push(owned("/usr/lib/code"));
        roots.push(owned("/opt/visual-studio-code"));
        roots.push(join_path(PlatformKind::Linux, data_root.as_str(), "code"));
        roots.push(join_path(PlatformKind::Linux, home, "snap/code/current/usr/share/code"));
        assert(views(roots@) =~= linux_application_roots(home@, data_root@));
        VsCodePlatformLayout::linux(owned(home), config_root, data_root, roots, executable_path)
    }

    /// The macOS layout of a session: Application Support under the home folder.
    pub fn macos_session(home: &str, executable_path: Vec<String>) -> (r: Self)
        ensures
            r.spec_platform() == PlatformKind::MacOs,
            r.spec_home() == home@,
            r.spec_config_root() == join(PlatformKind::MacOs, home@, "Library/Application Support"@),
            r.spec_data_root() == r.spec_config_root(),
            r.spec_application_roots() == macos_application_roots(home@),
            r.spec_executable_path() == views(executable_path@),
    {
        let support = join_path(PlatformKind::MacOs, home, "Library/Application Support");
        let mut roots: Vec<String> = Vec::new();
        roots.push(owned("/Applications/Visual Studio Code.app"));
        roots.push(join_path(PlatformKind::MacOs, home, "Applications/Visual Studio Code.app"));
        assert(views(roots@) =~= macos_application_roots(home@));
        VsCodePlatformLayout::macos(owned(home), support, roots, executable_path)
    }
}

} // verus!
