use recentry::format::fingerprint;
use recentry::opener::comparable_target;
use recentry::paths::{join_path, PlatformKind};
use recentry::recent::{entry_target, is_workspace_target, recent_project, uri_from_value};
use recentry::{
    build_launch_request, database_candidates, deduplicate, installation_missing,
    parse_window_states,
    local_answers, parse_recent_json, parse_recent_json_with_policy, parse_recent_value,
    parse_recent_value_with_policy, product_search_failed,
    product_step, recent_projects_from,
    search_projects, target_argument_kind, target_key, window_state_candidates,
    window_state_targets, CandidateFacts, DatabaseRead, DiagnosticLevel, DiscoveryEnvironment,
    DiscoveryProgress, DiscoveryStep, ExecutableForm, JsonValue, OpenError, OpenOutcome,
    ProductRead, ProductStep, ProjectId, ProjectKind, ProjectTarget, ProviderId, RecentFormatError,
    RecentProject, TargetIdentityPolicy, VsCodeError, VsCodeInstallation, VsCodeOpener,
    VsCodePlatformLayout,
};

fn project(name: &str, target: &str, index: u32) -> RecentProject {
    RecentProject {
        id: ProjectId(format!("vscode:{index}")),
        provider: ProviderId("vscode".to_owned()),
        kind: ProjectKind::Folder,
        target: ProjectTarget::LocalPath(target.to_owned()),
        name: name.to_owned(),
        detail: target.to_owned(),
        recent_index: index,
    }
}

fn text(value: &str) -> JsonValue {
    JsonValue::Str(value.to_owned())
}

fn object(members: Vec<(&str, JsonValue)>) -> JsonValue {
    JsonValue::Object(
        members
            .into_iter()
            .map(|(key, value)| (key.to_owned(), value))
            .collect(),
    )
}

fn windows_environment() -> DiscoveryEnvironment {
    DiscoveryEnvironment {
        home: r"C:\Users\tester".to_owned(),
        app_data: r"C:\Users\tester\AppData\Roaming".to_owned(),
        local_app_data: r"C:\Users\tester\AppData\Local".to_owned(),
        program_files: r"C:\Program Files".to_owned(),
        program_files_x86: r"C:\Program Files (x86)".to_owned(),
        path: Vec::new(),
    }
}

fn installation() -> VsCodeInstallation {
    VsCodeInstallation {
        code_exe: r"C:\Code\Code.exe".to_owned(),
        product_json: r"C:\Code\resources\app\product.json".to_owned(),
        version: "1.129.1".to_owned(),
        name_short: "Code".to_owned(),
        shared_data_folder_name: ".vscode-shared".to_owned(),
    }
}

#[test]
fn parses_current_and_legacy_recent_shapes_and_excludes_plain_files() {
    let json = r#"{
        "entries": [
            {"folderUri":"file:///C:/work/recentry"},
            {"workspace":{"configPath":{"scheme":"file","path":"/C:/work/team.code-workspace"}}},
            {"fileUri":"file:///C:/work/notes.txt"},
            {"fileUri":"file:///C:/work/legacy.code-workspace?window=1#recent"},
            {"folderUri":{"scheme":"vscode-remote","authority":"ssh-remote+devbox","path":"/work/api"}}
        ]
    }"#;

    let projects = parse_recent_value(json, PlatformKind::Windows).unwrap();
    assert_eq!(projects.len(), 4);
    assert_eq!(projects[0].name, "recentry");
    assert_eq!(projects[1].kind, ProjectKind::Workspace);
    assert_eq!(projects[2].name, "legacy");
    assert!(matches!(projects[3].target, ProjectTarget::Uri(_)));
    assert_eq!(projects[0].recent_index, 0);
    assert_eq!(projects[3].recent_index, 4);
}

#[test]
fn empty_search_preserves_recent_order_and_text_search_ranks_name_first() {
    let projects = vec![
        project("Other", r"C:\work\recentry-docs", 0),
        project("Recentry", r"C:\work\app", 1),
        project("recentry-tools", r"C:\work\tools", 2),
    ];
    assert_eq!(
        search_projects(&projects, "")
            .iter()
            .map(|item| item.recent_index)
            .collect::<Vec<_>>(),
        vec![0, 1, 2]
    );
    assert_eq!(search_projects(&projects, "recentry")[0].name, "Recentry");
}

#[test]
fn deduplication_is_case_insensitive_for_windows_paths_and_keeps_newest() {
    let projects = vec![
        project("First", r"C:\Work\Recentry", 0),
        project("Duplicate", r"c:\work\recentry\", 1),
    ];
    let deduped = deduplicate(projects, PlatformKind::Windows);
    assert_eq!(deduped.len(), 1);
    assert_eq!(deduped[0].name, "First");
}

fn windows_separators(paths: Vec<String>) -> Vec<String> {
    paths.into_iter().map(|p| p.replace('/', "\\")).collect()
}

#[test]
fn shared_database_precedes_legacy_global_storage() {
    let environment = windows_environment();
    let candidates = database_candidates(&installation(), &environment);
    // Windows compares paths by component, so `/` and `\` separate alike.
    assert_eq!(
        windows_separators(candidates),
        vec![
            r"C:\Users\tester\.vscode-shared\sharedStorage\state.vscdb".to_owned(),
            r"C:\Users\tester\AppData\Roaming\Code\User\globalStorage\state.vscdb".to_owned(),
        ]
    );
}

#[test]
fn window_state_extracts_folder_and_workspace_targets() {
    let value = object(vec![(
        "windowsState",
        object(vec![
            (
                "lastActiveWindow",
                object(vec![("folder", text("file:///C:/work/recentry"))]),
            ),
            (
                "openedWindows",
                JsonValue::Array(vec![object(vec![(
                    "workspaceIdentifier",
                    object(vec![(
                        "configURIPath",
                        text("file:///C:/work/team.code-workspace"),
                    )]),
                )])]),
            ),
        ]),
    )]);
    assert_eq!(
        window_state_targets(&value),
        vec![
            "file:///C:/work/recentry".to_owned(),
            "file:///C:/work/team.code-workspace".to_owned()
        ]
    );
}

// ---------------------------------------------------------------------------
// Recent list details
// ---------------------------------------------------------------------------

#[test]
fn legacy_bare_array_is_read_and_other_roots_are_refused() {
    let legacy = JsonValue::Array(vec![object(vec![(
        "folderUri",
        text("vscode-remote://wsl+Ubuntu/home/me/app"),
    )])]);
    let projects = parse_recent_json(&legacy, PlatformKind::Linux).unwrap();
    assert_eq!(projects.len(), 1);
    assert_eq!(projects[0].name, "app");
    assert_eq!(projects[0].provider.0, "vscode");

    assert_eq!(
        parse_recent_json(&text("entries"), PlatformKind::Linux).unwrap_err(),
        RecentFormatError::UnsupportedRoot
    );
    assert_eq!(
        parse_recent_json(&object(vec![("entries", text("none"))]), PlatformKind::Linux).unwrap_err(),
        RecentFormatError::UnsupportedRoot
    );
    assert_eq!(
        parse_recent_json(&object(vec![]), PlatformKind::Linux).unwrap_err(),
        RecentFormatError::UnsupportedRoot
    );
}

#[test]
fn format_errors_read_as_sentences() {
    assert_eq!(
        RecentFormatError::UnsupportedRoot.message(),
        "recent value has an unsupported root shape"
    );
    assert_eq!(
        RecentFormatError::Json("EOF".to_owned()).message(),
        "recent value is invalid JSON: EOF"
    );
}

#[test]
fn labels_replace_derived_names_unless_blank() {
    let entries = JsonValue::Array(vec![
        object(vec![
            ("folderUri", text("vscode-remote://ssh-remote+box/srv/site")),
            ("label", text("Production site")),
        ]),
        object(vec![
            ("folderUri", text("vscode-remote://ssh-remote+box/srv/other")),
            ("label", text("   ")),
        ]),
    ]);
    let projects = parse_recent_json(&entries, PlatformKind::Linux).unwrap();
    assert_eq!(projects[0].name, "Production site");
    assert_eq!(projects[1].name, "other");
    assert_eq!(projects[1].detail, "vscode-remote://ssh-remote+box/srv/other");
}

#[test]
fn project_ids_are_fingerprints_of_the_identity_key() {
    let entries = JsonValue::Array(vec![object(vec![(
        "folderUri",
        text("vscode-remote://ssh-remote+box/srv/site"),
    )])]);
    let projects = parse_recent_json(&entries, PlatformKind::Linux).unwrap();
    let key = target_key(&projects[0].target, PlatformKind::Linux);
    assert_eq!(key, "uri:vscode-remote://ssh-remote+box/srv/site");
    assert_eq!(projects[0].id.0, format!("vscode:{}", fingerprint(&key)));
    assert_eq!(projects[0].id.0.len(), "vscode:".len() + 16);
    let unnamed = JsonValue::Array(vec![object(vec![(
        "folderUri",
        text("vscode-remote://ssh-remote+box/srv/site/"),
    )])]);
    assert!(parse_recent_json(&unnamed, PlatformKind::Linux).unwrap().is_empty());
}

#[test]
fn fingerprint_is_fnv1a_in_sixteen_hex_digits() {
    assert_eq!(fingerprint(""), "cbf29ce484222325");
    assert_eq!(fingerprint("a"), "af63dc4c8601ec8c");
}

#[test]
fn assembled_uris_are_normalized_by_the_url_parser() {
    let value = object(vec![
        ("scheme", text("vscode-remote")),
        ("authority", text("ssh-remote+devbox")),
        ("path", text("/work/my api")),
    ]);
    assert_eq!(
        uri_from_value(&value).unwrap(),
        "vscode-remote://ssh-remote+devbox/work/my%20api"
    );
    let windows_path = object(vec![
        ("scheme", text("vscode-remote")),
        ("authority", text("wsl+x")),
        ("fsPath", text(r"\home\me")),
    ]);
    assert_eq!(
        uri_from_value(&windows_path).unwrap(),
        "vscode-remote://wsl+x/home/me"
    );
    let external = object(vec![("external", text("anything at all"))]);
    assert_eq!(uri_from_value(&external).unwrap(), "anything at all");
    assert!(uri_from_value(&object(vec![("path", text("/x"))])).is_none());
    assert!(uri_from_value(&JsonValue::Null).is_none());
}

#[test]
fn workspace_files_are_recognized_case_insensitively_by_url_path() {
    assert!(is_workspace_target("file:///C:/w/Team.CODE-WORKSPACE"));
    assert!(is_workspace_target("file:///C:/w/a.code-workspace?x=1"));
    assert!(!is_workspace_target("file:///C:/w/a.txt"));
    assert!(is_workspace_target("relative/thing.code-workspace"));
}

#[test]
fn entries_without_a_usable_target_are_skipped() {
    assert!(entry_target(&text("folderUri")).is_none());
    assert!(entry_target(&object(vec![("other", text("x"))])).is_none());
    let https = object(vec![("folderUri", text("https://example.com/project"))]);
    let (kind, raw) = entry_target(&https).unwrap();
    assert_eq!(kind, ProjectKind::Folder);
    assert_eq!(raw, "https://example.com/project");
    assert!(recent_project(&https, 0, TargetIdentityPolicy::CaseSensitive, None).is_none());
    let remote_file = JsonValue::Array(vec![object(vec![(
        "folderUri",
        text("file://server/share/project"),
    )])]);
    assert!(parse_recent_json(&remote_file, PlatformKind::Linux).unwrap().is_empty());
}

#[test]
fn recent_project_uses_the_platform_answer_for_local_targets() {
    let entry = object(vec![("folderUri", text("file:///C:/work/recentry"))]);
    let found = recent_project(
        &entry,
        3,
        TargetIdentityPolicy::CaseInsensitiveAscii,
        Some(r"C:\work\recentry"),
    )
    .unwrap();
    assert_eq!(found.name, "recentry");
    assert_eq!(found.target, ProjectTarget::LocalPath(r"C:\work\recentry".to_owned()));
    assert_eq!(found.detail, r"C:\work\recentry");
    assert_eq!(found.recent_index, 3);
    assert!(recent_project(&entry, 3, TargetIdentityPolicy::CaseInsensitiveAscii, None).is_none());
}

#[test]
fn duplicates_in_a_recent_list_keep_the_first_entry() {
    let entries = JsonValue::Array(vec![
        object(vec![("folderUri", text("vscode-remote://h/Work/App"))]),
        object(vec![("folderUri", text("vscode-remote://h/Work/App/"))]),
        object(vec![("folderUri", text("vscode-remote://h/work/app"))]),
    ]);
    let sensitive =
        parse_recent_json_with_policy(&entries, TargetIdentityPolicy::CaseSensitive).unwrap();
    assert_eq!(sensitive.len(), 2);
    assert_eq!(sensitive[0].recent_index, 0);
    assert_eq!(sensitive[1].recent_index, 2);
}

// ---------------------------------------------------------------------------
// Launching
// ---------------------------------------------------------------------------

#[test]
fn launch_request_focuses_an_open_folder_and_opens_new_workspace_windows() {
    let folder = project("Recentry", "/work/recentry", 0);
    let request = build_launch_request(
        "/usr/bin/code".to_owned(),
        &folder,
        &["file:///work/recentry".to_owned()],
        PlatformKind::Linux,
    )
    .unwrap();
    assert_eq!(request.outcome, OpenOutcome::Focused);
    assert_eq!(request.executable, "/usr/bin/code");
    assert!(!request.args.contains(&"--new-window".to_owned()));
    assert_eq!(request.args, vec!["--folder-uri", "file:///work/recentry/"]);

    let workspace = RecentProject {
        kind: ProjectKind::Workspace,
        ..project("team", "/work/team.code-workspace", 1)
    };
    let request = build_launch_request("/usr/bin/code".to_owned(), &workspace, &[], PlatformKind::Linux).unwrap();
    assert_eq!(request.outcome, OpenOutcome::OpenedNew);
    assert_eq!(
        request.args,
        vec!["--new-window", "--file-uri", "file:///work/team.code-workspace"]
    );

    let remote = RecentProject {
        target: ProjectTarget::Uri("vscode-remote://ssh-remote+devbox/work/api".to_owned()),
        ..project("api", "/unused", 2)
    };
    let request = build_launch_request("/usr/bin/code".to_owned(), &remote, &[], PlatformKind::Linux).unwrap();
    assert_eq!(request.args[1], "--folder-uri");
    assert_eq!(request.args[2], "vscode-remote://ssh-remote+devbox/work/api");

    let unsupported = RecentProject {
        target: ProjectTarget::Uri("https://example.com/project".to_owned()),
        ..project("unsafe", "/unused", 3)
    };
    assert_eq!(
        build_launch_request("/usr/bin/code".to_owned(), &unsupported, &[], PlatformKind::Linux).unwrap_err(),
        OpenError::UnsupportedTarget("https://example.com/project".to_owned())
    );
}

#[test]
fn open_remote_windows_are_matched_by_uri() {
    let remote = RecentProject {
        target: ProjectTarget::Uri("vscode-remote://h/work/api".to_owned()),
        ..project("api", "/unused", 0)
    };
    let open = vec![
        "https://example.com".to_owned(),
        "vscode-remote://h/work/api/".to_owned(),
    ];
    let request = build_launch_request("code".to_owned(), &remote, &open, PlatformKind::Linux).unwrap();
    assert_eq!(request.outcome, OpenOutcome::Focused);
    assert_eq!(request.args, vec!["--folder-uri", "vscode-remote://h/work/api"]);
}

#[test]
fn relative_local_paths_cannot_be_launched() {
    let relative = project("rel", "work/rel", 0);
    assert_eq!(
        build_launch_request("code".to_owned(), &relative, &[], PlatformKind::Linux).unwrap_err(),
        OpenError::UnsupportedTarget("work/rel".to_owned())
    );
}

#[test]
fn comparable_targets_follow_the_scheme() {
    assert_eq!(
        comparable_target("file:///x", Some("/x")),
        Some(ProjectTarget::LocalPath("/x".to_owned()))
    );
    assert_eq!(comparable_target("file:///x", None), None);
    assert_eq!(
        comparable_target("VSCODE-REMOTE://h/a", None),
        Some(ProjectTarget::Uri("vscode-remote://h/a".to_owned()))
    );
    assert_eq!(
        comparable_target("/plain/path", Some("/plain/path")),
        Some(ProjectTarget::LocalPath("/plain/path".to_owned()))
    );
    assert_eq!(comparable_target("relative", None), None);
}

#[test]
fn argument_kind_follows_the_project_kind() {
    let target = ProjectTarget::LocalPath("/x".to_owned());
    assert_eq!(target_argument_kind(ProjectKind::Folder, &target), "--folder-uri");
    assert_eq!(target_argument_kind(ProjectKind::Workspace, &target), "--file-uri");
}

#[test]
fn opener_collects_open_windows_from_every_state_file() {
    let opener = VsCodeOpener {
        executable: "/usr/bin/code".to_owned(),
        window_state_files: vec!["/a/storage.json".to_owned()],
    };
    let states = vec![
        object(vec![]),
        object(vec![(
            "windowsState",
            object(vec![(
                "openedWindows",
                JsonValue::Array(vec![object(vec![("folder", text("file:///work/recentry"))])]),
            )]),
        )]),
    ];
    let request = opener
        .launch_request(&project("Recentry", "/work/recentry", 0), &states, PlatformKind::Linux)
        .unwrap();
    assert_eq!(request.outcome, OpenOutcome::Focused);
    let request = opener
        .launch_request(&project("Other", "/work/other", 0), &states, PlatformKind::Linux)
        .unwrap();
    assert_eq!(request.outcome, OpenOutcome::OpenedNew);
}

#[test]
fn window_state_without_windows_lists_nothing() {
    assert!(window_state_targets(&object(vec![])).is_empty());
    assert!(window_state_targets(&object(vec![("windowsState", text("x"))])).is_empty());
    let no_target = object(vec![(
        "windowsState",
        object(vec![("lastActiveWindow", object(vec![("folder", JsonValue::Null)]))]),
    )]);
    assert!(window_state_targets(&no_target).is_empty());
}

#[test]
fn open_errors_read_as_sentences() {
    assert_eq!(
        OpenError::UnsupportedTarget("x".to_owned()).message(),
        "unsupported target: x"
    );
    assert_eq!(
        OpenError::Spawn("denied".to_owned()).message(),
        "failed to start VS Code: denied"
    );
}

// ---------------------------------------------------------------------------
// Discovery
// ---------------------------------------------------------------------------

#[test]
fn first_database_failure_ends_discovery_without_exposing_the_path() {
    let database = "/home/secret-user/.vscode-shared/sharedStorage/state.vscdb";
    let step = DiscoveryProgress::new().record(
        0,
        database,
        DatabaseRead::ReadFailed("file is not a database".to_owned()),
    );
    let DiscoveryStep::Finished(report) = step else {
        panic!("a failing shared database ends the search");
    };
    assert!(report.value.is_empty());
    assert_eq!(report.diagnostics[0].level, DiagnosticLevel::Error);
    assert_eq!(report.diagnostics[0].code, "vscode_database_read_failed");
    assert_eq!(
        report.diagnostics[0].message,
        format!("db#{}: file is not a database", fingerprint(database))
    );
    assert!(!report.diagnostics[0].message.contains("secret-user"));
}

#[test]
fn later_databases_are_consulted_after_missing_keys_and_failures() {
    let progress = DiscoveryProgress::new();
    let DiscoveryStep::Continue(progress) = progress.record(0, "/a", DatabaseRead::KeyMissing)
    else {
        panic!("a missing key continues");
    };
    let DiscoveryStep::Continue(progress) = progress.record(1, "/b", DatabaseRead::NotAFile)
    else {
        panic!("a missing file continues");
    };
    let DiscoveryStep::Continue(progress) =
        progress.record(2, "/c", DatabaseRead::ReadFailed("locked".to_owned()))
    else {
        panic!("a later failure continues");
    };
    let loaded = vec![project("a", "/a", 0), project("b", "/b", 1)];
    let DiscoveryStep::Finished(report) =
        progress.record(3, "/d", DatabaseRead::Recent(Ok(loaded.clone())))
    else {
        panic!("loaded projects finish");
    };
    assert_eq!(report.value, loaded);
    let codes: Vec<&str> = report.diagnostics.iter().map(|d| d.code.as_str()).collect();
    assert_eq!(
        codes,
        vec![
            "vscode_recent_key_missing",
            "vscode_database_read_failed",
            "vscode_recent_loaded"
        ]
    );
    assert_eq!(
        report.diagnostics[0].message,
        format!("db#{} has no recent key", fingerprint("/a"))
    );
    assert_eq!(
        report.diagnostics[2].message,
        format!("loaded 2 projects from db#{}", fingerprint("/d"))
    );
}

#[test]
fn format_change_in_the_shared_database_is_final() {
    let step = DiscoveryProgress::new().record(
        0,
        "/a",
        DatabaseRead::Recent(Err(RecentFormatError::UnsupportedRoot)),
    );
    let DiscoveryStep::Finished(report) = step else {
        panic!("a format change of the first database ends the search");
    };
    assert_eq!(report.diagnostics[0].code, "vscode_recent_format_changed");
    assert_eq!(
        report.diagnostics[0].message,
        format!(
            "db#{}: recent value has an unsupported root shape",
            fingerprint("/a")
        )
    );
    let later = DiscoveryProgress::new().record(
        1,
        "/b",
        DatabaseRead::Recent(Err(RecentFormatError::UnsupportedRoot)),
    );
    assert!(matches!(later, DiscoveryStep::Continue(_)));
}

#[test]
fn no_database_at_all_is_a_warning() {
    let report = DiscoveryProgress::new().finish();
    assert!(report.value.is_empty());
    assert_eq!(report.diagnostics.len(), 1);
    assert_eq!(report.diagnostics[0].level, DiagnosticLevel::Warning);
    assert_eq!(report.diagnostics[0].code, "vscode_database_not_found");
    assert_eq!(
        report.diagnostics[0].message,
        "no VS Code recent database was found"
    );
    let DiscoveryStep::Continue(progress) =
        DiscoveryProgress::new().record(0, "/a", DatabaseRead::KeyMissing)
    else {
        panic!("a missing key continues");
    };
    assert_eq!(progress.finish().diagnostics.len(), 1);
}

#[test]
fn a_missing_installation_is_reported_as_an_error() {
    let report = installation_missing(&VsCodeError::NotFound);
    assert!(report.value.is_empty());
    assert_eq!(report.diagnostics[0].code, "vscode_not_found");
    assert_eq!(
        report.diagnostics[0].message,
        "VS Code stable installation was not found"
    );
    assert_eq!(
        VsCodeError::InvalidProduct("missing version".to_owned()).message(),
        "invalid VS Code product metadata: missing version"
    );
}

fn product(application: &str, version: &str) -> JsonValue {
    object(vec![
        ("applicationName", text(application)),
        ("nameShort", text("Code")),
        ("version", text(version)),
        ("sharedDataFolderName", text(".vscode-shared")),
    ])
}

#[test]
fn stable_product_metadata_describes_the_installation() {
    let step = product_step(
        r"C:\VS\Code.exe",
        r"C:\VS\abc123\resources\app\product.json",
        ProductRead::Parsed(product("code", "1.129.1")),
    );
    let ProductStep::Done(Ok(found)) = step else {
        panic!("stable metadata is an installation");
    };
    assert_eq!(found.code_exe, r"C:\VS\Code.exe");
    assert_eq!(found.product_json, r"C:\VS\abc123\resources\app\product.json");
    assert_eq!(found.version, "1.129.1");
    assert_eq!(found.name_short, "Code");
    assert_eq!(found.shared_data_folder_name, ".vscode-shared");
}

#[test]
fn other_products_and_broken_metadata_are_told_apart() {
    assert!(matches!(
        product_step("e", "p", ProductRead::Parsed(product("code-insiders", "1"))),
        ProductStep::Next
    ));
    assert!(matches!(product_step("e", "p", ProductRead::NotAFile), ProductStep::Next));
    assert!(matches!(
        product_step("e", "p", ProductRead::Parsed(product("code", ""))),
        ProductStep::Done(Err(VsCodeError::InvalidProduct(m))) if m == "missing version"
    ));
    assert!(matches!(
        product_step("e", "p", ProductRead::Unreadable("denied".to_owned())),
        ProductStep::Done(Err(VsCodeError::Io(m))) if m == "denied"
    ));
    assert!(matches!(
        product_step("e", "p", ProductRead::Malformed("EOF".to_owned())),
        ProductStep::Done(Err(VsCodeError::Json(m))) if m == "EOF"
    ));
    assert_eq!(
        product_search_failed(),
        VsCodeError::InvalidProduct("stable product.json was not found for the executable".to_owned())
    );
}

#[test]
fn window_state_files_live_in_legacy_global_storage() {
    assert_eq!(
        window_state_candidates(&installation(), &windows_environment()),
        vec![r"C:\Users\tester\AppData\Roaming\Code\User/globalStorage/storage.json".to_owned()]
    );
}

#[test]
fn windows_executables_are_searched_on_path_then_in_install_roots() {
    let mut environment = windows_environment();
    environment.path = vec![r"C:\Tools\VS Code\bin".to_owned()];
    let candidates = environment.layout().executable_candidates();
    assert_eq!(
        candidates,
        vec![
            r"C:\Tools\VS Code\bin\Code.exe".to_owned(),
            r"C:\Tools\VS Code\Code.exe".to_owned(),
            r"C:\Users\tester\AppData\Local\Programs/Microsoft VS Code\Code.exe".to_owned(),
            r"C:\Program Files\Microsoft VS Code\Code.exe".to_owned(),
            r"C:\Program Files (x86)\Microsoft VS Code\Code.exe".to_owned(),
        ]
    );
}

#[test]
fn user_given_paths_are_normalized_to_an_executable() {
    let windows = windows_environment().layout();
    let directory = CandidateFacts {
        is_dir: true,
        direct_code_is_file: false,
        sibling_code_exe_is_file: false,
    };
    assert_eq!(
        windows.normalize_executable_candidate(r"C:\VS", &directory),
        r"C:\VS\Code.exe"
    );
    let (_, sibling) = windows.normalize_probes(r"C:\VS\bin\code.cmd");
    assert_eq!(sibling.as_deref(), Some(r"C:\VS\Code.exe"));
    let script = CandidateFacts {
        is_dir: false,
        direct_code_is_file: false,
        sibling_code_exe_is_file: true,
    };
    assert_eq!(
        windows.normalize_executable_candidate(r"C:\VS\bin\code.cmd", &script),
        r"C:\VS\Code.exe"
    );
    assert_eq!(
        windows.normalize_executable_candidate(r"C:\VS\Code.exe", &script),
        r"C:\VS\Code.exe"
    );

    let linux = VsCodePlatformLayout::linux_session("/home/me", None, None, Vec::new());
    let with_code = CandidateFacts {
        is_dir: true,
        direct_code_is_file: true,
        sibling_code_exe_is_file: false,
    };
    assert_eq!(
        linux.normalize_executable_candidate("/opt/vscode", &with_code),
        "/opt/vscode/code"
    );
    assert_eq!(
        linux.normalize_executable_candidate("/opt/vscode", &directory),
        "/opt/vscode/bin/code"
    );
    let mac = VsCodePlatformLayout::macos_session("/Users/me", Vec::new());
    assert_eq!(
        mac.normalize_executable_candidate("/Applications/Visual Studio Code.app", &directory),
        "/Applications/Visual Studio Code.app/Contents/Resources/app/bin/code"
    );
}

#[test]
fn product_metadata_is_looked_for_beside_each_executable_form() {
    let windows = windows_environment().layout();
    let forms = vec![ExecutableForm {
        path: r"C:\VS\Code.exe".to_owned(),
        versioned_products: vec![r"C:\VS\abc123\resources\app\product.json".to_owned()],
    }];
    assert_eq!(
        windows.product_candidates(&forms),
        vec![
            r"C:\VS\resources/app/product.json".to_owned(),
            r"C:\VS\abc123\resources\app\product.json".to_owned(),
        ]
    );
    let linux = VsCodePlatformLayout::linux_session("/home/me", None, None, Vec::new());
    let forms = vec![
        ExecutableForm {
            path: "/usr/share/code/code".to_owned(),
            versioned_products: Vec::new(),
        },
        ExecutableForm {
            path: "/usr/share/code/code".to_owned(),
            versioned_products: Vec::new(),
        },
    ];
    assert_eq!(
        linux.product_candidates(&forms),
        vec![
            "/usr/share/code/resources/app/product.json".to_owned(),
            "/usr/share/resources/app/product.json".to_owned(),
        ]
    );
}

#[test]
fn session_layouts_follow_xdg_and_application_support() {
    let linux = VsCodePlatformLayout::linux_session(
        "/home/me",
        Some("/cfg"),
        None,
        vec!["/usr/bin".to_owned()],
    );
    assert_eq!(linux.config_root(), "/cfg");
    assert_eq!(linux.data_root(), "/home/me/.local/share");
    assert_eq!(linux.target_identity_policy(), TargetIdentityPolicy::CaseSensitive);
    assert_eq!(
        linux.executable_candidates()[0..3].to_vec(),
        vec![
            "/usr/bin/code".to_owned(),
            "/usr/share/code/code".to_owned(),
            "/usr/share/code/bin/code".to_owned()
        ]
    );
    assert_eq!(
        linux.legacy_storage_roots("Code"),
        vec![
            "/cfg/Code".to_owned(),
            "/home/me/snap/code/current/.config/Code".to_owned(),
            "/home/me/.var/app/com.visualstudio.code/config/Code".to_owned(),
        ]
    );
    let mac = VsCodePlatformLayout::macos_session("/Users/me", Vec::new());
    assert_eq!(mac.config_root(), "/Users/me/Library/Application Support");
    assert_eq!(mac.data_root(), "/Users/me/Library/Application Support");
}

#[test]
fn platform_answers_decide_local_targets() {
    let entries = JsonValue::Array(vec![
        object(vec![("folderUri", text("file:///C:/work/Recentry"))]),
        object(vec![("folderUri", text("file:///c:/work/recentry/"))]),
        object(vec![("folderUri", text("vscode-remote://h/srv/api"))]),
        object(vec![("fileUri", text("file:///C:/work/notes.txt"))]),
    ]);
    let answers = vec![
        Some(r"C:\work\Recentry".to_owned()),
        Some(r"c:\work\recentry\".to_owned()),
        None,
        None,
    ];
    let projects =
        recent_projects_from(&entries, &answers, TargetIdentityPolicy::CaseInsensitiveAscii)
            .unwrap();
    assert_eq!(projects.len(), 2);
    assert_eq!(projects[0].name, "Recentry");
    assert_eq!(
        projects[0].target,
        ProjectTarget::LocalPath(r"C:\work\Recentry".to_owned())
    );
    assert_eq!(projects[1].name, "api");
    assert_eq!(projects[1].recent_index, 2);

    let sensitive =
        recent_projects_from(&entries, &answers, TargetIdentityPolicy::CaseSensitive).unwrap();
    assert_eq!(sensitive.len(), 3);
    let unanswered = recent_projects_from(&entries, &[], TargetIdentityPolicy::CaseSensitive)
        .unwrap();
    assert_eq!(unanswered.len(), 1);
    assert_eq!(
        recent_projects_from(&text("x"), &answers, TargetIdentityPolicy::CaseSensitive)
            .unwrap_err(),
        RecentFormatError::UnsupportedRoot
    );
}

#[test]
fn local_answers_are_given_only_for_local_targets() {
    let entries = JsonValue::Array(vec![
        object(vec![("folderUri", text("file:///work/recentry"))]),
        object(vec![("folderUri", text("vscode-remote://h/srv/api"))]),
        object(vec![("folderUri", text("/abs/path"))]),
        object(vec![("folderUri", text("relative/path"))]),
        text("not an entry"),
    ]);
    let answers = local_answers(&entries);
    assert_eq!(
        answers,
        vec![
            Some("/work/recentry".to_owned()),
            None,
            Some("/abs/path".to_owned()),
            None,
            None
        ]
    );
    assert!(local_answers(&JsonValue::Null).is_empty());
}

#[test]
fn deduplication_orders_by_recency_and_keeps_the_most_recent() {
    let projects = vec![
        project("Later", "/work/app", 5),
        project("Other", "/work/other", 3),
        project("Sooner", "/work/app/", 2),
    ];
    let kept = recentry::deduplicate_with_policy(projects, TargetIdentityPolicy::CaseSensitive);
    let names: Vec<&str> = kept.iter().map(|p| p.name.as_str()).collect();
    assert_eq!(names, vec!["Sooner", "Other"]);
}

#[test]
fn name_matches_come_before_path_matches() {
    let projects = vec![
        project("alpha", "/work/tools/alpha", 0),
        project("tools", "/work/tools", 5),
        project("zeta", "/srv/zeta", 1),
    ];
    let results = search_projects(&projects, "  TOOLS ");
    let names: Vec<&str> = results.iter().map(|p| p.name.as_str()).collect();
    assert_eq!(names, vec!["tools", "alpha"]);
    assert!(search_projects(&projects, "qqq").is_empty());
    let loose = search_projects(&projects, "zt");
    assert_eq!(loose.len(), 1);
    assert_eq!(loose[0].name, "zeta");
}

#[test]
fn unicode_white_space_around_a_query_is_ignored() {
    let projects = vec![
        project("alpha", "/work/alpha", 1),
        project("tools", "/work/tools", 0),
    ];
    let blank = search_projects(&projects, "\u{3000}\t\u{00A0}\u{2028}");
    let names: Vec<&str> = blank.iter().map(|p| p.name.as_str()).collect();
    assert_eq!(names, vec!["tools", "alpha"]);
    let padded = search_projects(&projects, "\u{2003}tools\u{0085}");
    assert_eq!(padded.len(), 1);
    assert_eq!(padded[0].name, "tools");
    let inner = search_projects(&projects, "\u{200B}");
    assert!(inner.is_empty());
}

#[test]
fn recent_text_that_is_not_json_is_a_json_error() {
    match parse_recent_value("{\"entries\": [", PlatformKind::Linux) {
        Err(RecentFormatError::Json(message)) => assert!(!message.is_empty()),
        other => panic!("unexpected result: {other:?}"),
    }
    assert!(matches!(
        parse_recent_value_with_policy("not json", TargetIdentityPolicy::CaseSensitive),
        Err(RecentFormatError::Json(_))
    ));
}

#[test]
fn recent_text_roots_decide_between_projects_and_unsupported_shapes() {
    assert_eq!(parse_recent_value("[]", PlatformKind::Linux).unwrap(), Vec::<RecentProject>::new());
    assert_eq!(parse_recent_value("{\"entries\": []}", PlatformKind::Linux).unwrap(), Vec::<RecentProject>::new());
    assert_eq!(parse_recent_value("42", PlatformKind::Linux).unwrap_err(), RecentFormatError::UnsupportedRoot);
    assert_eq!(
        parse_recent_value("{\"entries\": {}}", PlatformKind::Linux).unwrap_err(),
        RecentFormatError::UnsupportedRoot
    );
    let legacy = parse_recent_value_with_policy(
        r#"[{"folderUri":"vscode-remote://wsl+Ubuntu/home/me/app"},{"fileUri":"file:///tmp/notes.txt"}]"#,
        TargetIdentityPolicy::CaseSensitive,
    )
    .unwrap();
    assert_eq!(legacy.len(), 1);
    assert_eq!(legacy[0].name, "app");
}

#[test]
fn product_bytes_are_read_as_metadata_or_malformed() {
    let bytes = br#"{"applicationName":"code","nameShort":"Code","version":"1.129.1","sharedDataFolderName":".vscode-shared"}"#;
    let ProductStep::Done(Ok(found)) = product_step("e", "p", ProductRead::from_bytes(bytes)) else {
        panic!("stable metadata is an installation");
    };
    assert_eq!(found.version, "1.129.1");
    assert_eq!(found.name_short, "Code");
    assert!(matches!(ProductRead::from_bytes(b"{broken"), ProductRead::Malformed(m) if !m.is_empty()));
    assert!(matches!(
        product_step("e", "p", ProductRead::from_bytes(b"")),
        ProductStep::Done(Err(VsCodeError::Json(_)))
    ));
}

#[test]
fn window_state_files_that_are_not_json_are_skipped() {
    let files = vec![
        b"not json".to_vec(),
        br#"{"windowsState":{"lastActiveWindow":{"folder":"file:///C:/work/recentry"}}}"#.to_vec(),
        br#"{"windowsState":{"openedWindows":[{"folder":"vscode-remote://h/api"}]}}"#.to_vec(),
    ];
    let states = parse_window_states(&files);
    assert_eq!(states.len(), 2);
    assert_eq!(window_state_targets(&states[0]), vec!["file:///C:/work/recentry".to_owned()]);
    assert_eq!(window_state_targets(&states[1]), vec!["vscode-remote://h/api".to_owned()]);
    assert!(parse_window_states(&[]).is_empty());
}

#[test]
fn identity_policy_follows_the_platform() {
    assert_eq!(
        TargetIdentityPolicy::current(PlatformKind::Windows),
        TargetIdentityPolicy::CaseInsensitiveAscii
    );
    assert_eq!(TargetIdentityPolicy::current(PlatformKind::Linux), TargetIdentityPolicy::CaseSensitive);
    assert_eq!(TargetIdentityPolicy::current(PlatformKind::MacOs), TargetIdentityPolicy::CaseSensitive);
    let projects = vec![project("First", "/work/App", 0), project("Second", "/work/app", 1)];
    assert_eq!(deduplicate(projects.clone(), PlatformKind::Linux).len(), 2);
    assert_eq!(deduplicate(projects, PlatformKind::Windows).len(), 1);
}

#[test]
fn joining_follows_path_buf_join() {
    assert_eq!(join_path(PlatformKind::Linux, "/home/u", "/x"), "/x");
    assert_eq!(join_path(PlatformKind::Linux, "/home/u", ".x/a/b"), "/home/u/.x/a/b");
    assert_eq!(join_path(PlatformKind::Linux, "/home/u/", "x"), "/home/u/x");
    assert_eq!(join_path(PlatformKind::Linux, "", "x"), "x");
    assert_eq!(join_path(PlatformKind::Linux, "/a", ""), "/a/");
    assert_eq!(
        join_path(PlatformKind::Windows, r"C:\Users\u", "sharedStorage/state.vscdb"),
        r"C:\Users\u\sharedStorage/state.vscdb"
    );
    assert_eq!(join_path(PlatformKind::Windows, r"C:\Users\u", r"D:\x"), r"D:\x");
    assert_eq!(join_path(PlatformKind::Windows, r"C:\Users\u", r"\x"), r"C:\x");
    assert_eq!(join_path(PlatformKind::Windows, r"\\srv\share\u", r"\x"), r"\\srv\share\x");
    assert_eq!(join_path(PlatformKind::Windows, r"C:\Users\u", r"\\srv\share"), r"\\srv\share");
    assert_eq!(join_path(PlatformKind::Windows, "C:", "x"), "C:x");
    assert_eq!(join_path(PlatformKind::MacOs, "/Users/u", "Library"), "/Users/u/Library");
}

#[test]
fn local_targets_are_launched_as_file_urls() {
    let folder = project("Recentry", "/work/recentry", 0);
    let request = build_launch_request("code".to_owned(), &folder, &[], PlatformKind::Linux).unwrap();
    assert_eq!(request.args, vec!["--new-window", "--folder-uri", "file:///work/recentry/"]);
}

#[test]
fn database_paths_keep_segments_as_written_and_absolute_folders_replace_home() {
    assert_eq!(
        database_candidates(&installation(), &windows_environment())[0],
        r"C:\Users\tester\.vscode-shared\sharedStorage/state.vscdb"
    );
    let linux = VsCodePlatformLayout::linux_session("/home/u", None, None, Vec::new());
    let absolute = VsCodeInstallation {
        shared_data_folder_name: "/x".to_owned(),
        ..installation()
    };
    assert_eq!(linux.database_candidates(&absolute)[0], "/x/sharedStorage/state.vscdb");
    assert_eq!(
        linux.database_candidates(&installation())[0],
        "/home/u/.vscode-shared/sharedStorage/state.vscdb"
    );
}

#[test]
fn the_search_for_vs_code_takes_the_override_or_the_first_installation() {
    let found = |version: &str| VsCodeInstallation {
        version: version.to_owned(),
        ..installation()
    };
    assert_eq!(
        recentry::discovery_result(Some(Err(VsCodeError::Io("denied".to_owned()))), &[Some(Ok(found("1")))]),
        Err(VsCodeError::Io("denied".to_owned()))
    );
    assert_eq!(recentry::discovery_result(Some(Ok(found("2"))), &[]), Ok(found("2")));
    assert_eq!(
        recentry::discovery_result(
            None,
            &[
                None,
                Some(Err(VsCodeError::Json("bad".to_owned()))),
                Some(Ok(found("3"))),
                Some(Ok(found("4"))),
            ],
        ),
        Ok(found("3"))
    );
    assert_eq!(
        recentry::discovery_result(None, &[None, Some(Err(VsCodeError::NotFound))]),
        Err(VsCodeError::NotFound)
    );
    assert_eq!(recentry::discovery_result(None, &[]), Err(VsCodeError::NotFound));
}

#[test]
fn versioned_products_are_tried_newest_first() {
    let products = vec![
        (Some(1), "a".to_owned()),
        (None, "unknown".to_owned()),
        (Some(5), "b".to_owned()),
        (Some(1), "c".to_owned()),
        (Some(-3), "old".to_owned()),
    ];
    assert_eq!(recentry::newest_first(&products), vec!["b", "a", "c", "old", "unknown"]);
    assert!(recentry::newest_first(&[]).is_empty());
}
