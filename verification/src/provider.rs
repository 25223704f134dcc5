//! The VS Code recent-project provider: which databases are consulted, and
//! what report their answers add up to.
//!
//! The caller checks each candidate database in order and reads it; each
//! answer is handed to [`DiscoveryProgress::record`], which says whether the
//! search goes on and keeps the diagnostics.

use vstd::prelude::*;

use crate::format::{decimal, fingerprint, fingerprint_of, push_decimal};
use crate::install::{error_text, VsCodeError};
use crate::layout::{
    database_candidates, joined_all, spec_legacy_storage_roots, unique, views, DiscoveryEnvironment,
    VsCodeInstallation,
};
use crate::model::{DiagnosticLevel, ProviderDiagnostic, ProviderReport, RecentProject};
use crate::paths::{join, PlatformKind};
use crate::ranking::TargetIdentityPolicy;
use crate::recent::{format_error_text, RecentFormatError};
use crate::text::{owned, push_str};

verus! {

/// A diagnostic as plain values: level, code and message.
pub open spec fn diag_view(d: ProviderDiagnostic) -> (DiagnosticLevel, Seq<char>, Seq<char>) {
    (d.level, d.code@, d.message@)
}

/// A list of diagnostics as plain values.
pub open spec fn diags_view(v: Seq<ProviderDiagnostic>) -> Seq<(DiagnosticLevel, Seq<char>, Seq<char>)> {
    v.map_values(|d: ProviderDiagnostic| diag_view(d))
}

/// How a database is named in messages: by the fingerprint of its path, so
/// that no user path is shown.
pub open spec fn db_label(database: Seq<char>) -> Seq<char> {
    "db#"@ + fingerprint_of(database)
}

/// What reading one candidate database gave.
pub enum DatabaseRead {
    /// It is not a file.
    NotAFile,
    /// Its recent-list value, read (or not) as projects.
    Recent(Result<Vec<RecentProject>, RecentFormatError>),
    /// It has no recent-list key.
    KeyMissing,
    /// It could not be read.
    ReadFailed(String),
}

/// The diagnostic one answer adds (none for a path that is not a file).
pub open spec fn read_diagnostic(database: Seq<char>, read: DatabaseRead) -> Seq<
    (DiagnosticLevel, Seq<char>, Seq<char>),
> {
    match read {
        DatabaseRead::NotAFile => Seq::empty(),
        DatabaseRead::Recent(Ok(projects)) => seq![
            (
                DiagnosticLevel::Info,
                "vscode_recent_loaded"@,
                "loaded "@ + decimal(projects@.len()) + " projects from "@ + db_label(database),
            ),
        ],
        DatabaseRead::Recent(Err(e)) => seq![
            (
                DiagnosticLevel::Error,
                "vscode_recent_format_changed"@,
                db_label(database) + ": "@ + format_error_text(e),
            ),
        ],
        DatabaseRead::KeyMissing => seq![
            (
                DiagnosticLevel::Info,
                "vscode_recent_key_missing"@,
                db_label(database) + " has no recent key"@,
            ),
        ],
        DatabaseRead::ReadFailed(m) => seq![
            (DiagnosticLevel::Error, "vscode_database_read_failed"@, db_label(database) + ": "@ + m@),
        ],
    }
}

/// Whether an answer ends the search: loaded projects always do; a failure
/// does only for the first (shared) database.
pub open spec fn read_ends_search(index: usize, read: DatabaseRead) -> bool {
    match read {
        DatabaseRead::Recent(Ok(_)) => true,
        DatabaseRead::Recent(Err(_)) => index == 0,
        DatabaseRead::ReadFailed(_) => index == 0,
        _ => false,
    }
}

/// The projects an answer delivers.
pub open spec fn read_projects(read: DatabaseRead) -> Seq<RecentProject> {
    match read {
        DatabaseRead::Recent(Ok(projects)) => projects@,
        _ => Seq::empty(),
    }
}

/// The diagnostics gathered so far while consulting databases.
pub struct DiscoveryProgress {
    pub diagnostics: Vec<ProviderDiagnostic>,
}

/// What follows one answer.
pub enum DiscoveryStep {
    /// Consult the next database.
    Continue(DiscoveryProgress),
    /// The provider reports this.
    Finished(ProviderReport<Vec<RecentProject>>),
}

fn diagnostic(level: DiagnosticLevel, code: &str, message: String) -> (r: ProviderDiagnostic)
    ensures
        diag_view(r) == (level, code@, message@),
{
    ProviderDiagnostic { level, code: owned(code), message }
}

fn join3(a: &str, b: &str, c: &str) -> (r: String)
    ensures
        r@ == a@ + b@ + c@,
{
    let mut r = owned(a);
    push_str(&mut r, b);
    push_str(&mut r, c);
    r
}

impl DiscoveryProgress {
    /// Nothing consulted yet.
    pub fn new() -> (r: Self)
        ensures
            r.diagnostics@.len() == 0,
    {
        DiscoveryProgress { diagnostics: Vec::new() }
    }

    /// Takes the answer for the database at position `index` of the
    /// candidates: adds its diagnostic, and finishes with the loaded projects,
    /// or with none after a failure of the first database.
    pub fn record(self, index: usize, database: &str, read: DatabaseRead) -> (r: DiscoveryStep)
        ensures
            match r {
                DiscoveryStep::Continue(next) => !read_ends_search(index, read) && diags_view(
                    next.diagnostics@,
                ) == diags_view(self.diagnostics@) + read_diagnostic(database@, read),
                DiscoveryStep::Finished(report) => read_ends_search(index, read) && diags_view(
                    report.diagnostics@,
                ) == diags_view(self.diagnostics@) + read_diagnostic(database@, read)
                    && report.value@ == read_projects(read),
            },
    {
        let mut diagnostics = self.diagnostics;
        let ghost before = diags_view(diagnostics@);
        let mut label = owned("db#");
        let print = fingerprint(database);
        push_str(&mut label, print.as_str());
        match read {
            DatabaseRead::NotAFile => {
                assert(diags_view(diagnostics@) =~= before + Seq::empty());
                DiscoveryStep::Continue(DiscoveryProgress { diagnostics })
            },
            DatabaseRead::Recent(Ok(projects)) => {
                let mut message = owned("loaded ");
                push_decimal(&mut message, projects.len() as u64);
                push_str(&mut message, " projects from ");
                push_str(&mut message, label.as_str());
                let d = diagnostic(DiagnosticLevel::Info, "vscode_recent_loaded", message);
                diagnostics.push(d);
                assert(diags_view(diagnostics@) =~= before + seq![diag_view(d)]);
                DiscoveryStep::Finished(ProviderReport { value: projects, diagnostics })
            },
            DatabaseRead::Recent(Err(e)) => {
                let text = e.message();
                let message = join3(label.as_str(), ": ", text.as_str());
                let d = diagnostic(DiagnosticLevel::Error, "vscode_recent_format_changed", message);
                diagnostics.push(d);
                assert(diags_view(diagnostics@) =~= before + seq![diag_view(d)]);
                if index == 0 {
                    DiscoveryStep::Finished(ProviderReport { value: Vec::new(), diagnostics })
                } else {
                    DiscoveryStep::Continue(DiscoveryProgress { diagnostics })
                }
            },
            DatabaseRead::KeyMissing => {
                let message = join3(label.as_str(), " has no recent key", "");
                proof {
                    reveal_strlit("");
                }
                let d = diagnostic(DiagnosticLevel::Info, "vscode_recent_key_missing", message);
                diagnostics.push(d);
                assert(diags_view(diagnostics@) =~= before + seq![diag_view(d)]);
                DiscoveryStep::Continue(DiscoveryProgress { diagnostics })
            },
            DatabaseRead::ReadFailed(m) => {
                let message = join3(label.as_str(), ": ", m.as_str());
                let d = diagnostic(DiagnosticLevel::Error, "vscode_database_read_failed", message);
                diagnostics.push(d);
                assert(diags_view(diagnostics@) =~= before + seq![diag_view(d)]);
                if index == 0 {
                    DiscoveryStep::Finished(ProviderReport { value: Vec::new(), diagnostics })
                } else {
                    DiscoveryStep::Continue(DiscoveryProgress { diagnostics })
                }
            },
        }
    }

    /// The report once every candidate was consulted without finishing: no
    /// projects, and a warning when no database was found at all.
    pub fn finish(self) -> (r: ProviderReport<Vec<RecentProject>>)
        ensures
            r.value@.len() == 0,
            diags_view(r.diagnostics@) == if self.diagnostics@.len() == 0 {
                seq![
                    (
                        DiagnosticLevel::Warning,
                        "vscode_database_not_found"@,
                        "no VS Code recent database was found"@,
                    ),
                ]
            } else {
                diags_view(self.diagnostics@)
            },
    {
        let mut diagnostics = self.diagnostics;
        if diagnostics.len() == 0 {
            let d = diagnostic(
                DiagnosticLevel::Warning,
                "vscode_database_not_found",
                owned("no VS Code recent database was found"),
            );
            diagnostics.push(d);
            assert(diags_view(diagnostics@) =~= seq![diag_view(d)]);
        }
        ProviderReport { value: Vec::new(), diagnostics }
    }
}

/// The report when no installation was found: no projects and the error.
pub fn installation_missing(error: &VsCodeError) -> (r: ProviderReport<Vec<RecentProject>>)
    ensures
        r.value@.len() == 0,
        diags_view(r.diagnostics@) == seq![
            (DiagnosticLevel::Error, "vscode_not_found"@, error_text(*error)),
        ],
{
    let d = diagnostic(DiagnosticLevel::Error, "vscode_not_found", error.message());
    let mut diagnostics: Vec<ProviderDiagnostic> = Vec::new();
    diagnostics.push(d);
    assert(diags_view(diagnostics@) =~= seq![diag_view(d)]);
    ProviderReport { value: Vec::new(), diagnostics }
}

/// Discovers VS Code's recent projects in a Windows environment, optionally
/// starting from a user-given executable.
pub struct VsCodeRecentProvider {
    pub environment: DiscoveryEnvironment,
    pub override_path: Option<String>,
}

impl VsCodeRecentProvider {
    /// The databases consulted for `installation`, in order.
    pub fn databases(&self, installation: &VsCodeInstallation) -> (r: Vec<String>)
        ensures
            views(r@) == unique(
                seq![join(PlatformKind::Windows, join(PlatformKind::Windows, self.environment.home@, installation.shared_data_folder_name@), "sharedStorage/state.vscdb"@)]
                    + joined_all(
                    PlatformKind::Windows,
                    spec_legacy_storage_roots(PlatformKind::Windows, self.environment.home@, self.environment.app_data@, installation.name_short@),
                    "User/globalStorage/state.vscdb"@,
                ),
                TargetIdentityPolicy::CaseInsensitiveAscii,
            ),
    {
        database_candidates(installation, &self.environment)
    }
}

} // verus!
