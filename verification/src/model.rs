//! The project model shared by providers, ranking, the launcher and openers.

use vstd::prelude::*;

verus! {

/// Stable identifier of a discovered project.
#[derive(Debug, Clone, PartialEq, Eq, Hash)]
pub struct ProjectId(pub String);

/// Identifier of the provider that discovered a project.
#[derive(Debug, Clone, PartialEq, Eq, Hash)]
pub struct ProviderId(pub String);

/// Whether a project is opened as a folder or as a workspace file.
#[derive(Debug, Clone, Copy, PartialEq, Eq, Structural, Hash)]
pub enum ProjectKind {
    Folder,
    Workspace,
}

/// Where a project lives: a local path or a remote URI.
#[derive(Debug, Clone, PartialEq, Eq, Hash)]
pub enum ProjectTarget {
    LocalPath(String),
    Uri(String),
}

/// One recent project as a provider reports it.
#[derive(Debug, Clone, PartialEq, Eq)]
pub struct RecentProject {
    pub id: ProjectId,
    pub provider: ProviderId,
    pub kind: ProjectKind,
    pub target: ProjectTarget,
    pub name: String,
    pub detail: String,
    /// Position in the provider's recent list; lower is more recent.
    pub recent_index: u32,
}

/// Severity of a provider diagnostic.
#[derive(Debug, Clone, Copy, PartialEq, Eq, Structural)]
pub enum DiagnosticLevel {
    Info,
    Warning,
    Error,
}

/// A diagnostic emitted while discovering projects.
#[derive(Debug, Clone, PartialEq, Eq)]
pub struct ProviderDiagnostic {
    pub level: DiagnosticLevel,
    pub code: String,
    pub message: String,
}

/// A provider result together with its diagnostics.
#[derive(Debug, Clone, PartialEq, Eq)]
pub struct ProviderReport<T> {
    pub value: T,
    pub diagnostics: Vec<ProviderDiagnostic>,
}

/// A source of recent projects.
pub trait RecentProjectProvider {
    fn discover(&self) -> ProviderReport<Vec<RecentProject>>;
}

/// What opening a project did.
#[derive(Debug, Clone, Copy, PartialEq, Eq, Structural)]
pub enum OpenOutcome {
    Focused,
    OpenedNew,
}

/// Something that can open a project or focus the window already showing it.
pub trait ProjectOpener {
    type Error;

    fn open_or_focus(&self, project: &RecentProject) -> Result<OpenOutcome, Self::Error>;
}

impl ProjectTarget {
    /// An equal copy of this target.
    pub fn copied(&self) -> (r: Self)
        ensures
            r == *self,
    {
        match self {
            ProjectTarget::LocalPath(p) => ProjectTarget::LocalPath(p.clone()),
            ProjectTarget::Uri(u) => ProjectTarget::Uri(u.clone()),
        }
    }
}

impl RecentProject {
    /// An equal copy of this project.
    pub fn copied(&self) -> (r: Self)
        ensures
            r == *self,
    {
        RecentProject {
            id: ProjectId(self.id.0.clone()),
            provider: ProviderId(self.provider.0.clone()),
            kind: self.kind,
            target: self.target.copied(),
            name: self.name.clone(),
            detail: self.detail.clone(),
            recent_index: self.recent_index,
        }
    }
}

/// An equal copy of a list of projects.
pub fn copy_projects(projects: &[RecentProject]) -> (r: Vec<RecentProject>)
    ensures
        r@ == projects@,
{
    let mut r: Vec<RecentProject> = Vec::new();
    let mut i: usize = 0;
    while i < projects.len()
        invariant
            i <= projects@.len(),
            r@ == projects@.subrange(0, i as int),
        decreases projects.len() - i,
    {
        r.push(projects[i].copied());
        i = i + 1;
        assert(r@ =~= projects@.subrange(0, i as int));
    }
    assert(projects@.subrange(0, projects@.len() as int) =~= projects@);
    r
}

} // verus!
