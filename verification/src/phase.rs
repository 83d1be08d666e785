//! Where a running command stands: what it waits for, and what it will do
//! once a shared step (reading the active environment, refreshing the
//! shims) is over.
use crate::building::{BuildPlan, BuildPlanView};
use crate::cli::ActivateCommand;
use vstd::prelude::*;

verus! {

/// What to do once the shims mirror the active bin directory.
#[allow(inconsistent_fields)]
pub enum AfterSync {
    /// Nothing more: end quietly.
    Idle,
    EnvRemoved { name: String },
    EnvSelected { name: String },
    PkgInstalled { name: String, installed: String },
    PkgRemoved { name: String, installed: String },
}

#[allow(inconsistent_fields)]
pub enum AfterSyncView {
    Idle,
    EnvRemoved { name: Seq<char> },
    EnvSelected { name: Seq<char> },
    PkgInstalled { name: Seq<char>, installed: Seq<char> },
    PkgRemoved { name: Seq<char>, installed: Seq<char> },
}

impl View for AfterSync {
    type V = AfterSyncView;

    open spec fn view(&self) -> AfterSyncView {
        match self {
            AfterSync::Idle => AfterSyncView::Idle,
            AfterSync::EnvRemoved { name } => AfterSyncView::EnvRemoved { name: name@ },
            AfterSync::EnvSelected { name } => AfterSyncView::EnvSelected { name: name@ },
            AfterSync::PkgInstalled { name, installed } => AfterSyncView::PkgInstalled {
                name: name@,
                installed: installed@,
            },
            AfterSync::PkgRemoved { name, installed } => AfterSyncView::PkgRemoved {
                name: name@,
                installed: installed@,
            },
        }
    }
}

/// What to do with the active bin directory once it is known.
#[allow(inconsistent_fields)]
pub enum AfterResolve {
    /// Mirror it in the shim directory.
    Sync { then: AfterSync },
    /// Install the package built as `plan` says there.
    Install { plan: BuildPlan },
    /// Remove the package `name` from it.
    RemovePkg { name: String },
    /// Write the activation line that appends it to `PATH`.
    Activate { shell: ActivateCommand },
    /// End with it.
    Locate,
}

#[allow(inconsistent_fields)]
pub enum AfterResolveView {
    Sync { then: AfterSyncView },
    Install { plan: BuildPlanView },
    RemovePkg { name: Seq<char> },
    Activate { shell: ActivateCommand },
    Locate,
}

impl View for AfterResolve {
    type V = AfterResolveView;

    open spec fn view(&self) -> AfterResolveView {
        match self {
            AfterResolve::Sync { then } => AfterResolveView::Sync { then: then@ },
            AfterResolve::Install { plan } => AfterResolveView::Install { plan: plan@ },
            AfterResolve::RemovePkg { name } => AfterResolveView::RemovePkg { name: name@ },
            AfterResolve::Activate { shell } => AfterResolveView::Activate { shell: *shell },
            AfterResolve::Locate => AfterResolveView::Locate,
        }
    }
}

/// What to do with the name of the active environment once it is read.
pub enum AfterName {
    /// Turn it into the active bin directory.
    Resolve { then: AfterResolve },
    /// The environment `name` was just removed: forget it if it is active.
    EnvRemoved { name: String },
    /// End with it.
    Tell,
}

pub enum AfterNameView {
    Resolve { then: AfterResolveView },
    EnvRemoved { name: Seq<char> },
    Tell,
}

impl View for AfterName {
    type V = AfterNameView;

    open spec fn view(&self) -> AfterNameView {
        match self {
            AfterName::Resolve { then } => AfterNameView::Resolve { then: then@ },
            AfterName::EnvRemoved { name } => AfterNameView::EnvRemoved { name: name@ },
            AfterName::Tell => AfterNameView::Tell,
        }
    }
}

/// Where a package comes from, once its specification is parsed.
pub enum Source {
    /// The repository at `url`, installed under `repo`.
    GitHub { url: String, repo: String },
    /// The package `pkg` of the sloxpkgs registry.
    Registry { pkg: String },
}

pub enum SourceView {
    GitHub { url: Seq<char>, repo: Seq<char> },
    Registry { pkg: Seq<char> },
}

impl View for Source {
    type V = SourceView;

    open spec fn view(&self) -> SourceView {
        match self {
            Source::GitHub { url, repo } => SourceView::GitHub { url: url@, repo: repo@ },
            Source::Registry { pkg } => SourceView::Registry { pkg: pkg@ },
        }
    }
}

/// What a running command waits for.
#[allow(inconsistent_fields)]
pub enum Phase {
    /// Whether the active-environment file exists.
    NameCheck { then: AfterName },
    /// The contents of the active-environment file.
    NameRead { then: AfterName },
    /// Whether the directory of the active environment `name` exists.
    EnvCheck { name: String, then: AfterResolve },
    /// Creating the shim directory.
    ShimDirCreate { source: String, then: AfterSync },
    /// Listing the shim directory.
    ShimDirList { source: String, then: AfterSync },
    /// Removing the stale shims; `pending` is the inspection error that
    /// stopped the listing, if one did.
    ShimsRemove { source: String, then: AfterSync, pending: Option<String> },
    /// Whether the active bin directory exists.
    SourceCheck { source: String, then: AfterSync },
    /// Listing the active bin directory.
    SourceList { source: String, then: AfterSync },
    /// Writing the new shims; `pending` as for `ShimsRemove`.
    ShimsWrite { source: String, then: AfterSync, pending: Option<String> },
    EnvAdd { name: String },
    EnvRemoveCheck { name: String },
    EnvRemoving { name: String },
    ClearCheck { name: String },
    Clearing { name: String },
    SelectCheck { name: String },
    SelectPrepare { name: String },
    SelectWrite { name: String },
    FetchCheck { name: String },
    CacheCreate { source: Source },
    RepoCheck { source: Source },
    RepoOpen { source: Source },
    RepoClone { source: Source },
    SubmoduleUpdate { pkg: String },
    RegistryCheck { pkg: String },
    PackageDirCheck { dir: String, name: String },
    ConfigCheck { dir: String, name: String },
    ConfigRead { dir: String, name: String },
    BuildScriptCheck { plan: BuildPlan },
    Building { plan: BuildPlan },
    BuiltCheck { plan: BuildPlan, target: String },
    TargetCreate { plan: BuildPlan, target: String },
    Copying { plan: BuildPlan, target: String },
    PkgRemoveCheck { name: String, installed: String },
    PkgRemoving { name: String, installed: String },
    /// The command is over.
    Finished,
}

#[allow(inconsistent_fields)]
pub enum PhaseView {
    NameCheck { then: AfterNameView },
    NameRead { then: AfterNameView },
    EnvCheck { name: Seq<char>, then: AfterResolveView },
    ShimDirCreate { source: Seq<char>, then: AfterSyncView },
    ShimDirList { source: Seq<char>, then: AfterSyncView },
    ShimsRemove { source: Seq<char>, then: AfterSyncView, pending: Option<Seq<char>> },
    SourceCheck { source: Seq<char>, then: AfterSyncView },
    SourceList { source: Seq<char>, then: AfterSyncView },
    ShimsWrite { source: Seq<char>, then: AfterSyncView, pending: Option<Seq<char>> },
    EnvAdd { name: Seq<char> },
    EnvRemoveCheck { name: Seq<char> },
    EnvRemoving { name: Seq<char> },
    ClearCheck { name: Seq<char> },
    Clearing { name: Seq<char> },
    SelectCheck { name: Seq<char> },
    SelectPrepare { name: Seq<char> },
    SelectWrite { name: Seq<char> },
    FetchCheck { name: Seq<char> },
    CacheCreate { source: SourceView },
    RepoCheck { source: SourceView },
    RepoOpen { source: SourceView },
    RepoClone { source: SourceView },
    SubmoduleUpdate { pkg: Seq<char> },
    RegistryCheck { pkg: Seq<char> },
    PackageDirCheck { dir: Seq<char>, name: Seq<char> },
    ConfigCheck { dir: Seq<char>, name: Seq<char> },
    ConfigRead { dir: Seq<char>, name: Seq<char> },
    BuildScriptCheck { plan: BuildPlanView },
    Building { plan: BuildPlanView },
    BuiltCheck { plan: BuildPlanView, target: Seq<char> },
    TargetCreate { plan: BuildPlanView, target: Seq<char> },
    Copying { plan: BuildPlanView, target: Seq<char> },
    PkgRemoveCheck { name: Seq<char>, installed: Seq<char> },
    PkgRemoving { name: Seq<char>, installed: Seq<char> },
    Finished,
}

/// An optional text by value.
pub open spec fn opt_view(o: Option<String>) -> Option<Seq<char>> {
    match o {
        Some(s) => Some(s@),
        None => None,
    }
}

impl View for Phase {
    type V = PhaseView;

    open spec fn view(&self) -> PhaseView {
        match self {
            Phase::NameCheck { then } => PhaseView::NameCheck { then: then@ },
            Phase::NameRead { then } => PhaseView::NameRead { then: then@ },
            Phase::EnvCheck { name, then } => PhaseView::EnvCheck { name: name@, then: then@ },
            Phase::ShimDirCreate { source, then } => PhaseView::ShimDirCreate {
                source: source@,
                then: then@,
            },
            Phase::ShimDirList { source, then } => PhaseView::ShimDirList {
                source: source@,
                then: then@,
            },
            Phase::ShimsRemove { source, then, pending } => PhaseView::ShimsRemove {
                source: source@,
                then: then@,
                pending: opt_view(*pending),
            },
            Phase::SourceCheck { source, then } => PhaseView::SourceCheck {
                source: source@,
                then: then@,
            },
            Phase::SourceList { source, then } => PhaseView::SourceList {
                source: source@,
                then: then@,
            },
            Phase::ShimsWrite { source, then, pending } => PhaseView::ShimsWrite {
                source: source@,
                then: then@,
                pending: opt_view(*pending),
            },
            Phase::EnvAdd { name } => PhaseView::EnvAdd { name: name@ },
            Phase::EnvRemoveCheck { name } => PhaseView::EnvRemoveCheck { name: name@ },
            Phase::EnvRemoving { name } => PhaseView::EnvRemoving { name: name@ },
            Phase::ClearCheck { name } => PhaseView::ClearCheck { name: name@ },
            Phase::Clearing { name } => PhaseView::Clearing { name: name@ },
            Phase::SelectCheck { name } => PhaseView::SelectCheck { name: name@ },
            Phase::SelectPrepare { name } => PhaseView::SelectPrepare { name: name@ },
            Phase::SelectWrite { name } => PhaseView::SelectWrite { name: name@ },
            Phase::FetchCheck { name } => PhaseView::FetchCheck { name: name@ },
            Phase::CacheCreate { source } => PhaseView::CacheCreate { source: source@ },
            Phase::RepoCheck { source } => PhaseView::RepoCheck { source: source@ },
            Phase::RepoOpen { source } => PhaseView::RepoOpen { source: source@ },
            Phase::RepoClone { source } => PhaseView::RepoClone { source: source@ },
            Phase::SubmoduleUpdate { pkg } => PhaseView::SubmoduleUpdate { pkg: pkg@ },
            Phase::RegistryCheck { pkg } => PhaseView::RegistryCheck { pkg: pkg@ },
            Phase::PackageDirCheck { dir, name } => PhaseView::PackageDirCheck {
                dir: dir@,
                name: name@,
            },
            Phase::ConfigCheck { dir, name } => PhaseView::ConfigCheck { dir: dir@, name: name@ },
            Phase::ConfigRead { dir, name } => PhaseView::ConfigRead { dir: dir@, name: name@ },
            Phase::BuildScriptCheck { plan } => PhaseView::BuildScriptCheck { plan: plan@ },
            Phase::Building { plan } => PhaseView::Building { plan: plan@ },
            Phase::BuiltCheck { plan, target } => PhaseView::BuiltCheck {
                plan: plan@,
                target: target@,
            },
            Phase::TargetCreate { plan, target } => PhaseView::TargetCreate {
                plan: plan@,
                target: target@,
            },
            Phase::Copying { plan, target } => PhaseView::Copying { plan: plan@, target: target@ },
            Phase::PkgRemoveCheck { name, installed } => PhaseView::PkgRemoveCheck {
                name: name@,
                installed: installed@,
            },
            Phase::PkgRemoving { name, installed } => PhaseView::PkgRemoving {
                name: name@,
                installed: installed@,
            },
            Phase::Finished => PhaseView::Finished,
        }
    }
}

} // verus!
