//! What a command does, step by step: for each phase and each event, the
//! next phase and the next directive.
use crate::activate::{direct_activation, shim_activation};
use crate::building::{build_config_of, config_file, no_config, plan_of, BuildPlanView};
use crate::cli::{Commands, EnvCommand, PkgCommand};
use crate::env::{active_file_text, active_name_in};
use crate::paths::{
    active_env_file_of, cache_root_of, env_bin_dir_of, env_dir_of, join, root_bin_dir_of,
    shim_bin_dir_of,
};
use crate::phase::{AfterNameView, AfterResolveView, AfterSyncView, PhaseView, SourceView};
use crate::pkg::{parse_pkg_spec, removal_name_spec, PkgView};
use crate::protocol::{ActionView, DirItemView, DirectiveView, EventView, Mode, OutcomeView, ShimFileView, ShimStage};
use crate::shim::shim_script;
use crate::term::{cyan_code, purple_code, sparkle_text, status_text, yellow_code, ReportView};
use crate::text::trim;
use vstd::prelude::*;

verus! {

/// A running command as plain values.
pub struct SessionView {
    pub mode: Mode,
    pub base: Seq<char>,
    pub phase: PhaseView,
}

pub open spec fn go(s: SessionView, phase: PhaseView, action: ActionView) -> (
    SessionView,
    DirectiveView,
) {
    (SessionView { phase, ..s }, DirectiveView { notices: Seq::empty(), action })
}

pub open spec fn go_noting(
    s: SessionView,
    notices: Seq<Seq<char>>,
    phase: PhaseView,
    action: ActionView,
) -> (SessionView, DirectiveView) {
    (SessionView { phase, ..s }, DirectiveView { notices, action })
}

pub open spec fn finish(
    s: SessionView,
    notices: Seq<Seq<char>>,
    result: Result<OutcomeView, Seq<char>>,
) -> (SessionView, DirectiveView) {
    go_noting(s, notices, PhaseView::Finished, ActionView::Finish { result })
}

pub open spec fn fail(s: SessionView, message: Seq<char>) -> (SessionView, DirectiveView) {
    finish(s, Seq::empty(), Err(message))
}

pub open spec fn quiet(s: SessionView, notices: Seq<Seq<char>>) -> (SessionView, DirectiveView) {
    finish(s, notices, Ok(OutcomeView::Quiet))
}

pub open spec fn report(s: SessionView, summary: Seq<char>, details: Seq<Seq<char>>) -> (
    SessionView,
    DirectiveView,
) {
    finish(s, Seq::empty(), Ok(OutcomeView::Report { report: ReportView { summary, details } }))
}

/// "`<x>`": text between backquotes.
pub open spec fn ticked(x: Seq<char>) -> Seq<char> {
    "`"@ + x + "`"@
}

/// The error of a failed file-system action on `path`.
pub open spec fn failed_on(what: Seq<char>, path: Seq<char>, error: Seq<char>) -> Seq<char> {
    what + ticked(path) + ": "@ + error
}

// ----- directory listings -----
/// The position of the first entry that could not be inspected, or the
/// length of the listing when every entry could be.
pub open spec fn listing_stop(items: Seq<DirItemView>) -> int {
    if exists|i: int| 0 <= i < items.len() && items[i] is Unreadable {
        choose|i: int|
            0 <= i < items.len() && items[i] is Unreadable && forall|j: int|
                0 <= j < i ==> !(items[j] is Unreadable)
    } else {
        items.len() as int
    }
}

/// The inspection error of the entry at `i`.
pub open spec fn item_error(items: Seq<DirItemView>, i: int) -> Seq<char> {
    match items[i] {
        DirItemView::Unreadable { error } => error,
        _ => Seq::empty(),
    }
}

/// The error that stops a listing, if an entry could not be inspected.
pub open spec fn listing_error(items: Seq<DirItemView>) -> Option<Seq<char>> {
    if listing_stop(items) < items.len() {
        Some(item_error(items, listing_stop(items)))
    } else {
        None
    }
}

/// The paths of the regular files among `items`, in order.
pub open spec fn file_paths(items: Seq<DirItemView>) -> Seq<Seq<char>>
    decreases items.len(),
{
    if items.len() == 0 {
        Seq::empty()
    } else {
        let rest = file_paths(items.drop_last());
        match items.last() {
            DirItemView::Item { path, is_file, .. } => if is_file {
                rest.push(path)
            } else {
                rest
            },
            DirItemView::Unreadable { .. } => rest,
        }
    }
}

/// A shim in `shim_dir` for each regular file among `items`, named after
/// the file and running it.
pub open spec fn shims_for(shim_dir: Seq<char>, items: Seq<DirItemView>) -> Seq<ShimFileView>
    decreases items.len(),
{
    if items.len() == 0 {
        Seq::empty()
    } else {
        let rest = shims_for(shim_dir, items.drop_last());
        match items.last() {
            DirItemView::Item { path, name, is_file } => if is_file {
                rest.push(
                    ShimFileView {
                        path: join(shim_dir, name),
                        target: path,
                        script: shim_script(path),
                    },
                )
            } else {
                rest
            },
            DirItemView::Unreadable { .. } => rest,
        }
    }
}

// ----- reading the active environment -----
/// Starts reading the name of the active environment.
pub open spec fn read_active_name(s: SessionView, then: AfterNameView) -> (
    SessionView,
    DirectiveView,
) {
    go(s, PhaseView::NameCheck { then }, ActionView::Exists { path: active_env_file_of(s.base) })
}

/// Goes on once the active environment is known.
pub open spec fn named(s: SessionView, name: Option<Seq<char>>, then: AfterNameView) -> (
    SessionView,
    DirectiveView,
) {
    match then {
        AfterNameView::Resolve { then } => match name {
            None => resolved(s, root_bin_dir_of(s.base), then),
            Some(n) => go(
                s,
                PhaseView::EnvCheck { name: n, then },
                ActionView::IsDir { path: env_dir_of(s.base, n) },
            ),
        },
        AfterNameView::Tell => finish(s, Seq::empty(), Ok(OutcomeView::ActiveEnv { name })),
        AfterNameView::EnvRemoved { name: removed } => if name == Some(removed) {
            go(
                s,
                PhaseView::ClearCheck { name: removed },
                ActionView::Exists { path: active_env_file_of(s.base) },
            )
        } else {
            env_removed(s, removed, false)
        },
    }
}

/// Goes on once the active bin directory `dir` is known.
pub open spec fn resolved(s: SessionView, dir: Seq<char>, then: AfterResolveView) -> (
    SessionView,
    DirectiveView,
) {
    match then {
        AfterResolveView::Sync { then } => go(
            s,
            PhaseView::ShimDirCreate { source: dir, then },
            ActionView::CreateDirAll { path: shim_bin_dir_of(s.base) },
        ),
        AfterResolveView::Install { plan } => go(
            s,
            PhaseView::BuiltCheck { plan, target: dir },
            ActionView::IsFile { path: plan.binary },
        ),
        AfterResolveView::RemovePkg { name } => go(
            s,
            PhaseView::PkgRemoveCheck { name, installed: join(dir, name) },
            ActionView::Exists { path: join(dir, name) },
        ),
        AfterResolveView::Activate { shell } => finish(
            s,
            Seq::empty(),
            Ok(OutcomeView::Script { text: direct_activation(dir, shell) }),
        ),
        AfterResolveView::Locate => finish(s, Seq::empty(), Ok(OutcomeView::BinDir { path: dir })),
    }
}

pub open spec fn msg_read_active(file: Seq<char>, error: Seq<char>) -> Seq<char> {
    failed_on("failed to read active environment "@, file, error)
}

pub open spec fn msg_missing_active(name: Seq<char>) -> Seq<char> {
    "active environment "@ + ticked(name) + " is missing. Run `slox env add "@ + name
        + "` or set another one."@
}

pub open spec fn next_active(s: SessionView, e: EventView) -> (SessionView, DirectiveView) {
    match s.phase {
        PhaseView::NameCheck { then } => match e {
            EventView::Answer { yes } => if yes {
                go(
                    s,
                    PhaseView::NameRead { then },
                    ActionView::ReadToString { path: active_env_file_of(s.base) },
                )
            } else {
                named(s, None, then)
            },
            _ => fail(s, Seq::empty()),
        },
        PhaseView::NameRead { then } => match e {
            EventView::Text { text } => named(s, active_name_in(text), then),
            EventView::Failed { error } => fail(s, msg_read_active(active_env_file_of(s.base), error)),
            _ => fail(s, Seq::empty()),
        },
        PhaseView::EnvCheck { name, then } => match e {
            EventView::Answer { yes } => if yes {
                resolved(s, env_bin_dir_of(s.base, name), then)
            } else {
                fail(s, msg_missing_active(name))
            },
            _ => fail(s, Seq::empty()),
        },
        _ => fail(s, Seq::empty()),
    }
}

// ----- refreshing the shims -----
/// Refreshes the shims, in the mode that keeps them, then goes on.
pub open spec fn sync_then(s: SessionView, then: AfterSyncView) -> (SessionView, DirectiveView) {
    match s.mode {
        Mode::Shims => read_active_name(
            s,
            AfterNameView::Resolve { then: AfterResolveView::Sync { then } },
        ),
        Mode::Direct => synced(s, then),
    }
}

/// Goes on once the shims are refreshed.
pub open spec fn synced(s: SessionView, then: AfterSyncView) -> (SessionView, DirectiveView) {
    match then {
        AfterSyncView::Idle => quiet(s, Seq::empty()),
        AfterSyncView::EnvRemoved { name } => env_removed(s, name, true),
        AfterSyncView::EnvSelected { name } => env_selected(s, name),
        AfterSyncView::PkgInstalled { name, installed } => pkg_installed(s, name, installed),
        AfterSyncView::PkgRemoved { name, installed } => pkg_removed(s, name, installed, true),
    }
}

pub open spec fn next_sync(s: SessionView, e: EventView) -> (SessionView, DirectiveView) {
    let shims = shim_bin_dir_of(s.base);
    match s.phase {
        PhaseView::ShimDirCreate { source, then } => match e {
            EventView::Done => go(
                s,
                PhaseView::ShimDirList { source, then },
                ActionView::ListDir { path: shims },
            ),
            EventView::Failed { error } => fail(
                s,
                failed_on("failed to create shim bin dir "@, shims, error),
            ),
            _ => fail(s, Seq::empty()),
        },
        PhaseView::ShimDirList { source, then } => match e {
            EventView::Listing { items } => go(
                s,
                PhaseView::ShimsRemove { source, then, pending: listing_error(items) },
                ActionView::RemoveFiles {
                    paths: file_paths(items.take(listing_stop(items))),
                },
            ),
            EventView::Failed { error } => fail(
                s,
                failed_on("failed to read shim bin dir "@, shims, error),
            ),
            _ => fail(s, Seq::empty()),
        },
        PhaseView::ShimsRemove { source, then, pending } => match e {
            EventView::Done => match pending {
                Some(error) => fail(s, failed_on("failed to inspect shim bin dir "@, shims, error)),
                None => go(
                    s,
                    PhaseView::SourceCheck { source, then },
                    ActionView::IsDir { path: source },
                ),
            },
            EventView::Stopped { path, error } => fail(
                s,
                failed_on("failed to remove stale shim "@, path, error),
            ),
            _ => fail(s, Seq::empty()),
        },
        PhaseView::SourceCheck { source, then } => match e {
            EventView::Answer { yes } => if yes {
                go(s, PhaseView::SourceList { source, then }, ActionView::ListDir { path: source })
            } else {
                synced(s, then)
            },
            _ => fail(s, Seq::empty()),
        },
        PhaseView::SourceList { source, then } => match e {
            EventView::Listing { items } => go(
                s,
                PhaseView::ShimsWrite { source, then, pending: listing_error(items) },
                ActionView::WriteShims {
                    shims: shims_for(shims, items.take(listing_stop(items))),
                },
            ),
            EventView::Failed { error } => fail(
                s,
                failed_on("failed to read active bin dir "@, source, error),
            ),
            _ => fail(s, Seq::empty()),
        },
        PhaseView::ShimsWrite { source, then, pending } => match e {
            EventView::Done => match pending {
                Some(error) => fail(
                    s,
                    failed_on("failed to inspect active bin dir "@, source, error),
                ),
                None => synced(s, then),
            },
            EventView::ShimFailed { path, stage, error } => fail(
                s,
                match stage {
                    ShimStage::Write => failed_on("failed to write shim "@, path, error),
                    ShimStage::Inspect => failed_on("failed to inspect shim "@, path, error),
                    ShimStage::Mark => "failed to mark shim "@ + ticked(path) + " executable: "@
                        + error,
                },
            ),
            _ => fail(s, Seq::empty()),
        },
        _ => fail(s, Seq::empty()),
    }
}

// ----- environments -----
pub open spec fn msg_no_env(name: Seq<char>) -> Seq<char> {
    "environment "@ + ticked(name) + " does not exist. Run `slox env add "@ + name + "` first."@
}

/// Ends `env remove` of `name`, which was removed; `cleared` tells whether
/// it was the active environment.
pub open spec fn env_removed(s: SessionView, name: Seq<char>, cleared: bool) -> (
    SessionView,
    DirectiveView,
) {
    let dir = env_dir_of(s.base, name);
    match s.mode {
        Mode::Shims => report(
            s,
            "removed env "@ + ticked(name),
            if cleared {
                seq!["path: "@ + dir, "active env cleared; shims now point to root/bin"@]
            } else {
                seq!["path: "@ + dir]
            },
        ),
        Mode::Direct => quiet(
            s,
            if cleared {
                seq![
                    status_text(
                        "INFO"@,
                        cyan_code(),
                        "Cleared active environment "@ + ticked(name)
                            + " and fell back to root/bin."@,
                    ),
                    sparkle_text("Environment removed from "@ + dir),
                ]
            } else {
                seq![sparkle_text("Environment removed from "@ + dir)]
            },
        ),
    }
}

/// Ends `env set` of `name`.
pub open spec fn env_selected(s: SessionView, name: Seq<char>) -> (SessionView, DirectiveView) {
    let bin = env_bin_dir_of(s.base, name);
    match s.mode {
        Mode::Shims => report(
            s,
            "activated env "@ + ticked(name),
            seq!["bin: "@ + bin, "shims: "@ + shim_bin_dir_of(s.base)],
        ),
        Mode::Direct => quiet(
            s,
            seq![sparkle_text("Active environment set to "@ + name + " -> "@ + bin)],
        ),
    }
}

/// The environment `name` is forgotten as the active one: refresh the
/// shims, then end.
pub open spec fn env_cleared(s: SessionView, name: Seq<char>) -> (SessionView, DirectiveView) {
    sync_then(s, AfterSyncView::EnvRemoved { name })
}

pub open spec fn next_env(s: SessionView, e: EventView) -> (SessionView, DirectiveView) {
    match s.phase {
        PhaseView::EnvAdd { name } => match e {
            EventView::Done => match s.mode {
                Mode::Shims => report(
                    s,
                    "added env "@ + ticked(name),
                    seq![
                        "path: "@ + env_dir_of(s.base, name),
                        "bin: "@ + env_bin_dir_of(s.base, name),
                        "shims: "@ + shim_bin_dir_of(s.base),
                    ],
                ),
                Mode::Direct => quiet(
                    s,
                    seq![sparkle_text("Environment ready at "@ + env_dir_of(s.base, name))],
                ),
            },
            EventView::Failed { error } => fail(
                s,
                failed_on("failed to create env "@, env_dir_of(s.base, name), error),
            ),
            _ => fail(s, Seq::empty()),
        },
        PhaseView::EnvRemoveCheck { name } => match e {
            EventView::Answer { yes } => if yes {
                go(
                    s,
                    PhaseView::EnvRemoving { name },
                    ActionView::RemoveDirAll { path: env_dir_of(s.base, name) },
                )
            } else {
                match s.mode {
                    Mode::Shims => report(
                        s,
                        "env "@ + ticked(name) + " was already absent"@,
                        seq!["path: "@ + env_dir_of(s.base, name)],
                    ),
                    Mode::Direct => quiet(
                        s,
                        seq![
                            status_text(
                                "WARN"@,
                                yellow_code(),
                                "Environment "@ + ticked(name) + " does not exist, nothing to remove."@,
                            ),
                        ],
                    ),
                }
            },
            _ => fail(s, Seq::empty()),
        },
        PhaseView::EnvRemoving { name } => match e {
            EventView::Done => read_active_name(s, AfterNameView::EnvRemoved { name }),
            EventView::Failed { error } => fail(
                s,
                failed_on("failed to remove env "@, env_dir_of(s.base, name), error),
            ),
            _ => fail(s, Seq::empty()),
        },
        PhaseView::ClearCheck { name } => match e {
            EventView::Answer { yes } => if yes {
                go(
                    s,
                    PhaseView::Clearing { name },
                    ActionView::RemoveFile { path: active_env_file_of(s.base) },
                )
            } else {
                env_cleared(s, name)
            },
            _ => fail(s, Seq::empty()),
        },
        PhaseView::Clearing { name } => match e {
            EventView::Done => env_cleared(s, name),
            EventView::Failed { error } => fail(
                s,
                failed_on("failed to clear active environment "@, active_env_file_of(s.base), error),
            ),
            _ => fail(s, Seq::empty()),
        },
        PhaseView::SelectCheck { name } => match e {
            EventView::Answer { yes } => if yes {
                go(
                    s,
                    PhaseView::SelectPrepare { name },
                    ActionView::CreateDirAll { path: s.base },
                )
            } else {
                fail(s, msg_no_env(name))
            },
            _ => fail(s, Seq::empty()),
        },
        PhaseView::SelectPrepare { name } => match e {
            EventView::Done => go(
                s,
                PhaseView::SelectWrite { name },
                ActionView::WriteFile {
                    path: active_env_file_of(s.base),
                    contents: active_file_text(name),
                },
            ),
            EventView::Failed { error } => fail(s, failed_on("failed to prepare store "@, s.base, error)),
            _ => fail(s, Seq::empty()),
        },
        PhaseView::SelectWrite { name } => match e {
            EventView::Done => sync_then(s, AfterSyncView::EnvSelected { name }),
            EventView::Failed { error } => fail(
                s,
                "failed to set active environment "@ + ticked(name) + ": "@ + error,
            ),
            _ => fail(s, Seq::empty()),
        },
        PhaseView::FetchCheck { name } => match e {
            EventView::Answer { yes } => if yes {
                match s.mode {
                    Mode::Shims => report(
                        s,
                        "found env "@ + ticked(name),
                        seq!["bin: "@ + env_bin_dir_of(s.base, name)],
                    ),
                    Mode::Direct => quiet(
                        s,
                        seq![
                            sparkle_text(
                                "Environment "@ + name + " -> "@ + env_bin_dir_of(s.base, name),
                            ),
                        ],
                    ),
                }
            } else {
                fail(s, msg_no_env(name))
            },
            _ => fail(s, Seq::empty()),
        },
        _ => fail(s, Seq::empty()),
    }
}

// ----- packages -----
pub open spec fn registry_url() -> Seq<char> {
    "https://github.com/SloxPm/std-pkg"@
}

/// The clone of the sloxpkgs registry.
pub open spec fn registry_dir(base: Seq<char>) -> Seq<char> {
    join(cache_root_of(base), "std-pkg"@)
}

/// The URL of a package source.
pub open spec fn source_url(source: SourceView) -> Seq<char> {
    match source {
        SourceView::GitHub { url, .. } => url,
        SourceView::Registry { .. } => registry_url(),
    }
}

/// Where a package source is cloned.
pub open spec fn source_dir(base: Seq<char>, source: SourceView) -> Seq<char> {
    match source {
        SourceView::GitHub { repo, .. } => join(cache_root_of(base), repo),
        SourceView::Registry { .. } => registry_dir(base),
    }
}

/// Goes on to build the package as `plan` says, once its configuration is
/// known.
pub open spec fn planned(s: SessionView, plan: BuildPlanView) -> (SessionView, DirectiveView) {
    go(s, PhaseView::BuildScriptCheck { plan }, ActionView::IsFile { path: plan.script })
}

/// What a failed build reports: its error output, else its standard
/// output, else a fixed sentence; each without surrounding white space.
pub open spec fn build_details(stderr: Seq<char>, stdout: Seq<char>) -> Seq<char> {
    if trim(stderr).len() > 0 {
        trim(stderr)
    } else if trim(stdout).len() > 0 {
        trim(stdout)
    } else {
        "build script exited with a non-zero status"@
    }
}

pub open spec fn msg_build_failed(name: Seq<char>, details: Seq<char>) -> Seq<char> {
    "build failed for "@ + ticked(name) + ": "@ + details
}

/// Starts installing the package built in `dir` under `name`.
pub open spec fn install_from(
    s: SessionView,
    notices: Seq<Seq<char>>,
    dir: Seq<char>,
    name: Seq<char>,
) -> (SessionView, DirectiveView) {
    go_noting(s, notices, PhaseView::PackageDirCheck { dir, name }, ActionView::IsDir { path: dir })
}

/// Goes on once the repository of `source` is at hand.
pub open spec fn repo_ready(s: SessionView, notices: Seq<Seq<char>>, source: SourceView) -> (
    SessionView,
    DirectiveView,
) {
    match source {
        SourceView::GitHub { repo, .. } => install_from(
            s,
            notices,
            source_dir(s.base, source),
            repo,
        ),
        SourceView::Registry { pkg } => go_noting(
            s,
            notices,
            PhaseView::SubmoduleUpdate { pkg },
            ActionView::UpdateSubmodule { name: pkg },
        ),
    }
}

/// Ends `pkg add`: the package `name` is installed at `installed`.
pub open spec fn pkg_installed(s: SessionView, name: Seq<char>, installed: Seq<char>) -> (
    SessionView,
    DirectiveView,
) {
    match s.mode {
        Mode::Shims => report(
            s,
            "added package "@ + ticked(name),
            seq!["binary: "@ + installed, "shim: "@ + join(shim_bin_dir_of(s.base), name)],
        ),
        Mode::Direct => quiet(s, seq![sparkle_text("Installed "@ + name + " to "@ + installed)]),
    }
}

/// Ends `pkg remove` of `name`, whose binary is or would be `installed`.
pub open spec fn pkg_removed(
    s: SessionView,
    name: Seq<char>,
    installed: Seq<char>,
    removed: bool,
) -> (SessionView, DirectiveView) {
    report(
        s,
        if removed {
            "removed package "@ + ticked(name)
        } else {
            "package "@ + ticked(name) + " was not installed"@
        },
        seq!["binary: "@ + installed, "shim: "@ + join(shim_bin_dir_of(s.base), name)],
    )
}

/// The text of an optional URL, with a stand-in when there is none.
pub open spec fn url_or_unknown(url: Option<Seq<char>>) -> Seq<char> {
    match url {
        Some(u) => u,
        None => "unknown url"@,
    }
}

pub open spec fn next_pkg(s: SessionView, e: EventView) -> (SessionView, DirectiveView) {
    let cache = cache_root_of(s.base);
    match s.phase {
        PhaseView::CacheCreate { source } => match e {
            EventView::Done => go(
                s,
                PhaseView::RepoCheck { source },
                ActionView::Exists { path: source_dir(s.base, source) },
            ),
            EventView::Failed { error } => fail(
                s,
                failed_on("failed to create package cache "@, cache, error),
            ),
            _ => fail(s, Seq::empty()),
        },
        PhaseView::RepoCheck { source } => match e {
            EventView::Answer { yes } => if yes {
                go_noting(
                    s,
                    match s.mode {
                        Mode::Direct => seq![
                            status_text(
                                "INFO"@,
                                cyan_code(),
                                "Using cached repository at "@ + source_dir(s.base, source),
                            ),
                        ],
                        Mode::Shims => Seq::empty(),
                    },
                    PhaseView::RepoOpen { source },
                    ActionView::OpenRepository { path: source_dir(s.base, source) },
                )
            } else {
                go(
                    s,
                    PhaseView::RepoClone { source },
                    ActionView::CloneRepository {
                        url: source_url(source),
                        path: source_dir(s.base, source),
                    },
                )
            },
            _ => fail(s, Seq::empty()),
        },
        PhaseView::RepoOpen { source } => match e {
            EventView::Done => repo_ready(s, Seq::empty(), source),
            EventView::Failed { error } => fail(
                s,
                failed_on("failed to open cached repository "@, source_dir(s.base, source), error),
            ),
            _ => fail(s, Seq::empty()),
        },
        PhaseView::RepoClone { source } => match e {
            EventView::Done => repo_ready(
                s,
                match s.mode {
                    Mode::Direct => seq![
                        sparkle_text(
                            "Cloned "@ + source_url(source) + " into "@ + source_dir(s.base, source),
                        ),
                    ],
                    Mode::Shims => Seq::empty(),
                },
                source,
            ),
            EventView::Failed { error } => fail(
                s,
                "failed to clone "@ + ticked(source_url(source)) + " into "@ + ticked(
                    source_dir(s.base, source),
                ) + ": "@ + error,
            ),
            _ => fail(s, Seq::empty()),
        },
        PhaseView::SubmoduleUpdate { pkg } => match e {
            EventView::Done => go(
                s,
                PhaseView::RegistryCheck { pkg },
                ActionView::IsDir { path: join(registry_dir(s.base), pkg) },
            ),
            EventView::SubmoduleFailed { url, error } => fail(
                s,
                "failed to initialize sloxpkgs package "@ + ticked(pkg) + " from "@ + ticked(
                    url_or_unknown(url),
                ) + ": "@ + error,
            ),
            _ => fail(s, Seq::empty()),
        },
        PhaseView::RegistryCheck { pkg } => match e {
            EventView::Answer { yes } => if yes {
                install_from(s, Seq::empty(), join(registry_dir(s.base), pkg), pkg)
            } else {
                fail(
                    s,
                    "package "@ + ticked(pkg) + " was not found in sloxpkgs registry "@ + ticked(
                        registry_url(),
                    ),
                )
            },
            _ => fail(s, Seq::empty()),
        },
        PhaseView::PackageDirCheck { dir, name } => match e {
            EventView::Answer { yes } => if yes {
                go(
                    s,
                    PhaseView::ConfigCheck { dir, name },
                    ActionView::IsFile { path: config_file(dir) },
                )
            } else {
                fail(s, "package directory "@ + ticked(dir) + " does not exist"@)
            },
            _ => fail(s, Seq::empty()),
        },
        PhaseView::ConfigCheck { dir, name } => match e {
            EventView::Answer { yes } => if yes {
                go(
                    s,
                    PhaseView::ConfigRead { dir, name },
                    ActionView::ReadToString { path: config_file(dir) },
                )
            } else {
                planned(s, plan_of(dir, name, no_config()))
            },
            _ => fail(s, Seq::empty()),
        },
        PhaseView::ConfigRead { dir, name } => match e {
            EventView::Text { text } => match build_config_of(text) {
                Ok(config) => planned(s, plan_of(dir, name, config)),
                Err(error) => fail(s, failed_on("invalid build config "@, config_file(dir), error)),
            },
            EventView::Failed { error } => fail(
                s,
                failed_on("failed to read build config "@, config_file(dir), error),
            ),
            _ => fail(s, Seq::empty()),
        },
        PhaseView::BuildScriptCheck { plan } => match e {
            EventView::Answer { yes } => if yes {
                go_noting(
                    s,
                    match s.mode {
                        Mode::Direct => seq![
                            status_text("BUILD"@, purple_code(), "Running "@ + plan.script),
                        ],
                        Mode::Shims => Seq::empty(),
                    },
                    PhaseView::Building { plan },
                    ActionView::RunBuildScript { dir: plan.dir, script: plan.script },
                )
            } else {
                fail(
                    s,
                    msg_build_failed(
                        plan.package,
                        "expected build script at "@ + ticked(plan.script),
                    ),
                )
            },
            _ => fail(s, Seq::empty()),
        },
        PhaseView::Building { plan } => match e {
            EventView::BuildExited { success, stdout, stderr } => if success {
                read_active_name(
                    s,
                    AfterNameView::Resolve { then: AfterResolveView::Install { plan } },
                )
            } else {
                fail(s, msg_build_failed(plan.package, build_details(stderr, stdout)))
            },
            EventView::Failed { error } => fail(
                s,
                msg_build_failed(
                    plan.package,
                    failed_on("failed to run build script "@, plan.script, error),
                ),
            ),
            _ => fail(s, Seq::empty()),
        },
        PhaseView::BuiltCheck { plan, target } => match e {
            EventView::Answer { yes } => if yes {
                go(
                    s,
                    PhaseView::TargetCreate { plan, target },
                    ActionView::CreateDirAll { path: target },
                )
            } else {
                fail(s, "expected built binary at "@ + ticked(plan.binary))
            },
            _ => fail(s, Seq::empty()),
        },
        PhaseView::TargetCreate { plan, target } => match e {
            EventView::Done => go(
                s,
                PhaseView::Copying { plan, target },
                ActionView::CopyFile { from: plan.binary, to: join(target, plan.name) },
            ),
            EventView::Failed { error } => fail(
                s,
                failed_on("failed to create root bin dir "@, target, error),
            ),
            _ => fail(s, Seq::empty()),
        },
        PhaseView::Copying { plan, target } => match e {
            EventView::Done => sync_then(
                s,
                AfterSyncView::PkgInstalled { name: plan.name, installed: join(target, plan.name) },
            ),
            EventView::Failed { error } => fail(
                s,
                "failed to install "@ + ticked(plan.binary) + " to "@ + ticked(
                    join(target, plan.name),
                ) + ": "@ + error,
            ),
            _ => fail(s, Seq::empty()),
        },
        PhaseView::PkgRemoveCheck { name, installed } => match e {
            EventView::Answer { yes } => if yes {
                go(
                    s,
                    PhaseView::PkgRemoving { name, installed },
                    ActionView::RemoveFile { path: installed },
                )
            } else {
                pkg_removed(s, name, installed, false)
            },
            _ => fail(s, Seq::empty()),
        },
        PhaseView::PkgRemoving { name, installed } => match e {
            EventView::Done => sync_then(s, AfterSyncView::PkgRemoved { name, installed }),
            EventView::Failed { error } => fail(
                s,
                failed_on("failed to remove package binary "@, installed, error),
            ),
            _ => fail(s, Seq::empty()),
        },
        _ => fail(s, Seq::empty()),
    }
}

/// Which group of phases `p` belongs to: reading the active environment,
/// refreshing shims, environments, packages, or none.
pub open spec fn phase_group(p: PhaseView) -> int {
    match p {
        PhaseView::NameCheck { .. } | PhaseView::NameRead { .. } | PhaseView::EnvCheck { .. } => 0,
        PhaseView::ShimDirCreate { .. } | PhaseView::ShimDirList { .. }
        | PhaseView::ShimsRemove { .. } | PhaseView::SourceCheck { .. }
        | PhaseView::SourceList { .. } | PhaseView::ShimsWrite { .. } => 1,
        PhaseView::EnvAdd { .. } | PhaseView::EnvRemoveCheck { .. }
        | PhaseView::EnvRemoving { .. } | PhaseView::ClearCheck { .. }
        | PhaseView::Clearing { .. } | PhaseView::SelectCheck { .. }
        | PhaseView::SelectPrepare { .. } | PhaseView::SelectWrite { .. }
        | PhaseView::FetchCheck { .. } => 2,
        PhaseView::Finished => 4,
        _ => 3,
    }
}

/// The next phase and directive after event `e`.
pub open spec fn next(s: SessionView, e: EventView) -> (SessionView, DirectiveView) {
    let g = phase_group(s.phase);
    if g == 0 {
        next_active(s, e)
    } else if g == 1 {
        next_sync(s, e)
    } else if g == 2 {
        next_env(s, e)
    } else {
        next_pkg(s, e)
    }
}

/// The kinds of events that phase `p` waits for: the answer to a question,
/// an action's success or failure, a file's text, a listing, and so on.
pub open spec fn accepts(p: PhaseView, e: EventView) -> bool {
    match p {
        PhaseView::NameCheck { .. } | PhaseView::EnvCheck { .. } | PhaseView::SourceCheck { .. }
        | PhaseView::EnvRemoveCheck { .. } | PhaseView::ClearCheck { .. }
        | PhaseView::SelectCheck { .. } | PhaseView::FetchCheck { .. }
        | PhaseView::RepoCheck { .. } | PhaseView::RegistryCheck { .. }
        | PhaseView::PackageDirCheck { .. } | PhaseView::ConfigCheck { .. }
        | PhaseView::BuildScriptCheck { .. } | PhaseView::BuiltCheck { .. }
        | PhaseView::PkgRemoveCheck { .. } => e is Answer,
        PhaseView::NameRead { .. } | PhaseView::ConfigRead { .. } => e is Text || e is Failed,
        PhaseView::ShimDirList { .. } | PhaseView::SourceList { .. } => e is Listing || e is Failed,
        PhaseView::ShimsRemove { .. } => e is Done || e is Stopped,
        PhaseView::ShimsWrite { .. } => e is Done || e is ShimFailed,
        PhaseView::SubmoduleUpdate { .. } => e is Done || e is SubmoduleFailed,
        PhaseView::Building { .. } => e is BuildExited || e is Failed,
        PhaseView::Finished => false,
        _ => e is Done || e is Failed,
    }
}

/// The URL of the GitHub repository `user/repo`.
pub open spec fn github_url(user: Seq<char>, repo: Seq<char>) -> Seq<char> {
    "https://github.com/"@ + user + "/"@ + repo
}

/// The first phase and directive of `command` on the store at `base`.
pub open spec fn begin(mode: Mode, base: Seq<char>, command: Commands) -> (
    SessionView,
    DirectiveView,
) {
    let s = SessionView { mode, base, phase: PhaseView::Finished };
    match command {
        Commands::Env { command } => match command {
            EnvCommand::Add { path } => go(
                s,
                PhaseView::EnvAdd { name: path@ },
                ActionView::CreateDirAll { path: env_bin_dir_of(base, path@) },
            ),
            EnvCommand::Remove { path } => go(
                s,
                PhaseView::EnvRemoveCheck { name: path@ },
                ActionView::Exists { path: env_dir_of(base, path@) },
            ),
            EnvCommand::Select { path } => go(
                s,
                PhaseView::SelectCheck { name: path@ },
                ActionView::IsDir { path: env_dir_of(base, path@) },
            ),
            EnvCommand::Fetch { path } => go(
                s,
                PhaseView::FetchCheck { name: path@ },
                ActionView::IsDir { path: env_dir_of(base, path@) },
            ),
        },
        Commands::Activate { command } => match mode {
            Mode::Shims => finish(
                s,
                Seq::empty(),
                Ok(OutcomeView::Script { text: shim_activation(base, command) }),
            ),
            Mode::Direct => read_active_name(
                s,
                AfterNameView::Resolve { then: AfterResolveView::Activate { shell: command } },
            ),
        },
        Commands::Pkg { command } => match command {
            PkgCommand::Add { path } => match parse_pkg_spec(path@) {
                Err(e) => fail(s, e),
                Ok(PkgView::GitHub { user, repo }) => go(
                    s,
                    PhaseView::CacheCreate {
                        source: SourceView::GitHub { url: github_url(user, repo), repo },
                    },
                    ActionView::CreateDirAll { path: cache_root_of(base) },
                ),
                Ok(PkgView::Regit { pkg }) => go(
                    s,
                    PhaseView::CacheCreate { source: SourceView::Registry { pkg } },
                    ActionView::CreateDirAll { path: cache_root_of(base) },
                ),
            },
            PkgCommand::Remove { path } => match mode {
                Mode::Direct => quiet(
                    s,
                    seq![
                        status_text(
                            "WARN"@,
                            yellow_code(),
                            "Package removal is not implemented yet for "@ + ticked(path@) + "."@,
                        ),
                    ],
                ),
                Mode::Shims => match removal_name_spec(path@) {
                    Err(e) => fail(s, e),
                    Ok(name) => read_active_name(
                        s,
                        AfterNameView::Resolve { then: AfterResolveView::RemovePkg { name } },
                    ),
                },
            },
        },
    }
}

/// Reads the name of the active environment.
pub open spec fn begin_active_env(mode: Mode, base: Seq<char>) -> (SessionView, DirectiveView) {
    read_active_name(SessionView { mode, base, phase: PhaseView::Finished }, AfterNameView::Tell)
}

/// Finds the active bin directory: the bin directory of the active
/// environment, or the root bin directory when none is recorded.
pub open spec fn begin_active_bin(mode: Mode, base: Seq<char>) -> (SessionView, DirectiveView) {
    read_active_name(
        SessionView { mode, base, phase: PhaseView::Finished },
        AfterNameView::Resolve { then: AfterResolveView::Locate },
    )
}

/// Makes the shim directory mirror the active bin directory.
pub open spec fn begin_sync(mode: Mode, base: Seq<char>) -> (SessionView, DirectiveView) {
    read_active_name(
        SessionView { mode, base, phase: PhaseView::Finished },
        AfterNameView::Resolve {
            then: AfterResolveView::Sync { then: AfterSyncView::Idle },
        },
    )
}

/// Builds the package in `dir` and installs it in the active bin directory
/// under `name`.
pub open spec fn begin_install(mode: Mode, base: Seq<char>, dir: Seq<char>, name: Seq<char>) -> (
    SessionView,
    DirectiveView,
) {
    install_from(SessionView { mode, base, phase: PhaseView::Finished }, Seq::empty(), dir, name)
}

} // verus!
