//! A running command: it asks for one action at a time and decides what to
//! do next from how the last action went.
use crate::paths::{join_path, StorePaths};
use crate::phase::{opt_view, AfterName, AfterResolve, AfterSync, Phase, PhaseView, Source};
use crate::protocol::{item_views, Action, DirItem, Directive, Event, Mode, Outcome, ShimFile};
use crate::cli::{Commands, EnvCommand, PkgCommand};
use crate::pkg::{package_name_from_remove_arg, parse_pkg, Pkg};
use crate::rules::{
    accepts, begin, next, failed_on, file_paths, listing_error, listing_stop, shims_for, ticked,
    SessionView,
};
use crate::building::{build_failure_details, build_plan, default_config, parse_build_config, BuildPlan};
use crate::building::{config_file, plan_of};
use crate::shim::Shim;
use crate::term::{texts, Report};
use crate::text::{cat3, owned, push_str};
use vstd::prelude::*;

verus! {

/// A command on its way: the mode it runs in, the store it acts on and
/// what it waits for.
pub struct Session {
    mode: Mode,
    store: StorePaths,
    phase: Phase,
}

impl View for Session {
    type V = SessionView;

    closed spec fn view(&self) -> SessionView {
        SessionView { mode: self.mode, base: self.store.base@, phase: self.phase@ }
    }
}

/// The session and directive that a step ends with, as plain values.
pub open spec fn stepped(s: SessionView, r: (Phase, Directive)) -> (
    crate::rules::SessionView,
    crate::protocol::DirectiveView,
) {
    (SessionView { phase: r.0@, ..s }, r.1@)
}

// ----- building directives -----
pub fn no_notes() -> (v: Vec<String>)
    ensures
        texts(v@) == Seq::<Seq<char>>::empty(),
{
    let v: Vec<String> = Vec::new();
    assert(texts(v@) =~= Seq::<Seq<char>>::empty());
    v
}

pub fn one_note(a: String) -> (v: Vec<String>)
    ensures
        texts(v@) == seq![a@],
{
    let ghost a_view = a@;
    let mut v: Vec<String> = Vec::new();
    v.push(a);
    assert(texts(v@) =~= seq![a_view]);
    v
}

pub fn two_notes(a: String, b: String) -> (v: Vec<String>)
    ensures
        texts(v@) == seq![a@, b@],
{
    let ghost a_view = a@;
    let ghost b_view = b@;
    let mut v: Vec<String> = Vec::new();
    v.push(a);
    v.push(b);
    assert(texts(v@) =~= seq![a_view, b_view]);
    v
}

pub fn three_notes(a: String, b: String, c: String) -> (v: Vec<String>)
    ensures
        texts(v@) == seq![a@, b@, c@],
{
    let ghost a_view = a@;
    let ghost b_view = b@;
    let ghost c_view = c@;
    let mut v: Vec<String> = Vec::new();
    v.push(a);
    v.push(b);
    v.push(c);
    assert(texts(v@) =~= seq![a_view, b_view, c_view]);
    v
}

fn go(Ghost(s): Ghost<SessionView>, phase: Phase, action: Action) -> (r: (Phase, Directive))
    ensures
        stepped(s, r) == crate::rules::go(s, phase@, action@),
{
    (phase, Directive { notices: no_notes(), action })
}

fn go_noting(Ghost(s): Ghost<SessionView>, notices: Vec<String>, phase: Phase, action: Action) -> (r: (
    Phase,
    Directive,
))
    ensures
        stepped(s, r) == crate::rules::go_noting(s, texts(notices@), phase@, action@),
{
    (phase, Directive { notices, action })
}

fn finish(Ghost(s): Ghost<SessionView>, notices: Vec<String>, result: Result<Outcome, String>) -> (r: (
    Phase,
    Directive,
))
    ensures
        stepped(s, r) == crate::rules::finish(
            s,
            texts(notices@),
            match result {
                Ok(o) => Ok(o@),
                Err(e) => Err(e@),
            },
        ),
{
    (Phase::Finished, Directive { notices, action: Action::Finish { result } })
}

fn fail(Ghost(s): Ghost<SessionView>, message: String) -> (r: (Phase, Directive))
    ensures
        stepped(s, r) == crate::rules::fail(s, message@),
{
    finish(Ghost(s), no_notes(), Err(message))
}

fn quiet(Ghost(s): Ghost<SessionView>, notices: Vec<String>) -> (r: (Phase, Directive))
    ensures
        stepped(s, r) == crate::rules::quiet(s, texts(notices@)),
{
    finish(Ghost(s), notices, Ok(Outcome::Quiet))
}

fn report(Ghost(s): Ghost<SessionView>, summary: String, details: Vec<String>) -> (r: (
    Phase,
    Directive,
))
    ensures
        stepped(s, r) == crate::rules::report(s, summary@, texts(details@)),
{
    let rep = Report { summary, details };
    finish(Ghost(s), no_notes(), Ok(Outcome::Report { report: rep }))
}

// ----- messages -----
/// `x` between backquotes.
pub fn backquoted(x: &str) -> (out: String)
    ensures
        out@ == ticked(x@),
{
    cat3("`", x, "`")
}

/// The error of a failed action on `path`: `what`, the path in
/// backquotes, a colon and the error text.
pub fn failed_on_text(what: &str, path: &str, error: &str) -> (out: String)
    ensures
        out@ == failed_on(what@, path@, error@),
{
    let mut out = owned(what);
    push_str(&mut out, backquoted(path).as_str());
    push_str(&mut out, ": ");
    push_str(&mut out, error);
    out
}


// ----- reading the active environment -----
fn read_active_name(Ghost(s): Ghost<SessionView>, store: &StorePaths, then: AfterName) -> (r: (
    Phase,
    Directive,
))
    requires
        s.base == store.base@,
    ensures
        stepped(s, r) == crate::rules::read_active_name(s, then@),
{
    go(Ghost(s), Phase::NameCheck { then }, Action::Exists { path: store.active_env_file() })
}

fn named(
    Ghost(s): Ghost<SessionView>,
    mode: Mode,
    store: &StorePaths,
    name: Option<String>,
    then: AfterName,
) -> (r: (Phase, Directive))
    requires
        s.base == store.base@,
        s.mode == mode,
    ensures
        stepped(s, r) == crate::rules::named(s, opt_view(name), then@),
{
    match then {
        AfterName::Resolve { then } => match name {
            None => resolved(Ghost(s), store, store.root_bin_dir(), then),
            Some(n) => {
                let dir = store.env_dir(n.as_str());
                go(Ghost(s), Phase::EnvCheck { name: n, then }, Action::IsDir { path: dir })
            },
        },
        AfterName::Tell => finish(Ghost(s), no_notes(), Ok(Outcome::ActiveEnv { name })),
        AfterName::EnvRemoved { name: removed } => {
            let same = match &name {
                Some(n) => crate::pkg::same_text(n.as_str(), removed.as_str()),
                None => false,
            };
            if same {
                go(
                    Ghost(s),
                    Phase::ClearCheck { name: removed },
                    Action::Exists { path: store.active_env_file() },
                )
            } else {
                env_removed(Ghost(s), mode, store, removed, false)
            }
        },
    }
}

fn resolved(Ghost(s): Ghost<SessionView>, store: &StorePaths, dir: String, then: AfterResolve) -> (r: (
    Phase,
    Directive,
))
    requires
        s.base == store.base@,
    ensures
        stepped(s, r) == crate::rules::resolved(s, dir@, then@),
{
    match then {
        AfterResolve::Sync { then } => go(
            Ghost(s),
            Phase::ShimDirCreate { source: dir, then },
            Action::CreateDirAll { path: store.shim_bin_dir() },
        ),
        AfterResolve::Install { plan } => {
            let built = owned(plan.binary.as_str());
            go(Ghost(s), Phase::BuiltCheck { plan, target: dir }, Action::IsFile { path: built })
        },
        AfterResolve::RemovePkg { name } => {
            let installed = join_path(dir.as_str(), name.as_str());
            let probe = join_path(dir.as_str(), name.as_str());
            go(
                Ghost(s),
                Phase::PkgRemoveCheck { name, installed },
                Action::Exists { path: probe },
            )
        },
        AfterResolve::Activate { shell } => {
            let line = crate::activate::direct_activation_line(dir.as_str(), shell);
            finish(Ghost(s), no_notes(), Ok(Outcome::Script { text: line }))
        },
        AfterResolve::Locate => finish(Ghost(s), no_notes(), Ok(Outcome::BinDir { path: dir })),
    }
}

fn advance_active(Ghost(s): Ghost<SessionView>, mode: Mode, store: &StorePaths, phase: Phase, e: Event) -> (r: (
    Phase,
    Directive,
))
    requires
        s.base == store.base@,
        s.mode == mode,
        s.phase == phase@,
        crate::rules::phase_group(phase@) == 0,
    ensures
        stepped(s, r) == crate::rules::next_active(s, e@),
{
    match phase {
        Phase::NameCheck { then } => match e {
            Event::Answer { yes } => if yes {
                go(
                    Ghost(s),
                    Phase::NameRead { then },
                    Action::ReadToString { path: store.active_env_file() },
                )
            } else {
                named(Ghost(s), mode, store, None, then)
            },
            _ => fail(Ghost(s), String::new()),
        },
        Phase::NameRead { then } => match e {
            Event::Text { text } => {
                let name = crate::env::active_env_name_in(text.as_str());
                named(Ghost(s), mode, store, name, then)
            },
            Event::Failed { error } => {
                let file = store.active_env_file();
                fail(
                    Ghost(s),
                    failed_on_text("failed to read active environment ", file.as_str(), error.as_str()),
                )
            },
            _ => fail(Ghost(s), String::new()),
        },
        Phase::EnvCheck { name, then } => match e {
            Event::Answer { yes } => if yes {
                let bin = store.env_bin_dir(name.as_str());
                resolved(Ghost(s), store, bin, then)
            } else {
                let msg = crate::text::cat5(
                    "active environment ",
                    backquoted(name.as_str()).as_str(),
                    " is missing. Run `slox env add ",
                    name.as_str(),
                    "` or set another one.",
                );
                fail(Ghost(s), msg)
            },
            _ => fail(Ghost(s), String::new()),
        },
        _ => fail(Ghost(s), String::new()),
    }
}


// ----- refreshing the shims -----
fn sync_then(Ghost(s): Ghost<SessionView>, mode: Mode, store: &StorePaths, then: AfterSync) -> (r: (
    Phase,
    Directive,
))
    requires
        s.base == store.base@,
        s.mode == mode,
    ensures
        stepped(s, r) == crate::rules::sync_then(s, then@),
{
    match mode {
        Mode::Shims => read_active_name(
            Ghost(s),
            store,
            AfterName::Resolve { then: AfterResolve::Sync { then } },
        ),
        Mode::Direct => synced(Ghost(s), mode, store, then),
    }
}

fn synced(Ghost(s): Ghost<SessionView>, mode: Mode, store: &StorePaths, then: AfterSync) -> (r: (
    Phase,
    Directive,
))
    requires
        s.base == store.base@,
        s.mode == mode,
    ensures
        stepped(s, r) == crate::rules::synced(s, then@),
{
    match then {
        AfterSync::Idle => quiet(Ghost(s), no_notes()),
        AfterSync::EnvRemoved { name } => env_removed(Ghost(s), mode, store, name, true),
        AfterSync::EnvSelected { name } => env_selected(Ghost(s), mode, store, name),
        AfterSync::PkgInstalled { name, installed } => pkg_installed(
            Ghost(s),
            mode,
            store,
            name,
            installed,
        ),
        AfterSync::PkgRemoved { name, installed } => pkg_removed(
            Ghost(s),
            store,
            name,
            installed,
            true,
        ),
    }
}

// ----- environments -----
fn env_removed(Ghost(s): Ghost<SessionView>, mode: Mode, store: &StorePaths, name: String, cleared: bool) -> (r: (
    Phase,
    Directive,
))
    requires
        s.base == store.base@,
        s.mode == mode,
    ensures
        stepped(s, r) == crate::rules::env_removed(s, name@, cleared),
{
    let dir = store.env_dir(name.as_str());
    match mode {
        Mode::Shims => {
            let summary = crate::text::cat("removed env ", backquoted(name.as_str()).as_str());
            let path = crate::text::cat("path: ", dir.as_str());
            if cleared {
                report(
                    Ghost(s),
                    summary,
                    two_notes(path, owned("active env cleared; shims now point to root/bin")),
                )
            } else {
                report(Ghost(s), summary, one_note(path))
            }
        },
        Mode::Direct => {
            let gone = crate::term::sparkle_line(
                crate::text::cat("Environment removed from ", dir.as_str()).as_str(),
            );
            if cleared {
                let info = crate::term::status_line(
                    "INFO",
                    crate::term::cyan(),
                    cat3(
                        "Cleared active environment ",
                        backquoted(name.as_str()).as_str(),
                        " and fell back to root/bin.",
                    ).as_str(),
                );
                quiet(Ghost(s), two_notes(info, gone))
            } else {
                quiet(Ghost(s), one_note(gone))
            }
        },
    }
}

fn env_selected(Ghost(s): Ghost<SessionView>, mode: Mode, store: &StorePaths, name: String) -> (r: (
    Phase,
    Directive,
))
    requires
        s.base == store.base@,
        s.mode == mode,
    ensures
        stepped(s, r) == crate::rules::env_selected(s, name@),
{
    let bin = store.env_bin_dir(name.as_str());
    match mode {
        Mode::Shims => report(
            Ghost(s),
            crate::text::cat("activated env ", backquoted(name.as_str()).as_str()),
            two_notes(
                crate::text::cat("bin: ", bin.as_str()),
                crate::text::cat("shims: ", store.shim_bin_dir().as_str()),
            ),
        ),
        Mode::Direct => quiet(
            Ghost(s),
            one_note(
                crate::term::sparkle_line(
                    crate::text::cat4(
                        "Active environment set to ",
                        name.as_str(),
                        " -> ",
                        bin.as_str(),
                    ).as_str(),
                ),
            ),
        ),
    }
}

fn no_env_message(name: &str) -> (out: String)
    ensures
        out@ == crate::rules::msg_no_env(name@),
{
    crate::text::cat5(
        "environment ",
        backquoted(name).as_str(),
        " does not exist. Run `slox env add ",
        name,
        "` first.",
    )
}

fn advance_env(Ghost(s): Ghost<SessionView>, mode: Mode, store: &StorePaths, phase: Phase, e: Event) -> (r: (
    Phase,
    Directive,
))
    requires
        s.base == store.base@,
        s.mode == mode,
        s.phase == phase@,
        crate::rules::phase_group(phase@) == 2,
    ensures
        stepped(s, r) == crate::rules::next_env(s, e@),
{
    match phase {
        Phase::EnvAdd { name } => match e {
            Event::Done => {
                let dir = store.env_dir(name.as_str());
                match mode {
                    Mode::Shims => report(
                        Ghost(s),
                        crate::text::cat("added env ", backquoted(name.as_str()).as_str()),
                        three_notes(
                            crate::text::cat("path: ", dir.as_str()),
                            crate::text::cat("bin: ", store.env_bin_dir(name.as_str()).as_str()),
                            crate::text::cat("shims: ", store.shim_bin_dir().as_str()),
                        ),
                    ),
                    Mode::Direct => quiet(
                        Ghost(s),
                        one_note(
                            crate::term::sparkle_line(
                                crate::text::cat("Environment ready at ", dir.as_str()).as_str(),
                            ),
                        ),
                    ),
                }
            },
            Event::Failed { error } => {
                let dir = store.env_dir(name.as_str());
                fail(Ghost(s), failed_on_text("failed to create env ", dir.as_str(), error.as_str()))
            },
            _ => fail(Ghost(s), String::new()),
        },
        Phase::EnvRemoveCheck { name } => match e {
            Event::Answer { yes } => if yes {
                let dir = store.env_dir(name.as_str());
                go(Ghost(s), Phase::EnvRemoving { name }, Action::RemoveDirAll { path: dir })
            } else {
                match mode {
                    Mode::Shims => {
                        let dir = store.env_dir(name.as_str());
                        report(
                            Ghost(s),
                            cat3("env ", backquoted(name.as_str()).as_str(), " was already absent"),
                            one_note(crate::text::cat("path: ", dir.as_str())),
                        )
                    },
                    Mode::Direct => quiet(
                        Ghost(s),
                        one_note(
                            crate::term::status_line(
                                "WARN",
                                crate::term::yellow(),
                                cat3(
                                    "Environment ",
                                    backquoted(name.as_str()).as_str(),
                                    " does not exist, nothing to remove.",
                                ).as_str(),
                            ),
                        ),
                    ),
                }
            },
            _ => fail(Ghost(s), String::new()),
        },
        Phase::EnvRemoving { name } => match e {
            Event::Done => read_active_name(Ghost(s), store, AfterName::EnvRemoved { name }),
            Event::Failed { error } => {
                let dir = store.env_dir(name.as_str());
                fail(Ghost(s), failed_on_text("failed to remove env ", dir.as_str(), error.as_str()))
            },
            _ => fail(Ghost(s), String::new()),
        },
        Phase::ClearCheck { name } => match e {
            Event::Answer { yes } => if yes {
                go(
                    Ghost(s),
                    Phase::Clearing { name },
                    Action::RemoveFile { path: store.active_env_file() },
                )
            } else {
                sync_then(Ghost(s), mode, store, AfterSync::EnvRemoved { name })
            },
            _ => fail(Ghost(s), String::new()),
        },
        Phase::Clearing { name } => match e {
            Event::Done => sync_then(Ghost(s), mode, store, AfterSync::EnvRemoved { name }),
            Event::Failed { error } => {
                let file = store.active_env_file();
                fail(
                    Ghost(s),
                    failed_on_text(
                        "failed to clear active environment ",
                        file.as_str(),
                        error.as_str(),
                    ),
                )
            },
            _ => fail(Ghost(s), String::new()),
        },
        Phase::SelectCheck { name } => match e {
            Event::Answer { yes } => if yes {
                go(
                    Ghost(s),
                    Phase::SelectPrepare { name },
                    Action::CreateDirAll { path: owned(store.base.as_str()) },
                )
            } else {
                fail(Ghost(s), no_env_message(name.as_str()))
            },
            _ => fail(Ghost(s), String::new()),
        },
        Phase::SelectPrepare { name } => match e {
            Event::Done => {
                let contents = crate::env::active_env_file_text(name.as_str());
                go(
                    Ghost(s),
                    Phase::SelectWrite { name },
                    Action::WriteFile { path: store.active_env_file(), contents },
                )
            },
            Event::Failed { error } => fail(
                Ghost(s),
                failed_on_text("failed to prepare store ", store.base.as_str(), error.as_str()),
            ),
            _ => fail(Ghost(s), String::new()),
        },
        Phase::SelectWrite { name } => match e {
            Event::Done => sync_then(Ghost(s), mode, store, AfterSync::EnvSelected { name }),
            Event::Failed { error } => fail(
                Ghost(s),
                crate::text::cat4(
                    "failed to set active environment ",
                    backquoted(name.as_str()).as_str(),
                    ": ",
                    error.as_str(),
                ),
            ),
            _ => fail(Ghost(s), String::new()),
        },
        Phase::FetchCheck { name } => match e {
            Event::Answer { yes } => if yes {
                let bin = store.env_bin_dir(name.as_str());
                match mode {
                    Mode::Shims => report(
                        Ghost(s),
                        crate::text::cat("found env ", backquoted(name.as_str()).as_str()),
                        one_note(crate::text::cat("bin: ", bin.as_str())),
                    ),
                    Mode::Direct => quiet(
                        Ghost(s),
                        one_note(
                            crate::term::sparkle_line(
                                crate::text::cat4("Environment ", name.as_str(), " -> ", bin.as_str()).as_str(),
                            ),
                        ),
                    ),
                }
            } else {
                fail(Ghost(s), no_env_message(name.as_str()))
            },
            _ => fail(Ghost(s), String::new()),
        },
        _ => fail(Ghost(s), String::new()),
    }
}


// ----- packages -----
fn pkg_installed(
    Ghost(s): Ghost<SessionView>,
    mode: Mode,
    store: &StorePaths,
    name: String,
    installed: String,
) -> (r: (Phase, Directive))
    requires
        s.base == store.base@,
        s.mode == mode,
    ensures
        stepped(s, r) == crate::rules::pkg_installed(s, name@, installed@),
{
    match mode {
        Mode::Shims => {
            let shim = join_path(store.shim_bin_dir().as_str(), name.as_str());
            report(
                Ghost(s),
                crate::text::cat("added package ", backquoted(name.as_str()).as_str()),
                two_notes(
                    crate::text::cat("binary: ", installed.as_str()),
                    crate::text::cat("shim: ", shim.as_str()),
                ),
            )
        },
        Mode::Direct => quiet(
            Ghost(s),
            one_note(
                crate::term::sparkle_line(
                    crate::text::cat4("Installed ", name.as_str(), " to ", installed.as_str()).as_str(),
                ),
            ),
        ),
    }
}

fn pkg_removed(
    Ghost(s): Ghost<SessionView>,
    store: &StorePaths,
    name: String,
    installed: String,
    removed: bool,
) -> (r: (Phase, Directive))
    requires
        s.base == store.base@,
    ensures
        stepped(s, r) == crate::rules::pkg_removed(s, name@, installed@, removed),
{
    let summary = if removed {
        crate::text::cat("removed package ", backquoted(name.as_str()).as_str())
    } else {
        cat3("package ", backquoted(name.as_str()).as_str(), " was not installed")
    };
    let shim = join_path(store.shim_bin_dir().as_str(), name.as_str());
    report(
        Ghost(s),
        summary,
        two_notes(
            crate::text::cat("binary: ", installed.as_str()),
            crate::text::cat("shim: ", shim.as_str()),
        ),
    )
}

fn install_from(Ghost(s): Ghost<SessionView>, notices: Vec<String>, dir: String, name: String) -> (r: (
    Phase,
    Directive,
))
    ensures
        stepped(s, r) == crate::rules::install_from(s, texts(notices@), dir@, name@),
{
    let probe = owned(dir.as_str());
    go_noting(Ghost(s), notices, Phase::PackageDirCheck { dir, name }, Action::IsDir { path: probe })
}

fn planned(Ghost(s): Ghost<SessionView>, plan: BuildPlan) -> (r: (Phase, Directive))
    ensures
        stepped(s, r) == crate::rules::planned(s, plan@),
{
    let script = owned(plan.script.as_str());
    go(Ghost(s), Phase::BuildScriptCheck { plan }, Action::IsFile { path: script })
}

/// The URL of a package source.
fn source_url(source: &Source) -> (url: String)
    ensures
        url@ == crate::rules::source_url(source@),
{
    match source {
        Source::GitHub { url, .. } => owned(url.as_str()),
        Source::Registry { .. } => owned("https://github.com/SloxPm/std-pkg"),
    }
}

/// Where a package source is cloned.
fn source_dir(store: &StorePaths, source: &Source) -> (dir: String)
    ensures
        dir@ == crate::rules::source_dir(store.base@, source@),
{
    let cache = store.cache_root();
    match source {
        Source::GitHub { repo, .. } => join_path(cache.as_str(), repo.as_str()),
        Source::Registry { .. } => join_path(cache.as_str(), "std-pkg"),
    }
}

fn registry_dir(store: &StorePaths) -> (dir: String)
    ensures
        dir@ == crate::rules::registry_dir(store.base@),
{
    join_path(store.cache_root().as_str(), "std-pkg")
}

fn repo_ready(Ghost(s): Ghost<SessionView>, store: &StorePaths, notices: Vec<String>, source: Source) -> (r: (
    Phase,
    Directive,
))
    requires
        s.base == store.base@,
    ensures
        stepped(s, r) == crate::rules::repo_ready(s, texts(notices@), source@),
{
    let dir = source_dir(store, &source);
    match source {
        Source::GitHub { repo, .. } => install_from(Ghost(s), notices, dir, repo),
        Source::Registry { pkg } => {
            let name = owned(pkg.as_str());
            go_noting(
                Ghost(s),
                notices,
                Phase::SubmoduleUpdate { pkg },
                Action::UpdateSubmodule { name },
            )
        },
    }
}

fn build_failed_message(name: &str, details: &str) -> (out: String)
    ensures
        out@ == crate::rules::msg_build_failed(name@, details@),
{
    crate::text::cat4("build failed for ", backquoted(name).as_str(), ": ", details)
}

fn advance_pkg(Ghost(s): Ghost<SessionView>, mode: Mode, store: &StorePaths, phase: Phase, e: Event) -> (r: (
    Phase,
    Directive,
))
    requires
        s.base == store.base@,
        s.mode == mode,
        s.phase == phase@,
        crate::rules::phase_group(phase@) == 3,
    ensures
        stepped(s, r) == crate::rules::next_pkg(s, e@),
{
    match phase {
        Phase::CacheCreate { source } => match e {
            Event::Done => {
                let dir = source_dir(store, &source);
                go(Ghost(s), Phase::RepoCheck { source }, Action::Exists { path: dir })
            },
            Event::Failed { error } => fail(
                Ghost(s),
                failed_on_text(
                    "failed to create package cache ",
                    store.cache_root().as_str(),
                    error.as_str(),
                ),
            ),
            _ => fail(Ghost(s), String::new()),
        },
        Phase::RepoCheck { source } => match e {
            Event::Answer { yes } => {
                let dir = source_dir(store, &source);
                if yes {
                    let notices = match mode {
                        Mode::Direct => one_note(
                            crate::term::status_line(
                                "INFO",
                                crate::term::cyan(),
                                crate::text::cat("Using cached repository at ", dir.as_str()).as_str(),
                            ),
                        ),
                        Mode::Shims => no_notes(),
                    };
                    go_noting(Ghost(s), notices, Phase::RepoOpen { source }, Action::OpenRepository { path: dir })
                } else {
                    let url = source_url(&source);
                    go(
                        Ghost(s),
                        Phase::RepoClone { source },
                        Action::CloneRepository { url, path: dir },
                    )
                }
            },
            _ => fail(Ghost(s), String::new()),
        },
        Phase::RepoOpen { source } => match e {
            Event::Done => repo_ready(Ghost(s), store, no_notes(), source),
            Event::Failed { error } => {
                let dir = source_dir(store, &source);
                fail(
                    Ghost(s),
                    failed_on_text("failed to open cached repository ", dir.as_str(), error.as_str()),
                )
            },
            _ => fail(Ghost(s), String::new()),
        },
        Phase::RepoClone { source } => match e {
            Event::Done => {
                let notices = match mode {
                    Mode::Direct => {
                        let url = source_url(&source);
                        let dir = source_dir(store, &source);
                        one_note(
                            crate::term::sparkle_line(
                                crate::text::cat4("Cloned ", url.as_str(), " into ", dir.as_str()).as_str(),
                            ),
                        )
                    },
                    Mode::Shims => no_notes(),
                };
                repo_ready(Ghost(s), store, notices, source)
            },
            Event::Failed { error } => {
                let url = source_url(&source);
                let dir = source_dir(store, &source);
                let mut msg = owned("failed to clone ");
                push_str(&mut msg, backquoted(url.as_str()).as_str());
                push_str(&mut msg, " into ");
                push_str(&mut msg, backquoted(dir.as_str()).as_str());
                push_str(&mut msg, ": ");
                push_str(&mut msg, error.as_str());
                fail(Ghost(s), msg)
            },
            _ => fail(Ghost(s), String::new()),
        },
        Phase::SubmoduleUpdate { pkg } => match e {
            Event::Done => {
                let dir = join_path(registry_dir(store).as_str(), pkg.as_str());
                go(Ghost(s), Phase::RegistryCheck { pkg }, Action::IsDir { path: dir })
            },
            Event::SubmoduleFailed { url, error } => {
                let shown = match url {
                    Some(u) => u,
                    None => owned("unknown url"),
                };
                let mut msg = owned("failed to initialize sloxpkgs package ");
                push_str(&mut msg, backquoted(pkg.as_str()).as_str());
                push_str(&mut msg, " from ");
                push_str(&mut msg, backquoted(shown.as_str()).as_str());
                push_str(&mut msg, ": ");
                push_str(&mut msg, error.as_str());
                fail(Ghost(s), msg)
            },
            _ => fail(Ghost(s), String::new()),
        },
        Phase::RegistryCheck { pkg } => match e {
            Event::Answer { yes } => if yes {
                let dir = join_path(registry_dir(store).as_str(), pkg.as_str());
                install_from(Ghost(s), no_notes(), dir, pkg)
            } else {
                let msg = crate::text::cat4(
                    "package ",
                    backquoted(pkg.as_str()).as_str(),
                    " was not found in sloxpkgs registry ",
                    backquoted("https://github.com/SloxPm/std-pkg").as_str(),
                );
                fail(Ghost(s), msg)
            },
            _ => fail(Ghost(s), String::new()),
        },
        Phase::PackageDirCheck { dir, name } => match e {
            Event::Answer { yes } => if yes {
                let config = join_path(dir.as_str(), "build.toml");
                go(Ghost(s), Phase::ConfigCheck { dir, name }, Action::IsFile { path: config })
            } else {
                fail(
                    Ghost(s),
                    cat3("package directory ", backquoted(dir.as_str()).as_str(), " does not exist"),
                )
            },
            _ => fail(Ghost(s), String::new()),
        },
        Phase::ConfigCheck { dir, name } => match e {
            Event::Answer { yes } => if yes {
                let config = join_path(dir.as_str(), "build.toml");
                go(Ghost(s), Phase::ConfigRead { dir, name }, Action::ReadToString { path: config })
            } else {
                let plan = build_plan(dir.as_str(), name.as_str(), &default_config());
                planned(Ghost(s), plan)
            },
            _ => fail(Ghost(s), String::new()),
        },
        Phase::ConfigRead { dir, name } => match e {
            Event::Text { text } => match parse_build_config(text.as_str()) {
                Ok(config) => {
                    let plan = build_plan(dir.as_str(), name.as_str(), &config);
                    planned(Ghost(s), plan)
                },
                Err(error) => {
                    let path = join_path(dir.as_str(), "build.toml");
                    fail(
                        Ghost(s),
                        failed_on_text("invalid build config ", path.as_str(), error.as_str()),
                    )
                },
            },
            Event::Failed { error } => {
                let path = join_path(dir.as_str(), "build.toml");
                fail(
                    Ghost(s),
                    failed_on_text("failed to read build config ", path.as_str(), error.as_str()),
                )
            },
            _ => fail(Ghost(s), String::new()),
        },
        Phase::BuildScriptCheck { plan } => match e {
            Event::Answer { yes } => {
                if yes {
                    let notices = match mode {
                        Mode::Direct => one_note(
                            crate::term::status_line(
                                "BUILD",
                                crate::term::purple(),
                                crate::text::cat("Running ", plan.script.as_str()).as_str(),
                            ),
                        ),
                        Mode::Shims => no_notes(),
                    };
                    let run_dir = owned(plan.dir.as_str());
                    let script = owned(plan.script.as_str());
                    go_noting(
                        Ghost(s),
                        notices,
                        Phase::Building { plan },
                        Action::RunBuildScript { dir: run_dir, script },
                    )
                } else {
                    let details = crate::text::cat(
                        "expected build script at ",
                        backquoted(plan.script.as_str()).as_str(),
                    );
                    fail(Ghost(s), build_failed_message(plan.package.as_str(), details.as_str()))
                }
            },
            _ => fail(Ghost(s), String::new()),
        },
        Phase::Building { plan } => match e {
            Event::BuildExited { success, stdout, stderr } => if success {
                read_active_name(
                    Ghost(s),
                    store,
                    AfterName::Resolve { then: AfterResolve::Install { plan } },
                )
            } else {
                let details = build_failure_details(stderr.as_str(), stdout.as_str());
                fail(Ghost(s), build_failed_message(plan.package.as_str(), details.as_str()))
            },
            Event::Failed { error } => {
                let details = failed_on_text(
                    "failed to run build script ",
                    plan.script.as_str(),
                    error.as_str(),
                );
                fail(Ghost(s), build_failed_message(plan.package.as_str(), details.as_str()))
            },
            _ => fail(Ghost(s), String::new()),
        },
        Phase::BuiltCheck { plan, target } => match e {
            Event::Answer { yes } => if yes {
                let create = owned(target.as_str());
                go(
                    Ghost(s),
                    Phase::TargetCreate { plan, target },
                    Action::CreateDirAll { path: create },
                )
            } else {
                fail(
                    Ghost(s),
                    crate::text::cat(
                        "expected built binary at ",
                        backquoted(plan.binary.as_str()).as_str(),
                    ),
                )
            },
            _ => fail(Ghost(s), String::new()),
        },
        Phase::TargetCreate { plan, target } => match e {
            Event::Done => {
                let from = owned(plan.binary.as_str());
                let to = join_path(target.as_str(), plan.name.as_str());
                go(Ghost(s), Phase::Copying { plan, target }, Action::CopyFile { from, to })
            },
            Event::Failed { error } => fail(
                Ghost(s),
                failed_on_text("failed to create root bin dir ", target.as_str(), error.as_str()),
            ),
            _ => fail(Ghost(s), String::new()),
        },
        Phase::Copying { plan, target } => match e {
            Event::Done => {
                let installed = join_path(target.as_str(), plan.name.as_str());
                let name = plan.name;
                sync_then(Ghost(s), mode, store, AfterSync::PkgInstalled { name, installed })
            },
            Event::Failed { error } => {
                let to = join_path(target.as_str(), plan.name.as_str());
                let mut msg = owned("failed to install ");
                push_str(&mut msg, backquoted(plan.binary.as_str()).as_str());
                push_str(&mut msg, " to ");
                push_str(&mut msg, backquoted(to.as_str()).as_str());
                push_str(&mut msg, ": ");
                push_str(&mut msg, error.as_str());
                fail(Ghost(s), msg)
            },
            _ => fail(Ghost(s), String::new()),
        },
        Phase::PkgRemoveCheck { name, installed } => match e {
            Event::Answer { yes } => if yes {
                let path = owned(installed.as_str());
                go(Ghost(s), Phase::PkgRemoving { name, installed }, Action::RemoveFile { path })
            } else {
                pkg_removed(Ghost(s), store, name, installed, false)
            },
            _ => fail(Ghost(s), String::new()),
        },
        Phase::PkgRemoving { name, installed } => match e {
            Event::Done => sync_then(Ghost(s), mode, store, AfterSync::PkgRemoved { name, installed }),
            Event::Failed { error } => fail(
                Ghost(s),
                failed_on_text("failed to remove package binary ", installed.as_str(), error.as_str()),
            ),
            _ => fail(Ghost(s), String::new()),
        },
        _ => fail(Ghost(s), String::new()),
    }
}


// ----- directory listings -----
/// The position of the first entry of `items` that could not be
/// inspected, or the length of `items` when there is none.
fn listing_split(items: &Vec<DirItem>) -> (k: usize)
    ensures
        k as int == listing_stop(item_views(items@)),
        k <= items@.len(),
{
    let ghost views = item_views(items@);
    let mut i: usize = 0;
    while i < items.len()
        invariant
            i <= items@.len(),
            views == item_views(items@),
            forall|j: int| 0 <= j < i ==> !(views[j] is Unreadable),
        decreases items@.len() - i,
    {
        match &items[i] {
            DirItem::Unreadable { .. } => {
                proof {
                    assert(views[i as int] is Unreadable);
                    let w = choose|w: int|
                        0 <= w < views.len() && views[w] is Unreadable && forall|j: int|
                            0 <= j < w ==> !(views[j] is Unreadable);
                    if w < i {
                        assert(!(views[w] is Unreadable));
                    }
                    if w > i {
                        assert(!(views[i as int] is Unreadable));
                    }
                }
                return i;
            },
            DirItem::Item { .. } => {
                assert(!(views[i as int] is Unreadable));
            },
        }
        i = i + 1;
    }
    i
}

/// The inspection error that stops the listing at `k`, if it stops.
fn pending_error(items: &Vec<DirItem>, k: usize) -> (r: Option<String>)
    requires
        k as int == listing_stop(item_views(items@)),
        k <= items@.len(),
    ensures
        opt_view(r) == listing_error(item_views(items@)),
{
    if k < items.len() {
        match &items[k] {
            DirItem::Unreadable { error } => Some(owned(error.as_str())),
            DirItem::Item { .. } => Some(String::new()),
        }
    } else {
        None
    }
}

/// The paths of the regular files among the first `k` entries.
fn stale_paths(items: &Vec<DirItem>, k: usize) -> (paths: Vec<String>)
    requires
        k <= items@.len(),
    ensures
        texts(paths@) == file_paths(item_views(items@).take(k as int)),
{
    let ghost views = item_views(items@);
    let mut paths: Vec<String> = Vec::new();
    let mut i: usize = 0;
    assert(texts(paths@) =~= file_paths(views.take(0)));
    while i < k
        invariant
            i <= k <= items@.len(),
            views == item_views(items@),
            texts(paths@) == file_paths(views.take(i as int)),
        decreases k - i,
    {
        let ghost before = paths@;
        assert(views.take(i + 1).drop_last() == views.take(i as int));
        assert(views.take(i + 1).last() == views[i as int]);
        match &items[i] {
            DirItem::Item { path, is_file, .. } => {
                if *is_file {
                    paths.push(owned(path.as_str()));
                    assert(texts(paths@) =~= texts(before).push(path@));
                }
            },
            DirItem::Unreadable { .. } => {},
        }
        i = i + 1;
    }
    paths
}

/// A shim in `shim_dir` for each regular file among the first `k`
/// entries.
fn new_shims(shim_dir: &str, items: &Vec<DirItem>, k: usize) -> (shims: Vec<ShimFile>)
    requires
        k <= items@.len(),
    ensures
        crate::protocol::shim_views(shims@) == shims_for(shim_dir@, item_views(items@).take(k as int)),
{
    let ghost views = item_views(items@);
    let mut shims: Vec<ShimFile> = Vec::new();
    let mut i: usize = 0;
    assert(crate::protocol::shim_views(shims@) =~= shims_for(shim_dir@, views.take(0)));
    while i < k
        invariant
            i <= k <= items@.len(),
            views == item_views(items@),
            crate::protocol::shim_views(shims@) == shims_for(shim_dir@, views.take(i as int)),
        decreases k - i,
    {
        let ghost before = shims@;
        assert(views.take(i + 1).drop_last() == views.take(i as int));
        assert(views.take(i + 1).last() == views[i as int]);
        match &items[i] {
            DirItem::Item { path, name, is_file } => {
                if *is_file {
                    let shim = ShimFile {
                        path: join_path(shim_dir, name.as_str()),
                        target: owned(path.as_str()),
                        script: Shim::new(path.as_str()).generate(),
                    };
                    let ghost view = shim@;
                    shims.push(shim);
                    assert(crate::protocol::shim_views(shims@) =~= crate::protocol::shim_views(
                        before,
                    ).push(view));
                }
            },
            DirItem::Unreadable { .. } => {},
        }
        i = i + 1;
    }
    shims
}

fn advance_sync(Ghost(s): Ghost<SessionView>, mode: Mode, store: &StorePaths, phase: Phase, e: Event) -> (r: (
    Phase,
    Directive,
))
    requires
        s.base == store.base@,
        s.mode == mode,
        s.phase == phase@,
        crate::rules::phase_group(phase@) == 1,
    ensures
        stepped(s, r) == crate::rules::next_sync(s, e@),
{
    let shims = store.shim_bin_dir();
    match phase {
        Phase::ShimDirCreate { source, then } => match e {
            Event::Done => go(
                Ghost(s),
                Phase::ShimDirList { source, then },
                Action::ListDir { path: shims },
            ),
            Event::Failed { error } => fail(
                Ghost(s),
                failed_on_text("failed to create shim bin dir ", shims.as_str(), error.as_str()),
            ),
            _ => fail(Ghost(s), String::new()),
        },
        Phase::ShimDirList { source, then } => match e {
            Event::Listing { items } => {
                let k = listing_split(&items);
                let pending = pending_error(&items, k);
                let paths = stale_paths(&items, k);
                go(
                    Ghost(s),
                    Phase::ShimsRemove { source, then, pending },
                    Action::RemoveFiles { paths },
                )
            },
            Event::Failed { error } => fail(
                Ghost(s),
                failed_on_text("failed to read shim bin dir ", shims.as_str(), error.as_str()),
            ),
            _ => fail(Ghost(s), String::new()),
        },
        Phase::ShimsRemove { source, then, pending } => match e {
            Event::Done => match pending {
                Some(error) => fail(
                    Ghost(s),
                    failed_on_text("failed to inspect shim bin dir ", shims.as_str(), error.as_str()),
                ),
                None => {
                    let probe = owned(source.as_str());
                    go(Ghost(s), Phase::SourceCheck { source, then }, Action::IsDir { path: probe })
                },
            },
            Event::Stopped { path, error } => fail(
                Ghost(s),
                failed_on_text("failed to remove stale shim ", path.as_str(), error.as_str()),
            ),
            _ => fail(Ghost(s), String::new()),
        },
        Phase::SourceCheck { source, then } => match e {
            Event::Answer { yes } => if yes {
                let list = owned(source.as_str());
                go(Ghost(s), Phase::SourceList { source, then }, Action::ListDir { path: list })
            } else {
                synced(Ghost(s), mode, store, then)
            },
            _ => fail(Ghost(s), String::new()),
        },
        Phase::SourceList { source, then } => match e {
            Event::Listing { items } => {
                let k = listing_split(&items);
                let pending = pending_error(&items, k);
                let files = new_shims(shims.as_str(), &items, k);
                go(
                    Ghost(s),
                    Phase::ShimsWrite { source, then, pending },
                    Action::WriteShims { shims: files },
                )
            },
            Event::Failed { error } => fail(
                Ghost(s),
                failed_on_text("failed to read active bin dir ", source.as_str(), error.as_str()),
            ),
            _ => fail(Ghost(s), String::new()),
        },
        Phase::ShimsWrite { source, then, pending } => match e {
            Event::Done => match pending {
                Some(error) => fail(
                    Ghost(s),
                    failed_on_text("failed to inspect active bin dir ", source.as_str(), error.as_str()),
                ),
                None => synced(Ghost(s), mode, store, then),
            },
            Event::ShimFailed { path, stage, error } => {
                let msg = match stage {
                    crate::protocol::ShimStage::Write => failed_on_text(
                        "failed to write shim ",
                        path.as_str(),
                        error.as_str(),
                    ),
                    crate::protocol::ShimStage::Inspect => failed_on_text(
                        "failed to inspect shim ",
                        path.as_str(),
                        error.as_str(),
                    ),
                    crate::protocol::ShimStage::Mark => crate::text::cat4(
                        "failed to mark shim ",
                        backquoted(path.as_str()).as_str(),
                        " executable: ",
                        error.as_str(),
                    ),
                };
                fail(Ghost(s), msg)
            },
            _ => fail(Ghost(s), String::new()),
        },
        _ => fail(Ghost(s), String::new()),
    }
}


// ----- the session -----
fn group_of(phase: &Phase) -> (g: u8)
    ensures
        g as int == crate::rules::phase_group(phase@),
{
    match phase {
        Phase::NameCheck { .. } | Phase::NameRead { .. } | Phase::EnvCheck { .. } => 0,
        Phase::ShimDirCreate { .. } | Phase::ShimDirList { .. } | Phase::ShimsRemove { .. }
        | Phase::SourceCheck { .. } | Phase::SourceList { .. } | Phase::ShimsWrite { .. } => 1,
        Phase::EnvAdd { .. } | Phase::EnvRemoveCheck { .. } | Phase::EnvRemoving { .. }
        | Phase::ClearCheck { .. } | Phase::Clearing { .. } | Phase::SelectCheck { .. }
        | Phase::SelectPrepare { .. } | Phase::SelectWrite { .. } | Phase::FetchCheck { .. } => 2,
        Phase::Finished => 4,
        _ => 3,
    }
}

impl Session {
    /// Starts `command` in `mode` on `store`: the session and its first
    /// directive.
    pub fn start(mode: Mode, store: StorePaths, command: Commands) -> (r: (Session, Directive))
        ensures
            (r.0@, r.1@) == begin(mode, store.base@, command),
    {
        let ghost s = SessionView { mode, base: store.base@, phase: PhaseView::Finished };
        let (phase, directive) = match command {
            Commands::Env { command } => match command {
                EnvCommand::Add { path } => {
                    let dir = store.env_bin_dir(path.as_str());
                    go(Ghost(s), Phase::EnvAdd { name: path }, Action::CreateDirAll { path: dir })
                },
                EnvCommand::Remove { path } => {
                    let dir = store.env_dir(path.as_str());
                    go(Ghost(s), Phase::EnvRemoveCheck { name: path }, Action::Exists { path: dir })
                },
                EnvCommand::Select { path } => {
                    let dir = store.env_dir(path.as_str());
                    go(Ghost(s), Phase::SelectCheck { name: path }, Action::IsDir { path: dir })
                },
                EnvCommand::Fetch { path } => {
                    let dir = store.env_dir(path.as_str());
                    go(Ghost(s), Phase::FetchCheck { name: path }, Action::IsDir { path: dir })
                },
            },
            Commands::Activate { command } => match mode {
                Mode::Shims => {
                    let script = match crate::activate::activation_script(&store, command) {
                        Ok(script) => script,
                        Err(e) => e,
                    };
                    finish(Ghost(s), no_notes(), Ok(Outcome::Script { text: script }))
                },
                Mode::Direct => read_active_name(
                    Ghost(s),
                    &store,
                    AfterName::Resolve { then: AfterResolve::Activate { shell: command } },
                ),
            },
            Commands::Pkg { command } => match command {
                PkgCommand::Add { path } => match parse_pkg(path.as_str()) {
                    Err(e) => fail(Ghost(s), e),
                    Ok(Pkg::GitHub { user, repo }) => {
                        let url = crate::text::cat4(
                            "https://github.com/",
                            user.as_str(),
                            "/",
                            repo.as_str(),
                        );
                        go(
                            Ghost(s),
                            Phase::CacheCreate { source: Source::GitHub { url, repo } },
                            Action::CreateDirAll { path: store.cache_root() },
                        )
                    },
                    Ok(Pkg::Regit { pkg }) => go(
                        Ghost(s),
                        Phase::CacheCreate { source: Source::Registry { pkg } },
                        Action::CreateDirAll { path: store.cache_root() },
                    ),
                },
                PkgCommand::Remove { path } => match mode {
                    Mode::Direct => quiet(
                        Ghost(s),
                        one_note(
                            crate::term::status_line(
                                "WARN",
                                crate::term::yellow(),
                                cat3(
                                    "Package removal is not implemented yet for ",
                                    backquoted(path.as_str()).as_str(),
                                    ".",
                                ).as_str(),
                            ),
                        ),
                    ),
                    Mode::Shims => match package_name_from_remove_arg(path.as_str()) {
                        Err(e) => fail(Ghost(s), e),
                        Ok(name) => read_active_name(
                            Ghost(s),
                            &store,
                            AfterName::Resolve { then: AfterResolve::RemovePkg { name } },
                        ),
                    },
                },
            },
        };
        (Session { mode, store, phase }, directive)
    }

    /// Starts reading the name of the active environment.
    pub fn active_env_name(mode: Mode, store: StorePaths) -> (r: (Session, Directive))
        ensures
            (r.0@, r.1@) == crate::rules::begin_active_env(mode, store.base@),
    {
        let ghost s = SessionView { mode, base: store.base@, phase: PhaseView::Finished };
        let (phase, directive) = read_active_name(Ghost(s), &store, AfterName::Tell);
        (Session { mode, store, phase }, directive)
    }

    /// Starts finding the active bin directory.
    pub fn active_bin_dir(mode: Mode, store: StorePaths) -> (r: (Session, Directive))
        ensures
            (r.0@, r.1@) == crate::rules::begin_active_bin(mode, store.base@),
    {
        let ghost s = SessionView { mode, base: store.base@, phase: PhaseView::Finished };
        let (phase, directive) = read_active_name(
            Ghost(s),
            &store,
            AfterName::Resolve { then: AfterResolve::Locate },
        );
        (Session { mode, store, phase }, directive)
    }

    /// Starts making the shim directory mirror the active bin directory.
    pub fn sync_active_shims(mode: Mode, store: StorePaths) -> (r: (Session, Directive))
        ensures
            (r.0@, r.1@) == crate::rules::begin_sync(mode, store.base@),
    {
        let ghost s = SessionView { mode, base: store.base@, phase: PhaseView::Finished };
        let (phase, directive) = read_active_name(
            Ghost(s),
            &store,
            AfterName::Resolve { then: AfterResolve::Sync { then: AfterSync::Idle } },
        );
        (Session { mode, store, phase }, directive)
    }

    /// Starts building the package in `package_dir` and installing it in
    /// the active bin directory under `package_name`.
    pub fn install_package_from_dir(
        mode: Mode,
        store: StorePaths,
        package_dir: &str,
        package_name: &str,
    ) -> (r: (Session, Directive))
        ensures
            (r.0@, r.1@) == crate::rules::begin_install(
                mode,
                store.base@,
                package_dir@,
                package_name@,
            ),
    {
        let ghost s = SessionView { mode, base: store.base@, phase: PhaseView::Finished };
        let (phase, directive) = install_from(
            Ghost(s),
            no_notes(),
            owned(package_dir),
            owned(package_name),
        );
        (Session { mode, store, phase }, directive)
    }

    /// Whether the session waits for an event of the kind of `event`.
    pub fn expects(&self, event: &Event) -> (b: bool)
        ensures
            b == accepts(self@.phase, event@),
    {
        match &self.phase {
            Phase::NameCheck { .. } | Phase::EnvCheck { .. } | Phase::SourceCheck { .. }
            | Phase::EnvRemoveCheck { .. } | Phase::ClearCheck { .. } | Phase::SelectCheck { .. }
            | Phase::FetchCheck { .. } | Phase::RepoCheck { .. } | Phase::RegistryCheck { .. }
            | Phase::PackageDirCheck { .. } | Phase::ConfigCheck { .. }
            | Phase::BuildScriptCheck { .. } | Phase::BuiltCheck { .. }
            | Phase::PkgRemoveCheck { .. } => match event {
                Event::Answer { .. } => true,
                _ => false,
            },
            Phase::NameRead { .. } | Phase::ConfigRead { .. } => match event {
                Event::Text { .. } | Event::Failed { .. } => true,
                _ => false,
            },
            Phase::ShimDirList { .. } | Phase::SourceList { .. } => match event {
                Event::Listing { .. } | Event::Failed { .. } => true,
                _ => false,
            },
            Phase::ShimsRemove { .. } => match event {
                Event::Done | Event::Stopped { .. } => true,
                _ => false,
            },
            Phase::ShimsWrite { .. } => match event {
                Event::Done | Event::ShimFailed { .. } => true,
                _ => false,
            },
            Phase::SubmoduleUpdate { .. } => match event {
                Event::Done | Event::SubmoduleFailed { .. } => true,
                _ => false,
            },
            Phase::Building { .. } => match event {
                Event::BuildExited { .. } | Event::Failed { .. } => true,
                _ => false,
            },
            Phase::Finished => false,
            _ => match event {
                Event::Done | Event::Failed { .. } => true,
                _ => false,
            },
        }
    }

    /// Whether the command is over.
    pub fn is_finished(&self) -> (b: bool)
        ensures
            b == (self@.phase is Finished),
    {
        match &self.phase {
            Phase::Finished => true,
            _ => false,
        }
    }

    /// Goes on after `event`, which reports how the last directive's action
    /// went: the session and its next directive.
    pub fn step(self, event: Event) -> (r: (Session, Directive))
        requires
            accepts(self@.phase, event@),
        ensures
            (r.0@, r.1@) == next(self@, event@),
    {
        let ghost s = self@;
        let Session { mode, store, phase } = self;
        let g = group_of(&phase);
        let (phase, directive) = if g == 0 {
            advance_active(Ghost(s), mode, &store, phase, event)
        } else if g == 1 {
            advance_sync(Ghost(s), mode, &store, phase, event)
        } else if g == 2 {
            advance_env(Ghost(s), mode, &store, phase, event)
        } else if g == 3 {
            advance_pkg(Ghost(s), mode, &store, phase, event)
        } else {
            fail(Ghost(s), String::new())
        };
        (Session { mode, store, phase }, directive)
    }
}

} // verus!
