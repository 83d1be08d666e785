//! Properties of whole commands, stated over the step rules.
use crate::activate::{direct_activation, shim_activation};
use crate::cli::{ActivateCommand, Commands};
use crate::env::{active_file_text, active_name_in, law_selected_name_reads_back};
use crate::paths::{active_env_file_of, env_bin_dir_of, env_dir_of, join, root_bin_dir_of, shim_bin_dir_of};
use crate::phase::{AfterNameView, AfterResolveView, AfterSyncView, PhaseView};
use crate::protocol::{ActionView, DirItemView, EventView, Mode, OutcomeView};
use crate::building::{build_config_of, config_file, no_config, plan_of, BuildConfigView, BuildPlanView};
use crate::rules::{
    accepts, begin, file_paths, listing_error, listing_stop, next, planned, read_active_name,
    resolved, shims_for, sync_then, synced, SessionView,
};
use crate::protocol::ShimFileView;
use crate::shim::shim_script;
use crate::text::{has_char, is_trimmed};
use vstd::prelude::*;

verus! {

/// The session `s` in phase `phase`.
pub open spec fn at(s: SessionView, phase: PhaseView) -> SessionView {
    SessionView { phase, ..s }
}

/// `env set name` records the environment by writing its name and a
/// newline to the active-environment file of the store.
pub proof fn law_select_writes_record(s: SessionView, name: Seq<char>)
    ensures
        next(at(s, PhaseView::SelectPrepare { name }), EventView::Done).1.action == (ActionView::WriteFile {
            path: active_env_file_of(s.base),
            contents: active_file_text(name),
        }),
{
}

/// A record whose text, without surrounding white space, is `name` selects
/// `name` (as the record that `env set name` writes does): the next
/// question is whether that environment's directory exists, and when it
/// does, its bin directory is the active one (here: where a freshly built
/// package is installed).
pub proof fn law_recorded_env_is_install_target(
    s: SessionView,
    name: Seq<char>,
    text: Seq<char>,
    plan: BuildPlanView,
)
    requires
        active_name_in(text) == Some(name),
    ensures
        ({
            let then = AfterResolveView::Install { plan };
            let read = next(
                at(s, PhaseView::NameRead { then: AfterNameView::Resolve { then } }),
                EventView::Text { text },
            );
            &&& read.0.phase == PhaseView::EnvCheck { name, then }
            &&& read.1.action == ActionView::IsDir { path: env_dir_of(s.base, name) }
            &&& next(read.0, EventView::Answer { yes: true }).0.phase == PhaseView::BuiltCheck {
                plan,
                target: env_bin_dir_of(s.base, name),
            }
        }),
{
}

/// Without an active-environment file, the root bin directory is the
/// active one: the activation line of the direct mode appends it.
pub proof fn law_no_record_means_root(s: SessionView, shell: ActivateCommand)
    ensures
        next(
            at(
                s,
                PhaseView::NameCheck {
                    then: AfterNameView::Resolve {
                        then: AfterResolveView::Activate { shell },
                    },
                },
            ),
            EventView::Answer { yes: false },
        ).1.action == (ActionView::Finish {
            result: Ok(OutcomeView::Script { text: direct_activation(root_bin_dir_of(s.base), shell) }),
        }),
{
}

/// Removing the environment that the record names forgets it: the next
/// step looks for the active-environment file, and removes it when it is
/// there. Removing any other environment leaves the record alone.
pub proof fn law_removing_active_env_clears_record(
    s: SessionView,
    removed: Seq<char>,
    text: Seq<char>,
)
    requires
        active_name_in(text) == Some(removed),
    ensures
        ({
            let read = next(
                at(s, PhaseView::NameRead { then: AfterNameView::EnvRemoved { name: removed } }),
                EventView::Text { text },
            );
            &&& read.0.phase == PhaseView::ClearCheck { name: removed }
            &&& read.1.action == ActionView::Exists { path: active_env_file_of(s.base) }
            &&& next(read.0, EventView::Answer { yes: true }).1.action == ActionView::RemoveFile {
                path: active_env_file_of(s.base),
            }
        }),
{
}

/// Removing an environment that the record does not name never touches
/// the record.
pub proof fn law_removing_other_env_keeps_record(s: SessionView, removed: Seq<char>, text: Seq<char>)
    requires
        crate::env::active_name_in(text) != Some(removed),
    ensures
        !(next(
            at(s, PhaseView::NameRead { then: AfterNameView::EnvRemoved { name: removed } }),
            EventView::Text { text },
        ).1.action is RemoveFile),
        next(
            at(s, PhaseView::NameRead { then: AfterNameView::EnvRemoved { name: removed } }),
            EventView::Text { text },
        ).0.phase is Finished,
{
}

/// Refreshing the shims first removes every regular file that the shim
/// directory lists (up to the first entry that cannot be inspected).
pub proof fn law_stale_shims_removed(
    s: SessionView,
    source: Seq<char>,
    then: AfterSyncView,
    items: Seq<DirItemView>,
)
    ensures
        next(at(s, PhaseView::ShimDirList { source, then }), EventView::Listing { items }).1.action
            == (ActionView::RemoveFiles {
            paths: file_paths(items.take(listing_stop(items))),
        }),
{
}

/// Refreshing the shims then writes, for each regular file of the active
/// bin directory, a shim in the shim directory under the same name whose
/// script runs that file; when every entry could be inspected, the
/// refresh ends after these writes.
pub proof fn law_shims_mirror_active_bins(
    s: SessionView,
    source: Seq<char>,
    then: AfterSyncView,
    items: Seq<DirItemView>,
)
    requires
        forall|i: int| 0 <= i < items.len() ==> !(items[i] is Unreadable),
    ensures
        listing_stop(items) == items.len(),
        listing_error(items) == None::<Seq<char>>,
        next(at(s, PhaseView::SourceList { source, then }), EventView::Listing { items }).1.action
            == (ActionView::WriteShims { shims: shims_for(shim_bin_dir_of(s.base), items) }),
{
    assert(items.take(items.len() as int) == items);
}

/// With shims, an activation script is written at once, from the store
/// alone.
pub proof fn law_shim_activation_reads_nothing(base: Seq<char>, command: Commands)
    requires
        command is Activate,
    ensures
        begin(Mode::Shims, base, command).0.phase is Finished,
        begin(Mode::Shims, base, command).1.action == (ActionView::Finish {
            result: Ok(OutcomeView::Script { text: shim_activation(base, command->Activate_command) }),
        }),
{
}

/// No failure is passed over: whenever an action that a phase waits for
/// fails, the command ends with an error.
pub proof fn law_failures_end_the_command(s: SessionView, error: Seq<char>)
    requires
        accepts(s.phase, EventView::Failed { error }),
    ensures
        next(s, EventView::Failed { error }).0.phase is Finished,
        next(s, EventView::Failed { error }).1.action matches ActionView::Finish { result: Err(_) },
{
}

/// A failed step passes its error on and nothing else: whenever a command
/// ends with an error, it asks for no line to be shown besides it.
#[verifier::rlimit(50)]
pub proof fn law_failure_shows_only_the_error(s: SessionView, e: EventView)
    ensures
        next(s, e).1.action matches ActionView::Finish { result: Err(_) } ==> next(s, e).1.notices
            == Seq::<Seq<char>>::empty(),
{
}

/// A package is installed in the active bin directory under the name its
/// plan gives, copied from where its build left it.
pub proof fn law_install_copies_built_binary(s: SessionView, plan: BuildPlanView, target: Seq<char>)
    ensures
        next(at(s, PhaseView::TargetCreate { plan, target }), EventView::Done).1.action == (ActionView::CopyFile {
            from: plan.binary,
            to: join(target, plan.name),
        }),
{
}

// ----- a model file system -----
/// A file system as commands see it: its directories, its files with their
/// text, and what running the build script in a directory leaves there (a
/// run succeeds only with a script file that is there).
pub struct FsModel {
    pub dirs: Set<Seq<char>>,
    pub files: Map<Seq<char>, Seq<char>>,
    pub builds: Map<Seq<char>, Map<Seq<char>, Seq<char>>>,
}

/// A name of a directory entry: not empty, and without `/`.
pub open spec fn plain(n: Seq<char>) -> bool {
    n.len() > 0 && !has_char(n, '/')
}

/// A directory path as the store makes them: not empty, and not ending in
/// `/`.
pub open spec fn proper_dir(d: Seq<char>) -> bool {
    d.len() > 0 && d.last() != '/'
}

/// Whether `p` names an entry of the directory `d`.
pub open spec fn in_dir(p: Seq<char>, d: Seq<char>) -> bool {
    exists|n: Seq<char>| plain(n) && p == join(d, n)
}

/// The names of the files in `d`.
pub open spec fn file_names(fs: FsModel, d: Seq<char>) -> Set<Seq<char>> {
    Set::new(|n: Seq<char>| plain(n) && fs.files.dom().contains(join(d, n)))
}

/// The names of the directories in `d`.
pub open spec fn dir_names(fs: FsModel, d: Seq<char>) -> Set<Seq<char>> {
    Set::new(|n: Seq<char>| plain(n) && fs.dirs.contains(join(d, n)))
}

/// The listing entry for `n` in `d`.
pub open spec fn entry(d: Seq<char>, n: Seq<char>, is_file: bool) -> DirItemView {
    DirItemView::Item { path: join(d, n), name: n, is_file }
}

pub open spec fn entries(d: Seq<char>, ns: Seq<Seq<char>>, is_file: bool) -> Seq<DirItemView> {
    ns.map_values(|n: Seq<char>| entry(d, n, is_file))
}

/// What listing `d` gives: its files, then its directories, each in some
/// order.
pub open spec fn listing(fs: FsModel, d: Seq<char>) -> Seq<DirItemView> {
    entries(d, file_names(fs, d).to_seq(), true) + entries(d, dir_names(fs, d).to_seq(), false)
}

/// The shim in `shim` for the binary `n` of `source`.
pub open spec fn shim_view(shim: Seq<char>, source: Seq<char>, n: Seq<char>) -> ShimFileView {
    ShimFileView {
        path: join(shim, n),
        target: join(source, n),
        script: shim_script(join(source, n)),
    }
}

/// `files` after writing `shims` in order.
pub open spec fn write_shims(files: Map<Seq<char>, Seq<char>>, shims: Seq<ShimFileView>) -> Map<
    Seq<char>,
    Seq<char>,
>
    decreases shims.len(),
{
    if shims.len() == 0 {
        files
    } else {
        write_shims(files, shims.drop_last()).insert(shims.last().path, shims.last().script)
    }
}

/// What the build in `dir` leaves, added to `fs`.
pub open spec fn built(fs: FsModel, dir: Seq<char>) -> FsModel {
    FsModel { files: fs.files.union_prefer_right(fs.builds[dir]), ..fs }
}

/// How a file system on which writes, removals, copies and builds succeed
/// answers an action: a read gives back what the last write wrote, and a
/// listing gives the entries of the directory.
pub open spec fn answer(fs: FsModel, a: ActionView) -> (FsModel, EventView) {
    match a {
        ActionView::CreateDirAll { path } => (FsModel { dirs: fs.dirs.insert(path), ..fs }, EventView::Done),
        ActionView::RemoveDirAll { path } => (FsModel { dirs: fs.dirs.remove(path), ..fs }, EventView::Done),
        ActionView::WriteFile { path, contents } => (
            FsModel { files: fs.files.insert(path, contents), ..fs },
            EventView::Done,
        ),
        ActionView::RemoveFile { path } => if fs.files.dom().contains(path) {
            (FsModel { files: fs.files.remove(path), ..fs }, EventView::Done)
        } else {
            (fs, EventView::Failed { error: "No such file or directory"@ })
        },
        ActionView::RemoveFiles { paths } => (
            FsModel { files: fs.files.remove_keys(paths.to_set()), ..fs },
            EventView::Done,
        ),
        ActionView::WriteShims { shims } => (
            FsModel { files: write_shims(fs.files, shims), ..fs },
            EventView::Done,
        ),
        ActionView::CopyFile { from, to } => if fs.files.dom().contains(from) {
            (FsModel { files: fs.files.insert(to, fs.files[from]), ..fs }, EventView::Done)
        } else {
            (fs, EventView::Failed { error: "No such file or directory"@ })
        },
        ActionView::ReadToString { path } => if fs.files.dom().contains(path) {
            (fs, EventView::Text { text: fs.files[path] })
        } else {
            (fs, EventView::Failed { error: "No such file or directory"@ })
        },
        ActionView::Exists { path } => (
            fs,
            EventView::Answer { yes: fs.dirs.contains(path) || fs.files.dom().contains(path) },
        ),
        ActionView::IsDir { path } => (fs, EventView::Answer { yes: fs.dirs.contains(path) }),
        ActionView::IsFile { path } => (fs, EventView::Answer { yes: fs.files.dom().contains(path) }),
        ActionView::ListDir { path } => if fs.dirs.contains(path) {
            (fs, EventView::Listing { items: listing(fs, path) })
        } else {
            (fs, EventView::Failed { error: "No such file or directory"@ })
        },
        ActionView::RunBuildScript { dir, script } => if fs.builds.dom().contains(dir)
            && fs.files.dom().contains(script) {
            (
                built(fs, dir),
                EventView::BuildExited { success: true, stdout: Seq::empty(), stderr: Seq::empty() },
            )
        } else {
            (
                fs,
                EventView::BuildExited {
                    success: false,
                    stdout: Seq::empty(),
                    stderr: "build script exited with a non-zero status"@,
                },
            )
        },
        _ => (fs, EventView::Done),
    }
}

/// Runs a command against `fs` for at most `fuel` actions: the file system,
/// the session and the directive after them.
pub open spec fn run_steps(
    fs: FsModel,
    s: SessionView,
    d: crate::protocol::DirectiveView,
    fuel: nat,
) -> (FsModel, SessionView, crate::protocol::DirectiveView)
    decreases fuel,
{
    if fuel == 0 || d.action is Finish {
        (fs, s, d)
    } else {
        let (fs2, e) = answer(fs, d.action);
        let (s2, d2) = next(s, e);
        run_steps(fs2, s2, d2, (fuel - 1) as nat)
    }
}

/// Runs a command against `fs` for at most `fuel` actions: the file system
/// after them and the last directive.
pub open spec fn run_on(
    fs: FsModel,
    s: SessionView,
    d: crate::protocol::DirectiveView,
    fuel: nat,
) -> (FsModel, crate::protocol::DirectiveView) {
    let r = run_steps(fs, s, d, fuel);
    (r.0, r.2)
}

/// The result that a command finished with.
pub open spec fn finished_with(d: crate::protocol::DirectiveView) -> Option<
    Result<OutcomeView, Seq<char>>,
> {
    match d.action {
        ActionView::Finish { result } => Some(result),
        _ => None,
    }
}

/// Whether the files and directories of `fs` are finitely many.
pub open spec fn finite_fs(fs: FsModel) -> bool {
    fs.dirs.finite() && fs.files.dom().finite()
}

/// Whether the shim directory `shim` of `fs` holds exactly one shim per
/// file of the bin directory `source`, named as that file and running it,
/// and none when `source` is not a directory.
pub open spec fn shims_mirror(fs: FsModel, shim: Seq<char>, source: Seq<char>) -> bool {
    forall|n: Seq<char>|
        #![trigger fs.files.dom().contains(join(shim, n))]
        plain(n) ==> {
            &&& fs.files.dom().contains(join(shim, n)) == (fs.dirs.contains(source)
                && fs.files.dom().contains(join(source, n)))
            &&& fs.files.dom().contains(join(shim, n)) ==> fs.files[join(shim, n)] == shim_script(
                join(source, n),
            )
        }
}

/// `after` is `before` with the shim directory `shim` made to mirror the
/// bin directory `source`, and nothing else changed.
pub open spec fn mirrored(before: FsModel, after: FsModel, shim: Seq<char>, source: Seq<char>) -> bool {
    &&& after.dirs == before.dirs.insert(shim)
    &&& after.builds == before.builds
    &&& finite_fs(after)
    &&& forall|p: Seq<char>|
        !in_dir(p, shim) ==> (#[trigger] after.files.dom().contains(p)) == before.files.dom().contains(p)
    &&& forall|p: Seq<char>|
        !in_dir(p, shim) && before.files.dom().contains(p) ==> #[trigger] after.files[p] == before.files[p]
    &&& shims_mirror(after, shim, source)
}

// ----- running in steps -----
proof fn lemma_run_finished(fs: FsModel, s: SessionView, d: crate::protocol::DirectiveView, k: nat)
    requires
        d.action is Finish,
    ensures
        run_steps(fs, s, d, k) == (fs, s, d),
{
}

proof fn lemma_run_split(
    fs: FsModel,
    s: SessionView,
    d: crate::protocol::DirectiveView,
    a: nat,
    b: nat,
)
    ensures
        run_steps(fs, s, d, a + b) == ({
            let r = run_steps(fs, s, d, a);
            run_steps(r.0, r.1, r.2, b)
        }),
    decreases a,
{
    if a == 0 {
    } else if d.action is Finish {
        lemma_run_finished(fs, s, d, b);
    } else {
        let (fs2, e) = answer(fs, d.action);
        let (s2, d2) = next(s, e);
        lemma_run_split(fs2, s2, d2, (a - 1) as nat, b);
        assert((a + b - 1) as nat == ((a - 1) as nat + b) as nat);
    }
}

// ----- paths -----
proof fn lemma_plain_first(n: Seq<char>)
    requires
        plain(n),
    ensures
        n[0] != '/',
        forall|i: int| 0 <= i < n.len() ==> n[i] != '/',
{
    if n[0] == '/' {
        assert(has_char(n, '/'));
    }
    assert forall|i: int| 0 <= i < n.len() implies n[i] != '/' by {
        if n[i] == '/' {
            assert(has_char(n, '/'));
        }
    }
}

proof fn lemma_join_plain(d: Seq<char>, n: Seq<char>)
    requires
        proper_dir(d),
        plain(n),
    ensures
        join(d, n) == d + seq!['/'] + n,
{
    lemma_plain_first(n);
}

/// Two entries of directories are the same path only under the same name,
/// and the first directory is then at least as long as the second.
proof fn lemma_join_unique(d1: Seq<char>, n1: Seq<char>, d2: Seq<char>, n2: Seq<char>)
    requires
        proper_dir(d2),
        plain(n1),
        plain(n2),
        join(d1, n1) == join(d2, n2),
    ensures
        n1 == n2,
        d1.len() >= d2.len(),
        proper_dir(d1) ==> d1 == d2,
{
    lemma_plain_first(n1);
    lemma_plain_first(n2);
    lemma_join_plain(d2, n2);
    let p = join(d2, n2);
    let l2 = d2.len() as int;
    assert(p[l2] == '/');
    assert forall|k: int| l2 < k < p.len() implies p[k] != '/' by {
        assert(p[k] == n2[k - l2 - 1]);
    }
    // where the last `/` of the first form is
    let l1: int = if d1.len() > 0 && d1.last() != '/' { d1.len() as int } else { d1.len() - 1 };
    if d1.len() == 0 {
        assert(p == n1);
        assert(n1[l2] == '/');
    } else {
        assert(p[l1] == '/');
        assert forall|k: int| l1 < k < p.len() implies p[k] != '/' by {
            if d1.last() != '/' {
                assert(p[k] == n1[k - l1 - 1]);
            } else {
                assert(p[k] == n1[k - l1 - 1]);
            }
        }
        if l1 < l2 {
            assert(p[l2] != '/');
        }
        if l2 < l1 {
            assert(p[l1] != '/');
        }
        assert(l1 == l2);
        assert(n1 =~= p.skip(l1 + 1));
        assert(n2 =~= p.skip(l2 + 1));
        if proper_dir(d1) {
            assert(d1 =~= p.take(l1));
            assert(d2 =~= p.take(l2));
        }
    }
}

/// A directory named by joining a plain name is proper, and longer than its
/// parent.
proof fn lemma_join_proper(b: Seq<char>, c: Seq<char>)
    requires
        plain(c),
    ensures
        proper_dir(join(b, c)),
        b.len() + c.len() <= join(b, c).len() <= b.len() + c.len() + 1,
{
    lemma_plain_first(c);
}

// ----- listings -----
proof fn lemma_entries_plain(d: Seq<char>, ns: Seq<Seq<char>>, ms: Seq<Seq<char>>)
    ensures
        ({
            let items = entries(d, ns, true) + entries(d, ms, false);
            &&& listing_stop(items) == items.len()
            &&& listing_error(items) == None::<Seq<char>>
            &&& items.take(items.len() as int) == items
        }),
{
    let items = entries(d, ns, true) + entries(d, ms, false);
    assert(forall|i: int| 0 <= i < items.len() ==> !(#[trigger] items[i] is Unreadable));
    assert(items.take(items.len() as int) =~= items);
}

proof fn lemma_file_paths_entries(d: Seq<char>, ns: Seq<Seq<char>>, ms: Seq<Seq<char>>)
    ensures
        file_paths(entries(d, ns, true) + entries(d, ms, false)) == ns.map_values(
            |n: Seq<char>| join(d, n),
        ),
    decreases ns.len() + ms.len(),
{
    let x = entries(d, ns, true) + entries(d, ms, false);
    if ms.len() > 0 {
        assert(x.drop_last() =~= entries(d, ns, true) + entries(d, ms.drop_last(), false));
        lemma_file_paths_entries(d, ns, ms.drop_last());
    } else if ns.len() > 0 {
        assert(x =~= entries(d, ns, true));
        assert(x.drop_last() =~= entries(d, ns.drop_last(), true) + entries(d, ms, false));
        lemma_file_paths_entries(d, ns.drop_last(), ms);
        assert(ns.map_values(|n: Seq<char>| join(d, n)) =~= ns.drop_last().map_values(
            |n: Seq<char>| join(d, n),
        ).push(join(d, ns.last())));
    } else {
        assert(x =~= Seq::<DirItemView>::empty());
        assert(ns.map_values(|n: Seq<char>| join(d, n)) =~= Seq::<Seq<char>>::empty());
    }
}

proof fn lemma_shims_for_entries(
    shim: Seq<char>,
    d: Seq<char>,
    ns: Seq<Seq<char>>,
    ms: Seq<Seq<char>>,
)
    ensures
        shims_for(shim, entries(d, ns, true) + entries(d, ms, false)) == ns.map_values(
            |n: Seq<char>| shim_view(shim, d, n),
        ),
    decreases ns.len() + ms.len(),
{
    let x = entries(d, ns, true) + entries(d, ms, false);
    if ms.len() > 0 {
        assert(x.drop_last() =~= entries(d, ns, true) + entries(d, ms.drop_last(), false));
        lemma_shims_for_entries(shim, d, ns, ms.drop_last());
    } else if ns.len() > 0 {
        assert(x =~= entries(d, ns, true));
        assert(x.drop_last() =~= entries(d, ns.drop_last(), true) + entries(d, ms, false));
        lemma_shims_for_entries(shim, d, ns.drop_last(), ms);
        assert(ns.map_values(|n: Seq<char>| shim_view(shim, d, n)) =~= ns.drop_last().map_values(
            |n: Seq<char>| shim_view(shim, d, n),
        ).push(shim_view(shim, d, ns.last())));
    } else {
        assert(x =~= Seq::<DirItemView>::empty());
        assert(ns.map_values(|n: Seq<char>| shim_view(shim, d, n)) =~= Seq::<ShimFileView>::empty());
    }
}

/// A directory of a finite file system has finitely many entries.
proof fn lemma_names_finite(fs: FsModel, d: Seq<char>)
    requires
        proper_dir(d),
        finite_fs(fs),
    ensures
        file_names(fs, d).finite(),
        dir_names(fs, d).finite(),
{
    let f = |p: Seq<char>| p.skip(d.len() + 1int);
    assert forall|n: Seq<char>| #[trigger] file_names(fs, d).contains(n) implies fs.files.dom().map(
        f,
    ).contains(n) by {
        lemma_join_plain(d, n);
        assert(f(join(d, n)) =~= n);
        assert(fs.files.dom().contains(join(d, n)));
    }
    assert forall|n: Seq<char>| #[trigger] dir_names(fs, d).contains(n) implies fs.dirs.map(f).contains(
        n,
    ) by {
        lemma_join_plain(d, n);
        assert(f(join(d, n)) =~= n);
        assert(fs.dirs.contains(join(d, n)));
    }
    fs.files.dom().lemma_map_finite(f);
    fs.dirs.lemma_map_finite(f);
    vstd::set_lib::lemma_set_subset_finite(fs.files.dom().map(f), file_names(fs, d));
    vstd::set_lib::lemma_set_subset_finite(fs.dirs.map(f), dir_names(fs, d));
}

/// What writing the shims for the names `ns` does to `files`.
proof fn lemma_write_names(
    files: Map<Seq<char>, Seq<char>>,
    shim: Seq<char>,
    source: Seq<char>,
    ns: Seq<Seq<char>>,
)
    requires
        proper_dir(shim),
        forall|i: int| 0 <= i < ns.len() ==> plain(#[trigger] ns[i]),
    ensures
        ({
            let w = write_shims(files, ns.map_values(|n: Seq<char>| shim_view(shim, source, n)));
            &&& forall|p: Seq<char>|
                #[trigger] w.dom().contains(p) == (files.dom().contains(p) || exists|i: int|
                    0 <= i < ns.len() && p == join(shim, ns[i]))
            &&& forall|i: int|
                0 <= i < ns.len() ==> w[join(shim, #[trigger] ns[i])] == shim_script(join(source, ns[i]))
            &&& forall|p: Seq<char>|
                (forall|i: int| 0 <= i < ns.len() ==> p != join(shim, #[trigger] ns[i]))
                    ==> #[trigger] w[p] == files[p]
            &&& files.dom().finite() ==> w.dom().finite()
        }),
    decreases ns.len(),
{
    let sv = |n: Seq<char>| shim_view(shim, source, n);
    let shims = ns.map_values(sv);
    if ns.len() == 0 {
        assert(shims =~= Seq::<ShimFileView>::empty());
    } else {
        let init = ns.drop_last();
        lemma_write_names(files, shim, source, init);
        assert(shims.drop_last() =~= init.map_values(sv));
        let w0 = write_shims(files, init.map_values(sv));
        let w = write_shims(files, shims);
        let last = ns.last();
        assert(w == w0.insert(join(shim, last), shim_script(join(source, last))));
        assert forall|p: Seq<char>|
            #[trigger] w.dom().contains(p) == (files.dom().contains(p) || exists|i: int|
                0 <= i < ns.len() && p == join(shim, ns[i])) by {
            if w0.dom().contains(p) && !files.dom().contains(p) {
                let i = choose|i: int| 0 <= i < init.len() && p == join(shim, init[i]);
                assert(ns[i] == init[i]);
            }
            if exists|i: int| 0 <= i < ns.len() && p == join(shim, ns[i]) {
                let i = choose|i: int| 0 <= i < ns.len() && p == join(shim, ns[i]);
                if i < ns.len() - 1 {
                    assert(init[i] == ns[i]);
                }
            }
        }
        assert forall|i: int| 0 <= i < ns.len() implies w[join(shim, #[trigger] ns[i])]
            == shim_script(join(source, ns[i])) by {
            if i < ns.len() - 1 {
                assert(init[i] == ns[i]);
                if join(shim, ns[i]) == join(shim, last) {
                    lemma_join_unique(shim, ns[i], shim, last);
                }
            }
        }
        assert forall|p: Seq<char>|
            (forall|i: int| 0 <= i < ns.len() ==> p != join(shim, #[trigger] ns[i])) implies #[trigger] w[p]
                == files[p] by {
            assert(p != join(shim, ns[ns.len() - 1]));
            assert forall|i: int| 0 <= i < init.len() implies p != join(shim, #[trigger] init[i]) by {
                assert(init[i] == ns[i]);
            }
        }
    }
}

proof fn lemma_bin_plain()
    ensures
        plain("bin"@),
{
    reveal_strlit("bin");
    assert(!has_char("bin"@, '/'));
}

/// The shim directory of a store is a proper directory.
proof fn lemma_shim_dir_proper(base: Seq<char>)
    ensures
        proper_dir(shim_bin_dir_of(base)),
        shim_bin_dir_of(base).len() <= base.len() + 4,
{
    lemma_bin_plain();
    reveal_strlit("bin");
    lemma_join_proper(base, "bin"@);
}

/// Removing the shims: after the listing of `shim` is removed, no file is
/// left in it, and every other file is as it was.
proof fn lemma_remove_listed(fs: FsModel, shim: Seq<char>)
    requires
        finite_fs(fs),
        proper_dir(shim),
    ensures
        ({
            let items = listing(fs, shim);
            let after = answer(fs, ActionView::RemoveFiles { paths: file_paths(items) }).0;
            &&& after.dirs == fs.dirs
            &&& after.builds == fs.builds
            &&& finite_fs(after)
            &&& forall|n: Seq<char>| plain(n) ==> !(#[trigger] after.files.dom().contains(join(shim, n)))
            &&& forall|p: Seq<char>|
                !in_dir(p, shim) ==> (#[trigger] after.files.dom().contains(p)) == fs.files.dom().contains(p)
            &&& forall|p: Seq<char>|
                !in_dir(p, shim) && fs.files.dom().contains(p) ==> #[trigger] after.files[p] == fs.files[p]
        }),
{
    lemma_names_finite(fs, shim);
    let ns = file_names(fs, shim).to_seq();
    let ms = dir_names(fs, shim).to_seq();
    file_names(fs, shim).lemma_to_seq_to_set_id();
    lemma_file_paths_entries(shim, ns, ms);
    let paths = ns.map_values(|n: Seq<char>| join(shim, n));
    let after = answer(fs, ActionView::RemoveFiles { paths }).0;
    assert(after.files == fs.files.remove_keys(paths.to_set()));
    assert forall|n: Seq<char>| plain(n) implies !(#[trigger] after.files.dom().contains(join(shim, n))) by {
        if fs.files.dom().contains(join(shim, n)) {
            assert(file_names(fs, shim).contains(n));
            assert(ns.to_set().contains(n));
            let i = choose|i: int| 0 <= i < ns.len() && ns[i] == n;
            assert(paths[i] == join(shim, n));
            assert(paths.to_set().contains(join(shim, n)));
        }
    }
    assert forall|p: Seq<char>| !in_dir(p, shim) implies !paths.to_set().contains(p) by {
        if paths.to_set().contains(p) {
            let i = choose|i: int| 0 <= i < paths.len() && paths[i] == p;
            assert(ns.to_set().contains(ns[i]));
            assert(file_names(fs, shim).contains(ns[i]));
            assert(plain(ns[i]) && p == join(shim, ns[i]));
        }
    }
    vstd::set_lib::lemma_set_subset_finite(fs.files.dom(), after.files.dom());
}

/// Refreshing the shims once the active bin directory `source` is known:
/// the shim directory ends up mirroring it, and the refresh goes on as
/// `then` says.
proof fn lemma_sync(fs: FsModel, s: SessionView, source: Seq<char>, then: AfterSyncView)
    requires
        finite_fs(fs),
        proper_dir(source),
        source != shim_bin_dir_of(s.base),
    ensures
        ({
            let shim = shim_bin_dir_of(s.base);
            let start = resolved(s, source, AfterResolveView::Sync { then });
            let k: nat = if fs.dirs.contains(source) { 6 } else { 4 };
            let r = run_steps(fs, start.0, start.1, k);
            &&& (r.1, r.2) == synced(s, then)
            &&& mirrored(fs, r.0, shim, source)
        }),
{
    let shim = shim_bin_dir_of(s.base);
    lemma_shim_dir_proper(s.base);
    let start = resolved(s, source, AfterResolveView::Sync { then });
    // the shim directory is made
    let (f1, e1) = answer(fs, start.1.action);
    let (s1, d1) = next(start.0, e1);
    assert(f1.dirs == fs.dirs.insert(shim));
    assert(d1.action == ActionView::ListDir { path: shim });
    // and listed
    let (f2, e2) = answer(f1, d1.action);
    let items = listing(f1, shim);
    assert(e2 == EventView::Listing { items });
    lemma_entries_plain(shim, file_names(f1, shim).to_seq(), dir_names(f1, shim).to_seq());
    let (s2, d2) = next(s1, e2);
    assert(d2.action == ActionView::RemoveFiles { paths: file_paths(items) });
    // its files are removed
    let (f3, e3) = answer(f2, d2.action);
    lemma_remove_listed(f1, shim);
    let (s3, d3) = next(s2, e3);
    assert(d3.action == ActionView::IsDir { path: source });
    let (f4, e4) = answer(f3, d3.action);
    let (s4, d4) = next(s3, e4);
    // the files of the source stay as they were
    assert forall|n: Seq<char>| plain(n) implies !in_dir(#[trigger] join(source, n), shim) by {
        if in_dir(join(source, n), shim) {
            let m = choose|m: Seq<char>| plain(m) && join(source, n) == join(shim, m);
            lemma_join_unique(source, n, shim, m);
        }
    }
    assert forall|p: Seq<char>| in_dir(p, shim) implies !(#[trigger] f3.files.dom().contains(p)) by {
        let m = choose|m: Seq<char>| plain(m) && p == join(shim, m);
    }
    if fs.dirs.contains(source) {
        assert(d4.action == ActionView::ListDir { path: source });
        let (f5, e5) = answer(f4, d4.action);
        assert(file_names(f4, source) =~= file_names(fs, source));
        lemma_names_finite(f4, source);
        let ns = file_names(f4, source).to_seq();
        let ms = dir_names(f4, source).to_seq();
        file_names(f4, source).lemma_to_seq_to_set_id();
        lemma_entries_plain(source, ns, ms);
        lemma_shims_for_entries(shim, source, ns, ms);
        let (s5, d5) = next(s4, e5);
        let shims = ns.map_values(|n: Seq<char>| shim_view(shim, source, n));
        assert(d5.action == ActionView::WriteShims { shims });
        let (f6, e6) = answer(f5, d5.action);
        assert forall|i: int| 0 <= i < ns.len() implies plain(#[trigger] ns[i]) by {
            assert(ns.to_set().contains(ns[i]));
        }
        lemma_write_names(f5.files, shim, source, ns);
        let (s6, d6) = next(s5, e6);
        assert((s6, d6) == synced(s, then));
        assert(run_steps(f6, s6, d6, 0) == (f6, s6, d6));
        assert(run_steps(f5, s5, d5, 1) == (f6, s6, d6));
        assert(run_steps(f4, s4, d4, 2) == (f6, s6, d6));
        assert(run_steps(f3, s3, d3, 3) == (f6, s6, d6));
        assert(run_steps(f2, s2, d2, 4) == (f6, s6, d6));
        assert(run_steps(f1, s1, d1, 5) == (f6, s6, d6));
        assert(run_steps(fs, start.0, start.1, 6) == (f6, s6, d6));
        assert forall|n: Seq<char>| plain(n) implies
            (#[trigger] f6.files.dom().contains(join(shim, n))) == (f6.dirs.contains(source)
                && f6.files.dom().contains(join(source, n))) by {
            if f6.files.dom().contains(join(shim, n)) {
                let i = choose|i: int| 0 <= i < ns.len() && join(shim, n) == join(shim, ns[i]);
                lemma_join_unique(shim, n, shim, ns[i]);
                assert(ns.to_set().contains(ns[i]));
            }
            if f6.files.dom().contains(join(source, n)) {
                assert(file_names(f4, source).contains(n));
                assert(ns.to_set().contains(n));
            }
        }
        assert forall|n: Seq<char>| plain(n) && #[trigger] f6.files.dom().contains(join(shim, n))
            implies f6.files[join(shim, n)] == shim_script(join(source, n)) by {
            let i = choose|i: int| 0 <= i < ns.len() && join(shim, n) == join(shim, ns[i]);
            lemma_join_unique(shim, n, shim, ns[i]);
        }
        assert forall|p: Seq<char>| !in_dir(p, shim) implies #[trigger] f6.files[p] == f3.files[p] by {
            assert forall|i: int| 0 <= i < ns.len() implies p != join(shim, #[trigger] ns[i]) by {
                if p == join(shim, ns[i]) {
                    assert(in_dir(p, shim));
                }
            }
        }
        assert forall|p: Seq<char>| !in_dir(p, shim) implies (#[trigger] f6.files.dom().contains(p))
            == f3.files.dom().contains(p) by {
            if exists|i: int| 0 <= i < ns.len() && p == join(shim, ns[i]) {
                let i = choose|i: int| 0 <= i < ns.len() && p == join(shim, ns[i]);
                assert(in_dir(p, shim));
            }
        }
    } else {
        assert((s4, d4) == synced(s, then));
        assert(run_steps(f4, s4, d4, 0) == (f4, s4, d4));
        assert(run_steps(f3, s3, d3, 1) == (f4, s4, d4));
        assert(run_steps(f2, s2, d2, 2) == (f4, s4, d4));
        assert(run_steps(f1, s1, d1, 3) == (f4, s4, d4));
        assert(run_steps(fs, start.0, start.1, 4) == (f4, s4, d4));
    }
}

// ----- parts of commands -----
/// Whether `fs` records the environment `name` as the active one: the
/// record's text, without surrounding white space, is `name`.
pub open spec fn records(fs: FsModel, base: Seq<char>, name: Seq<char>) -> bool {
    &&& fs.files.dom().contains(active_env_file_of(base))
    &&& active_name_in(fs.files[active_env_file_of(base)]) == Some(name)
}

/// Reading a record that names the existing environment `name` resolves to
/// that environment's bin directory.
proof fn lemma_resolve_recorded(fs: FsModel, s: SessionView, name: Seq<char>, then: AfterResolveView)
    requires
        records(fs, s.base, name),
        fs.dirs.contains(env_dir_of(s.base, name)),
    ensures
        ({
            let start = read_active_name(s, AfterNameView::Resolve { then });
            let r = resolved(s, env_bin_dir_of(s.base, name), then);
            run_steps(fs, start.0, start.1, 3) == (fs, r.0, r.1)
        }),
{
    let start = read_active_name(s, AfterNameView::Resolve { then });
    let (f1, e1) = answer(fs, start.1.action);
    let (s1, d1) = next(start.0, e1);
    let (f2, e2) = answer(f1, d1.action);
    assert(e2 == EventView::Text { text: fs.files[active_env_file_of(s.base)] });
    let (s2, d2) = next(s1, e2);
    let (f3, e3) = answer(f2, d2.action);
    let (s3, d3) = next(s2, e3);
    let r = resolved(s, env_bin_dir_of(s.base, name), then);
    assert((s3, d3) == r);
    assert(run_steps(f3, s3, d3, 0) == (fs, r.0, r.1));
    assert(run_steps(f2, s2, d2, 1) == (fs, r.0, r.1));
    assert(run_steps(f1, s1, d1, 2) == (fs, r.0, r.1));
}

/// Without a record, the active bin directory is the root one.
proof fn lemma_resolve_root(fs: FsModel, s: SessionView, then: AfterResolveView)
    requires
        !fs.files.dom().contains(active_env_file_of(s.base)),
        !fs.dirs.contains(active_env_file_of(s.base)),
    ensures
        ({
            let start = read_active_name(s, AfterNameView::Resolve { then });
            let r = resolved(s, root_bin_dir_of(s.base), then);
            run_steps(fs, start.0, start.1, 1) == (fs, r.0, r.1)
        }),
{
    let start = read_active_name(s, AfterNameView::Resolve { then });
    let (f1, e1) = answer(fs, start.1.action);
    let (s1, d1) = next(start.0, e1);
    let r = resolved(s, root_bin_dir_of(s.base), then);
    assert((s1, d1) == r);
    assert(run_steps(f1, s1, d1, 0) == (fs, r.0, r.1));
}

/// Whether `config` is what the package in `dir` configures: the text of
/// its `build.toml` reads as `config`, or it has none and `config` sets
/// nothing.
pub open spec fn configures(fs: FsModel, dir: Seq<char>, config: BuildConfigView) -> bool {
    ||| fs.files.dom().contains(config_file(dir)) && build_config_of(fs.files[config_file(dir)]) == Ok::<
        BuildConfigView,
        Seq<char>,
    >(config)
    ||| !fs.files.dom().contains(config_file(dir)) && config == no_config()
}

/// The actions before the build script runs: the package directory is
/// there, and its configuration is read.
proof fn lemma_plan(fs: FsModel, s: SessionView, dir: Seq<char>, pkg: Seq<char>, config: BuildConfigView)
    requires
        fs.dirs.contains(dir),
        configures(fs, dir, config),
    ensures
        ({
            let start = crate::rules::install_from(s, Seq::empty(), dir, pkg);
            let k: nat = if fs.files.dom().contains(config_file(dir)) { 3 } else { 2 };
            let p = planned(s, plan_of(dir, pkg, config));
            run_steps(fs, start.0, start.1, k) == (fs, p.0, p.1)
        }),
{
    let start = crate::rules::install_from(s, Seq::empty(), dir, pkg);
    let p = planned(s, plan_of(dir, pkg, config));
    let (f1, e1) = answer(fs, start.1.action);
    let (s1, d1) = next(start.0, e1);
    let (f2, e2) = answer(f1, d1.action);
    let (s2, d2) = next(s1, e2);
    if fs.files.dom().contains(config_file(dir)) {
        let (f3, e3) = answer(f2, d2.action);
        let (s3, d3) = next(s2, e3);
        assert((s3, d3) == p);
        assert(run_steps(f3, s3, d3, 0) == (fs, p.0, p.1));
        assert(run_steps(f2, s2, d2, 1) == (fs, p.0, p.1));
        assert(run_steps(f1, s1, d1, 2) == (fs, p.0, p.1));
    } else {
        assert((s2, d2) == p);
        assert(run_steps(f2, s2, d2, 0) == (fs, p.0, p.1));
        assert(run_steps(f1, s1, d1, 1) == (fs, p.0, p.1));
    }
}

/// Building as `plan` says: the build script is there and its run
/// succeeds; then the active environment is read.
proof fn lemma_build(fs: FsModel, s: SessionView, plan: BuildPlanView)
    requires
        fs.files.dom().contains(plan.script),
        fs.builds.dom().contains(plan.dir),
    ensures
        ({
            let p = planned(s, plan);
            let r = read_active_name(
                s,
                AfterNameView::Resolve { then: AfterResolveView::Install { plan } },
            );
            run_steps(fs, p.0, p.1, 2) == (built(fs, plan.dir), r.0, r.1)
        }),
{
    let p = planned(s, plan);
    let r = read_active_name(s, AfterNameView::Resolve { then: AfterResolveView::Install { plan } });
    let (f1, e1) = answer(fs, p.1.action);
    let (s1, d1) = next(p.0, e1);
    let (f2, e2) = answer(f1, d1.action);
    let (s2, d2) = next(s1, e2);
    assert((s2, d2) == r);
    assert(run_steps(f2, s2, d2, 0) == (built(fs, plan.dir), r.0, r.1));
    assert(run_steps(f1, s1, d1, 1) == (built(fs, plan.dir), r.0, r.1));
}

/// What copying the built binary into `target` leaves.
pub open spec fn copied(fs: FsModel, plan: BuildPlanView, target: Seq<char>) -> FsModel {
    FsModel {
        dirs: fs.dirs.insert(target),
        files: fs.files.insert(join(target, plan.name), fs.files[plan.binary]),
        ..fs
    }
}

/// Installing into `target`: the built binary is there, the directory is
/// made and the binary copied; then the shims are refreshed.
proof fn lemma_copy(fs: FsModel, s: SessionView, plan: BuildPlanView, target: Seq<char>)
    requires
        fs.files.dom().contains(plan.binary),
    ensures
        ({
            let start = resolved(s, target, AfterResolveView::Install { plan });
            let r = sync_then(
                s,
                AfterSyncView::PkgInstalled { name: plan.name, installed: join(target, plan.name) },
            );
            run_steps(fs, start.0, start.1, 3) == (copied(fs, plan, target), r.0, r.1)
        }),
{
    let start = resolved(s, target, AfterResolveView::Install { plan });
    let r = sync_then(
        s,
        AfterSyncView::PkgInstalled { name: plan.name, installed: join(target, plan.name) },
    );
    let (f1, e1) = answer(fs, start.1.action);
    let (s1, d1) = next(start.0, e1);
    let (f2, e2) = answer(f1, d1.action);
    let (s2, d2) = next(s1, e2);
    let (f3, e3) = answer(f2, d2.action);
    let (s3, d3) = next(s2, e3);
    assert((s3, d3) == r);
    let c = copied(fs, plan, target);
    assert(f3 == c);
    assert(run_steps(f3, s3, d3, 0) == (c, r.0, r.1));
    assert(run_steps(f2, s2, d2, 1) == (c, r.0, r.1));
    assert(run_steps(f1, s1, d1, 2) == (c, r.0, r.1));
}

/// `env set name` where the environment exists: the store is prepared and
/// the record written; then the shims are refreshed.
proof fn lemma_select(fs: FsModel, mode: Mode, base: Seq<char>, name: Seq<char>, command: Commands)
    requires
        fs.dirs.contains(env_dir_of(base, name)),
        command matches Commands::Env { command: crate::cli::EnvCommand::Select { path } } && path@
            == name,
    ensures
        ({
            let start = begin(mode, base, command);
            let s0 = SessionView { mode, base, phase: PhaseView::Finished };
            let r = sync_then(s0, AfterSyncView::EnvSelected { name });
            let after = FsModel {
                dirs: fs.dirs.insert(base),
                files: fs.files.insert(active_env_file_of(base), active_file_text(name)),
                ..fs
            };
            run_steps(fs, start.0, start.1, 3) == (after, r.0, r.1)
        }),
{
    let start = begin(mode, base, command);
    let s0 = SessionView { mode, base, phase: PhaseView::Finished };
    let r = sync_then(s0, AfterSyncView::EnvSelected { name });
    let (f1, e1) = answer(fs, start.1.action);
    let (s1, d1) = next(start.0, e1);
    let (f2, e2) = answer(f1, d1.action);
    let (s2, d2) = next(s1, e2);
    let (f3, e3) = answer(f2, d2.action);
    let (s3, d3) = next(s2, e3);
    assert((s3, d3) == r);
    assert(run_steps(f3, s3, d3, 0) == (f3, r.0, r.1));
    assert(run_steps(f2, s2, d2, 1) == (f3, r.0, r.1));
    assert(run_steps(f1, s1, d1, 2) == (f3, r.0, r.1));
}

/// `env remove name` where the environment exists and is the active one:
/// its directory and the record are removed; then the shims are refreshed.
proof fn lemma_remove_active(fs: FsModel, mode: Mode, base: Seq<char>, name: Seq<char>, command: Commands)
    requires
        fs.dirs.contains(env_dir_of(base, name)),
        records(fs, base, name),
        command matches Commands::Env { command: crate::cli::EnvCommand::Remove { path } } && path@
            == name,
    ensures
        ({
            let start = begin(mode, base, command);
            let s0 = SessionView { mode, base, phase: PhaseView::Finished };
            let r = sync_then(s0, AfterSyncView::EnvRemoved { name });
            let after = FsModel {
                dirs: fs.dirs.remove(env_dir_of(base, name)),
                files: fs.files.remove(active_env_file_of(base)),
                ..fs
            };
            run_steps(fs, start.0, start.1, 6) == (after, r.0, r.1)
        }),
{
    
    let start = begin(mode, base, command);
    let s0 = SessionView { mode, base, phase: PhaseView::Finished };
    let r = sync_then(s0, AfterSyncView::EnvRemoved { name });
    let (f1, e1) = answer(fs, start.1.action);
    let (s1, d1) = next(start.0, e1);
    let (f2, e2) = answer(f1, d1.action);
    let (s2, d2) = next(s1, e2);
    let (f3, e3) = answer(f2, d2.action);
    let (s3, d3) = next(s2, e3);
    let (f4, e4) = answer(f3, d3.action);
    assert(e4 == EventView::Text { text: fs.files[active_env_file_of(base)] });
    let (s4, d4) = next(s3, e4);
    let (f5, e5) = answer(f4, d4.action);
    let (s5, d5) = next(s4, e5);
    let (f6, e6) = answer(f5, d5.action);
    let (s6, d6) = next(s5, e6);
    assert((s6, d6) == r);
    assert(run_steps(f6, s6, d6, 0) == (f6, r.0, r.1));
    assert(run_steps(f5, s5, d5, 1) == (f6, r.0, r.1));
    assert(run_steps(f4, s4, d4, 2) == (f6, r.0, r.1));
    assert(run_steps(f3, s3, d3, 3) == (f6, r.0, r.1));
    assert(run_steps(f2, s2, d2, 4) == (f6, r.0, r.1));
    assert(run_steps(f1, s1, d1, 5) == (f6, r.0, r.1));
}

// ----- where the store keeps things -----
proof fn lemma_plain_literals()
    ensures
        plain("bin"@),
        plain("env"@),
        plain("root"@),
        plain("active-env"@),
{
    reveal_strlit("bin");
    reveal_strlit("env");
    reveal_strlit("root");
    reveal_strlit("active-env");
    assert(!has_char("bin"@, '/'));
    assert(!has_char("env"@, '/'));
    assert(!has_char("root"@, '/'));
    assert(!has_char("active-env"@, '/'));
}

/// The shim and root bin directories of a store are proper and distinct,
/// and neither the record nor a root binary is a shim.
proof fn lemma_store_layout(base: Seq<char>)
    ensures
        proper_dir(shim_bin_dir_of(base)),
        proper_dir(root_bin_dir_of(base)),
        root_bin_dir_of(base) != shim_bin_dir_of(base),
        active_env_file_of(base) != shim_bin_dir_of(base),
        !in_dir(active_env_file_of(base), shim_bin_dir_of(base)),
        forall|n: Seq<char>|
            plain(n) ==> active_env_file_of(base) != #[trigger] join(root_bin_dir_of(base), n),
{
    lemma_plain_literals();
    lemma_shim_dir_proper(base);
    lemma_join_proper(base, "root"@);
    lemma_join_proper(join(base, "root"@), "bin"@);
    lemma_join_proper(base, "active-env"@);
    reveal_strlit("active-env");
    reveal_strlit("bin");
    reveal_strlit("root");
    let shim = shim_bin_dir_of(base);
    if in_dir(active_env_file_of(base), shim) {
        let n = choose|n: Seq<char>| plain(n) && active_env_file_of(base) == join(shim, n);
        lemma_join_unique(base, "active-env"@, shim, n);
    }
    assert forall|n: Seq<char>| plain(n) implies active_env_file_of(base) != #[trigger] join(
        root_bin_dir_of(base),
        n,
    ) by {
        if active_env_file_of(base) == join(root_bin_dir_of(base), n) {
            lemma_join_unique(base, "active-env"@, root_bin_dir_of(base), n);
        }
    }
}

/// The bin directory of an environment is a proper directory.
proof fn lemma_env_bin_proper(base: Seq<char>, name: Seq<char>)
    ensures
        proper_dir(env_bin_dir_of(base, name)),
{
    lemma_plain_literals();
    lemma_join_proper(env_dir_of(base, name), "bin"@);
}

/// Where a record names the existing environment `name`, the active bin
/// directory is that environment's.
proof fn lemma_active_bin_recorded(fs: FsModel, mode: Mode, base: Seq<char>, name: Seq<char>)
    requires
        records(fs, base, name),
        fs.dirs.contains(env_dir_of(base, name)),
    ensures
        ({
            let get = crate::rules::begin_active_bin(mode, base);
            finished_with(run_on(fs, get.0, get.1, 4).1) == Some(
                Ok::<OutcomeView, Seq<char>>(OutcomeView::BinDir { path: env_bin_dir_of(base, name) }),
            )
        }),
{
    let s0 = SessionView { mode, base, phase: PhaseView::Finished };
    let get = crate::rules::begin_active_bin(mode, base);
    lemma_resolve_recorded(fs, s0, name, AfterResolveView::Locate);
    lemma_run_split(fs, get.0, get.1, 3, 1);
}

/// Without a record, the active bin directory is the root one.
proof fn lemma_active_bin_root(fs: FsModel, mode: Mode, base: Seq<char>)
    requires
        !fs.files.dom().contains(active_env_file_of(base)),
        !fs.dirs.contains(active_env_file_of(base)),
    ensures
        ({
            let get = crate::rules::begin_active_bin(mode, base);
            finished_with(run_on(fs, get.0, get.1, 4).1) == Some(
                Ok::<OutcomeView, Seq<char>>(OutcomeView::BinDir { path: root_bin_dir_of(base) }),
            )
        }),
{
    let s0 = SessionView { mode, base, phase: PhaseView::Finished };
    let get = crate::rules::begin_active_bin(mode, base);
    lemma_resolve_root(fs, s0, AfterResolveView::Locate);
    lemma_run_split(fs, get.0, get.1, 1, 3);
}

/// A refresh of the shims in `s`'s store that ends as `then` says, started
/// once the active bin directory `source` is known, on a finite `fs`:
/// within 6 actions it is over, with the shims mirroring `source`.
proof fn lemma_sync_to_end(
    fs: FsModel,
    s: SessionView,
    source: Seq<char>,
    then: AfterSyncView,
    extra: nat,
)
    requires
        finite_fs(fs),
        proper_dir(source),
        source != shim_bin_dir_of(s.base),
        synced(s, then).1.action is Finish,
    ensures
        ({
            let start = resolved(s, source, AfterResolveView::Sync { then });
            let r = run_steps(fs, start.0, start.1, 6 + extra);
            &&& (r.1, r.2) == synced(s, then)
            &&& mirrored(fs, r.0, shim_bin_dir_of(s.base), source)
        }),
{
    lemma_sync(fs, s, source, then);
    let start = resolved(s, source, AfterResolveView::Sync { then });
    let k: nat = if fs.dirs.contains(source) { 6 } else { 4 };
    lemma_run_split(fs, start.0, start.1, k, (6 + extra - k) as nat);
    let r = run_steps(fs, start.0, start.1, k);
    lemma_run_finished(r.0, r.1, r.2, (6 + extra - k) as nat);
    assert(k + (6 + extra - k) as nat == 6 + extra);
}

// ----- commands with shims -----
/// Where the active bin directory of a store is found: the bin directory of
/// the environment `name` that the record names, or the root one when no
/// environment is named.
pub open spec fn active_source(base: Seq<char>, name: Option<Seq<char>>) -> Seq<char> {
    match name {
        Some(n) => env_bin_dir_of(base, n),
        None => root_bin_dir_of(base),
    }
}

/// Whether reading the active environment of `fs` succeeds with `name`: a
/// record that names an existing environment, or no environment named, by
/// a record that is blank or by no record at all.
pub open spec fn resolves(fs: FsModel, base: Seq<char>, name: Option<Seq<char>>) -> bool {
    match name {
        Some(n) => records(fs, base, n) && fs.dirs.contains(env_dir_of(base, n)),
        None => !fs.dirs.contains(active_env_file_of(base)) && (!fs.files.dom().contains(
            active_env_file_of(base),
        ) || active_name_in(fs.files[active_env_file_of(base)]) == None::<Seq<char>>),
    }
}

/// How many actions reading the active environment takes.
pub open spec fn resolve_steps(fs: FsModel, base: Seq<char>, name: Option<Seq<char>>) -> nat {
    match name {
        Some(_) => 3,
        None => if fs.files.dom().contains(active_env_file_of(base)) {
            2
        } else {
            1
        },
    }
}

/// Reading the active environment on a store that resolves it.
proof fn lemma_resolve_active(
    fs: FsModel,
    s: SessionView,
    name: Option<Seq<char>>,
    then: AfterResolveView,
)
    requires
        resolves(fs, s.base, name),
    ensures
        ({
            let start = read_active_name(s, AfterNameView::Resolve { then });
            let r = resolved(s, active_source(s.base, name), then);
            run_steps(fs, start.0, start.1, resolve_steps(fs, s.base, name)) == (fs, r.0, r.1)
        }),
{
    match name {
        Some(n) => lemma_resolve_recorded(fs, s, n, then),
        None => if fs.files.dom().contains(active_env_file_of(s.base)) {
            let start = read_active_name(s, AfterNameView::Resolve { then });
            let (f1, e1) = answer(fs, start.1.action);
            let (s1, d1) = next(start.0, e1);
            let (f2, e2) = answer(f1, d1.action);
            let (s2, d2) = next(s1, e2);
            let r = resolved(s, root_bin_dir_of(s.base), then);
            assert((s2, d2) == r);
            assert(run_steps(f2, s2, d2, 0) == (fs, r.0, r.1));
            assert(run_steps(f1, s1, d1, 1) == (fs, r.0, r.1));
        } else {
            lemma_resolve_root(fs, s, then)
        },
    }
}

/// One refresh of the shims on its own.
proof fn lemma_refresh(fs: FsModel, base: Seq<char>, name: Option<Seq<char>>)
    requires
        finite_fs(fs),
        resolves(fs, base, name),
        active_source(base, name) != shim_bin_dir_of(base),
    ensures
        ({
            let sync = crate::rules::begin_sync(Mode::Shims, base);
            let r = run_steps(fs, sync.0, sync.1, 10);
            &&& finished_with(r.2) == Some(Ok::<OutcomeView, Seq<char>>(OutcomeView::Quiet))
            &&& mirrored(fs, r.0, shim_bin_dir_of(base), active_source(base, name))
            &&& resolves(r.0, base, name)
        }),
{
    let s0 = SessionView { mode: Mode::Shims, base, phase: PhaseView::Finished };
    let sync = crate::rules::begin_sync(Mode::Shims, base);
    let then = AfterSyncView::Idle;
    let source = active_source(base, name);
    lemma_store_layout(base);
    if let Some(n) = name {
        lemma_env_bin_proper(base, n);
    }
    let k = resolve_steps(fs, base, name);
    lemma_resolve_active(fs, s0, name, AfterResolveView::Sync { then });
    lemma_sync_to_end(fs, s0, source, then, (4 - k) as nat);
    lemma_run_split(fs, sync.0, sync.1, k, (10 - k) as nat);
    assert(k + (10 - k) as nat == 10);
    let rv = resolved(s0, source, AfterResolveView::Sync { then });
    let f1 = run_steps(fs, rv.0, rv.1, (10 - k) as nat).0;
    assert(f1.files.dom().contains(active_env_file_of(base)) == fs.files.dom().contains(
        active_env_file_of(base),
    ));
}

/// Refreshing the shims twice leaves the same store as refreshing them
/// once: the same directories and the same files with the same text, the
/// shim directory mirroring the active bin directory. Holds on every store
/// on which reading the active environment succeeds, unless the active bin
/// directory is the shim directory itself.
pub proof fn law_refresh_twice_is_refresh_once(fs: FsModel, base: Seq<char>, name: Option<Seq<char>>)
    requires
        finite_fs(fs),
        resolves(fs, base, name),
        active_source(base, name) != shim_bin_dir_of(base),
    ensures
        ({
            let sync = crate::rules::begin_sync(Mode::Shims, base);
            let (fs1, d1) = run_on(fs, sync.0, sync.1, 10);
            let (fs2, d2) = run_on(fs1, sync.0, sync.1, 10);
            &&& finished_with(d1) == Some(Ok::<OutcomeView, Seq<char>>(OutcomeView::Quiet))
            &&& finished_with(d2) == Some(Ok::<OutcomeView, Seq<char>>(OutcomeView::Quiet))
            &&& shims_mirror(fs1, shim_bin_dir_of(base), active_source(base, name))
            &&& fs2.dirs == fs1.dirs
            &&& fs2.files == fs1.files
        }),
{
    let sync = crate::rules::begin_sync(Mode::Shims, base);
    lemma_refresh(fs, base, name);
    let fs1 = run_steps(fs, sync.0, sync.1, 10).0;
    lemma_refresh(fs1, base, name);
    let fs2 = run_steps(fs1, sync.0, sync.1, 10).0;
    let shim = shim_bin_dir_of(base);
    let source = active_source(base, name);
    lemma_store_layout(base);
    if let Some(n) = name {
        lemma_env_bin_proper(base, n);
    }
    assert forall|n: Seq<char>| plain(n) implies !in_dir(#[trigger] join(source, n), shim) by {
        if in_dir(join(source, n), shim) {
            let m = choose|m: Seq<char>| plain(m) && join(source, n) == join(shim, m);
            lemma_join_unique(source, n, shim, m);
        }
    }
    assert forall|p: Seq<char>| #[trigger] fs2.files.dom().contains(p) == fs1.files.dom().contains(p)
        by {
        if in_dir(p, shim) {
            let n = choose|n: Seq<char>| plain(n) && p == join(shim, n);
            assert(fs2.files.dom().contains(join(shim, n)) == fs1.files.dom().contains(join(shim, n)));
        }
    }
    assert forall|p: Seq<char>| #[trigger] fs2.files.dom().contains(p) implies fs2.files[p]
        == fs1.files[p] by {
        if in_dir(p, shim) {
            let n = choose|n: Seq<char>| plain(n) && p == join(shim, n);
            assert(fs2.files.dom().contains(join(shim, n)));
        }
    }
    assert(fs2.files =~= fs1.files);
    assert(fs2.dirs =~= fs1.dirs);
}

/// With shims, switching environments: once `env set name` has run on a
/// store in which the environment `name` exists, the record names it, the
/// active bin directory is its bin directory, and the shim directory holds
/// exactly one shim per file of that bin directory, each running that
/// file. Holds for every name that is non-empty and neither starts nor ends
/// with white space, unless that environment's bin directory is the shim
/// directory itself.
pub proof fn law_shims_set_env(fs: FsModel, base: Seq<char>, name: Seq<char>, command: Commands)
    requires
        finite_fs(fs),
        name.len() > 0,
        is_trimmed(name),
        fs.dirs.contains(env_dir_of(base, name)),
        env_bin_dir_of(base, name) != shim_bin_dir_of(base),
        command matches Commands::Env { command: crate::cli::EnvCommand::Select { path } } && path@
            == name,
    ensures
        ({
            let set = begin(Mode::Shims, base, command);
            let (fs1, d1) = run_on(fs, set.0, set.1, 12);
            let get = crate::rules::begin_active_bin(Mode::Shims, base);
            &&& finished_with(d1) matches Some(Ok(_))
            &&& records(fs1, base, name)
            &&& shims_mirror(fs1, shim_bin_dir_of(base), env_bin_dir_of(base, name))
            &&& finished_with(run_on(fs1, get.0, get.1, 4).1) == Some(
                Ok::<OutcomeView, Seq<char>>(OutcomeView::BinDir { path: env_bin_dir_of(base, name) }),
            )
        }),
{
    lemma_store_layout(base);
    lemma_env_bin_proper(base, name);
    law_selected_name_reads_back(name);
    let s0 = SessionView { mode: Mode::Shims, base, phase: PhaseView::Finished };
    let set = begin(Mode::Shims, base, command);
    lemma_select(fs, Mode::Shims, base, name, command);
    let fa = run_steps(fs, set.0, set.1, 3).0;
    let then = AfterSyncView::EnvSelected { name };
    lemma_resolve_recorded(fa, s0, name, AfterResolveView::Sync { then });
    let bin = env_bin_dir_of(base, name);
    lemma_sync_to_end(fa, s0, bin, then, 0);
    let rv = resolved(s0, bin, AfterResolveView::Sync { then });
    let rn = read_active_name(s0, AfterNameView::Resolve { then: AfterResolveView::Sync { then } });
    lemma_run_split(fa, rn.0, rn.1, 3, 6);
    lemma_run_split(fs, set.0, set.1, 3, 9);
    let fs1 = run_steps(fa, rv.0, rv.1, 6).0;
    assert(fs1.files.dom().contains(active_env_file_of(base)));
    lemma_active_bin_recorded(fs1, Mode::Shims, base, name);
}

/// With shims, installing follows the active environment: on a store whose
/// record names the existing environment `name`, building the package in
/// `dir` (as its `build.toml`, if any, configures it) and installing it puts
/// the binary that the build left into that environment's bin directory
/// under the configured name, and the shim directory then mirrors that bin
/// directory. Holds for builds that leave the record alone, unless the bin
/// directory is the shim directory itself or the installed binary's path is
/// the record's or lies in the shim directory.
pub proof fn law_shims_install(
    fs: FsModel,
    base: Seq<char>,
    name: Seq<char>,
    dir: Seq<char>,
    pkg: Seq<char>,
    config: BuildConfigView,
)
    requires
        finite_fs(fs),
        records(fs, base, name),
        fs.dirs.contains(env_dir_of(base, name)),
        env_bin_dir_of(base, name) != shim_bin_dir_of(base),
        fs.dirs.contains(dir),
        configures(fs, dir, config),
        fs.files.dom().contains(plan_of(dir, pkg, config).script),
        fs.builds.dom().contains(dir),
        fs.builds[dir].dom().finite(),
        fs.builds[dir].dom().contains(plan_of(dir, pkg, config).binary),
        !fs.builds[dir].dom().contains(active_env_file_of(base)),
        join(env_bin_dir_of(base, name), plan_of(dir, pkg, config).name) != active_env_file_of(base),
        !in_dir(join(env_bin_dir_of(base, name), plan_of(dir, pkg, config).name), shim_bin_dir_of(base)),
    ensures
        ({
            let plan = plan_of(dir, pkg, config);
            let start = crate::rules::begin_install(Mode::Shims, base, dir, pkg);
            let (fs1, d1) = run_on(fs, start.0, start.1, 20);
            let installed = join(env_bin_dir_of(base, name), plan.name);
            &&& finished_with(d1) matches Some(Ok(_))
            &&& fs1.files.dom().contains(installed)
            &&& fs1.files[installed] == fs.builds[dir][plan.binary]
            &&& shims_mirror(fs1, shim_bin_dir_of(base), env_bin_dir_of(base, name))
        }),
{
    lemma_store_layout(base);
    lemma_env_bin_proper(base, name);
    let plan = plan_of(dir, pkg, config);
    let bin = env_bin_dir_of(base, name);
    let s0 = SessionView { mode: Mode::Shims, base, phase: PhaseView::Finished };
    let start = crate::rules::begin_install(Mode::Shims, base, dir, pkg);
    // reading the configuration
    lemma_plan(fs, s0, dir, pkg, config);
    let k: nat = if fs.files.dom().contains(config_file(dir)) { 3 } else { 2 };
    let p = planned(s0, plan);
    // building
    lemma_build(fs, s0, plan);
    let fb = built(fs, dir);
    assert(records(fb, base, name));
    let inst = AfterResolveView::Install { plan };
    let rn = read_active_name(s0, AfterNameView::Resolve { then: inst });
    // finding the active bin directory
    lemma_resolve_recorded(fb, s0, name, inst);
    let rv = resolved(s0, bin, inst);
    // copying
    lemma_copy(fb, s0, plan, bin);
    let fc = copied(fb, plan, bin);
    let installed = join(bin, plan.name);
    assert(records(fc, base, name));
    vstd::set_lib::lemma_set_union_finite_iff(fs.files.dom(), fs.builds[dir].dom());
    assert(fb.files.dom() =~= fs.files.dom().union(fs.builds[dir].dom()));
    assert(finite_fs(fc));
    // refreshing the shims
    let then = AfterSyncView::PkgInstalled { name: plan.name, installed };
    let rn2 = read_active_name(s0, AfterNameView::Resolve { then: AfterResolveView::Sync { then } });
    lemma_resolve_recorded(fc, s0, name, AfterResolveView::Sync { then });
    let rv2 = resolved(s0, bin, AfterResolveView::Sync { then });
    lemma_sync_to_end(fc, s0, bin, then, (3 - k) as nat);
    // putting the parts together
    lemma_run_split(fc, rn2.0, rn2.1, 3, (9 - k) as nat);
    lemma_run_split(fb, rv.0, rv.1, 3, (12 - k) as nat);
    lemma_run_split(fb, rn.0, rn.1, 3, (15 - k) as nat);
    lemma_run_split(fs, p.0, p.1, 2, (18 - k) as nat);
    lemma_run_split(fs, start.0, start.1, k, (20 - k) as nat);
    assert(k + (20 - k) as nat == 20);
}

/// With shims, removing the active environment falls back to the root:
/// after `env remove name` on a store whose record names the existing
/// environment `name`, the environment and the record are gone, the active
/// bin directory is the root one, and the shim directory holds exactly one
/// shim per file of the root bin directory. Holds on a store in which the
/// record's path is not a directory, unless the environment's directory is
/// the shim directory itself.
pub proof fn law_shims_remove_active_env(
    fs: FsModel,
    base: Seq<char>,
    name: Seq<char>,
    command: Commands,
)
    requires
        finite_fs(fs),
        records(fs, base, name),
        fs.dirs.contains(env_dir_of(base, name)),
        !fs.dirs.contains(active_env_file_of(base)),
        env_dir_of(base, name) != shim_bin_dir_of(base),
        command matches Commands::Env { command: crate::cli::EnvCommand::Remove { path } } && path@
            == name,
    ensures
        ({
            let remove = begin(Mode::Shims, base, command);
            let (fs1, d1) = run_on(fs, remove.0, remove.1, 13);
            let get = crate::rules::begin_active_bin(Mode::Shims, base);
            &&& finished_with(d1) matches Some(Ok(_))
            &&& !fs1.files.dom().contains(active_env_file_of(base))
            &&& !fs1.dirs.contains(env_dir_of(base, name))
            &&& shims_mirror(fs1, shim_bin_dir_of(base), root_bin_dir_of(base))
            &&& finished_with(run_on(fs1, get.0, get.1, 4).1) == Some(
                Ok::<OutcomeView, Seq<char>>(OutcomeView::BinDir { path: root_bin_dir_of(base) }),
            )
        }),
{
    lemma_store_layout(base);
    let s0 = SessionView { mode: Mode::Shims, base, phase: PhaseView::Finished };
    let remove = begin(Mode::Shims, base, command);
    lemma_remove_active(fs, Mode::Shims, base, name, command);
    let fr = run_steps(fs, remove.0, remove.1, 6).0;
    let then = AfterSyncView::EnvRemoved { name };
    let rn = read_active_name(s0, AfterNameView::Resolve { then: AfterResolveView::Sync { then } });
    lemma_resolve_root(fr, s0, AfterResolveView::Sync { then });
    let root = root_bin_dir_of(base);
    let rv = resolved(s0, root, AfterResolveView::Sync { then });
    lemma_sync_to_end(fr, s0, root, then, 0);
    lemma_run_split(fr, rn.0, rn.1, 1, 6);
    lemma_run_split(fs, remove.0, remove.1, 6, 7);
    let fs1 = run_steps(fr, rv.0, rv.1, 6).0;
    assert(!fs1.files.dom().contains(active_env_file_of(base)));
    lemma_active_bin_root(fs1, Mode::Shims, base);
}

/// With shims, removing a package: on a store on which reading the active
/// environment succeeds and whose active bin directory holds the package's
/// binary, `pkg remove` removes that binary, and the shim directory then
/// holds exactly one shim per file left in the active bin directory, so
/// none for a package whose name holds no `/`. Holds unless the active bin
/// directory is the shim directory itself or the binary's path is the
/// record's or lies in the shim directory.
pub proof fn law_shims_remove_pkg(
    fs: FsModel,
    base: Seq<char>,
    name: Option<Seq<char>>,
    command: Commands,
    pkg: Seq<char>,
)
    requires
        finite_fs(fs),
        resolves(fs, base, name),
        active_source(base, name) != shim_bin_dir_of(base),
        command matches Commands::Pkg { command: crate::cli::PkgCommand::Remove { path } }
            && crate::pkg::removal_name_spec(path@) == Ok::<Seq<char>, Seq<char>>(pkg),
        fs.files.dom().contains(join(active_source(base, name), pkg)),
        join(active_source(base, name), pkg) != active_env_file_of(base),
        !in_dir(join(active_source(base, name), pkg), shim_bin_dir_of(base)),
    ensures
        ({
            let remove = begin(Mode::Shims, base, command);
            let (fs1, d1) = run_on(fs, remove.0, remove.1, 14);
            let shim = shim_bin_dir_of(base);
            &&& finished_with(d1) matches Some(Ok(_))
            &&& !fs1.files.dom().contains(join(active_source(base, name), pkg))
            &&& plain(pkg) ==> !fs1.files.dom().contains(join(shim, pkg))
            &&& shims_mirror(fs1, shim, active_source(base, name))
        }),
{
    let s0 = SessionView { mode: Mode::Shims, base, phase: PhaseView::Finished };
    let source = active_source(base, name);
    let shim = shim_bin_dir_of(base);
    lemma_store_layout(base);
    if let Some(n) = name {
        lemma_env_bin_proper(base, n);
    }
    let remove = begin(Mode::Shims, base, command);
    let k = resolve_steps(fs, base, name);
    let rp = AfterResolveView::RemovePkg { name: pkg };
    lemma_resolve_active(fs, s0, name, rp);
    let rv = resolved(s0, source, rp);
    let installed = join(source, pkg);
    // the binary is there, and is removed
    let (f1, e1) = answer(fs, rv.1.action);
    let (s1, d1) = next(rv.0, e1);
    let (f2, e2) = answer(f1, d1.action);
    let (s2, d2) = next(s1, e2);
    let then = AfterSyncView::PkgRemoved { name: pkg, installed };
    let st = sync_then(s0, then);
    assert((s2, d2) == st);
    assert(run_steps(f2, s2, d2, 0) == (f2, st.0, st.1));
    assert(run_steps(f1, s1, d1, 1) == (f2, st.0, st.1));
    assert(run_steps(fs, rv.0, rv.1, 2) == (f2, st.0, st.1));
    assert(resolves(f2, base, name));
    assert(resolve_steps(f2, base, name) == k);
    // the shims are refreshed
    lemma_resolve_active(f2, s0, name, AfterResolveView::Sync { then });
    let rv2 = resolved(s0, source, AfterResolveView::Sync { then });
    lemma_sync_to_end(f2, s0, source, then, (6 - 2 * k) as nat);
    lemma_run_split(f2, st.0, st.1, k, (12 - 2 * k) as nat);
    lemma_run_split(fs, rv.0, rv.1, 2, (12 - k) as nat);
    lemma_run_split(fs, remove.0, remove.1, k, (14 - k) as nat);
    assert(k + (14 - k) as nat == 14);
    let fs1 = run_steps(f2, rv2.0, rv2.1, (12 - 2 * k) as nat).0;
    assert(!fs1.files.dom().contains(installed));
    assert(plain(pkg) ==> !fs1.files.dom().contains(join(shim, pkg)));
}

// ----- commands in the direct mode -----
/// Switching environments: once `env set name` has run on a store in which
/// the environment `name` exists, the active bin directory is that
/// environment's bin directory. Holds for every name that is non-empty and
/// neither starts nor ends with white space.
pub proof fn law_set_env_switches_active_bin_dir(
    fs: FsModel,
    base: Seq<char>,
    name: Seq<char>,
    command: Commands,
)
    requires
        name.len() > 0,
        is_trimmed(name),
        fs.dirs.contains(env_dir_of(base, name)),
        command matches Commands::Env { command: crate::cli::EnvCommand::Select { path } } && path@
            == name,
    ensures
        ({
            let set = begin(Mode::Direct, base, command);
            let (fs1, d1) = run_on(fs, set.0, set.1, 4);
            let get = crate::rules::begin_active_bin(Mode::Direct, base);
            &&& finished_with(d1) matches Some(Ok(_))
            &&& finished_with(run_on(fs1, get.0, get.1, 4).1) == Some(
                Ok::<OutcomeView, Seq<char>>(OutcomeView::BinDir { path: env_bin_dir_of(base, name) }),
            )
        }),
{
    let set = begin(Mode::Direct, base, command);
    lemma_select(fs, Mode::Direct, base, name, command);
    lemma_run_split(fs, set.0, set.1, 3, 1);
    law_selected_name_reads_back(name);
    lemma_active_bin_recorded(run_steps(fs, set.0, set.1, 3).0, Mode::Direct, base, name);
}

/// Activation follows the active environment: after `env set name` on a
/// store in which that environment exists, the activation line of the
/// direct mode appends that environment's bin directory to `PATH`. Holds
/// for every name that is non-empty and neither starts nor ends with white
/// space.
pub proof fn law_set_env_then_activate(
    fs: FsModel,
    base: Seq<char>,
    name: Seq<char>,
    command: Commands,
    shell: ActivateCommand,
)
    requires
        name.len() > 0,
        is_trimmed(name),
        fs.dirs.contains(env_dir_of(base, name)),
        command matches Commands::Env { command: crate::cli::EnvCommand::Select { path } } && path@
            == name,
    ensures
        ({
            let set = begin(Mode::Direct, base, command);
            let (fs1, d1) = run_on(fs, set.0, set.1, 4);
            let act = begin(Mode::Direct, base, Commands::Activate { command: shell });
            let (fs2, d2) = run_on(fs1, act.0, act.1, 4);
            &&& finished_with(d1) matches Some(Ok(_))
            &&& finished_with(d2) == Some(
                Ok::<OutcomeView, Seq<char>>(
                    OutcomeView::Script { text: direct_activation(env_bin_dir_of(base, name), shell) },
                ),
            )
        }),
{
    let s0 = SessionView { mode: Mode::Direct, base, phase: PhaseView::Finished };
    let set = begin(Mode::Direct, base, command);
    lemma_select(fs, Mode::Direct, base, name, command);
    lemma_run_split(fs, set.0, set.1, 3, 1);
    let fs1 = run_steps(fs, set.0, set.1, 3).0;
    let act = begin(Mode::Direct, base, Commands::Activate { command: shell });
    law_selected_name_reads_back(name);
    lemma_resolve_recorded(fs1, s0, name, AfterResolveView::Activate { shell });
    lemma_run_split(fs1, act.0, act.1, 3, 1);
}

/// Installing follows the active environment: on a store whose record names
/// the existing environment `name`, building the package in `dir` (as its
/// `build.toml`, if any, configures it) and installing it puts the binary
/// that the build left into that environment's bin directory, under the
/// configured name or else the package's own. Holds for builds that leave
/// the record alone.
pub proof fn law_install_lands_in_active_env(
    fs: FsModel,
    base: Seq<char>,
    name: Seq<char>,
    dir: Seq<char>,
    pkg: Seq<char>,
    config: BuildConfigView,
)
    requires
        records(fs, base, name),
        fs.dirs.contains(env_dir_of(base, name)),
        fs.dirs.contains(dir),
        configures(fs, dir, config),
        fs.files.dom().contains(plan_of(dir, pkg, config).script),
        fs.builds.dom().contains(dir),
        fs.builds[dir].dom().contains(plan_of(dir, pkg, config).binary),
        !fs.builds[dir].dom().contains(active_env_file_of(base)),
    ensures
        ({
            let plan = plan_of(dir, pkg, config);
            let start = crate::rules::begin_install(Mode::Direct, base, dir, pkg);
            let (fs1, d1) = run_on(fs, start.0, start.1, 11);
            let installed = join(env_bin_dir_of(base, name), plan.name);
            &&& finished_with(d1) matches Some(Ok(_))
            &&& fs1.files.dom().contains(installed)
            &&& fs1.files[installed] == fs.builds[dir][plan.binary]
        }),
{
    let plan = plan_of(dir, pkg, config);
    let bin = env_bin_dir_of(base, name);
    let s0 = SessionView { mode: Mode::Direct, base, phase: PhaseView::Finished };
    let start = crate::rules::begin_install(Mode::Direct, base, dir, pkg);
    lemma_plan(fs, s0, dir, pkg, config);
    let k: nat = if fs.files.dom().contains(config_file(dir)) { 3 } else { 2 };
    let p = planned(s0, plan);
    lemma_build(fs, s0, plan);
    let fb = built(fs, dir);
    assert(records(fb, base, name));
    let inst = AfterResolveView::Install { plan };
    let rn = read_active_name(s0, AfterNameView::Resolve { then: inst });
    lemma_resolve_recorded(fb, s0, name, inst);
    let rv = resolved(s0, bin, inst);
    lemma_copy(fb, s0, plan, bin);
    let fc = copied(fb, plan, bin);
    let fin = sync_then(
        s0,
        AfterSyncView::PkgInstalled { name: plan.name, installed: join(bin, plan.name) },
    );
    lemma_run_finished(fc, fin.0, fin.1, (3 - k) as nat);
    lemma_run_split(fb, rv.0, rv.1, 3, (3 - k) as nat);
    lemma_run_split(fb, rn.0, rn.1, 3, (6 - k) as nat);
    lemma_run_split(fs, p.0, p.1, 2, (9 - k) as nat);
    lemma_run_split(fs, start.0, start.1, k, (11 - k) as nat);
    assert(k + (11 - k) as nat == 11);
}

/// Packages go to the environment last selected: after `env set name` on a
/// store in which that environment exists, building the package in `dir`
/// and installing it puts the built binary into the bin directory of
/// `name`. Holds for every name that is non-empty and neither starts nor
/// ends with white space, and for builds that leave the record alone.
pub proof fn law_set_env_then_install(
    fs: FsModel,
    base: Seq<char>,
    name: Seq<char>,
    command: Commands,
    dir: Seq<char>,
    pkg: Seq<char>,
    config: BuildConfigView,
)
    requires
        name.len() > 0,
        is_trimmed(name),
        fs.dirs.contains(env_dir_of(base, name)),
        command matches Commands::Env { command: crate::cli::EnvCommand::Select { path } } && path@
            == name,
        fs.dirs.contains(dir),
        configures(fs, dir, config),
        fs.files.dom().contains(plan_of(dir, pkg, config).script),
        fs.builds.dom().contains(dir),
        fs.builds[dir].dom().contains(plan_of(dir, pkg, config).binary),
        !fs.builds[dir].dom().contains(active_env_file_of(base)),
    ensures
        ({
            let plan = plan_of(dir, pkg, config);
            let set = begin(Mode::Direct, base, command);
            let (fs1, d1) = run_on(fs, set.0, set.1, 4);
            let start = crate::rules::begin_install(Mode::Direct, base, dir, pkg);
            let (fs2, d2) = run_on(fs1, start.0, start.1, 11);
            let installed = join(env_bin_dir_of(base, name), plan.name);
            &&& finished_with(d1) matches Some(Ok(_))
            &&& finished_with(d2) matches Some(Ok(_))
            &&& fs2.files.dom().contains(installed)
            &&& fs2.files[installed] == fs.builds[dir][plan.binary]
        }),
{
    let set = begin(Mode::Direct, base, command);
    lemma_select(fs, Mode::Direct, base, name, command);
    lemma_run_split(fs, set.0, set.1, 3, 1);
    let fs1 = run_steps(fs, set.0, set.1, 3).0;
    assert(config_file(dir) != active_env_file_of(base)) by {
        reveal_strlit("build.toml");
        reveal_strlit("active-env");
        assert(config_file(dir).last() == 'l');
        assert(active_env_file_of(base).last() == 'v');
    }
    assert(configures(fs1, dir, config));
    law_selected_name_reads_back(name);
    law_install_lands_in_active_env(fs1, base, name, dir, pkg, config);
}

/// Removing the active environment falls back to the root: after
/// `env remove name` on a store whose record names the existing environment
/// `name`, the environment and the record are gone and the active bin
/// directory is the root one again. Holds on a store in which the record's
/// path is not a directory.
pub proof fn law_removing_active_env_falls_back_to_root(
    fs: FsModel,
    base: Seq<char>,
    name: Seq<char>,
    command: Commands,
)
    requires
        records(fs, base, name),
        fs.dirs.contains(env_dir_of(base, name)),
        !fs.dirs.contains(active_env_file_of(base)),
        command matches Commands::Env { command: crate::cli::EnvCommand::Remove { path } } && path@
            == name,
    ensures
        ({
            let remove = begin(Mode::Direct, base, command);
            let (fs1, d1) = run_on(fs, remove.0, remove.1, 7);
            let get = crate::rules::begin_active_bin(Mode::Direct, base);
            &&& finished_with(d1) matches Some(Ok(_))
            &&& !fs1.files.dom().contains(active_env_file_of(base))
            &&& !fs1.dirs.contains(env_dir_of(base, name))
            &&& finished_with(run_on(fs1, get.0, get.1, 4).1) == Some(
                Ok::<OutcomeView, Seq<char>>(OutcomeView::BinDir { path: root_bin_dir_of(base) }),
            )
        }),
{
    let remove = begin(Mode::Direct, base, command);
    lemma_remove_active(fs, Mode::Direct, base, name, command);
    lemma_run_split(fs, remove.0, remove.1, 6, 1);
    lemma_active_bin_root(run_steps(fs, remove.0, remove.1, 6).0, Mode::Direct, base);
}

// ----- package sources and builds -----
/// Adding `user/repo@github` asks, once the cache directory `<base>/tmp` is
/// made, whether `<base>/tmp/<repo>` is there; when it is not, it clones
/// `https://github.com/<user>/<repo>` into it, and when it is, it opens
/// that repository. Holds for every non-empty user without `/` and every
/// non-empty repo.
pub proof fn law_github_clone_url(
    mode: Mode,
    base: Seq<char>,
    command: Commands,
    user: Seq<char>,
    repo: Seq<char>,
)
    requires
        user.len() > 0,
        repo.len() > 0,
        !has_char(user, '/'),
        command matches Commands::Pkg { command: crate::cli::PkgCommand::Add { path } } && path@
            == user + "/"@ + repo + "@github"@,
    ensures
        ({
            let start = begin(mode, base, command);
            let check = next(start.0, EventView::Done);
            let clone_dir = join(join(base, "tmp"@), repo);
            &&& start.1.action == ActionView::CreateDirAll { path: join(base, "tmp"@) }
            &&& check.1.action == ActionView::Exists { path: clone_dir }
            &&& next(check.0, EventView::Answer { yes: false }).1.action
                == ActionView::CloneRepository {
                url: "https://github.com/"@ + user + "/"@ + repo,
                path: clone_dir,
            }
            &&& next(check.0, EventView::Answer { yes: true }).1.action
                == ActionView::OpenRepository { path: clone_dir }
        }),
{
    crate::pkg::law_github_spec_round_trip(user, repo);
}

/// The directory of the package `pkg` in the clone of the sloxpkgs
/// registry of the store at `base`.
pub open spec fn registry_package_dir(base: Seq<char>, pkg: Seq<char>) -> Seq<char> {
    join(join(join(base, "tmp"@), "std-pkg"@), pkg)
}

/// Once the package's submodule is updated, the registry check looks at
/// `<base>/tmp/std-pkg/<pkg>`; once it says that directory is there, that
/// same directory is the package directory that is checked, configured and
/// built.
pub proof fn law_registry_package_is_built_from_its_dir(s: SessionView, pkg: Seq<char>)
    ensures
        ({
            let dir = registry_package_dir(s.base, pkg);
            let found = next(
                at(s, PhaseView::SubmoduleUpdate { pkg }),
                EventView::Done,
            );
            let yes = next(at(s, PhaseView::RegistryCheck { pkg }), EventView::Answer { yes: true });
            &&& found.1.action == ActionView::IsDir { path: dir }
            &&& yes.0.phase == PhaseView::PackageDirCheck { dir, name: pkg }
            &&& yes.1.action == ActionView::IsDir { path: dir }
            &&& next(yes.0, EventView::Answer { yes: true }).1.action == ActionView::IsFile {
                path: join(dir, "build.toml"@),
            }
        }),
{
}

/// Adding `pkg@sloxpkgs` from a registry clone that is already there: the
/// package is built in the registry's directory for it,
/// `<base>/tmp/std-pkg/<pkg>`, and the binary that build leaves is
/// installed into the active environment's bin directory, under the
/// configured name or else `pkg`. Holds for builds that leave the record
/// alone.
pub proof fn law_registry_install(
    fs: FsModel,
    base: Seq<char>,
    command: Commands,
    pkg: Seq<char>,
    name: Seq<char>,
    config: BuildConfigView,
)
    requires
        command matches Commands::Pkg { command: crate::cli::PkgCommand::Add { path } } && path@
            == pkg + "@sloxpkgs"@,
        fs.dirs.contains(join(join(base, "tmp"@), "std-pkg"@)),
        records(fs, base, name),
        fs.dirs.contains(env_dir_of(base, name)),
        fs.dirs.contains(registry_package_dir(base, pkg)),
        configures(fs, registry_package_dir(base, pkg), config),
        fs.files.dom().contains(plan_of(registry_package_dir(base, pkg), pkg, config).script),
        fs.builds.dom().contains(registry_package_dir(base, pkg)),
        fs.builds[registry_package_dir(base, pkg)].dom().contains(
            plan_of(registry_package_dir(base, pkg), pkg, config).binary,
        ),
        !fs.builds[registry_package_dir(base, pkg)].dom().contains(active_env_file_of(base)),
    ensures
        ({
            let dir = registry_package_dir(base, pkg);
            let plan = plan_of(dir, pkg, config);
            let start = begin(Mode::Direct, base, command);
            let (fs1, d1) = run_on(fs, start.0, start.1, 16);
            let installed = join(env_bin_dir_of(base, name), plan.name);
            &&& finished_with(d1) matches Some(Ok(_))
            &&& fs1.files.dom().contains(installed)
            &&& fs1.files[installed] == fs.builds[dir][plan.binary]
        }),
{
    crate::pkg::law_registry_spec_round_trip(pkg);
    let dir = registry_package_dir(base, pkg);
    let start = begin(Mode::Direct, base, command);
    let s0 = SessionView { mode: Mode::Direct, base, phase: PhaseView::Finished };
    // the cache is made, the registry clone found and opened, the
    // package's submodule updated and its directory found
    let (f1, e1) = answer(fs, start.1.action);
    let (s1, d1) = next(start.0, e1);
    let (f2, e2) = answer(f1, d1.action);
    let (s2, d2) = next(s1, e2);
    let (f3, e3) = answer(f2, d2.action);
    let (s3, d3) = next(s2, e3);
    let (f4, e4) = answer(f3, d3.action);
    let (s4, d4) = next(s3, e4);
    let (f5, e5) = answer(f4, d4.action);
    let (s5, d5) = next(s4, e5);
    let inst = crate::rules::begin_install(Mode::Direct, base, dir, pkg);
    assert((s5, d5) == inst);
    assert(run_steps(f5, s5, d5, 11) == run_steps(f5, inst.0, inst.1, 11));
    assert(run_steps(f4, s4, d4, 12) == run_steps(f5, s5, d5, 11));
    assert(run_steps(f3, s3, d3, 13) == run_steps(f4, s4, d4, 12));
    assert(run_steps(f2, s2, d2, 14) == run_steps(f3, s3, d3, 13));
    assert(run_steps(f1, s1, d1, 15) == run_steps(f2, s2, d2, 14));
    assert(run_steps(fs, start.0, start.1, 16) == run_steps(f1, s1, d1, 15));
    assert(configures(f5, dir, config));
    law_install_lands_in_active_env(f5, base, name, dir, pkg, config);
}

/// Building runs the script that was checked: once the build script of
/// `plan` is found, the build runs that very script, `plan.script`, inside
/// `plan.dir`; the script is the configured one or else `<dir>/build`.
pub proof fn law_build_runs_checked_script(s: SessionView, plan: BuildPlanView)
    ensures
        next(at(s, PhaseView::BuildScriptCheck { plan }), EventView::Answer { yes: true }).1.action
            == (ActionView::RunBuildScript { dir: plan.dir, script: plan.script }),
{
}

/// The script that building the package `pkg` in `dir` runs: the one its
/// `build.toml` names, inside `dir`, else `<dir>/build`.
pub proof fn law_configured_script_is_run(dir: Seq<char>, pkg: Seq<char>, config: BuildConfigView)
    ensures
        config.script is Some ==> plan_of(dir, pkg, config).script == join(
            dir,
            config.script->0,
        ),
        config.script is None ==> plan_of(dir, pkg, config).script == join(dir, "build"@),
        plan_of(dir, pkg, config).dir == dir,
{
}

} // verus!
