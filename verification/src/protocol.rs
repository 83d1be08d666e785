//! The exchange between a running command and the world it acts on: the
//! actions that a command asks for, and the events that report how each
//! action went.
use crate::term::{texts, Report, ReportView};
use vstd::prelude::*;

verus! {

/// How binaries are put on `PATH`.
#[derive(Clone, Copy, Debug)]
pub enum Mode {
    /// The activation line appends the active bin directory itself; no
    /// shims are kept, and progress is reported as colored lines.
    Direct,
    /// A shim directory always mirrors the active bin directory and is put
    /// first on `PATH`; each command ends with a report.
    Shims,
}

/// One entry of a directory listing.
#[derive(Debug)]
pub enum DirItem {
    /// An entry with its full path, its file name and whether it is a
    /// regular file.
    Item { path: String, name: String, is_file: bool },
    /// An entry that could not be inspected.
    Unreadable { error: String },
}

pub enum DirItemView {
    Item { path: Seq<char>, name: Seq<char>, is_file: bool },
    Unreadable { error: Seq<char> },
}

impl View for DirItem {
    type V = DirItemView;

    open spec fn view(&self) -> DirItemView {
        match self {
            DirItem::Item { path, name, is_file } => DirItemView::Item {
                path: path@,
                name: name@,
                is_file: *is_file,
            },
            DirItem::Unreadable { error } => DirItemView::Unreadable { error: error@ },
        }
    }
}

/// The views of the entries of a listing.
pub open spec fn item_views(v: Seq<DirItem>) -> Seq<DirItemView> {
    v.map_values(|d: DirItem| d@)
}

/// The step of making a shim that failed.
#[derive(Clone, Copy, Debug)]
pub enum ShimStage {
    /// Writing the script.
    Write,
    /// Reading the permissions of the written script.
    Inspect,
    /// Marking the script executable (mode 0o755).
    Mark,
}

/// A shim to write: its path, the binary it runs and its script.
#[derive(Debug)]
pub struct ShimFile {
    pub path: String,
    pub target: String,
    pub script: String,
}

pub struct ShimFileView {
    pub path: Seq<char>,
    pub target: Seq<char>,
    pub script: Seq<char>,
}

impl View for ShimFile {
    type V = ShimFileView;

    open spec fn view(&self) -> ShimFileView {
        ShimFileView { path: self.path@, target: self.target@, script: self.script@ }
    }
}

/// How an action went.
#[derive(Debug)]
pub enum Event {
    /// The action succeeded and has nothing to tell.
    Done,
    /// The action failed with the given error text.
    Failed { error: String },
    /// The answer to a yes-or-no question about the file system.
    Answer { yes: bool },
    /// The contents of a file that was read.
    Text { text: String },
    /// The entries of a directory, in the order the directory gave them.
    Listing { items: Vec<DirItem> },
    /// Removing a batch of files stopped at `path` with `error`.
    Stopped { path: String, error: String },
    /// Writing a batch of shims stopped at `path` during `stage`.
    ShimFailed { path: String, stage: ShimStage, error: String },
    /// A build script ran and exited; its output streams are given as text.
    BuildExited { success: bool, stdout: String, stderr: String },
    /// Updating a registry submodule failed; `url` is the submodule's URL
    /// when it has one.
    SubmoduleFailed { url: Option<String>, error: String },
}

pub enum EventView {
    Done,
    Failed { error: Seq<char> },
    Answer { yes: bool },
    Text { text: Seq<char> },
    Listing { items: Seq<DirItemView> },
    Stopped { path: Seq<char>, error: Seq<char> },
    ShimFailed { path: Seq<char>, stage: ShimStage, error: Seq<char> },
    BuildExited { success: bool, stdout: Seq<char>, stderr: Seq<char> },
    SubmoduleFailed { url: Option<Seq<char>>, error: Seq<char> },
}

impl View for Event {
    type V = EventView;

    open spec fn view(&self) -> EventView {
        match self {
            Event::Done => EventView::Done,
            Event::Failed { error } => EventView::Failed { error: error@ },
            Event::Answer { yes } => EventView::Answer { yes: *yes },
            Event::Text { text } => EventView::Text { text: text@ },
            Event::Listing { items } => EventView::Listing { items: item_views(items@) },
            Event::Stopped { path, error } => EventView::Stopped { path: path@, error: error@ },
            Event::ShimFailed { path, stage, error } => EventView::ShimFailed {
                path: path@,
                stage: *stage,
                error: error@,
            },
            Event::BuildExited { success, stdout, stderr } => EventView::BuildExited {
                success: *success,
                stdout: stdout@,
                stderr: stderr@,
            },
            Event::SubmoduleFailed { url, error } => EventView::SubmoduleFailed {
                url: match url {
                    Some(u) => Some(u@),
                    None => None,
                },
                error: error@,
            },
        }
    }
}

/// What a command ends with when it succeeds.
#[derive(Debug)]
pub enum Outcome {
    /// Nothing more to show.
    Quiet,
    /// A script to print on standard output.
    Script { text: String },
    /// A report to show once the progress indicator stops.
    Report { report: Report },
    /// The name of the active environment, if one is recorded.
    ActiveEnv { name: Option<String> },
    /// The active bin directory.
    BinDir { path: String },
}

pub enum OutcomeView {
    Quiet,
    Script { text: Seq<char> },
    Report { report: ReportView },
    ActiveEnv { name: Option<Seq<char>> },
    BinDir { path: Seq<char> },
}

impl View for Outcome {
    type V = OutcomeView;

    open spec fn view(&self) -> OutcomeView {
        match self {
            Outcome::Quiet => OutcomeView::Quiet,
            Outcome::Script { text } => OutcomeView::Script { text: text@ },
            Outcome::Report { report } => OutcomeView::Report { report: report@ },
            Outcome::ActiveEnv { name } => OutcomeView::ActiveEnv {
                name: match name {
                    Some(n) => Some(n@),
                    None => None,
                },
            },
            Outcome::BinDir { path } => OutcomeView::BinDir { path: path@ },
        }
    }
}

/// Something a command asks the world to do.
#[derive(Debug)]
pub enum Action {
    CreateDirAll { path: String },
    RemoveDirAll { path: String },
    RemoveFile { path: String },
    /// Remove each file in order; stop at the first that fails.
    RemoveFiles { paths: Vec<String> },
    WriteFile { path: String, contents: String },
    /// Write each shim and mark it executable, in order; stop at the first
    /// that fails. Each target comes from a listing of the active bin
    /// directory; that it still exists is checked by the program that does
    /// the writing, which stops with `Requested path is not available:` and
    /// the target when it does not.
    WriteShims { shims: Vec<ShimFile> },
    CopyFile { from: String, to: String },
    ReadToString { path: String },
    Exists { path: String },
    IsDir { path: String },
    IsFile { path: String },
    /// List the entries of a directory.
    ListDir { path: String },
    /// Run the build script `script` with `bash`, inside `dir`.
    RunBuildScript { dir: String, script: String },
    OpenRepository { path: String },
    CloneRepository { url: String, path: String },
    /// Initialize and update the submodule `name` of the repository that
    /// was opened or cloned last, if that repository has one.
    UpdateSubmodule { name: String },
    /// The command is over.
    Finish { result: Result<Outcome, String> },
}

pub enum ActionView {
    CreateDirAll { path: Seq<char> },
    RemoveDirAll { path: Seq<char> },
    RemoveFile { path: Seq<char> },
    RemoveFiles { paths: Seq<Seq<char>> },
    WriteFile { path: Seq<char>, contents: Seq<char> },
    WriteShims { shims: Seq<ShimFileView> },
    CopyFile { from: Seq<char>, to: Seq<char> },
    ReadToString { path: Seq<char> },
    Exists { path: Seq<char> },
    IsDir { path: Seq<char> },
    IsFile { path: Seq<char> },
    ListDir { path: Seq<char> },
    RunBuildScript { dir: Seq<char>, script: Seq<char> },
    OpenRepository { path: Seq<char> },
    CloneRepository { url: Seq<char>, path: Seq<char> },
    UpdateSubmodule { name: Seq<char> },
    Finish { result: Result<OutcomeView, Seq<char>> },
}

/// The views of a list of shims.
pub open spec fn shim_views(v: Seq<ShimFile>) -> Seq<ShimFileView> {
    v.map_values(|f: ShimFile| f@)
}

impl View for Action {
    type V = ActionView;

    open spec fn view(&self) -> ActionView {
        match self {
            Action::CreateDirAll { path } => ActionView::CreateDirAll { path: path@ },
            Action::RemoveDirAll { path } => ActionView::RemoveDirAll { path: path@ },
            Action::RemoveFile { path } => ActionView::RemoveFile { path: path@ },
            Action::RemoveFiles { paths } => ActionView::RemoveFiles { paths: texts(paths@) },
            Action::WriteFile { path, contents } => ActionView::WriteFile {
                path: path@,
                contents: contents@,
            },
            Action::WriteShims { shims } => ActionView::WriteShims { shims: shim_views(shims@) },
            Action::CopyFile { from, to } => ActionView::CopyFile { from: from@, to: to@ },
            Action::ReadToString { path } => ActionView::ReadToString { path: path@ },
            Action::Exists { path } => ActionView::Exists { path: path@ },
            Action::IsDir { path } => ActionView::IsDir { path: path@ },
            Action::IsFile { path } => ActionView::IsFile { path: path@ },
            Action::ListDir { path } => ActionView::ListDir { path: path@ },
            Action::RunBuildScript { dir, script } => ActionView::RunBuildScript {
                dir: dir@,
                script: script@,
            },
            Action::OpenRepository { path } => ActionView::OpenRepository { path: path@ },
            Action::CloneRepository { url, path } => ActionView::CloneRepository {
                url: url@,
                path: path@,
            },
            Action::UpdateSubmodule { name } => ActionView::UpdateSubmodule { name: name@ },
            Action::Finish { result } => ActionView::Finish {
                result: match result {
                    Ok(o) => Ok(o@),
                    Err(e) => Err(e@),
                },
            },
        }
    }
}

/// The next thing to do: lines to show on the error stream first, then an
/// action.
#[derive(Debug)]
pub struct Directive {
    pub notices: Vec<String>,
    pub action: Action,
}

pub struct DirectiveView {
    pub notices: Seq<Seq<char>>,
    pub action: ActionView,
}

impl View for Directive {
    type V = DirectiveView;

    open spec fn view(&self) -> DirectiveView {
        DirectiveView { notices: texts(self.notices@), action: self.action@ }
    }
}

} // verus!
