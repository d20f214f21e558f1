//! The build as a state machine.
//!
//! A build never acts by itself. It hands its driver one [`Action`] at a
//! time; the driver performs it and reports the outcome as an [`Event`], for
//! which [`Build::step`] gives the next action. The driver walks the source
//! tree depth first, directories before what they hold, and follows symbolic
//! links.

use vstd::prelude::*;
use crate::error::{BuildError, RendererFailure};
use crate::outline::{outline_text, synthesize, IndexEntry, IndexEntryView};
use crate::path::{entry_at, is_under, normalize_root, parent, parent_of, trimmed, EntryKind, TreeEntry, TreeEntryView};
use crate::renderer::{decode_output, decoded};
use crate::title::{extract_html_title, title_of};

verus! {

/// The build root where the driver has no other: a directory of this name in
/// the working directory.
pub const BUILD_ROOT: &'static str = "build";

/// The name of the outline document in the build root.
pub const OUTLINE_NAME: &'static str = "/index.adoc";

/// The name of the index page in the build root.
pub const INDEX_NAME: &'static str = "/index.html";

/// What the driver reports of the action it was given.
#[derive(Debug, PartialEq, Eq)]
pub enum Event {
    /// The action was carried out. For `CheckSource`: the source root exists.
    Done,
    /// The file or directory that the action was about does not exist.
    Missing,
    /// What the action was to create is there already.
    Exists,
    /// The action failed in any other way.
    Failed,
    /// The walk has come to the entry `path`, a directory or not.
    Entry { path: String, is_dir: bool },
    /// The walk has no further entry.
    EndOfTree,
    /// The renderer ran: whether it ended in success, and what it wrote to
    /// its standard output.
    Rendered { success: bool, output: Vec<u8> },
    /// The renderer could not be started.
    NotStarted,
}

/// An [`Event`] as a mathematical value.
pub enum EventView {
    Done,
    Missing,
    Exists,
    Failed,
    Entry { path: Seq<char>, is_dir: bool },
    EndOfTree,
    Rendered { success: bool, output: Seq<u8> },
    NotStarted,
}

impl View for Event {
    type V = EventView;

    open spec fn view(&self) -> EventView {
        match self {
            Event::Done => EventView::Done,
            Event::Missing => EventView::Missing,
            Event::Exists => EventView::Exists,
            Event::Failed => EventView::Failed,
            Event::Entry { path, is_dir } => EventView::Entry { path: path@, is_dir: *is_dir },
            Event::EndOfTree => EventView::EndOfTree,
            Event::Rendered { success, output } => EventView::Rendered { success: *success, output: output@ },
            Event::NotStarted => EventView::NotStarted,
        }
    }
}

/// What the driver is to do next.
#[derive(Debug, PartialEq, Eq)]
pub enum Action {
    /// See whether the source root `path` exists.
    CheckSource { path: String },
    /// Remove the directory `path` and all that it holds.
    RemoveTree { path: String },
    /// Take the next entry of the walk through the source tree.
    NextEntry,
    /// Create the directory `path`.
    CreateDir { path: String },
    /// Run the renderer on `document`, with `working_dir` as its working
    /// directory, and capture its standard output.
    Render { document: String, working_dir: String },
    /// Write `text` to the file `path`.
    WriteFile { path: String, text: String },
    /// Copy the file `from` to `to`, byte for byte.
    CopyFile { from: String, to: String },
    /// Remove the file `path`.
    RemoveFile { path: String },
    /// Nothing: the build is complete.
    Finish,
    /// Nothing: the build has failed with `error`.
    Abort { error: BuildError },
}

/// An [`Action`] as a mathematical value.
pub enum ActionView {
    CheckSource { path: Seq<char> },
    RemoveTree { path: Seq<char> },
    NextEntry,
    CreateDir { path: Seq<char> },
    Render { document: Seq<char>, working_dir: Seq<char> },
    WriteFile { path: Seq<char>, text: Seq<char> },
    CopyFile { from: Seq<char>, to: Seq<char> },
    RemoveFile { path: Seq<char> },
    Finish,
    Abort { error: BuildError },
}

impl View for Action {
    type V = ActionView;

    open spec fn view(&self) -> ActionView {
        match self {
            Action::CheckSource { path } => ActionView::CheckSource { path: path@ },
            Action::RemoveTree { path } => ActionView::RemoveTree { path: path@ },
            Action::NextEntry => ActionView::NextEntry,
            Action::CreateDir { path } => ActionView::CreateDir { path: path@ },
            Action::Render { document, working_dir } => ActionView::Render {
                document: document@,
                working_dir: working_dir@,
            },
            Action::WriteFile { path, text } => ActionView::WriteFile { path: path@, text: text@ },
            Action::CopyFile { from, to } => ActionView::CopyFile { from: from@, to: to@ },
            Action::RemoveFile { path } => ActionView::RemoveFile { path: path@ },
            Action::Finish => ActionView::Finish,
            Action::Abort { error } => ActionView::Abort { error: *error },
        }
    }
}

/// Where a build stands: the action whose outcome it waits for.
#[derive(Debug, PartialEq, Eq)]
pub enum Phase {
    /// The source root is being looked for.
    CheckingSource,
    /// The old build tree is being removed.
    Cleaning,
    /// The next entry of the walk is awaited.
    Walking,
    /// A directory is being created in the build tree.
    CreatingDir,
    /// The document `entry` is being rendered.
    RenderingDocument { entry: TreeEntry },
    /// The page of the document `entry` is being written. `title` is what
    /// was found in the page.
    WritingPage { entry: TreeEntry, title: Result<String, BuildError> },
    /// A file is being copied.
    Copying,
    /// The outline is being written.
    WritingOutline,
    /// The outline is being rendered.
    RenderingIndex,
    /// The index page is being written.
    WritingIndex,
    /// The outline is being removed.
    RemovingOutline,
    /// The build is complete.
    Finished,
    /// The build has failed.
    Aborted { error: BuildError },
}

/// A [`Phase`] as a mathematical value.
pub enum PhaseView {
    CheckingSource,
    Cleaning,
    Walking,
    CreatingDir,
    RenderingDocument { entry: TreeEntryView },
    WritingPage { entry: TreeEntryView, title: Result<Seq<char>, BuildError> },
    Copying,
    WritingOutline,
    RenderingIndex,
    WritingIndex,
    RemovingOutline,
    Finished,
    Aborted { error: BuildError },
}

impl View for Phase {
    type V = PhaseView;

    open spec fn view(&self) -> PhaseView {
        match self {
            Phase::CheckingSource => PhaseView::CheckingSource,
            Phase::Cleaning => PhaseView::Cleaning,
            Phase::Walking => PhaseView::Walking,
            Phase::CreatingDir => PhaseView::CreatingDir,
            Phase::RenderingDocument { entry } => PhaseView::RenderingDocument { entry: entry@ },
            Phase::WritingPage { entry, title } => PhaseView::WritingPage {
                entry: entry@,
                title: match title {
                    Ok(t) => Ok(t@),
                    Err(e) => Err(*e),
                },
            },
            Phase::Copying => PhaseView::Copying,
            Phase::WritingOutline => PhaseView::WritingOutline,
            Phase::RenderingIndex => PhaseView::RenderingIndex,
            Phase::WritingIndex => PhaseView::WritingIndex,
            Phase::RemovingOutline => PhaseView::RemovingOutline,
            Phase::Finished => PhaseView::Finished,
            Phase::Aborted { error } => PhaseView::Aborted { error: *error },
        }
    }
}

/// A build under way.
#[derive(Debug, PartialEq, Eq)]
pub struct Build {
    /// The source root, without trailing separators.
    pub source_root: String,
    /// The build root.
    pub build_root: String,
    /// Where the build stands.
    pub phase: Phase,
    /// The entries of the outline so far, in the order of the walk.
    pub entries: Vec<IndexEntry>,
}

/// A [`Build`] as a mathematical value.
pub struct BuildView {
    pub source_root: Seq<char>,
    pub build_root: Seq<char>,
    pub phase: PhaseView,
    pub entries: Seq<IndexEntryView>,
}

impl View for Build {
    type V = BuildView;

    open spec fn view(&self) -> BuildView {
        BuildView {
            source_root: self.source_root@,
            build_root: self.build_root@,
            phase: self.phase@,
            entries: self.entries.deep_view(),
        }
    }
}

impl BuildView {
    /// The build in another phase.
    pub open spec fn at(self, phase: PhaseView) -> BuildView {
        BuildView { phase: phase, ..self }
    }

    /// The build with `entry`, where there is one, at the end of its
    /// outline.
    pub open spec fn listing(self, entry: Option<IndexEntryView>) -> BuildView {
        match entry {
            Some(line) => BuildView { entries: self.entries.push(line), ..self },
            None => self,
        }
    }

    /// The build, failed, and the action that says so.
    pub open spec fn fail(self, error: BuildError) -> (BuildView, ActionView) {
        (self.at(PhaseView::Aborted { error }), ActionView::Abort { error })
    }

    /// The path of the outline document.
    pub open spec fn outline_path(self) -> Seq<char> {
        self.build_root + OUTLINE_NAME@
    }

    /// The path of the index page.
    pub open spec fn index_path(self) -> Seq<char> {
        self.build_root + INDEX_NAME@
    }

    /// What an event that the build does not wait for does to it: it fails,
    /// with `IoError` where the event reports that the action could not be
    /// carried out, and with `OutOfSequence` otherwise.
    pub open spec fn stray(self, event: EventView) -> (BuildView, ActionView) {
        match event {
            EventView::Missing => self.fail(BuildError::IoError),
            EventView::Exists => self.fail(BuildError::IoError),
            EventView::Failed => self.fail(BuildError::IoError),
            _ => self.fail(BuildError::OutOfSequence),
        }
    }

    /// The walk has come to `path`. A path outside the source root is passed
    /// over. A directory is created in the build tree and, unless it is the
    /// source root, gets its line in the outline; a document is rendered;
    /// any other file is copied.
    pub open spec fn visit(self, path: Seq<char>, is_dir: bool) -> (BuildView, ActionView) {
        if !is_under(self.source_root, path) {
            (self.at(PhaseView::Walking), ActionView::NextEntry)
        } else {
            let entry = entry_at(self.source_root, self.build_root, path, is_dir);
            match entry.kind {
                EntryKind::Directory => (
                    self.listing(IndexEntryView::directory(entry)).at(PhaseView::CreatingDir),
                    ActionView::CreateDir { path: entry.target },
                ),
                EntryKind::Document => (
                    self.at(PhaseView::RenderingDocument { entry }),
                    ActionView::Render { document: path, working_dir: parent(entry.target) },
                ),
                EntryKind::Opaque => (
                    self.at(PhaseView::Copying),
                    ActionView::CopyFile { from: path, to: entry.target },
                ),
            }
        }
    }

    /// The renderer has run on the document `entry`. Its page is written
    /// next; a run that gave no page ends the build.
    pub open spec fn page_rendered(self, entry: TreeEntryView, success: bool, output: Seq<u8>) -> (
        BuildView,
        ActionView,
    ) {
        match decoded(success, output) {
            Ok(text) => (
                self.at(PhaseView::WritingPage { entry, title: title_of(text) }),
                ActionView::WriteFile { path: entry.target, text },
            ),
            Err(error) => self.fail(error),
        }
    }

    /// The page of the document `entry` has been written. With its title the
    /// document gets its line in the outline; a page without a title ends
    /// the build.
    pub open spec fn page_written(self, entry: TreeEntryView, title: Result<Seq<char>, BuildError>) -> (
        BuildView,
        ActionView,
    ) {
        match title {
            Ok(t) => (
                self.listing(IndexEntryView::document(entry, t)).at(PhaseView::Walking),
                ActionView::NextEntry,
            ),
            Err(error) => self.fail(error),
        }
    }

    /// The renderer has run on the outline. The index page is written next.
    pub open spec fn index_rendered(self, success: bool, output: Seq<u8>) -> (BuildView, ActionView) {
        match decoded(success, output) {
            Ok(text) => (
                self.at(PhaseView::WritingIndex),
                ActionView::WriteFile { path: self.index_path(), text },
            ),
            Err(error) => self.fail(error),
        }
    }

    /// The build and its next action after `event`.
    pub open spec fn step(self, event: EventView) -> (BuildView, ActionView) {
        match self.phase {
            PhaseView::CheckingSource => match event {
                EventView::Done => (
                    self.at(PhaseView::Cleaning),
                    ActionView::RemoveTree { path: self.build_root },
                ),
                EventView::Missing => self.fail(BuildError::SourceNotFound),
                _ => self.stray(event),
            },
            PhaseView::Cleaning => match event {
                EventView::Done => (self.at(PhaseView::Walking), ActionView::NextEntry),
                EventView::Missing => (self.at(PhaseView::Walking), ActionView::NextEntry),
                EventView::Failed => self.fail(BuildError::BuildTreeError),
                _ => self.stray(event),
            },
            PhaseView::Walking => match event {
                EventView::Entry { path, is_dir } => self.visit(path, is_dir),
                EventView::EndOfTree => (
                    self.at(PhaseView::WritingOutline),
                    ActionView::WriteFile { path: self.outline_path(), text: outline_text(self.entries) },
                ),
                _ => self.stray(event),
            },
            PhaseView::CreatingDir => match event {
                EventView::Done => (self.at(PhaseView::Walking), ActionView::NextEntry),
                EventView::Exists => (self.at(PhaseView::Walking), ActionView::NextEntry),
                EventView::Missing => self.fail(BuildError::BuildTreeError),
                EventView::Failed => self.fail(BuildError::BuildTreeError),
                _ => self.stray(event),
            },
            PhaseView::RenderingDocument { entry } => match event {
                EventView::Rendered { success, output } => self.page_rendered(entry, success, output),
                EventView::NotStarted => self.fail(
                    BuildError::RendererInvocationFailure(RendererFailure::NotStarted),
                ),
                _ => self.stray(event),
            },
            PhaseView::WritingPage { entry, title } => match event {
                EventView::Done => self.page_written(entry, title),
                _ => self.stray(event),
            },
            PhaseView::Copying => match event {
                EventView::Done => (self.at(PhaseView::Walking), ActionView::NextEntry),
                _ => self.stray(event),
            },
            PhaseView::WritingOutline => match event {
                EventView::Done => (
                    self.at(PhaseView::RenderingIndex),
                    ActionView::Render { document: self.outline_path(), working_dir: self.build_root },
                ),
                _ => self.stray(event),
            },
            PhaseView::RenderingIndex => match event {
                EventView::Rendered { success, output } => self.index_rendered(success, output),
                EventView::NotStarted => self.fail(
                    BuildError::RendererInvocationFailure(RendererFailure::NotStarted),
                ),
                _ => self.stray(event),
            },
            PhaseView::WritingIndex => match event {
                EventView::Done => (
                    self.at(PhaseView::RemovingOutline),
                    ActionView::RemoveFile { path: self.outline_path() },
                ),
                _ => self.stray(event),
            },
            PhaseView::RemovingOutline => match event {
                EventView::Done => (self.at(PhaseView::Finished), ActionView::Finish),
                _ => self.stray(event),
            },
            PhaseView::Finished => (self, ActionView::Finish),
            PhaseView::Aborted { error } => (self, ActionView::Abort { error }),
        }
    }
}

/// A build of the source tree at `source` into `build_root`, before anything
/// is done, and its first action.
pub open spec fn initial(source: Seq<char>, build_root: Seq<char>) -> (BuildView, ActionView) {
    (
        BuildView {
            source_root: trimmed(source),
            build_root: build_root,
            phase: PhaseView::CheckingSource,
            entries: Seq::empty(),
        },
        ActionView::CheckSource { path: trimmed(source) },
    )
}

impl Build {
    /// Begins a build of the source tree at `source` into `build_root`.
    /// Trailing separators of `source` are dropped. The first action is to
    /// look for the source root: nothing is removed or written before it is
    /// known to exist.
    pub fn start(source: &str, build_root: &str) -> (first: (Build, Action))
        ensures
            (first.0@, first.1@) == initial(source@, build_root@),
    {
        let source_root = normalize_root(source);
        let path = source_root.clone();
        let build = Build {
            source_root,
            build_root: String::from_str(build_root),
            phase: Phase::CheckingSource,
            entries: Vec::new(),
        };
        assert(build.entries.deep_view() =~= Seq::empty());
        (build, Action::CheckSource { path })
    }

    /// Whether the build has come to its end, complete or failed.
    pub fn is_over(&self) -> (over: bool)
        ensures
            over == (self@.phase is Finished || self@.phase is Aborted),
    {
        match self.phase {
            Phase::Finished => true,
            Phase::Aborted { .. } => true,
            _ => false,
        }
    }

    /// The error with which the build has failed, if it has.
    pub fn failure(&self) -> (error: Option<BuildError>)
        ensures
            error == match self@.phase {
                PhaseView::Aborted { error } => Some(error),
                _ => None,
            },
    {
        match self.phase {
            Phase::Aborted { error } => Some(error),
            _ => None,
        }
    }

    /// The path of the outline document.
    pub fn outline_path(&self) -> (path: String)
        ensures
            path@ == self@.outline_path(),
    {
        let mut path = self.build_root.clone();
        path.append(OUTLINE_NAME);
        path
    }

    /// The path of the index page.
    pub fn index_path(&self) -> (path: String)
        ensures
            path@ == self@.index_path(),
    {
        let mut path = self.build_root.clone();
        path.append(INDEX_NAME);
        path
    }

    fn to(self, phase: Phase, action: Action) -> (next: (Build, Action))
        ensures
            next.0@ == self@.at(phase@),
            next.1@ == action@,
    {
        (
            Build { source_root: self.source_root, build_root: self.build_root, phase, entries: self.entries },
            action,
        )
    }

    fn fail(self, error: BuildError) -> (next: (Build, Action))
        ensures
            (next.0@, next.1@) == self@.fail(error),
    {
        self.to(Phase::Aborted { error }, Action::Abort { error })
    }

    fn stray(self, event: Event) -> (next: (Build, Action))
        ensures
            (next.0@, next.1@) == self@.stray(event@),
    {
        match event {
            Event::Missing => self.fail(BuildError::IoError),
            Event::Exists => self.fail(BuildError::IoError),
            Event::Failed => self.fail(BuildError::IoError),
            _ => self.fail(BuildError::OutOfSequence),
        }
    }

    fn listing(self, entry: Option<IndexEntry>) -> (next: Build)
        ensures
            next@ == self@.listing(entry.deep_view()),
    {
        match entry {
            Some(line) => {
                let mut entries = self.entries;
                let ghost before = entries.deep_view();
                entries.push(line);
                assert(entries.deep_view() =~= before.push(line@));
                Build { source_root: self.source_root, build_root: self.build_root, phase: self.phase, entries }
            },
            None => self,
        }
    }

    fn visit(self, path: String, is_dir: bool) -> (next: (Build, Action))
        ensures
            (next.0@, next.1@) == self@.visit(path@, is_dir),
    {
        match TreeEntry::locate(self.source_root.as_str(), self.build_root.as_str(), path.as_str(), is_dir) {
            None => self.to(Phase::Walking, Action::NextEntry),
            Some(entry) => match entry.kind {
                EntryKind::Directory => {
                    let line = IndexEntry::directory(&entry);
                    self.listing(line).to(Phase::CreatingDir, Action::CreateDir { path: entry.target })
                },
                EntryKind::Document => {
                    let working_dir = parent_of(entry.target.as_str());
                    self.to(Phase::RenderingDocument { entry }, Action::Render { document: path, working_dir })
                },
                EntryKind::Opaque => self.to(Phase::Copying, Action::CopyFile { from: path, to: entry.target }),
            },
        }
    }

    fn page_rendered(self, entry: TreeEntry, success: bool, output: Vec<u8>) -> (next: (Build, Action))
        ensures
            (next.0@, next.1@) == self@.page_rendered(entry@, success, output@),
    {
        match decode_output(success, output) {
            Ok(text) => {
                let title = extract_html_title(text.as_str());
                let path = entry.target.clone();
                self.to(Phase::WritingPage { entry, title }, Action::WriteFile { path, text })
            },
            Err(error) => self.fail(error),
        }
    }

    fn page_written(self, entry: TreeEntry, title: Result<String, BuildError>) -> (next: (Build, Action))
        ensures
            (next.0@, next.1@) == self@.page_written(
                entry@,
                match title {
                    Ok(t) => Ok(t@),
                    Err(e) => Err(e),
                },
            ),
    {
        match title {
            Ok(t) => {
                let line = IndexEntry::document(&entry, t);
                self.listing(line).to(Phase::Walking, Action::NextEntry)
            },
            Err(error) => self.fail(error),
        }
    }

    fn index_rendered(self, success: bool, output: Vec<u8>) -> (next: (Build, Action))
        ensures
            (next.0@, next.1@) == self@.index_rendered(success, output@),
    {
        match decode_output(success, output) {
            Ok(text) => {
                let path = self.index_path();
                self.to(Phase::WritingIndex, Action::WriteFile { path, text })
            },
            Err(error) => self.fail(error),
        }
    }

    /// Takes the outcome of the last action and gives the next one.
    ///
    /// An outcome that the last action cannot have ends the build, and so
    /// does every failure but two: that the old build tree was not there to
    /// be removed, and that a directory to be created was there already.
    /// Where the old build tree cannot be removed, or a directory of the new
    /// one cannot be created, the error is `BuildTreeError`; any other
    /// failure of the file system is an `IoError`. A build that is over
    /// stays as it is.
    pub fn step(self, event: Event) -> (next: (Build, Action))
        ensures
            (next.0@, next.1@) == self@.step(event@),
    {
        let Build { source_root, build_root, phase, entries } = self;
        let build = Build { source_root, build_root, phase: Phase::Walking, entries };
        match phase {
            Phase::CheckingSource => match event {
                Event::Done => {
                    let path = build.build_root.clone();
                    build.to(Phase::Cleaning, Action::RemoveTree { path })
                },
                Event::Missing => build.fail(BuildError::SourceNotFound),
                other => build.stray(other),
            },
            Phase::Cleaning => match event {
                Event::Done => build.to(Phase::Walking, Action::NextEntry),
                Event::Missing => build.to(Phase::Walking, Action::NextEntry),
                Event::Failed => build.fail(BuildError::BuildTreeError),
                other => build.stray(other),
            },
            Phase::Walking => match event {
                Event::Entry { path, is_dir } => build.visit(path, is_dir),
                Event::EndOfTree => {
                    let path = build.outline_path();
                    let text = synthesize(&build.entries);
                    build.to(Phase::WritingOutline, Action::WriteFile { path, text })
                },
                other => build.stray(other),
            },
            Phase::CreatingDir => match event {
                Event::Done => build.to(Phase::Walking, Action::NextEntry),
                Event::Exists => build.to(Phase::Walking, Action::NextEntry),
                Event::Missing => build.fail(BuildError::BuildTreeError),
                Event::Failed => build.fail(BuildError::BuildTreeError),
                other => build.stray(other),
            },
            Phase::RenderingDocument { entry } => match event {
                Event::Rendered { success, output } => build.page_rendered(entry, success, output),
                Event::NotStarted => build.fail(BuildError::RendererInvocationFailure(RendererFailure::NotStarted)),
                other => build.stray(other),
            },
            Phase::WritingPage { entry, title } => match event {
                Event::Done => build.page_written(entry, title),
                other => build.stray(other),
            },
            Phase::Copying => match event {
                Event::Done => build.to(Phase::Walking, Action::NextEntry),
                other => build.stray(other),
            },
            Phase::WritingOutline => match event {
                Event::Done => {
                    let document = build.outline_path();
                    let working_dir = build.build_root.clone();
                    build.to(Phase::RenderingIndex, Action::Render { document, working_dir })
                },
                other => build.stray(other),
            },
            Phase::RenderingIndex => match event {
                Event::Rendered { success, output } => build.index_rendered(success, output),
                Event::NotStarted => build.fail(BuildError::RendererInvocationFailure(RendererFailure::NotStarted)),
                other => build.stray(other),
            },
            Phase::WritingIndex => match event {
                Event::Done => {
                    let path = build.outline_path();
                    build.to(Phase::RemovingOutline, Action::RemoveFile { path })
                },
                other => build.stray(other),
            },
            Phase::RemovingOutline => match event {
                Event::Done => build.to(Phase::Finished, Action::Finish),
                other => build.stray(other),
            },
            Phase::Finished => build.to(Phase::Finished, Action::Finish),
            Phase::Aborted { error } => build.to(Phase::Aborted { error }, Action::Abort { error }),
        }
    }
}

} // verus!
