//! The order in which a build acts.
//!
//! What is stated here holds of every run of a build: of every sequence of
//! events that a driver may report, whether or not the driver keeps to what
//! it was told to do.

use vstd::prelude::*;
use crate::builder::{initial, ActionView, BuildView, EventView, PhaseView};
use crate::error::BuildError;
use crate::path::{
    entry_at, is_under, kind_of, lemma_parent_is_mirrored, lemma_parent_is_prefix, lemma_parent_of_joined, parent,
    relative, renamed, tail, target_of, trimmed, EntryKind, TreeEntryView,
};
use crate::renderer::decoded;
use crate::title::title_of;

verus! {

/// The build after `events`, taken one after the other.
pub open spec fn run(build: BuildView, events: Seq<EventView>) -> BuildView
    decreases events.len(),
{
    if events.len() == 0 {
        build
    } else {
        run(build, events.drop_last()).step(events.last()).0
    }
}

/// The build as it is when the event `k` arrives.
pub open spec fn state_at(build: BuildView, events: Seq<EventView>, k: int) -> BuildView {
    run(build, events.take(k))
}

/// The action that the build gives when the event `k` arrives.
pub open spec fn answer(build: BuildView, events: Seq<EventView>, k: int) -> ActionView {
    state_at(build, events, k).step(events[k]).1
}

/// The build has come to its end, complete or failed.
pub open spec fn is_over(build: BuildView) -> bool {
    build.phase is Finished || build.phase is Aborted
}

/// Each event takes the build one step on.
pub proof fn lemma_one_more_event(build: BuildView, events: Seq<EventView>, n: int)
    requires
        0 <= n < events.len(),
    ensures
        state_at(build, events, n + 1) == state_at(build, events, n).step(events[n]).0,
{
    assert(events.take(n + 1).drop_last() == events.take(n));
    assert(events.take(n + 1).last() == events[n]);
}

/// A build that is over does not change any more, whatever is reported to
/// it, and does not ask for anything.
pub proof fn lemma_over_stays_over(build: BuildView, events: Seq<EventView>, j: int, n: int)
    requires
        0 <= j <= n <= events.len(),
        is_over(state_at(build, events, j)),
    ensures
        state_at(build, events, n) == state_at(build, events, j),
        n < events.len() ==> answer(build, events, n) == (match state_at(build, events, j).phase {
            PhaseView::Aborted { error } => ActionView::Abort { error },
            _ => ActionView::Finish,
        }),
    decreases n - j,
{
    if j < n {
        lemma_over_stays_over(build, events, j, n - 1);
        lemma_one_more_event(build, events, n - 1);
    }
}

/// A build keeps its two roots.
pub proof fn lemma_roots_stay(build: BuildView, events: Seq<EventView>, n: int)
    requires
        0 <= n <= events.len(),
    ensures
        state_at(build, events, n).source_root == build.source_root,
        state_at(build, events, n).build_root == build.build_root,
    decreases n,
{
    if n > 0 {
        lemma_roots_stay(build, events, n - 1);
        lemma_one_more_event(build, events, n - 1);
    } else {
        assert(events.take(0).len() == 0);
    }
}

/// The action touches the build tree or runs the renderer.
pub open spec fn acts_on_build_tree(action: ActionView) -> bool {
    ||| action is RemoveTree
    ||| action is CreateDir
    ||| action is Render
    ||| action is WriteFile
    ||| action is CopyFile
    ||| action is RemoveFile
}

/// A build touches nothing before the source root is known to exist, and
/// places nothing in the build tree before the old one is gone.
///
/// Whatever a build does to the build tree, the source root was reported to
/// exist first. Whatever it does after asking for the removal of the old
/// tree, that removal was reported to have been done, or the tree not to
/// have been there.
pub proof fn lemma_clean_start(source: Seq<char>, build_root: Seq<char>, events: Seq<EventView>, k: int)
    requires
        0 <= k < events.len(),
        acts_on_build_tree(answer(initial(source, build_root).0, events, k)),
    ensures
        events[0] == EventView::Done,
        answer(initial(source, build_root).0, events, 0) == (ActionView::RemoveTree { path: build_root }),
        k > 0 ==> k >= 2 && (events[1] == EventView::Done || events[1] == EventView::Missing),
{
    let build = initial(source, build_root).0;
    assert(events.take(0).len() == 0);
    assert(state_at(build, events, 0) == build);
    lemma_one_more_event(build, events, 0);
    if events[0] != EventView::Done {
        lemma_over_stays_over(build, events, 1, k);
    } else if k > 0 {
        lemma_one_more_event(build, events, 1);
        if events[1] != EventView::Done && events[1] != EventView::Missing {
            lemma_over_stays_over(build, events, 2, k);
        }
    }
}

/// Two reports of one build differ at most in whether the old build tree
/// was removed or was not there.
pub open spec fn same_but_for_old_tree(first: Seq<EventView>, second: Seq<EventView>) -> bool {
    &&& first.len() == second.len()
    &&& forall|i: int| 0 <= i < first.len() && i != 1 ==> first[i] == second[i]
    &&& first.len() > 1 ==> {
        &&& first[1] == EventView::Done || first[1] == EventView::Missing
        &&& second[1] == EventView::Done || second[1] == EventView::Missing
    }
}

/// Once the old build tree is out of the way, two builds that are told the
/// same are in the same state.
proof fn lemma_same_after_cleaning(
    source: Seq<char>,
    build_root: Seq<char>,
    first: Seq<EventView>,
    second: Seq<EventView>,
    n: int,
)
    requires
        same_but_for_old_tree(first, second),
        0 <= n <= first.len(),
        n != 1 || first.len() == 1,
    ensures
        state_at(initial(source, build_root).0, first, n) == state_at(initial(source, build_root).0, second, n),
    decreases n,
{
    let build = initial(source, build_root).0;
    assert(first.take(0).len() == 0);
    assert(second.take(0).len() == 0);
    if n == 1 {
        lemma_one_more_event(build, first, 0);
        lemma_one_more_event(build, second, 0);
    } else if n == 2 {
        lemma_one_more_event(build, first, 0);
        lemma_one_more_event(build, second, 0);
        lemma_one_more_event(build, first, 1);
        lemma_one_more_event(build, second, 1);
    } else if n > 2 {
        lemma_same_after_cleaning(source, build_root, first, second, n - 1);
        lemma_one_more_event(build, first, n - 1);
        lemma_one_more_event(build, second, n - 1);
    }
}

/// A build over an old build tree does what a first build does.
///
/// Let two builds of the same source tree be told the same of every action,
/// but that the one finds an old build tree and removes it where the other
/// finds none. Then both ask for the same actions, one after the other: what
/// a build puts into the build tree does not depend on what was there
/// before.
pub proof fn lemma_rebuild_repeats_the_build(
    source: Seq<char>,
    build_root: Seq<char>,
    first: Seq<EventView>,
    second: Seq<EventView>,
    k: int,
)
    requires
        same_but_for_old_tree(first, second),
        0 <= k < first.len(),
    ensures
        answer(initial(source, build_root).0, first, k) == answer(initial(source, build_root).0, second, k),
{
    let build = initial(source, build_root).0;
    if k == 1 {
        assert(first.take(0).len() == 0);
        assert(second.take(0).len() == 0);
        lemma_one_more_event(build, first, 0);
        lemma_one_more_event(build, second, 0);
    } else {
        lemma_same_after_cleaning(source, build_root, first, second, k);
    }
}

/// A page without a title ends the build, and no index page is made.
///
/// Where the renderer hands back a page in which no title is found, the
/// page is still written. After that the build asks for nothing: every
/// later action is `Abort`, with `NoTitleFound` where the page could be
/// written.
pub proof fn lemma_untitled_page_ends_build(build: BuildView, events: Seq<EventView>, k: int)
    requires
        build.phase is RenderingDocument,
        1 <= k < events.len(),
        events[0] matches EventView::Rendered { success, output } && (decoded(success, output) matches Ok(text)
            && title_of(text) == Err::<Seq<char>, BuildError>(BuildError::NoTitleFound)),
    ensures
        answer(build, events, 0) is WriteFile,
        answer(build, events, k) is Abort,
        events[1] is Done ==> answer(build, events, k) == (ActionView::Abort { error: BuildError::NoTitleFound }),
{
    assert(events.take(0).len() == 0);
    assert(state_at(build, events, 0) == build);
    lemma_one_more_event(build, events, 0);
    if k >= 2 {
        lemma_one_more_event(build, events, 1);
        lemma_over_stays_over(build, events, 2, k);
    }
}

/// The path lies under the root and is not the root itself.
pub open spec fn is_below(root: Seq<char>, path: Seq<char>) -> bool {
    is_under(root, path) && path.len() > root.len()
}

/// The event `j` is the visit of the directory `dir`.
pub open spec fn visits_directory(events: Seq<EventView>, j: int, dir: Seq<char>) -> bool {
    0 <= j < events.len() && events[j] == (EventView::Entry { path: dir, is_dir: true })
}

/// The walk comes to a directory before it comes to what the directory
/// holds: every entry below the root is reported after the directory that
/// holds it.
pub open spec fn directories_first(root: Seq<char>, events: Seq<EventView>) -> bool {
    forall|i: int|
        0 <= i < events.len() && (#[trigger] events[i] matches EventView::Entry { path, is_dir } && is_below(
            root,
            path,
        )) ==> exists|j: int| j < i && #[trigger] visits_directory(events, j, parent(events[i]->Entry_path))
}

/// With the action `j` the build asks for the directory `dir`, and is told
/// that it is there.
pub open spec fn creates(build: BuildView, events: Seq<EventView>, j: int, dir: Seq<char>) -> bool {
    &&& 0 <= j
    &&& j + 1 < events.len()
    &&& answer(build, events, j) == (ActionView::CreateDir { path: dir })
    &&& (events[j + 1] == EventView::Done || events[j + 1] == EventView::Exists)
}

/// The directory `dir` has been created when the event `k` arrives.
pub open spec fn created_before(build: BuildView, events: Seq<EventView>, k: int, dir: Seq<char>) -> bool {
    exists|j: int| j + 1 < k && #[trigger] creates(build, events, j, dir)
}

/// The directory of the build tree that `action` relies on, where it puts
/// an entry of the source tree in its place: the directory that holds a new
/// directory, a copy or a page, and the working directory of the renderer
/// for a document. The build root itself relies on none.
pub open spec fn directory_needed(build: BuildView, action: ActionView) -> Option<Seq<char>> {
    match action {
        ActionView::CreateDir { path } => if path != build.build_root {
            Some(parent(path))
        } else {
            None
        },
        ActionView::CopyFile { from, to } => if to != build.build_root {
            Some(parent(to))
        } else {
            None
        },
        ActionView::Render { document, working_dir } => if build.phase is Walking {
            Some(working_dir)
        } else {
            None
        },
        ActionView::WriteFile { path, text } => if build.phase is RenderingDocument {
            Some(parent(path))
        } else {
            None
        },
        _ => None,
    }
}

/// An entry reported while the build does not wait for one ends the build.
proof fn lemma_entry_out_of_turn(build: BuildView, events: Seq<EventView>, j: int, n: int)
    requires
        0 <= j < n <= events.len(),
        events[j] is Entry,
        !(state_at(build, events, j).phase is Walking),
    ensures
        is_over(state_at(build, events, n)),
{
    lemma_one_more_event(build, events, j);
    lemma_over_stays_over(build, events, j + 1, n);
}

/// When the walk comes to an entry below the source root, the directory
/// that holds the entry's target has been created.
proof fn lemma_visit_finds_directory(
    build: BuildView,
    events: Seq<EventView>,
    k: int,
    path: Seq<char>,
    is_dir: bool,
)
    requires
        directories_first(build.source_root, events),
        0 <= k < events.len(),
        state_at(build, events, k).phase is Walking,
        events[k] == (EventView::Entry { path, is_dir }),
        is_below(build.source_root, path),
    ensures
        created_before(
            build,
            events,
            k,
            parent(target_of(build.source_root, build.build_root, path, is_dir)),
        ),
{
    let root = build.source_root;
    let dir = parent(target_of(root, build.build_root, path, is_dir));
    let j = choose|j: int| j < k && #[trigger] visits_directory(events, j, parent(path));
    lemma_parent_is_mirrored(root, build.build_root, path, is_dir);
    lemma_roots_stay(build, events, j);
    if !(state_at(build, events, j).phase is Walking) {
        lemma_entry_out_of_turn(build, events, j, k);
    }
    assert(answer(build, events, j) == (ActionView::CreateDir { path: dir }));
    lemma_one_more_event(build, events, j);
    assert(state_at(build, events, j + 1).phase is CreatingDir);
    if events[j + 1] != EventView::Done && events[j + 1] != EventView::Exists {
        lemma_one_more_event(build, events, j + 1);
        lemma_over_stays_over(build, events, j + 2, k);
    }
    assert(creates(build, events, j, dir));
}

/// Every directory is there before anything is put into it.
///
/// Let the walk report each directory before what it holds. Then whenever
/// the build asks for a directory, a copy or a page below the build root,
/// or for a document to be rendered, it has asked before for the directory
/// that is to hold the result, and has been told that it is there.
pub proof fn lemma_directories_come_first(
    source: Seq<char>,
    build_root: Seq<char>,
    events: Seq<EventView>,
    k: int,
)
    requires
        directories_first(trimmed(source), events),
        0 <= k < events.len(),
    ensures
        directory_needed(
            state_at(initial(source, build_root).0, events, k),
            answer(initial(source, build_root).0, events, k),
        ) matches Some(dir) ==> created_before(initial(source, build_root).0, events, k, dir),
{
    let build = initial(source, build_root).0;
    let root = build.source_root;
    let state = state_at(build, events, k);
    let action = answer(build, events, k);
    lemma_roots_stay(build, events, k);
    if directory_needed(state, action) is Some {
        match state.phase {
            PhaseView::Walking => {
                let path = events[k]->Entry_path;
                let is_dir = events[k]->Entry_is_dir;
                assert(events[k] == (EventView::Entry { path, is_dir }));
                assert(is_under(root, path));
                let entry = entry_at(root, build_root, path, is_dir);
                if path.len() == root.len() {
                    assert(entry.target == build_root);
                    assert(entry.kind != EntryKind::Document);
                }
                lemma_visit_finds_directory(build, events, k, path, is_dir);
            },
            PhaseView::RenderingDocument { entry } => {
                assert(events.take(0).len() == 0);
                assert(k > 0);
                lemma_one_more_event(build, events, k - 1);
                let earlier = state_at(build, events, k - 1);
                lemma_roots_stay(build, events, k - 1);
                assert(earlier.phase is Walking);
                let path = events[k - 1]->Entry_path;
                let is_dir = events[k - 1]->Entry_is_dir;
                assert(events[k - 1] == (EventView::Entry { path, is_dir }));
                assert(entry == entry_at(root, build_root, path, is_dir));
                lemma_visit_finds_directory(build, events, k - 1, path, is_dir);
                let dir = parent(entry.target);
                let j = choose|j: int| j + 1 < k - 1 && #[trigger] creates(build, events, j, dir);
                assert(creates(build, events, j, dir));
            },
            _ => {},
        }
    }
}

/// `entry` is a document under `root`, with its target under `build_root`.
pub open spec fn is_document_of(root: Seq<char>, build_root: Seq<char>, entry: TreeEntryView) -> bool {
    exists|path: Seq<char>|
        is_under(root, path) && #[trigger] entry_at(root, build_root, path, false) == entry && entry.kind
            == EntryKind::Document
}

/// The document that a build is busy with is one that the walk has shown it:
/// an entry under the source root, placed against the build's two roots.
proof fn lemma_pending_document(source: Seq<char>, build_root: Seq<char>, events: Seq<EventView>, n: int)
    requires
        0 <= n <= events.len(),
    ensures
        match state_at(initial(source, build_root).0, events, n).phase {
            PhaseView::RenderingDocument { entry } => is_document_of(trimmed(source), build_root, entry),
            PhaseView::WritingPage { entry, title } => is_document_of(trimmed(source), build_root, entry),
            _ => true,
        },
    decreases n,
{
    let build = initial(source, build_root).0;
    if n == 0 {
        assert(events.take(0).len() == 0);
    } else {
        lemma_pending_document(source, build_root, events, n - 1);
        lemma_roots_stay(build, events, n - 1);
        lemma_one_more_event(build, events, n - 1);
        let earlier = state_at(build, events, n - 1);
        match state_at(build, events, n).phase {
            PhaseView::RenderingDocument { entry } => {
                assert(earlier.phase is Walking);
                let path = events[n - 1]->Entry_path;
                let is_dir = events[n - 1]->Entry_is_dir;
                assert(events[n - 1] == (EventView::Entry { path, is_dir }));
                assert(entry == entry_at(trimmed(source), build_root, path, is_dir));
                assert(!is_dir);
            },
            _ => {},
        }
    }
}

/// The place in the file system that `action` changes, or lets the
/// renderer work in.
pub open spec fn place_changed(action: ActionView) -> Option<Seq<char>> {
    match action {
        ActionView::RemoveTree { path } => Some(path),
        ActionView::CreateDir { path } => Some(path),
        ActionView::Render { document, working_dir } => Some(working_dir),
        ActionView::WriteFile { path, text } => Some(path),
        ActionView::CopyFile { from, to } => Some(to),
        ActionView::RemoveFile { path } => Some(path),
        _ => None,
    }
}

/// The target of every path under the source root lies under the build
/// root.
pub proof fn lemma_target_is_under_build_root(
    root: Seq<char>,
    build_root: Seq<char>,
    path: Seq<char>,
    is_dir: bool,
)
    requires
        is_under(root, path),
    ensures
        is_under(build_root, target_of(root, build_root, path, is_dir)),
        kind_of(relative(root, path), is_dir) == EntryKind::Document ==> is_under(
            build_root,
            parent(target_of(root, build_root, path, is_dir)),
        ),
{
    let t = tail(root, path);
    let kind = kind_of(relative(root, path), is_dir);
    let named = renamed(t, kind);
    let target = target_of(root, build_root, path, is_dir);
    assert(build_root == target.subrange(0, build_root.len() as int));
    if kind == EntryKind::Document {
        assert(named[0] == t[0]);
        lemma_parent_is_mirrored(root, build_root, path, is_dir);
        lemma_parent_of_joined(build_root, named);
        lemma_parent_is_prefix(named);
        assert(build_root == parent(target).subrange(0, build_root.len() as int));
        if parent(named).len() > 0 {
            assert(parent(target)[build_root.len() as int] == parent(named)[0]);
        }
    } else if named.len() > 0 {
        assert(target[build_root.len() as int] == named[0]);
    }
}

/// A build keeps to its own tree: whatever it removes, creates, writes or
/// copies to, and wherever it lets the renderer work, lies under the build
/// root. Nothing else in the file system is changed, the source tree least
/// of all.
pub proof fn lemma_build_keeps_to_its_tree(
    source: Seq<char>,
    build_root: Seq<char>,
    events: Seq<EventView>,
    k: int,
)
    requires
        0 <= k < events.len(),
    ensures
        place_changed(answer(initial(source, build_root).0, events, k)) matches Some(place) ==> is_under(
            build_root,
            place,
        ),
{
    reveal_strlit("/index.adoc");
    reveal_strlit("/index.html");
    let build = initial(source, build_root).0;
    let root = trimmed(source);
    let state = state_at(build, events, k);
    lemma_roots_stay(build, events, k);
    lemma_pending_document(source, build_root, events, k);
    assert(build_root == state.outline_path().subrange(0, build_root.len() as int));
    assert(build_root == state.index_path().subrange(0, build_root.len() as int));
    match state.phase {
        PhaseView::Walking => {
            if events[k] is Entry {
                let path = events[k]->Entry_path;
                let is_dir = events[k]->Entry_is_dir;
                if is_under(root, path) {
                    lemma_target_is_under_build_root(root, build_root, path, is_dir);
                }
            }
        },
        PhaseView::RenderingDocument { entry } => {
            let path = choose|path: Seq<char>|
                is_under(root, path) && #[trigger] entry_at(root, build_root, path, false) == entry;
            lemma_target_is_under_build_root(root, build_root, path, false);
        },
        _ => {},
    }
}

/// The outline only grows: entries are added at its end, in the order in
/// which the walk comes to them, and none is moved or dropped.
pub proof fn lemma_outline_only_grows(build: BuildView, events: Seq<EventView>, n: int, m: int)
    requires
        0 <= n <= m <= events.len(),
    ensures
        state_at(build, events, n).entries.is_prefix_of(state_at(build, events, m).entries),
    decreases m - n,
{
    if n < m {
        lemma_outline_only_grows(build, events, n, m - 1);
        lemma_one_more_event(build, events, m - 1);
        let earlier = state_at(build, events, m - 1).entries;
        let later = state_at(build, events, m).entries;
        assert(earlier.is_prefix_of(later)) by {
            if later != earlier {
                assert(earlier == later.drop_last());
            }
        }
    }
}

} // verus!
