//! The outline: the document from which the index page is rendered.
//!
//! It is AsciiDoc: a heading, a blank line, and one bulleted line for each
//! entry, in the order in which the entries were met. A directory is a plain
//! bullet, a document a bullet with a cross-reference to its page. The source
//! root itself is no entry: the outline lists what lies below it.

use vstd::prelude::*;
use crate::path::{
    component_count, entry_at, is_document, is_under, lemma_no_component_is_all_separators, relative, TreeEntry,
    TreeEntryView,
};

verus! {

/// The first two lines of every outline: the heading and a blank line.
pub const HEADING: &'static str = "= Index\n\n";

/// One line of the outline.
#[derive(Debug, PartialEq, Eq)]
pub struct IndexEntry {
    /// The nesting level: the number of components of the entry's path, as
    /// seen from the source root, less one. The bullet has one star more
    /// than this.
    pub level: usize,
    /// What the line shows: a directory's path, or a document's title.
    pub label: String,
    /// For a document, the page that the line refers to, as seen from the
    /// build root.
    pub target: Option<String>,
}

/// An [`IndexEntry`] as a mathematical value.
pub struct IndexEntryView {
    pub level: nat,
    pub label: Seq<char>,
    pub target: Option<Seq<char>>,
}

impl View for IndexEntry {
    type V = IndexEntryView;

    open spec fn view(&self) -> IndexEntryView {
        IndexEntryView { level: self.level as nat, label: self.label@, target: self.target.deep_view() }
    }
}

impl DeepView for IndexEntry {
    type V = IndexEntryView;

    open spec fn deep_view(&self) -> IndexEntryView {
        self@
    }
}

/// A bullet of `count` stars.
pub open spec fn bullet(count: nat) -> Seq<char> {
    Seq::new(count, |i: int| '*')
}

impl IndexEntryView {
    /// The entry for the directory `entry`: its path below the source root.
    /// The source root, which has no component, has no entry.
    pub open spec fn directory(entry: TreeEntryView) -> Option<IndexEntryView> {
        if entry.depth == 0 {
            None
        } else {
            Some(IndexEntryView { level: (entry.depth - 1) as nat, label: entry.relative, target: None })
        }
    }

    /// The entry for the document `entry`, whose page has the title `title`.
    pub open spec fn document(entry: TreeEntryView, title: Seq<char>) -> Option<IndexEntryView> {
        if entry.depth == 0 {
            None
        } else {
            Some(IndexEntryView { level: (entry.depth - 1) as nat, label: title, target: Some(entry.link) })
        }
    }

    /// The entry's line, without the line break.
    pub open spec fn line(self) -> Seq<char> {
        match self.target {
            Some(page) => bullet(self.level + 1) + " xref:"@ + page + "["@ + self.label + "]"@,
            None => bullet(self.level + 1) + " "@ + self.label,
        }
    }
}

/// The outline of `entries`: the heading, then every entry's line.
pub open spec fn outline_text(entries: Seq<IndexEntryView>) -> Seq<char>
    decreases entries.len(),
{
    if entries.len() == 0 {
        HEADING@
    } else {
        outline_text(entries.drop_last()) + entries.last().line() + "\n"@
    }
}

/// A bullet of `count` stars.
pub fn stars(count: usize) -> (text: String)
    ensures
        text@ == bullet(count as nat),
{
    let mut text = String::new();
    let mut i: usize = 0;
    proof {
        reveal_strlit("*");
    }
    while i < count
        invariant
            i <= count,
            text@ == bullet(i as nat),
            "*"@ == seq!['*'],
        decreases count - i,
    {
        text.append("*");
        i += 1;
        assert(text@ == bullet(i as nat));
    }
    text
}

impl IndexEntry {
    /// The entry for the directory `entry`; `None` for the source root.
    pub fn directory(entry: &TreeEntry) -> (line: Option<IndexEntry>)
        ensures
            line.deep_view() == IndexEntryView::directory(entry@),
    {
        if entry.depth == 0 {
            None
        } else {
            Some(IndexEntry { level: entry.depth - 1, label: entry.relative.clone(), target: None })
        }
    }

    /// The entry for the document `entry`, whose page has the title `title`;
    /// `None` where `entry` has no component below the source root.
    pub fn document(entry: &TreeEntry, title: String) -> (line: Option<IndexEntry>)
        ensures
            line.deep_view() == IndexEntryView::document(entry@, title@),
    {
        if entry.depth == 0 {
            None
        } else {
            Some(IndexEntry { level: entry.depth - 1, label: title, target: Some(entry.link.clone()) })
        }
    }

    /// The entry's line, without the line break.
    pub fn line(&self) -> (text: String)
        ensures
            text@ == self@.line(),
    {
        let mut text = stars(self.level);
        proof {
            reveal_strlit("*");
        }
        text.append("*");
        assert(text@ == bullet((self.level + 1) as nat));
        match &self.target {
            Some(page) => {
                text.append(" xref:");
                text.append(page.as_str());
                text.append("[");
                text.append(self.label.as_str());
                text.append("]");
            },
            None => {
                text.append(" ");
                text.append(self.label.as_str());
            },
        }
        text
    }
}

/// The index synthesizer: the outline document of `entries`, in their order.
pub fn synthesize(entries: &Vec<IndexEntry>) -> (text: String)
    ensures
        text@ == outline_text(entries.deep_view()),
{
    let mut text = String::from_str(HEADING);
    let mut i: usize = 0;
    while i < entries.len()
        invariant
            i <= entries.len(),
            text@ == outline_text(entries.deep_view().take(i as int)),
        decreases entries.len() - i,
    {
        let line = entries[i].line();
        text.append(line.as_str());
        text.append("\n");
        proof {
            let all = entries.deep_view();
            assert(all.take(i + 1).drop_last() == all.take(i as int));
            assert(all.take(i + 1).last() == entries@[i as int]@);
        }
        i += 1;
    }
    assert(entries.deep_view().take(entries.len() as int) == entries.deep_view());
    text
}

/// The nesting level of an outline entry is the number of components of its
/// path, as seen from the source root, less one.
///
/// This holds of the entry of every path below the source root, be it a
/// directory or a document. The root itself has no component, and no entry.
pub proof fn lemma_nesting_level(
    root: Seq<char>,
    build_root: Seq<char>,
    path: Seq<char>,
    is_dir: bool,
    title: Seq<char>,
)
    requires
        is_under(root, path),
        component_count(relative(root, path)) > 0,
    ensures
        IndexEntryView::directory(entry_at(root, build_root, path, is_dir)) matches Some(line) && line.level
            == component_count(relative(root, path)) - 1,
        IndexEntryView::document(entry_at(root, build_root, path, is_dir), title) matches Some(line)
            && line.level == component_count(relative(root, path)) - 1,
{
}

/// Every document has its line in the outline: a path that names a document
/// has a component below the source root.
pub proof fn lemma_document_is_listed(root: Seq<char>, build_root: Seq<char>, path: Seq<char>, title: Seq<char>)
    requires
        is_under(root, path),
        is_document(relative(root, path)),
    ensures
        IndexEntryView::document(entry_at(root, build_root, path, false), title) is Some,
{
    let rel = relative(root, path);
    if component_count(rel) == 0 {
        lemma_no_component_is_all_separators(rel);
        assert(rel[rel.len() - 6] == '/');
    }
}

} // verus!
