//! Paths below the source root and where they go in the build tree.
//!
//! A path is a string whose components are separated by `/`. Nothing here
//! looks at the file system.

use vstd::prelude::*;
use crate::text::chars_of;

verus! {

/// The extension of a convertible document, with its dot.
pub const DOCUMENT_SUFFIX: &'static str = ".adoc";

/// The extension of a rendered page, without a dot.
pub const PAGE_EXTENSION: &'static str = "html";

/// What a visited entry of the source tree is.
#[derive(Clone, Copy, Debug, PartialEq, Eq, Structural)]
pub enum EntryKind {
    /// A directory: it is recreated in the build tree.
    Directory,
    /// A file that the renderer turns into a page.
    Document,
    /// Any other file: it is copied as it is.
    Opaque,
}

/// `s` without the separators at its end.
pub open spec fn trimmed(s: Seq<char>) -> Seq<char>
    decreases s.len(),
{
    if s.len() > 0 && s.last() == '/' {
        trimmed(s.drop_last())
    } else {
        s
    }
}

/// `path` is `root` itself or lies below it: `root` is a prefix of `path` that
/// ends where a component of `path` ends.
pub open spec fn is_under(root: Seq<char>, path: Seq<char>) -> bool {
    &&& root.is_prefix_of(path)
    &&& (path.len() == root.len() || path[root.len() as int] == '/')
}

/// What follows `root` in `path`: empty, or a separator and the rest.
pub open spec fn tail(root: Seq<char>, path: Seq<char>) -> Seq<char> {
    path.skip(root.len() as int)
}

/// `path` as seen from `root`: the tail without its leading separator.
pub open spec fn relative(root: Seq<char>, path: Seq<char>) -> Seq<char> {
    if path.len() <= root.len() {
        Seq::empty()
    } else {
        path.skip(root.len() as int + 1)
    }
}

/// A component of `p` begins at `i`.
pub open spec fn is_component_start(p: Seq<char>, i: int) -> bool {
    &&& 0 <= i < p.len()
    &&& p[i] != '/'
    &&& (i == 0 || p[i - 1] == '/')
}

/// The number of components of `p`. Empty components, as between two
/// separators, do not count.
pub open spec fn component_count(p: Seq<char>) -> nat
    decreases p.len(),
{
    if p.len() == 0 {
        0
    } else if is_component_start(p, p.len() - 1) {
        component_count(p.drop_last()) + 1
    } else {
        component_count(p.drop_last())
    }
}

/// The file name of `p` is a stem of at least one character followed by the
/// document suffix.
pub open spec fn is_document(p: Seq<char>) -> bool {
    &&& p.len() >= 6
    &&& p.skip(p.len() - 5) == DOCUMENT_SUFFIX@
    &&& p[p.len() - 6] != '/'
}

/// `p` with its last four characters replaced by the page extension.
pub open spec fn rendered_name(p: Seq<char>) -> Seq<char> {
    p.take(p.len() - 4) + PAGE_EXTENSION@
}

/// The kind of an entry with the relative path `rel`. Only a file can be a
/// document.
pub open spec fn kind_of(rel: Seq<char>, is_dir: bool) -> EntryKind {
    if is_dir {
        EntryKind::Directory
    } else if is_document(rel) {
        EntryKind::Document
    } else {
        EntryKind::Opaque
    }
}

/// `p` as it is named in the build tree.
pub open spec fn renamed(p: Seq<char>, kind: EntryKind) -> Seq<char> {
    if kind == EntryKind::Document {
        rendered_name(p)
    } else {
        p
    }
}

/// Where `path` goes in the build tree: the build root takes the place of the
/// source root at the head of the path, and a document gets the page extension.
pub open spec fn target_of(root: Seq<char>, build_root: Seq<char>, path: Seq<char>, is_dir: bool) -> Seq<char> {
    build_root + renamed(tail(root, path), kind_of(relative(root, path), is_dir))
}

/// The directory that holds `p`: `p` up to its last separator, empty where it
/// has none.
pub open spec fn parent(p: Seq<char>) -> Seq<char>
    decreases p.len(),
{
    if p.len() == 0 {
        p
    } else if p.last() == '/' {
        p.drop_last()
    } else {
        parent(p.drop_last())
    }
}

/// One visited node of the source tree, placed against the two roots.
#[derive(Debug, PartialEq, Eq)]
pub struct TreeEntry {
    /// The path as the walk gave it.
    pub path: String,
    /// The path as seen from the source root; empty for the root itself.
    pub relative: String,
    /// The number of components of `relative`; 0 for the root itself.
    pub depth: usize,
    /// What the node is.
    pub kind: EntryKind,
    /// Where the node goes in the build tree.
    pub target: String,
    /// `target` as seen from the build root: what a cross-reference names.
    pub link: String,
}

/// A [`TreeEntry`] as a mathematical value.
pub struct TreeEntryView {
    pub path: Seq<char>,
    pub relative: Seq<char>,
    pub depth: nat,
    pub kind: EntryKind,
    pub target: Seq<char>,
    pub link: Seq<char>,
}

impl View for TreeEntry {
    type V = TreeEntryView;

    open spec fn view(&self) -> TreeEntryView {
        TreeEntryView {
            path: self.path@,
            relative: self.relative@,
            depth: self.depth as nat,
            kind: self.kind,
            target: self.target@,
            link: self.link@,
        }
    }
}

/// The entry for `path`, which lies under `root`.
pub open spec fn entry_at(root: Seq<char>, build_root: Seq<char>, path: Seq<char>, is_dir: bool) -> TreeEntryView {
    TreeEntryView {
        path: path,
        relative: relative(root, path),
        depth: component_count(relative(root, path)),
        kind: kind_of(relative(root, path), is_dir),
        target: target_of(root, build_root, path, is_dir),
        link: renamed(relative(root, path), kind_of(relative(root, path), is_dir)),
    }
}

/// The root as the build uses it: the argument without trailing separators.
pub fn normalize_root(source: &str) -> (root: String)
    ensures
        root@ == trimmed(source@),
{
    let chars = chars_of(source);
    let mut n: usize = chars.len();
    assert(source@.take(n as int) == source@);
    while n > 0 && chars[n - 1] == '/'
        invariant
            n <= chars.len(),
            chars@ == source@,
            trimmed(source@) == trimmed(source@.take(n as int)),
        decreases n,
    {
        assert(source@.take(n as int).drop_last() == source@.take(n - 1));
        n -= 1;
    }
    String::from_str(source.substring_char(0, n))
}

/// The number of components of `p`.
pub fn count_components(p: &str) -> (count: usize)
    ensures
        count == component_count(p@),
{
    let chars = chars_of(p);
    let mut count: usize = 0;
    let mut i: usize = 0;
    while i < chars.len()
        invariant
            i <= chars.len(),
            count <= i,
            count == component_count(chars@.take(i as int)),
        decreases chars.len() - i,
    {
        assert(chars@.take(i + 1).drop_last() == chars@.take(i as int));
        if chars[i] != '/' && (i == 0 || chars[i - 1] == '/') {
            count += 1;
        }
        i += 1;
    }
    assert(chars@.take(chars.len() as int) == chars@);
    count
}

/// Whether `p` names a convertible document.
pub fn has_document_name(p: &str) -> (yes: bool)
    ensures
        yes == is_document(p@),
{
    let chars = chars_of(p);
    let n: usize = chars.len();
    proof {
        reveal_strlit(".adoc");
    }
    if n < 6 {
        return false;
    }
    let suffix_found = chars[n - 5] == '.' && chars[n - 4] == 'a' && chars[n - 3] == 'd'
        && chars[n - 2] == 'o' && chars[n - 1] == 'c';
    proof {
        let end = p@.skip(n - 5);
        if suffix_found {
            assert(end == DOCUMENT_SUFFIX@);
        } else {
            assert(end[0] == p@[n - 5] && end[1] == p@[n - 4] && end[2] == p@[n - 3] && end[3] == p@[n - 2]
                && end[4] == p@[n - 1]);
        }
    }
    suffix_found && chars[n - 6] != '/'
}

/// The directory that holds `p`.
pub fn parent_of(p: &str) -> (dir: String)
    ensures
        dir@ == parent(p@),
{
    let chars = chars_of(p);
    let mut n: usize = chars.len();
    assert(p@.take(n as int) == p@);
    while n > 0 && chars[n - 1] != '/'
        invariant
            n <= chars.len(),
            chars@ == p@,
            parent(p@) == parent(p@.take(n as int)),
        decreases n,
    {
        assert(p@.take(n as int).drop_last() == p@.take(n - 1));
        n -= 1;
    }
    if n > 0 {
        assert(p@.take(n as int).drop_last() == p@.take(n - 1));
        n -= 1;
    }
    String::from_str(p.substring_char(0, n))
}

impl TreeEntry {
    /// Places `path` against the source root and the build root. `None` where
    /// `path` does not lie under `root`: the build passes such a path over.
    pub fn locate(root: &str, build_root: &str, path: &str, is_dir: bool) -> (entry: Option<TreeEntry>)
        ensures
            entry is Some <==> is_under(root@, path@),
            entry matches Some(e) ==> e@ == entry_at(root@, build_root@, path@, is_dir),
    {
        let p = chars_of(path);
        let r = chars_of(root);
        if p.len() < r.len() {
            return None;
        }
        let mut i: usize = 0;
        while i < r.len()
            invariant
                i <= r.len() <= p.len(),
                r@ == root@,
                p@ == path@,
                forall|j: int| 0 <= j < i ==> root@[j] == path@[j],
            decreases r.len() - i,
        {
            if p[i] != r[i] {
                return None;
            }
            i += 1;
        }
        assert(root@ == path@.subrange(0, root@.len() as int));
        if p.len() > r.len() && p[r.len()] != '/' {
            return None;
        }
        let start: usize = if p.len() == r.len() { p.len() } else { r.len() + 1 };
        let rel = path.substring_char(start, p.len());
        assert(rel@ == relative(root@, path@));
        let depth = count_components(rel);
        let document = !is_dir && has_document_name(rel);
        let kind = if is_dir {
            EntryKind::Directory
        } else if document {
            EntryKind::Document
        } else {
            EntryKind::Opaque
        };
        let mut target = String::from_str(build_root);
        let mut link = String::new();
        if document {
            target.append(path.substring_char(r.len(), p.len() - 4));
            target.append(PAGE_EXTENSION);
            link.append(path.substring_char(start, p.len() - 4));
            link.append(PAGE_EXTENSION);
        } else {
            target.append(path.substring_char(r.len(), p.len()));
            link.append(rel);
        }
        assert(target@ == target_of(root@, build_root@, path@, is_dir));
        assert(link@ == renamed(relative(root@, path@), kind));
        Some(
            TreeEntry {
                path: String::from_str(path),
                relative: String::from_str(rel),
                depth,
                kind,
                target,
                link,
            },
        )
    }
}

/// The path mapper: where `path` goes in the build tree, or `None` where it
/// does not lie under `root`.
pub fn map_path(root: &str, build_root: &str, path: &str, is_dir: bool) -> (target: Option<String>)
    ensures
        target is Some <==> is_under(root@, path@),
        target matches Some(t) ==> t@ == target_of(root@, build_root@, path@, is_dir),
{
    match TreeEntry::locate(root, build_root, path, is_dir) {
        Some(entry) => Some(entry.target),
        None => None,
    }
}

/// The parent of a path is the part of it before its last separator.
pub proof fn lemma_parent_is_prefix(p: Seq<char>)
    ensures
        parent(p).is_prefix_of(p),
        p.len() > 0 ==> parent(p).len() < p.len(),
    decreases p.len(),
{
    if p.len() > 0 && p.last() != '/' {
        lemma_parent_is_prefix(p.drop_last());
    }
}

/// A name without separators at the end of a path does not count for the
/// path's parent.
pub proof fn lemma_parent_ignores_name(dir: Seq<char>, name: Seq<char>)
    requires
        forall|i: int| 0 <= i < name.len() ==> name[i] != '/',
    ensures
        parent(dir + name) == parent(dir),
    decreases name.len(),
{
    if name.len() == 0 {
        assert(dir + name == dir);
    } else {
        assert((dir + name).drop_last() == dir + name.drop_last());
        lemma_parent_ignores_name(dir, name.drop_last());
    }
}

/// The parent of a path is found in what follows a separator: what stands
/// before that separator stays.
pub proof fn lemma_parent_of_joined(head: Seq<char>, rest: Seq<char>)
    requires
        rest.len() > 0,
        rest[0] == '/',
    ensures
        parent(head + rest) == head + parent(rest),
    decreases rest.len(),
{
    assert((head + rest).drop_last() == head + rest.drop_last());
    if rest.last() != '/' {
        lemma_parent_of_joined(head, rest.drop_last());
    }
}

/// A document and its page lie in the same directory.
pub proof fn lemma_page_keeps_parent(p: Seq<char>)
    requires
        p.len() >= 5,
        p.skip(p.len() - 5) == DOCUMENT_SUFFIX@,
    ensures
        parent(rendered_name(p)) == parent(p),
{
    reveal_strlit(".adoc");
    reveal_strlit("html");
    let stem = p.take(p.len() - 4);
    let end = p.skip(p.len() - 5);
    let name = p.skip(p.len() - 4);
    assert forall|i: int| 0 <= i < name.len() implies name[i] != '/' by {
        assert(name[i] == end[i + 1]);
    }
    assert(p == stem + name);
    lemma_parent_ignores_name(stem, name);
    lemma_parent_ignores_name(stem, PAGE_EXTENSION@);
}

/// The build tree mirrors the source tree: what lies in a directory of the
/// source tree goes into the directory that this directory is mapped to.
///
/// For every path below the source root, the directory that holds it lies
/// under the source root too, and the target of that directory is the
/// directory that holds the path's target.
pub proof fn lemma_parent_is_mirrored(root: Seq<char>, build_root: Seq<char>, path: Seq<char>, is_dir: bool)
    requires
        is_under(root, path),
        path.len() > root.len(),
    ensures
        is_under(root, parent(path)),
        kind_of(relative(root, parent(path)), true) == EntryKind::Directory,
        target_of(root, build_root, parent(path), true) == parent(target_of(root, build_root, path, is_dir)),
{
    let t = tail(root, path);
    assert(path == root + t);
    lemma_parent_of_joined(root, t);
    lemma_parent_is_prefix(t);
    let up = parent(path);
    assert(up == root + parent(t));
    assert(tail(root, up) == parent(t));
    if parent(t).len() > 0 {
        assert(up[root.len() as int] == parent(t)[0]);
    }
    let rel = relative(root, path);
    let kind = kind_of(rel, is_dir);
    let named = renamed(t, kind);
    if kind == EntryKind::Document {
        assert(rel == t.skip(1));
        assert(t.skip(t.len() - 5) == rel.skip(rel.len() - 5));
        lemma_page_keeps_parent(t);
        assert(named[0] == t[0]);
    }
    lemma_parent_of_joined(build_root, named);
}

/// A path without a component holds separators only.
pub proof fn lemma_no_component_is_all_separators(p: Seq<char>)
    requires
        component_count(p) == 0,
    ensures
        forall|i: int| 0 <= i < p.len() ==> p[i] == '/',
    decreases p.len(),
{
    if p.len() > 0 {
        lemma_no_component_is_all_separators(p.drop_last());
        assert forall|i: int| 0 <= i < p.len() implies p[i] == '/' by {
            if i < p.len() - 1 {
                assert(p[i] == p.drop_last()[i]);
            } else if p.len() > 1 {
                assert(p[i - 1] == p.drop_last()[i - 1]);
            }
        }
    }
}

/// The path mapper replaces the source root at the head of a path and
/// nothing else: a path that begins with the source root and a separator is
/// mapped to the build root, the separator, and the rest of the path as it
/// is, whatever the rest holds. Only the extension of a document changes.
pub proof fn lemma_only_the_head_is_replaced(root: Seq<char>, build_root: Seq<char>, rest: Seq<char>, is_dir: bool)
    ensures
        is_under(root, root + "/"@ + rest),
        relative(root, root + "/"@ + rest) == rest,
        kind_of(rest, is_dir) != EntryKind::Document ==> target_of(root, build_root, root + "/"@ + rest, is_dir)
            == build_root + "/"@ + rest,
        kind_of(rest, is_dir) == EntryKind::Document ==> target_of(root, build_root, root + "/"@ + rest, is_dir)
            == build_root + "/"@ + rendered_name(rest),
{
    reveal_strlit("/");
    let path = root + "/"@ + rest;
    assert(root == path.subrange(0, root.len() as int));
    assert(relative(root, path) == rest);
    assert(tail(root, path) == "/"@ + rest);
    if kind_of(rest, is_dir) == EntryKind::Document {
        assert(rendered_name("/"@ + rest) == "/"@ + rendered_name(rest));
    }
    assert(build_root + ("/"@ + rest) == build_root + "/"@ + rest);
    assert(build_root + ("/"@ + rendered_name(rest)) == build_root + "/"@ + rendered_name(rest));
}

} // verus!
