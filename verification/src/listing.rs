//! The directory lister: from what was read of a directory to the ordered
//! entries that the file browser offers.
//!
//! A listing starts with the parent entry, unless the directory has no parent
//! worth showing. The subdirectories follow, then the backup files; what is
//! neither is left out. Each of the two groups is in lexicographic order of
//! the full path.

use crate::text::{
    has_extension, lemma_order_flips, lemma_same_iff_equal, lemma_text_le_transitive,
    name_has_extension, text_le, text_order, text_order_of, text_view, TextOrder,
};
use vstd::multiset::Multiset;
use vstd::prelude::*;
use vstd::relations::{sorted_by, total_ordering};
use vstd::seq_lib::{group_to_multiset_ensures, lemma_sorted_unique};

verus! {

/// One child of a directory, as the driver read it.
#[derive(Clone, Debug, PartialEq, Eq)]
pub struct Child {
    /// The full path of the child.
    pub path: String,
    /// The last component of the path, under which the child is shown.
    pub name: String,
    /// Whether the child is itself a directory.
    pub is_dir: bool,
}

/// What the driver read of one directory. Children that could not be read are
/// simply absent; a directory that could not be read has none.
#[derive(Clone, Debug, PartialEq, Eq)]
pub struct DirectoryContents {
    /// The directory that was read.
    pub path: String,
    /// Its parent, if the host knows one.
    pub parent: Option<String>,
    /// Its children, in whatever order the host returned them.
    pub children: Vec<Child>,
}

/// One line of the file browser.
#[derive(Clone, Debug, PartialEq, Eq)]
pub enum Entry {
    /// The way up to the parent directory.
    Parent,
    /// A subdirectory to navigate into.
    Directory { path: String, name: String },
    /// A backup file that can be chosen.
    File { path: String, name: String },
}

/// A child as contracts see it: its texts as sequences of characters.
pub struct ChildView {
    pub path: Seq<char>,
    pub name: Seq<char>,
    pub is_dir: bool,
}

/// What was read of a directory, as contracts see it.
pub struct DirectoryView {
    pub path: Seq<char>,
    pub parent: Option<Seq<char>>,
    pub children: Seq<ChildView>,
}

/// A line of the file browser, as contracts see it.
pub enum EntryView {
    Parent,
    Directory { path: Seq<char>, name: Seq<char> },
    File { path: Seq<char>, name: Seq<char> },
}

impl View for Child {
    type V = ChildView;

    open spec fn view(&self) -> ChildView {
        ChildView { path: self.path@, name: self.name@, is_dir: self.is_dir }
    }
}

impl View for DirectoryContents {
    type V = DirectoryView;

    open spec fn view(&self) -> DirectoryView {
        DirectoryView {
            path: self.path@,
            parent: text_view(self.parent),
            children: child_views(self.children@),
        }
    }
}

impl View for Entry {
    type V = EntryView;

    open spec fn view(&self) -> EntryView {
        match *self {
            Entry::Parent => EntryView::Parent,
            Entry::Directory { path, name } => EntryView::Directory { path: path@, name: name@ },
            Entry::File { path, name } => EntryView::File { path: path@, name: name@ },
        }
    }
}

/// The views of a sequence of children.
pub open spec fn child_views(children: Seq<Child>) -> Seq<ChildView> {
    children.map_values(|c: Child| c@)
}

/// The views of a sequence of entries.
pub open spec fn entry_views(entries: Seq<Entry>) -> Seq<EntryView> {
    entries.map_values(|e: Entry| e@)
}

impl EntryView {
    /// The group of the entry: the parent entry, then directories, then files.
    pub open spec fn rank(self) -> int {
        match self {
            EntryView::Parent => 0,
            EntryView::Directory { .. } => 1,
            EntryView::File { .. } => 2,
        }
    }

    /// The full path of the entry; the parent entry has none.
    pub open spec fn path(self) -> Seq<char> {
        match self {
            EntryView::Parent => Seq::empty(),
            EntryView::Directory { path, .. } => path,
            EntryView::File { path, .. } => path,
        }
    }

    /// The name under which the entry is shown; the parent entry has none.
    pub open spec fn name(self) -> Seq<char> {
        match self {
            EntryView::Parent => Seq::empty(),
            EntryView::Directory { name, .. } => name,
            EntryView::File { name, .. } => name,
        }
    }
}

/// The extension that marks a backup file.
pub open spec fn backup_extension() -> Seq<char> {
    "xml"@
}

/// A directory gets a parent entry if it has a parent and the parent is not
/// the empty path.
pub open spec fn shows_parent(parent: Option<Seq<char>>) -> bool {
    match parent {
        Some(p) => p.len() > 0,
        None => false,
    }
}

/// A child is listed if it is a directory or a backup file.
pub open spec fn is_listed(child: ChildView) -> bool {
    child.is_dir || has_extension(child.name, backup_extension())
}

/// The entry under which a listed child appears.
pub open spec fn entry_of(child: ChildView) -> EntryView {
    if child.is_dir {
        EntryView::Directory { path: child.path, name: child.name }
    } else {
        EntryView::File { path: child.path, name: child.name }
    }
}

/// The order of a listing: by group, then by full path, then by name.
pub open spec fn entry_le(a: EntryView, b: EntryView) -> bool {
    ||| a.rank() < b.rank()
    ||| a.rank() == b.rank() && match text_order_of(a.path(), b.path()) {
        TextOrder::Before => true,
        TextOrder::Same => text_le(a.name(), b.name()),
        TextOrder::After => false,
    }
}

/// [`entry_le`] as a relation.
pub open spec fn entry_order() -> spec_fn(EntryView, EntryView) -> bool {
    |a: EntryView, b: EntryView| entry_le(a, b)
}

/// The entries of the listed children, in the order in which they were read.
pub open spec fn listed_children(children: Seq<ChildView>) -> Seq<EntryView> {
    children.filter(|c: ChildView| is_listed(c)).map_values(|c: ChildView| entry_of(c))
}

/// The parent entry alone, or nothing.
pub open spec fn parent_part(parent: Option<Seq<char>>) -> Seq<EntryView> {
    if shows_parent(parent) {
        seq![EntryView::Parent]
    } else {
        Seq::empty()
    }
}

/// The listing of a directory: the parent entry if it is shown, then the
/// listed children in order.
pub open spec fn listing(dir: DirectoryView) -> Seq<EntryView> {
    parent_part(dir.parent) + listed_children(dir.children).sort_by(entry_order())
}

/// The order of a listing is a total order on entries.
pub proof fn lemma_entry_order_total()
    ensures
        total_ordering(entry_order()),
{
    let le = entry_order();
    assert forall|a: EntryView| #[trigger] le(a, a) by {
        lemma_same_iff_equal(a.path(), a.path());
        lemma_same_iff_equal(a.name(), a.name());
    }
    assert forall|a: EntryView, b: EntryView| #[trigger] le(a, b) && #[trigger] le(b, a) implies a
        == b by {
        lemma_order_flips(a.path(), b.path());
        lemma_same_iff_equal(a.path(), b.path());
        lemma_order_flips(a.name(), b.name());
        lemma_same_iff_equal(a.name(), b.name());
    }
    assert forall|a: EntryView, b: EntryView, c: EntryView| #[trigger] le(a, b) && #[trigger] le(
        b,
        c,
    ) implies le(a, c) by {
        if a.rank() == b.rank() && b.rank() == c.rank() {
            lemma_text_le_transitive(a.path(), b.path(), c.path());
            lemma_same_iff_equal(a.path(), b.path());
            lemma_same_iff_equal(b.path(), c.path());
            lemma_same_iff_equal(a.path(), c.path());
            if text_order_of(a.path(), c.path()) is Same {
                lemma_order_flips(a.path(), b.path());
                lemma_text_le_transitive(a.name(), b.name(), c.name());
            }
        }
    }
    assert forall|a: EntryView, b: EntryView| #[trigger] le(a, b) || #[trigger] le(b, a) by {
        lemma_order_flips(a.path(), b.path());
        lemma_order_flips(a.name(), b.name());
    }
}

/// The child that an entry stands for. The parent entry stands for none.
pub open spec fn child_of(entry: EntryView) -> ChildView {
    match entry {
        EntryView::Parent => ChildView { path: Seq::empty(), name: Seq::empty(), is_dir: true },
        EntryView::Directory { path, name } => ChildView { path, name, is_dir: true },
        EntryView::File { path, name } => ChildView { path, name, is_dir: false },
    }
}

/// How often an entry occurs among the listed children, told from how often
/// each child was read.
pub open spec fn listed_count(read: Multiset<ChildView>, entry: EntryView) -> nat {
    if entry is Parent || !is_listed(child_of(entry)) {
        0
    } else {
        read.count(child_of(entry))
    }
}

/// Every entry occurs among the listed children as often as its child was
/// read, if that child is listed, and not at all otherwise.
pub proof fn lemma_listed_children_count(children: Seq<ChildView>, entry: EntryView)
    ensures
        listed_children(children).to_multiset().count(entry) == listed_count(
            children.to_multiset(),
            entry,
        ),
    decreases children.len(),
{
    broadcast use group_to_multiset_ensures;
    broadcast use vstd::multiset::group_multiset_axioms;
    broadcast use vstd::multiset::group_multiset_properties;

    if children.len() == 0 {
        reveal_with_fuel(Seq::filter, 1);
        assert(listed_children(children) =~= Seq::<EntryView>::empty());
    } else {
        let n = children.len() - 1;
        let before = children.take(n);
        let last = children[n];
        lemma_listed_children_count(before, entry);
        lemma_listed_children_step(children, n);
        assert(children.take(n + 1) =~= children);
        assert(children =~= before.push(last));
        assert(child_of(entry_of(last)) == last);
        if is_listed(last) {
            assert(listed_children(children).to_multiset() =~= listed_children(
                before,
            ).to_multiset().insert(entry_of(last)));
        }
        if !(entry is Parent) {
            assert(entry_of(child_of(entry)) == entry);
        }
    }
}

/// The listing does not depend on the order in which the children were read:
/// two readings of a directory that hold the same children, each as often,
/// give the same listing. In particular, listing an unchanged directory again
/// gives the same entries in the same order.
pub proof fn lemma_listing_ignores_read_order(first: DirectoryView, second: DirectoryView)
    requires
        first.parent == second.parent,
        first.children.to_multiset() == second.children.to_multiset(),
    ensures
        listing(first) == listing(second),
{
    let a = listed_children(first.children);
    let b = listed_children(second.children);
    assert forall|entry: EntryView| a.to_multiset().count(entry) == b.to_multiset().count(
        entry,
    ) by {
        lemma_listed_children_count(first.children, entry);
        lemma_listed_children_count(second.children, entry);
    }
    assert(a.to_multiset() =~= b.to_multiset());
    lemma_entry_order_total();
    a.lemma_sort_by_ensures(entry_order());
    b.lemma_sort_by_ensures(entry_order());
    lemma_sorted_unique(a.sort_by(entry_order()), b.sort_by(entry_order()), entry_order());
}

/// The listing holds the parent entry, if it is shown, and besides it each
/// listed child as often as it was read, and nothing else.
pub proof fn lemma_listing_holds_the_listed(dir: DirectoryView, entry: EntryView)
    ensures
        listing(dir).to_multiset().count(entry) == if entry is Parent {
            if shows_parent(dir.parent) {
                1nat
            } else {
                0nat
            }
        } else {
            listed_count(dir.children.to_multiset(), entry)
        },
{
    broadcast use group_to_multiset_ensures;
    broadcast use vstd::multiset::group_multiset_axioms;
    broadcast use vstd::multiset::group_multiset_properties;

    let listed = listed_children(dir.children);
    let sorted = listed.sort_by(entry_order());
    lemma_entry_order_total();
    listed.lemma_sort_by_ensures(entry_order());
    lemma_listed_children_count(dir.children, entry);
    vstd::seq_lib::lemma_multiset_commutative(parent_part(dir.parent), sorted);
    if shows_parent(dir.parent) {
        assert(parent_part(dir.parent) =~= Seq::<EntryView>::empty().push(EntryView::Parent));
        assert(parent_part(dir.parent).to_multiset() =~= Multiset::<EntryView>::empty().insert(
            EntryView::Parent,
        ));
    }
}

/// The order that every listing is in: the parent entry stands first and
/// nowhere else, every directory stands before every file, and the
/// directories and the files are each in lexicographic order of their full
/// paths.
pub open spec fn in_listing_order(entries: Seq<EntryView>) -> bool {
    &&& forall|i: int| 0 <= i < entries.len() && #[trigger] entries[i] is Parent ==> i == 0
    &&& forall|i: int, j: int|
        0 <= i < entries.len() && 0 <= j < entries.len() && #[trigger] entries[i] is Directory
            && #[trigger] entries[j] is File ==> i < j
    &&& forall|i: int, j: int|
        0 <= i < j < entries.len() && (#[trigger] entries[i]).rank() == (
        #[trigger] entries[j]).rank() ==> text_le(entries[i].path(), entries[j].path())
}

/// The filter that every listing has passed: each of its files has the
/// backup extension.
pub open spec fn only_backup_files(entries: Seq<EntryView>) -> bool {
    forall|i: int|
        0 <= i < entries.len() && #[trigger] entries[i] is File ==> has_extension(
            entries[i].name(),
            backup_extension(),
        )
}

/// A listing is in listing order, and it starts with the parent entry exactly
/// when the directory shows one.
pub proof fn lemma_listing_is_ordered(dir: DirectoryView)
    ensures
        in_listing_order(listing(dir)),
        shows_parent(dir.parent) <==> listing(dir).len() > 0 && listing(dir)[0] is Parent,
{
    broadcast use group_to_multiset_ensures;

    let head = parent_part(dir.parent);
    let listed = listed_children(dir.children);
    let sorted = listed.sort_by(entry_order());
    let all = listing(dir);
    lemma_entry_order_total();
    listed.lemma_sort_by_ensures(entry_order());
    assert forall|k: int| 0 <= k < sorted.len() implies !(#[trigger] sorted[k] is Parent) by {
        lemma_listed_children_count(dir.children, sorted[k]);
        assert(sorted.contains(sorted[k]));
        assert(sorted.to_multiset().count(sorted[k]) > 0);
    }
    assert forall|i: int| 0 <= i < all.len() && #[trigger] all[i] is Parent implies i == 0
        && shows_parent(dir.parent) by {
        if i >= head.len() {
            assert(all[i] == sorted[i - head.len()]);
        }
    }
    assert forall|i: int, j: int|
        0 <= i < all.len() && 0 <= j < all.len() && #[trigger] all[i] is Directory
            && #[trigger] all[j] is File implies i < j by {
        assert(all[i] == sorted[i - head.len()]);
        assert(all[j] == sorted[j - head.len()]);
        if j < i {
            assert(entry_order()(sorted[j - head.len()], sorted[i - head.len()]));
        }
    }
    assert forall|i: int, j: int|
        0 <= i < j < all.len() && (#[trigger] all[i]).rank() == (#[trigger] all[j]).rank()
        implies text_le(all[i].path(), all[j].path()) by {
        if i >= head.len() {
            assert(all[i] == sorted[i - head.len()]);
            assert(all[j] == sorted[j - head.len()]);
            assert(entry_order()(sorted[i - head.len()], sorted[j - head.len()]));
        }
    }
    if !shows_parent(dir.parent) && all.len() > 0 {
        assert(all[0] == sorted[0]);
    }
}

/// A listing has passed the filter, and every entry of it but the parent
/// entry stands for a child that was read.
pub proof fn lemma_listing_shows_only_backups(dir: DirectoryView)
    ensures
        only_backup_files(listing(dir)),
        forall|i: int|
            0 <= i < listing(dir).len() && !(#[trigger] listing(dir)[i] is Parent)
                ==> dir.children.contains(child_of(listing(dir)[i])),
{
    broadcast use group_to_multiset_ensures;

    let all = listing(dir);
    assert forall|i: int| 0 <= i < all.len() && !(#[trigger] all[i] is Parent) implies is_listed(
        child_of(all[i]),
    ) && dir.children.contains(child_of(all[i])) by {
        lemma_listing_holds_the_listed(dir, all[i]);
        assert(all.contains(all[i]));
        assert(all.to_multiset().count(all[i]) > 0);
        assert(dir.children.to_multiset().count(child_of(all[i])) > 0);
    }
}

/// No two children have the same full path, as in any directory that was
/// read once.
pub open spec fn distinct_paths(children: Seq<ChildView>) -> bool {
    forall|i: int, j: int|
        0 <= i < children.len() && 0 <= j < children.len() && i != j ==> (
        #[trigger] children[i]).path != (#[trigger] children[j]).path
}

/// Within each group the full paths ascend strictly: no path stands twice.
pub open spec fn strictly_ascending(entries: Seq<EntryView>) -> bool {
    forall|i: int, j: int|
        0 <= i < j < entries.len() && (#[trigger] entries[i]).rank() == (
        #[trigger] entries[j]).rank() ==> text_order_of(entries[i].path(), entries[j].path())
            is Before
}

/// Where no two children share a full path, the directories of the listing
/// and its files are each in strictly ascending order of their full paths,
/// in whatever order the children were read.
pub proof fn lemma_listing_is_strictly_ordered(dir: DirectoryView)
    requires
        distinct_paths(dir.children),
    ensures
        strictly_ascending(listing(dir)),
        listing(dir).no_duplicates(),
{
    broadcast use group_to_multiset_ensures;

    let all = listing(dir);
    let children = dir.children;
    lemma_listing_is_ordered(dir);
    lemma_listing_shows_only_backups(dir);
    assert(children.no_duplicates());
    children.lemma_multiset_has_no_duplicates();
    assert forall|x: EntryView| all.to_multiset().contains(x) implies all.to_multiset().count(x)
        == 1 by {
        lemma_listing_holds_the_listed(dir, x);
    }
    all.lemma_multiset_has_no_duplicates_conv();
    assert forall|i: int, j: int|
        0 <= i < j < all.len() && (#[trigger] all[i]).rank() == (#[trigger] all[j]).rank()
        implies text_order_of(all[i].path(), all[j].path()) is Before by {
        lemma_same_iff_equal(all[i].path(), all[j].path());
        if text_order_of(all[i].path(), all[j].path()) is Same {
            let first = child_of(all[i]);
            let second = child_of(all[j]);
            assert(children.contains(first));
            assert(children.contains(second));
            let a = choose|a: int| 0 <= a < children.len() && children[a] == first;
            let b = choose|b: int| 0 <= b < children.len() && children[b] == second;
            assert(children[a].path == children[b].path);
            assert(a == b);
            assert(entry_of(first) == all[i]);
            assert(entry_of(second) == all[j]);
            assert(all[i] == all[j]);
        }
    }
}

/// Inserting an entry between what comes no later and what comes no earlier
/// keeps a sequence sorted and adds just that entry to it.
proof fn lemma_insert_keeps_sorted(sorted: Seq<EntryView>, pos: int, entry: EntryView)
    requires
        sorted_by(sorted, entry_order()),
        0 <= pos <= sorted.len(),
        forall|k: int| 0 <= k < pos ==> entry_le(#[trigger] sorted[k], entry),
        forall|k: int| pos <= k < sorted.len() ==> entry_le(entry, #[trigger] sorted[k]),
    ensures
        sorted_by(sorted.insert(pos, entry), entry_order()),
        sorted.insert(pos, entry).to_multiset() == sorted.to_multiset().insert(entry),
{
    broadcast use group_to_multiset_ensures;

    let grown = sorted.insert(pos, entry);
    assert forall|i: int, j: int| 0 <= i < j < grown.len() implies #[trigger] entry_order()(
        grown[i],
        grown[j],
    ) by {
        if j < pos {
            assert(entry_order()(sorted[i], sorted[j]));
        } else if j == pos {
            assert(entry_le(sorted[i], entry));
        } else if i < pos {
            assert(entry_order()(sorted[i], sorted[j - 1]));
        } else if i == pos {
            assert(entry_le(entry, sorted[j - 1]));
        } else {
            assert(entry_order()(sorted[i - 1], sorted[j - 1]));
        }
    }
}

/// Reading one more child extends the listed children by its entry, if it is
/// listed, and by nothing otherwise.
proof fn lemma_listed_children_step(children: Seq<ChildView>, i: int)
    requires
        0 <= i < children.len(),
    ensures
        listed_children(children.take(i + 1)) == if is_listed(children[i]) {
            listed_children(children.take(i)).push(entry_of(children[i]))
        } else {
            listed_children(children.take(i))
        },
{
    let pred = |c: ChildView| is_listed(c);
    let before = children.take(i);
    assert(children.take(i + 1) =~= before.push(children[i]));
    before.lemma_filter_push(children[i], pred);
    if is_listed(children[i]) {
        assert(before.filter(pred).push(children[i]).map_values(|c: ChildView| entry_of(c))
            =~= before.filter(pred).map_values(|c: ChildView| entry_of(c)).push(
            entry_of(children[i]),
        ));
    }
}

/// The group of an entry.
fn entry_rank(entry: &Entry) -> (r: u8)
    ensures
        r == entry@.rank(),
{
    match entry {
        Entry::Parent => 0,
        Entry::Directory { .. } => 1,
        Entry::File { .. } => 2,
    }
}

/// Whether a path and name come no later than another path and name.
fn key_precedes(path: &String, name: &String, other_path: &String, other_name: &String) -> (r:
    bool)
    ensures
        r == match text_order_of(path@, other_path@) {
            TextOrder::Before => true,
            TextOrder::Same => text_le(name@, other_name@),
            TextOrder::After => false,
        },
{
    match text_order(path.as_str(), other_path.as_str()) {
        TextOrder::Before => true,
        TextOrder::Same => match text_order(name.as_str(), other_name.as_str()) {
            TextOrder::After => false,
            _ => true,
        },
        TextOrder::After => false,
    }
}

/// Whether `a` comes no later than `b` in a listing.
pub fn entry_precedes(a: &Entry, b: &Entry) -> (r: bool)
    ensures
        r == entry_le(a@, b@),
{
    let rank_a: u8 = entry_rank(a);
    let rank_b: u8 = entry_rank(b);
    if rank_a != rank_b {
        return rank_a < rank_b;
    }
    match a {
        Entry::Parent => {
            proof {
                lemma_same_iff_equal(a@.path(), b@.path());
                lemma_same_iff_equal(a@.name(), b@.name());
            }
            true
        },
        Entry::Directory { path, name } => match b {
            Entry::Directory { path: other_path, name: other_name } => key_precedes(
                path,
                name,
                other_path,
                other_name,
            ),
            _ => true,
        },
        Entry::File { path, name } => match b {
            Entry::File { path: other_path, name: other_name } => key_precedes(
                path,
                name,
                other_path,
                other_name,
            ),
            _ => true,
        },
    }
}

/// The position at which `entry` enters a sorted list: after everything that
/// comes no later, before everything that comes later.
fn insertion_point(sorted: &Vec<Entry>, entry: &Entry) -> (pos: usize)
    requires
        sorted_by(entry_views(sorted@), entry_order()),
    ensures
        pos <= sorted.len(),
        forall|k: int| 0 <= k < pos ==> entry_le(#[trigger] entry_views(sorted@)[k], entry@),
        forall|k: int|
            pos <= k < sorted.len() ==> entry_le(entry@, #[trigger] entry_views(sorted@)[k]),
{
    let ghost views = entry_views(sorted@);
    let mut pos: usize = 0;
    while pos < sorted.len()
        invariant
            pos <= sorted.len(),
            views == entry_views(sorted@),
            sorted_by(views, entry_order()),
            forall|k: int| 0 <= k < pos ==> entry_le(#[trigger] views[k], entry@),
        decreases sorted.len() - pos,
    {
        if !entry_precedes(&sorted[pos], entry) {
            proof {
                lemma_entry_order_total();
                let le = entry_order();
                assert(le(views[pos as int], entry@) || le(entry@, views[pos as int]));
                assert forall|k: int| pos <= k < sorted.len() implies entry_le(
                    entry@,
                    #[trigger] views[k],
                ) by {
                    if k > pos {
                        assert(le(views[pos as int], views[k]));
                        assert(le(entry@, views[pos as int]) && le(views[pos as int], views[k]));
                    }
                }
            }
            return pos;
        }
        pos = pos + 1;
    }
    pos
}

/// The entry under which a listed child appears.
fn entry_for(child: &Child) -> (entry: Entry)
    ensures
        entry@ == entry_of(child@),
{
    if child.is_dir {
        Entry::Directory { path: child.path.clone(), name: child.name.clone() }
    } else {
        Entry::File { path: child.path.clone(), name: child.name.clone() }
    }
}

/// Whether a child is listed: a directory, or a file with the backup extension.
pub fn child_is_listed(child: &Child) -> (r: bool)
    ensures
        r == is_listed(child@),
{
    child.is_dir || name_has_extension(child.name.as_str(), "xml")
}

/// Whether a directory with this parent gets a parent entry.
pub fn parent_is_shown(parent: &Option<String>) -> (r: bool)
    ensures
        r == shows_parent(text_view(*parent)),
{
    match parent {
        Some(p) => !p.as_str().is_empty(),
        None => false,
    }
}

/// Lists a directory from what was read of it.
pub fn list(dir: &DirectoryContents) -> (entries: Vec<Entry>)
    ensures
        entry_views(entries@) == listing(dir@),
        in_listing_order(entry_views(entries@)),
        only_backup_files(entry_views(entries@)),
        shows_parent(dir@.parent) <==> entries.len() > 0 && entries@[0]@ is Parent,
        distinct_paths(dir@.children) ==> strictly_ascending(entry_views(entries@)),
{
    proof {
        lemma_listing_is_ordered(dir@);
        lemma_listing_shows_only_backups(dir@);
        if distinct_paths(dir@.children) {
            lemma_listing_is_strictly_ordered(dir@);
        }
    }
    let ghost children = child_views(dir.children@);
    let mut sorted: Vec<Entry> = Vec::new();
    let mut i: usize = 0;
    proof {
        reveal_with_fuel(Seq::filter, 1);
        assert(listed_children(children.take(0)) =~= Seq::<EntryView>::empty());
        assert(entry_views(sorted@) =~= Seq::<EntryView>::empty());
    }
    while i < dir.children.len()
        invariant
            i <= dir.children.len(),
            children == child_views(dir.children@),
            sorted_by(entry_views(sorted@), entry_order()),
            entry_views(sorted@).to_multiset() == listed_children(
                children.take(i as int),
            ).to_multiset(),
        decreases dir.children.len() - i,
    {
        let child = &dir.children[i];
        proof {
            lemma_listed_children_step(children, i as int);
            assert(children[i as int] == child@);
        }
        if child_is_listed(child) {
            let entry = entry_for(child);
            let pos = insertion_point(&sorted, &entry);
            proof {
                broadcast use group_to_multiset_ensures;

                lemma_insert_keeps_sorted(entry_views(sorted@), pos as int, entry@);
                assert(entry_views(sorted@.insert(pos as int, entry)) =~= entry_views(
                    sorted@,
                ).insert(pos as int, entry@));
            }
            sorted.insert(pos, entry);
        }
        i = i + 1;
    }
    proof {
        assert(children.take(i as int) =~= children);
        lemma_entry_order_total();
        let listed = listed_children(children);
        listed.lemma_sort_by_ensures(entry_order());
        lemma_sorted_unique(entry_views(sorted@), listed.sort_by(entry_order()), entry_order());
    }
    let mut entries: Vec<Entry> = Vec::new();
    if parent_is_shown(&dir.parent) {
        entries.push(Entry::Parent);
    }
    proof {
        assert(entry_views(entries@) =~= parent_part(dir@.parent));
        assert(entry_views(entries@ + sorted@) =~= entry_views(entries@) + entry_views(sorted@));
    }
    entries.append(&mut sorted);
    entries
}

} // verus!
