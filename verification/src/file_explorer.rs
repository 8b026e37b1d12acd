use vstd::prelude::*;
use crate::paths::{has_conf_extension, is_conf_path, parent_of, path_parent};
use crate::explorer_laws::law_sort_by_name;
use crate::text::{lemma_text_le_transitive, text_le, text_le_exec};

verus! {

/// One row of the file browser.
pub struct DirEntry {
    pub name: String,
    pub path: String,
    pub is_dir: bool,
    pub is_conf: bool,
}

/// The value of a [`DirEntry`], with texts in place of strings.
pub struct DirEntryView {
    pub name: Seq<char>,
    pub path: Seq<char>,
    pub is_dir: bool,
    pub is_conf: bool,
}

impl View for DirEntry {
    type V = DirEntryView;

    open spec fn view(&self) -> DirEntryView {
        DirEntryView { name: self.name@, path: self.path@, is_dir: self.is_dir, is_conf: self.is_conf }
    }
}

/// One item of a directory listing, as read from the file system.
pub struct ListedEntry {
    pub name: String,
    pub path: String,
    pub is_dir: bool,
}

/// The value of a [`ListedEntry`].
pub struct ListedEntryView {
    pub name: Seq<char>,
    pub path: Seq<char>,
    pub is_dir: bool,
}

impl View for ListedEntry {
    type V = ListedEntryView;

    open spec fn view(&self) -> ListedEntryView {
        ListedEntryView { name: self.name@, path: self.path@, is_dir: self.is_dir }
    }
}

impl ListedEntry {
    pub fn new(name: String, path: String, is_dir: bool) -> (e: Self)
        ensures
            e.name == name,
            e.path == path,
            e.is_dir == is_dir,
    {
        ListedEntry { name, path, is_dir }
    }
}

pub open spec fn entries_view(v: Seq<DirEntry>) -> Seq<DirEntryView> {
    v.map_values(|e: DirEntry| e@)
}

pub open spec fn listing_view(v: Seq<ListedEntry>) -> Seq<ListedEntryView> {
    v.map_values(|e: ListedEntry| e@)
}

/// A name that starts with a dot is hidden from the browser.
pub open spec fn is_hidden(name: Seq<char>) -> bool {
    name.len() > 0 && name[0] == '.'
}

/// The browser row for a listed item.
pub open spec fn entry_of(l: ListedEntryView) -> DirEntryView {
    DirEntryView { name: l.name, path: l.path, is_dir: l.is_dir, is_conf: has_conf_extension(l.path) }
}

/// The rows for the visible directories (`dirs`) or visible other items
/// (`!dirs`) of a listing, in listing order.
pub open spec fn visible_group(listing: Seq<ListedEntryView>, dirs: bool) -> Seq<DirEntryView>
    decreases listing.len(),
{
    if listing.len() == 0 {
        Seq::empty()
    } else {
        let rest = visible_group(listing.drop_last(), dirs);
        let l = listing.last();
        if !is_hidden(l.name) && l.is_dir == dirs {
            rest.push(entry_of(l))
        } else {
            rest
        }
    }
}

/// Inserts `e` into `s` after every trailing row whose name sorts after it;
/// on a sequence sorted by name this is the stable insertion point.
pub open spec fn insert_by_name(s: Seq<DirEntryView>, e: DirEntryView) -> Seq<DirEntryView>
    decreases s.len(),
{
    if s.len() == 0 {
        seq![e]
    } else if text_le(s.last().name, e.name) {
        s.push(e)
    } else {
        insert_by_name(s.drop_last(), e).push(s.last())
    }
}

/// The stable sort of `s` by name.
pub open spec fn sort_by_name(s: Seq<DirEntryView>) -> Seq<DirEntryView>
    decreases s.len(),
{
    if s.len() == 0 {
        s
    } else {
        insert_by_name(sort_by_name(s.drop_last()), s.last())
    }
}

/// The row that leads to the parent directory, if there is one.
pub open spec fn parent_rows(parent: Option<Seq<char>>) -> Seq<DirEntryView> {
    match parent {
        Some(p) => seq![DirEntryView { name: ".."@, path: p, is_dir: true, is_conf: false }],
        None => Seq::empty(),
    }
}

/// The rows of a directory: the parent row, then the visible directories
/// sorted by name, then the visible other items sorted by name.
pub open spec fn directory_rows(parent: Option<Seq<char>>, listing: Seq<ListedEntryView>) -> Seq<
    DirEntryView,
> {
    parent_rows(parent) + sort_by_name(visible_group(listing, true)) + sort_by_name(
        visible_group(listing, false),
    )
}

/// Whether a name starts with a dot.
fn is_hidden_name(name: &str) -> (r: bool)
    ensures
        r == is_hidden(name@),
{
    if name.is_empty() {
        false
    } else {
        name.get_char(0) == '.'
    }
}

/// Rows in non-decreasing order of name.
pub open spec fn sorted_by_name(s: Seq<DirEntryView>) -> bool {
    forall|i: int, j: int| 0 <= i < j < s.len() ==> text_le(#[trigger] s[i].name, #[trigger] s[j].name)
}

/// When the rows before `j` sort at or before `e` and those from `j` on
/// after it, `e` goes in at `j`.
proof fn lemma_insert_at_partition(s: Seq<DirEntryView>, e: DirEntryView, j: int)
    requires
        0 <= j <= s.len(),
        forall|k: int| 0 <= k < j ==> text_le(#[trigger] s[k].name, e.name),
        forall|k: int| j <= k < s.len() ==> !text_le(#[trigger] s[k].name, e.name),
    ensures
        insert_by_name(s, e) == s.take(j).push(e) + s.skip(j),
    decreases s.len(),
{
    if s.len() == 0 {
        assert(s.take(j).push(e) + s.skip(j) =~= seq![e]);
    } else if j == s.len() {
        assert(text_le(s[s.len() - 1].name, e.name));
        assert(s.take(j).push(e) + s.skip(j) =~= s.push(e));
    } else {
        let s0 = s.drop_last();
        assert(!text_le(s[s.len() - 1].name, e.name));
        assert forall|k: int| 0 <= k < j implies text_le(#[trigger] s0[k].name, e.name) by {
            assert(s0[k] == s[k]);
        }
        assert forall|k: int| j <= k < s0.len() implies !text_le(#[trigger] s0[k].name, e.name) by {
            assert(s0[k] == s[k]);
        }
        lemma_insert_at_partition(s0, e, j);
        assert((s0.take(j).push(e) + s0.skip(j)).push(s.last()) =~= s.take(j).push(e) + s.skip(j));
    }
}

/// Inserts `e` into the name-sorted `v` at its stable position, found by
/// binary search.
fn insert_sorted(v: &mut Vec<DirEntry>, e: DirEntry)
    requires
        sorted_by_name(entries_view(old(v)@)),
    ensures
        entries_view(final(v)@) == insert_by_name(entries_view(old(v)@), e@),
{
    let ghost s = entries_view(v@);
    let mut lo: usize = 0;
    let mut hi: usize = v.len();
    while lo < hi
        invariant
            s == entries_view(v@),
            sorted_by_name(s),
            lo <= hi <= v.len(),
            forall|k: int| 0 <= k < lo ==> text_le(#[trigger] s[k].name, e.name@),
            forall|k: int| hi <= k < s.len() ==> !text_le(#[trigger] s[k].name, e.name@),
        decreases hi - lo,
    {
        let mid = lo + (hi - lo) / 2;
        if text_le_exec(v[mid].name.as_str(), e.name.as_str()) {
            assert forall|k: int| 0 <= k < mid + 1 implies text_le(#[trigger] s[k].name, e.name@) by {
                if k < mid {
                    lemma_text_le_transitive(s[k].name, s[mid as int].name, e.name@);
                }
            }
            lo = mid + 1;
        } else {
            assert forall|k: int| mid <= k < s.len() implies !text_le(#[trigger] s[k].name, e.name@) by {
                if k > mid && text_le(s[k].name, e.name@) {
                    lemma_text_le_transitive(s[mid as int].name, s[k].name, e.name@);
                }
            }
            hi = mid;
        }
    }
    proof {
        lemma_insert_at_partition(s, e@, lo as int);
    }
    v.insert(lo, e);
    assert(entries_view(v@) =~= s.take(lo as int).push(e@) + s.skip(lo as int));
}

/// Builds the browser row for a listed item.
fn row_for(l: &ListedEntry) -> (e: DirEntry)
    ensures
        e@ == entry_of(l@),
{
    DirEntry {
        name: l.name.clone(),
        path: l.path.clone(),
        is_dir: l.is_dir,
        is_conf: is_conf_path(l.path.as_str()),
    }
}

/// Where the selection and the scroll position go when the selection moves
/// up one row: `(selected, scroll_offset)`.
pub open spec fn cursor_up(selected: int, scroll: int) -> (int, int) {
    if selected > 0 {
        let s = selected - 1;
        (s, if s < scroll { scroll - 1 } else { scroll })
    } else {
        (selected, scroll)
    }
}

/// Where the selection and the scroll position go when the selection moves
/// down one row in a list of `len` rows of which `height` are shown.
pub open spec fn cursor_down(selected: int, scroll: int, len: int, height: int) -> (int, int) {
    if selected + 1 < len {
        let s = selected + 1;
        (s, if s >= scroll + height { scroll + 1 } else { scroll })
    } else {
        (selected, scroll)
    }
}

/// What confirming the selected row asks for.
pub enum EnterResult {
    /// The selection was a directory: `current_dir` now names it and its
    /// listing must be read and handed to `reload`.
    Directory,
    /// The selection was a `.conf` file, at this path.
    Config(String),
    /// Any other file: nothing happens.
    Ignored,
}

/// How a row is drawn.
#[derive(Debug, Clone, Copy, PartialEq, Eq, Structural)]
pub enum EntryKind {
    Directory,
    Config,
    Other,
}

pub open spec fn kind_of(e: DirEntryView) -> EntryKind {
    if e.is_dir {
        EntryKind::Directory
    } else if e.is_conf {
        EntryKind::Config
    } else {
        EntryKind::Other
    }
}

/// A row on screen: which entry, how it is drawn, whether it is selected.
pub struct ListRow {
    pub index: usize,
    pub kind: EntryKind,
    pub selected: bool,
}

/// How many rows of a list of `len` are shown from row `scroll` on, in a
/// window of `height` rows.
pub open spec fn shown_count(len: int, scroll: int, height: int) -> int {
    if scroll >= len {
        0
    } else if len - scroll < height {
        len - scroll
    } else {
        height
    }
}

/// The value of a [`FileExplorer`].
pub struct ExplorerView {
    pub current_dir: Seq<char>,
    pub entries: Seq<DirEntryView>,
    pub selected: usize,
    pub scroll_offset: usize,
}

/// The value of an [`EnterResult`].
pub enum EnterView {
    Directory,
    Config(Seq<char>),
    Ignored,
}

impl View for EnterResult {
    type V = EnterView;

    open spec fn view(&self) -> EnterView {
        match self {
            EnterResult::Directory => EnterView::Directory,
            EnterResult::Config(p) => EnterView::Config(p@),
            EnterResult::Ignored => EnterView::Ignored,
        }
    }
}

/// The browser after the selection moved one row up.
pub open spec fn explorer_up(e: ExplorerView) -> ExplorerView {
    let (s, o) = cursor_up(e.selected as int, e.scroll_offset as int);
    ExplorerView { selected: s as usize, scroll_offset: o as usize, ..e }
}

/// The browser after the selection moved one row down in a window of
/// `height` rows.
pub open spec fn explorer_down(e: ExplorerView, height: int) -> ExplorerView {
    let (s, o) = cursor_down(e.selected as int, e.scroll_offset as int, e.entries.len() as int, height);
    ExplorerView { selected: s as usize, scroll_offset: o as usize, ..e }
}

/// The browser after the selected row was confirmed, and what that asks for.
pub open spec fn explorer_enter(e: ExplorerView) -> (ExplorerView, EnterView) {
    let row = e.entries[e.selected as int];
    if row.is_dir {
        (ExplorerView { current_dir: row.path, ..e }, EnterView::Directory)
    } else if row.is_conf {
        (e, EnterView::Config(row.path))
    } else {
        (e, EnterView::Ignored)
    }
}

/// A browser over the file system that lists one directory at a time.
pub struct FileExplorer {
    pub current_dir: String,
    pub entries: Vec<DirEntry>,
    pub selected: usize,
    pub scroll_offset: usize,
}

impl View for FileExplorer {
    type V = ExplorerView;

    open spec fn view(&self) -> ExplorerView {
        ExplorerView {
            current_dir: self.current_dir@,
            entries: entries_view(self.entries@),
            selected: self.selected,
            scroll_offset: self.scroll_offset,
        }
    }
}

impl FileExplorer {
    /// The selection is on a row (or at 0 in an empty list) and the first
    /// shown row is not below it.
    pub open spec fn wf(&self) -> bool {
        &&& self.scroll_offset <= self.selected
        &&& (self.selected < self.entries.len() || (self.entries.len() == 0 && self.selected == 0))
    }

    /// A browser on `home`, or on `/` when there is no home directory.
    /// Its list is empty until the directory's listing is handed to `reload`.
    pub fn new(home: Option<String>) -> (e: Self)
        ensures
            e.current_dir@ == (match home {
                Some(h) => h@,
                None => "/"@,
            }),
            e.entries@.len() == 0,
            e.selected == 0,
            e.scroll_offset == 0,
            e.wf(),
    {
        let current_dir = match home {
            Some(h) => h,
            None => String::from_str("/"),
        };
        FileExplorer { current_dir, entries: Vec::new(), selected: 0, scroll_offset: 0 }
    }

    /// Replaces the rows by those of `listing`, the contents of
    /// `current_dir`: first `..` when the directory has a parent, then the
    /// directories, then the other items, each group sorted by name, hidden
    /// items left out. The selection goes back to the first row.
    pub fn reload(&mut self, listing: Vec<ListedEntry>)
        ensures
            final(self).current_dir == old(self).current_dir,
            entries_view(final(self).entries@) == directory_rows(
                path_parent(old(self).current_dir@),
                listing_view(listing@),
            ),
            final(self).selected == 0,
            final(self).scroll_offset == 0,
            final(self).wf(),
    {
        let mut entries: Vec<DirEntry> = Vec::new();
        match parent_of(self.current_dir.as_str()) {
            Some(p) => {
                entries.push(
                    DirEntry { name: String::from_str(".."), path: p, is_dir: true, is_conf: false },
                );
            },
            None => {},
        }
        let ghost lv = listing_view(listing@);
        assert(entries_view(entries@) =~= parent_rows(path_parent(self.current_dir@)));
        let mut dirs: Vec<DirEntry> = Vec::new();
        let mut files: Vec<DirEntry> = Vec::new();
        let n = listing.len();
        let mut i: usize = 0;
        while i < n
            invariant
                n == listing@.len(),
                i <= n,
                lv == listing_view(listing@),
                entries_view(dirs@) == sort_by_name(visible_group(lv.take(i as int), true)),
                entries_view(files@) == sort_by_name(visible_group(lv.take(i as int), false)),
            decreases n - i,
        {
            let item = &listing[i];
            assert(lv.take(i + 1).drop_last() =~= lv.take(i as int));
            assert(lv.take(i + 1).last() == item@);
            if !is_hidden_name(item.name.as_str()) {
                let row = row_for(item);
                proof {
                    law_sort_by_name(visible_group(lv.take(i as int), true));
                    law_sort_by_name(visible_group(lv.take(i as int), false));
                }
                if item.is_dir {
                    proof {
                        let g = visible_group(lv.take(i as int), true);
                        assert(visible_group(lv.take(i + 1), true) == g.push(row@));
                        assert(g.push(row@).drop_last() =~= g);
                    }
                    insert_sorted(&mut dirs, row);
                } else {
                    proof {
                        let g = visible_group(lv.take(i as int), false);
                        assert(visible_group(lv.take(i + 1), false) == g.push(row@));
                        assert(g.push(row@).drop_last() =~= g);
                    }
                    insert_sorted(&mut files, row);
                }
            }
            i = i + 1;
        }
        assert(lv.take(n as int) =~= lv);
        let ghost before = entries_view(entries@);
        let ghost d = entries_view(dirs@);
        let ghost f = entries_view(files@);
        entries.append(&mut dirs);
        entries.append(&mut files);
        assert(entries_view(entries@) =~= before + d + f);
        self.entries = entries;
        self.selected = 0;
        self.scroll_offset = 0;
    }

    /// Moves the selection one row up, scrolling when it leaves the top.
    pub fn move_up(&mut self)
        ensures
            (final(self).selected as int, final(self).scroll_offset as int) == cursor_up(
                old(self).selected as int,
                old(self).scroll_offset as int,
            ),
            final(self).current_dir == old(self).current_dir,
            final(self).entries == old(self).entries,
            final(self)@ == explorer_up(old(self)@),
            old(self).wf() ==> final(self).wf(),
    {
        if self.selected > 0 {
            self.selected -= 1;
            if self.selected < self.scroll_offset {
                self.scroll_offset -= 1;
            }
        }
    }

    /// Moves the selection one row down, scrolling when it passes the last
    /// of the `visible_height` rows shown.
    pub fn move_down(&mut self, visible_height: usize)
        requires
            old(self).selected < usize::MAX,
            old(self).selected + 1 < old(self).entries.len() ==> old(self).scroll_offset
                + visible_height <= usize::MAX,
        ensures
            (final(self).selected as int, final(self).scroll_offset as int) == cursor_down(
                old(self).selected as int,
                old(self).scroll_offset as int,
                old(self).entries.len() as int,
                visible_height as int,
            ),
            final(self).current_dir == old(self).current_dir,
            final(self).entries == old(self).entries,
            final(self)@ == explorer_down(old(self)@, visible_height as int),
            old(self).wf() ==> final(self).wf(),
    {
        if self.selected + 1 < self.entries.len() {
            self.selected += 1;
            if self.selected >= self.scroll_offset + visible_height {
                self.scroll_offset += 1;
            }
        }
    }

    /// Confirms the selected row: a directory becomes `current_dir`, a
    /// `.conf` file is handed back, anything else is ignored.
    pub fn enter(&mut self) -> (r: EnterResult)
        requires
            old(self).selected < old(self).entries.len(),
        ensures
            ({
                let e = old(self).entries@[old(self).selected as int]@;
                &&& final(self).entries == old(self).entries
                &&& final(self).selected == old(self).selected
                &&& final(self).scroll_offset == old(self).scroll_offset
                &&& e.is_dir ==> r is Directory && final(self).current_dir@ == e.path
                &&& !e.is_dir && e.is_conf ==> (r matches EnterResult::Config(p) && p@ == e.path)
                    && final(self).current_dir == old(self).current_dir
                &&& !e.is_dir && !e.is_conf ==> r is Ignored && final(self).current_dir
                    == old(self).current_dir
            }),
            (final(self)@, r@) == explorer_enter(old(self)@),
    {
        let entry = &self.entries[self.selected];
        if entry.is_dir {
            self.current_dir = entry.path.clone();
            EnterResult::Directory
        } else if entry.is_conf {
            EnterResult::Config(entry.path.clone())
        } else {
            EnterResult::Ignored
        }
    }

    /// The rows shown in a window of `height` rows: the entries from
    /// `scroll_offset` on, at most `height` of them.
    pub fn visible_rows(&self, height: usize) -> (rows: Vec<ListRow>)
        ensures
            rows@.len() == shown_count(
                self.entries.len() as int,
                self.scroll_offset as int,
                height as int,
            ),
            forall|i: int|
                0 <= i < rows@.len() ==> {
                    let r = #[trigger] rows@[i];
                    &&& r.index == self.scroll_offset + i
                    &&& r.kind == kind_of(self.entries@[self.scroll_offset + i]@)
                    &&& r.selected == (r.index == self.selected)
                },
    {
        let len = self.entries.len();
        let mut rows: Vec<ListRow> = Vec::new();
        let mut i = self.scroll_offset;
        while i < len && i - self.scroll_offset < height
            invariant
                len == self.entries.len(),
                self.scroll_offset <= i,
                i <= len || i == self.scroll_offset,
                rows@.len() == i - self.scroll_offset,
                i - self.scroll_offset <= height,
                forall|m: int|
                    0 <= m < rows@.len() ==> {
                        let r = #[trigger] rows@[m];
                        &&& r.index == self.scroll_offset + m
                        &&& r.kind == kind_of(self.entries@[self.scroll_offset + m]@)
                        &&& r.selected == (r.index == self.selected)
                    },
            decreases len - i,
        {
            let e = &self.entries[i];
            let kind = if e.is_dir {
                EntryKind::Directory
            } else if e.is_conf {
                EntryKind::Config
            } else {
                EntryKind::Other
            };
            rows.push(ListRow { index: i, kind, selected: i == self.selected });
            i = i + 1;
        }
        rows
    }

    /// The position of the selection within the window shown
    /// (0 when the selection is above it).
    pub fn highlight_position(&self) -> (p: usize)
        ensures
            p == (if self.selected >= self.scroll_offset {
                self.selected - self.scroll_offset
            } else {
                0
            }),
    {
        if self.selected >= self.scroll_offset {
            self.selected - self.scroll_offset
        } else {
            0
        }
    }

    /// The selected row, if the selection is on one.
    pub fn selected_entry(&self) -> (r: Option<&DirEntry>)
        ensures
            self.selected < self.entries.len() ==> r == Some(&self.entries@[self.selected as int]),
            self.selected >= self.entries.len() ==> r is None,
    {
        if self.selected < self.entries.len() {
            Some(&self.entries[self.selected])
        } else {
            None
        }
    }
}

} // verus!
