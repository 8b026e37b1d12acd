use vstd::prelude::*;
use crate::file_explorer::{
    explorer_down, explorer_up, ExplorerView,
    cursor_down, cursor_up, directory_rows, entry_of, insert_by_name, is_hidden, parent_rows,
    sort_by_name, sorted_by_name, visible_group, DirEntryView, ListedEntryView,
};
use crate::paths::path_extension;
use crate::text::{lemma_text_le_total, lemma_text_le_transitive, text_le};

verus! {

broadcast use {vstd::seq_lib::group_to_multiset_ensures, vstd::multiset::group_multiset_axioms};


proof fn lemma_insert_by_name(s: Seq<DirEntryView>, e: DirEntryView)
    ensures
        insert_by_name(s, e).to_multiset() == s.to_multiset().insert(e),
        insert_by_name(s, e).len() == s.len() + 1,
        sorted_by_name(s) ==> sorted_by_name(insert_by_name(s, e)),
    decreases s.len(),
{
    if s.len() == 0 {
        assert(seq![e] =~= Seq::<DirEntryView>::empty().push(e));
    } else if text_le(s.last().name, e.name) {
        if sorted_by_name(s) {
            let r = s.push(e);
            assert forall|i: int, j: int| 0 <= i < j < r.len() implies text_le(
                #[trigger] r[i].name,
                #[trigger] r[j].name,
            ) by {
                if j == s.len() && i < s.len() - 1 {
                    lemma_text_le_transitive(s[i].name, s.last().name, e.name);
                }
            }
        }
    } else {
        let s0 = s.drop_last();
        let last = s.last();
        lemma_insert_by_name(s0, e);
        let r0 = insert_by_name(s0, e);
        assert(s0.push(last) =~= s);
        assert(r0.push(last).to_multiset() =~= s.to_multiset().insert(e));
        if sorted_by_name(s) {
            assert(sorted_by_name(s0));
            lemma_text_le_total(last.name, e.name);
            assert forall|k: int| 0 <= k < r0.len() implies text_le(
                #[trigger] r0[k].name,
                last.name,
            ) by {
                let x = r0[k];
                assert(r0.contains(x));
                assert(r0.to_multiset().count(x) > 0);
                if x != e {
                    assert(s0.to_multiset().count(x) > 0);
                    assert(s0.contains(x));
                    let m = choose|m: int| 0 <= m < s0.len() && s0[m] == x;
                    assert(s[m] == x);
                    assert(s[s.len() - 1] == last);
                }
            }
            let r = r0.push(last);
            assert forall|i: int, j: int| 0 <= i < j < r.len() implies text_le(
                #[trigger] r[i].name,
                #[trigger] r[j].name,
            ) by {
                if j == r0.len() {
                    assert(r[i] == r0[i]);
                } else {
                    assert(r[i] == r0[i] && r[j] == r0[j]);
                }
            }
        }
    }
}

/// Sorting by name gives rows in order of name that are a permutation of
/// the rows given.
pub proof fn law_sort_by_name(s: Seq<DirEntryView>)
    ensures
        sorted_by_name(sort_by_name(s)),
        sort_by_name(s).to_multiset() == s.to_multiset(),
        sort_by_name(s).len() == s.len(),
    decreases s.len(),
{
    if s.len() > 0 {
        law_sort_by_name(s.drop_last());
        lemma_insert_by_name(sort_by_name(s.drop_last()), s.last());
        assert(s.drop_last().push(s.last()) =~= s);
    }
}

/// The visible item at index `k` of the listing, of the given kind.
pub open spec fn shown_of_kind(listing: Seq<ListedEntryView>, k: int, dirs: bool) -> bool {
    0 <= k < listing.len() && !is_hidden(listing[k].name) && listing[k].is_dir == dirs
}

/// `x` is the row of some visible item of the listing of the given kind.
pub open spec fn row_of_kind(listing: Seq<ListedEntryView>, x: DirEntryView, dirs: bool) -> bool {
    exists|k: int| #![trigger listing[k]] shown_of_kind(listing, k, dirs) && x == entry_of(listing[k])
}

/// `x` is the row of some visible item of the listing.
pub open spec fn row_of_listing(listing: Seq<ListedEntryView>, x: DirEntryView) -> bool {
    exists|k: int|
        #![trigger listing[k]]
        0 <= k < listing.len() && !is_hidden(listing[k].name) && x == entry_of(listing[k])
}

proof fn lemma_visible_group(listing: Seq<ListedEntryView>, dirs: bool)
    ensures
        forall|i: int|
            0 <= i < visible_group(listing, dirs).len() ==> row_of_kind(
                listing,
                #[trigger] visible_group(listing, dirs)[i],
                dirs,
            ),
        forall|k: int|
            shown_of_kind(listing, k, dirs) ==> visible_group(listing, dirs).contains(
                #[trigger] entry_of(listing[k]),
            ),
    decreases listing.len(),
{
    if listing.len() > 0 {
        let l0 = listing.drop_last();
        lemma_visible_group(l0, dirs);
        let g0 = visible_group(l0, dirs);
        let g = visible_group(listing, dirs);
        assert forall|i: int| 0 <= i < g.len() implies row_of_kind(listing, #[trigger] g[i], dirs) by {
            if i < g0.len() {
                assert(g[i] == g0[i]);
                assert(row_of_kind(l0, g0[i], dirs));
                let k = choose|k: int| shown_of_kind(l0, k, dirs) && g0[i] == entry_of(l0[k]);
                assert(listing[k] == l0[k]);
            } else {
                let k = listing.len() - 1;
                assert(g[i] == entry_of(listing[k]));
                assert(shown_of_kind(listing, k, dirs));
            }
        }
        assert forall|k: int| shown_of_kind(listing, k, dirs) implies g.contains(
            #[trigger] entry_of(listing[k]),
        ) by {
            if k < l0.len() {
                assert(listing[k] == l0[k]);
                assert(shown_of_kind(l0, k, dirs));
                assert(g0.contains(entry_of(l0[k])));
                let m = choose|m: int| 0 <= m < g0.len() && g0[m] == entry_of(l0[k]);
                assert(g[m] == g0[m]);
            } else {
                assert(g[g.len() - 1] == entry_of(listing[k]));
            }
        }
    }
}

proof fn lemma_sorted_group(listing: Seq<ListedEntryView>, dirs: bool)
    ensures
        sorted_by_name(sort_by_name(visible_group(listing, dirs))),
        forall|i: int|
            0 <= i < sort_by_name(visible_group(listing, dirs)).len() ==> row_of_kind(
                listing,
                #[trigger] sort_by_name(visible_group(listing, dirs))[i],
                dirs,
            ),
        forall|k: int|
            shown_of_kind(listing, k, dirs) ==> sort_by_name(visible_group(listing, dirs)).contains(
                #[trigger] entry_of(listing[k]),
            ),
{
    let g = visible_group(listing, dirs);
    let s = sort_by_name(g);
    law_sort_by_name(g);
    lemma_visible_group(listing, dirs);
    assert forall|i: int| 0 <= i < s.len() implies row_of_kind(listing, #[trigger] s[i], dirs) by {
        assert(s.contains(s[i]));
        assert(s.to_multiset().count(s[i]) > 0);
        assert(g.to_multiset().count(s[i]) > 0);
        assert(g.contains(s[i]));
        let m = choose|m: int| 0 <= m < g.len() && g[m] == s[i];
        assert(row_of_kind(listing, g[m], dirs));
    }
    assert forall|k: int| shown_of_kind(listing, k, dirs) implies s.contains(
        #[trigger] entry_of(listing[k]),
    ) by {
        assert(g.contains(entry_of(listing[k])));
        assert(g.to_multiset().count(entry_of(listing[k])) > 0);
        assert(s.to_multiset().count(entry_of(listing[k])) > 0);
    }
}

/// What follows the parent row: the directories, then the other items.
proof fn lemma_listed_rows(listing: Seq<ListedEntryView>)
    ensures
        ({
            let t = sort_by_name(visible_group(listing, true)) + sort_by_name(
                visible_group(listing, false),
            );
            &&& forall|i: int| 0 <= i < t.len() ==> row_of_listing(listing, #[trigger] t[i])
            &&& forall|k: int|
                0 <= k < listing.len() && !is_hidden(listing[k].name) ==> t.contains(
                    #[trigger] entry_of(listing[k]),
                )
            &&& forall|i: int, j: int|
                0 <= i < j < t.len() && (#[trigger] t[j]).is_dir ==> (#[trigger] t[i]).is_dir
            &&& forall|i: int, j: int|
                0 <= i < j < t.len() && (#[trigger] t[i]).is_dir == (#[trigger] t[j]).is_dir
                    ==> text_le(t[i].name, t[j].name)
        }),
{
    let d = sort_by_name(visible_group(listing, true));
    let f = sort_by_name(visible_group(listing, false));
    let t = d + f;
    lemma_sorted_group(listing, true);
    lemma_sorted_group(listing, false);
    assert forall|i: int| 0 <= i < d.len() implies (#[trigger] d[i]).is_dir by {
        assert(row_of_kind(listing, d[i], true));
    }
    assert forall|i: int| 0 <= i < f.len() implies !(#[trigger] f[i]).is_dir by {
        assert(row_of_kind(listing, f[i], false));
    }
    assert forall|i: int| 0 <= i < t.len() implies row_of_listing(listing, #[trigger] t[i]) by {
        if i < d.len() {
            assert(t[i] == d[i]);
            assert(row_of_kind(listing, d[i], true));
        } else {
            assert(t[i] == f[i - d.len()]);
            assert(row_of_kind(listing, f[i - d.len()], false));
        }
    }
    assert forall|k: int| 0 <= k < listing.len() && !is_hidden(listing[k].name) implies t.contains(
        #[trigger] entry_of(listing[k]),
    ) by {
        let x = entry_of(listing[k]);
        if listing[k].is_dir {
            assert(shown_of_kind(listing, k, true));
            assert(d.contains(x));
            let m = choose|m: int| 0 <= m < d.len() && d[m] == x;
            assert(t[m] == x);
        } else {
            assert(shown_of_kind(listing, k, false));
            assert(f.contains(x));
            let m = choose|m: int| 0 <= m < f.len() && f[m] == x;
            assert(t[d.len() + m] == x);
        }
    }
    assert forall|i: int, j: int| 0 <= i < j < t.len() && (#[trigger] t[j]).is_dir implies (
    #[trigger] t[i]).is_dir by {
        if j < d.len() {
            assert(t[i] == d[i]);
        } else {
            assert(t[j] == f[j - d.len()]);
        }
    }
    assert forall|i: int, j: int|
        0 <= i < j < t.len() && (#[trigger] t[i]).is_dir == (#[trigger] t[j]).is_dir implies text_le(
        t[i].name,
        t[j].name,
    ) by {
        if j < d.len() {
            assert(t[i] == d[i] && t[j] == d[j]);
        } else if i >= d.len() {
            assert(t[i] == f[i - d.len()] && t[j] == f[j - d.len()]);
        } else {
            assert(t[i] == d[i] && t[j] == f[j - d.len()]);
        }
    }
}

/// The rows of a directory: `..` first when there is a parent; after it
/// only visible items, each of them the row of an item of the listing, and
/// every visible item of the listing among them; directories before other
/// items; each of the two groups in order of name.
pub proof fn law_directory_rows(parent: Option<Seq<char>>, listing: Seq<ListedEntryView>)
    ensures
        ({
            let rows = directory_rows(parent, listing);
            let p = parent_rows(parent).len() as int;
            let t = rows.subrange(p, rows.len() as int);
            &&& parent matches Some(dir) ==> p == 1 && rows[0] == DirEntryView {
                name: ".."@,
                path: dir,
                is_dir: true,
                is_conf: false,
            }
            &&& parent is None ==> p == 0
            &&& forall|i: int| 0 <= i < t.len() ==> row_of_listing(listing, #[trigger] t[i])
            &&& forall|k: int|
                0 <= k < listing.len() && !is_hidden(listing[k].name) ==> t.contains(
                    #[trigger] entry_of(listing[k]),
                )
            &&& forall|i: int, j: int|
                0 <= i < j < t.len() && (#[trigger] t[j]).is_dir ==> (#[trigger] t[i]).is_dir
            &&& forall|i: int, j: int|
                0 <= i < j < t.len() && (#[trigger] t[i]).is_dir == (#[trigger] t[j]).is_dir
                    ==> text_le(t[i].name, t[j].name)
        }),
{
    let rows = directory_rows(parent, listing);
    let p = parent_rows(parent).len() as int;
    lemma_listed_rows(listing);
    assert(rows.subrange(p, rows.len() as int) =~= sort_by_name(visible_group(listing, true))
        + sort_by_name(visible_group(listing, false)));
}

/// The selection stays on a row and never above the first row shown,
/// whichever way it moves.
pub proof fn law_cursor_stays_valid(selected: int, scroll: int, len: int, height: int)
    requires
        0 <= scroll <= selected,
        selected < len || (len == 0 && selected == 0),
        height >= 0,
    ensures
        ({
            let (s, o) = cursor_up(selected, scroll);
            0 <= o <= s && (s < len || (len == 0 && s == 0))
        }),
        ({
            let (s, o) = cursor_down(selected, scroll, len, height);
            0 <= o <= s && (s < len || (len == 0 && s == 0))
        }),
{
}

/// With a window of `height > 0` rows starting at the first row shown, a
/// selection inside the window stays inside it whichever way it moves.
pub proof fn law_selection_stays_visible(selected: int, scroll: int, len: int, height: int)
    requires
        height > 0,
        0 <= scroll <= selected < scroll + height,
    ensures
        ({
            let (s, o) = cursor_up(selected, scroll);
            o <= s < o + height
        }),
        ({
            let (s, o) = cursor_down(selected, scroll, len, height);
            o <= s < o + height
        }),
{
}

/// Moving up then down returns to the row one started on, when there is a
/// row above; moving down then up does, when there is a row below.
pub proof fn law_up_down_round_trip(selected: int, scroll: int, len: int, height: int)
    requires
        0 <= scroll <= selected < len,
    ensures
        selected > 0 ==> cursor_down(cursor_up(selected, scroll).0, cursor_up(selected, scroll).1, len, height).0
            == selected,
        selected + 1 < len ==> cursor_up(
            cursor_down(selected, scroll, len, height).0,
            cursor_down(selected, scroll, len, height).1,
        ).0 == selected,
{
}

/// Moving the browser's selection down a row and back up returns it to the
/// row it was on, with the same rows and directory, scrolled by at most one
/// row. (The selection and the scroll position plus the window height must
/// fit a machine word, as `move_down` requires.)
pub proof fn law_browser_down_then_up(e: ExplorerView, height: usize)
    requires
        e.scroll_offset <= e.selected,
        e.selected + 1 < e.entries.len(),
        e.selected < usize::MAX,
        e.scroll_offset + height <= usize::MAX,
    ensures
        ({
            let f = explorer_up(explorer_down(e, height as int));
            &&& f.selected == e.selected
            &&& f.entries == e.entries
            &&& f.current_dir == e.current_dir
            &&& (f.scroll_offset == e.scroll_offset || f.scroll_offset == e.scroll_offset + 1)
        }),
{
}

/// Moving the browser's selection down keeps it on a row and inside a
/// window of `height > 0` rows, and scrolls by at most one row.
pub proof fn law_browser_down_stays_visible(e: ExplorerView, height: usize)
    requires
        height >= 1,
        e.scroll_offset <= e.selected < e.scroll_offset + height,
        e.selected < e.entries.len() || e.selected == 0,
        e.selected < usize::MAX,
        e.scroll_offset + height <= usize::MAX,
    ensures
        ({
            let f = explorer_down(e, height as int);
            &&& f.scroll_offset <= f.selected < f.scroll_offset + height
            &&& (f.selected < f.entries.len() || f.selected == 0)
            &&& f.entries == e.entries
            &&& (f.scroll_offset == e.scroll_offset || f.scroll_offset == e.scroll_offset + 1)
        }),
{
}

/// The rows of a directory that follow its parent row.
pub open spec fn rows_after_parent(parent: Option<Seq<char>>, listing: Seq<ListedEntryView>) -> Seq<
    DirEntryView,
> {
    let rows = directory_rows(parent, listing);
    rows.subrange(parent_rows(parent).len() as int, rows.len() as int)
}

/// A row after the parent row is that of some listed item.
proof fn lemma_row_is_listed(parent: Option<Seq<char>>, listing: Seq<ListedEntryView>, i: int)
    requires
        0 <= i < rows_after_parent(parent, listing).len(),
    ensures
        exists|k: int|
            0 <= k < listing.len() && rows_after_parent(parent, listing)[i] == (DirEntryView {
                name: listing[k].name,
                path: listing[k].path,
                is_dir: listing[k].is_dir,
                is_conf: path_extension(listing[k].path) == Some("conf"@),
            }),
{
    law_directory_rows(parent, listing);
    let x = rows_after_parent(parent, listing)[i];
    assert(row_of_listing(listing, x));
    let k = choose|k: int|
        #![trigger listing[k]]
        0 <= k < listing.len() && !is_hidden(listing[k].name) && x == entry_of(listing[k]);
    assert(x == (DirEntryView {
        name: listing[k].name,
        path: listing[k].path,
        is_dir: listing[k].is_dir,
        is_conf: path_extension(listing[k].path) == Some("conf"@),
    }));
}

/// After the parent row, the rows of a directory are exactly what the
/// listing holds apart from names that start with a dot: every listed item
/// whose name is empty or does not start with `.` has its row there (its
/// name, path and kind, marked as a configuration when its extension is
/// `conf`), and every row there is the row of a listed item, with a name
/// that is empty or does not start with `.`.
pub proof fn law_rows_keep_undotted_names(parent: Option<Seq<char>>, listing: Seq<ListedEntryView>)
    ensures
        forall|k: int|
            #![trigger listing[k]]
            0 <= k < listing.len() && (listing[k].name.len() == 0 || listing[k].name[0] != '.')
                ==> rows_after_parent(parent, listing).contains(
                DirEntryView {
                    name: listing[k].name,
                    path: listing[k].path,
                    is_dir: listing[k].is_dir,
                    is_conf: path_extension(listing[k].path) == Some("conf"@),
                },
            ),
        forall|i: int|
            #![trigger rows_after_parent(parent, listing)[i]]
            0 <= i < rows_after_parent(parent, listing).len() ==> exists|k: int|
                0 <= k < listing.len() && rows_after_parent(parent, listing)[i] == (DirEntryView {
                    name: listing[k].name,
                    path: listing[k].path,
                    is_dir: listing[k].is_dir,
                    is_conf: path_extension(listing[k].path) == Some("conf"@),
                }),
        forall|i: int|
            #![trigger rows_after_parent(parent, listing)[i]]
            0 <= i < rows_after_parent(parent, listing).len() ==> (rows_after_parent(
                parent,
                listing,
            )[i].name.len() == 0 || rows_after_parent(parent, listing)[i].name[0] != '.'),
{
    law_directory_rows(parent, listing);
    let t = rows_after_parent(parent, listing);
    assert forall|k: int|
        #![trigger listing[k]]
        0 <= k < listing.len() && (listing[k].name.len() == 0 || listing[k].name[0] != '.')
            implies t.contains(
            DirEntryView {
                name: listing[k].name,
                path: listing[k].path,
                is_dir: listing[k].is_dir,
                is_conf: path_extension(listing[k].path) == Some("conf"@),
            },
        ) by {
        assert(!is_hidden(listing[k].name));
        assert(t.contains(entry_of(listing[k])));
    }
    assert forall|i: int|
        #![trigger rows_after_parent(parent, listing)[i]]
        0 <= i < rows_after_parent(parent, listing).len() implies exists|k: int|
            0 <= k < listing.len() && rows_after_parent(parent, listing)[i] == (DirEntryView {
                name: listing[k].name,
                path: listing[k].path,
                is_dir: listing[k].is_dir,
                is_conf: path_extension(listing[k].path) == Some("conf"@),
            }) by {
        lemma_row_is_listed(parent, listing, i);
    }
}

} // verus!
