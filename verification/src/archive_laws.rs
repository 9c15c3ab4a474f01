//! What every archive satisfies.
//!
//! A ZIP archive cannot hold two entries of one name. The names given here are
//! distinct whenever the inputs are: the directory listings and the pad names
//! have no repeats, the boards have distinct names without `/`, and the boards
//! stacked on each board have distinct names. And nothing the export reports is
//! left out: every listed component model and layer drawing, every board and
//! every pad has its entry.

use vstd::prelude::*;
use crate::archive::{
    BoardExport, EntryView, PythonExportResult, keys_distinct, archive_plan, board_dir, board_plan, boards_plan,
    entry_name, head_plan, listing_plan, metadata_plan, pads_plan, stacked_plan,
    components_plan, layers_plan,
};
use crate::archive::SourceView;
use crate::board::{Pad, StackedBoard, bounds_toml, pad_toml, stackup_toml, stacked_board_toml};
use crate::names::{extension_of, lemma_last_dot_bounds};
use crate::pcb3d::{
    PCB_WRL, COMPONENTS_DIR, LAYERS_DIR, BOARDS_DIR, PADS_DIR, BOUNDS_TOML, STACKUP_TOML,
};

verus! {

/// Whether `s` begins with `p`.
pub open spec fn starts_with(s: Seq<char>, p: Seq<char>) -> bool {
    p.len() <= s.len() && s.subrange(0, p.len() as int) == p
}

/// No two entries share a name.
pub open spec fn names_distinct(v: Seq<EntryView>) -> bool {
    forall|i: int, j: int|
        0 <= i < j < v.len() ==> entry_name(#[trigger] v[i]) != entry_name(#[trigger] v[j])
}

/// No entry of `a` has the name of an entry of `b`.
pub open spec fn names_apart(a: Seq<EntryView>, b: Seq<EntryView>) -> bool {
    forall|i: int, j: int|
        0 <= i < a.len() && 0 <= j < b.len() ==> entry_name(#[trigger] a[i]) != entry_name(
            #[trigger] b[j],
        )
}

/// Every name in `v` begins with `p` and is longer than `p`.
pub open spec fn all_below(v: Seq<EntryView>, p: Seq<char>) -> bool {
    forall|i: int|
        0 <= i < v.len() ==> starts_with(entry_name(#[trigger] v[i]), p) && entry_name(v[i]).len()
            > p.len()
}

/// No two of the strings are equal.
pub open spec fn seq_distinct(s: Seq<Seq<char>>) -> bool {
    forall|i: int, j: int| 0 <= i < j < s.len() ==> #[trigger] s[i] != #[trigger] s[j]
}

/// The string holds no `/`.
pub open spec fn no_slash(s: Seq<char>) -> bool {
    forall|i: int| 0 <= i < s.len() ==> #[trigger] s[i] != '/'
}

/// No board name holds a `/`.
pub open spec fn board_names_plain(e: PythonExportResult) -> bool {
    forall|i: int| 0 <= i < e.boards@.len() ==> no_slash((#[trigger] e.boards@[i]).0@)
}

/// The names of an export as its entries need them: distinct keys, and board
/// names without `/`.
pub open spec fn export_names_ok(e: PythonExportResult) -> bool {
    &&& keys_distinct(e.boards@)
    &&& forall|i: int| 0 <= i < e.boards@.len() ==> no_slash((#[trigger] e.boards@[i]).0@)
    &&& forall|i: int|
        0 <= i < e.boards@.len() ==> keys_distinct((#[trigger] e.boards@[i]).1.stacked_boards@)
    &&& keys_distinct(e.pads@)
}

proof fn lemma_prefix_cancel(p: Seq<char>, a: Seq<char>, b: Seq<char>)
    requires
        p + a == p + b,
    ensures
        a == b,
{
    assert((p + a).len() == (p + b).len());
    assert(a =~= (p + a).subrange(p.len() as int, (p + a).len() as int));
    assert(b =~= (p + b).subrange(p.len() as int, (p + b).len() as int));
}

proof fn lemma_suffix_cancel(a: Seq<char>, b: Seq<char>, q: Seq<char>)
    requires
        a + q == b + q,
    ensures
        a == b,
{
    let x = a + q;
    let y = b + q;
    assert(x.len() == a.len() + q.len());
    assert(y.len() == b.len() + q.len());
    assert(x.len() == y.len());
    assert(a =~= (a + q).subrange(0, a.len() as int));
    assert(b =~= (b + q).subrange(0, b.len() as int));
}

proof fn lemma_starts_with_concat(p: Seq<char>, x: Seq<char>)
    ensures
        starts_with(p + x, p),
{
    assert((p + x).subrange(0, p.len() as int) =~= p);
}

proof fn lemma_starts_with_trans(s: Seq<char>, p: Seq<char>, q: Seq<char>)
    requires
        starts_with(s, p),
        starts_with(p, q),
    ensures
        starts_with(s, q),
{
    assert(s.subrange(0, q.len() as int) =~= p.subrange(0, q.len() as int));
}

/// Two entry lists with no name in common, each without repeats, make a list
/// without repeats.
proof fn lemma_concat_distinct(a: Seq<EntryView>, b: Seq<EntryView>)
    requires
        names_distinct(a),
        names_distinct(b),
        names_apart(a, b),
    ensures
        names_distinct(a + b),
{
    let c = a + b;
    assert forall|i: int, j: int| 0 <= i < j < c.len() implies entry_name(#[trigger] c[i])
        != entry_name(#[trigger] c[j]) by {
        if j < a.len() {
            assert(c[i] == a[i] && c[j] == a[j]);
        } else if i >= a.len() {
            assert(c[i] == b[i - a.len()] && c[j] == b[j - a.len()]);
        } else {
            assert(c[i] == a[i] && c[j] == b[j - a.len()]);
        }
    }
}

proof fn lemma_concat_below(a: Seq<EntryView>, b: Seq<EntryView>, p: Seq<char>)
    requires
        all_below(a, p),
        all_below(b, p),
    ensures
        all_below(a + b, p),
{
    let c = a + b;
    assert forall|i: int| 0 <= i < c.len() implies starts_with(entry_name(#[trigger] c[i]), p)
        && entry_name(c[i]).len() > p.len() by {
        if i < a.len() {
            assert(c[i] == a[i]);
        } else {
            assert(c[i] == b[i - a.len()]);
        }
    }
}

/// Lists below prefixes that differ at some position share no name.
proof fn lemma_apart_by_prefix(a: Seq<EntryView>, p: Seq<char>, b: Seq<EntryView>, q: Seq<char>, k: int)
    requires
        all_below(a, p),
        all_below(b, q),
        0 <= k < p.len(),
        k < q.len(),
        p[k] != q[k],
    ensures
        names_apart(a, b),
{
    assert forall|i: int, j: int| 0 <= i < a.len() && 0 <= j < b.len() implies entry_name(
        #[trigger] a[i],
    ) != entry_name(#[trigger] b[j]) by {
        let x = entry_name(a[i]);
        let y = entry_name(b[j]);
        assert(x[k] == x.subrange(0, p.len() as int)[k]);
        assert(y[k] == y.subrange(0, q.len() as int)[k]);
    }
}

/// The extension ends the name it belongs to.
proof fn lemma_extension_suffix(n: Seq<char>, e: Seq<char>)
    requires
        extension_of(n) == Some(e),
    ensures
        e.len() < n.len(),
        n.subrange(n.len() - e.len(), n.len() as int) =~= e,
{
    lemma_last_dot_bounds(n);
}

/// `name` is `dir/n` for a listed name `n` with extension `ext`.
pub open spec fn listed(dir: Seq<char>, names: Seq<Seq<char>>, ext: Seq<char>, name: Seq<char>) -> bool {
    exists|k: int|
        0 <= k < names.len() && extension_of(#[trigger] names[k]) == Some(ext) && name == dir
            + "/"@ + names[k]
}

/// The entries of a listing: each copies a listed name with the extension, and
/// no two share a name.
#[verifier::rlimit(50)]
proof fn lemma_listing(dir: Seq<char>, src: Seq<char>, names: Seq<Seq<char>>, ext: Seq<char>)
    requires
        seq_distinct(names),
    ensures
        names_distinct(listing_plan(dir, src, names, ext)),
        forall|i: int|
            0 <= i < listing_plan(dir, src, names, ext).len() ==> listed(
                dir,
                names,
                ext,
                entry_name(#[trigger] listing_plan(dir, src, names, ext)[i]),
            ),
    decreases names.len(),
{
    if names.len() > 0 {
        let pre = names.drop_last();
        assert(seq_distinct(pre)) by {
            assert forall|i: int, j: int| 0 <= i < j < pre.len() implies #[trigger] pre[i]
                != #[trigger] pre[j] by {
                assert(pre[i] == names[i] && pre[j] == names[j]);
            }
        }
        lemma_listing(dir, src, pre, ext);
        let rest = listing_plan(dir, src, pre, ext);
        let v = listing_plan(dir, src, names, ext);
        let last = names.last();
        assert forall|i: int| 0 <= i < rest.len() implies listed(
            dir,
            pre,
            ext,
            entry_name(#[trigger] rest[i]),
        ) && listed(dir, names, ext, entry_name(rest[i])) by {
            let k = choose|k: int|
                0 <= k < pre.len() && extension_of(#[trigger] pre[k]) == Some(ext) && entry_name(rest[i])
                    == dir + "/"@ + pre[k];
            assert(names[k] == pre[k]);
        }
        if extension_of(last) == Some(ext) {
            let new_e = EntryView::File(
                dir + "/"@ + last,
                SourceView::InDir(src, last),
            );
            assert(v == rest.push(new_e));
            assert forall|i: int| 0 <= i < v.len() implies listed(
                dir,
                names,
                ext,
                entry_name(#[trigger] v[i]),
            ) by {
                if i < rest.len() {
                    assert(v[i] == rest[i]);
                } else {
                    assert(v[i] == new_e);
                    assert(names[names.len() - 1] == last);
                }
            }
            assert forall|i: int, j: int| 0 <= i < j < v.len() implies entry_name(#[trigger] v[i])
                != entry_name(#[trigger] v[j]) by {
                if j < rest.len() {
                    assert(v[i] == rest[i] && v[j] == rest[j]);
                } else {
                    assert(v[i] == rest[i]);
                    assert(v[j] == new_e);
                    assert(listed(dir, pre, ext, entry_name(rest[i])));
                    let k = choose|k: int|
                        0 <= k < pre.len() && extension_of(#[trigger] pre[k]) == Some(ext) && entry_name(
                            rest[i],
                        ) == dir + "/"@ + pre[k];
                    if entry_name(v[i]) == entry_name(v[j]) {
                        lemma_prefix_cancel(dir + "/"@, pre[k], last);
                        assert(names[k] == pre[k]);
                        assert(names[k] == names[names.len() - 1]);
                    }
                }
            }
        } else {
            assert(v == rest);
            assert forall|i: int| 0 <= i < v.len() implies listed(
                dir,
                names,
                ext,
                entry_name(#[trigger] v[i]),
            ) by {
                assert(v[i] == rest[i]);
            }
        }
    }
}


/// The name of a stacked board's offsets inside the directory `dir`.
pub open spec fn stacked_name(dir: Seq<char>, name: Seq<char>) -> Seq<char> {
    dir + "stacked_"@ + name + ".toml"@
}

/// The name of a pad's entry.
pub open spec fn pad_entry_name(name: Seq<char>) -> Seq<char> {
    PADS_DIR@ + "/"@ + name + ".toml"@
}

proof fn lemma_stacked(dir: Seq<char>, st: Seq<(String, StackedBoard)>)
    ensures
        stacked_plan(dir, st).len() == st.len(),
        forall|i: int|
            0 <= i < st.len() ==> entry_name(#[trigger] stacked_plan(dir, st)[i]) == stacked_name(
                dir,
                st[i].0@,
            ),
    decreases st.len(),
{
    if st.len() > 0 {
        let pre = st.drop_last();
        lemma_stacked(dir, pre);
        assert forall|i: int| 0 <= i < st.len() implies entry_name(
            #[trigger] stacked_plan(dir, st)[i],
        ) == stacked_name(dir, st[i].0@) by {
            if i < pre.len() {
                assert(stacked_plan(dir, st)[i] == stacked_plan(dir, pre)[i]);
                assert(st[i] == pre[i]);
            }
        }
    }
}

proof fn lemma_pads(pads: Seq<(String, Pad)>)
    ensures
        pads_plan(pads).len() == pads.len(),
        forall|i: int|
            0 <= i < pads.len() ==> entry_name(#[trigger] pads_plan(pads)[i]) == pad_entry_name(
                pads[i].0@,
            ),
    decreases pads.len(),
{
    if pads.len() > 0 {
        let pre = pads.drop_last();
        lemma_pads(pre);
        assert forall|i: int| 0 <= i < pads.len() implies entry_name(
            #[trigger] pads_plan(pads)[i],
        ) == pad_entry_name(pads[i].0@) by {
            if i < pre.len() {
                assert(pads_plan(pads)[i] == pads_plan(pre)[i]);
                assert(pads[i] == pre[i]);
            }
        }
    }
}

/// The entries of the pads have distinct names below `pads/`.
#[verifier::rlimit(50)]
proof fn lemma_pads_distinct(pads: Seq<(String, Pad)>)
    requires
        keys_distinct(pads),
    ensures
        names_distinct(pads_plan(pads)),
        all_below(pads_plan(pads), PADS_DIR@ + "/"@),
{
    lemma_pads(pads);
    let v = pads_plan(pads);
    assert forall|i: int, j: int| 0 <= i < j < v.len() implies entry_name(#[trigger] v[i])
        != entry_name(#[trigger] v[j]) by {
        if entry_name(v[i]) == entry_name(v[j]) {
            lemma_suffix_cancel(PADS_DIR@ + "/"@ + pads[i].0@, PADS_DIR@ + "/"@ + pads[j].0@, ".toml"@);
            lemma_prefix_cancel(PADS_DIR@ + "/"@, pads[i].0@, pads[j].0@);
        }
    }
    assert forall|i: int| 0 <= i < v.len() implies starts_with(entry_name(#[trigger] v[i]), PADS_DIR@ + "/"@)
        && entry_name(v[i]).len() > (PADS_DIR@ + "/"@).len() by {
        reveal_strlit(".toml");
        assert(entry_name(v[i]) =~= (PADS_DIR@ + "/"@) + (pads[i].0@ + ".toml"@));
        lemma_starts_with_concat(PADS_DIR@ + "/"@, pads[i].0@ + ".toml"@);
    }
}

/// Names in the directories of two differently named boards differ.
proof fn lemma_board_dirs_apart(n1: Seq<char>, b1: Seq<char>, n2: Seq<char>, b2: Seq<char>)
    requires
        starts_with(n1, board_dir(b1)),
        starts_with(n2, board_dir(b2)),
        no_slash(b1),
        no_slash(b2),
        b1 != b2,
    ensures
        n1 != n2,
{
    let p = BOARDS_DIR@ + "/"@;
    reveal_strlit("/");
    assert(board_dir(b1) =~= p + b1 + seq!['/']);
    assert(board_dir(b2) =~= p + b2 + seq!['/']);
    if n1 == n2 {
        let n = n1;
        let d1 = board_dir(b1);
        let d2 = board_dir(b2);
        if b1.len() < b2.len() {
            let k = (p.len() + b1.len()) as int;
            assert(n[k] == d1[k]);
            assert(n[k] == d2[k]);
            assert(d2[k] == b2[b1.len() as int]);
        } else if b2.len() < b1.len() {
            let k = (p.len() + b2.len()) as int;
            assert(n[k] == d1[k]);
            assert(n[k] == d2[k]);
            assert(d1[k] == b1[b2.len() as int]);
        } else {
            assert(d1 == n.subrange(0, d1.len() as int));
            assert(d2 == n.subrange(0, d2.len() as int));
            assert(d1 == d2);
            lemma_suffix_cancel(p + b1, p + b2, seq!['/']);
            lemma_prefix_cancel(p, b1, b2);
        }
    }
}

/// The entries of one board: all inside its directory, none repeated.
#[verifier::rlimit(50)]
proof fn lemma_board(name: Seq<char>, board: BoardExport)
    requires
        keys_distinct(board.stacked_boards@),
    ensures
        names_distinct(board_plan(name, board)),
        forall|i: int|
            0 <= i < board_plan(name, board).len() ==> starts_with(
                entry_name(#[trigger] board_plan(name, board)[i]),
                board_dir(name),
            ),
{
    let d = board_dir(name);
    let st = board.stacked_boards@;
    let head = seq![
        EntryView::Directory(d),
        EntryView::File(d + BOUNDS_TOML@, SourceView::Text(bounds_toml(board.bounds))),
    ];
    let tail = stacked_plan(d, st);
    assert(board_plan(name, board) == head + tail);
    lemma_stacked(d, st);
    reveal_strlit("bounds.toml");
    reveal_strlit("stacked_");
    reveal_strlit(".toml");
    lemma_starts_with_concat(d, Seq::empty());
    assert(d + Seq::<char>::empty() =~= d);
    lemma_starts_with_concat(d, BOUNDS_TOML@);
    assert forall|i: int| 0 <= i < tail.len() implies starts_with(entry_name(#[trigger] tail[i]), d)
        && entry_name(tail[i]).len() > d.len() + 8
        && entry_name(tail[i])[d.len() as int] == 's' by {
        assert(stacked_name(d, st[i].0@) =~= d + ("stacked_"@ + st[i].0@ + ".toml"@));
        lemma_starts_with_concat(d, "stacked_"@ + st[i].0@ + ".toml"@);
    }
    assert(names_distinct(head)) by {
        assert(entry_name(head[1]).len() > entry_name(head[0]).len());
    }
    assert(names_distinct(tail)) by {
        assert forall|i: int, j: int| 0 <= i < j < tail.len() implies entry_name(#[trigger] tail[i])
            != entry_name(#[trigger] tail[j]) by {
            if entry_name(tail[i]) == entry_name(tail[j]) {
                lemma_suffix_cancel(d + "stacked_"@ + st[i].0@, d + "stacked_"@ + st[j].0@, ".toml"@);
                lemma_prefix_cancel(d + "stacked_"@, st[i].0@, st[j].0@);
            }
        }
    }
    assert(names_apart(head, tail)) by {
        assert forall|i: int, j: int| 0 <= i < head.len() && 0 <= j < tail.len() implies entry_name(
            #[trigger] head[i],
        ) != entry_name(#[trigger] tail[j]) by {
            if i == 1 {
                let x = entry_name(head[1]);
                assert(x[d.len() as int] == 'b');
            }
        }
    }
    lemma_concat_distinct(head, tail);
    assert forall|i: int| 0 <= i < board_plan(name, board).len() implies starts_with(
        entry_name(#[trigger] board_plan(name, board)[i]),
        d,
    ) by {
        if i >= 2 {
            assert(board_plan(name, board)[i] == tail[i - 2]);
        }
    }
}


/// `n` lies in the directory of one of the boards.
pub open spec fn in_some_board(bs: Seq<(String, BoardExport)>, n: Seq<char>) -> bool {
    exists|k: int| 0 <= k < bs.len() && starts_with(n, board_dir(#[trigger] bs[k].0@))
}

/// What the board names must satisfy for their entries to be distinct.
pub open spec fn boards_ok(bs: Seq<(String, BoardExport)>) -> bool {
    &&& keys_distinct(bs)
    &&& forall|i: int| 0 <= i < bs.len() ==> no_slash((#[trigger] bs[i]).0@)
    &&& forall|i: int| 0 <= i < bs.len() ==> keys_distinct((#[trigger] bs[i]).1.stacked_boards@)
}

proof fn lemma_board_dir_below(b: Seq<char>, n: Seq<char>)
    requires
        starts_with(n, board_dir(b)),
    ensures
        starts_with(n, BOARDS_DIR@ + "/"@),
        n.len() > (BOARDS_DIR@ + "/"@).len(),
{
    let p = BOARDS_DIR@ + "/"@;
    reveal_strlit("/");
    assert(board_dir(b) =~= p + (b + "/"@));
    lemma_starts_with_concat(p, b + "/"@);
    lemma_starts_with_trans(n, board_dir(b), p);
}

/// The entries of all boards: each inside the directory of a board, all below
/// `boards/`, none repeated.
#[verifier::rlimit(50)]
proof fn lemma_boards(bs: Seq<(String, BoardExport)>)
    requires
        boards_ok(bs),
    ensures
        names_distinct(boards_plan(bs)),
        all_below(boards_plan(bs), BOARDS_DIR@ + "/"@),
        forall|i: int|
            0 <= i < boards_plan(bs).len() ==> in_some_board(
                bs,
                entry_name(#[trigger] boards_plan(bs)[i]),
            ),
    decreases bs.len(),
{
    if bs.len() > 0 {
        let pre = bs.drop_last();
        let last = bs.last();
        assert(boards_ok(pre)) by {
            assert forall|i: int, j: int| 0 <= i < j < pre.len() implies (#[trigger] pre[i]).0@
                != (#[trigger] pre[j]).0@ by {
                assert(pre[i] == bs[i] && pre[j] == bs[j]);
            }
            assert forall|i: int| 0 <= i < pre.len() implies no_slash((#[trigger] pre[i]).0@)
                && keys_distinct(pre[i].1.stacked_boards@) by {
                assert(pre[i] == bs[i]);
            }
        }
        lemma_boards(pre);
        let a = boards_plan(pre);
        let b = board_plan(last.0@, last.1);
        assert(bs[bs.len() - 1] == last);
        lemma_board(last.0@, last.1);
        assert(boards_plan(bs) == a + b);
        assert(names_apart(a, b)) by {
            assert forall|i: int, j: int| 0 <= i < a.len() && 0 <= j < b.len() implies entry_name(
                #[trigger] a[i],
            ) != entry_name(#[trigger] b[j]) by {
                assert(in_some_board(pre, entry_name(a[i])));
                let k = choose|k: int|
                    0 <= k < pre.len() && starts_with(entry_name(a[i]), board_dir(#[trigger] pre[k].0@));
                assert(pre[k] == bs[k]);
                lemma_board_dirs_apart(entry_name(a[i]), pre[k].0@, entry_name(b[j]), last.0@);
            }
        }
        lemma_concat_distinct(a, b);
        let c = a + b;
        assert forall|i: int| 0 <= i < c.len() implies in_some_board(bs, entry_name(#[trigger] c[i]))
            && starts_with(entry_name(c[i]), BOARDS_DIR@ + "/"@) && entry_name(c[i]).len() > (
        BOARDS_DIR@ + "/"@).len() by {
            if i < a.len() {
                assert(c[i] == a[i]);
                assert(in_some_board(pre, entry_name(a[i])));
                let k = choose|k: int|
                    0 <= k < pre.len() && starts_with(entry_name(a[i]), board_dir(#[trigger] pre[k].0@));
                assert(pre[k] == bs[k]);
                assert(starts_with(entry_name(c[i]), board_dir(bs[k].0@)));
            } else {
                assert(c[i] == b[i - a.len()]);
                assert(starts_with(entry_name(c[i]), board_dir(bs[bs.len() - 1].0@)));
                lemma_board_dir_below(last.0@, entry_name(c[i]));
            }
        }
    }
}


proof fn lemma_apart_concat_right(a: Seq<EntryView>, b1: Seq<EntryView>, b2: Seq<EntryView>)
    requires
        names_apart(a, b1),
        names_apart(a, b2),
    ensures
        names_apart(a, b1 + b2),
{
    let b = b1 + b2;
    assert forall|i: int, j: int| 0 <= i < a.len() && 0 <= j < b.len() implies entry_name(
        #[trigger] a[i],
    ) != entry_name(#[trigger] b[j]) by {
        if j < b1.len() {
            assert(b[j] == b1[j]);
        } else {
            assert(b[j] == b2[j - b1.len()]);
        }
    }
}

/// The head's names are apart from a list below `q` when each head name is
/// either `q` itself or differs from `q` in its first two characters.
proof fn lemma_head_apart(h: Seq<EntryView>, g: Seq<EntryView>, q: Seq<char>)
    requires
        all_below(g, q),
        q.len() >= 2,
        forall|i: int|
            0 <= i < h.len() ==> entry_name(#[trigger] h[i]) == q || (entry_name(h[i]).len() >= 2
                && (entry_name(h[i])[0] != q[0] || entry_name(h[i])[1] != q[1])),
    ensures
        names_apart(h, g),
{
    assert forall|i: int, j: int| 0 <= i < h.len() && 0 <= j < g.len() implies entry_name(
        #[trigger] h[i],
    ) != entry_name(#[trigger] g[j]) by {
        let y = entry_name(g[j]);
        assert(y[0] == y.subrange(0, q.len() as int)[0]);
        assert(y[1] == y.subrange(0, q.len() as int)[1]);
    }
}

/// The listed files below `dir/` with a non-empty extension have names longer
/// than `dir/`, ending with the extension.
#[verifier::rlimit(50)]
proof fn lemma_listing_below(dir: Seq<char>, src: Seq<char>, names: Seq<Seq<char>>, ext: Seq<char>)
    requires
        seq_distinct(names),
    ensures
        all_below(listing_plan(dir, src, names, ext), dir + "/"@),
        forall|i: int|
            0 <= i < listing_plan(dir, src, names, ext).len() ==> {
                let n = entry_name(#[trigger] listing_plan(dir, src, names, ext)[i]);
                n.subrange(n.len() - ext.len(), n.len() as int) == ext
            },
{
    lemma_listing(dir, src, names, ext);
    let v = listing_plan(dir, src, names, ext);
    assert forall|i: int| 0 <= i < v.len() implies starts_with(entry_name(#[trigger] v[i]), dir + "/"@)
        && entry_name(v[i]).len() > (dir + "/"@).len() && {
        let n = entry_name(v[i]);
        n.subrange(n.len() - ext.len(), n.len() as int) == ext
    } by {
        assert(listed(dir, names, ext, entry_name(v[i])));
        let k = choose|k: int|
            0 <= k < names.len() && extension_of(#[trigger] names[k]) == Some(ext) && entry_name(v[i])
                == dir + "/"@ + names[k];
        lemma_extension_suffix(names[k], ext);
        lemma_starts_with_concat(dir + "/"@, names[k]);
        let n = entry_name(v[i]);
        assert(n.subrange(n.len() - ext.len(), n.len() as int) =~= names[k].subrange(
            names[k].len() - ext.len(),
            names[k].len() as int,
        ));
    }
}

/// The two layer-wide descriptions: the outline and the stackup.
pub open spec fn layer_files_plan(e: PythonExportResult) -> Seq<EntryView> {
    seq![
        EntryView::File(
            LAYERS_DIR@ + "/"@ + BOUNDS_TOML@,
            SourceView::Text(bounds_toml(e.bounds)),
        ),
        EntryView::File(
            LAYERS_DIR@ + "/"@ + STACKUP_TOML@,
            SourceView::Text(stackup_toml(e.stackup)),
        ),
    ]
}

proof fn lemma_prefix_chars()
    ensures
        (COMPONENTS_DIR@ + "/"@).len() == 11,
        (COMPONENTS_DIR@ + "/"@)[0] == 'c',
        (COMPONENTS_DIR@ + "/"@)[1] == 'o',
        (LAYERS_DIR@ + "/"@).len() == 7,
        (LAYERS_DIR@ + "/"@)[0] == 'l',
        (LAYERS_DIR@ + "/"@)[1] == 'a',
        (BOARDS_DIR@ + "/"@).len() == 7,
        (BOARDS_DIR@ + "/"@)[0] == 'b',
        (BOARDS_DIR@ + "/"@)[1] == 'o',
        (PADS_DIR@ + "/"@).len() == 5,
        (PADS_DIR@ + "/"@)[0] == 'p',
        (PADS_DIR@ + "/"@)[1] == 'a',
        PCB_WRL@.len() == 7,
        PCB_WRL@[0] == 'p',
        PCB_WRL@[1] == 'c',
        BOUNDS_TOML@.len() > 0,
        BOUNDS_TOML@[0] == 'b',
        STACKUP_TOML@.len() > 0,
        STACKUP_TOML@[0] == 's',
        BOUNDS_TOML@[BOUNDS_TOML@.len() - 1] == 'l',
        STACKUP_TOML@[STACKUP_TOML@.len() - 1] == 'l',
        "svg"@ =~= seq!['s', 'v', 'g'],
        "wrl"@.len() == 3,
{
    reveal_strlit("pcb.wrl");
    reveal_strlit("components");
    reveal_strlit("layers");
    reveal_strlit("boards");
    reveal_strlit("pads");
    reveal_strlit("bounds.toml");
    reveal_strlit("stackup.toml");
    reveal_strlit("/");
    reveal_strlit("wrl");
    reveal_strlit("svg");
}

/// The layer drawings and the two layer-wide descriptions have distinct names
/// below `layers/`.
#[verifier::rlimit(50)]
proof fn lemma_layers_part(e: PythonExportResult, layers: Seq<Seq<char>>)
    requires
        seq_distinct(layers),
    ensures
        names_distinct(layers_plan(e, layers) + layer_files_plan(e)),
        all_below(layers_plan(e, layers) + layer_files_plan(e), LAYERS_DIR@ + "/"@),
{
    lemma_prefix_chars();
    let l = layers_plan(e, layers);
    let m0 = layer_files_plan(e);
    let lq = LAYERS_DIR@ + "/"@;
    lemma_listing(LAYERS_DIR@, e.layers_dir@, layers, "svg"@);
    lemma_listing_below(LAYERS_DIR@, e.layers_dir@, layers, "svg"@);
    let n0 = entry_name(m0[0]);
    let n1 = entry_name(m0[1]);
    assert(names_distinct(m0)) by {
        assert(n0[7] == BOUNDS_TOML@[0]);
        assert(n1[7] == STACKUP_TOML@[0]);
    }
    assert(all_below(m0, lq)) by {
        lemma_starts_with_concat(lq, BOUNDS_TOML@);
        lemma_starts_with_concat(lq, STACKUP_TOML@);
    }
    assert(names_apart(l, m0)) by {
        assert forall|i: int, j: int| 0 <= i < l.len() && 0 <= j < m0.len() implies entry_name(
            #[trigger] l[i],
        ) != entry_name(#[trigger] m0[j]) by {
            let x = entry_name(l[i]);
            assert(x.subrange(x.len() - 3, x.len() as int) == "svg"@);
            assert(x[x.len() - 1] == x.subrange(x.len() - 3, x.len() as int)[2]);
            assert(n0[n0.len() - 1] == BOUNDS_TOML@[BOUNDS_TOML@.len() - 1]);
            assert(n1[n1.len() - 1] == STACKUP_TOML@[STACKUP_TOML@.len() - 1]);
        }
    }
    lemma_concat_distinct(l, m0);
    lemma_concat_below(l, m0, lq);
}

/// The boards' and pads' entries have distinct names, those of the boards
/// below `boards/` and those of the pads below `pads/`.
proof fn lemma_boards_pads_part(e: PythonExportResult)
    requires
        export_names_ok(e),
    ensures
        names_distinct(boards_plan(e.boards@) + pads_plan(e.pads@)),
        all_below(boards_plan(e.boards@), BOARDS_DIR@ + "/"@),
        all_below(pads_plan(e.pads@), PADS_DIR@ + "/"@),
{
    lemma_prefix_chars();
    let bs = e.boards@;
    assert(boards_ok(bs));
    lemma_boards(bs);
    lemma_pads_distinct(e.pads@);
    lemma_apart_by_prefix(boards_plan(bs), BOARDS_DIR@ + "/"@, pads_plan(e.pads@), PADS_DIR@ + "/"@, 0);
    lemma_concat_distinct(boards_plan(bs), pads_plan(e.pads@));
}

proof fn lemma_assoc(a: Seq<EntryView>, b: Seq<EntryView>, c: Seq<EntryView>)
    ensures
        (a + b) + c == a + (b + c),
{
    assert((a + b) + c =~= a + (b + c));
}

/// The entries after the head have distinct names, each below one of the four
/// directories.
#[verifier::rlimit(50)]
proof fn lemma_body_part(e: PythonExportResult, components: Seq<Seq<char>>, layers: Seq<Seq<char>>)
    requires
        seq_distinct(components),
        seq_distinct(layers),
        export_names_ok(e),
    ensures
        names_distinct(
            components_plan(e, components) + ((layers_plan(e, layers) + layer_files_plan(e)) + (
            boards_plan(e.boards@) + pads_plan(e.pads@))),
        ),
        all_below(components_plan(e, components), COMPONENTS_DIR@ + "/"@),
        all_below(layers_plan(e, layers) + layer_files_plan(e), LAYERS_DIR@ + "/"@),
        all_below(boards_plan(e.boards@), BOARDS_DIR@ + "/"@),
        all_below(pads_plan(e.pads@), PADS_DIR@ + "/"@),
{
    lemma_prefix_chars();
    let c = components_plan(e, components);
    let lm = layers_plan(e, layers) + layer_files_plan(e);
    let b = boards_plan(e.boards@);
    let p = pads_plan(e.pads@);
    let bp = b + p;
    let cq = COMPONENTS_DIR@ + "/"@;
    let lq = LAYERS_DIR@ + "/"@;
    let bq = BOARDS_DIR@ + "/"@;
    let pq = PADS_DIR@ + "/"@;
    lemma_layers_part(e, layers);
    lemma_boards_pads_part(e);
    lemma_listing(COMPONENTS_DIR@, e.components_dir@, components, "wrl"@);
    lemma_listing_below(COMPONENTS_DIR@, e.components_dir@, components, "wrl"@);
    assert(names_apart(lm, bp)) by {
        lemma_apart_by_prefix(lm, lq, b, bq, 0);
        lemma_apart_by_prefix(lm, lq, p, pq, 0);
        lemma_apart_concat_right(lm, b, p);
    }
    lemma_concat_distinct(lm, bp);
    let rest = lm + bp;
    assert(names_apart(c, rest)) by {
        lemma_apart_by_prefix(c, cq, lm, lq, 0);
        lemma_apart_by_prefix(c, cq, b, bq, 0);
        lemma_apart_by_prefix(c, cq, p, pq, 0);
        lemma_apart_concat_right(c, b, p);
        lemma_apart_concat_right(c, lm, bp);
    }
    lemma_concat_distinct(c, rest);
}

/// The head's five names differ from each other and from every later name.
#[verifier::rlimit(50)]
proof fn lemma_head_part(
    e: PythonExportResult,
    c: Seq<EntryView>,
    lm: Seq<EntryView>,
    b: Seq<EntryView>,
    p: Seq<EntryView>,
)
    requires
        all_below(c, COMPONENTS_DIR@ + "/"@),
        all_below(lm, LAYERS_DIR@ + "/"@),
        all_below(b, BOARDS_DIR@ + "/"@),
        all_below(p, PADS_DIR@ + "/"@),
    ensures
        names_distinct(head_plan(e)),
        names_apart(head_plan(e), c + (lm + (b + p))),
{
    lemma_prefix_chars();
    let h = head_plan(e);
    let cq = COMPONENTS_DIR@ + "/"@;
    let lq = LAYERS_DIR@ + "/"@;
    let bq = BOARDS_DIR@ + "/"@;
    let pq = PADS_DIR@ + "/"@;
    assert(entry_name(h[0]) == PCB_WRL@);
    assert(entry_name(h[1]) == cq);
    assert(entry_name(h[2]) == lq);
    assert(entry_name(h[3]) == bq);
    assert(entry_name(h[4]) == pq);
    lemma_head_apart(h, c, cq);
    lemma_head_apart(h, lm, lq);
    lemma_head_apart(h, b, bq);
    lemma_head_apart(h, p, pq);
    lemma_apart_concat_right(h, b, p);
    lemma_apart_concat_right(h, lm, b + p);
    lemma_apart_concat_right(h, c, lm + (b + p));
}

/// No two entries of an archive share a name, provided the listings have no
/// repeated names, the boards have distinct names without `/`, the boards
/// stacked on each board have distinct names, and the pads have distinct names.
#[verifier::rlimit(50)]
pub proof fn lemma_archive_names_distinct(
    e: PythonExportResult,
    components: Seq<Seq<char>>,
    layers: Seq<Seq<char>>,
)
    requires
        seq_distinct(components),
        seq_distinct(layers),
        e.wf(),
        board_names_plain(e),
    ensures
        names_distinct(archive_plan(e, components, layers)),
{
    assert(export_names_ok(e)) by {
        assert forall|i: int| 0 <= i < e.boards@.len() implies keys_distinct(
            (#[trigger] e.boards@[i]).1.stacked_boards@,
        ) by {
            assert(e.boards@[i].1.wf());
        }
    }
    let h = head_plan(e);
    let c = components_plan(e, components);
    let l = layers_plan(e, layers);
    let m0 = layer_files_plan(e);
    let b = boards_plan(e.boards@);
    let p = pads_plan(e.pads@);
    lemma_body_part(e, components, layers);
    lemma_head_part(e, c, l + m0, b, p);
    lemma_concat_distinct(h, c + ((l + m0) + (b + p)));
    assert(metadata_plan(e) == m0 + b + p);
    lemma_assoc(m0, b, p);
    lemma_assoc(l, m0, b + p);
    lemma_assoc(h + c, l, m0 + (b + p));
    lemma_assoc(h, c, l + (m0 + (b + p)));
    assert(archive_plan(e, components, layers) == h + (c + ((l + m0) + (b + p))));
}


proof fn lemma_contains_left(a: Seq<EntryView>, b: Seq<EntryView>, x: EntryView)
    requires
        a.contains(x),
    ensures
        (a + b).contains(x),
{
    let i = choose|i: int| 0 <= i < a.len() && a[i] == x;
    assert((a + b)[i] == x);
}

proof fn lemma_contains_right(a: Seq<EntryView>, b: Seq<EntryView>, x: EntryView)
    requires
        b.contains(x),
    ensures
        (a + b).contains(x),
{
    let i = choose|i: int| 0 <= i < b.len() && b[i] == x;
    assert((a + b)[a.len() + i] == x);
}

/// The entry that copies a listed file.
pub open spec fn listed_entry(dir: Seq<char>, src: Seq<char>, name: Seq<char>) -> EntryView {
    EntryView::File(dir + "/"@ + name, SourceView::InDir(src, name))
}

proof fn lemma_listing_holds(
    dir: Seq<char>,
    src: Seq<char>,
    names: Seq<Seq<char>>,
    ext: Seq<char>,
    k: int,
)
    requires
        0 <= k < names.len(),
        extension_of(names[k]) == Some(ext),
    ensures
        listing_plan(dir, src, names, ext).contains(listed_entry(dir, src, names[k])),
    decreases names.len(),
{
    let pre = names.drop_last();
    let rest = listing_plan(dir, src, pre, ext);
    if k < names.len() - 1 {
        assert(pre[k] == names[k]);
        lemma_listing_holds(dir, src, pre, ext, k);
        if extension_of(names.last()) == Some(ext) {
            let v = listing_plan(dir, src, names, ext);
            let i = choose|i: int| 0 <= i < rest.len() && rest[i] == listed_entry(dir, src, names[k]);
            assert(v[i] == rest[i]);
        }
    } else {
        let v = listing_plan(dir, src, names, ext);
        assert(v[v.len() - 1] == listed_entry(dir, src, names[k]));
    }
}

/// The entry of a pad.
pub open spec fn pad_entry(name: Seq<char>, pad: Pad) -> EntryView {
    EntryView::File(pad_entry_name(name), SourceView::Text(pad_toml(pad)))
}

proof fn lemma_pads_hold(pads: Seq<(String, Pad)>, k: int)
    requires
        0 <= k < pads.len(),
    ensures
        pads_plan(pads).contains(pad_entry(pads[k].0@, pads[k].1)),
    decreases pads.len(),
{
    let pre = pads.drop_last();
    let v = pads_plan(pads);
    if k < pads.len() - 1 {
        assert(pre[k] == pads[k]);
        lemma_pads_hold(pre, k);
        let i = choose|i: int| 0 <= i < pads_plan(pre).len() && pads_plan(pre)[i] == pad_entry(pads[k].0@, pads[k].1);
        assert(v[i] == pads_plan(pre)[i]);
    } else {
        assert(v[v.len() - 1] == pad_entry(pads[k].0@, pads[k].1));
    }
}

/// The directory entry and the outline entry of a board.
pub open spec fn board_entries_of(name: Seq<char>, board: BoardExport) -> (EntryView, EntryView) {
    (
        EntryView::Directory(board_dir(name)),
        EntryView::File(board_dir(name) + BOUNDS_TOML@, SourceView::Text(bounds_toml(board.bounds))),
    )
}

/// The entry of a board stacked on the board `board`.
pub open spec fn stacked_entry(board: Seq<char>, name: Seq<char>, stacked: StackedBoard) -> EntryView {
    EntryView::File(stacked_name(board_dir(board), name), SourceView::Text(stacked_board_toml(stacked)))
}

proof fn lemma_stacked_hold(dir: Seq<char>, st: Seq<(String, StackedBoard)>, j: int)
    requires
        0 <= j < st.len(),
    ensures
        stacked_plan(dir, st).contains(
            EntryView::File(stacked_name(dir, st[j].0@), SourceView::Text(stacked_board_toml(st[j].1))),
        ),
    decreases st.len(),
{
    let x = EntryView::File(stacked_name(dir, st[j].0@), SourceView::Text(stacked_board_toml(st[j].1)));
    let pre = st.drop_last();
    let v = stacked_plan(dir, st);
    if j < st.len() - 1 {
        assert(pre[j] == st[j]);
        lemma_stacked_hold(dir, pre, j);
        let i = choose|i: int| 0 <= i < stacked_plan(dir, pre).len() && stacked_plan(dir, pre)[i] == x;
        assert(v[i] == stacked_plan(dir, pre)[i]);
    } else {
        assert(v[v.len() - 1] == x);
    }
}

/// Every entry of one board's plan is among the entries of all boards.
proof fn lemma_board_in_boards(bs: Seq<(String, BoardExport)>, k: int, x: EntryView)
    requires
        0 <= k < bs.len(),
        board_plan(bs[k].0@, bs[k].1).contains(x),
    ensures
        boards_plan(bs).contains(x),
    decreases bs.len(),
{
    let pre = bs.drop_last();
    let b = board_plan(bs.last().0@, bs.last().1);
    assert(boards_plan(bs) == boards_plan(pre) + b);
    if k < bs.len() - 1 {
        assert(pre[k] == bs[k]);
        lemma_board_in_boards(pre, k, x);
        lemma_contains_left(boards_plan(pre), b, x);
    } else {
        lemma_contains_right(boards_plan(pre), b, x);
    }
}

proof fn lemma_boards_hold(bs: Seq<(String, BoardExport)>, k: int)
    requires
        0 <= k < bs.len(),
    ensures
        boards_plan(bs).contains(board_entries_of(bs[k].0@, bs[k].1).0),
        boards_plan(bs).contains(board_entries_of(bs[k].0@, bs[k].1).1),
        forall|j: int|
            0 <= j < bs[k].1.stacked_boards@.len() ==> boards_plan(bs).contains(
                stacked_entry(bs[k].0@, (#[trigger] bs[k].1.stacked_boards@[j]).0@, bs[k].1.stacked_boards@[j].1),
            ),
{
    let name = bs[k].0@;
    let board = bs[k].1;
    let p = board_plan(name, board);
    let (x, y) = board_entries_of(name, board);
    assert(p[0] == x);
    assert(p[1] == y);
    lemma_board_in_boards(bs, k, x);
    lemma_board_in_boards(bs, k, y);
    let head = seq![x, y];
    let tail = stacked_plan(board_dir(name), board.stacked_boards@);
    assert(p == head + tail);
    assert forall|j: int| 0 <= j < board.stacked_boards@.len() implies boards_plan(bs).contains(
        stacked_entry(name, (#[trigger] board.stacked_boards@[j]).0@, board.stacked_boards@[j].1),
    ) by {
        let z = stacked_entry(name, board.stacked_boards@[j].0@, board.stacked_boards@[j].1);
        lemma_stacked_hold(board_dir(name), board.stacked_boards@, j);
        lemma_contains_right(head, tail, z);
        lemma_board_in_boards(bs, k, z);
    }
}

/// The archive as its four parts: head, components, layers, metadata.
proof fn lemma_archive_parts(e: PythonExportResult, components: Seq<Seq<char>>, layers: Seq<Seq<char>>)
    ensures
        archive_plan(e, components, layers) == ((head_plan(e) + components_plan(e, components))
            + layers_plan(e, layers)) + metadata_plan(e),
        metadata_plan(e) == (layer_files_plan(e) + boards_plan(e.boards@)) + pads_plan(e.pads@),
{
}

proof fn lemma_holds_component(e: PythonExportResult, components: Seq<Seq<char>>, layers: Seq<Seq<char>>, k: int)
    requires
        0 <= k < components.len(),
        extension_of(components[k]) == Some("wrl"@),
    ensures
        archive_plan(e, components, layers).contains(
            listed_entry(COMPONENTS_DIR@, e.components_dir@, components[k]),
        ),
{
    lemma_archive_parts(e, components, layers);
    let h = head_plan(e);
    let c = components_plan(e, components);
    let x = listed_entry(COMPONENTS_DIR@, e.components_dir@, components[k]);
    lemma_listing_holds(COMPONENTS_DIR@, e.components_dir@, components, "wrl"@, k);
    lemma_contains_right(h, c, x);
    lemma_contains_left(h + c, layers_plan(e, layers), x);
    lemma_contains_left((h + c) + layers_plan(e, layers), metadata_plan(e), x);
}

proof fn lemma_holds_layer(e: PythonExportResult, components: Seq<Seq<char>>, layers: Seq<Seq<char>>, k: int)
    requires
        0 <= k < layers.len(),
        extension_of(layers[k]) == Some("svg"@),
    ensures
        archive_plan(e, components, layers).contains(
            listed_entry(LAYERS_DIR@, e.layers_dir@, layers[k]),
        ),
{
    lemma_archive_parts(e, components, layers);
    let hc = head_plan(e) + components_plan(e, components);
    let l = layers_plan(e, layers);
    let x = listed_entry(LAYERS_DIR@, e.layers_dir@, layers[k]);
    lemma_listing_holds(LAYERS_DIR@, e.layers_dir@, layers, "svg"@, k);
    lemma_contains_right(hc, l, x);
    lemma_contains_left(hc + l, metadata_plan(e), x);
}

proof fn lemma_holds_board(e: PythonExportResult, components: Seq<Seq<char>>, layers: Seq<Seq<char>>, k: int)
    requires
        0 <= k < e.boards@.len(),
    ensures
        archive_plan(e, components, layers).contains(
            board_entries_of(e.boards@[k].0@, e.boards@[k].1).0,
        ),
        archive_plan(e, components, layers).contains(
            board_entries_of(e.boards@[k].0@, e.boards@[k].1).1,
        ),
        forall|j: int|
            0 <= j < e.boards@[k].1.stacked_boards@.len() ==> archive_plan(e, components, layers).contains(
                stacked_entry(
                    e.boards@[k].0@,
                    (#[trigger] e.boards@[k].1.stacked_boards@[j]).0@,
                    e.boards@[k].1.stacked_boards@[j].1,
                ),
            ),
{
    lemma_archive_parts(e, components, layers);
    let hcl = (head_plan(e) + components_plan(e, components)) + layers_plan(e, layers);
    let m0 = layer_files_plan(e);
    let b = boards_plan(e.boards@);
    let p = pads_plan(e.pads@);
    let (x, y) = board_entries_of(e.boards@[k].0@, e.boards@[k].1);
    lemma_boards_hold(e.boards@, k);
    lemma_contains_right(m0, b, x);
    lemma_contains_right(m0, b, y);
    lemma_contains_left(m0 + b, p, x);
    lemma_contains_left(m0 + b, p, y);
    lemma_contains_right(hcl, metadata_plan(e), x);
    lemma_contains_right(hcl, metadata_plan(e), y);
    let st = e.boards@[k].1.stacked_boards@;
    assert forall|j: int| 0 <= j < st.len() implies archive_plan(e, components, layers).contains(
        stacked_entry(e.boards@[k].0@, (#[trigger] st[j]).0@, st[j].1),
    ) by {
        let z = stacked_entry(e.boards@[k].0@, st[j].0@, st[j].1);
        lemma_contains_right(m0, b, z);
        lemma_contains_left(m0 + b, p, z);
        lemma_contains_right(hcl, metadata_plan(e), z);
    }
}

proof fn lemma_holds_head(e: PythonExportResult, components: Seq<Seq<char>>, layers: Seq<Seq<char>>, x: EntryView)
    requires
        head_plan(e).contains(x) || layer_files_plan(e).contains(x),
    ensures
        archive_plan(e, components, layers).contains(x),
{
    lemma_archive_parts(e, components, layers);
    let h = head_plan(e);
    let c = components_plan(e, components);
    let l = layers_plan(e, layers);
    let m0 = layer_files_plan(e);
    let b = boards_plan(e.boards@);
    let p = pads_plan(e.pads@);
    if h.contains(x) {
        lemma_contains_left(h, c, x);
        lemma_contains_left(h + c, l, x);
        lemma_contains_left((h + c) + l, metadata_plan(e), x);
    } else {
        lemma_contains_left(m0, b, x);
        lemma_contains_left(m0 + b, p, x);
        lemma_contains_right((h + c) + l, metadata_plan(e), x);
    }
}

proof fn lemma_holds_pad(e: PythonExportResult, components: Seq<Seq<char>>, layers: Seq<Seq<char>>, k: int)
    requires
        0 <= k < e.pads@.len(),
    ensures
        archive_plan(e, components, layers).contains(pad_entry(e.pads@[k].0@, e.pads@[k].1)),
{
    lemma_archive_parts(e, components, layers);
    let hcl = (head_plan(e) + components_plan(e, components)) + layers_plan(e, layers);
    let mb = layer_files_plan(e) + boards_plan(e.boards@);
    let x = pad_entry(e.pads@[k].0@, e.pads@[k].1);
    lemma_pads_hold(e.pads@, k);
    lemma_contains_right(mb, pads_plan(e.pads@), x);
    lemma_contains_right(hcl, metadata_plan(e), x);
}

/// Nothing is left out of an archive: it holds the main model, the four
/// top-level directories and the two layer-wide descriptions; every listed file
/// with the right extension is copied in; and every board, every board stacked
/// on it and every pad of the export has its entries.
pub proof fn lemma_archive_holds_everything(
    e: PythonExportResult,
    components: Seq<Seq<char>>,
    layers: Seq<Seq<char>>,
)
    ensures
        forall|x: EntryView|
            #![trigger head_plan(e).contains(x)]
            #![trigger layer_files_plan(e).contains(x)]
            head_plan(e).contains(x) || layer_files_plan(e).contains(x)
                ==> archive_plan(e, components, layers).contains(x),
        forall|k: int, j: int|
            0 <= k < e.boards@.len() && 0 <= j < e.boards@[k].1.stacked_boards@.len()
                ==> archive_plan(e, components, layers).contains(
                stacked_entry(
                    e.boards@[k].0@,
                    (#[trigger] e.boards@[k].1.stacked_boards@[j]).0@,
                    e.boards@[k].1.stacked_boards@[j].1,
                ),
            ),
        forall|k: int|
            0 <= k < components.len() && extension_of(#[trigger] components[k]) == Some("wrl"@)
                ==> archive_plan(e, components, layers).contains(
                listed_entry(COMPONENTS_DIR@, e.components_dir@, components[k]),
            ),
        forall|k: int|
            0 <= k < layers.len() && extension_of(#[trigger] layers[k]) == Some("svg"@)
                ==> archive_plan(e, components, layers).contains(
                listed_entry(LAYERS_DIR@, e.layers_dir@, layers[k]),
            ),
        forall|k: int|
            0 <= k < e.boards@.len() ==> archive_plan(e, components, layers).contains(
                board_entries_of((#[trigger] e.boards@[k]).0@, e.boards@[k].1).0,
            ) && archive_plan(e, components, layers).contains(
                board_entries_of(e.boards@[k].0@, e.boards@[k].1).1,
            ),
        forall|k: int|
            0 <= k < e.pads@.len() ==> archive_plan(e, components, layers).contains(
                pad_entry((#[trigger] e.pads@[k]).0@, e.pads@[k].1),
            ),
{
    assert forall|x: EntryView| head_plan(e).contains(x) || layer_files_plan(e).contains(x)
        implies archive_plan(e, components, layers).contains(x) by {
        lemma_holds_head(e, components, layers, x);
    }
    assert forall|k: int, j: int|
        0 <= k < e.boards@.len() && 0 <= j < e.boards@[k].1.stacked_boards@.len()
        implies archive_plan(e, components, layers).contains(
        stacked_entry(
            e.boards@[k].0@,
            (#[trigger] e.boards@[k].1.stacked_boards@[j]).0@,
            e.boards@[k].1.stacked_boards@[j].1,
        ),
    ) by {
        lemma_holds_board(e, components, layers, k);
    }
    assert forall|k: int|
        0 <= k < components.len() && extension_of(#[trigger] components[k]) == Some("wrl"@)
        implies archive_plan(e, components, layers).contains(
        listed_entry(COMPONENTS_DIR@, e.components_dir@, components[k]),
    ) by {
        lemma_holds_component(e, components, layers, k);
    }
    assert forall|k: int|
        0 <= k < layers.len() && extension_of(#[trigger] layers[k]) == Some("svg"@)
        implies archive_plan(e, components, layers).contains(
        listed_entry(LAYERS_DIR@, e.layers_dir@, layers[k]),
    ) by {
        lemma_holds_layer(e, components, layers, k);
    }
    assert forall|k: int| 0 <= k < e.boards@.len() implies archive_plan(e, components, layers).contains(
        board_entries_of((#[trigger] e.boards@[k]).0@, e.boards@[k].1).0,
    ) && archive_plan(e, components, layers).contains(
        board_entries_of(e.boards@[k].0@, e.boards@[k].1).1,
    ) by {
        lemma_holds_board(e, components, layers, k);
    }
    assert forall|k: int| 0 <= k < e.pads@.len() implies archive_plan(e, components, layers).contains(
        pad_entry((#[trigger] e.pads@[k]).0@, e.pads@[k].1),
    ) by {
        lemma_holds_pad(e, components, layers, k);
    }
}

} // verus!
